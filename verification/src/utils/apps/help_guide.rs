//! The help guide screen: sections of text, one shown at a time, and how
//! keys move between them and scroll them.

use vstd::prelude::*;
use crate::text::{chars_of, push_char};
use crate::utils::ui::common::{AppState, Key, KeyInput};

verus! {

/// A section of the help guide.
pub struct HelpSection {
    /// The title of the section.
    pub title: String,
    /// The lines of the section.
    pub content: Vec<String>,
}

/// The state of the help guide screen.
pub struct HelpGuideState {
    /// The section shown.
    pub selected_section: usize,
    /// How many lines the section is scrolled down.
    pub scroll_offset: usize,
    /// The sections, in order.
    pub sections: Vec<HelpSection>,
}

impl HelpGuideState {
    /// The guide over the given sections, on the first one, not scrolled.
    pub fn new(sections: Vec<HelpSection>) -> (s: Self)
        ensures
            s.selected_section == 0,
            s.scroll_offset == 0,
            s.sections == sections,
    {
        HelpGuideState { selected_section: 0, scroll_offset: 0, sections }
    }

    /// Keeps the section from scrolling past its end, in a view of `height`
    /// lines: the offset is at most the number of lines that do not fit.
    pub fn clamp_scroll(&mut self, height: usize)
        requires
            old(self).selected_section < old(self).sections@.len(),
        ensures
            ({
                let lines = old(self).sections@[old(self).selected_section as int].content@.len();
                let most = if lines > height {
                    (lines - height) as usize
                } else {
                    0usize
                };
                final(self).scroll_offset == if old(self).scroll_offset >= most {
                    most
                } else {
                    old(self).scroll_offset
                }
            }),
            final(self).selected_section == old(self).selected_section,
            final(self).sections == old(self).sections,
    {
        let lines = self.sections[self.selected_section].content.len();
        let most = lines.saturating_sub(height);
        if self.scroll_offset >= most {
            self.scroll_offset = most;
        }
    }
}

/// The parts of a line between backquotes, as `str::split` gives them: a
/// line with `n` backquotes has `n + 1` parts, empty ones included.
pub open spec fn tick_parts(line: Seq<char>) -> Seq<Seq<char>>
    decreases line.len(),
{
    if line.len() == 0 {
        seq![Seq::<char>::empty()]
    } else {
        let p = tick_parts(line.drop_last());
        if line.last() == '`' {
            p.push(Seq::<char>::empty())
        } else {
            p.update(p.len() - 1, p.last().push(line.last()))
        }
    }
}

/// There is always at least one part.
pub proof fn lemma_tick_parts_len(line: Seq<char>)
    ensures
        tick_parts(line).len() >= 1,
    decreases line.len(),
{
    if line.len() > 0 {
        lemma_tick_parts_len(line.drop_last());
    }
}

/// Parts put back together with a backquote between each two.
pub open spec fn rejoined(parts: Seq<Seq<char>>) -> Seq<char>
    decreases parts.len(),
{
    if parts.len() <= 1 {
        if parts.len() == 1 {
            parts[0]
        } else {
            Seq::<char>::empty()
        }
    } else {
        rejoined(parts.drop_last()) + seq!['`'] + parts.last()
    }
}

/// Whether `spans` shows the line: its parts in order, every other one
/// (those that stood between backquotes) highlighted.
pub open spec fn shown_line(line: Seq<char>, spans: Seq<(String, bool)>) -> bool {
    let parts = tick_parts(line);
    &&& spans.len() == parts.len()
    &&& forall|i: int|
        #![trigger spans[i]]
        0 <= i < parts.len() ==> spans[i].0@ == parts[i] && spans[i].1 == (i % 2 == 1)
}

/// One line split at its backquotes (see `shown_line`).
fn parse_line(line: &String) -> (r: Vec<(String, bool)>)
    ensures
        shown_line(line@, r@),
{
    let cs = chars_of(line.as_str());
    let mut parts: Vec<(String, bool)> = Vec::new();
    let mut current = String::new();
    let mut i: usize = 0;
    while i < cs.len()
        invariant
            i <= cs@.len(),
            cs@ == line@,
            ({
                let p = tick_parts(line@.take(i as int));
                &&& parts@.len() + 1 == p.len()
                &&& current@ == p.last()
                &&& forall|k: int| 0 <= k < parts@.len() ==> #[trigger] parts@[k].0@ == p[k]
                    && parts@[k].1 == (k % 2 == 1)
            }),
        decreases cs@.len() - i,
    {
        let ghost before = line@.take(i as int);
        proof {
            lemma_tick_parts_len(before);
            assert(line@.take(i + 1).drop_last() =~= before);
            assert(line@.take(i + 1).last() == cs@[i as int]);
        }
        let c = cs[i];
        if c == '`' {
            let odd = parts.len() % 2 == 1;
            let done = current;
            parts.push((done, odd));
            current = String::new();
        } else {
            push_char(&mut current, c);
        }
        i = i + 1;
    }
    proof {
        assert(line@.take(cs@.len() as int) =~= line@);
    }
    let ghost p = tick_parts(line@);
    let ghost k = parts@.len() as int;
    let odd = parts.len() % 2 == 1;
    let ghost prev = parts@;
    parts.push((current, odd));
    assert forall|j: int| #![trigger parts@[j]] 0 <= j < p.len() implies parts@[j].0@ == p[j]
        && parts@[j].1 == (j % 2 == 1) by {
        if j < k {
            assert(parts@[j] == prev[j]);
        }
    }
    parts
}

/// The lines of a section, each split at its backquotes for showing (see
/// `shown_line`).
pub fn parse_content(content: &Vec<String>) -> (r: Vec<Vec<(String, bool)>>)
    ensures
        r@.len() == content@.len(),
        forall|i: int| 0 <= i < content@.len() ==> shown_line(#[trigger] content@[i]@, r@[i]@),
{
    let mut r: Vec<Vec<(String, bool)>> = Vec::new();
    let mut i: usize = 0;
    while i < content.len()
        invariant
            i <= content@.len(),
            r@.len() == i,
            forall|k: int| 0 <= k < i ==> shown_line(#[trigger] content@[k]@, r@[k]@),
        decreases content@.len() - i,
    {
        r.push(parse_line(&content[i]));
        i = i + 1;
    }
    r
}

/// Handles a key on the help guide. Only pressed keys count. Esc goes back
/// to the start menu; Right and Left show the next and the previous section
/// (where there is one) from its top; Down and Up scroll by a line, Up not
/// past the top. These keys set `handled`.
pub fn handle_help_guide_input(
    key: KeyInput,
    help_guide_state: &mut HelpGuideState,
    app_state: &mut AppState,
    handled: &mut bool,
)
    requires
        key.pressed && key.code == Key::Right ==> old(help_guide_state).sections@.len() > 0,
    ensures
        final(help_guide_state).sections == old(help_guide_state).sections,
        ({
            let s0 = *old(help_guide_state);
            let s1 = *final(help_guide_state);
            if !key.pressed {
                &&& s1 == s0 && *final(app_state) == *old(app_state)
                &&& *final(handled) == *old(handled)
            } else {
                match key.code {
                    Key::Esc => {
                        &&& *final(app_state) == AppState::StartMenu
                        &&& s1 == s0 && *final(handled)
                    },
                    Key::Right => {
                        &&& *final(app_state) == *old(app_state) && *final(handled)
                        &&& if s0.selected_section < s0.sections@.len() - 1 {
                            s1.selected_section == s0.selected_section + 1 && s1.scroll_offset == 0
                        } else {
                            s1 == s0
                        }
                    },
                    Key::Left => {
                        &&& *final(app_state) == *old(app_state) && *final(handled)
                        &&& if s0.selected_section > 0 {
                            s1.selected_section == s0.selected_section - 1 && s1.scroll_offset == 0
                        } else {
                            s1 == s0
                        }
                    },
                    Key::Down => {
                        &&& *final(app_state) == *old(app_state) && *final(handled)
                        &&& s1.selected_section == s0.selected_section
                        &&& s1.scroll_offset == if s0.scroll_offset < usize::MAX {
                            (s0.scroll_offset + 1) as usize
                        } else {
                            s0.scroll_offset
                        }
                    },
                    Key::Up => {
                        &&& *final(app_state) == *old(app_state) && *final(handled)
                        &&& s1.selected_section == s0.selected_section
                        &&& s1.scroll_offset == if s0.scroll_offset > 0 {
                            (s0.scroll_offset - 1) as usize
                        } else {
                            0
                        }
                    },
                    _ => {
                        &&& s1 == s0 && *final(app_state) == *old(app_state)
                        &&& *final(handled) == *old(handled)
                    },
                }
            }
        }),
{
    if !key.pressed {
        return;
    }
    match key.code {
        Key::Esc => {
            *app_state = AppState::StartMenu;
            *handled = true;
        },
        Key::Right => {
            if help_guide_state.selected_section < help_guide_state.sections.len() - 1 {
                help_guide_state.selected_section = help_guide_state.selected_section + 1;
                help_guide_state.scroll_offset = 0;
            }
            *handled = true;
        },
        Key::Left => {
            if help_guide_state.selected_section > 0 {
                help_guide_state.selected_section = help_guide_state.selected_section - 1;
                help_guide_state.scroll_offset = 0;
            }
            *handled = true;
        },
        Key::Down => {
            help_guide_state.scroll_offset = help_guide_state.scroll_offset.saturating_add(1);
            *handled = true;
        },
        Key::Up => {
            help_guide_state.scroll_offset = help_guide_state.scroll_offset.saturating_sub(1);
            *handled = true;
        },
        _ => {},
    }
}

} // verus!
