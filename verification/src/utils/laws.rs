//! Laws of the workspace and of the screens: what their operations keep,
//! and which of them undo each other.

use vstd::prelude::*;
use crate::utils::apps::file_explorer::FileExplorerState;
use crate::utils::assembler::command_processor::{
    assembly, bare_command, command_of, first_pass, first_pass_mark, first_pass_stops,
    first_pass_stops_after, layout_error, layout_of, line_text, placed, strip_comment, CommandView,
    FirstPass, MacroView, Section,
};
use crate::text::first_index_of;
use crate::utils::apps::help_guide::{lemma_tick_parts_len, rejoined, tick_parts};
use crate::utils::apps::settings::{next_in, previous_in};
use crate::utils::buffers::{after_write, first_piece, lemma_first_piece};
use crate::utils::ui::common::expired_prefix;
use crate::utils::ui::resources::{with_message, MAX_STATUS_MESSAGES};
use crate::utils::workspaces::opened;

verus! {

/// A program the assembler lays out fits in memory, its segments apart:
/// the text starts inside memory and its instructions end at or before the
/// start of the data; the data ends at or before the start of the stack;
/// the stack starts inside memory and ends within it.
pub proof fn law_layout_fits(cmds: Seq<CommandView>, macros: Seq<MacroView>, total: usize)
    requires
        assembly(cmds, macros, total) is Ok,
    ensures
        ({
            let prog = assembly(cmds, macros, total)->Ok_0;
            &&& prog.text_start < total
            &&& prog.text_start + 4 * prog.text.len() <= prog.data_start
            &&& prog.data_start + prog.data.len() <= prog.stack_start
            &&& prog.stack_start < total
            &&& prog.stack_start + prog.stack_size <= total
        }),
{
}

/// What the first pass keeps of its symbols: a place for each, and every
/// label at most the counter of its section.
pub open spec fn labels_counted(p: FirstPass) -> bool {
    &&& p.places.len() == p.syms.len()
    &&& forall|i: int|
        0 <= i < p.syms.len() ==> (p.places[i] == Some(Section::Text) ==> #[trigger] p.syms[i].1
            <= p.text) && (p.places[i] == Some(Section::Data) ==> p.syms[i].1 <= p.data)
}

/// A first pass that does not stop keeps every label within its counter.
pub proof fn lemma_labels_counted(cmds: Seq<CommandView>)
    requires
        first_pass(cmds) is Ok,
        !first_pass_stops(cmds),
    ensures
        labels_counted(first_pass(cmds)->Ok_0),
    decreases cmds.len(),
{
    if cmds.len() > 0 {
        let d = cmds.drop_last();
        let n = (cmds.len() - 1) as int;
        assert(cmds.take(n) =~= d);
        assert(!first_pass_stops(d)) by {
            if first_pass_stops(d) {
                let i = choose|i: int|
                    0 <= i < d.len() && first_pass_stops_after(#[trigger] first_pass(d.take(i)), d[i]);
                assert(d.take(i) =~= cmds.take(i));
                assert(first_pass_stops_after(first_pass(cmds.take(i)), cmds[i]));
            }
        }
        assert(!first_pass_stops_after(first_pass(cmds.take(n)), cmds[n]));
        lemma_labels_counted(d);
        let st = first_pass(d)->Ok_0;
        let c = cmds.last();
        let st2 = first_pass_mark(st, c)->Ok_0;
        assert(labels_counted(st2)) by {
            assert forall|i: int| 0 <= i < st2.syms.len() implies (st2.places[i] == Some(
                Section::Text,
            ) ==> #[trigger] st2.syms[i].1 <= st2.text) && (st2.places[i] == Some(Section::Data)
                ==> st2.syms[i].1 <= st2.data) by {
                if i < st.syms.len() {
                    assert(st2.syms[i] == st.syms[i]);
                    assert(st2.places[i] == st.places[i]);
                }
            }
        }
    }
}

/// A label stands for its memory address: a label in the text is the start
/// of the text plus its offset, a label in the data the start of the data
/// plus its offset (both as the first pass counted), and neither wraps
/// around; a `.equ` constant stands for its value.
pub proof fn law_labels_are_addresses(cmds: Seq<CommandView>, total: usize, i: int)
    requires
        first_pass(cmds) is Ok,
        !first_pass_stops(cmds),
        layout_error(first_pass(cmds)->Ok_0, total) is None,
        0 <= i < first_pass(cmds)->Ok_0.syms.len(),
    ensures
        ({
            let p = first_pass(cmds)->Ok_0;
            let (ts, ss, sz, ds) = layout_of(p, total);
            let v = p.syms[i].1;
            &&& placed(p, ts, ds)[i].0 == p.syms[i].0
            &&& p.places[i] == Some(Section::Text) ==> placed(p, ts, ds)[i].1 == ts + v
            &&& p.places[i] == Some(Section::Data) ==> placed(p, ts, ds)[i].1 == ds + v
            &&& p.places[i] is None ==> placed(p, ts, ds)[i].1 == v
        }),
{
    lemma_labels_counted(cmds);
    let p = first_pass(cmds)->Ok_0;
    assert(p.syms[i].1 <= p.text || p.places[i] != Some(Section::Text));
}

/// The first `c` in `s + [c] + t`, where `s` holds none, is the one after
/// `s`; and `s` alone holds none.
proof fn lemma_first_index_after(s: Seq<char>, c: char, t: Seq<char>)
    requires
        !s.contains(c),
    ensures
        first_index_of(s + seq![c] + t, c) == Some(s.len() as int),
        first_index_of(s, c) is None,
    decreases s.len(),
{
    let u = s + seq![c] + t;
    if s.len() > 0 {
        assert(s[0] != c) by {
            assert(s.contains(s[0]));
        }
        assert(u.drop_first() =~= s.drop_first() + seq![c] + t);
        assert(!s.drop_first().contains(c)) by {
            if s.drop_first().contains(c) {
                let j = choose|j: int| 0 <= j < s.drop_first().len() && s.drop_first()[j] == c;
                assert(s[j + 1] == c);
            }
        }
        lemma_first_index_after(s.drop_first(), c, t);
    } else {
        assert(u[0] == c);
    }
}

/// A comment does not change what a line parses to: a line without `;`,
/// with `;` and any text after it, parses as the line alone. A line that is
/// blank (once its comment is gone) parses to a command with no opcode and
/// nothing else.
pub proof fn law_comment_ignored<F: Fn(&str) -> Option<u32>>(s: Seq<char>, t: Seq<char>, f: F)
    requires
        !s.contains(';'),
    ensures
        command_of(s + seq![';'] + t, f) == command_of(s, f),
        line_text(s).len() == 0 ==> command_of(s, f) == Ok::<CommandView, Seq<char>>(
            bare_command(seq![], None),
        ),
{
    lemma_first_index_after(s, ';', t);
    let u = s + seq![';'] + t;
    assert(u.take(s.len() as int) =~= s);
    assert(strip_comment(u) == strip_comment(s));
    assert(line_text(u) == line_text(s));
}

/// The messages an update drops are the longest run of run-out messages
/// at the front of the queue: all of them have run out, and the next one,
/// if any, has not.
pub proof fn law_expired_prefix_longest(q: Seq<(Seq<char>, u32)>)
    ensures
        expired_prefix(q) <= q.len(),
        forall|i: int| 0 <= i < expired_prefix(q) ==> #[trigger] q[i].1 == 0,
        expired_prefix(q) < q.len() ==> q[expired_prefix(q) as int].1 != 0,
    decreases q.len(),
{
    if q.len() > 0 && q[0].1 == 0 {
        let r = q.drop_first();
        law_expired_prefix_longest(r);
        assert forall|i: int| 0 <= i < expired_prefix(q) implies #[trigger] q[i].1 == 0 by {
            if i > 0 {
                assert(q[i] == r[i - 1]);
            }
        }
        if expired_prefix(q) < q.len() {
            assert(q[expired_prefix(q) as int] == r[expired_prefix(r) as int]);
        }
    }
}

/// The status line never shows more than three messages: adding one to at
/// most three leaves at most three, the new one last.
pub proof fn law_messages_bounded(shown: Seq<(Seq<char>, u32)>, m: Seq<char>)
    requires
        shown.len() <= MAX_STATUS_MESSAGES,
    ensures
        with_message(shown, m).len() <= MAX_STATUS_MESSAGES,
        with_message(shown, m).last().0 == m,
{
}

/// A file is open at most once: opening a file keeps the open files free
/// of repeats, and the file is then among them.
pub proof fn law_open_files_unique(files: Seq<Seq<char>>, path: Seq<char>)
    requires
        files.no_duplicates(),
    ensures
        opened(files, path).no_duplicates(),
        opened(files, path).contains(path),
{
    if !files.contains(path) {
        let g = files.push(path);
        assert(g[files.len() as int] == path);
        assert forall|i: int, j: int| 0 <= i < g.len() && 0 <= j < g.len() && i != j implies g[i]
            != g[j] by {
            if i < files.len() && j < files.len() {
            } else if i < files.len() {
                assert(files.contains(g[i]));
            } else {
                assert(files.contains(g[j]));
            }
        }
    }
}

/// The help guide shows a line whole: its parts, put back together with
/// the backquotes between them, are the line again.
pub proof fn law_help_parts_rejoin(line: Seq<char>)
    ensures
        rejoined(tick_parts(line)) == line,
    decreases line.len(),
{
    if line.len() > 0 {
        let rest = line.drop_last();
        law_help_parts_rejoin(rest);
        lemma_tick_parts_len(rest);
        let p = tick_parts(rest);
        if line.last() == '`' {
            assert(p.push(Seq::<char>::empty()).drop_last() =~= p);
        } else {
            let q = p.update(p.len() - 1, p.last().push(line.last()));
            if p.len() > 1 {
                assert(q.drop_last() =~= p.drop_last());
            }
        }
        assert(rest.push(line.last()) =~= line);
    }
}

/// Moving down a list and then up again comes back to the same entry
/// (`next_section` and `previous_section`, `next_option` and
/// `previous_option`).
pub proof fn law_next_then_previous(i: usize, n: usize)
    requires
        i < n,
    ensures
        previous_in(Some(next_in(Some(i), n)), n) == i,
        next_in(Some(previous_in(Some(i), n)), n) == i,
{
}

/// After scrolling, the selected entry of the file explorer is among the
/// ten in view.
pub proof fn law_scroll_keeps_selection_in_view(s0: FileExplorerState, s1: FileExplorerState)
    requires
        s0.scroll_offset + 10 <= usize::MAX,
        s1.selected_index == s0.selected_index,
        s1.scroll_offset == ({
            let sel = s0.selected_index;
            let off = s0.scroll_offset;
            let off1 = if sel >= off + 10 {
                (sel - 10 + 1) as usize
            } else {
                off
            };
            if sel < off1 {
                sel
            } else {
                off1
            }
        }),
    ensures
        s1.scroll_offset <= s1.selected_index < s1.scroll_offset + 10,
{
}

/// Bytes without a newline only join the pending line: nothing is handed
/// on.
pub proof fn law_write_without_newline(
    sent: Seq<u8>,
    buff: Seq<u8>,
    b: Seq<u8>,
    reset: Seq<u8>,
)
    requires
        forall|i: int| 0 <= i < b.len() ==> b[i] != 0x0au8,
    ensures
        after_write(sent, buff, b, reset) == (sent, buff + b),
{
    if b.len() > 0 {
        lemma_first_piece(b);
        let p = first_piece(b);
        assert(p.len() == b.len()) by {
            if p.len() < b.len() {
                assert(p.last() == b[p.len() - 1]);
            }
        }
        assert(p =~= b);
        assert(b[b.len() - 1] != 0x0au8);
    } else {
        assert(buff + b =~= buff);
    }
}

/// A single line written whole is handed on with what was pending, and the
/// next line starts with the reset code.
pub proof fn law_write_one_line(sent: Seq<u8>, buff: Seq<u8>, b: Seq<u8>, reset: Seq<u8>)
    requires
        b.len() > 0,
        b.last() == 0x0au8,
        forall|i: int| 0 <= i < b.len() - 1 ==> b[i] != 0x0au8,
    ensures
        after_write(sent, buff, b, reset) == (sent + (buff + b), reset),
{
    lemma_first_piece(b);
    let p = first_piece(b);
    assert(p.len() == b.len()) by {
        if p.len() < b.len() {
            assert(p.last() == b[p.len() - 1]);
        }
    }
    assert(p =~= b);
    assert(b.skip(p.len() as int) =~= Seq::<u8>::empty());
    assert(after_write(sent + (buff + b), reset, Seq::<u8>::empty(), reset) == (
        sent + (buff + b),
        reset,
    ));
}

} // verus!
