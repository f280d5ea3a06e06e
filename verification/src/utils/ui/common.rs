//! The screens of the application, and the ageing of status messages.

use vstd::prelude::*;
use crate::utils::ui::resources::{message_views, AppStatus};

verus! {

/// The screens of the application.
#[derive(Clone, Copy, Debug, PartialEq, Eq, Hash, Structural)]
pub enum AppState {
    StartMenu,
    TextEditor,
    FileExplorer,
    Emulator,
    Settings,
    HelpGuide,
    IoDevices,
    Quit,
}

impl Default for AppState {
    fn default() -> (s: Self)
        ensures
            s == AppState::StartMenu,
    {
        AppState::StartMenu
    }
}

/// A key of the keyboard, as the screens read it.
#[derive(Clone, Copy, Debug, PartialEq, Eq, Structural)]
pub enum Key {
    /// A character key.
    Char(char),
    Enter,
    Esc,
    Backspace,
    Delete,
    Tab,
    Up,
    Down,
    Left,
    Right,
    PageUp,
    PageDown,
    Home,
    End,
    /// Any other key.
    Other,
}

/// A key event: the key, whether it was pressed (rather than released or
/// repeated), whether Alt was the only modifier held, and which of Ctrl,
/// Alt and Shift were held.
#[derive(Clone, Copy, Debug, PartialEq, Eq, Structural)]
pub struct KeyInput {
    pub code: Key,
    pub pressed: bool,
    pub alt_only: bool,
    pub ctrl: bool,
    pub alt: bool,
    pub shift: bool,
}

/// Handles the keys that work on every screen: Esc quits the application,
/// and Alt+Q goes back to the start menu. Only pressed keys count; these
/// keys set `handled`.
pub fn handle_global_input(key: KeyInput, app_state: &mut AppState, handled: &mut bool)
    ensures
        !key.pressed ==> *final(app_state) == *old(app_state) && *final(handled) == *old(handled),
        key.pressed ==> {
            if key.alt_only && key.code == Key::Char('q') {
                *final(app_state) == AppState::StartMenu && *final(handled)
            } else if key.code == Key::Esc {
                *final(app_state) == AppState::Quit && *final(handled)
            } else {
                *final(app_state) == *old(app_state) && *final(handled) == *old(handled)
            }
        },
{
    if !key.pressed {
        return;
    }
    if key.code == Key::Esc {
        *app_state = AppState::Quit;
        *handled = true;
    }
    if key.alt_only && key.code == Key::Char('q') {
        *app_state = AppState::StartMenu;
        *handled = true;
    }
}

/// Whether the keys of every screen take a key (see `handle_global_input`).
pub open spec fn global_key(key: KeyInput) -> bool {
    key.pressed && (key.code == Key::Esc || (key.alt_only && key.code == Key::Char('q')))
}

/// Routes a key: the keys of every screen come first (see
/// `handle_global_input`); a key they do not take goes to the screen that
/// was shown, which the answer names, unless the application is quitting.
pub fn route_key(key: KeyInput, app_state: &mut AppState) -> (r: Option<AppState>)
    ensures
        global_key(key) ==> r is None,
        !global_key(key) ==> *final(app_state) == *old(app_state) && r == (if *old(app_state)
            == AppState::Quit {
            None
        } else {
            Some(*old(app_state))
        }),
        key.pressed && key.alt_only && key.code == Key::Char('q') ==> *final(app_state)
            == AppState::StartMenu,
        key.pressed && key.code == Key::Esc && !(key.alt_only && key.code == Key::Char('q'))
            ==> *final(app_state) == AppState::Quit,
{
    let mut handled = false;
    handle_global_input(key, app_state, &mut handled);
    if handled || *app_state == AppState::Quit {
        None
    } else {
        Some(*app_state)
    }
}

/// Whether a screen was just entered and has work to do on entering: the
/// screen changed, to the start menu, the text editor, the file explorer or
/// the emulator.
pub fn screen_entered(previous: AppState, current: AppState) -> (r: bool)
    ensures
        r == (previous != current && (current == AppState::StartMenu || current
            == AppState::TextEditor || current == AppState::FileExplorer || current
            == AppState::Emulator)),
{
    previous != current && match current {
        AppState::StartMenu | AppState::TextEditor | AppState::FileExplorer | AppState::Emulator => true,
        _ => false,
    }
}

/// The icon of a screen in the command bar.
pub fn get_status_icon(app_state: AppState) -> (r: &'static str)
    ensures
        r@ == status_icon(app_state),
{
    match app_state {
        AppState::StartMenu => "⌂",
        AppState::Emulator => "𝈉",
        AppState::Settings => "⌂",
        _ => "🟕 ",
    }
}

/// The icon of a screen in the command bar.
pub open spec fn status_icon(app_state: AppState) -> Seq<char> {
    match app_state {
        AppState::StartMenu => "⌂"@,
        AppState::Emulator => "𝈉"@,
        AppState::Settings => "⌂"@,
        _ => "🟕 "@,
    }
}

/// The key hints of a screen in the command bar.
pub open spec fn hint_text(app_state: AppState) -> Seq<char> {
    match app_state {
        AppState::TextEditor => "Alt+S:Save Alt+A:SaveAs Alt+O:Open Alt+N:New Alt+Q:Back Alt+E:Run"@,
        AppState::FileExplorer => "↓:Down ↑:Up Enter:Open/Enter Alt+N:New Del:Delete Q:Back"@,
        AppState::Emulator => "P:Play/Pause S:Step R:Reset F:Flags I:I/O Q:Back"@,
        AppState::Settings => "↑↓:Navigate Enter:Select Esc:Back"@,
        _ => ""@,
    }
}

/// The key hints of a screen in the command bar.
pub fn command_bar_hint(app_state: AppState) -> (r: &'static str)
    ensures
        r@ == hint_text(app_state),
{
    match app_state {
        AppState::TextEditor => "Alt+S:Save Alt+A:SaveAs Alt+O:Open Alt+N:New Alt+Q:Back Alt+E:Run",
        AppState::FileExplorer => "↓:Down ↑:Up Enter:Open/Enter Alt+N:New Del:Delete Q:Back",
        AppState::Emulator => "P:Play/Pause S:Step R:Reset F:Flags I:I/O Q:Back",
        AppState::Settings => "↑↓:Navigate Enter:Select Esc:Back",
        _ => "",
    }
}

/// Moves the loading indicator on by one frame: while loading, by 5 percent,
/// wrapping after 100; otherwise back to 0.
pub fn advance_loading(status: &mut AppStatus)
    requires
        old(status).is_loading ==> old(status).loading_progress <= 250,
    ensures
        final(status).loading_progress == if old(status).is_loading {
            ((old(status).loading_progress + 5) % 101) as u8
        } else {
            0u8
        },
        final(status).is_loading == old(status).is_loading,
        final(status).messages == old(status).messages,
{
    if status.is_loading {
        status.loading_progress = (((status.loading_progress as u16) + 5) % 101) as u8;
    } else {
        status.loading_progress = 0;
    }
}

/// A message one frame older: its timer down by one, stopping at 0.
pub open spec fn aged(m: (Seq<char>, u32)) -> (Seq<char>, u32) {
    (m.0, if m.1 > 0 {
        (m.1 - 1) as u32
    } else {
        0
    })
}

/// How many messages at the front of the queue have run out.
pub open spec fn expired_prefix(q: Seq<(Seq<char>, u32)>) -> nat
    decreases q.len(),
{
    if q.len() > 0 && q[0].1 == 0 {
        1 + expired_prefix(q.drop_first())
    } else {
        0
    }
}

/// The run-out prefix is no longer than the queue.
pub proof fn lemma_expired_prefix_len(q: Seq<(Seq<char>, u32)>)
    ensures
        expired_prefix(q) <= q.len(),
    decreases q.len(),
{
    if q.len() > 0 && q[0].1 == 0 {
        lemma_expired_prefix_len(q.drop_first());
    }
}

/// Whether some message still had frames left.
pub open spec fn any_running(q: Seq<(Seq<char>, u32)>) -> bool {
    exists|i: int| 0 <= i < q.len() && #[trigger] q[i].1 > 0
}

/// Ages every message by one frame, then drops the run-out messages at the
/// front of the queue. Tells whether anything changed: a timer went down or
/// a message went away.
pub fn update_status_message(status: &mut AppStatus) -> (changed: bool)
    ensures
        ({
            let aged_all = old(status).shown().map_values(|m: (Seq<char>, u32)| aged(m));
            &&& final(status).shown() == aged_all.skip(expired_prefix(aged_all) as int)
            &&& changed == (any_running(old(status).shown()) || expired_prefix(aged_all) > 0)
        }),
        final(status).is_loading == old(status).is_loading,
        final(status).loading_progress == old(status).loading_progress,
{
    let ghost q0 = status.shown();
    let ghost aged_all = q0.map_values(|m: (Seq<char>, u32)| aged(m));
    let n = status.messages.len();
    let mut changed = false;
    let mut i: usize = 0;
    while i < n
        invariant
            i <= n,
            n == q0.len(),
            aged_all == q0.map_values(|m: (Seq<char>, u32)| aged(m)),
            status.shown() == q0.skip(i as int) + aged_all.take(i as int),
            changed == (exists|k: int| 0 <= k < i && #[trigger] q0[k].1 > 0),
            status.is_loading == old(status).is_loading,
            status.loading_progress == old(status).loading_progress,
        decreases n - i,
    {
        let ghost before = status.messages@;
        assert(status.shown().len() == n);
        assert(status.messages@.len() == status.shown().len());
        let front = status.messages.pop_front();
        match front {
            Some((text, timer)) => {
                assert(text@ == q0[i as int].0 && timer == q0[i as int].1) by {
                    assert(message_views(before)[0] == q0.skip(i as int)[0]);
                }
                let t = if timer > 0 {
                    changed = true;
                    timer - 1
                } else {
                    timer
                };
                let ghost mid = status.messages@;
                status.messages.push_back((text, t));
                proof {
                    assert(message_views(mid) =~= message_views(before).drop_first());
                    assert(aged_all.take(i + 1) =~= aged_all.take(i as int).push(aged(q0[i as int])));
                    assert(q0.skip(i as int).drop_first() =~= q0.skip(i + 1));
                    assert(message_views(status.messages@) =~= message_views(mid).push((text@, t)));
                    assert(status.shown() =~= q0.skip(i + 1) + aged_all.take(i + 1));
                }
            },
            None => {
                assert(false);
            },
        }
        i = i + 1;
    }
    proof {
        assert(q0.skip(n as int) + aged_all.take(n as int) =~= aged_all);
    }
    let ghost mut popped_any = false;
    while status.messages.len() > 0 && status.messages[0].1 == 0
        invariant
            aged_all.skip(expired_prefix(aged_all) as int) == status.shown().skip(
                expired_prefix(status.shown()) as int,
            ),
            expired_prefix(aged_all) > 0 <==> (popped_any || expired_prefix(status.shown()) > 0),
            changed == (any_running(q0) || popped_any),
            status.is_loading == old(status).is_loading,
            status.loading_progress == old(status).loading_progress,
        decreases status.messages@.len(),
    {
        let ghost before = status.shown();
        assert(before[0].1 == 0);
        status.messages.pop_front();
        proof {
            assert(status.shown() =~= before.drop_first());
            assert(expired_prefix(before) == 1 + expired_prefix(before.drop_first()));
            lemma_expired_prefix_len(before.drop_first());
            assert(before.skip(expired_prefix(before) as int) =~= before.drop_first().skip(
                expired_prefix(before.drop_first()) as int,
            ));
            assert(before.skip(expired_prefix(before) as int) =~= status.shown().skip(
                expired_prefix(status.shown()) as int,
            ));
            popped_any = true;
        }
        changed = true;
    }
    proof {
        assert(expired_prefix(status.shown()) == 0);
        assert(status.shown().skip(0) =~= status.shown());
    }
    changed
}

} // verus!
