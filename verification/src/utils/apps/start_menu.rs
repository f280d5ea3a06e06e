//! The start menu: the screens it leads to, the one selected, and a quote
//! picked at random each time the menu is entered.

use vstd::prelude::*;
use rand::seq::SliceRandom;
use crate::utils::ui::common::{AppState, Key, KeyInput};
use crate::utils::ui::resources::{with_message, AppStatus};
use crate::utils::workspaces::Workspace;
use crate::text::string_from_str;

verus! {

/// The texts of the quotes the start menu shows, each with its author.
pub open spec fn quote_texts() -> Seq<(Seq<char>, Seq<char>)> {
    seq![
        ("The important thing is not to stop questioning. Curiosity has its own reason for existence."@, "Albert Einstein"@),
        ("Science is organized knowledge. Wisdom is organized life."@, "Immanuel Kant"@),
        ("The only way to do great work is to love what you do."@, "Steve Jobs"@),
        ("Imagination is more important than knowledge."@, "Albert Einstein"@),
        ("Life is like riding a bicycle. To keep your balance, you must keep moving."@, "Albert Einstein"@),
        ("The science of today is the technology of tomorrow."@, "Edward Teller"@),
        ("An investment in knowledge pays the best interest."@, "Benjamin Franklin"@),
        ("Nothing in life is to be feared, it is only to be understood. Now is the time to understand more, so that we may fear less."@, "Marie Curie"@),
        ("The good thing about science is that it's true whether or not you believe in it."@, "Neil deGrasse Tyson"@),
        ("Somewhere, something incredible is waiting to be known."@, "Carl Sagan"@),
    ]
}

/// The texts of a list of quotes.
pub open spec fn quote_views(v: Seq<(&'static str, &'static str)>) -> Seq<(Seq<char>, Seq<char>)> {
    v.map_values(|q: (&'static str, &'static str)| (q.0@, q.1@))
}

/// The quotes the start menu shows, each with its author.
pub fn scientist_quotes() -> (v: Vec<(&'static str, &'static str)>)
    ensures
        quote_views(v@) == quote_texts(),
{
    let v = vec![
        ("The important thing is not to stop questioning. Curiosity has its own reason for existence.", "Albert Einstein"),
        ("Science is organized knowledge. Wisdom is organized life.", "Immanuel Kant"),
        ("The only way to do great work is to love what you do.", "Steve Jobs"),
        ("Imagination is more important than knowledge.", "Albert Einstein"),
        ("Life is like riding a bicycle. To keep your balance, you must keep moving.", "Albert Einstein"),
        ("The science of today is the technology of tomorrow.", "Edward Teller"),
        ("An investment in knowledge pays the best interest.", "Benjamin Franklin"),
        ("Nothing in life is to be feared, it is only to be understood. Now is the time to understand more, so that we may fear less.", "Marie Curie"),
        ("The good thing about science is that it's true whether or not you believe in it.", "Neil deGrasse Tyson"),
        ("Somewhere, something incredible is waiting to be known.", "Carl Sagan"),
    ];
    assert(quote_views(v@) =~= quote_texts());
    v
}

/// One of the quotes, picked at random (`SliceRandom::choose` of `rand`,
/// with the thread's generator): `None` exactly when there is none to pick,
/// and otherwise one of them. Which one is left to chance.
#[verifier::external_body]
fn choose_quote(quotes: &[(&'static str, &'static str)]) -> (r: Option<(&'static str, &'static str)>)
    ensures
        r is None <==> quotes@.len() == 0,
        r matches Some(q) ==> quotes@.contains(q),
{
    quotes.choose(&mut rand::thread_rng()).copied()
}

/// A quote picked at random from `scientist_quotes()`.
fn random_quote() -> (r: (String, String))
    ensures
        quote_texts().contains((r.0@, r.1@)),
{
    let quotes = scientist_quotes();
    match choose_quote(quotes.as_slice()) {
        Some(q) => {
            let ghost i = choose|i: int| 0 <= i < quotes@.len() && quotes@[i] == q;
            assert(quote_views(quotes@)[i] == (q.0@, q.1@));
            (string_from_str(q.0), string_from_str(q.1))
        },
        None => (
            string_from_str("The universe is a pretty big place."),
            string_from_str("Carl Sagan"),
        ),
    }
}

/// The state of the start menu.
pub struct StartMenuState {
    /// The selected entry, if any.
    pub selected_index: Option<usize>,
    /// The entries: an icon, a name, and the screen they lead to.
    pub menu_items: Vec<(&'static str, &'static str, AppState)>,
    /// The quote shown.
    pub current_quote: String,
    /// Its author.
    pub current_author: String,
}

/// The screens the menu leads to, in order.
pub open spec fn menu_targets() -> Seq<AppState> {
    seq![
        AppState::FileExplorer,
        AppState::TextEditor,
        AppState::Emulator,
        AppState::Settings,
        AppState::HelpGuide,
    ]
}

/// The screens the entries of a menu lead to.
pub open spec fn targets_of(items: Seq<(&'static str, &'static str, AppState)>) -> Seq<AppState> {
    items.map_values(|it: (&'static str, &'static str, AppState)| it.2)
}

impl Default for StartMenuState {
    /// The menu with its five entries (the file explorer, the text editor,
    /// the emulator, the settings and the help guide), nothing selected,
    /// and a quote picked at random.
    fn default() -> (s: Self)
        ensures
            s.selected_index is None,
            targets_of(s.menu_items@) == menu_targets(),
            quote_texts().contains((s.current_quote@, s.current_author@)),
    {
        let (quote, author) = random_quote();
        let menu_items = vec![
            ("🗀", "File Explorer", AppState::FileExplorer),
            ("✎", "Text Editor", AppState::TextEditor),
            ("▶", "Emulator", AppState::Emulator),
            ("⚙", "Settings", AppState::Settings),
            ("🛈", "Help Guide", AppState::HelpGuide),
        ];
        assert(targets_of(menu_items@) =~= menu_targets());
        StartMenuState {
            selected_index: None,
            menu_items,
            current_quote: quote,
            current_author: author,
        }
    }
}

impl StartMenuState {
    /// The menu as `default` makes it.
    pub fn new() -> (s: Self)
        ensures
            s.selected_index is None,
            targets_of(s.menu_items@) == menu_targets(),
            quote_texts().contains((s.current_quote@, s.current_author@)),
    {
        Self::default()
    }

    /// The selected entry, if one is selected and it exists.
    pub fn selected_item(&self) -> (r: Option<&(&'static str, &'static str, AppState)>)
        ensures
            match self.selected_index {
                Some(i) => if i < self.menu_items@.len() {
                    r == Some(&self.menu_items@[i as int])
                } else {
                    r is None
                },
                None => r is None,
            },
    {
        match self.selected_index {
            Some(i) => if i < self.menu_items.len() {
                Some(&self.menu_items[i])
            } else {
                None
            },
            None => None,
        }
    }
}

/// The status message shown when the menu leads to a screen.
pub open spec fn opening_message(target: AppState) -> Seq<char> {
    match target {
        AppState::FileExplorer => "Opening File Explorer..."@,
        AppState::TextEditor => "Opening Text Editor..."@,
        AppState::Emulator => "Opening Emulator..."@,
        AppState::Settings => "Opening Settings..."@,
        _ => "Navigating..."@,
    }
}

fn opening_text(target: AppState) -> (r: String)
    ensures
        r@ == opening_message(target),
{
    let t = match target {
        AppState::FileExplorer => "Opening File Explorer...",
        AppState::TextEditor => "Opening Text Editor...",
        AppState::Emulator => "Opening Emulator...",
        AppState::Settings => "Opening Settings...",
        _ => "Navigating...",
    };
    string_from_str(t)
}

/// Handles a key on the start menu. Only pressed keys count, and every key
/// below sets `handled`. Down and Up move the selection, wrapping around
/// (with nothing selected, Down selects the first entry and Up the last);
/// Enter goes to the screen of the selected entry, with a status message;
/// a digit from 1 to 5 selects that entry, where it exists, and goes to its
/// screen. Any other character key is only marked handled.
pub fn handle_start_menu_input(
    key: KeyInput,
    menu_state: &mut StartMenuState,
    app_state: &mut AppState,
    app_status: &mut AppStatus,
    _workspace: &Workspace,
    handled: &mut bool,
)
    requires
        key.pressed && (key.code == Key::Up || (key.code == Key::Down
            && old(menu_state).selected_index is Some)) ==> old(menu_state).menu_items@.len() > 0,
        key.pressed && key.code == Key::Down ==> (old(menu_state).selected_index matches Some(i)
            ==> i < usize::MAX),
    ensures
        final(menu_state).menu_items == old(menu_state).menu_items,
        final(menu_state).current_quote == old(menu_state).current_quote,
        final(menu_state).current_author == old(menu_state).current_author,
        final(app_status).is_loading == old(app_status).is_loading,
        ({
            let n = old(menu_state).menu_items@.len();
            let sel0 = old(menu_state).selected_index;
            let sel1 = final(menu_state).selected_index;
            if !key.pressed {
                &&& sel1 == sel0 && *final(app_state) == *old(app_state)
                &&& final(app_status).shown() == old(app_status).shown()
                &&& *final(handled) == *old(handled)
            } else {
                match key.code {
                    Key::Down => {
                        &&& sel1 == Some(
                            match sel0 {
                                Some(i) => ((i + 1) % (n as int)) as usize,
                                None => 0usize,
                            },
                        )
                        &&& *final(app_state) == *old(app_state)
                        &&& final(app_status).shown() == old(app_status).shown()
                        &&& *final(handled)
                    },
                    Key::Up => {
                        &&& sel1 == Some(
                            match sel0 {
                                Some(i) => if i == 0 {
                                    (n - 1) as usize
                                } else {
                                    (i - 1) as usize
                                },
                                None => (n - 1) as usize,
                            },
                        )
                        &&& *final(app_state) == *old(app_state)
                        &&& final(app_status).shown() == old(app_status).shown()
                        &&& *final(handled)
                    },
                    Key::Enter => {
                        &&& sel1 == sel0 && *final(handled)
                        &&& match sel0 {
                            Some(i) => if i < n {
                                let target = old(menu_state).menu_items@[i as int].2;
                                &&& *final(app_state) == target
                                &&& final(app_status).shown() == with_message(
                                    old(app_status).shown(),
                                    opening_message(target),
                                )
                            } else {
                                *final(app_state) == *old(app_state) && final(app_status).shown()
                                    == old(app_status).shown()
                            },
                            None => *final(app_state) == *old(app_state)
                                && final(app_status).shown() == old(app_status).shown(),
                        }
                    },
                    Key::Char(c) => {
                        let d = c as int - '1' as int;
                        &&& final(app_status).shown() == old(app_status).shown()
                        &&& *final(handled)
                        &&& if '1' <= c <= '5' && d < n {
                            sel1 == Some(d as usize) && *final(app_state)
                                == old(menu_state).menu_items@[d].2
                        } else {
                            sel1 == sel0 && *final(app_state) == *old(app_state)
                        }
                    },
                    _ => {
                        &&& sel1 == sel0 && *final(app_state) == *old(app_state)
                        &&& final(app_status).shown() == old(app_status).shown()
                        &&& *final(handled) == *old(handled)
                    },
                }
            }
        }),
{
    if !key.pressed {
        return;
    }
    let item_count = menu_state.menu_items.len();
    match key.code {
        Key::Down => {
            menu_state.selected_index = Some(
                match menu_state.selected_index {
                    Some(i) => (i + 1) % item_count,
                    None => 0,
                },
            );
            *handled = true;
        },
        Key::Up => {
            let last = item_count - 1;
            menu_state.selected_index = Some(
                match menu_state.selected_index {
                    Some(i) => if i == 0 {
                        last
                    } else {
                        i - 1
                    },
                    None => last,
                },
            );
            *handled = true;
        },
        Key::Enter => {
            if let Some(item) = menu_state.selected_item() {
                let target = item.2;
                *app_state = target;
                app_status.set_message(opening_text(target));
            }
            *handled = true;
        },
        Key::Char(c) => {
            if '1' <= c && c <= '5' {
                let index = ((c as u32) - ('1' as u32)) as usize;
                if index < item_count {
                    menu_state.selected_index = Some(index);
                    if let Some(item) = menu_state.selected_item() {
                        *app_state = item.2;
                    }
                }
            }
            *handled = true;
        },
        _ => {},
    }
}

/// Entering the start menu clears the selection, picks a new quote at
/// random, and shows a welcome message.
pub fn on_enter_start_menu(menu_state: &mut StartMenuState, app_status: &mut AppStatus)
    ensures
        final(menu_state).selected_index is None,
        final(menu_state).menu_items == old(menu_state).menu_items,
        quote_texts().contains((final(menu_state).current_quote@, final(menu_state).current_author@)),
        final(app_status).shown() == with_message(
            old(app_status).shown(),
            "Welcome to ARC Emulator! Use arrow keys and Enter to navigate."@,
        ),
        final(app_status).is_loading == old(app_status).is_loading,
{
    menu_state.selected_index = None;
    let (quote, author) = random_quote();
    menu_state.current_quote = quote;
    menu_state.current_author = author;
    app_status.set_message(
        string_from_str("Welcome to ARC Emulator! Use arrow keys and Enter to navigate."),
    );
}

} // verus!
