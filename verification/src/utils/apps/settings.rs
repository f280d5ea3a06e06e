//! The settings screen: its sections, the option selected in each, the
//! setting being edited, and how keys move between them and change the
//! selected configuration profile.

use vstd::prelude::*;
use crate::text::{
    copy_string, dec_text, is_ascii_digit, is_digit, parse_usize, parse_usize_text, push_char,
    string_of_char, usize_text, without_last_char,
};
use crate::utils::config::app_config::{
    string_views, AppConfig, KeybindingsConfig, UiConfig, WorkspaceConfig,
};
use crate::utils::config::config_manager::ConfigManager;
use crate::utils::ui::common::{AppState, Key, KeyInput};

verus! {

/// The sections of the settings screen.
#[derive(Debug, PartialEq, Eq, Clone, Copy, Structural)]
pub enum SettingSection {
    /// Interface and theme.
    UiAndTheme,
    /// The editor.
    EditorSettings,
    /// The key bindings.
    Keybindings,
    /// The file explorer.
    ExplorerSettings,
    /// The workspace.
    WorkspaceSettings,
    /// Save the changes.
    SaveChanges,
    /// Drop the selections and start the screen over.
    DiscardChanges,
    /// Leave the settings.
    Quit,
}

/// What is being edited or viewed.
#[derive(Debug)]
pub enum SettingEditState {
    /// Nothing: a section is being chosen.
    Idle,
    /// The theme, with the text typed so far.
    EditingTheme(String),
    /// The tab width, with the digits typed so far.
    EditingTabWidth(String),
    /// Whether line numbers are shown.
    EditingLineNumbers(bool),
    /// The key to quit.
    EditingKeybindingQuit(String),
    /// The key to save.
    EditingKeybindingSave(String),
    /// The key for a new file.
    EditingKeybindingNewFile(String),
    /// Whether the explorer shows hidden files.
    EditingExplorerShowHidden(bool),
    /// Whether files are saved automatically.
    EditingAutoSave(bool),
    /// The number of recent files, with the digits typed so far.
    EditingRecentFilesLimit(String),
    /// The options of the editor section.
    ViewingEditorOptions,
    /// The options of the key binding section.
    ViewingKeybindingsOptions,
    /// The options of the workspace section.
    ViewingWorkspaceOptions,
}

/// The mathematical value of a `SettingEditState`.
pub enum EditView {
    Idle,
    EditingTheme(Seq<char>),
    EditingTabWidth(Seq<char>),
    EditingLineNumbers(bool),
    EditingKeybindingQuit(Seq<char>),
    EditingKeybindingSave(Seq<char>),
    EditingKeybindingNewFile(Seq<char>),
    EditingExplorerShowHidden(bool),
    EditingAutoSave(bool),
    EditingRecentFilesLimit(Seq<char>),
    ViewingEditorOptions,
    ViewingKeybindingsOptions,
    ViewingWorkspaceOptions,
}

impl View for SettingEditState {
    type V = EditView;

    open spec fn view(&self) -> EditView {
        match self {
            SettingEditState::Idle => EditView::Idle,
            SettingEditState::EditingTheme(s) => EditView::EditingTheme(s@),
            SettingEditState::EditingTabWidth(s) => EditView::EditingTabWidth(s@),
            SettingEditState::EditingLineNumbers(b) => EditView::EditingLineNumbers(*b),
            SettingEditState::EditingKeybindingQuit(s) => EditView::EditingKeybindingQuit(s@),
            SettingEditState::EditingKeybindingSave(s) => EditView::EditingKeybindingSave(s@),
            SettingEditState::EditingKeybindingNewFile(s) => EditView::EditingKeybindingNewFile(s@),
            SettingEditState::EditingExplorerShowHidden(b) => EditView::EditingExplorerShowHidden(*b),
            SettingEditState::EditingAutoSave(b) => EditView::EditingAutoSave(*b),
            SettingEditState::EditingRecentFilesLimit(s) => EditView::EditingRecentFilesLimit(s@),
            SettingEditState::ViewingEditorOptions => EditView::ViewingEditorOptions,
            SettingEditState::ViewingKeybindingsOptions => EditView::ViewingKeybindingsOptions,
            SettingEditState::ViewingWorkspaceOptions => EditView::ViewingWorkspaceOptions,
        }
    }
}

/// What the caller has to do after a key on the settings screen.
#[derive(Debug, PartialEq, Eq, Clone, Copy, Structural)]
pub enum SettingsAction {
    /// Nothing.
    Nothing,
    /// Save the selected profile (see `ConfigManager::save_current_config`).
    SaveConfig,
}

/// The settings screen.
pub struct SettingsApp {
    /// The sections, in the order shown.
    pub sections: Vec<SettingSection>,
    /// The selected section, if any.
    pub selected_section: Option<usize>,
    /// The selected option of the section, if any.
    pub selected_option_index: Option<usize>,
    /// What is being edited or viewed.
    pub edit_state: SettingEditState,
    /// The profiles.
    pub config_manager: ConfigManager,
}

/// The sections of the screen, in the order shown.
pub open spec fn all_sections() -> Seq<SettingSection> {
    seq![
        SettingSection::UiAndTheme,
        SettingSection::EditorSettings,
        SettingSection::Keybindings,
        SettingSection::ExplorerSettings,
        SettingSection::WorkspaceSettings,
        SettingSection::SaveChanges,
        SettingSection::DiscardChanges,
        SettingSection::Quit,
    ]
}

/// The sections of the screen, in the order shown.
fn default_sections() -> (v: Vec<SettingSection>)
    ensures
        v@ == all_sections(),
{
    let v = vec![
        SettingSection::UiAndTheme,
        SettingSection::EditorSettings,
        SettingSection::Keybindings,
        SettingSection::ExplorerSettings,
        SettingSection::WorkspaceSettings,
        SettingSection::SaveChanges,
        SettingSection::DiscardChanges,
        SettingSection::Quit,
    ];
    assert(v@ =~= all_sections());
    v
}

/// The number of options a section has.
pub open spec fn option_count(s: SettingSection) -> usize {
    match s {
        SettingSection::UiAndTheme => 1,
        SettingSection::EditorSettings => 2,
        SettingSection::Keybindings => 3,
        SettingSection::ExplorerSettings => 1,
        SettingSection::WorkspaceSettings => 3,
        _ => 0,
    }
}

fn options_of(s: SettingSection) -> (n: usize)
    ensures
        n == option_count(s),
{
    match s {
        SettingSection::UiAndTheme => 1,
        SettingSection::EditorSettings => 2,
        SettingSection::Keybindings => 3,
        SettingSection::ExplorerSettings => 1,
        SettingSection::WorkspaceSettings => 3,
        _ => 0,
    }
}

/// The selection after moving down a list of `n` entries, wrapping to the
/// first; with nothing selected, the first.
pub open spec fn next_in(sel: Option<usize>, n: usize) -> usize {
    match sel {
        Some(i) => if i >= n - 1 {
            0
        } else {
            (i + 1) as usize
        },
        None => 0,
    }
}

/// The selection after moving up a list of `n` entries, wrapping to the
/// last; with nothing selected, the first.
pub open spec fn previous_in(sel: Option<usize>, n: usize) -> usize {
    match sel {
        Some(i) => if i == 0 {
            (n - 1) as usize
        } else {
            (i - 1) as usize
        },
        None => 0,
    }
}

/// The section a selection stands on: the selected one, or the first.
pub open spec fn section_index(sel: Option<usize>) -> int {
    match sel {
        Some(i) => i as int,
        None => 0,
    }
}

impl SettingsApp {
    /// The screen over the given profiles: all eight sections, the first
    /// section and its first option selected, nothing edited.
    pub fn new(config_manager: ConfigManager) -> (app: Self)
        ensures
            app.sections@ == all_sections(),
            app.selected_section == Some(0usize),
            app.selected_option_index == Some(0usize),
            app.edit_state@ == EditView::Idle,
            app.config_manager == config_manager,
    {
        SettingsApp {
            sections: default_sections(),
            selected_section: Some(0),
            selected_option_index: Some(0),
            edit_state: SettingEditState::Idle,
            config_manager,
        }
    }

    /// Selects the next section, wrapping to the first, and its first
    /// option.
    pub fn next_section(&mut self)
        requires
            old(self).selected_section is Some ==> old(self).sections@.len() > 0,
        ensures
            final(self).selected_section == Some(
                next_in(old(self).selected_section, old(self).sections@.len() as usize),
            ),
            final(self).selected_option_index == Some(0usize),
            final(self).sections == old(self).sections,
            final(self).edit_state == old(self).edit_state,
            final(self).config_manager == old(self).config_manager,
    {
        let i = match self.selected_section {
            Some(i) => if i >= self.sections.len() - 1 {
                0
            } else {
                i + 1
            },
            None => 0,
        };
        self.selected_section = Some(i);
        self.selected_option_index = Some(0);
    }

    /// Selects the previous section, wrapping to the last, and its first
    /// option.
    pub fn previous_section(&mut self)
        requires
            old(self).selected_section == Some(0usize) ==> old(self).sections@.len() > 0,
        ensures
            final(self).selected_section == Some(
                previous_in(old(self).selected_section, old(self).sections@.len() as usize),
            ),
            final(self).selected_option_index == Some(0usize),
            final(self).sections == old(self).sections,
            final(self).edit_state == old(self).edit_state,
            final(self).config_manager == old(self).config_manager,
    {
        let i = match self.selected_section {
            Some(i) => if i == 0 {
                self.sections.len() - 1
            } else {
                i - 1
            },
            None => 0,
        };
        self.selected_section = Some(i);
        self.selected_option_index = Some(0);
    }

    /// Selects the next option of the selected section (the first section
    /// when none is selected), wrapping to the first; a section without
    /// options has no option selected.
    pub fn next_option(&mut self)
        requires
            section_index(old(self).selected_section) < old(self).sections@.len(),
        ensures
            ({
                let n = option_count(
                    old(self).sections@[section_index(old(self).selected_section)],
                );
                final(self).selected_option_index == if n > 0 {
                    Some(next_in(old(self).selected_option_index, n))
                } else {
                    None
                }
            }),
            final(self).selected_section == old(self).selected_section,
            final(self).sections == old(self).sections,
            final(self).edit_state == old(self).edit_state,
            final(self).config_manager == old(self).config_manager,
    {
        let idx = match self.selected_section {
            Some(i) => i,
            None => 0,
        };
        let n = options_of(self.sections[idx]);
        if n > 0 {
            let i = match self.selected_option_index {
                Some(i) => if i >= n - 1 {
                    0
                } else {
                    i + 1
                },
                None => 0,
            };
            self.selected_option_index = Some(i);
        } else {
            self.selected_option_index = None;
        }
    }

    /// Selects the previous option of the selected section (the first
    /// section when none is selected), wrapping to the last; a section
    /// without options has no option selected.
    pub fn previous_option(&mut self)
        requires
            section_index(old(self).selected_section) < old(self).sections@.len(),
        ensures
            ({
                let n = option_count(
                    old(self).sections@[section_index(old(self).selected_section)],
                );
                final(self).selected_option_index == if n > 0 {
                    Some(previous_in(old(self).selected_option_index, n))
                } else {
                    None
                }
            }),
            final(self).selected_section == old(self).selected_section,
            final(self).sections == old(self).sections,
            final(self).edit_state == old(self).edit_state,
            final(self).config_manager == old(self).config_manager,
    {
        let idx = match self.selected_section {
            Some(i) => i,
            None => 0,
        };
        let n = options_of(self.sections[idx]);
        if n > 0 {
            let i = match self.selected_option_index {
                Some(i) => if i == 0 {
                    n - 1
                } else {
                    i - 1
                },
                None => 0,
            };
            self.selected_option_index = Some(i);
        } else {
            self.selected_option_index = None;
        }
    }
}


// ---------------------------------------------------------------------------
// Keys
// ---------------------------------------------------------------------------

/// Whether the screen is choosing a section or an option, rather than
/// editing a setting.
pub open spec fn is_choosing(e: EditView) -> bool {
    e is Idle || e is ViewingEditorOptions || e is ViewingKeybindingsOptions
        || e is ViewingWorkspaceOptions
}

/// Whether the screen shows the options of a section.
pub open spec fn in_option_view(e: EditView) -> bool {
    e is ViewingEditorOptions || e is ViewingKeybindingsOptions || e is ViewingWorkspaceOptions
}

/// A text without its last character, if it has one.
pub open spec fn without_last(v: Seq<char>) -> Seq<char> {
    if v.len() > 0 {
        v.drop_last()
    } else {
        v
    }
}

/// The selected profile of a screen.
pub open spec fn selected_profile(app: SettingsApp) -> AppConfig {
    app.config_manager.configs@[app.config_manager.selected_config_index as int]
}

/// Whether the key can be handled without stopping the program: a pressed
/// key needs a selected profile; while choosing, the section it stands on
/// must exist, and opening a key binding needs one to be there.
pub open spec fn settings_key_ok(app: SettingsApp, key: KeyInput) -> bool {
    key.pressed ==> {
        &&& app.config_manager.selected_config_index < app.config_manager.configs@.len()
        &&& is_choosing(app.edit_state@) ==> section_index(app.selected_section)
            < app.sections@.len()
        &&& (is_choosing(app.edit_state@) && in_option_view(app.edit_state@) && key.code
            == Key::Enter && app.sections@[section_index(app.selected_section)]
            == SettingSection::Keybindings) ==> {
            let c = selected_profile(app);
            &&& app.selected_option_index == Some(0usize) ==> c.keybindings.quit@.len() > 0
            &&& app.selected_option_index == Some(1usize) ==> c.keybindings.save@.len() > 0
            &&& app.selected_option_index == Some(2usize) ==> c.keybindings.new_file@.len() > 0
        }
    }
}

/// Whether the profile `c1` is `c0` with another theme, `t`.
pub open spec fn theme_set(c0: AppConfig, c1: AppConfig, t: Seq<char>) -> bool {
    c1 == AppConfig { ui: UiConfig { theme: c1.ui.theme, ..c0.ui }, ..c0 } && c1.ui.theme@ == t
}

/// Whether the profile `c1` is `c0` with the quit key bindings `[t]`.
pub open spec fn quit_set(c0: AppConfig, c1: AppConfig, t: Seq<char>) -> bool {
    c1 == AppConfig {
        keybindings: KeybindingsConfig { quit: c1.keybindings.quit, ..c0.keybindings },
        ..c0
    } && string_views(c1.keybindings.quit@) == seq![t]
}

/// Whether the profile `c1` is `c0` with the save key bindings `[t]`.
pub open spec fn save_set(c0: AppConfig, c1: AppConfig, t: Seq<char>) -> bool {
    c1 == AppConfig {
        keybindings: KeybindingsConfig { save: c1.keybindings.save, ..c0.keybindings },
        ..c0
    } && string_views(c1.keybindings.save@) == seq![t]
}

/// Whether the profile `c1` is `c0` with the new-file key bindings `[t]`.
pub open spec fn new_file_set(c0: AppConfig, c1: AppConfig, t: Seq<char>) -> bool {
    c1 == AppConfig {
        keybindings: KeybindingsConfig { new_file: c1.keybindings.new_file, ..c0.keybindings },
        ..c0
    } && string_views(c1.keybindings.new_file@) == seq![t]
}

/// The profile after typing digits for the tab width ends: the width they
/// give, if they give one.
pub open spec fn with_tab_width(c0: AppConfig, v: Seq<char>) -> AppConfig {
    match parse_usize(v) {
        Some(w) => AppConfig { ui: UiConfig { editor_tab_width: w, ..c0.ui }, ..c0 },
        None => c0,
    }
}

/// The profile after typing digits for the recent files limit ends: the
/// limit they give, if they give one.
pub open spec fn with_recent_limit(c0: AppConfig, v: Seq<char>) -> AppConfig {
    match parse_usize(v) {
        Some(n) => AppConfig {
            workspace: WorkspaceConfig { recent_files_limit: n, ..c0.workspace },
            ..c0
        },
        None => c0,
    }
}

/// What a pressed key does while a setting is edited: the edit state and
/// the profile `c0` become `e1` and `c1`, and `handled` tells whether the
/// key was used. Text settings take characters (the numbers only digits)
/// and Backspace, a key binding is replaced by the last character typed,
/// and a yes/no setting flips on Enter; Enter keeps the value and Esc drops
/// it, both going back to where the setting was opened from.
pub open spec fn editing_step(
    e0: EditView,
    key: Key,
    c0: AppConfig,
    e1: EditView,
    c1: AppConfig,
    handled: bool,
) -> bool {
    match e0 {
        EditView::EditingTheme(v) => match key {
            Key::Char(ch) => e1 == EditView::EditingTheme(v.push(ch)) && c1 == c0 && handled,
            Key::Backspace => e1 == EditView::EditingTheme(without_last(v)) && c1 == c0 && handled,
            Key::Enter => e1 == EditView::Idle && theme_set(c0, c1, v) && handled,
            Key::Esc => e1 == EditView::Idle && c1 == c0 && handled,
            _ => e1 == e0 && c1 == c0 && !handled,
        },
        EditView::EditingTabWidth(v) => match key {
            Key::Char(ch) => if is_digit(ch) {
                e1 == EditView::EditingTabWidth(v.push(ch)) && c1 == c0 && handled
            } else {
                e1 == e0 && c1 == c0 && !handled
            },
            Key::Backspace => e1 == EditView::EditingTabWidth(without_last(v)) && c1 == c0
                && handled,
            Key::Enter => e1 == EditView::ViewingEditorOptions && c1 == with_tab_width(c0, v)
                && handled,
            Key::Esc => e1 == EditView::ViewingEditorOptions && c1 == c0 && handled,
            _ => e1 == e0 && c1 == c0 && !handled,
        },
        EditView::EditingLineNumbers(b) => match key {
            Key::Enter => e1 == EditView::ViewingEditorOptions && c1 == AppConfig {
                ui: UiConfig { editor_line_numbers: !b, ..c0.ui },
                ..c0
            } && handled,
            Key::Esc => e1 == EditView::ViewingEditorOptions && c1 == c0 && handled,
            _ => e1 == e0 && c1 == c0 && !handled,
        },
        EditView::EditingKeybindingQuit(v) => match key {
            Key::Char(ch) => e1 == EditView::EditingKeybindingQuit(seq![ch]) && c1 == c0 && handled,
            Key::Enter => e1 == EditView::ViewingKeybindingsOptions && quit_set(c0, c1, v)
                && handled,
            Key::Esc => e1 == EditView::ViewingKeybindingsOptions && c1 == c0 && handled,
            _ => e1 == e0 && c1 == c0 && !handled,
        },
        EditView::EditingKeybindingSave(v) => match key {
            Key::Char(ch) => e1 == EditView::EditingKeybindingSave(seq![ch]) && c1 == c0 && handled,
            Key::Enter => e1 == EditView::ViewingKeybindingsOptions && save_set(c0, c1, v)
                && handled,
            Key::Esc => e1 == EditView::ViewingKeybindingsOptions && c1 == c0 && handled,
            _ => e1 == e0 && c1 == c0 && !handled,
        },
        EditView::EditingKeybindingNewFile(v) => match key {
            Key::Char(ch) => e1 == EditView::EditingKeybindingNewFile(seq![ch]) && c1 == c0
                && handled,
            Key::Enter => e1 == EditView::ViewingKeybindingsOptions && new_file_set(c0, c1, v)
                && handled,
            Key::Esc => e1 == EditView::ViewingKeybindingsOptions && c1 == c0 && handled,
            _ => e1 == e0 && c1 == c0 && !handled,
        },
        EditView::EditingExplorerShowHidden(b) => match key {
            Key::Enter => e1 == EditView::Idle && c1 == AppConfig { explorer_show_hidden: !b, ..c0 }
                && handled,
            Key::Esc => e1 == EditView::Idle && c1 == c0 && handled,
            _ => e1 == e0 && c1 == c0 && !handled,
        },
        EditView::EditingAutoSave(b) => match key {
            Key::Enter => e1 == EditView::ViewingWorkspaceOptions && c1 == AppConfig {
                workspace: WorkspaceConfig { auto_save: !b, ..c0.workspace },
                ..c0
            } && handled,
            Key::Esc => e1 == EditView::ViewingWorkspaceOptions && c1 == c0 && handled,
            _ => e1 == e0 && c1 == c0 && !handled,
        },
        EditView::EditingRecentFilesLimit(v) => match key {
            Key::Char(ch) => if is_digit(ch) {
                e1 == EditView::EditingRecentFilesLimit(v.push(ch)) && c1 == c0 && handled
            } else {
                e1 == e0 && c1 == c0 && !handled
            },
            Key::Backspace => e1 == EditView::EditingRecentFilesLimit(without_last(v)) && c1 == c0
                && handled,
            Key::Enter => e1 == EditView::ViewingWorkspaceOptions && c1 == with_recent_limit(c0, v)
                && handled,
            Key::Esc => e1 == EditView::ViewingWorkspaceOptions && c1 == c0 && handled,
            _ => e1 == e0 && c1 == c0 && !handled,
        },
        _ => e1 == e0 && c1 == c0 && !handled,
    }
}

/// Whether a key is used while a setting is edited.
pub open spec fn editing_handles(e0: EditView, key: Key) -> bool {
    match e0 {
        EditView::EditingTheme(_) => key is Char || key is Backspace || key is Enter || key is Esc,
        EditView::EditingTabWidth(_) | EditView::EditingRecentFilesLimit(_) => (key matches Key::Char(
            ch,
        ) && is_digit(ch)) || key is Backspace || key is Enter || key is Esc,
        EditView::EditingKeybindingQuit(_) | EditView::EditingKeybindingSave(_)
        | EditView::EditingKeybindingNewFile(_) => key is Char || key is Enter || key is Esc,
        EditView::EditingLineNumbers(_) | EditView::EditingExplorerShowHidden(_)
        | EditView::EditingAutoSave(_) => key is Enter || key is Esc,
        _ => false,
    }
}

/// Whether a key is used while a section or an option is chosen.
pub open spec fn choosing_handles(key: Key) -> bool {
    key == Key::Char('q') || key == Key::Esc || key == Key::Down || key == Key::Up || key
        == Key::Enter
}

/// Takes the selected profile out of the list.
fn take_selected(m: &mut ConfigManager) -> (c: AppConfig)
    requires
        old(m).selected_config_index < old(m).configs@.len(),
    ensures
        c == old(m).configs@[old(m).selected_config_index as int],
        final(m).configs@ == old(m).configs@.remove(old(m).selected_config_index as int),
        final(m).selected_config_index == old(m).selected_config_index,
{
    let i = m.selected_config_index;
    m.configs.remove(i)
}

/// Puts a profile back where the selected one was taken out.
fn put_selected(m: &mut ConfigManager, c: AppConfig, Ghost(before): Ghost<Seq<AppConfig>>)
    requires
        old(m).selected_config_index < before.len(),
        old(m).configs@ == before.remove(old(m).selected_config_index as int),
    ensures
        final(m).configs@ == before.update(old(m).selected_config_index as int, c),
        final(m).selected_config_index == old(m).selected_config_index,
{
    let i = m.selected_config_index;
    m.configs.insert(i, c);
    assert(m.configs@ =~= before.update(i as int, c));
}

/// Handles a pressed key while a setting is edited (see `editing_step`).
#[verifier::rlimit(60)]
fn handle_editing(key: Key, app: &mut SettingsApp) -> (handled: bool)
    requires
        !is_choosing(old(app).edit_state@),
        old(app).config_manager.selected_config_index < old(app).config_manager.configs@.len(),
    ensures
        ({
            let ci = old(app).config_manager.selected_config_index as int;
            let c1 = final(app).config_manager.configs@[ci];
            &&& final(app).config_manager.selected_config_index == ci
            &&& final(app).config_manager.configs@ == old(
                app,
            ).config_manager.configs@.update(ci, c1)
            &&& editing_step(
                old(app).edit_state@,
                key,
                old(app).config_manager.configs@[ci],
                final(app).edit_state@,
                c1,
                handled,
            )
        }),
        final(app).sections == old(app).sections,
        final(app).selected_section == old(app).selected_section,
        final(app).selected_option_index == old(app).selected_option_index,
{
    let ghost before = app.config_manager.configs@;
    let ghost ci = app.config_manager.selected_config_index as int;
    let mut c = take_selected(&mut app.config_manager);
    let mut handled = false;
    match &app.edit_state {
        SettingEditState::EditingTheme(v) => {
            match key {
                Key::Char(ch) => {
                    let mut t = copy_string(v);
                    push_char(&mut t, ch);
                    app.edit_state = SettingEditState::EditingTheme(t);
                    handled = true;
                },
                Key::Backspace => {
                    let t = without_last_char(v);
                    app.edit_state = SettingEditState::EditingTheme(t);
                    handled = true;
                },
                Key::Enter => {
                    c.ui.theme = copy_string(v);
                    app.edit_state = SettingEditState::Idle;
                    handled = true;
                },
                Key::Esc => {
                    app.edit_state = SettingEditState::Idle;
                    handled = true;
                },
                _ => {},
            }
        },
        SettingEditState::EditingTabWidth(v) => {
            match key {
                Key::Char(ch) => {
                    if is_ascii_digit(ch) {
                        let mut t = copy_string(v);
                        push_char(&mut t, ch);
                        app.edit_state = SettingEditState::EditingTabWidth(t);
                        handled = true;
                    }
                },
                Key::Backspace => {
                    let t = without_last_char(v);
                    app.edit_state = SettingEditState::EditingTabWidth(t);
                    handled = true;
                },
                Key::Enter => {
                    if let Some(width) = parse_usize_text(v) {
                        c.ui.editor_tab_width = width;
                    }
                    app.edit_state = SettingEditState::ViewingEditorOptions;
                    handled = true;
                },
                Key::Esc => {
                    app.edit_state = SettingEditState::ViewingEditorOptions;
                    handled = true;
                },
                _ => {},
            }
        },
        SettingEditState::EditingLineNumbers(b) => {
            match key {
                Key::Enter => {
                    c.ui.editor_line_numbers = !*b;
                    app.edit_state = SettingEditState::ViewingEditorOptions;
                    handled = true;
                },
                Key::Esc => {
                    app.edit_state = SettingEditState::ViewingEditorOptions;
                    handled = true;
                },
                _ => {},
            }
        },
        SettingEditState::EditingKeybindingQuit(v) => {
            match key {
                Key::Char(ch) => {
                    app.edit_state = SettingEditState::EditingKeybindingQuit(string_of_char(ch));
                    handled = true;
                },
                Key::Enter => {
                    c.keybindings.quit = single_string(v);
                    app.edit_state = SettingEditState::ViewingKeybindingsOptions;
                    handled = true;
                },
                Key::Esc => {
                    app.edit_state = SettingEditState::ViewingKeybindingsOptions;
                    handled = true;
                },
                _ => {},
            }
        },
        SettingEditState::EditingKeybindingSave(v) => {
            match key {
                Key::Char(ch) => {
                    app.edit_state = SettingEditState::EditingKeybindingSave(string_of_char(ch));
                    handled = true;
                },
                Key::Enter => {
                    c.keybindings.save = single_string(v);
                    app.edit_state = SettingEditState::ViewingKeybindingsOptions;
                    handled = true;
                },
                Key::Esc => {
                    app.edit_state = SettingEditState::ViewingKeybindingsOptions;
                    handled = true;
                },
                _ => {},
            }
        },
        SettingEditState::EditingKeybindingNewFile(v) => {
            match key {
                Key::Char(ch) => {
                    app.edit_state = SettingEditState::EditingKeybindingNewFile(
                        string_of_char(ch),
                    );
                    handled = true;
                },
                Key::Enter => {
                    c.keybindings.new_file = single_string(v);
                    app.edit_state = SettingEditState::ViewingKeybindingsOptions;
                    handled = true;
                },
                Key::Esc => {
                    app.edit_state = SettingEditState::ViewingKeybindingsOptions;
                    handled = true;
                },
                _ => {},
            }
        },
        SettingEditState::EditingExplorerShowHidden(b) => {
            match key {
                Key::Enter => {
                    c.explorer_show_hidden = !*b;
                    app.edit_state = SettingEditState::Idle;
                    handled = true;
                },
                Key::Esc => {
                    app.edit_state = SettingEditState::Idle;
                    handled = true;
                },
                _ => {},
            }
        },
        SettingEditState::EditingAutoSave(b) => {
            match key {
                Key::Enter => {
                    c.workspace.auto_save = !*b;
                    app.edit_state = SettingEditState::ViewingWorkspaceOptions;
                    handled = true;
                },
                Key::Esc => {
                    app.edit_state = SettingEditState::ViewingWorkspaceOptions;
                    handled = true;
                },
                _ => {},
            }
        },
        SettingEditState::EditingRecentFilesLimit(v) => {
            match key {
                Key::Char(ch) => {
                    if is_ascii_digit(ch) {
                        let mut t = copy_string(v);
                        push_char(&mut t, ch);
                        app.edit_state = SettingEditState::EditingRecentFilesLimit(t);
                        handled = true;
                    }
                },
                Key::Backspace => {
                    let t = without_last_char(v);
                    app.edit_state = SettingEditState::EditingRecentFilesLimit(t);
                    handled = true;
                },
                Key::Enter => {
                    if let Some(limit) = parse_usize_text(v) {
                        c.workspace.recent_files_limit = limit;
                    }
                    app.edit_state = SettingEditState::ViewingWorkspaceOptions;
                    handled = true;
                },
                Key::Esc => {
                    app.edit_state = SettingEditState::ViewingWorkspaceOptions;
                    handled = true;
                },
                _ => {},
            }
        },
        _ => {},
    }
    put_selected(&mut app.config_manager, c, Ghost(before));
    handled
}

/// A list that holds a copy of `v` alone.
fn single_string(v: &String) -> (r: Vec<String>)
    ensures
        string_views(r@) == seq![v@],
{
    let mut r: Vec<String> = Vec::new();
    r.push(copy_string(v));
    assert(string_views(r@) =~= seq![v@]);
    r
}


/// The setting that Enter opens on option `k` of the section `sec`, with
/// the values of the profile `c`; `e0` where that option opens none.
pub open spec fn opened_option(sec: SettingSection, k: usize, c: AppConfig, e0: EditView) -> EditView {
    match sec {
        SettingSection::EditorSettings => if k == 0 {
            EditView::EditingTabWidth(dec_text(c.ui.editor_tab_width as nat))
        } else if k == 1 {
            EditView::EditingLineNumbers(c.ui.editor_line_numbers)
        } else {
            e0
        },
        SettingSection::Keybindings => if k == 0 {
            EditView::EditingKeybindingQuit(c.keybindings.quit@[0]@)
        } else if k == 1 {
            EditView::EditingKeybindingSave(c.keybindings.save@[0]@)
        } else if k == 2 {
            EditView::EditingKeybindingNewFile(c.keybindings.new_file@[0]@)
        } else {
            e0
        },
        SettingSection::WorkspaceSettings => if k == 0 {
            EditView::EditingAutoSave(c.workspace.auto_save)
        } else if k == 1 {
            EditView::EditingRecentFilesLimit(dec_text(c.workspace.recent_files_limit as nat))
        } else {
            e0
        },
        _ => e0,
    }
}

/// Whether the screen `a1` is `a0` with other selections and edit state
/// only.
pub open spec fn same_lists(a0: SettingsApp, a1: SettingsApp) -> bool {
    a1.sections == a0.sections && a1.config_manager == a0.config_manager
}

/// What a pressed key does while a section or an option is chosen: the
/// screen `a0` and the application state `s0` become `a1` and `s1`,
/// `handled` tells whether the key was used and `act` what the caller has
/// to do. `q` and Esc close the options shown, or leave the screen; Up and
/// Down move among the options shown, or the sections; Enter opens the
/// option or section chosen (a section with options shows them, with the
/// first one chosen), and on the last three sections saves, starts the
/// screen over, or leaves it.
pub open spec fn choosing_step(
    a0: SettingsApp,
    key: Key,
    a1: SettingsApp,
    s0: AppState,
    s1: AppState,
    handled: bool,
    act: SettingsAction,
) -> bool {
    let in_view = in_option_view(a0.edit_state@);
    let sec = a0.sections@[section_index(a0.selected_section)];
    let c = selected_profile(a0);
    let n = option_count(sec);
    if key == Key::Char('q') || key == Key::Esc {
        &&& handled && act == SettingsAction::Nothing && same_lists(a0, a1)
        &&& a1.selected_section == a0.selected_section
        &&& if in_view {
            a1.edit_state@ == EditView::Idle && a1.selected_option_index is None && s1 == s0
        } else {
            a1.edit_state == a0.edit_state && a1.selected_option_index == a0.selected_option_index
                && s1 == AppState::StartMenu
        }
    } else if key == Key::Down || key == Key::Up {
        &&& handled && act == SettingsAction::Nothing && same_lists(a0, a1) && s1 == s0
        &&& a1.edit_state == a0.edit_state
        &&& if in_view {
            &&& a1.selected_section == a0.selected_section
            &&& a1.selected_option_index == if n > 0 {
                Some(
                    if key == Key::Down {
                        next_in(a0.selected_option_index, n)
                    } else {
                        previous_in(a0.selected_option_index, n)
                    },
                )
            } else {
                None
            }
        } else {
            &&& a1.selected_section == Some(
                if key == Key::Down {
                    next_in(a0.selected_section, a0.sections@.len() as usize)
                } else {
                    previous_in(a0.selected_section, a0.sections@.len() as usize)
                },
            )
            &&& a1.selected_option_index == Some(0usize)
        }
    } else if key == Key::Enter {
        &&& handled
        &&& if in_view {
            &&& act == SettingsAction::Nothing && same_lists(a0, a1) && s1 == s0
            &&& a1.selected_section == a0.selected_section
            &&& a1.selected_option_index == a0.selected_option_index
            &&& a1.edit_state@ == match a0.selected_option_index {
                Some(k) => opened_option(sec, k, c, a0.edit_state@),
                None => a0.edit_state@,
            }
        } else if sec == SettingSection::DiscardChanges {
            &&& act == SettingsAction::Nothing && s1 == s0
            &&& a1.sections@ == all_sections() && a1.config_manager == a0.config_manager
            &&& a1.selected_section == Some(0usize) && a1.selected_option_index == Some(0usize)
            &&& a1.edit_state@ == EditView::Idle
        } else {
            &&& same_lists(a0, a1) && a1.selected_section == a0.selected_section
            &&& act == if sec == SettingSection::SaveChanges {
                SettingsAction::SaveConfig
            } else {
                SettingsAction::Nothing
            }
            &&& s1 == if sec == SettingSection::Quit {
                AppState::StartMenu
            } else {
                s0
            }
            &&& a1.selected_option_index == if sec == SettingSection::EditorSettings || sec
                == SettingSection::Keybindings || sec == SettingSection::WorkspaceSettings {
                Some(0usize)
            } else {
                a0.selected_option_index
            }
            &&& a1.edit_state@ == match sec {
                SettingSection::UiAndTheme => EditView::EditingTheme(c.ui.theme@),
                SettingSection::EditorSettings => EditView::ViewingEditorOptions,
                SettingSection::Keybindings => EditView::ViewingKeybindingsOptions,
                SettingSection::ExplorerSettings => EditView::EditingExplorerShowHidden(
                    c.explorer_show_hidden,
                ),
                SettingSection::WorkspaceSettings => EditView::ViewingWorkspaceOptions,
                _ => a0.edit_state@,
            }
        }
    } else {
        &&& !handled && act == SettingsAction::Nothing && same_lists(a0, a1) && s1 == s0
        &&& a1.selected_section == a0.selected_section
        &&& a1.selected_option_index == a0.selected_option_index
        &&& a1.edit_state == a0.edit_state
    }
}

/// Handles a pressed key while a section or an option is chosen (see
/// `choosing_step`).
#[verifier::rlimit(80)]
fn handle_choosing(input: KeyInput, app: &mut SettingsApp, app_state: &mut AppState) -> (r: (
    bool,
    SettingsAction,
))
    requires
        input.pressed,
        is_choosing(old(app).edit_state@),
        settings_key_ok(*old(app), input),
    ensures
        choosing_step(
            *old(app),
            input.code,
            *final(app),
            *old(app_state),
            *final(app_state),
            r.0,
            r.1,
        ),
{
    let key = input.code;
    let ghost a0 = *app;
    let idx = match app.selected_section {
        Some(i) => i,
        None => 0,
    };
    let current = app.sections[idx];
    let in_view = match app.edit_state {
        SettingEditState::ViewingEditorOptions => true,
        SettingEditState::ViewingKeybindingsOptions => true,
        SettingEditState::ViewingWorkspaceOptions => true,
        _ => false,
    };
    match key {
        Key::Char('q') | Key::Esc => {
            if in_view {
                app.edit_state = SettingEditState::Idle;
                app.selected_option_index = None;
            } else {
                *app_state = AppState::StartMenu;
            }
            (true, SettingsAction::Nothing)
        },
        Key::Down => {
            if in_view {
                app.next_option();
            } else {
                app.next_section();
            }
            (true, SettingsAction::Nothing)
        },
        Key::Up => {
            if in_view {
                app.previous_option();
            } else {
                app.previous_section();
            }
            (true, SettingsAction::Nothing)
        },
        Key::Enter => {
            let ci = app.config_manager.selected_config_index;
            if in_view {
                if let Some(k) = app.selected_option_index {
                    let c = &app.config_manager.configs[ci];
                    match current {
                        SettingSection::EditorSettings => {
                            if k == 0 {
                                app.edit_state = SettingEditState::EditingTabWidth(
                                    usize_text(c.ui.editor_tab_width),
                                );
                            } else if k == 1 {
                                app.edit_state = SettingEditState::EditingLineNumbers(
                                    c.ui.editor_line_numbers,
                                );
                            }
                        },
                        SettingSection::Keybindings => {
                            if k == 0 {
                                app.edit_state = SettingEditState::EditingKeybindingQuit(
                                    copy_string(&c.keybindings.quit[0]),
                                );
                            } else if k == 1 {
                                app.edit_state = SettingEditState::EditingKeybindingSave(
                                    copy_string(&c.keybindings.save[0]),
                                );
                            } else if k == 2 {
                                app.edit_state = SettingEditState::EditingKeybindingNewFile(
                                    copy_string(&c.keybindings.new_file[0]),
                                );
                            }
                        },
                        SettingSection::WorkspaceSettings => {
                            if k == 0 {
                                app.edit_state = SettingEditState::EditingAutoSave(
                                    c.workspace.auto_save,
                                );
                            } else if k == 1 {
                                app.edit_state = SettingEditState::EditingRecentFilesLimit(
                                    usize_text(c.workspace.recent_files_limit),
                                );
                            }
                        },
                        _ => {},
                    }
                }
                (true, SettingsAction::Nothing)
            } else {
                match current {
                    SettingSection::UiAndTheme => {
                        let t = copy_string(&app.config_manager.configs[ci].ui.theme);
                        app.edit_state = SettingEditState::EditingTheme(t);
                        (true, SettingsAction::Nothing)
                    },
                    SettingSection::EditorSettings => {
                        app.edit_state = SettingEditState::ViewingEditorOptions;
                        app.selected_option_index = Some(0);
                        (true, SettingsAction::Nothing)
                    },
                    SettingSection::Keybindings => {
                        app.edit_state = SettingEditState::ViewingKeybindingsOptions;
                        app.selected_option_index = Some(0);
                        (true, SettingsAction::Nothing)
                    },
                    SettingSection::ExplorerSettings => {
                        let b = app.config_manager.configs[ci].explorer_show_hidden;
                        app.edit_state = SettingEditState::EditingExplorerShowHidden(b);
                        (true, SettingsAction::Nothing)
                    },
                    SettingSection::WorkspaceSettings => {
                        app.edit_state = SettingEditState::ViewingWorkspaceOptions;
                        app.selected_option_index = Some(0);
                        (true, SettingsAction::Nothing)
                    },
                    SettingSection::SaveChanges => (true, SettingsAction::SaveConfig),
                    SettingSection::DiscardChanges => {
                        app.sections = default_sections();
                        app.selected_section = Some(0);
                        app.selected_option_index = Some(0);
                        app.edit_state = SettingEditState::Idle;
                        (true, SettingsAction::Nothing)
                    },
                    SettingSection::Quit => {
                        *app_state = AppState::StartMenu;
                        (true, SettingsAction::Nothing)
                    },
                }
            }
        },
        _ => (false, SettingsAction::Nothing),
    }
}

/// Whether handling the key would stop the program (see
/// `settings_key_ok`): `handle_settings_input` may be called where this is
/// `false`.
pub fn settings_input_stops(settings_app: &SettingsApp, key: KeyInput) -> (r: bool)
    ensures
        r == !settings_key_ok(*settings_app, key),
{
    if !key.pressed {
        return false;
    }
    let m = &settings_app.config_manager;
    if m.selected_config_index >= m.configs.len() {
        return true;
    }
    let choosing = match settings_app.edit_state {
        SettingEditState::Idle => true,
        SettingEditState::ViewingEditorOptions => true,
        SettingEditState::ViewingKeybindingsOptions => true,
        SettingEditState::ViewingWorkspaceOptions => true,
        _ => false,
    };
    if !choosing {
        return false;
    }
    let idx = match settings_app.selected_section {
        Some(i) => i,
        None => 0,
    };
    if idx >= settings_app.sections.len() {
        return true;
    }
    let in_view = match settings_app.edit_state {
        SettingEditState::Idle => false,
        _ => true,
    };
    if in_view && key.code == Key::Enter && settings_app.sections[idx]
        == SettingSection::Keybindings {
        let c = &m.configs[m.selected_config_index];
        match settings_app.selected_option_index {
            Some(k) => {
                if k == 0 {
                    c.keybindings.quit.len() == 0
                } else if k == 1 {
                    c.keybindings.save.len() == 0
                } else if k == 2 {
                    c.keybindings.new_file.len() == 0
                } else {
                    false
                }
            },
            None => false,
        }
    } else {
        false
    }
}

/// Handles a key on the settings screen. Only pressed keys count. While a
/// section or an option is chosen, see `choosing_step`; while a setting is
/// edited, see `editing_step`, which changes the selected profile. A key
/// that is used sets `handled`; the answer tells the caller whether to
/// save the selected profile.
pub fn handle_settings_input(
    key: KeyInput,
    settings_app: &mut SettingsApp,
    app_state: &mut AppState,
    handled: &mut bool,
) -> (r: SettingsAction)
    requires
        settings_key_ok(*old(settings_app), key),
    ensures
        !key.pressed ==> {
            &&& r == SettingsAction::Nothing
            &&& *final(settings_app) == *old(settings_app)
            &&& *final(app_state) == *old(app_state)
            &&& *final(handled) == *old(handled)
        },
        key.pressed && is_choosing(old(settings_app).edit_state@) ==> {
            &&& choosing_step(
                *old(settings_app),
                key.code,
                *final(settings_app),
                *old(app_state),
                *final(app_state),
                choosing_handles(key.code),
                r,
            )
            &&& *final(handled) == (choosing_handles(key.code) || *old(handled))
        },
        key.pressed && !is_choosing(old(settings_app).edit_state@) ==> {
            let ci = old(settings_app).config_manager.selected_config_index as int;
            let c1 = final(settings_app).config_manager.configs@[ci];
            let h = editing_handles(old(settings_app).edit_state@, key.code);
            &&& r == SettingsAction::Nothing
            &&& *final(app_state) == *old(app_state)
            &&& final(settings_app).config_manager.selected_config_index == ci
            &&& final(settings_app).config_manager.configs@ == old(
                settings_app,
            ).config_manager.configs@.update(ci, c1)
            &&& editing_step(
                old(settings_app).edit_state@,
                key.code,
                old(settings_app).config_manager.configs@[ci],
                final(settings_app).edit_state@,
                c1,
                h,
            )
            &&& final(settings_app).sections == old(settings_app).sections
            &&& final(settings_app).selected_section == old(settings_app).selected_section
            &&& final(settings_app).selected_option_index == old(
                settings_app,
            ).selected_option_index
            &&& *final(handled) == (h || *old(handled))
        },
{
    if !key.pressed {
        return SettingsAction::Nothing;
    }
    let choosing = match settings_app.edit_state {
        SettingEditState::Idle => true,
        SettingEditState::ViewingEditorOptions => true,
        SettingEditState::ViewingKeybindingsOptions => true,
        SettingEditState::ViewingWorkspaceOptions => true,
        _ => false,
    };
    if choosing {
        let (h, act) = handle_choosing(key, settings_app, app_state);
        if h {
            *handled = true;
        }
        act
    } else {
        let h = handle_editing(key.code, settings_app);
        if h {
            *handled = true;
        }
        SettingsAction::Nothing
    }
}

} // verus!
