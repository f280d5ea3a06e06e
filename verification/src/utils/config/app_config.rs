//! The application's configuration: the workspace directory, the file
//! extensions of ARC programs, and the interface, workspace and key settings.

use vstd::prelude::*;
use crate::text::{copy_string, push_str, same_text, string_from_str};

verus! {

/// The interface settings.
#[derive(Debug, Clone, PartialEq, Eq)]
pub struct UiConfig {
    pub theme: String,
    pub editor_line_numbers: bool,
    pub editor_tab_width: usize,
}

impl Default for UiConfig {
    fn default() -> (c: Self)
        ensures
            c.theme@ == "dark"@,
            c.editor_line_numbers,
            c.editor_tab_width == 4,
    {
        UiConfig { theme: string_from_str("dark"), editor_line_numbers: true, editor_tab_width: 4 }
    }
}

/// The workspace settings.
#[derive(Debug, Clone, PartialEq, Eq)]
pub struct WorkspaceConfig {
    pub auto_save: bool,
    pub recent_files_limit: usize,
}

impl Default for WorkspaceConfig {
    fn default() -> (c: Self)
        ensures
            c.auto_save,
            c.recent_files_limit == 10,
    {
        WorkspaceConfig { auto_save: true, recent_files_limit: 10 }
    }
}

/// The key bindings.
#[derive(Debug, Clone, PartialEq, Eq)]
pub struct KeybindingsConfig {
    pub quit: Vec<String>,
    pub save: Vec<String>,
    pub new_file: Vec<String>,
}

/// The texts of a list of strings.
pub open spec fn string_views(v: Seq<String>) -> Seq<Seq<char>> {
    v.map_values(|s: String| s@)
}

impl Default for KeybindingsConfig {
    fn default() -> (c: Self)
        ensures
            string_views(c.quit@) == seq!["q"@, "Esc"@],
            string_views(c.save@) == seq!["Ctrl+s"@],
            string_views(c.new_file@) == seq!["Ctrl+n"@],
    {
        let mut quit: Vec<String> = Vec::new();
        quit.push(string_from_str("q"));
        quit.push(string_from_str("Esc"));
        let mut save: Vec<String> = Vec::new();
        save.push(string_from_str("Ctrl+s"));
        let mut new_file: Vec<String> = Vec::new();
        new_file.push(string_from_str("Ctrl+n"));
        assert(string_views(quit@) =~= seq!["q"@, "Esc"@]);
        assert(string_views(save@) =~= seq!["Ctrl+s"@]);
        assert(string_views(new_file@) =~= seq!["Ctrl+n"@]);
        KeybindingsConfig { quit, save, new_file }
    }
}

/// A configuration profile.
#[derive(Debug, Clone, PartialEq, Eq)]
pub struct AppConfig {
    pub name: Option<String>,
    pub default_workspace: String,
    pub arc_extensions: Vec<String>,
    pub explorer_show_hidden: bool,
    pub workspace: WorkspaceConfig,
    pub ui: UiConfig,
    pub keybindings: KeybindingsConfig,
}

/// The extension of a path (`Path::extension`): the part of its file name
/// after the last `.`, if the name has one that is not its first character.
pub uninterp spec fn extension_of(path: Seq<char>) -> Option<Seq<char>>;

/// The extension of a path (`std::path::Path::extension`, read as text).
/// The contract names the result: it depends on the path's text alone.
#[verifier::external_body]
pub(crate) fn path_extension(path: &str) -> (r: Option<String>)
    ensures
        match r {
            Some(e) => extension_of(path@) == Some(e@),
            None => extension_of(path@) is None,
        },
{
    std::path::Path::new(path).extension().and_then(|e| e.to_str()).map(|e| e.to_string())
}

/// Whether one of the strings equals `t`.
pub fn contains_text(v: &Vec<String>, t: &String) -> (r: bool)
    ensures
        r == string_views(v@).contains(t@),
{
    let mut i: usize = 0;
    while i < v.len()
        invariant
            i <= v@.len(),
            forall|k: int| 0 <= k < i ==> v@[k]@ != t@,
        decreases v.len() - i,
    {
        if same_text(&v[i], t) {
            assert(string_views(v@)[i as int] == t@);
            return true;
        }
        i = i + 1;
    }
    proof {
        if string_views(v@).contains(t@) {
            let k = choose|k: int| 0 <= k < string_views(v@).len() && string_views(v@)[k] == t@;
            assert(v@[k]@ == t@);
        }
    }
    false
}

impl AppConfig {
    /// The default profile, with the given default workspace directory:
    /// named `default`, ARC files `.arc` and `.asm`, hidden files not shown,
    /// and the default workspace, interface and key settings.
    pub fn with_default_workspace(default_workspace: String) -> (c: Self)
        ensures
            c.name matches Some(n) && n@ == "default"@,
            c.default_workspace@ == default_workspace@,
            string_views(c.arc_extensions@) == seq![".arc"@, ".asm"@],
            !c.explorer_show_hidden,
            c.workspace.auto_save && c.workspace.recent_files_limit == 10,
            c.ui.theme@ == "dark"@ && c.ui.editor_line_numbers && c.ui.editor_tab_width == 4,
    {
        let mut arc_extensions: Vec<String> = Vec::new();
        arc_extensions.push(string_from_str(".arc"));
        arc_extensions.push(string_from_str(".asm"));
        assert(string_views(arc_extensions@) =~= seq![".arc"@, ".asm"@]);
        AppConfig {
            name: Some(string_from_str("default")),
            default_workspace,
            arc_extensions,
            explorer_show_hidden: false,
            workspace: WorkspaceConfig::default(),
            ui: UiConfig::default(),
            keybindings: KeybindingsConfig::default(),
        }
    }

    /// Whether a path names an ARC file: its extension, with or without
    /// the leading dot, is one of the profile's ARC extensions (the default
    /// profile lists `.arc` and `.asm`).
    pub fn is_arc_file(&self, path: &str) -> (r: bool)
        ensures
            r == match extension_of(path@) {
                Some(e) => string_views(self.arc_extensions@).contains(e) || string_views(
                    self.arc_extensions@,
                ).contains("."@ + e),
                None => false,
            },
    {
        match path_extension(path) {
            Some(e) => {
                let mut dotted = string_from_str(".");
                push_str(&mut dotted, e.as_str());
                proof {
                    reveal_strlit(".");
                }
                contains_text(&self.arc_extensions, &e) || contains_text(&self.arc_extensions, &dotted)
            },
            None => false,
        }
    }

    /// Puts the default profile back, with the given default workspace.
    pub fn reset_to_defaults(&mut self, default_workspace: String)
        ensures
            final(self).name matches Some(n) && n@ == "default"@,
            final(self).default_workspace@ == default_workspace@,
            string_views(final(self).arc_extensions@) == seq![".arc"@, ".asm"@],
            !final(self).explorer_show_hidden,
    {
        *self = Self::with_default_workspace(default_workspace);
    }
}

} // verus!
