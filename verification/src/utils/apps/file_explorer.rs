//! The file explorer screen: the entries of a directory, directories first
//! and then by name, the one selected, and the dialog that names a new
//! program file.
//!
//! Listing a directory, and creating and deleting files, are left to the
//! caller: it hands the entries it found to `refresh_entries`, and carries
//! out the action that a key asks for.

use vstd::prelude::*;
use crate::text::{
    copy_string, lemma_text_lt_irreflexive, lemma_text_lt_transitive, push_char, push_str,
    string_from_str, text_is, text_less, text_lt, without_last_char,
};
use crate::utils::config::app_config::{extension_of, path_extension, string_views};
use crate::utils::ui::common::{AppState, Key, KeyInput};
use crate::utils::ui::resources::{with_message, AppStatus};
use crate::utils::workspaces::{opened, Workspace};

verus! {

broadcast use vstd::seq_lib::group_to_multiset_ensures;

/// An entry of a directory.
pub struct FileEntry {
    /// The file name.
    pub name: String,
    /// The whole path.
    pub path: String,
    /// Whether it is a directory.
    pub is_dir: bool,
    /// Whether it is an assembly program (extension `arc` or `asm`).
    pub is_arc_file: bool,
}

/// A copy of an entry.
pub fn clone_entry(e: &FileEntry) -> (r: FileEntry)
    ensures
        r.name@ == e.name@,
        r.path@ == e.path@,
        r.is_dir == e.is_dir,
        r.is_arc_file == e.is_arc_file,
{
    FileEntry {
        name: copy_string(&e.name),
        path: copy_string(&e.path),
        is_dir: e.is_dir,
        is_arc_file: e.is_arc_file,
    }
}

/// The state of the file explorer.
pub struct FileExplorerState {
    /// The directory shown.
    pub current_directory: String,
    /// Its entries.
    pub entries: Vec<FileEntry>,
    /// The selected entry.
    pub selected_index: usize,
    /// The first entry in view.
    pub scroll_offset: usize,
    /// Whether the dialog for a new file is open.
    pub show_new_file_dialog: bool,
    /// The name typed in that dialog.
    pub new_file_name: String,
}

/// Whether the entry `a` is listed before `b`: directories first, then by
/// name.
pub open spec fn entry_before(a: FileEntry, b: FileEntry) -> bool {
    (a.is_dir && !b.is_dir) || (a.is_dir == b.is_dir && text_lt(a.name@, b.name@))
}

/// Whether entries are in listing order.
pub open spec fn entries_sorted(s: Seq<FileEntry>) -> bool {
    forall|i: int, j: int| 0 <= i < j < s.len() ==> !entry_before(#[trigger] s[j], #[trigger] s[i])
}

/// Listing order is transitive.
proof fn lemma_entry_before_transitive(a: FileEntry, b: FileEntry, c: FileEntry)
    requires
        entry_before(a, b),
        entry_before(b, c),
    ensures
        entry_before(a, c),
{
    if a.is_dir == b.is_dir && b.is_dir == c.is_dir {
        lemma_text_lt_transitive(a.name@, b.name@, c.name@);
    }
}

/// Whether the entry `a` is listed before `b`.
fn comes_before(a: &FileEntry, b: &FileEntry) -> (r: bool)
    ensures
        r == entry_before(*a, *b),
{
    if a.is_dir != b.is_dir {
        a.is_dir
    } else {
        text_less(&a.name, &b.name)
    }
}

/// The entries in listing order, each after those that are not listed
/// after it (a stable sort).
pub fn sort_entries(v: Vec<FileEntry>) -> (r: Vec<FileEntry>)
    ensures
        entries_sorted(r@),
        r@.to_multiset() == v@.to_multiset(),
{
    broadcast use vstd::multiset::group_multiset_axioms;

    let ghost all = v@;
    let mut rest = v;
    let mut out: Vec<FileEntry> = Vec::new();
    assert(out@.to_multiset().add(rest@.to_multiset()) =~= all.to_multiset());
    while rest.len() > 0
        invariant
            entries_sorted(out@),
            out@.to_multiset().add(rest@.to_multiset()) == all.to_multiset(),
        decreases rest@.len(),
    {
        let ghost rest0 = rest@;
        let x = rest.remove(0);
        let mut k: usize = 0;
        while k < out.len() && !comes_before(&x, &out[k])
            invariant
                k <= out@.len(),
                forall|i: int| 0 <= i < k ==> !entry_before(x, #[trigger] out@[i]),
            decreases out@.len() - k,
        {
            k = k + 1;
        }
        let ghost out0 = out@;
        proof {
            assert forall|j: int| k <= j < out0.len() implies !entry_before(#[trigger] out0[j], x) by {
                if entry_before(out0[j], x) {
                    assert(k < out0.len());
                    assert(entry_before(x, out0[k as int]));
                    lemma_entry_before_transitive(out0[j], x, out0[k as int]);
                    if j == k {
                        lemma_text_lt_irreflexive(out0[j].name@);
                    }
                }
            }
        }
        out.insert(k, x);
        proof {
            assert forall|i: int, j: int| 0 <= i < j < out@.len() implies !entry_before(
                #[trigger] out@[j],
                #[trigger] out@[i],
            ) by {
                if i < k && j == k {
                } else if i == k {
                    assert(out@[j] == out0[j - 1]);
                } else if j < k {
                    assert(out@[i] == out0[i] && out@[j] == out0[j]);
                } else if i < k {
                    assert(out@[i] == out0[i] && out@[j] == out0[j - 1]);
                } else {
                    assert(out@[i] == out0[i - 1] && out@[j] == out0[j - 1]);
                }
            }
            assert(rest0 == seq![x] + rest@) by {
                assert(rest0 =~= seq![x] + rest@);
            }
            assert(rest0.to_multiset() == rest@.to_multiset().insert(x)) by {
                assert(rest@.insert(0, x) =~= rest0);
            }
            assert(out@.to_multiset().add(rest@.to_multiset()) =~= all.to_multiset());
        }
    }
    assert(rest@.to_multiset() =~= vstd::multiset::Multiset::<FileEntry>::empty());
    assert(out@.to_multiset().add(rest@.to_multiset()) =~= out@.to_multiset());
    out
}

/// An entry found in a directory: its name, its path, and whether it is a
/// directory.
pub type ListedEntry = (String, String, bool);

/// Whether a path names an assembly program: its extension is `arc` or
/// `asm`.
pub open spec fn is_program_path(path: Seq<char>) -> bool {
    extension_of(path) == Some("arc"@) || extension_of(path) == Some("asm"@)
}

/// Whether `e` is the entry of the directory listing `l`.
pub open spec fn entry_of(l: ListedEntry, e: FileEntry) -> bool {
    e.name@ == l.0@ && e.path@ == l.1@ && e.is_dir == l.2 && e.is_arc_file == is_program_path(
        l.1@,
    )
}

/// Whether `e` is the entry that leads to the parent directory `p`.
pub open spec fn parent_entry(p: Seq<char>, e: FileEntry) -> bool {
    e.name@ == ".."@ && e.path@ == p && e.is_dir && !e.is_arc_file
}

/// Whether `entries` are, in some order, the entry of the parent (where
/// there is one) and the entries of the listing.
pub open spec fn entries_of(
    parent: Option<Seq<char>>,
    listed: Seq<ListedEntry>,
    entries: Seq<FileEntry>,
) -> bool {
    let k: int = if parent is Some {
        1
    } else {
        0
    };
    exists|unsorted: Seq<FileEntry>|
        {
            &&& #[trigger] unsorted.to_multiset() == entries.to_multiset()
            &&& unsorted.len() == k + listed.len()
            &&& (parent matches Some(p) ==> parent_entry(p, unsorted[0]))
            &&& forall|i: int| 0 <= i < listed.len() ==> entry_of(listed[i], #[trigger] unsorted[k + i])
        }
}

/// The entry of a listed file.
fn listed_entry(l: ListedEntry) -> (e: FileEntry)
    ensures
        entry_of(l, e),
{
    let (name, path, is_dir) = l;
    let is_arc_file = match path_extension(path.as_str()) {
        Some(ext) => crate::text::text_is(&ext, "arc") || crate::text::text_is(&ext, "asm"),
        None => false,
    };
    proof {
        reveal_strlit("arc");
        reveal_strlit("asm");
    }
    FileEntry { name, path, is_dir, is_arc_file }
}

/// The text of an optional path.
pub open spec fn opt_text(p: Option<String>) -> Option<Seq<char>> {
    match p {
        Some(s) => Some(s@),
        None => None,
    }
}

impl FileExplorerState {
    /// Sets the entries from a listing of the current directory: the entry
    /// `..` of the parent directory, where there is one, and an entry for
    /// each file found, marked as a program by its extension; all in
    /// listing order (see `entry_before`).
    pub fn refresh_entries(&mut self, parent: Option<String>, listed: Vec<ListedEntry>)
        ensures
            entries_sorted(final(self).entries@),
            entries_of(opt_text(parent), listed@, final(self).entries@),
            final(self).current_directory == old(self).current_directory,
            final(self).selected_index == old(self).selected_index,
            final(self).scroll_offset == old(self).scroll_offset,
            final(self).show_new_file_dialog == old(self).show_new_file_dialog,
            final(self).new_file_name == old(self).new_file_name,
    {
        let ghost lv = listed@;
        let ghost pv = opt_text(parent);
        let mut unsorted: Vec<FileEntry> = Vec::new();
        let k: usize = match parent {
            Some(p) => {
                proof {
                    reveal_strlit("..");
                }
                unsorted.push(
                    FileEntry { name: "..".to_string(), path: p, is_dir: true, is_arc_file: false },
                );
                1
            },
            None => 0,
        };
        let mut listed = listed;
        let mut i: usize = 0;
        let n = listed.len();
        assert(lv.skip(0) =~= lv);
        while i < n
            invariant
                n == lv.len(),
                i <= n,
                listed@ == lv.skip(i as int),
                unsorted@.len() == k + i,
                k == (if pv is Some {
                    1usize
                } else {
                    0usize
                }),
                pv matches Some(p) ==> parent_entry(p, unsorted@[0]),
                forall|j: int| 0 <= j < i ==> entry_of(lv[j], #[trigger] unsorted@[k + j]),
            decreases n - i,
        {
            assert(listed@[0] == lv[i as int]);
            let l = listed.remove(0);
            assert(listed@ =~= lv.skip(i + 1));
            let ghost u0 = unsorted@;
            unsorted.push(listed_entry(l));
            assert forall|j: int| 0 <= j < i + 1 implies entry_of(lv[j], #[trigger] unsorted@[k + j]) by {
                if j < i {
                    assert(unsorted@[k + j] == u0[k + j]);
                }
            }
            i = i + 1;
        }
        let ghost uv = unsorted@;
        self.entries = sort_entries(unsorted);
        assert(entries_of(pv, lv, self.entries@)) by {
            assert(uv.to_multiset() == self.entries@.to_multiset());
        }
    }

    /// A file explorer on `workspace_path`, on its first entry, not scrolled,
    /// without the dialog; its entries come from the listing as in
    /// `refresh_entries`.
    pub fn new(workspace_path: String, parent: Option<String>, listed: Vec<ListedEntry>) -> (s:
        Self)
        ensures
            s.current_directory@ == workspace_path@,
            entries_sorted(s.entries@),
            entries_of(opt_text(parent), listed@, s.entries@),
            s.selected_index == 0 && s.scroll_offset == 0,
            !s.show_new_file_dialog && s.new_file_name@.len() == 0,
    {
        let mut state = FileExplorerState {
            current_directory: workspace_path,
            entries: Vec::new(),
            selected_index: 0,
            scroll_offset: 0,
            show_new_file_dialog: false,
            new_file_name: String::new(),
        };
        state.refresh_entries(parent, listed);
        state
    }

    /// The selected entry, if there is one.
    pub fn selected_entry(&self) -> (r: Option<&FileEntry>)
        ensures
            self.selected_index < self.entries@.len() ==> r == Some(
                &self.entries@[self.selected_index as int],
            ),
            self.selected_index >= self.entries@.len() ==> r is None,
    {
        if self.selected_index < self.entries.len() {
            Some(&self.entries[self.selected_index])
        } else {
            None
        }
    }

    /// Scrolls so that the selected entry is among the ten in view.
    pub fn scroll(&mut self)
        requires
            old(self).scroll_offset + 10 <= usize::MAX,
        ensures
            ({
                let sel = old(self).selected_index;
                let off = old(self).scroll_offset;
                let off1 = if sel >= off + 10 {
                    (sel - 10 + 1) as usize
                } else {
                    off
                };
                final(self).scroll_offset == if sel < off1 {
                    sel
                } else {
                    off1
                }
            }),
            final(self).selected_index == old(self).selected_index,
            final(self).entries == old(self).entries,
            final(self).current_directory == old(self).current_directory,
            final(self).show_new_file_dialog == old(self).show_new_file_dialog,
            final(self).new_file_name == old(self).new_file_name,
    {
        let list_height: usize = 10;
        if self.selected_index >= self.scroll_offset + list_height {
            self.scroll_offset = self.selected_index - list_height + 1;
        }
        if self.selected_index < self.scroll_offset {
            self.scroll_offset = self.selected_index;
        }
    }
}

/// Entering the file explorer sets its entries from a fresh listing of
/// its directory (see `refresh_entries`) and shows a status message.
pub fn on_enter_file_explorer(
    explorer_state: &mut FileExplorerState,
    _workspace: &Workspace,
    app_status: &mut AppStatus,
    parent: Option<String>,
    listed: Vec<ListedEntry>,
)
    ensures
        entries_sorted(final(explorer_state).entries@),
        entries_of(opt_text(parent), listed@, final(explorer_state).entries@),
        final(explorer_state).current_directory == old(explorer_state).current_directory,
        final(explorer_state).selected_index == old(explorer_state).selected_index,
        final(app_status).shown() == with_message(
            old(app_status).shown(),
            "File Explorer: Create and manage ARC files"@,
        ),
        final(app_status).is_loading == old(app_status).is_loading,
{
    explorer_state.refresh_entries(parent, listed);
    app_status.set_message(
        crate::text::string_from_str("File Explorer: Create and manage ARC files"),
    );
}


// ---------------------------------------------------------------------------
// Keys
// ---------------------------------------------------------------------------

/// The path of `name` in the directory `dir` (`Path::join`).
pub uninterp spec fn joined_path(dir: Seq<char>, name: Seq<char>) -> Seq<char>;

/// The path `p` with its extension set to `ext` (`Path::with_extension`).
pub uninterp spec fn path_with_extension(p: Seq<char>, ext: Seq<char>) -> Seq<char>;

/// The path of `name` in the directory `dir` (`std::path::Path::join`, as
/// text). The contract names the result: it depends on the two texts alone.
#[verifier::external_body]
pub(crate) fn join_path(dir: &str, name: &str) -> (r: String)
    ensures
        r@ == joined_path(dir@, name@),
{
    std::path::Path::new(dir).join(name).to_string_lossy().into_owned()
}

/// Whether a text holds no path separator (`/`, or `\\` on Windows).
pub open spec fn no_separator(t: Seq<char>) -> bool {
    forall|i: int| 0 <= i < t.len() ==> t[i] != '/' && t[i] != '\\'
}

/// The path `p` with the extension `ext` (`std::path::Path::with_extension`,
/// as text). The contract names the result: it depends on the two texts
/// alone. `with_extension` panics on an extension that holds a path
/// separator, which the caller rules out.
#[verifier::external_body]
pub(crate) fn set_extension(p: &str, ext: &str) -> (r: String)
    requires
        no_separator(ext@),
    ensures
        r@ == path_with_extension(p@, ext@),
{
    std::path::Path::new(p).with_extension(ext).to_string_lossy().into_owned()
}

/// The path a new program file named `name` gets in the directory `dir`:
/// with the extension `arc` when the name gives none.
pub open spec fn new_file_path(dir: Seq<char>, name: Seq<char>) -> Seq<char> {
    let p = joined_path(dir, name);
    if extension_of(p) is None {
        path_with_extension(p, "arc"@)
    } else {
        p
    }
}

/// What the caller has to do after a key on the file explorer.
pub enum ExplorerAction {
    /// Nothing.
    Nothing,
    /// List the current directory again, and hand the entries to
    /// `refresh_entries`.
    Refresh,
    /// Delete the file at the path, then list the directory again.
    Delete(String),
    /// Write `new_arc_program()` to a new file at the path, and hand the
    /// outcome to `finish_new_file`.
    Create(String),
}

/// Whether a key on the file explorer can be handled without stopping the
/// program: moving needs entries, and room to move and scroll.
pub open spec fn explorer_key_ok(s: FileExplorerState, key: KeyInput) -> bool {
    key.pressed && !s.show_new_file_dialog ==> {
        &&& (key.code == Key::Down || key.code == Key::Up) ==> s.entries@.len() > 0
            && s.scroll_offset + 10 <= usize::MAX
        &&& key.code == Key::Down ==> s.selected_index < usize::MAX
    }
}

/// What a key does in the dialog for a new file, in the directory of `s0`:
/// ASCII characters and Backspace edit the name; Enter asks for the file
/// (see `new_file_path`, where a name was typed) and closes the dialog;
/// Esc closes it. Nothing else of the explorer changes.
pub open spec fn new_file_dialog_step(s0: FileExplorerState, key: Key, s1: FileExplorerState, r: ExplorerAction) -> bool {
    &&& s1.entries == s0.entries
    &&& s1.current_directory == s0.current_directory
    &&& s1.selected_index == s0.selected_index
    &&& s1.scroll_offset == s0.scroll_offset
    &&& match key {
            Key::Char(c) => {
                &&& r is Nothing && s1.show_new_file_dialog == s0.show_new_file_dialog
                &&& s1.new_file_name@ == if (c as u32) < 128 {
                    s0.new_file_name@.push(c)
                } else {
                    s0.new_file_name@
                }
            },
            Key::Backspace => {
                &&& r is Nothing && s1.show_new_file_dialog == s0.show_new_file_dialog
                &&& s1.new_file_name@ == if s0.new_file_name@.len() > 0 {
                    s0.new_file_name@.drop_last()
                } else {
                    s0.new_file_name@
                }
            },
            Key::Enter => {
                &&& !s1.show_new_file_dialog && s1.new_file_name@ == s0.new_file_name@
                &&& if s0.new_file_name@.len() > 0 {
                    r matches ExplorerAction::Create(p) && p@ == new_file_path(
                        s0.current_directory@,
                        s0.new_file_name@,
                    )
                } else {
                    r is Nothing
                }
            },
            Key::Esc => r is Nothing && !s1.show_new_file_dialog && s1.new_file_name@
                == s0.new_file_name@,
            _ => r is Nothing && s1.show_new_file_dialog == s0.show_new_file_dialog
                && s1.new_file_name@ == s0.new_file_name@,
        }
}

/// Handles a key in the dialog for a new file (see `new_file_dialog_step`).
fn handle_new_file_dialog_input(key: Key, explorer_state: &mut FileExplorerState) -> (r:
    ExplorerAction)
    ensures
        new_file_dialog_step(*old(explorer_state), key, *final(explorer_state), r),
{
    match key {
        Key::Char(c) => {
            if (c as u32) < 128 {
                push_char(&mut explorer_state.new_file_name, c);
            }
            ExplorerAction::Nothing
        },
        Key::Backspace => {
            explorer_state.new_file_name = without_last_char(&explorer_state.new_file_name);
            ExplorerAction::Nothing
        },
        Key::Enter => {
            let mut action = ExplorerAction::Nothing;
            proof {
                reveal_strlit("");
                if explorer_state.new_file_name@.len() == 0 {
                    assert(explorer_state.new_file_name@ =~= ""@);
                }
            }
            if !text_is(&explorer_state.new_file_name, "") {
                let joined = join_path(
                    explorer_state.current_directory.as_str(),
                    explorer_state.new_file_name.as_str(),
                );
                let file_path = match path_extension(joined.as_str()) {
                    None => {
                        proof {
                            reveal_strlit("arc");
                        }
                        set_extension(joined.as_str(), "arc")
                    },
                    Some(_) => joined,
                };
                action = ExplorerAction::Create(file_path);
            } else {
                assert(explorer_state.new_file_name@ =~= ""@);
            }
            explorer_state.show_new_file_dialog = false;
            action
        },
        Key::Esc => {
            explorer_state.show_new_file_dialog = false;
            ExplorerAction::Nothing
        },
        _ => ExplorerAction::Nothing,
    }
}

/// The status message of a new or deleted file.
fn message_with(prefix: &str, name: &str) -> (r: String)
    ensures
        r@ == prefix@ + name@,
{
    let mut r = string_from_str(prefix);
    push_str(&mut r, name);
    r
}

/// Handles a key on the file explorer. Only pressed keys count. While the
/// dialog for a new file is open, the key goes to it and is handled.
/// Otherwise Down and Up move the selection, wrapping around, and scroll
/// it into view; Enter opens the selected entry: a directory becomes the
/// current one, from its first entry, and is listed again; a program file
/// is opened for editing in the workspace and the text editor is shown.
/// Alt+N opens the dialog with an empty name; Delete asks to delete the
/// selected entry, unless it is the parent directory; `q` goes back to the
/// start menu. These keys set `handled`; the answer tells the caller what
/// to do.
pub fn handle_file_explorer_input(
    key: KeyInput,
    explorer_state: &mut FileExplorerState,
    app_state: &mut AppState,
    workspace: &mut Workspace,
    app_status: &mut AppStatus,
    handled: &mut bool,
) -> (r: ExplorerAction)
    requires
        explorer_key_ok(*old(explorer_state), key),
    ensures
        final(explorer_state).entries == old(explorer_state).entries,
        final(app_status).is_loading == old(app_status).is_loading,
        final(workspace).emulator == old(workspace).emulator,
        ({
            let s0 = *old(explorer_state);
            let s1 = *final(explorer_state);
            let n = s0.entries@.len();
            let same_files = final(workspace).open_files == old(workspace).open_files
                && final(workspace).active_file == old(workspace).active_file
                && final(workspace).unsaved_changes == old(workspace).unsaved_changes;
            let quiet = final(app_status).shown() == old(app_status).shown();
            if !key.pressed {
                &&& r is Nothing && s1 == s0 && *final(app_state) == *old(app_state)
                &&& same_files && quiet && *final(handled) == *old(handled)
            } else if s0.show_new_file_dialog {
                &&& *final(handled) && same_files && quiet && *final(app_state) == *old(app_state)
                &&& new_file_dialog_step(s0, key.code, s1, r)
            } else {
                match key.code {
                    Key::Down | Key::Up => {
                        let sel = if key.code == Key::Down {
                            ((s0.selected_index + 1) % (n as int)) as usize
                        } else if s0.selected_index == 0 {
                            (n - 1) as usize
                        } else {
                            (s0.selected_index - 1) as usize
                        };
                        let off1 = if sel >= s0.scroll_offset + 10 {
                            (sel - 10 + 1) as usize
                        } else {
                            s0.scroll_offset
                        };
                        &&& r is Nothing && *final(handled) && same_files && quiet
                        &&& *final(app_state) == *old(app_state)
                        &&& s1 == FileExplorerState {
                            selected_index: sel,
                            scroll_offset: if sel < off1 {
                                sel
                            } else {
                                off1
                            },
                            ..s0
                        }
                    },
                    Key::Enter => {
                        &&& *final(handled)
                        &&& if s0.selected_index < n {
                            let e = s0.entries@[s0.selected_index as int];
                            if e.is_dir {
                                &&& r is Refresh && same_files && quiet
                                &&& *final(app_state) == *old(app_state)
                                &&& s1.current_directory@ == e.path@ && s1.selected_index == 0
                                &&& s1.scroll_offset == s0.scroll_offset
                            } else if e.is_arc_file {
                                &&& r is Nothing && s1 == s0
                                &&& *final(app_state) == AppState::TextEditor
                                &&& workspace_opened(*old(workspace), *final(workspace), e.path@)
                                &&& final(app_status).shown() == with_message(
                                    old(app_status).shown(),
                                    "Opened: "@ + e.name@,
                                )
                            } else {
                                r is Nothing && s1 == s0 && same_files && quiet
                                    && *final(app_state) == *old(app_state)
                            }
                        } else {
                            r is Nothing && s1 == s0 && same_files && quiet && *final(app_state)
                                == *old(app_state)
                        }
                    },
                    Key::Delete => {
                        &&& *final(handled) && s1 == s0 && same_files
                        &&& *final(app_state) == *old(app_state)
                        &&& if s0.selected_index < n && (!s0.entries@[s0.selected_index as int].is_dir
                            || s0.entries@[s0.selected_index as int].name@ != ".."@) {
                            let e = s0.entries@[s0.selected_index as int];
                            &&& r matches ExplorerAction::Delete(p) && p@ == e.path@
                            &&& final(app_status).shown() == with_message(
                                old(app_status).shown(),
                                "Deleted: "@ + e.name@,
                            )
                        } else {
                            r is Nothing && quiet
                        }
                    },
                    Key::Char(c) => if c == 'n' && key.alt_only {
                        &&& r is Nothing && *final(handled) && same_files && quiet
                        &&& *final(app_state) == *old(app_state)
                        &&& s1.show_new_file_dialog && s1.new_file_name@.len() == 0
                        &&& s1.selected_index == s0.selected_index
                        &&& s1.current_directory == s0.current_directory
                    } else if c == 'q' {
                        &&& r is Nothing && *final(handled) && same_files && quiet && s1 == s0
                        &&& *final(app_state) == AppState::StartMenu
                    } else {
                        &&& r is Nothing && *final(handled) == *old(handled) && same_files && quiet
                        &&& s1 == s0 && *final(app_state) == *old(app_state)
                    },
                    _ => {
                        &&& r is Nothing && *final(handled) == *old(handled) && same_files && quiet
                        &&& s1 == s0 && *final(app_state) == *old(app_state)
                    },
                }
            }
        }),
{
    if !key.pressed {
        return ExplorerAction::Nothing;
    }
    if explorer_state.show_new_file_dialog {
        let action = handle_new_file_dialog_input(key.code, explorer_state);
        *handled = true;
        return action;
    }
    let entry_count = explorer_state.entries.len();
    match key.code {
        Key::Down => {
            explorer_state.selected_index = (explorer_state.selected_index + 1) % entry_count;
            explorer_state.scroll();
            *handled = true;
            ExplorerAction::Nothing
        },
        Key::Up => {
            explorer_state.selected_index = if explorer_state.selected_index == 0 {
                entry_count - 1
            } else {
                explorer_state.selected_index - 1
            };
            explorer_state.scroll();
            *handled = true;
            ExplorerAction::Nothing
        },
        Key::Enter => {
            *handled = true;
            match explorer_state.selected_entry() {
                Some(entry) => {
                    let entry = clone_entry(entry);
                    if entry.is_dir {
                        explorer_state.current_directory = entry.path;
                        explorer_state.selected_index = 0;
                        ExplorerAction::Refresh
                    } else if entry.is_arc_file {
                        let _ = workspace.open_file_for_editing(entry.path.as_str());
                        app_status.set_message(message_with("Opened: ", entry.name.as_str()));
                        proof {
                            reveal_strlit("Opened: ");
                        }
                        *app_state = AppState::TextEditor;
                        ExplorerAction::Nothing
                    } else {
                        ExplorerAction::Nothing
                    }
                },
                None => ExplorerAction::Nothing,
            }
        },
        Key::Char(c) => {
            if c == 'n' && key.alt_only {
                explorer_state.show_new_file_dialog = true;
                explorer_state.new_file_name = String::new();
                *handled = true;
            } else if c == 'q' {
                *app_state = AppState::StartMenu;
                *handled = true;
            }
            ExplorerAction::Nothing
        },
        Key::Delete => {
            *handled = true;
            match explorer_state.selected_entry() {
                Some(entry) => {
                    proof {
                        reveal_strlit("..");
                        reveal_strlit("Deleted: ");
                    }
                    if !entry.is_dir || !text_is(&entry.name, "..") {
                        let path = copy_string(&entry.path);
                        app_status.set_message(message_with("Deleted: ", entry.name.as_str()));
                        ExplorerAction::Delete(path)
                    } else {
                        ExplorerAction::Nothing
                    }
                },
                None => ExplorerAction::Nothing,
            }
        },
        _ => ExplorerAction::Nothing,
    }
}

/// Whether the workspace `w1` is `w0` after `path` was opened for editing.
pub open spec fn workspace_opened(w0: Workspace, w1: Workspace, path: Seq<char>) -> bool {
    &&& crate::utils::workspaces::opt_path(w1.active_file) == Some(path)
    &&& string_views(w1.open_files@) == opened(string_views(w0.open_files@), path)
    &&& !w1.unsaved_changes
}

/// Finishes the creation of a new program file at `path`, where `written`
/// is the outcome of writing it: the workspace records it (see
/// `Workspace::create_new_arc_file`) and a status message tells how it
/// went. The answer tells whether to list the directory again: only after
/// a success.
pub fn finish_new_file(
    workspace: &mut Workspace,
    app_status: &mut AppStatus,
    path: &str,
    written: Result<(), String>,
) -> (refresh: bool)
    ensures
        refresh == (written is Ok),
        final(app_status).is_loading == old(app_status).is_loading,
        final(workspace).emulator == old(workspace).emulator,
        match written {
            Ok(()) => {
                &&& crate::utils::workspaces::opt_path(final(workspace).active_file) == Some(path@)
                &&& string_views(final(workspace).open_files@) == opened(
                    string_views(old(workspace).open_files@),
                    path@,
                )
                &&& final(workspace).unsaved_changes
                &&& final(app_status).shown() == with_message(
                    old(app_status).shown(),
                    "Created: "@ + path@,
                )
            },
            Err(e) => {
                &&& final(workspace).open_files == old(workspace).open_files
                &&& final(workspace).active_file == old(workspace).active_file
                &&& final(app_status).shown() == with_message(
                    old(app_status).shown(),
                    "Failed to create: "@ + e@,
                )
            },
        },
{
    match workspace.create_new_arc_file(path, written) {
        Ok(()) => {
            app_status.set_message(message_with("Created: ", path));
            true
        },
        Err(e) => {
            app_status.set_message(message_with("Failed to create: ", e.as_str()));
            false
        },
    }
}

} // verus!
