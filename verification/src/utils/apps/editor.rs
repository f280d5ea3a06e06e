//! The text editor screen: the text being edited (in a `tui_textarea`
//! text area, which edits it key by key), the file it belongs to, the
//! dialogs that save and open files, and assembling the text.
//!
//! Reading and writing files are left to the caller: a key asks for them
//! with an action, and the caller hands the outcome back.

use vstd::prelude::*;
use tui_textarea::{Input, Key as TaKey, TextArea};
use crate::text::{copy_string, push_char, push_dec, push_str, string_from_str, text_is, without_last_char};
use crate::utils::apps::file_explorer::{joined_path, new_file_path, path_with_extension};
use crate::utils::assembler::command_processor::macro_views;
use crate::utils::assembler::operands::float_reader_ok;
use crate::utils::config::app_config::{extension_of, path_extension, string_views};
use crate::utils::ui::common::{AppState, Key, KeyInput};
use crate::utils::ui::resources::{with_message, AppStatus};
use crate::utils::workspaces::{
    assembled_into, lines_of, opened, opt_path, source_assembly, source_assembly_stops, split_lines,
    Workspace,
};

verus! {

/// The text being edited, in a text area of `tui_textarea`, which Verus
/// does not look into; the screen draws the area itself.
#[verifier::external_body]
pub struct EditorText {
    pub area: TextArea<'static>,
}

/// The lines of text in a text area.
pub uninterp spec fn textarea_lines(t: EditorText) -> Seq<Seq<char>>;

/// A text area holding the given lines, or one empty line when there are
/// none (`TextArea::new`).
#[verifier::external_body]
fn textarea_new(lines: Vec<String>) -> (t: EditorText)
    ensures
        textarea_lines(t) == if lines@.len() == 0 {
            seq![Seq::<char>::empty()]
        } else {
            string_views(lines@)
        },
{
    EditorText { area: TextArea::new(lines) }
}

/// The lines of a text area (`TextArea::lines`).
#[verifier::external_body]
fn textarea_text(t: &EditorText) -> (r: Vec<String>)
    ensures
        string_views(r@) == textarea_lines(*t),
{
    t.area.lines().to_vec()
}

/// The lines of a text area after `TextArea::input` takes a key, and
/// whether it reports that it changed them. What a key does to a text area
/// (its text, cursor, selection and yank buffer) is left to the text area;
/// it depends on the text area and the key alone.
pub uninterp spec fn textarea_edit(t: EditorText, key: KeyInput) -> (Seq<Seq<char>>, bool);

/// Hands a key to a text area (`TextArea::input`), which edits its text as
/// its key bindings say; the answer is what it reports about a change. The
/// contract names both results (see `textarea_edit`): the report can be
/// `false` where the lines did change (a paste of nothing over a
/// selection), so no clause ties the one to the other.
#[verifier::external_body]
fn textarea_input(t: &mut EditorText, key: KeyInput) -> (modified: bool)
    ensures
        textarea_lines(*final(t)) == textarea_edit(*old(t), key).0,
        modified == textarea_edit(*old(t), key).1,
{
    let code = match key.code {
        Key::Char(c) => TaKey::Char(c), Key::Enter => TaKey::Enter, Key::Esc => TaKey::Esc,
        Key::Backspace => TaKey::Backspace, Key::Delete => TaKey::Delete, Key::Tab => TaKey::Tab,
        Key::Up => TaKey::Up, Key::Down => TaKey::Down, Key::Left => TaKey::Left,
        Key::Right => TaKey::Right, Key::PageUp => TaKey::PageUp, Key::PageDown => TaKey::PageDown,
        Key::Home => TaKey::Home, Key::End => TaKey::End, Key::Other => TaKey::Null,
    };
    t.area.input(Input { key: code, ctrl: key.ctrl, alt: key.alt, shift: key.shift })
}

/// The lines of a text joined with newlines.
pub open spec fn joined_lines(ls: Seq<Seq<char>>) -> Seq<char>
    decreases ls.len(),
{
    if ls.len() == 0 {
        seq![]
    } else if ls.len() == 1 {
        ls[0]
    } else {
        joined_lines(ls.drop_last()) + seq!['\n'] + ls.last()
    }
}

/// The state of the text editor.
pub struct TextEditorState {
    /// The text being edited.
    pub textarea: EditorText,
    /// The file of the text, if it has one.
    pub file_path: Option<String>,
    /// Whether the text has changed since it was saved.
    pub is_editing: bool,
    /// Whether the dialog that asks to save before leaving is open.
    pub show_save_dialog: bool,
    /// Whether the dialog that names the file to save is open.
    pub show_save_as_dialog: bool,
    /// The name typed in that dialog.
    pub new_file_name: String,
    /// Whether the dialog that names the file to open is open.
    pub show_open_dialog: bool,
    /// The name typed in that dialog.
    pub open_file_name: String,
    /// The errors of the last assembly.
    pub assembly_errors: Vec<String>,
}

/// Whether an editor is a fresh one: one empty line, no file, changed, no
/// dialog, nothing typed, no error.
pub open spec fn is_fresh(e: TextEditorState) -> bool {
    &&& textarea_lines(e.textarea) == seq![Seq::<char>::empty()]
    &&& e.file_path is None && e.is_editing
    &&& !e.show_save_dialog && !e.show_save_as_dialog && !e.show_open_dialog
    &&& e.new_file_name@.len() == 0 && e.open_file_name@.len() == 0
    &&& e.assembly_errors@.len() == 0
}

impl Default for TextEditorState {
    /// An empty text without a file.
    fn default() -> (e: Self)
        ensures
            is_fresh(e),
    {
        let first = vec![String::new()];
        assert(string_views(first@) =~= seq![Seq::<char>::empty()]);
        TextEditorState {
            textarea: textarea_new(first),
            file_path: None,
            is_editing: true,
            show_save_dialog: false,
            show_save_as_dialog: false,
            new_file_name: String::new(),
            show_open_dialog: false,
            open_file_name: String::new(),
            assembly_errors: Vec::new(),
        }
    }
}

/// The lines a text area gets from a text: its lines, or one empty line.
pub open spec fn area_lines(content: Seq<char>) -> Seq<Seq<char>> {
    if lines_of(content).len() == 0 {
        seq![Seq::<char>::empty()]
    } else {
        lines_of(content)
    }
}

impl TextEditorState {
    /// An empty text without a file (see `default`).
    pub fn new() -> (e: Self)
        ensures
            is_fresh(e),
    {
        Self::default()
    }

    /// Puts the text of a file in the editor, as changed.
    pub fn load_file(&mut self, file_path: String, content: String) -> (r: Result<(), String>)
        ensures
            r is Ok,
            textarea_lines(final(self).textarea) == area_lines(content@),
            opt_path(final(self).file_path) == Some(file_path@),
            final(self).is_editing,
            final(self).show_save_dialog == old(self).show_save_dialog,
            final(self).show_save_as_dialog == old(self).show_save_as_dialog,
            final(self).show_open_dialog == old(self).show_open_dialog,
            final(self).assembly_errors == old(self).assembly_errors,
    {
        let lines = split_lines(content.as_str());
        self.textarea = textarea_new(lines);
        self.file_path = Some(file_path);
        self.is_editing = true;
        Ok(())
    }

    /// The text: its lines joined with newlines.
    pub fn get_content(&self) -> (r: String)
        ensures
            r@ == joined_lines(textarea_lines(self.textarea)),
    {
        let lines = textarea_text(&self.textarea);
        let mut r = String::new();
        let mut i: usize = 0;
        let ghost ls = string_views(lines@);
        while i < lines.len()
            invariant
                i <= lines@.len(),
                ls == string_views(lines@),
                r@ == joined_lines(ls.take(i as int)),
            decreases lines@.len() - i,
        {
            assert(ls.take(i + 1).drop_last() =~= ls.take(i as int));
            if i > 0 {
                push_char(&mut r, '\n');
            }
            push_str(&mut r, lines[i].as_str());
            proof {
                if i == 0 {
                    assert(ls.take(1) =~= seq![ls[0]]);
                    assert(r@ =~= ls[0]);
                } else {
                    assert(r@ =~= joined_lines(ls.take(i as int)) + seq!['\n'] + ls[i as int]);
                }
            }
            i = i + 1;
        }
        assert(ls.take(lines@.len() as int) =~= ls);
        r
    }
}

// ---------------------------------------------------------------------------
// Keys
// ---------------------------------------------------------------------------

/// How a save was asked for, which decides the status message after it.
#[derive(Debug, Clone, Copy, PartialEq, Eq, Structural)]
pub enum SaveKind {
    /// Alt+S on a text with a file.
    Save,
    /// Yes in the dialog before leaving.
    SaveFromDialog,
    /// The dialog that names the file.
    SaveAs,
}

/// What the caller has to do after a key on the text editor.
pub enum EditorAction {
    /// Nothing.
    Nothing,
    /// Write the content to the file at the path, and hand the outcome to
    /// `finish_save`.
    Save(String, String, SaveKind),
    /// Read the file at the path, and hand the outcome to `finish_open`.
    Open(String),
}

/// Whether a typed character is taken into a file name: an ASCII one.
pub open spec fn name_char(c: char) -> bool {
    (c as u32) < 128
}

/// Whether assembling the text of an editor in a workspace can run to an
/// end (see `Workspace::assembly_would_stop`).
pub open spec fn editor_assembly_ok<F: Fn(&str) -> Option<u32>>(
    e: TextEditorState,
    w: Workspace,
    f: F,
) -> bool {
    &&& w.emulator matches Some(em) && em.memory.wf() && em.memory.size <= 0x1_0000_0000
    &&& !source_assembly_stops(
        joined_lines(textarea_lines(e.textarea)),
        f,
        macro_views(w.assembler.macros@),
        w.emulator.unwrap().memory.size,
    )
}

/// Whether a key can be handled without stopping the program: Alt+E needs
/// an assembly that runs to an end.
pub open spec fn editor_key_ok<F: Fn(&str) -> Option<u32>>(
    e: TextEditorState,
    w: Workspace,
    key: KeyInput,
    f: F,
) -> bool {
    (key.pressed && !e.show_save_dialog && !e.show_save_as_dialog && !e.show_open_dialog
        && key.alt_only && key.code == Key::Char('e')) ==> editor_assembly_ok(e, w, f)
}

/// The name typed in a dialog after a key: an ASCII character is added,
/// Backspace takes the last one away.
pub open spec fn typed(name: Seq<char>, key: Key) -> Seq<char> {
    match key {
        Key::Char(c) => if name_char(c) {
            name.push(c)
        } else {
            name
        },
        Key::Backspace => if name.len() > 0 {
            name.drop_last()
        } else {
            name
        },
        _ => name,
    }
}

/// The text typed in a file name dialog after a key.
fn type_into(name: &mut String, key: Key)
    ensures
        final(name)@ == typed(old(name)@, key),
{
    match key {
        Key::Char(c) => {
            if (c as u32) < 128 {
                push_char(name, c);
            }
        },
        Key::Backspace => {
            *name = without_last_char(name);
        },
        _ => {},
    }
}

/// Whether a text is empty.
fn is_empty_text(s: &String) -> (r: bool)
    ensures
        r == (s@.len() == 0),
{
    proof {
        reveal_strlit("");
        if s@.len() == 0 {
            assert(s@ =~= ""@);
        }
    }
    text_is(s, "")
}

/// The path of a file named in a dialog, in the workspace's directory: with
/// the extension `arc` when the name gives none.
fn named_file_path(dir: &String, name: &String) -> (r: String)
    ensures
        r@ == new_file_path(dir@, name@),
{
    let joined = crate::utils::apps::file_explorer::join_path(dir.as_str(), name.as_str());
    match path_extension(joined.as_str()) {
        None => {
            proof {
                reveal_strlit("arc");
            }
            crate::utils::apps::file_explorer::set_extension(joined.as_str(), "arc")
        },
        Some(_) => joined,
    }
}

/// The text of a status message made of three parts.
fn message3(a: &str, b: &str, c: &str) -> (r: String)
    ensures
        r@ == a@ + b@ + c@,
{
    let mut r = string_from_str(a);
    push_str(&mut r, b);
    push_str(&mut r, c);
    r
}

/// The name an assembly error message gives a text: its file, or
/// `Unnamed Program`.
pub open spec fn program_name(p: Option<String>) -> Seq<char> {
    match p {
        Some(s) => s@,
        None => "Unnamed Program"@,
    }
}

/// The assembly error message for a text named `name`.
pub open spec fn assembly_error_text(name: Seq<char>, e: Seq<char>) -> Seq<char> {
    "Assembly error in "@ + name + ": "@ + e
}


/// What a key does in the dialog that asks to save before leaving: Y saves
/// (or, for a text without a file, opens the dialog that names one), N and
/// Esc only close the dialog.
pub open spec fn save_dialog_step(e0: TextEditorState, key: Key, e1: TextEditorState, r: EditorAction) -> bool {
    let content = joined_lines(textarea_lines(e0.textarea));
    if key == Key::Char('y') || key == Key::Char('Y') {
        match e0.file_path {
            Some(p) => e1 == (TextEditorState { show_save_dialog: false, ..e0 }) && (r matches EditorAction::Save(
                pp,
                c,
                k,
            ) && pp@ == p@ && c@ == content && k == SaveKind::SaveFromDialog),
            None => e1 == (TextEditorState {
                show_save_dialog: false,
                show_save_as_dialog: true,
                ..e0
            }) && r is Nothing,
        }
    } else if key == Key::Char('n') || key == Key::Char('N') || key == Key::Esc {
        e1 == (TextEditorState { show_save_dialog: false, ..e0 }) && r is Nothing
    } else {
        e1 == e0 && r is Nothing
    }
}

/// What a key does in the dialog that names the file to save, in the
/// directory `dir`: characters and Backspace edit the name, Enter saves
/// under it (see `new_file_path`) where one was typed and closes the
/// dialog, Esc closes it.
pub open spec fn save_as_step(
    e0: TextEditorState,
    dir: Seq<char>,
    key: Key,
    e1: TextEditorState,
    r: EditorAction,
) -> bool {
    let content = joined_lines(textarea_lines(e0.textarea));
    if key is Char || key is Backspace {
        e1 == (TextEditorState { new_file_name: e1.new_file_name, ..e0 }) && e1.new_file_name@
            == typed(e0.new_file_name@, key) && r is Nothing
    } else if key == Key::Enter {
        &&& e1 == (TextEditorState { show_save_as_dialog: false, ..e0 })
        &&& if e0.new_file_name@.len() > 0 {
            r matches EditorAction::Save(pp, c, k) && pp@ == new_file_path(dir, e0.new_file_name@)
                && c@ == content && k == SaveKind::SaveAs
        } else {
            r is Nothing
        }
    } else if key == Key::Esc {
        e1 == (TextEditorState { show_save_as_dialog: false, ..e0 }) && r is Nothing
    } else {
        e1 == e0 && r is Nothing
    }
}

/// What a key does in the dialog that names the file to open, in the
/// directory `dir`: characters and Backspace edit the name, Enter asks to
/// open it where one was typed and closes the dialog, Esc closes it.
pub open spec fn open_step(
    e0: TextEditorState,
    dir: Seq<char>,
    key: Key,
    e1: TextEditorState,
    r: EditorAction,
) -> bool {
    if key is Char || key is Backspace {
        e1 == (TextEditorState { open_file_name: e1.open_file_name, ..e0 }) && e1.open_file_name@
            == typed(e0.open_file_name@, key) && r is Nothing
    } else if key == Key::Enter {
        &&& e1 == (TextEditorState { show_open_dialog: false, ..e0 })
        &&& if e0.open_file_name@.len() > 0 {
            r matches EditorAction::Open(pp) && pp@ == joined_path(dir, e0.open_file_name@)
        } else {
            r is Nothing
        }
    } else if key == Key::Esc {
        e1 == (TextEditorState { show_open_dialog: false, ..e0 }) && r is Nothing
    } else {
        e1 == e0 && r is Nothing
    }
}

fn handle_save_dialog_input(key: Key, editor_state: &mut TextEditorState) -> (r: EditorAction)
    ensures
        save_dialog_step(*old(editor_state), key, *final(editor_state), r),
{
    match key {
        Key::Char('y') | Key::Char('Y') => {
            let action = match &editor_state.file_path {
                Some(p) => EditorAction::Save(
                    copy_string(p),
                    editor_state.get_content(),
                    SaveKind::SaveFromDialog,
                ),
                None => {
                    editor_state.show_save_as_dialog = true;
                    EditorAction::Nothing
                },
            };
            editor_state.show_save_dialog = false;
            action
        },
        Key::Char('n') | Key::Char('N') | Key::Esc => {
            editor_state.show_save_dialog = false;
            EditorAction::Nothing
        },
        _ => EditorAction::Nothing,
    }
}

fn handle_save_as_dialog_input(
    key: Key,
    editor_state: &mut TextEditorState,
    workspace: &Workspace,
) -> (r: EditorAction)
    ensures
        save_as_step(*old(editor_state), workspace.current_path@, key, *final(editor_state), r),
{
    match key {
        Key::Char(_) | Key::Backspace => {
            type_into(&mut editor_state.new_file_name, key);
            EditorAction::Nothing
        },
        Key::Enter => {
            let action = if !is_empty_text(&editor_state.new_file_name) {
                let path = named_file_path(&workspace.current_path, &editor_state.new_file_name);
                EditorAction::Save(path, editor_state.get_content(), SaveKind::SaveAs)
            } else {
                EditorAction::Nothing
            };
            editor_state.show_save_as_dialog = false;
            action
        },
        Key::Esc => {
            editor_state.show_save_as_dialog = false;
            EditorAction::Nothing
        },
        _ => EditorAction::Nothing,
    }
}

fn handle_open_dialog_input(key: Key, editor_state: &mut TextEditorState, workspace: &Workspace) -> (r:
    EditorAction)
    ensures
        open_step(*old(editor_state), workspace.current_path@, key, *final(editor_state), r),
{
    match key {
        Key::Char(_) | Key::Backspace => {
            type_into(&mut editor_state.open_file_name, key);
            EditorAction::Nothing
        },
        Key::Enter => {
            let action = if !is_empty_text(&editor_state.open_file_name) {
                EditorAction::Open(
                    crate::utils::apps::file_explorer::join_path(
                        workspace.current_path.as_str(),
                        editor_state.open_file_name.as_str(),
                    ),
                )
            } else {
                EditorAction::Nothing
            };
            editor_state.show_open_dialog = false;
            action
        },
        Key::Esc => {
            editor_state.show_open_dialog = false;
            EditorAction::Nothing
        },
        _ => EditorAction::Nothing,
    }
}

/// Whether the workspace `w1` is `w0` with only its emulator and its
/// assembler's last result possibly changed.
pub open spec fn files_kept(w0: Workspace, w1: Workspace) -> bool {
    &&& w1.current_path == w0.current_path && w1.open_files == w0.open_files
    &&& w1.active_file == w0.active_file && w1.unsaved_changes == w0.unsaved_changes
}

/// What Alt+E does: the text is assembled; if that works it is assembled
/// again and loaded into the emulator (see `assembled_into`), and the
/// emulator is shown where that worked too; otherwise the error, naming the
/// text's file, becomes the editor's assembly error. A status message tells
/// how it went.
pub open spec fn assemble_key_step<F: Fn(&str) -> Option<u32>>(
    e0: TextEditorState,
    e1: TextEditorState,
    w0: Workspace,
    w1: Workspace,
    st0: AppStatus,
    st1: AppStatus,
    s0: AppState,
    s1: AppState,
    f: F,
) -> bool {
    let content = joined_lines(textarea_lines(e0.textarea));
    let name = program_name(e0.file_path);
    let em0 = w0.emulator.unwrap();
    &&& e1 == (TextEditorState { assembly_errors: e1.assembly_errors, ..e0 })
    &&& files_kept(w0, w1)
    &&& match source_assembly(content, f, macro_views(w0.assembler.macros@), em0.memory.size) {
        Err(msg) => {
            &&& string_views(e1.assembly_errors@) == seq![assembly_error_text(name, msg)]
            &&& s1 == s0 && !st1.is_loading
            &&& st1.shown() == with_message(
                st0.shown(),
                "Assembly failed with "@ + crate::text::dec_text(1) + " errors in "@ + name,
            )
            &&& w1.emulator matches Some(em1) && em1.memory == em0.memory && em1.cpu == em0.cpu
                && string_views(em1.last_assembly_errors@) == seq![msg]
            &&& w1.assembler == w0.assembler
        },
        Ok(_) => exists|wm: Workspace, r: Result<(), String>|
            {
                &&& wm.emulator matches Some(emm) && emm.memory == em0.memory && emm.cpu
                    == em0.cpu && emm.last_assembly_errors@.len() == 0
                &&& wm.assembler == w0.assembler
                &&& #[trigger] assembled_into(wm, w1, st1.is_loading, content, f, r)
                &&& e1.assembly_errors@.len() == 0
                &&& match r {
                    Ok(()) => s1 == AppState::Emulator && st1.shown() == with_message(
                        st0.shown(),
                        "Program assembled successfully! Switching to emulator..."@,
                    ),
                    Err(m) => s1 == s0 && st1.shown() == with_message(
                        st0.shown(),
                        assembly_error_text(name, m@),
                    ),
                }
            },
    }
}

/// Assembles the editor's text (Alt+E, see `assemble_key_step`).
#[verifier::rlimit(60)]
fn assemble_text<F: Fn(&str) -> Option<u32>>(
    editor_state: &mut TextEditorState,
    app_state: &mut AppState,
    workspace: &mut Workspace,
    app_status: &mut AppStatus,
    float_value: &F,
)
    requires
        float_reader_ok(*float_value),
        editor_assembly_ok(*old(editor_state), *old(workspace), *float_value),
    ensures
        assemble_key_step(
            *old(editor_state),
            *final(editor_state),
            *old(workspace),
            *final(workspace),
            *old(app_status),
            *final(app_status),
            *old(app_state),
            *final(app_state),
            *float_value,
        ),
{
    editor_state.assembly_errors = Vec::new();
    let content = editor_state.get_content();
    let name = match &editor_state.file_path {
        Some(p) => copy_string(p),
        None => string_from_str("Unnamed Program"),
    };
    proof {
        reveal_strlit("Unnamed Program");
    }
    let ghost w0 = *workspace;
    match workspace.try_assemble_program(content.as_str(), app_status, float_value) {
        Ok(_) => {
            let ghost wm = *workspace;
            let r = workspace.assemble_and_load_program(content.as_str(), app_status, float_value);
            assert(assembled_into(wm, *workspace, app_status.is_loading, content@, *float_value, r));
            match r {
                Ok(()) => {
                    app_status.set_message(
                        string_from_str("Program assembled successfully! Switching to emulator..."),
                    );
                    *app_state = AppState::Emulator;
                },
                Err(e) => {
                    let mut m = message3("Assembly error in ", name.as_str(), ": ");
                    push_str(&mut m, e.as_str());
                    proof {
                        reveal_strlit("Assembly error in ");
                        reveal_strlit(": ");
                    }
                    app_status.set_message(m);
                },
            }
        },
        Err(errors) => {
            let ghost sa = source_assembly(content@, *float_value, macro_views(w0.assembler.macros@), w0.emulator.unwrap().memory.size);
            assert(sa is Err);
            assert(string_views(errors@) == seq![sa->Err_0]);
            assert(errors@.len() == 1);
            assert(errors@[0]@ == string_views(errors@)[0]);
            assert(name@ == program_name(old(editor_state).file_path));
            let mut formatted: Vec<String> = Vec::new();
            let mut i: usize = 0;
            while i < errors.len()
                invariant
                    i <= errors@.len(),
                    formatted@.len() == i,
                    forall|k: int| 0 <= k < i ==> #[trigger] formatted@[k]@ == assembly_error_text(
                        name@,
                        errors@[k]@,
                    ),
                decreases errors@.len() - i,
            {
                let mut m = message3("Assembly error in ", name.as_str(), ": ");
                push_str(&mut m, errors[i].as_str());
                formatted.push(m);
                i = i + 1;
            }
            assert(errors@.len() == 1);
            assert(formatted@[0]@ == assembly_error_text(name@, errors@[0]@));
            assert(string_views(formatted@) =~= seq![assembly_error_text(name@, errors@[0]@)]);
            editor_state.assembly_errors = formatted;
            proof {
                reveal_strlit("Assembly error in ");
                reveal_strlit(": ");
            }
            let mut m = string_from_str("Assembly failed with ");
            push_dec(&mut m, errors.len() as u64);
            push_str(&mut m, " errors in ");
            push_str(&mut m, name.as_str());
            app_status.set_message(m);
        },
    }
}


/// Whether handling the key would stop the program (see `editor_key_ok`):
/// `handle_text_editor_input` may be called where this is `false`.
pub fn editor_input_stops<F: Fn(&str) -> Option<u32>>(
    editor_state: &TextEditorState,
    workspace: &Workspace,
    key: KeyInput,
    float_value: &F,
) -> (r: bool)
    requires
        float_reader_ok(*float_value),
    ensures
        r == !editor_key_ok(*editor_state, *workspace, key, *float_value),
{
    if !(key.pressed && !editor_state.show_save_dialog && !editor_state.show_save_as_dialog
        && !editor_state.show_open_dialog && key.alt_only && key.code == Key::Char('e')) {
        return false;
    }
    match &workspace.emulator {
        Some(em) => {
            if em.memory.memory.len() != em.memory.size || (em.memory.size as u64) > 0x1_0000_0000u64 {
                return true;
            }
        },
        None => {
            return true;
        },
    }
    let content = editor_state.get_content();
    workspace.assembly_would_stop(content.as_str(), float_value)
}

/// Handles a key on the text editor. Only pressed keys count, and every key
/// below sets `handled`. An open dialog takes the key (see
/// `save_dialog_step`, `save_as_step` and `open_step`). Otherwise Alt+N
/// starts a new text without a file, Alt+S saves the text (or asks for a
/// name), Alt+A asks for a name, Alt+O asks for a file to open, Alt+Q asks
/// to save a changed text or goes back to the start menu, and Alt+E
/// assembles the text (see `assemble_key_step`); any other key goes to the
/// text area (see `textarea_edit`), and marks the text changed, and the key
/// handled, where the text area reports a change. The answer
/// tells the caller which file to write or read.
pub fn handle_text_editor_input<F: Fn(&str) -> Option<u32>>(
    key: KeyInput,
    editor_state: &mut TextEditorState,
    app_state: &mut AppState,
    workspace: &mut Workspace,
    app_status: &mut AppStatus,
    handled: &mut bool,
    float_value: &F,
) -> (r: EditorAction)
    requires
        float_reader_ok(*float_value),
        editor_key_ok(*old(editor_state), *old(workspace), key, *float_value),
    ensures
        ({
            let e0 = *old(editor_state);
            let e1 = *final(editor_state);
            let w0 = *old(workspace);
            let w1 = *final(workspace);
            let quiet = *final(app_status) == *old(app_status);
            let stays = *final(app_state) == *old(app_state);
            let content = joined_lines(textarea_lines(e0.textarea));
            if !key.pressed {
                &&& e1 == e0 && w1 == w0 && quiet && stays && r is Nothing
                &&& *final(handled) == *old(handled)
            } else if e0.show_save_dialog {
                save_dialog_step(e0, key.code, e1, r) && w1 == w0 && quiet && stays
                    && *final(handled)
            } else if e0.show_save_as_dialog {
                save_as_step(e0, w0.current_path@, key.code, e1, r) && w1 == w0 && quiet && stays
                    && *final(handled)
            } else if e0.show_open_dialog {
                open_step(e0, w0.current_path@, key.code, e1, r) && w1 == w0 && quiet && stays
                    && *final(handled)
            } else if key.alt_only && key.code == Key::Char('n') {
                &&& is_fresh(e1) && r is Nothing && stays && *final(handled)
                &&& w1 == (Workspace { active_file: None, ..w0 })
                &&& final(app_status).shown() == with_message(
                    old(app_status).shown(),
                    "New file created"@,
                )
                &&& final(app_status).is_loading == old(app_status).is_loading
            } else if key.alt_only && key.code == Key::Char('s') {
                &&& w1 == w0 && quiet && stays && *final(handled)
                &&& match e0.file_path {
                    Some(p) => e1 == e0 && (r matches EditorAction::Save(pp, c, k) && pp@ == p@
                        && c@ == content && k == SaveKind::Save),
                    None => e1 == (TextEditorState { show_save_as_dialog: true, ..e0 })
                        && r is Nothing,
                }
            } else if key.alt_only && key.code == Key::Char('a') {
                &&& e1 == (TextEditorState { show_save_as_dialog: true, ..e0 })
                &&& w1 == w0 && quiet && stays && *final(handled) && r is Nothing
            } else if key.alt_only && key.code == Key::Char('o') {
                &&& e1 == (TextEditorState {
                    show_open_dialog: true,
                    open_file_name: e1.open_file_name,
                    ..e0
                }) && e1.open_file_name@.len() == 0
                &&& w1 == w0 && quiet && stays && *final(handled) && r is Nothing
            } else if key.alt_only && key.code == Key::Char('q') {
                &&& w1 == w0 && quiet && *final(handled) && r is Nothing
                &&& if e0.is_editing {
                    e1 == (TextEditorState { show_save_dialog: true, ..e0 }) && stays
                } else {
                    e1 == e0 && *final(app_state) == AppState::StartMenu
                }
            } else if key.alt_only && key.code == Key::Char('e') {
                &&& assemble_key_step(
                    e0,
                    e1,
                    w0,
                    w1,
                    *old(app_status),
                    *final(app_status),
                    *old(app_state),
                    *final(app_state),
                    *float_value,
                )
                &&& *final(handled) && r is Nothing
            } else {
                let (lines, changed) = textarea_edit(e0.textarea, key);
                &&& e1 == (TextEditorState {
                    textarea: e1.textarea,
                    is_editing: e1.is_editing,
                    ..e0
                })
                &&& w1 == w0 && quiet && stays && r is Nothing
                &&& textarea_lines(e1.textarea) == lines
                &&& e1.is_editing == (e0.is_editing || changed)
                &&& *final(handled) == (*old(handled) || changed)
            }
        }),
{
    if !key.pressed {
        return EditorAction::Nothing;
    }
    if editor_state.show_save_dialog {
        let a = handle_save_dialog_input(key.code, editor_state);
        *handled = true;
        return a;
    } else if editor_state.show_save_as_dialog {
        let a = handle_save_as_dialog_input(key.code, editor_state, workspace);
        *handled = true;
        return a;
    } else if editor_state.show_open_dialog {
        let a = handle_open_dialog_input(key.code, editor_state, workspace);
        *handled = true;
        return a;
    }
    if key.alt_only && key.code == Key::Char('n') {
        *editor_state = TextEditorState::new();
        workspace.active_file = None;
        app_status.set_message(string_from_str("New file created"));
        *handled = true;
        EditorAction::Nothing
    } else if key.alt_only && key.code == Key::Char('s') {
        let a = match &editor_state.file_path {
            Some(p) => EditorAction::Save(copy_string(p), editor_state.get_content(), SaveKind::Save),
            None => {
                editor_state.show_save_as_dialog = true;
                EditorAction::Nothing
            },
        };
        *handled = true;
        a
    } else if key.alt_only && key.code == Key::Char('a') {
        editor_state.show_save_as_dialog = true;
        *handled = true;
        EditorAction::Nothing
    } else if key.alt_only && key.code == Key::Char('o') {
        editor_state.show_open_dialog = true;
        editor_state.open_file_name = String::new();
        *handled = true;
        EditorAction::Nothing
    } else if key.alt_only && key.code == Key::Char('q') {
        if editor_state.is_editing {
            editor_state.show_save_dialog = true;
        } else {
            *app_state = AppState::StartMenu;
        }
        *handled = true;
        EditorAction::Nothing
    } else if key.alt_only && key.code == Key::Char('e') {
        assemble_text(editor_state, app_state, workspace, app_status, float_value);
        *handled = true;
        EditorAction::Nothing
    } else {
        if textarea_input(&mut editor_state.textarea, key) {
            editor_state.is_editing = true;
            *handled = true;
        }
        EditorAction::Nothing
    }
}


/// Finishes a save asked for by a key, where `written` is the outcome of
/// writing the file at `path`: the workspace records it (see
/// `Workspace::save_file`); on success the text counts as saved (and, for a
/// save under a new name, belongs to that file), and a status message tells
/// how it went.
pub fn finish_save(
    editor_state: &mut TextEditorState,
    workspace: &mut Workspace,
    app_status: &mut AppStatus,
    path: &str,
    kind: SaveKind,
    written: Result<(), String>,
)
    ensures
        final(app_status).is_loading == old(app_status).is_loading,
        final(workspace).emulator == old(workspace).emulator,
        match written {
            Ok(()) => {
                &&& opt_path(final(workspace).active_file) == Some(path@)
                &&& string_views(final(workspace).open_files@) == opened(
                    string_views(old(workspace).open_files@),
                    path@,
                )
                &&& !final(workspace).unsaved_changes
                &&& !final(editor_state).is_editing
                &&& final(editor_state).textarea == old(editor_state).textarea
                &&& if kind == SaveKind::SaveAs {
                    opt_path(final(editor_state).file_path) == Some(path@)
                } else {
                    final(editor_state).file_path == old(editor_state).file_path
                }
                &&& final(app_status).shown() == with_message(
                    old(app_status).shown(),
                    match kind {
                        SaveKind::Save => "File saved successfully"@,
                        SaveKind::SaveFromDialog => "File saved"@,
                        SaveKind::SaveAs => "File saved as: "@ + path@,
                    },
                )
            },
            Err(e) => {
                &&& *final(editor_state) == *old(editor_state)
                &&& final(workspace).active_file == old(workspace).active_file
                &&& final(workspace).open_files == old(workspace).open_files
                &&& final(app_status).shown() == with_message(
                    old(app_status).shown(),
                    "Save failed: "@ + e@,
                )
            },
        },
{
    let r = if kind == SaveKind::SaveAs {
        workspace.save_file_as(path, written)
    } else {
        workspace.save_file(path, written)
    };
    match r {
        Ok(()) => {
            let m = match kind {
                SaveKind::Save => string_from_str("File saved successfully"),
                SaveKind::SaveFromDialog => string_from_str("File saved"),
                SaveKind::SaveAs => {
                    editor_state.file_path = Some(string_from_str(path));
                    message3("File saved as: ", path, "")
                },
            };
            proof {
                reveal_strlit("");
                assert("File saved as: "@ + path@ + ""@ =~= "File saved as: "@ + path@);
            }
            editor_state.is_editing = false;
            app_status.set_message(m);
        },
        Err(e) => {
            app_status.set_message(message3("Save failed: ", e.as_str(), ""));
            proof {
                reveal_strlit("");
                assert("Save failed: "@ + e@ + ""@ =~= "Save failed: "@ + e@);
            }
        },
    }
}

/// Whether assembling a text in a workspace can run to an end (see
/// `Workspace::assembly_would_stop`).
pub open spec fn text_assembly_ok<F: Fn(&str) -> Option<u32>>(
    content: Seq<char>,
    w: Workspace,
    f: F,
) -> bool {
    &&& w.emulator matches Some(em) && em.memory.wf() && em.memory.size <= 0x1_0000_0000
    &&& !source_assembly_stops(
        content,
        f,
        macro_views(w.assembler.macros@),
        w.emulator.unwrap().memory.size,
    )
}

/// Finishes opening the file at `path`, where `read` is the outcome of
/// reading it: the text goes into the editor (see `load_file`) and is
/// assembled and loaded into the emulator (see `assembled_into`); a status
/// message tells how it went.
pub fn finish_open<F: Fn(&str) -> Option<u32>>(
    editor_state: &mut TextEditorState,
    workspace: &mut Workspace,
    app_status: &mut AppStatus,
    path: &str,
    read: Result<String, String>,
    float_value: &F,
)
    requires
        float_reader_ok(*float_value),
        read matches Ok(c) ==> text_assembly_ok(c@, *old(workspace), *float_value),
    ensures
        match read {
            Ok(content) => {
                &&& textarea_lines(final(editor_state).textarea) == area_lines(content@)
                &&& opt_path(final(editor_state).file_path) == Some(path@)
                &&& final(editor_state).is_editing
                &&& final(editor_state).assembly_errors == old(editor_state).assembly_errors
                &&& exists|r: Result<(), String>|
                    {
                        &&& #[trigger] assembled_into(
                            *old(workspace),
                            *final(workspace),
                            final(app_status).is_loading,
                            content@,
                            *float_value,
                            r,
                        )
                        &&& final(app_status).shown() == with_message(
                            old(app_status).shown(),
                            match r {
                                Ok(()) => "Loaded and assembled: "@ + path@,
                                Err(e) => "Assembly error after loading "@ + path@ + ": "@ + e@,
                            },
                        )
                    }
            },
            Err(e) => {
                &&& *final(editor_state) == *old(editor_state)
                &&& *final(workspace) == *old(workspace)
                &&& final(app_status).shown() == with_message(
                    old(app_status).shown(),
                    "Failed to open file: "@ + e@,
                )
                &&& final(app_status).is_loading == old(app_status).is_loading
            },
        },
{
    match read {
        Ok(content) => {
            let _ = editor_state.load_file(string_from_str(path), copy_string(&content));
            let r = workspace.assemble_and_load_program(content.as_str(), app_status, float_value);
            match r {
                Ok(()) => {
                    app_status.set_message(message3("Loaded and assembled: ", path, ""));
                    proof {
                        reveal_strlit("");
                        assert("Loaded and assembled: "@ + path@ + ""@ =~= "Loaded and assembled: "@
                            + path@);
                    }
                },
                Err(e) => {
                    let mut m = message3("Assembly error after loading ", path, ": ");
                    push_str(&mut m, e.as_str());
                    app_status.set_message(m);
                },
            }
        },
        Err(e) => {
            app_status.set_message(message3("Failed to open file: ", e.as_str(), ""));
            proof {
                reveal_strlit("");
                assert("Failed to open file: "@ + e@ + ""@ =~= "Failed to open file: "@ + e@);
            }
        },
    }
}

/// Entering the text editor: with an active file, whose text could be read
/// (`read`), the editor takes the text and it is assembled and loaded into
/// the emulator, as in `finish_open`, except that an assembly error is also
/// kept among the editor's assembly errors; an unreadable file changes
/// nothing. Without an active file the editor starts a new text, with a
/// status message.
pub fn on_enter_text_editor<F: Fn(&str) -> Option<u32>>(
    editor_state: &mut TextEditorState,
    workspace: &mut Workspace,
    app_status: &mut AppStatus,
    read: Result<String, String>,
    float_value: &F,
)
    requires
        float_reader_ok(*float_value),
        old(workspace).active_file is Some ==> (read matches Ok(c) ==> text_assembly_ok(
            c@,
            *old(workspace),
            *float_value,
        )),
    ensures
        match old(workspace).active_file {
            None => {
                &&& is_fresh(*final(editor_state))
                &&& *final(workspace) == *old(workspace)
                &&& final(app_status).shown() == with_message(
                    old(app_status).shown(),
                    "New ARC file - Start editing your assembly code"@,
                )
            },
            Some(path) => match read {
                Err(_) => *final(editor_state) == *old(editor_state) && *final(workspace) == *old(
                    workspace,
                ) && *final(app_status) == *old(app_status),
                Ok(content) => {
                    &&& textarea_lines(final(editor_state).textarea) == area_lines(content@)
                    &&& opt_path(final(editor_state).file_path) == Some(path@)
                    &&& final(editor_state).is_editing
                    &&& exists|r: Result<(), String>|
                        {
                            &&& #[trigger] assembled_into(
                                *old(workspace),
                                *final(workspace),
                                final(app_status).is_loading,
                                content@,
                                *float_value,
                                r,
                            )
                            &&& match r {
                                Ok(()) => {
                                    &&& final(editor_state).assembly_errors == old(
                                        editor_state,
                                    ).assembly_errors
                                    &&& final(app_status).shown() == with_message(
                                        old(app_status).shown(),
                                        "Loaded and assembled: "@ + path@,
                                    )
                                },
                                Err(e) => {
                                    let m = "Assembly error after loading "@ + path@ + ": "@ + e@;
                                    &&& string_views(final(editor_state).assembly_errors@)
                                        == string_views(old(editor_state).assembly_errors@).push(m)
                                    &&& final(app_status).shown() == with_message(
                                        old(app_status).shown(),
                                        m,
                                    )
                                },
                            }
                        }
                },
            },
        },
{
    match &workspace.active_file {
        Some(p) => {
            let path = copy_string(p);
            if let Ok(content) = read {
                let _ = editor_state.load_file(copy_string(&path), copy_string(&content));
                let r = workspace.assemble_and_load_program(content.as_str(), app_status, float_value);
                match r {
                    Ok(()) => {
                        app_status.set_message(message3("Loaded and assembled: ", path.as_str(), ""));
                        proof {
                            reveal_strlit("");
                            assert("Loaded and assembled: "@ + path@ + ""@ =~= "Loaded and assembled: "@
                                + path@);
                        }
                    },
                    Err(e) => {
                        let mut m = message3("Assembly error after loading ", path.as_str(), ": ");
                        push_str(&mut m, e.as_str());
                        let ghost errs0 = string_views(editor_state.assembly_errors@);
                        editor_state.assembly_errors.push(copy_string(&m));
                        assert(string_views(editor_state.assembly_errors@) =~= errs0.push(m@));
                        app_status.set_message(m);
                    },
                }
            }
        },
        None => {
            *editor_state = TextEditorState::new();
            app_status.set_message(
                string_from_str("New ARC file - Start editing your assembly code"),
            );
        },
    }
}

} // verus!
