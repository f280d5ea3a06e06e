//! The workspace: its directory, the files open in it and the active one,
//! the emulator and assembler it works with, and the source parser that
//! turns a program text into assembler commands.
//!
//! Paths are held as text. Reading and writing files is left to the caller,
//! which hands the outcome of each write to the workspace.

use vstd::prelude::*;
use crate::chips::io_device::IoDevice;
use crate::memory::main_memory::DEFAULT_MEMORY_SIZE;
use crate::memory::main_memory::{load_words, write_bytes};
use crate::memory::registers::Reg;
use crate::text::{
    chars_of, copy_string, dec_text, find_char, first_index_of, lemma_first_index_of, push_dec,
    push_str, string_from_chars, string_from_str, text_is,
};
use crate::utils::apps::emulator::EmulatorState;
use crate::utils::assembler::command_processor::{
    assembly, assembly_fits, assembly_stops, assemble_program, clone_opt_string, clone_strings,
    command_of, command_views, macro_views, parse_command,
    AssembledProgram, Command, CommandView, Macro, MacroView, ProgramView,
};
use crate::utils::assembler::operands::float_reader_ok;
use crate::utils::config::app_config::{contains_text, extension_of, path_extension, string_views};
use crate::utils::ui::resources::AppStatus;

verus! {

/// The state of the assembler in the workspace.
#[derive(Debug)]
pub struct AssemblerState {
    /// The macros the assembler expands.
    pub macros: Vec<Macro>,
    /// The outcome of the last assembly, if any.
    pub last_assembly_result: Option<Result<AssembledProgram, String>>,
}

impl Default for AssemblerState {
    /// No macro, and no assembly yet.
    fn default() -> (s: Self)
        ensures
            s.macros@.len() == 0,
            s.last_assembly_result is None,
    {
        AssemblerState { macros: Vec::new(), last_assembly_result: None }
    }
}

/// The workspace.
#[derive(Debug)]
pub struct Workspace {
    /// The directory of the workspace.
    pub current_path: String,
    /// The files open in the workspace, each once, in the order they were
    /// opened.
    pub open_files: Vec<String>,
    /// The file being edited, if any.
    pub active_file: Option<String>,
    /// The emulator of the workspace.
    pub emulator: Option<EmulatorState>,
    /// The assembler of the workspace.
    pub assembler: AssemblerState,
    /// The I/O device of the emulated computer.
    pub io_device: IoDevice,
    /// Whether the active file has changes not saved yet.
    pub unsaved_changes: bool,
}

/// The text of an optional path.
pub open spec fn opt_path(p: Option<String>) -> Option<Seq<char>> {
    match p {
        Some(s) => Some(s@),
        None => None,
    }
}

/// The open files after `path` is opened: it is added at the end unless it
/// is open already.
pub open spec fn opened(files: Seq<Seq<char>>, path: Seq<char>) -> Seq<Seq<char>> {
    if files.contains(path) {
        files
    } else {
        files.push(path)
    }
}

/// The text of a new ARC program.
pub open spec fn new_arc_program_text() -> Seq<char> {
    "; New ARC Program\n.text\n    ; Your code goes here\n    MOVI AX, 0x0042    ; Example: Load 42 into AX\n    HALT               ; Stop execution\n\n.data\n    ; Data section (optional)\n    .word 0x0000\n"@
}

/// The text a new ARC program file starts with: a text section that loads
/// 42 into `AX` and halts, and a data section with one zero word.
pub fn new_arc_program() -> (r: String)
    ensures
        r@ == new_arc_program_text(),
{
    string_from_str(
        "; New ARC Program\n.text\n    ; Your code goes here\n    MOVI AX, 0x0042    ; Example: Load 42 into AX\n    HALT               ; Stop execution\n\n.data\n    ; Data section (optional)\n    .word 0x0000\n",
    )
}

/// Whether a file name has the extension of an assembly program, `arc` or
/// `asm`.
pub open spec fn is_program_file(path: Seq<char>) -> bool {
    extension_of(path) == Some("arc"@) || extension_of(path) == Some("asm"@)
}

/// The program files among `paths`, in their order.
pub open spec fn program_files(paths: Seq<Seq<char>>) -> Seq<Seq<char>> {
    paths.filter(|p: Seq<char>| is_program_file(p))
}

// ---------------------------------------------------------------------------
// From a program text to commands
// ---------------------------------------------------------------------------

/// A line without the carriage return at its end, if it has one.
pub open spec fn without_cr(t: Seq<char>) -> Seq<char> {
    if t.len() > 0 && t.last() == '\r' {
        t.drop_last()
    } else {
        t
    }
}

/// The lines of a text (as `str::lines` gives them): the text is split at
/// each `\n`, and a `\r` just before a `\n` is dropped; a final `\n` ends the
/// last line and starts no other.
pub open spec fn lines_of(s: Seq<char>) -> Seq<Seq<char>>
    decreases s.len(),
{
    if s.len() == 0 {
        seq![]
    } else {
        match first_index_of(s, '\n') {
            None => seq![s],
            Some(i) => {
                proof {
                    lemma_first_index_of(s, '\n');
                }
                seq![without_cr(s.take(i))] + lines_of(s.skip(i + 1))
            },
        }
    }
}

/// The lines of a text (see `lines_of`).
pub fn split_lines(source: &str) -> (r: Vec<String>)
    ensures
        string_views(r@) == lines_of(source@),
{
    let cs = chars_of(source);
    let s = cs.as_slice();
    let n = s.len();
    let mut out: Vec<String> = Vec::new();
    let mut pos: usize = 0;
    assert(s@.skip(0) =~= s@);
    while pos < n
        invariant
            pos <= n,
            n == s@.len(),
            s@ == source@,
            string_views(out@) + lines_of(s@.skip(pos as int)) == lines_of(s@),
        decreases n - pos,
    {
        let ghost rest = s@.skip(pos as int);
        assert(rest =~= s@.subrange(pos as int, n as int));
        let ghost out0 = out@;
        match find_char(s, pos, n, '\n') {
            None => {
                out.push(string_from_chars(&s[pos..n]));
                assert(lines_of(rest) == seq![rest]);
                assert(string_views(out@) =~= string_views(out0).push(rest));
                assert(s@.skip(n as int) =~= Seq::<char>::empty());
                assert(lines_of(s@.skip(n as int)) == Seq::<Seq<char>>::empty());
                assert(string_views(out0) + seq![rest] =~= string_views(out0).push(rest));
                assert(string_views(out@) + Seq::<Seq<char>>::empty() =~= string_views(out@));
                pos = n;
            },
            Some(i) => {
                proof {
                    lemma_first_index_of(rest, '\n');
                }
                let e = if i > pos && s[i - 1] == '\r' {
                    i - 1
                } else {
                    i
                };
                assert(rest.take(i - pos) =~= s@.subrange(pos as int, i as int));
                assert(without_cr(rest.take(i - pos)) =~= s@.subrange(pos as int, e as int));
                assert(rest.skip(i - pos + 1) =~= s@.skip(i + 1));
                out.push(string_from_chars(&s[pos..e]));
                assert(string_views(out@) =~= string_views(out0).push(without_cr(rest.take(i - pos))));
                assert(string_views(out0) + lines_of(rest) =~= string_views(out@) + lines_of(
                    s@.skip(i + 1),
                ));
                pos = i + 1;
            },
        }
    }
    assert(s@.skip(n as int) =~= Seq::<char>::empty());
    assert(string_views(out@) + Seq::<Seq<char>>::empty() =~= string_views(out@));
    out
}

/// The error text for line `n` (counted from 1).
pub open spec fn line_error(n: nat, e: Seq<char>) -> Seq<char> {
    "Line "@ + dec_text(n) + ": "@ + e
}

/// The commands gathered from the first `k` lines, and whether a macro
/// definition is open after them; or the first error. The lines of a macro
/// definition, from `.macro` to `.endmacro`, are not gathered.
pub open spec fn gathered<F: Fn(&str) -> Option<u32>>(
    lines: Seq<Seq<char>>,
    f: F,
    k: nat,
) -> Result<(Seq<CommandView>, bool), Seq<char>>
    decreases k,
{
    if k == 0 {
        Ok((seq![], false))
    } else {
        match gathered(lines, f, (k - 1) as nat) {
            Err(e) => Err(e),
            Ok((cmds, open)) => match command_of(lines[k - 1], f) {
                Err(e) => Err(line_error(k, e)),
                Ok(c) => if c.opcode == ".macro"@ {
                    if open {
                        Err(line_error(k, "Nested macro definition not allowed"@))
                    } else {
                        Ok((cmds, true))
                    }
                } else if open {
                    Ok((cmds, c.opcode != ".endmacro"@))
                } else {
                    Ok((cmds.push(c), false))
                },
            },
        }
    }
}

/// The commands of a program text, read with the floating-point reader
/// `f`; or the first error.
pub open spec fn source_commands<F: Fn(&str) -> Option<u32>>(source: Seq<char>, f: F) -> Result<
    Seq<CommandView>,
    Seq<char>,
> {
    let lines = lines_of(source);
    match gathered(lines, f, lines.len()) {
        Err(e) => Err(e),
        Ok((cmds, open)) => if open {
            Err("Unclosed macro definition"@)
        } else {
            Ok(cmds)
        },
    }
}

/// After an error, more lines do not change the error.
pub proof fn lemma_gathered_error_stays<F: Fn(&str) -> Option<u32>>(
    lines: Seq<Seq<char>>,
    f: F,
    k: nat,
    m: nat,
)
    requires
        k <= m,
        gathered(lines, f, k) is Err,
    ensures
        gathered(lines, f, m) == gathered(lines, f, k),
    decreases m,
{
    if k < m {
        lemma_gathered_error_stays(lines, f, k, (m - 1) as nat);
    }
}

/// The error text for line `n`.
fn line_error_text(n: usize, e: &str) -> (r: String)
    ensures
        r@ == line_error(n as nat, e@),
{
    let mut r = string_from_str("Line ");
    push_dec(&mut r, n as u64);
    push_str(&mut r, ": ");
    push_str(&mut r, e);
    r
}

/// Whether the path `a` comes no later than the path `b` in the order of
/// `std::path::Path` (which compares paths component by component). The
/// order depends on the two texts alone.
pub uninterp spec fn path_le(a: Seq<char>, b: Seq<char>) -> bool;

/// Sorts paths in the order of `std::path::Path` (`slice::sort` on
/// `PathBuf`s, each made from and turned back into its text). The answer
/// holds the same paths, each as often, and no path comes after a later
/// one.
#[verifier::external_body]
fn sort_paths(v: Vec<String>) -> (r: Vec<String>)
    ensures
        string_views(r@).to_multiset() == string_views(v@).to_multiset(),
        forall|i: int, j: int| 0 <= i < j < r@.len() ==> path_le(#[trigger] r@[i]@, #[trigger] r@[j]@),
{
    let mut p: Vec<std::path::PathBuf> = v.into_iter().map(std::path::PathBuf::from).collect();
    p.sort();
    p.into_iter().map(|x| x.to_string_lossy().into_owned()).collect()
}

/// A copy of an assembled program.
pub fn clone_program(p: &AssembledProgram) -> (r: AssembledProgram)
    ensures
        r@ == p@,
{
    let text = p.text.clone();
    let data = p.data.clone();
    assert(text@ =~= p.text@);
    assert(data@ =~= p.data@);
    AssembledProgram {
        text,
        data,
        actual_text_start: p.actual_text_start,
        actual_data_start: p.actual_data_start,
        actual_stack_start: p.actual_stack_start,
        actual_stack_size: p.actual_stack_size,
    }
}

/// Reads a program text into commands (see `source_commands`).
#[verifier::rlimit(40)]
fn gather_source<F: Fn(&str) -> Option<u32>>(source: &str, float_value: &F) -> (r: Result<
    Vec<Command>,
    String,
>)
    requires
        float_reader_ok(*float_value),
    ensures
        match source_commands(source@, *float_value) {
            Ok(c) => r matches Ok(v) && command_views(v@) == c,
            Err(e) => r matches Err(msg) && msg@ == e,
        },
{
    let lines = split_lines(source);
    let ghost ls = lines_of(source@);
    let ghost f = *float_value;
    let mut commands: Vec<Command> = Vec::new();
    let mut current_macro: Option<Macro> = None;
    let mut k: usize = 0;
    assert(command_views(commands@) =~= Seq::<CommandView>::empty());
    while k < lines.len()
        invariant
            k <= lines@.len(),
            string_views(lines@) == ls,
            ls == lines_of(source@),
            f == *float_value,
            float_reader_ok(*float_value),
            gathered(ls, f, k as nat) == Ok::<(Seq<CommandView>, bool), Seq<char>>(
                (command_views(commands@), current_macro is Some),
            ),
        decreases lines@.len() - k,
    {
        let line = lines[k].as_str();
        assert(line@ == ls[k as int]);
        let command = match parse_command(line, float_value) {
            Ok(c) => c,
            Err(e) => {
                let msg = line_error_text(k + 1, e.as_str());
                proof {
                    lemma_gathered_error_stays(ls, f, (k + 1) as nat, ls.len());
                }
                return Err(msg);
            },
        };
        proof {
            reveal_strlit(".macro");
            reveal_strlit(".endmacro");
        }
        let ghost cmds0 = command_views(commands@);
        if text_is(&command.opcode, ".macro") {
            if current_macro.is_some() {
                let msg = line_error_text(k + 1, "Nested macro definition not allowed");
                proof {
                    lemma_gathered_error_stays(ls, f, (k + 1) as nat, ls.len());
                }
                return Err(msg);
            }
            let name = match clone_opt_string(&command.macro_name) {
                Some(n) => n,
                None => String::new(),
            };
            let args = match &command.macro_args {
                Some(a) => clone_strings(a),
                None => Vec::new(),
            };
            current_macro = Some(Macro { name, args, body: Vec::new() });
        } else {
            let is_end = text_is(&command.opcode, ".endmacro");
            match &mut current_macro {
                Some(m) => {
                    if is_end {
                        current_macro = None;
                    } else {
                        m.body.push(command);
                    }
                },
                None => {
                    commands.push(command);
                    assert(command_views(commands@) =~= cmds0.push(command@));
                },
            }
        }
        k = k + 1;
    }
    proof {
        assert(ls.len() == k);
    }
    if current_macro.is_some() {
        return Err(string_from_str("Unclosed macro definition"));
    }
    Ok(commands)
}

/// What assembling a program text gives: its commands, assembled with the
/// macros in a memory of `total` bytes; or the first error.
pub open spec fn source_assembly<F: Fn(&str) -> Option<u32>>(
    source: Seq<char>,
    f: F,
    macros: Seq<MacroView>,
    total: usize,
) -> Result<ProgramView, Seq<char>> {
    match source_commands(source, f) {
        Err(e) => Err(e),
        Ok(cmds) => assembly(cmds, macros, total),
    }
}

/// Whether assembling a program text stops the program: its assembly
/// does (see `assembly_fits`).
pub open spec fn source_assembly_stops<F: Fn(&str) -> Option<u32>>(
    source: Seq<char>,
    f: F,
    macros: Seq<MacroView>,
    total: usize,
) -> bool {
    (source_commands(source, f) matches Ok(cmds) && assembly_stops(
        cmds,
        macros,
        total,
    ))
}

/// What loading a program into the bytes `m` of a memory of `size` bytes
/// gives: the new bytes; or the error, and the bytes as far as they were
/// written.
pub open spec fn load_result(m: Seq<u8>, size: nat, p: ProgramView) -> Result<
    Seq<u8>,
    (Seq<char>, Seq<u8>),
> {
    let m1 = load_words(m, p.text_start as int, p.text);
    if p.text_start + p.text.len() * 4 > size {
        Err(("Program too large for memory"@, m))
    } else if p.data.len() > 0 && p.data_start + p.data.len() > size {
        Err(("Data too large for memory"@, m1))
    } else if p.data.len() > 0 {
        Ok(write_bytes(m1, p.data_start as int, p.data))
    } else {
        Ok(m1)
    }
}

/// Whether assembling and loading `source` (see
/// `Workspace::assemble_and_load_program`) may take the workspace `w0` to
/// `w1` with the answer `r`, the loading indicator ending as `loading`.
pub open spec fn assembled_into<F: Fn(&str) -> Option<u32>>(
    w0: Workspace,
    w1: Workspace,
    loading: bool,
    source: Seq<char>,
    f: F,
    r: Result<(), String>,
) -> bool {
    let e0 = w0.emulator.unwrap();
    let e1 = w1.emulator.unwrap();
    match source_assembly(
        source,
        f,
        macro_views(w0.assembler.macros@),
        e0.memory.size,
    ) {
        Err(msg) => {
            &&& r matches Err(m) && m@ == msg
            &&& loading
            &&& w1.emulator == w0.emulator
            &&& w1.assembler.last_assembly_result == w0.assembler.last_assembly_result
        },
        Ok(p) => match load_result(e0.memory.memory@, e0.memory.size as nat, p) {
            Err((msg, m)) => {
                &&& r matches Err(t) && t@ == msg
                &&& loading
                &&& e1.memory.memory@ == m
                &&& e1.cpu == e0.cpu
                &&& w1.assembler.last_assembly_result == w0.assembler.last_assembly_result
            },
            Ok(m) => {
                &&& r is Ok
                &&& !loading
                &&& e1.memory.memory@ == m
                &&& e1.cpu.registers == e0.cpu.registers.with_value(
                    Reg::PC,
                    p.text_start,
                ).with_value(Reg::SP, p.stack_start)
                &&& e1.cpu.halted == e0.cpu.halted
                &&& e1.program_loaded
                &&& e1.program_source matches Some(t) && t@ == source
                &&& e1.assembled_program matches Some(q) && q@ == p
                &&& e1.last_assembly_errors@.len() == 0
                &&& w1.assembler.last_assembly_result matches Some(Ok(q))
                    && q@ == p
            },
        },
    }
}

impl Workspace {
    /// A workspace on the directory `path`, with no file open, no unsaved
    /// change, an empty assembler, a fresh device, and an emulator with a
    /// memory of `memory_size` bytes. Making the directory is left to the
    /// caller.
    pub fn new(path: &str, memory_size: usize) -> (w: Self)
        requires
            memory_size > 0,
        ensures
            w.current_path@ == path@,
            w.open_files@.len() == 0,
            w.active_file is None,
            w.emulator matches Some(e) && e.memory.wf() && e.memory.size == memory_size
                && e.memory.memory@ == Seq::new(memory_size as nat, |i: int| 0u8)
                && e.cpu.registers.all_zero() && !e.cpu.halted && !e.program_loaded
                && e.last_assembly_errors@.len() == 0,
            w.assembler.macros@.len() == 0,
            w.assembler.last_assembly_result is None,
            !w.unsaved_changes,
    {
        Workspace {
            current_path: string_from_str(path),
            open_files: Vec::new(),
            active_file: None,
            emulator: Some(EmulatorState::new(memory_size)),
            assembler: AssemblerState::default(),
            io_device: IoDevice::new(),
            unsaved_changes: false,
        }
    }

    /// The emulator of the workspace, to change.
    pub fn get_emulator(&mut self) -> (e: &mut EmulatorState)
        requires
            old(self).emulator is Some,
        ensures
            *e == old(self).emulator.unwrap(),
            final(self).emulator == Some(*final(e)),
            final(self).current_path == old(self).current_path,
            final(self).open_files == old(self).open_files,
            final(self).active_file == old(self).active_file,
            final(self).unsaved_changes == old(self).unsaved_changes,
            final(self).assembler == old(self).assembler,
            final(self).io_device == old(self).io_device,
    {
        self.emulator.as_mut().unwrap()
    }

    /// Records that `file_path` was written, where `written` is the outcome
    /// of writing it: on success the file becomes the active file, is added
    /// to the open files if it was not there, and has no unsaved change; a
    /// failed write is handed back with the workspace unchanged.
    pub fn save_file(&mut self, file_path: &str, written: Result<(), String>) -> (r: Result<
        (),
        String,
    >)
        ensures
            match written {
                Ok(()) => {
                    &&& r is Ok
                    &&& opt_path(final(self).active_file) == Some(file_path@)
                    &&& string_views(final(self).open_files@) == opened(
                        string_views(old(self).open_files@),
                        file_path@,
                    )
                    &&& !final(self).unsaved_changes
                },
                Err(e) => {
                    &&& r == Err::<(), String>(e)
                    &&& final(self).active_file == old(self).active_file
                    &&& final(self).open_files == old(self).open_files
                    &&& final(self).unsaved_changes == old(self).unsaved_changes
                },
            },
            final(self).current_path == old(self).current_path,
            final(self).emulator == old(self).emulator,
    {
        match written {
            Ok(()) => {
                self.record_open(file_path);
                self.unsaved_changes = false;
                Ok(())
            },
            Err(e) => Err(e),
        }
    }

    /// Makes `file_path` the active file and adds it to the open files if it
    /// is not there.
    fn record_open(&mut self, file_path: &str)
        ensures
            opt_path(final(self).active_file) == Some(file_path@),
            string_views(final(self).open_files@) == opened(
                string_views(old(self).open_files@),
                file_path@,
            ),
            final(self).current_path == old(self).current_path,
            final(self).emulator == old(self).emulator,
            final(self).unsaved_changes == old(self).unsaved_changes,
    {
        let p = string_from_str(file_path);
        self.active_file = Some(copy_string(&p));
        if !contains_text(&self.open_files, &p) {
            self.open_files.push(p);
            assert(string_views(self.open_files@) =~= string_views(old(self).open_files@).push(
                file_path@,
            ));
        }
    }

    /// Records the write of the active file, where `written` is the outcome
    /// of writing it (see `save_file`). Without an active file the answer is
    /// `Err("No active file to save")` and nothing changes.
    pub fn save_current_file(&mut self, written: Result<(), String>) -> (r: Result<(), String>)
        ensures
            match old(self).active_file {
                None => {
                    &&& r matches Err(e) && e@ == "No active file to save"@
                    &&& final(self).open_files == old(self).open_files
                    &&& final(self).active_file == old(self).active_file
                    &&& final(self).unsaved_changes == old(self).unsaved_changes
                },
                Some(p) => match written {
                    Ok(()) => {
                        &&& r is Ok
                        &&& opt_path(final(self).active_file) == Some(p@)
                        &&& string_views(final(self).open_files@) == opened(
                            string_views(old(self).open_files@),
                            p@,
                        )
                        &&& !final(self).unsaved_changes
                    },
                    Err(e) => {
                        &&& r == Err::<(), String>(e)
                        &&& final(self).active_file == old(self).active_file
                        &&& final(self).open_files == old(self).open_files
                        &&& final(self).unsaved_changes == old(self).unsaved_changes
                    },
                },
            },
            final(self).current_path == old(self).current_path,
            final(self).emulator == old(self).emulator,
    {
        match &self.active_file {
            Some(p) => {
                let path = copy_string(p);
                self.save_file(path.as_str(), written)
            },
            None => Err(string_from_str("No active file to save")),
        }
    }

    /// Records the write of the content under a new name: the same as
    /// `save_file`.
    pub fn save_file_as(&mut self, file_path: &str, written: Result<(), String>) -> (r: Result<
        (),
        String,
    >)
        ensures
            match written {
                Ok(()) => {
                    &&& r is Ok
                    &&& opt_path(final(self).active_file) == Some(file_path@)
                    &&& string_views(final(self).open_files@) == opened(
                        string_views(old(self).open_files@),
                        file_path@,
                    )
                    &&& !final(self).unsaved_changes
                },
                Err(e) => {
                    &&& r == Err::<(), String>(e)
                    &&& final(self).active_file == old(self).active_file
                    &&& final(self).open_files == old(self).open_files
                    &&& final(self).unsaved_changes == old(self).unsaved_changes
                },
            },
            final(self).current_path == old(self).current_path,
            final(self).emulator == old(self).emulator,
    {
        self.save_file(file_path, written)
    }

    /// Opens a file for editing: it becomes the active file, is added to the
    /// open files if it was not there, and has no unsaved change.
    pub fn open_file_for_editing(&mut self, file_path: &str) -> (r: Result<(), String>)
        ensures
            r is Ok,
            opt_path(final(self).active_file) == Some(file_path@),
            string_views(final(self).open_files@) == opened(
                string_views(old(self).open_files@),
                file_path@,
            ),
            !final(self).unsaved_changes,
            final(self).current_path == old(self).current_path,
            final(self).emulator == old(self).emulator,
    {
        self.record_open(file_path);
        self.unsaved_changes = false;
        Ok(())
    }

    /// Records the creation of a new program file, where `written` is the
    /// outcome of writing `new_arc_program()` to it: on success the file is
    /// open and active, and marked as having unsaved changes; a failed write
    /// is handed back with the workspace unchanged.
    pub fn create_new_arc_file(&mut self, file_path: &str, written: Result<(), String>) -> (r:
        Result<(), String>)
        ensures
            match written {
                Ok(()) => {
                    &&& r is Ok
                    &&& opt_path(final(self).active_file) == Some(file_path@)
                    &&& string_views(final(self).open_files@) == opened(
                        string_views(old(self).open_files@),
                        file_path@,
                    )
                    &&& final(self).unsaved_changes
                },
                Err(e) => {
                    &&& r == Err::<(), String>(e)
                    &&& final(self).active_file == old(self).active_file
                    &&& final(self).open_files == old(self).open_files
                    &&& final(self).unsaved_changes == old(self).unsaved_changes
                },
            },
            final(self).current_path == old(self).current_path,
            final(self).emulator == old(self).emulator,
    {
        match self.save_file(file_path, written) {
            Ok(()) => {},
            Err(e) => {
                return Err(e);
            },
        }
        let ghost files1 = string_views(self.open_files@);
        proof {
            let files0 = string_views(old(self).open_files@);
            if !files0.contains(file_path@) {
                assert(files0.push(file_path@)[files0.len() as int] == file_path@);
            }
        }
        assert(files1.contains(file_path@));
        let _ = self.open_file_for_editing(file_path);
        self.unsaved_changes = true;
        Ok(())
    }

    /// Reads a program text into commands, line by line (see `lines_of`),
    /// each with `parse_command`. The lines from a `.macro` line to the next
    /// `.endmacro` line form a macro definition and are not among the
    /// commands. Errors: `Line n: ` and the error of the first line that
    /// does not parse, or `Nested macro definition not allowed` for a
    /// `.macro` inside a definition; `Unclosed macro definition` when the
    /// text ends inside one.
    pub fn parse_source_to_commands<F: Fn(&str) -> Option<u32>>(
        &self,
        source: &str,
        float_value: &F,
    ) -> (r: Result<Vec<Command>, String>)
        requires
            float_reader_ok(*float_value),
        ensures
            match source_commands(source@, *float_value) {
                Ok(c) => r matches Ok(v) && command_views(v@) == c,
                Err(e) => r matches Err(msg) && msg@ == e,
            },
    {
        gather_source(source, float_value)
    }

    /// Whether assembling `source` in this workspace stops the program (see
    /// `source_assembly_stops`): `assemble_and_load_program` and
    /// `try_assemble_program` may be called where this is `false`.
    pub fn assembly_would_stop<F: Fn(&str) -> Option<u32>>(&self, source: &str, float_value: &F) -> (r:
        bool)
        requires
            float_reader_ok(*float_value),
            self.emulator is Some,
        ensures
            r == source_assembly_stops(
                source@,
                *float_value,
                macro_views(self.assembler.macros@),
                self.emulator.unwrap().memory.size,
            ),
    {
        match gather_source(source, float_value) {
            Err(_) => false,
            Ok(commands) => {
                let total = match &self.emulator {
                    Some(e) => e.memory.size,
                    None => 0,
                };
                !assembly_fits(commands.as_slice(), self.assembler.macros.as_slice(), total)
            },
        }
    }

    /// Assembles a program text with the workspace's macros, for the
    /// emulator's memory size, and loads it into the emulator (see
    /// `EmulatorState::load_assembled_program`); the emulator then records
    /// the text and the program and clears its assembly errors, and the
    /// assembler records the program. The loading indicator is on from the
    /// start, and off again only on success. An error in reading, assembling
    /// or loading is returned, and what was done until then stays.
    #[verifier::rlimit(40)]
    pub fn assemble_and_load_program<F: Fn(&str) -> Option<u32>>(
        &mut self,
        source: &str,
        app_status: &mut AppStatus,
        float_value: &F,
    ) -> (r: Result<(), String>)
        requires
            float_reader_ok(*float_value),
            old(self).emulator matches Some(e) && e.memory.wf() && e.memory.size
                <= 0x1_0000_0000,
            !source_assembly_stops(
                source@,
                *float_value,
                macro_views(old(self).assembler.macros@),
                old(self).emulator.unwrap().memory.size,
            ),
        ensures
            final(app_status).messages == old(app_status).messages,
            final(app_status).loading_progress == old(app_status).loading_progress,
            final(self).current_path == old(self).current_path,
            final(self).open_files == old(self).open_files,
            final(self).active_file == old(self).active_file,
            final(self).unsaved_changes == old(self).unsaved_changes,
            final(self).emulator matches Some(e) && e.memory.wf() && e.memory.size
                == old(self).emulator.unwrap().memory.size,
            assembled_into(
                *old(self),
                *final(self),
                final(app_status).is_loading,
                source@,
                *float_value,
                r,
            ),
    {
        app_status.is_loading = true;
        let commands = match self.parse_source_to_commands(source, float_value) {
            Ok(c) => c,
            Err(e) => {
                return Err(e);
            },
        };
        let total = match &self.emulator {
            Some(e) => e.memory.size,
            None => 0,
        };
        let program = match assemble_program(
            commands.as_slice(),
            self.assembler.macros.as_slice(),
            total,
        ) {
            Ok(p) => p,
            Err(e) => {
                return Err(e);
            },
        };
        let emulator = self.get_emulator();
        match emulator.load_assembled_program(&program) {
            Ok(()) => {},
            Err(e) => {
                return Err(e);
            },
        }
        emulator.program_source = Some(string_from_str(source));
        emulator.assembled_program = Some(clone_program(&program));
        emulator.last_assembly_errors.clear();
        self.assembler.last_assembly_result = Some(Ok(program));
        app_status.is_loading = false;
        Ok(())
    }

    /// Assembles a program text with the workspace's macros, for the
    /// emulator's memory size, without loading it: the program, or the
    /// error as a one-element list, which the emulator also records as its
    /// assembly errors (and clears them on success). The loading indicator
    /// is off at the end.
    #[verifier::rlimit(40)]
    pub fn try_assemble_program<F: Fn(&str) -> Option<u32>>(
        &mut self,
        source: &str,
        app_status: &mut AppStatus,
        float_value: &F,
    ) -> (r: Result<AssembledProgram, Vec<String>>)
        requires
            float_reader_ok(*float_value),
            old(self).emulator is Some,
            !source_assembly_stops(
                source@,
                *float_value,
                macro_views(old(self).assembler.macros@),
                old(self).emulator.unwrap().memory.size,
            ),
        ensures
            !final(app_status).is_loading,
            final(app_status).messages == old(app_status).messages,
            final(app_status).loading_progress == old(app_status).loading_progress,
            final(self).current_path == old(self).current_path,
            final(self).open_files == old(self).open_files,
            final(self).active_file == old(self).active_file,
            final(self).unsaved_changes == old(self).unsaved_changes,
            final(self).assembler == old(self).assembler,
            ({
                let e0 = old(self).emulator.unwrap();
                &&& final(self).emulator matches Some(e1) && e1.memory == e0.memory && e1.cpu
                    == e0.cpu && e1.program_loaded == e0.program_loaded
                &&& match source_assembly(
                    source@,
                    *float_value,
                    macro_views(old(self).assembler.macros@),
                    e0.memory.size,
                ) {
                    Ok(p) => {
                        &&& r matches Ok(q) && q@ == p
                        &&& final(self).emulator.unwrap().last_assembly_errors@.len() == 0
                    },
                    Err(msg) => {
                        &&& r matches Err(v) && string_views(v@) == seq![msg]
                        &&& string_views(final(self).emulator.unwrap().last_assembly_errors@)
                            == seq![msg]
                    },
                }
            }),
    {
        app_status.is_loading = true;
        let total = match &self.emulator {
            Some(e) => e.memory.size,
            None => 0,
        };
        let outcome = match self.parse_source_to_commands(source, float_value) {
            Ok(commands) => assemble_program(
                commands.as_slice(),
                self.assembler.macros.as_slice(),
                total,
            ),
            Err(e) => Err(e),
        };
        let result = match outcome {
            Ok(program) => {
                let emulator = self.get_emulator();
                emulator.last_assembly_errors.clear();
                Ok(program)
            },
            Err(e) => {
                let emulator = self.get_emulator();
                let mut errors: Vec<String> = Vec::new();
                errors.push(copy_string(&e));
                emulator.last_assembly_errors = errors;
                let mut returned: Vec<String> = Vec::new();
                returned.push(e);
                assert(string_views(returned@) =~= seq![e@]);
                assert(string_views(emulator.last_assembly_errors@) =~= seq![e@]);
                Err(returned)
            },
        };
        app_status.is_loading = false;
        result
    }

    /// Whether the active file has unsaved changes.
    pub fn has_unsaved_changes(&self) -> (r: bool)
        ensures
            r == self.unsaved_changes,
    {
        self.unsaved_changes
    }

    /// The path of the active file, if any.
    pub fn get_selected_program_path(&self) -> (r: Option<String>)
        ensures
            opt_path(r) == opt_path(self.active_file),
    {
        match &self.active_file {
            Some(p) => Some(copy_string(p)),
            None => None,
        }
    }

    /// Marks the active file as having unsaved changes.
    pub fn mark_unsaved(&mut self)
        ensures
            final(self).unsaved_changes,
            final(self).current_path == old(self).current_path,
            final(self).open_files == old(self).open_files,
            final(self).active_file == old(self).active_file,
            final(self).emulator == old(self).emulator,
    {
        self.unsaved_changes = true;
    }

    /// The program files (extension `arc` or `asm`) among the files found in
    /// the workspace's directory, sorted in path order (see `path_le`).
    /// Walking the directory is left to the caller.
    pub fn list_arc_files(&self, files: &Vec<String>) -> (r: Result<Vec<String>, String>)
        ensures
            r matches Ok(v) && string_views(v@).to_multiset() == program_files(
                string_views(files@),
            ).to_multiset() && forall|i: int, j: int|
                0 <= i < j < v@.len() ==> path_le(#[trigger] v@[i]@, #[trigger] v@[j]@),
    {
        let mut out: Vec<String> = Vec::new();
        let mut i: usize = 0;
        while i < files.len()
            invariant
                i <= files@.len(),
                string_views(out@) == program_files(string_views(files@).take(i as int)),
            decreases files.len() - i,
        {
            let ghost before = string_views(files@).take(i as int);
            assert(string_views(files@).take(i + 1) =~= before.push(files@[i as int]@));
            proof {
                let after = before.push(files@[i as int]@);
                assert(after.drop_last() =~= before);
                reveal_with_fuel(Seq::<_>::filter, 1);
            }
            let keep = match path_extension(files[i].as_str()) {
                Some(e) => text_is(&e, "arc") || text_is(&e, "asm"),
                None => false,
            };
            proof {
                reveal_strlit("arc");
                reveal_strlit("asm");
            }
            assert(keep == is_program_file(files@[i as int]@));
            let ghost out0 = out@;
            if keep {
                out.push(copy_string(&files[i]));
                assert(string_views(out@) =~= string_views(out0).push(files@[i as int]@));
            }
            i = i + 1;
        }
        assert(string_views(files@).take(files@.len() as int) =~= string_views(files@));
        Ok(sort_paths(out))
    }
}

impl Default for Workspace {
    /// A workspace on the directory `default`, with an emulator of the
    /// default memory size.
    fn default() -> (w: Self)
        ensures
            w.current_path@ == "default"@,
            w.open_files@.len() == 0,
            w.active_file is None,
            w.emulator matches Some(e) && e.memory.size == DEFAULT_MEMORY_SIZE,
            !w.unsaved_changes,
    {
        Self::new("default", DEFAULT_MEMORY_SIZE)
    }
}

} // verus!
