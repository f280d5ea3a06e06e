//! The I/O devices screen: the text typed for the program to read, which
//! is kept, in UTF-8 and ending with a zero, in the input area of the
//! emulator's memory.

use vstd::prelude::*;
use vstd::utf8::encode_utf8;
use crate::instructions::io::IO_START;
use crate::memory::main_memory::write_bytes;
use crate::text::{push_char, without_last_char};
use crate::utils::ui::common::{AppState, Key, KeyInput};
use crate::utils::workspaces::Workspace;

verus! {

/// The state of the I/O devices screen.
pub struct IoDevicesState {
    /// The text typed so far.
    pub input_buffer: String,
}

impl Default for IoDevicesState {
    /// Nothing typed.
    fn default() -> (s: Self)
        ensures
            s.input_buffer@.len() == 0,
    {
        IoDevicesState { input_buffer: String::new() }
    }
}

/// The input text after a key: a character is added, Backspace takes the
/// last one away.
pub open spec fn typed_input(text: Seq<char>, key: Key) -> Seq<char> {
    match key {
        Key::Char(c) => text.push(c),
        Key::Backspace => if text.len() > 0 {
            text.drop_last()
        } else {
            text
        },
        _ => text,
    }
}

/// Whether a key can be handled without stopping the program: the typed
/// text and its zero must fit in the memory, within 32-bit addresses.
pub open spec fn io_key_ok(w: Workspace, key: KeyInput) -> bool {
    (key.pressed && (key.code is Char || key.code is Backspace) && w.emulator is Some) ==> {
        let n = encode_utf8(typed_input(w.io_device.input_buffer@, key.code)).len();
        &&& w.emulator.unwrap().memory.wf()
        &&& IO_START + n < w.emulator.unwrap().memory.size
        &&& IO_START + n < 0x1_0000_0000
    }
}

/// Whether handling the key would stop the program (see `io_key_ok`):
/// `handle_io_devices_input` may be called where this is `false`.
pub fn io_input_stops(workspace: &Workspace, key: KeyInput) -> (r: bool)
    ensures
        r == !io_key_ok(*workspace, key),
{
    if !(key.pressed && (matches!(key.code, Key::Char(_)) || key.code == Key::Backspace)) {
        return false;
    }
    match &workspace.emulator {
        None => false,
        Some(e) => {
            let mut text = crate::text::copy_string(&workspace.io_device.input_buffer);
            match key.code {
                Key::Char(c) => push_char(&mut text, c),
                _ => {
                    text = without_last_char(&text);
                },
            }
            let n = text.as_str().as_bytes().len();
            let sized = e.memory.memory.len() == e.memory.size;
            !(sized && (n as u64) < 0x1_0000_0000u64 - 0xE000u64 && (IO_START as u64) + (n as u64)
                < (e.memory.size as u64))
        },
    }
}

/// Handles a key on the I/O devices screen. Only pressed keys count, and
/// these set `handled`: Esc goes back to the emulator; a character is added
/// to the input text and Backspace takes the last one away, and the text
/// is then written, in UTF-8 and ending with a zero, to the emulator's
/// memory from the start of the I/O area.
pub fn handle_io_devices_input(
    key: KeyInput,
    workspace: &mut Workspace,
    app_state: &mut AppState,
    handled: &mut bool,
)
    requires
        io_key_ok(*old(workspace), key),
    ensures
        final(workspace).current_path == old(workspace).current_path,
        final(workspace).open_files == old(workspace).open_files,
        final(workspace).active_file == old(workspace).active_file,
        ({
            let w0 = *old(workspace);
            let w1 = *final(workspace);
            if key.pressed && key.code == Key::Esc {
                &&& *final(app_state) == AppState::Emulator && *final(handled)
                &&& w1 == w0
            } else if key.pressed && (key.code is Char || key.code is Backspace) {
                let text = typed_input(w0.io_device.input_buffer@, key.code);
                &&& *final(app_state) == *old(app_state) && *final(handled)
                &&& w1.io_device.input_buffer@ == text
                &&& match w0.emulator {
                    Some(e0) => w1.emulator matches Some(e1) && e1 == (
                    crate::utils::apps::emulator::EmulatorState { memory: e1.memory, ..e0 })
                        && e1.memory.wf() && e1.memory.size == e0.memory.size
                        && e1.memory.stack_pointer == e0.memory.stack_pointer
                        && e1.memory.memory@ == write_bytes(
                        e0.memory.memory@,
                        IO_START as int,
                        encode_utf8(text).push(0u8),
                    ),
                    None => w1.emulator is None,
                }
            } else {
                &&& w1 == w0 && *final(app_state) == *old(app_state)
                &&& *final(handled) == *old(handled)
            }
        }),
{
    if !key.pressed {
        return;
    }
    match key.code {
        Key::Esc => {
            *app_state = AppState::Emulator;
            *handled = true;
        },
        Key::Char(_) | Key::Backspace => {
            match key.code {
                Key::Char(c) => push_char(&mut workspace.io_device.input_buffer, c),
                _ => {
                    workspace.io_device.input_buffer = without_last_char(
                        &workspace.io_device.input_buffer,
                    );
                },
            }
            let ghost text = workspace.io_device.input_buffer@;
            let bytes = workspace.io_device.input_buffer.as_str().as_bytes();
            match &mut workspace.emulator {
                Some(emulator) => {
                    let ghost m0 = emulator.memory.memory@;
                    let ghost e_before = *emulator;
                    let n = bytes.len();
                    let mut i: usize = 0;
                    assert(write_bytes(m0, IO_START as int, bytes@.take(0)) =~= m0);
                    while i < n
                        invariant
                            i <= n == bytes@.len(),
                            bytes@ == encode_utf8(text),
                            IO_START + n < emulator.memory.size,
                            IO_START + n < 0x1_0000_0000,
                            emulator.memory.wf(),
                            *emulator == (crate::utils::apps::emulator::EmulatorState {
                                memory: emulator.memory,
                                ..e_before
                            }),
                            emulator.memory.size == e_before.memory.size,
                            emulator.memory.stack_pointer == e_before.memory.stack_pointer,
                            m0.len() == emulator.memory.size,
                            emulator.memory.memory@ == write_bytes(
                                m0,
                                IO_START as int,
                                bytes@.take(i as int),
                            ),
                        decreases n - i,
                    {
                        let _ = emulator.memory.write_u8(IO_START + (i as u32), bytes[i]);
                        assert(emulator.memory.memory@ =~= write_bytes(
                            m0,
                            IO_START as int,
                            bytes@.take(i + 1),
                        ));
                        i = i + 1;
                    }
                    let _ = emulator.memory.write_u8(IO_START + (n as u32), 0);
                    assert(bytes@.take(n as int) =~= bytes@);
                    assert(emulator.memory.memory@ =~= write_bytes(
                        m0,
                        IO_START as int,
                        bytes@.push(0u8),
                    ));
                },
                None => {},
            }
            *handled = true;
        },
        _ => {},
    }
}

} // verus!
