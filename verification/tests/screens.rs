use arc_emulator::utils::apps::editor::{
    finish_open, finish_save, handle_text_editor_input, EditorAction, SaveKind, TextEditorState,
};
use arc_emulator::instructions::FloatOp;
use arc_emulator::utils::apps::emulator::{disassemble_instruction, emulator_input_stops, EmulatorState};
use arc_emulator::utils::apps::help_guide::parse_content;
use arc_emulator::utils::apps::io_devices::{handle_io_devices_input, io_input_stops};
use arc_emulator::utils::ui::common::{
    advance_loading, command_bar_hint, get_status_icon, handle_global_input, route_key, screen_entered,
    AppState, Key, KeyInput,
};
use arc_emulator::utils::ui::resources::AppStatus;
use arc_emulator::utils::workspaces::Workspace;

fn read_float(s: &str) -> Option<u32> {
    s.parse::<f32>().ok().map(|f| f as u32)
}

fn press(code: Key) -> KeyInput {
    KeyInput { code, pressed: true, alt_only: false, ctrl: false, alt: false, shift: false }
}

fn alt(c: char) -> KeyInput {
    KeyInput { code: Key::Char(c), pressed: true, alt_only: true, ctrl: false, alt: true, shift: false }
}

fn shown(status: &AppStatus) -> Vec<String> {
    status.messages.iter().map(|m| m.0.clone()).collect()
}

struct Screen {
    editor: TextEditorState,
    state: AppState,
    ws: Workspace,
    status: AppStatus,
}

impl Screen {
    fn new() -> Screen {
        Screen {
            editor: TextEditorState::new(),
            state: AppState::TextEditor,
            ws: Workspace::new("ws", 0x10000),
            status: AppStatus::new(),
        }
    }

    fn key(&mut self, key: KeyInput) -> (EditorAction, bool) {
        let mut handled = false;
        let a = handle_text_editor_input(
            key,
            &mut self.editor,
            &mut self.state,
            &mut self.ws,
            &mut self.status,
            &mut handled,
            &read_float,
        );
        (a, handled)
    }
}

// ---------------------------------------------------------------------------
// Text editor
// ---------------------------------------------------------------------------

#[test]
fn editor_starts_with_an_empty_text() {
    let e = TextEditorState::new();
    assert_eq!(e.get_content(), "");
    assert!(e.file_path.is_none());
    assert!(e.is_editing);
    assert!(!e.show_save_dialog && !e.show_save_as_dialog && !e.show_open_dialog);
}

#[test]
fn editor_gives_back_the_loaded_text() {
    let mut e = TextEditorState::new();
    e.load_file("p.arc".to_string(), "MOVI AX, 1\nHALT".to_string()).unwrap();
    assert_eq!(e.get_content(), "MOVI AX, 1\nHALT");
    assert_eq!(e.file_path.as_deref(), Some("p.arc"));
    e.load_file("q.arc".to_string(), String::new()).unwrap();
    assert_eq!(e.get_content(), "");
}

#[test]
fn editor_typing_changes_the_text() {
    let mut s = Screen::new();
    s.editor.is_editing = false;
    let (a, handled) = s.key(press(Key::Char('x')));
    assert!(matches!(a, EditorAction::Nothing));
    assert!(handled);
    assert!(s.editor.is_editing);
    assert_eq!(s.editor.get_content(), "x");
    let released = KeyInput { pressed: false, ..press(Key::Char('y')) };
    let (_, handled) = s.key(released);
    assert!(!handled);
    assert_eq!(s.editor.get_content(), "x");
}

#[test]
fn editor_save_with_a_file() {
    let mut s = Screen::new();
    s.editor.load_file("ws/p.arc".to_string(), "HALT".to_string()).unwrap();
    let (a, handled) = s.key(alt('s'));
    assert!(handled);
    let (path, content, kind) = match a {
        EditorAction::Save(p, c, k) => (p, c, k),
        _ => panic!("expected a save"),
    };
    assert_eq!(path, "ws/p.arc");
    assert_eq!(content, "HALT");
    assert_eq!(kind, SaveKind::Save);
    finish_save(&mut s.editor, &mut s.ws, &mut s.status, &path, kind, Ok(()));
    assert!(!s.editor.is_editing);
    assert_eq!(s.ws.active_file.as_deref(), Some("ws/p.arc"));
    assert!(!s.ws.unsaved_changes);
    assert_eq!(shown(&s.status), vec!["File saved successfully"]);
    finish_save(&mut s.editor, &mut s.ws, &mut s.status, &path, kind, Err("disk full".to_string()));
    assert_eq!(shown(&s.status).last().unwrap(), "Save failed: disk full");
}

#[test]
fn editor_save_as_names_the_file() {
    let mut s = Screen::new();
    let (a, _) = s.key(alt('s'));
    assert!(matches!(a, EditorAction::Nothing));
    assert!(s.editor.show_save_as_dialog);
    for c in ['p', 'r', 'x'] {
        s.key(press(Key::Char(c)));
    }
    s.key(press(Key::Backspace));
    s.key(press(Key::Char('g')));
    assert_eq!(s.editor.new_file_name, "prg");
    let (a, handled) = s.key(press(Key::Enter));
    assert!(handled);
    assert!(!s.editor.show_save_as_dialog);
    let (path, kind) = match a {
        EditorAction::Save(p, c, k) => {
            assert_eq!(c, "");
            (p, k)
        }
        _ => panic!("expected a save"),
    };
    assert_eq!(path, "ws/prg.arc");
    assert_eq!(kind, SaveKind::SaveAs);
    finish_save(&mut s.editor, &mut s.ws, &mut s.status, &path, kind, Ok(()));
    assert_eq!(s.editor.file_path.as_deref(), Some("ws/prg.arc"));
    assert_eq!(shown(&s.status), vec!["File saved as: ws/prg.arc"]);
}

#[test]
fn editor_save_as_keeps_a_given_extension() {
    let mut s = Screen::new();
    s.key(alt('a'));
    for c in "notes.txt".chars() {
        s.key(press(Key::Char(c)));
    }
    match s.key(press(Key::Enter)).0 {
        EditorAction::Save(p, _, _) => assert_eq!(p, "ws/notes.txt"),
        _ => panic!("expected a save"),
    }
}

#[test]
fn editor_save_as_without_a_name_does_nothing() {
    let mut s = Screen::new();
    s.key(alt('a'));
    let (a, _) = s.key(press(Key::Enter));
    assert!(matches!(a, EditorAction::Nothing));
    assert!(!s.editor.show_save_as_dialog);
}

#[test]
fn editor_leaving_asks_to_save() {
    let mut s = Screen::new();
    s.key(alt('q'));
    assert!(s.editor.show_save_dialog);
    assert_eq!(s.state, AppState::TextEditor);
    s.key(press(Key::Char('n')));
    assert!(!s.editor.show_save_dialog);
    s.editor.is_editing = false;
    s.key(alt('q'));
    assert_eq!(s.state, AppState::StartMenu);
}

#[test]
fn editor_save_dialog_without_a_file_asks_for_a_name() {
    let mut s = Screen::new();
    s.key(alt('q'));
    let (a, _) = s.key(press(Key::Char('y')));
    assert!(matches!(a, EditorAction::Nothing));
    assert!(!s.editor.show_save_dialog);
    assert!(s.editor.show_save_as_dialog);
}

#[test]
fn editor_new_text() {
    let mut s = Screen::new();
    s.editor.load_file("ws/p.arc".to_string(), "HALT".to_string()).unwrap();
    s.ws.open_file_for_editing("ws/p.arc").unwrap();
    s.key(alt('n'));
    assert_eq!(s.editor.get_content(), "");
    assert!(s.editor.file_path.is_none());
    assert!(s.ws.active_file.is_none());
    assert_eq!(shown(&s.status), vec!["New file created"]);
}

#[test]
fn editor_open_dialog_and_opening() {
    let mut s = Screen::new();
    s.key(alt('o'));
    assert!(s.editor.show_open_dialog);
    for c in "p.arc".chars() {
        s.key(press(Key::Char(c)));
    }
    let path = match s.key(press(Key::Enter)).0 {
        EditorAction::Open(p) => p,
        _ => panic!("expected an open"),
    };
    assert_eq!(path, "ws/p.arc");
    finish_open(&mut s.editor, &mut s.ws, &mut s.status, &path, Ok("MOVI AX, 1\nHALT".to_string()), &read_float);
    assert_eq!(s.editor.get_content(), "MOVI AX, 1\nHALT");
    assert_eq!(shown(&s.status).last().unwrap(), "Loaded and assembled: ws/p.arc");
    let em = s.ws.emulator.as_ref().unwrap();
    assert!(em.program_loaded);
    assert_eq!(em.memory.read_u32(0), Ok(0x01000001));
    finish_open(&mut s.editor, &mut s.ws, &mut s.status, "ws/q.arc", Err("not found".to_string()), &read_float);
    assert_eq!(shown(&s.status).last().unwrap(), "Failed to open file: not found");
}

#[test]
fn editor_assembles_and_switches_to_the_emulator() {
    let mut s = Screen::new();
    s.editor.load_file("ws/p.arc".to_string(), "MOVI AX, 1\nHALT".to_string()).unwrap();
    let (_, handled) = s.key(alt('e'));
    assert!(handled);
    assert_eq!(s.state, AppState::Emulator);
    assert!(s.editor.assembly_errors.is_empty());
    assert_eq!(shown(&s.status).last().unwrap(), "Program assembled successfully! Switching to emulator...");
    assert_eq!(s.ws.emulator.as_ref().unwrap().memory.read_u32(0), Ok(0x01000001));
}

#[test]
fn editor_reports_assembly_errors() {
    let mut s = Screen::new();
    s.key(press(Key::Char('Q')));
    let (_, handled) = s.key(alt('e'));
    assert!(handled);
    assert_eq!(s.state, AppState::TextEditor);
    assert_eq!(s.editor.assembly_errors.len(), 1);
    assert!(s.editor.assembly_errors[0].starts_with("Assembly error in Unnamed Program: "));
    assert_eq!(shown(&s.status).last().unwrap(), "Assembly failed with 1 errors in Unnamed Program");
    assert!(!s.status.is_loading);
}

// ---------------------------------------------------------------------------
// I/O devices
// ---------------------------------------------------------------------------

#[test]
fn typed_input_is_written_to_the_io_area() {
    let mut ws = Workspace::new("ws", 0x10000);
    let mut state = AppState::IoDevices;
    let mut handled = false;
    for c in ['h', 'i', 'é'] {
        assert!(!io_input_stops(&ws, press(Key::Char(c))));
        handle_io_devices_input(press(Key::Char(c)), &mut ws, &mut state, &mut handled);
    }
    assert!(handled);
    assert_eq!(ws.io_device.input_buffer, "hié");
    let mem = &ws.emulator.as_ref().unwrap().memory;
    let bytes: Vec<u8> = (0xE000u32..0xE005).map(|a| mem.read_u8(a).unwrap()).collect();
    assert_eq!(bytes, vec![b'h', b'i', 0xC3, 0xA9, 0]);
    handle_io_devices_input(press(Key::Backspace), &mut ws, &mut state, &mut handled);
    assert_eq!(ws.io_device.input_buffer, "hi");
    let mem = &ws.emulator.as_ref().unwrap().memory;
    assert_eq!(mem.read_u8(0xE002), Ok(0));
    handle_io_devices_input(press(Key::Esc), &mut ws, &mut state, &mut handled);
    assert_eq!(state, AppState::Emulator);
}

#[test]
fn typed_input_must_fit_in_memory() {
    let ws = Workspace::new("ws", 0xE001);
    assert!(io_input_stops(&ws, press(Key::Char('a'))));
    assert!(!io_input_stops(&ws, press(Key::Esc)));
    let ws = Workspace::new("ws", 0xE003);
    assert!(!io_input_stops(&ws, press(Key::Char('a'))));
}

// ---------------------------------------------------------------------------
// Keys on every screen, command bar, loading indicator
// ---------------------------------------------------------------------------

#[test]
fn global_keys() {
    let mut state = AppState::Emulator;
    let mut handled = false;
    handle_global_input(alt('q'), &mut state, &mut handled);
    assert_eq!(state, AppState::StartMenu);
    assert!(handled);
    let mut handled = false;
    handle_global_input(press(Key::Char('q')), &mut state, &mut handled);
    assert_eq!(state, AppState::StartMenu);
    assert!(!handled);
    handle_global_input(KeyInput { pressed: false, ..press(Key::Esc) }, &mut state, &mut handled);
    assert_eq!(state, AppState::StartMenu);
    handle_global_input(press(Key::Esc), &mut state, &mut handled);
    assert_eq!(state, AppState::Quit);
    assert!(handled);
}

#[test]
fn command_bar_hints() {
    assert_eq!(command_bar_hint(AppState::Emulator), "P:Play/Pause S:Step R:Reset F:Flags I:I/O Q:Back");
    assert_eq!(command_bar_hint(AppState::Settings), "↑↓:Navigate Enter:Select Esc:Back");
    assert_eq!(command_bar_hint(AppState::StartMenu), "");
    assert_eq!(get_status_icon(AppState::Emulator), "𝈉");
    assert_eq!(get_status_icon(AppState::StartMenu), "⌂");
    assert_eq!(get_status_icon(AppState::TextEditor), "🟕 ");
}

#[test]
fn loading_indicator_advances_and_wraps() {
    let mut status = AppStatus::new();
    status.is_loading = true;
    status.loading_progress = 95;
    advance_loading(&mut status);
    assert_eq!(status.loading_progress, 100);
    advance_loading(&mut status);
    assert_eq!(status.loading_progress, 4);
    status.is_loading = false;
    advance_loading(&mut status);
    assert_eq!(status.loading_progress, 0);
}

#[test]
fn emulator_in_small_memory_can_step() {
    let mut e = EmulatorState::new(64);
    assert!(e.can_step());
    e.memory.memory.pop();
    assert!(!e.can_step());
}

#[test]
fn help_lines_split_at_backquotes() {
    let content = vec!["Press `Esc` to quit".to_string(), "`a``b`".to_string(), String::new()];
    let parts = parse_content(&content);
    let expect = |v: &[(&str, bool)]| v.iter().map(|(s, b)| (s.to_string(), *b)).collect::<Vec<_>>();
    assert_eq!(parts[0], expect(&[("Press ", false), ("Esc", true), (" to quit", false)]));
    assert_eq!(parts[1], expect(&[("", false), ("a", true), ("", false), ("b", true), ("", false)]));
    assert_eq!(parts[2], expect(&[("", false)]));
    for (line, p) in content.iter().zip(parts.iter()) {
        let texts: Vec<&str> = p.iter().map(|(t, _)| t.as_str()).collect();
        assert_eq!(&texts.join("`"), line);
    }
}

#[test]
fn disassembler_flag_names() {
    assert_eq!(disassemble_instruction(0x6000_0000), "SETF ZERO");
    assert_eq!(disassemble_instruction(0x6000_0002), "SETF CARRY");
    assert_eq!(disassemble_instruction(0x6100_0003), "CLRF OVERFLOW");
    assert_eq!(disassemble_instruction(0x6100_0005), "CLRF FLAG??");
}

#[test]
fn editor_follows_what_the_text_area_reports() {
    let mut s = Screen::new();
    s.editor.load_file("p.arc".to_string(), "ab".to_string()).unwrap();
    s.editor.is_editing = false;
    let shift_right = KeyInput { shift: true, ..press(Key::Right) };
    let (_, handled) = s.key(shift_right);
    assert!(!handled);
    let ctrl_y = KeyInput { ctrl: true, ..press(Key::Char('y')) };
    let (_, handled) = s.key(ctrl_y);
    assert_eq!(s.editor.get_content(), "b");
    assert!(!handled);
    assert!(!s.editor.is_editing);
}

#[test]
fn keys_are_routed_to_the_screen_shown() {
    let mut state = AppState::Settings;
    assert_eq!(route_key(press(Key::Char('x')), &mut state), Some(AppState::Settings));
    assert_eq!(route_key(alt('q'), &mut state), None);
    assert_eq!(state, AppState::StartMenu);
    assert_eq!(route_key(press(Key::Esc), &mut state), None);
    assert_eq!(state, AppState::Quit);
    assert_eq!(route_key(press(Key::Char('x')), &mut state), None);
    assert!(screen_entered(AppState::StartMenu, AppState::Emulator));
    assert!(!screen_entered(AppState::Emulator, AppState::Emulator));
    assert!(!screen_entered(AppState::StartMenu, AppState::Settings));
}

fn fpu(op: FloatOp, a: u32, b: u32) -> u32 {
    let x = f32::from_bits(a);
    let y = f32::from_bits(b);
    match op {
        FloatOp::FromInt => (a as f32).to_bits(),
        FloatOp::Add => (x + y).to_bits(),
        FloatOp::Sub => (x - y).to_bits(),
        FloatOp::Mul => (x * y).to_bits(),
        FloatOp::Neg => (-x).to_bits(),
    }
}

#[test]
fn memory_word_selection_without_a_page_size() {
    let mut e = EmulatorState::new(64);
    e.memory_page_size = 0;
    e.selected_memory_address = None;
    assert!(!emulator_input_stops(&e, press(Key::PageDown), &fpu));
    e.next_memory_address();
    assert_eq!(e.selected_memory_address, Some(0));
    assert!(emulator_input_stops(&e, press(Key::PageUp), &fpu));
    assert!(emulator_input_stops(&e, press(Key::PageDown), &fpu));
    e.selected_memory_address = Some(3);
    assert!(!emulator_input_stops(&e, press(Key::PageUp), &fpu));
    e.previous_memory_address();
    assert_eq!(e.selected_memory_address, Some(2));
    assert!(!emulator_input_stops(&e, press(Key::Char('s')), &fpu));
}

#[test]
fn an_emulator_error_ends_the_run() {
    let mut e = EmulatorState::new(64);
    let mut status = AppStatus::new();
    assert_eq!(e.run_frame(&mut status, &fpu), None);
    assert!(shown(&status).is_empty());
    e.is_running = true;
    e.cpu.registers.pc = 62;
    assert_eq!(e.run_frame(&mut status, &fpu), None);
    assert!(!e.is_running);
    assert_eq!(shown(&status).len(), 1);
    assert!(shown(&status)[0].starts_with("Emulator error: "));
}
