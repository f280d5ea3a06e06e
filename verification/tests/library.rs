use arc_emulator::chips::call_stack::CallStack;
use arc_emulator::chips::cpu::CPU;
use arc_emulator::instructions::FloatOp;
use arc_emulator::memory::main_memory::WorkMemory;
use arc_emulator::memory::registers::{Reg, Registers};
use arc_emulator::utils::apps::emulator::{
    disassemble_instruction, handle_emulator_input, on_enter_emulator, EmulatorState,
};
use arc_emulator::utils::apps::file_explorer::{
    finish_new_file, handle_file_explorer_input, ExplorerAction, FileExplorerState,
};
use arc_emulator::utils::apps::help_guide::{handle_help_guide_input, HelpGuideState, HelpSection};
use arc_emulator::utils::apps::settings::{
    handle_settings_input, settings_input_stops, SettingEditState, SettingSection, SettingsAction,
    SettingsApp,
};
use arc_emulator::utils::apps::start_menu::{
    handle_start_menu_input, on_enter_start_menu, scientist_quotes, StartMenuState,
};
use arc_emulator::utils::assembler::command_processor::{
    assemble_program, parse_command, try_assemble_program, Command,
};
use arc_emulator::utils::assembler::operands::{parse_operand, Operand};
use arc_emulator::utils::buffers::DisplayLineWriter;
use arc_emulator::utils::config::app_config::AppConfig;
use arc_emulator::utils::config::config_manager::ConfigManager;
use arc_emulator::utils::ui::common::{update_status_message, AppState, Key, KeyInput};
use arc_emulator::utils::ui::resources::AppStatus;
use arc_emulator::utils::workspaces::{new_arc_program, split_lines, Workspace};

/// Reads a floating-point operand, truncated to an integer.
fn read_float(s: &str) -> Option<u32> {
    s.parse::<f32>().ok().map(|f| f as u32)
}

/// The floating-point unit that the emulator runs with.
fn fpu(op: FloatOp, a: u32, b: u32) -> u32 {
    let x = f32::from_bits(a);
    let y = f32::from_bits(b);
    match op {
        FloatOp::FromInt => (a as f32).to_bits(),
        FloatOp::Add => (x + y).to_bits(),
        FloatOp::Sub => (x - y).to_bits(),
        FloatOp::Mul => (x * y).to_bits(),
        FloatOp::Neg => (-x).to_bits(),
    }
}

fn press(code: Key) -> KeyInput {
    KeyInput { code, pressed: true, alt_only: false, ctrl: false, alt: false, shift: false }
}

fn parse_all(lines: &[&str]) -> Vec<Command> {
    lines.iter().map(|l| parse_command(l, &read_float).unwrap()).collect()
}

fn texts(v: &[String]) -> Vec<&str> {
    v.iter().map(|s| s.as_str()).collect()
}

fn shown(status: &AppStatus) -> Vec<String> {
    status.messages.iter().map(|m| m.0.clone()).collect()
}

// ---------------------------------------------------------------------------
// Registers, memory, call stack
// ---------------------------------------------------------------------------

#[test]
fn register_read_after_write() {
    let mut regs = Registers::new();
    regs.write(Reg::CX, 7);
    assert_eq!(regs.read(Reg::CX), 7);
    assert_eq!(regs.read(Reg::AX), 0);
    regs.write(Reg::CX, 9);
    assert_eq!(regs.read(Reg::CX), 9);
}

#[test]
fn flag_read_after_write() {
    let mut regs = Registers::new();
    regs.set_flag("Zero", true);
    assert_eq!(regs.get_flag("zero"), Ok(true));
    assert_eq!(regs.get_flag("carry"), Ok(false));
    assert!(regs.get_flag("nothing").is_err());
}

#[test]
fn memory_read_after_write() {
    let mut memory = WorkMemory::new(64);
    memory.write_u32(0x10, 0xDEADBEEF).unwrap();
    assert_eq!(memory.read_u32(0x10), Ok(0xDEADBEEF));
    assert_eq!(memory.read_u8(0x10), Ok(0xEF));
    assert_eq!(memory.read_u8(0x13), Ok(0xDE));
    assert_eq!(memory.read_u16(0x10), Ok(0xBEEF));
}

#[test]
fn memory_out_of_bounds() {
    let memory = WorkMemory::new(16);
    assert_eq!(
        memory.read_u8(16),
        Err("Memory read error: Address 0x00000010 out of bounds".to_string())
    );
}

#[test]
fn call_stack_last_in_first_out() {
    let mut stack = CallStack::new();
    stack.push(1).unwrap();
    stack.push(2).unwrap();
    assert_eq!(stack.peek(), Ok(2));
    assert_eq!(stack.pop(), Ok(2));
    assert_eq!(stack.pop(), Ok(1));
    assert_eq!(stack.pop(), Err("Call stack underflow".to_string()));
    assert!(stack.is_empty());
}

#[test]
fn call_stack_overflow() {
    let mut stack = CallStack::with_capacity(1);
    stack.push(5).unwrap();
    assert_eq!(stack.push(6), Err("Call stack overflow".to_string()));
    assert_eq!(stack.depth(), 1);
}

// ---------------------------------------------------------------------------
// Assembler, CPU, disassembler
// ---------------------------------------------------------------------------

#[test]
fn assembler_encodes_a_program() {
    let commands = parse_all(&["start: MOVI AX, 0x42", "ADDW AX, BX", "movw cx, ax", "HALT"]);
    let program = assemble_program(&commands, &[], 0x10000).unwrap();
    assert_eq!(program.text, vec![0x01000042, 0x10000101, 0x02020001, 0xFF000000]);
    assert_eq!(program.actual_text_start, 0);
    assert_eq!(program.actual_stack_size, 0x1000);
    assert_eq!(program.actual_stack_start, 0xF000);
}

#[test]
fn assembler_rejects_unknown_mnemonic_in_lower_case() {
    let commands = parse_all(&["FOO AX, 1"]);
    match try_assemble_program(&commands, &[], 0x10000) {
        Some(Err(e)) => assert_eq!(e, "Unsupported instruction: foo"),
        _ => panic!("expected an assembly error"),
    }
}

#[test]
fn assembler_resolves_labels() {
    let commands = parse_all(&["JMP end", "MOVI AX, 1", "end: HALT"]);
    let program = assemble_program(&commands, &[], 0x10000).unwrap();
    assert_eq!(program.text, vec![0x40000008, 0x01000001, 0xFF000000]);
}

#[test]
fn assembled_program_runs_on_the_cpu() {
    let commands = parse_all(&["MOVI AX, 0x42", "MOVI BX, 2", "ADDW AX, BX", "HALT"]);
    let program = assemble_program(&commands, &[], 0x10000).unwrap();
    let mut memory = WorkMemory::new(0x10000);
    memory.load_program(program.actual_text_start, &program.text).unwrap();
    let mut cpu = CPU::new();
    let (outputs, result) = cpu.run(&mut memory, &fpu, 100);
    assert_eq!(result, Ok(()));
    assert!(outputs.is_empty());
    assert_eq!(cpu.registers.read(Reg::AX), 0x44);
    assert!(cpu.halted);
}

#[test]
fn disassembler_texts() {
    assert_eq!(disassemble_instruction(0x01000042), "MOVI AX, 0x0042");
    assert_eq!(disassemble_instruction(0x10000101), "ADDW AX, BX");
    assert_eq!(disassemble_instruction(0x02020001), "MOVW CX, AX");
    assert_eq!(disassemble_instruction(0xFF000000), "HALT");
}

#[test]
fn operands_that_are_no_operands_are_errors() {
    let err = |s: &str| parse_command(s, &read_float).err();
    assert_eq!(err("OUT \""), Some("Invalid or unknown operand: \"".to_string()));
    assert_eq!(err("LODW AX, [a b]"), Some("Invalid address format: [a b]".to_string()));
    assert_eq!(err("LODW AX, []"), Some("Invalid address format: []".to_string()));
    assert_eq!(err("MOVW [x, [y"), Some("Invalid or unknown operand: [x".to_string()));
    assert_eq!(err(".word [a b]"), Some("Invalid address format: [a b]".to_string()));
    assert_eq!(err(".text_start [a b]"), Some("Invalid address format: [a b]".to_string()));
    assert!(parse_command("MOVI AX, 1", &read_float).is_ok());
    assert_eq!(parse_operand("", &read_float), Err("Invalid or unknown operand: ".to_string()));
    assert_eq!(parse_operand("  a b ", &read_float), Err("Invalid or unknown operand: a b".to_string()));
    assert_eq!(parse_operand("[AX", &read_float), Err("Invalid or unknown operand: [AX".to_string()));
    assert_eq!(parse_operand("[x y]", &read_float), Err("Invalid address format: [x y]".to_string()));
    assert_eq!(parse_operand("[loop]", &read_float), Ok(Operand::Label("loop".to_string())));
}

// ---------------------------------------------------------------------------
// Workspace
// ---------------------------------------------------------------------------

#[test]
fn lines_of_a_text() {
    assert_eq!(texts(&split_lines("a\r\nb\n\nc")), vec!["a", "b", "", "c"]);
    assert_eq!(texts(&split_lines("x\n")), vec!["x"]);
    assert_eq!(texts(&split_lines("y\r")), vec!["y\r"]);
    assert!(split_lines("").is_empty());
}

#[test]
fn workspace_skips_macro_definitions() {
    let ws = Workspace::new("ws", 0x10000);
    let commands = ws
        .parse_source_to_commands(".macro\nMOVI AX, 1\n.endmacro\nHALT\n", &read_float)
        .unwrap();
    assert_eq!(commands.len(), 1);
    assert_eq!(commands[0].opcode, "HALT");
}

#[test]
fn workspace_source_errors() {
    let ws = Workspace::new("ws", 0x10000);
    assert_eq!(
        ws.parse_source_to_commands(".macro\nHALT", &read_float).err(),
        Some("Unclosed macro definition".to_string())
    );
    assert_eq!(
        ws.parse_source_to_commands(".macro\n.macro", &read_float).err(),
        Some("Line 2: Nested macro definition not allowed".to_string())
    );
    assert_eq!(
        ws.parse_source_to_commands("HALT\n.text_start", &read_float).err(),
        Some("Line 2: Missing operand for .text_start directive. Expected immediate address.".to_string())
    );
    assert_eq!(
        ws.parse_source_to_commands("HALT\nOUT \"", &read_float).err(),
        Some("Line 2: Invalid or unknown operand: \"".to_string())
    );
}

#[test]
fn workspace_assembles_and_loads() {
    let mut ws = Workspace::new("ws", 0x10000);
    let mut status = AppStatus::new();
    let source = "MOVI AX, 0x42\nHALT\n";
    assert!(!ws.assembly_would_stop(source, &read_float));
    ws.assemble_and_load_program(source, &mut status, &read_float).unwrap();
    assert!(!status.is_loading);
    let emulator = ws.emulator.as_ref().unwrap();
    assert!(emulator.program_loaded);
    assert_eq!(emulator.memory.read_u32(0), Ok(0x01000042));
    assert_eq!(emulator.memory.read_u32(4), Ok(0xFF000000));
    assert_eq!(emulator.cpu.registers.read(Reg::PC), 0);
    assert_eq!(emulator.cpu.registers.read(Reg::SP), 0xF000);
    assert_eq!(emulator.current_instruction, 0x01000042);
    assert_eq!(emulator.program_source.as_deref(), Some(source));
    assert_eq!(ws.assembler.last_assembly_result.as_ref().unwrap().as_ref().unwrap().text.len(), 2);
}

#[test]
fn workspace_assembly_error_keeps_loading_flag() {
    let mut ws = Workspace::new("ws", 0x10000);
    let mut status = AppStatus::new();
    let r = ws.assemble_and_load_program("BOGUS AX", &mut status, &read_float);
    assert_eq!(r, Err("Unsupported instruction: bogus".to_string()));
    assert!(status.is_loading);
    let t = ws.try_assemble_program("BOGUS AX", &mut status, &read_float);
    assert_eq!(t.err(), Some(vec!["Unsupported instruction: bogus".to_string()]));
    assert!(!status.is_loading);
    assert_eq!(
        ws.emulator.as_ref().unwrap().last_assembly_errors,
        vec!["Unsupported instruction: bogus".to_string()]
    );
}

#[test]
fn workspace_stack_outside_memory() {
    let mut ws = Workspace::new("ws", 4);
    let mut status = AppStatus::new();
    let r = ws.assemble_and_load_program("HALT\nHALT", &mut status, &read_float);
    assert_eq!(
        r,
        Err("Stack segment (0x0000 - 0x1000) exceeds total memory (0x0004).".to_string())
    );
}

#[test]
fn workspace_file_bookkeeping() {
    let mut ws = Workspace::new("ws", 16);
    assert_eq!(ws.save_current_file(Ok(())), Err("No active file to save".to_string()));
    ws.save_file("a.arc", Ok(())).unwrap();
    ws.save_file("a.arc", Ok(())).unwrap();
    assert_eq!(ws.open_files, vec!["a.arc".to_string()]);
    assert_eq!(ws.get_selected_program_path(), Some("a.arc".to_string()));
    assert_eq!(ws.save_file("b.arc", Err("disk full".to_string())), Err("disk full".to_string()));
    assert_eq!(ws.active_file.as_deref(), Some("a.arc"));
    ws.mark_unsaved();
    assert!(ws.has_unsaved_changes());
    ws.save_current_file(Ok(())).unwrap();
    assert!(!ws.has_unsaved_changes());
    ws.create_new_arc_file("c.arc", Ok(())).unwrap();
    assert!(ws.has_unsaved_changes());
    assert_eq!(ws.open_files, vec!["a.arc".to_string(), "c.arc".to_string()]);
    assert!(new_arc_program().starts_with("; New ARC Program\n.text\n"));
}

#[test]
fn workspace_lists_program_files() {
    let ws = Workspace::new("ws", 16);
    let files = vec![
        "a.arc".to_string(),
        "b.txt".to_string(),
        "dir/c.asm".to_string(),
        "d".to_string(),
        "e.ARC".to_string(),
    ];
    assert_eq!(ws.list_arc_files(&files), Ok(vec!["a.arc".to_string(), "dir/c.asm".to_string()]));
    // Sorted as paths, component by component: `ws/a/x.arc` comes before
    // `ws/a-b.arc`, though `-` sorts before `/` as text.
    let files = vec![
        "ws/z.asm".to_string(),
        "ws/a-b.arc".to_string(),
        "ws/a/x.arc".to_string(),
        "ws/m.arc".to_string(),
    ];
    assert_eq!(
        ws.list_arc_files(&files),
        Ok(vec![
            "ws/a/x.arc".to_string(),
            "ws/a-b.arc".to_string(),
            "ws/m.arc".to_string(),
            "ws/z.asm".to_string(),
        ])
    );
}

// ---------------------------------------------------------------------------
// Configuration
// ---------------------------------------------------------------------------

#[test]
fn default_profile_and_arc_files() {
    let config = AppConfig::with_default_workspace("/home/w".to_string());
    assert_eq!(config.name.as_deref(), Some("default"));
    assert_eq!(config.arc_extensions, vec![".arc".to_string(), ".asm".to_string()]);
    assert!(config.is_arc_file("prog.arc"));
    assert!(config.is_arc_file("dir/prog.asm"));
    assert!(!config.is_arc_file("prog.txt"));
    assert!(!config.is_arc_file("arc"));
    let mut plain = config.clone();
    plain.arc_extensions = vec!["arc".to_string()];
    assert!(plain.is_arc_file("prog.arc"));
    assert!(!plain.is_arc_file("prog.asm"));
}

#[test]
fn profile_file_names() {
    let mut manager = ConfigManager { configs: Vec::new(), selected_config_index: 0 };
    assert_eq!(manager.save_current_config().err(), Some("No config selected to save".to_string()));
    let mut dev = AppConfig::with_default_workspace("w".to_string());
    dev.name = Some("dev".to_string());
    manager.add_config(dev);
    assert_eq!(manager.save_current_config().unwrap().1, "dev.toml");
    let mut unnamed = AppConfig::with_default_workspace("w".to_string());
    unnamed.name = None;
    manager.add_config(unnamed);
    assert_eq!(manager.selected_config_index, 1);
    assert_eq!(manager.save_current_config().unwrap().1, "default.toml");
}

// ---------------------------------------------------------------------------
// Status messages, line writer
// ---------------------------------------------------------------------------

#[test]
fn status_keeps_three_messages() {
    let mut status = AppStatus::new();
    for m in ["one", "two", "three", "four"] {
        status.set_message(m.to_string());
    }
    assert_eq!(shown(&status), vec!["two", "three", "four"]);
    assert!(status.messages.iter().all(|m| m.1 == 100));
}

#[test]
fn status_messages_age_and_expire() {
    let mut status = AppStatus::new();
    assert!(!update_status_message(&mut status));
    status.set_message("hello".to_string());
    assert!(update_status_message(&mut status));
    assert_eq!(status.messages[0].1, 99);
    for _ in 0..98 {
        update_status_message(&mut status);
    }
    assert_eq!(status.messages.len(), 1);
    assert!(update_status_message(&mut status));
    assert!(status.messages.is_empty());
}

#[test]
fn line_writer_hands_on_whole_lines() {
    let mut w = DisplayLineWriter::new(true, false);
    w.set_style("\x1b[31m", Some("\x1b[1m")).unwrap();
    assert_eq!(w.write(b"ab\ncd"), Ok(5));
    assert_eq!(w.take_sent(), b"\x1b[31m\x1b[1mab\n".to_vec());
    w.flush().unwrap();
    assert_eq!(w.take_sent(), b"\x1b[0mcd".to_vec());

    let mut plain = DisplayLineWriter::new(false, false);
    plain.set_style("\x1b[31m", None).unwrap();
    plain.reset_style().unwrap();
    plain.write(b"x\ny\n").unwrap();
    assert_eq!(plain.take_sent(), b"x\ny\n".to_vec());
    plain.flush_line().unwrap();
    assert!(plain.take_sent().is_empty());
}

// ---------------------------------------------------------------------------
// Screens
// ---------------------------------------------------------------------------

fn settings() -> SettingsApp {
    let config = AppConfig::with_default_workspace("w".to_string());
    SettingsApp::new(ConfigManager { configs: vec![config], selected_config_index: 0 })
}

#[test]
fn settings_edit_tab_width() {
    let mut app = settings();
    let mut state = AppState::Settings;
    let mut handled = false;
    handle_settings_input(press(Key::Down), &mut app, &mut state, &mut handled);
    assert!(handled);
    assert_eq!(app.selected_section, Some(1));
    handle_settings_input(press(Key::Enter), &mut app, &mut state, &mut handled);
    assert!(matches!(app.edit_state, SettingEditState::ViewingEditorOptions));
    assert_eq!(app.selected_option_index, Some(0));
    handle_settings_input(press(Key::Enter), &mut app, &mut state, &mut handled);
    assert!(matches!(&app.edit_state, SettingEditState::EditingTabWidth(v) if v == "4"));
    handle_settings_input(press(Key::Char('x')), &mut app, &mut state, &mut handled);
    handle_settings_input(press(Key::Char('2')), &mut app, &mut state, &mut handled);
    assert!(matches!(&app.edit_state, SettingEditState::EditingTabWidth(v) if v == "42"));
    handle_settings_input(press(Key::Enter), &mut app, &mut state, &mut handled);
    assert_eq!(app.config_manager.configs[0].ui.editor_tab_width, 42);
    assert!(matches!(app.edit_state, SettingEditState::ViewingEditorOptions));
    handle_settings_input(press(Key::Esc), &mut app, &mut state, &mut handled);
    assert!(matches!(app.edit_state, SettingEditState::Idle));
    assert_eq!(app.selected_option_index, None);
    assert_eq!(state, AppState::Settings);
    handle_settings_input(press(Key::Char('q')), &mut app, &mut state, &mut handled);
    assert_eq!(state, AppState::StartMenu);
}

#[test]
fn settings_edit_theme_and_key_binding() {
    let mut app = settings();
    let mut state = AppState::Settings;
    let mut handled = false;
    handle_settings_input(press(Key::Enter), &mut app, &mut state, &mut handled);
    assert!(matches!(&app.edit_state, SettingEditState::EditingTheme(v) if v == "dark"));
    handle_settings_input(press(Key::Backspace), &mut app, &mut state, &mut handled);
    handle_settings_input(press(Key::Char('t')), &mut app, &mut state, &mut handled);
    handle_settings_input(press(Key::Enter), &mut app, &mut state, &mut handled);
    assert_eq!(app.config_manager.configs[0].ui.theme, "dart");
    handle_settings_input(press(Key::Down), &mut app, &mut state, &mut handled);
    handle_settings_input(press(Key::Down), &mut app, &mut state, &mut handled);
    assert_eq!(app.sections[app.selected_section.unwrap()], SettingSection::Keybindings);
    handle_settings_input(press(Key::Enter), &mut app, &mut state, &mut handled);
    handle_settings_input(press(Key::Down), &mut app, &mut state, &mut handled);
    assert_eq!(app.selected_option_index, Some(1));
    handle_settings_input(press(Key::Enter), &mut app, &mut state, &mut handled);
    assert!(matches!(&app.edit_state, SettingEditState::EditingKeybindingSave(v) if v == "Ctrl+s"));
    handle_settings_input(press(Key::Char('w')), &mut app, &mut state, &mut handled);
    handle_settings_input(press(Key::Enter), &mut app, &mut state, &mut handled);
    assert_eq!(app.config_manager.configs[0].keybindings.save, vec!["w".to_string()]);
    assert!(matches!(app.edit_state, SettingEditState::ViewingKeybindingsOptions));
}

#[test]
fn settings_save_and_wrap() {
    let mut app = settings();
    let mut state = AppState::Settings;
    let mut handled = false;
    handle_settings_input(press(Key::Up), &mut app, &mut state, &mut handled);
    assert_eq!(app.selected_section, Some(7));
    handle_settings_input(press(Key::Up), &mut app, &mut state, &mut handled);
    handle_settings_input(press(Key::Up), &mut app, &mut state, &mut handled);
    assert_eq!(app.sections[5], SettingSection::SaveChanges);
    let action = handle_settings_input(press(Key::Enter), &mut app, &mut state, &mut handled);
    assert_eq!(action, SettingsAction::SaveConfig);
    let mut other = false;
    let released = KeyInput { code: Key::Enter, pressed: false, alt_only: false, ctrl: false, alt: false, shift: false };
    assert_eq!(
        handle_settings_input(released, &mut app, &mut state, &mut other),
        SettingsAction::Nothing
    );
    assert!(!other);
    let mut broken = settings();
    broken.config_manager.selected_config_index = 3;
    assert!(settings_input_stops(&broken, press(Key::Down)));
    assert!(!settings_input_stops(&app, press(Key::Down)));
}

#[test]
fn start_menu_navigation() {
    let mut menu = StartMenuState::new();
    let quotes = scientist_quotes();
    assert!(quotes.iter().any(|q| q.0 == menu.current_quote && q.1 == menu.current_author));
    let ws = Workspace::new("ws", 16);
    let mut status = AppStatus::new();
    let mut state = AppState::StartMenu;
    let mut handled = false;
    handle_start_menu_input(press(Key::Up), &mut menu, &mut state, &mut status, &ws, &mut handled);
    assert_eq!(menu.selected_index, Some(4));
    handle_start_menu_input(press(Key::Down), &mut menu, &mut state, &mut status, &ws, &mut handled);
    assert_eq!(menu.selected_index, Some(0));
    handle_start_menu_input(press(Key::Enter), &mut menu, &mut state, &mut status, &ws, &mut handled);
    assert_eq!(state, AppState::FileExplorer);
    assert_eq!(shown(&status), vec!["Opening File Explorer..."]);
    handle_start_menu_input(press(Key::Char('3')), &mut menu, &mut state, &mut status, &ws, &mut handled);
    assert_eq!(state, AppState::Emulator);
    assert_eq!(menu.selected_index, Some(2));
    handle_start_menu_input(press(Key::Char('9')), &mut menu, &mut state, &mut status, &ws, &mut handled);
    assert_eq!(state, AppState::Emulator);
    on_enter_start_menu(&mut menu, &mut status);
    assert_eq!(menu.selected_index, None);
    assert_eq!(
        shown(&status).last().unwrap(),
        "Welcome to ARC Emulator! Use arrow keys and Enter to navigate."
    );
}

#[test]
fn help_guide_navigation() {
    let section = |t: &str, n: usize| HelpSection {
        title: t.to_string(),
        content: (0..n).map(|i| format!("line {}", i)).collect(),
    };
    let mut guide = HelpGuideState::new(vec![section("a", 30), section("b", 5)]);
    let mut state = AppState::HelpGuide;
    let mut handled = false;
    handle_help_guide_input(press(Key::Down), &mut guide, &mut state, &mut handled);
    handle_help_guide_input(press(Key::Down), &mut guide, &mut state, &mut handled);
    assert_eq!(guide.scroll_offset, 2);
    guide.clamp_scroll(29);
    assert_eq!(guide.scroll_offset, 1);
    handle_help_guide_input(press(Key::Right), &mut guide, &mut state, &mut handled);
    assert_eq!((guide.selected_section, guide.scroll_offset), (1, 0));
    handle_help_guide_input(press(Key::Right), &mut guide, &mut state, &mut handled);
    assert_eq!(guide.selected_section, 1);
    handle_help_guide_input(press(Key::Up), &mut guide, &mut state, &mut handled);
    assert_eq!(guide.scroll_offset, 0);
    handle_help_guide_input(press(Key::Left), &mut guide, &mut state, &mut handled);
    assert_eq!(guide.selected_section, 0);
    handle_help_guide_input(press(Key::Esc), &mut guide, &mut state, &mut handled);
    assert_eq!(state, AppState::StartMenu);
    assert!(handled);
}

fn listing() -> Vec<(String, String, bool)> {
    vec![
        ("b.arc".to_string(), "dir/b.arc".to_string(), false),
        ("sub".to_string(), "dir/sub".to_string(), true),
        ("a.txt".to_string(), "dir/a.txt".to_string(), false),
    ]
}

#[test]
fn file_explorer_sorts_directories_first() {
    let explorer = FileExplorerState::new("dir".to_string(), Some("/".to_string()), listing());
    let names: Vec<&str> = explorer.entries.iter().map(|e| e.name.as_str()).collect();
    assert_eq!(names, vec!["..", "sub", "a.txt", "b.arc"]);
    assert!(explorer.entries[3].is_arc_file);
    assert!(!explorer.entries[2].is_arc_file);
    assert!(explorer.entries[0].is_dir);
    assert_eq!(explorer.entries[0].path, "/");
}

#[test]
fn file_explorer_keys() {
    let mut explorer = FileExplorerState::new("dir".to_string(), Some("/".to_string()), listing());
    let mut ws = Workspace::new("ws", 16);
    let mut status = AppStatus::new();
    let mut state = AppState::FileExplorer;
    let mut handled = false;
    let mut key = |explorer: &mut FileExplorerState, ws: &mut Workspace, status: &mut AppStatus, state: &mut AppState, k: KeyInput| {
        handle_file_explorer_input(k, explorer, state, ws, status, &mut handled)
    };
    key(&mut explorer, &mut ws, &mut status, &mut state, press(Key::Up));
    assert_eq!(explorer.selected_index, 3);
    let action = key(&mut explorer, &mut ws, &mut status, &mut state, press(Key::Enter));
    assert!(matches!(action, ExplorerAction::Nothing));
    assert_eq!(state, AppState::TextEditor);
    assert_eq!(ws.active_file.as_deref(), Some("dir/b.arc"));
    assert_eq!(shown(&status), vec!["Opened: b.arc"]);
    key(&mut explorer, &mut ws, &mut status, &mut state, press(Key::Down));
    assert_eq!(explorer.selected_index, 0);
    assert!(matches!(key(&mut explorer, &mut ws, &mut status, &mut state, press(Key::Delete)), ExplorerAction::Nothing));
    key(&mut explorer, &mut ws, &mut status, &mut state, press(Key::Down));
    key(&mut explorer, &mut ws, &mut status, &mut state, press(Key::Down));
    match key(&mut explorer, &mut ws, &mut status, &mut state, press(Key::Delete)) {
        ExplorerAction::Delete(p) => assert_eq!(p, "dir/a.txt"),
        _ => panic!("expected a deletion"),
    }
    assert_eq!(shown(&status).last().unwrap(), "Deleted: a.txt");
    key(&mut explorer, &mut ws, &mut status, &mut state, press(Key::Up));
    match key(&mut explorer, &mut ws, &mut status, &mut state, press(Key::Enter)) {
        ExplorerAction::Refresh => {},
        _ => panic!("expected a refresh"),
    }
    assert_eq!(explorer.current_directory, "dir/sub");
    assert_eq!(explorer.selected_index, 0);
    key(&mut explorer, &mut ws, &mut status, &mut state, press(Key::Char('q')));
    assert_eq!(state, AppState::StartMenu);
}

#[test]
fn file_explorer_new_file_dialog() {
    let mut explorer = FileExplorerState::new("dir".to_string(), None, listing());
    let mut ws = Workspace::new("ws", 16);
    let mut status = AppStatus::new();
    let mut state = AppState::FileExplorer;
    let mut handled = false;
    let alt_n = KeyInput { code: Key::Char('n'), pressed: true, alt_only: true, ctrl: false, alt: true, shift: false };
    handle_file_explorer_input(alt_n, &mut explorer, &mut state, &mut ws, &mut status, &mut handled);
    assert!(explorer.show_new_file_dialog);
    for c in ['n', 'e', 'w', 'x'] {
        handle_file_explorer_input(press(Key::Char(c)), &mut explorer, &mut state, &mut ws, &mut status, &mut handled);
    }
    handle_file_explorer_input(press(Key::Backspace), &mut explorer, &mut state, &mut ws, &mut status, &mut handled);
    assert_eq!(explorer.new_file_name, "new");
    let action = handle_file_explorer_input(press(Key::Enter), &mut explorer, &mut state, &mut ws, &mut status, &mut handled);
    assert!(!explorer.show_new_file_dialog);
    let path = match action {
        ExplorerAction::Create(p) => p,
        _ => panic!("expected a new file"),
    };
    assert_eq!(path, "dir/new.arc");
    assert!(finish_new_file(&mut ws, &mut status, &path, Ok(())));
    assert_eq!(ws.active_file.as_deref(), Some("dir/new.arc"));
    assert!(ws.unsaved_changes);
    assert_eq!(shown(&status), vec!["Created: dir/new.arc"]);
    assert!(!finish_new_file(&mut ws, &mut status, "x.arc", Err("denied".to_string())));
    assert_eq!(shown(&status).last().unwrap(), "Failed to create: denied");
}

#[test]
fn emulator_screen_keys() {
    let mut emulator = EmulatorState::new(0x10000);
    let mut ws = Workspace::new("ws", 16);
    let mut status = AppStatus::new();
    let mut state = AppState::Emulator;
    let mut handled = false;
    handle_emulator_input(press(Key::Char('p')), &mut emulator, &mut ws, &mut state, &mut status, &mut handled, &fpu);
    assert!(emulator.is_running);
    assert_eq!(shown(&status), vec!["Emulator running"]);
    handle_emulator_input(press(Key::Char('s')), &mut emulator, &mut ws, &mut state, &mut status, &mut handled, &fpu);
    assert_eq!(
        shown(&status).last().unwrap(),
        "Error stepping: Cannot step while emulator is running. Pause first."
    );
    handle_emulator_input(press(Key::Up), &mut emulator, &mut ws, &mut state, &mut status, &mut handled, &fpu);
    assert_eq!(emulator.selected_register, Some(13));
    handle_emulator_input(press(Key::Right), &mut emulator, &mut ws, &mut state, &mut status, &mut handled, &fpu);
    assert_eq!(emulator.selected_memory_page, 1);
    handle_emulator_input(press(Key::Char('r')), &mut emulator, &mut ws, &mut state, &mut status, &mut handled, &fpu);
    assert!(!emulator.is_running);
    assert_eq!(emulator.selected_memory_page, 0);
    assert_eq!(shown(&status).last().unwrap(), "Emulator reset.");
    handle_emulator_input(press(Key::Char('i')), &mut emulator, &mut ws, &mut state, &mut status, &mut handled, &fpu);
    assert_eq!(state, AppState::IoDevices);
}

#[test]
fn entering_the_emulator_loads_the_active_program() {
    let mut screen = EmulatorState::new(16);
    let mut ws = Workspace::new("ws", 0x10000);
    let mut status = AppStatus::new();
    on_enter_emulator(&mut screen, &mut ws, &mut status, Ok(String::new()), &read_float);
    assert_eq!(shown(&status), vec!["No program selected. Load one from File Explorer."]);
    ws.open_file_for_editing("p.arc").unwrap();
    on_enter_emulator(&mut screen, &mut ws, &mut status, Err("missing".to_string()), &read_float);
    assert_eq!(shown(&status).last().unwrap(), "Error reading file: missing");
    on_enter_emulator(&mut screen, &mut ws, &mut status, Ok("MOVI AX, 1\nHALT".to_string()), &read_float);
    assert_eq!(shown(&status).last().unwrap(), "Assembled and loaded program: p.arc");
    assert!(screen.program_loaded);
    assert_eq!(screen.memory.size, 0x10000);
    assert_eq!(screen.memory.read_u32(0), Ok(0x01000001));
}

#[test]
fn settings_next_then_previous_section() {
    let mut app = settings();
    for start in 0..8usize {
        app.selected_section = Some(start);
        app.next_section();
        app.previous_section();
        assert_eq!(app.selected_section, Some(start));
    }
    app.selected_section = Some(7);
    app.next_section();
    assert_eq!(app.selected_section, Some(0));
}

#[test]
fn file_explorer_scroll_keeps_selection_in_view() {
    let listed: Vec<(String, String, bool)> =
        (0..15).map(|i| (format!("f{:02}.arc", i), format!("d/f{:02}.arc", i), false)).collect();
    let mut s = FileExplorerState::new("d".to_string(), None, listed);
    s.selected_index = 12;
    s.scroll();
    assert_eq!(s.scroll_offset, 3);
    s.selected_index = 2;
    s.scroll();
    assert_eq!(s.scroll_offset, 2);
    s.selected_index = 5;
    s.scroll();
    assert_eq!(s.scroll_offset, 2);
}

#[test]
fn assembled_segments_fit_in_memory() {
    let commands = parse_all(&[".text_start 0x100", "MOVI AX, 1", "HALT"]);
    let program = assemble_program(&commands, &[], 0x10000).unwrap();
    assert_eq!(program.actual_text_start, 0x100);
    assert_eq!(program.actual_stack_start, 0xF000);
    assert!(program.actual_text_start + 8 <= program.actual_data_start);
    assert!(program.actual_data_start <= program.actual_stack_start);
    assert!(program.actual_stack_start + program.actual_stack_size <= 0x10000);
    let commands = parse_all(&[".stack_start 0xF800", "HALT"]);
    let r = assemble_program(&commands, &[], 0x10000);
    assert_eq!(r.err(), Some("Stack segment (0xF800 - 0x10800) exceeds total memory (0x10000).".to_string()));
}

#[test]
fn labels_map_to_memory_addresses() {
    let commands = parse_all(&[".text_start 0x100", "JMP end", "end: HALT"]);
    let program = assemble_program(&commands, &[], 0x10000).unwrap();
    assert_eq!(program.actual_text_start, 0x100);
    assert_eq!(program.text, vec![0x4000_0104, 0xFF00_0000]);
    let commands = parse_all(&[".data", "first: .word 7", "second: .word second", ".text", "LODW AX, [second]"]);
    let program = assemble_program(&commands, &[], 0x10000).unwrap();
    assert_eq!(program.actual_stack_start, 0xF000);
    assert_eq!(program.actual_data_start, 0xF000 - 8);
    assert_eq!(program.data, vec![7, 0, 0, 0, 0xFC, 0xEF, 0, 0]);
}

#[test]
fn data_may_not_run_into_the_stack() {
    let commands = parse_all(&[".stack_start 0x10", ".data", ".space 0x20"]);
    assert_eq!(
        assemble_program(&commands, &[], 0x10000).err(),
        Some("Data segment at 0x0000 with 32 bytes overlaps with Stack segment (0x0010).".to_string())
    );
    let commands = parse_all(&[".stack_start 0x40", ".data", ".space 0x20", ".text", "HALT"]);
    let program = assemble_program(&commands, &[], 0x10000).unwrap();
    assert_eq!(program.actual_data_start, 0x20);
    assert_eq!(program.data.len(), 0x20);
}

#[test]
fn comments_do_not_change_a_line() {
    let with = parse_command("MOVI AX, 1 ; load one", &read_float).unwrap();
    let without = parse_command("MOVI AX, 1", &read_float).unwrap();
    assert_eq!(with.opcode, without.opcode);
    assert_eq!(with.operand1, without.operand1);
    assert_eq!(with.operand2, without.operand2);
    assert_eq!(with.operand2, Some(Operand::Immediate(1)));
    let blank = parse_command("   ; only a comment", &read_float).unwrap();
    assert_eq!(blank.opcode, "");
    assert_eq!(blank.operand1, None);
    assert_eq!(blank.label, None);
    assert_eq!(
        parse_command("OUT \" ; a lone quote", &read_float).err(),
        parse_command("OUT \"", &read_float).err()
    );
}

#[test]
fn word_write_reads_back_and_keeps_the_rest() {
    let mut m = WorkMemory::new(16);
    m.write_u32(4, 0xDEAD_BEEF).unwrap();
    assert_eq!(m.read_u32(4), Ok(0xDEAD_BEEF));
    assert_eq!(m.read_u8(3), Ok(0));
    assert_eq!(m.read_u8(8), Ok(0));
    m.load_program(0, &[1, 2, 3]).unwrap();
    assert_eq!(m.read_u32(8), Ok(3));
    assert_eq!(m.read_u32(12), Ok(0));
}
