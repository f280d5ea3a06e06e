use arc_emulator::memory::registers::Reg;
use arc_emulator::utils::assembler::command_processor::parse_command;
use arc_emulator::utils::assembler::operands::Operand;
use arc_emulator::utils::command_processor::parse_command as parse_command16;
use arc_emulator::utils::operands::Operand as Operand16;

/// Reads a decimal floating-point operand, truncated to an unsigned integer.
fn read_float(s: &str) -> Option<u32> {
    s.parse::<f32>().ok().map(|f| f as u32)
}

#[test]
fn command_processor_test_parse_command_with_immediate() {
    let command = parse_command("MOVI AX, 123", &read_float).unwrap();
    assert_eq!(command.opcode, "MOVI");
    assert_eq!(command.operand1, Some(Operand::Register(Reg::AX)));
    assert_eq!(command.operand2, Some(Operand::Immediate(123)));
}

#[test]
fn command_processor_test_parse_command_with_hex_immediate() {
    let command = parse_command("MOVI AX, 0xFF", &read_float).unwrap();
    assert_eq!(command.opcode, "MOVI");
    assert_eq!(command.operand1, Some(Operand::Register(Reg::AX)));
    assert_eq!(command.operand2, Some(Operand::Immediate(255)));
}

#[test]
fn command_processor_test_parse_command_with_address() {
    let command = parse_command("LODW AX, [1024]", &read_float).unwrap();
    assert_eq!(command.opcode, "LODW");
    assert_eq!(command.operand1, Some(Operand::Register(Reg::AX)));
    assert_eq!(command.operand2, Some(Operand::Address(1024)));
}

#[test]
fn command_processor_test_parse_command_with_label() {
    let command = parse_command("JMP my_label", &read_float).unwrap();
    assert_eq!(command.opcode, "JMP");
    assert_eq!(command.operand1, Some(Operand::Label("my_label".to_string())));
    assert_eq!(command.operand2, None);
}

#[test]
fn command_processor_test_parse_command_with_two_registers() {
    let command = parse_command("MOVW AX, BX", &read_float).unwrap();
    assert_eq!(command.opcode, "MOVW");
    assert_eq!(command.operand1, Some(Operand::Register(Reg::AX)));
    assert_eq!(command.operand2, Some(Operand::Register(Reg::BX)));
}

#[test]
fn command_processor_test_parse_label() {
    let command = parse_command("my_label:", &read_float).unwrap();
    assert_eq!(command.label, Some("my_label".to_string()));
    assert_eq!(command.opcode, "");
}

#[test]
fn command_processor_test_parse_label_and_command() {
    let command = parse_command("my_label: MOVW AX, BX", &read_float).unwrap();
    assert_eq!(command.label, Some("my_label".to_string()));
    assert_eq!(command.opcode, "MOVW");
    assert_eq!(command.operand1, Some(Operand::Register(Reg::AX)));
    assert_eq!(command.operand2, Some(Operand::Register(Reg::BX)));
}

#[test]
fn test_parse_command_with_immediate() {
    let command = parse_command16("MOVI AX, 123").unwrap();
    assert_eq!(command.opcode, "MOVI");
    assert_eq!(command.operand1, Some(Operand16::Register(Reg::AX)));
    assert_eq!(command.operand2, Some(Operand16::Immediate(123)));
}

#[test]
fn test_parse_command_with_hex_immediate() {
    let command = parse_command16("MOVI AX, 0xFF").unwrap();
    assert_eq!(command.opcode, "MOVI");
    assert_eq!(command.operand1, Some(Operand16::Register(Reg::AX)));
    assert_eq!(command.operand2, Some(Operand16::Immediate(255)));
}

#[test]
fn test_parse_command_with_address() {
    let command = parse_command16("LODW AX, [1024]").unwrap();
    assert_eq!(command.opcode, "LODW");
    assert_eq!(command.operand1, Some(Operand16::Register(Reg::AX)));
    assert_eq!(command.operand2, Some(Operand16::Address(1024)));
}

#[test]
fn test_parse_command_with_label() {
    let command = parse_command16("JMP my_label").unwrap();
    assert_eq!(command.opcode, "JMP");
    assert_eq!(command.operand1, Some(Operand16::Label("my_label".to_string())));
    assert_eq!(command.operand2, None);
}

#[test]
fn test_parse_command_with_two_registers() {
    let command = parse_command16("MOVW AX, BX").unwrap();
    assert_eq!(command.opcode, "MOVW");
    assert_eq!(command.operand1, Some(Operand16::Register(Reg::AX)));
    assert_eq!(command.operand2, Some(Operand16::Register(Reg::BX)));
}

#[test]
fn test_parse_label() {
    let command = parse_command16("my_label:").unwrap();
    assert_eq!(command.label, Some("my_label".to_string()));
    assert_eq!(command.opcode, "");
}

#[test]
fn test_parse_label_and_command() {
    let command = parse_command16("my_label: MOVW AX, BX").unwrap();
    assert_eq!(command.label, Some("my_label".to_string()));
    assert_eq!(command.opcode, "MOVW");
    assert_eq!(command.operand1, Some(Operand16::Register(Reg::AX)));
    assert_eq!(command.operand2, Some(Operand16::Register(Reg::BX)));
}
