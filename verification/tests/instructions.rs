use arc_emulator::chips::cpu::CPU;
use arc_emulator::instructions::aritmethic::{
    execute_addw_instruction, execute_dec_instruction, execute_inc_instruction,
    execute_mul_instruction, execute_neg_instruction, execute_subw_instruction,
};
use arc_emulator::instructions::bitwise::{
    execute_and_instruction, execute_not_instruction, execute_or_instruction,
    execute_shl_instruction, execute_shr_instruction, execute_xor_instruction,
};
use arc_emulator::instructions::compare::{
    execute_call, execute_cmpw, execute_je, execute_jmp, execute_jne, execute_ret,
};
use arc_emulator::instructions::io::{
    execute_in, execute_insi, execute_insw, execute_out, execute_outi, execute_outw, IO_START,
};
use arc_emulator::instructions::moves::{
    execute_lodi, execute_lodw, execute_movi, execute_movw, execute_pop, execute_push,
    execute_stri, execute_strw, execute_xcgh,
};
use arc_emulator::instructions::system::execute_halt;
use arc_emulator::instructions::FloatOp;
use arc_emulator::memory::main_memory::WorkMemory;
use arc_emulator::memory::registers::Reg;
use arc_emulator::utils::assembler::operands::Operand;

/// The floating-point unit that the emulator runs with.
fn fpu(op: FloatOp, a: u32, b: u32) -> u32 {
    let x = f32::from_bits(a);
    let y = f32::from_bits(b);
    match op {
        FloatOp::FromInt => (a as f32).to_bits(),
        FloatOp::Add => (x + y).to_bits(),
        FloatOp::Sub => (x - y).to_bits(),
        FloatOp::Mul => (x * y).to_bits(),
        FloatOp::Neg => (-x).to_bits(),
    }
}

/// The size of the whole address space.
const MEMORY_MAX_SIZE: usize = 0x10000;

#[test]
fn add_behavior() {
    let mut cpu = CPU::new();
    let mut memory = WorkMemory::new(1024);

    cpu.registers.set(&Reg::AX, 10.0f32.to_bits()).unwrap();
    cpu.registers.set(&Reg::BX, 5.5f32.to_bits()).unwrap();
    execute_addw_instruction(&mut cpu, &Operand::Register(Reg::AX), &Operand::Register(Reg::BX), &mut memory, &fpu).unwrap();
    assert_eq!(f32::from_bits(cpu.registers.get(&Reg::AX).unwrap()), 15.5);

    cpu.registers.set(&Reg::AX, 10.0f32.to_bits()).unwrap();
    execute_addw_instruction(&mut cpu, &Operand::Register(Reg::AX), &Operand::Immediate(10), &mut memory, &fpu).unwrap();
    assert_eq!(f32::from_bits(cpu.registers.get(&Reg::AX).unwrap()), 20.0);
}

#[test]
fn sub_behavior() {
    let mut cpu = CPU::new();
    let mut memory = WorkMemory::new(1024);

    cpu.registers.set(&Reg::AX, 10.0f32.to_bits()).unwrap();
    cpu.registers.set(&Reg::BX, 5.5f32.to_bits()).unwrap();
    execute_subw_instruction(&mut cpu, &Operand::Register(Reg::AX), &Operand::Register(Reg::BX), &mut memory, &fpu).unwrap();
    assert_eq!(f32::from_bits(cpu.registers.get(&Reg::AX).unwrap()), 4.5);

    cpu.registers.set(&Reg::AX, 20.0f32.to_bits()).unwrap();
    execute_subw_instruction(&mut cpu, &Operand::Register(Reg::AX), &Operand::Immediate(10), &mut memory, &fpu).unwrap();
    assert_eq!(f32::from_bits(cpu.registers.get(&Reg::AX).unwrap()), 10.0);
}

#[test]
fn mul_behavior() {
    let mut cpu = CPU::new();
    let mut memory = WorkMemory::new(1024);

    cpu.registers.set(&Reg::AX, 10.0f32.to_bits()).unwrap();
    cpu.registers.set(&Reg::BX, 5.0f32.to_bits()).unwrap();
    execute_mul_instruction(&mut cpu, &Operand::Register(Reg::AX), &Operand::Register(Reg::BX), &mut memory, &fpu).unwrap();
    assert_eq!(f32::from_bits(cpu.registers.get(&Reg::AX).unwrap()), 50.0);

    cpu.registers.set(&Reg::AX, 10.0f32.to_bits()).unwrap();
    execute_mul_instruction(&mut cpu, &Operand::Register(Reg::AX), &Operand::Immediate(10), &mut memory, &fpu).unwrap();
    assert_eq!(f32::from_bits(cpu.registers.get(&Reg::AX).unwrap()), 100.0);
}

#[test]
fn neg_behavior() {
    let mut cpu = CPU::new();
    let mut memory = WorkMemory::new(1024);

    cpu.registers.set(&Reg::AX, 10.0f32.to_bits()).unwrap();
    execute_neg_instruction(&mut cpu, &Operand::Register(Reg::AX), &Operand::Empty, &mut memory, &fpu).unwrap();
    assert_eq!(f32::from_bits(cpu.registers.get(&Reg::AX).unwrap()), -10.0);
}

#[test]
fn inc_and_dec_behavior() {
    let mut cpu = CPU::new();
    let mut memory = WorkMemory::new(1024);

    cpu.registers.set(&Reg::AX, 10.0f32.to_bits()).unwrap();
    execute_inc_instruction(&mut cpu, &Operand::Register(Reg::AX), &Operand::Empty, &mut memory, &fpu).unwrap();
    assert_eq!(f32::from_bits(cpu.registers.get(&Reg::AX).unwrap()), 11.0);

    cpu.registers.set(&Reg::AX, 10.0f32.to_bits()).unwrap();
    execute_dec_instruction(&mut cpu, &Operand::Register(Reg::AX), &Operand::Empty, &mut memory, &fpu).unwrap();
    assert_eq!(f32::from_bits(cpu.registers.get(&Reg::AX).unwrap()), 9.0);
}

#[test]
fn and_behavior() {
    let mut cpu = CPU::new();
    let mut memory = WorkMemory::new(1024);

    cpu.registers.set(&Reg::AX, 0b1100).unwrap();
    execute_and_instruction(&mut cpu, &Operand::Register(Reg::AX), &Operand::Immediate(0b1010), &mut memory).unwrap();
    assert_eq!(cpu.registers.get(&Reg::AX).unwrap(), 0b1000);

    cpu.registers.set(&Reg::BX, 0b0110).unwrap();
    execute_and_instruction(&mut cpu, &Operand::Register(Reg::AX), &Operand::Register(Reg::BX), &mut memory).unwrap();
    assert_eq!(cpu.registers.get(&Reg::AX).unwrap(), 0b0000);
}

#[test]
fn or_behavior() {
    let mut cpu = CPU::new();
    let mut memory = WorkMemory::new(1024);

    cpu.registers.set(&Reg::AX, 0b1100).unwrap();
    execute_or_instruction(&mut cpu, &Operand::Register(Reg::AX), &Operand::Immediate(0b0011), &mut memory).unwrap();
    assert_eq!(cpu.registers.get(&Reg::AX).unwrap(), 0b1111);

    cpu.registers.set(&Reg::BX, 0b0101).unwrap();
    execute_or_instruction(&mut cpu, &Operand::Register(Reg::AX), &Operand::Register(Reg::BX), &mut memory).unwrap();
    assert_eq!(cpu.registers.get(&Reg::AX).unwrap(), 0b1111);
}

#[test]
fn xor_behavior() {
    let mut cpu = CPU::new();
    let mut memory = WorkMemory::new(1024);

    cpu.registers.set(&Reg::AX, 0b1100).unwrap();
    execute_xor_instruction(&mut cpu, &Operand::Register(Reg::AX), &Operand::Immediate(0b1010), &mut memory).unwrap();
    assert_eq!(cpu.registers.get(&Reg::AX).unwrap(), 0b0110);

    cpu.registers.set(&Reg::BX, 0b0110).unwrap();
    execute_xor_instruction(&mut cpu, &Operand::Register(Reg::AX), &Operand::Register(Reg::BX), &mut memory).unwrap();
    assert_eq!(cpu.registers.get(&Reg::AX).unwrap(), 0b0000);
}

#[test]
fn not_behavior() {
    let mut cpu = CPU::new();
    let mut memory = WorkMemory::new(1024);

    cpu.registers.set(&Reg::AX, 0b1100).unwrap();
    execute_not_instruction(&mut cpu, &Operand::Register(Reg::AX), &Operand::Empty, &mut memory).unwrap();
    assert_eq!(cpu.registers.get(&Reg::AX).unwrap(), !0b1100);
}

#[test]
fn shl_behavior() {
    let mut cpu = CPU::new();
    let mut memory = WorkMemory::new(1024);

    cpu.registers.set(&Reg::AX, 0b00000000000000000000000000000001).unwrap();
    execute_shl_instruction(&mut cpu, &Operand::Register(Reg::AX), &Operand::Immediate(2), &mut memory).unwrap();
    assert_eq!(cpu.registers.get(&Reg::AX).unwrap(), 0b00000000000000000000000000000100);

    cpu.registers.set(&Reg::BX, 3).unwrap();
    execute_shl_instruction(&mut cpu, &Operand::Register(Reg::AX), &Operand::Register(Reg::BX), &mut memory).unwrap();
    assert_eq!(cpu.registers.get(&Reg::AX).unwrap(), 32);
}

#[test]
fn shr_behavior() {
    let mut cpu = CPU::new();
    let mut memory = WorkMemory::new(1024);

    cpu.registers.set(&Reg::AX, 0b00000000000000000000000000000100).unwrap();
    execute_shr_instruction(&mut cpu, &Operand::Register(Reg::AX), &Operand::Immediate(2), &mut memory).unwrap();
    assert_eq!(cpu.registers.get(&Reg::AX).unwrap(), 0b00000000000000000000000000000001);

    cpu.registers.set(&Reg::BX, 1).unwrap();
    execute_shr_instruction(&mut cpu, &Operand::Register(Reg::AX), &Operand::Register(Reg::BX), &mut memory).unwrap();
    assert_eq!(cpu.registers.get(&Reg::AX).unwrap(), 0b00000000000000000000000000000000);
}

#[test]
fn cmpw_behavior() {
    let mut cpu = CPU::new();
    let mut memory = WorkMemory::new(1024);

    cpu.registers.set(&Reg::AX, 10.0f32.to_bits()).unwrap();
    cpu.registers.set(&Reg::BX, 5.0f32.to_bits()).unwrap();
    execute_cmpw(&mut cpu, &Operand::Register(Reg::AX), &Operand::Register(Reg::BX), &mut memory, &fpu).unwrap();
    assert!(!cpu.registers.get_flag("zero").unwrap());
    assert!(!cpu.registers.get_flag("sign").unwrap());

    cpu.registers.set(&Reg::AX, 5.0f32.to_bits()).unwrap();
    cpu.registers.set(&Reg::BX, 10.0f32.to_bits()).unwrap();
    execute_cmpw(&mut cpu, &Operand::Register(Reg::AX), &Operand::Register(Reg::BX), &mut memory, &fpu).unwrap();
    assert!(!cpu.registers.get_flag("zero").unwrap());
    assert!(cpu.registers.get_flag("sign").unwrap());

    cpu.registers.set(&Reg::AX, 10.0f32.to_bits()).unwrap();
    cpu.registers.set(&Reg::BX, 10.0f32.to_bits()).unwrap();
    execute_cmpw(&mut cpu, &Operand::Register(Reg::AX), &Operand::Register(Reg::BX), &mut memory, &fpu).unwrap();
    assert!(cpu.registers.get_flag("zero").unwrap());
}

#[test]
fn jmp_behavior() {
    let mut cpu = CPU::new();
    let mut memory = WorkMemory::new(1024);

    execute_jmp(&mut cpu, &Operand::Immediate(123), &Operand::Empty, &mut memory).unwrap();
    assert_eq!(cpu.registers.get(&Reg::PC).unwrap(), 123);
}

#[test]
fn call_ret_behavior() {
    let mut cpu = CPU::new();
    let mut memory = WorkMemory::new(1024);
    cpu.registers.set(&Reg::SP, 1020).unwrap();
    cpu.registers.set(&Reg::PC, 100).unwrap();

    execute_call(&mut cpu, &Operand::Immediate(200), &Operand::Empty, &mut memory).unwrap();
    assert_eq!(cpu.registers.get(&Reg::PC).unwrap(), 200);
    assert_eq!(cpu.registers.get(&Reg::SP).unwrap(), 1016);
    assert_eq!(memory.read_u32(1016).unwrap(), 104);

    execute_ret(&mut cpu, &Operand::Empty, &Operand::Empty, &mut memory).unwrap();
    assert_eq!(cpu.registers.get(&Reg::PC).unwrap(), 104);
    assert_eq!(cpu.registers.get(&Reg::SP).unwrap(), 1020);
}

#[test]
fn conditional_jump_behavior() {
    let mut cpu = CPU::new();
    let mut memory = WorkMemory::new(1024);

    cpu.registers.set_flag("zero", true);
    execute_je(&mut cpu, &Operand::Immediate(300), &Operand::Empty, &mut memory).unwrap();
    assert_eq!(cpu.registers.get(&Reg::PC).unwrap(), 300);

    cpu.registers.set(&Reg::PC, 0).unwrap();
    cpu.registers.set_flag("zero", false);
    execute_jne(&mut cpu, &Operand::Immediate(400), &Operand::Empty, &mut memory).unwrap();
    assert_eq!(cpu.registers.get(&Reg::PC).unwrap(), 400);
}

#[test]
fn in_behavior() {
    let mut cpu = CPU::new();
    let mut memory = WorkMemory::new(MEMORY_MAX_SIZE);
    let dest_addr = 0x100;

    memory.write_u8(IO_START, 0x41).unwrap();
    memory.write_u8(IO_START + 1, 0x42).unwrap();
    memory.write_u8(IO_START + 2, 0x00).unwrap();

    execute_in(&mut cpu, &Operand::Address(dest_addr), &Operand::Empty, &mut memory).unwrap();

    assert_eq!(memory.read_u8(dest_addr).unwrap(), 0x41);
    assert_eq!(memory.read_u8(dest_addr + 1).unwrap(), 0x42);
    assert_eq!(memory.read_u8(dest_addr + 2).unwrap(), 0x00);
}

#[test]
fn insi_behavior() {
    let mut cpu = CPU::new();
    let mut memory = WorkMemory::new(MEMORY_MAX_SIZE);
    let dest_addr = 0x200;

    execute_insi(&mut cpu, &Operand::Address(dest_addr), &Operand::Empty, &mut memory).unwrap();
    assert_eq!(memory.read_u32(dest_addr).unwrap(), 0xDEADBEEF);
}

#[test]
fn insw_behavior() {
    let mut cpu = CPU::new();
    let mut memory = WorkMemory::new(MEMORY_MAX_SIZE);
    let dest_addr = 0x300;

    execute_insw(&mut cpu, &Operand::Address(dest_addr), &Operand::Empty, &mut memory).unwrap();
    assert_eq!(memory.read_u32(dest_addr).unwrap(), 0xCAFEBABE);
}

#[test]
fn movi_behavior() {
    let mut cpu = CPU::new();
    let mut memory = WorkMemory::new(1024);

    execute_movi(&mut cpu, &Operand::Register(Reg::AX), &Operand::Immediate(123), &mut memory).unwrap();
    assert_eq!(cpu.registers.get(&Reg::AX).unwrap(), 123);
}

#[test]
fn movw_behavior() {
    let mut cpu = CPU::new();
    let mut memory = WorkMemory::new(1024);

    cpu.registers.set(&Reg::BX, 456).unwrap();
    execute_movw(&mut cpu, &Operand::Register(Reg::AX), &Operand::Register(Reg::BX), &mut memory).unwrap();
    assert_eq!(cpu.registers.get(&Reg::AX).unwrap(), 456);

    execute_movw(&mut cpu, &Operand::Register(Reg::AX), &Operand::Immediate(789), &mut memory).unwrap();
    assert_eq!(cpu.registers.get(&Reg::AX).unwrap(), 789);

    memory.write_u32(100, 101).unwrap();
    execute_movw(&mut cpu, &Operand::Register(Reg::AX), &Operand::Address(100), &mut memory).unwrap();
    assert_eq!(cpu.registers.get(&Reg::AX).unwrap(), 101);
}

#[test]
fn lodi_lodw_behavior() {
    let mut cpu = CPU::new();
    let mut memory = WorkMemory::new(1024);

    execute_lodi(&mut cpu, &Operand::Register(Reg::AX), &Operand::Immediate(123), &mut memory).unwrap();
    assert_eq!(cpu.registers.get(&Reg::AX).unwrap(), 123);

    memory.write_u32(200, 456).unwrap();
    execute_lodw(&mut cpu, &Operand::Register(Reg::AX), &Operand::Address(200), &mut memory).unwrap();
    assert_eq!(cpu.registers.get(&Reg::AX).unwrap(), 456);
}

#[test]
fn stri_strw_behavior() {
    let mut cpu = CPU::new();
    let mut memory = WorkMemory::new(1024);

    execute_stri(&mut cpu, &Operand::Address(300), &Operand::Immediate(123), &mut memory).unwrap();
    assert_eq!(memory.read_u32(300).unwrap(), 123);

    cpu.registers.set(&Reg::AX, 789).unwrap();
    execute_strw(&mut cpu, &Operand::Address(400), &Operand::Register(Reg::AX), &mut memory).unwrap();
    assert_eq!(memory.read_u32(400).unwrap(), 789);
}

#[test]
fn push_pop_behavior() {
    let mut cpu = CPU::new();
    let mut memory = WorkMemory::new(1024);

    let initial_sp = 1020;
    cpu.registers.set(&Reg::SP, initial_sp).unwrap();

    execute_push(&mut cpu, &Operand::Immediate(123), &Operand::Empty, &mut memory).unwrap();
    assert_eq!(memory.read_u32(cpu.registers.get(&Reg::SP).unwrap()).unwrap(), 123);

    execute_pop(&mut cpu, &Operand::Register(Reg::AX), &Operand::Empty, &mut memory).unwrap();
    assert_eq!(cpu.registers.get(&Reg::AX).unwrap(), 123);
    assert_eq!(cpu.registers.get(&Reg::SP).unwrap(), initial_sp);
}

#[test]
fn xcgh_behavior() {
    let mut cpu = CPU::new();
    let mut memory = WorkMemory::new(1024);

    cpu.registers.set(&Reg::AX, 123).unwrap();
    cpu.registers.set(&Reg::BX, 456).unwrap();

    execute_xcgh(&mut cpu, &Operand::Register(Reg::AX), &Operand::Register(Reg::BX), &mut memory).unwrap();

    assert_eq!(cpu.registers.get(&Reg::AX).unwrap(), 456);
    assert_eq!(cpu.registers.get(&Reg::BX).unwrap(), 123);
}

#[test]
fn halt_behavior() {
    let mut cpu = CPU::new();
    let mut memory = WorkMemory::new(1024);

    assert!(!cpu.halted);
    execute_halt(&mut cpu, &Operand::Empty, &Operand::Empty, &mut memory).unwrap();
    assert!(cpu.halted);
}

#[test]
fn out_behavior() {
    let mut cpu = CPU::new();
    let mut memory = WorkMemory::new(MEMORY_MAX_SIZE);
    let src_addr = 0x100;

    memory.write_u8(src_addr, 0x43).unwrap();
    memory.write_u8(src_addr + 1, 0x44).unwrap();
    memory.write_u8(src_addr + 2, 0x00).unwrap();

    let text = execute_out(&mut cpu, &Operand::Address(src_addr), &Operand::Empty, &mut memory).unwrap();
    assert_eq!(text, vec![0x43, 0x44]);
}

#[test]
fn outi_behavior() {
    let mut cpu = CPU::new();
    let mut memory = WorkMemory::new(MEMORY_MAX_SIZE);
    let immediate_val = 12345;

    let value = execute_outi(&mut cpu, &Operand::Immediate(immediate_val), &Operand::Empty, &mut memory).unwrap();
    assert_eq!(value, 12345);
}

#[test]
fn outw_behavior() {
    let mut cpu = CPU::new();
    let mut memory = WorkMemory::new(MEMORY_MAX_SIZE);
    let src_addr = 0x300;
    let word_val = 0x12345678;

    memory.write_u32(src_addr, word_val).unwrap();

    let value = execute_outw(&mut cpu, &Operand::Address(src_addr), &Operand::Empty, &mut memory).unwrap();
    assert_eq!(value, 0x12345678);
}
