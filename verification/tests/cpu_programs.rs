#![allow(non_snake_case)]

use nes_core::bus::Bus;
use nes_core::cartridge::test_rom;
use nes_core::cpu::CPU;
use nes_core::mem::Mem;

const START_STACK_POINTER: u8 = 0x00;
const START_STATUS: u8 = 0b0000_0000;

fn new_cpu() -> CPU {
    CPU::new(Bus::new(test_rom(vec![])))
}

/// Puts `program` at `$8000`, keeps what is in RAM, starts with A, X and Y
/// cleared and with the stack pointer and the status given above, and runs up
/// to the `BRK` that ends the program. The `BRK` itself is not executed, so
/// the status and the stack that are left are those of the last instruction.
fn load_and_execute(cpu: &mut CPU, program: Vec<u8>) {
    let ram = cpu.bus.cpu_vram;
    let mut fresh = CPU::new(Bus::new(test_rom(program)));
    fresh.bus.cpu_vram = ram;
    fresh.program_counter = 0x8000;
    fresh.stack_pointer = START_STACK_POINTER;
    fresh.status = START_STATUS;
    let mut steps = 0;
    while fresh.bus.peek(fresh.program_counter) != 0x00 {
        fresh.step();
        steps += 1;
        assert!(steps < 100_000);
    }
    *cpu = fresh;
}

#[test]
fn CPU_test_LDA() {
    let mut cpu = new_cpu();
    load_and_execute(&mut cpu, vec![0xa9, 0x05, 0x00]);
    assert_eq!(cpu.register_a, 5);
}

#[test]
fn CPU_test_addressing_modes() {
    //Zeropage
    let mut cpu = new_cpu();
    load_and_execute(&mut cpu, vec![0xa9, 0x05, 0x85, 0xAA, 0x00]);
    assert_eq!(cpu.memory_read(0xAA), 0x05);
    //Zeropage_x
    load_and_execute(&mut cpu, vec![0xa9, 0x05, 0xA2, 0x05, 0x95, 0xA0, 0x00]);
    assert_eq!(cpu.memory_read(0xA5), 0x05);
    //Absolute
    load_and_execute(&mut cpu, vec![0xa9, 0x05, 0x8D, 0x05, 0x06, 0x00]);
    assert_eq!(cpu.memory_read(0x0605), 0x05);
    //Absolute_X
    load_and_execute(&mut cpu, vec![0xa9, 0x08, 0xA2, 0x05, 0x9D, 0x05, 0x06, 0x00]);
    assert_eq!(cpu.memory_read(0x060A), 0x08);
    //Absolute_Y
    load_and_execute(&mut cpu, vec![0xa9, 0x08, 0xA0, 0x05, 0x99, 0x05, 0x06, 0x00]);
    assert_eq!(cpu.memory_read(0x060A), 0x08);
}

#[test]
fn CPU_test_TAX() {
    let mut cpu = new_cpu();
    load_and_execute(&mut cpu, vec![0xa9, 0x04, 0xAA, 0x00]);
    assert_eq!(cpu.register_a, 4);
    assert_eq!(cpu.register_x, 4);
}

#[test]
fn CPU_test_STA() {
    let mut cpu = new_cpu();
    load_and_execute(&mut cpu, vec![0xa9, 0x23, 0x8D, 0x05, 0x06, 0x00]);
    assert_eq!(cpu.memory_read(0x0605), 0x23);
}

#[test]
fn CPU_test_AND() {
    let mut cpu = new_cpu();
    load_and_execute(&mut cpu, vec![
        0xa9, 0x07, 0x8D, 0x05, 0x06, 0xa9, 0x04, 0x2D, 0x05, 0x06, 0x00]);
    assert_eq!(0b0000_0100, cpu.register_a);
}

#[test]
fn CPU_test_ASL() {
    let mut cpu = new_cpu();
    load_and_execute(&mut cpu, vec![0xa9, 0x04, 0x0A, 0x00]);
    assert_eq!(0b0000_1000, cpu.register_a);
    println!("{}", cpu.register_a);
}

#[test]
fn CPU_test_pos_BCC() {
    let mut cpu = new_cpu();
    load_and_execute(&mut cpu, vec![
        0xEA, 0x90, 0x0D, 0xE8, 0xE8, 0xE8, 0xE8, 0xE8, 0xE8, 0xE8, 0xE8, 0xE8, 0xE8, 0xE8, 0xE8, 0xE8, 0xE8, 0xE8, 0xE8, 0x00]);
    assert_eq!(cpu.register_x, 3);
}

#[test]
fn CPU_test_neg_BCC() {
    let mut cpu = new_cpu();
    load_and_execute(&mut cpu, vec![0x90, 0x04, 0xE8, 0xE8, 0x00, 0xEA, 0x90, 0xFA, 0x00]);
    assert_eq!(cpu.register_x, 2);
    load_and_execute(&mut cpu, vec![
        0x90, 0x03, 0xE8, 0xE8, 0x00, 0xA9, 0xCF, 0x0A, 0xEA, 0x90, 0xED, 0x00]);
    assert_eq!(cpu.register_x, 0);
}

#[test]
fn CPU_test_BCS() {
    let mut cpu = new_cpu();
    load_and_execute(&mut cpu, vec![
        0x90, 0x03, 0xE8, 0xE8, 0x00, 0xA9, 0xCF, 0x0A, 0xEA, 0xB0, 0xF7, 0x00]);
    assert_eq!(cpu.register_x, 2);
}

#[test]
fn CPU_test_BEQ() {
    let mut cpu = new_cpu();
    load_and_execute(&mut cpu, vec![0xA9, 0x00, 0xF0, 0x01, 0x00, 0xE8, 0xE8, 0x00]);
    assert_eq!(cpu.register_x, 2);
    load_and_execute(&mut cpu, vec![0xA9, 0x00, 0xF0, 0x03, 0x00, 0xE8, 0xE8, 0x00]);
    assert_eq!(cpu.register_x, 0);
}

#[test]
fn CPU_test_BIT() {
    let mut cpu = new_cpu();
    load_and_execute(&mut cpu, vec![
        0xa9, 0x04, 0x8D, 0x05, 0x06, 0xa9, 0x07, 0x2C, 0x05, 0x06, 0x00]);
    assert_eq!(0x07, cpu.register_a);
}

#[test]
fn CPU_test_BMI() {
    let mut cpu = new_cpu();
    load_and_execute(&mut cpu, vec![0xa9, 0xCD, 0x30, 0x02, 0x00, 0xE8, 0xE8, 0x00]);
    assert_eq!(0x01, cpu.register_x);
}

#[test]
fn CPU_test_BNE() {
    let mut cpu = new_cpu();
    load_and_execute(&mut cpu, vec![0xa9, 0x01, 0xD0, 0x02, 0x00, 0xE8, 0xE8, 0x00]);
    assert_eq!(0x01, cpu.register_x);
}

#[test]
fn CPU_test_BPL() {
    let mut cpu = new_cpu();
    load_and_execute(&mut cpu, vec![0xa9, 0x06, 0x10, 0x02, 0x00, 0xE8, 0xE8, 0x00]);
    assert_eq!(0x01, cpu.register_x);
}

#[test]
fn CPU_test_BVC() {
    let mut cpu = new_cpu();
    load_and_execute(&mut cpu, vec![0xa9, 0x06, 0x50, 0x02, 0x00, 0xE8, 0xE8, 0x00]);
    assert_eq!(0x01, cpu.register_x);
}

#[test]
fn CPU_test_CLC() {
    let mut cpu = new_cpu();
    load_and_execute(&mut cpu, vec![
        0x90, 0x03, 0xE8, 0xE8, 0x00, 0xA9, 0xCF, 0x0A, 0xEA, 0x18, 0xB0, 0xF7, 0x00]);
    assert_eq!(0, cpu.register_x);
}

#[test]
fn CPU_test_CMP() {
    let mut cpu = new_cpu();
    load_and_execute(&mut cpu, vec![0xA9, 0x08, 0x85, 0x05, 0xC5, 0x05, 0x00]);
    assert_eq!(cpu.status, 0b0000_0011);
    load_and_execute(&mut cpu, vec![0xA9, 0x08, 0x85, 0x05, 0xA9, 0x09, 0xC5, 0x05, 0x00]);
    assert_eq!(cpu.status, 0b0000_0001);
}

#[test]
fn CPU_test_CPX() {
    let mut cpu = new_cpu();
    load_and_execute(&mut cpu, vec![0xA2, 0x07, 0xE0, 0x08, 0x00]);
    assert_eq!(cpu.status, 0b1000_0000);
}
