use nes_core::bus::{Bus, Fault};
use nes_core::cartridge::{create_rom, test_rom, Mirroring, Rom, RomError};
use nes_core::cpu::CPU;
use nes_core::cpu_state::InterruptType;
use nes_core::frame::Frame;
use nes_core::instructions::{addressing_mode, opcode_lookup};
use nes_core::joypad::{Joypad, JoypadButtons, BUTTON_A, RIGHT, START};
use nes_core::mem::Mem;
use nes_core::ppu::ppu;
use nes_core::registers::address_register;
use nes_core::render::render;

fn machine(program: Vec<u8>) -> CPU {
    let mut cpu = CPU::new(Bus::new(test_rom(program)));
    cpu.reset();
    cpu
}

fn run(program: Vec<u8>) -> CPU {
    let mut cpu = machine(program);
    assert!(cpu.execute(100_000));
    cpu
}

fn header(prg_banks: u8, chr_banks: u8, flags6: u8, flags7: u8) -> Vec<u8> {
    vec![0x4E, 0x45, 0x53, 0x1A, prg_banks, chr_banks, flags6, flags7, 0, 0, 0, 0, 0, 0, 0, 0]
}

#[test]
fn lda_immediate_then_brk() {
    let cpu = run(vec![0xA9, 0x05, 0x00]);
    assert_eq!(cpu.register_a, 5);
    assert_eq!(cpu.status & 0b0000_0010, 0);
    assert_eq!(cpu.status & 0b1000_0000, 0);
}

#[test]
fn load_and_execute_runs_the_cartridge_after_loading_ram() {
    let mut cpu = CPU::new(Bus::new(test_rom(vec![0xA5, 0x10, 0x00])));
    let halted = cpu.load_and_execute(vec![0x2A, 0x2B], 0x0010, 1000);
    assert!(halted);
    assert_eq!(cpu.register_a, 0x2A);
    assert_eq!(cpu.memory_read(0x0011), 0x2B);
}

#[test]
fn load_into_rom_is_ignored() {
    let mut cpu = machine(vec![0xA9, 0x05, 0x00]);
    cpu.load(vec![0xFF, 0xFF], 0x8000);
    assert_eq!(cpu.memory_read(0x8000), 0xA9);
}

#[test]
fn shift_left_then_brk() {
    let cpu = run(vec![0xA9, 0x04, 0x0A, 0x00]);
    assert_eq!(cpu.register_a, 8);
    assert_eq!(cpu.status & 0b0000_0001, 0);
}

#[test]
fn reset_sets_registers_and_start_address() {
    let mut cpu = CPU::new(Bus::new(test_rom(vec![])));
    cpu.register_a = 9;
    cpu.reset();
    assert_eq!(cpu.register_a, 0);
    assert_eq!(cpu.register_x, 0);
    assert_eq!(cpu.register_y, 0);
    assert_eq!(cpu.stack_pointer, 0xFD);
    assert_eq!(cpu.status, 0b0010_0100);
    assert_eq!(cpu.program_counter, 0x8000);

    let mut program = vec![0u8; 0x8000];
    program[0x7FFC] = 0x34;
    program[0x7FFD] = 0x92;
    let mut cpu = CPU::new(Bus::new(test_rom(program)));
    cpu.reset();
    assert_eq!(cpu.program_counter, 0x9234);
}

#[test]
fn brk_pushes_pc_and_status_and_jumps_through_vector() {
    let mut program = vec![0u8; 0x8000];
    program[0] = 0x38;
    program[1] = 0x00;
    program[0x7FFE] = 0x00;
    program[0x7FFF] = 0x90;
    let mut cpu = machine(program);
    cpu.status = 0b0010_0000;
    assert!(cpu.execute(10));
    assert_eq!(cpu.program_counter, 0x9000);
    assert_eq!(cpu.stack_pointer, 0xFA);
    assert_eq!(cpu.memory_read(0x01FD), 0x80);
    assert_eq!(cpu.memory_read(0x01FC), 0x02);
    assert_eq!(cpu.memory_read(0x01FB), 0b0011_0001);
    assert_eq!(cpu.status, 0b0010_0101);
}

#[test]
fn execute_stops_when_steps_run_out() {
    let mut cpu = machine(vec![0x4C, 0x00, 0x80]);
    assert!(!cpu.execute(25));
    assert_eq!(cpu.program_counter, 0x8000);
    assert_eq!(cpu.bus.cycles, 75);
}

#[test]
fn taken_branch_across_page_costs_four_cycles() {
    let mut program = vec![0u8; 0x200];
    program[0xFE] = 0xF0;
    program[0xFF] = 0x01;
    let mut cpu = machine(program);
    cpu.program_counter = 0x80FE;
    cpu.status |= 0b0000_0010;
    let before = cpu.bus.cycles;
    let outcome = cpu.step();
    assert!(!outcome.halted);
    assert_eq!(cpu.program_counter, 0x8101);
    assert_eq!(cpu.additional_cycles, 2);
    assert_eq!(cpu.bus.cycles - before, 4);
}

#[test]
fn branch_not_taken_and_taken_within_page() {
    let mut cpu = machine(vec![0xF0, 0x10]);
    let before = cpu.bus.cycles;
    cpu.step();
    assert_eq!(cpu.program_counter, 0x8002);
    assert_eq!(cpu.bus.cycles - before, 2);

    let mut cpu = machine(vec![0xD0, 0x10]);
    let before = cpu.bus.cycles;
    cpu.step();
    assert_eq!(cpu.program_counter, 0x8012);
    assert_eq!(cpu.bus.cycles - before, 3);

    let mut program = vec![0xEA; 0x20];
    program[0x10] = 0xD0;
    program[0x11] = 0xFC;
    let mut cpu = machine(program);
    cpu.program_counter = 0x8010;
    cpu.step();
    assert_eq!(cpu.program_counter, 0x800E);
}

#[test]
fn indirect_y_page_cross_adds_a_cycle() {
    let mut cpu = machine(vec![0xB1, 0x02, 0x00]);
    cpu.memory_write(0x02, 0xFF);
    cpu.memory_write(0x03, 0x00);
    cpu.memory_write(0x0100, 0x5A);
    cpu.register_y = 1;
    cpu.program_counter = 0x8001;
    let address = cpu.get_operand_address(&addressing_mode::Indirect_Y);
    assert_eq!(address, 0x0100);
    assert_eq!(cpu.additional_cycles, 1);

    let mut cpu = machine(vec![0xB1, 0x02, 0x00]);
    cpu.memory_write(0x02, 0xFF);
    cpu.memory_write(0x0100, 0x5A);
    cpu.register_y = 1;
    let before = cpu.bus.cycles;
    cpu.step();
    assert_eq!(cpu.register_a, 0x5A);
    assert_eq!(cpu.bus.cycles - before, 6);
}

#[test]
fn addressing_modes_resolve_addresses() {
    let mut cpu = machine(vec![0x10, 0x30]);
    cpu.register_x = 0xF5;
    cpu.register_y = 0x02;
    cpu.memory_write(0x05, 0x34);
    cpu.memory_write(0x06, 0x12);
    cpu.memory_write(0x10, 0xFF);
    cpu.memory_write(0x11, 0x20);
    assert_eq!(cpu.get_operand_address(&addressing_mode::Immediate), 0x8000);
    assert_eq!(cpu.get_operand_address(&addressing_mode::ZeroPage), 0x0010);
    assert_eq!(cpu.get_operand_address(&addressing_mode::ZeroPage_X), 0x0005);
    assert_eq!(cpu.get_operand_address(&addressing_mode::ZeroPage_Y), 0x0012);
    assert_eq!(cpu.get_operand_address(&addressing_mode::Absolute), 0x3010);
    assert_eq!(cpu.get_operand_address(&addressing_mode::Absolute_X), 0x3105);
    assert_eq!(cpu.additional_cycles, 1);
    assert_eq!(cpu.get_operand_address(&addressing_mode::Absolute_Y), 0x3012);
    assert_eq!(cpu.additional_cycles, 1);
    assert_eq!(cpu.get_operand_address(&addressing_mode::Indirect_X), 0x1234);
    assert_eq!(cpu.get_operand_address(&addressing_mode::Indirect_Y), 0x2101);
    assert_eq!(cpu.additional_cycles, 2);
}

#[test]
fn indirect_jump_stays_on_its_page() {
    let mut cpu = machine(vec![0x6C, 0xFF, 0x02, 0x00]);
    cpu.memory_write(0x02FF, 0x80);
    cpu.memory_write(0x0200, 0x40);
    cpu.memory_write(0x0300, 0x50);
    cpu.step();
    assert_eq!(cpu.program_counter, 0x4080);

    let mut cpu = machine(vec![0x6C, 0x10, 0x02, 0x00]);
    cpu.memory_write(0x0210, 0x80);
    cpu.memory_write(0x0211, 0x50);
    cpu.step();
    assert_eq!(cpu.program_counter, 0x5080);
}

#[test]
fn stack_round_trip() {
    let mut cpu = machine(vec![]);
    let sp = cpu.stack_pointer;
    cpu.stack_push(0x42);
    assert_eq!(cpu.stack_pointer, sp.wrapping_sub(1));
    assert_eq!(cpu.memory_read(0x0100 + sp as u16), 0x42);
    assert_eq!(cpu.stack_pop(), 0x42);
    assert_eq!(cpu.stack_pointer, sp);

    cpu.stack_pointer = 0x00;
    cpu.stack_push_u16(0xBEEF);
    assert_eq!(cpu.stack_pointer, 0xFE);
    assert_eq!(cpu.memory_read(0x0100), 0xBE);
    assert_eq!(cpu.memory_read(0x01FF), 0xEF);
    assert_eq!(cpu.stack_pop_u16(), 0xBEEF);
    assert_eq!(cpu.stack_pointer, 0x00);
}

#[test]
fn adc_sets_carry_and_overflow() {
    let cpu = run(vec![0xA9, 0x50, 0x69, 0x50, 0x00]);
    assert_eq!(cpu.register_a, 0xA0);
    assert_eq!(cpu.status & 0b1100_0011, 0b1100_0000);

    let cpu = run(vec![0x38, 0xA9, 0xFF, 0x69, 0x00, 0x00]);
    assert_eq!(cpu.register_a, 0x00);
    assert_eq!(cpu.status & 0b1100_0011, 0b0000_0011);

    let cpu = run(vec![0xA9, 0xD0, 0x69, 0x90, 0x00]);
    assert_eq!(cpu.register_a, 0x60);
    assert_eq!(cpu.status & 0b1100_0011, 0b0100_0001);
}

#[test]
fn sbc_borrows_when_carry_is_clear() {
    let cpu = run(vec![0x38, 0xA9, 0x50, 0xE9, 0xF0, 0x00]);
    assert_eq!(cpu.register_a, 0x60);
    assert_eq!(cpu.status & 0b1100_0011, 0b0000_0000);

    let cpu = run(vec![0x18, 0xA9, 0x50, 0xE9, 0x10, 0x00]);
    assert_eq!(cpu.register_a, 0x3F);
    assert_eq!(cpu.status & 0b1100_0011, 0b0000_0001);

    let cpu = run(vec![0x38, 0xA9, 0x50, 0xEB, 0xB0, 0x00]);
    assert_eq!(cpu.register_a, 0xA0);
    assert_eq!(cpu.status & 0b1100_0011, 0b1100_0000);
}

#[test]
fn compare_sets_carry_zero_negative() {
    let cpu = run(vec![0xA9, 0x07, 0xC9, 0x08, 0x00]);
    assert_eq!(cpu.status & 0b1000_0011, 0b1000_0000);
    let cpu = run(vec![0xA2, 0x08, 0xE0, 0x08, 0x00]);
    assert_eq!(cpu.status & 0b1000_0011, 0b0000_0011);
    let cpu = run(vec![0xA0, 0x90, 0xC0, 0x08, 0x00]);
    assert_eq!(cpu.status & 0b1000_0011, 0b1000_0001);
}

#[test]
fn loads_and_transfers_set_zero_and_negative() {
    let cpu = run(vec![0xA9, 0x00, 0x00]);
    assert_eq!(cpu.status & 0b1000_0010, 0b0000_0010);
    let cpu = run(vec![0xA2, 0x80, 0x00]);
    assert_eq!(cpu.status & 0b1000_0010, 0b1000_0000);
    let cpu = run(vec![0xA9, 0xFF, 0xAA, 0xE8, 0x00]);
    assert_eq!(cpu.register_x, 0);
    assert_eq!(cpu.status & 0b1000_0010, 0b0000_0010);
    let cpu = run(vec![0x88, 0x98, 0x00]);
    assert_eq!(cpu.register_a, 0xFF);
    assert_eq!(cpu.status & 0b1000_0010, 0b1000_0000);
    let cpu = run(vec![0xBA, 0x00]);
    assert_eq!(cpu.register_x, 0xFD);
    assert_eq!(cpu.status & 0b1000_0010, 0b1000_0000);
}

#[test]
fn rotate_through_carry() {
    let cpu = run(vec![0x38, 0xA9, 0x81, 0x2A, 0x00]);
    assert_eq!(cpu.register_a, 0x03);
    assert_eq!(cpu.status & 0b0000_0001, 1);
    let cpu = run(vec![0x38, 0xA9, 0x02, 0x6A, 0x00]);
    assert_eq!(cpu.register_a, 0x81);
    assert_eq!(cpu.status & 0b1000_0001, 0b1000_0000);
    let cpu = run(vec![0xA9, 0x03, 0x85, 0x10, 0x46, 0x10, 0xA5, 0x10, 0x00]);
    assert_eq!(cpu.register_a, 0x01);
}

#[test]
fn bit_copies_bits_six_and_seven() {
    let cpu = run(vec![0xA9, 0xC0, 0x85, 0x10, 0xA9, 0x01, 0x24, 0x10, 0x00]);
    assert_eq!(cpu.status & 0b1100_0010, 0b1100_0010);
}

#[test]
fn plp_and_rti_force_unused_and_clear_break() {
    let cpu = run(vec![0xA9, 0xFF, 0x48, 0x28, 0x00]);
    assert_eq!(cpu.status, 0b1110_1111);
    let mut cpu = machine(vec![0x40]);
    cpu.stack_push_u16(0x1234);
    cpu.stack_push(0b1101_0011);
    cpu.step();
    assert_eq!(cpu.program_counter, 0x1234);
    assert_eq!(cpu.status, 0b1110_0011);
}

#[test]
fn jsr_pushes_last_byte_of_instruction() {
    let mut cpu = machine(vec![0x20, 0x10, 0x80]);
    cpu.step();
    assert_eq!(cpu.program_counter, 0x8010);
    assert_eq!(cpu.stack_pop_u16(), 0x8002);
}

#[test]
fn unofficial_instructions() {
    let cpu = run(vec![0xA9, 0x05, 0x85, 0x10, 0xA9, 0x04, 0xC7, 0x10, 0x00]);
    assert_eq!(cpu.status & 0b1000_0011, 0b0000_0011);
    let cpu = run(vec![0xA9, 0x01, 0x85, 0x10, 0xA9, 0x04, 0xC7, 0x10, 0x00]);
    assert_eq!(cpu.status & 0b1000_0011, 0b0000_0001);
    let cpu = run(vec![0xA9, 0x09, 0x85, 0x10, 0xA9, 0x04, 0xC7, 0x10, 0x00]);
    assert_eq!(cpu.status & 0b1000_0011, 0b1000_0000);

    let mut cpu = run(vec![0xA9, 0x41, 0x85, 0x10, 0xA9, 0x06, 0x38, 0x27, 0x10, 0x00]);
    assert_eq!(cpu.memory_read(0x10), 0x83);
    assert_eq!(cpu.register_a, 0x02);

    let mut cpu = run(vec![0xA9, 0x81, 0x85, 0x10, 0xA9, 0x04, 0x07, 0x10, 0x00]);
    assert_eq!(cpu.memory_read(0x10), 0x02);
    assert_eq!(cpu.register_a, 0x06);
    assert_eq!(cpu.status & 1, 1);

    let mut cpu = run(vec![0xA9, 0x03, 0x85, 0x10, 0xA9, 0x05, 0x47, 0x10, 0x00]);
    assert_eq!(cpu.memory_read(0x10), 0x01);
    assert_eq!(cpu.register_a, 0x04);

    let mut cpu = run(vec![0xA9, 0x04, 0x85, 0x10, 0xA9, 0x10, 0x18, 0x67, 0x10, 0x00]);
    assert_eq!(cpu.memory_read(0x10), 0x02);
    assert_eq!(cpu.register_a, 0x12);

    let mut cpu = run(vec![0xA9, 0x04, 0x85, 0x10, 0xA9, 0x10, 0x38, 0xE7, 0x10, 0x00]);
    assert_eq!(cpu.memory_read(0x10), 0x05);
    assert_eq!(cpu.register_a, 0x0B);

    let cpu = run(vec![0xA9, 0x9C, 0x85, 0x10, 0xA7, 0x10, 0x00]);
    assert_eq!((cpu.register_a, cpu.register_x), (0x9C, 0x9C));

    let mut cpu = run(vec![0xA9, 0x0F, 0xA2, 0x3C, 0x87, 0x10, 0x00]);
    assert_eq!(cpu.memory_read(0x10), 0x0C);

    let cpu = run(vec![0xA9, 0x0F, 0xA2, 0x3C, 0xCB, 0x0D, 0x00]);
    assert_eq!(cpu.register_x, 0xFF);
    assert_eq!(cpu.status & 0b1000_0011, 0b1000_0000);

    let cpu = run(vec![0xA9, 0xFF, 0x0B, 0x80, 0x00]);
    assert_eq!(cpu.register_a, 0x80);
    assert_eq!(cpu.status & 0b1000_0001, 0b1000_0001);

    let cpu = run(vec![0xA9, 0xFF, 0x4B, 0x03, 0x00]);
    assert_eq!(cpu.register_a, 0x01);
    assert_eq!(cpu.status & 1, 1);

    let cpu = run(vec![0x38, 0xA9, 0xFF, 0x6B, 0xC0, 0x00]);
    assert_eq!(cpu.register_a, 0xE0);
    assert_eq!(cpu.status & 0b1100_0001, 0b1000_0001);

    let cpu = run(vec![0xAB, 0x37, 0x00]);
    assert_eq!((cpu.register_a, cpu.register_x), (0x37, 0x37));

    let cpu = run(vec![0xA2, 0x3C, 0x8B, 0x0F, 0x00]);
    assert_eq!(cpu.register_a, 0x0C);

    let mut cpu = machine(vec![0xBB, 0x00, 0x03, 0x00]);
    cpu.memory_write(0x0300, 0xF0);
    cpu.step();
    assert_eq!((cpu.register_a, cpu.register_x, cpu.stack_pointer), (0xF0, 0xF0, 0xF0));

    let mut cpu = machine(vec![0x9E, 0x00, 0x03, 0x00]);
    cpu.register_x = 0xFF;
    cpu.register_y = 0x01;
    cpu.step();
    assert_eq!(cpu.memory_read(0x0301), 0x04);

    let mut cpu = machine(vec![0x9C, 0x00, 0x03, 0x00]);
    cpu.register_y = 0x07;
    cpu.register_x = 0x02;
    cpu.step();
    assert_eq!(cpu.memory_read(0x0302), 0x04);

    let mut cpu = machine(vec![0x9F, 0x00, 0x03, 0x00]);
    cpu.register_a = 0xFF;
    cpu.register_x = 0x0F;
    cpu.register_y = 0x01;
    cpu.step();
    assert_eq!(cpu.memory_read(0x0301), 0x03);

    let mut cpu = machine(vec![0x93, 0x10, 0x00]);
    cpu.memory_write(0x10, 0x00);
    cpu.memory_write(0x11, 0x03);
    cpu.register_a = 0xFF;
    cpu.register_x = 0xFF;
    cpu.register_y = 0x02;
    cpu.step();
    assert_eq!(cpu.memory_read(0x0302), 0x03);

    let mut cpu = machine(vec![0x9B, 0x00, 0x03, 0x00]);
    cpu.register_a = 0x0F;
    cpu.register_x = 0x3C;
    cpu.register_y = 0x01;
    cpu.step();
    assert_eq!(cpu.stack_pointer, 0x0C);
    assert_eq!(cpu.memory_read(0x0301), 0x04);
}

#[test]
fn nops_consume_their_operands() {
    for (code, len, cycles) in [(0xEAu8, 1u16, 2usize), (0x1A, 1, 2), (0x80, 2, 2), (0x04, 2, 3), (0x14, 2, 4), (0x0C, 3, 4), (0x1C, 3, 4), (0x02, 1, 2)] {
        let mut cpu = machine(vec![code, 0x10, 0x03, 0x00]);
        let before = (cpu.register_a, cpu.register_x, cpu.register_y, cpu.status, cpu.stack_pointer);
        let outcome = cpu.step();
        assert!(!outcome.halted);
        assert_eq!(cpu.program_counter, 0x8000 + len);
        assert_eq!(cpu.bus.cycles, cycles);
        assert_eq!(before, (cpu.register_a, cpu.register_x, cpu.register_y, cpu.status, cpu.stack_pointer));
        assert_eq!(opcode_lookup(code).bytes as u16, len);
    }
}

#[test]
fn every_opcode_is_accepted() {
    let mut unofficial = 0;
    for code in 0u16..=255 {
        let code = code as u8;
        let mut cpu = machine(vec![code, 0x10, 0x03, 0x00]);
        let row = opcode_lookup(code);
        assert_eq!(row.code, code);
        assert!(1 <= row.bytes && row.bytes <= 3);
        let outcome = cpu.step();
        assert_eq!(outcome.halted, code == 0x00);
        if row.mnemonic.starts_with('*') {
            unofficial += 1;
        }
    }
    assert_eq!(unofficial, 105);
    assert_eq!(opcode_lookup(0xB6).address_mode, addressing_mode::ZeroPage_Y);
    assert_eq!(opcode_lookup(0x6C).address_mode, addressing_mode::Indirect);
    assert_eq!(opcode_lookup(0x91).cycles, 6);
    assert_eq!(opcode_lookup(0xC7).mnemonic, "*DCP");
}

#[test]
fn nmi_is_served_before_the_next_instruction() {
    let mut program = vec![0u8; 0x8000];
    program[0] = 0xEA;
    program[0x7FFA] = 0x00;
    program[0x7FFB] = 0x90;
    let mut cpu = machine(program);
    cpu.status = 0b1011_0001;
    cpu.bus.ppu.nmi_interrupt = Some(1);
    let raised = cpu.service_nmi();
    assert!(!raised);
    assert_eq!(cpu.program_counter, 0x9000);
    assert_eq!(cpu.bus.ppu.nmi_interrupt, None);
    assert_eq!(cpu.stack_pointer, 0xFA);
    assert_eq!(cpu.memory_read(0x01FD), 0x80);
    assert_eq!(cpu.memory_read(0x01FC), 0x00);
    assert_eq!(cpu.memory_read(0x01FB), 0b1010_0001);
    assert_eq!(cpu.status, 0b1011_0101);
    assert_eq!(cpu.bus.cycles, 2);
    assert_eq!(cpu.bus.ppu.cycles, 6);
    assert!(!cpu.service_nmi());
    assert_eq!(cpu.program_counter, 0x9000);
}

#[test]
fn interrupt_kinds() {
    assert_eq!(InterruptType::NMI.vector(), 0xFFFA);
    assert_eq!(InterruptType::BRK.vector(), 0xFFFE);
    assert_eq!(InterruptType::NMI.cycles(), 2);
    assert_eq!(InterruptType::BRK.cycles(), 1);
    assert_eq!(InterruptType::NMI.pushed_status(0b1101_0000), 0b1110_0000);
    assert_eq!(InterruptType::BRK.pushed_status(0b1100_0000), 0b1111_0000);
}

#[test]
fn operand_lengths_by_mode() {
    let cpu = machine(vec![]);
    assert_eq!(cpu.inc_program_counter(&addressing_mode::Immediate), 1);
    assert_eq!(cpu.inc_program_counter(&addressing_mode::ZeroPage_X), 1);
    assert_eq!(cpu.inc_program_counter(&addressing_mode::Absolute), 2);
    assert_eq!(cpu.inc_program_counter(&addressing_mode::Absolute_Y), 2);
    assert_eq!(cpu.inc_program_counter(&addressing_mode::Indirect_Y), 1);
    assert_eq!(cpu.inc_program_counter(&addressing_mode::Implied), 0);
}

#[test]
fn ram_is_mirrored_every_two_kib() {
    let mut bus = Bus::new(test_rom(vec![]));
    bus.memory_write(0x0001, 0x55);
    assert_eq!(bus.memory_read(0x0801), 0x55);
    assert_eq!(bus.memory_read(0x1801), 0x55);
    bus.memory_write(0x1FFF, 0x66);
    assert_eq!(bus.memory_read(0x07FF), 0x66);
    bus.memory_write_u16(0x0010, 0xABCD);
    assert_eq!(bus.memory_read(0x0010), 0xCD);
    assert_eq!(bus.memory_read(0x0011), 0xAB);
    assert_eq!(bus.memory_read_u16(0x0810), 0xABCD);
    assert_eq!(bus.peek_u16(0x0010), 0xABCD);
}

#[test]
fn program_rom_is_read_only_and_mirrored_when_small() {
    let mut bus = Bus::new(test_rom(vec![0x11, 0x22]));
    bus.memory_write(0x8000, 0x99);
    assert_eq!(bus.memory_read(0x8000), 0x11);
    assert_eq!(bus.memory_read(0x8001), 0x22);
    assert_eq!(bus.memory_read(0xC000), 0x00);

    let mut prg = vec![0u8; 0x4000];
    prg[0x0123] = 0x77;
    let rom = Rom { prg_rom: prg, chr_rom: vec![0; 0x2000], mapper: 0, screen_mirroring: Mirroring::VERTICAL };
    let mut bus = Bus::new(rom);
    assert_eq!(bus.memory_read(0x8123), 0x77);
    assert_eq!(bus.memory_read(0xC123), 0x77);
    assert_eq!(bus.read_prg_rom(0xC123), 0x77);
}

#[test]
fn unmapped_and_write_only_addresses_read_zero() {
    let mut bus = Bus::new(test_rom(vec![]));
    bus.memory_write(0x2000, 0xFF);
    for addr in [
        0x2000u16, 0x2001, 0x2003, 0x2005, 0x2006, 0x4000, 0x4013, 0x4014, 0x4015, 0x4017,
        0x5000, 0x6000, 0x7FFF,
    ] {
        assert_eq!(bus.memory_read(addr), 0, "{:04x}", addr);
    }
    assert_eq!(
        bus.take_diagnostics(),
        vec![
            Fault::ReadOfWriteOnly { address: 0x2000 },
            Fault::ReadOfWriteOnly { address: 0x2001 },
            Fault::ReadOfWriteOnly { address: 0x2003 },
            Fault::ReadOfWriteOnly { address: 0x2005 },
            Fault::ReadOfWriteOnly { address: 0x2006 },
            Fault::ReadOfWriteOnly { address: 0x4014 },
            Fault::UnmappedRead { address: 0x5000 },
            Fault::UnmappedRead { address: 0x6000 },
            Fault::UnmappedRead { address: 0x7FFF },
        ]
    );
    assert_eq!(bus.take_diagnostics(), vec![]);
    bus.memory_write(0x2002, 0xFF);
    assert_eq!(bus.ppu.status_register.get(), 0);
    bus.memory_write(0x3FFA, 0xFF);
    bus.memory_write(0x6000, 0x12);
    assert_eq!(bus.memory_read(0x6000), 0);
    bus.memory_write(0x4000, 0x12);
    bus.memory_write(0x4017, 0x12);
    bus.memory_write(0x8000, 0x12);
    assert_eq!(
        bus.take_diagnostics(),
        vec![
            Fault::WriteToReadOnly { address: 0x2002 },
            Fault::WriteToReadOnly { address: 0x3FFA },
            Fault::UnmappedWrite { address: 0x6000 },
            Fault::UnmappedRead { address: 0x6000 },
        ]
    );
}

#[test]
fn data_port_faults_are_noted() {
    let mut bus = Bus::new(test_rom(vec![]));
    bus.memory_write(0x2006, 0x30);
    bus.memory_write(0x2006, 0x05);
    bus.memory_write(0x2007, 0x11);
    assert_eq!(bus.memory_read(0x2007), 0);
    bus.memory_write(0x2006, 0x01);
    bus.memory_write(0x2006, 0x00);
    bus.memory_write(0x2007, 0x11);
    bus.memory_read(0x2007);
    bus.memory_write(0x2006, 0x20);
    bus.memory_write(0x2006, 0x00);
    bus.memory_write(0x2007, 0x11);
    bus.memory_read(0x2007);
    assert_eq!(bus.find_read_fault(0x2007), None);
    assert_eq!(bus.find_write_fault(0x2002), Some(Fault::WriteToReadOnly { address: 0x2002 }));
    assert_eq!(
        bus.diagnostics,
        vec![
            Fault::VideoMirrorAccess { address: 0x3005 },
            Fault::VideoMirrorAccess { address: 0x3006 },
            Fault::PatternTableWrite { address: 0x0100 },
        ]
    );
}

#[test]
fn a_faulty_program_runs_on() {
    let mut cpu = machine(vec![0xAD, 0x00, 0x20, 0x8D, 0x02, 0x20, 0xA9, 0x07, 0x00]);
    assert!(cpu.execute(100));
    assert_eq!(cpu.register_a, 7);
    assert_eq!(
        cpu.bus.take_diagnostics(),
        vec![
            Fault::ReadOfWriteOnly { address: 0x2000 },
            Fault::WriteToReadOnly { address: 0x2002 },
        ]
    );
}

#[test]
fn ppu_ports_repeat_every_eight_bytes() {
    let mut bus = Bus::new(test_rom(vec![]));
    bus.memory_write(0x3FFE, 0x21);
    bus.memory_write(0x200E, 0x07);
    assert_eq!(bus.ppu.address.get(), 0x2107);
    bus.memory_write(0x2017, 0x5A);
    assert_eq!(bus.ppu.vram[0x0107], 0x5A);
    assert_eq!(bus.ppu.address.get(), 0x2108);
    bus.memory_write(0x2008, 0b1000_0100);
    assert_eq!(bus.ppu.control_register.bits, 0b1000_0100);
    bus.memory_write(0x2009, 0x1E);
    assert_eq!(bus.ppu.mask_register.bits, 0x1E);
    bus.memory_write(0x2005, 0x11);
    bus.memory_write(0x2005, 0x22);
    assert_eq!((bus.ppu.scroll_register.X_scroll, bus.ppu.scroll_register.Y_scroll), (0x11, 0x22));
    bus.memory_write(0x2003, 0x40);
    bus.memory_write(0x2004, 0x99);
    assert_eq!(bus.ppu.oam_data[0x40], 0x99);
    assert_eq!(bus.ppu.oam_address, 0x41);
    bus.memory_write(0x2003, 0x40);
    assert_eq!(bus.memory_read(0x2004), 0x99);
    assert_eq!(bus.ppu.oam_address, 0x40);
}

#[test]
fn oam_dma_copies_a_page() {
    let mut cpu = machine(vec![0xA9, 0x02, 0x8D, 0x14, 0x40, 0x00]);
    for i in 0..256u16 {
        cpu.memory_write(0x0200 + i, i as u8);
    }
    cpu.memory_write(0x2003, 0);
    cpu.step();
    cpu.step();
    for i in 0..256usize {
        assert_eq!(cpu.bus.ppu.oam_data[i], i as u8);
    }
    assert_eq!(cpu.bus.ppu.oam_address, 0);

    let mut bus = Bus::new(test_rom(vec![]));
    for i in 0..256u16 {
        bus.memory_write(0x0300 + i, i as u8);
    }
    bus.memory_write(0x2003, 0xF0);
    bus.memory_write(0x4014, 0x03);
    assert_eq!(bus.ppu.oam_data[0xF0], 0);
    assert_eq!(bus.ppu.oam_data[0xFF], 15);
    assert_eq!(bus.ppu.oam_data[0x00], 16);
    assert_eq!(bus.ppu.oam_data[0xEF], 255);
    assert_eq!(bus.ppu.oam_address, 0xF0);
}

#[test]
fn status_read_through_bus_clears_vblank() {
    let mut bus = Bus::new(test_rom(vec![]));
    bus.ppu.status_register.set_vblank(true);
    bus.ppu.status_register.set_sprite_0(true);
    bus.memory_write(0x2006, 0x21);
    bus.memory_write(0x2005, 0x01);
    assert_eq!(bus.peek(0x2002), 0xC0);
    assert_eq!(bus.memory_read(0x2002) & 0x80, 0x80);
    assert_eq!(bus.memory_read(0x2002), 0x40);
    assert!(bus.ppu.address.hi_ptr);
    assert!(!bus.ppu.scroll_register.scroll_ptr);
    bus.ppu.status_register.set_vblank(true);
    assert_eq!(bus.memory_read(0x3FFA) & 0x80, 0x80);
    assert_eq!(bus.memory_read(0x200A) & 0x80, 0x00);
}

#[test]
fn horizontal_mirror_through_bus() {
    let mut bus = Bus::new(Rom { prg_rom: vec![0; 0x8000], chr_rom: vec![0; 0x2000], mapper: 0, screen_mirroring: Mirroring::HORIZONTAL });
    bus.memory_write(0x2006, 0x24);
    bus.memory_write(0x2006, 0x00);
    bus.memory_write(0x2007, 0x66);
    bus.memory_write(0x2006, 0x20);
    bus.memory_write(0x2006, 0x00);
    assert_eq!(bus.peek(0x2007), 0x00);
    bus.memory_read(0x2007);
    assert_eq!(bus.peek(0x2007), 0x66);
    assert_eq!(bus.memory_read(0x2007), 0x66);
    assert_eq!(bus.ppu.vram[0], 0x66);
}

#[test]
fn mirroring_maps_nametables() {
    let h = ppu::new(vec![0; 0x2000], Mirroring::HORIZONTAL);
    assert_eq!(h.mirror_vram_address(0x2005), 0x005);
    assert_eq!(h.mirror_vram_address(0x2405), 0x005);
    assert_eq!(h.mirror_vram_address(0x2805), 0x405);
    assert_eq!(h.mirror_vram_address(0x2C05), 0x405);
    assert_eq!(h.mirror_vram_address(0x3C05), 0x405);
    let v = ppu::new(vec![0; 0x2000], Mirroring::VERTICAL);
    assert_eq!(v.mirror_vram_address(0x2005), 0x005);
    assert_eq!(v.mirror_vram_address(0x2405), 0x405);
    assert_eq!(v.mirror_vram_address(0x2805), 0x005);
    assert_eq!(v.mirror_vram_address(0x2FFF), 0x7FF);
    let f = ppu::new(vec![0; 0x2000], Mirroring::FOUR_SCREEN);
    assert_eq!(f.mirror_vram_address(0x2C05), 0xC05);
}

#[test]
fn four_screen_cells_beyond_video_ram_read_zero() {
    let mut p = ppu::new(vec![0; 0x2000], Mirroring::FOUR_SCREEN);
    p.write_ppu_address(0x2C);
    p.write_ppu_address(0x05);
    p.write_data(0x66);
    p.write_ppu_address(0x2C);
    p.write_ppu_address(0x05);
    p.read_data();
    assert_eq!(p.read_data(), 0);
    p.write_ppu_address(0x24);
    p.write_ppu_address(0x05);
    p.write_data(0x77);
    assert_eq!(p.vram[0x405], 0x77);
}

#[test]
fn palette_is_read_directly_and_mirrored() {
    let mut p = ppu::new_empty_rom();
    p.write_ppu_address(0x3F);
    p.write_ppu_address(0x10);
    p.write_data(0x2A);
    assert_eq!(p.palette_table[0], 0x2A);
    p.write_ppu_address(0x3F);
    p.write_ppu_address(0x00);
    assert_eq!(p.read_data(), 0x2A);
    assert_eq!(p.address.get(), 0x3F01);
    p.write_data(0x11);
    assert_eq!(p.palette_table[1], 0x11);
    p.write_ppu_address(0x3F);
    p.write_ppu_address(0x21);
    assert_eq!(p.peek_data(), 0x11);
    assert_eq!(p.read_data(), 0x11);
    p.write_ppu_address(0x3F);
    p.write_ppu_address(0x1F);
    p.write_data(0x33);
    assert_eq!(p.palette_table[0x1F], 0x33);
    assert_eq!(ppu::palette_cell(0x3F14), 0x04);
    assert_eq!(ppu::palette_cell(0x3F18), 0x08);
    assert_eq!(ppu::palette_cell(0x3F1C), 0x0C);
    assert_eq!(ppu::palette_cell(0x3FFF), 0x1F);
}

#[test]
fn pattern_tables_are_read_through_the_buffer_and_not_written() {
    let mut chr = vec![0u8; 0x2000];
    chr[0x0123] = 0x5C;
    chr[0x1FFF] = 0x7D;
    let mut p = ppu::new(chr, Mirroring::HORIZONTAL);
    p.write_ppu_address(0x01);
    p.write_ppu_address(0x23);
    p.write_data(0xFF);
    assert_eq!(p.address.get(), 0x0124);
    p.write_ppu_address(0x01);
    p.write_ppu_address(0x23);
    assert_eq!(p.read_data(), 0);
    assert_eq!(p.read_data(), 0x5C);
    p.write_ppu_address(0x1F);
    p.write_ppu_address(0xFF);
    p.read_data();
    assert_eq!(p.read_data(), 0x7D);

    let mut short = ppu::new_empty_rom();
    short.write_ppu_address(0x1F);
    short.write_ppu_address(0xFF);
    short.read_data();
    assert_eq!(short.read_data(), 0);
}

#[test]
fn unsupported_mirror_range_reads_zero_and_stores_nothing() {
    let mut p = ppu::new_empty_rom();
    p.vram[0x0005] = 0x44;
    p.write_ppu_address(0x30);
    p.write_ppu_address(0x05);
    p.write_data(0x99);
    assert_eq!(p.vram[0x0005], 0x44);
    assert_eq!(p.address.get(), 0x3006);
    p.write_ppu_address(0x30);
    p.write_ppu_address(0x05);
    assert_eq!(p.read_data(), 0);
    assert_eq!(p.read_data(), 0);
    assert_eq!(p.address.get(), 0x3007);
}

#[test]
fn address_register_masks_and_increments() {
    let mut a = address_register::new();
    a.update(0xFF);
    a.update(0xFE);
    assert_eq!(a.get(), 0x3FFE);
    assert!(a.hi_ptr);
    a.increment(1);
    assert_eq!(a.get(), 0x3FFF);
    a.increment(1);
    assert_eq!(a.get(), 0x0000);
    a.set(0x20F0);
    a.increment(32);
    assert_eq!(a.get(), 0x2110);
    a.update(0x12);
    assert!(!a.hi_ptr);
    a.reset_ptr();
    a.update(0x23);
    a.update(0x45);
    assert_eq!(a.get(), 0x2345);
}

#[test]
fn dot_counter_advances_three_per_cycle() {
    let mut bus = Bus::new(test_rom(vec![]));
    let dot = |b: &Bus| b.ppu.scanline as usize * 341 + b.ppu.cycles;
    let mut expected = 0usize;
    for n in [1u8, 7, 85, 113, 114, 200, 255, 0, 3] {
        for _ in 0..40 {
            assert!(bus.ppu.cycles < 341 && bus.ppu.scanline < 262);
            bus.tick(n);
            expected = (expected + 3 * n as usize) % (341 * 262);
            assert_eq!(dot(&bus), expected);
        }
    }
    assert_eq!(bus.cycles, 40 * (1 + 7 + 85 + 113 + 114 + 200 + 255 + 3));
}

#[test]
fn nmi_is_raised_once_per_frame() {
    let mut bus = Bus::new(test_rom(vec![]));
    bus.memory_write(0x2000, 0x80);
    let mut raised_at = vec![];
    let mut cycles = 0usize;
    while cycles < 3 * 341 * 262 / 3 {
        if bus.tick(5) {
            raised_at.push((bus.ppu.scanline, bus.ppu.status_register.check_vblank()));
            assert_eq!(bus.poll_nmi_status(), Some(1));
            assert_eq!(bus.poll_nmi_status(), None);
        }
        cycles += 5;
    }
    assert_eq!(raised_at, vec![(241, true), (241, true), (241, true)]);

    let mut bus = Bus::new(test_rom(vec![]));
    let mut raised = 0;
    for _ in 0..20000 {
        if bus.tick(5) {
            raised += 1;
        }
    }
    assert_eq!(raised, 0);
    assert_eq!(bus.poll_nmi_status(), None);
}

#[test]
fn ppu_tick_sets_and_clears_vblank() {
    let mut p = ppu::new_empty_rom();
    p.write_control_register(0x80);
    let mut frame_ends = 0;
    for line in 1..=262u16 {
        assert!(!p.tick(200));
        let done = p.tick(141);
        if line == 241 {
            assert!(p.status_register.check_vblank());
            assert_eq!(p.nmi_interrupt, Some(1));
        }
        if line == 262 {
            assert!(done);
            frame_ends += 1;
            assert!(!p.status_register.check_vblank());
            assert_eq!(p.nmi_interrupt, None);
        } else {
            assert!(!done);
        }
    }
    assert_eq!(frame_ends, 1);
}

#[test]
fn enabling_nmi_during_vblank_raises_it() {
    let mut p = ppu::new_empty_rom();
    p.status_register.set_vblank(true);
    p.write_control_register(0x80);
    assert_eq!(p.nmi_interrupt, Some(1));
    p.nmi_interrupt = None;
    p.write_control_register(0x80);
    assert_eq!(p.nmi_interrupt, None);
    let mut q = ppu::new_empty_rom();
    q.write_control_register(0x80);
    assert_eq!(q.nmi_interrupt, None);
}

#[test]
fn control_register_flags() {
    let mut p = ppu::new_empty_rom();
    assert_eq!(p.control_register.vram_addr_increment(), 1);
    assert_eq!(p.control_register.background_pattern_addr(), 0);
    assert_eq!(p.control_register.sprite_pattern_addr(), 0);
    assert!(!p.control_register.generate_nmi());
    p.write_control_register(0b1001_1100);
    assert_eq!(p.control_register.vram_addr_increment(), 32);
    assert_eq!(p.control_register.background_pattern_addr(), 0x1000);
    assert_eq!(p.control_register.sprite_pattern_addr(), 0x1000);
    assert!(p.control_register.generate_nmi());
    p.write_mask_register(0x18);
    assert_eq!(p.mask_register.bits, 0x18);
    p.status_register.set_sprite_overflow(true);
    p.status_register.set_sprite_0(true);
    assert_eq!(p.status_register.get(), 0x60);
    p.status_register.set_sprite_overflow(false);
    assert_eq!(p.status_register.get(), 0x40);
}

#[test]
fn joypad_shifts_out_buttons() {
    let mut pad = Joypad::new();
    pad.set_button_pressed_status(JoypadButtons::from_bits_truncate(BUTTON_A), true);
    pad.set_button_pressed_status(JoypadButtons::from_bits_truncate(START), true);
    pad.set_button_pressed_status(JoypadButtons::from_bits_truncate(RIGHT), true);
    pad.set_button_pressed_status(JoypadButtons::from_bits_truncate(RIGHT), false);
    pad.write_joypad(1);
    assert_eq!(pad.read_joypad(), 1);
    assert_eq!(pad.read_joypad(), 1);
    pad.write_joypad(0);
    let bits: Vec<u8> = (0..8).map(|_| pad.read_joypad()).collect();
    assert_eq!(bits, vec![1, 0, 0, 1, 0, 0, 0, 0]);
    assert_eq!(pad.peek_joypad(), 1);
    assert_eq!(pad.read_joypad(), 1);
    assert_eq!(pad.read_joypad(), 1);
    pad.write_joypad(3);
    assert_eq!(pad.button_index, 0);

    let mut bus = Bus::new(test_rom(vec![]));
    bus.joypad.set_button_pressed_status(JoypadButtons::from_bits_truncate(BUTTON_A), true);
    bus.memory_write(0x4016, 1);
    bus.memory_write(0x4016, 0);
    assert_eq!(bus.memory_read(0x4016), 1);
    assert_eq!(bus.memory_read(0x4016), 0);
}

#[test]
fn cartridge_is_decoded() {
    let mut raw = header(1, 1, 0b1110_0001, 0b0100_0000);
    raw.extend(vec![0xAA; 0x4000]);
    raw.extend(vec![0xBB; 0x2000]);
    let rom = Rom::new(&raw).unwrap();
    assert_eq!(rom.prg_rom, vec![0xAA; 0x4000]);
    assert_eq!(rom.chr_rom, vec![0xBB; 0x2000]);
    assert_eq!(rom.mapper, 0x4E);
    assert_eq!(rom.screen_mirroring, Mirroring::VERTICAL);

    let trainer: Vec<u8> = vec![0xCC; 512];
    let raw = create_rom(&header(2, 0, 0b0000_0100, 0), &Some(trainer), &vec![0x11; 0x8000], &vec![]);
    let rom = Rom::new(&raw).unwrap();
    assert_eq!(rom.prg_rom.len(), 0x8000);
    assert_eq!(rom.prg_rom[0], 0x11);
    assert_eq!(rom.chr_rom.len(), 0);
    assert_eq!(rom.screen_mirroring, Mirroring::HORIZONTAL);

    let raw = create_rom(&header(0, 0, 0b0000_1001, 0b0000_0100), &None, &vec![], &vec![]);
    assert_eq!(Rom::new(&raw).unwrap().screen_mirroring, Mirroring::FOUR_SCREEN);
    let raw = create_rom(&header(0, 0, 0, 0b0000_1100), &None, &vec![], &vec![]);
    assert!(Rom::new(&raw).is_ok());

    let rom = test_rom(vec![1, 2, 3]);
    assert_eq!(rom.prg_rom.len(), 0x8000);
    assert_eq!(&rom.prg_rom[0..4], &[1, 2, 3, 0]);
    assert_eq!(rom.chr_rom, vec![2; 0x2000]);
    assert_eq!(rom.mapper, 3);
    assert_eq!(rom.screen_mirroring, Mirroring::VERTICAL);
}

#[test]
fn malformed_cartridges_are_rejected() {
    assert_eq!(Rom::new(&vec![]).err(), Some(RomError::NotInes));
    assert_eq!(Rom::new(&vec![0x4E, 0x45, 0x53]).err(), Some(RomError::NotInes));
    let mut raw = header(0, 0, 0, 0);
    raw[3] = 0x1B;
    assert_eq!(Rom::new(&raw).err(), Some(RomError::NotInes));
    assert_eq!(Rom::new(&vec![0x4E, 0x45, 0x53, 0x1A, 1]).err(), Some(RomError::Truncated));
    assert_eq!(Rom::new(&header(0, 0, 0, 0b0000_1000)).err(), Some(RomError::Nes2Unsupported));
    let mut raw = header(1, 0, 0, 0);
    raw.extend(vec![0; 0x3FFF]);
    assert_eq!(Rom::new(&raw).err(), Some(RomError::Truncated));
    let mut raw = header(1, 0, 0b0000_0100, 0);
    raw.extend(vec![0; 0x4000]);
    assert_eq!(Rom::new(&raw).err(), Some(RomError::Truncated));
    assert_eq!(RomError::NotInes.message(), "File is not in iNES file format");
    assert_eq!(RomError::Nes2Unsupported.message(), "NES2.0 format is not supported");
    assert!(!RomError::Truncated.message().is_empty());
}

#[test]
fn frame_pixels() {
    let mut frame = Frame::new();
    assert_eq!(frame.data.len(), 256 * 240 * 3);
    frame.set_pixel(3, 2, (1, 2, 3));
    assert_eq!(&frame.data[(2 * 256 + 3) * 3..(2 * 256 + 3) * 3 + 3], &[1, 2, 3]);
    assert_eq!(frame.pixel(3, 2), (1, 2, 3));
    frame.set_pixel(255, 239, (9, 8, 7));
    assert_eq!(frame.pixel(255, 239), (9, 8, 7));
    let before = frame.data.clone();
    frame.set_pixel(256, 0, (5, 5, 5));
    frame.set_pixel(0, 240, (5, 5, 5));
    assert_eq!(frame.data, before);
}

#[test]
fn renders_background_and_sprites() {
    let mut chr = vec![0u8; 0x2000];
    // Tile 1, row 0: the first plane is set in the left half, the second in
    // the two outer columns. So the values from the left are 3, 2, 2, 2, 0,
    // 0, 0, 1.
    chr[16] = 0b1111_0000;
    chr[16 + 8] = 0b1000_0001;
    // Tile 2 in the second pattern table: only the top left pixel, value 1.
    chr[0x1000 + 32 + 8] = 0b1000_0000;
    let mut p = ppu::new(chr, Mirroring::HORIZONTAL);
    p.palette_table[0] = 0x0F;
    p.palette_table[1] = 0x01;
    p.palette_table[2] = 0x02;
    p.palette_table[3] = 0x03;
    p.palette_table[5] = 0x11;
    p.palette_table[6] = 0x12;
    p.palette_table[7] = 0x13;
    p.palette_table[9] = 0x25;
    p.palette_table[10] = 0x26;
    p.palette_table[11] = 0x27;
    p.palette_table[13] = 0x21;
    p.palette_table[14] = 0x22;
    p.palette_table[15] = 0x23;
    p.palette_table[0x11] = 0x30;
    p.palette_table[0x15] = 0x2A;
    p.palette_table[0x19] = 0x16;
    p.vram[0] = 1;
    p.vram[2] = 1;
    p.vram[64] = 1;
    p.vram[66] = 1;
    p.vram[0x3C0] = 0b1001_1100;
    p.write_control_register(0b0000_1000);
    for i in 0..64 {
        p.oam_data[i * 4] = 250;
    }
    let sprites: [[u8; 4]; 4] = [
        [100, 2, 0b0100_0010, 50],
        [236, 2, 0b1000_0010, 252],
        [20, 2, 0b1000_0001, 10],
        [40, 2, 0b1100_0000, 30],
    ];
    for (i, sprite) in sprites.iter().enumerate() {
        p.oam_data[i * 4..i * 4 + 4].copy_from_slice(sprite);
    }
    let mut frame = Frame::new();
    render(&p, &mut frame);
    // The tile in column 0 of row 0 uses palette 0.
    assert_eq!(frame.pixel(0, 0), (0x44, 0x28, 0xBC));
    assert_eq!(frame.pixel(1, 0), (0x00, 0x00, 0xBC));
    assert_eq!(frame.pixel(4, 0), (0x00, 0x00, 0x00));
    assert_eq!(frame.pixel(7, 0), (0x00, 0x00, 0xFC));
    assert_eq!(frame.pixel(0, 1), (0x00, 0x00, 0x00));
    // The tile in column 2 of row 0 lies top right in its block: palette 3.
    assert_eq!(frame.pixel(16, 0), (0x98, 0x78, 0xF8));
    assert_eq!(frame.pixel(17, 0), (0x68, 0x88, 0xFC));
    assert_eq!(frame.pixel(23, 0), (0x3C, 0xBC, 0xFC));
    // Row 2 is the bottom half of the block: palettes 1 and 2.
    assert_eq!(frame.pixel(0, 16), (0x68, 0x44, 0xFC));
    assert_eq!(frame.pixel(1, 16), (0x00, 0x58, 0xF8));
    assert_eq!(frame.pixel(16, 16), (0xFC, 0xA0, 0x44));
    assert_eq!(frame.pixel(23, 16), (0xF8, 0x58, 0x98));
    // The first sprite is mirrored left to right: its one pixel lands at the
    // right edge of its cell.
    assert_eq!(frame.pixel(57, 100), (0xF8, 0x38, 0x00));
    assert_eq!(frame.pixel(50, 100), (0x00, 0x00, 0x00));
    // The second is mirrored top to bottom and its pixel falls off the screen.
    assert_eq!(frame.pixel(252, 239), (0x00, 0x00, 0x00));
    // The third is mirrored top to bottom, the fourth both ways.
    assert_eq!(frame.pixel(10, 27), (0x58, 0xD8, 0x54));
    assert_eq!(frame.pixel(10, 20), (0x00, 0x00, 0x00));
    assert_eq!(frame.pixel(37, 47), (0xFC, 0xFC, 0xFC));
    assert_eq!(frame.data.len(), 256 * 240 * 3);
}

#[test]
fn program_counter_and_sprite_address_wrap() {
    let mut program = vec![0u8; 0x8000];
    program[0x7FF0] = 0xD0;
    program[0x7FF1] = 0x20;
    let mut cpu = machine(program);
    cpu.program_counter = 0xFFF0;
    cpu.step();
    assert_eq!(cpu.program_counter, 0x0012);
    assert_eq!(cpu.additional_cycles, 2);

    let mut p = ppu::new_empty_rom();
    p.write_oam_address(0xFF);
    p.write_oam_data(0x12);
    assert_eq!(p.oam_address, 0x00);
    assert_eq!(p.oam_data[0xFF], 0x12);
}
