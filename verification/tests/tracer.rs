use nes_core::bus::Bus;
use nes_core::cartridge::{test_rom, Mirroring, Rom};
use nes_core::cpu::CPU;
use nes_core::mem::Mem;
use nes_core::trace::trace;

/// Runs the machine up to and including its first `BRK` and collects the
/// line of each instruction before it runs.
fn run_traced(cpu: &mut CPU) -> Vec<String> {
    let mut result: Vec<String> = vec![];
    loop {
        cpu.service_nmi();
        result.push(trace(cpu));
        if cpu.step().halted {
            break;
        }
        assert!(result.len() < 100_000);
    }
    result
}

#[test]
fn test_format_trace() {
    let mut bus = Bus::new(test_rom(vec![]));
    bus.memory_write(100, 0xa2);
    bus.memory_write(101, 0x01);
    bus.memory_write(102, 0xca);
    bus.memory_write(103, 0x88);
    bus.memory_write(104, 0x00);

    let mut cpu = CPU::new(bus);
    cpu.reset();
    cpu.program_counter = 0x64;
    cpu.register_a = 1;
    cpu.register_x = 2;
    cpu.register_y = 3;
    let result = run_traced(&mut cpu);
    assert_eq!(
        "0064  A2 01     LDX #$01                        A:01 X:02 Y:03 P:24 SP:FD",
        result[0]
    );
    assert_eq!(
        "0066  CA        DEX                             A:01 X:01 Y:03 P:24 SP:FD",
        result[1]
    );
    assert_eq!(
        "0067  88        DEY                             A:01 X:00 Y:03 P:26 SP:FD",
        result[2]
    );
}

#[test]
fn test_format_mem_access() {
    let mut bus = Bus::new(test_rom(vec![]));
    // ORA ($33), Y
    bus.memory_write(100, 0x11);
    bus.memory_write(101, 0x33);

    //data
    bus.memory_write(0x33, 00);
    bus.memory_write(0x34, 04);

    //target cell
    bus.memory_write(0x400, 0xAA);

    let mut cpu = CPU::new(bus);
    cpu.reset();
    cpu.program_counter = 0x64;
    cpu.register_y = 0;
    let result = run_traced(&mut cpu);
    assert_eq!(
        "0064  11 33     ORA ($33),Y = 0400 @ 0400 = AA  A:00 X:00 Y:00 P:24 SP:FD",
        result[0]
    );
}

/// A cartridge of 16 KiB that starts as the well-known processor test does:
/// a jump at `$C000` to `$C5F5`, where X is cleared and stored.
fn jump_then_store_rom() -> Rom {
    let mut prg = vec![0u8; 0x4000];
    prg[0x0000] = 0x4C;
    prg[0x0001] = 0xF5;
    prg[0x0002] = 0xC5;
    prg[0x05F5] = 0xA2;
    prg[0x05F6] = 0x00;
    prg[0x05F7] = 0x86;
    prg[0x05F8] = 0x00;
    prg[0x05F9] = 0x00;
    prg[0x3FFC] = 0x00;
    prg[0x3FFD] = 0xC0;
    Rom { prg_rom: prg, chr_rom: vec![0u8; 0x2000], mapper: 0, screen_mirroring: Mirroring::HORIZONTAL }
}

#[test]
fn trace_matches_known_log_of_first_instructions() {
    let mut cpu = CPU::new(Bus::new(jump_then_store_rom()));
    cpu.reset();
    assert_eq!(cpu.program_counter, 0xC000);
    let result = run_traced(&mut cpu);
    assert_eq!(
        "C000  4C F5 C5  JMP $C5F5                       A:00 X:00 Y:00 P:24 SP:FD",
        result[0]
    );
    assert_eq!(
        "C5F5  A2 00     LDX #$00                        A:00 X:00 Y:00 P:24 SP:FD",
        result[1]
    );
    assert_eq!(
        "C5F7  86 00     STX $00 = 00                    A:00 X:00 Y:00 P:26 SP:FD",
        result[2]
    );
}

#[test]
fn trace_leaves_the_machine_alone() {
    let mut bus = Bus::new(test_rom(vec![0xAD, 0x02, 0x20, 0x00]));
    bus.ppu.status_register.set_vblank(true);
    bus.ppu.write_ppu_address(0x3F);
    let mut cpu = CPU::new(bus);
    cpu.reset();
    let line = trace(&cpu);
    assert_eq!(
        "8000  AD 02 20  LDA $2002 = 80                  A:00 X:00 Y:00 P:24 SP:FD",
        line
    );
    assert_eq!(cpu.bus.ppu.status_register.get(), 0x80);
    assert!(!cpu.bus.ppu.address.hi_ptr);
    assert_eq!(line, trace(&cpu));
}

fn traced_at_8000(program: Vec<u8>, x: u8, y: u8, ram: &[(u16, u8)]) -> String {
    let mut bus = Bus::new(test_rom(program));
    for (addr, value) in ram {
        bus.memory_write(*addr, *value);
    }
    let mut cpu = CPU::new(bus);
    cpu.reset();
    cpu.register_x = x;
    cpu.register_y = y;
    trace(&cpu)
}

#[test]
fn trace_shows_each_addressing_mode() {
    assert_eq!(
        "8000  B5 10     LDA $10,X @ 15 = 77             A:00 X:05 Y:00 P:24 SP:FD",
        traced_at_8000(vec![0xB5, 0x10], 5, 0, &[(0x15, 0x77)])
    );
    assert_eq!(
        "8000  B6 10     LDX $10,Y @ 13 = 66             A:00 X:00 Y:03 P:24 SP:FD",
        traced_at_8000(vec![0xB6, 0x10], 0, 3, &[(0x13, 0x66)])
    );
    assert_eq!(
        "8000  A1 20     LDA ($20,X) @ 24 = 0300 = 5A    A:00 X:04 Y:00 P:24 SP:FD",
        traced_at_8000(vec![0xA1, 0x20], 4, 0, &[(0x24, 0x00), (0x25, 0x03), (0x300, 0x5A)])
    );
    assert_eq!(
        "8000  BD F0 02  LDA $02F0,X @ 0300 = 5A         A:00 X:10 Y:00 P:24 SP:FD",
        traced_at_8000(vec![0xBD, 0xF0, 0x02], 0x10, 0, &[(0x300, 0x5A)])
    );
    assert_eq!(
        "8000  B9 F0 02  LDA $02F0,Y @ 0300 = 5A         A:00 X:00 Y:10 P:24 SP:FD",
        traced_at_8000(vec![0xB9, 0xF0, 0x02], 0, 0x10, &[(0x300, 0x5A)])
    );
    assert_eq!(
        "8000  6C FF 02  JMP ($02FF) = 1234              A:00 X:00 Y:00 P:24 SP:FD",
        traced_at_8000(vec![0x6C, 0xFF, 0x02], 0, 0, &[(0x2FF, 0x34), (0x200, 0x12), (0x300, 0x99)])
    );
    assert_eq!(
        "8000  D0 FE     BNE $8000                       A:00 X:00 Y:00 P:24 SP:FD",
        traced_at_8000(vec![0xD0, 0xFE], 0, 0, &[])
    );
    assert_eq!(
        "8000  0A        ASL A                           A:00 X:00 Y:00 P:24 SP:FD",
        traced_at_8000(vec![0x0A], 0, 0, &[])
    );
    assert_eq!(
        "8000  20 34 12  JSR $1234                       A:00 X:00 Y:00 P:24 SP:FD",
        traced_at_8000(vec![0x20, 0x34, 0x12], 0, 0, &[])
    );
    assert_eq!(
        "8000  C7 10    *DCP $10 = 09                    A:00 X:00 Y:00 P:24 SP:FD",
        traced_at_8000(vec![0xC7, 0x10], 0, 0, &[(0x10, 0x09)])
    );
    assert_eq!(
        "8000  8D 00 03  STA $0300 = 5A                  A:00 X:00 Y:00 P:24 SP:FD",
        traced_at_8000(vec![0x8D, 0x00, 0x03], 0, 0, &[(0x300, 0x5A)])
    );
}
