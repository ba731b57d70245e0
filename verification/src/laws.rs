//! What holds of the machine whatever program it runs.

use vstd::prelude::*;
use crate::bus::{ppu_port, ram_index_bounds, BusState};
use crate::cartridge::Mirroring;
use crate::cpu_state::{
    adc_result, add8, carry_in, flag, sub8, CpuState, CARRY, NEGATIVE, OVERFLOW, ZERO,
};
use crate::flags::{
    adc_sets_result_and_flags, compare_sets_flags, flag_reads_back, nz_reflects_value, reflects,
};
use crate::instructions::addressing_mode;
use crate::mem::{high_byte, low_byte, next_address, word};
use crate::ppu::{mirrored_index, PpuState, dots_per_frame};
use crate::registers::{with_flag, with_flag_sets_only_mask, VBLANK};
use crate::trace::{peek_operand_address, peek_word};

verus! {

/// Finding the operand changes no register: only the bus and the count of
/// cycles owed can differ afterwards.
pub proof fn operand_keeps_registers(s: CpuState, mode: addressing_mode)
    ensures
        s.operand(mode).0.register_a == s.register_a,
        s.operand(mode).0.register_x == s.register_x,
        s.operand(mode).0.register_y == s.register_y,
        s.operand(mode).0.stack_pointer == s.stack_pointer,
        s.operand(mode).0.program_counter == s.program_counter,
        s.operand(mode).0.status == s.status,
{
    reveal(CpuState::operand);
    reveal(CpuState::operand_address);
}

/// After a load, the zero and negative flags follow the register that was
/// loaded, and that register holds the operand.
pub proof fn loads_set_zero_and_negative(s: CpuState, mode: addressing_mode)
    ensures
        s.lda(mode).register_a == s.operand(mode).1,
        reflects(s.lda(mode).status, s.lda(mode).register_a),
        s.ldx(mode).register_x == s.operand(mode).1,
        reflects(s.ldx(mode).status, s.ldx(mode).register_x),
        s.ldy(mode).register_y == s.operand(mode).1,
        reflects(s.ldy(mode).status, s.ldy(mode).register_y),
{
    reveal(CpuState::lda);
    reveal(CpuState::ldx);
    reveal(CpuState::ldy);
    nz_reflects_value(s.operand(mode).0.status, s.operand(mode).1);
}

/// What the transfers between registers make of the machine.
pub proof fn transfer_instructions(s: CpuState)
    ensures
        s.execute_instruction(0xAA) == s.load_x(s.register_a),
        s.execute_instruction(0xA8) == s.load_y(s.register_a),
        s.execute_instruction(0x8A) == s.load_a(s.register_x),
        s.execute_instruction(0x98) == s.load_a(s.register_y),
        s.execute_instruction(0xBA) == s.load_x(s.stack_pointer),
{
    reveal(CpuState::instructions_from_80);
}

/// What the steps of the index registers make of the machine.
pub proof fn register_step_instructions(s: CpuState)
    ensures
        s.execute_instruction(0xE8) == s.load_x(add8(s.register_x, 1)),
        s.execute_instruction(0xC8) == s.load_y(add8(s.register_y, 1)),
        s.execute_instruction(0xCA) == s.load_x(sub8(s.register_x, 1)),
        s.execute_instruction(0x88) == s.load_y(sub8(s.register_y, 1)),
        s.execute_instruction(0x68) == s.pla(),
{
    reveal(CpuState::instructions_from_40);
    reveal(CpuState::instructions_from_80);
    reveal(CpuState::instructions_from_c0);
}

/// What the comparisons with an immediate operand make of the machine.
pub proof fn immediate_compare_instructions(s: CpuState)
    ensures
        s.execute_instruction(0xC9) == s.compare(addressing_mode::Immediate, s.register_a).advance(1),
        s.execute_instruction(0xE0) == s.compare(addressing_mode::Immediate, s.register_x).advance(1),
        s.execute_instruction(0xC0) == s.compare(addressing_mode::Immediate, s.register_y).advance(1),
{
    reveal(CpuState::instructions_from_c0);
}

/// After `AND`, `ORA` and `EOR` the accumulator holds the operand combined
/// with what it held, and the zero and negative flags follow it.
pub proof fn logic_sets_zero_and_negative(s: CpuState, mode: addressing_mode)
    ensures
        s.and(mode).register_a == s.register_a & s.operand(mode).1,
        reflects(s.and(mode).status, s.and(mode).register_a),
        s.ora(mode).register_a == s.operand(mode).1 | s.register_a,
        reflects(s.ora(mode).status, s.ora(mode).register_a),
        s.eor(mode).register_a == s.operand(mode).1 ^ s.register_a,
        reflects(s.eor(mode).status, s.eor(mode).register_a),
{
    reveal(CpuState::and);
    reveal(CpuState::ora);
    reveal(CpuState::eor);
    let before = s.operand(mode).0.status;
    let m = s.operand(mode).1;
    nz_reflects_value(before, s.register_a & m);
    nz_reflects_value(before, m | s.register_a);
    nz_reflects_value(before, m ^ s.register_a);
}

/// After a shift or rotate of the accumulator, the zero and negative flags
/// follow the accumulator, and carry holds the bit that was shifted out.
pub proof fn accumulator_shifts_set_flags(s: CpuState)
    ensures
        ({
            let a = s.register_a;
            let acc = addressing_mode::Accumulator;
            &&& s.asl(acc).register_a == a << 1
            &&& flag(s.asl(acc).status, CARRY) == (a >= 128)
            &&& reflects(s.asl(acc).status, s.asl(acc).register_a)
            &&& s.lsr(acc).register_a == a >> 1
            &&& flag(s.lsr(acc).status, CARRY) == (a % 2 == 1)
            &&& reflects(s.lsr(acc).status, s.lsr(acc).register_a)
            &&& !flag(s.lsr(acc).status, NEGATIVE)
            &&& flag(s.rol(acc).status, CARRY) == (a >= 128)
            &&& reflects(s.rol(acc).status, s.rol(acc).register_a)
            &&& flag(s.ror(acc).status, CARRY) == (a % 2 == 1)
            &&& reflects(s.ror(acc).status, s.ror(acc).register_a)
        }),
{
    reveal(CpuState::asl);
    reveal(CpuState::lsr);
    reveal(CpuState::rol);
    reveal(CpuState::ror);
    let a = s.register_a;
    let acc = addressing_mode::Accumulator;
    assert((a & 0x80 != 0) == (a >= 128) && (a & 0x01 != 0) == (a % 2 == 1) && (a >> 1) < 128)
        by (bit_vector);
    let left = with_flag(s.status, CARRY, a & 0x80 != 0);
    let right = with_flag(s.status, CARRY, a & 0x01 != 0);
    flag_reads_back(s.status, CARRY, a & 0x80 != 0);
    flag_reads_back(s.status, CARRY, a & 0x01 != 0);
    nz_reflects_value(left, s.asl(acc).register_a);
    nz_reflects_value(right, s.lsr(acc).register_a);
    nz_reflects_value(left, s.rol(acc).register_a);
    nz_reflects_value(right, s.ror(acc).register_a);
}

/// The stack pointer always names a cell of page one.
pub proof fn stack_lies_in_page_one(s: CpuState, x: u8)
    ensures
        0x0100 <= s.stack_address() <= 0x01FF,
        0x0100 <= s.push(x).stack_address() <= 0x01FF,
        0x0100 <= s.pop().0.stack_address() <= 0x01FF,
{
}

/// After a transfer between registers (`TAX`, `TAY`, `TXA`, `TYA`, `TSX`),
/// the target holds the source, and the zero and negative flags follow it.
pub proof fn transfers_set_zero_and_negative(s: CpuState)
    ensures
        s.execute_instruction(0xAA).register_x == s.register_a,
        reflects(s.execute_instruction(0xAA).status, s.execute_instruction(0xAA).register_x),
        s.execute_instruction(0xA8).register_y == s.register_a,
        reflects(s.execute_instruction(0xA8).status, s.execute_instruction(0xA8).register_y),
        s.execute_instruction(0x8A).register_a == s.register_x,
        reflects(s.execute_instruction(0x8A).status, s.execute_instruction(0x8A).register_a),
        s.execute_instruction(0x98).register_a == s.register_y,
        reflects(s.execute_instruction(0x98).status, s.execute_instruction(0x98).register_a),
        s.execute_instruction(0xBA).register_x == s.stack_pointer,
        reflects(s.execute_instruction(0xBA).status, s.execute_instruction(0xBA).register_x),
{
    transfer_instructions(s);
    nz_reflects_value(s.status, s.register_a);
    nz_reflects_value(s.status, s.register_x);
    nz_reflects_value(s.status, s.register_y);
    nz_reflects_value(s.status, s.stack_pointer);
}

/// After `INX`, `INY`, `DEX`, `DEY`, the register has moved by one modulo
/// 256, and the zero and negative flags follow it.
pub proof fn register_steps_set_zero_and_negative(s: CpuState)
    ensures
        s.execute_instruction(0xE8).register_x == add8(s.register_x, 1),
        reflects(s.execute_instruction(0xE8).status, s.execute_instruction(0xE8).register_x),
        s.execute_instruction(0xC8).register_y == add8(s.register_y, 1),
        reflects(s.execute_instruction(0xC8).status, s.execute_instruction(0xC8).register_y),
        s.execute_instruction(0xCA).register_x == sub8(s.register_x, 1),
        reflects(s.execute_instruction(0xCA).status, s.execute_instruction(0xCA).register_x),
        s.execute_instruction(0x88).register_y == sub8(s.register_y, 1),
        reflects(s.execute_instruction(0x88).status, s.execute_instruction(0x88).register_y),
{
    register_step_instructions(s);
    nz_reflects_value(s.status, add8(s.register_x, 1));
    nz_reflects_value(s.status, add8(s.register_y, 1));
    nz_reflects_value(s.status, sub8(s.register_x, 1));
    nz_reflects_value(s.status, sub8(s.register_y, 1));
}

/// After `PLA`, the zero and negative flags follow the accumulator, which
/// holds the byte that was popped.
pub proof fn pla_sets_zero_and_negative(s: CpuState)
    ensures
        s.execute_instruction(0x68) == s.pla(),
        s.pla().register_a == s.pop().1,
        reflects(s.pla().status, s.pla().register_a),
{
    register_step_instructions(s);
    reveal(CpuState::pla);
    nz_reflects_value(s.pop().0.status, s.pop().1);
}

/// After a comparison of a register `r` with the operand `m`: carry says
/// that `r >= m`, zero that `r == m`, negative is bit 7 of `r - m` modulo
/// 256. `CMP`, `CPX` and `CPY` are this comparison with the accumulator, X
/// and Y.
pub proof fn compare_sets_carry_zero_negative(s: CpuState, mode: addressing_mode, r: u8)
    ensures
        flag(s.compare(mode, r).status, CARRY) == (r >= s.operand(mode).1),
        flag(s.compare(mode, r).status, ZERO) == (r == s.operand(mode).1),
        flag(s.compare(mode, r).status, NEGATIVE) == (sub8(r, s.operand(mode).1) >= 128),
        flag(s.compare(mode, r).status, OVERFLOW) == flag(s.status, OVERFLOW),
        s.execute_instruction(0xC9) == s.compare(addressing_mode::Immediate, s.register_a).advance(1),
        s.execute_instruction(0xE0) == s.compare(addressing_mode::Immediate, s.register_x).advance(1),
        s.execute_instruction(0xC0) == s.compare(addressing_mode::Immediate, s.register_y).advance(1),
{
    reveal(CpuState::compare);
    immediate_compare_instructions(s);
    operand_keeps_registers(s, mode);
    compare_sets_flags(s.status, r, s.operand(mode).1);
}

/// After `ADC` with accumulator `a`, operand `m` and carry `c` coming in, and
/// with `sum = a + m + c`: the accumulator holds `sum` modulo 256, carry says
/// that `sum > 255`, overflow is bit 7 of `!(a ^ m) & (a ^ result)`, and zero
/// and negative follow the result.
pub proof fn adc_adds_with_carry(s: CpuState, mode: addressing_mode)
    ensures
        ({
            let a = s.register_a;
            let m = s.operand(mode).1;
            let sum = a + m + carry_in(s.status);
            let after = s.adc(mode);
            &&& after.register_a == sum % 256
            &&& flag(after.status, CARRY) == (sum > 255)
            &&& flag(after.status, OVERFLOW) == ((!(a ^ m) & (a ^ after.register_a)) & 0x80 != 0)
            &&& reflects(after.status, after.register_a)
        }),
{
    reveal(CpuState::adc);
    operand_keeps_registers(s, mode);
    adc_sets_result_and_flags(s.status, s.register_a, s.operand(mode).1);
}

/// `SBC` is `ADC` of the operand's complement.
pub proof fn sbc_adds_complement(s: CpuState, mode: addressing_mode)
    ensures
        s.sbc(mode).register_a == adc_result(s.register_a, s.operand(mode).1 ^ 0xFF, s.status),
        s.sbc(mode).register_a == (s.register_a + (s.operand(mode).1 ^ 0xFF) + carry_in(
            s.status,
        )) % 256,
{
    reveal(CpuState::sbc);
    operand_keeps_registers(s, mode);
}

/// The stack lies in RAM: a byte pushed is the byte popped, and the pop puts
/// the stack pointer back where it was before the push.
pub proof fn push_then_pop(s: CpuState, x: u8)
    requires
        s.wf(),
    ensures
        s.push(x).pop().1 == x,
        s.push(x).pop().0.stack_pointer == s.stack_pointer,
        s.push(x).stack_pointer == sub8(s.stack_pointer, 1),
{
    reveal(BusState::read_value);
    reveal(BusState::after_read);
    reveal(BusState::after_write);
    ram_index_bounds(s.stack_address());
}

/// A 16-bit value pushed is the value popped, and the pop puts the stack
/// pointer back where it was before the push.
pub proof fn push_u16_then_pop_u16(s: CpuState, data: u16)
    requires
        s.wf(),
    ensures
        s.push_u16(data).pop_u16().1 == data,
        s.push_u16(data).pop_u16().0.stack_pointer == s.stack_pointer,
{
    reveal(BusState::read_value);
    reveal(BusState::after_read);
    reveal(BusState::after_write);
    let s1 = s.push(high_byte(data));
    let s2 = s1.push(low_byte(data));
    ram_index_bounds(s.stack_address());
    ram_index_bounds(s1.stack_address());
    assert(s1.wf());
    assert(s2.pop().1 == low_byte(data));
    let s3 = s2.pop().0;
    assert(s3.stack_pointer == s1.stack_pointer);
    assert(s3.bus.cpu_vram == s2.bus.cpu_vram);
    assert(s3.pop().1 == high_byte(data));
    assert(word((data & 0x00FF) as u8, (data >> 8) as u8) == data) by (bit_vector);
}

/// With horizontal mirroring the nametables at `$2000` and `$2400` are one
/// table, and so are those at `$2800` and `$2C00`; with vertical mirroring
/// those at `$2000` and `$2800` are one, and those at `$2400` and `$2C00`.
/// The two physical tables are distinct, and every cell lies in the 2 KiB of
/// video RAM.
pub proof fn mirrored_tables_alias(offset: u16)
    requires
        offset < 0x400,
    ensures
        mirrored_index(Mirroring::HORIZONTAL, (0x2000 + offset) as u16) == offset,
        mirrored_index(Mirroring::HORIZONTAL, (0x2400 + offset) as u16) == offset,
        mirrored_index(Mirroring::HORIZONTAL, (0x2800 + offset) as u16) == 0x400 + offset,
        mirrored_index(Mirroring::HORIZONTAL, (0x2C00 + offset) as u16) == 0x400 + offset,
        mirrored_index(Mirroring::VERTICAL, (0x2000 + offset) as u16) == offset,
        mirrored_index(Mirroring::VERTICAL, (0x2800 + offset) as u16) == offset,
        mirrored_index(Mirroring::VERTICAL, (0x2400 + offset) as u16) == 0x400 + offset,
        mirrored_index(Mirroring::VERTICAL, (0x2C00 + offset) as u16) == 0x400 + offset,
{
    assert(forall|a: u16| 0x2000 <= a <= 0x2FFF ==> #[trigger] (a & 0x2FFF) == a) by (bit_vector);
    let a0: u16 = (0x2000 + offset) as u16;
    let a1: u16 = (0x2400 + offset) as u16;
    let a2: u16 = (0x2800 + offset) as u16;
    let a3: u16 = (0x2C00 + offset) as u16;
    assert(a0 & 0x2FFF == a0 && a1 & 0x2FFF == a1 && a2 & 0x2FFF == a2 && a3 & 0x2FFF == a3);
}

/// The mirror `$3000..=$3FFF` of the nametables falls on the same cells.
pub proof fn mirrored_index_folds(mirroring: Mirroring, addr: u16)
    requires
        0x2000 <= addr <= 0x2FFF,
    ensures
        mirrored_index(mirroring, (addr + 0x1000) as u16) == mirrored_index(mirroring, addr),
{
    assert(0x2000 <= addr <= 0x2FFF ==> ((addr + 0x1000) as u16) & 0x2FFF == addr & 0x2FFF)
        by (bit_vector);
}

/// A read of the status port, at `$2002` or at any of its mirrors, returns
/// the status register, clears its vertical-blank flag and leaves its other
/// flags, and puts the write latches of the address port and of the scroll
/// port back to their first write.
pub proof fn status_read_clears_vblank_and_latches(s: BusState, addr: u16)
    requires
        0x2000 <= addr <= 0x3FFF,
        ppu_port(addr) == 0x2002,
    ensures
        s.read_value(addr) == s.ppu.status_register.bits,
        !s.after_read(addr).ppu.status_register.spec_check_vblank(),
        s.after_read(addr).ppu.status_register.bits & !VBLANK == s.ppu.status_register.bits
            & !VBLANK,
        s.after_read(addr).ppu.address.hi_ptr,
        !s.after_read(addr).ppu.scroll_register.scroll_ptr,
        s.after_read(addr).ppu.address.value == s.ppu.address.value,
{
    reveal(BusState::read_value);
    reveal(BusState::after_read);
    with_flag_sets_only_mask(s.ppu.status_register.bits, VBLANK, false);
}

/// A read of RAM or of program ROM changes nothing and is no fault.
pub proof fn memory_reads_change_nothing(s: BusState, addr: u16)
    requires
        addr <= 0x1FFF || addr >= 0x8000,
    ensures
        s.after_read(addr) == s,
        s.read_fault(addr) is None,
{
    reveal(BusState::after_read);
}

/// A byte written through the data port to a nametable address is what a
/// read through the data port loads into the buffer, at the same address and
/// at every address that mirroring sends to the same cell.
pub proof fn nametable_write_shows_through_aliases(
    p: PpuState,
    data: u8,
    reader: PpuState,
)
    requires
        p.wf(),
        p.mirroring != Mirroring::FOUR_SCREEN,
        0x2000 <= p.address.spec_get() <= 0x2FFF,
        0x2000 <= reader.address.spec_get() <= 0x2FFF,
        reader.mirroring == p.mirroring,
        reader.vram == p.after_write_data(data).vram,
        mirrored_index(p.mirroring, reader.address.spec_get()) == mirrored_index(
            p.mirroring,
            p.address.spec_get(),
        ),
    ensures
        mirrored_index(p.mirroring, p.address.spec_get()) < 2048,
        p.after_write_data(data).vram[mirrored_index(p.mirroring, p.address.spec_get()) as int]
            == data,
        reader.after_read_data().internal_buffer == data,
{
    let a = p.address.spec_get();
    assert(0x2000 <= a <= 0x2FFF ==> a & 0x2FFF == a) by (bit_vector);
}

/// An address in RAM or in program ROM, where a read changes nothing.
pub open spec fn plain(addr: u16) -> bool {
    addr <= 0x1FFF || addr >= 0x8000
}

/// Where the operand bytes lie in RAM or in program ROM, and so does the
/// pointer of an indirect jump, the address that the tracer shows for an
/// operand is the address that the instruction then uses.
pub proof fn traced_address_is_the_address_used(s: CpuState, mode: addressing_mode)
    requires
        mode.resolves(),
        plain(s.program_counter),
        plain(next_address(s.program_counter)),
        mode is Indirect ==> plain(peek_word(s, s.program_counter)) && plain(
            next_address(peek_word(s, s.program_counter)),
        ) && plain(peek_word(s, s.program_counter) & 0xFF00),
    ensures
        s.operand_address(mode).1 == peek_operand_address(s, mode, s.program_counter),
        s.operand_address(mode).0.bus == s.bus,
{
    reveal(CpuState::operand_address);
    let pc = s.program_counter;
    memory_reads_change_nothing(s.bus, pc);
    memory_reads_change_nothing(s.bus, next_address(pc));
    let b = s.bus.read_value(pc);
    memory_reads_change_nothing(s.bus, b as u16);
    memory_reads_change_nothing(s.bus, add8(b, 1) as u16);
    let ptr = add8(b, s.register_x);
    memory_reads_change_nothing(s.bus, ptr as u16);
    memory_reads_change_nothing(s.bus, add8(ptr, 1) as u16);
    if mode is Indirect {
        let target = peek_word(s, pc);
        memory_reads_change_nothing(s.bus, target);
        memory_reads_change_nothing(s.bus, next_address(target));
        memory_reads_change_nothing(s.bus, target & 0xFF00);
    }
}

/// A tick of the picture unit moves the beam on by `ticks` dots, modulo the
/// dots of a frame.
pub proof fn ppu_tick_advances_dot(p: PpuState, ticks: u8)
    requires
        p.wf(),
    ensures
        p.after_tick(ticks).wf(),
        p.after_tick(ticks).dot() == (p.dot() + ticks) % dots_per_frame(),
{
    let q = p.after_tick(ticks);
    let d = p.dot() + ticks;
    if p.cycles + ticks >= 341 && p.scanline + 1 >= 262 {
        assert(p.scanline == 261);
        assert(q.dot() == d - 89342);
    } else {
        assert(q.dot() == d);
    }
}

/// After `n` cycles of the bus the beam has moved on by exactly `3 * n`
/// dots, modulo the `341 * 262` dots of a frame.
pub proof fn bus_tick_advances_three_dots_per_cycle(s: BusState, n: u8)
    requires
        s.wf(),
    ensures
        s.after_tick(n).wf(),
        s.after_tick(n).ppu.dot() == (s.ppu.dot() + 3 * n) % dots_per_frame(),
{
    reveal(BusState::after_tick);
    let p1 = s.ppu.after_tick(n);
    ppu_tick_advances_dot(s.ppu, n);
    let p2 = p1.after_tick(n);
    ppu_tick_advances_dot(p1, n);
    ppu_tick_advances_dot(p2, n);
}

/// The interrupt line rises only while the beam enters scanline 241, and it
/// rises then exactly if the control register asks for the interrupt and none
/// is pending. The beam enters scanline 241 once in each frame of
/// `341 * 262` dots.
pub proof fn nmi_raised_on_entering_vblank(s: BusState, n: u8)
    requires
        s.wf(),
    ensures
        s.tick_raises_nmi(n) <==> (s.ppu.nmi_interrupt is None
            && s.ppu.control_register.spec_generate_nmi() && s.ppu.scanline <= 240
            && s.after_tick(n).ppu.scanline >= 241),
        s.ppu.scanline <= 240 && s.after_tick(n).ppu.scanline >= 241 ==> s.ppu.dot() < 82181
            <= s.ppu.dot() + 3 * n,
{
    reveal(BusState::after_tick);
    let p0 = s.ppu;
    let p1 = p0.after_tick(n);
    let p2 = p1.after_tick(n);
    let p3 = p2.after_tick(n);
    ppu_tick_advances_dot(p0, n);
    ppu_tick_advances_dot(p1, n);
    ppu_tick_advances_dot(p2, n);
}

} // verus!
