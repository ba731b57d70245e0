//! The processor: registers, stack, addressing modes and instructions,
//! each verified against its description in [`crate::cpu_state`].

use vstd::prelude::*;
use crate::bus::Bus;
use crate::cpu_state::{
    flag, CpuState, InterruptType, CARRY, DECIMAL, DEFAULT_START, INTERRUPT_DISABLE, NEGATIVE,
    OVERFLOW, RESET_VECTOR, STACK_RESET, STATUS_RESET, ZERO,
};
use crate::instructions::{addressing_mode, opcode_lookup, row_is_consistent};
use crate::mem::{high_byte, low_byte, next_address, word, Mem};
use crate::registers::set_flag;

verus! {

/// The processor together with the bus it drives.
pub struct CPU {
    pub register_a: u8,
    pub register_x: u8,
    pub register_y: u8,
    pub program_counter: u16,
    pub stack_pointer: u8,
    pub status: u8,
    pub bus: Bus,
    pub additional_cycles: u8,
}

impl View for CPU {
    type V = CpuState;

    open spec fn view(&self) -> CpuState {
        CpuState {
            register_a: self.register_a,
            register_x: self.register_x,
            register_y: self.register_y,
            program_counter: self.program_counter,
            stack_pointer: self.stack_pointer,
            status: self.status,
            bus: self.bus@,
            additional_cycles: self.additional_cycles,
        }
    }
}

/// What one instruction did besides changing the machine.
#[derive(Clone, Copy, Debug)]
pub struct StepOutcome {
    /// The instruction was `BRK`.
    pub halted: bool,
    /// The clock raised the picture unit's interrupt line: a frame is ready
    /// to be shown, and the controller is to be updated.
    pub nmi_raised: bool,
}

/// Whether a bit of `mask` is set in `status`.
pub fn flag_is_set(status: u8, mask: u8) -> (r: bool)
    ensures
        r == flag(status, mask),
{
    status & mask != 0
}

/// Joins a low and a high byte.
pub fn make_word(lo: u8, hi: u8) -> (r: u16)
    ensures
        r == word(lo, hi),
{
    (hi as u16) << 8 | (lo as u16)
}

/// The high byte of `value`.
pub fn high_byte_of(value: u16) -> (r: u8)
    ensures
        r == high_byte(value),
{
    #[verifier::truncate]
    ((value >> 8) as u8)
}

/// The low byte of `value`.
pub fn low_byte_of(value: u16) -> (r: u8)
    ensures
        r == low_byte(value),
{
    #[verifier::truncate]
    ((value & 0x00FF) as u8)
}

impl Mem for CPU {
    open spec fn mem_inv(&self) -> bool {
        self.wf()
    }

    open spec fn reads(&self, address: u16, value: u8, post: &Self) -> bool {
        (post@, value) == self@.read(address)
    }

    open spec fn writes(&self, address: u16, value: u8, post: &Self) -> bool {
        post@ == self@.write(address, value)
    }

    fn memory_read(&mut self, address: u16) -> (r: u8)
        ensures
            (final(self)@, r) == old(self)@.read(address),
    {
        self.bus.memory_read(address)
    }

    fn memory_write(&mut self, address: u16, value: u8)
        ensures
            final(self)@ == old(self)@.write(address, value),
    {
        self.bus.memory_write(address, value)
    }

    fn memory_read_u16(&mut self, address: u16) -> (r: u16)
        ensures
            (final(self)@, r) == old(self)@.read_u16(address),
    {
        let ghost pre = *self;
        let lo: u8 = self.memory_read(address);
        let ghost mid = *self;
        let hi: u8 = self.memory_read(address.wrapping_add(1));
        let r: u16 = make_word(lo, hi);
        assert(pre.reads(address, lo, &mid));
        assert(mid.reads(next_address(address), hi, self));
        r
    }

    fn memory_write_u16(&mut self, address: u16, value: u16)
        ensures
            final(self)@ == old(self)@.write_u16(address, value),
    {
        let ghost pre = *self;
        let hi: u8 = high_byte_of(value);
        let lo: u8 = low_byte_of(value);
        self.memory_write(address, lo);
        let ghost mid = *self;
        self.memory_write(address.wrapping_add(1), hi);
        assert(pre.writes(address, lo, &mid));
        assert(mid.writes(next_address(address), hi, self));
    }
}

impl CPU {
    /// See [`CpuState::wf`].
    pub open spec fn wf(&self) -> bool {
        self@.wf()
    }

    /// A processor on `bus` with every register 0. It is to be reset before
    /// it runs.
    pub fn new(bus: Bus) -> (cpu: CPU)
        ensures
            cpu@ == (CpuState {
                register_a: 0,
                register_x: 0,
                register_y: 0,
                program_counter: 0,
                stack_pointer: 0,
                status: 0,
                bus: bus@,
                additional_cycles: 0,
            }),
    {
        CPU {
            register_a: 0,
            register_x: 0,
            register_y: 0,
            program_counter: 0,
            stack_pointer: 0,
            status: 0,
            bus: bus,
            additional_cycles: 0,
        }
    }

    /// Resets the processor.
    pub fn reset(&mut self)
        requires
            old(self).wf(),
        ensures
            final(self).wf(),
            final(self)@ == old(self)@.reset(),
    {
        proof {
            reveal(CpuState::reset);
        }
        self.register_a = 0;
        self.register_x = 0;
        self.register_y = 0;
        self.stack_pointer = STACK_RESET;
        self.status = STATUS_RESET;
        let pc: u16 = self.memory_read_u16(RESET_VECTOR);
        self.program_counter = if pc == 0 { DEFAULT_START } else { pc };
    }

    /// Pushes a byte on the stack.
    pub fn stack_push(&mut self, value: u8)
        requires
            old(self).wf(),
        ensures
            final(self).wf(),
            final(self)@ == old(self)@.push(value),
    {
        self.memory_write(0x100 + (self.stack_pointer as u16), value);
        self.stack_pointer = self.stack_pointer.wrapping_sub(1);
    }

    /// Pops a byte off the stack.
    pub fn stack_pop(&mut self) -> (r: u8)
        requires
            old(self).wf(),
        ensures
            final(self).wf(),
            (final(self)@, r) == old(self)@.pop(),
    {
        self.stack_pointer = self.stack_pointer.wrapping_add(1);
        self.memory_read(0x100 + (self.stack_pointer as u16))
    }

    /// Pushes two bytes, the high byte first.
    pub fn stack_push_u16(&mut self, data: u16)
        requires
            old(self).wf(),
        ensures
            final(self).wf(),
            final(self)@ == old(self)@.push_u16(data),
    {
        let hi: u8 = high_byte_of(data);
        let lo: u8 = low_byte_of(data);
        self.stack_push(hi);
        self.stack_push(lo);
    }

    /// Pops two bytes, the low byte first.
    pub fn stack_pop_u16(&mut self) -> (r: u16)
        requires
            old(self).wf(),
        ensures
            final(self).wf(),
            (final(self)@, r) == old(self)@.pop_u16(),
    {
        let lo: u8 = self.stack_pop();
        let hi: u8 = self.stack_pop();
        make_word(lo, hi)
    }

    /// Sets the zero and negative flags from `value`.
    pub fn update_negative_zero_flags(&mut self, value: u8)
        ensures
            final(self)@ == old(self)@.nz(value),
    {
        self.status = set_flag(self.status, ZERO, value == 0);
        self.status = set_flag(self.status, NEGATIVE, value & 0x80 != 0);
    }

    /// The number of operand bytes in `mode`.
    pub fn inc_program_counter(&self, mode: &addressing_mode) -> (r: u16)
        ensures
            r == mode.spec_operand_len(),
    {
        mode.operand_len()
    }

    /// Charges a cycle if going from `base` to `addr` crossed a page.
    fn charge_page_cross(&mut self, base: u16, addr: u16)
        ensures
            final(self)@ == old(self)@.page_penalty(base, addr),
    {
        if (addr & 0xFF00) != (base & 0xFF00) {
            self.additional_cycles = self.additional_cycles.wrapping_add(1);
        }
    }

    /// Resolves the operand's address in `mode`, the program counter being
    /// on the first byte after the opcode.
    pub fn get_operand_address(&mut self, mode: &addressing_mode) -> (r: u16)
        requires
            old(self).wf(),
            mode.resolves(),
        ensures
            final(self).wf(),
            (final(self)@, r) == old(self)@.operand_address(*mode),
            final(self).register_a == old(self).register_a,
            final(self).register_x == old(self).register_x,
            final(self).register_y == old(self).register_y,
            final(self).program_counter == old(self).program_counter,
            final(self).stack_pointer == old(self).stack_pointer,
            final(self).status == old(self).status,
    {
        proof {
            reveal(CpuState::operand_address);
        }
        match mode {
            addressing_mode::Immediate => self.program_counter,
            addressing_mode::ZeroPage => {
                let address: u8 = self.memory_read(self.program_counter);
                address as u16
            },
            addressing_mode::ZeroPage_X => {
                let address: u8 = self.memory_read(self.program_counter);
                address.wrapping_add(self.register_x) as u16
            },
            addressing_mode::ZeroPage_Y => {
                let address: u8 = self.memory_read(self.program_counter);
                address.wrapping_add(self.register_y) as u16
            },
            addressing_mode::Absolute => self.memory_read_u16(self.program_counter),
            addressing_mode::Absolute_X => {
                let address: u16 = self.memory_read_u16(self.program_counter);
                let offset_address: u16 = address.wrapping_add(self.register_x as u16);
                self.charge_page_cross(address, offset_address);
                offset_address
            },
            addressing_mode::Absolute_Y => {
                let address: u16 = self.memory_read_u16(self.program_counter);
                let offset_address: u16 = address.wrapping_add(self.register_y as u16);
                self.charge_page_cross(address, offset_address);
                offset_address
            },
            addressing_mode::Indirect => {
                let mem_address: u16 = self.memory_read_u16(self.program_counter);
                if mem_address & 0x00FF == 0x00FF {
                    let lo: u8 = self.memory_read(mem_address);
                    let hi: u8 = self.memory_read(mem_address & 0xFF00);
                    make_word(lo, hi)
                } else {
                    self.memory_read_u16(mem_address)
                }
            },
            addressing_mode::Indirect_X => {
                let address: u8 = self.memory_read(self.program_counter);
                let pointer: u8 = address.wrapping_add(self.register_x);
                let lo: u8 = self.memory_read(pointer as u16);
                let hi: u8 = self.memory_read(pointer.wrapping_add(1) as u16);
                make_word(lo, hi)
            },
            addressing_mode::Indirect_Y => {
                let base: u8 = self.memory_read(self.program_counter);
                let lo: u8 = self.memory_read(base as u16);
                let hi: u8 = self.memory_read(base.wrapping_add(1) as u16);
                let deref_base: u16 = make_word(lo, hi);
                let deref: u16 = deref_base.wrapping_add(self.register_y as u16);
                self.charge_page_cross(deref_base, deref);
                deref
            },
            _ => 0,
        }
    }

    /// Reads the operand in `mode`.
    fn read_operand(&mut self, mode: &addressing_mode) -> (r: u8)
        requires
            old(self).wf(),
            mode.resolves(),
        ensures
            final(self).wf(),
            (final(self)@, r) == old(self)@.operand(*mode),
            final(self).register_a == old(self).register_a,
            final(self).register_x == old(self).register_x,
            final(self).register_y == old(self).register_y,
            final(self).program_counter == old(self).program_counter,
            final(self).stack_pointer == old(self).stack_pointer,
            final(self).status == old(self).status,
    {
        proof {
            reveal(CpuState::operand);
        }
        let address: u16 = self.get_operand_address(mode);
        self.memory_read(address)
    }

    /// Takes a branch: moves the program counter by the signed byte under it.
    pub fn branch(&mut self)
        requires
            old(self).wf(),
        ensures
            final(self).wf(),
            final(self)@ == old(self)@.branch(),
    {
        proof {
            reveal(CpuState::branch);
        }
        let value: u8 = self.memory_read(self.program_counter);
        self.additional_cycles = self.additional_cycles.wrapping_add(1);
        let target: u16 = if value < 128 {
            self.program_counter.wrapping_add(value as u16)
        } else {
            self.program_counter.wrapping_sub(256 - (value as u16))
        };
        if (self.program_counter & 0xFF00) != (target & 0xFF00) {
            self.additional_cycles = self.additional_cycles.wrapping_add(1);
        }
        self.program_counter = target;
    }

    /// A branch instruction whose condition has been decided.
    fn branch_on(&mut self, taken: bool)
        requires
            old(self).wf(),
        ensures
            final(self).wf(),
            final(self)@ == old(self)@.branch_if(taken),
    {
        if taken {
            self.branch();
        }
        self.program_counter = self.program_counter.wrapping_add(1);
    }

    /// LDA: loads the accumulator with the operand.
    pub fn LDA(&mut self, mode: &addressing_mode)
        requires
            old(self).wf(),
            mode.resolves(),
        ensures
            final(self).wf(),
            final(self)@ == old(self)@.lda(*mode),
    {
        proof {
            reveal(CpuState::lda);
        }
        let value: u8 = self.read_operand(mode);
        self.register_a = value;
        self.update_negative_zero_flags(self.register_a);
    }

    /// STA: stores the accumulator at the operand's address.
    pub fn STA(&mut self, mode: &addressing_mode)
        requires
            old(self).wf(),
            mode.resolves(),
        ensures
            final(self).wf(),
            final(self)@ == old(self)@.sta(*mode),
    {
        proof {
            reveal(CpuState::store);
        }
        let address: u16 = self.get_operand_address(mode);
        self.memory_write(address, self.register_a);
    }

    /// AND: masks the accumulator with the operand.
    pub fn AND(&mut self, mode: &addressing_mode)
        requires
            old(self).wf(),
            mode.resolves(),
        ensures
            final(self).wf(),
            final(self)@ == old(self)@.and(*mode),
    {
        proof {
            reveal(CpuState::and);
        }
        let value: u8 = self.read_operand(mode);
        self.register_a = self.register_a & value;
        self.update_negative_zero_flags(self.register_a);
    }

    /// Fetches what a shift or rotate works on.
    fn fetch_shift_operand(&mut self, mode: &addressing_mode) -> (r: (u16, u8))
        requires
            old(self).wf(),
            mode.resolves() || *mode is Accumulator,
        ensures
            final(self).wf(),
            (final(self)@, r.0, r.1) == old(self)@.shift_operand(*mode),
            final(self).register_a == old(self).register_a,
            final(self).register_x == old(self).register_x,
            final(self).register_y == old(self).register_y,
            final(self).program_counter == old(self).program_counter,
            final(self).stack_pointer == old(self).stack_pointer,
            final(self).status == old(self).status,
    {
        if *mode == addressing_mode::Accumulator {
            (0, self.register_a)
        } else {
            let address: u16 = self.get_operand_address(mode);
            let value: u8 = self.memory_read(address);
            (address, value)
        }
    }

    /// Puts the result of a shift or rotate back and sets the flags.
    fn store_shift_result(&mut self, mode: &addressing_mode, address: u16, carry: bool, value: u8)
        requires
            old(self).wf(),
        ensures
            final(self).wf(),
            final(self)@ == old(self)@.shift_result(*mode, address, carry, value),
    {
        self.status = set_flag(self.status, CARRY, carry);
        if *mode == addressing_mode::Accumulator {
            self.register_a = value;
        } else {
            self.memory_write(address, value);
        }
        self.update_negative_zero_flags(value);
    }

    /// ASL: shifts the accumulator or a byte of memory one place to the left.
    pub fn ASL(&mut self, mode: &addressing_mode)
        requires
            old(self).wf(),
            mode.resolves() || *mode is Accumulator,
        ensures
            final(self).wf(),
            final(self)@ == old(self)@.asl(*mode),
    {
        proof {
            reveal(CpuState::asl);
        }
        let (address, value) = self.fetch_shift_operand(mode);
        self.store_shift_result(mode, address, value & 0x80 != 0, value << 1);
    }

    /// BCC: branches if carry is clear.
    pub fn BCC(&mut self)
        requires
            old(self).wf(),
        ensures
            final(self).wf(),
            final(self)@ == old(self)@.branch_if(!flag(old(self).status, CARRY)),
    {
        self.branch_on(!flag_is_set(self.status, CARRY));
    }

    /// BCS: branches if carry is set.
    pub fn BCS(&mut self)
        requires
            old(self).wf(),
        ensures
            final(self).wf(),
            final(self)@ == old(self)@.branch_if(flag(old(self).status, CARRY)),
    {
        self.branch_on(flag_is_set(self.status, CARRY));
    }

    /// BEQ: branches if zero is set.
    pub fn BEQ(&mut self)
        requires
            old(self).wf(),
        ensures
            final(self).wf(),
            final(self)@ == old(self)@.branch_if(flag(old(self).status, ZERO)),
    {
        self.branch_on(flag_is_set(self.status, ZERO));
    }

    /// BIT: tests the operand against the accumulator.
    pub fn BIT(&mut self, mode: &addressing_mode)
        requires
            old(self).wf(),
            mode.resolves(),
        ensures
            final(self).wf(),
            final(self)@ == old(self)@.bit(*mode),
    {
        proof {
            reveal(CpuState::bit);
        }
        let value: u8 = self.read_operand(mode);
        let result: u8 = self.register_a & value;
        self.status = set_flag(self.status, ZERO, result == 0);
        self.status = set_flag(self.status, NEGATIVE, value & 0x80 != 0);
        self.status = set_flag(self.status, OVERFLOW, value & 0x40 != 0);
    }

    /// BMI: branches if negative is set.
    pub fn BMI(&mut self)
        requires
            old(self).wf(),
        ensures
            final(self).wf(),
            final(self)@ == old(self)@.branch_if(flag(old(self).status, NEGATIVE)),
    {
        self.branch_on(flag_is_set(self.status, NEGATIVE));
    }

    /// BNE: branches if zero is clear.
    pub fn BNE(&mut self)
        requires
            old(self).wf(),
        ensures
            final(self).wf(),
            final(self)@ == old(self)@.branch_if(!flag(old(self).status, ZERO)),
    {
        self.branch_on(!flag_is_set(self.status, ZERO));
    }

    /// BPL: branches if negative is clear.
    pub fn BPL(&mut self)
        requires
            old(self).wf(),
        ensures
            final(self).wf(),
            final(self)@ == old(self)@.branch_if(!flag(old(self).status, NEGATIVE)),
    {
        self.branch_on(!flag_is_set(self.status, NEGATIVE));
    }

    /// BVC: branches if overflow is clear.
    pub fn BVC(&mut self)
        requires
            old(self).wf(),
        ensures
            final(self).wf(),
            final(self)@ == old(self)@.branch_if(!flag(old(self).status, OVERFLOW)),
    {
        self.branch_on(!flag_is_set(self.status, OVERFLOW));
    }

    /// BVS: branches if overflow is set.
    pub fn BVS(&mut self)
        requires
            old(self).wf(),
        ensures
            final(self).wf(),
            final(self)@ == old(self)@.branch_if(flag(old(self).status, OVERFLOW)),
    {
        self.branch_on(flag_is_set(self.status, OVERFLOW));
    }

    /// Sets or clears the flags of `mask`.
    pub fn set_status_flag(&mut self, mask: u8, on: bool)
        ensures
            final(self)@ == old(self)@.set(mask, on),
    {
        self.status = set_flag(self.status, mask, on);
    }

    /// CLC: clears carry.
    pub fn CLC(&mut self)
        ensures
            final(self)@ == old(self)@.set(CARRY, false),
    {
        self.set_status_flag(CARRY, false);
    }

    /// CLD: clears the decimal flag.
    pub fn CLD(&mut self)
        ensures
            final(self)@ == old(self)@.set(DECIMAL, false),
    {
        self.set_status_flag(DECIMAL, false);
    }

    /// CLI: clears the interrupt-disable flag.
    pub fn CLI(&mut self)
        ensures
            final(self)@ == old(self)@.set(INTERRUPT_DISABLE, false),
    {
        self.set_status_flag(INTERRUPT_DISABLE, false);
    }

    /// CLV: clears overflow.
    pub fn CLV(&mut self)
        ensures
            final(self)@ == old(self)@.set(OVERFLOW, false),
    {
        self.set_status_flag(OVERFLOW, false);
    }

    /// Sets the flags of a comparison of `register` with `value`.
    fn set_compare_flags(&mut self, register: u8, value: u8)
        ensures
            final(self)@ == (CpuState {
                status: crate::cpu_state::compare_status(old(self).status, register, value),
                ..old(self)@
            }),
    {
        let result: u8 = register.wrapping_sub(value);
        self.update_negative_zero_flags(result);
        self.status = set_flag(self.status, CARRY, register >= value);
    }

    /// The comparison of `register` with the operand.
    pub fn compare(&mut self, mode: &addressing_mode, register: u8)
        requires
            old(self).wf(),
            mode.resolves(),
        ensures
            final(self).wf(),
            final(self)@ == old(self)@.compare(*mode, register),
    {
        proof {
            reveal(CpuState::compare);
        }
        let value: u8 = self.read_operand(mode);
        self.set_compare_flags(register, value);
    }

    /// STX: stores X at the operand's address.
    pub fn STX(&mut self, mode: &addressing_mode)
        requires
            old(self).wf(),
            mode.resolves(),
        ensures
            final(self).wf(),
            final(self)@ == old(self)@.stx(*mode),
    {
        proof {
            reveal(CpuState::store);
        }
        let address: u16 = self.get_operand_address(mode);
        self.memory_write(address, self.register_x);
    }

    /// STY: stores Y at the operand's address.
    pub fn STY(&mut self, mode: &addressing_mode)
        requires
            old(self).wf(),
            mode.resolves(),
        ensures
            final(self).wf(),
            final(self)@ == old(self)@.sty(*mode),
    {
        proof {
            reveal(CpuState::store);
        }
        let address: u16 = self.get_operand_address(mode);
        self.memory_write(address, self.register_y);
    }

    /// LDX: loads X with the operand.
    pub fn LDX(&mut self, mode: &addressing_mode)
        requires
            old(self).wf(),
            mode.resolves(),
        ensures
            final(self).wf(),
            final(self)@ == old(self)@.ldx(*mode),
    {
        proof {
            reveal(CpuState::ldx);
        }
        let value: u8 = self.read_operand(mode);
        self.register_x = value;
        self.update_negative_zero_flags(self.register_x);
    }

    /// LDY: loads Y with the operand.
    pub fn LDY(&mut self, mode: &addressing_mode)
        requires
            old(self).wf(),
            mode.resolves(),
        ensures
            final(self).wf(),
            final(self)@ == old(self)@.ldy(*mode),
    {
        proof {
            reveal(CpuState::ldy);
        }
        let value: u8 = self.read_operand(mode);
        self.register_y = value;
        self.update_negative_zero_flags(self.register_y);
    }

    /// DEC: takes one from a byte of memory.
    pub fn DEC(&mut self, mode: &addressing_mode)
        requires
            old(self).wf(),
            mode.resolves(),
        ensures
            final(self).wf(),
            final(self)@ == old(self)@.dec(*mode),
    {
        proof {
            reveal(CpuState::step_memory);
        }
        let address: u16 = self.get_operand_address(mode);
        let mut value: u8 = self.memory_read(address);
        value = value.wrapping_sub(1);
        self.memory_write(address, value);
        self.update_negative_zero_flags(value);
    }

    /// INC: adds one to a byte of memory.
    pub fn INC(&mut self, mode: &addressing_mode)
        requires
            old(self).wf(),
            mode.resolves(),
        ensures
            final(self).wf(),
            final(self)@ == old(self)@.inc(*mode),
    {
        proof {
            reveal(CpuState::step_memory);
        }
        let address: u16 = self.get_operand_address(mode);
        let mut value: u8 = self.memory_read(address);
        value = value.wrapping_add(1);
        self.memory_write(address, value);
        self.update_negative_zero_flags(value);
    }

    /// EOR: flips the operand's bits in the accumulator.
    pub fn EOR(&mut self, mode: &addressing_mode)
        requires
            old(self).wf(),
            mode.resolves(),
        ensures
            final(self).wf(),
            final(self)@ == old(self)@.eor(*mode),
    {
        proof {
            reveal(CpuState::eor);
        }
        let value: u8 = self.read_operand(mode);
        let result: u8 = value ^ self.register_a;
        self.register_a = result;
        self.update_negative_zero_flags(result);
    }

    /// JMP: goes on at the operand's address.
    pub fn JMP(&mut self, mode: &addressing_mode)
        requires
            old(self).wf(),
            mode.resolves(),
        ensures
            final(self).wf(),
            final(self)@ == old(self)@.jmp(*mode),
    {
        proof {
            reveal(CpuState::jmp);
        }
        let address: u16 = self.get_operand_address(mode);
        self.program_counter = address;
    }

    /// JSR: pushes the address of its own last byte and goes on at the address
    /// that follows the opcode.
    pub fn JSR(&mut self, mode: &addressing_mode)
        requires
            old(self).wf(),
        ensures
            final(self).wf(),
            final(self)@ == old(self)@.jsr(),
    {
        proof {
            reveal(CpuState::jsr);
        }
        let target_from: u16 = self.program_counter;
        self.stack_push_u16(self.program_counter.wrapping_add(1));
        let target_address: u16 = self.memory_read_u16(target_from);
        self.program_counter = target_address;
    }

    /// RTS: goes on after the address on the stack.
    pub fn RTS(&mut self)
        requires
            old(self).wf(),
        ensures
            final(self).wf(),
            final(self)@ == old(self)@.rts(),
    {
        proof {
            reveal(CpuState::rts);
        }
        let address: u16 = self.stack_pop_u16();
        self.program_counter = address.wrapping_add(1);
    }

    /// LSR: shifts the accumulator or a byte of memory one place to the right.
    pub fn LSR(&mut self, mode: &addressing_mode)
        requires
            old(self).wf(),
            mode.resolves() || *mode is Accumulator,
        ensures
            final(self).wf(),
            final(self)@ == old(self)@.lsr(*mode),
    {
        proof {
            reveal(CpuState::lsr);
        }
        let (address, value) = self.fetch_shift_operand(mode);
        self.store_shift_result(mode, address, value & 0x01 != 0, value >> 1);
    }

    /// ORA: sets the operand's bits in the accumulator.
    pub fn ORA(&mut self, mode: &addressing_mode)
        requires
            old(self).wf(),
            mode.resolves(),
        ensures
            final(self).wf(),
            final(self)@ == old(self)@.ora(*mode),
    {
        proof {
            reveal(CpuState::ora);
        }
        let value: u8 = self.read_operand(mode);
        self.register_a = value | self.register_a;
        self.update_negative_zero_flags(self.register_a);
    }

    /// ROL: rotates the accumulator or a byte of memory one place to the left
    /// through carry.
    pub fn ROL(&mut self, mode: &addressing_mode)
        requires
            old(self).wf(),
            mode.resolves() || *mode is Accumulator,
        ensures
            final(self).wf(),
            final(self)@ == old(self)@.rol(*mode),
    {
        proof {
            reveal(CpuState::rol);
        }
        let carry_bit: u8 = if flag_is_set(self.status, CARRY) { 0x01 } else { 0 };
        let (address, value) = self.fetch_shift_operand(mode);
        self.store_shift_result(mode, address, value & 0x80 != 0, (value << 1) | carry_bit);
    }

    /// ROR: rotates the accumulator or a byte of memory one place to the right
    /// through carry.
    pub fn ROR(&mut self, mode: &addressing_mode)
        requires
            old(self).wf(),
            mode.resolves() || *mode is Accumulator,
        ensures
            final(self).wf(),
            final(self)@ == old(self)@.ror(*mode),
    {
        proof {
            reveal(CpuState::ror);
        }
        let carry_bit: u8 = if flag_is_set(self.status, CARRY) { 0x80 } else { 0 };
        let (address, value) = self.fetch_shift_operand(mode);
        self.store_shift_result(mode, address, value & 0x01 != 0, (value >> 1) | carry_bit);
    }

    /// Adds `value` and the carry to the accumulator.
    fn add_to_accumulator(&mut self, value: u8)
        ensures
            final(self)@ == old(self)@.add_to_a(value),
    {
        let carry: u16 = if flag_is_set(self.status, CARRY) { 1 } else { 0 };
        let sum: u16 = (value as u16) + (self.register_a as u16) + carry;
        let result: u8 = if sum > 0xFF { (sum - 0x100) as u8 } else { sum as u8 };
        self.status = set_flag(self.status, CARRY, sum > 0xFF);
        self.status = set_flag(
            self.status,
            OVERFLOW,
            (!(self.register_a ^ value) & (self.register_a ^ result)) & 0x80 != 0,
        );
        self.register_a = result;
        self.update_negative_zero_flags(self.register_a);
    }

    /// ADC: adds the operand and the carry to the accumulator.
    pub fn ADC(&mut self, mode: &addressing_mode)
        requires
            old(self).wf(),
            mode.resolves(),
        ensures
            final(self).wf(),
            final(self)@ == old(self)@.adc(*mode),
    {
        proof {
            reveal(CpuState::adc);
        }
        let value: u8 = self.read_operand(mode);
        self.add_to_accumulator(value);
    }

    /// SBC: subtracts the operand and the borrow from the accumulator.
    pub fn SBC(&mut self, mode: &addressing_mode)
        requires
            old(self).wf(),
            mode.resolves(),
        ensures
            final(self).wf(),
            final(self)@ == old(self)@.sbc(*mode),
    {
        proof {
            reveal(CpuState::sbc);
        }
        let value: u8 = self.read_operand(mode);
        self.add_to_accumulator(value ^ 0xFF);
    }

    /// DCP: DEC, then the comparison of the accumulator with the result.
    pub fn DCP(&mut self, mode: &addressing_mode)
        requires
            old(self).wf(),
            mode.resolves(),
        ensures
            final(self).wf(),
            final(self)@ == old(self)@.dcp(*mode),
    {
        proof {
            reveal(CpuState::dcp);
        }
        let address: u16 = self.get_operand_address(mode);
        let mut value: u8 = self.memory_read(address);
        value = value.wrapping_sub(1);
        self.memory_write(address, value);
        self.set_compare_flags(self.register_a, value);
    }

    /// RLA: ROL, then AND.
    pub fn RLA(&mut self, mode: &addressing_mode)
        requires
            old(self).wf(),
            mode.resolves(),
        ensures
            final(self).wf(),
            final(self)@ == old(self)@.rla(*mode),
    {
        proof {
            reveal(CpuState::rla);
        }
        self.ROL(mode);
        self.AND(mode);
    }

    /// SLO: ASL, then ORA.
    pub fn SLO(&mut self, mode: &addressing_mode)
        requires
            old(self).wf(),
            mode.resolves(),
        ensures
            final(self).wf(),
            final(self)@ == old(self)@.slo(*mode),
    {
        proof {
            reveal(CpuState::slo);
        }
        self.ASL(mode);
        self.ORA(mode);
    }

    /// SRE: LSR, then EOR.
    pub fn SRE(&mut self, mode: &addressing_mode)
        requires
            old(self).wf(),
            mode.resolves(),
        ensures
            final(self).wf(),
            final(self)@ == old(self)@.sre(*mode),
    {
        proof {
            reveal(CpuState::sre);
        }
        self.LSR(mode);
        self.EOR(mode);
    }

    /// Enters the handler of an interrupt and says whether the clock raised
    /// the picture unit's interrupt line on the way.
    pub fn interrupt(&mut self, kind: InterruptType) -> (raised: bool)
        requires
            old(self).wf(),
        ensures
            final(self).wf(),
            final(self)@ == old(self)@.interrupt(kind),
            raised == old(self)@.interrupt_raises_nmi(kind),
    {
        proof {
            reveal(CpuState::interrupt);
            reveal(CpuState::interrupt_raises_nmi);
        }
        let pushed: u8 = kind.pushed_status(self.status);
        self.stack_push_u16(self.program_counter);
        self.stack_push(pushed);
        self.status = self.status | 0b0000_0100;
        let raised = self.bus.tick(kind.cycles());
        self.program_counter = self.memory_read_u16(kind.vector());
        raised
    }

    /// Takes the picture unit's pending interrupt, if there is one, and
    /// enters its handler. The result says whether the clock raised the line
    /// again on the way.
    pub fn service_nmi(&mut self) -> (raised: bool)
        requires
            old(self).wf(),
        ensures
            final(self).wf(),
            final(self)@ == old(self)@.service_nmi(),
            raised == old(self)@.service_nmi_raises_nmi(),
    {
        proof {
            reveal(CpuState::service_nmi);
            reveal(CpuState::service_nmi_raises_nmi);
        }
        match self.bus.poll_nmi_status() {
            Some(_nmi) => self.interrupt(InterruptType::NMI),
            None => false,
        }
    }

    /// Puts `value` in the accumulator and sets the flags from it.
    pub fn set_a(&mut self, value: u8)
        ensures
            final(self)@ == old(self)@.load_a(value),
    {
        self.register_a = value;
        self.update_negative_zero_flags(value);
    }

    /// Puts `value` in X and sets the flags from it.
    pub fn set_x(&mut self, value: u8)
        ensures
            final(self)@ == old(self)@.load_x(value),
    {
        self.register_x = value;
        self.update_negative_zero_flags(value);
    }

    /// Puts `value` in Y and sets the flags from it.
    pub fn set_y(&mut self, value: u8)
        ensures
            final(self)@ == old(self)@.load_y(value),
    {
        self.register_y = value;
        self.update_negative_zero_flags(value);
    }

    /// Moves the program counter on by `n`.
    pub fn advance(&mut self, n: u16)
        ensures
            final(self)@ == old(self)@.advance(n),
    {
        self.program_counter = self.program_counter.wrapping_add(n);
    }

    /// The address under the program counter plus `index`.
    fn indexed_absolute_address(&mut self, index: u8) -> (r: u16)
        requires
            old(self).wf(),
        ensures
            final(self).wf(),
            (final(self)@, r) == old(self)@.indexed_absolute(index),
    {
        let base: u16 = self.memory_read_u16(self.program_counter);
        base.wrapping_add(index as u16)
    }

    /// RRA: ROR, then ADC.
    pub fn RRA(&mut self, mode: &addressing_mode)
        requires
            old(self).wf(),
            mode.resolves(),
        ensures
            final(self).wf(),
            final(self)@ == old(self)@.rra(*mode),
    {
        proof {
            reveal(CpuState::rra);
        }
        self.ROR(mode);
        self.ADC(mode);
    }

    /// ISB: INC, then SBC.
    pub fn ISB(&mut self, mode: &addressing_mode)
        requires
            old(self).wf(),
            mode.resolves(),
        ensures
            final(self).wf(),
            final(self)@ == old(self)@.isb(*mode),
    {
        proof {
            reveal(CpuState::isb);
        }
        self.INC(mode);
        self.SBC(mode);
    }

    /// LAX: loads the accumulator and X with the operand.
    pub fn LAX(&mut self, mode: &addressing_mode)
        requires
            old(self).wf(),
            mode.resolves(),
        ensures
            final(self).wf(),
            final(self)@ == old(self)@.lax(*mode),
    {
        proof {
            reveal(CpuState::lax);
        }
        self.LDA(mode);
        self.register_x = self.register_a;
    }

    /// SAX: stores the accumulator masked by X.
    pub fn SAX(&mut self, mode: &addressing_mode)
        requires
            old(self).wf(),
            mode.resolves(),
        ensures
            final(self).wf(),
            final(self)@ == old(self)@.sax(*mode),
    {
        proof {
            reveal(CpuState::sax);
            reveal(CpuState::store);
        }
        let data: u8 = self.register_a & self.register_x;
        let address: u16 = self.get_operand_address(mode);
        self.memory_write(address, data);
    }

    /// AXS: puts the accumulator masked by X, minus the operand, in X.
    pub fn AXS(&mut self, mode: &addressing_mode)
        requires
            old(self).wf(),
            mode.resolves(),
        ensures
            final(self).wf(),
            final(self)@ == old(self)@.axs(*mode),
    {
        proof {
            reveal(CpuState::axs);
        }
        let data: u8 = self.read_operand(mode);
        let x_and_a: u8 = self.register_x & self.register_a;
        self.set_compare_flags(x_and_a, data);
        self.register_x = x_and_a.wrapping_sub(data);
    }

    /// ARR: AND, then ROR of the accumulator, with carry and overflow taken from
    /// bits 6 and 5 of the result.
    pub fn ARR(&mut self, mode: &addressing_mode)
        requires
            old(self).wf(),
            mode.resolves(),
        ensures
            final(self).wf(),
            final(self)@ == old(self)@.arr(*mode),
    {
        proof {
            reveal(CpuState::arr);
        }
        self.AND(mode);
        self.ROR(&addressing_mode::Accumulator);
        let result: u8 = self.register_a;
        let bit_5: u8 = (result >> 5) & 1;
        let bit_6: u8 = (result >> 6) & 1;
        self.status = set_flag(self.status, CARRY, bit_6 == 1);
        self.status = set_flag(self.status, OVERFLOW, bit_5 ^ bit_6 == 1);
        self.update_negative_zero_flags(result);
    }

    /// ANC: AND, then carry takes the negative flag.
    pub fn ANC(&mut self, mode: &addressing_mode)
        requires
            old(self).wf(),
            mode.resolves(),
        ensures
            final(self).wf(),
            final(self)@ == old(self)@.anc(*mode),
    {
        proof {
            reveal(CpuState::anc);
        }
        self.AND(mode);
        let negative = flag_is_set(self.status, NEGATIVE);
        self.status = set_flag(self.status, CARRY, negative);
    }

    /// ALR: AND, then LSR of the accumulator.
    pub fn ALR(&mut self, mode: &addressing_mode)
        requires
            old(self).wf(),
            mode.resolves(),
        ensures
            final(self).wf(),
            final(self)@ == old(self)@.alr(*mode),
    {
        proof {
            reveal(CpuState::alr);
        }
        self.AND(mode);
        self.LSR(&addressing_mode::Accumulator);
    }

    /// LXA: LDA, then X takes the accumulator.
    pub fn LXA(&mut self, mode: &addressing_mode)
        requires
            old(self).wf(),
            mode.resolves(),
        ensures
            final(self).wf(),
            final(self)@ == old(self)@.lxa(*mode),
    {
        proof {
            reveal(CpuState::lxa);
        }
        self.LDA(mode);
        self.set_x(self.register_a);
    }

    /// XAA: the accumulator takes X, then AND.
    pub fn XAA(&mut self, mode: &addressing_mode)
        requires
            old(self).wf(),
            mode.resolves(),
        ensures
            final(self).wf(),
            final(self)@ == old(self)@.xaa(*mode),
    {
        proof {
            reveal(CpuState::xaa);
        }
        self.set_a(self.register_x);
        self.AND(mode);
    }

    /// LAS: loads the accumulator, X and the stack pointer with the operand
    /// masked by the stack pointer.
    pub fn LAS(&mut self, mode: &addressing_mode)
        requires
            old(self).wf(),
            mode.resolves(),
        ensures
            final(self).wf(),
            final(self)@ == old(self)@.las(*mode),
    {
        proof {
            reveal(CpuState::las);
        }
        let mut data: u8 = self.read_operand(mode);
        data = data & self.stack_pointer;
        self.register_a = data;
        self.register_x = data;
        self.stack_pointer = data;
        self.update_negative_zero_flags(data);
    }

    /// TAS: puts the accumulator masked by X in the stack pointer and stores it
    /// masked by the high byte of the address plus one.
    pub fn TAS(&mut self)
        requires
            old(self).wf(),
        ensures
            final(self).wf(),
            final(self)@ == old(self)@.tas(),
    {
        proof {
            reveal(CpuState::tas);
        }
        let data: u8 = self.register_a & self.register_x;
        self.stack_pointer = data;
        let mem_address: u16 = self.indexed_absolute_address(self.register_y);
        let data: u8 = high_byte_of(mem_address).wrapping_add(1) & self.stack_pointer;
        self.memory_write(mem_address, data);
    }

    /// AHX with a pointer in page zero.
    pub fn AHX_indirect(&mut self)
        requires
            old(self).wf(),
        ensures
            final(self).wf(),
            final(self)@ == old(self)@.ahx_indirect(),
    {
        proof {
            reveal(CpuState::ahx_indirect);
        }
        let pos: u8 = self.memory_read(self.program_counter);
        let base: u16 = self.memory_read_u16(pos as u16);
        let mem_address: u16 = base.wrapping_add(self.register_y as u16);
        let data: u8 = self.register_a & self.register_x & high_byte_of(mem_address);
        self.memory_write(mem_address, data);
    }

    /// AHX with an absolute address.
    pub fn AHX_absolute(&mut self)
        requires
            old(self).wf(),
        ensures
            final(self).wf(),
            final(self)@ == old(self)@.ahx_absolute(),
    {
        proof {
            reveal(CpuState::ahx_absolute);
        }
        let mem_address: u16 = self.indexed_absolute_address(self.register_y);
        let data: u8 = self.register_a & self.register_x & high_byte_of(mem_address);
        self.memory_write(mem_address, data);
    }

    /// SHX: stores X masked by the high byte of the address plus one.
    pub fn SHX(&mut self)
        requires
            old(self).wf(),
        ensures
            final(self).wf(),
            final(self)@ == old(self)@.shx(),
    {
        proof {
            reveal(CpuState::shx);
        }
        let mem_address: u16 = self.indexed_absolute_address(self.register_y);
        let data: u8 = self.register_x & high_byte_of(mem_address).wrapping_add(1);
        self.memory_write(mem_address, data);
    }

    /// SHY: stores Y masked by the high byte of the address plus one.
    pub fn SHY(&mut self)
        requires
            old(self).wf(),
        ensures
            final(self).wf(),
            final(self)@ == old(self)@.shy(),
    {
        proof {
            reveal(CpuState::shy);
        }
        let mem_address: u16 = self.indexed_absolute_address(self.register_x);
        let data: u8 = self.register_y & high_byte_of(mem_address).wrapping_add(1);
        self.memory_write(mem_address, data);
    }

    /// PHP: pushes the status with the break and unused flags set.
    pub fn PHP(&mut self)
        requires
            old(self).wf(),
        ensures
            final(self).wf(),
            final(self)@ == old(self)@.php(),
    {
        proof {
            reveal(CpuState::php);
        }
        self.stack_push(self.status | 0b0011_0000);
    }

    /// PLA: pops the accumulator.
    pub fn PLA(&mut self)
        requires
            old(self).wf(),
        ensures
            final(self).wf(),
            final(self)@ == old(self)@.pla(),
    {
        proof {
            reveal(CpuState::pla);
        }
        let value: u8 = self.stack_pop();
        self.set_a(value);
    }

    /// PLP: pops the status, with the unused flag set and the break flag clear.
    pub fn PLP(&mut self)
        requires
            old(self).wf(),
        ensures
            final(self).wf(),
            final(self)@ == old(self)@.plp(),
    {
        proof {
            reveal(CpuState::plp);
        }
        let value: u8 = self.stack_pop();
        self.status = (value & 0b1110_1111) | 0b0010_0000;
    }

    /// RTI: pops the status as PLP does, then the program counter.
    pub fn RTI(&mut self)
        requires
            old(self).wf(),
        ensures
            final(self).wf(),
            final(self)@ == old(self)@.rti(),
    {
        proof {
            reveal(CpuState::rti);
        }
        self.PLP();
        self.program_counter = self.stack_pop_u16();
    }

    /// Executes an instruction whose opcode lies in `0x00..=0x3F`.
    fn execute_from_00(&mut self, code: u8)
        requires
            old(self).wf(),
            0x00 <= code <= 0x3F,
            code != 0x00,
        ensures
            final(self).wf(),
            final(self)@ == old(self)@.instructions_from_00(code),
    {
        proof {
            reveal(CpuState::instructions_from_00);
        }
        proof {
            row_is_consistent(code);
        }
        let row = opcode_lookup(code);
        let mode = row.address_mode;
        let rest: u16 = (row.bytes - 1) as u16;
        match code {
            0x01 | 0x05 | 0x09 | 0x0D | 0x11 | 0x15 | 0x19 | 0x1D => {
                self.ORA(&mode);
                self.advance(rest);
            },
            0x02 | 0x04 | 0x0C | 0x12 | 0x14 | 0x1A | 0x1C | 0x22 | 0x32 | 0x34 | 0x3A | 0x3C => {
                self.advance(rest);
            },
            0x03 | 0x07 | 0x0F | 0x13 | 0x17 | 0x1B | 0x1F => {
                self.SLO(&mode);
                self.advance(rest);
            },
            0x06 | 0x0A | 0x0E | 0x16 | 0x1E => {
                self.ASL(&mode);
                self.advance(rest);
            },
            0x08 => {
                self.PHP();
            },
            0x0B | 0x2B => {
                self.ANC(&mode);
                self.advance(rest);
            },
            0x10 => {
                self.BPL();
            },
            0x18 => {
                self.CLC();
            },
            0x20 => {
                self.JSR(&mode);
            },
            0x21 | 0x25 | 0x29 | 0x2D | 0x31 | 0x35 | 0x39 | 0x3D => {
                self.AND(&mode);
                self.advance(rest);
            },
            0x23 | 0x27 | 0x2F | 0x33 | 0x37 | 0x3B | 0x3F => {
                self.RLA(&mode);
                self.advance(rest);
            },
            0x24 | 0x2C => {
                self.BIT(&mode);
                self.advance(rest);
            },
            0x26 | 0x2A | 0x2E | 0x36 | 0x3E => {
                self.ROL(&mode);
                self.advance(rest);
            },
            0x28 => {
                self.PLP();
            },
            0x30 => {
                self.BMI();
            },
            0x38 => {
                self.set_status_flag(CARRY, true);
            },
            _ => {},
        }
    }

    /// Executes an instruction whose opcode lies in `0x40..=0x7F`.
    fn execute_from_40(&mut self, code: u8)
        requires
            old(self).wf(),
            0x40 <= code <= 0x7F,
            code != 0x00,
        ensures
            final(self).wf(),
            final(self)@ == old(self)@.instructions_from_40(code),
    {
        proof {
            reveal(CpuState::instructions_from_40);
        }
        proof {
            row_is_consistent(code);
        }
        let row = opcode_lookup(code);
        let mode = row.address_mode;
        let rest: u16 = (row.bytes - 1) as u16;
        match code {
            0x42 | 0x44 | 0x52 | 0x54 | 0x5A | 0x5C | 0x62 | 0x64 | 0x72 | 0x74 | 0x7A | 0x7C => {
                self.advance(rest);
            },
            0x40 => {
                self.RTI();
            },
            0x41 | 0x45 | 0x49 | 0x4D | 0x51 | 0x55 | 0x59 | 0x5D => {
                self.EOR(&mode);
                self.advance(rest);
            },
            0x43 | 0x47 | 0x4F | 0x53 | 0x57 | 0x5B | 0x5F => {
                self.SRE(&mode);
                self.advance(rest);
            },
            0x46 | 0x4A | 0x4E | 0x56 | 0x5E => {
                self.LSR(&mode);
                self.advance(rest);
            },
            0x48 => {
                self.stack_push(self.register_a);
            },
            0x4B => {
                self.ALR(&mode);
                self.advance(rest);
            },
            0x4C | 0x6C => {
                self.JMP(&mode);
            },
            0x50 => {
                self.BVC();
            },
            0x58 => {
                self.CLI();
            },
            0x60 => {
                self.RTS();
            },
            0x61 | 0x65 | 0x69 | 0x6D | 0x71 | 0x75 | 0x79 | 0x7D => {
                self.ADC(&mode);
                self.advance(rest);
            },
            0x63 | 0x67 | 0x6F | 0x73 | 0x77 | 0x7B | 0x7F => {
                self.RRA(&mode);
                self.advance(rest);
            },
            0x66 | 0x6A | 0x6E | 0x76 | 0x7E => {
                self.ROR(&mode);
                self.advance(rest);
            },
            0x68 => {
                self.PLA();
            },
            0x6B => {
                self.ARR(&mode);
                self.advance(rest);
            },
            0x70 => {
                self.BVS();
            },
            0x78 => {
                self.set_status_flag(INTERRUPT_DISABLE, true);
            },
            _ => {},
        }
    }

    /// Executes an instruction whose opcode lies in `0x80..=0xBF`.
    fn execute_from_80(&mut self, code: u8)
        requires
            old(self).wf(),
            0x80 <= code <= 0xBF,
            code != 0x00,
        ensures
            final(self).wf(),
            final(self)@ == old(self)@.instructions_from_80(code),
    {
        proof {
            reveal(CpuState::instructions_from_80);
        }
        proof {
            row_is_consistent(code);
        }
        let row = opcode_lookup(code);
        let mode = row.address_mode;
        let rest: u16 = (row.bytes - 1) as u16;
        match code {
            0x80 | 0x82 | 0x89 | 0x92 | 0xB2 => {
                self.advance(rest);
            },
            0x81 | 0x85 | 0x8D | 0x91 | 0x95 | 0x99 | 0x9D => {
                self.STA(&mode);
                self.advance(rest);
            },
            0x83 | 0x87 | 0x8F | 0x97 => {
                self.SAX(&mode);
                self.advance(rest);
            },
            0x84 | 0x8C | 0x94 => {
                self.STY(&mode);
                self.advance(rest);
            },
            0x86 | 0x8E | 0x96 => {
                self.STX(&mode);
                self.advance(rest);
            },
            0x88 => {
                self.set_y(self.register_y.wrapping_sub(1));
            },
            0x8A => {
                self.set_a(self.register_x);
            },
            0x8B => {
                self.XAA(&mode);
                self.advance(rest);
            },
            0x90 => {
                self.BCC();
            },
            0x93 => {
                self.AHX_indirect();
                self.advance(rest);
            },
            0x98 => {
                self.set_a(self.register_y);
            },
            0x9A => {
                self.stack_pointer = self.register_x;
            },
            0x9B => {
                self.TAS();
                self.advance(rest);
            },
            0x9C => {
                self.SHY();
                self.advance(rest);
            },
            0x9E => {
                self.SHX();
                self.advance(rest);
            },
            0x9F => {
                self.AHX_absolute();
                self.advance(rest);
            },
            0xA0 | 0xA4 | 0xAC | 0xB4 | 0xBC => {
                self.LDY(&mode);
                self.advance(rest);
            },
            0xA1 | 0xA5 | 0xA9 | 0xAD | 0xB1 | 0xB5 | 0xB9 | 0xBD => {
                self.LDA(&mode);
                self.advance(rest);
            },
            0xA2 | 0xA6 | 0xAE | 0xB6 | 0xBE => {
                self.LDX(&mode);
                self.advance(rest);
            },
            0xA3 | 0xA7 | 0xAF | 0xB3 | 0xB7 | 0xBF => {
                self.LAX(&mode);
                self.advance(rest);
            },
            0xA8 => {
                self.set_y(self.register_a);
            },
            0xAA => {
                self.set_x(self.register_a);
            },
            0xAB => {
                self.LXA(&mode);
                self.advance(rest);
            },
            0xB0 => {
                self.BCS();
            },
            0xB8 => {
                self.CLV();
            },
            0xBA => {
                self.set_x(self.stack_pointer);
            },
            0xBB => {
                self.LAS(&mode);
                self.advance(rest);
            },
            _ => {},
        }
    }

    /// Executes an instruction whose opcode lies in `0xC0..=0xFF`.
    fn execute_from_c0(&mut self, code: u8)
        requires
            old(self).wf(),
            0xC0 <= code <= 0xFF,
            code != 0x00,
        ensures
            final(self).wf(),
            final(self)@ == old(self)@.instructions_from_c0(code),
    {
        proof {
            reveal(CpuState::instructions_from_c0);
        }
        proof {
            row_is_consistent(code);
        }
        let row = opcode_lookup(code);
        let mode = row.address_mode;
        let rest: u16 = (row.bytes - 1) as u16;
        match code {
            0xC2 | 0xD2 | 0xD4 | 0xDA | 0xDC | 0xE2 | 0xEA | 0xF2 | 0xF4 | 0xFA | 0xFC => {
                self.advance(rest);
            },
            0xC0 | 0xC4 | 0xCC => {
                self.compare(&mode, self.register_y);
                self.advance(rest);
            },
            0xC1 | 0xC5 | 0xC9 | 0xCD | 0xD1 | 0xD5 | 0xD9 | 0xDD => {
                self.compare(&mode, self.register_a);
                self.advance(rest);
            },
            0xC3 | 0xC7 | 0xCF | 0xD3 | 0xD7 | 0xDB | 0xDF => {
                self.DCP(&mode);
                self.advance(rest);
            },
            0xC6 | 0xCE | 0xD6 | 0xDE => {
                self.DEC(&mode);
                self.advance(rest);
            },
            0xC8 => {
                self.set_y(self.register_y.wrapping_add(1));
            },
            0xCA => {
                self.set_x(self.register_x.wrapping_sub(1));
            },
            0xCB => {
                self.AXS(&mode);
                self.advance(rest);
            },
            0xD0 => {
                self.BNE();
            },
            0xD8 => {
                self.CLD();
            },
            0xE0 | 0xE4 | 0xEC => {
                self.compare(&mode, self.register_x);
                self.advance(rest);
            },
            0xE1 | 0xE5 | 0xE9 | 0xEB | 0xED | 0xF1 | 0xF5 | 0xF9 | 0xFD => {
                self.SBC(&mode);
                self.advance(rest);
            },
            0xE3 | 0xE7 | 0xEF | 0xF3 | 0xF7 | 0xFB | 0xFF => {
                self.ISB(&mode);
                self.advance(rest);
            },
            0xE6 | 0xEE | 0xF6 | 0xFE => {
                self.INC(&mode);
                self.advance(rest);
            },
            0xE8 => {
                self.set_x(self.register_x.wrapping_add(1));
            },
            0xF0 => {
                self.BEQ();
            },
            0xF8 => {
                self.set_status_flag(DECIMAL, true);
            },
            _ => {},
        }
    }

    /// Executes the instruction with opcode `code`, which has just been
    /// fetched.
    pub fn execute_instruction(&mut self, code: u8)
        requires
            old(self).wf(),
            code != 0x00,
        ensures
            final(self).wf(),
            final(self)@ == old(self)@.execute_instruction(code),
    {
        if code < 0x40 {
            self.execute_from_00(code);
        } else if code < 0x80 {
            self.execute_from_40(code);
        } else if code < 0xC0 {
            self.execute_from_80(code);
        } else {
            self.execute_from_c0(code);
        }
    }

    /// Executes one instruction and runs the clock for the cycles it took.
    pub fn step(&mut self) -> (outcome: StepOutcome)
        requires
            old(self).wf(),
        ensures
            final(self).wf(),
            final(self)@ == old(self)@.step(),
            outcome.halted == old(self)@.step_halts(),
            outcome.nmi_raised == old(self)@.step_raises_nmi(),
    {
        proof {
            reveal(CpuState::step);
            reveal(CpuState::step_halts);
            reveal(CpuState::step_raises_nmi);
        }
        self.additional_cycles = 0;
        let opcode: u8 = self.memory_read(self.program_counter);
        self.program_counter = self.program_counter.wrapping_add(1);
        if opcode == 0x00 {
            let nmi_raised = self.interrupt(InterruptType::BRK);
            return StepOutcome { halted: true, nmi_raised };
        }
        self.execute_instruction(opcode);
        let opcode_cycles: u8 = opcode_lookup(opcode).cycles;
        let nmi_raised = self.bus.tick(opcode_cycles.wrapping_add(self.additional_cycles));
        StepOutcome { halted: false, nmi_raised }
    }

    /// Runs at most `max_steps` instructions, serving the picture unit's
    /// interrupt before each, and says whether the run ended with `BRK`.
    pub fn execute(&mut self, max_steps: usize) -> (halted: bool)
        requires
            old(self).wf(),
        ensures
            final(self).wf(),
            (final(self)@, halted) == old(self)@.run(max_steps as nat),
    {
        let mut i: usize = 0;
        while i < max_steps
            invariant
                i <= max_steps,
                self.wf(),
                old(self)@.run(max_steps as nat) == self@.run((max_steps - i) as nat),
            decreases max_steps - i,
        {
            self.service_nmi();
            let outcome = self.step();
            if outcome.halted {
                return true;
            }
            i += 1;
        }
        false
    }

    /// Writes `program` into memory from `starting_addr` on.
    pub fn load(&mut self, program: Vec<u8>, starting_addr: u16)
        requires
            old(self).wf(),
            starting_addr + program.len() <= 0x10000,
        ensures
            final(self).wf(),
            final(self)@ == old(self)@.load(program@, starting_addr, program.len() as nat),
    {
        let mut i: usize = 0;
        while i < program.len()
            invariant
                i <= program.len(),
                starting_addr + program.len() <= 0x10000,
                self.wf(),
                self@ == old(self)@.load(program@, starting_addr, i as nat),
            decreases program.len() - i,
        {
            self.memory_write(starting_addr + (i as u16), program[i]);
            i += 1;
        }
    }

    /// Writes `program` into memory from `starting_addr` on, resets the
    /// processor and runs at most `max_steps` instructions.
    pub fn load_and_execute(
        &mut self,
        program: Vec<u8>,
        starting_addr: u16,
        max_steps: usize,
    ) -> (halted: bool)
        requires
            old(self).wf(),
            starting_addr + program.len() <= 0x10000,
        ensures
            final(self).wf(),
            (final(self)@, halted) == old(self)@.load(
                program@,
                starting_addr,
                program.len() as nat,
            ).reset().run(max_steps as nat),
    {
        self.load(program, starting_addr);
        self.reset();
        self.execute(max_steps)
    }
}

} // verus!
