//! The processor as a mathematical value, and what each instruction makes of it.
//!
//! Every function here is a specification: it takes the machine before an
//! operation and gives the machine after it. Reads go through the bus and may
//! change it, so a read gives back the machine together with the byte.

use vstd::prelude::*;
use crate::bus::BusState;
use crate::instructions::{addressing_mode, opcode_row};
use crate::mem::{high_byte, low_byte, word};
use crate::registers::with_flag;

verus! {

/// Carry flag.
pub const CARRY: u8 = 0b0000_0001;

/// Zero flag.
pub const ZERO: u8 = 0b0000_0010;

/// Interrupt-disable flag.
pub const INTERRUPT_DISABLE: u8 = 0b0000_0100;

/// Decimal flag; it can be set and cleared, and arithmetic ignores it.
pub const DECIMAL: u8 = 0b0000_1000;

/// Break flag; it has a meaning only in a copy of the status on the stack.
pub const BREAK: u8 = 0b0001_0000;

/// The flag that is always set in the register.
pub const UNUSED: u8 = 0b0010_0000;

/// Overflow flag.
pub const OVERFLOW: u8 = 0b0100_0000;

/// Negative flag.
pub const NEGATIVE: u8 = 0b1000_0000;

/// The stack pointer after a reset.
pub const STACK_RESET: u8 = 0xFD;

/// The status after a reset: interrupts disabled, the unused flag set.
pub const STATUS_RESET: u8 = 0b0010_0100;

/// Where the reset vector is kept.
pub const RESET_VECTOR: u16 = 0xFFFC;

/// Where execution starts when the reset vector holds 0.
pub const DEFAULT_START: u16 = 0x8000;

/// The two interrupts that the processor serves.
#[derive(Clone, Copy, Debug, PartialEq, Eq, Structural)]
pub enum InterruptType {
    NMI,
    BRK,
}

impl InterruptType {
    /// Where the address of the handler is kept.
    pub open spec fn spec_vector(self) -> u16 {
        match self {
            InterruptType::NMI => 0xFFFA,
            InterruptType::BRK => 0xFFFE,
        }
    }

    /// The cycles that entering the handler takes.
    pub open spec fn spec_cycles(self) -> u8 {
        match self {
            InterruptType::NMI => 2,
            InterruptType::BRK => 1,
        }
    }

    /// The copy of `status` that goes on the stack: the unused flag set, the
    /// break flag set for `BRK` and clear for `NMI`.
    pub open spec fn spec_pushed_status(self, status: u8) -> u8 {
        match self {
            InterruptType::NMI => (status & 0b1110_1111) | 0b0010_0000,
            InterruptType::BRK => status | 0b0011_0000,
        }
    }

    /// Where the address of the handler is kept.
    pub fn vector(&self) -> (r: u16)
        ensures
            r == self.spec_vector(),
    {
        match self {
            InterruptType::NMI => 0xFFFA,
            InterruptType::BRK => 0xFFFE,
        }
    }

    /// The cycles that entering the handler takes.
    pub fn cycles(&self) -> (r: u8)
        ensures
            r == self.spec_cycles(),
    {
        match self {
            InterruptType::NMI => 2,
            InterruptType::BRK => 1,
        }
    }

    /// The copy of `status` that goes on the stack.
    pub fn pushed_status(&self, status: u8) -> (r: u8)
        ensures
            r == self.spec_pushed_status(status),
    {
        match self {
            InterruptType::NMI => (status & 0b1110_1111) | 0b0010_0000,
            InterruptType::BRK => status | 0b0011_0000,
        }
    }
}

/// Whether a bit of `mask` is set in `status`.
pub open spec fn flag(status: u8, mask: u8) -> bool {
    status & mask != 0
}

/// `status` with the zero flag set if `value` is 0 and the negative flag set
/// if bit 7 of `value` is.
pub open spec fn with_nz(status: u8, value: u8) -> u8 {
    with_flag(with_flag(status, ZERO, value == 0), NEGATIVE, value & 0x80 != 0)
}

/// `a + b` modulo 256.
pub open spec fn add8(a: u8, b: u8) -> u8 {
    vstd::wrapping::u8_specs::wrapping_add(a, b)
}

/// `a - b` modulo 256.
pub open spec fn sub8(a: u8, b: u8) -> u8 {
    vstd::wrapping::u8_specs::wrapping_sub(a, b)
}

/// `a + b` modulo 65536.
pub open spec fn add16(a: u16, b: u16) -> u16 {
    vstd::wrapping::u16_specs::wrapping_add(a, b)
}

/// `a - b` modulo 65536.
pub open spec fn sub16(a: u16, b: u16) -> u16 {
    vstd::wrapping::u16_specs::wrapping_sub(a, b)
}

/// The two addresses lie on different pages of 256 bytes.
pub open spec fn page_crossed(a: u16, b: u16) -> bool {
    (a & 0xFF00) != (b & 0xFF00)
}

/// `pc` moved by `offset` read as a signed byte, modulo 65536.
pub open spec fn branch_target(pc: u16, offset: u8) -> u16 {
    if offset < 128 {
        add16(pc, offset as u16)
    } else {
        sub16(pc, (256 - offset) as u16)
    }
}

/// 1 if the carry flag is set in `status`, 0 if not.
pub open spec fn carry_in(status: u8) -> int {
    if flag(status, CARRY) {
        1
    } else {
        0
    }
}

/// The sum that an addition with carry leaves in the accumulator.
pub open spec fn adc_result(a: u8, m: u8, status: u8) -> u8 {
    ((a + m + carry_in(status)) % 256) as u8
}

/// The status after an addition with carry of `m` to `a`: carry if the sum
/// passes 255, overflow if both operands have the sign that the result lacks,
/// zero and negative from the result.
pub open spec fn adc_status(a: u8, m: u8, status: u8) -> u8 {
    let r = adc_result(a, m, status);
    with_nz(
        with_flag(
            with_flag(status, CARRY, a + m + carry_in(status) > 255),
            OVERFLOW,
            (!(a ^ m) & (a ^ r)) & 0x80 != 0,
        ),
        r,
    )
}

/// The status after a comparison of `register` with `m`.
pub open spec fn compare_status(status: u8, register: u8, m: u8) -> u8 {
    with_flag(with_nz(status, sub8(register, m)), CARRY, register >= m)
}

/// The processor and the bus it holds.
pub struct CpuState {
    pub register_a: u8,
    pub register_x: u8,
    pub register_y: u8,
    pub program_counter: u16,
    pub stack_pointer: u8,
    pub status: u8,
    pub bus: BusState,
    pub additional_cycles: u8,
}

impl CpuState {
    /// See [`BusState::wf`].
    pub open spec fn wf(self) -> bool {
        self.bus.wf()
    }

    /// A read of one byte.
    pub open spec fn read(self, addr: u16) -> (CpuState, u8) {
        (CpuState { bus: self.bus.after_read(addr), ..self }, self.bus.read_value(addr))
    }

    /// A write of one byte.
    pub open spec fn write(self, addr: u16, value: u8) -> CpuState {
        CpuState { bus: self.bus.after_write(addr, value), ..self }
    }

    /// A read of two bytes, low byte first.
    pub open spec fn read_u16(self, addr: u16) -> (CpuState, u16) {
        (CpuState { bus: self.bus.after_read_u16(addr), ..self }, self.bus.read_u16_value(addr))
    }

    /// A write of two bytes, low byte first.
    pub open spec fn write_u16(self, addr: u16, value: u16) -> CpuState {
        CpuState { bus: self.bus.after_write_u16(addr, value), ..self }
    }

    /// The clock runs for `ticks` cycles.
    pub open spec fn tick(self, ticks: u8) -> CpuState {
        CpuState { bus: self.bus.after_tick(ticks), ..self }
    }

    /// The machine after a reset: registers cleared, the stack pointer and
    /// the status at their reset values, execution at the address in the
    /// reset vector, or at `$8000` if the vector holds 0.
    #[verifier::opaque]
    pub open spec fn reset(self) -> CpuState {
        let (s, pc) = self.read_u16(RESET_VECTOR);
        CpuState {
            register_a: 0,
            register_x: 0,
            register_y: 0,
            stack_pointer: STACK_RESET,
            status: STATUS_RESET,
            program_counter: if pc == 0 {
                DEFAULT_START
            } else {
                pc
            },
            ..s
        }
    }

    /// The address of the stack cell that the stack pointer names.
    pub open spec fn stack_address(self) -> u16 {
        (0x100 + self.stack_pointer) as u16
    }

    /// A push: the byte is stored under the stack pointer, which then moves down.
    pub open spec fn push(self, value: u8) -> CpuState {
        CpuState {
            stack_pointer: sub8(self.stack_pointer, 1),
            ..self.write(self.stack_address(), value)
        }
    }

    /// A pop: the stack pointer moves up, then the byte under it is read.
    pub open spec fn pop(self) -> (CpuState, u8) {
        (CpuState { stack_pointer: add8(self.stack_pointer, 1), ..self }).read(
            (0x100 + add8(self.stack_pointer, 1)) as u16,
        )
    }

    /// A push of two bytes, high byte first.
    pub open spec fn push_u16(self, data: u16) -> CpuState {
        self.push(high_byte(data)).push(low_byte(data))
    }

    /// A pop of two bytes, low byte first.
    pub open spec fn pop_u16(self) -> (CpuState, u16) {
        let (s1, lo) = self.pop();
        let (s2, hi) = s1.pop();
        (s2, word(lo, hi))
    }

    /// The zero and negative flags follow `value`.
    pub open spec fn nz(self, value: u8) -> CpuState {
        CpuState { status: with_nz(self.status, value), ..self }
    }

    /// One flag is set or cleared.
    pub open spec fn set(self, mask: u8, on: bool) -> CpuState {
        CpuState { status: with_flag(self.status, mask, on), ..self }
    }

    /// The program counter moves on by `n`, modulo 65536.
    pub open spec fn advance(self, n: u16) -> CpuState {
        CpuState { program_counter: add16(self.program_counter, n), ..self }
    }

    /// One more cycle is owed if going from `base` to `addr` crossed a page.
    pub open spec fn page_penalty(self, base: u16, addr: u16) -> CpuState {
        if page_crossed(addr, base) {
            CpuState { additional_cycles: add8(self.additional_cycles, 1), ..self }
        } else {
            self
        }
    }

    /// The address of the operand, the program counter being on the first
    /// byte after the opcode.
    ///
    /// | Mode         | Address                                               |
    /// |--------------|-------------------------------------------------------|
    /// | Immediate    | the program counter                                   |
    /// | ZeroPage     | the byte there                                        |
    /// | ZeroPage,X/Y | that byte plus the index, modulo 256                  |
    /// | Absolute     | the two bytes there                                   |
    /// | Absolute,X/Y | those plus the index, modulo 65536                    |
    /// | Indirect     | the two bytes at the address there; the second is taken from the same page when the first is the last of its page |
    /// | (Indirect,X) | the two bytes in page zero at the byte there plus X   |
    /// | (Indirect),Y | the two bytes in page zero at the byte there, plus Y  |
    ///
    /// The three modes that add an index to a 16-bit base owe a cycle when
    /// the sum lies on another page than the base.
    #[verifier::opaque]
    pub open spec fn operand_address(self, mode: addressing_mode) -> (CpuState, u16) {
        let pc = self.program_counter;
        match mode {
            addressing_mode::Immediate => (self, pc),
            addressing_mode::ZeroPage => {
                let (s, b) = self.read(pc);
                (s, b as u16)
            },
            addressing_mode::ZeroPage_X => {
                let (s, b) = self.read(pc);
                (s, add8(b, self.register_x) as u16)
            },
            addressing_mode::ZeroPage_Y => {
                let (s, b) = self.read(pc);
                (s, add8(b, self.register_y) as u16)
            },
            addressing_mode::Absolute => self.read_u16(pc),
            addressing_mode::Absolute_X => {
                let (s, base) = self.read_u16(pc);
                let addr = add16(base, self.register_x as u16);
                (s.page_penalty(base, addr), addr)
            },
            addressing_mode::Absolute_Y => {
                let (s, base) = self.read_u16(pc);
                let addr = add16(base, self.register_y as u16);
                (s.page_penalty(base, addr), addr)
            },
            addressing_mode::Indirect => {
                let (s, ptr) = self.read_u16(pc);
                if ptr & 0x00FF == 0x00FF {
                    let (s1, lo) = s.read(ptr);
                    let (s2, hi) = s1.read(ptr & 0xFF00);
                    (s2, word(lo, hi))
                } else {
                    s.read_u16(ptr)
                }
            },
            addressing_mode::Indirect_X => {
                let (s, b) = self.read(pc);
                let ptr = add8(b, self.register_x);
                let (s1, lo) = s.read(ptr as u16);
                let (s2, hi) = s1.read(add8(ptr, 1) as u16);
                (s2, word(lo, hi))
            },
            addressing_mode::Indirect_Y => {
                let (s, b) = self.read(pc);
                let (s1, lo) = s.read(b as u16);
                let (s2, hi) = s1.read(add8(b, 1) as u16);
                let base = word(lo, hi);
                let addr = add16(base, self.register_y as u16);
                (s2.page_penalty(base, addr), addr)
            },
            _ => (self, 0),
        }
    }

    /// The operand: the byte at the operand's address.
    #[verifier::opaque]
    pub open spec fn operand(self, mode: addressing_mode) -> (CpuState, u8) {
        let (s, addr) = self.operand_address(mode);
        s.read(addr)
    }

    /// A taken branch: the program counter moves by the signed byte under
    /// it; that costs a cycle, and one more if it leaves the page.
    #[verifier::opaque]
    pub open spec fn branch(self) -> CpuState {
        let (s, offset) = self.read(self.program_counter);
        let target = branch_target(self.program_counter, offset);
        CpuState {
            program_counter: target,
            additional_cycles: if page_crossed(self.program_counter, target) {
                add8(add8(self.additional_cycles, 1), 1)
            } else {
                add8(self.additional_cycles, 1)
            },
            ..s
        }
    }

    /// A branch instruction: the branch is taken if `taken` holds, and the
    /// program counter then steps over the offset byte.
    pub open spec fn branch_if(self, taken: bool) -> CpuState {
        (if taken {
            self.branch()
        } else {
            self
        }).advance(1)
    }

    /// LDA: the accumulator takes the operand.
    #[verifier::opaque]
    pub open spec fn lda(self, mode: addressing_mode) -> CpuState {
        let (s, v) = self.operand(mode);
        (CpuState { register_a: v, ..s }).nz(v)
    }

    /// LDX: X takes the operand.
    #[verifier::opaque]
    pub open spec fn ldx(self, mode: addressing_mode) -> CpuState {
        let (s, v) = self.operand(mode);
        (CpuState { register_x: v, ..s }).nz(v)
    }

    /// LDY: Y takes the operand.
    #[verifier::opaque]
    pub open spec fn ldy(self, mode: addressing_mode) -> CpuState {
        let (s, v) = self.operand(mode);
        (CpuState { register_y: v, ..s }).nz(v)
    }

    /// A store of `value` at the operand's address.
    #[verifier::opaque]
    pub open spec fn store(self, mode: addressing_mode, value: u8) -> CpuState {
        let (s, addr) = self.operand_address(mode);
        s.write(addr, value)
    }

    /// STA: the accumulator is stored.
    pub open spec fn sta(self, mode: addressing_mode) -> CpuState {
        self.store(mode, self.register_a)
    }

    /// STX: X is stored.
    pub open spec fn stx(self, mode: addressing_mode) -> CpuState {
        self.store(mode, self.register_x)
    }

    /// STY: Y is stored.
    pub open spec fn sty(self, mode: addressing_mode) -> CpuState {
        self.store(mode, self.register_y)
    }

    /// The accumulator takes `value`, and the flags follow it.
    pub open spec fn load_a(self, value: u8) -> CpuState {
        (CpuState { register_a: value, ..self }).nz(value)
    }

    /// AND: the accumulator is masked by the operand.
    #[verifier::opaque]
    pub open spec fn and(self, mode: addressing_mode) -> CpuState {
        let (s, v) = self.operand(mode);
        s.load_a(self.register_a & v)
    }

    /// ORA: the operand's bits are set in the accumulator.
    #[verifier::opaque]
    pub open spec fn ora(self, mode: addressing_mode) -> CpuState {
        let (s, v) = self.operand(mode);
        s.load_a(v | self.register_a)
    }

    /// EOR: the operand's bits are flipped in the accumulator.
    #[verifier::opaque]
    pub open spec fn eor(self, mode: addressing_mode) -> CpuState {
        let (s, v) = self.operand(mode);
        s.load_a(v ^ self.register_a)
    }

    /// BIT: zero from the accumulator masked by the operand, negative and
    /// overflow from bits 7 and 6 of the operand.
    #[verifier::opaque]
    pub open spec fn bit(self, mode: addressing_mode) -> CpuState {
        let (s, v) = self.operand(mode);
        s.set(ZERO, self.register_a & v == 0).set(NEGATIVE, v & 0x80 != 0).set(
            OVERFLOW,
            v & 0x40 != 0,
        )
    }

    /// What a shift or rotate works on: the accumulator, or the byte at the
    /// operand's address. The address is 0 for the accumulator.
    pub open spec fn shift_operand(self, mode: addressing_mode) -> (CpuState, u16, u8) {
        if mode is Accumulator {
            (self, 0, self.register_a)
        } else {
            let (s, addr) = self.operand_address(mode);
            let (s1, v) = s.read(addr);
            (s1, addr, v)
        }
    }

    /// The result of a shift or rotate goes back where the operand came
    /// from, with `carry` in the carry flag and zero and negative from it.
    pub open spec fn shift_result(
        self,
        mode: addressing_mode,
        addr: u16,
        carry: bool,
        value: u8,
    ) -> CpuState {
        let s = self.set(CARRY, carry);
        (if mode is Accumulator {
            CpuState { register_a: value, ..s }
        } else {
            s.write(addr, value)
        }).nz(value)
    }

    /// ASL: one place to the left; bit 7 goes to carry.
    #[verifier::opaque]
    pub open spec fn asl(self, mode: addressing_mode) -> CpuState {
        let (s, addr, v) = self.shift_operand(mode);
        s.shift_result(mode, addr, v & 0x80 != 0, v << 1)
    }

    /// LSR: one place to the right; bit 0 goes to carry.
    #[verifier::opaque]
    pub open spec fn lsr(self, mode: addressing_mode) -> CpuState {
        let (s, addr, v) = self.shift_operand(mode);
        s.shift_result(mode, addr, v & 0x01 != 0, v >> 1)
    }

    /// ROL: one place to the left through carry.
    #[verifier::opaque]
    pub open spec fn rol(self, mode: addressing_mode) -> CpuState {
        let (s, addr, v) = self.shift_operand(mode);
        s.shift_result(
            mode,
            addr,
            v & 0x80 != 0,
            (v << 1) | (if flag(self.status, CARRY) {
                0x01u8
            } else {
                0u8
            }),
        )
    }

    /// ROR: one place to the right through carry.
    #[verifier::opaque]
    pub open spec fn ror(self, mode: addressing_mode) -> CpuState {
        let (s, addr, v) = self.shift_operand(mode);
        s.shift_result(
            mode,
            addr,
            v & 0x01 != 0,
            (v >> 1) | (if flag(self.status, CARRY) {
                0x80u8
            } else {
                0u8
            }),
        )
    }

    /// The accumulator takes the sum of itself, `m` and the carry.
    pub open spec fn add_to_a(self, m: u8) -> CpuState {
        CpuState {
            register_a: adc_result(self.register_a, m, self.status),
            status: adc_status(self.register_a, m, self.status),
            ..self
        }
    }

    /// ADC: addition with carry.
    #[verifier::opaque]
    pub open spec fn adc(self, mode: addressing_mode) -> CpuState {
        let (s, v) = self.operand(mode);
        s.add_to_a(v)
    }

    /// SBC: subtraction with borrow, which is the addition of the operand's
    /// complement.
    #[verifier::opaque]
    pub open spec fn sbc(self, mode: addressing_mode) -> CpuState {
        let (s, v) = self.operand(mode);
        s.add_to_a(v ^ 0xFF)
    }

    /// CMP, CPX, CPY: the flags of `register` minus the operand.
    #[verifier::opaque]
    pub open spec fn compare(self, mode: addressing_mode, register: u8) -> CpuState {
        let (s, v) = self.operand(mode);
        CpuState { status: compare_status(s.status, register, v), ..s }
    }

    /// The byte at the operand's address goes up or down by one.
    #[verifier::opaque]
    pub open spec fn step_memory(self, mode: addressing_mode, up: bool) -> CpuState {
        let (s, addr) = self.operand_address(mode);
        let (s1, v) = s.read(addr);
        let r = if up {
            add8(v, 1)
        } else {
            sub8(v, 1)
        };
        s1.write(addr, r).nz(r)
    }

    /// INC.
    pub open spec fn inc(self, mode: addressing_mode) -> CpuState {
        self.step_memory(mode, true)
    }

    /// DEC.
    pub open spec fn dec(self, mode: addressing_mode) -> CpuState {
        self.step_memory(mode, false)
    }

    /// JMP: execution goes on at the operand's address.
    #[verifier::opaque]
    pub open spec fn jmp(self, mode: addressing_mode) -> CpuState {
        let (s, addr) = self.operand_address(mode);
        CpuState { program_counter: addr, ..s }
    }

    /// JSR: the address of the instruction's last byte is pushed, and
    /// execution goes on at the address that follows the opcode.
    #[verifier::opaque]
    pub open spec fn jsr(self) -> CpuState {
        let s = self.push_u16(add16(self.program_counter, 1));
        let (s1, target) = s.read_u16(self.program_counter);
        CpuState { program_counter: target, ..s1 }
    }

    /// RTS: execution goes on after the address that is popped.
    #[verifier::opaque]
    pub open spec fn rts(self) -> CpuState {
        let (s, addr) = self.pop_u16();
        CpuState { program_counter: add16(addr, 1), ..s }
    }

    /// PLP: the status is popped, with the unused flag set and the break
    /// flag clear.
    #[verifier::opaque]
    pub open spec fn plp(self) -> CpuState {
        let (s, v) = self.pop();
        CpuState { status: (v & 0b1110_1111) | 0b0010_0000, ..s }
    }

    /// RTI: the status is popped as by PLP, then the program counter.
    #[verifier::opaque]
    pub open spec fn rti(self) -> CpuState {
        let (s, addr) = self.plp().pop_u16();
        CpuState { program_counter: addr, ..s }
    }

    /// PHP: the status is pushed with the break and unused flags set.
    #[verifier::opaque]
    pub open spec fn php(self) -> CpuState {
        self.push(self.status | 0b0011_0000)
    }

    /// PLA: the accumulator is popped.
    #[verifier::opaque]
    pub open spec fn pla(self) -> CpuState {
        let (s, v) = self.pop();
        s.load_a(v)
    }

    /// X takes `value`, and the flags follow it.
    pub open spec fn load_x(self, value: u8) -> CpuState {
        (CpuState { register_x: value, ..self }).nz(value)
    }

    /// Y takes `value`, and the flags follow it.
    pub open spec fn load_y(self, value: u8) -> CpuState {
        (CpuState { register_y: value, ..self }).nz(value)
    }

    /// DCP: DEC, then the comparison of the accumulator with the result.
    #[verifier::opaque]
    pub open spec fn dcp(self, mode: addressing_mode) -> CpuState {
        let (s, addr) = self.operand_address(mode);
        let (s1, v) = s.read(addr);
        let r = sub8(v, 1);
        let s2 = s1.write(addr, r);
        CpuState { status: compare_status(s2.status, self.register_a, r), ..s2 }
    }

    /// RLA: ROL, then AND.
    #[verifier::opaque]
    pub open spec fn rla(self, mode: addressing_mode) -> CpuState {
        self.rol(mode).and(mode)
    }

    /// SLO: ASL, then ORA.
    #[verifier::opaque]
    pub open spec fn slo(self, mode: addressing_mode) -> CpuState {
        self.asl(mode).ora(mode)
    }

    /// SRE: LSR, then EOR.
    #[verifier::opaque]
    pub open spec fn sre(self, mode: addressing_mode) -> CpuState {
        self.lsr(mode).eor(mode)
    }

    /// RRA: ROR, then ADC.
    #[verifier::opaque]
    pub open spec fn rra(self, mode: addressing_mode) -> CpuState {
        self.ror(mode).adc(mode)
    }

    /// ISB: INC, then SBC.
    #[verifier::opaque]
    pub open spec fn isb(self, mode: addressing_mode) -> CpuState {
        self.inc(mode).sbc(mode)
    }

    /// LAX: the accumulator and X take the operand.
    #[verifier::opaque]
    pub open spec fn lax(self, mode: addressing_mode) -> CpuState {
        let s = self.lda(mode);
        CpuState { register_x: s.register_a, ..s }
    }

    /// SAX: the accumulator masked by X is stored.
    #[verifier::opaque]
    pub open spec fn sax(self, mode: addressing_mode) -> CpuState {
        self.store(mode, self.register_a & self.register_x)
    }

    /// AXS: X takes the accumulator masked by X, minus the operand.
    #[verifier::opaque]
    pub open spec fn axs(self, mode: addressing_mode) -> CpuState {
        let (s, v) = self.operand(mode);
        let x_and_a = self.register_x & self.register_a;
        CpuState {
            register_x: sub8(x_and_a, v),
            status: compare_status(s.status, x_and_a, v),
            ..s
        }
    }

    /// ARR: AND, then ROR of the accumulator; carry from bit 6 of the
    /// result, overflow from bits 6 and 5 if they differ.
    #[verifier::opaque]
    pub open spec fn arr(self, mode: addressing_mode) -> CpuState {
        let s = self.and(mode).ror(addressing_mode::Accumulator);
        let r = s.register_a;
        s.set(CARRY, (r >> 6) & 1 == 1).set(OVERFLOW, ((r >> 5) & 1) ^ ((r >> 6) & 1) == 1).nz(r)
    }

    /// ANC: AND, then carry takes the negative flag.
    #[verifier::opaque]
    pub open spec fn anc(self, mode: addressing_mode) -> CpuState {
        let s = self.and(mode);
        s.set(CARRY, flag(s.status, NEGATIVE))
    }

    /// ALR: AND, then LSR of the accumulator.
    #[verifier::opaque]
    pub open spec fn alr(self, mode: addressing_mode) -> CpuState {
        self.and(mode).lsr(addressing_mode::Accumulator)
    }

    /// LXA: LDA, then X takes the accumulator.
    #[verifier::opaque]
    pub open spec fn lxa(self, mode: addressing_mode) -> CpuState {
        let s = self.lda(mode);
        s.load_x(s.register_a)
    }

    /// XAA: the accumulator takes X, then AND.
    #[verifier::opaque]
    pub open spec fn xaa(self, mode: addressing_mode) -> CpuState {
        self.load_a(self.register_x).and(mode)
    }

    /// LAS: the accumulator, X and the stack pointer take the operand masked
    /// by the stack pointer.
    #[verifier::opaque]
    pub open spec fn las(self, mode: addressing_mode) -> CpuState {
        let (s, v) = self.operand(mode);
        let r = v & self.stack_pointer;
        (CpuState { register_a: r, register_x: r, stack_pointer: r, ..s }).nz(r)
    }

    /// The byte that the unstable store instructions mask their register
    /// with: the high byte of the address plus one, modulo 256.
    pub open spec fn high_plus_one(addr: u16) -> u8 {
        add8(high_byte(addr), 1)
    }

    /// The address that the unstable store instructions write to: the two
    /// bytes under the program counter plus `index`, modulo 65536.
    pub open spec fn indexed_absolute(self, index: u8) -> (CpuState, u16) {
        let (s, base) = self.read_u16(self.program_counter);
        (s, add16(base, index as u16))
    }

    /// TAS: the stack pointer takes the accumulator masked by X, and is
    /// stored masked by the high byte of the address plus one.
    #[verifier::opaque]
    pub open spec fn tas(self) -> CpuState {
        let sp = self.register_a & self.register_x;
        let (s, addr) = (CpuState { stack_pointer: sp, ..self }).indexed_absolute(
            self.register_y,
        );
        s.write(addr, Self::high_plus_one(addr) & sp)
    }

    /// AHX with a pointer in page zero: the accumulator masked by X and by
    /// the high byte of the address is stored.
    #[verifier::opaque]
    pub open spec fn ahx_indirect(self) -> CpuState {
        let (s, pos) = self.read(self.program_counter);
        let (s1, base) = s.read_u16(pos as u16);
        let addr = add16(base, self.register_y as u16);
        s1.write(addr, self.register_a & self.register_x & high_byte(addr))
    }

    /// AHX with an absolute address.
    #[verifier::opaque]
    pub open spec fn ahx_absolute(self) -> CpuState {
        let (s, addr) = self.indexed_absolute(self.register_y);
        s.write(addr, self.register_a & self.register_x & high_byte(addr))
    }

    /// SHX: X masked by the high byte of the address plus one is stored.
    #[verifier::opaque]
    pub open spec fn shx(self) -> CpuState {
        let (s, addr) = self.indexed_absolute(self.register_y);
        s.write(addr, self.register_x & Self::high_plus_one(addr))
    }

    /// SHY: Y masked by the high byte of the address plus one is stored.
    #[verifier::opaque]
    pub open spec fn shy(self) -> CpuState {
        let (s, addr) = self.indexed_absolute(self.register_x);
        s.write(addr, self.register_y & Self::high_plus_one(addr))
    }

    /// Entry into an interrupt handler: the program counter and the status
    /// go on the stack, interrupts are disabled, the clock runs for the
    /// cycles of the entry, and execution goes on at the address in the vector.
    #[verifier::opaque]
    pub open spec fn interrupt(self, kind: InterruptType) -> CpuState {
        let s = self.before_interrupt_tick(kind).tick(kind.spec_cycles());
        let (s1, pc) = s.read_u16(kind.spec_vector());
        CpuState { program_counter: pc, ..s1 }
    }

    /// The machine on entry into a handler, before the clock runs.
    pub open spec fn before_interrupt_tick(self, kind: InterruptType) -> CpuState {
        let s = self.push_u16(self.program_counter).push(kind.spec_pushed_status(self.status));
        CpuState { status: s.status | 0b0000_0100, ..s }
    }

    /// Whether the clock raises the picture unit's interrupt line during
    /// the entry into a handler.
    #[verifier::opaque]
    pub open spec fn interrupt_raises_nmi(self, kind: InterruptType) -> bool {
        self.before_interrupt_tick(kind).bus.tick_raises_nmi(kind.spec_cycles())
    }

    /// The machine after the pending interrupt of the picture unit, if there
    /// is one, has been taken and served.
    #[verifier::opaque]
    pub open spec fn service_nmi(self) -> CpuState {
        if self.bus.ppu.nmi_interrupt is Some {
            (CpuState { bus: self.bus.after_poll_nmi(), ..self }).interrupt(InterruptType::NMI)
        } else {
            self
        }
    }

    /// Whether the clock raises the interrupt line again while the pending
    /// interrupt is served.
    #[verifier::opaque]
    pub open spec fn service_nmi_raises_nmi(self) -> bool {
        self.bus.ppu.nmi_interrupt is Some && (CpuState {
            bus: self.bus.after_poll_nmi(),
            ..self
        }).interrupt_raises_nmi(InterruptType::NMI)
    }

    /// What an instruction with an opcode in `0x00..=0x3F` makes of the
    /// machine; see [`CpuState::execute_instruction`].
    #[verifier::opaque]
    pub open spec fn instructions_from_00(self, code: u8) -> CpuState {
        let mode = opcode_row(code).address_mode;
        let rest: u16 = (opcode_row(code).bytes - 1) as u16;
        match code {
            0x01 | 0x05 | 0x09 | 0x0D | 0x11 | 0x15 | 0x19 | 0x1D => self.ora(mode).advance(rest),
            0x02 | 0x04 | 0x0C | 0x12 | 0x14 | 0x1A | 0x1C | 0x22 | 0x32 | 0x34 | 0x3A | 0x3C => self.advance(rest),
            0x03 | 0x07 | 0x0F | 0x13 | 0x17 | 0x1B | 0x1F => self.slo(mode).advance(rest),
            0x06 | 0x0A | 0x0E | 0x16 | 0x1E => self.asl(mode).advance(rest),
            0x08 => self.php(),
            0x0B | 0x2B => self.anc(mode).advance(rest),
            0x10 => self.branch_if(!flag(self.status, NEGATIVE)),
            0x18 => self.set(CARRY, false),
            0x20 => self.jsr(),
            0x21 | 0x25 | 0x29 | 0x2D | 0x31 | 0x35 | 0x39 | 0x3D => self.and(mode).advance(rest),
            0x23 | 0x27 | 0x2F | 0x33 | 0x37 | 0x3B | 0x3F => self.rla(mode).advance(rest),
            0x24 | 0x2C => self.bit(mode).advance(rest),
            0x26 | 0x2A | 0x2E | 0x36 | 0x3E => self.rol(mode).advance(rest),
            0x28 => self.plp(),
            0x30 => self.branch_if(flag(self.status, NEGATIVE)),
            0x38 => self.set(CARRY, true),
            _ => self,
        }
    }

    /// What an instruction with an opcode in `0x40..=0x7F` makes of the
    /// machine; see [`CpuState::execute_instruction`].
    #[verifier::opaque]
    pub open spec fn instructions_from_40(self, code: u8) -> CpuState {
        let mode = opcode_row(code).address_mode;
        let rest: u16 = (opcode_row(code).bytes - 1) as u16;
        match code {
            0x42 | 0x44 | 0x52 | 0x54 | 0x5A | 0x5C | 0x62 | 0x64 | 0x72 | 0x74 | 0x7A | 0x7C => self.advance(rest),
            0x40 => self.rti(),
            0x41 | 0x45 | 0x49 | 0x4D | 0x51 | 0x55 | 0x59 | 0x5D => self.eor(mode).advance(rest),
            0x43 | 0x47 | 0x4F | 0x53 | 0x57 | 0x5B | 0x5F => self.sre(mode).advance(rest),
            0x46 | 0x4A | 0x4E | 0x56 | 0x5E => self.lsr(mode).advance(rest),
            0x48 => self.push(self.register_a),
            0x4B => self.alr(mode).advance(rest),
            0x4C | 0x6C => self.jmp(mode),
            0x50 => self.branch_if(!flag(self.status, OVERFLOW)),
            0x58 => self.set(INTERRUPT_DISABLE, false),
            0x60 => self.rts(),
            0x61 | 0x65 | 0x69 | 0x6D | 0x71 | 0x75 | 0x79 | 0x7D => self.adc(mode).advance(rest),
            0x63 | 0x67 | 0x6F | 0x73 | 0x77 | 0x7B | 0x7F => self.rra(mode).advance(rest),
            0x66 | 0x6A | 0x6E | 0x76 | 0x7E => self.ror(mode).advance(rest),
            0x68 => self.pla(),
            0x6B => self.arr(mode).advance(rest),
            0x70 => self.branch_if(flag(self.status, OVERFLOW)),
            0x78 => self.set(INTERRUPT_DISABLE, true),
            _ => self,
        }
    }

    /// What an instruction with an opcode in `0x80..=0xBF` makes of the
    /// machine; see [`CpuState::execute_instruction`].
    #[verifier::opaque]
    pub open spec fn instructions_from_80(self, code: u8) -> CpuState {
        let mode = opcode_row(code).address_mode;
        let rest: u16 = (opcode_row(code).bytes - 1) as u16;
        match code {
            0x80 | 0x82 | 0x89 | 0x92 | 0xB2 => self.advance(rest),
            0x81 | 0x85 | 0x8D | 0x91 | 0x95 | 0x99 | 0x9D => self.sta(mode).advance(rest),
            0x83 | 0x87 | 0x8F | 0x97 => self.sax(mode).advance(rest),
            0x84 | 0x8C | 0x94 => self.sty(mode).advance(rest),
            0x86 | 0x8E | 0x96 => self.stx(mode).advance(rest),
            0x88 => self.load_y(sub8(self.register_y, 1)),
            0x8A => self.load_a(self.register_x),
            0x8B => self.xaa(mode).advance(rest),
            0x90 => self.branch_if(!flag(self.status, CARRY)),
            0x93 => self.ahx_indirect().advance(rest),
            0x98 => self.load_a(self.register_y),
            0x9A => CpuState { stack_pointer: self.register_x, ..self },
            0x9B => self.tas().advance(rest),
            0x9C => self.shy().advance(rest),
            0x9E => self.shx().advance(rest),
            0x9F => self.ahx_absolute().advance(rest),
            0xA0 | 0xA4 | 0xAC | 0xB4 | 0xBC => self.ldy(mode).advance(rest),
            0xA1 | 0xA5 | 0xA9 | 0xAD | 0xB1 | 0xB5 | 0xB9 | 0xBD => self.lda(mode).advance(rest),
            0xA2 | 0xA6 | 0xAE | 0xB6 | 0xBE => self.ldx(mode).advance(rest),
            0xA3 | 0xA7 | 0xAF | 0xB3 | 0xB7 | 0xBF => self.lax(mode).advance(rest),
            0xA8 => self.load_y(self.register_a),
            0xAA => self.load_x(self.register_a),
            0xAB => self.lxa(mode).advance(rest),
            0xB0 => self.branch_if(flag(self.status, CARRY)),
            0xB8 => self.set(OVERFLOW, false),
            0xBA => self.load_x(self.stack_pointer),
            0xBB => self.las(mode).advance(rest),
            _ => self,
        }
    }

    /// What an instruction with an opcode in `0xC0..=0xFF` makes of the
    /// machine; see [`CpuState::execute_instruction`].
    #[verifier::opaque]
    pub open spec fn instructions_from_c0(self, code: u8) -> CpuState {
        let mode = opcode_row(code).address_mode;
        let rest: u16 = (opcode_row(code).bytes - 1) as u16;
        match code {
            0xC2 | 0xD2 | 0xD4 | 0xDA | 0xDC | 0xE2 | 0xEA | 0xF2 | 0xF4 | 0xFA | 0xFC => self.advance(rest),
            0xC0 | 0xC4 | 0xCC => self.compare(mode, self.register_y).advance(rest),
            0xC1 | 0xC5 | 0xC9 | 0xCD | 0xD1 | 0xD5 | 0xD9 | 0xDD => self.compare(mode, self.register_a).advance(rest),
            0xC3 | 0xC7 | 0xCF | 0xD3 | 0xD7 | 0xDB | 0xDF => self.dcp(mode).advance(rest),
            0xC6 | 0xCE | 0xD6 | 0xDE => self.dec(mode).advance(rest),
            0xC8 => self.load_y(add8(self.register_y, 1)),
            0xCA => self.load_x(sub8(self.register_x, 1)),
            0xCB => self.axs(mode).advance(rest),
            0xD0 => self.branch_if(!flag(self.status, ZERO)),
            0xD8 => self.set(DECIMAL, false),
            0xE0 | 0xE4 | 0xEC => self.compare(mode, self.register_x).advance(rest),
            0xE1 | 0xE5 | 0xE9 | 0xEB | 0xED | 0xF1 | 0xF5 | 0xF9 | 0xFD => self.sbc(mode).advance(rest),
            0xE3 | 0xE7 | 0xEF | 0xF3 | 0xF7 | 0xFB | 0xFF => self.isb(mode).advance(rest),
            0xE6 | 0xEE | 0xF6 | 0xFE => self.inc(mode).advance(rest),
            0xE8 => self.load_x(add8(self.register_x, 1)),
            0xF0 => self.branch_if(flag(self.status, ZERO)),
            0xF8 => self.set(DECIMAL, true),
            _ => self,
        }
    }

    /// What the instruction with opcode `code` makes of the machine, the
    /// program counter being on the first byte after the opcode. An
    /// instruction that is not a jump, a branch or a return leaves the program
    /// counter after its last byte. `BRK` is not dealt with here.
    pub open spec fn execute_instruction(self, code: u8) -> CpuState {
        if code < 0x40 {
            self.instructions_from_00(code)
        } else if code < 0x80 {
            self.instructions_from_40(code)
        } else if code < 0xC0 {
            self.instructions_from_80(code)
        } else {
            self.instructions_from_c0(code)
        }
    }

    /// The fetch of an opcode: the cycles owed are forgotten, the byte under
    /// the program counter is read, and the program counter steps over it.
    pub open spec fn fetch(self) -> (CpuState, u8) {
        let (s, code) = (CpuState { additional_cycles: 0, ..self }).read(self.program_counter);
        (s.advance(1), code)
    }

    /// The cycles that the instruction with opcode `code` has taken: its base
    /// count and the cycles owed for page crossings and taken branches.
    pub open spec fn cycles_taken(self, code: u8) -> u8 {
        add8(opcode_row(code).cycles, self.additional_cycles)
    }

    /// One instruction: fetch, execute, then the clock runs for the cycles
    /// taken. `BRK` enters its handler instead.
    #[verifier::opaque]
    pub open spec fn step(self) -> CpuState {
        let (s, code) = self.fetch();
        if code == 0x00 {
            s.interrupt(InterruptType::BRK)
        } else {
            let s1 = s.execute_instruction(code);
            s1.tick(s1.cycles_taken(code))
        }
    }

    /// Whether the next instruction is `BRK`, which ends a run.
    #[verifier::opaque]
    pub open spec fn step_halts(self) -> bool {
        self.fetch().1 == 0x00
    }

    /// Whether the clock raises the picture unit's interrupt line during the
    /// next instruction.
    #[verifier::opaque]
    pub open spec fn step_raises_nmi(self) -> bool {
        let (s, code) = self.fetch();
        if code == 0x00 {
            s.interrupt_raises_nmi(InterruptType::BRK)
        } else {
            let s1 = s.execute_instruction(code);
            s1.bus.tick_raises_nmi(s1.cycles_taken(code))
        }
    }

    /// A run of at most `steps` instructions, each after the pending
    /// interrupt has been served. The run ends early with `BRK`; the second
    /// component says whether it did.
    pub open spec fn run(self, steps: nat) -> (CpuState, bool)
        decreases steps,
    {
        if steps == 0 {
            (self, false)
        } else {
            let s = self.service_nmi();
            if s.step_halts() {
                (s.step(), true)
            } else {
                s.step().run((steps - 1) as nat)
            }
        }
    }

    /// The machine after the first `n` bytes of `program` have been written
    /// from `start` on.
    pub open spec fn load(self, program: Seq<u8>, start: u16, n: nat) -> CpuState
        decreases n,
    {
        if n == 0 {
            self
        } else {
            self.load(program, start, (n - 1) as nat).write(
                (start + n - 1) as u16,
                program[n - 1],
            )
        }
    }
}

} // verus!
