//! The instruction table: for each of the 256 opcodes its mnemonic, its
//! addressing mode, its length in bytes and its base cycle count. Mnemonics
//! of unofficial opcodes start with `*`.

use vstd::prelude::*;

verus! {

/// How an instruction finds its operand.
#[derive(Clone, Copy, Debug, PartialEq, Eq, Structural)]
pub enum addressing_mode {
    Immediate,
    ZeroPage,
    ZeroPage_X,
    ZeroPage_Y,
    Absolute,
    Absolute_X,
    Absolute_Y,
    Indirect,
    Indirect_X,
    Indirect_Y,
    NoneAddressing,
    Accumulator,
    Relative,
    Implied,
}

impl addressing_mode {
    /// The mode names an operand in memory.
    pub open spec fn resolves(self) -> bool {
        !(self is NoneAddressing || self is Accumulator || self is Relative || self is Implied)
    }

    /// The bytes that follow the opcode in this mode.
    pub open spec fn spec_operand_len(self) -> u16 {
        match self {
            addressing_mode::Absolute
            | addressing_mode::Absolute_X
            | addressing_mode::Absolute_Y
            | addressing_mode::Indirect => 2,
            addressing_mode::NoneAddressing
            | addressing_mode::Accumulator
            | addressing_mode::Implied => 0,
            _ => 1,
        }
    }

    /// The bytes that follow the opcode in this mode.
    pub fn operand_len(&self) -> (r: u16)
        ensures
            r == self.spec_operand_len(),
    {
        match self {
            addressing_mode::Absolute
            | addressing_mode::Absolute_X
            | addressing_mode::Absolute_Y
            | addressing_mode::Indirect => 2,
            addressing_mode::NoneAddressing
            | addressing_mode::Accumulator
            | addressing_mode::Implied => 0,
            _ => 1,
        }
    }
}

/// One row of the instruction table.
#[derive(Clone, Copy, Debug)]
pub struct opCode {
    pub code: u8,
    pub bytes: u8,
    pub cycles: u8,
    pub address_mode: addressing_mode,
    pub mnemonic: &'static str,
}

impl opCode {
    /// A row from its five entries.
    pub fn new(
        opCodeNum: u8,
        bytesNum: u8,
        cyclesNum: u8,
        mode: addressing_mode,
        mnemonicString: &'static str,
    ) -> (r: Self)
        ensures
            r == (opCode {
                code: opCodeNum,
                bytes: bytesNum,
                cycles: cyclesNum,
                address_mode: mode,
                mnemonic: mnemonicString,
            }),
    {
        opCode {
            code: opCodeNum,
            bytes: bytesNum,
            cycles: cyclesNum,
            address_mode: mode,
            mnemonic: mnemonicString,
        }
    }
}

/// The rows of opcodes `0x00` to `0x1F`.
pub open spec fn rows_from_00(code: u8) -> opCode {
    match code {
        0x00 => opCode { code: 0x00, bytes: 1, cycles: 7, address_mode: addressing_mode::Implied, mnemonic: "BRK" },
        0x01 => opCode { code: 0x01, bytes: 2, cycles: 6, address_mode: addressing_mode::Indirect_X, mnemonic: "ORA" },
        0x02 => opCode { code: 0x02, bytes: 1, cycles: 2, address_mode: addressing_mode::NoneAddressing, mnemonic: "*NOP" },
        0x03 => opCode { code: 0x03, bytes: 2, cycles: 8, address_mode: addressing_mode::Indirect_X, mnemonic: "*SLO" },
        0x04 => opCode { code: 0x04, bytes: 2, cycles: 3, address_mode: addressing_mode::ZeroPage, mnemonic: "*NOP" },
        0x05 => opCode { code: 0x05, bytes: 2, cycles: 3, address_mode: addressing_mode::ZeroPage, mnemonic: "ORA" },
        0x06 => opCode { code: 0x06, bytes: 2, cycles: 5, address_mode: addressing_mode::ZeroPage, mnemonic: "ASL" },
        0x07 => opCode { code: 0x07, bytes: 2, cycles: 5, address_mode: addressing_mode::ZeroPage, mnemonic: "*SLO" },
        0x08 => opCode { code: 0x08, bytes: 1, cycles: 3, address_mode: addressing_mode::Implied, mnemonic: "PHP" },
        0x09 => opCode { code: 0x09, bytes: 2, cycles: 2, address_mode: addressing_mode::Immediate, mnemonic: "ORA" },
        0x0A => opCode { code: 0x0A, bytes: 1, cycles: 2, address_mode: addressing_mode::Accumulator, mnemonic: "ASL" },
        0x0B => opCode { code: 0x0B, bytes: 2, cycles: 2, address_mode: addressing_mode::Immediate, mnemonic: "*ANC" },
        0x0C => opCode { code: 0x0C, bytes: 3, cycles: 4, address_mode: addressing_mode::Absolute, mnemonic: "*NOP" },
        0x0D => opCode { code: 0x0D, bytes: 3, cycles: 4, address_mode: addressing_mode::Absolute, mnemonic: "ORA" },
        0x0E => opCode { code: 0x0E, bytes: 3, cycles: 6, address_mode: addressing_mode::Absolute, mnemonic: "ASL" },
        0x0F => opCode { code: 0x0F, bytes: 3, cycles: 6, address_mode: addressing_mode::Absolute, mnemonic: "*SLO" },
        0x10 => opCode { code: 0x10, bytes: 2, cycles: 2, address_mode: addressing_mode::Relative, mnemonic: "BPL" },
        0x11 => opCode { code: 0x11, bytes: 2, cycles: 5, address_mode: addressing_mode::Indirect_Y, mnemonic: "ORA" },
        0x12 => opCode { code: 0x12, bytes: 1, cycles: 2, address_mode: addressing_mode::NoneAddressing, mnemonic: "*NOP" },
        0x13 => opCode { code: 0x13, bytes: 2, cycles: 8, address_mode: addressing_mode::Indirect_Y, mnemonic: "*SLO" },
        0x14 => opCode { code: 0x14, bytes: 2, cycles: 4, address_mode: addressing_mode::ZeroPage_X, mnemonic: "*NOP" },
        0x15 => opCode { code: 0x15, bytes: 2, cycles: 4, address_mode: addressing_mode::ZeroPage_X, mnemonic: "ORA" },
        0x16 => opCode { code: 0x16, bytes: 2, cycles: 6, address_mode: addressing_mode::ZeroPage_X, mnemonic: "ASL" },
        0x17 => opCode { code: 0x17, bytes: 2, cycles: 6, address_mode: addressing_mode::ZeroPage_X, mnemonic: "*SLO" },
        0x18 => opCode { code: 0x18, bytes: 1, cycles: 2, address_mode: addressing_mode::Implied, mnemonic: "CLC" },
        0x19 => opCode { code: 0x19, bytes: 3, cycles: 4, address_mode: addressing_mode::Absolute_Y, mnemonic: "ORA" },
        0x1A => opCode { code: 0x1A, bytes: 1, cycles: 2, address_mode: addressing_mode::NoneAddressing, mnemonic: "*NOP" },
        0x1B => opCode { code: 0x1B, bytes: 3, cycles: 7, address_mode: addressing_mode::Absolute_Y, mnemonic: "*SLO" },
        0x1C => opCode { code: 0x1C, bytes: 3, cycles: 4, address_mode: addressing_mode::Absolute_X, mnemonic: "*NOP" },
        0x1D => opCode { code: 0x1D, bytes: 3, cycles: 4, address_mode: addressing_mode::Absolute_X, mnemonic: "ORA" },
        0x1E => opCode { code: 0x1E, bytes: 3, cycles: 7, address_mode: addressing_mode::Absolute_X, mnemonic: "ASL" },
        _ => opCode { code: 0x1F, bytes: 3, cycles: 7, address_mode: addressing_mode::Absolute_X, mnemonic: "*SLO" },
    }
}

/// Looks up a row among those of opcodes `0x00` to `0x1F`.
fn lookup_from_00(code: u8) -> (r: opCode)
    requires
        0x00 <= code <= 0x1F,
    ensures
        r == rows_from_00(code),
{
    match code {
        0x00 => opCode::new(0x00, 1, 7, addressing_mode::Implied, "BRK"),
        0x01 => opCode::new(0x01, 2, 6, addressing_mode::Indirect_X, "ORA"),
        0x02 => opCode::new(0x02, 1, 2, addressing_mode::NoneAddressing, "*NOP"),
        0x03 => opCode::new(0x03, 2, 8, addressing_mode::Indirect_X, "*SLO"),
        0x04 => opCode::new(0x04, 2, 3, addressing_mode::ZeroPage, "*NOP"),
        0x05 => opCode::new(0x05, 2, 3, addressing_mode::ZeroPage, "ORA"),
        0x06 => opCode::new(0x06, 2, 5, addressing_mode::ZeroPage, "ASL"),
        0x07 => opCode::new(0x07, 2, 5, addressing_mode::ZeroPage, "*SLO"),
        0x08 => opCode::new(0x08, 1, 3, addressing_mode::Implied, "PHP"),
        0x09 => opCode::new(0x09, 2, 2, addressing_mode::Immediate, "ORA"),
        0x0A => opCode::new(0x0A, 1, 2, addressing_mode::Accumulator, "ASL"),
        0x0B => opCode::new(0x0B, 2, 2, addressing_mode::Immediate, "*ANC"),
        0x0C => opCode::new(0x0C, 3, 4, addressing_mode::Absolute, "*NOP"),
        0x0D => opCode::new(0x0D, 3, 4, addressing_mode::Absolute, "ORA"),
        0x0E => opCode::new(0x0E, 3, 6, addressing_mode::Absolute, "ASL"),
        0x0F => opCode::new(0x0F, 3, 6, addressing_mode::Absolute, "*SLO"),
        0x10 => opCode::new(0x10, 2, 2, addressing_mode::Relative, "BPL"),
        0x11 => opCode::new(0x11, 2, 5, addressing_mode::Indirect_Y, "ORA"),
        0x12 => opCode::new(0x12, 1, 2, addressing_mode::NoneAddressing, "*NOP"),
        0x13 => opCode::new(0x13, 2, 8, addressing_mode::Indirect_Y, "*SLO"),
        0x14 => opCode::new(0x14, 2, 4, addressing_mode::ZeroPage_X, "*NOP"),
        0x15 => opCode::new(0x15, 2, 4, addressing_mode::ZeroPage_X, "ORA"),
        0x16 => opCode::new(0x16, 2, 6, addressing_mode::ZeroPage_X, "ASL"),
        0x17 => opCode::new(0x17, 2, 6, addressing_mode::ZeroPage_X, "*SLO"),
        0x18 => opCode::new(0x18, 1, 2, addressing_mode::Implied, "CLC"),
        0x19 => opCode::new(0x19, 3, 4, addressing_mode::Absolute_Y, "ORA"),
        0x1A => opCode::new(0x1A, 1, 2, addressing_mode::NoneAddressing, "*NOP"),
        0x1B => opCode::new(0x1B, 3, 7, addressing_mode::Absolute_Y, "*SLO"),
        0x1C => opCode::new(0x1C, 3, 4, addressing_mode::Absolute_X, "*NOP"),
        0x1D => opCode::new(0x1D, 3, 4, addressing_mode::Absolute_X, "ORA"),
        0x1E => opCode::new(0x1E, 3, 7, addressing_mode::Absolute_X, "ASL"),
        _ => opCode::new(0x1F, 3, 7, addressing_mode::Absolute_X, "*SLO"),
    }
}

/// The rows of opcodes `0x20` to `0x3F`.
pub open spec fn rows_from_20(code: u8) -> opCode {
    match code {
        0x20 => opCode { code: 0x20, bytes: 3, cycles: 6, address_mode: addressing_mode::Absolute, mnemonic: "JSR" },
        0x21 => opCode { code: 0x21, bytes: 2, cycles: 6, address_mode: addressing_mode::Indirect_X, mnemonic: "AND" },
        0x22 => opCode { code: 0x22, bytes: 1, cycles: 2, address_mode: addressing_mode::NoneAddressing, mnemonic: "*NOP" },
        0x23 => opCode { code: 0x23, bytes: 2, cycles: 8, address_mode: addressing_mode::Indirect_X, mnemonic: "*RLA" },
        0x24 => opCode { code: 0x24, bytes: 2, cycles: 3, address_mode: addressing_mode::ZeroPage, mnemonic: "BIT" },
        0x25 => opCode { code: 0x25, bytes: 2, cycles: 3, address_mode: addressing_mode::ZeroPage, mnemonic: "AND" },
        0x26 => opCode { code: 0x26, bytes: 2, cycles: 5, address_mode: addressing_mode::ZeroPage, mnemonic: "ROL" },
        0x27 => opCode { code: 0x27, bytes: 2, cycles: 5, address_mode: addressing_mode::ZeroPage, mnemonic: "*RLA" },
        0x28 => opCode { code: 0x28, bytes: 1, cycles: 4, address_mode: addressing_mode::Implied, mnemonic: "PLP" },
        0x29 => opCode { code: 0x29, bytes: 2, cycles: 2, address_mode: addressing_mode::Immediate, mnemonic: "AND" },
        0x2A => opCode { code: 0x2A, bytes: 1, cycles: 2, address_mode: addressing_mode::Accumulator, mnemonic: "ROL" },
        0x2B => opCode { code: 0x2B, bytes: 2, cycles: 2, address_mode: addressing_mode::Immediate, mnemonic: "*ANC" },
        0x2C => opCode { code: 0x2C, bytes: 3, cycles: 4, address_mode: addressing_mode::Absolute, mnemonic: "BIT" },
        0x2D => opCode { code: 0x2D, bytes: 3, cycles: 4, address_mode: addressing_mode::Absolute, mnemonic: "AND" },
        0x2E => opCode { code: 0x2E, bytes: 3, cycles: 6, address_mode: addressing_mode::Absolute, mnemonic: "ROL" },
        0x2F => opCode { code: 0x2F, bytes: 3, cycles: 6, address_mode: addressing_mode::Absolute, mnemonic: "*RLA" },
        0x30 => opCode { code: 0x30, bytes: 2, cycles: 2, address_mode: addressing_mode::Relative, mnemonic: "BMI" },
        0x31 => opCode { code: 0x31, bytes: 2, cycles: 5, address_mode: addressing_mode::Indirect_Y, mnemonic: "AND" },
        0x32 => opCode { code: 0x32, bytes: 1, cycles: 2, address_mode: addressing_mode::NoneAddressing, mnemonic: "*NOP" },
        0x33 => opCode { code: 0x33, bytes: 2, cycles: 8, address_mode: addressing_mode::Indirect_Y, mnemonic: "*RLA" },
        0x34 => opCode { code: 0x34, bytes: 2, cycles: 4, address_mode: addressing_mode::ZeroPage_X, mnemonic: "*NOP" },
        0x35 => opCode { code: 0x35, bytes: 2, cycles: 4, address_mode: addressing_mode::ZeroPage_X, mnemonic: "AND" },
        0x36 => opCode { code: 0x36, bytes: 2, cycles: 6, address_mode: addressing_mode::ZeroPage_X, mnemonic: "ROL" },
        0x37 => opCode { code: 0x37, bytes: 2, cycles: 6, address_mode: addressing_mode::ZeroPage_X, mnemonic: "*RLA" },
        0x38 => opCode { code: 0x38, bytes: 1, cycles: 2, address_mode: addressing_mode::Implied, mnemonic: "SEC" },
        0x39 => opCode { code: 0x39, bytes: 3, cycles: 4, address_mode: addressing_mode::Absolute_Y, mnemonic: "AND" },
        0x3A => opCode { code: 0x3A, bytes: 1, cycles: 2, address_mode: addressing_mode::NoneAddressing, mnemonic: "*NOP" },
        0x3B => opCode { code: 0x3B, bytes: 3, cycles: 7, address_mode: addressing_mode::Absolute_Y, mnemonic: "*RLA" },
        0x3C => opCode { code: 0x3C, bytes: 3, cycles: 4, address_mode: addressing_mode::Absolute_X, mnemonic: "*NOP" },
        0x3D => opCode { code: 0x3D, bytes: 3, cycles: 4, address_mode: addressing_mode::Absolute_X, mnemonic: "AND" },
        0x3E => opCode { code: 0x3E, bytes: 3, cycles: 7, address_mode: addressing_mode::Absolute_X, mnemonic: "ROL" },
        _ => opCode { code: 0x3F, bytes: 3, cycles: 7, address_mode: addressing_mode::Absolute_X, mnemonic: "*RLA" },
    }
}

/// Looks up a row among those of opcodes `0x20` to `0x3F`.
fn lookup_from_20(code: u8) -> (r: opCode)
    requires
        0x20 <= code <= 0x3F,
    ensures
        r == rows_from_20(code),
{
    match code {
        0x20 => opCode::new(0x20, 3, 6, addressing_mode::Absolute, "JSR"),
        0x21 => opCode::new(0x21, 2, 6, addressing_mode::Indirect_X, "AND"),
        0x22 => opCode::new(0x22, 1, 2, addressing_mode::NoneAddressing, "*NOP"),
        0x23 => opCode::new(0x23, 2, 8, addressing_mode::Indirect_X, "*RLA"),
        0x24 => opCode::new(0x24, 2, 3, addressing_mode::ZeroPage, "BIT"),
        0x25 => opCode::new(0x25, 2, 3, addressing_mode::ZeroPage, "AND"),
        0x26 => opCode::new(0x26, 2, 5, addressing_mode::ZeroPage, "ROL"),
        0x27 => opCode::new(0x27, 2, 5, addressing_mode::ZeroPage, "*RLA"),
        0x28 => opCode::new(0x28, 1, 4, addressing_mode::Implied, "PLP"),
        0x29 => opCode::new(0x29, 2, 2, addressing_mode::Immediate, "AND"),
        0x2A => opCode::new(0x2A, 1, 2, addressing_mode::Accumulator, "ROL"),
        0x2B => opCode::new(0x2B, 2, 2, addressing_mode::Immediate, "*ANC"),
        0x2C => opCode::new(0x2C, 3, 4, addressing_mode::Absolute, "BIT"),
        0x2D => opCode::new(0x2D, 3, 4, addressing_mode::Absolute, "AND"),
        0x2E => opCode::new(0x2E, 3, 6, addressing_mode::Absolute, "ROL"),
        0x2F => opCode::new(0x2F, 3, 6, addressing_mode::Absolute, "*RLA"),
        0x30 => opCode::new(0x30, 2, 2, addressing_mode::Relative, "BMI"),
        0x31 => opCode::new(0x31, 2, 5, addressing_mode::Indirect_Y, "AND"),
        0x32 => opCode::new(0x32, 1, 2, addressing_mode::NoneAddressing, "*NOP"),
        0x33 => opCode::new(0x33, 2, 8, addressing_mode::Indirect_Y, "*RLA"),
        0x34 => opCode::new(0x34, 2, 4, addressing_mode::ZeroPage_X, "*NOP"),
        0x35 => opCode::new(0x35, 2, 4, addressing_mode::ZeroPage_X, "AND"),
        0x36 => opCode::new(0x36, 2, 6, addressing_mode::ZeroPage_X, "ROL"),
        0x37 => opCode::new(0x37, 2, 6, addressing_mode::ZeroPage_X, "*RLA"),
        0x38 => opCode::new(0x38, 1, 2, addressing_mode::Implied, "SEC"),
        0x39 => opCode::new(0x39, 3, 4, addressing_mode::Absolute_Y, "AND"),
        0x3A => opCode::new(0x3A, 1, 2, addressing_mode::NoneAddressing, "*NOP"),
        0x3B => opCode::new(0x3B, 3, 7, addressing_mode::Absolute_Y, "*RLA"),
        0x3C => opCode::new(0x3C, 3, 4, addressing_mode::Absolute_X, "*NOP"),
        0x3D => opCode::new(0x3D, 3, 4, addressing_mode::Absolute_X, "AND"),
        0x3E => opCode::new(0x3E, 3, 7, addressing_mode::Absolute_X, "ROL"),
        _ => opCode::new(0x3F, 3, 7, addressing_mode::Absolute_X, "*RLA"),
    }
}

/// The rows of opcodes `0x40` to `0x5F`.
pub open spec fn rows_from_40(code: u8) -> opCode {
    match code {
        0x40 => opCode { code: 0x40, bytes: 1, cycles: 6, address_mode: addressing_mode::Implied, mnemonic: "RTI" },
        0x41 => opCode { code: 0x41, bytes: 2, cycles: 6, address_mode: addressing_mode::Indirect_X, mnemonic: "EOR" },
        0x42 => opCode { code: 0x42, bytes: 1, cycles: 2, address_mode: addressing_mode::NoneAddressing, mnemonic: "*NOP" },
        0x43 => opCode { code: 0x43, bytes: 2, cycles: 8, address_mode: addressing_mode::Indirect_X, mnemonic: "*SRE" },
        0x44 => opCode { code: 0x44, bytes: 2, cycles: 3, address_mode: addressing_mode::ZeroPage, mnemonic: "*NOP" },
        0x45 => opCode { code: 0x45, bytes: 2, cycles: 3, address_mode: addressing_mode::ZeroPage, mnemonic: "EOR" },
        0x46 => opCode { code: 0x46, bytes: 2, cycles: 5, address_mode: addressing_mode::ZeroPage, mnemonic: "LSR" },
        0x47 => opCode { code: 0x47, bytes: 2, cycles: 5, address_mode: addressing_mode::ZeroPage, mnemonic: "*SRE" },
        0x48 => opCode { code: 0x48, bytes: 1, cycles: 3, address_mode: addressing_mode::Implied, mnemonic: "PHA" },
        0x49 => opCode { code: 0x49, bytes: 2, cycles: 2, address_mode: addressing_mode::Immediate, mnemonic: "EOR" },
        0x4A => opCode { code: 0x4A, bytes: 1, cycles: 2, address_mode: addressing_mode::Accumulator, mnemonic: "LSR" },
        0x4B => opCode { code: 0x4B, bytes: 2, cycles: 2, address_mode: addressing_mode::Immediate, mnemonic: "*ALR" },
        0x4C => opCode { code: 0x4C, bytes: 3, cycles: 3, address_mode: addressing_mode::Absolute, mnemonic: "JMP" },
        0x4D => opCode { code: 0x4D, bytes: 3, cycles: 4, address_mode: addressing_mode::Absolute, mnemonic: "EOR" },
        0x4E => opCode { code: 0x4E, bytes: 3, cycles: 6, address_mode: addressing_mode::Absolute, mnemonic: "LSR" },
        0x4F => opCode { code: 0x4F, bytes: 3, cycles: 6, address_mode: addressing_mode::Absolute, mnemonic: "*SRE" },
        0x50 => opCode { code: 0x50, bytes: 2, cycles: 2, address_mode: addressing_mode::Relative, mnemonic: "BVC" },
        0x51 => opCode { code: 0x51, bytes: 2, cycles: 5, address_mode: addressing_mode::Indirect_Y, mnemonic: "EOR" },
        0x52 => opCode { code: 0x52, bytes: 1, cycles: 2, address_mode: addressing_mode::NoneAddressing, mnemonic: "*NOP" },
        0x53 => opCode { code: 0x53, bytes: 2, cycles: 8, address_mode: addressing_mode::Indirect_Y, mnemonic: "*SRE" },
        0x54 => opCode { code: 0x54, bytes: 2, cycles: 4, address_mode: addressing_mode::ZeroPage_X, mnemonic: "*NOP" },
        0x55 => opCode { code: 0x55, bytes: 2, cycles: 4, address_mode: addressing_mode::ZeroPage_X, mnemonic: "EOR" },
        0x56 => opCode { code: 0x56, bytes: 2, cycles: 6, address_mode: addressing_mode::ZeroPage_X, mnemonic: "LSR" },
        0x57 => opCode { code: 0x57, bytes: 2, cycles: 6, address_mode: addressing_mode::ZeroPage_X, mnemonic: "*SRE" },
        0x58 => opCode { code: 0x58, bytes: 1, cycles: 2, address_mode: addressing_mode::Implied, mnemonic: "CLI" },
        0x59 => opCode { code: 0x59, bytes: 3, cycles: 4, address_mode: addressing_mode::Absolute_Y, mnemonic: "EOR" },
        0x5A => opCode { code: 0x5A, bytes: 1, cycles: 2, address_mode: addressing_mode::NoneAddressing, mnemonic: "*NOP" },
        0x5B => opCode { code: 0x5B, bytes: 3, cycles: 7, address_mode: addressing_mode::Absolute_Y, mnemonic: "*SRE" },
        0x5C => opCode { code: 0x5C, bytes: 3, cycles: 4, address_mode: addressing_mode::Absolute_X, mnemonic: "*NOP" },
        0x5D => opCode { code: 0x5D, bytes: 3, cycles: 4, address_mode: addressing_mode::Absolute_X, mnemonic: "EOR" },
        0x5E => opCode { code: 0x5E, bytes: 3, cycles: 7, address_mode: addressing_mode::Absolute_X, mnemonic: "LSR" },
        _ => opCode { code: 0x5F, bytes: 3, cycles: 7, address_mode: addressing_mode::Absolute_X, mnemonic: "*SRE" },
    }
}

/// Looks up a row among those of opcodes `0x40` to `0x5F`.
fn lookup_from_40(code: u8) -> (r: opCode)
    requires
        0x40 <= code <= 0x5F,
    ensures
        r == rows_from_40(code),
{
    match code {
        0x40 => opCode::new(0x40, 1, 6, addressing_mode::Implied, "RTI"),
        0x41 => opCode::new(0x41, 2, 6, addressing_mode::Indirect_X, "EOR"),
        0x42 => opCode::new(0x42, 1, 2, addressing_mode::NoneAddressing, "*NOP"),
        0x43 => opCode::new(0x43, 2, 8, addressing_mode::Indirect_X, "*SRE"),
        0x44 => opCode::new(0x44, 2, 3, addressing_mode::ZeroPage, "*NOP"),
        0x45 => opCode::new(0x45, 2, 3, addressing_mode::ZeroPage, "EOR"),
        0x46 => opCode::new(0x46, 2, 5, addressing_mode::ZeroPage, "LSR"),
        0x47 => opCode::new(0x47, 2, 5, addressing_mode::ZeroPage, "*SRE"),
        0x48 => opCode::new(0x48, 1, 3, addressing_mode::Implied, "PHA"),
        0x49 => opCode::new(0x49, 2, 2, addressing_mode::Immediate, "EOR"),
        0x4A => opCode::new(0x4A, 1, 2, addressing_mode::Accumulator, "LSR"),
        0x4B => opCode::new(0x4B, 2, 2, addressing_mode::Immediate, "*ALR"),
        0x4C => opCode::new(0x4C, 3, 3, addressing_mode::Absolute, "JMP"),
        0x4D => opCode::new(0x4D, 3, 4, addressing_mode::Absolute, "EOR"),
        0x4E => opCode::new(0x4E, 3, 6, addressing_mode::Absolute, "LSR"),
        0x4F => opCode::new(0x4F, 3, 6, addressing_mode::Absolute, "*SRE"),
        0x50 => opCode::new(0x50, 2, 2, addressing_mode::Relative, "BVC"),
        0x51 => opCode::new(0x51, 2, 5, addressing_mode::Indirect_Y, "EOR"),
        0x52 => opCode::new(0x52, 1, 2, addressing_mode::NoneAddressing, "*NOP"),
        0x53 => opCode::new(0x53, 2, 8, addressing_mode::Indirect_Y, "*SRE"),
        0x54 => opCode::new(0x54, 2, 4, addressing_mode::ZeroPage_X, "*NOP"),
        0x55 => opCode::new(0x55, 2, 4, addressing_mode::ZeroPage_X, "EOR"),
        0x56 => opCode::new(0x56, 2, 6, addressing_mode::ZeroPage_X, "LSR"),
        0x57 => opCode::new(0x57, 2, 6, addressing_mode::ZeroPage_X, "*SRE"),
        0x58 => opCode::new(0x58, 1, 2, addressing_mode::Implied, "CLI"),
        0x59 => opCode::new(0x59, 3, 4, addressing_mode::Absolute_Y, "EOR"),
        0x5A => opCode::new(0x5A, 1, 2, addressing_mode::NoneAddressing, "*NOP"),
        0x5B => opCode::new(0x5B, 3, 7, addressing_mode::Absolute_Y, "*SRE"),
        0x5C => opCode::new(0x5C, 3, 4, addressing_mode::Absolute_X, "*NOP"),
        0x5D => opCode::new(0x5D, 3, 4, addressing_mode::Absolute_X, "EOR"),
        0x5E => opCode::new(0x5E, 3, 7, addressing_mode::Absolute_X, "LSR"),
        _ => opCode::new(0x5F, 3, 7, addressing_mode::Absolute_X, "*SRE"),
    }
}

/// The rows of opcodes `0x60` to `0x7F`.
pub open spec fn rows_from_60(code: u8) -> opCode {
    match code {
        0x60 => opCode { code: 0x60, bytes: 1, cycles: 6, address_mode: addressing_mode::Implied, mnemonic: "RTS" },
        0x61 => opCode { code: 0x61, bytes: 2, cycles: 6, address_mode: addressing_mode::Indirect_X, mnemonic: "ADC" },
        0x62 => opCode { code: 0x62, bytes: 1, cycles: 2, address_mode: addressing_mode::NoneAddressing, mnemonic: "*NOP" },
        0x63 => opCode { code: 0x63, bytes: 2, cycles: 8, address_mode: addressing_mode::Indirect_X, mnemonic: "*RRA" },
        0x64 => opCode { code: 0x64, bytes: 2, cycles: 3, address_mode: addressing_mode::ZeroPage, mnemonic: "*NOP" },
        0x65 => opCode { code: 0x65, bytes: 2, cycles: 3, address_mode: addressing_mode::ZeroPage, mnemonic: "ADC" },
        0x66 => opCode { code: 0x66, bytes: 2, cycles: 5, address_mode: addressing_mode::ZeroPage, mnemonic: "ROR" },
        0x67 => opCode { code: 0x67, bytes: 2, cycles: 5, address_mode: addressing_mode::ZeroPage, mnemonic: "*RRA" },
        0x68 => opCode { code: 0x68, bytes: 1, cycles: 4, address_mode: addressing_mode::Implied, mnemonic: "PLA" },
        0x69 => opCode { code: 0x69, bytes: 2, cycles: 2, address_mode: addressing_mode::Immediate, mnemonic: "ADC" },
        0x6A => opCode { code: 0x6A, bytes: 1, cycles: 2, address_mode: addressing_mode::Accumulator, mnemonic: "ROR" },
        0x6B => opCode { code: 0x6B, bytes: 2, cycles: 2, address_mode: addressing_mode::Immediate, mnemonic: "*ARR" },
        0x6C => opCode { code: 0x6C, bytes: 3, cycles: 5, address_mode: addressing_mode::Indirect, mnemonic: "JMP" },
        0x6D => opCode { code: 0x6D, bytes: 3, cycles: 4, address_mode: addressing_mode::Absolute, mnemonic: "ADC" },
        0x6E => opCode { code: 0x6E, bytes: 3, cycles: 6, address_mode: addressing_mode::Absolute, mnemonic: "ROR" },
        0x6F => opCode { code: 0x6F, bytes: 3, cycles: 6, address_mode: addressing_mode::Absolute, mnemonic: "*RRA" },
        0x70 => opCode { code: 0x70, bytes: 2, cycles: 2, address_mode: addressing_mode::Relative, mnemonic: "BVS" },
        0x71 => opCode { code: 0x71, bytes: 2, cycles: 5, address_mode: addressing_mode::Indirect_Y, mnemonic: "ADC" },
        0x72 => opCode { code: 0x72, bytes: 1, cycles: 2, address_mode: addressing_mode::NoneAddressing, mnemonic: "*NOP" },
        0x73 => opCode { code: 0x73, bytes: 2, cycles: 8, address_mode: addressing_mode::Indirect_Y, mnemonic: "*RRA" },
        0x74 => opCode { code: 0x74, bytes: 2, cycles: 4, address_mode: addressing_mode::ZeroPage_X, mnemonic: "*NOP" },
        0x75 => opCode { code: 0x75, bytes: 2, cycles: 4, address_mode: addressing_mode::ZeroPage_X, mnemonic: "ADC" },
        0x76 => opCode { code: 0x76, bytes: 2, cycles: 6, address_mode: addressing_mode::ZeroPage_X, mnemonic: "ROR" },
        0x77 => opCode { code: 0x77, bytes: 2, cycles: 6, address_mode: addressing_mode::ZeroPage_X, mnemonic: "*RRA" },
        0x78 => opCode { code: 0x78, bytes: 1, cycles: 2, address_mode: addressing_mode::Implied, mnemonic: "SEI" },
        0x79 => opCode { code: 0x79, bytes: 3, cycles: 4, address_mode: addressing_mode::Absolute_Y, mnemonic: "ADC" },
        0x7A => opCode { code: 0x7A, bytes: 1, cycles: 2, address_mode: addressing_mode::NoneAddressing, mnemonic: "*NOP" },
        0x7B => opCode { code: 0x7B, bytes: 3, cycles: 7, address_mode: addressing_mode::Absolute_Y, mnemonic: "*RRA" },
        0x7C => opCode { code: 0x7C, bytes: 3, cycles: 4, address_mode: addressing_mode::Absolute_X, mnemonic: "*NOP" },
        0x7D => opCode { code: 0x7D, bytes: 3, cycles: 4, address_mode: addressing_mode::Absolute_X, mnemonic: "ADC" },
        0x7E => opCode { code: 0x7E, bytes: 3, cycles: 7, address_mode: addressing_mode::Absolute_X, mnemonic: "ROR" },
        _ => opCode { code: 0x7F, bytes: 3, cycles: 7, address_mode: addressing_mode::Absolute_X, mnemonic: "*RRA" },
    }
}

/// Looks up a row among those of opcodes `0x60` to `0x7F`.
fn lookup_from_60(code: u8) -> (r: opCode)
    requires
        0x60 <= code <= 0x7F,
    ensures
        r == rows_from_60(code),
{
    match code {
        0x60 => opCode::new(0x60, 1, 6, addressing_mode::Implied, "RTS"),
        0x61 => opCode::new(0x61, 2, 6, addressing_mode::Indirect_X, "ADC"),
        0x62 => opCode::new(0x62, 1, 2, addressing_mode::NoneAddressing, "*NOP"),
        0x63 => opCode::new(0x63, 2, 8, addressing_mode::Indirect_X, "*RRA"),
        0x64 => opCode::new(0x64, 2, 3, addressing_mode::ZeroPage, "*NOP"),
        0x65 => opCode::new(0x65, 2, 3, addressing_mode::ZeroPage, "ADC"),
        0x66 => opCode::new(0x66, 2, 5, addressing_mode::ZeroPage, "ROR"),
        0x67 => opCode::new(0x67, 2, 5, addressing_mode::ZeroPage, "*RRA"),
        0x68 => opCode::new(0x68, 1, 4, addressing_mode::Implied, "PLA"),
        0x69 => opCode::new(0x69, 2, 2, addressing_mode::Immediate, "ADC"),
        0x6A => opCode::new(0x6A, 1, 2, addressing_mode::Accumulator, "ROR"),
        0x6B => opCode::new(0x6B, 2, 2, addressing_mode::Immediate, "*ARR"),
        0x6C => opCode::new(0x6C, 3, 5, addressing_mode::Indirect, "JMP"),
        0x6D => opCode::new(0x6D, 3, 4, addressing_mode::Absolute, "ADC"),
        0x6E => opCode::new(0x6E, 3, 6, addressing_mode::Absolute, "ROR"),
        0x6F => opCode::new(0x6F, 3, 6, addressing_mode::Absolute, "*RRA"),
        0x70 => opCode::new(0x70, 2, 2, addressing_mode::Relative, "BVS"),
        0x71 => opCode::new(0x71, 2, 5, addressing_mode::Indirect_Y, "ADC"),
        0x72 => opCode::new(0x72, 1, 2, addressing_mode::NoneAddressing, "*NOP"),
        0x73 => opCode::new(0x73, 2, 8, addressing_mode::Indirect_Y, "*RRA"),
        0x74 => opCode::new(0x74, 2, 4, addressing_mode::ZeroPage_X, "*NOP"),
        0x75 => opCode::new(0x75, 2, 4, addressing_mode::ZeroPage_X, "ADC"),
        0x76 => opCode::new(0x76, 2, 6, addressing_mode::ZeroPage_X, "ROR"),
        0x77 => opCode::new(0x77, 2, 6, addressing_mode::ZeroPage_X, "*RRA"),
        0x78 => opCode::new(0x78, 1, 2, addressing_mode::Implied, "SEI"),
        0x79 => opCode::new(0x79, 3, 4, addressing_mode::Absolute_Y, "ADC"),
        0x7A => opCode::new(0x7A, 1, 2, addressing_mode::NoneAddressing, "*NOP"),
        0x7B => opCode::new(0x7B, 3, 7, addressing_mode::Absolute_Y, "*RRA"),
        0x7C => opCode::new(0x7C, 3, 4, addressing_mode::Absolute_X, "*NOP"),
        0x7D => opCode::new(0x7D, 3, 4, addressing_mode::Absolute_X, "ADC"),
        0x7E => opCode::new(0x7E, 3, 7, addressing_mode::Absolute_X, "ROR"),
        _ => opCode::new(0x7F, 3, 7, addressing_mode::Absolute_X, "*RRA"),
    }
}

/// The rows of opcodes `0x80` to `0x9F`.
pub open spec fn rows_from_80(code: u8) -> opCode {
    match code {
        0x80 => opCode { code: 0x80, bytes: 2, cycles: 2, address_mode: addressing_mode::Immediate, mnemonic: "*NOP" },
        0x81 => opCode { code: 0x81, bytes: 2, cycles: 6, address_mode: addressing_mode::Indirect_X, mnemonic: "STA" },
        0x82 => opCode { code: 0x82, bytes: 2, cycles: 2, address_mode: addressing_mode::Immediate, mnemonic: "*NOP" },
        0x83 => opCode { code: 0x83, bytes: 2, cycles: 6, address_mode: addressing_mode::Indirect_X, mnemonic: "*SAX" },
        0x84 => opCode { code: 0x84, bytes: 2, cycles: 3, address_mode: addressing_mode::ZeroPage, mnemonic: "STY" },
        0x85 => opCode { code: 0x85, bytes: 2, cycles: 3, address_mode: addressing_mode::ZeroPage, mnemonic: "STA" },
        0x86 => opCode { code: 0x86, bytes: 2, cycles: 3, address_mode: addressing_mode::ZeroPage, mnemonic: "STX" },
        0x87 => opCode { code: 0x87, bytes: 2, cycles: 3, address_mode: addressing_mode::ZeroPage, mnemonic: "*SAX" },
        0x88 => opCode { code: 0x88, bytes: 1, cycles: 2, address_mode: addressing_mode::Implied, mnemonic: "DEY" },
        0x89 => opCode { code: 0x89, bytes: 2, cycles: 2, address_mode: addressing_mode::Immediate, mnemonic: "*NOP" },
        0x8A => opCode { code: 0x8A, bytes: 1, cycles: 2, address_mode: addressing_mode::Implied, mnemonic: "TXA" },
        0x8B => opCode { code: 0x8B, bytes: 2, cycles: 3, address_mode: addressing_mode::Immediate, mnemonic: "*XAA" },
        0x8C => opCode { code: 0x8C, bytes: 3, cycles: 4, address_mode: addressing_mode::Absolute, mnemonic: "STY" },
        0x8D => opCode { code: 0x8D, bytes: 3, cycles: 4, address_mode: addressing_mode::Absolute, mnemonic: "STA" },
        0x8E => opCode { code: 0x8E, bytes: 3, cycles: 4, address_mode: addressing_mode::Absolute, mnemonic: "STX" },
        0x8F => opCode { code: 0x8F, bytes: 3, cycles: 4, address_mode: addressing_mode::Absolute, mnemonic: "*SAX" },
        0x90 => opCode { code: 0x90, bytes: 2, cycles: 2, address_mode: addressing_mode::Relative, mnemonic: "BCC" },
        0x91 => opCode { code: 0x91, bytes: 2, cycles: 6, address_mode: addressing_mode::Indirect_Y, mnemonic: "STA" },
        0x92 => opCode { code: 0x92, bytes: 1, cycles: 2, address_mode: addressing_mode::NoneAddressing, mnemonic: "*NOP" },
        0x93 => opCode { code: 0x93, bytes: 2, cycles: 8, address_mode: addressing_mode::Indirect_Y, mnemonic: "*AHX" },
        0x94 => opCode { code: 0x94, bytes: 2, cycles: 4, address_mode: addressing_mode::ZeroPage_X, mnemonic: "STY" },
        0x95 => opCode { code: 0x95, bytes: 2, cycles: 4, address_mode: addressing_mode::ZeroPage_X, mnemonic: "STA" },
        0x96 => opCode { code: 0x96, bytes: 2, cycles: 4, address_mode: addressing_mode::ZeroPage_Y, mnemonic: "STX" },
        0x97 => opCode { code: 0x97, bytes: 2, cycles: 4, address_mode: addressing_mode::ZeroPage_Y, mnemonic: "*SAX" },
        0x98 => opCode { code: 0x98, bytes: 1, cycles: 2, address_mode: addressing_mode::Implied, mnemonic: "TYA" },
        0x99 => opCode { code: 0x99, bytes: 3, cycles: 5, address_mode: addressing_mode::Absolute_Y, mnemonic: "STA" },
        0x9A => opCode { code: 0x9A, bytes: 1, cycles: 2, address_mode: addressing_mode::Implied, mnemonic: "TXS" },
        0x9B => opCode { code: 0x9B, bytes: 3, cycles: 2, address_mode: addressing_mode::Absolute_Y, mnemonic: "*TAS" },
        0x9C => opCode { code: 0x9C, bytes: 3, cycles: 4, address_mode: addressing_mode::Absolute_X, mnemonic: "*SHY" },
        0x9D => opCode { code: 0x9D, bytes: 3, cycles: 5, address_mode: addressing_mode::Absolute_X, mnemonic: "STA" },
        0x9E => opCode { code: 0x9E, bytes: 3, cycles: 4, address_mode: addressing_mode::Absolute_Y, mnemonic: "*SHX" },
        _ => opCode { code: 0x9F, bytes: 3, cycles: 4, address_mode: addressing_mode::Absolute_Y, mnemonic: "*AHX" },
    }
}

/// Looks up a row among those of opcodes `0x80` to `0x9F`.
fn lookup_from_80(code: u8) -> (r: opCode)
    requires
        0x80 <= code <= 0x9F,
    ensures
        r == rows_from_80(code),
{
    match code {
        0x80 => opCode::new(0x80, 2, 2, addressing_mode::Immediate, "*NOP"),
        0x81 => opCode::new(0x81, 2, 6, addressing_mode::Indirect_X, "STA"),
        0x82 => opCode::new(0x82, 2, 2, addressing_mode::Immediate, "*NOP"),
        0x83 => opCode::new(0x83, 2, 6, addressing_mode::Indirect_X, "*SAX"),
        0x84 => opCode::new(0x84, 2, 3, addressing_mode::ZeroPage, "STY"),
        0x85 => opCode::new(0x85, 2, 3, addressing_mode::ZeroPage, "STA"),
        0x86 => opCode::new(0x86, 2, 3, addressing_mode::ZeroPage, "STX"),
        0x87 => opCode::new(0x87, 2, 3, addressing_mode::ZeroPage, "*SAX"),
        0x88 => opCode::new(0x88, 1, 2, addressing_mode::Implied, "DEY"),
        0x89 => opCode::new(0x89, 2, 2, addressing_mode::Immediate, "*NOP"),
        0x8A => opCode::new(0x8A, 1, 2, addressing_mode::Implied, "TXA"),
        0x8B => opCode::new(0x8B, 2, 3, addressing_mode::Immediate, "*XAA"),
        0x8C => opCode::new(0x8C, 3, 4, addressing_mode::Absolute, "STY"),
        0x8D => opCode::new(0x8D, 3, 4, addressing_mode::Absolute, "STA"),
        0x8E => opCode::new(0x8E, 3, 4, addressing_mode::Absolute, "STX"),
        0x8F => opCode::new(0x8F, 3, 4, addressing_mode::Absolute, "*SAX"),
        0x90 => opCode::new(0x90, 2, 2, addressing_mode::Relative, "BCC"),
        0x91 => opCode::new(0x91, 2, 6, addressing_mode::Indirect_Y, "STA"),
        0x92 => opCode::new(0x92, 1, 2, addressing_mode::NoneAddressing, "*NOP"),
        0x93 => opCode::new(0x93, 2, 8, addressing_mode::Indirect_Y, "*AHX"),
        0x94 => opCode::new(0x94, 2, 4, addressing_mode::ZeroPage_X, "STY"),
        0x95 => opCode::new(0x95, 2, 4, addressing_mode::ZeroPage_X, "STA"),
        0x96 => opCode::new(0x96, 2, 4, addressing_mode::ZeroPage_Y, "STX"),
        0x97 => opCode::new(0x97, 2, 4, addressing_mode::ZeroPage_Y, "*SAX"),
        0x98 => opCode::new(0x98, 1, 2, addressing_mode::Implied, "TYA"),
        0x99 => opCode::new(0x99, 3, 5, addressing_mode::Absolute_Y, "STA"),
        0x9A => opCode::new(0x9A, 1, 2, addressing_mode::Implied, "TXS"),
        0x9B => opCode::new(0x9B, 3, 2, addressing_mode::Absolute_Y, "*TAS"),
        0x9C => opCode::new(0x9C, 3, 4, addressing_mode::Absolute_X, "*SHY"),
        0x9D => opCode::new(0x9D, 3, 5, addressing_mode::Absolute_X, "STA"),
        0x9E => opCode::new(0x9E, 3, 4, addressing_mode::Absolute_Y, "*SHX"),
        _ => opCode::new(0x9F, 3, 4, addressing_mode::Absolute_Y, "*AHX"),
    }
}

/// The rows of opcodes `0xA0` to `0xBF`.
pub open spec fn rows_from_a0(code: u8) -> opCode {
    match code {
        0xA0 => opCode { code: 0xA0, bytes: 2, cycles: 2, address_mode: addressing_mode::Immediate, mnemonic: "LDY" },
        0xA1 => opCode { code: 0xA1, bytes: 2, cycles: 6, address_mode: addressing_mode::Indirect_X, mnemonic: "LDA" },
        0xA2 => opCode { code: 0xA2, bytes: 2, cycles: 2, address_mode: addressing_mode::Immediate, mnemonic: "LDX" },
        0xA3 => opCode { code: 0xA3, bytes: 2, cycles: 6, address_mode: addressing_mode::Indirect_X, mnemonic: "*LAX" },
        0xA4 => opCode { code: 0xA4, bytes: 2, cycles: 3, address_mode: addressing_mode::ZeroPage, mnemonic: "LDY" },
        0xA5 => opCode { code: 0xA5, bytes: 2, cycles: 3, address_mode: addressing_mode::ZeroPage, mnemonic: "LDA" },
        0xA6 => opCode { code: 0xA6, bytes: 2, cycles: 3, address_mode: addressing_mode::ZeroPage, mnemonic: "LDX" },
        0xA7 => opCode { code: 0xA7, bytes: 2, cycles: 3, address_mode: addressing_mode::ZeroPage, mnemonic: "*LAX" },
        0xA8 => opCode { code: 0xA8, bytes: 1, cycles: 2, address_mode: addressing_mode::Implied, mnemonic: "TAY" },
        0xA9 => opCode { code: 0xA9, bytes: 2, cycles: 2, address_mode: addressing_mode::Immediate, mnemonic: "LDA" },
        0xAA => opCode { code: 0xAA, bytes: 1, cycles: 2, address_mode: addressing_mode::Implied, mnemonic: "TAX" },
        0xAB => opCode { code: 0xAB, bytes: 2, cycles: 3, address_mode: addressing_mode::Immediate, mnemonic: "*LXA" },
        0xAC => opCode { code: 0xAC, bytes: 3, cycles: 4, address_mode: addressing_mode::Absolute, mnemonic: "LDY" },
        0xAD => opCode { code: 0xAD, bytes: 3, cycles: 4, address_mode: addressing_mode::Absolute, mnemonic: "LDA" },
        0xAE => opCode { code: 0xAE, bytes: 3, cycles: 4, address_mode: addressing_mode::Absolute, mnemonic: "LDX" },
        0xAF => opCode { code: 0xAF, bytes: 3, cycles: 4, address_mode: addressing_mode::Absolute, mnemonic: "*LAX" },
        0xB0 => opCode { code: 0xB0, bytes: 2, cycles: 2, address_mode: addressing_mode::Relative, mnemonic: "BCS" },
        0xB1 => opCode { code: 0xB1, bytes: 2, cycles: 5, address_mode: addressing_mode::Indirect_Y, mnemonic: "LDA" },
        0xB2 => opCode { code: 0xB2, bytes: 1, cycles: 2, address_mode: addressing_mode::NoneAddressing, mnemonic: "*NOP" },
        0xB3 => opCode { code: 0xB3, bytes: 2, cycles: 5, address_mode: addressing_mode::Indirect_Y, mnemonic: "*LAX" },
        0xB4 => opCode { code: 0xB4, bytes: 2, cycles: 4, address_mode: addressing_mode::ZeroPage_X, mnemonic: "LDY" },
        0xB5 => opCode { code: 0xB5, bytes: 2, cycles: 4, address_mode: addressing_mode::ZeroPage_X, mnemonic: "LDA" },
        0xB6 => opCode { code: 0xB6, bytes: 2, cycles: 4, address_mode: addressing_mode::ZeroPage_Y, mnemonic: "LDX" },
        0xB7 => opCode { code: 0xB7, bytes: 2, cycles: 4, address_mode: addressing_mode::ZeroPage_Y, mnemonic: "*LAX" },
        0xB8 => opCode { code: 0xB8, bytes: 1, cycles: 2, address_mode: addressing_mode::Implied, mnemonic: "CLV" },
        0xB9 => opCode { code: 0xB9, bytes: 3, cycles: 4, address_mode: addressing_mode::Absolute_Y, mnemonic: "LDA" },
        0xBA => opCode { code: 0xBA, bytes: 1, cycles: 2, address_mode: addressing_mode::Implied, mnemonic: "TSX" },
        0xBB => opCode { code: 0xBB, bytes: 3, cycles: 2, address_mode: addressing_mode::Absolute_Y, mnemonic: "*LAS" },
        0xBC => opCode { code: 0xBC, bytes: 3, cycles: 4, address_mode: addressing_mode::Absolute_X, mnemonic: "LDY" },
        0xBD => opCode { code: 0xBD, bytes: 3, cycles: 4, address_mode: addressing_mode::Absolute_X, mnemonic: "LDA" },
        0xBE => opCode { code: 0xBE, bytes: 3, cycles: 4, address_mode: addressing_mode::Absolute_Y, mnemonic: "LDX" },
        _ => opCode { code: 0xBF, bytes: 3, cycles: 4, address_mode: addressing_mode::Absolute_Y, mnemonic: "*LAX" },
    }
}

/// Looks up a row among those of opcodes `0xA0` to `0xBF`.
fn lookup_from_a0(code: u8) -> (r: opCode)
    requires
        0xA0 <= code <= 0xBF,
    ensures
        r == rows_from_a0(code),
{
    match code {
        0xA0 => opCode::new(0xA0, 2, 2, addressing_mode::Immediate, "LDY"),
        0xA1 => opCode::new(0xA1, 2, 6, addressing_mode::Indirect_X, "LDA"),
        0xA2 => opCode::new(0xA2, 2, 2, addressing_mode::Immediate, "LDX"),
        0xA3 => opCode::new(0xA3, 2, 6, addressing_mode::Indirect_X, "*LAX"),
        0xA4 => opCode::new(0xA4, 2, 3, addressing_mode::ZeroPage, "LDY"),
        0xA5 => opCode::new(0xA5, 2, 3, addressing_mode::ZeroPage, "LDA"),
        0xA6 => opCode::new(0xA6, 2, 3, addressing_mode::ZeroPage, "LDX"),
        0xA7 => opCode::new(0xA7, 2, 3, addressing_mode::ZeroPage, "*LAX"),
        0xA8 => opCode::new(0xA8, 1, 2, addressing_mode::Implied, "TAY"),
        0xA9 => opCode::new(0xA9, 2, 2, addressing_mode::Immediate, "LDA"),
        0xAA => opCode::new(0xAA, 1, 2, addressing_mode::Implied, "TAX"),
        0xAB => opCode::new(0xAB, 2, 3, addressing_mode::Immediate, "*LXA"),
        0xAC => opCode::new(0xAC, 3, 4, addressing_mode::Absolute, "LDY"),
        0xAD => opCode::new(0xAD, 3, 4, addressing_mode::Absolute, "LDA"),
        0xAE => opCode::new(0xAE, 3, 4, addressing_mode::Absolute, "LDX"),
        0xAF => opCode::new(0xAF, 3, 4, addressing_mode::Absolute, "*LAX"),
        0xB0 => opCode::new(0xB0, 2, 2, addressing_mode::Relative, "BCS"),
        0xB1 => opCode::new(0xB1, 2, 5, addressing_mode::Indirect_Y, "LDA"),
        0xB2 => opCode::new(0xB2, 1, 2, addressing_mode::NoneAddressing, "*NOP"),
        0xB3 => opCode::new(0xB3, 2, 5, addressing_mode::Indirect_Y, "*LAX"),
        0xB4 => opCode::new(0xB4, 2, 4, addressing_mode::ZeroPage_X, "LDY"),
        0xB5 => opCode::new(0xB5, 2, 4, addressing_mode::ZeroPage_X, "LDA"),
        0xB6 => opCode::new(0xB6, 2, 4, addressing_mode::ZeroPage_Y, "LDX"),
        0xB7 => opCode::new(0xB7, 2, 4, addressing_mode::ZeroPage_Y, "*LAX"),
        0xB8 => opCode::new(0xB8, 1, 2, addressing_mode::Implied, "CLV"),
        0xB9 => opCode::new(0xB9, 3, 4, addressing_mode::Absolute_Y, "LDA"),
        0xBA => opCode::new(0xBA, 1, 2, addressing_mode::Implied, "TSX"),
        0xBB => opCode::new(0xBB, 3, 2, addressing_mode::Absolute_Y, "*LAS"),
        0xBC => opCode::new(0xBC, 3, 4, addressing_mode::Absolute_X, "LDY"),
        0xBD => opCode::new(0xBD, 3, 4, addressing_mode::Absolute_X, "LDA"),
        0xBE => opCode::new(0xBE, 3, 4, addressing_mode::Absolute_Y, "LDX"),
        _ => opCode::new(0xBF, 3, 4, addressing_mode::Absolute_Y, "*LAX"),
    }
}

/// The rows of opcodes `0xC0` to `0xDF`.
pub open spec fn rows_from_c0(code: u8) -> opCode {
    match code {
        0xC0 => opCode { code: 0xC0, bytes: 2, cycles: 2, address_mode: addressing_mode::Immediate, mnemonic: "CPY" },
        0xC1 => opCode { code: 0xC1, bytes: 2, cycles: 6, address_mode: addressing_mode::Indirect_X, mnemonic: "CMP" },
        0xC2 => opCode { code: 0xC2, bytes: 2, cycles: 2, address_mode: addressing_mode::Immediate, mnemonic: "*NOP" },
        0xC3 => opCode { code: 0xC3, bytes: 2, cycles: 8, address_mode: addressing_mode::Indirect_X, mnemonic: "*DCP" },
        0xC4 => opCode { code: 0xC4, bytes: 2, cycles: 3, address_mode: addressing_mode::ZeroPage, mnemonic: "CPY" },
        0xC5 => opCode { code: 0xC5, bytes: 2, cycles: 3, address_mode: addressing_mode::ZeroPage, mnemonic: "CMP" },
        0xC6 => opCode { code: 0xC6, bytes: 2, cycles: 5, address_mode: addressing_mode::ZeroPage, mnemonic: "DEC" },
        0xC7 => opCode { code: 0xC7, bytes: 2, cycles: 5, address_mode: addressing_mode::ZeroPage, mnemonic: "*DCP" },
        0xC8 => opCode { code: 0xC8, bytes: 1, cycles: 2, address_mode: addressing_mode::Implied, mnemonic: "INY" },
        0xC9 => opCode { code: 0xC9, bytes: 2, cycles: 2, address_mode: addressing_mode::Immediate, mnemonic: "CMP" },
        0xCA => opCode { code: 0xCA, bytes: 1, cycles: 2, address_mode: addressing_mode::Implied, mnemonic: "DEX" },
        0xCB => opCode { code: 0xCB, bytes: 2, cycles: 2, address_mode: addressing_mode::Immediate, mnemonic: "*AXS" },
        0xCC => opCode { code: 0xCC, bytes: 3, cycles: 4, address_mode: addressing_mode::Absolute, mnemonic: "CPY" },
        0xCD => opCode { code: 0xCD, bytes: 3, cycles: 4, address_mode: addressing_mode::Absolute, mnemonic: "CMP" },
        0xCE => opCode { code: 0xCE, bytes: 3, cycles: 6, address_mode: addressing_mode::Absolute, mnemonic: "DEC" },
        0xCF => opCode { code: 0xCF, bytes: 3, cycles: 6, address_mode: addressing_mode::Absolute, mnemonic: "*DCP" },
        0xD0 => opCode { code: 0xD0, bytes: 2, cycles: 2, address_mode: addressing_mode::Relative, mnemonic: "BNE" },
        0xD1 => opCode { code: 0xD1, bytes: 2, cycles: 5, address_mode: addressing_mode::Indirect_Y, mnemonic: "CMP" },
        0xD2 => opCode { code: 0xD2, bytes: 1, cycles: 2, address_mode: addressing_mode::NoneAddressing, mnemonic: "*NOP" },
        0xD3 => opCode { code: 0xD3, bytes: 2, cycles: 8, address_mode: addressing_mode::Indirect_Y, mnemonic: "*DCP" },
        0xD4 => opCode { code: 0xD4, bytes: 2, cycles: 4, address_mode: addressing_mode::ZeroPage_X, mnemonic: "*NOP" },
        0xD5 => opCode { code: 0xD5, bytes: 2, cycles: 4, address_mode: addressing_mode::ZeroPage_X, mnemonic: "CMP" },
        0xD6 => opCode { code: 0xD6, bytes: 2, cycles: 6, address_mode: addressing_mode::ZeroPage_X, mnemonic: "DEC" },
        0xD7 => opCode { code: 0xD7, bytes: 2, cycles: 6, address_mode: addressing_mode::ZeroPage_X, mnemonic: "*DCP" },
        0xD8 => opCode { code: 0xD8, bytes: 1, cycles: 2, address_mode: addressing_mode::Implied, mnemonic: "CLD" },
        0xD9 => opCode { code: 0xD9, bytes: 3, cycles: 4, address_mode: addressing_mode::Absolute_Y, mnemonic: "CMP" },
        0xDA => opCode { code: 0xDA, bytes: 1, cycles: 2, address_mode: addressing_mode::NoneAddressing, mnemonic: "*NOP" },
        0xDB => opCode { code: 0xDB, bytes: 3, cycles: 7, address_mode: addressing_mode::Absolute_Y, mnemonic: "*DCP" },
        0xDC => opCode { code: 0xDC, bytes: 3, cycles: 4, address_mode: addressing_mode::Absolute_X, mnemonic: "*NOP" },
        0xDD => opCode { code: 0xDD, bytes: 3, cycles: 4, address_mode: addressing_mode::Absolute_X, mnemonic: "CMP" },
        0xDE => opCode { code: 0xDE, bytes: 3, cycles: 7, address_mode: addressing_mode::Absolute_X, mnemonic: "DEC" },
        _ => opCode { code: 0xDF, bytes: 3, cycles: 7, address_mode: addressing_mode::Absolute_X, mnemonic: "*DCP" },
    }
}

/// Looks up a row among those of opcodes `0xC0` to `0xDF`.
fn lookup_from_c0(code: u8) -> (r: opCode)
    requires
        0xC0 <= code <= 0xDF,
    ensures
        r == rows_from_c0(code),
{
    match code {
        0xC0 => opCode::new(0xC0, 2, 2, addressing_mode::Immediate, "CPY"),
        0xC1 => opCode::new(0xC1, 2, 6, addressing_mode::Indirect_X, "CMP"),
        0xC2 => opCode::new(0xC2, 2, 2, addressing_mode::Immediate, "*NOP"),
        0xC3 => opCode::new(0xC3, 2, 8, addressing_mode::Indirect_X, "*DCP"),
        0xC4 => opCode::new(0xC4, 2, 3, addressing_mode::ZeroPage, "CPY"),
        0xC5 => opCode::new(0xC5, 2, 3, addressing_mode::ZeroPage, "CMP"),
        0xC6 => opCode::new(0xC6, 2, 5, addressing_mode::ZeroPage, "DEC"),
        0xC7 => opCode::new(0xC7, 2, 5, addressing_mode::ZeroPage, "*DCP"),
        0xC8 => opCode::new(0xC8, 1, 2, addressing_mode::Implied, "INY"),
        0xC9 => opCode::new(0xC9, 2, 2, addressing_mode::Immediate, "CMP"),
        0xCA => opCode::new(0xCA, 1, 2, addressing_mode::Implied, "DEX"),
        0xCB => opCode::new(0xCB, 2, 2, addressing_mode::Immediate, "*AXS"),
        0xCC => opCode::new(0xCC, 3, 4, addressing_mode::Absolute, "CPY"),
        0xCD => opCode::new(0xCD, 3, 4, addressing_mode::Absolute, "CMP"),
        0xCE => opCode::new(0xCE, 3, 6, addressing_mode::Absolute, "DEC"),
        0xCF => opCode::new(0xCF, 3, 6, addressing_mode::Absolute, "*DCP"),
        0xD0 => opCode::new(0xD0, 2, 2, addressing_mode::Relative, "BNE"),
        0xD1 => opCode::new(0xD1, 2, 5, addressing_mode::Indirect_Y, "CMP"),
        0xD2 => opCode::new(0xD2, 1, 2, addressing_mode::NoneAddressing, "*NOP"),
        0xD3 => opCode::new(0xD3, 2, 8, addressing_mode::Indirect_Y, "*DCP"),
        0xD4 => opCode::new(0xD4, 2, 4, addressing_mode::ZeroPage_X, "*NOP"),
        0xD5 => opCode::new(0xD5, 2, 4, addressing_mode::ZeroPage_X, "CMP"),
        0xD6 => opCode::new(0xD6, 2, 6, addressing_mode::ZeroPage_X, "DEC"),
        0xD7 => opCode::new(0xD7, 2, 6, addressing_mode::ZeroPage_X, "*DCP"),
        0xD8 => opCode::new(0xD8, 1, 2, addressing_mode::Implied, "CLD"),
        0xD9 => opCode::new(0xD9, 3, 4, addressing_mode::Absolute_Y, "CMP"),
        0xDA => opCode::new(0xDA, 1, 2, addressing_mode::NoneAddressing, "*NOP"),
        0xDB => opCode::new(0xDB, 3, 7, addressing_mode::Absolute_Y, "*DCP"),
        0xDC => opCode::new(0xDC, 3, 4, addressing_mode::Absolute_X, "*NOP"),
        0xDD => opCode::new(0xDD, 3, 4, addressing_mode::Absolute_X, "CMP"),
        0xDE => opCode::new(0xDE, 3, 7, addressing_mode::Absolute_X, "DEC"),
        _ => opCode::new(0xDF, 3, 7, addressing_mode::Absolute_X, "*DCP"),
    }
}

/// The rows of opcodes `0xE0` to `0xFF`.
pub open spec fn rows_from_e0(code: u8) -> opCode {
    match code {
        0xE0 => opCode { code: 0xE0, bytes: 2, cycles: 2, address_mode: addressing_mode::Immediate, mnemonic: "CPX" },
        0xE1 => opCode { code: 0xE1, bytes: 2, cycles: 6, address_mode: addressing_mode::Indirect_X, mnemonic: "SBC" },
        0xE2 => opCode { code: 0xE2, bytes: 2, cycles: 2, address_mode: addressing_mode::Immediate, mnemonic: "*NOP" },
        0xE3 => opCode { code: 0xE3, bytes: 2, cycles: 8, address_mode: addressing_mode::Indirect_X, mnemonic: "*ISB" },
        0xE4 => opCode { code: 0xE4, bytes: 2, cycles: 3, address_mode: addressing_mode::ZeroPage, mnemonic: "CPX" },
        0xE5 => opCode { code: 0xE5, bytes: 2, cycles: 3, address_mode: addressing_mode::ZeroPage, mnemonic: "SBC" },
        0xE6 => opCode { code: 0xE6, bytes: 2, cycles: 5, address_mode: addressing_mode::ZeroPage, mnemonic: "INC" },
        0xE7 => opCode { code: 0xE7, bytes: 2, cycles: 5, address_mode: addressing_mode::ZeroPage, mnemonic: "*ISB" },
        0xE8 => opCode { code: 0xE8, bytes: 1, cycles: 2, address_mode: addressing_mode::Implied, mnemonic: "INX" },
        0xE9 => opCode { code: 0xE9, bytes: 2, cycles: 2, address_mode: addressing_mode::Immediate, mnemonic: "SBC" },
        0xEA => opCode { code: 0xEA, bytes: 1, cycles: 2, address_mode: addressing_mode::Implied, mnemonic: "NOP" },
        0xEB => opCode { code: 0xEB, bytes: 2, cycles: 2, address_mode: addressing_mode::Immediate, mnemonic: "*SBC" },
        0xEC => opCode { code: 0xEC, bytes: 3, cycles: 4, address_mode: addressing_mode::Absolute, mnemonic: "CPX" },
        0xED => opCode { code: 0xED, bytes: 3, cycles: 4, address_mode: addressing_mode::Absolute, mnemonic: "SBC" },
        0xEE => opCode { code: 0xEE, bytes: 3, cycles: 6, address_mode: addressing_mode::Absolute, mnemonic: "INC" },
        0xEF => opCode { code: 0xEF, bytes: 3, cycles: 6, address_mode: addressing_mode::Absolute, mnemonic: "*ISB" },
        0xF0 => opCode { code: 0xF0, bytes: 2, cycles: 2, address_mode: addressing_mode::Relative, mnemonic: "BEQ" },
        0xF1 => opCode { code: 0xF1, bytes: 2, cycles: 5, address_mode: addressing_mode::Indirect_Y, mnemonic: "SBC" },
        0xF2 => opCode { code: 0xF2, bytes: 1, cycles: 2, address_mode: addressing_mode::NoneAddressing, mnemonic: "*NOP" },
        0xF3 => opCode { code: 0xF3, bytes: 2, cycles: 8, address_mode: addressing_mode::Indirect_Y, mnemonic: "*ISB" },
        0xF4 => opCode { code: 0xF4, bytes: 2, cycles: 4, address_mode: addressing_mode::ZeroPage_X, mnemonic: "*NOP" },
        0xF5 => opCode { code: 0xF5, bytes: 2, cycles: 4, address_mode: addressing_mode::ZeroPage_X, mnemonic: "SBC" },
        0xF6 => opCode { code: 0xF6, bytes: 2, cycles: 6, address_mode: addressing_mode::ZeroPage_X, mnemonic: "INC" },
        0xF7 => opCode { code: 0xF7, bytes: 2, cycles: 6, address_mode: addressing_mode::ZeroPage_X, mnemonic: "*ISB" },
        0xF8 => opCode { code: 0xF8, bytes: 1, cycles: 2, address_mode: addressing_mode::Implied, mnemonic: "SED" },
        0xF9 => opCode { code: 0xF9, bytes: 3, cycles: 4, address_mode: addressing_mode::Absolute_Y, mnemonic: "SBC" },
        0xFA => opCode { code: 0xFA, bytes: 1, cycles: 2, address_mode: addressing_mode::NoneAddressing, mnemonic: "*NOP" },
        0xFB => opCode { code: 0xFB, bytes: 3, cycles: 7, address_mode: addressing_mode::Absolute_Y, mnemonic: "*ISB" },
        0xFC => opCode { code: 0xFC, bytes: 3, cycles: 4, address_mode: addressing_mode::Absolute_X, mnemonic: "*NOP" },
        0xFD => opCode { code: 0xFD, bytes: 3, cycles: 4, address_mode: addressing_mode::Absolute_X, mnemonic: "SBC" },
        0xFE => opCode { code: 0xFE, bytes: 3, cycles: 7, address_mode: addressing_mode::Absolute_X, mnemonic: "INC" },
        _ => opCode { code: 0xFF, bytes: 3, cycles: 7, address_mode: addressing_mode::Absolute_X, mnemonic: "*ISB" },
    }
}

/// Looks up a row among those of opcodes `0xE0` to `0xFF`.
fn lookup_from_e0(code: u8) -> (r: opCode)
    requires
        0xE0 <= code <= 0xFF,
    ensures
        r == rows_from_e0(code),
{
    match code {
        0xE0 => opCode::new(0xE0, 2, 2, addressing_mode::Immediate, "CPX"),
        0xE1 => opCode::new(0xE1, 2, 6, addressing_mode::Indirect_X, "SBC"),
        0xE2 => opCode::new(0xE2, 2, 2, addressing_mode::Immediate, "*NOP"),
        0xE3 => opCode::new(0xE3, 2, 8, addressing_mode::Indirect_X, "*ISB"),
        0xE4 => opCode::new(0xE4, 2, 3, addressing_mode::ZeroPage, "CPX"),
        0xE5 => opCode::new(0xE5, 2, 3, addressing_mode::ZeroPage, "SBC"),
        0xE6 => opCode::new(0xE6, 2, 5, addressing_mode::ZeroPage, "INC"),
        0xE7 => opCode::new(0xE7, 2, 5, addressing_mode::ZeroPage, "*ISB"),
        0xE8 => opCode::new(0xE8, 1, 2, addressing_mode::Implied, "INX"),
        0xE9 => opCode::new(0xE9, 2, 2, addressing_mode::Immediate, "SBC"),
        0xEA => opCode::new(0xEA, 1, 2, addressing_mode::Implied, "NOP"),
        0xEB => opCode::new(0xEB, 2, 2, addressing_mode::Immediate, "*SBC"),
        0xEC => opCode::new(0xEC, 3, 4, addressing_mode::Absolute, "CPX"),
        0xED => opCode::new(0xED, 3, 4, addressing_mode::Absolute, "SBC"),
        0xEE => opCode::new(0xEE, 3, 6, addressing_mode::Absolute, "INC"),
        0xEF => opCode::new(0xEF, 3, 6, addressing_mode::Absolute, "*ISB"),
        0xF0 => opCode::new(0xF0, 2, 2, addressing_mode::Relative, "BEQ"),
        0xF1 => opCode::new(0xF1, 2, 5, addressing_mode::Indirect_Y, "SBC"),
        0xF2 => opCode::new(0xF2, 1, 2, addressing_mode::NoneAddressing, "*NOP"),
        0xF3 => opCode::new(0xF3, 2, 8, addressing_mode::Indirect_Y, "*ISB"),
        0xF4 => opCode::new(0xF4, 2, 4, addressing_mode::ZeroPage_X, "*NOP"),
        0xF5 => opCode::new(0xF5, 2, 4, addressing_mode::ZeroPage_X, "SBC"),
        0xF6 => opCode::new(0xF6, 2, 6, addressing_mode::ZeroPage_X, "INC"),
        0xF7 => opCode::new(0xF7, 2, 6, addressing_mode::ZeroPage_X, "*ISB"),
        0xF8 => opCode::new(0xF8, 1, 2, addressing_mode::Implied, "SED"),
        0xF9 => opCode::new(0xF9, 3, 4, addressing_mode::Absolute_Y, "SBC"),
        0xFA => opCode::new(0xFA, 1, 2, addressing_mode::NoneAddressing, "*NOP"),
        0xFB => opCode::new(0xFB, 3, 7, addressing_mode::Absolute_Y, "*ISB"),
        0xFC => opCode::new(0xFC, 3, 4, addressing_mode::Absolute_X, "*NOP"),
        0xFD => opCode::new(0xFD, 3, 4, addressing_mode::Absolute_X, "SBC"),
        0xFE => opCode::new(0xFE, 3, 7, addressing_mode::Absolute_X, "INC"),
        _ => opCode::new(0xFF, 3, 7, addressing_mode::Absolute_X, "*ISB"),
    }
}

/// The row of opcode `code`.
pub open spec fn opcode_row(code: u8) -> opCode {
    if code < 0x20 {
        rows_from_00(code)
    } else if code < 0x40 {
        rows_from_20(code)
    } else if code < 0x60 {
        rows_from_40(code)
    } else if code < 0x80 {
        rows_from_60(code)
    } else if code < 0xA0 {
        rows_from_80(code)
    } else if code < 0xC0 {
        rows_from_a0(code)
    } else if code < 0xE0 {
        rows_from_c0(code)
    } else {
        rows_from_e0(code)
    }
}

/// Looks up the row of opcode `code`.
pub fn opcode_lookup(code: u8) -> (r: opCode)
    ensures
        r == opcode_row(code),
{
    if code < 0x20 {
        lookup_from_00(code)
    } else if code < 0x40 {
        lookup_from_20(code)
    } else if code < 0x60 {
        lookup_from_40(code)
    } else if code < 0x80 {
        lookup_from_60(code)
    } else if code < 0xA0 {
        lookup_from_80(code)
    } else if code < 0xC0 {
        lookup_from_a0(code)
    } else if code < 0xE0 {
        lookup_from_c0(code)
    } else {
        lookup_from_e0(code)
    }
}

/// Every row carries its own opcode, is one to three bytes long, and is as
/// long as its addressing mode says: the opcode and the operand bytes.
pub proof fn row_is_consistent(code: u8)
    ensures
        opcode_row(code).code == code,
        1 <= opcode_row(code).bytes <= 3,
        opcode_row(code).bytes == 1 + opcode_row(code).address_mode.spec_operand_len(),
        1 <= opcode_row(code).cycles <= 8,
{
}

} // verus!
