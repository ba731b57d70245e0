//! One line of disassembly for the instruction that is about to run, in the
//! layout that the logs of processor test programs use:
//!
//! ```text
//! PPPP  HH HH HH  MNEM OPERAND                    A:AA X:XX Y:YY P:PP SP:SS
//! ```
//!
//! The line is made from reads that change nothing: the machine is the same
//! after a trace as before it.

use vstd::prelude::*;
use vstd::string::*;
use crate::cpu::CPU;
use crate::cpu_state::{add16, add8, branch_target, sub16, CpuState};
use crate::instructions::{addressing_mode, opcode_lookup, opcode_row};
use crate::mem::{next_address, word};

verus! {

/// The upper-case hexadecimal digit for `n`.
pub open spec fn hex_digit(n: int) -> Seq<char> {
    if n == 0 {
        "0"@
    } else if n == 1 {
        "1"@
    } else if n == 2 {
        "2"@
    } else if n == 3 {
        "3"@
    } else if n == 4 {
        "4"@
    } else if n == 5 {
        "5"@
    } else if n == 6 {
        "6"@
    } else if n == 7 {
        "7"@
    } else if n == 8 {
        "8"@
    } else if n == 9 {
        "9"@
    } else if n == 10 {
        "A"@
    } else if n == 11 {
        "B"@
    } else if n == 12 {
        "C"@
    } else if n == 13 {
        "D"@
    } else if n == 14 {
        "E"@
    } else {
        "F"@
    }
}

/// A byte as two hexadecimal digits.
pub open spec fn hex2(b: u8) -> Seq<char> {
    hex_digit(b as int / 16) + hex_digit(b as int % 16)
}

/// A 16-bit value as four hexadecimal digits.
pub open spec fn hex4(w: u16) -> Seq<char> {
    hex2((w as int / 256) as u8) + hex2((w as int % 256) as u8)
}

/// `s` followed by `n` spaces.
pub open spec fn padded(s: Seq<char>, n: nat) -> Seq<char>
    decreases n,
{
    if n == 0 {
        s
    } else {
        padded(s, (n - 1) as nat) + " "@
    }
}

/// `s` filled with spaces on the right to `width` characters; `s` itself
/// where it is that long already.
pub open spec fn left_aligned(s: Seq<char>, width: nat) -> Seq<char> {
    if s.len() < width {
        padded(s, (width - s.len()) as nat)
    } else {
        s
    }
}

/// `s` filled with spaces on the left to `width` characters.
pub open spec fn right_aligned(s: Seq<char>, width: nat) -> Seq<char> {
    if s.len() < width {
        padded(Seq::empty(), (width - s.len()) as nat) + s
    } else {
        s
    }
}

/// The 16-bit value at `addr`, low byte first, as two reads that change
/// nothing see it.
pub open spec fn peek_word(s: CpuState, addr: u16) -> u16 {
    word(s.bus.read_value(addr), s.bus.read_value(next_address(addr)))
}

/// The target of an indirect jump through `ptr`: when `ptr` is the last byte
/// of a page, the high byte comes from the start of the same page.
pub open spec fn peek_jump_target(s: CpuState, ptr: u16) -> u16 {
    if ptr & 0x00FF == 0x00FF {
        word(s.bus.read_value(ptr), s.bus.read_value(ptr & 0xFF00))
    } else {
        peek_word(s, ptr)
    }
}

/// The address of the operand whose first byte is at `at`, found by reads
/// that change nothing.
pub open spec fn peek_operand_address(s: CpuState, mode: addressing_mode, at: u16) -> u16 {
    let b = s.bus.read_value(at);
    match mode {
        addressing_mode::Immediate => at,
        addressing_mode::ZeroPage => b as u16,
        addressing_mode::ZeroPage_X => add8(b, s.register_x) as u16,
        addressing_mode::ZeroPage_Y => add8(b, s.register_y) as u16,
        addressing_mode::Absolute => peek_word(s, at),
        addressing_mode::Absolute_X => add16(peek_word(s, at), s.register_x as u16),
        addressing_mode::Absolute_Y => add16(peek_word(s, at), s.register_y as u16),
        addressing_mode::Indirect => peek_jump_target(s, peek_word(s, at)),
        addressing_mode::Indirect_X => {
            let ptr = add8(b, s.register_x);
            word(s.bus.read_value(ptr as u16), s.bus.read_value(add8(ptr, 1) as u16))
        },
        addressing_mode::Indirect_Y => add16(
            word(s.bus.read_value(b as u16), s.bus.read_value(add8(b, 1) as u16)),
            s.register_y as u16,
        ),
        _ => 0,
    }
}

/// The opcode and its operand bytes in hexadecimal, separated by spaces.
pub open spec fn bytes_text(s: CpuState) -> Seq<char> {
    let begin = s.program_counter;
    let code = s.bus.read_value(begin);
    let bytes = opcode_row(code).bytes;
    let first = hex2(code);
    if bytes == 2 {
        first + " "@ + hex2(s.bus.read_value(add16(begin, 1)))
    } else if bytes == 3 {
        first + " "@ + hex2(s.bus.read_value(add16(begin, 1))) + " "@ + hex2(
            s.bus.read_value(add16(begin, 2)),
        )
    } else {
        first
    }
}

/// The operand of a two-byte instruction as text.
pub open spec fn operand_text_2(s: CpuState, mode: addressing_mode) -> Seq<char> {
    let begin = s.program_counter;
    let at = add16(begin, 1);
    let address = s.bus.read_value(at);
    let mem_addr = peek_operand_address(s, mode, at);
    let stored_value = s.bus.read_value(mem_addr);
    match mode {
        addressing_mode::Immediate => "#$"@ + hex2(address),
        addressing_mode::ZeroPage => "$"@ + hex2(address) + " = "@ + hex2(stored_value),
        addressing_mode::ZeroPage_X => "$"@ + hex2(address) + ",X @ "@ + hex2(
            add8(address, s.register_x),
        ) + " = "@ + hex2(stored_value),
        addressing_mode::ZeroPage_Y => "$"@ + hex2(address) + ",Y @ "@ + hex2(
            add8(address, s.register_y),
        ) + " = "@ + hex2(stored_value),
        addressing_mode::Indirect_X => "($"@ + hex2(address) + ",X) @ "@ + hex2(
            add8(address, s.register_x),
        ) + " = "@ + hex4(mem_addr) + " = "@ + hex2(stored_value),
        addressing_mode::Indirect_Y => "($"@ + hex2(address) + "),Y = "@ + hex4(
            sub16(mem_addr, s.register_y as u16),
        ) + " @ "@ + hex4(mem_addr) + " = "@ + hex2(stored_value),
        addressing_mode::Relative => "$"@ + hex4(branch_target(add16(begin, 2), address)),
        _ => Seq::empty(),
    }
}

/// The operand of a three-byte instruction as text. The two jumps to an
/// absolute address, `JMP` and `JSR`, show the address alone.
pub open spec fn operand_text_3(s: CpuState, code: u8, mode: addressing_mode) -> Seq<char> {
    let at = add16(s.program_counter, 1);
    let address = peek_word(s, at);
    let mem_addr = peek_operand_address(s, mode, at);
    let stored_value = s.bus.read_value(mem_addr);
    if code == 0x4C || code == 0x20 {
        "$"@ + hex4(address)
    } else {
        match mode {
            addressing_mode::Indirect => "($"@ + hex4(address) + ") = "@ + hex4(mem_addr),
            addressing_mode::Absolute => "$"@ + hex4(address) + " = "@ + hex2(stored_value),
            addressing_mode::Absolute_X => "$"@ + hex4(address) + ",X @ "@ + hex4(mem_addr)
                + " = "@ + hex2(stored_value),
            addressing_mode::Absolute_Y => "$"@ + hex4(address) + ",Y @ "@ + hex4(mem_addr)
                + " = "@ + hex2(stored_value),
            _ => Seq::empty(),
        }
    }
}

/// The operand as text: `A` for a shift or rotate of the accumulator,
/// nothing for other one-byte instructions.
pub open spec fn operand_text(s: CpuState) -> Seq<char> {
    let code = s.bus.read_value(s.program_counter);
    let row = opcode_row(code);
    if row.bytes == 1 {
        if code == 0x0A || code == 0x4A || code == 0x2A || code == 0x6A {
            "A"@
        } else {
            Seq::empty()
        }
    } else if row.bytes == 2 {
        operand_text_2(s, row.address_mode)
    } else {
        operand_text_3(s, code, row.address_mode)
    }
}

/// The left part of the line: the address in four digits, two spaces, the
/// bytes in a column of eight, a space, the mnemonic right-aligned in a
/// column of four, and, if there is an operand, a space and the operand.
pub open spec fn assembly_text(s: CpuState) -> Seq<char> {
    let code = s.bus.read_value(s.program_counter);
    let head = hex4(s.program_counter) + "  "@ + left_aligned(bytes_text(s), 8) + " "@
        + right_aligned(opcode_row(code).mnemonic@, 4);
    if operand_text(s).len() == 0 {
        head
    } else {
        head + " "@ + operand_text(s)
    }
}

/// The whole line: the left part in a column of 47, then the registers.
pub open spec fn trace_line(s: CpuState) -> Seq<char> {
    left_aligned(assembly_text(s), 47) + " A:"@ + hex2(s.register_a) + " X:"@ + hex2(
        s.register_x,
    ) + " Y:"@ + hex2(s.register_y) + " P:"@ + hex2(s.status) + " SP:"@ + hex2(s.stack_pointer)
}

/// The text of one hexadecimal digit.
fn hex_digit_str(n: u8) -> (r: &'static str)
    requires
        n < 16,
    ensures
        r@ == hex_digit(n as int),
{
    if n == 0 {
        "0"
    } else if n == 1 {
        "1"
    } else if n == 2 {
        "2"
    } else if n == 3 {
        "3"
    } else if n == 4 {
        "4"
    } else if n == 5 {
        "5"
    } else if n == 6 {
        "6"
    } else if n == 7 {
        "7"
    } else if n == 8 {
        "8"
    } else if n == 9 {
        "9"
    } else if n == 10 {
        "A"
    } else if n == 11 {
        "B"
    } else if n == 12 {
        "C"
    } else if n == 13 {
        "D"
    } else if n == 14 {
        "E"
    } else {
        "F"
    }
}

/// A byte as two hexadecimal digits.
pub fn hex2_string(b: u8) -> (r: String)
    ensures
        r@ == hex2(b),
{
    let mut r = String::from_str(hex_digit_str(b / 16));
    r.append(hex_digit_str(b % 16));
    r
}

/// A 16-bit value as four hexadecimal digits.
pub fn hex4_string(w: u16) -> (r: String)
    ensures
        r@ == hex4(w),
{
    let mut r = hex2_string((w / 256) as u8);
    r.append(hex2_string((w % 256) as u8).as_str());
    r
}

/// Appends `n` spaces.
fn pad(out: &mut String, n: usize)
    ensures
        final(out)@ == padded(old(out)@, n as nat),
{
    let mut i: usize = 0;
    while i < n
        invariant
            i <= n,
            out@ == padded(old(out)@, i as nat),
        decreases n - i,
    {
        out.append(" ");
        i += 1;
    }
}

/// Fills `out` with spaces on the right to `width` characters.
fn align_left(out: &mut String, width: usize)
    ensures
        final(out)@ == left_aligned(old(out)@, width as nat),
{
    let len: usize = out.as_str().unicode_len();
    if len < width {
        pad(out, width - len);
    }
}

/// `s` filled with spaces on the left to `width` characters.
fn align_right(s: &str, width: usize) -> (r: String)
    ensures
        r@ == right_aligned(s@, width as nat),
{
    let len: usize = s.unicode_len();
    if len < width {
        let mut r = String::new();
        pad(&mut r, width - len);
        r.append(s);
        r
    } else {
        String::from_str(s)
    }
}

/// Finds the address of the operand whose first byte is at `at` by reads
/// that change nothing.
pub fn peek_operand(cpu: &CPU, mode: &addressing_mode, at: u16) -> (r: u16)
    requires
        cpu.wf(),
    ensures
        r == peek_operand_address(cpu@, *mode, at),
{
    let b: u8 = cpu.bus.peek(at);
    match mode {
        addressing_mode::Immediate => at,
        addressing_mode::ZeroPage => b as u16,
        addressing_mode::ZeroPage_X => b.wrapping_add(cpu.register_x) as u16,
        addressing_mode::ZeroPage_Y => b.wrapping_add(cpu.register_y) as u16,
        addressing_mode::Absolute => cpu.bus.peek_u16(at),
        addressing_mode::Absolute_X => cpu.bus.peek_u16(at).wrapping_add(cpu.register_x as u16),
        addressing_mode::Absolute_Y => cpu.bus.peek_u16(at).wrapping_add(cpu.register_y as u16),
        addressing_mode::Indirect => {
            let ptr: u16 = cpu.bus.peek_u16(at);
            if ptr & 0x00FF == 0x00FF {
                let lo: u8 = cpu.bus.peek(ptr);
                let hi: u8 = cpu.bus.peek(ptr & 0xFF00);
                crate::cpu::make_word(lo, hi)
            } else {
                cpu.bus.peek_u16(ptr)
            }
        },
        addressing_mode::Indirect_X => {
            let ptr: u8 = b.wrapping_add(cpu.register_x);
            let lo: u8 = cpu.bus.peek(ptr as u16);
            let hi: u8 = cpu.bus.peek(ptr.wrapping_add(1) as u16);
            crate::cpu::make_word(lo, hi)
        },
        addressing_mode::Indirect_Y => {
            let lo: u8 = cpu.bus.peek(b as u16);
            let hi: u8 = cpu.bus.peek(b.wrapping_add(1) as u16);
            crate::cpu::make_word(lo, hi).wrapping_add(cpu.register_y as u16)
        },
        _ => 0,
    }
}

/// The opcode and its operand bytes in hexadecimal.
fn bytes_string(cpu: &CPU) -> (r: String)
    requires
        cpu.wf(),
    ensures
        r@ == bytes_text(cpu@),
{
    let begin: u16 = cpu.program_counter;
    let code: u8 = cpu.bus.peek(begin);
    let bytes: u8 = opcode_lookup(code).bytes;
    let mut r = hex2_string(code);
    if bytes == 2 {
        r.append(" ");
        r.append(hex2_string(cpu.bus.peek(begin.wrapping_add(1))).as_str());
    } else if bytes == 3 {
        r.append(" ");
        r.append(hex2_string(cpu.bus.peek(begin.wrapping_add(1))).as_str());
        r.append(" ");
        r.append(hex2_string(cpu.bus.peek(begin.wrapping_add(2))).as_str());
    }
    r
}

/// The operand of a two-byte instruction as text.
fn operand_string_2(cpu: &CPU, mode: &addressing_mode) -> (r: String)
    requires
        cpu.wf(),
    ensures
        r@ == operand_text_2(cpu@, *mode),
{
    let begin: u16 = cpu.program_counter;
    let at: u16 = begin.wrapping_add(1);
    let address: u8 = cpu.bus.peek(at);
    let mem_addr: u16 = peek_operand(cpu, mode, at);
    let stored_value: u8 = cpu.bus.peek(mem_addr);
    match mode {
        addressing_mode::Immediate => {
            let mut r = String::from_str("#$");
            r.append(hex2_string(address).as_str());
            r
        },
        addressing_mode::ZeroPage => {
            let mut r = String::from_str("$");
            r.append(hex2_string(address).as_str());
            r.append(" = ");
            r.append(hex2_string(stored_value).as_str());
            r
        },
        addressing_mode::ZeroPage_X => {
            let mut r = String::from_str("$");
            r.append(hex2_string(address).as_str());
            r.append(",X @ ");
            r.append(hex2_string(address.wrapping_add(cpu.register_x)).as_str());
            r.append(" = ");
            r.append(hex2_string(stored_value).as_str());
            r
        },
        addressing_mode::ZeroPage_Y => {
            let mut r = String::from_str("$");
            r.append(hex2_string(address).as_str());
            r.append(",Y @ ");
            r.append(hex2_string(address.wrapping_add(cpu.register_y)).as_str());
            r.append(" = ");
            r.append(hex2_string(stored_value).as_str());
            r
        },
        addressing_mode::Indirect_X => {
            let mut r = String::from_str("($");
            r.append(hex2_string(address).as_str());
            r.append(",X) @ ");
            r.append(hex2_string(address.wrapping_add(cpu.register_x)).as_str());
            r.append(" = ");
            r.append(hex4_string(mem_addr).as_str());
            r.append(" = ");
            r.append(hex2_string(stored_value).as_str());
            r
        },
        addressing_mode::Indirect_Y => {
            let mut r = String::from_str("($");
            r.append(hex2_string(address).as_str());
            r.append("),Y = ");
            r.append(hex4_string(mem_addr.wrapping_sub(cpu.register_y as u16)).as_str());
            r.append(" @ ");
            r.append(hex4_string(mem_addr).as_str());
            r.append(" = ");
            r.append(hex2_string(stored_value).as_str());
            r
        },
        addressing_mode::Relative => {
            let from: u16 = begin.wrapping_add(2);
            let target: u16 = if address < 128 {
                from.wrapping_add(address as u16)
            } else {
                from.wrapping_sub(256 - (address as u16))
            };
            let mut r = String::from_str("$");
            r.append(hex4_string(target).as_str());
            r
        },
        _ => String::new(),
    }
}

/// The operand of a three-byte instruction as text.
fn operand_string_3(cpu: &CPU, code: u8, mode: &addressing_mode) -> (r: String)
    requires
        cpu.wf(),
    ensures
        r@ == operand_text_3(cpu@, code, *mode),
{
    let at: u16 = cpu.program_counter.wrapping_add(1);
    let address: u16 = cpu.bus.peek_u16(at);
    let mem_addr: u16 = peek_operand(cpu, mode, at);
    let stored_value: u8 = cpu.bus.peek(mem_addr);
    if code == 0x4C || code == 0x20 {
        let mut r = String::from_str("$");
        r.append(hex4_string(address).as_str());
        return r;
    }
    match mode {
        addressing_mode::Indirect => {
            let mut r = String::from_str("($");
            r.append(hex4_string(address).as_str());
            r.append(") = ");
            r.append(hex4_string(mem_addr).as_str());
            r
        },
        addressing_mode::Absolute => {
            let mut r = String::from_str("$");
            r.append(hex4_string(address).as_str());
            r.append(" = ");
            r.append(hex2_string(stored_value).as_str());
            r
        },
        addressing_mode::Absolute_X => {
            let mut r = String::from_str("$");
            r.append(hex4_string(address).as_str());
            r.append(",X @ ");
            r.append(hex4_string(mem_addr).as_str());
            r.append(" = ");
            r.append(hex2_string(stored_value).as_str());
            r
        },
        addressing_mode::Absolute_Y => {
            let mut r = String::from_str("$");
            r.append(hex4_string(address).as_str());
            r.append(",Y @ ");
            r.append(hex4_string(mem_addr).as_str());
            r.append(" = ");
            r.append(hex2_string(stored_value).as_str());
            r
        },
        _ => String::new(),
    }
}

/// The operand as text.
fn operand_string(cpu: &CPU) -> (r: String)
    requires
        cpu.wf(),
    ensures
        r@ == operand_text(cpu@),
{
    let code: u8 = cpu.bus.peek(cpu.program_counter);
    let row = opcode_lookup(code);
    if row.bytes == 1 {
        if code == 0x0A || code == 0x4A || code == 0x2A || code == 0x6A {
            String::from_str("A")
        } else {
            String::new()
        }
    } else if row.bytes == 2 {
        operand_string_2(cpu, &row.address_mode)
    } else {
        operand_string_3(cpu, code, &row.address_mode)
    }
}

/// The line for the instruction under the program counter.
pub fn trace(cpu: &CPU) -> (line: String)
    requires
        cpu.wf(),
    ensures
        line@ == trace_line(cpu@),
{
    let code: u8 = cpu.bus.peek(cpu.program_counter);
    let row = opcode_lookup(code);
    let mut bytes = bytes_string(cpu);
    align_left(&mut bytes, 8);
    let operand = operand_string(cpu);
    let mut line = hex4_string(cpu.program_counter);
    line.append("  ");
    line.append(bytes.as_str());
    line.append(" ");
    line.append(align_right(row.mnemonic, 4).as_str());
    if operand.as_str().unicode_len() != 0 {
        line.append(" ");
        line.append(operand.as_str());
    }
    align_left(&mut line, 47);
    line.append(" A:");
    line.append(hex2_string(cpu.register_a).as_str());
    line.append(" X:");
    line.append(hex2_string(cpu.register_x).as_str());
    line.append(" Y:");
    line.append(hex2_string(cpu.register_y).as_str());
    line.append(" P:");
    line.append(hex2_string(cpu.status).as_str());
    line.append(" SP:");
    line.append(hex2_string(cpu.stack_pointer).as_str());
    line
}

} // verus!
