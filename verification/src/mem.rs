//! The memory interface that the processor talks to.

use vstd::prelude::*;

verus! {

/// The 16-bit number with low byte `lo` and high byte `hi`.
pub open spec fn word(lo: u8, hi: u8) -> u16 {
    (hi as u16) << 8 | (lo as u16)
}

/// The low byte of `value`.
pub open spec fn low_byte(value: u16) -> u8 {
    (value & 0x00FF) as u8
}

/// The high byte of `value`.
pub open spec fn high_byte(value: u16) -> u8 {
    (value >> 8) as u8
}

/// The address after `address`, wrapping from `$FFFF` to 0.
pub open spec fn next_address(address: u16) -> u16 {
    if address == 0xFFFF {
        0
    } else {
        (address + 1) as u16
    }
}

/// A 16-bit address space of bytes. Reads may have side effects, so both
/// reads and writes are described as relations between the memory before and
/// the memory after.
pub trait Mem: Sized {
    /// What must hold of a memory for it to be read or written.
    spec fn mem_inv(&self) -> bool;

    /// A read at `address` of `self` returns `value` and leaves `post`.
    spec fn reads(&self, address: u16, value: u8, post: &Self) -> bool;

    /// A write of `value` at `address` of `self` leaves `post`.
    spec fn writes(&self, address: u16, value: u8, post: &Self) -> bool;

    /// Reads the byte at `address`.
    fn memory_read(&mut self, address: u16) -> (r: u8)
        requires
            old(self).mem_inv(),
        ensures
            final(self).mem_inv(),
            old(self).reads(address, r, final(self)),
    ;

    /// Writes `value` at `address`.
    fn memory_write(&mut self, address: u16, value: u8)
        requires
            old(self).mem_inv(),
        ensures
            final(self).mem_inv(),
            old(self).writes(address, value, final(self)),
    ;

    /// Reads two bytes, low byte first, and joins them.
    fn memory_read_u16(&mut self, address: u16) -> (r: u16)
        requires
            old(self).mem_inv(),
        ensures
            final(self).mem_inv(),
            exists|mid: Self, lo: u8, hi: u8|
                #![auto]
                old(self).reads(address, lo, &mid) && mid.reads(
                    next_address(address),
                    hi,
                    final(self),
                ) && r == word(lo, hi),
    {
        let ghost pre = *self;
        let lo: u8 = self.memory_read(address);
        let ghost mid = *self;
        let hi: u8 = self.memory_read(address.wrapping_add(1));
        let r: u16 = (hi as u16) << 8 | (lo as u16);
        assert(address.wrapping_add(1) == next_address(address));
        assert(pre.reads(address, lo, &mid));
        assert(mid.reads(next_address(address), hi, self));
        assert(r == word(lo, hi));
        r
    }

    /// Writes the low byte of `value` at `address` and its high byte after it.
    fn memory_write_u16(&mut self, address: u16, value: u16)
        requires
            old(self).mem_inv(),
        ensures
            final(self).mem_inv(),
            exists|mid: Self|
                #![auto]
                old(self).writes(address, low_byte(value), &mid) && mid.writes(
                    next_address(address),
                    high_byte(value),
                    final(self),
                ),
    {
        let ghost pre = *self;
        let hi: u8 = #[verifier::truncate] ((value >> 8) as u8);
        let lo: u8 = #[verifier::truncate] ((value & 0x00FF) as u8);
        self.memory_write(address, lo);
        let ghost mid = *self;
        self.memory_write(address.wrapping_add(1), hi);
        assert(lo == low_byte(value) && hi == high_byte(value));
        assert(pre.writes(address, lo, &mid));
        assert(mid.writes(next_address(address), hi, self));
    }
}

} // verus!
