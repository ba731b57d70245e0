//! The bit-packed registers of the picture processing unit. Each is readable
//! both as a byte and flag by flag.

use vstd::prelude::*;

verus! {

/// The two bytes behind the video address port, high byte first, and the
/// latch that says which of them the next write goes to.
#[derive(Clone, Copy, Debug)]
pub struct address_register {
    pub value: (u8, u8),
    pub hi_ptr: bool,
}

/// The 16-bit number whose high byte is `hi` and whose low byte is `lo`.
pub open spec fn join_bytes(hi: u8, lo: u8) -> u16 {
    ((hi as u16) << 8) | (lo as u16)
}

impl address_register {
    /// The address the register holds.
    pub open spec fn spec_get(self) -> u16 {
        join_bytes(self.value.0, self.value.1)
    }

    /// The register holds a 14-bit address.
    pub open spec fn wf(self) -> bool {
        self.value.0 <= 0x3F
    }

    /// The register after a write of `data` to the port: the byte that the
    /// latch selects is replaced, the address is cut to 14 bits, the latch flips.
    pub open spec fn after_update(self, data: u8) -> address_register {
        if self.hi_ptr {
            address_register { value: (data & 0x3F, self.value.1), hi_ptr: false }
        } else {
            address_register { value: (self.value.0 & 0x3F, data), hi_ptr: true }
        }
    }

    /// The register after the address has moved on by `inc`, again cut to 14 bits.
    pub open spec fn after_increment(self, inc: u8) -> address_register {
        let lo: int = self.value.1 + inc;
        let hi: u8 = if lo > 255 {
            if self.value.0 == 255 {
                0u8
            } else {
                (self.value.0 + 1) as u8
            }
        } else {
            self.value.0
        };
        address_register {
            value: (hi & 0x3F, (if lo > 255 { lo - 256 } else { lo }) as u8),
            hi_ptr: self.hi_ptr,
        }
    }

    /// Address 0, with the latch on the high byte.
    pub fn new() -> (r: Self)
        ensures
            r.value == (0u8, 0u8),
            r.hi_ptr,
            r.wf(),
    {
        address_register { value: (0, 0), hi_ptr: true }
    }

    /// Sets both bytes from `data`.
    pub fn set(&mut self, data: u16)
        ensures
            final(self).value == ((data >> 8) as u8, (data & 0x00FF) as u8),
            final(self).hi_ptr == old(self).hi_ptr,
    {
        self.value.0 = #[verifier::truncate] ((data >> 8) as u8);
        self.value.1 = #[verifier::truncate] ((data & 0x00FF) as u8);
    }

    /// A write to the port.
    pub fn update(&mut self, data: u8)
        ensures
            *final(self) == old(self).after_update(data),
            final(self).wf(),
    {
        if self.hi_ptr {
            self.value.0 = data & 0x3F;
        } else {
            self.value.0 = self.value.0 & 0x3F;
            self.value.1 = data;
        }
        self.hi_ptr = !self.hi_ptr;
        proof {
            let written: u8 = data;
            let kept: u8 = old(self).value.0;
            assert(written & 0x3F <= 0x3F && kept & 0x3F <= 0x3F) by (bit_vector);
        }
    }

    /// Moves the address on by `inc`.
    pub fn increment(&mut self, inc: u8)
        ensures
            *final(self) == old(self).after_increment(inc),
            final(self).wf(),
    {
        let lo: u8 = self.value.1;
        self.value.1 = lo.wrapping_add(inc);
        if lo > self.value.1 {
            self.value.0 = self.value.0.wrapping_add(1);
        }
        self.value.0 = self.value.0 & 0x3F;
        proof {
            assert(forall|x: u8| #![auto] x & 0x3F <= 0x3F) by (bit_vector);
        }
    }

    /// Puts the latch back on the high byte.
    pub fn reset_ptr(&mut self)
        ensures
            final(self).value == old(self).value,
            final(self).hi_ptr,
    {
        self.hi_ptr = true;
    }

    /// The address the register holds.
    pub fn get(&self) -> (r: u16)
        ensures
            r == self.spec_get(),
    {
        ((self.value.0 as u16) << 8) | (self.value.1 as u16)
    }

    /// A well-formed register holds an address of at most `0x3FFF`, which is
    /// `256 * high + low`.
    pub proof fn get_is_14_bit(self)
        requires
            self.wf(),
        ensures
            self.spec_get() <= 0x3FFF,
            self.spec_get() == 256 * self.value.0 + self.value.1,
    {
        let h: u8 = self.value.0;
        let l: u8 = self.value.1;
        assert(h <= 0x3F ==> (((h as u16) << 8) | (l as u16)) <= 0x3FFF && (((h as u16) << 8) | (
        l as u16)) == 256 * (h as u16) + (l as u16)) by (bit_vector);
    }

    /// Two writes, the first with the latch on the high byte, leave the
    /// address `((h << 8) | l) & 0x3FFF` and the latch back on the high byte.
    pub proof fn two_writes_set_address(self, h: u8, l: u8)
        requires
            self.hi_ptr,
        ensures
            self.after_update(h).after_update(l).spec_get() == (((h as u16) << 8) | (l as u16))
                & 0x3FFF,
            self.after_update(h).after_update(l).hi_ptr,
            self.after_update(h).after_update(l).wf(),
    {
        assert(((((h & 0x3F) & 0x3F) as u16) << 8) | (l as u16) == (((h as u16) << 8) | (l as u16))
            & 0x3FFF && (h & 0x3F) & 0x3F <= 0x3F) by (bit_vector);
    }

    /// On a well-formed register an increment adds `inc` modulo `0x4000`.
    pub proof fn increment_adds(self, inc: u8)
        requires
            self.wf(),
        ensures
            self.after_increment(inc).spec_get() == (self.spec_get() + inc) % 0x4000,
            self.after_increment(inc).wf(),
    {
        let h: u8 = self.value.0;
        let l: u8 = self.value.1;
        self.get_is_14_bit();
        let r = self.after_increment(inc);
        let rh: u8 = r.value.0;
        let hh: u8 = if l + inc > 255 { (h + 1) as u8 } else { h };
        assert(hh <= 0x40);
        assert(hh <= 0x40 ==> (hh & 0x3F) == (if hh == 0x40 { 0u8 } else { hh })) by (bit_vector);
        assert(rh <= 0x3F);
        r.get_is_14_bit();
    }
}

/// The control register (port `$2000`).
#[derive(Clone, Copy, Debug)]
pub struct ControlRegister {
    pub bits: u8,
}

pub const NAMETABLE1: u8 = 0b0000_0001;
pub const NAMETABLE2: u8 = 0b0000_0010;
pub const VRAM_ADD_INCREMENT: u8 = 0b0000_0100;
pub const SPRITE_PATTERN_ADDR: u8 = 0b0000_1000;
pub const BACKROUND_PATTERN_ADDR: u8 = 0b0001_0000;
pub const SPRITE_SIZE: u8 = 0b0010_0000;
pub const MASTER_SLAVE_SELECT: u8 = 0b0100_0000;
pub const GENERATE_NMI: u8 = 0b1000_0000;

impl ControlRegister {
    /// Whether every bit of `mask` is set.
    pub open spec fn spec_contains(self, mask: u8) -> bool {
        self.bits & mask == mask
    }

    /// How far the video address moves after an access to the data port.
    pub open spec fn spec_vram_addr_increment(self) -> u8 {
        if self.spec_contains(VRAM_ADD_INCREMENT) {
            32
        } else {
            1
        }
    }

    /// Whether the start of vertical blanking raises an interrupt.
    pub open spec fn spec_generate_nmi(self) -> bool {
        self.spec_contains(GENERATE_NMI)
    }

    /// Where the background's pattern table starts.
    pub open spec fn spec_background_pattern_addr(self) -> u16 {
        if self.spec_contains(BACKROUND_PATTERN_ADDR) {
            0x1000
        } else {
            0
        }
    }

    /// Where the sprites' pattern table starts.
    pub open spec fn spec_sprite_pattern_addr(self) -> u16 {
        if self.spec_contains(SPRITE_PATTERN_ADDR) {
            0x1000
        } else {
            0
        }
    }

    /// All flags clear.
    pub fn new() -> (r: Self)
        ensures
            r.bits == 0,
    {
        ControlRegister { bits: 0 }
    }

    /// Whether every bit of `mask` is set.
    pub fn contains(&self, mask: u8) -> (r: bool)
        ensures
            r == self.spec_contains(mask),
    {
        self.bits & mask == mask
    }

    /// 32 if the increment flag is set, 1 if not.
    pub fn vram_addr_increment(&self) -> (r: u8)
        ensures
            r == self.spec_vram_addr_increment(),
    {
        if self.contains(VRAM_ADD_INCREMENT) {
            32
        } else {
            1
        }
    }

    /// Whether the interrupt flag is set.
    pub fn generate_nmi(&self) -> (r: bool)
        ensures
            r == self.spec_generate_nmi(),
    {
        self.contains(GENERATE_NMI)
    }

    /// `0x1000` if the background pattern flag is set, 0 if not.
    pub fn background_pattern_addr(&self) -> (r: u16)
        ensures
            r == self.spec_background_pattern_addr(),
    {
        if !self.contains(BACKROUND_PATTERN_ADDR) {
            0
        } else {
            0x1000
        }
    }

    /// `0x1000` if the sprite pattern flag is set, 0 if not.
    pub fn sprite_pattern_addr(&self) -> (r: u16)
        ensures
            r == self.spec_sprite_pattern_addr(),
    {
        if !self.contains(SPRITE_PATTERN_ADDR) {
            0
        } else {
            0x1000
        }
    }

    /// Replaces all flags by the bits of `data`.
    pub fn update(&mut self, data: u8)
        ensures
            final(self).bits == data,
    {
        self.bits = data;
    }
}

/// The mask register (port `$2001`).
#[derive(Clone, Copy, Debug)]
pub struct MaskRegister {
    pub bits: u8,
}

pub const GREYSCALE: u8 = 0b0000_0001;
pub const SHOW_BACKGROUND_LEFTMOST: u8 = 0b0000_0010;
pub const SHOW_SPRITES_LEFTMOST: u8 = 0b0000_0100;
pub const ENABLE_BACKGROUND_RENDER: u8 = 0b0000_1000;
pub const ENABLE_SPRITE_RENDER: u8 = 0b0001_0000;
pub const EMPHASIZE_RED: u8 = 0b0010_0000;
pub const EMPHASIZE_GREEN: u8 = 0b0100_0000;
pub const EMPHASIZE_BLUE: u8 = 0b1000_0000;

impl MaskRegister {
    /// All flags clear.
    pub fn new() -> (r: Self)
        ensures
            r.bits == 0,
    {
        MaskRegister { bits: 0 }
    }

    /// Replaces all flags by the bits of `data`.
    pub fn update(&mut self, data: u8)
        ensures
            final(self).bits == data,
    {
        self.bits = data;
    }
}

/// The status register (port `$2002`).
#[derive(Clone, Copy, Debug)]
pub struct StatusRegister {
    pub bits: u8,
}

pub const SPRITE_OVERFLOW: u8 = 0b0010_0000;
pub const SPRITE_0_HIT: u8 = 0b0100_0000;
pub const VBLANK: u8 = 0b1000_0000;

/// `bits` with the bits of `mask` set if `on` holds, cleared if not.
pub open spec fn with_flag(bits: u8, mask: u8, on: bool) -> u8 {
    if on {
        bits | mask
    } else {
        bits & !mask
    }
}

/// Sets or clears the bits of `mask` in `bits`.
pub fn set_flag(bits: u8, mask: u8, on: bool) -> (r: u8)
    ensures
        r == with_flag(bits, mask, on),
{
    if on {
        bits | mask
    } else {
        bits & !mask
    }
}

/// A flag of one bit reads back as it was last set, and setting it leaves
/// every other bit alone.
pub proof fn with_flag_sets_only_mask(bits: u8, mask: u8, on: bool)
    ensures
        with_flag(bits, mask, on) & mask == (if on { mask } else { 0u8 }),
        with_flag(bits, mask, on) & !mask == bits & !mask,
{
    assert((bits | mask) & mask == mask && (bits & !mask) & mask == 0u8 && (bits | mask) & !mask
        == bits & !mask && (bits & !mask) & !mask == bits & !mask) by (bit_vector);
}

impl StatusRegister {
    /// Whether the vertical-blank flag is set.
    pub open spec fn spec_check_vblank(self) -> bool {
        self.bits & VBLANK == VBLANK
    }

    /// All flags clear.
    pub fn new() -> (r: Self)
        ensures
            r.bits == 0,
    {
        StatusRegister { bits: 0 }
    }

    /// Sets or clears the sprite-overflow flag.
    pub fn set_sprite_overflow(&mut self, flag: bool)
        ensures
            final(self).bits == with_flag(old(self).bits, SPRITE_OVERFLOW, flag),
    {
        self.bits = set_flag(self.bits, SPRITE_OVERFLOW, flag);
    }

    /// Sets or clears the sprite-0-hit flag.
    pub fn set_sprite_0(&mut self, flag: bool)
        ensures
            final(self).bits == with_flag(old(self).bits, SPRITE_0_HIT, flag),
    {
        self.bits = set_flag(self.bits, SPRITE_0_HIT, flag);
    }

    /// Sets or clears the vertical-blank flag.
    pub fn set_vblank(&mut self, flag: bool)
        ensures
            final(self).bits == with_flag(old(self).bits, VBLANK, flag),
    {
        self.bits = set_flag(self.bits, VBLANK, flag);
    }

    /// Clears the vertical-blank flag.
    pub fn clear_vblank(&mut self)
        ensures
            final(self).bits == with_flag(old(self).bits, VBLANK, false),
    {
        self.bits = set_flag(self.bits, VBLANK, false);
    }

    /// Whether the vertical-blank flag is set.
    pub fn check_vblank(&self) -> (r: bool)
        ensures
            r == self.spec_check_vblank(),
    {
        self.bits & VBLANK == VBLANK
    }

    /// The register as a byte.
    pub fn get(&self) -> (r: u8)
        ensures
            r == self.bits,
    {
        self.bits
    }
}

/// The scroll register (port `$2005`): two bytes written in turn.
#[derive(Clone, Copy, Debug)]
pub struct ScrollRegister {
    pub X_scroll: u8,
    pub Y_scroll: u8,
    pub scroll_ptr: bool,
}

impl ScrollRegister {
    /// The register after a write of `data`: the first write of a pair sets
    /// the horizontal scroll, the second the vertical one.
    pub open spec fn after_write(self, data: u8) -> ScrollRegister {
        if !self.scroll_ptr {
            ScrollRegister { X_scroll: data, Y_scroll: self.Y_scroll, scroll_ptr: true }
        } else {
            ScrollRegister { X_scroll: self.X_scroll, Y_scroll: data, scroll_ptr: false }
        }
    }

    /// No scroll, and the next write is the first of a pair.
    pub fn new() -> (r: Self)
        ensures
            r.X_scroll == 0,
            r.Y_scroll == 0,
            !r.scroll_ptr,
    {
        ScrollRegister { X_scroll: 0, Y_scroll: 0, scroll_ptr: false }
    }

    /// A write to the port.
    pub fn write(&mut self, data: u8)
        ensures
            *final(self) == old(self).after_write(data),
    {
        if !self.scroll_ptr {
            self.X_scroll = data;
        } else {
            self.Y_scroll = data;
        }
        self.scroll_ptr = !self.scroll_ptr;
    }

    /// Makes the next write the first of a pair.
    pub fn reset_ptr(&mut self)
        ensures
            final(self).X_scroll == old(self).X_scroll,
            final(self).Y_scroll == old(self).Y_scroll,
            !final(self).scroll_ptr,
    {
        self.scroll_ptr = false;
    }
}

} // verus!
