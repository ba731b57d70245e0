//! The picture processing unit: its memories, its register ports and the
//! scanline counter that raises the vertical-blank interrupt.

use vstd::prelude::*;
use crate::cartridge::Mirroring;
use crate::registers::{
    address_register, with_flag, ControlRegister, MaskRegister, ScrollRegister, StatusRegister,
    VBLANK,
};

verus! {

/// Dots in one scanline.
pub const DOTS_PER_SCANLINE: usize = 341;

/// Scanlines in one frame.
pub const SCANLINES_PER_FRAME: u16 = 262;

/// Dots in one frame: 341 dots on each of 262 scanlines.
pub open spec fn dots_per_frame() -> int {
    89342
}

/// The scanline on which vertical blanking starts.
pub const VBLANK_SCANLINE: u16 = 241;

/// The picture processing unit.
pub struct ppu {
    pub chr_rom: Vec<u8>,
    pub palette_table: [u8; 32],
    pub vram: [u8; 2048],
    pub oam_data: [u8; 256],
    pub mirroring: Mirroring,
    pub address: address_register,
    pub control_register: ControlRegister,
    pub internal_buffer: u8,
    pub mask_register: MaskRegister,
    pub status_register: StatusRegister,
    pub oam_address: u8,
    pub scroll_register: ScrollRegister,
    pub scanline: u16,
    pub cycles: usize,
    pub nmi_interrupt: Option<u8>,
}

/// The unit as a mathematical value: memories as sequences, registers as they are.
pub struct PpuState {
    pub chr_rom: Seq<u8>,
    pub palette_table: Seq<u8>,
    pub vram: Seq<u8>,
    pub oam_data: Seq<u8>,
    pub mirroring: Mirroring,
    pub address: address_register,
    pub control_register: ControlRegister,
    pub internal_buffer: u8,
    pub mask_register: MaskRegister,
    pub status_register: StatusRegister,
    pub oam_address: u8,
    pub scroll_register: ScrollRegister,
    pub scanline: u16,
    pub cycles: usize,
    pub nmi_interrupt: Option<u8>,
}

impl View for ppu {
    type V = PpuState;

    open spec fn view(&self) -> PpuState {
        PpuState {
            chr_rom: self.chr_rom@,
            palette_table: self.palette_table@,
            vram: self.vram@,
            oam_data: self.oam_data@,
            mirroring: self.mirroring,
            address: self.address,
            control_register: self.control_register,
            internal_buffer: self.internal_buffer,
            mask_register: self.mask_register,
            status_register: self.status_register,
            oam_address: self.oam_address,
            scroll_register: self.scroll_register,
            scanline: self.scanline,
            cycles: self.cycles,
            nmi_interrupt: self.nmi_interrupt,
        }
    }
}

/// The cell of video RAM behind a nametable address: the address is folded
/// into `$2000..=$2FFF`, and the nametable it falls in is sent to one of the
/// two physical tables. Vertical mirroring pairs tables 0 with 2 and 1 with 3,
/// horizontal mirroring pairs 0 with 1 and 2 with 3; four-screen mirroring
/// folds nothing.
pub open spec fn mirrored_index(mirroring: Mirroring, addr: u16) -> u16 {
    let vram_index: u16 = ((addr & 0x2FFF) - 0x2000) as u16;
    let name_table: int = vram_index as int / 0x400;
    match mirroring {
        Mirroring::VERTICAL => if name_table == 2 || name_table == 3 {
            (vram_index - 0x800) as u16
        } else {
            vram_index
        },
        Mirroring::HORIZONTAL => if name_table == 1 || name_table == 2 {
            (vram_index - 0x400) as u16
        } else if name_table == 3 {
            (vram_index - 0x800) as u16
        } else {
            vram_index
        },
        Mirroring::FOUR_SCREEN => vram_index,
    }
}

/// The cell of the palette table behind a palette address: the table repeats
/// every 32 bytes, and entries `$10`, `$14`, `$18`, `$1C` are those of `$00`,
/// `$04`, `$08`, `$0C`.
pub open spec fn palette_index(addr: u16) -> int {
    let i: int = (addr - 0x3F00) % 32;
    if i == 0x10 || i == 0x14 || i == 0x18 || i == 0x1C {
        i - 0x10
    } else {
        i
    }
}

/// `s[i]`, or 0 where `s` has no cell `i`.
pub open spec fn cell_or_zero(s: Seq<u8>, i: int) -> u8 {
    if 0 <= i < s.len() {
        s[i]
    } else {
        0
    }
}

/// `s` with cell `i` set to `v`; `s` itself where it has no cell `i`.
pub open spec fn store_if_present(s: Seq<u8>, i: int, v: u8) -> Seq<u8> {
    if 0 <= i < s.len() {
        s.update(i, v)
    } else {
        s
    }
}

impl PpuState {
    /// The unit at the start of its first frame: every memory but the
    /// character ROM zeroed, every register clear, both write latches on
    /// their first write, no interrupt pending.
    pub open spec fn initial(chr_rom: Seq<u8>, mirroring: Mirroring) -> PpuState {
        PpuState {
            chr_rom,
            palette_table: Seq::new(32, |i: int| 0u8),
            vram: Seq::new(2048, |i: int| 0u8),
            oam_data: Seq::new(256, |i: int| 0u8),
            mirroring,
            address: address_register { value: (0, 0), hi_ptr: true },
            control_register: ControlRegister { bits: 0 },
            internal_buffer: 0,
            mask_register: MaskRegister { bits: 0 },
            status_register: StatusRegister { bits: 0 },
            oam_address: 0,
            scroll_register: ScrollRegister { X_scroll: 0, Y_scroll: 0, scroll_ptr: false },
            scanline: 0,
            cycles: 0,
            nmi_interrupt: None,
        }
    }

    /// The counters are in range and the video address has 14 bits.
    pub open spec fn wf(self) -> bool {
        &&& self.cycles < 341
        &&& self.scanline < 262
        &&& self.address.wf()
        &&& self.palette_table.len() == 32
        &&& self.vram.len() == 2048
        &&& self.oam_data.len() == 256
    }

    /// The dot the beam is on, counted from the start of the frame.
    pub open spec fn dot(self) -> int {
        self.scanline * 341 + self.cycles
    }

    /// The unit after `ticks` dots, `ticks` being less than a scanline. When
    /// the dot counter passes the end of a scanline the next one starts:
    /// entering scanline 241 sets the vertical-blank flag and, if the control
    /// register asks for it, raises the interrupt; leaving scanline 261 starts
    /// the next frame and clears both.
    pub open spec fn after_tick(self, ticks: u8) -> PpuState {
        if self.cycles + ticks >= 341 {
            let cycles: usize = (self.cycles + ticks - 341) as usize;
            let scanline: u16 = (self.scanline + 1) as u16;
            if scanline >= 262 {
                PpuState {
                    cycles,
                    scanline: 0,
                    nmi_interrupt: None,
                    status_register: StatusRegister {
                        bits: with_flag(self.status_register.bits, VBLANK, false),
                    },
                    ..self
                }
            } else if scanline == 241 {
                PpuState {
                    cycles,
                    scanline,
                    nmi_interrupt: if self.control_register.spec_generate_nmi() {
                        Some(1u8)
                    } else {
                        self.nmi_interrupt
                    },
                    status_register: StatusRegister {
                        bits: with_flag(self.status_register.bits, VBLANK, true),
                    },
                    ..self
                }
            } else {
                PpuState { cycles, scanline, ..self }
            }
        } else {
            PpuState { cycles: (self.cycles + ticks) as usize, ..self }
        }
    }

    /// Whether `ticks` dots end the frame.
    pub open spec fn tick_completes_frame(self, ticks: u8) -> bool {
        self.cycles + ticks >= 341 && self.scanline + 1 >= 262
    }

    /// The unit after a write to the address port.
    pub open spec fn after_write_ppu_address(self, data: u8) -> PpuState {
        PpuState { address: self.address.after_update(data), ..self }
    }

    /// The unit after a write to the control port. Switching the interrupt
    /// flag on during vertical blanking raises the interrupt at once.
    pub open spec fn after_write_control_register(self, data: u8) -> PpuState {
        let control = ControlRegister { bits: data };
        PpuState {
            control_register: control,
            nmi_interrupt: if !self.control_register.spec_generate_nmi()
                && control.spec_generate_nmi() && self.status_register.spec_check_vblank() {
                Some(1u8)
            } else {
                self.nmi_interrupt
            },
            ..self
        }
    }

    /// The unit after a write to the mask port.
    pub open spec fn after_write_mask_register(self, data: u8) -> PpuState {
        PpuState { mask_register: MaskRegister { bits: data }, ..self }
    }

    /// The unit after a read of the status port: the vertical-blank flag is
    /// cleared and both write latches start over.
    pub open spec fn after_read_status_register(self) -> PpuState {
        PpuState {
            status_register: StatusRegister {
                bits: with_flag(self.status_register.bits, VBLANK, false),
            },
            address: address_register { value: self.address.value, hi_ptr: true },
            scroll_register: ScrollRegister {
                X_scroll: self.scroll_register.X_scroll,
                Y_scroll: self.scroll_register.Y_scroll,
                scroll_ptr: false,
            },
            ..self
        }
    }

    /// The byte of sprite memory under the sprite address.
    pub open spec fn oam_value(self) -> u8 {
        self.oam_data[self.oam_address as int]
    }

    /// The unit after a write to the sprite data port: the byte is stored and
    /// the sprite address moves on, wrapping after 255.
    pub open spec fn after_write_oam_data(self, data: u8) -> PpuState {
        PpuState {
            oam_data: self.oam_data.update(self.oam_address as int, data),
            oam_address: if self.oam_address == 255 {
                0u8
            } else {
                (self.oam_address + 1) as u8
            },
            ..self
        }
    }

    /// The unit after a write to the sprite address port.
    pub open spec fn after_write_oam_address(self, address: u8) -> PpuState {
        PpuState { oam_address: address, ..self }
    }

    /// The unit after a write to the scroll port.
    pub open spec fn after_write_scroll_register(self, data: u8) -> PpuState {
        PpuState { scroll_register: self.scroll_register.after_write(data), ..self }
    }

    /// The unit after the video address has moved on by the step that the
    /// control register selects.
    pub open spec fn after_increment_vram_address(self) -> PpuState {
        PpuState {
            address: self.address.after_increment(
                self.control_register.spec_vram_addr_increment(),
            ),
            ..self
        }
    }

    /// The unit after a transfer of a page into sprite memory: byte `i` of the
    /// page lands `i` cells after the sprite address, wrapping after 255, and
    /// the sprite address ends where it started.
    pub open spec fn after_write_oam_dma(self, data: Seq<u8>) -> PpuState {
        PpuState {
            oam_data: Seq::new(
                256,
                |j: int| data[(j - self.oam_address + 256) % 256],
            ),
            ..self
        }
    }

    /// What a read of the data port returns: the palette byte for a palette
    /// address, 0 for the unsupported range `$3000..=$3EFF`, and otherwise the
    /// byte that the previous read left in the buffer.
    pub open spec fn read_data_value(self) -> u8 {
        let address = self.address.spec_get();
        if address <= 0x2FFF {
            self.internal_buffer
        } else if address <= 0x3EFF {
            0
        } else {
            self.palette_table[palette_index(address)]
        }
    }

    /// The byte that a read of the data port puts into the buffer.
    pub open spec fn read_data_buffer(self) -> u8 {
        let address = self.address.spec_get();
        if address <= 0x1FFF {
            cell_or_zero(self.chr_rom, address as int)
        } else if address <= 0x2FFF {
            cell_or_zero(self.vram, mirrored_index(self.mirroring, address) as int)
        } else {
            self.internal_buffer
        }
    }

    /// The unit after a read of the data port.
    pub open spec fn after_read_data(self) -> PpuState {
        PpuState {
            internal_buffer: self.read_data_buffer(),
            ..self.after_increment_vram_address()
        }
    }

    /// The unit after a write to the data port: a nametable address stores
    /// into video RAM, a palette address into the palette table, any other
    /// address stores nothing; then the video address moves on.
    pub open spec fn after_write_data(self, data: u8) -> PpuState {
        let address = self.address.spec_get();
        let stored = if address <= 0x1FFF {
            self
        } else if address <= 0x2FFF {
            PpuState {
                vram: store_if_present(
                    self.vram,
                    mirrored_index(self.mirroring, address) as int,
                    data,
                ),
                ..self
            }
        } else if address <= 0x3EFF {
            self
        } else {
            PpuState {
                palette_table: self.palette_table.update(palette_index(address), data),
                ..self
            }
        };
        stored.after_increment_vram_address()
    }
}

impl ppu {
    /// See [`PpuState::wf`].
    pub open spec fn wf(&self) -> bool {
        self@.wf()
    }

    /// A unit at the start of its first frame.
    pub fn new(chr_rom: Vec<u8>, mirroring: Mirroring) -> (r: Self)
        ensures
            r.wf(),
            r@ == PpuState::initial(chr_rom@, mirroring),
    {
        let r = ppu {
            chr_rom: chr_rom,
            mirroring: mirroring,
            vram: [0;2048],
            oam_data: [0;256],
            palette_table: [0;32],
            address: address_register::new(),
            control_register: ControlRegister::new(),
            internal_buffer: 0,
            mask_register: MaskRegister::new(),
            status_register: StatusRegister::new(),
            oam_address: 0,
            scroll_register: ScrollRegister::new(),
            scanline: 0,
            cycles: 0,
            nmi_interrupt: None,
        };
        assert(r@.palette_table =~= Seq::new(32, |i: int| 0u8));
        assert(r@.vram =~= Seq::new(2048, |i: int| 0u8));
        assert(r@.oam_data =~= Seq::new(256, |i: int| 0u8));
        r
    }

    /// Advances the beam by `ticks` dots and says whether that ended the frame.
    pub fn tick(&mut self, ticks: u8) -> (frame_complete: bool)
        requires
            old(self).wf(),
        ensures
            final(self)@ == old(self)@.after_tick(ticks),
            frame_complete == old(self)@.tick_completes_frame(ticks),
            final(self).wf(),
    {
        self.cycles += ticks as usize;
        if self.cycles >= DOTS_PER_SCANLINE {
            self.cycles -= DOTS_PER_SCANLINE;
            self.scanline += 1;
            if self.scanline == VBLANK_SCANLINE {
                self.status_register.set_vblank(true);
                if self.control_register.generate_nmi() {
                    self.nmi_interrupt = Some(1);
                }
            }
            if self.scanline >= SCANLINES_PER_FRAME {
                self.scanline = 0;
                self.nmi_interrupt = None;
                self.status_register.clear_vblank();
                return true;
            }
        }
        false
    }

    /// A write to the address port (`$2006`).
    pub fn write_ppu_address(&mut self, data: u8)
        ensures
            final(self)@ == old(self)@.after_write_ppu_address(data),
            final(self).address.wf(),
    {
        self.address.update(data);
    }

    /// A write to the control port (`$2000`).
    pub fn write_control_register(&mut self, data: u8)
        ensures
            final(self)@ == old(self)@.after_write_control_register(data),
    {
        let before_nmi_status = self.control_register.generate_nmi();
        self.control_register.update(data);
        if !before_nmi_status && self.control_register.generate_nmi()
            && self.status_register.check_vblank() {
            self.nmi_interrupt = Some(1);
        }
    }

    /// A write to the mask port (`$2001`).
    pub fn write_mask_register(&mut self, data: u8)
        ensures
            final(self)@ == old(self)@.after_write_mask_register(data),
    {
        self.mask_register.update(data);
    }

    /// A read of the status port (`$2002`): the register as it was before the
    /// read cleared its vertical-blank flag.
    pub fn read_status_register(&mut self) -> (data: u8)
        ensures
            data == old(self)@.status_register.bits,
            final(self)@ == old(self)@.after_read_status_register(),
    {
        let data = self.status_register.get();
        self.status_register.clear_vblank();
        self.address.reset_ptr();
        self.scroll_register.reset_ptr();
        data
    }

    /// The status register as a read would return it, with nothing cleared.
    pub fn peek_status_register(&self) -> (data: u8)
        ensures
            data == self@.status_register.bits,
    {
        self.status_register.get()
    }

    /// A read of the sprite data port (`$2004`); the sprite address stays.
    pub fn read_oam_data(&self) -> (r: u8)
        ensures
            r == self@.oam_value(),
    {
        self.oam_data[self.oam_address as usize]
    }

    /// A write to the sprite data port (`$2004`).
    pub fn write_oam_data(&mut self, data: u8)
        ensures
            final(self)@ == old(self)@.after_write_oam_data(data),
    {
        self.oam_data[self.oam_address as usize] = data;
        self.oam_address = self.oam_address.wrapping_add(1);
    }

    /// A write to the sprite address port (`$2003`).
    pub fn write_oam_address(&mut self, address: u8)
        ensures
            final(self)@ == old(self)@.after_write_oam_address(address),
    {
        self.oam_address = address;
    }

    /// A write to the scroll port (`$2005`).
    pub fn write_scroll_register(&mut self, data: u8)
        ensures
            final(self)@ == old(self)@.after_write_scroll_register(data),
    {
        self.scroll_register.write(data);
    }

    /// Moves the video address on after an access to the data port.
    pub fn increment_vram_address(&mut self)
        ensures
            final(self)@ == old(self)@.after_increment_vram_address(),
            final(self).address.wf(),
    {
        self.address.increment(self.control_register.vram_addr_increment());
    }

    /// Copies a page into sprite memory, starting at the sprite address.
    pub fn write_oam_dma(&mut self, data: &[u8; 256])
        ensures
            final(self)@ == old(self)@.after_write_oam_dma(data@),
    {
        let mut i: usize = 0;
        while i < 256
            invariant
                i <= 256,
                self.oam_address as int == (old(self).oam_address + i) % 256,
                forall|k: int|
                    0 <= k < i ==> self.oam_data@[(old(self).oam_address + k) % 256] == data@[k],
                self@ == (PpuState {
                    oam_data: self.oam_data@,
                    oam_address: self.oam_address,
                    ..old(self)@
                }),
            decreases 256 - i,
        {
            self.oam_data[self.oam_address as usize] = data[i];
            self.oam_address = self.oam_address.wrapping_add(1);
            i += 1;
        }
        assert(self.oam_data@ =~= old(self)@.after_write_oam_dma(data@).oam_data) by {
            assert forall|j: int| 0 <= j < 256 implies self.oam_data@[j] == data@[(j - old(
                self,
            ).oam_address + 256) % 256] by {
                let k = (j - old(self).oam_address + 256) % 256;
                assert((old(self).oam_address + k) % 256 == j);
            }
        }
    }

    /// A unit with 2 KiB of zeroed character ROM and horizontal mirroring.
    pub fn new_empty_rom() -> (r: Self)
        ensures
            r.wf(),
            r@ == PpuState::initial(Seq::new(2048, |i: int| 0u8), Mirroring::HORIZONTAL),
    {
        let mut chr: Vec<u8> = Vec::new();
        let mut i: usize = 0;
        while i < 2048
            invariant
                i <= 2048,
                chr@ == Seq::new(i as nat, |k: int| 0u8),
            decreases 2048 - i,
        {
            chr.push(0);
            i += 1;
            assert(chr@ =~= Seq::new(i as nat, |k: int| 0u8));
        }
        ppu::new(chr, Mirroring::HORIZONTAL)
    }

    /// The cell of video RAM behind the nametable address `addr`.
    pub fn mirror_vram_address(&self, addr: u16) -> (r: u16)
        requires
            0x2000 <= addr <= 0x3FFF,
        ensures
            r == mirrored_index(self.mirroring, addr),
            r < 0x1000,
            self.mirroring != Mirroring::FOUR_SCREEN ==> r < 0x800,
    {
        assert(0x2000 <= addr <= 0x3FFF ==> 0x2000 <= addr & 0x2FFF <= 0x2FFF) by (bit_vector);
        let mirrored_vram: u16 = addr & 0x2FFF;
        let vram_index: u16 = mirrored_vram - 0x2000;
        let name_table: u16 = vram_index / 0x400;
        match self.mirroring {
            Mirroring::VERTICAL => if name_table == 2 || name_table == 3 {
                vram_index - 0x800
            } else {
                vram_index
            },
            Mirroring::HORIZONTAL => if name_table == 1 || name_table == 2 {
                vram_index - 0x400
            } else if name_table == 3 {
                vram_index - 0x800
            } else {
                vram_index
            },
            Mirroring::FOUR_SCREEN => vram_index,
        }
    }

    /// The cell of the palette table behind the palette address `addr`.
    pub fn palette_cell(addr: u16) -> (r: usize)
        requires
            0x3F00 <= addr,
        ensures
            r == palette_index(addr),
            r < 32,
    {
        let i: u16 = (addr - 0x3F00) % 32;
        if i == 0x10 || i == 0x14 || i == 0x18 || i == 0x1C {
            (i - 0x10) as usize
        } else {
            i as usize
        }
    }

    /// What a read of the data port would return, with the unit left as it is.
    pub fn peek_data(&self) -> (r: u8)
        requires
            self.address.wf(),
        ensures
            r == self@.read_data_value(),
    {
        let address: u16 = self.address.get();
        proof {
            self.address.get_is_14_bit();
        }
        if address <= 0x2FFF {
            self.internal_buffer
        } else if address <= 0x3EFF {
            0
        } else {
            self.palette_table[Self::palette_cell(address)]
        }
    }

    /// A read of the data port (`$2007`).
    pub fn read_data(&mut self) -> (r: u8)
        requires
            old(self).address.wf(),
        ensures
            r == old(self)@.read_data_value(),
            final(self)@ == old(self)@.after_read_data(),
            final(self).address.wf(),
    {
        let address: u16 = self.address.get();
        proof {
            self.address.get_is_14_bit();
        }
        self.increment_vram_address();
        if address <= 0x1FFF {
            let old_result: u8 = self.internal_buffer;
            self.internal_buffer = if (address as usize) < self.chr_rom.len() {
                self.chr_rom[address as usize]
            } else {
                0
            };
            old_result
        } else if address <= 0x2FFF {
            let old_result: u8 = self.internal_buffer;
            let index: u16 = self.mirror_vram_address(address);
            self.internal_buffer = if index < 2048 {
                self.vram[index as usize]
            } else {
                0
            };
            old_result
        } else if address <= 0x3EFF {
            0
        } else {
            self.palette_table[Self::palette_cell(address)]
        }
    }

    /// A write to the data port (`$2007`).
    pub fn write_data(&mut self, data: u8)
        requires
            old(self).address.wf(),
        ensures
            final(self)@ == old(self)@.after_write_data(data),
            final(self).address.wf(),
    {
        let address: u16 = self.address.get();
        proof {
            self.address.get_is_14_bit();
        }
        if address <= 0x1FFF {
        } else if address <= 0x2FFF {
            let index: u16 = self.mirror_vram_address(address);
            if index < 2048 {
                self.vram[index as usize] = data;
            }
        } else if address <= 0x3EFF {
        } else {
            let cell: usize = Self::palette_cell(address);
            self.palette_table[cell] = data;
        }
        self.increment_vram_address();
    }
}

} // verus!
