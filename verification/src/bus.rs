//! The bus: the address decoder between the processor and RAM, the picture
//! unit's ports, the controller and the cartridge, and the clock that drives
//! the picture unit three dots per processor cycle.
//!
//! | Range             | Read                        | Write                    |
//! |-------------------|-----------------------------|--------------------------|
//! | `$0000..=$1FFF`   | RAM, repeating every 2 KiB  | RAM                      |
//! | `$2000..=$3FFF`   | picture unit ports, repeating every 8 bytes          |
//! | `$4014`           | 0                           | sprite DMA               |
//! | `$4016`           | controller                  | controller strobe        |
//! | `$4018..=$7FFF`   | 0, noted as a fault         | nothing, noted as a fault |
//! | `$8000..=$FFFF`   | program ROM                 | nothing                  |
//! | elsewhere         | 0                           | nothing                  |
//!
//! A port that can only be written reads as 0; a write to a port that can
//! only be read does nothing. Both are noted as faults.

use vstd::prelude::*;
use crate::cartridge::{Mirroring, Rom};
use crate::joypad::{Joypad, JoypadButtons};
use crate::mem::{high_byte, low_byte, next_address, word, Mem};
use crate::ppu::{ppu, PpuState};

verus! {

/// An access that a well-behaved program does not make. The bus answers it
/// with 0 or ignores it, and notes it for whoever runs the machine.
#[derive(Clone, Copy, Debug, PartialEq, Eq, Structural)]
pub enum Fault {
    /// A read at `address`, where there is a port that can only be written.
    ReadOfWriteOnly { address: u16 },
    /// A write at `address`, where there is a port that can only be read.
    WriteToReadOnly { address: u16 },
    /// A read at `address`, where nothing is attached to the bus.
    UnmappedRead { address: u16 },
    /// A write at `address`, where nothing is attached to the bus.
    UnmappedWrite { address: u16 },
    /// A read or write of the picture unit's data port while its video
    /// address `address` lies in `$3000..=$3EFF`.
    VideoMirrorAccess { address: u16 },
    /// A write to the picture unit's data port while its video address
    /// `address` lies in the pattern tables.
    PatternTableWrite { address: u16 },
}

/// The bus with everything attached to it.
pub struct Bus {
    pub cpu_vram: [u8; 2048],
    pub prg_rom: Vec<u8>,
    pub ppu: ppu,
    pub cycles: usize,
    pub joypad: Joypad,
    /// The faults noted since they were last taken, oldest first.
    pub diagnostics: Vec<Fault>,
}

/// The bus as a mathematical value.
pub struct BusState {
    pub cpu_vram: Seq<u8>,
    pub prg_rom: Seq<u8>,
    pub ppu: PpuState,
    pub cycles: usize,
    pub joypad: Joypad,
    pub diagnostics: Seq<Fault>,
}

impl View for Bus {
    type V = BusState;

    open spec fn view(&self) -> BusState {
        BusState {
            cpu_vram: self.cpu_vram@,
            prg_rom: self.prg_rom@,
            ppu: self.ppu@,
            cycles: self.cycles,
            joypad: self.joypad,
            diagnostics: self.diagnostics@,
        }
    }
}

/// The cell of RAM behind an address below `$2000`.
pub open spec fn ram_index(addr: u16) -> int {
    (addr & 0x07FF) as int
}

/// The port of the picture unit behind an address in `$2000..=$3FFF`.
pub open spec fn ppu_port(addr: u16) -> u16 {
    addr & 0x2007
}

/// The cell of program ROM behind an address from `$8000` on: a ROM of
/// 16 KiB repeats in the upper half of the range.
pub open spec fn prg_index(prg_len: int, addr: u16) -> int {
    let offset: int = addr - 0x8000;
    if prg_len == 0x4000 && offset >= 0x4000 {
        offset % 0x4000
    } else {
        offset
    }
}

/// The byte of program ROM at `addr`; 0 where the ROM has no such cell.
pub open spec fn prg_value(prg_rom: Seq<u8>, addr: u16) -> u8 {
    let i = prg_index(prg_rom.len() as int, addr);
    if i < prg_rom.len() {
        prg_rom[i]
    } else {
        0
    }
}

/// Every address below `$2000` falls on one of the 2048 cells of RAM, and
/// the addresses that differ by a multiple of 2048 fall on the same one.
pub proof fn ram_index_bounds(addr: u16)
    ensures
        0 <= ram_index(addr) < 2048,
        ram_index(addr) == addr % 2048,
{
    assert(addr & 0x07FF < 2048 && addr & 0x07FF == addr % 2048) by (bit_vector);
}

/// Every address in `$2000..=$3FFF` falls on one of the eight ports, by its
/// three low bits.
pub proof fn ppu_port_bounds(addr: u16)
    requires
        0x2000 <= addr <= 0x3FFF,
    ensures
        ppu_port(addr) == 0x2000 + addr % 8,
{
    assert(0x2000 <= addr <= 0x3FFF ==> addr & 0x2007 == 0x2000 + addr % 8) by (bit_vector);
}

impl BusState {
    /// The bus as it is built around a cartridge: RAM zeroed, the picture
    /// unit at the start of its first frame, no button pressed, no cycle
    /// counted, no fault noted.
    pub open spec fn initial(prg_rom: Seq<u8>, chr_rom: Seq<u8>, mirroring: Mirroring) -> BusState {
        BusState {
            cpu_vram: Seq::new(2048, |i: int| 0u8),
            prg_rom,
            ppu: PpuState::initial(chr_rom, mirroring),
            cycles: 0,
            joypad: Joypad {
                strobe: false,
                button_index: 0,
                button_status: JoypadButtons { bits: 0 },
            },
            diagnostics: Seq::empty(),
        }
    }

    /// See [`PpuState::wf`].
    pub open spec fn wf(self) -> bool {
        self.ppu.wf() && self.cpu_vram.len() == 2048
    }

    /// The byte that a read at `addr` returns.
    #[verifier::opaque]
    pub open spec fn read_value(self, addr: u16) -> u8 {
        if addr <= 0x1FFF {
            self.cpu_vram[ram_index(addr)]
        } else if addr <= 0x3FFF {
            let port = ppu_port(addr);
            if port == 0x2002 {
                self.ppu.status_register.bits
            } else if port == 0x2004 {
                self.ppu.oam_value()
            } else if port == 0x2007 {
                self.ppu.read_data_value()
            } else {
                0
            }
        } else if addr == 0x4016 {
            self.joypad.read_value()
        } else if addr >= 0x8000 {
            prg_value(self.prg_rom, addr)
        } else {
            0
        }
    }

    /// The fault in a read at `addr`, if it is one: a read of a port that can
    /// only be written, a read of the data port in the unsupported range of
    /// video addresses, or a read between `$4018` and `$7FFF`.
    pub open spec fn read_fault(self, addr: u16) -> Option<Fault> {
        if 0x2000 <= addr <= 0x3FFF {
            let port = ppu_port(addr);
            if port == 0x2002 || port == 0x2004 {
                None
            } else if port == 0x2007 {
                if 0x3000 <= self.ppu.address.spec_get() <= 0x3EFF {
                    Some(Fault::VideoMirrorAccess { address: self.ppu.address.spec_get() })
                } else {
                    None
                }
            } else {
                Some(Fault::ReadOfWriteOnly { address: addr })
            }
        } else if addr == 0x4014 {
            Some(Fault::ReadOfWriteOnly { address: addr })
        } else if 0x4018 <= addr <= 0x7FFF {
            Some(Fault::UnmappedRead { address: addr })
        } else {
            None
        }
    }

    /// The fault in a write at `addr`, if it is one: a write to the status
    /// port, a write to the data port in the pattern tables or in the
    /// unsupported range of video addresses, or a write between `$4018` and
    /// `$7FFF`.
    pub open spec fn write_fault(self, addr: u16) -> Option<Fault> {
        if 0x2000 <= addr <= 0x3FFF {
            let port = ppu_port(addr);
            if port == 0x2002 {
                Some(Fault::WriteToReadOnly { address: addr })
            } else if port == 0x2007 {
                if self.ppu.address.spec_get() <= 0x1FFF {
                    Some(Fault::PatternTableWrite { address: self.ppu.address.spec_get() })
                } else if 0x3000 <= self.ppu.address.spec_get() <= 0x3EFF {
                    Some(Fault::VideoMirrorAccess { address: self.ppu.address.spec_get() })
                } else {
                    None
                }
            } else {
                None
            }
        } else if 0x4018 <= addr <= 0x7FFF {
            Some(Fault::UnmappedWrite { address: addr })
        } else {
            None
        }
    }

    /// The bus with `fault`, if there is one, added to its notes.
    pub open spec fn noted(self, fault: Option<Fault>) -> BusState {
        match fault {
            Some(f) => BusState { diagnostics: self.diagnostics.push(f), ..self },
            None => self,
        }
    }

    /// The bus after a read at `addr`: the status port, the data port and
    /// the controller change when read, and a fault is noted.
    #[verifier::opaque]
    pub open spec fn after_read(self, addr: u16) -> BusState {
        self.read_effect(addr).noted(self.read_fault(addr))
    }

    /// What a read at `addr` does to what is attached to the bus.
    pub open spec fn read_effect(self, addr: u16) -> BusState {
        if 0x2000 <= addr <= 0x3FFF {
            let port = ppu_port(addr);
            if port == 0x2002 {
                BusState { ppu: self.ppu.after_read_status_register(), ..self }
            } else if port == 0x2007 {
                BusState { ppu: self.ppu.after_read_data(), ..self }
            } else {
                self
            }
        } else if addr == 0x4016 {
            BusState { joypad: self.joypad.after_read(), ..self }
        } else {
            self
        }
    }

    /// The bus after `n` reads at `start`, `start + 1`, and so on.
    pub open spec fn after_reads(self, start: u16, n: nat) -> BusState
        decreases n,
    {
        if n == 0 {
            self
        } else {
            self.after_reads(start, (n - 1) as nat).after_read((start + n - 1) as u16)
        }
    }

    /// The bytes that `n` reads at `start`, `start + 1`, and so on return.
    pub open spec fn read_values(self, start: u16, n: nat) -> Seq<u8>
        decreases n,
    {
        if n == 0 {
            Seq::empty()
        } else {
            self.read_values(start, (n - 1) as nat).push(
                self.after_reads(start, (n - 1) as nat).read_value((start + n - 1) as u16),
            )
        }
    }

    /// The bus after a sprite DMA from page `page`: the 256 bytes of the page
    /// are read in order through the bus and handed to the picture unit.
    pub open spec fn after_oam_dma(self, page: u8) -> BusState {
        let start: u16 = (page * 256) as u16;
        let read = self.after_reads(start, 256);
        BusState { ppu: read.ppu.after_write_oam_dma(self.read_values(start, 256)), ..read }
    }

    /// The bus after a write of `data` at `addr`; a fault is noted.
    #[verifier::opaque]
    pub open spec fn after_write(self, addr: u16, data: u8) -> BusState {
        self.write_effect(addr, data).noted(self.write_fault(addr))
    }

    /// What a write of `data` at `addr` does to what is attached to the bus.
    pub open spec fn write_effect(self, addr: u16, data: u8) -> BusState {
        if addr <= 0x1FFF {
            BusState { cpu_vram: self.cpu_vram.update(ram_index(addr), data), ..self }
        } else if addr <= 0x3FFF {
            let port = ppu_port(addr);
            let p = self.ppu;
            BusState {
                ppu: if port == 0x2000 {
                    p.after_write_control_register(data)
                } else if port == 0x2001 {
                    p.after_write_mask_register(data)
                } else if port == 0x2003 {
                    p.after_write_oam_address(data)
                } else if port == 0x2004 {
                    p.after_write_oam_data(data)
                } else if port == 0x2005 {
                    p.after_write_scroll_register(data)
                } else if port == 0x2006 {
                    p.after_write_ppu_address(data)
                } else if port == 0x2007 {
                    p.after_write_data(data)
                } else {
                    p
                },
                ..self
            }
        } else if addr == 0x4014 {
            self.after_oam_dma(data)
        } else if addr == 0x4016 {
            BusState { joypad: self.joypad.after_write(data), ..self }
        } else {
            self
        }
    }

    /// The 16-bit value that two reads at `addr` and the address after it
    /// return, low byte first.
    pub open spec fn read_u16_value(self, addr: u16) -> u16 {
        word(self.read_value(addr), self.after_read(addr).read_value(next_address(addr)))
    }

    /// The bus after those two reads.
    pub open spec fn after_read_u16(self, addr: u16) -> BusState {
        self.after_read(addr).after_read(next_address(addr))
    }

    /// The bus after a write of the low byte of `value` at `addr` and of its
    /// high byte at the address after it.
    pub open spec fn after_write_u16(self, addr: u16, value: u16) -> BusState {
        self.after_write(addr, low_byte(value)).after_write(next_address(addr), high_byte(value))
    }

    /// The cycle counter after `ticks` more cycles.
    pub open spec fn cycles_after(self, ticks: u8) -> usize {
        vstd::wrapping::usize_specs::wrapping_add(self.cycles, ticks as usize)
    }

    /// The bus after `ticks` processor cycles: the picture unit has moved on
    /// by three times as many dots.
    #[verifier::opaque]
    pub open spec fn after_tick(self, ticks: u8) -> BusState {
        BusState {
            cycles: self.cycles_after(ticks),
            ppu: self.ppu.after_tick(ticks).after_tick(ticks).after_tick(ticks),
            ..self
        }
    }

    /// Whether `ticks` cycles raise the interrupt line: none pending before,
    /// one pending after.
    pub open spec fn tick_raises_nmi(self, ticks: u8) -> bool {
        self.ppu.nmi_interrupt is None && self.after_tick(ticks).ppu.nmi_interrupt is Some
    }

    /// The bus after the pending interrupt has been taken.
    pub open spec fn after_poll_nmi(self) -> BusState {
        BusState { ppu: PpuState { nmi_interrupt: None, ..self.ppu }, ..self }
    }
}

impl Bus {
    /// See [`BusState::wf`].
    pub open spec fn wf(&self) -> bool {
        self@.wf()
    }

    /// A bus around the cartridge `rom`.
    pub fn new(rom: Rom) -> (bus: Bus)
        ensures
            bus.wf(),
            bus@ == BusState::initial(rom.prg_rom@, rom.chr_rom@, rom.screen_mirroring),
    {
        let ppu = ppu::new(rom.chr_rom, rom.screen_mirroring);
        let bus = Bus {
            cpu_vram: [0;2048],
            prg_rom: rom.prg_rom,
            ppu: ppu,
            cycles: 0,
            joypad: Joypad::new(),
            diagnostics: Vec::new(),
        };
        assert(bus@.cpu_vram =~= Seq::new(2048, |i: int| 0u8));
        bus
    }

    /// The byte of program ROM at `addr`.
    pub fn read_prg_rom(&self, addr: u16) -> (r: u8)
        requires
            addr >= 0x8000,
        ensures
            r == prg_value(self.prg_rom@, addr),
    {
        let mut offset: u16 = addr - 0x8000;
        if self.prg_rom.len() == 0x4000 && offset >= 0x4000 {
            offset = offset % 0x4000;
        }
        if (offset as usize) < self.prg_rom.len() {
            self.prg_rom[offset as usize]
        } else {
            0
        }
    }

    /// Runs the clock for `ticks` processor cycles and says whether the
    /// picture unit raised its interrupt line in that time. That is the moment
    /// at which a finished frame is to be shown and the controller updated.
    pub fn tick(&mut self, ticks: u8) -> (raised: bool)
        requires
            old(self).wf(),
        ensures
            final(self).wf(),
            final(self)@ == old(self)@.after_tick(ticks),
            raised == old(self)@.tick_raises_nmi(ticks),
    {
        proof {
            reveal(BusState::after_tick);
        }
        self.cycles = self.cycles.wrapping_add(ticks as usize);
        let nmi_before = self.ppu.nmi_interrupt.is_some();
        self.ppu.tick(ticks);
        self.ppu.tick(ticks);
        self.ppu.tick(ticks);
        let nmi_after = self.ppu.nmi_interrupt.is_some();
        !nmi_before && nmi_after
    }

    /// Takes the pending interrupt, if there is one.
    pub fn poll_nmi_status(&mut self) -> (r: Option<u8>)
        ensures
            r == old(self)@.ppu.nmi_interrupt,
            final(self)@ == old(self)@.after_poll_nmi(),
            old(self).wf() ==> final(self).wf(),
    {
        self.ppu.nmi_interrupt.take()
    }

    /// The byte that a read at `addr` would return, with the bus left as it is.
    pub fn peek(&self, addr: u16) -> (r: u8)
        requires
            self.wf(),
        ensures
            r == self@.read_value(addr),
    {
        proof {
            reveal(BusState::read_value);
        }
        proof {
            ram_index_bounds(addr);
        }
        if addr <= 0x1FFF {
            self.cpu_vram[(addr & 0x07FF) as usize]
        } else if addr <= 0x3FFF {
            let port: u16 = addr & 0x2007;
            if port == 0x2002 {
                self.ppu.peek_status_register()
            } else if port == 0x2004 {
                self.ppu.read_oam_data()
            } else if port == 0x2007 {
                self.ppu.peek_data()
            } else {
                0
            }
        } else if addr == 0x4016 {
            self.joypad.peek_joypad()
        } else if addr >= 0x8000 {
            self.read_prg_rom(addr)
        } else {
            0
        }
    }

    /// The 16-bit value at `addr` and the address after it, low byte first,
    /// as two side-effect-free reads of the bus as it is see it.
    pub fn peek_u16(&self, addr: u16) -> (r: u16)
        requires
            self.wf(),
        ensures
            r == word(self@.read_value(addr), self@.read_value(next_address(addr))),
    {
        proof {
            reveal(BusState::read_value);
        }
        let lo: u8 = self.peek(addr);
        let hi: u8 = self.peek(addr.wrapping_add(1));
        (hi as u16) << 8 | (lo as u16)
    }

    /// Adds `fault`, if there is one, to the notes.
    fn note(&mut self, fault: Option<Fault>)
        ensures
            final(self)@ == old(self)@.noted(fault),
    {
        match fault {
            Some(f) => {
                self.diagnostics.push(f);
            },
            None => {},
        }
    }

    /// The fault in a read at `addr`, if it is one.
    pub fn find_read_fault(&self, addr: u16) -> (r: Option<Fault>)
        ensures
            r == self@.read_fault(addr),
    {
        if 0x2000 <= addr && addr <= 0x3FFF {
            let port: u16 = addr & 0x2007;
            if port == 0x2002 || port == 0x2004 {
                None
            } else if port == 0x2007 {
                let video: u16 = self.ppu.address.get();
                if 0x3000 <= video && video <= 0x3EFF {
                    Some(Fault::VideoMirrorAccess { address: video })
                } else {
                    None
                }
            } else {
                Some(Fault::ReadOfWriteOnly { address: addr })
            }
        } else if addr == 0x4014 {
            Some(Fault::ReadOfWriteOnly { address: addr })
        } else if 0x4018 <= addr && addr <= 0x7FFF {
            Some(Fault::UnmappedRead { address: addr })
        } else {
            None
        }
    }

    /// The fault in a write at `addr`, if it is one.
    pub fn find_write_fault(&self, addr: u16) -> (r: Option<Fault>)
        ensures
            r == self@.write_fault(addr),
    {
        if 0x2000 <= addr && addr <= 0x3FFF {
            let port: u16 = addr & 0x2007;
            if port == 0x2002 {
                Some(Fault::WriteToReadOnly { address: addr })
            } else if port == 0x2007 {
                let video: u16 = self.ppu.address.get();
                if video <= 0x1FFF {
                    Some(Fault::PatternTableWrite { address: video })
                } else if 0x3000 <= video && video <= 0x3EFF {
                    Some(Fault::VideoMirrorAccess { address: video })
                } else {
                    None
                }
            } else {
                None
            }
        } else if 0x4018 <= addr && addr <= 0x7FFF {
            Some(Fault::UnmappedWrite { address: addr })
        } else {
            None
        }
    }

    /// Hands out the faults noted so far, oldest first, and forgets them.
    pub fn take_diagnostics(&mut self) -> (r: Vec<Fault>)
        ensures
            r@ == old(self)@.diagnostics,
            final(self)@ == (BusState { diagnostics: Seq::empty(), ..old(self)@ }),
    {
        let mut taken: Vec<Fault> = Vec::new();
        core::mem::swap(&mut taken, &mut self.diagnostics);
        taken
    }

    /// Reads the 256 bytes of page `page` in order.
    fn read_page(&mut self, page: u8) -> (buffer: [u8; 256])
        requires
            old(self).wf(),
        ensures
            final(self).wf(),
            final(self)@ == old(self)@.after_reads((page * 256) as u16, 256),
            buffer@ == old(self)@.read_values((page * 256) as u16, 256),
    {
        let mut buffer: [u8; 256] = [0;256];
        let hi: u16 = (page as u16) * 256;
        let mut i: u16 = 0;
        while i < 256
            invariant
                i <= 256,
                hi == page * 256,
                self.wf(),
                self@ == old(self)@.after_reads(hi, i as nat),
                buffer@.subrange(0, i as int) == old(self)@.read_values(hi, i as nat),
            decreases 256 - i,
        {
            let ghost before = buffer@;
            let b: u8 = self.memory_read(hi + i);
            buffer[i as usize] = b;
            i += 1;
            assert(buffer@.subrange(0, i as int) =~= before.subrange(0, i - 1).push(b));
        }
        assert(buffer@.subrange(0, 256) =~= buffer@);
        buffer
    }
}

impl Mem for Bus {
    open spec fn mem_inv(&self) -> bool {
        self.wf()
    }

    open spec fn reads(&self, address: u16, value: u8, post: &Self) -> bool {
        value == self@.read_value(address) && post@ == self@.after_read(address)
    }

    open spec fn writes(&self, address: u16, value: u8, post: &Self) -> bool {
        post@ == self@.after_write(address, value)
    }

    fn memory_read(&mut self, addr: u16) -> (r: u8)
        ensures
            r == old(self)@.read_value(addr),
            final(self)@ == old(self)@.after_read(addr),
    {
        proof {
            reveal(BusState::read_value);
            reveal(BusState::after_read);
            ram_index_bounds(addr);
        }
        let fault = self.find_read_fault(addr);
        let value: u8 = if addr <= 0x1FFF {
            self.cpu_vram[(addr & 0x07FF) as usize]
        } else if addr <= 0x3FFF {
            let port: u16 = addr & 0x2007;
            if port == 0x2002 {
                self.ppu.read_status_register()
            } else if port == 0x2004 {
                self.ppu.read_oam_data()
            } else if port == 0x2007 {
                self.ppu.read_data()
            } else {
                0
            }
        } else if addr == 0x4016 {
            self.joypad.read_joypad()
        } else if addr >= 0x8000 {
            self.read_prg_rom(addr)
        } else {
            0
        };
        self.note(fault);
        value
    }

    fn memory_write(&mut self, addr: u16, data: u8)
        ensures
            final(self)@ == old(self)@.after_write(addr, data),
    {
        proof {
            reveal(BusState::after_write);
            ram_index_bounds(addr);
        }
        let fault = self.find_write_fault(addr);
        if addr <= 0x1FFF {
            self.cpu_vram[(addr & 0x07FF) as usize] = data;
        } else if addr <= 0x3FFF {
            let port: u16 = addr & 0x2007;
            if port == 0x2000 {
                self.ppu.write_control_register(data);
            } else if port == 0x2001 {
                self.ppu.write_mask_register(data);
            } else if port == 0x2003 {
                self.ppu.write_oam_address(data);
            } else if port == 0x2004 {
                self.ppu.write_oam_data(data);
            } else if port == 0x2005 {
                self.ppu.write_scroll_register(data);
            } else if port == 0x2006 {
                self.ppu.write_ppu_address(data);
            } else if port == 0x2007 {
                self.ppu.write_data(data);
            }
        } else if addr == 0x4014 {
            let buffer: [u8; 256] = self.read_page(data);
            self.ppu.write_oam_dma(&buffer);
        } else if addr == 0x4016 {
            self.joypad.write_joypad(data);
        }
        self.note(fault);
    }

    fn memory_read_u16(&mut self, address: u16) -> (r: u16)
        ensures
            r == old(self)@.read_u16_value(address),
            final(self)@ == old(self)@.after_read_u16(address),
    {
        let ghost pre = *self;
        let lo: u8 = self.memory_read(address);
        let ghost mid = *self;
        let hi: u8 = self.memory_read(address.wrapping_add(1));
        let r: u16 = (hi as u16) << 8 | (lo as u16);
        assert(pre.reads(address, lo, &mid));
        assert(mid.reads(next_address(address), hi, self));
        assert(r == word(lo, hi));
        r
    }

    fn memory_write_u16(&mut self, address: u16, value: u16)
        ensures
            final(self)@ == old(self)@.after_write_u16(address, value),
    {
        let ghost pre = *self;
        let hi: u8 = #[verifier::truncate] ((value >> 8) as u8);
        let lo: u8 = #[verifier::truncate] ((value & 0x00FF) as u8);
        self.memory_write(address, lo);
        let ghost mid = *self;
        self.memory_write(address.wrapping_add(1), hi);
        assert(pre.writes(address, lo, &mid));
        assert(mid.writes(next_address(address), hi, self));
    }
}

} // verus!
