//! The memory bus: routes 16-bit addresses across cartridge ROM, work RAM
//! with its mirrored echo region, high RAM, the display registers and the
//! unmapped regions that read as zero and drop writes.

use vstd::prelude::*;

verus! {

use crate::rom::ROM;
use crate::rom::rom_len;
use crate::display::Display;
use crate::display::ly_after;
use crate::display::acc_after;
use crate::timer::Timer;

/// Length of the RAM backing store: 0x2000 bytes of work RAM followed by
/// 0x7F bytes of high RAM.
pub open spec fn ram_len() -> int {
    0x207F
}

/// The backing-store index an address writes through to, if any: work RAM,
/// its echo alias, or high RAM.
pub open spec fn ram_slot(loc: u16) -> Option<int> {
    if 0xC000 <= loc && loc <= 0xDFFF {
        Some(loc - 0xC000)
    } else if 0xE000 <= loc && loc <= 0xFDFF {
        Some(loc - 0xE000)
    } else if 0xFF80 <= loc && loc <= 0xFFFE {
        Some(0x2000 + (loc - 0xFF80))
    } else {
        None
    }
}

/// What a bus read returns, over the ROM image, the RAM backing store and
/// the display's line counter.
pub open spec fn bus_read(rom: Seq<u8>, ram: Seq<u8>, ly: u8, loc: u16) -> u8 {
    if loc < 0x8000 {
        rom[loc as int]
    } else if loc == 0xFF44 {
        ly
    } else {
        match ram_slot(loc) {
            Some(i) => ram[i],
            None => 0,
        }
    }
}

/// The RAM backing store after a bus write: updated through `ram_slot`,
/// untouched when the address is read-only or unmapped.
pub open spec fn bus_write(ram: Seq<u8>, loc: u16, val: u8) -> Seq<u8> {
    match ram_slot(loc) {
        Some(i) => ram.update(i, val),
        None => ram,
    }
}

/// The memory bus and the peripherals it owns.
pub struct Memory {
    pub rom: ROM,
    pub ram: Vec<u8>,
    pub disp: Display,
    pub timer: Timer,
}

impl Memory {
    /// The ROM and RAM stores have their fixed sizes and the display state
    /// is in range.
    pub open spec fn wf(&self) -> bool {
        self.rom.wf() && self.ram@.len() == ram_len() && self.disp.wf()
    }

    /// What a read of `loc` returns on this bus.
    pub open spec fn read_spec(&self, loc: u16) -> u8 {
        bus_read(self.rom.data@, self.ram@, self.disp.ly_coord, loc)
    }

    /// A bus with blank ROM, zeroed RAM and peripherals at power-on.
    pub fn create_memory() -> (r: Memory)
        ensures
            r.wf(),
            forall|i: int| 0 <= i < rom_len() ==> r.rom.data@[i] == 0,
            forall|i: int| 0 <= i < ram_len() ==> r.ram@[i] == 0,
            r.rom.r_type == 0,
            r.disp.ly_coord == 0,
            r.disp.steps == 0,
            r.timer.cycles == 0,
    {
        Memory {
            rom: ROM::create_rom(),
            ram: vec![0u8; 0x207F],
            disp: Display::create(),
            timer: Timer::create(),
        }
    }

    /// Forward one instruction's cycle cost to the display and the timer.
    pub fn update(&mut self, steps: u64)
        requires
            old(self).wf(),
            old(self).timer.cycles + steps <= u64::MAX,
            steps + 456 <= u64::MAX,
        ensures
            final(self).wf(),
            final(self).rom == old(self).rom,
            final(self).ram == old(self).ram,
            final(self).disp.ly_coord == ly_after(
                old(self).disp.ly_coord,
                old(self).disp.steps as nat,
                steps as nat,
            ),
            final(self).disp.steps == acc_after(old(self).disp.steps as nat, steps as nat),
            final(self).timer.cycles == old(self).timer.cycles + steps,
    {
        self.disp.update(steps);
        self.timer.step(steps);
    }

    /// Read one byte through the bus.
    pub fn get_mem(&self, loc: u16) -> (r: u8)
        requires
            self.wf(),
        ensures
            r == self.read_spec(loc),
    {
        if loc < 0x8000 {
            self.rom.get_mem(loc)
        } else if 0xC000 <= loc && loc <= 0xDFFF {
            self.ram[(loc - 0xC000) as usize]
        } else if 0xE000 <= loc && loc <= 0xFDFF {
            self.ram[(loc - 0xE000) as usize]
        } else if 0xFF40 <= loc && loc <= 0xFF4B {
            self.disp.get_mem(loc)
        } else if 0xFF80 <= loc && loc <= 0xFFFE {
            self.ram[(0x2000 + (loc - 0xFF80)) as usize]
        } else {
            0
        }
    }

    /// Write one byte through the bus; writes outside the RAM-backed
    /// regions are accepted and dropped.
    pub fn set_mem(&mut self, loc: u16, val: u8)
        requires
            old(self).wf(),
        ensures
            final(self).wf(),
            final(self).rom == old(self).rom,
            final(self).ram@ == bus_write(old(self).ram@, loc, val),
            final(self).disp == old(self).disp,
            final(self).timer == old(self).timer,
    {
        if 0xC000 <= loc && loc <= 0xDFFF {
            self.ram[(loc - 0xC000) as usize] = val;
        } else if 0xE000 <= loc && loc <= 0xFDFF {
            self.ram[(loc - 0xE000) as usize] = val;
        } else if 0xFF40 <= loc && loc <= 0xFF4B {
            self.disp.set_mem(loc, val);
        } else if 0xFF80 <= loc && loc <= 0xFFFE {
            self.ram[(0x2000 + (loc - 0xFF80)) as usize] = val;
        }
    }
}

/// Writing a byte into work RAM reads back unchanged, both at the address
/// written and through its echo alias 0x2000 above it.
pub proof fn lemma_wram_write_read(rom: Seq<u8>, ram: Seq<u8>, ly: u8, a: u16, b: u8)
    requires
        ram.len() == ram_len(),
        0xC000 <= a && a <= 0xDFFF,
    ensures
        bus_read(rom, bus_write(ram, a, b), ly, a) == b,
        a <= 0xDDFF ==> bus_read(rom, bus_write(ram, a, b), ly, (a + 0x2000) as u16) == b,
{
}

/// Writing a byte through the echo region lands in work RAM: it reads back
/// both at the echo address and at the work-RAM address 0x2000 below it.
pub proof fn lemma_echo_write_read(rom: Seq<u8>, ram: Seq<u8>, ly: u8, a: u16, b: u8)
    requires
        ram.len() == ram_len(),
        0xE000 <= a && a <= 0xFDFF,
    ensures
        bus_read(rom, bus_write(ram, a, b), ly, a) == b,
        bus_read(rom, bus_write(ram, a, b), ly, (a - 0x2000) as u16) == b,
{
}

/// Writing a byte into high RAM reads back unchanged.
pub proof fn lemma_hram_write_read(rom: Seq<u8>, ram: Seq<u8>, ly: u8, a: u16, b: u8)
    requires
        ram.len() == ram_len(),
        0xFF80 <= a && a <= 0xFFFE,
    ensures
        bus_read(rom, bus_write(ram, a, b), ly, a) == b,
{
}

} // verus!
