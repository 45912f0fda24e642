//! iNES mapper 0: NROM. Non-switchable PRG ROM, mirrored to fill the space;
//! non-switchable CHR.
use vstd::prelude::*;

use crate::emulator::memory::{Mapper, Memory, MemoryView, memory_put};
use crate::emulator::ppu::MirrorMode;
use crate::emulator::state::{MapperState, MapperStateView, SaveState};

verus! {

pub struct NROM {
    prg_rom: Memory,
    chr_rom: Memory,
    mirror_mode: MirrorMode,
}

pub struct NromView {
    pub prg_rom: MemoryView,
    pub chr_rom: MemoryView,
    pub mirror_mode: MirrorMode,
}

impl View for NROM {
    type V = NromView;

    closed spec fn view(&self) -> NromView {
        NromView { prg_rom: self.prg_rom@, chr_rom: self.chr_rom@, mirror_mode: self.mirror_mode }
    }
}

/// The PRG byte a program address selects: the ROM repeats from $8000 on,
/// its length taken as a 16-bit number.
pub open spec fn nrom_prg_index(prg_len: nat, address: u16) -> int {
    (((address - 0x8000) as u16) % (prg_len as u16)) as int
}

impl NROM {
    pub fn new(prg_rom: Memory, chr_rom: Memory, mirror_mode: MirrorMode) -> (m: NROM)
        ensures
            m@ == (NromView { prg_rom: prg_rom@, chr_rom: chr_rom@, mirror_mode }),
    {
        NROM { prg_rom, chr_rom, mirror_mode }
    }
}

/// NROM maps the PRG ROM straight to $8000: a 32KiB ROM fills the space,
/// a 16KiB ROM appears at $8000 and again at $C000.
pub proof fn law_nrom_mirrors_prg(s: NromView, i: u16)
    requires
        s.prg_rom.data.len() == 0x4000 || s.prg_rom.data.len() == 0x8000,
        i < s.prg_rom.data.len(),
    ensures
        <NROM as Mapper>::prg_peek(s, (0x8000 + i) as u16) == s.prg_rom.data[i as int],
        s.prg_rom.data.len() == 0x4000 ==> <NROM as Mapper>::prg_peek(s, (0xC000 + i) as u16)
            == s.prg_rom.data[i as int],
{
    let len = s.prg_rom.data.len();
    assert((len as u16) as int == len);
    let lo = (0x8000 + i) as u16;
    assert(lo == 0x8000 + i);
    assert(((lo - 0x8000) as u16) as int == i as int);
    if len == 0x4000 {
        let hi = (0xC000 + i) as u16;
        assert(hi == 0xC000 + i);
        assert(((hi - 0x8000) as u16) as int == 0x4000 + i);
        assert((0x4000 + i as int) % 0x4000 == i as int);
    }
}

impl Mapper for NROM {
    open spec fn chr_accessible(state: NromView, address: u16) -> bool {
        (address as int) < state.chr_rom.data.len()
    }

    /// Program addresses start at $8000, and the ROM's length must not be a
    /// multiple of 64KiB.
    open spec fn prg_accessible(state: NromView, address: u16) -> bool {
        address >= 0x8000 && (state.prg_rom.data.len() as u16) != 0
    }

    /// Writing the ROM does nothing.
    open spec fn prg_writable(state: NromView, address: u16) -> bool {
        true
    }

    open spec fn chr_sound(state: NromView) -> bool {
        true
    }

    open spec fn prg_sound(state: NromView) -> bool {
        (state.prg_rom.data.len() as u16) != 0
    }

    open spec fn chr_peek(state: NromView, address: u16) -> u8 {
        state.chr_rom.data[address as int]
    }

    open spec fn after_chr_read(state: NromView, address: u16) -> NromView {
        state
    }

    open spec fn after_chr_write(state: NromView, address: u16, byte: u8) -> NromView {
        NromView { chr_rom: memory_put(state.chr_rom, address as int, byte), ..state }
    }

    open spec fn prg_peek(state: NromView, address: u16) -> u8 {
        state.prg_rom.data[nrom_prg_index(state.prg_rom.data.len(), address)]
    }

    /// The program ROM cannot be written.
    open spec fn after_prg_write(state: NromView, address: u16, byte: u8) -> NromView {
        state
    }

    open spec fn mirroring(state: NromView) -> MirrorMode {
        state.mirror_mode
    }

    open spec fn irq_pending(state: NromView) -> bool {
        false
    }

    open spec fn after_irq_check(state: NromView) -> NromView {
        state
    }

    proof fn lemma_prg_sound_kept(state: NromView, address: u16, byte: u8) {
    }

    fn prg_read_ok(&self, address: u16) -> (r: bool) {
        address >= 0x8000 && (self.prg_rom.len() as u16) != 0
    }

    fn prg_write_ok(&self, address: u16) -> (r: bool) {
        true
    }

    proof fn lemma_chr_sound_kept(state: NromView, address: u16, byte: u8) {
    }

    fn chr_read_ok(&self, address: u16) -> (r: bool) {
        (address as usize) < self.chr_rom.len()
    }

    fn read_chr(&mut self, address: u16) -> (byte: u8) {
        self.chr_rom.get(address as usize)
    }

    fn write_chr(&mut self, address: u16, byte: u8) {
        self.chr_rom.put(address as usize, byte);
    }

    fn read_prg(&mut self, address: u16) -> (byte: u8) {
        let len = self.prg_rom.len();
        let index = (address - 0x8000) % (len as u16);
        proof { crate::emulator::bits::lemma_offset_bits(0, len); }
        self.prg_rom.get(index as usize)
    }

    fn write_prg(&mut self, address: u16, byte: u8) {
        // Can't write to ROM.
    }

    fn mirror_mode(&self) -> (mode: MirrorMode) {
        self.mirror_mode
    }

    fn irq_triggered(&mut self) -> (flag: bool) {
        false
    }
}

impl SaveState<MapperState> for NROM {
    /// The board has no state of its own.
    open spec fn frozen(state: NromView) -> MapperStateView {
        MapperStateView::NROM
    }

    open spec fn accepts(state: NromView, saved: MapperStateView) -> bool {
        saved is NROM
    }

    open spec fn hydrated(state: NromView, saved: MapperStateView) -> NromView {
        state
    }

    fn freeze(&mut self) -> (saved: MapperState) {
        MapperState::NROM
    }

    fn hydrate(&mut self, saved: MapperState) {
    }
}

} // verus!
