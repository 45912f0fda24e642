//! iNES mapper 11: Color Dreams. Up to four switchable 32KiB PRG banks and up
//! to sixteen switchable 8KiB CHR banks.
use vstd::prelude::*;

use crate::emulator::memory::{Mapper, Memory, MemoryView, memory_put};
use crate::emulator::ppu::MirrorMode;
use crate::emulator::state::{ColorDreamsState, ColorDreamsStateView, MapperState, MapperStateView, MemoryState, SaveState};

verus! {

pub struct ColorDreams {
    prg_rom: Memory,
    chr_mem: Memory,
    prg_bank: u8,
    chr_bank: u8,
    mirror_mode: MirrorMode,
}

pub struct ColorDreamsView {
    pub prg_rom: MemoryView,
    pub chr_mem: MemoryView,
    pub prg_bank: u8,
    pub chr_bank: u8,
    pub mirror_mode: MirrorMode,
}

impl View for ColorDreams {
    type V = ColorDreamsView;

    closed spec fn view(&self) -> ColorDreamsView {
        ColorDreamsView {
            prg_rom: self.prg_rom@,
            chr_mem: self.chr_mem@,
            prg_bank: self.prg_bank,
            chr_bank: self.chr_bank,
            mirror_mode: self.mirror_mode,
        }
    }
}

pub open spec fn color_dreams_chr_index(bank: u8, address: u16) -> int {
    (((bank as usize) << 13usize) | (address as usize)) as int
}

pub open spec fn color_dreams_prg_index(bank: u8, address: u16) -> int {
    (((bank as usize) << 15usize) | ((address & 0x7FFF) as usize)) as int
}

impl ColorDreams {
    pub fn new(prg_rom: Memory, chr_mem: Memory, mirror_mode: MirrorMode) -> (m: ColorDreams)
        ensures
            m@ == (ColorDreamsView {
                prg_rom: prg_rom@,
                chr_mem: chr_mem@,
                prg_bank: 0,
                chr_bank: 0,
                mirror_mode,
            }),
    {
        ColorDreams { prg_rom, chr_mem, prg_bank: 0, chr_bank: 0, mirror_mode }
    }
}

impl Mapper for ColorDreams {
    /// A pattern-table address whose byte in the selected bank the CHR
    /// memory holds (a write goes to the address itself, below that byte).
    open spec fn chr_accessible(state: ColorDreamsView, address: u16) -> bool {
        address < 0x2000 && color_dreams_chr_index(state.chr_bank, address)
            < state.chr_mem.data.len()
    }

    /// A program address whose byte in the selected bank the ROM holds.
    open spec fn prg_accessible(state: ColorDreamsView, address: u16) -> bool {
        color_dreams_prg_index(state.prg_bank, address) < state.prg_rom.data.len()
    }

    /// A write only selects the banks.
    open spec fn prg_writable(state: ColorDreamsView, address: u16) -> bool {
        true
    }

    open spec fn chr_sound(state: ColorDreamsView) -> bool {
        true
    }

    open spec fn prg_sound(state: ColorDreamsView) -> bool {
        true
    }

    open spec fn chr_peek(state: ColorDreamsView, address: u16) -> u8 {
        state.chr_mem.data[color_dreams_chr_index(state.chr_bank, address)]
    }

    open spec fn after_chr_read(state: ColorDreamsView, address: u16) -> ColorDreamsView {
        state
    }

    /// Writes ignore the bank.
    open spec fn after_chr_write(state: ColorDreamsView, address: u16, byte: u8) -> ColorDreamsView {
        ColorDreamsView { chr_mem: memory_put(state.chr_mem, address as int, byte), ..state }
    }

    open spec fn prg_peek(state: ColorDreamsView, address: u16) -> u8 {
        state.prg_rom.data[color_dreams_prg_index(state.prg_bank, address)]
    }

    /// Bits 0-1 select the PRG bank, bits 4-7 the CHR bank.
    open spec fn after_prg_write(state: ColorDreamsView, address: u16, byte: u8) -> ColorDreamsView {
        ColorDreamsView { prg_bank: byte & 0x3, chr_bank: (byte & 0xF0) >> 4u8, ..state }
    }

    open spec fn mirroring(state: ColorDreamsView) -> MirrorMode {
        state.mirror_mode
    }

    open spec fn irq_pending(state: ColorDreamsView) -> bool {
        false
    }

    open spec fn after_irq_check(state: ColorDreamsView) -> ColorDreamsView {
        state
    }

    proof fn lemma_prg_sound_kept(state: ColorDreamsView, address: u16, byte: u8) {
    }

    fn prg_read_ok(&self, address: u16) -> (r: bool) {
        (((self.prg_bank as usize) << 15usize) | ((address & 0x7FFF) as usize)) < self.prg_rom.len()
    }

    fn prg_write_ok(&self, address: u16) -> (r: bool) {
        true
    }

    proof fn lemma_chr_sound_kept(state: ColorDreamsView, address: u16, byte: u8) {
    }

    fn chr_read_ok(&self, address: u16) -> (r: bool) {
        address < 0x2000 && (((self.chr_bank as usize) << 13usize) | (address as usize)) < self.chr_mem.len()
    }

    fn read_chr(&mut self, address: u16) -> (byte: u8) {
        let bank = self.chr_bank;
        let base = (bank as usize) << 13usize;
        let offset = address as usize;
        self.chr_mem.get(base | offset)
    }

    fn write_chr(&mut self, address: u16, byte: u8) {
        let bank = self.chr_bank;
        assert(((bank as usize) << 13usize) | (address as usize) >= address as usize)
            by (bit_vector);
        self.chr_mem.put(address as usize, byte);
    }

    fn read_prg(&mut self, address: u16) -> (byte: u8) {
        let bank = self.prg_bank;
        let base = (bank as usize) << 15usize;
        let offset = (address & 0x7FFF) as usize;
        self.prg_rom.get(base | offset)
    }

    fn write_prg(&mut self, address: u16, byte: u8) {
        self.prg_bank = byte & 0x3;
        self.chr_bank = (byte & 0xF0) >> 4u8;
    }

    fn mirror_mode(&self) -> (mode: MirrorMode) {
        self.mirror_mode
    }

    fn irq_triggered(&mut self) -> (flag: bool) {
        false
    }
}

impl SaveState<MapperState> for ColorDreams {
    open spec fn frozen(state: ColorDreamsView) -> MapperStateView {
        MapperStateView::ColorDreams(
            ColorDreamsStateView {
                prg_bank: state.prg_bank,
                chr_bank: state.chr_bank,
                chr_mem: <Memory as SaveState<MemoryState>>::frozen(state.chr_mem),
            },
        )
    }

    open spec fn accepts(state: ColorDreamsView, saved: MapperStateView) -> bool {
        saved is ColorDreams
    }

    open spec fn hydrated(state: ColorDreamsView, saved: MapperStateView) -> ColorDreamsView {
        ColorDreamsView {
            prg_bank: saved->ColorDreams_0.prg_bank,
            chr_bank: saved->ColorDreams_0.chr_bank,
            chr_mem: <Memory as SaveState<MemoryState>>::hydrated(
                state.chr_mem,
                saved->ColorDreams_0.chr_mem,
            ),
            ..state
        }
    }

    fn freeze(&mut self) -> (saved: MapperState) {
        MapperState::ColorDreams(
            ColorDreamsState {
                prg_bank: self.prg_bank,
                chr_bank: self.chr_bank,
                chr_mem: self.chr_mem.freeze(),
            },
        )
    }

    fn hydrate(&mut self, saved: MapperState) {
        match saved {
            MapperState::ColorDreams(s) => {
                self.prg_bank = s.prg_bank;
                self.chr_bank = s.chr_bank;
                self.chr_mem.hydrate(s.chr_mem);
            },
            _ => {
                assert(false);
            },
        }
    }
}

/// Loading what was saved gives the board back as it was.
pub proof fn law_color_dreams_state_round_trip(s: ColorDreamsView)
    ensures
        <ColorDreams as SaveState<MapperState>>::accepts(
            s,
            <ColorDreams as SaveState<MapperState>>::frozen(s),
        ),
        <ColorDreams as SaveState<MapperState>>::hydrated(
            s,
            <ColorDreams as SaveState<MapperState>>::frozen(s),
        ) == s,
{
}

} // verus!
