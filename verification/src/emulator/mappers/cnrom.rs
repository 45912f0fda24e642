//! iNES mapper 3: CNROM. Non-switchable PRG ROM, mirrored to fill the space;
//! up to four switchable 8KiB CHR banks.
use vstd::prelude::*;

use crate::emulator::bits::lemma_byte_bits;

use crate::emulator::mappers::nrom::nrom_prg_index;
use crate::emulator::memory::{Mapper, Memory, MemoryView, memory_put};
use crate::emulator::ppu::MirrorMode;
use crate::emulator::state::{CNROMState, CnromStateView, MapperState, MapperStateView, MemoryState, SaveState};

verus! {

pub struct CNROM {
    prg_rom: Memory,
    chr_mem: Memory,
    mirror_mode: MirrorMode,
    chr_bank: u8,
}

pub struct CnromView {
    pub prg_rom: MemoryView,
    pub chr_mem: MemoryView,
    pub mirror_mode: MirrorMode,
    pub chr_bank: u8,
}

impl View for CNROM {
    type V = CnromView;

    closed spec fn view(&self) -> CnromView {
        CnromView {
            prg_rom: self.prg_rom@,
            chr_mem: self.chr_mem@,
            mirror_mode: self.mirror_mode,
            chr_bank: self.chr_bank,
        }
    }
}

/// The CHR byte a pattern-table address reads in the selected bank.
pub open spec fn cnrom_chr_index(bank: u8, address: u16) -> int {
    (((bank as u16) << 13u16) | address) as int
}

impl CNROM {
    pub fn new(prg_rom: Memory, chr_mem: Memory, mirror_mode: MirrorMode) -> (m: CNROM)
        ensures
            m@ == (CnromView { prg_rom: prg_rom@, chr_mem: chr_mem@, mirror_mode, chr_bank: 0 }),
    {
        CNROM { prg_rom, chr_mem, mirror_mode, chr_bank: 0 }
    }
}

/// CNROM shows the selected 8KiB CHR bank at $0000-$1FFF; a write of `byte`
/// anywhere on the program side selects bank `byte % 4`, and the program ROM
/// stays where it was.
pub proof fn law_cnrom_chr_window(s: CnromView, a: u16, address: u16, byte: u8)
    requires
        a < 0x2000,
        s.chr_bank < 8,
    ensures
        ({
            let t = <CNROM as Mapper>::after_prg_write(s, address, byte);
            &&& <CNROM as Mapper>::chr_peek(s, a) == s.chr_mem.data[s.chr_bank as int * 0x2000
                + a]
            &&& <CNROM as Mapper>::chr_peek(t, a) == s.chr_mem.data[(byte as int % 4) * 0x2000
                + a]
            &&& <CNROM as Mapper>::prg_peek(t, address) == <CNROM as Mapper>::prg_peek(s, address)
        }),
{
    let b = s.chr_bank;
    lemma_byte_bits(b, a);
    lemma_byte_bits(byte, a);
}

impl Mapper for CNROM {
    /// A pattern-table address whose byte in the selected bank the CHR
    /// memory holds (a write goes to the address itself, below that byte).
    open spec fn chr_accessible(state: CnromView, address: u16) -> bool {
        address < 0x2000 && cnrom_chr_index(state.chr_bank, address) < state.chr_mem.data.len()
    }

    open spec fn prg_accessible(state: CnromView, address: u16) -> bool {
        address >= 0x8000 && (state.prg_rom.data.len() as u16) != 0
    }

    /// A write only selects the CHR bank.
    open spec fn prg_writable(state: CnromView, address: u16) -> bool {
        true
    }

    open spec fn chr_sound(state: CnromView) -> bool {
        true
    }

    open spec fn prg_sound(state: CnromView) -> bool {
        (state.prg_rom.data.len() as u16) != 0
    }

    open spec fn chr_peek(state: CnromView, address: u16) -> u8 {
        state.chr_mem.data[cnrom_chr_index(state.chr_bank, address)]
    }

    open spec fn after_chr_read(state: CnromView, address: u16) -> CnromView {
        state
    }

    /// Writes ignore the bank.
    open spec fn after_chr_write(state: CnromView, address: u16, byte: u8) -> CnromView {
        CnromView { chr_mem: memory_put(state.chr_mem, address as int, byte), ..state }
    }

    open spec fn prg_peek(state: CnromView, address: u16) -> u8 {
        state.prg_rom.data[nrom_prg_index(state.prg_rom.data.len(), address)]
    }

    open spec fn after_prg_write(state: CnromView, address: u16, byte: u8) -> CnromView {
        CnromView { chr_bank: byte & 0x03, ..state }
    }

    open spec fn mirroring(state: CnromView) -> MirrorMode {
        state.mirror_mode
    }

    open spec fn irq_pending(state: CnromView) -> bool {
        false
    }

    open spec fn after_irq_check(state: CnromView) -> CnromView {
        state
    }

    proof fn lemma_prg_sound_kept(state: CnromView, address: u16, byte: u8) {
    }

    fn prg_read_ok(&self, address: u16) -> (r: bool) {
        address >= 0x8000 && (self.prg_rom.len() as u16) != 0
    }

    fn prg_write_ok(&self, address: u16) -> (r: bool) {
        true
    }

    proof fn lemma_chr_sound_kept(state: CnromView, address: u16, byte: u8) {
    }

    fn chr_read_ok(&self, address: u16) -> (r: bool) {
        address < 0x2000 && ((((self.chr_bank as u16) << 13u16) | address) as usize) < self.chr_mem.len()
    }

    fn read_chr(&mut self, address: u16) -> (byte: u8) {
        let bank = self.chr_bank;
        let base = (bank as u16) << 13u16;
        self.chr_mem.get((base | address) as usize)
    }

    fn write_chr(&mut self, address: u16, byte: u8) {
        let bank = self.chr_bank;
        proof { lemma_byte_bits(bank, address); }
        self.chr_mem.put(address as usize, byte);
    }

    fn read_prg(&mut self, address: u16) -> (byte: u8) {
        let len = self.prg_rom.len();
        let index = (address - 0x8000) % (len as u16);
        proof { crate::emulator::bits::lemma_offset_bits(0, len); }
        self.prg_rom.get(index as usize)
    }

    fn write_prg(&mut self, address: u16, byte: u8) {
        self.chr_bank = byte & 0x03;
    }

    fn mirror_mode(&self) -> (mode: MirrorMode) {
        self.mirror_mode
    }

    fn irq_triggered(&mut self) -> (flag: bool) {
        false
    }
}

impl SaveState<MapperState> for CNROM {
    open spec fn frozen(state: CnromView) -> MapperStateView {
        MapperStateView::CNROM(
            CnromStateView {
                chr_bank: state.chr_bank,
                chr_mem: <Memory as SaveState<MemoryState>>::frozen(state.chr_mem),
            },
        )
    }

    open spec fn accepts(state: CnromView, saved: MapperStateView) -> bool {
        saved is CNROM
    }

    open spec fn hydrated(state: CnromView, saved: MapperStateView) -> CnromView {
        CnromView {
            chr_bank: saved->CNROM_0.chr_bank,
            chr_mem: <Memory as SaveState<MemoryState>>::hydrated(
                state.chr_mem,
                saved->CNROM_0.chr_mem,
            ),
            ..state
        }
    }

    fn freeze(&mut self) -> (saved: MapperState) {
        MapperState::CNROM(CNROMState { chr_bank: self.chr_bank, chr_mem: self.chr_mem.freeze() })
    }

    fn hydrate(&mut self, saved: MapperState) {
        match saved {
            MapperState::CNROM(s) => {
                self.chr_bank = s.chr_bank;
                self.chr_mem.hydrate(s.chr_mem);
            },
            _ => {
                assert(false);
            },
        }
    }
}

/// Loading what was saved gives the board back as it was.
pub proof fn law_cnrom_state_round_trip(s: CnromView)
    ensures
        <CNROM as SaveState<MapperState>>::accepts(s, <CNROM as SaveState<MapperState>>::frozen(s)),
        <CNROM as SaveState<MapperState>>::hydrated(s, <CNROM as SaveState<MapperState>>::frozen(s))
            == s,
{
}

} // verus!
