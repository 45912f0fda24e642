//! iNES mapper 7: AxROM. A switchable 32KiB PRG bank, 8KiB of CHR and
//! selectable single-screen mirroring.
use vstd::prelude::*;
use crate::emulator::bits::{lemma_address_bits, lemma_byte_bits, lemma_offset_bits};

use crate::emulator::mappers::banking::{lemma_banked_index, lemma_shifted_bank};
use crate::emulator::memory::{Mapper, Memory, MemoryView, memory_put};
use crate::emulator::ppu::MirrorMode;
use crate::emulator::state::{AXROMState, AxromStateView, MapperState, MapperStateView, MemoryState, SaveState};

verus! {

pub struct AXROM {
    prg_rom: Memory,
    chr_rom: Memory,
    mirror_mode: MirrorMode,
    prg_bank: u8,
}

pub struct AxromView {
    pub prg_rom: MemoryView,
    pub chr_rom: MemoryView,
    pub mirror_mode: MirrorMode,
    pub prg_bank: u8,
}

impl View for AXROM {
    type V = AxromView;

    closed spec fn view(&self) -> AxromView {
        AxromView {
            prg_rom: self.prg_rom@,
            chr_rom: self.chr_rom@,
            mirror_mode: self.mirror_mode,
            prg_bank: self.prg_bank,
        }
    }
}

/// The PRG byte a program address selects in the current 32KiB bank, taken
/// modulo the ROM's length.
pub open spec fn axrom_prg_index(prg_len: nat, bank: u8, address: u16) -> int {
    let base: usize = (bank as usize) << 15usize;
    let rel = (address & 0x7FFF) as usize;
    ((base | rel) as int) % (prg_len as int)
}

impl AXROM {
    pub fn new(prg_rom: Memory, chr_rom: Memory) -> (m: AXROM)
        ensures
            m@ == (AxromView {
                prg_rom: prg_rom@,
                chr_rom: chr_rom@,
                mirror_mode: MirrorMode::SingleLower,
                prg_bank: 0,
            }),
    {
        AXROM { prg_rom, chr_rom, mirror_mode: MirrorMode::SingleLower, prg_bank: 0 }
    }
}

/// AxROM shows one 32KiB bank at $8000-$FFFF, its number taken modulo the
/// ROM's banks; a write of `byte` anywhere selects bank `byte % 8` and, by
/// bit 4, the lower or the upper single-screen nametable.
pub proof fn law_axrom_window(s: AxromView, i: u16, address: u16, byte: u8)
    requires
        s.prg_rom.data.len() % 0x8000 == 0,
        0x8000 <= s.prg_rom.data.len(),
        i < 0x8000,
    ensures
        ({
            let n = s.prg_rom.data.len() as int / 0x8000;
            let t = <AXROM as Mapper>::after_prg_write(s, address, byte);
            &&& <AXROM as Mapper>::prg_peek(s, (0x8000 + i) as u16) == s.prg_rom.data[(
            s.prg_bank as int % n) * 0x8000 + i]
            &&& <AXROM as Mapper>::prg_peek(t, (0x8000 + i) as u16) == s.prg_rom.data[((byte
                as int % 8) % n) * 0x8000 + i]
            &&& <AXROM as Mapper>::mirroring(t) == if byte / 16 % 2 == 0 {
                MirrorMode::SingleLower
            } else {
                MirrorMode::SingleUpper
            }
        }),
{
    let len = s.prg_rom.data.len() as int;
    let n = len / 0x8000;
    assert(len == n * 0x8000);
    let a = (0x8000 + i) as u16;
    assert(a == 0x8000 + i);
    lemma_address_bits(a);
    lemma_byte_bits(byte, 0);
    lemma_offset_bits(0, 0);
    lemma_shifted_bank(s.prg_bank as usize, i as usize, 15);
    lemma_shifted_bank((byte & 0x7) as usize, i as usize, 15);
    lemma_banked_index(s.prg_bank as int, i as int, 0x8000, n);
    lemma_banked_index((byte & 0x7) as int, i as int, 0x8000, n);
}

impl Mapper for AXROM {
    open spec fn chr_accessible(state: AxromView, address: u16) -> bool {
        (address as int) < state.chr_rom.data.len()
    }

    open spec fn prg_accessible(state: AxromView, address: u16) -> bool {
        state.prg_rom.data.len() > 0
    }

    open spec fn prg_writable(state: AxromView, address: u16) -> bool {
        Self::prg_accessible(state, address)
    }

    open spec fn chr_sound(state: AxromView) -> bool {
        true
    }

    open spec fn prg_sound(state: AxromView) -> bool {
        state.prg_rom.data.len() > 0
    }

    open spec fn chr_peek(state: AxromView, address: u16) -> u8 {
        state.chr_rom.data[address as int]
    }

    open spec fn after_chr_read(state: AxromView, address: u16) -> AxromView {
        state
    }

    open spec fn after_chr_write(state: AxromView, address: u16, byte: u8) -> AxromView {
        AxromView { chr_rom: memory_put(state.chr_rom, address as int, byte), ..state }
    }

    open spec fn prg_peek(state: AxromView, address: u16) -> u8 {
        state.prg_rom.data[axrom_prg_index(state.prg_rom.data.len(), state.prg_bank, address)]
    }

    /// Bits 0-2 select the bank, bit 4 the nametable.
    open spec fn after_prg_write(state: AxromView, address: u16, byte: u8) -> AxromView {
        AxromView {
            prg_bank: byte & 0x7,
            mirror_mode: if byte & 0x10 == 0 {
                MirrorMode::SingleLower
            } else {
                MirrorMode::SingleUpper
            },
            ..state
        }
    }

    open spec fn mirroring(state: AxromView) -> MirrorMode {
        state.mirror_mode
    }

    open spec fn irq_pending(state: AxromView) -> bool {
        false
    }

    open spec fn after_irq_check(state: AxromView) -> AxromView {
        state
    }

    proof fn lemma_prg_sound_kept(state: AxromView, address: u16, byte: u8) {
    }

    fn prg_read_ok(&self, address: u16) -> (r: bool) {
        self.prg_rom.len() > 0
    }

    fn prg_write_ok(&self, address: u16) -> (r: bool) {
        self.prg_rom.len() > 0
    }

    proof fn lemma_chr_sound_kept(state: AxromView, address: u16, byte: u8) {
    }

    fn chr_read_ok(&self, address: u16) -> (r: bool) {
        (address as usize) < self.chr_rom.len()
    }

    fn read_chr(&mut self, address: u16) -> (byte: u8) {
        self.chr_rom.get(address as usize)
    }

    fn write_chr(&mut self, address: u16, byte: u8) {
        self.chr_rom.put(address as usize, byte);
    }

    fn read_prg(&mut self, address: u16) -> (byte: u8) {
        let base: usize = (self.prg_bank as usize) << 15usize;
        let rel = (address & 0x7FFF) as usize;
        self.prg_rom.get((base | rel) % self.prg_rom.len())
    }

    fn write_prg(&mut self, address: u16, byte: u8) {
        self.prg_bank = byte & 0x7;
        self.mirror_mode = if byte & 0x10 == 0 {
            MirrorMode::SingleLower
        } else {
            MirrorMode::SingleUpper
        };
    }

    fn mirror_mode(&self) -> (mode: MirrorMode) {
        self.mirror_mode
    }

    fn irq_triggered(&mut self) -> (flag: bool) {
        false
    }
}

impl SaveState<MapperState> for AXROM {
    open spec fn frozen(state: AxromView) -> MapperStateView {
        MapperStateView::AXROM(
            AxromStateView {
                mirror_mode: state.mirror_mode,
                prg_bank: state.prg_bank,
                chr_ram: state.chr_rom.data,
            },
        )
    }

    /// An AxROM snapshot whose CHR bytes are as many as the board's.
    open spec fn accepts(state: AxromView, saved: MapperStateView) -> bool {
        &&& saved is AXROM
        &&& saved->AXROM_0.chr_ram.len() == state.chr_rom.data.len()
    }

    /// The saved CHR bytes reach CHR RAM; CHR ROM keeps its own.
    open spec fn hydrated(state: AxromView, saved: MapperStateView) -> AxromView {
        AxromView {
            mirror_mode: saved->AXROM_0.mirror_mode,
            prg_bank: saved->AXROM_0.prg_bank,
            chr_rom: <Memory as SaveState<MemoryState>>::hydrated(
                state.chr_rom,
                saved->AXROM_0.chr_ram,
            ),
            ..state
        }
    }

    fn freeze(&mut self) -> (saved: MapperState) {
        MapperState::AXROM(
            AXROMState {
                mirror_mode: self.mirror_mode,
                prg_bank: self.prg_bank,
                chr_ram: self.chr_rom.contents(),
            },
        )
    }

    fn hydrate(&mut self, saved: MapperState) {
        match saved {
            MapperState::AXROM(s) => {
                self.mirror_mode = s.mirror_mode;
                self.prg_bank = s.prg_bank;
                self.chr_rom.hydrate(MemoryState { data: s.chr_ram });
            },
            _ => {
                assert(false);
            },
        }
    }
}

/// Loading what was saved gives the board back as it was.
pub proof fn law_axrom_state_round_trip(s: AxromView)
    ensures
        <AXROM as SaveState<MapperState>>::accepts(s, <AXROM as SaveState<MapperState>>::frozen(s)),
        <AXROM as SaveState<MapperState>>::hydrated(s, <AXROM as SaveState<MapperState>>::frozen(s))
            == s,
{
}

} // verus!
