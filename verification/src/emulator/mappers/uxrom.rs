//! iNES mapper 2: UxROM. A switchable 16KiB PRG bank at $8000, the last bank
//! fixed at $C000; 8KiB of CHR.
use vstd::prelude::*;
use crate::emulator::bits::{lemma_address_bits, lemma_offset_bits};

use crate::emulator::mappers::banking::{lemma_banked_index, lemma_shifted_bank};
use crate::emulator::memory::{Mapper, Memory, MemoryView, memory_put};
use crate::emulator::ppu::MirrorMode;
use crate::emulator::state::{MapperState, MapperStateView, MemoryState, SaveState, UXROMState, UxromStateView};

verus! {

pub struct UXROM {
    prg_rom: Memory,
    chr_rom: Memory,
    mirror_mode: MirrorMode,
    prg_bank: u8,
}

pub struct UxromView {
    pub prg_rom: MemoryView,
    pub chr_rom: MemoryView,
    pub mirror_mode: MirrorMode,
    pub prg_bank: u8,
}

impl View for UXROM {
    type V = UxromView;

    closed spec fn view(&self) -> UxromView {
        UxromView {
            prg_rom: self.prg_rom@,
            chr_rom: self.chr_rom@,
            mirror_mode: self.mirror_mode,
            prg_bank: self.prg_bank,
        }
    }
}

/// The PRG byte a program address selects: $8000-$BFFF read the selected
/// bank, $C000-$FFFF the bank numbered by the ROM's length less one; either
/// way taken modulo the ROM's length.
pub open spec fn uxrom_prg_index(prg_len: nat, bank: u8, address: u16) -> int {
    let base: usize = if address & 0x4000 == 0 {
        (bank as usize) << 14usize
    } else {
        ((prg_len - 1) as usize) << 14usize
    };
    let rel = (address & 0x3FFF) as usize;
    ((base | rel) as int) % (prg_len as int)
}

impl UXROM {
    pub fn new(prg_rom: Memory, chr_rom: Memory, mirror_mode: MirrorMode) -> (m: UXROM)
        ensures
            m@ == (UxromView { prg_rom: prg_rom@, chr_rom: chr_rom@, mirror_mode, prg_bank: 0 }),
    {
        UXROM { prg_rom, chr_rom, mirror_mode, prg_bank: 0 }
    }
}

/// UxROM shows the selected 16KiB bank, its number taken modulo the ROM's
/// banks, at $8000-$BFFF, and the ROM's last bank at $C000-$FFFF; a write
/// of `byte` anywhere selects bank `byte`.
pub proof fn law_uxrom_windows(s: UxromView, i: u16, address: u16, byte: u8)
    requires
        s.prg_rom.data.len() % 0x4000 == 0,
        0x4000 <= s.prg_rom.data.len() <= 0x40000,
        i < 0x4000,
    ensures
        ({
            let len = s.prg_rom.data.len() as int;
            let n = len / 0x4000;
            let t = <UXROM as Mapper>::after_prg_write(s, address, byte);
            &&& <UXROM as Mapper>::prg_peek(s, (0x8000 + i) as u16) == s.prg_rom.data[(
            s.prg_bank as int % n) * 0x4000 + i]
            &&& <UXROM as Mapper>::prg_peek(s, (0xC000 + i) as u16) == s.prg_rom.data[len - 0x4000
                + i]
            &&& <UXROM as Mapper>::prg_peek(t, (0x8000 + i) as u16) == s.prg_rom.data[(byte as int
                % n) * 0x4000 + i]
            &&& <UXROM as Mapper>::prg_peek(t, (0xC000 + i) as u16) == s.prg_rom.data[len - 0x4000
                + i]
        }),
{
    let len = s.prg_rom.data.len() as int;
    let n = len / 0x4000;
    assert(len == n * 0x4000);
    let lo = (0x8000 + i) as u16;
    let hi = (0xC000 + i) as u16;
    assert(lo == 0x8000 + i && hi == 0xC000 + i);
    lemma_address_bits(lo);
    lemma_address_bits(hi);
    lemma_offset_bits(0, 0);
    lemma_shifted_bank(s.prg_bank as usize, i as usize, 14);
    lemma_shifted_bank(byte as usize, i as usize, 14);
    lemma_shifted_bank((len - 1) as usize, i as usize, 14);
    lemma_banked_index(s.prg_bank as int, i as int, 0x4000, n);
    lemma_banked_index(byte as int, i as int, 0x4000, n);
    lemma_banked_index(len - 1, i as int, 0x4000, n);
    assert(len - 1 == (0x4000 - 1) * n + (n - 1));
    vstd::arithmetic::div_mod::lemma_fundamental_div_mod_converse(len - 1, n, 0x4000 - 1, n - 1);
}

impl Mapper for UXROM {
    open spec fn chr_accessible(state: UxromView, address: u16) -> bool {
        (address as int) < state.chr_rom.data.len()
    }

    open spec fn prg_accessible(state: UxromView, address: u16) -> bool {
        state.prg_rom.data.len() > 0
    }

    open spec fn prg_writable(state: UxromView, address: u16) -> bool {
        Self::prg_accessible(state, address)
    }

    open spec fn chr_sound(state: UxromView) -> bool {
        true
    }

    open spec fn prg_sound(state: UxromView) -> bool {
        state.prg_rom.data.len() > 0
    }

    open spec fn chr_peek(state: UxromView, address: u16) -> u8 {
        state.chr_rom.data[address as int]
    }

    open spec fn after_chr_read(state: UxromView, address: u16) -> UxromView {
        state
    }

    open spec fn after_chr_write(state: UxromView, address: u16, byte: u8) -> UxromView {
        UxromView { chr_rom: memory_put(state.chr_rom, address as int, byte), ..state }
    }

    open spec fn prg_peek(state: UxromView, address: u16) -> u8 {
        state.prg_rom.data[uxrom_prg_index(state.prg_rom.data.len(), state.prg_bank, address)]
    }

    /// Any write selects the bank.
    open spec fn after_prg_write(state: UxromView, address: u16, byte: u8) -> UxromView {
        UxromView { prg_bank: byte, ..state }
    }

    open spec fn mirroring(state: UxromView) -> MirrorMode {
        state.mirror_mode
    }

    open spec fn irq_pending(state: UxromView) -> bool {
        false
    }

    open spec fn after_irq_check(state: UxromView) -> UxromView {
        state
    }

    proof fn lemma_prg_sound_kept(state: UxromView, address: u16, byte: u8) {
    }

    fn prg_read_ok(&self, address: u16) -> (r: bool) {
        self.prg_rom.len() > 0
    }

    fn prg_write_ok(&self, address: u16) -> (r: bool) {
        self.prg_rom.len() > 0
    }

    proof fn lemma_chr_sound_kept(state: UxromView, address: u16, byte: u8) {
    }

    fn chr_read_ok(&self, address: u16) -> (r: bool) {
        (address as usize) < self.chr_rom.len()
    }

    fn read_chr(&mut self, address: u16) -> (byte: u8) {
        self.chr_rom.get(address as usize)
    }

    fn write_chr(&mut self, address: u16, byte: u8) {
        self.chr_rom.put(address as usize, byte);
    }

    fn read_prg(&mut self, address: u16) -> (byte: u8) {
        let len = self.prg_rom.len();
        let base: usize = if address & 0x4000 == 0 {
            (self.prg_bank as usize) << 14usize
        } else {
            (len - 1) << 14usize
        };
        let rel = (address & 0x3FFF) as usize;
        self.prg_rom.get((base | rel) % len)
    }

    fn write_prg(&mut self, address: u16, byte: u8) {
        self.prg_bank = byte;
    }

    fn mirror_mode(&self) -> (mode: MirrorMode) {
        self.mirror_mode
    }

    fn irq_triggered(&mut self) -> (flag: bool) {
        false
    }
}

impl SaveState<MapperState> for UXROM {
    open spec fn frozen(state: UxromView) -> MapperStateView {
        MapperStateView::UXROM(
            UxromStateView { prg_bank: state.prg_bank, chr_ram: state.chr_rom.data },
        )
    }

    /// A UxROM snapshot whose CHR bytes are as many as the board's.
    open spec fn accepts(state: UxromView, saved: MapperStateView) -> bool {
        &&& saved is UXROM
        &&& saved->UXROM_0.chr_ram.len() == state.chr_rom.data.len()
    }

    /// The saved CHR bytes reach CHR RAM; CHR ROM keeps its own.
    open spec fn hydrated(state: UxromView, saved: MapperStateView) -> UxromView {
        UxromView {
            prg_bank: saved->UXROM_0.prg_bank,
            chr_rom: <Memory as SaveState<MemoryState>>::hydrated(
                state.chr_rom,
                saved->UXROM_0.chr_ram,
            ),
            ..state
        }
    }

    fn freeze(&mut self) -> (saved: MapperState) {
        MapperState::UXROM(UXROMState { prg_bank: self.prg_bank, chr_ram: self.chr_rom.contents() })
    }

    fn hydrate(&mut self, saved: MapperState) {
        match saved {
            MapperState::UXROM(s) => {
                self.prg_bank = s.prg_bank;
                self.chr_rom.hydrate(MemoryState { data: s.chr_ram });
            },
            _ => {
                assert(false);
            },
        }
    }
}

/// Loading what was saved gives the board back as it was.
pub proof fn law_uxrom_state_round_trip(s: UxromView)
    ensures
        <UXROM as SaveState<MapperState>>::accepts(s, <UXROM as SaveState<MapperState>>::frozen(s)),
        <UXROM as SaveState<MapperState>>::hydrated(s, <UXROM as SaveState<MapperState>>::frozen(s))
            == s,
{
}

} // verus!
