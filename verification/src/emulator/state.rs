//! Save states: a snapshot of a component's state that can be written out
//! and later loaded back into it.
use vstd::prelude::*;

use crate::emulator::ppu::MirrorMode;

verus! {

/// A component whose state can be frozen into a `T` and hydrated from one.
pub trait SaveState<T: View>: View + Sized {
    /// The snapshot `freeze` takes of `state`.
    spec fn frozen(state: Self::V) -> T::V;

    /// Whether `saved` can be loaded without a fault.
    spec fn accepts(state: Self::V, saved: T::V) -> bool;

    /// The component after loading `saved`.
    spec fn hydrated(state: Self::V, saved: T::V) -> Self::V;

    fn freeze(&mut self) -> (saved: T)
        ensures
            saved@ == Self::frozen(old(self)@),
            final(self)@ == old(self)@,
    ;

    fn hydrate(&mut self, saved: T)
        requires
            Self::accepts(old(self)@, saved@),
        ensures
            final(self)@ == Self::hydrated(old(self)@, saved@),
    ;
}

/// The contents of a RAM; a ROM saves nothing.
pub struct MemoryState {
    pub data: Vec<u8>,
}

impl View for MemoryState {
    type V = Seq<u8>;

    open spec fn view(&self) -> Seq<u8> {
        self.data@
    }
}

/// Where the beam is.
#[derive(Clone, Copy, Debug, PartialEq, Eq, Structural)]
pub struct ScreenState {
    pub scanline: u32,
    pub dot: u32,
}

impl View for ScreenState {
    type V = ScreenState;

    open spec fn view(&self) -> ScreenState {
        *self
    }
}

pub struct MMC1State {
    pub load_register: u8,
    pub write_index: u8,
    pub control: u8,
    pub prg_bank: u8,
    pub chr_bank_1: u8,
    pub chr_bank_2: u8,
    pub prg_offsets: Vec<u32>,
    pub chr_offsets: Vec<u32>,
    pub chr_mem: MemoryState,
}

pub struct Mmc1StateView {
    pub load_register: u8,
    pub write_index: u8,
    pub control: u8,
    pub prg_bank: u8,
    pub chr_bank_1: u8,
    pub chr_bank_2: u8,
    pub prg_offsets: Seq<u32>,
    pub chr_offsets: Seq<u32>,
    pub chr_mem: Seq<u8>,
}

impl View for MMC1State {
    type V = Mmc1StateView;

    open spec fn view(&self) -> Mmc1StateView {
        Mmc1StateView {
            load_register: self.load_register,
            write_index: self.write_index,
            control: self.control,
            prg_bank: self.prg_bank,
            chr_bank_1: self.chr_bank_1,
            chr_bank_2: self.chr_bank_2,
            prg_offsets: self.prg_offsets@,
            chr_offsets: self.chr_offsets@,
            chr_mem: self.chr_mem@,
        }
    }
}

pub struct UXROMState {
    pub prg_bank: u8,
    pub chr_ram: Vec<u8>,
}

pub struct UxromStateView {
    pub prg_bank: u8,
    pub chr_ram: Seq<u8>,
}

impl View for UXROMState {
    type V = UxromStateView;

    open spec fn view(&self) -> UxromStateView {
        UxromStateView { prg_bank: self.prg_bank, chr_ram: self.chr_ram@ }
    }
}

pub struct CNROMState {
    pub chr_bank: u8,
    pub chr_mem: MemoryState,
}

pub struct CnromStateView {
    pub chr_bank: u8,
    pub chr_mem: Seq<u8>,
}

impl View for CNROMState {
    type V = CnromStateView;

    open spec fn view(&self) -> CnromStateView {
        CnromStateView { chr_bank: self.chr_bank, chr_mem: self.chr_mem@ }
    }
}

pub struct AXROMState {
    pub mirror_mode: MirrorMode,
    pub prg_bank: u8,
    pub chr_ram: Vec<u8>,
}

pub struct AxromStateView {
    pub mirror_mode: MirrorMode,
    pub prg_bank: u8,
    pub chr_ram: Seq<u8>,
}

impl View for AXROMState {
    type V = AxromStateView;

    open spec fn view(&self) -> AxromStateView {
        AxromStateView {
            mirror_mode: self.mirror_mode,
            prg_bank: self.prg_bank,
            chr_ram: self.chr_ram@,
        }
    }
}

pub struct ColorDreamsState {
    pub prg_bank: u8,
    pub chr_bank: u8,
    pub chr_mem: MemoryState,
}

pub struct ColorDreamsStateView {
    pub prg_bank: u8,
    pub chr_bank: u8,
    pub chr_mem: Seq<u8>,
}

impl View for ColorDreamsState {
    type V = ColorDreamsStateView;

    open spec fn view(&self) -> ColorDreamsStateView {
        ColorDreamsStateView {
            prg_bank: self.prg_bank,
            chr_bank: self.chr_bank,
            chr_mem: self.chr_mem@,
        }
    }
}

/// The state of whichever board a cartridge has.
pub enum MapperState {
    NROM,
    MMC1(MMC1State),
    UXROM(UXROMState),
    CNROM(CNROMState),
    AXROM(AXROMState),
    ColorDreams(ColorDreamsState),
}

pub enum MapperStateView {
    NROM,
    MMC1(Mmc1StateView),
    UXROM(UxromStateView),
    CNROM(CnromStateView),
    AXROM(AxromStateView),
    ColorDreams(ColorDreamsStateView),
}

impl View for MapperState {
    type V = MapperStateView;

    open spec fn view(&self) -> MapperStateView {
        match self {
            MapperState::NROM => MapperStateView::NROM,
            MapperState::MMC1(s) => MapperStateView::MMC1(s@),
            MapperState::UXROM(s) => MapperStateView::UXROM(s@),
            MapperState::CNROM(s) => MapperStateView::CNROM(s@),
            MapperState::AXROM(s) => MapperStateView::AXROM(s@),
            MapperState::ColorDreams(s) => MapperStateView::ColorDreams(s@),
        }
    }
}

} // verus!
