//! Memory-mapped devices: the read/write interfaces, plain RAM/ROM, the
//! cartridge mapper interface and the CPU and PPU memory maps.
use vstd::prelude::*;

use crate::emulator::apu::{APU, apu_ticked, apu_wf};
use crate::emulator::clock::Ticker;
use crate::emulator::ppu::{MirrorMode, Mirrorer};
use crate::emulator::state::{MemoryState, SaveState};

verus! {

/// A device on a 16-bit address bus that can be read.
///
/// A read may change the device (a controller advances its strobe, a status
/// register clears a flag), so the contract gives both the byte returned and
/// the device's state afterwards, as functions of its state before.
pub trait Reader: View + Sized {
    /// Whether `address` can be read and written without a fault.
    spec fn accessible(state: Self::V, address: u16) -> bool;

    /// The byte a read of `address` returns.
    spec fn peek(state: Self::V, address: u16) -> u8;

    /// The device's state after a read of `address`.
    spec fn after_read(state: Self::V, address: u16) -> Self::V;

    /// Reading never takes an address out of reach.
    proof fn lemma_read_keeps_access(state: Self::V, address: u16)
        requires
            Self::accessible(state, address),
        ensures
            forall|a: u16|
                Self::accessible(state, a) ==> #[trigger] Self::accessible(
                    Self::after_read(state, address),
                    a,
                ),
    ;

    fn read(&mut self, address: u16) -> (byte: u8)
        requires
            Self::accessible(old(self)@, address),
        ensures
            byte == Self::peek(old(self)@, address),
            final(self)@ == Self::after_read(old(self)@, address),
    ;
}

/// A device on a 16-bit address bus that can be written.
pub trait Writer: Reader {
    /// Whether `address` can be written without a fault.
    spec fn writable(state: Self::V, address: u16) -> bool;

    /// The device's state after `byte` is written to `address`.
    spec fn after_write(state: Self::V, address: u16, byte: u8) -> Self::V;

    /// Writing never takes an address out of reach, for reads or writes.
    proof fn lemma_write_keeps_access(state: Self::V, address: u16, byte: u8)
        requires
            Self::writable(state, address),
        ensures
            forall|a: u16|
                Self::accessible(state, a) ==> #[trigger] Self::accessible(
                    Self::after_write(state, address, byte),
                    a,
                ),
            forall|a: u16|
                Self::writable(state, a) ==> #[trigger] Self::writable(
                    Self::after_write(state, address, byte),
                    a,
                ),
    ;

    /// Reading never takes an address out of reach for writes.
    proof fn lemma_read_keeps_writable(state: Self::V, address: u16)
        requires
            Self::accessible(state, address),
        ensures
            forall|a: u16|
                Self::writable(state, a) ==> #[trigger] Self::writable(
                    Self::after_read(state, address),
                    a,
                ),
    ;

    fn write(&mut self, address: u16, byte: u8)
        requires
            Self::writable(old(self)@, address),
        ensures
            final(self)@ == Self::after_write(old(self)@, address, byte),
    ;
}

/// A device that can be both read and written.
pub trait ReadWriter: Writer {

}

impl<T: Writer> ReadWriter for T {

}

/// A cartridge board: the logic that maps the PPU's pattern-table addresses
/// and the CPU's program addresses onto the cartridge's CHR and PRG memory.
///
/// As with `Reader`, each operation is described by what it returns and by
/// the board's state afterwards.
pub trait Mapper: View + Sized {
    /// Whether a pattern-table address can be read and written without a fault.
    spec fn chr_accessible(state: Self::V, address: u16) -> bool;

    /// Whether a program address can be read without a fault.
    spec fn prg_accessible(state: Self::V, address: u16) -> bool;

    /// Whether a program address can be written without a fault.
    spec fn prg_writable(state: Self::V, address: u16) -> bool;

    /// What the board keeps true whatever the PPU does on its pattern-table
    /// side: the reads and writes that `chr_accessible` admits keep it.
    spec fn chr_sound(state: Self::V) -> bool;

    /// What the board keeps true whatever a program does on its program
    /// side: reads, and the writes that `prg_writable` admits, keep it.
    spec fn prg_sound(state: Self::V) -> bool;

    spec fn chr_peek(state: Self::V, address: u16) -> u8;

    spec fn after_chr_read(state: Self::V, address: u16) -> Self::V;

    spec fn after_chr_write(state: Self::V, address: u16, byte: u8) -> Self::V;

    spec fn prg_peek(state: Self::V, address: u16) -> u8;

    spec fn after_prg_write(state: Self::V, address: u16, byte: u8) -> Self::V;

    spec fn mirroring(state: Self::V) -> MirrorMode;

    /// Whether the board is asserting its interrupt line.
    spec fn irq_pending(state: Self::V) -> bool;

    spec fn after_irq_check(state: Self::V) -> Self::V;

    /// A read or write that `chr_accessible` admits keeps the board sound.
    proof fn lemma_chr_sound_kept(state: Self::V, address: u16, byte: u8)
        requires
            Self::chr_sound(state),
            Self::chr_accessible(state, address),
        ensures
            Self::chr_sound(Self::after_chr_read(state, address)),
            Self::chr_sound(Self::after_chr_write(state, address, byte)),
    ;

    /// Whether a pattern-table address can be read and written now.
    fn chr_read_ok(&self, address: u16) -> (r: bool)
        requires
            Self::chr_sound(self@),
        ensures
            r == Self::chr_accessible(self@, address),
    ;

    /// A write that `prg_writable` admits keeps the board sound.
    proof fn lemma_prg_sound_kept(state: Self::V, address: u16, byte: u8)
        requires
            Self::prg_sound(state),
            Self::prg_writable(state, address),
        ensures
            Self::prg_sound(Self::after_prg_write(state, address, byte)),
    ;

    /// Whether a program address can be read now.
    fn prg_read_ok(&self, address: u16) -> (r: bool)
        requires
            Self::prg_sound(self@),
        ensures
            r == Self::prg_accessible(self@, address),
    ;

    /// Whether a program address can be written now.
    fn prg_write_ok(&self, address: u16) -> (r: bool)
        requires
            Self::prg_sound(self@),
        ensures
            r == Self::prg_writable(self@, address),
    ;

    fn read_chr(&mut self, address: u16) -> (byte: u8)
        requires
            Self::chr_accessible(old(self)@, address),
        ensures
            byte == Self::chr_peek(old(self)@, address),
            final(self)@ == Self::after_chr_read(old(self)@, address),
    ;

    fn write_chr(&mut self, address: u16, byte: u8)
        requires
            Self::chr_accessible(old(self)@, address),
        ensures
            final(self)@ == Self::after_chr_write(old(self)@, address, byte),
    ;

    fn read_prg(&mut self, address: u16) -> (byte: u8)
        requires
            Self::prg_accessible(old(self)@, address),
        ensures
            byte == Self::prg_peek(old(self)@, address),
            final(self)@ == old(self)@,
    ;

    fn write_prg(&mut self, address: u16, byte: u8)
        requires
            Self::prg_writable(old(self)@, address),
        ensures
            final(self)@ == Self::after_prg_write(old(self)@, address, byte),
    ;

    fn mirror_mode(&self) -> (mode: MirrorMode)
        ensures
            mode == Self::mirroring(self@),
    ;

    /// Reports and acknowledges the board's interrupt.
    fn irq_triggered(&mut self) -> (flag: bool)
        ensures
            flag == Self::irq_pending(old(self)@),
            final(self)@ == Self::after_irq_check(old(self)@),
    ;
}

impl<M: Mapper> Mirrorer for M {
    open spec fn mode(state: M::V) -> MirrorMode {
        M::mirroring(state)
    }

    fn mirror_mode(&self) -> (mode: MirrorMode) {
        Mapper::mirror_mode(self)
    }
}

/// The program side of a mapper, as a device on the CPU bus. Every address
/// is on the bus; one that the board cannot serve at the moment (a bank past
/// the end of its ROM, a bank data write naming a register it lacks) is a
/// fault: the board faults there, so the device serves 0, leaves the board
/// as it was and keeps a mark that a fault happened.
pub struct PrgMapper<M> {
    mapper: M,
    fault: bool,
}

/// A side of a board as a bus device: the board, and whether an access has
/// faulted.
pub struct BoardView<V> {
    pub board: V,
    /// Whether the board has been asked for an access it faults on.
    pub fault: bool,
}

impl<M: Mapper> View for PrgMapper<M> {
    type V = BoardView<M::V>;

    closed spec fn view(&self) -> BoardView<M::V> {
        BoardView { board: self.mapper@, fault: self.fault }
    }
}

impl<M: Mapper> PrgMapper<M> {
    pub fn new(mapper: M) -> (m: PrgMapper<M>)
        ensures
            m@ == (BoardView { board: mapper@, fault: false }),
    {
        PrgMapper { mapper, fault: false }
    }

    /// Whether an access has faulted.
    pub fn faulted(&self) -> (r: bool)
        ensures
            r == self@.fault,
    {
        self.fault
    }
}

impl<M: Mapper> Reader for PrgMapper<M> {
    /// Every address is on the bus while the board is sound.
    open spec fn accessible(state: BoardView<M::V>, address: u16) -> bool {
        M::prg_sound(state.board)
    }

    open spec fn peek(state: BoardView<M::V>, address: u16) -> u8 {
        if M::prg_accessible(state.board, address) {
            M::prg_peek(state.board, address)
        } else {
            0
        }
    }

    open spec fn after_read(state: BoardView<M::V>, address: u16) -> BoardView<M::V> {
        if M::prg_accessible(state.board, address) {
            state
        } else {
            BoardView { fault: true, ..state }
        }
    }

    proof fn lemma_read_keeps_access(state: BoardView<M::V>, address: u16) {
    }

    fn read(&mut self, address: u16) -> (byte: u8) {
        if self.mapper.prg_read_ok(address) {
            self.mapper.read_prg(address)
        } else {
            self.fault = true;
            0
        }
    }
}

impl<M: Mapper> Writer for PrgMapper<M> {
    open spec fn writable(state: BoardView<M::V>, address: u16) -> bool {
        M::prg_sound(state.board)
    }

    proof fn lemma_read_keeps_writable(state: BoardView<M::V>, address: u16) {
    }

    open spec fn after_write(state: BoardView<M::V>, address: u16, byte: u8) -> BoardView<
        M::V,
    > {
        if M::prg_writable(state.board, address) {
            BoardView { board: M::after_prg_write(state.board, address, byte), ..state }
        } else {
            BoardView { fault: true, ..state }
        }
    }

    proof fn lemma_write_keeps_access(state: BoardView<M::V>, address: u16, byte: u8) {
        if M::prg_writable(state.board, address) {
            M::lemma_prg_sound_kept(state.board, address, byte);
        }
    }

    fn write(&mut self, address: u16, byte: u8) {
        if self.mapper.prg_write_ok(address) {
            self.mapper.write_prg(address, byte)
        } else {
            self.fault = true;
        }
    }
}

/// The pattern-table side of a mapper, as a device on the PPU bus. As with
/// `PrgMapper`, an access the board cannot serve at the moment is a fault:
/// the device serves 0, leaves the board as it was and keeps the mark.
pub struct ChrMapper<M> {
    mapper: M,
    fault: bool,
}

impl<M: Mapper> View for ChrMapper<M> {
    type V = BoardView<M::V>;

    closed spec fn view(&self) -> BoardView<M::V> {
        BoardView { board: self.mapper@, fault: self.fault }
    }
}

impl<M: Mapper> ChrMapper<M> {
    pub fn new(mapper: M) -> (m: ChrMapper<M>)
        ensures
            m@ == (BoardView { board: mapper@, fault: false }),
    {
        ChrMapper { mapper, fault: false }
    }

    /// Whether an access has faulted.
    pub fn faulted(&self) -> (r: bool)
        ensures
            r == self@.fault,
    {
        self.fault
    }
}

impl<M: Mapper> Reader for ChrMapper<M> {
    /// Every address is on the bus while the board is sound.
    open spec fn accessible(state: BoardView<M::V>, address: u16) -> bool {
        M::chr_sound(state.board)
    }

    open spec fn peek(state: BoardView<M::V>, address: u16) -> u8 {
        if M::chr_accessible(state.board, address) {
            M::chr_peek(state.board, address)
        } else {
            0
        }
    }

    open spec fn after_read(state: BoardView<M::V>, address: u16) -> BoardView<M::V> {
        if M::chr_accessible(state.board, address) {
            BoardView { board: M::after_chr_read(state.board, address), ..state }
        } else {
            BoardView { fault: true, ..state }
        }
    }

    proof fn lemma_read_keeps_access(state: BoardView<M::V>, address: u16) {
        if M::chr_accessible(state.board, address) {
            M::lemma_chr_sound_kept(state.board, address, 0);
        }
    }

    fn read(&mut self, address: u16) -> (byte: u8) {
        if self.mapper.chr_read_ok(address) {
            self.mapper.read_chr(address)
        } else {
            self.fault = true;
            0
        }
    }
}

impl<M: Mapper> Writer for ChrMapper<M> {
    open spec fn writable(state: BoardView<M::V>, address: u16) -> bool {
        M::chr_sound(state.board)
    }

    proof fn lemma_read_keeps_writable(state: BoardView<M::V>, address: u16) {
        if M::chr_accessible(state.board, address) {
            M::lemma_chr_sound_kept(state.board, address, 0);
        }
    }

    open spec fn after_write(state: BoardView<M::V>, address: u16, byte: u8) -> BoardView<M::V> {
        if M::chr_accessible(state.board, address) {
            BoardView { board: M::after_chr_write(state.board, address, byte), ..state }
        } else {
            BoardView { fault: true, ..state }
        }
    }

    proof fn lemma_write_keeps_access(state: BoardView<M::V>, address: u16, byte: u8) {
        if M::chr_accessible(state.board, address) {
            M::lemma_chr_sound_kept(state.board, address, byte);
        }
    }

    fn write(&mut self, address: u16, byte: u8) {
        if self.mapper.chr_read_ok(address) {
            self.mapper.write_chr(address, byte)
        } else {
            self.fault = true;
        }
    }
}

/// The APU, OAM DMA and joypad registers at $4000-$401F.
pub struct IORegisters<A, J1, J2> {
    apu: A,
    oamdma: Option<u8>,
    joy1: J1,
    joy2: J2,
}

pub struct IORegistersView<AV, J1V, J2V> {
    pub apu: AV,
    /// The page last written to $4014, until the DMA controller collects it.
    pub oamdma: Option<u8>,
    pub joy1: J1V,
    pub joy2: J2V,
}

impl<A: View, J1: View, J2: View> View for IORegisters<A, J1, J2> {
    type V = IORegistersView<A::V, J1::V, J2::V>;

    closed spec fn view(&self) -> IORegistersView<A::V, J1::V, J2::V> {
        IORegistersView { apu: self.apu@, oamdma: self.oamdma, joy1: self.joy1@, joy2: self.joy2@ }
    }
}

/// The addresses that the APU answers on its own.
pub open spec fn is_apu_register(address: u16) -> bool {
    (0x4000 <= address <= 0x4013) || address == 0x4015
}

impl<A: Writer, J1: Writer, J2: Writer> IORegisters<A, J1, J2> {
    pub fn new(apu: A, joy1: J1, joy2: J2) -> (io: IORegisters<A, J1, J2>)
        ensures
            io@ == (IORegistersView { apu: apu@, oamdma: None, joy1: joy1@, joy2: joy2@ }),
    {
        IORegisters { apu, oamdma: None, joy1, joy2 }
    }

    /// The APU behind the registers.
    pub fn apu(&self) -> (apu: &A)
        ensures
            apu@ == self@.apu,
    {
        &self.apu
    }

    /// Takes the pending OAM DMA page, if any.
    pub fn get_oamdma(&mut self) -> (page: Option<u8>)
        ensures
            page == old(self)@.oamdma,
            final(self)@ == (IORegistersView { oamdma: None, ..old(self)@ }),
    {
        let res = self.oamdma;
        self.oamdma = None;
        res
    }
}

impl<R: Reader, J1: Writer, J2: Writer> IORegisters<APU<R>, J1, J2> {
    /// One cycle of the APU behind the registers.
    pub fn tick_apu(&mut self) -> (cycles: u32)
        requires
            apu_wf::<R::V, R>(old(self)@.apu),
        ensures
            cycles == 1,
            apu_wf::<R::V, R>(final(self)@.apu),
            final(self)@ == (IORegistersView {
                apu: apu_ticked::<R::V, R>(old(self)@.apu),
                ..old(self)@
            }),
    {
        self.apu.tick()
    }
}

impl<A: Writer, J1: Writer, J2: Writer> Reader for IORegisters<A, J1, J2> {
    /// $4017 is both the second joypad (reads) and the APU frame counter
    /// (writes), so both must be reachable there.
    open spec fn accessible(state: IORegistersView<A::V, J1::V, J2::V>, address: u16) -> bool {
        if is_apu_register(address) {
            A::accessible(state.apu, address)
        } else if address == 0x4016 {
            J1::accessible(state.joy1, address)
        } else if address == 0x4017 {
            A::accessible(state.apu, address) && J2::accessible(state.joy2, address)
        } else {
            true
        }
    }

    open spec fn peek(state: IORegistersView<A::V, J1::V, J2::V>, address: u16) -> u8 {
        if is_apu_register(address) {
            A::peek(state.apu, address)
        } else if address == 0x4014 {
            match state.oamdma {
                Some(page) => page,
                None => 0,
            }
        } else if address == 0x4016 {
            J1::peek(state.joy1, address)
        } else if address == 0x4017 {
            J2::peek(state.joy2, address)
        } else {
            0
        }
    }

    open spec fn after_read(state: IORegistersView<A::V, J1::V, J2::V>, address: u16) -> IORegistersView<
        A::V,
        J1::V,
        J2::V,
    > {
        if is_apu_register(address) {
            IORegistersView { apu: A::after_read(state.apu, address), ..state }
        } else if address == 0x4016 {
            IORegistersView { joy1: J1::after_read(state.joy1, address), ..state }
        } else if address == 0x4017 {
            IORegistersView { joy2: J2::after_read(state.joy2, address), ..state }
        } else {
            state
        }
    }

    proof fn lemma_read_keeps_access(state: IORegistersView<A::V, J1::V, J2::V>, address: u16) {
        if is_apu_register(address) {
            A::lemma_read_keeps_access(state.apu, address);
        } else if address == 0x4016 {
            J1::lemma_read_keeps_access(state.joy1, address);
        } else if address == 0x4017 {
            J2::lemma_read_keeps_access(state.joy2, address);
        }
    }

    fn read(&mut self, address: u16) -> (byte: u8) {
        if (0x4000 <= address && address <= 0x4013) || address == 0x4015 {
            self.apu.read(address)
        } else if address == 0x4014 {
            match self.oamdma {
                Some(page) => page,
                None => 0,
            }
        } else if address == 0x4016 {
            self.joy1.read(address)
        } else if address == 0x4017 {
            self.joy2.read(address)
        } else {
            0
        }
    }
}

impl<A: Writer, J1: Writer, J2: Writer> Writer for IORegisters<A, J1, J2> {
    open spec fn writable(state: IORegistersView<A::V, J1::V, J2::V>, address: u16) -> bool {
        if is_apu_register(address) {
            A::writable(state.apu, address)
        } else if address == 0x4016 {
            J1::writable(state.joy1, address)
        } else if address == 0x4017 {
            A::writable(state.apu, address) && J2::writable(state.joy2, address)
        } else {
            true
        }
    }

    proof fn lemma_read_keeps_writable(state: IORegistersView<A::V, J1::V, J2::V>, address: u16) {
        if is_apu_register(address) {
            A::lemma_read_keeps_writable(state.apu, address);
        } else if address == 0x4016 {
            J1::lemma_read_keeps_writable(state.joy1, address);
        } else if address == 0x4017 {
            J2::lemma_read_keeps_writable(state.joy2, address);
        }
    }

    /// A write to $4017 reaches both the APU and the second joypad.
    open spec fn after_write(
        state: IORegistersView<A::V, J1::V, J2::V>,
        address: u16,
        byte: u8,
    ) -> IORegistersView<A::V, J1::V, J2::V> {
        if is_apu_register(address) {
            IORegistersView { apu: A::after_write(state.apu, address, byte), ..state }
        } else if address == 0x4014 {
            IORegistersView { oamdma: Some(byte), ..state }
        } else if address == 0x4016 {
            IORegistersView { joy1: J1::after_write(state.joy1, address, byte), ..state }
        } else if address == 0x4017 {
            IORegistersView {
                apu: A::after_write(state.apu, address, byte),
                joy2: J2::after_write(state.joy2, address, byte),
                ..state
            }
        } else {
            state
        }
    }

    proof fn lemma_write_keeps_access(
        state: IORegistersView<A::V, J1::V, J2::V>,
        address: u16,
        byte: u8,
    ) {
        if is_apu_register(address) {
            A::lemma_write_keeps_access(state.apu, address, byte);
        } else if address == 0x4016 {
            J1::lemma_write_keeps_access(state.joy1, address, byte);
        } else if address == 0x4017 {
            A::lemma_write_keeps_access(state.apu, address, byte);
            J2::lemma_write_keeps_access(state.joy2, address, byte);
        }
    }

    fn write(&mut self, address: u16, byte: u8) {
        if (0x4000 <= address && address <= 0x4013) || address == 0x4015 {
            self.apu.write(address, byte);
        } else if address == 0x4014 {
            self.oamdma = Some(byte);
        } else if address == 0x4016 {
            self.joy1.write(address, byte);
        } else if address == 0x4017 {
            // This address half drives the APU and half the joypad.
            self.apu.write(address, byte);
            self.joy2.write(address, byte);
        }
    }
}

/// The five regions of the CPU's address space.
#[derive(Clone, Copy, Debug, PartialEq, Eq)]
pub enum CpuRegion {
    Ram,
    PpuRegisters,
    IoRegisters,
    Sram,
    PrgRom,
}

/// Where a CPU address lands: the region and the address within it. The
/// 2KiB of RAM repeat through $1FFF and the eight PPU registers through
/// $3FFF; $4020-$5FFF is open bus.
pub open spec fn cpu_map(address: u16) -> Option<(CpuRegion, u16)> {
    if address <= 0x1FFF {
        Some((CpuRegion::Ram, address & 0x7FF))
    } else if address <= 0x3FFF {
        Some((CpuRegion::PpuRegisters, address & 0x7))
    } else if address <= 0x401F {
        Some((CpuRegion::IoRegisters, address))
    } else if address < 0x6000 {
        None
    } else if address <= 0x7FFF {
        Some((CpuRegion::Sram, (address - 0x6000) as u16))
    } else {
        Some((CpuRegion::PrgRom, address))
    }
}

/// The CPU's memory map.
pub struct CPUMemory<R, P, I, S, G> {
    ram: R,
    ppu_registers: P,
    io_registers: I,
    sram: S,
    prg_rom: G,
}

pub struct CPUMemoryView<RV, PV, IV, SV, GV> {
    pub ram: RV,
    pub ppu_registers: PV,
    pub io_registers: IV,
    pub sram: SV,
    pub prg_rom: GV,
}

impl<R: View, P: View, I: View, S: View, G: View> View for CPUMemory<R, P, I, S, G> {
    type V = CPUMemoryView<R::V, P::V, I::V, S::V, G::V>;

    closed spec fn view(&self) -> CPUMemoryView<R::V, P::V, I::V, S::V, G::V> {
        CPUMemoryView {
            ram: self.ram@,
            ppu_registers: self.ppu_registers@,
            io_registers: self.io_registers@,
            sram: self.sram@,
            prg_rom: self.prg_rom@,
        }
    }
}

impl<R: Writer, P: Writer, I: Writer, S: Writer, G: Writer> CPUMemory<R, P, I, S, G> {
    pub fn new(ram: R, ppu_registers: P, io_registers: I, sram: S, prg_rom: G) -> (m: CPUMemory<
        R,
        P,
        I,
        S,
        G,
    >)
        ensures
            m@ == (CPUMemoryView {
                ram: ram@,
                ppu_registers: ppu_registers@,
                io_registers: io_registers@,
                sram: sram@,
                prg_rom: prg_rom@,
            }),
    {
        CPUMemory { ram, ppu_registers, io_registers, sram, prg_rom }
    }

    /// The I/O register block.
    pub fn io_registers(&self) -> (io: &I)
        ensures
            io@ == self@.io_registers,
    {
        &self.io_registers
    }

    /// The cartridge's program side.
    pub fn prg_rom(&self) -> (prg: &G)
        ensures
            prg@ == self@.prg_rom,
    {
        &self.prg_rom
    }

    fn map(address: u16) -> (r: Option<(CpuRegion, u16)>)
        ensures
            r == cpu_map(address),
    {
        if address <= 0x1FFF {
            Some((CpuRegion::Ram, address & 0x7FF))
        } else if address <= 0x3FFF {
            Some((CpuRegion::PpuRegisters, address & 0x7))
        } else if address <= 0x401F {
            Some((CpuRegion::IoRegisters, address))
        } else if address < 0x6000 {
            None
        } else if address <= 0x7FFF {
            Some((CpuRegion::Sram, address - 0x6000))
        } else {
            Some((CpuRegion::PrgRom, address))
        }
    }
}

impl<
    R: Writer,
    P: Writer,
    A: Reader,
    J1: Writer,
    J2: Writer,
    S: Writer,
    G: Writer,
> CPUMemory<R, P, IORegisters<APU<A>, J1, J2>, S, G> {
    /// One cycle of the APU behind the I/O registers.
    pub fn tick_apu(&mut self) -> (cycles: u32)
        requires
            apu_wf::<A::V, A>(old(self)@.io_registers.apu),
        ensures
            cycles == 1,
            apu_wf::<A::V, A>(final(self)@.io_registers.apu),
            final(self)@ == (CPUMemoryView {
                io_registers: IORegistersView {
                    apu: apu_ticked::<A::V, A>(old(self)@.io_registers.apu),
                    ..old(self)@.io_registers
                },
                ..old(self)@
            }),
    {
        self.io_registers.tick_apu()
    }
}

impl<R: Writer, P: Writer, I: Writer, S: Writer, G: Writer> Reader for CPUMemory<R, P, I, S, G> {
    open spec fn accessible(state: CPUMemoryView<R::V, P::V, I::V, S::V, G::V>, address: u16) -> bool {
        match cpu_map(address) {
            Some((CpuRegion::Ram, a)) => R::accessible(state.ram, a),
            Some((CpuRegion::PpuRegisters, a)) => P::accessible(state.ppu_registers, a),
            Some((CpuRegion::IoRegisters, a)) => I::accessible(state.io_registers, a),
            Some((CpuRegion::Sram, a)) => S::accessible(state.sram, a),
            Some((CpuRegion::PrgRom, a)) => G::accessible(state.prg_rom, a),
            None => true,
        }
    }

    /// Open bus reads as zero.
    open spec fn peek(state: CPUMemoryView<R::V, P::V, I::V, S::V, G::V>, address: u16) -> u8 {
        match cpu_map(address) {
            Some((CpuRegion::Ram, a)) => R::peek(state.ram, a),
            Some((CpuRegion::PpuRegisters, a)) => P::peek(state.ppu_registers, a),
            Some((CpuRegion::IoRegisters, a)) => I::peek(state.io_registers, a),
            Some((CpuRegion::Sram, a)) => S::peek(state.sram, a),
            Some((CpuRegion::PrgRom, a)) => G::peek(state.prg_rom, a),
            None => 0,
        }
    }

    open spec fn after_read(
        state: CPUMemoryView<R::V, P::V, I::V, S::V, G::V>,
        address: u16,
    ) -> CPUMemoryView<R::V, P::V, I::V, S::V, G::V> {
        match cpu_map(address) {
            Some((CpuRegion::Ram, a)) => CPUMemoryView { ram: R::after_read(state.ram, a), ..state },
            Some((CpuRegion::PpuRegisters, a)) => CPUMemoryView {
                ppu_registers: P::after_read(state.ppu_registers, a),
                ..state
            },
            Some((CpuRegion::IoRegisters, a)) => CPUMemoryView {
                io_registers: I::after_read(state.io_registers, a),
                ..state
            },
            Some((CpuRegion::Sram, a)) => CPUMemoryView { sram: S::after_read(state.sram, a), ..state },
            Some((CpuRegion::PrgRom, a)) => CPUMemoryView {
                prg_rom: G::after_read(state.prg_rom, a),
                ..state
            },
            None => state,
        }
    }

    proof fn lemma_read_keeps_access(state: CPUMemoryView<R::V, P::V, I::V, S::V, G::V>, address: u16) {
        match cpu_map(address) {
            Some((CpuRegion::Ram, a)) => R::lemma_read_keeps_access(state.ram, a),
            Some((CpuRegion::PpuRegisters, a)) => P::lemma_read_keeps_access(state.ppu_registers, a),
            Some((CpuRegion::IoRegisters, a)) => I::lemma_read_keeps_access(state.io_registers, a),
            Some((CpuRegion::Sram, a)) => S::lemma_read_keeps_access(state.sram, a),
            Some((CpuRegion::PrgRom, a)) => G::lemma_read_keeps_access(state.prg_rom, a),
            None => {},
        }
    }

    fn read(&mut self, address: u16) -> (byte: u8) {
        match Self::map(address) {
            Some((CpuRegion::Ram, a)) => self.ram.read(a),
            Some((CpuRegion::PpuRegisters, a)) => self.ppu_registers.read(a),
            Some((CpuRegion::IoRegisters, a)) => self.io_registers.read(a),
            Some((CpuRegion::Sram, a)) => self.sram.read(a),
            Some((CpuRegion::PrgRom, a)) => self.prg_rom.read(a),
            None => 0,
        }
    }
}

impl<R: Writer, P: Writer, I: Writer, S: Writer, G: Writer> Writer for CPUMemory<R, P, I, S, G> {
    open spec fn writable(state: CPUMemoryView<R::V, P::V, I::V, S::V, G::V>, address: u16) -> bool {
        match cpu_map(address) {
            Some((CpuRegion::Ram, a)) => R::writable(state.ram, a),
            Some((CpuRegion::PpuRegisters, a)) => P::writable(state.ppu_registers, a),
            Some((CpuRegion::IoRegisters, a)) => I::writable(state.io_registers, a),
            Some((CpuRegion::Sram, a)) => S::writable(state.sram, a),
            Some((CpuRegion::PrgRom, a)) => G::writable(state.prg_rom, a),
            None => true,
        }
    }

    proof fn lemma_read_keeps_writable(
        state: CPUMemoryView<R::V, P::V, I::V, S::V, G::V>,
        address: u16,
    ) {
        match cpu_map(address) {
            Some((CpuRegion::Ram, a)) => R::lemma_read_keeps_writable(state.ram, a),
            Some((CpuRegion::PpuRegisters, a)) => P::lemma_read_keeps_writable(
                state.ppu_registers,
                a,
            ),
            Some((CpuRegion::IoRegisters, a)) => I::lemma_read_keeps_writable(
                state.io_registers,
                a,
            ),
            Some((CpuRegion::Sram, a)) => S::lemma_read_keeps_writable(state.sram, a),
            Some((CpuRegion::PrgRom, a)) => G::lemma_read_keeps_writable(state.prg_rom, a),
            None => {},
        }
    }

    /// A write to open bus is dropped.
    open spec fn after_write(
        state: CPUMemoryView<R::V, P::V, I::V, S::V, G::V>,
        address: u16,
        byte: u8,
    ) -> CPUMemoryView<R::V, P::V, I::V, S::V, G::V> {
        match cpu_map(address) {
            Some((CpuRegion::Ram, a)) => CPUMemoryView { ram: R::after_write(state.ram, a, byte), ..state },
            Some((CpuRegion::PpuRegisters, a)) => CPUMemoryView {
                ppu_registers: P::after_write(state.ppu_registers, a, byte),
                ..state
            },
            Some((CpuRegion::IoRegisters, a)) => CPUMemoryView {
                io_registers: I::after_write(state.io_registers, a, byte),
                ..state
            },
            Some((CpuRegion::Sram, a)) => CPUMemoryView {
                sram: S::after_write(state.sram, a, byte),
                ..state
            },
            Some((CpuRegion::PrgRom, a)) => CPUMemoryView {
                prg_rom: G::after_write(state.prg_rom, a, byte),
                ..state
            },
            None => state,
        }
    }

    proof fn lemma_write_keeps_access(
        state: CPUMemoryView<R::V, P::V, I::V, S::V, G::V>,
        address: u16,
        byte: u8,
    ) {
        match cpu_map(address) {
            Some((CpuRegion::Ram, a)) => R::lemma_write_keeps_access(state.ram, a, byte),
            Some((CpuRegion::PpuRegisters, a)) => P::lemma_write_keeps_access(
                state.ppu_registers,
                a,
                byte,
            ),
            Some((CpuRegion::IoRegisters, a)) => I::lemma_write_keeps_access(
                state.io_registers,
                a,
                byte,
            ),
            Some((CpuRegion::Sram, a)) => S::lemma_write_keeps_access(state.sram, a, byte),
            Some((CpuRegion::PrgRom, a)) => G::lemma_write_keeps_access(state.prg_rom, a, byte),
            None => {},
        }
    }

    fn write(&mut self, address: u16, byte: u8) {
        match Self::map(address) {
            Some((CpuRegion::Ram, a)) => self.ram.write(a, byte),
            Some((CpuRegion::PpuRegisters, a)) => self.ppu_registers.write(a, byte),
            Some((CpuRegion::IoRegisters, a)) => self.io_registers.write(a, byte),
            Some((CpuRegion::Sram, a)) => self.sram.write(a, byte),
            Some((CpuRegion::PrgRom, a)) => self.prg_rom.write(a, byte),
            None => {},
        }
    }
}

/// A bus that holds the OAM DMA register, from which a DMA controller
/// collects the page to copy.
pub trait OamDma: Writer {
    /// The page written to $4014 and not yet collected.
    spec fn pending_page(state: Self::V) -> Option<u8>;

    /// The bus once the page is collected.
    spec fn after_collect(state: Self::V) -> Self::V;

    /// Collecting the page takes no address out of reach, and leaves the bus
    /// as it was when none was pending.
    proof fn lemma_collect_keeps_access(state: Self::V)
        ensures
            forall|a: u16|
                Self::accessible(state, a) ==> #[trigger] Self::accessible(
                    Self::after_collect(state),
                    a,
                ),
            forall|a: u16|
                Self::writable(state, a) ==> #[trigger] Self::writable(
                    Self::after_collect(state),
                    a,
                ),
            Self::pending_page(state) is None ==> Self::after_collect(state) == state,
    ;

    fn get_oamdma(&mut self) -> (page: Option<u8>)
        ensures
            page == Self::pending_page(old(self)@),
            final(self)@ == Self::after_collect(old(self)@),
    ;
}

impl<
    R: Writer,
    P: Writer,
    A: Writer,
    J1: Writer,
    J2: Writer,
    S: Writer,
    G: Writer,
> OamDma for CPUMemory<R, P, IORegisters<A, J1, J2>, S, G> {
    open spec fn pending_page(
        state: CPUMemoryView<R::V, P::V, IORegistersView<A::V, J1::V, J2::V>, S::V, G::V>,
    ) -> Option<u8> {
        state.io_registers.oamdma
    }

    open spec fn after_collect(
        state: CPUMemoryView<R::V, P::V, IORegistersView<A::V, J1::V, J2::V>, S::V, G::V>,
    ) -> CPUMemoryView<R::V, P::V, IORegistersView<A::V, J1::V, J2::V>, S::V, G::V> {
        CPUMemoryView {
            io_registers: IORegistersView { oamdma: None, ..state.io_registers },
            ..state
        }
    }

    proof fn lemma_collect_keeps_access(
        state: CPUMemoryView<R::V, P::V, IORegistersView<A::V, J1::V, J2::V>, S::V, G::V>,
    ) {
    }

    fn get_oamdma(&mut self) -> (page: Option<u8>) {
        self.io_registers.get_oamdma()
    }
}

/// The two memories the PPU's address space reaches.
#[derive(Clone, Copy, Debug, PartialEq, Eq)]
pub enum PpuRegion {
    /// Pattern tables, on the cartridge.
    Chr,
    /// Nametables and palettes, in the console.
    Vram,
}

/// The nametable bank (0 or 1) that a nametable address selects.
pub open spec fn nametable_bank(mode: MirrorMode, address: u16) -> u16 {
    match mode {
        MirrorMode::SingleLower => 0,
        MirrorMode::SingleUpper => 1,
        MirrorMode::Vertical => (address & 0x0400) >> 10u16,
        MirrorMode::Horizontal => (address & 0x0800) >> 11u16,
    }
}

/// Where a PPU address lands. The whole space repeats above $4000; the four
/// nametables fold onto two banks of VRAM as the cartridge's mirroring says;
/// colour 0 of each sprite palette is that of the matching background palette.
pub open spec fn ppu_map(mode: MirrorMode, address: u16) -> (PpuRegion, u16) {
    let a = address & 0x3FFF;
    if a <= 0x1FFF {
        (PpuRegion::Chr, a)
    } else if a <= 0x3EFF {
        (
            PpuRegion::Vram,
            ((nametable_bank(mode, address) << 10u16) | (address & 0x03FF)) & 0x3FFF,
        )
    } else if address % 4 == 0 {
        (PpuRegion::Vram, address & 0x1F0F)
    } else {
        (PpuRegion::Vram, address & 0x1F1F)
    }
}

/// The PPU's memory map.
pub struct PPUMemory<C, Mi, V> {
    chr_mem: C,
    mirrorer: Mi,
    vram: V,
}

pub struct PPUMemoryView<CV, MV, VV> {
    pub chr_mem: CV,
    pub mirrorer: MV,
    pub vram: VV,
}

impl<C: View, Mi: View, V: View> View for PPUMemory<C, Mi, V> {
    type V = PPUMemoryView<C::V, Mi::V, V::V>;

    closed spec fn view(&self) -> PPUMemoryView<C::V, Mi::V, V::V> {
        PPUMemoryView { chr_mem: self.chr_mem@, mirrorer: self.mirrorer@, vram: self.vram@ }
    }
}

impl<C: Writer, Mi: Mirrorer, V: Writer> PPUMemory<C, Mi, V> {
    pub fn new(chr_mem: C, mirrorer: Mi, vram: V) -> (m: PPUMemory<C, Mi, V>)
        ensures
            m@ == (PPUMemoryView { chr_mem: chr_mem@, mirrorer: mirrorer@, vram: vram@ }),
    {
        PPUMemory { chr_mem, mirrorer, vram }
    }

    fn map(&self, address: u16) -> (r: (PpuRegion, u16))
        ensures
            r == ppu_map(Mi::mode(self.mirrorer@), address),
    {
        // Whole thing is mirrored above $4000.
        let a = address & 0x3FFF;
        if a <= 0x1FFF {
            (PpuRegion::Chr, a)
        } else if a <= 0x3EFF {
            // Nametables: always one of just two banks of memory.
            let nt_bank: u16 = match self.mirrorer.mirror_mode() {
                MirrorMode::SingleLower => 0,
                MirrorMode::SingleUpper => 1,
                MirrorMode::Vertical => (address & 0x0400) >> 10u16,
                MirrorMode::Horizontal => (address & 0x0800) >> 11u16,
            };
            let mirrored_addr = (nt_bank << 10u16) | (address & 0x03FF);
            (PpuRegion::Vram, mirrored_addr & 0x3FFF)
        } else if address % 4 == 0 {
            // Colour 0 in sprite palettes is mirrored to the BG palettes.
            (PpuRegion::Vram, address & 0x1F0F)
        } else {
            (PpuRegion::Vram, address & 0x1F1F)
        }
    }
}

impl<C: Writer, Mi: Mirrorer, V: Writer> Reader for PPUMemory<C, Mi, V> {
    open spec fn accessible(state: PPUMemoryView<C::V, Mi::V, V::V>, address: u16) -> bool {
        match ppu_map(Mi::mode(state.mirrorer), address) {
            (PpuRegion::Chr, a) => C::accessible(state.chr_mem, a),
            (PpuRegion::Vram, a) => V::accessible(state.vram, a),
        }
    }

    open spec fn peek(state: PPUMemoryView<C::V, Mi::V, V::V>, address: u16) -> u8 {
        match ppu_map(Mi::mode(state.mirrorer), address) {
            (PpuRegion::Chr, a) => C::peek(state.chr_mem, a),
            (PpuRegion::Vram, a) => V::peek(state.vram, a),
        }
    }

    open spec fn after_read(state: PPUMemoryView<C::V, Mi::V, V::V>, address: u16) -> PPUMemoryView<
        C::V,
        Mi::V,
        V::V,
    > {
        match ppu_map(Mi::mode(state.mirrorer), address) {
            (PpuRegion::Chr, a) => PPUMemoryView { chr_mem: C::after_read(state.chr_mem, a), ..state },
            (PpuRegion::Vram, a) => PPUMemoryView { vram: V::after_read(state.vram, a), ..state },
        }
    }

    proof fn lemma_read_keeps_access(state: PPUMemoryView<C::V, Mi::V, V::V>, address: u16) {
        match ppu_map(Mi::mode(state.mirrorer), address) {
            (PpuRegion::Chr, a) => C::lemma_read_keeps_access(state.chr_mem, a),
            (PpuRegion::Vram, a) => V::lemma_read_keeps_access(state.vram, a),
        }
    }

    fn read(&mut self, address: u16) -> (byte: u8) {
        match self.map(address) {
            (PpuRegion::Chr, a) => self.chr_mem.read(a),
            (PpuRegion::Vram, a) => self.vram.read(a),
        }
    }
}

impl<C: Writer, Mi: Mirrorer, V: Writer> Writer for PPUMemory<C, Mi, V> {
    open spec fn writable(state: PPUMemoryView<C::V, Mi::V, V::V>, address: u16) -> bool {
        match ppu_map(Mi::mode(state.mirrorer), address) {
            (PpuRegion::Chr, a) => C::writable(state.chr_mem, a),
            (PpuRegion::Vram, a) => V::writable(state.vram, a),
        }
    }

    proof fn lemma_read_keeps_writable(state: PPUMemoryView<C::V, Mi::V, V::V>, address: u16) {
        match ppu_map(Mi::mode(state.mirrorer), address) {
            (PpuRegion::Chr, a) => C::lemma_read_keeps_writable(state.chr_mem, a),
            (PpuRegion::Vram, a) => V::lemma_read_keeps_writable(state.vram, a),
        }
    }

    open spec fn after_write(
        state: PPUMemoryView<C::V, Mi::V, V::V>,
        address: u16,
        byte: u8,
    ) -> PPUMemoryView<C::V, Mi::V, V::V> {
        match ppu_map(Mi::mode(state.mirrorer), address) {
            (PpuRegion::Chr, a) => PPUMemoryView {
                chr_mem: C::after_write(state.chr_mem, a, byte),
                ..state
            },
            (PpuRegion::Vram, a) => PPUMemoryView {
                vram: V::after_write(state.vram, a, byte),
                ..state
            },
        }
    }

    proof fn lemma_write_keeps_access(
        state: PPUMemoryView<C::V, Mi::V, V::V>,
        address: u16,
        byte: u8,
    ) {
        match ppu_map(Mi::mode(state.mirrorer), address) {
            (PpuRegion::Chr, a) => C::lemma_write_keeps_access(state.chr_mem, a, byte),
            (PpuRegion::Vram, a) => V::lemma_write_keeps_access(state.vram, a, byte),
        }
    }

    fn write(&mut self, address: u16, byte: u8) {
        match self.map(address) {
            (PpuRegion::Chr, a) => self.chr_mem.write(a, byte),
            (PpuRegion::Vram, a) => self.vram.write(a, byte),
        }
    }
}

/// The 2KiB of work RAM appear four times in the first 8KiB of the CPU's
/// address space, and the PPU's eight registers repeat up to $3FFF.
pub proof fn law_cpu_mirrors(address: u16)
    requires
        address < 0x1800,
    ensures
        cpu_map(address) == cpu_map((address + 0x800) as u16),
        cpu_map(address) == Some((CpuRegion::Ram, (address % 0x800) as u16)),
        cpu_map((0x2000 + address) as u16) == Some((CpuRegion::PpuRegisters, (address % 8) as u16)),
{
    assert((address & 0x7FF == address % 0x800) && (address < 0x1800 ==> ((address + 0x800) as u16)
        & 0x7FF == address % 0x800) && (address < 0x1800 ==> ((0x2000 + address) as u16) & 0x7
        == address % 8)) by (bit_vector);
}

/// Through the CPU's memory map, a read of work RAM gives back the byte last
/// written at any of the four addresses that share its cell.
pub proof fn law_cpu_ram_read_after_write<P: Writer, I: Writer, S: Writer, G: Writer>(
    s: CPUMemoryView<MemoryView, P::V, I::V, S::V, G::V>,
    address: u16,
    other: u16,
    byte: u8,
)
    requires
        s.ram.writeable,
        s.ram.data.len() == 0x800,
        address < 0x2000,
        other < 0x2000,
        address % 0x800 == other % 0x800,
    ensures
        <CPUMemory<Memory, P, I, S, G> as Reader>::peek(
            <CPUMemory<Memory, P, I, S, G> as Writer>::after_write(s, address, byte),
            other,
        ) == byte,
{
    assert((address & 0x7FF == address % 0x800) && (other & 0x7FF == other % 0x800))
        by (bit_vector);
}

/// The PPU's address space repeats every 16KiB; the nametables fold onto two
/// banks as the mirroring mode says, and a sprite palette's colour 0 is the
/// matching background palette's.
pub proof fn law_ppu_mirrors(mode: MirrorMode, address: u16, offset: u16)
    requires
        offset < 0x400,
    ensures
        ppu_map(mode, address) == ppu_map(mode, address & 0x3FFF),
        mode == MirrorMode::Horizontal ==> ppu_map(mode, (0x2000 + offset) as u16) == ppu_map(
            mode,
            (0x2400 + offset) as u16,
        ) && ppu_map(mode, (0x2800 + offset) as u16) == ppu_map(mode, (0x2C00 + offset) as u16)
            && ppu_map(mode, (0x2000 + offset) as u16) != ppu_map(mode, (0x2800 + offset) as u16),
        mode == MirrorMode::Vertical ==> ppu_map(mode, (0x2000 + offset) as u16) == ppu_map(
            mode,
            (0x2800 + offset) as u16,
        ) && ppu_map(mode, (0x2400 + offset) as u16) == ppu_map(mode, (0x2C00 + offset) as u16)
            && ppu_map(mode, (0x2000 + offset) as u16) != ppu_map(mode, (0x2400 + offset) as u16),
        (mode == MirrorMode::SingleLower || mode == MirrorMode::SingleUpper) ==> ppu_map(
            mode,
            (0x2000 + offset) as u16,
        ) == ppu_map(mode, (0x2400 + offset) as u16) && ppu_map(mode, (0x2000 + offset) as u16)
            == ppu_map(mode, (0x2800 + offset) as u16) && ppu_map(mode, (0x2000 + offset) as u16)
            == ppu_map(mode, (0x2C00 + offset) as u16),
        offset < 0x10 ==> ppu_map(mode, (0x3F10 + (offset & 0xC)) as u16) == ppu_map(
            mode,
            (0x3F00 + (offset & 0xC)) as u16,
        ),
{
    let a = address;
    assert((a & 0x3FFF) & 0x3FFF == a & 0x3FFF) by (bit_vector);
    assert((a & 0x3FFF) & 0x0400 == a & 0x0400 && (a & 0x3FFF) & 0x0800 == a & 0x0800 && (a
        & 0x3FFF) & 0x03FF == a & 0x03FF && (a & 0x3FFF) & 0x1F0F == a & 0x1F0F && (a & 0x3FFF)
        & 0x1F1F == a & 0x1F1F) by (bit_vector);
    assert((a & 0x3FFF) % 4 == a % 4) by (bit_vector);
    let o = offset;
    assert(o < 0x400 ==> {
        let b0 = (0x2000 + o) as u16;
        let b1 = (0x2400 + o) as u16;
        let b2 = (0x2800 + o) as u16;
        let b3 = (0x2C00 + o) as u16;
        &&& b0 & 0x3FFF == b0 && b1 & 0x3FFF == b1 && b2 & 0x3FFF == b2 && b3 & 0x3FFF == b3
        &&& 0x2000 <= b0 <= 0x3EFF && 0x2000 <= b1 <= 0x3EFF && 0x2000 <= b2 <= 0x3EFF
        &&& 0x2000 <= b3 <= 0x3EFF
        &&& b0 & 0x03FF == o && b1 & 0x03FF == o && b2 & 0x03FF == o && b3 & 0x03FF == o
        &&& (b0 & 0x0400) >> 10u16 == 0 && (b1 & 0x0400) >> 10u16 == 1
        &&& (b2 & 0x0400) >> 10u16 == 0 && (b3 & 0x0400) >> 10u16 == 1
        &&& (b0 & 0x0800) >> 11u16 == 0 && (b1 & 0x0800) >> 11u16 == 0
        &&& (b2 & 0x0800) >> 11u16 == 1 && (b3 & 0x0800) >> 11u16 == 1
        &&& ((0u16 << 10u16) | o) & 0x3FFF != ((1u16 << 10u16) | o) & 0x3FFF
    }) by (bit_vector);
    assert(o < 0x10 ==> {
        let p1 = (0x3F10 + (o & 0xC)) as u16;
        let p0 = (0x3F00 + (o & 0xC)) as u16;
        &&& p1 & 0x3FFF > 0x3EFF && p0 & 0x3FFF > 0x3EFF
        &&& p1 % 4 == 0 && p0 % 4 == 0
        &&& p1 & 0x1F0F == p0 & 0x1F0F
    }) by (bit_vector);
}

/// A block of RAM or ROM.
pub struct Memory {
    data: Vec<u8>,
    writeable: bool,
}

/// The contents of a memory block and whether writes reach them.
pub struct MemoryView {
    pub data: Seq<u8>,
    pub writeable: bool,
}

impl View for Memory {
    type V = MemoryView;

    closed spec fn view(&self) -> MemoryView {
        MemoryView { data: self.data@, writeable: self.writeable }
    }
}

/// The contents of `m` after a write of `byte` at `address`: a RAM changes
/// there, a ROM does not change (nor does an address past the end).
pub open spec fn memory_put(m: MemoryView, address: int, byte: u8) -> MemoryView {
    if m.writeable && 0 <= address < m.data.len() {
        MemoryView { data: m.data.update(address, byte), writeable: m.writeable }
    } else {
        m
    }
}

impl Memory {
    pub fn new_ram(size: usize) -> (mem: Memory)
        ensures
            mem@.writeable,
            mem@.data == Seq::new(size as nat, |i: int| 0u8),
    {
        let mut data: Vec<u8> = Vec::new();
        let mut i: usize = 0;
        while i < size
            invariant
                i <= size,
                data@ == Seq::new(i as nat, |j: int| 0u8),
            decreases size - i,
        {
            data.push(0);
            i = i + 1;
        }
        Memory { data, writeable: true }
    }

    pub fn new_rom(contents: Vec<u8>) -> (mem: Memory)
        ensures
            !mem@.writeable,
            mem@.data == contents@,
    {
        Memory { data: contents, writeable: false }
    }

    /// Reads any address of the block, also beyond the first 64KiB.
    pub fn get(&self, address: usize) -> (byte: u8)
        requires
            address < self@.data.len(),
        ensures
            byte == self@.data[address as int],
    {
        self.data[address]
    }

    /// Writes any address of the block; a ROM ignores the write, whatever
    /// the address.
    pub fn put(&mut self, address: usize, byte: u8)
        requires
            old(self)@.writeable ==> address < old(self)@.data.len(),
        ensures
            final(self)@ == memory_put(old(self)@, address as int, byte),
    {
        if self.writeable {
            self.data.set(address, byte);
        }
    }

    pub fn len(&self) -> (n: usize)
        ensures
            n == self@.data.len(),
    {
        self.data.len()
    }

    /// A copy of the block's bytes.
    pub(crate) fn contents(&self) -> (data: Vec<u8>)
        ensures
            data@ == self@.data,
    {
        copy_bytes(&self.data)
    }
}

impl Reader for Memory {
    open spec fn accessible(state: MemoryView, address: u16) -> bool {
        (address as int) < state.data.len()
    }

    open spec fn peek(state: MemoryView, address: u16) -> u8 {
        state.data[address as int]
    }

    open spec fn after_read(state: MemoryView, address: u16) -> MemoryView {
        state
    }

    proof fn lemma_read_keeps_access(state: MemoryView, address: u16) {
    }

    fn read(&mut self, address: u16) -> (byte: u8) {
        self.get(address as usize)
    }
}

impl Writer for Memory {
    /// A ROM ignores a write at any address; a RAM must hold the address.
    open spec fn writable(state: MemoryView, address: u16) -> bool {
        state.writeable ==> (address as int) < state.data.len()
    }

    proof fn lemma_read_keeps_writable(state: MemoryView, address: u16) {
    }

    open spec fn after_write(state: MemoryView, address: u16, byte: u8) -> MemoryView {
        memory_put(state, address as int, byte)
    }

    proof fn lemma_write_keeps_access(state: MemoryView, address: u16, byte: u8) {
    }

    fn write(&mut self, address: u16, byte: u8) {
        self.put(address as usize, byte);
    }
}

/// A copy of `data`.
fn copy_bytes(data: &Vec<u8>) -> (copy: Vec<u8>)
    ensures
        copy@ == data@,
{
    let mut copy: Vec<u8> = Vec::new();
    let mut i: usize = 0;
    while i < data.len()
        invariant
            i <= data@.len(),
            copy@ == data@.subrange(0, i as int),
        decreases data.len() - i,
    {
        copy.push(data[i]);
        i = i + 1;
    }
    assert(data@.subrange(0, data@.len() as int) =~= data@);
    copy
}

impl SaveState<MemoryState> for Memory {
    /// A RAM saves its contents; a ROM saves nothing.
    open spec fn frozen(state: MemoryView) -> Seq<u8> {
        if state.writeable {
            state.data
        } else {
            Seq::empty()
        }
    }

    open spec fn accepts(state: MemoryView, saved: Seq<u8>) -> bool {
        true
    }

    /// A RAM takes the saved contents as they are; a ROM keeps its own.
    open spec fn hydrated(state: MemoryView, saved: Seq<u8>) -> MemoryView {
        if state.writeable {
            MemoryView { data: saved, writeable: true }
        } else {
            state
        }
    }

    fn freeze(&mut self) -> (saved: MemoryState) {
        MemoryState {
            data: if self.writeable {
                copy_bytes(&self.data)
            } else {
                Vec::new()
            },
        }
    }

    fn hydrate(&mut self, saved: MemoryState) {
        if self.writeable {
            self.data = saved.data;
        }
    }
}

/// Loading what was saved gives the memory back as it was.
pub proof fn law_memory_state_round_trip(m: MemoryView)
    ensures
        <Memory as SaveState<MemoryState>>::hydrated(
            m,
            <Memory as SaveState<MemoryState>>::frozen(m),
        ) == m,
{
}

/// A read of a RAM address gives back the last byte written there; a ROM
/// keeps its contents through any write.
pub proof fn law_ram_read_after_write(m: MemoryView, address: u16, other: u16, byte: u8)
    requires
        (address as int) < m.data.len(),
        (other as int) < m.data.len(),
    ensures
        m.writeable ==> <Memory as Reader>::peek(
            <Memory as Writer>::after_write(m, address, byte),
            address,
        ) == byte,
        other != address ==> <Memory as Reader>::peek(
            <Memory as Writer>::after_write(m, address, byte),
            other,
        ) == <Memory as Reader>::peek(m, other),
        !m.writeable ==> <Memory as Writer>::after_write(m, address, byte) == m,
{
}

/// A ROM keeps its contents through a put at any address, a write, and the
/// loading of any saved state.
pub proof fn law_rom_unchanged(m: MemoryView, address: int, byte: u8, saved: Seq<u8>)
    requires
        !m.writeable,
    ensures
        forall|a: u16| #[trigger] <Memory as Writer>::writable(m, a),
        memory_put(m, address, byte) == m,
        <Memory as SaveState<MemoryState>>::hydrated(m, saved) == m,
{
}

} // verus!
