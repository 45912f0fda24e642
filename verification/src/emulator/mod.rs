pub mod apu;
pub mod bits;
pub mod clock;
pub mod components;
pub mod controller;
pub mod cpu;
pub mod dma;
pub mod ines;
pub mod io;
pub mod mappers;
pub mod memory;
pub mod ppu;
pub mod state;
pub mod util;

use vstd::prelude::*;

use crate::emulator::apu::{APU, ApuState, apu_initial, apu_ticked};
use crate::emulator::clock::{Ticker, is_earliest, next_due};
use crate::emulator::controller::{Button, Controller, ControllerView};
use crate::emulator::cpu::semantics::{CpuState, FLAG_I, load_vector, with_p, write_byte};
use crate::emulator::cpu::START_VECTOR;
use crate::emulator::dma::DMAController;
use crate::emulator::ines::{
    ROM, ines_cartridge, ines_complete, ines_mapper_number, ines_prg_size, ines_supported,
};
use crate::emulator::io::event::Key;
use crate::emulator::mappers::cartridge::CartridgeView;
use crate::emulator::mappers::Cartridge;
use crate::emulator::memory::{
    CPUMemory, CPUMemoryView, IORegisters, IORegistersView, Mapper, Memory, MemoryView, PrgMapper,
    BoardView, Reader, Writer,
};

verus! {

// Timings (NTSC): the master clock runs at 21.477272 MHz; the CPU takes 12
// master cycles per cycle, the APU 24 and the PPU 4.
pub const NES_MASTER_CLOCK_HZ: u64 = 21_477_272;

pub const NES_CPU_CLOCK_FACTOR: u32 = 12;

pub const NES_APU_CLOCK_FACTOR: u32 = 24;

pub const NES_PPU_CLOCK_FACTOR: u32 = 4;

/// The CPU bus of the console: 2KiB of RAM, the PPU's eight registers (plain
/// RAM here), the APU, OAM DMA and joypad registers, 8KiB of cartridge RAM and
/// the cartridge's program side.
pub type NesBus = CPUMemory<
    Memory,
    Memory,
    IORegisters<APU<PrgMapper<Cartridge>>, Controller, Controller>,
    Memory,
    PrgMapper<Cartridge>,
>;

/// The console: the processor (behind the DMA unit) and the APU on one
/// master clock, always stepping the one that is due earliest, the
/// processor first among equals.
pub struct NES {
    /// Master cycles elapsed so far.
    pub elapsed_cycles: u64,
    /// The master cycle at which the processor is next due.
    pub cpu_due: u64,
    /// The master cycle at which the APU is next due.
    pub apu_due: u64,
    pub dma: DMAController<NesBus>,
}

/// The keys of the first joypad.
pub open spec fn joypad_1_keymap() -> Seq<(Key, Button)> {
    seq![
        (Key::Z, Button::A),
        (Key::X, Button::B),
        (Key::A, Button::Start),
        (Key::S, Button::Select),
        (Key::Up, Button::Up),
        (Key::Down, Button::Down),
        (Key::Left, Button::Left),
        (Key::Right, Button::Right),
    ]
}

/// A joypad fresh from power-on with the given keys.
pub open spec fn joypad_initial(keymap: Seq<(Key, Button)>) -> ControllerView {
    ControllerView {
        keymap,
        keystate: Seq::new(8, |i: int| false),
        strobe_ix: 0,
        register: 0,
    }
}

/// The bus of a console built from the image `data`: zeroed RAM, PPU
/// registers and cartridge RAM, the image's board on the program side, the
/// joypads, and an APU as it powers on, reading samples through the board.
pub open spec fn nes_bus_initial(m: NesBusView, data: Seq<u8>) -> bool {
    let board = BoardView { board: ines_cartridge(data), fault: false };
    &&& m.ram == MemoryView { data: Seq::new(0x800, |i: int| 0u8), writeable: true }
    &&& m.ppu_registers == MemoryView { data: Seq::new(8, |i: int| 0u8), writeable: true }
    &&& m.sram == MemoryView { data: Seq::new(0x2000, |i: int| 0u8), writeable: true }
    &&& m.prg_rom == board
    &&& m.io_registers.oamdma is None
    &&& m.io_registers.joy1 == joypad_initial(joypad_1_keymap())
    &&& m.io_registers.joy2 == joypad_initial(Seq::empty())
    &&& m.io_registers.apu == apu_initial(board)
}

/// Whether a board on the bus has faulted: an access of the processor, or of
/// the APU's sample reader, reached an address the board cannot serve.
pub open spec fn bus_faulted(m: NesBusView) -> bool {
    m.prg_rom.fault || m.io_registers.apu.dmc.prg_rom.fault
}

/// The bus once the APU behind it has taken one cycle.
pub open spec fn apu_stepped(m: NesBusView) -> NesBusView {
    NesBusView {
        io_registers: IORegistersView {
            apu: apu_ticked::<BoardView<CartridgeView>, PrgMapper<Cartridge>>(
                m.io_registers.apu,
            ),
            ..m.io_registers
        },
        ..m
    }
}

/// The processor after its start-up sequence from `s`: the program counter
/// loaded from the start vector and interrupts disabled.
pub open spec fn restarted(s: CpuState<NesBusView>) -> CpuState<NesBusView> {
    let s1 = load_vector::<NesBus>(s, START_VECTOR);
    with_p(s1, s1.p | FLAG_I)
}

pub type NesBusView = CPUMemoryView<
    MemoryView,
    MemoryView,
    IORegistersView<ApuState<BoardView<CartridgeView>>, ControllerView, ControllerView>,
    MemoryView,
    BoardView<CartridgeView>,
>;

/// The component that the console steps is the one the master clock's rule
/// picks for the processor and the APU, in that order: the first of the
/// earliest due.
pub proof fn law_nes_steps_earliest(cpu_due: u64, apu_due: u64)
    ensures
        is_earliest(seq![cpu_due, apu_due], if cpu_due <= apu_due { 0 } else { 1 }),
{
}

impl NES {
    /// Neither component is due in the past.
    pub open spec fn on_schedule(&self) -> bool {
        self.elapsed_cycles <= self.cpu_due && self.elapsed_cycles <= self.apu_due
    }

    /// The APU on the processor's bus.
    pub open spec fn apu(&self) -> ApuState<BoardView<CartridgeView>> {
        self.dma.cpu.memory@.io_registers.apu
    }

    /// Whether the next tick's step leaves the boards unfaulted: where a
    /// board would fault, the console must not be stepped.
    pub open spec fn next_step_faultless(&self) -> bool {
        if self.cpu_due <= self.apu_due {
            forall|next: DMAController<NesBus>|
                #[trigger] self.dma.ticked(&next) ==> !bus_faulted(next.cpu.memory@)
        } else {
            !bus_faulted(apu_stepped(self.dma.cpu.memory@))
        }
    }

    /// Whether a board on the bus has faulted (see `bus_faulted`).
    pub fn faulted(&self) -> (r: bool)
        ensures
            r == bus_faulted(self.dma.cpu.memory@),
    {
        self.dma.cpu.memory.prg_rom().faulted() || self.dma.cpu.memory.io_registers().apu().dmc.prg_rom.faulted()
    }

    /// A console running the image's program: the processor has taken its
    /// start-up sequence with decimal arithmetic off, and both components
    /// are due at once.
    pub fn new(rom: &ROM) -> (nes: NES)
        requires
            ines_complete(rom@),
            ines_supported(ines_mapper_number(rom@)),
            (ines_mapper_number(rom@) == 1 || ines_mapper_number(rom@) == 4) ==> ines_prg_size(
                rom@,
            ) > 0,
            <Cartridge as Mapper>::prg_sound(ines_cartridge(rom@)),
            <Cartridge as Mapper>::prg_accessible(ines_cartridge(rom@), 0xFFFC),
            <Cartridge as Mapper>::prg_accessible(ines_cartridge(rom@), 0xFFFD),
        ensures
            nes.elapsed_cycles == 0,
            nes.cpu_due == 0,
            nes.apu_due == 0,
            nes.dma.copies_remaining == 0,
            nes.dma.base_address == 0,
            nes.dma.cpu.wf(),
            nes_bus_initial(nes.dma.cpu.memory@, rom@),
            !bus_faulted(nes.dma.cpu.memory@),
            nes.dma.cpu.state() == restarted(
                CpuState {
                    memory: nes.dma.cpu.memory@,
                    a: 0,
                    x: 0,
                    y: 0,
                    sp: 0xFD,
                    pc: 0,
                    p: 0,
                    dec_arith_on: false,
                    nmi_flip_flop: false,
                },
            ),
    {
        let apu = APU::new(PrgMapper::new(rom.get_mapper()));
        let joy1 = Controller::new(
            vec![
                (Key::Z, Button::A),
                (Key::X, Button::B),
                (Key::A, Button::Start),
                (Key::S, Button::Select),
                (Key::Up, Button::Up),
                (Key::Down, Button::Down),
                (Key::Left, Button::Left),
                (Key::Right, Button::Right),
            ],
        );
        let joy2 = Controller::new(Vec::new());
        let io_registers = IORegisters::new(apu, joy1, joy2);
        let memory = CPUMemory::new(
            Memory::new_ram(0x800),
            Memory::new_ram(8),
            io_registers,
            Memory::new_ram(0x2000),
            PrgMapper::new(rom.get_mapper()),
        );
        let mut cpu = crate::emulator::cpu::new(memory);
        assert forall|a: u16| #[trigger] NesBus::accessible(cpu.memory@, a) by {
            crate::emulator::bits::lemma_address_bits(a);
        }
        assert forall|a: u16| #[trigger] NesBus::writable(cpu.memory@, a) by {
            crate::emulator::bits::lemma_address_bits(a);
        }
        cpu.disable_bcd();
        let ghost m0 = cpu.memory@;
        cpu.startup_sequence();
        assert(cpu.memory@ == m0);
        NES { elapsed_cycles: 0, cpu_due: 0, apu_due: 0, dma: DMAController::new(cpu) }
    }

    /// Steps the component that is due earliest, the processor first among
    /// equals: the clock advances to its due cycle, it takes one step, and it
    /// is next due once its cycles, scaled by its clock factor, have passed.
    /// Returns how many master cycles the clock advanced. The processor's
    /// step needs what `DMAController::ready` states; the APU's step only a
    /// bus with every address reachable.
    pub fn tick(&mut self) -> (cycles: u64)
        requires
            old(self).on_schedule(),
            old(self).dma.cpu.wf(),
            old(self).cpu_due <= old(self).apu_due ==> old(self).dma.ready(),
            old(self).next_step_faultless(),
        ensures
            final(self).on_schedule(),
            !bus_faulted(final(self).dma.cpu.memory@),
            final(self).dma.cpu.wf(),
            old(self).cpu_due <= old(self).apu_due ==> {
                &&& old(self).dma.ticked(&final(self).dma)
                &&& final(self).elapsed_cycles == old(self).cpu_due
                &&& cycles == old(self).cpu_due - old(self).elapsed_cycles
                &&& final(self).cpu_due == next_due(
                    old(self).cpu_due,
                    ((old(self).dma.step_cycles() as int * NES_CPU_CLOCK_FACTOR as int)
                        % 0x1_0000_0000) as u32,
                )
                &&& final(self).apu_due == old(self).apu_due
            },
            old(self).apu_due < old(self).cpu_due ==> {
                &&& final(self).dma.cpu.state() == (CpuState {
                    memory: apu_stepped(old(self).dma.cpu.memory@),
                    ..old(self).dma.cpu.state()
                })
                &&& final(self).dma.copies_remaining == old(self).dma.copies_remaining
                &&& final(self).dma.base_address == old(self).dma.base_address
                &&& final(self).elapsed_cycles == old(self).apu_due
                &&& cycles == old(self).apu_due - old(self).elapsed_cycles
                &&& final(self).apu_due == next_due(old(self).apu_due, NES_APU_CLOCK_FACTOR)
                &&& final(self).cpu_due == old(self).cpu_due
            },
    {
        if self.cpu_due <= self.apu_due {
            let due = self.cpu_due;
            let waited = due - self.elapsed_cycles;
            let step = self.dma.tick();
            self.cpu_due = due.saturating_add(step.wrapping_mul(NES_CPU_CLOCK_FACTOR) as u64);
            self.elapsed_cycles = due;
            waited
        } else {
            let due = self.apu_due;
            let waited = due - self.elapsed_cycles;
            let ghost before = self.dma.cpu.memory@;
            assert(NesBus::accessible(before, 0x4015));
            let step = self.dma.cpu.memory.tick_apu();
            assert forall|a: u16| #[trigger] NesBus::accessible(self.dma.cpu.memory@, a) by {
                assert(NesBus::accessible(before, a));
            }
            assert forall|a: u16| #[trigger] NesBus::writable(self.dma.cpu.memory@, a) by {
                assert(NesBus::writable(before, a));
            }
            self.apu_due = due.saturating_add(step.wrapping_mul(NES_APU_CLOCK_FACTOR) as u64);
            self.elapsed_cycles = due;
            waited
        }
    }

    /// Silences the APU (a write of 0 to $4015) and restarts the processor.
    pub fn reset(&mut self)
        requires
            old(self).dma.cpu.wf(),
        ensures
            final(self).dma.cpu.wf(),
            final(self).dma.cpu.state() == restarted(
                write_byte::<NesBus>(old(self).dma.cpu.state(), 0x4015, 0),
            ),
            final(self).dma.copies_remaining == old(self).dma.copies_remaining,
            final(self).dma.base_address == old(self).dma.base_address,
            final(self).elapsed_cycles == old(self).elapsed_cycles,
            final(self).cpu_due == old(self).cpu_due,
            final(self).apu_due == old(self).apu_due,
    {
        self.dma.cpu.store_memory(0x4015, 0x00);
        self.dma.cpu.startup_sequence();
    }
}

} // verus!
