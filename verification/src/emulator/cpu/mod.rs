//! The 6502 processor core.
pub mod addressing;
pub mod decode;
pub mod flags;
pub mod instructions;
pub mod laws;
pub mod opcodes;
pub mod operation_laws;
pub mod semantics;
pub mod trace;

use vstd::prelude::*;

use crate::emulator::clock::Ticker;
use crate::emulator::components::bitfield::BitField;
use crate::emulator::cpu::decode::{decode, decode_instruction, Mode, Op};
use crate::emulator::cpu::semantics::{
    FLAG_I,
    CpuState,
    inc16,
    wrap16,
    read_byte,
    write_byte,
    with_p,
    push,
    pop,
    load_vector,
    address_of,
    operand,
    arithmetic,
    step_defined,
    execute_next,
    interrupt_to,
};
use crate::emulator::memory::{Reader, Writer};
use crate::emulator::util;

verus! {

// Program vector locations.
pub const START_VECTOR: u16 = 0xFFFC;

pub const IRQ_VECTOR: u16 = 0xFFFE;

pub const NMI_VECTOR: u16 = 0xFFFA;

pub struct CPU<M> {
    /// Connection to main memory.
    pub memory: M,
    /// Accumulator.
    pub a: u8,
    /// X index register.
    pub x: u8,
    /// Y index register.
    pub y: u8,
    /// Stack pointer.
    pub sp: u8,
    /// Program counter.
    pub pc: u16,
    /// Processor flags NV_BDIZC.
    pub p: BitField,
    /// Decimal arithmetic enabled?
    pub dec_arith_on: bool,
    /// NMI triggered?
    pub nmi_flip_flop: bool,
}

pub fn new<M: Writer>(memory: M) -> (cpu: CPU<M>)
    ensures
        cpu.memory@ == memory@,
        cpu.a == 0 && cpu.x == 0 && cpu.y == 0,
        cpu.sp == 0xFD,
        cpu.pc == 0,
        cpu.p@ == 0,
        cpu.dec_arith_on,
        !cpu.nmi_flip_flop,
{
    let mut p = BitField::new();
    p.load_byte(0x00);
    CPU { memory, a: 0, x: 0, y: 0, sp: 0xFD, pc: 0, p, dec_arith_on: true, nmi_flip_flop: false }
}

/// The bytes of `program` written from address 0 on, the `i`th at `i` modulo
/// the 64KiB address space, the first `n` of them.
pub open spec fn write_program<M: Writer>(s: CpuState<M::V>, program: Seq<u8>, n: nat) -> CpuState<
    M::V,
>
    decreases n,
{
    if n == 0 {
        s
    } else {
        write_byte::<M>(
            write_program::<M>(s, program, (n - 1) as nat),
            ((n - 1) % 0x10000) as u16,
            program[n - 1],
        )
    }
}

/// What `peek_next_instruction` sees: the opcode, the operand bytes the
/// addressing mode would consume, and the bus afterwards.
pub open spec fn peeked_instruction<M: Writer>(s: CpuState<M::V>) -> (
    CpuState<M::V>,
    (u8, Option<u8>, Option<u8>),
) {
    let (s1, opcode) = read_byte::<M>(s, s.pc);
    let mode = decode(opcode).unwrap().1;
    let s2 = address_of::<M>(mode, s1).0;
    let num_bytes = wrap16(s2.pc - s.pc);
    let s3 = CpuState { pc: s.pc, ..s2 };
    let (s4, b1) = if num_bytes > 0 {
        let (t, b) = read_byte::<M>(s3, inc16(s.pc));
        (t, Some(b))
    } else {
        (s3, None)
    };
    let (s5, b2) = if num_bytes > 1 {
        let (t, b) = read_byte::<M>(s4, inc16(inc16(s.pc)));
        (t, Some(b))
    } else {
        (s4, None)
    };
    (s5, (opcode, b1, b2))
}

/// `pc + 1`, wrapping.
pub fn next_pc(pc: u16) -> (r: u16)
    ensures
        r == inc16(pc),
{
    if pc == 0xFFFF {
        0
    } else {
        pc + 1
    }
}

impl<M: Writer> CPU<M> {
    /// The registers and bus as the instruction semantics sees them.
    pub open spec fn state(&self) -> CpuState<M::V> {
        CpuState {
            memory: self.memory@,
            a: self.a,
            x: self.x,
            y: self.y,
            sp: self.sp,
            pc: self.pc,
            p: self.p@,
            dec_arith_on: self.dec_arith_on,
            nmi_flip_flop: self.nmi_flip_flop,
        }
    }

    /// Every address of the bus can be read and written.
    pub open spec fn wf(&self) -> bool {
        &&& forall|a: u16| #[trigger] M::accessible(self.memory@, a)
        &&& forall|a: u16| #[trigger] M::writable(self.memory@, a)
    }

    pub fn load_memory(&mut self, address: u16) -> (byte: u8)
        requires
            old(self).wf(),
        ensures
            final(self).wf(),
            (final(self).state(), byte) == read_byte::<M>(old(self).state(), address),
    {
        proof {
            M::lemma_read_keeps_access(self.memory@, address);
            M::lemma_read_keeps_writable(self.memory@, address);
        }
        self.memory.read(address)
    }

    pub fn store_memory(&mut self, address: u16, byte: u8)
        requires
            old(self).wf(),
        ensures
            final(self).wf(),
            final(self).state() == write_byte::<M>(old(self).state(), address, byte),
    {
        proof {
            M::lemma_write_keeps_access(self.memory@, address, byte);
        }
        self.memory.write(address, byte);
    }

    pub fn stack_push(&mut self, byte: u8)
        requires
            old(self).wf(),
        ensures
            final(self).wf(),
            final(self).state() == push::<M>(old(self).state(), byte),
    {
        let sp = self.sp;
        let addr = 0x0100 | (sp as u16);
        proof { crate::emulator::bits::lemma_byte_bits(sp, 0); }
        self.sp = if self.sp == 0 {
            0xFF
        } else {
            self.sp - 1
        };
        self.store_memory(addr, byte);
    }

    pub fn stack_pop(&mut self) -> (byte: u8)
        requires
            old(self).wf(),
        ensures
            final(self).wf(),
            (final(self).state(), byte) == pop::<M>(old(self).state()),
    {
        self.sp = if self.sp == 0xFF {
            0
        } else {
            self.sp + 1
        };
        let sp = self.sp;
        let addr = 0x0100 | (sp as u16);
        proof { crate::emulator::bits::lemma_byte_bits(sp, 0); }
        self.load_memory(addr)
    }

    fn load_vector_to_pc(&mut self, vector: u16)
        requires
            old(self).wf(),
        ensures
            final(self).wf(),
            final(self).state() == load_vector::<M>(old(self).state(), vector),
    {
        let vector_low = self.load_memory(vector);
        let vector_high = self.load_memory(next_pc(vector));
        self.pc = util::combine_bytes(vector_high, vector_low);
    }

    pub fn startup_sequence(&mut self) -> (cycles: u32)
        requires
            old(self).wf(),
        ensures
            final(self).wf(),
            cycles == 0,
            final(self).state() == ({
                let s = load_vector::<M>(old(self).state(), START_VECTOR);
                with_p(s, s.p | FLAG_I)
            }),
    {
        self.load_vector_to_pc(START_VECTOR);
        // Disable interrupts at startup.  The programmer should re-enable once they have completed
        // initializing the system.
        self.p.set(FLAG_I);
        0
    }

    pub fn load_program(&mut self, program: &[u8])
        requires
            old(self).wf(),
        ensures
            final(self).wf(),
            final(self).state() == write_program::<M>(
                old(self).state(),
                program@,
                program@.len(),
            ),
    {
        let mut ix: usize = 0;
        while ix < program.len()
            invariant
                ix <= program@.len(),
                self.wf(),
                self.state() == write_program::<M>(old(self).state(), program@, ix as nat),
            decreases program.len() - ix,
        {
            let addr = (ix % 0x10000) as u16;
            self.store_memory(addr, program[ix]);
            ix = ix + 1;
        }
    }

    pub fn disable_bcd(&mut self)
        ensures
            final(self).state() == (CpuState { dec_arith_on: false, ..old(self).state() }),
            final(self).memory == old(self).memory,
    {
        self.dec_arith_on = false;
    }

    pub fn enable_bcd(&mut self)
        ensures
            final(self).state() == (CpuState { dec_arith_on: true, ..old(self).state() }),
            final(self).memory == old(self).memory,
    {
        self.dec_arith_on = true;
    }

    pub fn trigger_nmi(&mut self)
        ensures
            final(self).state() == (CpuState { nmi_flip_flop: true, ..old(self).state() }),
            final(self).memory == old(self).memory,
    {
        self.nmi_flip_flop = true;
    }

    /// The opcode and operand bytes of the next instruction. Finding how many
    /// operand bytes there are runs the addressing mode, whose reads reach
    /// the bus; the program counter is then restored.
    pub fn peek_next_instruction(&mut self) -> (r: (u8, Option<u8>, Option<u8>))
        requires
            old(self).wf(),
            decode(M::peek(old(self).memory@, old(self).pc)) is Some,
        ensures
            final(self).wf(),
            (final(self).state(), r) == peeked_instruction::<M>(old(self).state()),
    {
        let saved_pc = self.pc;
        let opcode = self.load_memory(self.pc);
        let (_, mode, _) = decode_instruction(opcode);
        let _ = addressing::resolve(self, mode);
        let num_bytes = addressing::wrapping_sub16(self.pc, saved_pc);
        self.pc = saved_pc;

        let b1 = if num_bytes > 0 {
            Some(self.load_memory(next_pc(self.pc)))
        } else {
            None
        };
        let b2 = if num_bytes > 1 {
            Some(self.load_memory(next_pc(next_pc(self.pc))))
        } else {
            None
        };
        (opcode, b1, b2)
    }

    /// Runs one instruction and returns the number of elapsed cycles.
    pub fn execute_next_instruction(&mut self) -> (cycles: u32)
        requires
            old(self).wf(),
            step_defined::<M>(old(self).state()),
        ensures
            final(self).wf(),
            (final(self).state(), cycles) == execute_next::<M>(old(self).state()),
    {
        let opcode = self.load_memory(self.pc);
        self.pc = next_pc(self.pc);
        let (operation, addressing_mode, cycles) = decode_instruction(opcode);
        let extra_cycles = instructions::execute(self, operation, addressing_mode);
        cycles + extra_cycles
    }

    pub fn interrupt(&mut self) -> (cycles: u32)
        requires
            old(self).wf(),
        ensures
            final(self).wf(),
            cycles == 8,
            final(self).state() == interrupt_to::<M>(old(self).state(), IRQ_VECTOR),
    {
        self.interrupt_to_vector(IRQ_VECTOR)
    }

    pub fn non_maskable_interrupt(&mut self) -> (cycles: u32)
        requires
            old(self).wf(),
        ensures
            final(self).wf(),
            cycles == 8,
            final(self).state() == interrupt_to::<M>(old(self).state(), NMI_VECTOR),
    {
        self.interrupt_to_vector(NMI_VECTOR)
    }

    fn interrupt_to_vector(&mut self, vector: u16) -> (cycles: u32)
        requires
            old(self).wf(),
        ensures
            final(self).wf(),
            cycles == 8,
            final(self).state() == interrupt_to::<M>(old(self).state(), vector),
    {
        // Store processor state.
        let (pch, pcl) = util::split_word(self.pc);
        self.stack_push(pch);
        self.stack_push(pcl);
        let p = self.p.as_byte();
        self.stack_push(p);

        self.load_vector_to_pc(vector);

        // Disable interrupts.  The programmer should re-enable once they have completed
        // initial interrupt handling.
        self.p.set(FLAG_I);
        8
    }

    pub fn should_interrupt(&self) -> (r: bool)
        ensures
            !r,
    {
        false
    }

    pub fn should_non_maskable_interrupt(&self) -> (r: bool)
        ensures
            r == self.nmi_flip_flop,
    {
        self.nmi_flip_flop
    }
}

impl<M: Writer> Ticker for CPU<M> {
    /// The bus is reachable everywhere and, unless an NMI is pending, the next
    /// instruction is documented and runs without a fault.
    open spec fn ready(&self) -> bool {
        self.wf() && (!self.nmi_flip_flop ==> step_defined::<M>(self.state()))
    }

    /// Eight cycles for a pending NMI, else those of the next instruction.
    open spec fn step_cycles(&self) -> u32 {
        if self.nmi_flip_flop {
            8
        } else {
            execute_next::<M>(self.state()).1
        }
    }

    /// A pending NMI is taken first, otherwise the next instruction runs; the
    /// bus stays reachable everywhere.
    open spec fn ticked(&self, next: &Self) -> bool {
        &&& next.wf()
        &&& next.state() == if self.nmi_flip_flop {
            interrupt_to::<M>(CpuState { nmi_flip_flop: false, ..self.state() }, NMI_VECTOR)
        } else {
            execute_next::<M>(self.state()).0
        }
    }

    /// One step of the processor (see `ticked`).
    fn tick(&mut self) -> (cycles: u32) {
        if self.should_non_maskable_interrupt() {
            self.nmi_flip_flop = false;
            self.non_maskable_interrupt()
        } else if self.should_interrupt() {
            self.interrupt()
        } else {
            self.execute_next_instruction()
        }
    }
}

} // verus!
