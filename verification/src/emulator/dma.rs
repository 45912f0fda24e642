//! The OAM DMA unit: a write to $4014 suspends the CPU while 256 bytes of a
//! CPU page are copied to the PPU's sprite memory.
use vstd::prelude::*;

use crate::emulator::clock::Ticker;
use crate::emulator::cpu::semantics::{CpuState, execute_next, interrupt_to, read_byte, write_byte};
use crate::emulator::cpu::{CPU, NMI_VECTOR};
use crate::emulator::memory::OamDma;

verus! {

pub struct DMAController<M> {
    /// Bytes of the current copy still to move.
    pub copies_remaining: u16,
    /// The start of the page being copied.
    pub base_address: u16,
    pub cpu: CPU<M>,
}

/// The copy that a tick works on: a pending page starts a fresh copy of 256
/// bytes from its start, otherwise the copy in progress goes on.
pub open spec fn dma_copy(pending: Option<u8>, base_address: u16, copies_remaining: u16) -> (
    u16,
    u16,
) {
    match pending {
        Some(page) => ((page as int * 256) as u16, 256),
        None => (base_address, copies_remaining),
    }
}

/// A copy started by a write of `page` to $4014 moves the page in order:
/// the tick with `k` bytes already copied reads byte `k` of the page, at
/// `page * 256 + k`, and the copy ends after all 256 bytes; a copy in
/// progress goes on from where it stands.
pub proof fn law_dma_copies_page(page: u8, base: u16, remaining: u16, k: int)
    requires
        0 <= k < 256,
    ensures
        ({
            let (start, count) = dma_copy(Some(page), base, remaining);
            &&& count == 256
            &&& (start + 256 - (count - k)) % 0x10000 == page * 256 + k
        }),
        dma_copy(None, base, remaining) == (base, remaining),
{
}

impl<M: OamDma> DMAController<M> {
    pub fn new(cpu: CPU<M>) -> (dma: DMAController<M>)
        ensures
            dma.cpu == cpu,
            dma.copies_remaining == 0,
            dma.base_address == 0,
    {
        DMAController { copies_remaining: 0, base_address: 0, cpu }
    }

    /// Starts a copy of 256 bytes from `base_address`.
    pub fn trigger_dma(&mut self, base_address: u16)
        ensures
            final(self).copies_remaining == 256,
            final(self).base_address == base_address,
            final(self).cpu == old(self).cpu,
    {
        self.copies_remaining = 256;
        self.base_address = base_address;
    }

    /// The copy the next tick works on.
    pub open spec fn next_copy(&self) -> (u16, u16) {
        dma_copy(M::pending_page(self.cpu.memory@), self.base_address, self.copies_remaining)
    }

    /// The processor once the pending page, if any, is collected.
    pub open spec fn collected(&self) -> CpuState<M::V> {
        CpuState { memory: M::after_collect(self.cpu.memory@), ..self.cpu.state() }
    }
}

impl<M: OamDma> Ticker for DMAController<M> {
    /// The bus is reachable everywhere and, when no copy is due, the CPU can
    /// take its step.
    open spec fn ready(&self) -> bool {
        &&& self.cpu.wf()
        &&& self.copies_remaining <= 256
        &&& self.next_copy().1 == 0 ==> self.cpu.ready()
    }

    /// Two cycles per byte copied; otherwise the CPU's step.
    open spec fn step_cycles(&self) -> u32 {
        if self.next_copy().1 > 0 {
            2
        } else if self.collected().nmi_flip_flop {
            8
        } else {
            execute_next::<M>(self.collected()).1
        }
    }

    /// While a copy is due, one byte moves from the page to the PPU's OAM
    /// data register ($2004); otherwise the CPU takes its step.
    open spec fn ticked(&self, next: &Self) -> bool {
        let (base, remaining) = self.next_copy();
        let s0 = self.collected();
        &&& next.cpu.wf()
        &&& next.copies_remaining <= 256
        &&& next.base_address == base
        &&& if remaining > 0 {
            let (s1, byte) = read_byte::<M>(s0, ((base + 256 - remaining) % 0x10000) as u16);
            &&& next.copies_remaining == remaining - 1
            &&& next.cpu.state() == write_byte::<M>(s1, 0x2004, byte)
        } else {
            &&& next.copies_remaining == 0
            &&& next.cpu.state() == if s0.nmi_flip_flop {
                interrupt_to::<M>(CpuState { nmi_flip_flop: false, ..s0 }, NMI_VECTOR)
            } else {
                execute_next::<M>(s0).0
            }
        }
    }

    /// One step (see `ticked`): two cycles per byte copied, else the CPU's.
    fn tick(&mut self) -> (cycles: u32) {
        proof {
            M::lemma_collect_keeps_access(self.cpu.memory@);
        }
        match self.cpu.memory.get_oamdma() {
            None => {},
            Some(byte) => {
                // DMA triggered.
                self.base_address = (byte as u16) * 256;
                self.copies_remaining = 256;
            },
        }
        if self.copies_remaining > 0 {
            // CPU is suspended during copy.
            let address = self.base_address.wrapping_add(256 - self.copies_remaining);
            let byte = self.cpu.load_memory(address);
            self.cpu.store_memory(0x2004, byte);
            self.copies_remaining = self.copies_remaining - 1;
            2
        } else {
            self.cpu.tick()
        }
    }
}

} // verus!
