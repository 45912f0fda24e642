//! Addressing modes. Each computes the final operand address and returns it
//! with any extra cycles it took, e.g. for crossing a page boundary, and
//! leaves the program counter at the next opcode.
use vstd::prelude::*;

use crate::emulator::cpu::decode::Mode;
use crate::emulator::cpu::semantics::{
    indexed_zero_page,
    wrap16,
    read_byte,
    fetch,
    indexed_absolute,
    address_of,
    operand,
};
use crate::emulator::cpu::{next_pc, CPU};
use crate::emulator::memory::Writer;
use crate::emulator::util;

verus! {

/// `a - b`, wrapping.
pub fn wrapping_sub16(a: u16, b: u16) -> (r: u16)
    ensures
        r == wrap16(a - b),
{
    if a >= b {
        a - b
    } else {
        ((a as u32 + 0x10000) - b as u32) as u16
    }
}

/// `a + b`, wrapping.
pub fn wrapping_add16(a: u16, b: u16) -> (r: u16)
    ensures
        r == wrap16(a + b),
{
    if a as u32 + b as u32 <= 0xFFFF {
        a + b
    } else {
        ((a as u32 + b as u32) - 0x10000) as u16
    }
}

fn load_memory_from_pc<M: Writer>(cpu: &mut CPU<M>) -> (byte: u8)
    requires
        old(cpu).wf(),
    ensures
        final(cpu).wf(),
        (final(cpu).state(), byte) == read_byte::<M>(old(cpu).state(), old(cpu).pc),
{
    let addr = cpu.pc;
    cpu.load_memory(addr)
}

/// Reads the byte at the program counter and steps past it.
fn fetch_byte<M: Writer>(cpu: &mut CPU<M>) -> (byte: u8)
    requires
        old(cpu).wf(),
    ensures
        final(cpu).wf(),
        (final(cpu).state(), byte) == fetch::<M>(old(cpu).state()),
{
    let byte = load_memory_from_pc(cpu);
    cpu.pc = next_pc(cpu.pc);
    byte
}

/// Implied: no operand. The processor still reads the next byte and
/// discards it.
pub fn implied<M: Writer>(cpu: &mut CPU<M>) -> (r: (u16, u32))
    requires
        old(cpu).wf(),
    ensures
        final(cpu).wf(),
        (final(cpu).state(), r.0, r.1) == address_of::<M>(Mode::Implied, old(cpu).state()),
{
    let _ = load_memory_from_pc(cpu);
    (0, 0)
}

/// Immediate: one byte literal operand.
pub fn immediate<M: Writer>(cpu: &mut CPU<M>) -> (r: (u16, u32))
    requires
        old(cpu).wf(),
    ensures
        final(cpu).wf(),
        (final(cpu).state(), r.0, r.1) == address_of::<M>(Mode::Immediate, old(cpu).state()),
{
    let addr = cpu.pc;
    cpu.pc = next_pc(cpu.pc);
    (addr, 0)
}

/// Absolute: a two byte operand is the address.
pub fn absolute<M: Writer>(cpu: &mut CPU<M>) -> (r: (u16, u32))
    requires
        old(cpu).wf(),
    ensures
        final(cpu).wf(),
        (final(cpu).state(), r.0, r.1) == address_of::<M>(Mode::Absolute, old(cpu).state()),
{
    let low_byte = fetch_byte(cpu);
    let high_byte = fetch_byte(cpu);
    (util::combine_bytes(high_byte, low_byte), 0)
}

/// Zero page: a one byte operand is an address in page 0.
pub fn zero_page<M: Writer>(cpu: &mut CPU<M>) -> (r: (u16, u32))
    requires
        old(cpu).wf(),
    ensures
        final(cpu).wf(),
        (final(cpu).state(), r.0, r.1) == address_of::<M>(Mode::ZeroPage, old(cpu).state()),
{
    let low_byte = fetch_byte(cpu);
    (low_byte as u16, 0)
}

/// Relative: a one byte signed operand is an offset from the program
/// counter. Only used by branches; crossing a page costs a cycle.
pub fn relative<M: Writer>(cpu: &mut CPU<M>) -> (r: (u16, u32))
    requires
        old(cpu).wf(),
    ensures
        final(cpu).wf(),
        (final(cpu).state(), r.0, r.1) == address_of::<M>(Mode::Relative, old(cpu).state()),
{
    let offset: u8 = fetch_byte(cpu);

    // Quirk in CPU means we unnecessarily read this memory.
    let _ = load_memory_from_pc(cpu);

    // Signed addition.
    let is_negative = (offset & 0b1000_0000) != 0;
    assert((offset & 0x80) != 0 <==> offset >= 128) by (bit_vector);
    let addr = if is_negative {
        assert(offset >= 128 ==> (!offset) + 1 == 256 - offset) by (bit_vector);
        let tc = (!offset) + 1;
        wrapping_sub16(cpu.pc, tc as u16)
    } else {
        wrapping_add16(cpu.pc, offset as u16)
    };

    // One extra cycle if we crossed a page boundary.
    if (addr & 0xFF00) != (cpu.pc & 0xFF00) {
        (addr, 1)
    } else {
        (addr, 0)
    }
}

/// Absolute indexed: absolute addressing plus an index register.
fn absolute_indexed_load<M: Writer>(cpu: &mut CPU<M>, offset: u8) -> (r: (u16, u32))
    requires
        old(cpu).wf(),
    ensures
        final(cpu).wf(),
        (final(cpu).state(), r.0, r.1) == indexed_absolute::<M>(old(cpu).state(), offset),
{
    let bal = fetch_byte(cpu);
    let bah = fetch_byte(cpu);

    if bal as u16 + offset as u16 > 255 {
        let adl = (bal as u16 + offset as u16 - 256) as u8;
        // Quirk in CPU means we unnecessarily read this memory.
        let _ = cpu.load_memory(util::combine_bytes(bah, adl));

        let adh = if bah == 0xFF {
            0
        } else {
            bah + 1
        };
        (util::combine_bytes(adh, adl), 1)
    } else {
        let adl = bal + offset;
        (util::combine_bytes(bah, adl), 0)
    }
}

pub fn absolute_indexed_x<M: Writer>(cpu: &mut CPU<M>) -> (r: (u16, u32))
    requires
        old(cpu).wf(),
    ensures
        final(cpu).wf(),
        (final(cpu).state(), r.0, r.1) == address_of::<M>(Mode::AbsoluteX, old(cpu).state()),
{
    let offset = cpu.x;
    absolute_indexed_load(cpu, offset)
}

pub fn absolute_indexed_y<M: Writer>(cpu: &mut CPU<M>) -> (r: (u16, u32))
    requires
        old(cpu).wf(),
    ensures
        final(cpu).wf(),
        (final(cpu).state(), r.0, r.1) == address_of::<M>(Mode::AbsoluteY, old(cpu).state()),
{
    let offset = cpu.y;
    absolute_indexed_load(cpu, offset)
}

/// Zero page indexed: the zero page operand plus an index register; the sum
/// wraps within page 0.
fn zero_page_indexed_load<M: Writer>(cpu: &mut CPU<M>, offset: u8) -> (r: (u16, u32))
    requires
        old(cpu).wf(),
    ensures
        final(cpu).wf(),
        (final(cpu).state(), r.0, r.1) == indexed_zero_page::<M>(old(cpu).state(), offset),
{
    let low_byte = fetch_byte(cpu);
    // Quirk in CPU means we unnecessarily read this memory.
    let _ = cpu.load_memory(low_byte as u16);
    let adjusted = (low_byte as u16) + (offset as u16);
    (adjusted % 256, 0)
}

/// Zero page indexed by X.
pub fn zero_page_indexed<M: Writer>(cpu: &mut CPU<M>) -> (r: (u16, u32))
    requires
        old(cpu).wf(),
    ensures
        final(cpu).wf(),
        (final(cpu).state(), r.0, r.1) == address_of::<M>(Mode::ZeroPageX, old(cpu).state()),
{
    let offset = cpu.x;
    zero_page_indexed_load(cpu, offset)
}

/// Zero page indexed by Y, used by LDX and STX.
pub fn zero_page_indexed_y<M: Writer>(cpu: &mut CPU<M>) -> (r: (u16, u32))
    requires
        old(cpu).wf(),
    ensures
        final(cpu).wf(),
        (final(cpu).state(), r.0, r.1) == address_of::<M>(Mode::ZeroPageY, old(cpu).state()),
{
    let offset = cpu.y;
    zero_page_indexed_load(cpu, offset)
}

/// Indexed indirect: X plus the zero page operand, wrapped within page 0,
/// locates the address.
pub fn indexed_indirect<M: Writer>(cpu: &mut CPU<M>) -> (r: (u16, u32))
    requires
        old(cpu).wf(),
    ensures
        final(cpu).wf(),
        (final(cpu).state(), r.0, r.1) == address_of::<M>(
            Mode::IndexedIndirect,
            old(cpu).state(),
        ),
{
    let bal = fetch_byte(cpu);

    // Quirk in CPU means we unnecessarily read this memory.
    let _ = cpu.load_memory(bal as u16);

    let sum = (bal as u16) + (cpu.x as u16);
    assert(sum & 0x00FF == sum % 256) by (bit_vector);
    let addr = sum & 0x00FF;
    let adl = cpu.load_memory(addr);
    let adh = cpu.load_memory(addr + 1);
    (util::combine_bytes(adh, adl), 0)
}

/// Indirect indexed: the zero page operand locates an address, to which Y
/// is added.
pub fn indirect_indexed<M: Writer>(cpu: &mut CPU<M>) -> (r: (u16, u32))
    requires
        old(cpu).wf(),
    ensures
        final(cpu).wf(),
        (final(cpu).state(), r.0, r.1) == address_of::<M>(
            Mode::IndirectIndexed,
            old(cpu).state(),
        ),
{
    let ial = fetch_byte(cpu);
    let bal = cpu.load_memory(ial as u16);
    let bah = cpu.load_memory((ial as u16) + 1);

    if bal as u16 + cpu.y as u16 > 255 {
        let adl = (bal as u16 + cpu.y as u16 - 256) as u8;
        // Quirk in CPU means we unnecessarily read this memory.
        let _ = cpu.load_memory(util::combine_bytes(bah, adl));

        let adh = if bah == 0xFF {
            0
        } else {
            bah + 1
        };
        (util::combine_bytes(adh, adl), 1)
    } else {
        let adl = bal + cpu.y;
        (util::combine_bytes(bah, adl), 0)
    }
}

/// Indirect absolute: the operand locates the address. Only used by JMP.
pub fn indirect<M: Writer>(cpu: &mut CPU<M>) -> (r: (u16, u32))
    requires
        old(cpu).wf(),
    ensures
        final(cpu).wf(),
        (final(cpu).state(), r.0, r.1) == address_of::<M>(Mode::Indirect, old(cpu).state()),
{
    let ial = fetch_byte(cpu);
    let iah = fetch_byte(cpu);

    let addr = util::combine_bytes(iah, ial);
    let adl = cpu.load_memory(addr);
    let adh = cpu.load_memory(next_pc(addr));

    (util::combine_bytes(adh, adl), 0)
}

/// Runs the addressing mode `mode`.
pub fn resolve<M: Writer>(cpu: &mut CPU<M>, mode: Mode) -> (r: (u16, u32))
    requires
        old(cpu).wf(),
    ensures
        final(cpu).wf(),
        (final(cpu).state(), r.0, r.1) == address_of::<M>(mode, old(cpu).state()),
{
    match mode {
        Mode::Implied => implied(cpu),
        Mode::Immediate => immediate(cpu),
        Mode::Absolute => absolute(cpu),
        Mode::ZeroPage => zero_page(cpu),
        Mode::Relative => relative(cpu),
        Mode::AbsoluteX => absolute_indexed_x(cpu),
        Mode::AbsoluteY => absolute_indexed_y(cpu),
        Mode::ZeroPageX => zero_page_indexed(cpu),
        Mode::ZeroPageY => zero_page_indexed_y(cpu),
        Mode::IndexedIndirect => indexed_indirect(cpu),
        Mode::IndirectIndexed => indirect_indexed(cpu),
        Mode::Indirect => indirect(cpu),
    }
}

} // verus!
