//! What one instruction undoes of another, on a CPU whose whole address
//! space is RAM.
use vstd::prelude::*;

use crate::emulator::cpu::decode::{Mode, Op};
use crate::emulator::cpu::semantics::{
    CpuState, FLAG_B, FLAG_C, FLAG_I, FLAG_N, FLAG_Z, address_of, dec16, dec8, execute_next, execute_op, inc16,
    inc8, interrupt_to, load_vector, operand, pop, push, stack_address, with_flag, with_nz, word16, wrap16,
};
use crate::emulator::bits::lemma_status_bits;
use crate::emulator::memory::Writer;
use crate::emulator::memory::{Memory, MemoryView};

verus! {

/// The bus is 64KiB of RAM.
pub open spec fn all_ram(s: CpuState<MemoryView>) -> bool {
    s.memory.writeable && s.memory.data.len() == 0x10000
}

proof fn lemma_stack_pointer_round_trip(sp: u8)
    ensures
        inc8(dec8(sp)) == sp,
        dec8(inc8(sp)) == sp,
{
}

/// A pop gives back the byte just pushed and leaves the stack pointer where
/// it was.
pub proof fn law_push_then_pop(s: CpuState<MemoryView>, byte: u8)
    requires
        all_ram(s),
    ensures
        pop::<Memory>(push::<Memory>(s, byte)).1 == byte,
        pop::<Memory>(push::<Memory>(s, byte)).0 == (CpuState {
            memory: push::<Memory>(s, byte).memory,
            ..s
        }),
        all_ram(pop::<Memory>(push::<Memory>(s, byte)).0),
{
    lemma_stack_pointer_round_trip(s.sp);
}

/// PLA after PHA restores the accumulator and the stack pointer; only Z and
/// N change, to describe the accumulator.
pub proof fn law_pha_then_pla(s: CpuState<MemoryView>)
    requires
        all_ram(s),
    ensures
        ({
            let t = execute_op::<Memory>(Op::Pha, Mode::Implied, s).0;
            let u = execute_op::<Memory>(Op::Pla, Mode::Implied, t).0;
            u.a == s.a && u.sp == s.sp && u.pc == s.pc && u.x == s.x && u.y == s.y && u.p
                == with_nz(s.p, s.a)
        }),
{
    reveal(execute_op);
    law_push_then_pop(s, s.a);
}

/// RTS after JSR returns to the instruction after the JSR (whose operand
/// starts at `s.pc`) with the stack pointer where it was.
pub proof fn law_jsr_then_rts(s: CpuState<MemoryView>)
    requires
        all_ram(s),
    ensures
        ({
            let t = execute_op::<Memory>(Op::Jsr, Mode::Absolute, s).0;
            let u = execute_op::<Memory>(Op::Rts, Mode::Implied, t).0;
            u.pc == wrap16(s.pc + 2) && u.sp == s.sp && u.a == s.a && u.x == s.x && u.y == s.y
                && u.p == s.p
        }),
{
    reveal(execute_op);
    lemma_stack_pointer_round_trip(s.sp);
    lemma_stack_pointer_round_trip(dec8(s.sp));
    let s2pc = inc16(inc16(s.pc));
    let ret = dec16(s2pc);
    assert(ret == wrap16(s.pc + 1));
    assert(word16((ret / 256) as u8, (ret % 256) as u8) == ret);
    assert(stack_address(s.sp) != stack_address(dec8(s.sp)));
}

/// RTI at the end of an interrupt handler that left the stack as it found
/// it resumes the interrupted program: program counter, status and stack
/// pointer are those from before the interrupt.
pub proof fn law_interrupt_then_rti(s: CpuState<MemoryView>, vector: u16)
    requires
        all_ram(s),
    ensures
        ({
            let t = interrupt_to::<Memory>(s, vector);
            let u = execute_op::<Memory>(Op::Rti, Mode::Implied, t).0;
            u.pc == s.pc && u.p == s.p && u.sp == s.sp && u.a == s.a && u.x == s.x && u.y == s.y
        }),
{
    reveal(execute_op);
    lemma_stack_pointer_round_trip(s.sp);
    lemma_stack_pointer_round_trip(dec8(s.sp));
    lemma_stack_pointer_round_trip(dec8(dec8(s.sp)));
    assert(stack_address(s.sp) != stack_address(dec8(s.sp)));
    assert(stack_address(s.sp) != stack_address(dec8(dec8(s.sp))));
    assert(stack_address(dec8(s.sp)) != stack_address(dec8(dec8(s.sp))));
    let p = s.p;
    assert((p & 0xCF) | ((p | FLAG_I) & 0x30) == p) by (bit_vector);
    assert(word16((s.pc / 256) as u8, (s.pc % 256) as u8) == s.pc);
}

proof fn lemma_compare_bits(p: u8, diff: u8, carry: bool)
    ensures
        ({
            let z1: u8 = if diff == 0 {
                p | 0x02u8
            } else {
                p & !0x02u8
            };
            let n1: u8 = if diff & 0x80u8 != 0 {
                z1 | 0x80u8
            } else {
                z1 & !0x80u8
            };
            let q: u8 = if carry {
                n1 | 0x01u8
            } else {
                n1 & !0x01u8
            };
            &&& (q & 0x02u8 != 0) == (diff == 0)
            &&& (q & 0x01u8 != 0) == carry
            &&& (q & 0x80u8 != 0) == (diff >= 128)
            &&& q & 0x7Cu8 == p & 0x7Cu8
        }),
{
    lemma_status_bits(p, diff, 0, carry, false, false);
}

/// The status bits that a comparison sets from its two values.
proof fn lemma_compare_status(p: u8, diff: u8, carry: bool)
    ensures
        ({
            let q = with_flag(with_nz(p, diff), FLAG_C, carry);
            &&& (q & FLAG_Z != 0) == (diff == 0)
            &&& (q & FLAG_C != 0) == carry
            &&& (q & FLAG_N != 0) == (diff >= 128)
            &&& q & 0x7C == p & 0x7C
        }),
{
    lemma_compare_bits(p, diff, carry);
}

/// CMP, CPX and CPY compare the accumulator, X and Y with the operand: Z
/// says they are equal, C that the register is at least the operand, N is
/// bit 7 of their difference modulo 256; the other flags, the registers and
/// the rest of the state are as after the operand's read.
pub proof fn law_compare_flags<M: Writer>(op: Op, mode: Mode, s: CpuState<M::V>)
    requires
        op == Op::Cmp || op == Op::Cpx || op == Op::Cpy,
    ensures
        ({
            let reg: u8 = if op == Op::Cmp {
                s.a
            } else if op == Op::Cpx {
                s.x
            } else {
                s.y
            };
            let (s1, m, c) = operand::<M>(mode, s);
            let (t, extra) = execute_op::<M>(op, mode, s);
            &&& (t.p & FLAG_Z != 0) == (reg == m)
            &&& (t.p & FLAG_C != 0) == (reg >= m)
            &&& (t.p & FLAG_N != 0) == ((reg - m) % 256 >= 128)
            &&& t.p & 0x7C == s1.p & 0x7C
            &&& t.a == s1.a && t.x == s1.x && t.y == s1.y && t.sp == s1.sp && t.pc == s1.pc
            &&& t.memory == s1.memory
            &&& extra == c
        }),
{
    reveal(execute_op);
    let reg: u8 = if op == Op::Cmp {
        s.a
    } else if op == Op::Cpx {
        s.x
    } else {
        s.y
    };
    let (s1, m, c) = operand::<M>(mode, s);
    let diff: u8 = if reg >= m {
        (reg - m) as u8
    } else {
        (reg - m + 256) as u8
    };
    assert(diff as int == (reg - m) % 256);
    lemma_compare_status(s1.p, diff, reg >= m);
}

/// The register transfers: TAX, TXA, TAY, TYA and TSX copy one register to
/// another and set Z and N from the value; TXS copies X to the stack pointer
/// and leaves the status alone. Each takes two cycles and changes nothing
/// else.
pub proof fn law_transfers(s: CpuState<MemoryView>)
    requires
        all_ram(s),
        s.pc < 0xFFFF,
    ensures
        ({
            let opcode = s.memory.data[s.pc as int];
            let (t, cycles) = execute_next::<Memory>(s);
            &&& opcode == 0xAA ==> t.x == s.a && t.a == s.a && t.y == s.y && t.sp == s.sp && t.p
                == with_nz(s.p, s.a)
            &&& opcode == 0x8A ==> t.a == s.x && t.x == s.x && t.y == s.y && t.sp == s.sp && t.p
                == with_nz(s.p, s.x)
            &&& opcode == 0xA8 ==> t.y == s.a && t.a == s.a && t.x == s.x && t.sp == s.sp && t.p
                == with_nz(s.p, s.a)
            &&& opcode == 0x98 ==> t.a == s.y && t.x == s.x && t.y == s.y && t.sp == s.sp && t.p
                == with_nz(s.p, s.y)
            &&& opcode == 0xBA ==> t.x == s.sp && t.a == s.a && t.y == s.y && t.sp == s.sp && t.p
                == with_nz(s.p, s.sp)
            &&& opcode == 0x9A ==> t.sp == s.x && t.a == s.a && t.x == s.x && t.y == s.y && t.p
                == s.p
            &&& (opcode == 0xAA || opcode == 0x8A || opcode == 0xA8 || opcode == 0x98 || opcode
                == 0xBA || opcode == 0x9A) ==> cycles == 2 && t.pc == s.pc + 1 && t.memory
                == s.memory
        }),
{
    reveal(execute_op);
}

/// CMP, CPX and CPY with an immediate operand (opcodes $C9, $E0 and $C0)
/// compare the accumulator, X and Y with the byte after the opcode: Z iff
/// equal, C iff the register is at least the byte, N the sign of their
/// difference modulo 256; two cycles, and the program counter moves past
/// both bytes.
pub proof fn law_compare_immediate(s: CpuState<MemoryView>)
    requires
        all_ram(s),
        s.pc < 0xFFFE,
    ensures
        ({
            let opcode = s.memory.data[s.pc as int];
            let m = s.memory.data[s.pc + 1];
            let (t, cycles) = execute_next::<Memory>(s);
            let reg: u8 = if opcode == 0xC9 {
                s.a
            } else if opcode == 0xE0 {
                s.x
            } else {
                s.y
            };
            (opcode == 0xC9 || opcode == 0xE0 || opcode == 0xC0) ==> {
                &&& (t.p & FLAG_Z != 0) == (reg == m)
                &&& (t.p & FLAG_C != 0) == (reg >= m)
                &&& (t.p & FLAG_N != 0) == ((reg - m) % 256 >= 128)
                &&& t.p & 0x7C == s.p & 0x7C
                &&& t.a == s.a && t.x == s.x && t.y == s.y && t.sp == s.sp
                &&& t.pc == s.pc + 2 && cycles == 2
            }
        }),
{
    let opcode = s.memory.data[s.pc as int];
    if opcode == 0xC9 || opcode == 0xE0 || opcode == 0xC0 {
        let s1 = CpuState { pc: (s.pc + 1) as u16, ..s };
        let op = if opcode == 0xC9 {
            Op::Cmp
        } else if opcode == 0xE0 {
            Op::Cpx
        } else {
            Op::Cpy
        };
        law_compare_flags::<Memory>(op, Mode::Immediate, s1);
    }
}

/// Where each addressing mode finds its operand, on a CPU whose operand
/// bytes `b1` (and `b2`) follow at the program counter: immediate at the
/// program counter itself; zero page at `b1`, indexed within page zero;
/// absolute at `b2 * 256 + b1`, indexed across the whole space at one extra
/// cycle when the index carries out of the low byte; indexed indirect at the
/// little-endian pointer at zero page `b1 + X`; indirect indexed at the
/// pointer at zero page `b1` plus Y, with the same extra cycle; indirect at
/// the pointer at `b2 * 256 + b1`; relative at the address after the
/// operand moved by `b1` read as a signed byte, one extra cycle when that
/// crosses a page. The program counter steps past the operand and memory is
/// left as it was.
#[verifier::rlimit(100)]
pub proof fn law_addressing_modes(mode: Mode, s: CpuState<MemoryView>)
    requires
        all_ram(s),
        s.pc < 0xFFFE,
    ensures
        ({
            let d = s.memory.data;
            let b1 = d[s.pc as int] as int;
            let b2 = d[s.pc + 1] as int;
            let abs = b2 * 256 + b1;
            let (t, addr, extra) = address_of::<Memory>(mode, s);
            &&& t.memory == s.memory && t.a == s.a && t.x == s.x && t.y == s.y && t.sp == s.sp
                && t.p == s.p
            &&& mode == Mode::Immediate ==> addr == s.pc && t.pc == s.pc + 1 && extra == 0
            &&& mode == Mode::ZeroPage ==> addr == b1 && t.pc == s.pc + 1 && extra == 0
            &&& mode == Mode::ZeroPageX ==> addr == (b1 + s.x) % 256 && t.pc == s.pc + 1 && extra
                == 0
            &&& mode == Mode::ZeroPageY ==> addr == (b1 + s.y) % 256 && t.pc == s.pc + 1 && extra
                == 0
            &&& mode == Mode::Absolute ==> addr == abs && t.pc == s.pc + 2 && extra == 0
            &&& mode == Mode::AbsoluteX ==> addr == (abs + s.x) % 0x10000 && t.pc == s.pc + 2
                && extra == (if b1 + s.x > 255 {
                1int
            } else {
                0
            })
            &&& mode == Mode::AbsoluteY ==> addr == (abs + s.y) % 0x10000 && t.pc == s.pc + 2
                && extra == (if b1 + s.y > 255 {
                1int
            } else {
                0
            })
            &&& mode == Mode::IndexedIndirect ==> {
                let zp = (b1 + s.x) % 256;
                addr == d[zp + 1] * 256 + d[zp] && t.pc == s.pc + 1 && extra == 0
            }
            &&& mode == Mode::IndirectIndexed ==> {
                let lo = d[b1] as int;
                addr == (d[b1 + 1] * 256 + lo + s.y) % 0x10000 && t.pc == s.pc + 1 && extra == (
                if lo + s.y > 255 {
                    1int
                } else {
                    0
                })
            }
            &&& mode == Mode::Indirect ==> addr == d[(abs + 1) % 0x10000] * 256 + d[abs] && t.pc
                == s.pc + 2 && extra == 0
            &&& mode == Mode::Relative ==> {
                let next = s.pc + 1;
                let target = (next + (if b1 < 128 {
                    b1
                } else {
                    b1 - 256
                }) + 0x10000) % 0x10000;
                addr == target && t.pc == next && extra == (if target / 256 != next / 256 {
                    1int
                } else {
                    0
                })
            }
        }),
{
    let d = s.memory.data;
    let pc = s.pc;
    match mode {
        Mode::Relative => {
            let next = (pc + 1) as u16;
            let off = d[pc as int];
            let target = crate::emulator::cpu::semantics::relative_target(next, off);
            crate::emulator::bits::lemma_address_bits(target);
            crate::emulator::bits::lemma_address_bits(next);
        },
        Mode::AbsoluteX | Mode::AbsoluteY | Mode::IndirectIndexed | Mode::Indirect => {},
        _ => {},
    }
}

/// BRK pushes the high byte of the program counter, then its low byte
/// plus one (wrapping within the byte), then the status with B set; it
/// leaves B set in the status, moves the stack pointer down by three
/// (wrapping) and
/// jumps through the vector at $FFFE/$FFFF. Nothing outside the stack page
/// is written.
pub proof fn law_brk(s: CpuState<MemoryView>)
    requires
        all_ram(s),
        s.sp >= 2,
    ensures
        ({
            let (t, extra) = execute_op::<Memory>(Op::Brk, Mode::Implied, s);
            let d = t.memory.data;
            let top = 0x100 + s.sp;
            &&& d[top] == s.pc / 256
            &&& d[top - 1] == (s.pc % 256 + 1) % 256
            &&& d[top - 2] == s.p | FLAG_B
            &&& t.sp == (s.sp + 253) % 256 && t.p == s.p | FLAG_B
            &&& t.pc == s.memory.data[0xFFFF] * 256 + s.memory.data[0xFFFE]
            &&& t.a == s.a && t.x == s.x && t.y == s.y && extra == 0
            &&& d.len() == 0x10000
            &&& forall|i: int| 0 <= i < 0x10000 && !(top - 2 <= i <= top) ==> d[i]
                == s.memory.data[i]
        }),
{
    let s1 = push::<Memory>(s, (s.pc / 256) as u8);
    let s2 = push::<Memory>(s1, inc8((s.pc % 256) as u8));
    let s3 = CpuState { p: s2.p | FLAG_B, ..s2 };
    let s4 = push::<Memory>(s3, s3.p | FLAG_B);
    assert(execute_op::<Memory>(Op::Brk, Mode::Implied, s) == (load_vector::<Memory>(s4, 0xFFFE), 0u32))
        by {
        reveal(execute_op);
    }
    lemma_status_bits(s.p, 0, 0, false, false, false);
    assert(s4.memory.data[0xFFFE] == s.memory.data[0xFFFE]);
    assert(s4.memory.data[0xFFFF] == s.memory.data[0xFFFF]);
}

/// An interrupt pushes the program counter, high byte first, then the
/// status as it was; it sets I, moves the stack pointer down by three
/// (wrapping) and jumps through its vector: a non-maskable interrupt
/// through $FFFA/$FFFB, an interrupt request through $FFFE/$FFFF. Nothing
/// outside the stack page is written.
pub proof fn law_interrupt_frame(s: CpuState<MemoryView>, nmi: bool)
    requires
        all_ram(s),
        s.sp >= 2,
    ensures
        ({
            let vector = if nmi {
                crate::emulator::cpu::NMI_VECTOR
            } else {
                crate::emulator::cpu::IRQ_VECTOR
            };
            let t = interrupt_to::<Memory>(s, vector);
            let d = t.memory.data;
            let top = 0x100 + s.sp;
            let lo: int = if nmi {
                0xFFFA
            } else {
                0xFFFE
            };
            &&& d[top] == s.pc / 256 && d[top - 1] == s.pc % 256 && d[top - 2] == s.p
            &&& t.sp == (s.sp + 253) % 256 && t.p == s.p | FLAG_I
            &&& (t.p & FLAG_I != 0) && t.p & !FLAG_I == s.p & !FLAG_I
            &&& t.pc == s.memory.data[lo + 1] * 256 + s.memory.data[lo]
            &&& t.a == s.a && t.x == s.x && t.y == s.y
            &&& d.len() == 0x10000
            &&& forall|i: int| 0 <= i < 0x10000 && !(top - 2 <= i <= top) ==> d[i]
                == s.memory.data[i]
        }),
{
    lemma_status_bits(s.p, 0, 0, false, false, false);
    let vector = if nmi {
        crate::emulator::cpu::NMI_VECTOR
    } else {
        crate::emulator::cpu::IRQ_VECTOR
    };
    let s1 = push::<Memory>(s, (s.pc / 256) as u8);
    let s2 = push::<Memory>(s1, (s.pc % 256) as u8);
    let s3 = push::<Memory>(s2, s2.p);
    assert(s3.memory.data[vector as int] == s.memory.data[vector as int]);
    assert(s3.memory.data[inc16(vector) as int] == s.memory.data[inc16(vector) as int]);
}

} // verus!
