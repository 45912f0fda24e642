//! The meaning of each instruction, as a function from the processor's state
//! before it to the state after it and the extra cycles it took.
//!
//! The bus is any `Writer`; the model reads and writes it through the
//! device's own spec functions, so a read that changes a device (a
//! controller's strobe, a status register) is part of the meaning.
use vstd::prelude::*;

use crate::emulator::cpu::decode::{decode, Mode, Op};
use crate::emulator::memory::{Reader, Writer};
use crate::emulator::util::{bcd_encoding, bcd_value};

verus! {

pub const FLAG_C: u8 = 0x01;

pub const FLAG_Z: u8 = 0x02;

pub const FLAG_I: u8 = 0x04;

pub const FLAG_D: u8 = 0x08;

pub const FLAG_B: u8 = 0x10;

pub const FLAG_V: u8 = 0x40;

pub const FLAG_N: u8 = 0x80;

/// The processor's registers and the state of the bus behind it.
pub struct CpuState<V> {
    pub memory: V,
    pub a: u8,
    pub x: u8,
    pub y: u8,
    pub sp: u8,
    pub pc: u16,
    pub p: u8,
    pub dec_arith_on: bool,
    pub nmi_flip_flop: bool,
}

/// `v + 1`, wrapping from 0xFFFF to 0.
pub open spec fn inc16(v: u16) -> u16 {
    if v == 0xFFFF {
        0
    } else {
        (v + 1) as u16
    }
}

/// `v - 1`, wrapping from 0 to 0xFFFF.
pub open spec fn dec16(v: u16) -> u16 {
    if v == 0 {
        0xFFFF
    } else {
        (v - 1) as u16
    }
}

/// `v + 1`, wrapping from 0xFF to 0.
pub open spec fn inc8(v: u8) -> u8 {
    if v == 0xFF {
        0
    } else {
        (v + 1) as u8
    }
}

/// `v - 1`, wrapping from 0 to 0xFF.
pub open spec fn dec8(v: u8) -> u8 {
    if v == 0 {
        0xFF
    } else {
        (v - 1) as u8
    }
}

/// The 16-bit word with high byte `hi` and low byte `lo`.
pub open spec fn word16(hi: u8, lo: u8) -> u16 {
    (hi * 256 + lo) as u16
}

/// `v` reduced into 0..=0xFFFF.
pub open spec fn wrap16(v: int) -> u16 {
    if v < 0 {
        (v + 0x10000) as u16
    } else if v > 0xFFFF {
        (v - 0x10000) as u16
    } else {
        v as u16
    }
}

/// The status byte `p` with the bits of `mask` set when `on`, cleared otherwise.
pub open spec fn with_flag(p: u8, mask: u8, on: bool) -> u8 {
    if on {
        p | mask
    } else {
        p & !mask
    }
}

/// The status byte `p` with Z and N describing the result `v`.
pub open spec fn with_nz(p: u8, v: u8) -> u8 {
    with_flag(with_flag(p, FLAG_Z, v == 0), FLAG_N, v & 0x80 != 0)
}

pub open spec fn flag(p: u8, mask: u8) -> bool {
    p & mask != 0
}

pub open spec fn read_byte<M: Reader>(s: CpuState<M::V>, addr: u16) -> (CpuState<M::V>, u8) {
    (CpuState { memory: M::after_read(s.memory, addr), ..s }, M::peek(s.memory, addr))
}

pub open spec fn write_byte<M: Writer>(s: CpuState<M::V>, addr: u16, byte: u8) -> CpuState<
    M::V,
> {
    CpuState { memory: M::after_write(s.memory, addr, byte), ..s }
}

pub open spec fn advance_pc<V>(s: CpuState<V>) -> CpuState<V> {
    CpuState { pc: inc16(s.pc), ..s }
}

/// Reads the byte at the program counter and steps past it.
pub open spec fn fetch<M: Reader>(s: CpuState<M::V>) -> (CpuState<M::V>, u8) {
    let (s1, b) = read_byte::<M>(s, s.pc);
    (advance_pc(s1), b)
}

pub open spec fn with_p<V>(s: CpuState<V>, p: u8) -> CpuState<V> {
    CpuState { p: p, ..s }
}

pub open spec fn stack_address(sp: u8) -> u16 {
    (0x0100 + sp) as u16
}

pub open spec fn push<M: Writer>(s: CpuState<M::V>, byte: u8) -> CpuState<M::V> {
    write_byte::<M>(CpuState { sp: dec8(s.sp), ..s }, stack_address(s.sp), byte)
}

pub open spec fn pop<M: Reader>(s: CpuState<M::V>) -> (CpuState<M::V>, u8) {
    let sp = inc8(s.sp);
    read_byte::<M>(CpuState { sp: sp, ..s }, stack_address(sp))
}

/// Loads the program counter from the little-endian vector at `vector`.
pub open spec fn load_vector<M: Reader>(s: CpuState<M::V>, vector: u16) -> CpuState<M::V> {
    let (s1, lo) = read_byte::<M>(s, vector);
    let (s2, hi) = read_byte::<M>(s1, inc16(vector));
    CpuState { pc: word16(hi, lo), ..s2 }
}

/// The target of a branch by the signed offset `off` from `pc`.
pub open spec fn relative_target(pc: u16, off: u8) -> u16 {
    if off >= 128 {
        wrap16(pc - (256 - off))
    } else {
        wrap16(pc + off)
    }
}

/// Absolute addressing plus an index; a carry out of the low byte costs a
/// cycle and a dummy read of the un-carried address.
pub open spec fn indexed_absolute<M: Reader>(s: CpuState<M::V>, offset: u8) -> (
    CpuState<M::V>,
    u16,
    u32,
) {
    let (s1, bal) = fetch::<M>(s);
    let (s2, bah) = fetch::<M>(s1);
    if bal + offset > 255 {
        let adl = (bal + offset - 256) as u8;
        let s3 = read_byte::<M>(s2, word16(bah, adl)).0;
        (s3, word16(inc8(bah), adl), 1)
    } else {
        (s2, word16(bah, (bal + offset) as u8), 0)
    }
}

/// The state after computing the operand address of `mode`, the address, and
/// the extra cycles spent.
/// Zero page indexed addressing: the one-byte operand plus the index,
/// wrapping within page 0, after the processor's dummy read of the operand's
/// own zero page address; never an extra cycle.
pub open spec fn indexed_zero_page<M: Reader>(s: CpuState<M::V>, offset: u8) -> (
    CpuState<M::V>,
    u16,
    u32,
) {
    let (s1, bal) = fetch::<M>(s);
    let s2 = read_byte::<M>(s1, bal as u16).0;
    (s2, ((bal + offset) % 256) as u16, 0)
}

pub open spec fn address_of<M: Reader>(mode: Mode, s: CpuState<M::V>) -> (CpuState<M::V>, u16, u32) {
    match mode {
        Mode::Implied => (read_byte::<M>(s, s.pc).0, 0, 0),
        Mode::Immediate => (advance_pc(s), s.pc, 0),
        Mode::Absolute => {
            let (s1, lo) = fetch::<M>(s);
            let (s2, hi) = fetch::<M>(s1);
            (s2, word16(hi, lo), 0)
        },
        Mode::ZeroPage => {
            let (s1, lo) = fetch::<M>(s);
            (s1, lo as u16, 0)
        },
        Mode::Relative => {
            let (s1, off) = fetch::<M>(s);
            let s2 = read_byte::<M>(s1, s1.pc).0;
            let target = relative_target(s1.pc, off);
            (s2, target, if target & 0xFF00 != s1.pc & 0xFF00 {
                1
            } else {
                0
            })
        },
        Mode::AbsoluteX => indexed_absolute::<M>(s, s.x),
        Mode::AbsoluteY => indexed_absolute::<M>(s, s.y),
        Mode::ZeroPageX => indexed_zero_page::<M>(s, s.x),
        Mode::ZeroPageY => indexed_zero_page::<M>(s, s.y),
        Mode::IndexedIndirect => {
            let (s1, bal) = fetch::<M>(s);
            let s2 = read_byte::<M>(s1, bal as u16).0;
            let zp = ((bal + s.x) % 256) as u16;
            let (s3, adl) = read_byte::<M>(s2, zp);
            let (s4, adh) = read_byte::<M>(s3, (zp + 1) as u16);
            (s4, word16(adh, adl), 0)
        },
        Mode::IndirectIndexed => {
            let (s1, ial) = fetch::<M>(s);
            let (s2, bal) = read_byte::<M>(s1, ial as u16);
            let (s3, bah) = read_byte::<M>(s2, (ial + 1) as u16);
            if bal + s.y > 255 {
                let adl = (bal + s.y - 256) as u8;
                let s4 = read_byte::<M>(s3, word16(bah, adl)).0;
                (s4, word16(inc8(bah), adl), 1)
            } else {
                (s3, word16(bah, (bal + s.y) as u8), 0)
            }
        },
        Mode::Indirect => {
            let (s1, ial) = fetch::<M>(s);
            let (s2, iah) = fetch::<M>(s1);
            let addr = word16(iah, ial);
            let (s3, adl) = read_byte::<M>(s2, addr);
            let (s4, adh) = read_byte::<M>(s3, inc16(addr));
            (s4, word16(adh, adl), 0)
        },
    }
}

/// The operand byte of `mode`: the state after reading it, the byte, and the
/// extra cycles of the addressing.
pub open spec fn operand<M: Reader>(mode: Mode, s: CpuState<M::V>) -> (CpuState<M::V>, u8, u32) {
    let (s1, addr, c) = address_of::<M>(mode, s);
    let (s2, m) = read_byte::<M>(s1, addr);
    (s2, m, c)
}

/// Whether decimal arithmetic applies to an ADC or SBC in state `s`.
pub open spec fn decimal_mode<V>(s: CpuState<V>) -> bool {
    flag(s.p, FLAG_D) && s.dec_arith_on
}

pub open spec fn carry_in<V>(s: CpuState<V>) -> int {
    if flag(s.p, FLAG_C) {
        1
    } else {
        0
    }
}

/// Result and carry of A + M + C.
pub open spec fn add_with_carry(a: u8, m: u8, c: int, decimal: bool) -> (u8, bool) {
    if decimal {
        let h = bcd_value(a) + bcd_value(m) + c;
        if h <= 99 {
            (bcd_encoding(h as u8) as u8, false)
        } else {
            (bcd_encoding((h - 100) as u8) as u8, true)
        }
    } else {
        (((a + m + c) % 256) as u8, a + m + c > 255)
    }
}

/// Whether A + M + C in decimal mode stays within two BCD digits plus a carry.
pub open spec fn add_decimal_ok(a: u8, m: u8, c: int) -> bool {
    bcd_value(a) + bcd_value(m) + c <= 199
}

/// Result and carry (no borrow) of A - M - !C.
pub open spec fn subtract_with_borrow(a: u8, m: u8, c: int, decimal: bool) -> (u8, bool) {
    if decimal {
        let sub = bcd_value(m) + (1 - c);
        if bcd_value(a) < sub {
            (bcd_encoding((bcd_value(a) - sub + 100) as u8) as u8, false)
        } else {
            (bcd_encoding((bcd_value(a) - sub) as u8) as u8, true)
        }
    } else {
        let minus_m = ((255 - m + c) % 256);
        (((a + minus_m) % 256) as u8, a + minus_m > 255)
    }
}

/// Whether A - M - !C in decimal mode stays within two BCD digits.
pub open spec fn subtract_decimal_ok(a: u8, m: u8, c: int) -> bool {
    let sub = bcd_value(m) + (1 - c);
    if bcd_value(a) < sub {
        sub - bcd_value(a) <= 100
    } else {
        bcd_value(a) - sub <= 99
    }
}

/// `s` with `v` in register `reg` (0: A, 1: X, 2: Y) and Z and N describing `v`.
pub open spec fn with_register<V>(s: CpuState<V>, reg: int, v: u8) -> CpuState<V> {
    let p = with_nz(s.p, v);
    if reg == 0 {
        CpuState { a: v, p: p, ..s }
    } else if reg == 1 {
        CpuState { x: v, p: p, ..s }
    } else {
        CpuState { y: v, p: p, ..s }
    }
}

pub open spec fn compare<M: Reader>(mode: Mode, s: CpuState<M::V>, with: u8) -> (CpuState<M::V>, u32) {
    let (s1, m, c) = operand::<M>(mode, s);
    let diff = if with >= m {
        (with - m) as u8
    } else {
        (with - m + 256) as u8
    };
    (with_p(s1, with_flag(with_nz(s1.p, diff), FLAG_C, with >= m)), c)
}

pub open spec fn branch<M: Reader>(mode: Mode, s: CpuState<M::V>, taken: bool) -> (CpuState<M::V>, u32) {
    let (s1, addr, c) = address_of::<M>(mode, s);
    if taken {
        (CpuState { pc: addr, ..s1 }, (c + 1) as u32)
    } else {
        (s1, 0)
    }
}

/// The status byte loaded from the stack: bits 4 and 5 keep the register's value.
pub open spec fn status_from_stack(stacked: u8, p: u8) -> u8 {
    (stacked & 0xCF) | (p & 0x30)
}

/// Result and carry of a shift or rotate of `v` with incoming carry `c`.
pub open spec fn shift(op: Op, v: u8, c: bool) -> (u8, bool) {
    match op {
        Op::Lsr | Op::Lsra => ((v / 2) as u8, v % 2 == 1),
        Op::Asl | Op::Asla => (((v * 2) % 256) as u8, v >= 128),
        Op::Ror | Op::Rora => (
            (v / 2 + if c {
                128int
            } else {
                0int
            }) as u8,
            v % 2 == 1,
        ),
        _ => (
            ((v * 2) % 256 + if c {
                1int
            } else {
                0int
            }) as u8,
            v >= 128,
        ),
    }
}

pub open spec fn shift_flags(p: u8, res: u8, carry: bool) -> u8 {
    with_nz(with_flag(p, FLAG_C, carry), res)
}

/// Shift or rotate of the memory operand.
pub open spec fn shift_memory<M: Writer>(op: Op, mode: Mode, s: CpuState<M::V>) -> (CpuState<M::V>, u32) {
    let (s1, addr, c) = address_of::<M>(mode, s);
    let (s2, v) = read_byte::<M>(s1, addr);
    let (res, carry) = shift(op, v, flag(s2.p, FLAG_C));
    let s3 = with_p(s2, shift_flags(s2.p, res, carry));
    (write_byte::<M>(s3, addr, res), c)
}

/// Shift or rotate of the accumulator.
pub open spec fn shift_accumulator<V>(op: Op, s: CpuState<V>) -> CpuState<V> {
    let (res, carry) = shift(op, s.a, flag(s.p, FLAG_C));
    CpuState { a: res, p: shift_flags(s.p, res, carry), ..s }
}

/// Increment (`up`) or decrement of the memory operand.
pub open spec fn step_memory<M: Writer>(mode: Mode, s: CpuState<M::V>, up: bool) -> (CpuState<M::V>, u32) {
    let (s1, addr, c) = address_of::<M>(mode, s);
    let (s2, v) = read_byte::<M>(s1, addr);
    let res = if up {
        inc8(v)
    } else {
        dec8(v)
    };
    let s3 = write_byte::<M>(s2, addr, res);
    (with_p(s3, with_nz(s3.p, res)), c)
}

pub open spec fn arithmetic<M: Reader>(mode: Mode, s: CpuState<M::V>, subtract: bool) -> (CpuState<M::V>, u32) {
    let (s1, m, c) = operand::<M>(mode, s);
    let (res, carry) = if subtract {
        subtract_with_borrow(s1.a, m, carry_in(s1), decimal_mode(s1))
    } else {
        add_with_carry(s1.a, m, carry_in(s1), decimal_mode(s1))
    };
    let a_sign = s1.a & 0x80;
    let m_sign = m & 0x80;
    let r_sign = res & 0x80;
    let overflow = if subtract {
        a_sign != m_sign && m_sign == r_sign
    } else {
        a_sign == m_sign && a_sign != r_sign
    };
    let p = with_nz(with_flag(with_flag(s1.p, FLAG_C, carry), FLAG_V, overflow), res);
    (CpuState { a: res, p: p, ..s1 }, c)
}

/// Whether `op` in `mode` runs without a fault from state `s`: decimal
/// arithmetic needs operands whose result fits in two BCD digits.
#[verifier::opaque]
pub open spec fn op_defined<M: Reader>(op: Op, mode: Mode, s: CpuState<M::V>) -> bool {
    match op {
        Op::Adc => {
            let (s1, m, c) = operand::<M>(mode, s);
            decimal_mode(s1) ==> add_decimal_ok(s1.a, m, carry_in(s1))
        },
        Op::Sbc => {
            let (s1, m, c) = operand::<M>(mode, s);
            decimal_mode(s1) ==> subtract_decimal_ok(s1.a, m, carry_in(s1))
        },
        _ => true,
    }
}

/// The state after `op` in `mode` runs from `s`, and its extra cycles.
#[verifier::opaque]
pub open spec fn execute_op<M: Writer>(op: Op, mode: Mode, s: CpuState<M::V>) -> (CpuState<M::V>, u32) {
    match op {
        Op::Lda => {
            let (s1, m, c) = operand::<M>(mode, s);
            (with_register(s1, 0, m), c)
        },
        Op::Ldx => {
            let (s1, m, c) = operand::<M>(mode, s);
            (with_register(s1, 1, m), c)
        },
        Op::Ldy => {
            let (s1, m, c) = operand::<M>(mode, s);
            (with_register(s1, 2, m), c)
        },
        Op::Sta => {
            let (s1, addr, c) = address_of::<M>(mode, s);
            (write_byte::<M>(s1, addr, s1.a), 0)
        },
        Op::Stx => {
            let (s1, addr, c) = address_of::<M>(mode, s);
            (write_byte::<M>(s1, addr, s1.x), c)
        },
        Op::Sty => {
            let (s1, addr, c) = address_of::<M>(mode, s);
            (write_byte::<M>(s1, addr, s1.y), c)
        },
        Op::Adc => arithmetic::<M>(mode, s, false),
        Op::Sbc => arithmetic::<M>(mode, s, true),
        Op::And => {
            let (s1, m, c) = operand::<M>(mode, s);
            (with_register(s1, 0, m & s1.a), c)
        },
        Op::Ora => {
            let (s1, m, c) = operand::<M>(mode, s);
            (with_register(s1, 0, m | s1.a), c)
        },
        Op::Eor => {
            let (s1, m, c) = operand::<M>(mode, s);
            (with_register(s1, 0, m ^ s1.a), c)
        },
        Op::Sec => (with_p(s, s.p | FLAG_C), 0),
        Op::Clc => (with_p(s, s.p & !FLAG_C), 0),
        Op::Sei => (with_p(s, s.p | FLAG_I), 0),
        Op::Cli => (with_p(s, s.p & !FLAG_I), 0),
        Op::Sed => (with_p(s, s.p | FLAG_D), 0),
        Op::Cld => (with_p(s, s.p & !FLAG_D), 0),
        Op::Clv => (with_p(s, s.p & !FLAG_V), 0),
        Op::Jmp => {
            let (s1, addr, c) = address_of::<M>(mode, s);
            (CpuState { pc: addr, ..s1 }, c)
        },
        Op::Bmi => branch::<M>(mode, s, flag(s.p, FLAG_N)),
        Op::Bpl => branch::<M>(mode, s, !flag(s.p, FLAG_N)),
        Op::Bcc => branch::<M>(mode, s, !flag(s.p, FLAG_C)),
        Op::Bcs => branch::<M>(mode, s, flag(s.p, FLAG_C)),
        Op::Beq => branch::<M>(mode, s, flag(s.p, FLAG_Z)),
        Op::Bne => branch::<M>(mode, s, !flag(s.p, FLAG_Z)),
        Op::Bvs => branch::<M>(mode, s, flag(s.p, FLAG_V)),
        Op::Bvc => branch::<M>(mode, s, !flag(s.p, FLAG_V)),
        Op::Cmp => compare::<M>(mode, s, s.a),
        Op::Cpx => compare::<M>(mode, s, s.x),
        Op::Cpy => compare::<M>(mode, s, s.y),
        Op::Bit => {
            let (s1, m, c) = operand::<M>(mode, s);
            let p = with_flag(
                with_flag(with_flag(s1.p, FLAG_N, m & 0x80 != 0), FLAG_V, m & 0x40 != 0),
                FLAG_Z,
                m & s1.a == 0,
            );
            (with_p(s1, p), c)
        },
        Op::Inx => (with_register(s, 1, inc8(s.x)), 0),
        Op::Iny => (with_register(s, 2, inc8(s.y)), 0),
        Op::Dex => (with_register(s, 1, dec8(s.x)), 0),
        Op::Dey => (with_register(s, 2, dec8(s.y)), 0),
        Op::Tax => (with_register(s, 1, s.a), 0),
        Op::Txa => (with_register(s, 0, s.x), 0),
        Op::Tay => (with_register(s, 2, s.a), 0),
        Op::Tya => (with_register(s, 0, s.y), 0),
        Op::Tsx => (with_register(s, 1, s.sp), 0),
        Op::Txs => (CpuState { sp: s.x, ..s }, 0),
        Op::Jsr => {
            let (s1, addr, c) = address_of::<M>(mode, s);
            let ret = dec16(s1.pc);
            let s2 = push::<M>(s1, (ret / 256) as u8);
            let s3 = push::<M>(s2, (ret % 256) as u8);
            (CpuState { pc: addr, ..s3 }, c)
        },
        Op::Rts => {
            let (s1, lo) = pop::<M>(s);
            let (s2, hi) = pop::<M>(s1);
            (CpuState { pc: inc16(word16(hi, lo)), ..s2 }, 0)
        },
        Op::Pha => (push::<M>(s, s.a), 0),
        Op::Pla => {
            let (s1, v) = pop::<M>(s);
            (with_register(s1, 0, v), 0)
        },
        Op::Php => (push::<M>(s, s.p | FLAG_B), 0),
        Op::Plp => {
            let (s1, v) = pop::<M>(s);
            (with_p(s1, status_from_stack(v, s1.p)), 0)
        },
        Op::Rti => {
            let (s1, v) = pop::<M>(s);
            let s2 = with_p(s1, status_from_stack(v, s1.p));
            let (s3, lo) = pop::<M>(s2);
            let (s4, hi) = pop::<M>(s3);
            (CpuState { pc: word16(hi, lo), ..s4 }, 0)
        },
        Op::Brk => {
            let s1 = push::<M>(s, (s.pc / 256) as u8);
            let s2 = push::<M>(s1, inc8((s.pc % 256) as u8));
            let s3 = with_p(s2, s2.p | FLAG_B);
            let s4 = push::<M>(s3, s3.p | FLAG_B);
            (load_vector::<M>(s4, 0xFFFE), 0)
        },
        Op::Lsr | Op::Asl | Op::Ror | Op::Rol => shift_memory::<M>(op, mode, s),
        Op::Lsra | Op::Asla | Op::Rora | Op::Rola => (shift_accumulator(op, s), 0),
        Op::Inc => step_memory::<M>(mode, s, true),
        Op::Dec => step_memory::<M>(mode, s, false),
        Op::Nop => (s, 0),
    }
}

/// Whether the instruction at the program counter is documented and runs
/// without a fault.
pub open spec fn step_defined<M: Writer>(s: CpuState<M::V>) -> bool {
    let (s1, opcode) = fetch::<M>(s);
    match decode(opcode) {
        Some((op, mode, cycles)) => op_defined::<M>(op, mode, s1),
        None => false,
    }
}

/// No operation takes more than two extra cycles.
pub proof fn lemma_extra_cycles_bound<M: Writer>(op: Op, mode: Mode, s: CpuState<M::V>)
    ensures
        execute_op::<M>(op, mode, s).1 <= 2,
{
    reveal(execute_op);
}

/// The state after the instruction at the program counter, and the cycles it
/// took.
pub open spec fn execute_next<M: Writer>(s: CpuState<M::V>) -> (CpuState<M::V>, u32) {
    let (s1, opcode) = fetch::<M>(s);
    match decode(opcode) {
        Some((op, mode, cycles)) => {
            let (s2, extra) = execute_op::<M>(op, mode, s1);
            (s2, (cycles + extra) as u32)
        },
        None => (s1, 0),
    }
}

/// Saves the program counter and status on the stack and jumps through `vector`.
pub open spec fn interrupt_to<M: Writer>(s: CpuState<M::V>, vector: u16) -> CpuState<M::V> {
    let s1 = push::<M>(s, (s.pc / 256) as u8);
    let s2 = push::<M>(s1, (s.pc % 256) as u8);
    let s3 = push::<M>(s2, s2.p);
    let s4 = load_vector::<M>(s3, vector);
    with_p(s4, s4.p | FLAG_I)
}

} // verus!
