//! What each operation does to the registers, the status flags and the
//! bus, stated from its operand and the registers before it.
use vstd::prelude::*;

use crate::emulator::cpu::decode::{Mode, Op};
use crate::emulator::cpu::semantics::{
    CpuState, FLAG_B, FLAG_C, FLAG_D, FLAG_I, FLAG_N, FLAG_V, FLAG_Z, address_of, arithmetic,
    add_with_carry, execute_op, operand, read_byte, subtract_with_borrow, with_flag, with_nz, write_byte,
};
use crate::emulator::bits::lemma_status_bits;
use crate::emulator::memory::Writer;
use crate::emulator::util::{bcd_value, is_bcd, law_bcd_round_trip};

verus! {

/// `new` is the status `old` with Z and N describing `v`: Z set iff `v` is
/// zero, N iff bit 7 of `v` is set, and every other flag as in `old`.
pub open spec fn describes(old: u8, new: u8, v: u8) -> bool {
    &&& (new & FLAG_Z != 0) == (v == 0)
    &&& (new & FLAG_N != 0) == (v >= 128)
    &&& new & 0x7D == old & 0x7D
}

/// `new` is `old` with the flags of `mask` set iff `on`, the others kept.
pub open spec fn sets_flag(old: u8, new: u8, mask: u8, on: bool) -> bool {
    &&& (new & mask != 0) == on
    &&& new & !mask == old & !mask
}

proof fn lemma_nz_bits(p: u8, v: u8)
    ensures
        ({
            let z: u8 = if v == 0 {
                p | 0x02u8
            } else {
                p & !0x02u8
            };
            let q: u8 = if v & 0x80u8 != 0 {
                z | 0x80u8
            } else {
                z & !0x80u8
            };
            &&& (q & 0x02u8 != 0) == (v == 0)
            &&& (q & 0x80u8 != 0) == (v >= 128)
            &&& q & 0x7Du8 == p & 0x7Du8
        }),
{
    lemma_status_bits(p, v, 0, false, false, false);
}

proof fn lemma_with_nz(p: u8, v: u8)
    ensures
        describes(p, with_nz(p, v), v),
{
    lemma_nz_bits(p, v);
}

proof fn lemma_commute(x: u8, y: u8)
    ensures
        x & y == y & x,
        x | y == y | x,
        x ^ y == y ^ x,
{
    lemma_status_bits(0, x, y, false, false, false);
}

proof fn lemma_sign(x: u8)
    ensures
        (x & 0x80u8 != 0) == (x >= 128),
{
    lemma_status_bits(0, x, x, false, false, false);
}

proof fn lemma_single_flag(p: u8, mask: u8)
    requires
        mask == 0x01u8 || mask == 0x04u8 || mask == 0x08u8 || mask == 0x40u8,
    ensures
        (p | mask) & mask != 0,
        (p | mask) & !mask == p & !mask,
        (p & !mask) & mask == 0,
        (p & !mask) & !mask == p & !mask,
{
    lemma_status_bits(p, 0, 0, false, false, false);
}

/// LDA, LDX and LDY put the operand in their register, with Z and N
/// describing it; the other registers stay.
pub proof fn law_loads<M: Writer>(op: Op, mode: Mode, s: CpuState<M::V>)
    requires
        op == Op::Lda || op == Op::Ldx || op == Op::Ldy,
    ensures
        ({
            let (s1, m, c) = operand::<M>(mode, s);
            let (t, extra) = execute_op::<M>(op, mode, s);
            &&& op == Op::Lda ==> t.a == m && t.x == s1.x && t.y == s1.y
            &&& op == Op::Ldx ==> t.x == m && t.a == s1.a && t.y == s1.y
            &&& op == Op::Ldy ==> t.y == m && t.a == s1.a && t.x == s1.x
            &&& describes(s1.p, t.p, m)
            &&& t.memory == s1.memory && t.pc == s1.pc && t.sp == s1.sp
            &&& extra == c
        }),
{
    reveal(execute_op);
    let (s1, m, c) = operand::<M>(mode, s);
    lemma_with_nz(s1.p, m);
}

/// STA, STX and STY write their register to the operand's address and
/// change nothing else; STA takes no extra cycle for a page crossing.
pub proof fn law_stores<M: Writer>(op: Op, mode: Mode, s: CpuState<M::V>)
    requires
        op == Op::Sta || op == Op::Stx || op == Op::Sty,
    ensures
        ({
            let (s1, addr, c) = address_of::<M>(mode, s);
            let v = if op == Op::Sta {
                s.a
            } else if op == Op::Stx {
                s.x
            } else {
                s.y
            };
            let (t, extra) = execute_op::<M>(op, mode, s);
            &&& t == write_byte::<M>(s1, addr, v)
            &&& op == Op::Sta ==> extra == 0
        }),
{
    reveal(execute_op);
}

/// AND, ORA and EOR combine the accumulator with the operand bit by bit,
/// with Z and N describing the result.
pub proof fn law_logic<M: Writer>(op: Op, mode: Mode, s: CpuState<M::V>)
    requires
        op == Op::And || op == Op::Ora || op == Op::Eor,
    ensures
        ({
            let (s1, m, c) = operand::<M>(mode, s);
            let (t, extra) = execute_op::<M>(op, mode, s);
            let r = if op == Op::And {
                s.a & m
            } else if op == Op::Ora {
                s.a | m
            } else {
                s.a ^ m
            };
            &&& t.a == r
            &&& describes(s1.p, t.p, r)
            &&& t.x == s1.x && t.y == s1.y && t.sp == s1.sp && t.pc == s1.pc
            &&& t.memory == s1.memory
            &&& extra == c
        }),
{
    reveal(execute_op);
    let (s1, m, c) = operand::<M>(mode, s);
    lemma_with_nz(s1.p, m & s1.a);
    lemma_with_nz(s1.p, m | s1.a);
    lemma_with_nz(s1.p, m ^ s1.a);
    lemma_commute(m, s1.a);
}

proof fn lemma_arithmetic_is<M: Writer>(op: Op, mode: Mode, s: CpuState<M::V>)
    requires
        op == Op::Adc || op == Op::Sbc,
    ensures
        execute_op::<M>(op, mode, s) == arithmetic::<M>(mode, s, op == Op::Sbc),
{
    reveal(execute_op);
}

/// The result, carry and overflow of binary ADC and SBC on the
/// accumulator `a`, the operand `m` and the carry `c`, and the status
/// they leave from `p`.
proof fn lemma_binary_result(a: u8, m: u8, c: int, p: u8, subtract: bool)
    requires
        c == 0 || c == 1,
    ensures
        ({
            let (res, carry) = if subtract {
                subtract_with_borrow(a, m, c, false)
            } else {
                add_with_carry(a, m, c, false)
            };
            let exact: int = if subtract {
                a - m - (1 - c)
            } else {
                a + m + c
            };
            let a_sign = a & 0x80;
            let m_sign = m & 0x80;
            let r_sign = res & 0x80;
            let overflow = if subtract {
                a_sign != m_sign && m_sign == r_sign
            } else {
                a_sign == m_sign && a_sign != r_sign
            };
            let q = with_nz(with_flag(with_flag(p, FLAG_C, carry), FLAG_V, overflow), res);
            let a_neg = a >= 128;
            let m_neg = if subtract {
                m < 128
            } else {
                m >= 128
            };
            &&& res as int == exact % 256
            &&& !subtract ==> carry == (exact > 255)
            &&& (subtract && (m != 0 || c == 0)) ==> carry == (exact >= 0)
            &&& (subtract && m == 0 && c == 1) ==> !carry
            &&& (q & FLAG_C != 0) == carry
            &&& (q & FLAG_V != 0) == (a_neg == m_neg && (res >= 128) != a_neg)
            &&& (q & FLAG_Z != 0) == (res == 0)
            &&& (q & FLAG_N != 0) == (res >= 128)
        }),
{
    lemma_binary_value(a, m, c, subtract);
    let (res, carry) = if subtract {
        subtract_with_borrow(a, m, c, false)
    } else {
        add_with_carry(a, m, c, false)
    };
    let a_sign = a & 0x80;
    let m_sign = m & 0x80;
    let r_sign = res & 0x80;
    let overflow = if subtract {
        a_sign != m_sign && m_sign == r_sign
    } else {
        a_sign == m_sign && a_sign != r_sign
    };
    let a_neg = a >= 128;
    let m_neg = if subtract {
        m < 128
    } else {
        m >= 128
    };
    assert(overflow == (a_neg == m_neg && (res >= 128) != a_neg)) by {
        lemma_sign_bit(res);
        lemma_sign_bit(m);
        lemma_sign_bit(a);
    }
    assert((res & 0x80 != 0) == (res >= 128)) by {
        lemma_sign_bit(res);
    }
    lemma_arith_bits(p, res, carry, overflow);
}

proof fn lemma_binary_value(a: u8, m: u8, c: int, subtract: bool)
    requires
        c == 0 || c == 1,
    ensures
        ({
            let (res, carry) = if subtract {
                subtract_with_borrow(a, m, c, false)
            } else {
                add_with_carry(a, m, c, false)
            };
            let exact: int = if subtract {
                a - m - (1 - c)
            } else {
                a + m + c
            };
            &&& res as int == exact % 256
            &&& !subtract ==> carry == (exact > 255)
            &&& (subtract && (m != 0 || c == 0)) ==> carry == (exact >= 0)
            &&& (subtract && m == 0 && c == 1) ==> !carry
        }),
{
    if subtract {
        let minus_m = (255 - m + c) % 256;
        let exact = a - m - (1 - c);
        if m == 0 && c == 1 {
            assert(minus_m == 0);
            assert(exact == a);
        } else {
            assert(minus_m == 255 - m + c);
            assert(a + minus_m == exact + 256);
            assert((exact + 256) % 256 == exact % 256);
        }
    }
}

proof fn lemma_sign_bit(x: u8)
    ensures
        (x & 0x80u8 == 0x80u8) == (x >= 128),
        (x & 0x80u8 == 0) == (x < 128),
{
    lemma_status_bits(0, x, x, false, false, false);
}

/// ADC and SBC in binary mode, with the operand M after the opcode: the
/// accumulator becomes A + M + C, or A - M - (1 - C), modulo 256. For ADC,
/// C says the sum went past 255; for SBC that the difference did not go
/// below zero (the one exception: with M zero and C set, the complement of M
/// wraps to zero and C is cleared). V says that two operands of one sign
/// (for SBC: A and the negated M) gave a result of the other sign; Z and N
/// describe the result.
pub proof fn law_binary_arithmetic<M: Writer>(op: Op, s: CpuState<M::V>)
    requires
        op == Op::Adc || op == Op::Sbc,
        !(s.p & FLAG_D != 0 && s.dec_arith_on),
    ensures
        ({
            let (s1, m) = read_byte::<M>(s, s.pc);
            let (t, extra) = execute_op::<M>(op, Mode::Immediate, s);
            let carry: int = if s.p & FLAG_C != 0 {
                1
            } else {
                0
            };
            let exact: int = if op == Op::Adc {
                s.a + m + carry
            } else {
                s.a - m - (1 - carry)
            };
            let r = t.a;
            let a_neg = s.a >= 128;
            let m_neg = if op == Op::Adc {
                m >= 128
            } else {
                m < 128
            };
            &&& r as int == exact % 256
            &&& op == Op::Adc ==> (t.p & FLAG_C != 0) == (exact > 255)
            &&& (op == Op::Sbc && (m != 0 || carry == 0)) ==> (t.p & FLAG_C != 0) == (exact >= 0)
            &&& (op == Op::Sbc && m == 0 && carry == 1) ==> t.p & FLAG_C == 0
            &&& (t.p & FLAG_V != 0) == (a_neg == m_neg && (r >= 128) != a_neg)
            &&& (t.p & FLAG_Z != 0) == (r == 0)
            &&& (t.p & FLAG_N != 0) == (r >= 128)
            &&& t.x == s.x && t.y == s.y && t.sp == s.sp && t.pc == s.pc + 1 || s.pc == 0xFFFF
            &&& t.memory == s1.memory
            &&& extra == 0
        }),
{
    lemma_arithmetic_is::<M>(op, Mode::Immediate, s);
    let (s1, m) = read_byte::<M>(s, s.pc);
    let carry: int = if s.p & FLAG_C != 0 {
        1
    } else {
        0
    };
    lemma_binary_result(s.a, m, carry, s.p, op == Op::Sbc);
}

proof fn lemma_arith_bits(p: u8, r: u8, carry: bool, overflow: bool)
    ensures
        ({
            let p1: u8 = if carry {
                p | 0x01u8
            } else {
                p & !0x01u8
            };
            let p2: u8 = if overflow {
                p1 | 0x40u8
            } else {
                p1 & !0x40u8
            };
            let z: u8 = if r == 0 {
                p2 | 0x02u8
            } else {
                p2 & !0x02u8
            };
            let p3: u8 = if r & 0x80u8 != 0 {
                z | 0x80u8
            } else {
                z & !0x80u8
            };
            &&& (p3 & 0x01u8 != 0) == carry
            &&& (p3 & 0x40u8 != 0) == overflow
            &&& (p3 & 0x02u8 != 0) == (r == 0)
            &&& (p3 & 0x80u8 != 0) == (r >= 128)
        }),
{
    lemma_status_bits(p, r, 0, carry, overflow, false);
}

/// SEC, CLC, SEI, CLI, SED, CLD and CLV set or clear their one flag and
/// change nothing else.
pub proof fn law_flag_operations<M: Writer>(op: Op, mode: Mode, s: CpuState<M::V>)
    requires
        op == Op::Sec || op == Op::Clc || op == Op::Sei || op == Op::Cli || op == Op::Sed || op
            == Op::Cld || op == Op::Clv,
    ensures
        ({
            let (t, extra) = execute_op::<M>(op, mode, s);
            let mask = if op == Op::Sec || op == Op::Clc {
                FLAG_C
            } else if op == Op::Sei || op == Op::Cli {
                FLAG_I
            } else if op == Op::Sed || op == Op::Cld {
                FLAG_D
            } else {
                FLAG_V
            };
            let on = op == Op::Sec || op == Op::Sei || op == Op::Sed;
            &&& sets_flag(s.p, t.p, mask, on)
            &&& t.a == s.a && t.x == s.x && t.y == s.y && t.sp == s.sp && t.pc == s.pc
            &&& t.memory == s.memory
            &&& extra == 0
        }),
{
    reveal(execute_op);
    lemma_single_flag(s.p, FLAG_C);
    lemma_single_flag(s.p, FLAG_I);
    lemma_single_flag(s.p, FLAG_D);
    lemma_single_flag(s.p, FLAG_V);
}

/// INX, INY, DEX and DEY count their register up or down by one modulo 256,
/// with Z and N describing the new value.
#[verifier::rlimit(40)]
pub proof fn law_register_steps<M: Writer>(op: Op, mode: Mode, s: CpuState<M::V>)
    requires
        op == Op::Inx || op == Op::Iny || op == Op::Dex || op == Op::Dey,
    ensures
        ({
            let (t, extra) = execute_op::<M>(op, mode, s);
            let before = if op == Op::Inx || op == Op::Dex {
                s.x
            } else {
                s.y
            };
            let after = if op == Op::Inx || op == Op::Dex {
                t.x
            } else {
                t.y
            };
            let delta: int = if op == Op::Inx || op == Op::Iny {
                1
            } else {
                -1
            };
            &&& after as int == (before + delta) % 256
            &&& describes(s.p, t.p, after)
            &&& t.a == s.a && t.sp == s.sp && t.pc == s.pc && t.memory == s.memory
            &&& (op == Op::Inx || op == Op::Dex) ==> t.y == s.y
            &&& (op == Op::Iny || op == Op::Dey) ==> t.x == s.x
            &&& extra == 0
        }),
{
    reveal(execute_op);
    let t = execute_op::<M>(op, mode, s).0;
    let after = if op == Op::Inx || op == Op::Dex {
        t.x
    } else {
        t.y
    };
    lemma_with_nz(s.p, after);
}

/// INC and DEC read the byte at the operand's address and write it back one
/// higher or lower modulo 256, with Z and N describing the new byte.
#[verifier::rlimit(40)]
pub proof fn law_memory_steps<M: Writer>(op: Op, mode: Mode, s: CpuState<M::V>)
    requires
        op == Op::Inc || op == Op::Dec,
    ensures
        ({
            let (s1, addr, c) = address_of::<M>(mode, s);
            let (s2, v) = read_byte::<M>(s1, addr);
            let (t, extra) = execute_op::<M>(op, mode, s);
            let r: u8 = (if op == Op::Inc {
                (v + 1) % 256
            } else {
                (v + 255) % 256
            }) as u8;
            &&& t.memory == write_byte::<M>(s2, addr, r).memory
            &&& describes(s2.p, t.p, r)
            &&& t.a == s2.a && t.x == s2.x && t.y == s2.y && t.sp == s2.sp && t.pc == s2.pc
            &&& extra == c
        }),
{
    reveal(execute_op);
    let (s1, addr, c) = address_of::<M>(mode, s);
    let (s2, v) = read_byte::<M>(s1, addr);
    let r: u8 = (if op == Op::Inc {
        (v + 1) % 256
    } else {
        (v + 255) % 256
    }) as u8;
    lemma_with_nz(s2.p, r);
}

/// Each branch is taken exactly when its flag has its value (BPL: N clear,
/// BMI: N set, BVC/BVS: V, BCC/BCS: C, BNE/BEQ: Z): the program counter goes
/// to the target, and a taken branch costs one cycle more, two across a
/// page; otherwise execution goes on after the operand.
pub proof fn law_branches<M: Writer>(op: Op, s: CpuState<M::V>)
    requires
        op == Op::Bpl || op == Op::Bmi || op == Op::Bvc || op == Op::Bvs || op == Op::Bcc || op
            == Op::Bcs || op == Op::Bne || op == Op::Beq,
    ensures
        ({
            let (s1, target, c) = address_of::<M>(Mode::Relative, s);
            let (t, extra) = execute_op::<M>(op, Mode::Relative, s);
            let mask = if op == Op::Bpl || op == Op::Bmi {
                FLAG_N
            } else if op == Op::Bvc || op == Op::Bvs {
                FLAG_V
            } else if op == Op::Bcc || op == Op::Bcs {
                FLAG_C
            } else {
                FLAG_Z
            };
            let when_set = op == Op::Bmi || op == Op::Bvs || op == Op::Bcs || op == Op::Beq;
            let taken = (s.p & mask != 0) == when_set;
            &&& taken ==> t.pc == target && extra == c + 1
            &&& !taken ==> t.pc == s1.pc && extra == 0
            &&& t.a == s.a && t.x == s.x && t.y == s.y && t.sp == s.sp && t.p == s.p
            &&& t.memory == s1.memory
        }),
{
    reveal(execute_op);
}

/// BIT copies bits 7 and 6 of the operand to N and V and sets Z iff the
/// operand and the accumulator share no set bit; the registers stay.
pub proof fn law_bit<M: Writer>(mode: Mode, s: CpuState<M::V>)
    ensures
        ({
            let (s1, m, c) = operand::<M>(mode, s);
            let (t, extra) = execute_op::<M>(Op::Bit, mode, s);
            &&& (t.p & FLAG_N != 0) == (m & 0x80 != 0)
            &&& (t.p & FLAG_V != 0) == (m & 0x40 != 0)
            &&& (t.p & FLAG_Z != 0) == (m & s.a == 0)
            &&& t.p & 0x3D == s1.p & 0x3D
            &&& t.a == s.a && t.x == s.x && t.y == s.y && t.sp == s.sp && t.pc == s1.pc
            &&& t.memory == s1.memory
        }),
{
    reveal(execute_op);
    let (s1, m, c) = operand::<M>(mode, s);
    lemma_bit_bits(s1.p, m & 0x80 != 0, m & 0x40 != 0, m & s1.a == 0);
}

proof fn lemma_bit_bits(p: u8, n: bool, v: bool, z: bool)
    ensures
        ({
            let p1: u8 = if n {
                p | 0x80u8
            } else {
                p & !0x80u8
            };
            let p2: u8 = if v {
                p1 | 0x40u8
            } else {
                p1 & !0x40u8
            };
            let p3: u8 = if z {
                p2 | 0x02u8
            } else {
                p2 & !0x02u8
            };
            &&& (p3 & 0x80u8 != 0) == n
            &&& (p3 & 0x40u8 != 0) == v
            &&& (p3 & 0x02u8 != 0) == z
            &&& p3 & 0x3Du8 == p & 0x3Du8
        }),
{
    lemma_status_bits(p, 0, 0, n, v, z);
}

/// The shifts and rotates of the accumulator: ASL doubles it and LSR halves
/// it, ROL and ROR doing the same with the old carry coming in at the other
/// end; the bit shifted out goes to C, and Z and N describe the result.
pub proof fn law_accumulator_shifts<M: Writer>(op: Op, mode: Mode, s: CpuState<M::V>)
    requires
        op == Op::Asla || op == Op::Lsra || op == Op::Rola || op == Op::Rora,
    ensures
        ({
            let (t, extra) = execute_op::<M>(op, mode, s);
            let c: int = if s.p & FLAG_C != 0 {
                1
            } else {
                0
            };
            let r: int = if op == Op::Asla {
                (s.a * 2) % 256
            } else if op == Op::Rola {
                (s.a * 2) % 256 + c
            } else if op == Op::Lsra {
                s.a as int / 2
            } else {
                s.a as int / 2 + 128 * c
            };
            let out = if op == Op::Asla || op == Op::Rola {
                s.a >= 128
            } else {
                s.a % 2 == 1
            };
            &&& t.a as int == r
            &&& (t.p & FLAG_C != 0) == out
            &&& (t.p & FLAG_Z != 0) == (r == 0)
            &&& (t.p & FLAG_N != 0) == (r >= 128)
            &&& t.p & 0x7C == s.p & 0x7C
            &&& t.x == s.x && t.y == s.y && t.sp == s.sp && t.pc == s.pc && t.memory == s.memory
            &&& extra == 0
        }),
{
    reveal(execute_op);
    let t = execute_op::<M>(op, mode, s).0;
    lemma_shift_bits(s.p, t.a, s.a >= 128);
    lemma_shift_bits(s.p, t.a, s.a % 2 == 1);
}

proof fn lemma_shift_bits(p: u8, r: u8, carry: bool)
    ensures
        ({
            let p1: u8 = if carry {
                p | 0x01u8
            } else {
                p & !0x01u8
            };
            let z: u8 = if r == 0 {
                p1 | 0x02u8
            } else {
                p1 & !0x02u8
            };
            let q: u8 = if r & 0x80u8 != 0 {
                z | 0x80u8
            } else {
                z & !0x80u8
            };
            &&& (q & 0x01u8 != 0) == carry
            &&& (q & 0x02u8 != 0) == (r == 0)
            &&& (q & 0x80u8 != 0) == (r >= 128)
            &&& q & 0x7Cu8 == p & 0x7Cu8
        }),
{
    lemma_status_bits(p, r, 0, carry, false, false);
}

/// PHA pushes the accumulator and PHP the status with B set, each at the
/// stack pointer, which then moves down one; PLA and PLP take the byte above
/// it back, PLP keeping bits 4 and 5 of the status.
pub proof fn law_stack_operations<M: Writer>(s: CpuState<M::V>)
    ensures
        ({
            let pha = execute_op::<M>(Op::Pha, Mode::Implied, s).0;
            let php = execute_op::<M>(Op::Php, Mode::Implied, s).0;
            let below = (if s.sp == 0 {
                255
            } else {
                s.sp - 1
            }) as u8;
            let at = (0x0100 + s.sp) as u16;
            &&& pha.memory == M::after_write(s.memory, at, s.a)
            &&& pha.sp == below && pha.a == s.a && pha.p == s.p && pha.pc == s.pc
            &&& php.memory == M::after_write(s.memory, at, s.p | FLAG_B)
            &&& php.sp == below && php.p == s.p && php.pc == s.pc
        }),
{
    reveal(execute_op);
}

/// Decimal ADC and SBC on valid BCD bytes: the result is a valid BCD byte
/// and, read as decimal, the sum `a + m + c` less 100 when the carry comes
/// out set, or the difference `a - m - (1 - c)` plus 100 when it comes out
/// clear (a borrow).
pub proof fn law_decimal_arithmetic(a: u8, m: u8, carry: bool)
    requires
        is_bcd(a),
        is_bcd(m),
    ensures
        ({
            let c: int = if carry {
                1
            } else {
                0
            };
            let (sum, out) = add_with_carry(a, m, c, true);
            let (diff, no_borrow) = subtract_with_borrow(a, m, c, true);
            &&& is_bcd(sum) && bcd_value(sum) + (if out {
                100int
            } else {
                0
            }) == bcd_value(a) + bcd_value(m) + c
            &&& is_bcd(diff) && bcd_value(diff) - (if no_borrow {
                0int
            } else {
                100
            }) == bcd_value(a) - bcd_value(m) - (1 - c)
        }),
{
    let c: int = if carry {
        1
    } else {
        0
    };
    let h = bcd_value(a) + bcd_value(m) + c;
    if h <= 99 {
        law_bcd_round_trip(h as u8, 0);
    } else {
        law_bcd_round_trip((h - 100) as u8, 0);
    }
    let sub = bcd_value(m) + (1 - c);
    if bcd_value(a) < sub {
        law_bcd_round_trip((bcd_value(a) - sub + 100) as u8, 0);
    } else {
        law_bcd_round_trip((bcd_value(a) - sub) as u8, 0);
    }
}

} // verus!
