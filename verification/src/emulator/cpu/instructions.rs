//! The instructions. Each takes the processor and its addressing mode and
//! returns the extra cycles it took beyond the opcode's base count.
use vstd::prelude::*;

use crate::emulator::cpu::addressing;
use crate::emulator::cpu::decode::{Mode, Op};
use crate::emulator::cpu::semantics::{
    FLAG_C,
    FLAG_Z,
    FLAG_I,
    FLAG_D,
    FLAG_B,
    FLAG_V,
    FLAG_N,
    with_flag,
    with_nz,
    flag,
    with_p,
    pop,
    operand,
    compare,
    branch,
    status_from_stack,
    shift,
    shift_flags,
    shift_memory,
    shift_accumulator,
    step_memory,
    arithmetic,
    op_defined,
    execute_op,
    lemma_extra_cycles_bound,
};
use crate::emulator::cpu::{next_pc, CPU};
use crate::emulator::memory::Writer;
use crate::emulator::util;

verus! {

fn set_flag<M: Writer>(cpu: &mut CPU<M>, mask: u8, on: bool)
    ensures
        final(cpu).memory == old(cpu).memory,
        final(cpu).state() == with_p(old(cpu).state(), with_flag(old(cpu).p@, mask, on)),
{
    if on {
        cpu.p.set(mask);
    } else {
        cpu.p.clear(mask);
    }
}

/// Sets Z and N to describe `result`.
fn update_zero_negative<M: Writer>(cpu: &mut CPU<M>, result: u8)
    ensures
        final(cpu).memory == old(cpu).memory,
        final(cpu).state() == with_p(old(cpu).state(), with_nz(old(cpu).p@, result)),
{
    set_flag(cpu, FLAG_Z, result == 0);
    set_flag(cpu, FLAG_N, (result & 0b1000_0000) != 0);
}

fn load_status_from_stack<M: Writer>(cpu: &mut CPU<M>)
    requires
        old(cpu).wf(),
    ensures
        final(cpu).wf(),
        final(cpu).state() == ({
            let (s1, v) = pop::<M>(old(cpu).state());
            with_p(s1, status_from_stack(v, s1.p))
        }),
{
    let bits_from_stack = cpu.stack_pop() & 0b1100_1111;
    let bits_from_register = cpu.p.as_byte() & 0b0011_0000;
    cpu.p.load_byte(bits_from_stack | bits_from_register);
}

/// Reads the operand of `mode`.
fn load_operand<M: Writer>(cpu: &mut CPU<M>, mode: Mode) -> (r: (u8, u32))
    requires
        old(cpu).wf(),
    ensures
        final(cpu).wf(),
        (final(cpu).state(), r.0, r.1) == operand::<M>(mode, old(cpu).state()),
{
    let (addr, addr_cycles) = addressing::resolve(cpu, mode);
    let mem = cpu.load_memory(addr);
    (mem, addr_cycles)
}

/* 2.1 The Accumulator */

/// LDA: Load Accumulator with Memory.
pub fn lda<M: Writer>(cpu: &mut CPU<M>, mode: Mode) -> (extra: u32)
    requires
        old(cpu).wf(),
    ensures
        final(cpu).wf(),
        (final(cpu).state(), extra) == execute_op::<M>(Op::Lda, mode, old(cpu).state()),
{
    reveal(execute_op);
    let (res, addr_cycles) = load_operand(cpu, mode);
    update_zero_negative(cpu, res);
    cpu.a = res;
    addr_cycles
}

/// STA: Store Accumulator in Memory. The extra cycle of an indexed mode is
/// already in STA's base count.
pub fn sta<M: Writer>(cpu: &mut CPU<M>, mode: Mode) -> (extra: u32)
    requires
        old(cpu).wf(),
    ensures
        final(cpu).wf(),
        (final(cpu).state(), extra) == execute_op::<M>(Op::Sta, mode, old(cpu).state()),
{
    reveal(execute_op);
    let (addr, _addr_cycles) = addressing::resolve(cpu, mode);
    let byte = cpu.a;
    cpu.store_memory(addr, byte);
    0
}

/* 2.2 The Arithmetic Unit */

/// ADC: Add Memory to Accumulator with Carry.
pub fn adc<M: Writer>(cpu: &mut CPU<M>, mode: Mode) -> (extra: u32)
    requires
        old(cpu).wf(),
        op_defined::<M>(Op::Adc, mode, old(cpu).state()),
    ensures
        final(cpu).wf(),
        (final(cpu).state(), extra) == execute_op::<M>(Op::Adc, mode, old(cpu).state()),
{
    reveal(execute_op);
    reveal(op_defined);
    let (mem, addr_cycles) = load_operand(cpu, mode);

    let carry_val: u8 = if cpu.p.is_set(FLAG_C) {
        1
    } else {
        0
    };
    let (res, carry) = if cpu.p.is_set(FLAG_D) && cpu.dec_arith_on {
        // BCD arithmetic.
        let hex_a = util::bcd_to_hex(cpu.a);
        let hex_mem = util::bcd_to_hex(mem);
        let hex_res = hex_a + hex_mem + carry_val;

        // Wrap to <99.
        if hex_res <= 99 {
            (util::hex_to_bcd(hex_res), false)
        } else {
            (util::hex_to_bcd(hex_res - 100), true)
        }
    } else {
        // Normal arithmetic.
        let sum = cpu.a as u16 + mem as u16 + carry_val as u16;
        ((sum % 256) as u8, sum > 255)
    };

    set_flag(cpu, FLAG_C, carry);

    let a_sign = cpu.a & 0b1000_0000;
    let mem_sign = mem & 0b1000_0000;
    let res_sign = res & 0b1000_0000;
    set_flag(cpu, FLAG_V, (a_sign == mem_sign) && (a_sign != res_sign));

    update_zero_negative(cpu, res);
    cpu.a = res;
    addr_cycles
}

/// SBC: Subtract Memory from Accumulator with Borrow (the complement of the
/// carry).
#[verifier::rlimit(40)]
pub fn sbc<M: Writer>(cpu: &mut CPU<M>, mode: Mode) -> (extra: u32)
    requires
        old(cpu).wf(),
        op_defined::<M>(Op::Sbc, mode, old(cpu).state()),
    ensures
        final(cpu).wf(),
        (final(cpu).state(), extra) == execute_op::<M>(Op::Sbc, mode, old(cpu).state()),
{
    reveal(execute_op);
    reveal(op_defined);
    let (mem, addr_cycles) = load_operand(cpu, mode);

    let carry_val: u8 = if cpu.p.is_set(FLAG_C) {
        1
    } else {
        0
    };
    let (res, carry) = if cpu.p.is_set(FLAG_D) && cpu.dec_arith_on {
        // BCD arithmetic.
        let hex_a = util::bcd_to_hex(cpu.a);
        let hex_mem = util::bcd_to_hex(mem);
        let borrow = 1 - carry_val;
        let hex_sub_amount = hex_mem + borrow;
        if hex_a < hex_sub_amount {
            // Wrapped below zero: wrap to 99 instead of 255.
            let res = ((hex_a as u16 + 100) - hex_sub_amount as u16) as u8;
            (util::hex_to_bcd(res), false)
        } else {
            (util::hex_to_bcd(hex_a - hex_sub_amount), true)
        }
    } else {
        // Normal arithmetic.
        assert(!mem == 255 - mem) by (bit_vector);
        let minus_m = (((!mem) as u16 + carry_val as u16) % 256) as u8;
        let sum = cpu.a as u16 + minus_m as u16;
        ((sum % 256) as u8, sum > 255)
    };

    set_flag(cpu, FLAG_C, carry);

    let a_sign = cpu.a & 0b1000_0000;
    let mem_sign = mem & 0b1000_0000;
    let res_sign = res & 0b1000_0000;
    set_flag(cpu, FLAG_V, (a_sign != mem_sign) && (mem_sign == res_sign));

    update_zero_negative(cpu, res);
    cpu.a = res;
    addr_cycles
}

/// AND: Bitwise AND Memory with Accumulator.
pub fn and<M: Writer>(cpu: &mut CPU<M>, mode: Mode) -> (extra: u32)
    requires
        old(cpu).wf(),
    ensures
        final(cpu).wf(),
        (final(cpu).state(), extra) == execute_op::<M>(Op::And, mode, old(cpu).state()),
{
    reveal(execute_op);
    let (mem, addr_cycles) = load_operand(cpu, mode);
    let res = mem & cpu.a;
    update_zero_negative(cpu, res);
    cpu.a = res;
    addr_cycles
}

/// ORA: Bitwise OR Memory with Accumulator.
pub fn ora<M: Writer>(cpu: &mut CPU<M>, mode: Mode) -> (extra: u32)
    requires
        old(cpu).wf(),
    ensures
        final(cpu).wf(),
        (final(cpu).state(), extra) == execute_op::<M>(Op::Ora, mode, old(cpu).state()),
{
    reveal(execute_op);
    let (mem, addr_cycles) = load_operand(cpu, mode);
    let res = mem | cpu.a;
    update_zero_negative(cpu, res);
    cpu.a = res;
    addr_cycles
}

/// EOR: Bitwise Exclusive OR Memory with Accumulator.
pub fn eor<M: Writer>(cpu: &mut CPU<M>, mode: Mode) -> (extra: u32)
    requires
        old(cpu).wf(),
    ensures
        final(cpu).wf(),
        (final(cpu).state(), extra) == execute_op::<M>(Op::Eor, mode, old(cpu).state()),
{
    reveal(execute_op);
    let (mem, addr_cycles) = load_operand(cpu, mode);
    let res = mem ^ cpu.a;
    update_zero_negative(cpu, res);
    cpu.a = res;
    addr_cycles
}

/* 3. Flags and Status Register */

/// SEC: Set Carry Flag.
pub fn sec<M: Writer>(cpu: &mut CPU<M>, mode: Mode) -> (extra: u32)
    requires
        old(cpu).wf(),
    ensures
        final(cpu).wf(),
        (final(cpu).state(), extra) == execute_op::<M>(Op::Sec, mode, old(cpu).state()),
{
    reveal(execute_op);
    cpu.p.set(FLAG_C);
    0
}

/// CLC: Clear Carry Flag.
pub fn clc<M: Writer>(cpu: &mut CPU<M>, mode: Mode) -> (extra: u32)
    requires
        old(cpu).wf(),
    ensures
        final(cpu).wf(),
        (final(cpu).state(), extra) == execute_op::<M>(Op::Clc, mode, old(cpu).state()),
{
    reveal(execute_op);
    cpu.p.clear(FLAG_C);
    0
}

/// SEI: Set Interrupt Disable.
pub fn sei<M: Writer>(cpu: &mut CPU<M>, mode: Mode) -> (extra: u32)
    requires
        old(cpu).wf(),
    ensures
        final(cpu).wf(),
        (final(cpu).state(), extra) == execute_op::<M>(Op::Sei, mode, old(cpu).state()),
{
    reveal(execute_op);
    cpu.p.set(FLAG_I);
    0
}

/// CLI: Clear Interrupt Disable.
pub fn cli<M: Writer>(cpu: &mut CPU<M>, mode: Mode) -> (extra: u32)
    requires
        old(cpu).wf(),
    ensures
        final(cpu).wf(),
        (final(cpu).state(), extra) == execute_op::<M>(Op::Cli, mode, old(cpu).state()),
{
    reveal(execute_op);
    cpu.p.clear(FLAG_I);
    0
}

/// SED: Set Decimal Mode.
pub fn sed<M: Writer>(cpu: &mut CPU<M>, mode: Mode) -> (extra: u32)
    requires
        old(cpu).wf(),
    ensures
        final(cpu).wf(),
        (final(cpu).state(), extra) == execute_op::<M>(Op::Sed, mode, old(cpu).state()),
{
    reveal(execute_op);
    cpu.p.set(FLAG_D);
    0
}

/// CLD: Clear Decimal Mode.
pub fn cld<M: Writer>(cpu: &mut CPU<M>, mode: Mode) -> (extra: u32)
    requires
        old(cpu).wf(),
    ensures
        final(cpu).wf(),
        (final(cpu).state(), extra) == execute_op::<M>(Op::Cld, mode, old(cpu).state()),
{
    reveal(execute_op);
    cpu.p.clear(FLAG_D);
    0
}

/// CLV: Clear Overflow Flag.
pub fn clv<M: Writer>(cpu: &mut CPU<M>, mode: Mode) -> (extra: u32)
    requires
        old(cpu).wf(),
    ensures
        final(cpu).wf(),
        (final(cpu).state(), extra) == execute_op::<M>(Op::Clv, mode, old(cpu).state()),
{
    reveal(execute_op);
    cpu.p.clear(FLAG_V);
    0
}

/* 4. Test, Branch and Jump Instructions */

/// JMP: Jump to New Location.
pub fn jmp<M: Writer>(cpu: &mut CPU<M>, mode: Mode) -> (extra: u32)
    requires
        old(cpu).wf(),
    ensures
        final(cpu).wf(),
        (final(cpu).state(), extra) == execute_op::<M>(Op::Jmp, mode, old(cpu).state()),
{
    reveal(execute_op);
    let (addr, addr_cycles) = addressing::resolve(cpu, mode);
    cpu.pc = addr;
    addr_cycles
}

/// Common functionality for branch instructions. A branch not taken costs no
/// extra cycles; a taken one costs one more than its addressing.
fn branch_if<M: Writer>(cpu: &mut CPU<M>, mode: Mode, should_branch: bool) -> (extra: u32)
    requires
        old(cpu).wf(),
    ensures
        final(cpu).wf(),
        (final(cpu).state(), extra) == branch::<M>(mode, old(cpu).state(), should_branch),
{
    let (addr, addr_cycles) = addressing::resolve(cpu, mode);
    if should_branch {
        cpu.pc = addr;
        addr_cycles + 1
    } else {
        0
    }
}

/// BMI: Branch on Result Minus.
pub fn bmi<M: Writer>(cpu: &mut CPU<M>, mode: Mode) -> (extra: u32)
    requires
        old(cpu).wf(),
    ensures
        final(cpu).wf(),
        (final(cpu).state(), extra) == execute_op::<M>(Op::Bmi, mode, old(cpu).state()),
{
    reveal(execute_op);
    let should_branch = cpu.p.is_set(FLAG_N);
    branch_if(cpu, mode, should_branch)
}

/// BPL: Branch on Result Plus.
pub fn bpl<M: Writer>(cpu: &mut CPU<M>, mode: Mode) -> (extra: u32)
    requires
        old(cpu).wf(),
    ensures
        final(cpu).wf(),
        (final(cpu).state(), extra) == execute_op::<M>(Op::Bpl, mode, old(cpu).state()),
{
    reveal(execute_op);
    let should_branch = !cpu.p.is_set(FLAG_N);
    branch_if(cpu, mode, should_branch)
}

/// BCC: Branch on Carry Clear.
pub fn bcc<M: Writer>(cpu: &mut CPU<M>, mode: Mode) -> (extra: u32)
    requires
        old(cpu).wf(),
    ensures
        final(cpu).wf(),
        (final(cpu).state(), extra) == execute_op::<M>(Op::Bcc, mode, old(cpu).state()),
{
    reveal(execute_op);
    let should_branch = !cpu.p.is_set(FLAG_C);
    branch_if(cpu, mode, should_branch)
}

/// BCS: Branch on Carry Set.
pub fn bcs<M: Writer>(cpu: &mut CPU<M>, mode: Mode) -> (extra: u32)
    requires
        old(cpu).wf(),
    ensures
        final(cpu).wf(),
        (final(cpu).state(), extra) == execute_op::<M>(Op::Bcs, mode, old(cpu).state()),
{
    reveal(execute_op);
    let should_branch = cpu.p.is_set(FLAG_C);
    branch_if(cpu, mode, should_branch)
}

/// BEQ: Branch on Result Zero.
pub fn beq<M: Writer>(cpu: &mut CPU<M>, mode: Mode) -> (extra: u32)
    requires
        old(cpu).wf(),
    ensures
        final(cpu).wf(),
        (final(cpu).state(), extra) == execute_op::<M>(Op::Beq, mode, old(cpu).state()),
{
    reveal(execute_op);
    let should_branch = cpu.p.is_set(FLAG_Z);
    branch_if(cpu, mode, should_branch)
}

/// BNE: Branch on Result Not Zero.
pub fn bne<M: Writer>(cpu: &mut CPU<M>, mode: Mode) -> (extra: u32)
    requires
        old(cpu).wf(),
    ensures
        final(cpu).wf(),
        (final(cpu).state(), extra) == execute_op::<M>(Op::Bne, mode, old(cpu).state()),
{
    reveal(execute_op);
    let should_branch = !cpu.p.is_set(FLAG_Z);
    branch_if(cpu, mode, should_branch)
}

/// BVS: Branch on Overflow Set.
pub fn bvs<M: Writer>(cpu: &mut CPU<M>, mode: Mode) -> (extra: u32)
    requires
        old(cpu).wf(),
    ensures
        final(cpu).wf(),
        (final(cpu).state(), extra) == execute_op::<M>(Op::Bvs, mode, old(cpu).state()),
{
    reveal(execute_op);
    let should_branch = cpu.p.is_set(FLAG_V);
    branch_if(cpu, mode, should_branch)
}

/// BVC: Branch on Overflow Clear.
pub fn bvc<M: Writer>(cpu: &mut CPU<M>, mode: Mode) -> (extra: u32)
    requires
        old(cpu).wf(),
    ensures
        final(cpu).wf(),
        (final(cpu).state(), extra) == execute_op::<M>(Op::Bvc, mode, old(cpu).state()),
{
    reveal(execute_op);
    let should_branch = !cpu.p.is_set(FLAG_V);
    branch_if(cpu, mode, should_branch)
}

fn compare_instruction<M: Writer>(cpu: &mut CPU<M>, mode: Mode, compare_with: u8) -> (extra: u32)
    requires
        old(cpu).wf(),
    ensures
        final(cpu).wf(),
        (final(cpu).state(), extra) == compare::<M>(mode, old(cpu).state(), compare_with),
{
    let (mem, addr_cycles) = load_operand(cpu, mode);

    let diff = if compare_with >= mem {
        compare_with - mem
    } else {
        ((compare_with as u16 + 256) - mem as u16) as u8
    };
    update_zero_negative(cpu, diff);
    set_flag(cpu, FLAG_C, !(compare_with < mem));
    addr_cycles
}

/// CMP: Compare Memory and Accumulator.
pub fn cmp<M: Writer>(cpu: &mut CPU<M>, mode: Mode) -> (extra: u32)
    requires
        old(cpu).wf(),
    ensures
        final(cpu).wf(),
        (final(cpu).state(), extra) == execute_op::<M>(Op::Cmp, mode, old(cpu).state()),
{
    reveal(execute_op);
    let byte = cpu.a;
    compare_instruction(cpu, mode, byte)
}

/// BIT: Test Bits in Memory with Accumulator. N and V take bits 7 and 6 of
/// memory; Z is set when memory AND the accumulator is 0.
pub fn bit<M: Writer>(cpu: &mut CPU<M>, mode: Mode) -> (extra: u32)
    requires
        old(cpu).wf(),
    ensures
        final(cpu).wf(),
        (final(cpu).state(), extra) == execute_op::<M>(Op::Bit, mode, old(cpu).state()),
{
    reveal(execute_op);
    let (mem, addr_cycles) = load_operand(cpu, mode);
    set_flag(cpu, FLAG_N, (mem & 0b1000_0000) != 0);
    set_flag(cpu, FLAG_V, (mem & 0b0100_0000) != 0);
    let a = cpu.a;
    set_flag(cpu, FLAG_Z, (mem & a) == 0);
    addr_cycles
}

/* Index Register Instructions */

/// LDX: Load Index Register X from Memory.
pub fn ldx<M: Writer>(cpu: &mut CPU<M>, mode: Mode) -> (extra: u32)
    requires
        old(cpu).wf(),
    ensures
        final(cpu).wf(),
        (final(cpu).state(), extra) == execute_op::<M>(Op::Ldx, mode, old(cpu).state()),
{
    reveal(execute_op);
    let (mem, addr_cycles) = load_operand(cpu, mode);
    update_zero_negative(cpu, mem);
    cpu.x = mem;
    addr_cycles
}

/// LDY: Load Index Register Y from Memory.
pub fn ldy<M: Writer>(cpu: &mut CPU<M>, mode: Mode) -> (extra: u32)
    requires
        old(cpu).wf(),
    ensures
        final(cpu).wf(),
        (final(cpu).state(), extra) == execute_op::<M>(Op::Ldy, mode, old(cpu).state()),
{
    reveal(execute_op);
    let (mem, addr_cycles) = load_operand(cpu, mode);
    update_zero_negative(cpu, mem);
    cpu.y = mem;
    addr_cycles
}

/// STX: Store Index Register X in Memory.
pub fn stx<M: Writer>(cpu: &mut CPU<M>, mode: Mode) -> (extra: u32)
    requires
        old(cpu).wf(),
    ensures
        final(cpu).wf(),
        (final(cpu).state(), extra) == execute_op::<M>(Op::Stx, mode, old(cpu).state()),
{
    reveal(execute_op);
    let (addr, addr_cycles) = addressing::resolve(cpu, mode);
    let byte = cpu.x;
    cpu.store_memory(addr, byte);
    addr_cycles
}

/// STY: Store Index Register Y in Memory.
pub fn sty<M: Writer>(cpu: &mut CPU<M>, mode: Mode) -> (extra: u32)
    requires
        old(cpu).wf(),
    ensures
        final(cpu).wf(),
        (final(cpu).state(), extra) == execute_op::<M>(Op::Sty, mode, old(cpu).state()),
{
    reveal(execute_op);
    let (addr, addr_cycles) = addressing::resolve(cpu, mode);
    let byte = cpu.y;
    cpu.store_memory(addr, byte);
    addr_cycles
}

/// INX: Increment Index Register X by One.
pub fn inx<M: Writer>(cpu: &mut CPU<M>, mode: Mode) -> (extra: u32)
    requires
        old(cpu).wf(),
    ensures
        final(cpu).wf(),
        (final(cpu).state(), extra) == execute_op::<M>(Op::Inx, mode, old(cpu).state()),
{
    reveal(execute_op);
    let res = cpu.x.wrapping_add(1);
    update_zero_negative(cpu, res);
    cpu.x = res;
    0
}

/// INY: Increment Index Register Y by One.
pub fn iny<M: Writer>(cpu: &mut CPU<M>, mode: Mode) -> (extra: u32)
    requires
        old(cpu).wf(),
    ensures
        final(cpu).wf(),
        (final(cpu).state(), extra) == execute_op::<M>(Op::Iny, mode, old(cpu).state()),
{
    reveal(execute_op);
    let res = cpu.y.wrapping_add(1);
    update_zero_negative(cpu, res);
    cpu.y = res;
    0
}

/// DEX: Decrement Index Register X by One.
pub fn dex<M: Writer>(cpu: &mut CPU<M>, mode: Mode) -> (extra: u32)
    requires
        old(cpu).wf(),
    ensures
        final(cpu).wf(),
        (final(cpu).state(), extra) == execute_op::<M>(Op::Dex, mode, old(cpu).state()),
{
    reveal(execute_op);
    let res = cpu.x.wrapping_sub(1);
    update_zero_negative(cpu, res);
    cpu.x = res;
    0
}

/// DEY: Decrement Index Register Y by One.
pub fn dey<M: Writer>(cpu: &mut CPU<M>, mode: Mode) -> (extra: u32)
    requires
        old(cpu).wf(),
    ensures
        final(cpu).wf(),
        (final(cpu).state(), extra) == execute_op::<M>(Op::Dey, mode, old(cpu).state()),
{
    reveal(execute_op);
    let res = cpu.y.wrapping_sub(1);
    update_zero_negative(cpu, res);
    cpu.y = res;
    0
}

/// CPX: Compare Index Register X to Memory.
pub fn cpx<M: Writer>(cpu: &mut CPU<M>, mode: Mode) -> (extra: u32)
    requires
        old(cpu).wf(),
    ensures
        final(cpu).wf(),
        (final(cpu).state(), extra) == execute_op::<M>(Op::Cpx, mode, old(cpu).state()),
{
    reveal(execute_op);
    let byte = cpu.x;
    compare_instruction(cpu, mode, byte)
}

/// CPY: Compare Index Register Y to Memory.
pub fn cpy<M: Writer>(cpu: &mut CPU<M>, mode: Mode) -> (extra: u32)
    requires
        old(cpu).wf(),
    ensures
        final(cpu).wf(),
        (final(cpu).state(), extra) == execute_op::<M>(Op::Cpy, mode, old(cpu).state()),
{
    reveal(execute_op);
    let byte = cpu.y;
    compare_instruction(cpu, mode, byte)
}

/// TAX: Transfer Accumulator to Index X.
pub fn tax<M: Writer>(cpu: &mut CPU<M>, mode: Mode) -> (extra: u32)
    requires
        old(cpu).wf(),
    ensures
        final(cpu).wf(),
        (final(cpu).state(), extra) == execute_op::<M>(Op::Tax, mode, old(cpu).state()),
{
    reveal(execute_op);
    let byte = cpu.a;
    update_zero_negative(cpu, byte);
    cpu.x = byte;
    0
}

/// TXA: Transfer Index X to Accumulator.
pub fn txa<M: Writer>(cpu: &mut CPU<M>, mode: Mode) -> (extra: u32)
    requires
        old(cpu).wf(),
    ensures
        final(cpu).wf(),
        (final(cpu).state(), extra) == execute_op::<M>(Op::Txa, mode, old(cpu).state()),
{
    reveal(execute_op);
    let byte = cpu.x;
    update_zero_negative(cpu, byte);
    cpu.a = byte;
    0
}

/// TAY: Transfer Accumulator to Index Y.
pub fn tay<M: Writer>(cpu: &mut CPU<M>, mode: Mode) -> (extra: u32)
    requires
        old(cpu).wf(),
    ensures
        final(cpu).wf(),
        (final(cpu).state(), extra) == execute_op::<M>(Op::Tay, mode, old(cpu).state()),
{
    reveal(execute_op);
    let byte = cpu.a;
    update_zero_negative(cpu, byte);
    cpu.y = byte;
    0
}

/// TYA: Transfer Index Y to Accumulator.
pub fn tya<M: Writer>(cpu: &mut CPU<M>, mode: Mode) -> (extra: u32)
    requires
        old(cpu).wf(),
    ensures
        final(cpu).wf(),
        (final(cpu).state(), extra) == execute_op::<M>(Op::Tya, mode, old(cpu).state()),
{
    reveal(execute_op);
    let byte = cpu.y;
    update_zero_negative(cpu, byte);
    cpu.a = byte;
    0
}

/* 8. Stack Processing */

/// JSR: Jump to Subroutine. The address pushed is that of the last byte of
/// the JSR instruction.
pub fn jsr<M: Writer>(cpu: &mut CPU<M>, mode: Mode) -> (extra: u32)
    requires
        old(cpu).wf(),
    ensures
        final(cpu).wf(),
        (final(cpu).state(), extra) == execute_op::<M>(Op::Jsr, mode, old(cpu).state()),
{
    reveal(execute_op);
    let (addr, addr_cycles) = addressing::resolve(cpu, mode);

    // The addressing mode leaves the PC pointing at the next opcode; JSR
    // stores the previous address.
    cpu.pc = if cpu.pc == 0 {
        0xFFFF
    } else {
        cpu.pc - 1
    };

    let (pc_high, pc_low) = util::split_word(cpu.pc);
    cpu.stack_push(pc_high);
    cpu.stack_push(pc_low);

    cpu.pc = addr;
    addr_cycles
}

/// RTS: Return from Subroutine, to the byte after the one JSR stored.
pub fn rts<M: Writer>(cpu: &mut CPU<M>, mode: Mode) -> (extra: u32)
    requires
        old(cpu).wf(),
    ensures
        final(cpu).wf(),
        (final(cpu).state(), extra) == execute_op::<M>(Op::Rts, mode, old(cpu).state()),
{
    reveal(execute_op);
    let pc_low = cpu.stack_pop();
    let pc_high = cpu.stack_pop();
    cpu.pc = next_pc(util::combine_bytes(pc_high, pc_low));
    0
}

/// PHA: Push Accumulator on Stack.
pub fn pha<M: Writer>(cpu: &mut CPU<M>, mode: Mode) -> (extra: u32)
    requires
        old(cpu).wf(),
    ensures
        final(cpu).wf(),
        (final(cpu).state(), extra) == execute_op::<M>(Op::Pha, mode, old(cpu).state()),
{
    reveal(execute_op);
    let byte = cpu.a;
    cpu.stack_push(byte);
    0
}

/// PLA: Pull Accumulator from Stack.
pub fn pla<M: Writer>(cpu: &mut CPU<M>, mode: Mode) -> (extra: u32)
    requires
        old(cpu).wf(),
    ensures
        final(cpu).wf(),
        (final(cpu).state(), extra) == execute_op::<M>(Op::Pla, mode, old(cpu).state()),
{
    reveal(execute_op);
    let byte = cpu.stack_pop();
    update_zero_negative(cpu, byte);
    cpu.a = byte;
    0
}

/// TXS: Transfer Index X to Stack Pointer.
pub fn txs<M: Writer>(cpu: &mut CPU<M>, mode: Mode) -> (extra: u32)
    requires
        old(cpu).wf(),
    ensures
        final(cpu).wf(),
        (final(cpu).state(), extra) == execute_op::<M>(Op::Txs, mode, old(cpu).state()),
{
    reveal(execute_op);
    cpu.sp = cpu.x;
    0
}

/// TSX: Transfer Stack Pointer to Index X.
pub fn tsx<M: Writer>(cpu: &mut CPU<M>, mode: Mode) -> (extra: u32)
    requires
        old(cpu).wf(),
    ensures
        final(cpu).wf(),
        (final(cpu).state(), extra) == execute_op::<M>(Op::Tsx, mode, old(cpu).state()),
{
    reveal(execute_op);
    let byte = cpu.sp;
    update_zero_negative(cpu, byte);
    cpu.x = cpu.sp;
    0
}

/// PHP: Push Processor Status on Stack, with the B flag set in the pushed
/// byte only.
pub fn php<M: Writer>(cpu: &mut CPU<M>, mode: Mode) -> (extra: u32)
    requires
        old(cpu).wf(),
    ensures
        final(cpu).wf(),
        (final(cpu).state(), extra) == execute_op::<M>(Op::Php, mode, old(cpu).state()),
{
    reveal(execute_op);
    let byte = cpu.p.as_byte();
    cpu.stack_push(byte | FLAG_B);
    0
}

/// PLP: Pull Processor Status from Stack; bits 4 and 5 are ignored.
pub fn plp<M: Writer>(cpu: &mut CPU<M>, mode: Mode) -> (extra: u32)
    requires
        old(cpu).wf(),
    ensures
        final(cpu).wf(),
        (final(cpu).state(), extra) == execute_op::<M>(Op::Plp, mode, old(cpu).state()),
{
    reveal(execute_op);
    load_status_from_stack(cpu);
    0
}

/* 9. Reset and Interrupt Considerations */

/// RTI: Return from Interrupt.
pub fn rti<M: Writer>(cpu: &mut CPU<M>, mode: Mode) -> (extra: u32)
    requires
        old(cpu).wf(),
    ensures
        final(cpu).wf(),
        (final(cpu).state(), extra) == execute_op::<M>(Op::Rti, mode, old(cpu).state()),
{
    reveal(execute_op);
    load_status_from_stack(cpu);

    let pcl = cpu.stack_pop();
    let pch = cpu.stack_pop();
    cpu.pc = util::combine_bytes(pch, pcl);
    0
}

/// BRK: Break Command. Pushes PC + 2 (the opcode's PC increment is already
/// done) and the status with B set, then jumps through the IRQ vector.
pub fn brk<M: Writer>(cpu: &mut CPU<M>, mode: Mode) -> (extra: u32)
    requires
        old(cpu).wf(),
    ensures
        final(cpu).wf(),
        (final(cpu).state(), extra) == execute_op::<M>(Op::Brk, mode, old(cpu).state()),
{
    reveal(execute_op);
    let (pch, pcl) = util::split_word(cpu.pc);
    cpu.stack_push(pch);
    cpu.stack_push(pcl.wrapping_add(1));

    cpu.p.set(FLAG_B);
    let byte = cpu.p.as_byte();
    cpu.stack_push(byte | FLAG_B);

    // Load interrupt vector.
    let pcl = cpu.load_memory(0xFFFE);
    let pch = cpu.load_memory(0xFFFF);
    cpu.pc = util::combine_bytes(pch, pcl);
    0
}

/* 10. Shift and Memory Modify Instructions */

fn shift_set_flags<M: Writer>(cpu: &mut CPU<M>, res: u8, carry: bool)
    ensures
        final(cpu).memory == old(cpu).memory,
        final(cpu).state() == with_p(old(cpu).state(), shift_flags(old(cpu).p@, res, carry)),
{
    set_flag(cpu, FLAG_C, carry);
    update_zero_negative(cpu, res);
}

/// The shift or rotate `op` of `byte` with the current carry.
fn shift_value<M: Writer>(cpu: &CPU<M>, op: Op, byte: u8) -> (r: (u8, bool))
    ensures
        r == shift(op, byte, flag(cpu.p@, FLAG_C)),
{
    match op {
        Op::Lsr | Op::Lsra => util::shift_right(byte),
        Op::Asl | Op::Asla => util::shift_left(byte),
        Op::Ror | Op::Rora => util::rotate_right(byte, cpu.p.is_set(FLAG_C)),
        _ => util::rotate_left(byte, cpu.p.is_set(FLAG_C)),
    }
}

fn shift_memory_operand<M: Writer>(cpu: &mut CPU<M>, op: Op, mode: Mode) -> (extra: u32)
    requires
        old(cpu).wf(),
    ensures
        final(cpu).wf(),
        (final(cpu).state(), extra) == shift_memory::<M>(op, mode, old(cpu).state()),
{
    let (addr, addr_cycles) = addressing::resolve(cpu, mode);
    let byte = cpu.load_memory(addr);
    let (res, carry) = shift_value(cpu, op, byte);
    shift_set_flags(cpu, res, carry);
    cpu.store_memory(addr, res);
    addr_cycles
}

fn shift_accumulator_operand<M: Writer>(cpu: &mut CPU<M>, op: Op)
    requires
        old(cpu).wf(),
    ensures
        final(cpu).wf(),
        final(cpu).state() == shift_accumulator(op, old(cpu).state()),
{
    let byte = cpu.a;
    let (res, carry) = shift_value(cpu, op, byte);
    shift_set_flags(cpu, res, carry);
    cpu.a = res;
}

/// LSR: Logical Shift Right of memory.
pub fn lsr<M: Writer>(cpu: &mut CPU<M>, mode: Mode) -> (extra: u32)
    requires
        old(cpu).wf(),
    ensures
        final(cpu).wf(),
        (final(cpu).state(), extra) == execute_op::<M>(Op::Lsr, mode, old(cpu).state()),
{
    reveal(execute_op);
    shift_memory_operand(cpu, Op::Lsr, mode)
}

/// LSR of the accumulator.
pub fn lsra<M: Writer>(cpu: &mut CPU<M>, mode: Mode) -> (extra: u32)
    requires
        old(cpu).wf(),
    ensures
        final(cpu).wf(),
        (final(cpu).state(), extra) == execute_op::<M>(Op::Lsra, mode, old(cpu).state()),
{
    reveal(execute_op);
    shift_accumulator_operand(cpu, Op::Lsra);
    0
}

/// ASL: Arithmetic Shift Left of memory.
pub fn asl<M: Writer>(cpu: &mut CPU<M>, mode: Mode) -> (extra: u32)
    requires
        old(cpu).wf(),
    ensures
        final(cpu).wf(),
        (final(cpu).state(), extra) == execute_op::<M>(Op::Asl, mode, old(cpu).state()),
{
    reveal(execute_op);
    shift_memory_operand(cpu, Op::Asl, mode)
}

/// ASL of the accumulator.
pub fn asla<M: Writer>(cpu: &mut CPU<M>, mode: Mode) -> (extra: u32)
    requires
        old(cpu).wf(),
    ensures
        final(cpu).wf(),
        (final(cpu).state(), extra) == execute_op::<M>(Op::Asla, mode, old(cpu).state()),
{
    reveal(execute_op);
    shift_accumulator_operand(cpu, Op::Asla);
    0
}

/// ROR: Rotate Right of memory through the carry.
pub fn ror<M: Writer>(cpu: &mut CPU<M>, mode: Mode) -> (extra: u32)
    requires
        old(cpu).wf(),
    ensures
        final(cpu).wf(),
        (final(cpu).state(), extra) == execute_op::<M>(Op::Ror, mode, old(cpu).state()),
{
    reveal(execute_op);
    shift_memory_operand(cpu, Op::Ror, mode)
}

/// ROR of the accumulator.
pub fn rora<M: Writer>(cpu: &mut CPU<M>, mode: Mode) -> (extra: u32)
    requires
        old(cpu).wf(),
    ensures
        final(cpu).wf(),
        (final(cpu).state(), extra) == execute_op::<M>(Op::Rora, mode, old(cpu).state()),
{
    reveal(execute_op);
    shift_accumulator_operand(cpu, Op::Rora);
    0
}

/// ROL: Rotate Left of memory through the carry.
pub fn rol<M: Writer>(cpu: &mut CPU<M>, mode: Mode) -> (extra: u32)
    requires
        old(cpu).wf(),
    ensures
        final(cpu).wf(),
        (final(cpu).state(), extra) == execute_op::<M>(Op::Rol, mode, old(cpu).state()),
{
    reveal(execute_op);
    shift_memory_operand(cpu, Op::Rol, mode)
}

/// ROL of the accumulator.
pub fn rola<M: Writer>(cpu: &mut CPU<M>, mode: Mode) -> (extra: u32)
    requires
        old(cpu).wf(),
    ensures
        final(cpu).wf(),
        (final(cpu).state(), extra) == execute_op::<M>(Op::Rola, mode, old(cpu).state()),
{
    reveal(execute_op);
    shift_accumulator_operand(cpu, Op::Rola);
    0
}

fn step_memory_operand<M: Writer>(cpu: &mut CPU<M>, mode: Mode, up: bool) -> (extra: u32)
    requires
        old(cpu).wf(),
    ensures
        final(cpu).wf(),
        (final(cpu).state(), extra) == step_memory::<M>(mode, old(cpu).state(), up),
{
    let (addr, addr_cycles) = addressing::resolve(cpu, mode);
    let byte = cpu.load_memory(addr);
    let res = if up {
        byte.wrapping_add(1)
    } else {
        byte.wrapping_sub(1)
    };
    cpu.store_memory(addr, res);
    update_zero_negative(cpu, res);
    addr_cycles
}

/// INC: Increment Memory by One.
pub fn inc<M: Writer>(cpu: &mut CPU<M>, mode: Mode) -> (extra: u32)
    requires
        old(cpu).wf(),
    ensures
        final(cpu).wf(),
        (final(cpu).state(), extra) == execute_op::<M>(Op::Inc, mode, old(cpu).state()),
{
    reveal(execute_op);
    step_memory_operand(cpu, mode, true)
}

/// DEC: Decrement Memory by One.
pub fn dec<M: Writer>(cpu: &mut CPU<M>, mode: Mode) -> (extra: u32)
    requires
        old(cpu).wf(),
    ensures
        final(cpu).wf(),
        (final(cpu).state(), extra) == execute_op::<M>(Op::Dec, mode, old(cpu).state()),
{
    reveal(execute_op);
    step_memory_operand(cpu, mode, false)
}

/// NOP: No operation.
pub fn nop<M: Writer>(cpu: &mut CPU<M>, mode: Mode) -> (extra: u32)
    requires
        old(cpu).wf(),
    ensures
        final(cpu).wf(),
        (final(cpu).state(), extra) == execute_op::<M>(Op::Nop, mode, old(cpu).state()),
{
    reveal(execute_op);
    0
}

fn execute_group_0<M: Writer>(cpu: &mut CPU<M>, op: Op, mode: Mode) -> (extra: u32)
    requires
        old(cpu).wf(),
        op_defined::<M>(op, mode, old(cpu).state()),
        op == Op::Adc || op == Op::And || op == Op::Asl || op == Op::Asla || op == Op::Bcc ||
            op == Op::Bcs || op == Op::Beq || op == Op::Bit || op == Op::Bmi || op == Op::Bne ||
            op == Op::Bpl || op == Op::Brk || op == Op::Bvc || op == Op::Bvs || op == Op::Clc,
    ensures
        final(cpu).wf(),
        (final(cpu).state(), extra) == execute_op::<M>(op, mode, old(cpu).state()),
{
    match op {
        Op::Adc => adc(cpu, mode),
        Op::And => and(cpu, mode),
        Op::Asl => asl(cpu, mode),
        Op::Asla => asla(cpu, mode),
        Op::Bcc => bcc(cpu, mode),
        Op::Bcs => bcs(cpu, mode),
        Op::Beq => beq(cpu, mode),
        Op::Bit => bit(cpu, mode),
        Op::Bmi => bmi(cpu, mode),
        Op::Bne => bne(cpu, mode),
        Op::Bpl => bpl(cpu, mode),
        Op::Brk => brk(cpu, mode),
        Op::Bvc => bvc(cpu, mode),
        Op::Bvs => bvs(cpu, mode),
        Op::Clc => clc(cpu, mode),
        _ => {
            assert(false);
            0
        },
    }
}

fn execute_group_1<M: Writer>(cpu: &mut CPU<M>, op: Op, mode: Mode) -> (extra: u32)
    requires
        old(cpu).wf(),
        op_defined::<M>(op, mode, old(cpu).state()),
        op == Op::Cld || op == Op::Cli || op == Op::Clv || op == Op::Cmp || op == Op::Cpx ||
            op == Op::Cpy || op == Op::Dec || op == Op::Dex || op == Op::Dey || op == Op::Eor ||
            op == Op::Inc || op == Op::Inx || op == Op::Iny || op == Op::Jmp || op == Op::Jsr,
    ensures
        final(cpu).wf(),
        (final(cpu).state(), extra) == execute_op::<M>(op, mode, old(cpu).state()),
{
    match op {
        Op::Cld => cld(cpu, mode),
        Op::Cli => cli(cpu, mode),
        Op::Clv => clv(cpu, mode),
        Op::Cmp => cmp(cpu, mode),
        Op::Cpx => cpx(cpu, mode),
        Op::Cpy => cpy(cpu, mode),
        Op::Dec => dec(cpu, mode),
        Op::Dex => dex(cpu, mode),
        Op::Dey => dey(cpu, mode),
        Op::Eor => eor(cpu, mode),
        Op::Inc => inc(cpu, mode),
        Op::Inx => inx(cpu, mode),
        Op::Iny => iny(cpu, mode),
        Op::Jmp => jmp(cpu, mode),
        Op::Jsr => jsr(cpu, mode),
        _ => {
            assert(false);
            0
        },
    }
}

fn execute_group_2<M: Writer>(cpu: &mut CPU<M>, op: Op, mode: Mode) -> (extra: u32)
    requires
        old(cpu).wf(),
        op_defined::<M>(op, mode, old(cpu).state()),
        op == Op::Lda || op == Op::Ldx || op == Op::Ldy || op == Op::Lsr || op == Op::Lsra ||
            op == Op::Nop || op == Op::Ora || op == Op::Pha || op == Op::Php || op == Op::Pla ||
            op == Op::Plp || op == Op::Rol || op == Op::Rola || op == Op::Ror || op == Op::Rora,
    ensures
        final(cpu).wf(),
        (final(cpu).state(), extra) == execute_op::<M>(op, mode, old(cpu).state()),
{
    match op {
        Op::Lda => lda(cpu, mode),
        Op::Ldx => ldx(cpu, mode),
        Op::Ldy => ldy(cpu, mode),
        Op::Lsr => lsr(cpu, mode),
        Op::Lsra => lsra(cpu, mode),
        Op::Nop => nop(cpu, mode),
        Op::Ora => ora(cpu, mode),
        Op::Pha => pha(cpu, mode),
        Op::Php => php(cpu, mode),
        Op::Pla => pla(cpu, mode),
        Op::Plp => plp(cpu, mode),
        Op::Rol => rol(cpu, mode),
        Op::Rola => rola(cpu, mode),
        Op::Ror => ror(cpu, mode),
        Op::Rora => rora(cpu, mode),
        _ => {
            assert(false);
            0
        },
    }
}

fn execute_group_3<M: Writer>(cpu: &mut CPU<M>, op: Op, mode: Mode) -> (extra: u32)
    requires
        old(cpu).wf(),
        op_defined::<M>(op, mode, old(cpu).state()),
        op == Op::Rti || op == Op::Rts || op == Op::Sbc || op == Op::Sec || op == Op::Sed ||
            op == Op::Sei || op == Op::Sta || op == Op::Stx || op == Op::Sty || op == Op::Tax ||
            op == Op::Tay || op == Op::Tsx || op == Op::Txa || op == Op::Txs || op == Op::Tya,
    ensures
        final(cpu).wf(),
        (final(cpu).state(), extra) == execute_op::<M>(op, mode, old(cpu).state()),
{
    match op {
        Op::Rti => rti(cpu, mode),
        Op::Rts => rts(cpu, mode),
        Op::Sbc => sbc(cpu, mode),
        Op::Sec => sec(cpu, mode),
        Op::Sed => sed(cpu, mode),
        Op::Sei => sei(cpu, mode),
        Op::Sta => sta(cpu, mode),
        Op::Stx => stx(cpu, mode),
        Op::Sty => sty(cpu, mode),
        Op::Tax => tax(cpu, mode),
        Op::Tay => tay(cpu, mode),
        Op::Tsx => tsx(cpu, mode),
        Op::Txa => txa(cpu, mode),
        Op::Txs => txs(cpu, mode),
        Op::Tya => tya(cpu, mode),
        _ => {
            assert(false);
            0
        },
    }
}

/// Runs the operation `op` with addressing mode `mode`.
pub fn execute<M: Writer>(cpu: &mut CPU<M>, op: Op, mode: Mode) -> (extra: u32)
    requires
        old(cpu).wf(),
        op_defined::<M>(op, mode, old(cpu).state()),
    ensures
        final(cpu).wf(),
        (final(cpu).state(), extra) == execute_op::<M>(op, mode, old(cpu).state()),
        extra <= 2,
{
    proof {
        lemma_extra_cycles_bound::<M>(op, mode, old(cpu).state());
    }
    match op {
        Op::Adc | Op::And | Op::Asl | Op::Asla | Op::Bcc | Op::Bcs | Op::Beq | Op::Bit | Op::Bmi |
        Op::Bne | Op::Bpl | Op::Brk | Op::Bvc | Op::Bvs | Op::Clc => execute_group_0(cpu, op, mode),
        Op::Cld | Op::Cli | Op::Clv | Op::Cmp | Op::Cpx | Op::Cpy | Op::Dec | Op::Dex | Op::Dey |
        Op::Eor | Op::Inc | Op::Inx | Op::Iny | Op::Jmp | Op::Jsr => execute_group_1(cpu, op, mode),
        Op::Lda | Op::Ldx | Op::Ldy | Op::Lsr | Op::Lsra | Op::Nop | Op::Ora | Op::Pha | Op::Php |
        Op::Pla | Op::Plp | Op::Rol | Op::Rola | Op::Ror | Op::Rora => execute_group_2(cpu, op, mode),
        Op::Rti | Op::Rts | Op::Sbc | Op::Sec | Op::Sed | Op::Sei | Op::Sta | Op::Stx | Op::Sty |
        Op::Tax | Op::Tay | Op::Tsx | Op::Txa | Op::Txs | Op::Tya => execute_group_3(cpu, op, mode),
    }
}

} // verus!
