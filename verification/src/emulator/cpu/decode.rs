//! The instruction set: which operation and addressing mode each opcode
//! selects, and how many cycles it takes before any extra cycles.
use vstd::prelude::*;

verus! {

/// How an instruction finds its operand.
#[derive(Clone, Copy, Debug, PartialEq, Eq)]
pub enum Mode {
    Implied,
    Immediate,
    Absolute,
    ZeroPage,
    Relative,
    AbsoluteX,
    AbsoluteY,
    ZeroPageX,
    ZeroPageY,
    IndexedIndirect,
    IndirectIndexed,
    Indirect,
}

/// The operations of the documented instruction set. The shifts and
/// rotates on the accumulator are operations of their own.
#[derive(Clone, Copy, Debug, PartialEq, Eq)]
pub enum Op {
    Adc,
    And,
    Asl,
    Asla,
    Bcc,
    Bcs,
    Beq,
    Bit,
    Bmi,
    Bne,
    Bpl,
    Brk,
    Bvc,
    Bvs,
    Clc,
    Cld,
    Cli,
    Clv,
    Cmp,
    Cpx,
    Cpy,
    Dec,
    Dex,
    Dey,
    Eor,
    Inc,
    Inx,
    Iny,
    Jmp,
    Jsr,
    Lda,
    Ldx,
    Ldy,
    Lsr,
    Lsra,
    Nop,
    Ora,
    Pha,
    Php,
    Pla,
    Plp,
    Rol,
    Rola,
    Ror,
    Rora,
    Rti,
    Rts,
    Sbc,
    Sec,
    Sed,
    Sei,
    Sta,
    Stx,
    Sty,
    Tax,
    Tay,
    Tsx,
    Txa,
    Txs,
    Tya,
}

/// The operation, addressing mode and base cycle count of `opcode`, or
/// `None` for an opcode outside the documented set.
pub open spec fn decode(opcode: u8) -> Option<(Op, Mode, u32)> {
    match opcode {
        0x69 => Some((Op::Adc, Mode::Immediate, 2)),
        0x65 => Some((Op::Adc, Mode::ZeroPage, 3)),
        0x75 => Some((Op::Adc, Mode::ZeroPageX, 4)),
        0x6D => Some((Op::Adc, Mode::Absolute, 4)),
        0x7D => Some((Op::Adc, Mode::AbsoluteX, 4)),
        0x79 => Some((Op::Adc, Mode::AbsoluteY, 4)),
        0x61 => Some((Op::Adc, Mode::IndexedIndirect, 6)),
        0x71 => Some((Op::Adc, Mode::IndirectIndexed, 5)),
        0x29 => Some((Op::And, Mode::Immediate, 2)),
        0x25 => Some((Op::And, Mode::ZeroPage, 3)),
        0x35 => Some((Op::And, Mode::ZeroPageX, 4)),
        0x2D => Some((Op::And, Mode::Absolute, 4)),
        0x3D => Some((Op::And, Mode::AbsoluteX, 4)),
        0x39 => Some((Op::And, Mode::AbsoluteY, 4)),
        0x21 => Some((Op::And, Mode::IndexedIndirect, 6)),
        0x31 => Some((Op::And, Mode::IndirectIndexed, 5)),
        0x0A => Some((Op::Asla, Mode::Implied, 2)),
        0x06 => Some((Op::Asl, Mode::ZeroPage, 5)),
        0x16 => Some((Op::Asl, Mode::ZeroPageX, 6)),
        0x0E => Some((Op::Asl, Mode::Absolute, 6)),
        0x1E => Some((Op::Asl, Mode::AbsoluteX, 7)),
        0x90 => Some((Op::Bcc, Mode::Relative, 2)),
        0xB0 => Some((Op::Bcs, Mode::Relative, 2)),
        0xF0 => Some((Op::Beq, Mode::Relative, 2)),
        0x24 => Some((Op::Bit, Mode::ZeroPage, 3)),
        0x2C => Some((Op::Bit, Mode::Absolute, 4)),
        0x30 => Some((Op::Bmi, Mode::Relative, 2)),
        0xD0 => Some((Op::Bne, Mode::Relative, 2)),
        0x10 => Some((Op::Bpl, Mode::Relative, 2)),
        0x50 => Some((Op::Bvc, Mode::Relative, 2)),
        0x70 => Some((Op::Bvs, Mode::Relative, 2)),
        0x00 => Some((Op::Brk, Mode::Implied, 7)),
        0x18 => Some((Op::Clc, Mode::Implied, 2)),
        0xD8 => Some((Op::Cld, Mode::Implied, 2)),
        0x58 => Some((Op::Cli, Mode::Implied, 2)),
        0xB8 => Some((Op::Clv, Mode::Implied, 2)),
        0xC9 => Some((Op::Cmp, Mode::Immediate, 2)),
        0xC5 => Some((Op::Cmp, Mode::ZeroPage, 3)),
        0xD5 => Some((Op::Cmp, Mode::ZeroPageX, 4)),
        0xCD => Some((Op::Cmp, Mode::Absolute, 4)),
        0xDD => Some((Op::Cmp, Mode::AbsoluteX, 4)),
        0xD9 => Some((Op::Cmp, Mode::AbsoluteY, 4)),
        0xC1 => Some((Op::Cmp, Mode::IndexedIndirect, 6)),
        0xD1 => Some((Op::Cmp, Mode::IndirectIndexed, 5)),
        0xE0 => Some((Op::Cpx, Mode::Immediate, 2)),
        0xE4 => Some((Op::Cpx, Mode::ZeroPage, 3)),
        0xEC => Some((Op::Cpx, Mode::Absolute, 4)),
        0xC0 => Some((Op::Cpy, Mode::Immediate, 2)),
        0xC4 => Some((Op::Cpy, Mode::ZeroPage, 3)),
        0xCC => Some((Op::Cpy, Mode::Absolute, 4)),
        0xC6 => Some((Op::Dec, Mode::ZeroPage, 5)),
        0xD6 => Some((Op::Dec, Mode::ZeroPageX, 6)),
        0xCE => Some((Op::Dec, Mode::Absolute, 6)),
        0xDE => Some((Op::Dec, Mode::AbsoluteX, 7)),
        0xCA => Some((Op::Dex, Mode::Implied, 2)),
        0x88 => Some((Op::Dey, Mode::Implied, 2)),
        0x49 => Some((Op::Eor, Mode::Immediate, 2)),
        0x45 => Some((Op::Eor, Mode::ZeroPage, 3)),
        0x55 => Some((Op::Eor, Mode::ZeroPageX, 4)),
        0x4D => Some((Op::Eor, Mode::Absolute, 4)),
        0x5D => Some((Op::Eor, Mode::AbsoluteX, 4)),
        0x59 => Some((Op::Eor, Mode::AbsoluteY, 4)),
        0x41 => Some((Op::Eor, Mode::IndexedIndirect, 6)),
        0x51 => Some((Op::Eor, Mode::IndirectIndexed, 5)),
        0xE6 => Some((Op::Inc, Mode::ZeroPage, 5)),
        0xF6 => Some((Op::Inc, Mode::ZeroPageX, 6)),
        0xEE => Some((Op::Inc, Mode::Absolute, 6)),
        0xFE => Some((Op::Inc, Mode::AbsoluteX, 7)),
        0xE8 => Some((Op::Inx, Mode::Implied, 2)),
        0xC8 => Some((Op::Iny, Mode::Implied, 2)),
        0x4C => Some((Op::Jmp, Mode::Absolute, 3)),
        0x6C => Some((Op::Jmp, Mode::Indirect, 5)),
        0x20 => Some((Op::Jsr, Mode::Absolute, 6)),
        0xA9 => Some((Op::Lda, Mode::Immediate, 2)),
        0xA5 => Some((Op::Lda, Mode::ZeroPage, 3)),
        0xB5 => Some((Op::Lda, Mode::ZeroPageX, 4)),
        0xAD => Some((Op::Lda, Mode::Absolute, 4)),
        0xBD => Some((Op::Lda, Mode::AbsoluteX, 4)),
        0xB9 => Some((Op::Lda, Mode::AbsoluteY, 4)),
        0xA1 => Some((Op::Lda, Mode::IndexedIndirect, 6)),
        0xB1 => Some((Op::Lda, Mode::IndirectIndexed, 5)),
        0xA2 => Some((Op::Ldx, Mode::Immediate, 2)),
        0xA6 => Some((Op::Ldx, Mode::ZeroPage, 3)),
        0xB6 => Some((Op::Ldx, Mode::ZeroPageY, 4)),
        0xAE => Some((Op::Ldx, Mode::Absolute, 4)),
        0xBE => Some((Op::Ldx, Mode::AbsoluteY, 4)),
        0xA0 => Some((Op::Ldy, Mode::Immediate, 2)),
        0xA4 => Some((Op::Ldy, Mode::ZeroPage, 3)),
        0xB4 => Some((Op::Ldy, Mode::ZeroPageX, 4)),
        0xAC => Some((Op::Ldy, Mode::Absolute, 4)),
        0xBC => Some((Op::Ldy, Mode::AbsoluteX, 4)),
        0x4A => Some((Op::Lsra, Mode::Implied, 2)),
        0x46 => Some((Op::Lsr, Mode::ZeroPage, 5)),
        0x56 => Some((Op::Lsr, Mode::ZeroPageX, 6)),
        0x4E => Some((Op::Lsr, Mode::Absolute, 6)),
        0x5E => Some((Op::Lsr, Mode::AbsoluteX, 7)),
        0xEA => Some((Op::Nop, Mode::Implied, 2)),
        0x09 => Some((Op::Ora, Mode::Immediate, 2)),
        0x05 => Some((Op::Ora, Mode::ZeroPage, 3)),
        0x15 => Some((Op::Ora, Mode::ZeroPageX, 4)),
        0x0D => Some((Op::Ora, Mode::Absolute, 4)),
        0x1D => Some((Op::Ora, Mode::AbsoluteX, 4)),
        0x19 => Some((Op::Ora, Mode::AbsoluteY, 4)),
        0x01 => Some((Op::Ora, Mode::IndexedIndirect, 6)),
        0x11 => Some((Op::Ora, Mode::IndirectIndexed, 5)),
        0x48 => Some((Op::Pha, Mode::Implied, 3)),
        0x68 => Some((Op::Pla, Mode::Implied, 3)),
        0x08 => Some((Op::Php, Mode::Implied, 3)),
        0x28 => Some((Op::Plp, Mode::Implied, 4)),
        0x2A => Some((Op::Rola, Mode::Implied, 2)),
        0x26 => Some((Op::Rol, Mode::ZeroPage, 5)),
        0x36 => Some((Op::Rol, Mode::ZeroPageX, 6)),
        0x2E => Some((Op::Rol, Mode::Absolute, 6)),
        0x3E => Some((Op::Rol, Mode::AbsoluteX, 7)),
        0x6A => Some((Op::Rora, Mode::Implied, 2)),
        0x66 => Some((Op::Ror, Mode::ZeroPage, 5)),
        0x76 => Some((Op::Ror, Mode::ZeroPageX, 6)),
        0x6E => Some((Op::Ror, Mode::Absolute, 6)),
        0x7E => Some((Op::Ror, Mode::AbsoluteX, 7)),
        0x40 => Some((Op::Rti, Mode::Implied, 6)),
        0x60 => Some((Op::Rts, Mode::Implied, 6)),
        0xE9 => Some((Op::Sbc, Mode::Immediate, 2)),
        0xE5 => Some((Op::Sbc, Mode::ZeroPage, 3)),
        0xF5 => Some((Op::Sbc, Mode::ZeroPageX, 4)),
        0xED => Some((Op::Sbc, Mode::Absolute, 4)),
        0xFD => Some((Op::Sbc, Mode::AbsoluteX, 4)),
        0xF9 => Some((Op::Sbc, Mode::AbsoluteY, 4)),
        0xE1 => Some((Op::Sbc, Mode::IndexedIndirect, 6)),
        0xF1 => Some((Op::Sbc, Mode::IndirectIndexed, 5)),
        0x38 => Some((Op::Sec, Mode::Implied, 2)),
        0xF8 => Some((Op::Sed, Mode::Implied, 2)),
        0x78 => Some((Op::Sei, Mode::Implied, 2)),
        0x85 => Some((Op::Sta, Mode::ZeroPage, 3)),
        0x95 => Some((Op::Sta, Mode::ZeroPageX, 4)),
        0x8D => Some((Op::Sta, Mode::Absolute, 4)),
        0x9D => Some((Op::Sta, Mode::AbsoluteX, 5)),
        0x99 => Some((Op::Sta, Mode::AbsoluteY, 5)),
        0x81 => Some((Op::Sta, Mode::IndexedIndirect, 6)),
        0x91 => Some((Op::Sta, Mode::IndirectIndexed, 6)),
        0x86 => Some((Op::Stx, Mode::ZeroPage, 3)),
        0x96 => Some((Op::Stx, Mode::ZeroPageY, 4)),
        0x8E => Some((Op::Stx, Mode::Absolute, 4)),
        0x84 => Some((Op::Sty, Mode::ZeroPage, 3)),
        0x94 => Some((Op::Sty, Mode::ZeroPageX, 4)),
        0x8C => Some((Op::Sty, Mode::Absolute, 4)),
        0xAA => Some((Op::Tax, Mode::Implied, 2)),
        0x8A => Some((Op::Txa, Mode::Implied, 2)),
        0xA8 => Some((Op::Tay, Mode::Implied, 2)),
        0x98 => Some((Op::Tya, Mode::Implied, 2)),
        0xBA => Some((Op::Tsx, Mode::Implied, 2)),
        0x9A => Some((Op::Txs, Mode::Implied, 2)),
        _ => None,
    }
}

/// The operation of a group-one opcode (`aaabbb01`) by its top three bits.
pub open spec fn group_one_op(aaa: int) -> Op {
    if aaa == 0 {
        Op::Ora
    } else if aaa == 1 {
        Op::And
    } else if aaa == 2 {
        Op::Eor
    } else if aaa == 3 {
        Op::Adc
    } else if aaa == 4 {
        Op::Sta
    } else if aaa == 5 {
        Op::Lda
    } else if aaa == 6 {
        Op::Cmp
    } else {
        Op::Sbc
    }
}

/// The addressing mode of a group-one opcode by its middle three bits.
pub open spec fn group_one_mode(bbb: int) -> Mode {
    if bbb == 0 {
        Mode::IndexedIndirect
    } else if bbb == 1 {
        Mode::ZeroPage
    } else if bbb == 2 {
        Mode::Immediate
    } else if bbb == 3 {
        Mode::Absolute
    } else if bbb == 4 {
        Mode::IndirectIndexed
    } else if bbb == 5 {
        Mode::ZeroPageX
    } else if bbb == 6 {
        Mode::AbsoluteY
    } else {
        Mode::AbsoluteX
    }
}

/// The base cycles of a read in each group-one addressing mode.
pub open spec fn read_cycles(mode: Mode) -> u32 {
    match mode {
        Mode::Immediate => 2,
        Mode::ZeroPage => 3,
        Mode::IndexedIndirect => 6,
        Mode::IndirectIndexed => 5,
        _ => 4,
    }
}

/// The encoding of the eight accumulator and memory operations: an opcode
/// `aaabbb01` runs operation `aaa` (ORA, AND, EOR, ADC, STA, LDA, CMP, SBC)
/// in addressing mode `bbb` ((zp,X), zp, #, abs, (zp),Y, zp,X, abs,Y,
/// abs,X), except STA #, which does not exist. A read takes 2 cycles
/// immediate, 3 on the zero page, 6 through (zp,X), 5 through (zp),Y and 4
/// otherwise (plus a page crossing); STA never saves the cycle of the
/// indexed modes.
pub proof fn law_group_one_encoding(opcode: u8)
    requires
        opcode % 4 == 1,
        opcode != 0x89,
    ensures
        ({
            let op = group_one_op(opcode as int / 32);
            let mode = group_one_mode((opcode as int / 4) % 8);
            let cycles = if op == Op::Sta && (mode == Mode::AbsoluteX || mode == Mode::AbsoluteY) {
                5
            } else if op == Op::Sta && mode == Mode::IndirectIndexed {
                6
            } else {
                read_cycles(mode)
            };
            decode(opcode) == Some((op, mode, cycles))
        }),
{
}

/// The read-modify-write shifts and increments (`aaabbb10`): ASL, ROL, LSR,
/// ROR, DEC and INC act on the zero page (5 cycles), zero page X (6),
/// absolute (6) or absolute X (7), and ASL, ROL, LSR and ROR on the
/// accumulator (2).
pub proof fn law_read_modify_write_encoding(opcode: u8)
    requires
        opcode % 4 == 2,
        ({
            let aaa = opcode as int / 32;
            aaa <= 3 || aaa >= 6
        }),
        ({
            let bbb = (opcode as int / 4) % 8;
            bbb == 1 || bbb == 3 || bbb == 5 || bbb == 7 || (bbb == 2 && opcode < 0x80)
        }),
    ensures
        ({
            let aaa = opcode as int / 32;
            let bbb = (opcode as int / 4) % 8;
            let memory_op = if aaa == 0 {
                Op::Asl
            } else if aaa == 1 {
                Op::Rol
            } else if aaa == 2 {
                Op::Lsr
            } else if aaa == 3 {
                Op::Ror
            } else if aaa == 6 {
                Op::Dec
            } else {
                Op::Inc
            };
            let accumulator_op = if aaa == 0 {
                Op::Asla
            } else if aaa == 1 {
                Op::Rola
            } else if aaa == 2 {
                Op::Lsra
            } else {
                Op::Rora
            };
            decode(opcode) == if bbb == 1 {
                Some((memory_op, Mode::ZeroPage, 5))
            } else if bbb == 2 {
                Some((accumulator_op, Mode::Implied, 2))
            } else if bbb == 3 {
                Some((memory_op, Mode::Absolute, 6))
            } else if bbb == 5 {
                Some((memory_op, Mode::ZeroPageX, 6))
            } else {
                Some((memory_op, Mode::AbsoluteX, 7u32))
            }
        }),
{
}

/// The conditional branches (`xxy10000`): bits 6-7 pick the flag (N, V, C,
/// Z) and bit 5 the value that takes the branch; each is relative and takes
/// 2 cycles before a taken branch's extra ones.
pub proof fn law_branch_encoding(opcode: u8)
    requires
        opcode % 32 == 0x10,
    ensures
        decode(opcode) == Some(
            (
                if opcode == 0x10 {
                    Op::Bpl
                } else if opcode == 0x30 {
                    Op::Bmi
                } else if opcode == 0x50 {
                    Op::Bvc
                } else if opcode == 0x70 {
                    Op::Bvs
                } else if opcode == 0x90 {
                    Op::Bcc
                } else if opcode == 0xB0 {
                    Op::Bcs
                } else if opcode == 0xD0 {
                    Op::Bne
                } else {
                    Op::Beq
                },
                Mode::Relative,
                2u32,
            ),
        ),
{
}

/// Loads and stores of X and Y (`10xbbb10` for X, `10xbbb00` for Y; `x`
/// set for a load): immediate (loads only), zero page, absolute, zero page
/// indexed and absolute indexed (loads only), where X is indexed by Y and Y
/// by X; reads take 2 cycles immediate, 3 on the zero page and 4 otherwise,
/// stores 3 on the zero page and 4 otherwise.
pub proof fn law_index_register_encoding(opcode: u8)
    requires
        opcode as int / 32 == 4 || opcode as int / 32 == 5,
        opcode % 4 == 0 || opcode % 4 == 2,
        ({
            let load = opcode as int / 32 == 5;
            let bbb = (opcode as int / 4) % 8;
            bbb == 1 || bbb == 3 || bbb == 5 || (load && (bbb == 0 || bbb == 7))
        }),
    ensures
        ({
            let load = opcode as int / 32 == 5;
            let is_x = opcode % 4 == 2;
            let bbb = (opcode as int / 4) % 8;
            let op = if load {
                if is_x {
                    Op::Ldx
                } else {
                    Op::Ldy
                }
            } else {
                if is_x {
                    Op::Stx
                } else {
                    Op::Sty
                }
            };
            let mode = if bbb == 0 {
                Mode::Immediate
            } else if bbb == 1 {
                Mode::ZeroPage
            } else if bbb == 3 {
                Mode::Absolute
            } else if bbb == 5 {
                if is_x {
                    Mode::ZeroPageY
                } else {
                    Mode::ZeroPageX
                }
            } else {
                if is_x {
                    Mode::AbsoluteY
                } else {
                    Mode::AbsoluteX
                }
            };
            let cycles: u32 = if bbb == 0 {
                2
            } else if bbb == 1 {
                3
            } else {
                4
            };
            decode(opcode) == Some((op, mode, cycles))
        }),
{
}

fn lookup_instruction(opcode: u8) -> (r: Option<(Op, Mode, u32)>)
    ensures
        r == decode(opcode),
        r matches Some((_, _, cycles)) ==> cycles <= 7,
{
    match opcode {
        0x69 => Some((Op::Adc, Mode::Immediate, 2)),
        0x65 => Some((Op::Adc, Mode::ZeroPage, 3)),
        0x75 => Some((Op::Adc, Mode::ZeroPageX, 4)),
        0x6D => Some((Op::Adc, Mode::Absolute, 4)),
        0x7D => Some((Op::Adc, Mode::AbsoluteX, 4)),
        0x79 => Some((Op::Adc, Mode::AbsoluteY, 4)),
        0x61 => Some((Op::Adc, Mode::IndexedIndirect, 6)),
        0x71 => Some((Op::Adc, Mode::IndirectIndexed, 5)),
        0x29 => Some((Op::And, Mode::Immediate, 2)),
        0x25 => Some((Op::And, Mode::ZeroPage, 3)),
        0x35 => Some((Op::And, Mode::ZeroPageX, 4)),
        0x2D => Some((Op::And, Mode::Absolute, 4)),
        0x3D => Some((Op::And, Mode::AbsoluteX, 4)),
        0x39 => Some((Op::And, Mode::AbsoluteY, 4)),
        0x21 => Some((Op::And, Mode::IndexedIndirect, 6)),
        0x31 => Some((Op::And, Mode::IndirectIndexed, 5)),
        0x0A => Some((Op::Asla, Mode::Implied, 2)),
        0x06 => Some((Op::Asl, Mode::ZeroPage, 5)),
        0x16 => Some((Op::Asl, Mode::ZeroPageX, 6)),
        0x0E => Some((Op::Asl, Mode::Absolute, 6)),
        0x1E => Some((Op::Asl, Mode::AbsoluteX, 7)),
        0x90 => Some((Op::Bcc, Mode::Relative, 2)),
        0xB0 => Some((Op::Bcs, Mode::Relative, 2)),
        0xF0 => Some((Op::Beq, Mode::Relative, 2)),
        0x24 => Some((Op::Bit, Mode::ZeroPage, 3)),
        0x2C => Some((Op::Bit, Mode::Absolute, 4)),
        0x30 => Some((Op::Bmi, Mode::Relative, 2)),
        0xD0 => Some((Op::Bne, Mode::Relative, 2)),
        0x10 => Some((Op::Bpl, Mode::Relative, 2)),
        0x50 => Some((Op::Bvc, Mode::Relative, 2)),
        0x70 => Some((Op::Bvs, Mode::Relative, 2)),
        0x00 => Some((Op::Brk, Mode::Implied, 7)),
        0x18 => Some((Op::Clc, Mode::Implied, 2)),
        0xD8 => Some((Op::Cld, Mode::Implied, 2)),
        0x58 => Some((Op::Cli, Mode::Implied, 2)),
        0xB8 => Some((Op::Clv, Mode::Implied, 2)),
        0xC9 => Some((Op::Cmp, Mode::Immediate, 2)),
        0xC5 => Some((Op::Cmp, Mode::ZeroPage, 3)),
        0xD5 => Some((Op::Cmp, Mode::ZeroPageX, 4)),
        0xCD => Some((Op::Cmp, Mode::Absolute, 4)),
        0xDD => Some((Op::Cmp, Mode::AbsoluteX, 4)),
        0xD9 => Some((Op::Cmp, Mode::AbsoluteY, 4)),
        0xC1 => Some((Op::Cmp, Mode::IndexedIndirect, 6)),
        0xD1 => Some((Op::Cmp, Mode::IndirectIndexed, 5)),
        0xE0 => Some((Op::Cpx, Mode::Immediate, 2)),
        0xE4 => Some((Op::Cpx, Mode::ZeroPage, 3)),
        0xEC => Some((Op::Cpx, Mode::Absolute, 4)),
        0xC0 => Some((Op::Cpy, Mode::Immediate, 2)),
        0xC4 => Some((Op::Cpy, Mode::ZeroPage, 3)),
        0xCC => Some((Op::Cpy, Mode::Absolute, 4)),
        0xC6 => Some((Op::Dec, Mode::ZeroPage, 5)),
        0xD6 => Some((Op::Dec, Mode::ZeroPageX, 6)),
        0xCE => Some((Op::Dec, Mode::Absolute, 6)),
        0xDE => Some((Op::Dec, Mode::AbsoluteX, 7)),
        0xCA => Some((Op::Dex, Mode::Implied, 2)),
        0x88 => Some((Op::Dey, Mode::Implied, 2)),
        0x49 => Some((Op::Eor, Mode::Immediate, 2)),
        0x45 => Some((Op::Eor, Mode::ZeroPage, 3)),
        0x55 => Some((Op::Eor, Mode::ZeroPageX, 4)),
        0x4D => Some((Op::Eor, Mode::Absolute, 4)),
        0x5D => Some((Op::Eor, Mode::AbsoluteX, 4)),
        0x59 => Some((Op::Eor, Mode::AbsoluteY, 4)),
        0x41 => Some((Op::Eor, Mode::IndexedIndirect, 6)),
        0x51 => Some((Op::Eor, Mode::IndirectIndexed, 5)),
        0xE6 => Some((Op::Inc, Mode::ZeroPage, 5)),
        0xF6 => Some((Op::Inc, Mode::ZeroPageX, 6)),
        0xEE => Some((Op::Inc, Mode::Absolute, 6)),
        0xFE => Some((Op::Inc, Mode::AbsoluteX, 7)),
        0xE8 => Some((Op::Inx, Mode::Implied, 2)),
        0xC8 => Some((Op::Iny, Mode::Implied, 2)),
        0x4C => Some((Op::Jmp, Mode::Absolute, 3)),
        0x6C => Some((Op::Jmp, Mode::Indirect, 5)),
        0x20 => Some((Op::Jsr, Mode::Absolute, 6)),
        0xA9 => Some((Op::Lda, Mode::Immediate, 2)),
        0xA5 => Some((Op::Lda, Mode::ZeroPage, 3)),
        0xB5 => Some((Op::Lda, Mode::ZeroPageX, 4)),
        0xAD => Some((Op::Lda, Mode::Absolute, 4)),
        0xBD => Some((Op::Lda, Mode::AbsoluteX, 4)),
        0xB9 => Some((Op::Lda, Mode::AbsoluteY, 4)),
        0xA1 => Some((Op::Lda, Mode::IndexedIndirect, 6)),
        0xB1 => Some((Op::Lda, Mode::IndirectIndexed, 5)),
        0xA2 => Some((Op::Ldx, Mode::Immediate, 2)),
        0xA6 => Some((Op::Ldx, Mode::ZeroPage, 3)),
        0xB6 => Some((Op::Ldx, Mode::ZeroPageY, 4)),
        0xAE => Some((Op::Ldx, Mode::Absolute, 4)),
        0xBE => Some((Op::Ldx, Mode::AbsoluteY, 4)),
        0xA0 => Some((Op::Ldy, Mode::Immediate, 2)),
        0xA4 => Some((Op::Ldy, Mode::ZeroPage, 3)),
        0xB4 => Some((Op::Ldy, Mode::ZeroPageX, 4)),
        0xAC => Some((Op::Ldy, Mode::Absolute, 4)),
        0xBC => Some((Op::Ldy, Mode::AbsoluteX, 4)),
        0x4A => Some((Op::Lsra, Mode::Implied, 2)),
        0x46 => Some((Op::Lsr, Mode::ZeroPage, 5)),
        0x56 => Some((Op::Lsr, Mode::ZeroPageX, 6)),
        0x4E => Some((Op::Lsr, Mode::Absolute, 6)),
        0x5E => Some((Op::Lsr, Mode::AbsoluteX, 7)),
        0xEA => Some((Op::Nop, Mode::Implied, 2)),
        0x09 => Some((Op::Ora, Mode::Immediate, 2)),
        0x05 => Some((Op::Ora, Mode::ZeroPage, 3)),
        0x15 => Some((Op::Ora, Mode::ZeroPageX, 4)),
        0x0D => Some((Op::Ora, Mode::Absolute, 4)),
        0x1D => Some((Op::Ora, Mode::AbsoluteX, 4)),
        0x19 => Some((Op::Ora, Mode::AbsoluteY, 4)),
        0x01 => Some((Op::Ora, Mode::IndexedIndirect, 6)),
        0x11 => Some((Op::Ora, Mode::IndirectIndexed, 5)),
        0x48 => Some((Op::Pha, Mode::Implied, 3)),
        0x68 => Some((Op::Pla, Mode::Implied, 3)),
        0x08 => Some((Op::Php, Mode::Implied, 3)),
        0x28 => Some((Op::Plp, Mode::Implied, 4)),
        0x2A => Some((Op::Rola, Mode::Implied, 2)),
        0x26 => Some((Op::Rol, Mode::ZeroPage, 5)),
        0x36 => Some((Op::Rol, Mode::ZeroPageX, 6)),
        0x2E => Some((Op::Rol, Mode::Absolute, 6)),
        0x3E => Some((Op::Rol, Mode::AbsoluteX, 7)),
        0x6A => Some((Op::Rora, Mode::Implied, 2)),
        0x66 => Some((Op::Ror, Mode::ZeroPage, 5)),
        0x76 => Some((Op::Ror, Mode::ZeroPageX, 6)),
        0x6E => Some((Op::Ror, Mode::Absolute, 6)),
        0x7E => Some((Op::Ror, Mode::AbsoluteX, 7)),
        0x40 => Some((Op::Rti, Mode::Implied, 6)),
        0x60 => Some((Op::Rts, Mode::Implied, 6)),
        0xE9 => Some((Op::Sbc, Mode::Immediate, 2)),
        0xE5 => Some((Op::Sbc, Mode::ZeroPage, 3)),
        0xF5 => Some((Op::Sbc, Mode::ZeroPageX, 4)),
        0xED => Some((Op::Sbc, Mode::Absolute, 4)),
        0xFD => Some((Op::Sbc, Mode::AbsoluteX, 4)),
        0xF9 => Some((Op::Sbc, Mode::AbsoluteY, 4)),
        0xE1 => Some((Op::Sbc, Mode::IndexedIndirect, 6)),
        0xF1 => Some((Op::Sbc, Mode::IndirectIndexed, 5)),
        0x38 => Some((Op::Sec, Mode::Implied, 2)),
        0xF8 => Some((Op::Sed, Mode::Implied, 2)),
        0x78 => Some((Op::Sei, Mode::Implied, 2)),
        0x85 => Some((Op::Sta, Mode::ZeroPage, 3)),
        0x95 => Some((Op::Sta, Mode::ZeroPageX, 4)),
        0x8D => Some((Op::Sta, Mode::Absolute, 4)),
        0x9D => Some((Op::Sta, Mode::AbsoluteX, 5)),
        0x99 => Some((Op::Sta, Mode::AbsoluteY, 5)),
        0x81 => Some((Op::Sta, Mode::IndexedIndirect, 6)),
        0x91 => Some((Op::Sta, Mode::IndirectIndexed, 6)),
        0x86 => Some((Op::Stx, Mode::ZeroPage, 3)),
        0x96 => Some((Op::Stx, Mode::ZeroPageY, 4)),
        0x8E => Some((Op::Stx, Mode::Absolute, 4)),
        0x84 => Some((Op::Sty, Mode::ZeroPage, 3)),
        0x94 => Some((Op::Sty, Mode::ZeroPageX, 4)),
        0x8C => Some((Op::Sty, Mode::Absolute, 4)),
        0xAA => Some((Op::Tax, Mode::Implied, 2)),
        0x8A => Some((Op::Txa, Mode::Implied, 2)),
        0xA8 => Some((Op::Tay, Mode::Implied, 2)),
        0x98 => Some((Op::Tya, Mode::Implied, 2)),
        0xBA => Some((Op::Tsx, Mode::Implied, 2)),
        0x9A => Some((Op::Txs, Mode::Implied, 2)),
        _ => None,
    }
}

/// Whether `opcode` belongs to the documented instruction set.
pub fn is_documented(opcode: u8) -> (r: bool)
    ensures
        r == (decode(opcode) is Some),
{
    lookup_instruction(opcode).is_some()
}

/// The operation, addressing mode and base cycle count of a documented
/// opcode.
pub fn decode_instruction(opcode: u8) -> (r: (Op, Mode, u32))
    requires
        decode(opcode) is Some,
    ensures
        Some(r) == decode(opcode),
        r.2 <= 7,
{
    match lookup_instruction(opcode) {
        Some(r) => r,
        None => {
            assert(false);
            (Op::Nop, Mode::Implied, 2)
        },
    }
}

} // verus!
