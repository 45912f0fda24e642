//! The execution trace format: one line per instruction with its bytes,
//! its disassembly and the registers, and the parsing of such lines.
use vstd::prelude::*;

use crate::emulator::cpu::decode::{decode, decode_instruction, Mode, Op};
use crate::emulator::cpu::semantics::CpuState;
use crate::emulator::cpu::{peeked_instruction, CPU};
use crate::emulator::memory::{Reader, Writer};

verus! {

/// Appends `c` to `s` (std's `String::push`).
#[verifier::external_body]
fn push_char(s: &mut String, c: char)
    ensures
        final(s)@ == old(s)@.push(c),
{
    s.push(c);
}

/// The upper-case hexadecimal digit of `n` (below 16).
pub open spec fn hex_digit(n: int) -> char {
    if 0 <= n < 10 {
        ((48 + n) as u32) as char
    } else {
        ((55 + n) as u32) as char
    }
}

pub fn hex_digit_char(n: u8) -> (c: char)
    requires
        n < 16,
    ensures
        c == hex_digit(n as int),
{
    match n {
        0 => '0',
        1 => '1',
        2 => '2',
        3 => '3',
        4 => '4',
        5 => '5',
        6 => '6',
        7 => '7',
        8 => '8',
        9 => '9',
        10 => 'A',
        11 => 'B',
        12 => 'C',
        13 => 'D',
        14 => 'E',
        15 => 'F',
        _ => 'F',
    }
}

/// A byte as two upper-case hexadecimal digits.
pub open spec fn hex2(b: u8) -> Seq<char> {
    seq![hex_digit((b / 16) as int), hex_digit((b % 16) as int)]
}

fn push_hex2(s: &mut String, b: u8)
    ensures
        final(s)@ == old(s)@ + hex2(b),
{
    push_char(s, hex_digit_char(b / 16));
    push_char(s, hex_digit_char(b % 16));
    assert(final(s)@ =~= old(s)@ + hex2(b));
}

fn push_str_chars(s: &mut String, cs: &[char])
    ensures
        final(s)@ == old(s)@ + cs@,
{
    let mut i: usize = 0;
    while i < cs.len()
        invariant
            i <= cs@.len(),
            s@ == old(s)@ + cs@.subrange(0, i as int),
        decreases cs.len() - i,
    {
        push_char(s, cs[i]);
        i = i + 1;
        assert(s@ =~= old(s)@ + cs@.subrange(0, i as int));
    }
    assert(cs@.subrange(0, cs@.len() as int) =~= cs@);
}

/// The three-letter mnemonic of an operation.
pub open spec fn mnemonic(op: Op) -> (char, char, char) {
    match op {
        Op::Adc => ('A', 'D', 'C'),
        Op::And => ('A', 'N', 'D'),
        Op::Asl => ('A', 'S', 'L'),
        Op::Asla => ('A', 'S', 'L'),
        Op::Bcc => ('B', 'C', 'C'),
        Op::Bcs => ('B', 'C', 'S'),
        Op::Beq => ('B', 'E', 'Q'),
        Op::Bit => ('B', 'I', 'T'),
        Op::Bmi => ('B', 'M', 'I'),
        Op::Bne => ('B', 'N', 'E'),
        Op::Bpl => ('B', 'P', 'L'),
        Op::Brk => ('B', 'R', 'K'),
        Op::Bvc => ('B', 'V', 'C'),
        Op::Bvs => ('B', 'V', 'S'),
        Op::Clc => ('C', 'L', 'C'),
        Op::Cld => ('C', 'L', 'D'),
        Op::Cli => ('C', 'L', 'I'),
        Op::Clv => ('C', 'L', 'V'),
        Op::Cmp => ('C', 'M', 'P'),
        Op::Cpx => ('C', 'P', 'X'),
        Op::Cpy => ('C', 'P', 'Y'),
        Op::Dec => ('D', 'E', 'C'),
        Op::Dex => ('D', 'E', 'X'),
        Op::Dey => ('D', 'E', 'Y'),
        Op::Eor => ('E', 'O', 'R'),
        Op::Inc => ('I', 'N', 'C'),
        Op::Inx => ('I', 'N', 'X'),
        Op::Iny => ('I', 'N', 'Y'),
        Op::Jmp => ('J', 'M', 'P'),
        Op::Jsr => ('J', 'S', 'R'),
        Op::Lda => ('L', 'D', 'A'),
        Op::Ldx => ('L', 'D', 'X'),
        Op::Ldy => ('L', 'D', 'Y'),
        Op::Lsr => ('L', 'S', 'R'),
        Op::Lsra => ('L', 'S', 'R'),
        Op::Nop => ('N', 'O', 'P'),
        Op::Ora => ('O', 'R', 'A'),
        Op::Pha => ('P', 'H', 'A'),
        Op::Php => ('P', 'H', 'P'),
        Op::Pla => ('P', 'L', 'A'),
        Op::Plp => ('P', 'L', 'P'),
        Op::Rol => ('R', 'O', 'L'),
        Op::Rola => ('R', 'O', 'L'),
        Op::Ror => ('R', 'O', 'R'),
        Op::Rora => ('R', 'O', 'R'),
        Op::Rti => ('R', 'T', 'I'),
        Op::Rts => ('R', 'T', 'S'),
        Op::Sbc => ('S', 'B', 'C'),
        Op::Sec => ('S', 'E', 'C'),
        Op::Sed => ('S', 'E', 'D'),
        Op::Sei => ('S', 'E', 'I'),
        Op::Sta => ('S', 'T', 'A'),
        Op::Stx => ('S', 'T', 'X'),
        Op::Sty => ('S', 'T', 'Y'),
        Op::Tax => ('T', 'A', 'X'),
        Op::Tay => ('T', 'A', 'Y'),
        Op::Tsx => ('T', 'S', 'X'),
        Op::Txa => ('T', 'X', 'A'),
        Op::Txs => ('T', 'X', 'S'),
        Op::Tya => ('T', 'Y', 'A'),
    }
}

fn mnemonic_chars(op: Op) -> (m: (char, char, char))
    ensures
        m == mnemonic(op),
{
    match op {
        Op::Adc => ('A', 'D', 'C'),
        Op::And => ('A', 'N', 'D'),
        Op::Asl => ('A', 'S', 'L'),
        Op::Asla => ('A', 'S', 'L'),
        Op::Bcc => ('B', 'C', 'C'),
        Op::Bcs => ('B', 'C', 'S'),
        Op::Beq => ('B', 'E', 'Q'),
        Op::Bit => ('B', 'I', 'T'),
        Op::Bmi => ('B', 'M', 'I'),
        Op::Bne => ('B', 'N', 'E'),
        Op::Bpl => ('B', 'P', 'L'),
        Op::Brk => ('B', 'R', 'K'),
        Op::Bvc => ('B', 'V', 'C'),
        Op::Bvs => ('B', 'V', 'S'),
        Op::Clc => ('C', 'L', 'C'),
        Op::Cld => ('C', 'L', 'D'),
        Op::Cli => ('C', 'L', 'I'),
        Op::Clv => ('C', 'L', 'V'),
        Op::Cmp => ('C', 'M', 'P'),
        Op::Cpx => ('C', 'P', 'X'),
        Op::Cpy => ('C', 'P', 'Y'),
        Op::Dec => ('D', 'E', 'C'),
        Op::Dex => ('D', 'E', 'X'),
        Op::Dey => ('D', 'E', 'Y'),
        Op::Eor => ('E', 'O', 'R'),
        Op::Inc => ('I', 'N', 'C'),
        Op::Inx => ('I', 'N', 'X'),
        Op::Iny => ('I', 'N', 'Y'),
        Op::Jmp => ('J', 'M', 'P'),
        Op::Jsr => ('J', 'S', 'R'),
        Op::Lda => ('L', 'D', 'A'),
        Op::Ldx => ('L', 'D', 'X'),
        Op::Ldy => ('L', 'D', 'Y'),
        Op::Lsr => ('L', 'S', 'R'),
        Op::Lsra => ('L', 'S', 'R'),
        Op::Nop => ('N', 'O', 'P'),
        Op::Ora => ('O', 'R', 'A'),
        Op::Pha => ('P', 'H', 'A'),
        Op::Php => ('P', 'H', 'P'),
        Op::Pla => ('P', 'L', 'A'),
        Op::Plp => ('P', 'L', 'P'),
        Op::Rol => ('R', 'O', 'L'),
        Op::Rola => ('R', 'O', 'L'),
        Op::Ror => ('R', 'O', 'R'),
        Op::Rora => ('R', 'O', 'R'),
        Op::Rti => ('R', 'T', 'I'),
        Op::Rts => ('R', 'T', 'S'),
        Op::Sbc => ('S', 'B', 'C'),
        Op::Sec => ('S', 'E', 'C'),
        Op::Sed => ('S', 'E', 'D'),
        Op::Sei => ('S', 'E', 'I'),
        Op::Sta => ('S', 'T', 'A'),
        Op::Stx => ('S', 'T', 'X'),
        Op::Sty => ('S', 'T', 'Y'),
        Op::Tax => ('T', 'A', 'X'),
        Op::Tay => ('T', 'A', 'Y'),
        Op::Tsx => ('T', 'S', 'X'),
        Op::Txa => ('T', 'X', 'A'),
        Op::Txs => ('T', 'X', 'S'),
        Op::Tya => ('T', 'Y', 'A'),
    }
}

/// How many operand bytes the disassembly of `mode` shows.
pub open spec fn operand_count(mode: Mode) -> int {
    match mode {
        Mode::Implied => 0,
        Mode::Absolute | Mode::AbsoluteX | Mode::AbsoluteY | Mode::Indirect => 2,
        _ => 1,
    }
}

/// The operand in assembler notation; `b1` is the first operand byte, `b2`
/// the second (the high byte of an address).
pub open spec fn operand_text(mode: Mode, b1: u8, b2: u8) -> Seq<char> {
    match mode {
        Mode::Implied => seq![],
        Mode::Immediate => seq!['#', '$'] + hex2(b1),
        Mode::ZeroPage | Mode::Relative => seq!['$'] + hex2(b1),
        Mode::ZeroPageX => seq!['$'] + hex2(b1) + seq![',', 'X'],
        Mode::ZeroPageY => seq!['$'] + hex2(b1) + seq![',', 'Y'],
        Mode::Absolute => seq!['$'] + hex2(b2) + hex2(b1),
        Mode::AbsoluteX => seq!['$'] + hex2(b2) + hex2(b1) + seq![',', 'X'],
        Mode::AbsoluteY => seq!['$'] + hex2(b2) + hex2(b1) + seq![',', 'Y'],
        Mode::IndexedIndirect => seq!['(', '$'] + hex2(b1) + seq![',', 'X', ')'],
        Mode::IndirectIndexed => seq!['(', '$'] + hex2(b1) + seq![')', ',', 'Y'],
        Mode::Indirect => seq!['(', '$'] + hex2(b2) + hex2(b1) + seq![')'],
    }
}

/// `s` left-aligned in a field of `width` spaces.
pub open spec fn padded(s: Seq<char>, width: int) -> Seq<char> {
    if s.len() < width {
        s + Seq::new((width - s.len()) as nat, |i: int| ' ')
    } else {
        s
    }
}

/// `n` spaces.
pub open spec fn spaces(n: nat) -> Seq<char> {
    Seq::new(n, |i: int| ' ')
}

/// The disassembly of an instruction: its bytes in hex (blank where it has
/// fewer), its mnemonic and its operand, padded to 28 characters.
pub open spec fn formatted_instruction(opcode: u8, b1: u8, b2: u8) -> Seq<char> {
    let (op, mode, cycles) = decode(opcode).unwrap();
    let n = operand_count(mode);
    let (c0, c1, c2) = mnemonic(op);
    hex2(opcode) + seq![' '] + (if n >= 1 {
        hex2(b1) + seq![' ']
    } else {
        spaces(3)
    }) + (if n >= 2 {
        hex2(b2) + spaces(2)
    } else {
        spaces(4)
    }) + seq![c0, c1, c2, ' '] + padded(operand_text(mode, b1, b2), 28)
}

/// The layout of a disassembly: 42 characters; the opcode's two hex digits
/// first, then each operand byte in the order it follows the opcode; then,
/// from column 14, the operand in assembler notation, where a two-byte
/// operand reads as the address `b2 * 256 + b1`, written most significant
/// digit first.
pub proof fn law_disassembly_layout(opcode: u8, b1: u8, b2: u8)
    requires
        decode(opcode) is Some,
    ensures
        ({
            let t = formatted_instruction(opcode, b1, b2);
            let mode = decode(opcode).unwrap().1;
            let addr = b2 as int * 256 + b1 as int;
            &&& t.len() == 42
            &&& t[0] == hex_digit(opcode as int / 16) && t[1] == hex_digit(opcode as int % 16)
            &&& operand_count(mode) >= 1 ==> t[3] == hex_digit(b1 as int / 16) && t[4]
                == hex_digit(b1 as int % 16)
            &&& operand_count(mode) >= 2 ==> t[6] == hex_digit(b2 as int / 16) && t[7]
                == hex_digit(b2 as int % 16)
            &&& (mode == Mode::Absolute || mode == Mode::AbsoluteX || mode == Mode::AbsoluteY)
                ==> {
                &&& t[14] == '$'
                &&& t[15] == hex_digit(addr / 4096)
                &&& t[16] == hex_digit((addr / 256) % 16)
                &&& t[17] == hex_digit((addr / 16) % 16)
                &&& t[18] == hex_digit(addr % 16)
            }
            &&& mode == Mode::Indirect ==> {
                &&& t[14] == '(' && t[15] == '$'
                &&& t[16] == hex_digit(addr / 4096)
                &&& t[17] == hex_digit((addr / 256) % 16)
                &&& t[18] == hex_digit((addr / 16) % 16)
                &&& t[19] == hex_digit(addr % 16)
                &&& t[20] == ')'
            }
            &&& mode == Mode::Immediate ==> t[14] == '#' && t[15] == '$' && t[16] == hex_digit(
                b1 as int / 16,
            ) && t[17] == hex_digit(b1 as int % 16)
            &&& (mode == Mode::ZeroPage || mode == Mode::Relative) ==> t[14] == '$' && t[15]
                == hex_digit(b1 as int / 16) && t[16] == hex_digit(b1 as int % 16)
        }),
{
    let (op, mode, cycles) = decode(opcode).unwrap();
    let n = operand_count(mode);
    let (c0, c1, c2) = mnemonic(op);
    let first = if n >= 1 {
        hex2(b1) + seq![' ']
    } else {
        spaces(3)
    };
    let second = if n >= 2 {
        hex2(b2) + spaces(2)
    } else {
        spaces(4)
    };
    let head = hex2(opcode) + seq![' '] + first + seq![c0, c1, c2, ' '];
    let pre = hex2(opcode) + seq![' '] + first + second + seq![c0, c1, c2, ' '];
    let ot = operand_text(mode, b1, b2);
    assert(ot.len() <= 28);
    let tail = padded(ot, 28);
    assert(tail.len() == 28);
    assert(pre.len() == 14);
    let t = formatted_instruction(opcode, b1, b2);
    assert(t == pre + tail);
    assert forall|i: int| 0 <= i < ot.len() implies #[trigger] t[14 + i] == ot[i] by {
        assert(t[14 + i] == tail[i]);
    }
    let addr = b2 as int * 256 + b1 as int;
    assert(addr / 4096 == b2 as int / 16 && (addr / 256) % 16 == b2 as int % 16 && (addr / 16)
        % 16 == b1 as int / 16 && addr % 16 == b1 as int % 16);
    assert(t[0] == pre[0] && t[1] == pre[1] && t[3] == pre[3] && t[4] == pre[4] && t[6] == pre[6]
        && t[7] == pre[7]);
    if mode == Mode::Absolute || mode == Mode::AbsoluteX || mode == Mode::AbsoluteY {
        assert(t[14int] == ot[0int] && t[15int] == ot[1int] && t[16int] == ot[2int] && t[17int] == ot[3int]
            && t[18int] == ot[4int]);
    }
    if mode == Mode::Indirect {
        assert(t[14int] == ot[0int] && t[15int] == ot[1int] && t[16int] == ot[2int] && t[17int] == ot[3int]
            && t[18int] == ot[4int] && t[19int] == ot[5int] && t[20int] == ot[6int]);
    }
    if mode == Mode::Immediate {
        assert(t[14int] == ot[0int] && t[15int] == ot[1int] && t[16int] == ot[2int] && t[17int]
            == ot[3int]);
    }
    if mode == Mode::ZeroPage || mode == Mode::Relative {
        assert(t[14int] == ot[0int] && t[15int] == ot[1int] && t[16int] == ot[2int]);
    }
}

fn push_spaces(s: &mut String, n: usize)
    ensures
        final(s)@ == old(s)@ + spaces(n as nat),
{
    let mut i: usize = 0;
    while i < n
        invariant
            i <= n,
            s@ == old(s)@ + spaces(i as nat),
        decreases n - i,
    {
        push_char(s, ' ');
        i = i + 1;
        assert(s@ =~= old(s)@ + spaces(i as nat));
    }
}

fn push_operand(s: &mut String, mode: Mode, b1: u8, b2: u8) -> (len: usize)
    ensures
        final(s)@ == old(s)@ + operand_text(mode, b1, b2),
        len == operand_text(mode, b1, b2).len(),
{
    match mode {
        Mode::Implied => {
            assert(operand_text(mode, b1, b2) =~= seq![]);
            0
        },
        Mode::Immediate => {
            push_str_chars(s, &['#', '$']);
            push_hex2(s, b1);
            4
        },
        Mode::ZeroPage | Mode::Relative => {
            push_char(s, '$');
            push_hex2(s, b1);
            3
        },
        Mode::ZeroPageX => {
            push_char(s, '$');
            push_hex2(s, b1);
            push_str_chars(s, &[',', 'X']);
            5
        },
        Mode::ZeroPageY => {
            push_char(s, '$');
            push_hex2(s, b1);
            push_str_chars(s, &[',', 'Y']);
            5
        },
        Mode::Absolute => {
            push_char(s, '$');
            push_hex2(s, b2);
            push_hex2(s, b1);
            5
        },
        Mode::AbsoluteX => {
            push_char(s, '$');
            push_hex2(s, b2);
            push_hex2(s, b1);
            push_str_chars(s, &[',', 'X']);
            7
        },
        Mode::AbsoluteY => {
            push_char(s, '$');
            push_hex2(s, b2);
            push_hex2(s, b1);
            push_str_chars(s, &[',', 'Y']);
            7
        },
        Mode::IndexedIndirect => {
            push_str_chars(s, &['(', '$']);
            push_hex2(s, b1);
            push_str_chars(s, &[',', 'X', ')']);
            7
        },
        Mode::IndirectIndexed => {
            push_str_chars(s, &['(', '$']);
            push_hex2(s, b1);
            push_str_chars(s, &[')', ',', 'Y']);
            7
        },
        Mode::Indirect => {
            push_str_chars(s, &['(', '$']);
            push_hex2(s, b2);
            push_hex2(s, b1);
            push_char(s, ')');
            7
        },
    }
}

/// The disassembly of an instruction from its opcode and the two bytes after it.
pub fn format_instruction(opcode: u8, b1: u8, b2: u8) -> (output: String)
    requires
        decode(opcode) is Some,
    ensures
        output@ == formatted_instruction(opcode, b1, b2),
{
    let (op, mode, _) = decode_instruction(opcode);
    let num_args: u8 = match mode {
        Mode::Implied => 0,
        Mode::Absolute | Mode::AbsoluteX | Mode::AbsoluteY | Mode::Indirect => 2,
        _ => 1,
    };
    let mut output = String::new();
    push_hex2(&mut output, opcode);
    push_char(&mut output, ' ');
    if num_args >= 1 {
        push_hex2(&mut output, b1);
        push_char(&mut output, ' ');
    } else {
        push_spaces(&mut output, 3);
    }
    if num_args >= 2 {
        push_hex2(&mut output, b2);
        push_spaces(&mut output, 2);
    } else {
        push_spaces(&mut output, 4);
    }
    let (c0, c1, c2) = mnemonic_chars(op);
    push_str_chars(&mut output, &[c0, c1, c2, ' ']);
    let len = push_operand(&mut output, mode, b1, b2);
    if len < 28 {
        push_spaces(&mut output, 28 - len);
    }
    let ghost pre = hex2(opcode) + seq![' '];
    assert(output@ =~= formatted_instruction(opcode, b1, b2));
    output
}


/// The registers as the trace shows them.
pub open spec fn registers_text(a: u8, x: u8, y: u8, p: u8, sp: u8) -> Seq<char> {
    seq!['A', ':'] + hex2(a) + seq![' ', 'X', ':'] + hex2(x) + seq![' ', 'Y', ':'] + hex2(y) + seq![
        ' ',
        'P',
        ':',
    ] + hex2(p) + seq![' ', 'S', 'P', ':'] + hex2(sp)
}

fn push_registers(s: &mut String, a: u8, x: u8, y: u8, p: u8, sp: u8)
    ensures
        final(s)@ == old(s)@ + registers_text(a, x, y, p, sp),
{
    push_str_chars(s, &['A', ':']);
    push_hex2(s, a);
    push_str_chars(s, &[' ', 'X', ':']);
    push_hex2(s, x);
    push_str_chars(s, &[' ', 'Y', ':']);
    push_hex2(s, y);
    push_str_chars(s, &[' ', 'P', ':']);
    push_hex2(s, p);
    push_str_chars(s, &[' ', 'S', 'P', ':']);
    push_hex2(s, sp);
    assert(final(s)@ =~= old(s)@ + registers_text(a, x, y, p, sp));
}

/// The trace line of a recorded frame `[a, x, y, sp, pch, pcl, p, opcode,
/// arg1, arg2]`: the program counter, the disassembly and the registers. A
/// frame of any other length gives no text.
pub open spec fn trace_frame_text(frame: Seq<u8>) -> Seq<char> {
    if frame.len() == 10 {
        hex2(frame[4]) + hex2(frame[5]) + spaces(2) + formatted_instruction(
            frame[7],
            frame[8],
            frame[9],
        ) + registers_text(frame[0], frame[1], frame[2], frame[6], frame[3])
    } else {
        seq![]
    }
}

pub fn format_trace_frame(frame: &[u8]) -> (text: String)
    requires
        frame@.len() == 10 ==> decode(frame@[7]) is Some,
    ensures
        text@ == trace_frame_text(frame@),
{
    let mut text = String::new();
    if frame.len() == 10 {
        push_hex2(&mut text, frame[4]);
        push_hex2(&mut text, frame[5]);
        push_spaces(&mut text, 2);
        let instruction = format_instruction(frame[7], frame[8], frame[9]);
        text.append(instruction.as_str());
        push_registers(&mut text, frame[0], frame[1], frame[2], frame[6], frame[3]);
    }
    text
}

/// The trace line of the next instruction: its address and bytes, its
/// disassembly padded to 32 characters, and the registers.
pub open spec fn trace_line_text(
    pc: u16,
    peeked: (u8, Option<u8>, Option<u8>),
    a: u8,
    x: u8,
    y: u8,
    p: u8,
    sp: u8,
) -> Seq<char> {
    let (opcode, b1, b2) = peeked;
    hex2((pc / 256) as u8) + hex2((pc % 256) as u8) + spaces(2) + hex2(opcode) + seq![' ']
        + match b1 {
        Some(b) => hex2(b) + seq![' '],
        None => spaces(3),
    } + match b2 {
        Some(b) => hex2(b) + spaces(2),
        None => spaces(4),
    } + padded(
        formatted_instruction(
            opcode,
            match b1 {
                Some(b) => b,
                None => 0,
            },
            match b2 {
                Some(b) => b,
                None => 0,
            },
        ),
        32,
    ) + registers_text(a, x, y, p, sp)
}

impl<M: Writer> CPU<M> {
    /// The trace line of the next instruction (see `peek_next_instruction`
    /// for what finding its bytes does to the bus).
    pub fn trace_line(&mut self) -> (line: String)
        requires
            old(self).wf(),
            decode(M::peek(old(self).memory@, old(self).pc)) is Some,
        ensures
            final(self).wf(),
            final(self).state() == peeked_instruction::<M>(old(self).state()).0,
            line@ == trace_line_text(
                old(self).pc,
                peeked_instruction::<M>(old(self).state()).1,
                old(self).a,
                old(self).x,
                old(self).y,
                old(self).p@,
                old(self).sp,
            ),
    {
        let (opcode, b1, b2) = self.peek_next_instruction();
        let mut line = String::new();
        push_hex2(&mut line, (self.pc / 256) as u8);
        push_hex2(&mut line, (self.pc % 256) as u8);
        push_spaces(&mut line, 2);
        push_hex2(&mut line, opcode);
        push_char(&mut line, ' ');
        match b1 {
            Some(b) => {
                push_hex2(&mut line, b);
                push_char(&mut line, ' ');
            },
            None => push_spaces(&mut line, 3),
        }
        match b2 {
            Some(b) => {
                push_hex2(&mut line, b);
                push_spaces(&mut line, 2);
            },
            None => push_spaces(&mut line, 4),
        }
        let instruction = format_instruction(
            opcode,
            match b1 {
                Some(b) => b,
                None => 0,
            },
            match b2 {
                Some(b) => b,
                None => 0,
            },
        );
        proof {
            assert(formatted_instruction(opcode, 0, 0).len() >= 10);
        }
        line.append(instruction.as_str());
        let p = self.p.as_byte();
        push_registers(&mut line, self.a, self.x, self.y, p, self.sp);
        line
    }
}

/// Hexadecimal digits read back: each digit that the formatter writes is
/// read by the parser as the number it was written for.
pub proof fn law_hex_digit_round_trip(n: int)
    requires
        0 <= n < 16,
    ensures
        digit_value(hex_digit(n), 16) == n,
        n < 10 ==> digit_value(hex_digit(n), 10) == n,
{
}

/// A byte written as two hexadecimal digits reads back as itself.
pub proof fn law_hex_byte_round_trip(b: u8)
    ensures
        parses_in_radix(hex2(b), 16),
        radix_value(hex2(b), 16) == b,
{
    law_hex_digit_round_trip(b as int / 16);
    law_hex_digit_round_trip(b as int % 16);
    let t = hex2(b);
    assert(unsigned_digits(t) == t);
    assert(t.drop_last().drop_last() =~= Seq::<char>::empty());
    assert(t.drop_last().last() == t[0]);
    reveal_with_fuel(digits_value, 3);
}

/// The fields the parser reads are those the trace writes: a line that
/// starts with the program counter in four hexadecimal digits gives it back
/// from its first field, and one whose registers stand from column 48 on
/// gives back A, X, Y, P and SP from their fields.
pub proof fn law_trace_fields_round_trip(
    pc: u16,
    middle: Seq<char>,
    a: u8,
    x: u8,
    y: u8,
    p: u8,
    sp: u8,
)
    requires
        middle.len() == 44,
    ensures
        ({
            let line = hex2((pc / 256) as u8) + hex2((pc % 256) as u8) + middle + registers_text(
                a,
                x,
                y,
                p,
                sp,
            );
            &&& hex_field(line, 0, 4) && radix_value(line.subrange(0, 4), 16) == pc
            &&& hex_field(line, 50, 52) && radix_value(line.subrange(50, 52), 16) == a
            &&& hex_field(line, 55, 57) && radix_value(line.subrange(55, 57), 16) == x
            &&& hex_field(line, 60, 62) && radix_value(line.subrange(60, 62), 16) == y
            &&& hex_field(line, 65, 67) && radix_value(line.subrange(65, 67), 16) == p
            &&& hex_field(line, 71, 73) && radix_value(line.subrange(71, 73), 16) == sp
        }),
{
    let hi = (pc / 256) as u8;
    let lo = (pc % 256) as u8;
    let line = hex2(hi) + hex2(lo) + middle + registers_text(a, x, y, p, sp);
    law_hex_byte_round_trip(a);
    law_hex_byte_round_trip(x);
    law_hex_byte_round_trip(y);
    law_hex_byte_round_trip(p);
    law_hex_byte_round_trip(sp);
    assert(line.subrange(50, 52) =~= hex2(a));
    assert(line.subrange(55, 57) =~= hex2(x));
    assert(line.subrange(60, 62) =~= hex2(y));
    assert(line.subrange(65, 67) =~= hex2(p));
    assert(line.subrange(71, 73) =~= hex2(sp));
    let f = line.subrange(0, 4);
    assert(f =~= hex2(hi) + hex2(lo));
    law_hex_digit_round_trip(hi as int / 16);
    law_hex_digit_round_trip(hi as int % 16);
    law_hex_digit_round_trip(lo as int / 16);
    law_hex_digit_round_trip(lo as int % 16);
    assert(unsigned_digits(f) == f);
    assert(f.drop_last().drop_last().drop_last().drop_last() =~= Seq::<char>::empty());
    assert(f.drop_last().drop_last().drop_last() =~= seq![f[0]]);
    assert(f.drop_last().drop_last() =~= seq![f[0], f[1]]);
    assert(f.drop_last() =~= seq![f[0], f[1], f[2]]);
    reveal_with_fuel(digits_value, 5);
}

/// The value of `c` as a digit in `radix` (10 or 16, either case), or -1.
pub open spec fn digit_value(c: char, radix: int) -> int {
    if '0' <= c <= '9' && (c as int) - 48 < radix {
        (c as int) - 48
    } else if radix == 16 && 'a' <= c <= 'f' {
        (c as int) - 87
    } else if radix == 16 && 'A' <= c <= 'F' {
        (c as int) - 55
    } else {
        -1
    }
}

/// The number written by the digits `s` in `radix`.
pub open spec fn digits_value(s: Seq<char>, radix: int) -> int
    decreases s.len(),
{
    if s.len() == 0 {
        0
    } else {
        digits_value(s.drop_last(), radix) * radix + digit_value(s.last(), radix)
    }
}

/// `s` without a leading `+`.
pub open spec fn unsigned_digits(s: Seq<char>) -> Seq<char> {
    if s.len() > 0 && s[0] == '+' {
        s.drop_first()
    } else {
        s
    }
}

/// Whether `s` reads as an unsigned number in `radix`: an optional `+`, then
/// one or more digits.
pub open spec fn parses_in_radix(s: Seq<char>, radix: int) -> bool {
    let t = unsigned_digits(s);
    t.len() > 0 && forall|i: int| 0 <= i < t.len() ==> digit_value(#[trigger] t[i], radix) >= 0
}

/// The number `s` reads as in `radix`.
pub open spec fn radix_value(s: Seq<char>, radix: int) -> int {
    digits_value(unsigned_digits(s), radix)
}

pub open spec fn power(radix: int, n: nat) -> int
    decreases n,
{
    if n == 0 {
        1
    } else {
        power(radix, (n - 1) as nat) * radix
    }
}

proof fn lemma_digit_step(acc: int, radix: int, d: int, k: nat)
    requires
        0 <= acc < power(radix, k),
        0 <= d < radix,
        radix > 0,
    ensures
        0 <= acc * radix + d < power(radix, k + 1),
{
    assert(power(radix, k + 1) == power(radix, k) * radix);
    assert(acc * radix + d < power(radix, k) * radix) by (nonlinear_arith)
        requires
            0 <= acc < power(radix, k),
            0 <= d < radix,
    ;
    assert(0 <= acc * radix) by (nonlinear_arith)
        requires
            0 <= acc,
            radix > 0,
    ;
}

fn char_digit(c: char, radix: u64) -> (d: u64)
    requires
        radix == 10 || radix == 16,
        digit_value(c, radix as int) >= 0,
    ensures
        d == digit_value(c, radix as int),
{
    if '0' <= c && c <= '9' {
        (c as u64) - 48
    } else if 'a' <= c && c <= 'f' {
        (c as u64) - 87
    } else {
        (c as u64) - 55
    }
}

/// Parses the characters `from..to` of an ASCII line as an unsigned number in
/// `radix`, the way `from_str_radix` does.
fn parse_field(line: &str, from: usize, to: usize, radix: u64) -> (value: u64)
    requires
        radix == 10 || radix == 16,
        from <= to <= line@.len(),
        to - from <= 4,
        parses_in_radix(line@.subrange(from as int, to as int), radix as int),
    ensures
        value == radix_value(line@.subrange(from as int, to as int), radix as int),
{
    let ghost s = line@.subrange(from as int, to as int);
    let mut i = from;
    if line.get_char(from) == '+' {
        i = from + 1;
    }
    let ghost start = i;
    assert(unsigned_digits(s) =~= line@.subrange(start as int, to as int));
    assert forall|k: int| start <= k < to implies digit_value(#[trigger] line@[k], radix as int) >= 0 by {
        assert(unsigned_digits(s)[k - start] == line@[k]);
    }
    assert(line@.subrange(start as int, start as int) =~= Seq::<char>::empty());
    let mut acc: u64 = 0;
    while i < to
        invariant
            start <= i <= to <= line@.len(),
            to - start <= 4,
            radix == 10 || radix == 16,
            forall|k: int| start <= k < to ==> digit_value(#[trigger] line@[k], radix as int) >= 0,
            acc == digits_value(line@.subrange(start as int, i as int), radix as int),
            acc < power(radix as int, (i - start) as nat),
        decreases to - i,
    {
        let c = line.get_char(i);
        assert(c == line@[i as int]);
        let d = char_digit(c, radix);
        proof {
            lemma_digit_step(acc as int, radix as int, d as int, (i - start) as nat);
            assert(power(radix as int, 4) <= 65536) by {
                reveal_with_fuel(power, 5);
            }
            lemma_power_monotone(radix as int, (i + 1 - start) as nat, 4);
            assert(line@.subrange(start as int, (i + 1) as int).drop_last() =~= line@.subrange(
                start as int,
                i as int,
            ));
        }
        acc = acc * radix + d;
        i = i + 1;
    }
    acc
}

proof fn lemma_power_monotone(radix: int, a: nat, b: nat)
    requires
        radix >= 1,
        a <= b,
    ensures
        power(radix, a) <= power(radix, b),
    decreases b,
{
    if a < b {
        lemma_power_monotone(radix, a, (b - 1) as nat);
        lemma_power_positive(radix, (b - 1) as nat);
        assert(power(radix, (b - 1) as nat) <= power(radix, (b - 1) as nat) * radix) by (nonlinear_arith)
            requires
                radix >= 1,
                power(radix, (b - 1) as nat) >= 1,
        ;
    }
}

proof fn lemma_power_positive(radix: int, n: nat)
    requires
        radix >= 1,
    ensures
        power(radix, n) >= 1,
    decreases n,
{
    if n > 0 {
        lemma_power_positive(radix, (n - 1) as nat);
        assert(power(radix, (n - 1) as nat) * radix >= 1) by (nonlinear_arith)
            requires
                radix >= 1,
                power(radix, (n - 1) as nat) >= 1,
        ;
    }
}

/// Whether the characters `from..to` of `line` hold a hexadecimal field.
pub open spec fn hex_field(line: Seq<char>, from: int, to: int) -> bool {
    to <= line.len() && parses_in_radix(line.subrange(from, to), 16)
}

/// The program counter field of a trace line.
pub fn parse_pc(line: &str) -> (pc: u16)
    requires
        hex_field(line@, 0, 4),
    ensures
        pc == radix_value(line@.subrange(0, 4), 16),
{
    let v = parse_field(line, 0, 4, 16);
    proof {
        lemma_value_bound(line@.subrange(0, 4), 16);
        lemma_power_monotone(16, unsigned_digits(line@.subrange(0, 4)).len(), 4);
        reveal_with_fuel(power, 5);
    }
    v as u16
}

/// The opcode field of a trace line.
pub fn parse_opcode(line: &str) -> (opcode: u8)
    requires
        hex_field(line@, 6, 8),
    ensures
        opcode == radix_value(line@.subrange(6, 8), 16),
{
    parse_byte(line, 6)
}

/// The first operand byte field of a trace line.
pub fn parse_instruction_byte_1(line: &str) -> (byte: u8)
    requires
        hex_field(line@, 9, 11),
    ensures
        byte == radix_value(line@.subrange(9, 11), 16),
{
    parse_byte(line, 9)
}

/// The second operand byte field of a trace line.
pub fn parse_instruction_byte_2(line: &str) -> (byte: u8)
    requires
        hex_field(line@, 12, 14),
    ensures
        byte == radix_value(line@.subrange(12, 14), 16),
{
    parse_byte(line, 12)
}

/// The accumulator field of a trace line.
pub fn parse_a(line: &str) -> (a: u8)
    requires
        hex_field(line@, 50, 52),
    ensures
        a == radix_value(line@.subrange(50, 52), 16),
{
    parse_byte(line, 50)
}

/// The X register field of a trace line.
pub fn parse_x(line: &str) -> (x: u8)
    requires
        hex_field(line@, 55, 57),
    ensures
        x == radix_value(line@.subrange(55, 57), 16),
{
    parse_byte(line, 55)
}

/// The Y register field of a trace line.
pub fn parse_y(line: &str) -> (y: u8)
    requires
        hex_field(line@, 60, 62),
    ensures
        y == radix_value(line@.subrange(60, 62), 16),
{
    parse_byte(line, 60)
}

/// The status register field of a trace line.
pub fn parse_p(line: &str) -> (p: u8)
    requires
        hex_field(line@, 65, 67),
    ensures
        p == radix_value(line@.subrange(65, 67), 16),
{
    parse_byte(line, 65)
}

/// The stack pointer field of a trace line.
pub fn parse_sp(line: &str) -> (sp: u8)
    requires
        hex_field(line@, 71, 73),
    ensures
        sp == radix_value(line@.subrange(71, 73), 16),
{
    parse_byte(line, 71)
}

/// Parses the two hexadecimal characters at `from`.
fn parse_byte(line: &str, from: usize) -> (byte: u8)
    requires
        from <= 71,
        hex_field(line@, from as int, from + 2),
    ensures
        byte == radix_value(line@.subrange(from as int, from + 2), 16),
{
    let v = parse_field(line, from, from + 2, 16);
    proof {
        lemma_value_bound(line@.subrange(from as int, from + 2), 16);
        lemma_power_monotone(16, unsigned_digits(line@.subrange(from as int, from + 2)).len(), 2);
        reveal_with_fuel(power, 3);
    }
    v as u8
}

proof fn lemma_value_bound(s: Seq<char>, radix: int)
    requires
        parses_in_radix(s, radix),
        radix == 10 || radix == 16,
    ensures
        0 <= radix_value(s, radix) < power(radix, unsigned_digits(s).len()),
{
    lemma_digits_bound(unsigned_digits(s), radix);
}

proof fn lemma_digits_bound(t: Seq<char>, radix: int)
    requires
        forall|i: int| 0 <= i < t.len() ==> digit_value(#[trigger] t[i], radix) >= 0,
        radix == 10 || radix == 16,
    ensures
        0 <= digits_value(t, radix) < power(radix, t.len()),
    decreases t.len(),
{
    if t.len() > 0 {
        let u = t.drop_last();
        assert forall|i: int| 0 <= i < u.len() implies digit_value(#[trigger] u[i], radix) >= 0 by {
            assert(u[i] == t[i]);
        }
        lemma_digits_bound(u, radix);
        assert(digit_value(t.last(), radix) < radix);
        lemma_digit_step(digits_value(u, radix), radix, digit_value(t.last(), radix), u.len());
    }
}

/// Whether `c` is whitespace (the ASCII whitespace that `trim` removes).
pub open spec fn is_whitespace(c: char) -> bool {
    c == ' ' || ('\t' <= c <= '\r')
}

/// `s` without leading whitespace.
pub open spec fn trim_start(s: Seq<char>) -> Seq<char>
    decreases s.len(),
{
    if s.len() > 0 && is_whitespace(s[0]) {
        trim_start(s.drop_first())
    } else {
        s
    }
}

/// `s` without trailing whitespace.
pub open spec fn trim_end(s: Seq<char>) -> Seq<char>
    decreases s.len(),
{
    if s.len() > 0 && is_whitespace(s.last()) {
        trim_end(s.drop_last())
    } else {
        s
    }
}

pub open spec fn trimmed(s: Seq<char>) -> Seq<char> {
    trim_end(trim_start(s))
}

/// The cycle field of a trace line: characters 78..81, trimmed, in decimal.
pub fn parse_cyc(line: &str) -> (cyc: u64)
    requires
        81 <= line@.len(),
        parses_in_radix(trimmed(line@.subrange(78, 81)), 10),
    ensures
        cyc == radix_value(trimmed(line@.subrange(78, 81)), 10),
{
    let ghost s = line@.subrange(78, 81);
    let mut start: usize = 78;
    while start < 81 && is_whitespace_char(line.get_char(start))
        invariant
            78 <= start <= 81 <= line@.len(),
            s == line@.subrange(78, 81),
            trim_start(s) == trim_start(line@.subrange(start as int, 81)),
        decreases 81 - start,
    {
        assert(line@.subrange(start as int, 81).drop_first() =~= line@.subrange(start + 1, 81));
        start = start + 1;
    }
    assert(trim_start(s) == line@.subrange(start as int, 81));
    let mut end: usize = 81;
    while end > start && is_whitespace_char(line.get_char(end - 1))
        invariant
            78 <= start <= end <= 81 <= line@.len(),
            trimmed(s) == trim_end(line@.subrange(start as int, end as int)),
        decreases end - start,
    {
        assert(line@.subrange(start as int, end as int).drop_last() =~= line@.subrange(
            start as int,
            end - 1,
        ));
        end = end - 1;
    }
    assert(trimmed(s) == line@.subrange(start as int, end as int));
    parse_field(line, start, end, 10)
}

fn is_whitespace_char(c: char) -> (r: bool)
    ensures
        r == is_whitespace(c),
{
    c == ' ' || ('\t' <= c && c <= '\r')
}

} // verus!
