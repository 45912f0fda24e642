//! Byte-level helpers shared by the CPU and the mappers.
use vstd::prelude::*;

verus! {

/// The 16-bit word whose high byte is `high` and whose low byte is `low`.
pub open spec fn word_of(high: u8, low: u8) -> int {
    high * 256 + low
}

/// The byte with the bits of `b` in reverse order: bit `i` moves to bit `7 - i`.
pub open spec fn reversed_byte(b: u8) -> u8 {
    ((b & 0x01) << 7u8) | ((b & 0x02) << 5u8) | ((b & 0x04) << 3u8) | ((b & 0x08) << 1u8)
        | ((b & 0x10) >> 1u8) | ((b & 0x20) >> 3u8) | ((b & 0x40) >> 5u8) | ((b & 0x80) >> 7u8)
}

/// Whether both nibbles of `b` are decimal digits, i.e. `b` is a valid BCD byte.
pub open spec fn is_bcd(b: u8) -> bool {
    b / 16 <= 9 && b % 16 <= 9
}

/// The value of a BCD byte read as two decimal digits.
pub open spec fn bcd_value(b: u8) -> int {
    (b / 16) * 10 + b % 16
}

/// The BCD byte that encodes `n` (0..=99).
pub open spec fn bcd_encoding(n: u8) -> int {
    (n / 10) * 16 + n % 10
}

/// Arithmetic readings of the bit operations on a byte used here.
proof fn lemma_byte_ops(b: u8)
    ensures
        (b & 1) != 0 <==> b % 2 == 1,
        b >> 1u8 == b / 2,
        (b & 0x80) != 0 <==> b >= 128,
        b << 1u8 == (b * 2) % 256,
        (b >> 1u8) | 0x80 == b / 2 + 128,
        (b >> 1u8) | 0 == b / 2,
        (b << 1u8) | 1 == (b * 2) % 256 + 1,
        (b << 1u8) | 0 == (b * 2) % 256,
        b >> 4u8 == b / 16,
        b & 0x0F == b % 16,
        b >> 0u8 == b,
{
    assert(((b & 1) != 0 <==> b % 2 == 1) && (b >> 1u8 == b / 2) && ((b & 0x80) != 0 <==> b
        >= 128) && (b << 1u8 == (b * 2) % 256) && ((b >> 1u8) | 0x80 == b / 2 + 128) && ((b
        >> 1u8) | 0 == b / 2) && ((b << 1u8) | 1 == (b * 2) % 256 + 1) && ((b << 1u8) | 0 == (b
        * 2) % 256) && (b >> 4u8 == b / 16) && (b & 0x0F == b % 16) && (b >> 0u8 == b))
        by (bit_vector);
}

/// Arithmetic readings of the bit operations on a word used here.
proof fn lemma_word_ops(w: u16)
    ensures
        (w >> 8u16) == w / 256,
        (w & 0xFF) == w % 256,
{
    assert(((w >> 8u16) == w / 256) && ((w & 0xFF) == w % 256)) by (bit_vector);
}

pub fn combine_bytes(high: u8, low: u8) -> (word: u16)
    ensures
        word == word_of(high, low),
{
    assert(((high as u16) << 8u16) == high * 256) by (bit_vector);
    ((high as u16) << 8) + (low as u16)
}

/// Returns `(high, low)`.
pub fn split_word(word: u16) -> (bytes: (u8, u8))
    ensures
        bytes.0 == word / 256,
        bytes.1 == word % 256,
        word_of(bytes.0, bytes.1) == word,
{
    proof {
        lemma_word_ops(word);
    }
    ((word >> 8) as u8, (word & 0xFF) as u8)
}

/// Logical shift right; the carry is the bit shifted out.
pub fn shift_right(byte: u8) -> (r: (u8, bool))
    ensures
        r.0 == byte / 2,
        r.1 == (byte % 2 == 1),
{
    proof {
        lemma_byte_ops(byte);
    }
    let carry = (byte & 0b0000_0001) != 0;
    return (byte >> 1, carry);
}

/// Shift left; the carry is the bit shifted out.
pub fn shift_left(byte: u8) -> (r: (u8, bool))
    ensures
        r.0 == (byte * 2) % 256,
        r.1 == (byte >= 128),
{
    proof {
        lemma_byte_ops(byte);
    }
    let carry = (byte & 0b1000_0000) != 0;
    return (byte << 1, carry);
}

/// The byte and carry after a rotation right through the carry.
pub open spec fn rotated_right(byte: u8, carry: bool) -> (u8, bool) {
    ((byte / 2 + (if carry { 128int } else { 0int })) as u8, byte % 2 == 1)
}

/// The byte and carry after a rotation left through the carry.
pub open spec fn rotated_left(byte: u8, carry: bool) -> (u8, bool) {
    (((byte * 2) % 256 + (if carry { 1int } else { 0int })) as u8, byte >= 128)
}

/// Rotate right through the carry.
pub fn rotate_right(byte: u8, carry: bool) -> (r: (u8, bool))
    ensures
        r == rotated_right(byte, carry),
        r.0 == byte / 2 + (if carry { 128int } else { 0int }),
        r.1 == (byte % 2 == 1),
{
    proof {
        lemma_byte_ops(byte);
    }
    let new_carry = (byte & 0b0000_0001) != 0;
    let rot = (byte >> 1) | (if carry { 0b1000_0000 } else { 0 });
    return (rot, new_carry);
}

/// Rotate left through the carry.
pub fn rotate_left(byte: u8, carry: bool) -> (r: (u8, bool))
    ensures
        r == rotated_left(byte, carry),
        r.0 == (byte * 2) % 256 + (if carry { 1int } else { 0int }),
        r.1 == (byte >= 128),
{
    proof {
        lemma_byte_ops(byte);
    }
    let new_carry = (byte & 0b1000_0000) != 0;
    let rot = (byte << 1) | (if carry { 0b0000_0001 } else { 0 });
    return (rot, new_carry);
}

/// Reads a byte as two decimal digits; a nibble above 9 counts at face value.
pub fn bcd_to_hex(bcd: u8) -> (hex: u8)
    ensures
        hex == bcd_value(bcd),
{
    proof {
        lemma_byte_ops(bcd);
    }
    let high_nibble = bcd >> 4;
    let low_nibble = bcd & 0x0F;
    (high_nibble * 10) + low_nibble
}

/// Encodes `hex` (at most 99) as a BCD byte.
pub fn hex_to_bcd(hex: u8) -> (bcd: u8)
    requires
        hex <= 99,
    ensures
        bcd == bcd_encoding(hex),
        is_bcd(bcd),
{
    let tens = hex / 10;
    let units = hex % 10;
    assert(tens < 10);
    assert((tens << 4u8) | units == tens * 16 + units) by (bit_vector)
        requires
            tens < 10,
            units < 10,
    ;
    (tens << 4) | units
}

pub fn reverse_bits(byte: u8) -> (target: u8)
    ensures
        target == reversed_byte(byte),
{
    let mut byte = byte;
    let ghost orig = byte;
    let mut target: u8 = 0x00;
    let mut i: u8 = 0;
    proof {
        lemma_byte_ops(orig);
    }
    while i < 8
        invariant
            i <= 8,
            byte == orig >> i,
            target == reversed_prefix(orig, i as nat),
        decreases 8 - i,
    {
        proof {
            lemma_reversed_prefix_step(orig, i);
        }
        target = (target << 1) | (byte & 0x01);
        byte = byte >> 1;
        i = i + 1;
    }
    proof {
        lemma_reversed_prefix_full(orig);
    }
    target
}

/// The reversal of the lowest `n` bits of `b`, as built one bit at a time.
pub open spec fn reversed_prefix(b: u8, n: nat) -> u8
    decreases n,
{
    if n == 0 {
        0
    } else {
        ((reversed_prefix(b, (n - 1) as nat) << 1u8) | ((b >> ((n - 1) as u8)) & 1)) as u8
    }
}

proof fn lemma_reversed_prefix_step(b: u8, i: u8)
    requires
        i < 8,
    ensures
        reversed_prefix(b, (i + 1) as nat) == (reversed_prefix(b, i as nat) << 1u8) | ((b
            >> i) & 1),
        (b >> i) >> 1u8 == b >> ((i + 1) as u8),
{
    assert((b >> i) >> 1u8 == b >> ((i + 1) as u8)) by (bit_vector)
        requires
            i < 8,
    ;
}

proof fn lemma_reversed_prefix_full(b: u8)
    ensures
        reversed_prefix(b, 8) == reversed_byte(b),
{
    reveal_with_fuel(reversed_prefix, 9);
    let r1 = reversed_prefix(b, 1);
    let r2 = reversed_prefix(b, 2);
    let r3 = reversed_prefix(b, 3);
    let r4 = reversed_prefix(b, 4);
    let r5 = reversed_prefix(b, 5);
    let r6 = reversed_prefix(b, 6);
    let r7 = reversed_prefix(b, 7);
    let r8 = reversed_prefix(b, 8);
    assert(r8 == reversed_byte(b)) by (bit_vector)
        requires
            r1 == (0u8 << 1u8) | ((b >> 0u8) & 1),
            r2 == (r1 << 1u8) | ((b >> 1u8) & 1),
            r3 == (r2 << 1u8) | ((b >> 2u8) & 1),
            r4 == (r3 << 1u8) | ((b >> 3u8) & 1),
            r5 == (r4 << 1u8) | ((b >> 4u8) & 1),
            r6 == (r5 << 1u8) | ((b >> 5u8) & 1),
            r7 == (r6 << 1u8) | ((b >> 6u8) & 1),
            r8 == (r7 << 1u8) | ((b >> 7u8) & 1),
    ;
}

/// Splitting a word gives back the bytes it was combined from, and combining
/// the halves of a word gives back the word.
pub proof fn law_combine_then_split(high: u8, low: u8, word: u16)
    ensures
        word_of(high, low) / 256 == high,
        word_of(high, low) % 256 == low,
        word_of((word / 256) as u8, (word % 256) as u8) == word,
{
}

/// A rotation left undoes a rotation right, carry included, and the other
/// way round.
pub proof fn law_rotations_undo_each_other(byte: u8, carry: bool)
    ensures
        rotated_left(rotated_right(byte, carry).0, rotated_right(byte, carry).1) == (byte, carry),
        rotated_right(rotated_left(byte, carry).0, rotated_left(byte, carry).1) == (byte, carry),
{
}

/// Decoding the BCD encoding of a number below 100 gives the number back,
/// and encoding the value of a valid BCD byte gives the byte back.
pub proof fn law_bcd_round_trip(n: u8, b: u8)
    ensures
        n <= 99 ==> bcd_value(bcd_encoding(n) as u8) == n,
        n <= 99 ==> is_bcd(bcd_encoding(n) as u8),
        is_bcd(b) ==> bcd_encoding(bcd_value(b) as u8) == b,
{
}

/// Reversing the bits twice gives the byte back.
pub proof fn law_reverse_twice(b: u8)
    ensures
        reversed_byte(reversed_byte(b)) == b,
{
    let r = reversed_byte(b);
    assert(((((r & 0x01) << 7u8) | ((r & 0x02) << 5u8) | ((r & 0x04) << 3u8) | ((r & 0x08)
        << 1u8) | ((r & 0x10) >> 1u8) | ((r & 0x20) >> 3u8) | ((r & 0x40) >> 5u8) | ((r & 0x80)
        >> 7u8)) == b)) by (bit_vector)
        requires
            r == ((b & 0x01) << 7u8) | ((b & 0x02) << 5u8) | ((b & 0x04) << 3u8) | ((b & 0x08)
                << 1u8) | ((b & 0x10) >> 1u8) | ((b & 0x20) >> 3u8) | ((b & 0x40) >> 5u8) | ((b
                & 0x80) >> 7u8),
    ;
}

} // verus!
