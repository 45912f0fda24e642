//! Arithmetic of banked memories: a bank number taken modulo the number of
//! banks, and an offset inside the bank.
use vstd::prelude::*;

verus! {

/// Byte `i` of bank `b` of a memory of `n` banks of `size` bytes, with the
/// bank number wrapping at `n`, is byte `(b % n) * size + i`, inside the
/// memory.
pub proof fn lemma_banked_index(b: int, i: int, size: int, n: int)
    requires
        b >= 0,
        size > 0,
        0 <= i < size,
        n >= 1,
    ensures
        (b * size + i) % (n * size) == (b % n) * size + i,
        0 <= (b % n) * size + i < n * size,
{
    let q = b / n;
    let r = b % n;
    assert(b == q * n + r && 0 <= r < n) by (nonlinear_arith)
        requires
            n >= 1,
            q == b / n,
            r == b % n,
    ;
    assert(b * size + i == q * (n * size) + (r * size + i)) by (nonlinear_arith)
        requires
            b == q * n + r,
    ;
    assert(0 <= r * size + i < n * size) by (nonlinear_arith)
        requires
            0 <= r < n,
            0 <= i < size,
            size > 0,
    ;
    vstd::arithmetic::div_mod::lemma_fundamental_div_mod_converse(
        b * size + i,
        n * size,
        q,
        r * size + i,
    );
}

/// A bank number shifted into place above an offset that fits below it is
/// the bank times the bank size plus the offset.
pub proof fn lemma_shifted_bank(b: usize, i: usize, shift: usize) by (bit_vector)
    requires
        (shift == 13 && b < 0x80000) || (shift == 14 && b < 0x40000) || (shift == 15 && b
            < 0x20000),
        i < (1usize << shift),
    ensures
        (b << shift) | i == b * (1usize << shift) + i,
{
}

} // verus!
