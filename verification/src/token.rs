//! Command tokens as numbers.
//!
//! A command word of up to eight bytes is packed into one 64-bit key, most
//! significant byte first, so that the table of commands can be keyed by
//! integers; a three-digit numeric is read as the number it spells.

use vstd::prelude::*;

verus! {

/// The number that the bytes of `w` spell in base 256, first byte most
/// significant.
pub open spec fn pack(w: Seq<u8>) -> nat
    decreases w.len(),
{
    if w.len() == 0 {
        0
    } else {
        pack(w.drop_last()) * 256 + w.last() as nat
    }
}

/// The bytes that spell `k` in base 256, without leading zero bytes.
pub open spec fn unpack(k: nat) -> Seq<u8>
    decreases k,
{
    if k == 0 {
        Seq::empty()
    } else {
        unpack(k / 256).push((k % 256) as u8)
    }
}

/// 256 to the power of `n`.
pub open spec fn pow256(n: nat) -> nat
    decreases n,
{
    if n == 0 {
        1
    } else {
        256 * pow256((n - 1) as nat)
    }
}

/// Whether `w` can be packed into a key and found again: it has one to
/// eight bytes and does not start with a zero byte.
pub open spec fn is_word(w: Seq<u8>) -> bool {
    0 < w.len() <= 8 && w[0] != 0
}

/// The key of a command word, or `None` for what cannot be packed.
pub open spec fn word_key(w: Seq<u8>) -> Option<u64> {
    if is_word(w) {
        Some(pack(w) as u64)
    } else {
        None
    }
}

/// `pow256` grows with its argument.
pub proof fn lemma_pow256_grows(a: nat, b: nat)
    requires
        a <= b,
    ensures
        0 < pow256(a) <= pow256(b),
    decreases b,
{
    if a < b {
        lemma_pow256_grows(a, (b - 1) as nat);
    } else if a > 0 {
        lemma_pow256_grows((a - 1) as nat, (a - 1) as nat);
    }
}

/// Eight bytes fill a 64-bit key exactly.
pub proof fn lemma_pow256_of_8()
    ensures
        pow256(8) == 0x1_0000_0000_0000_0000,
        pow256(7) == 0x100_0000_0000_0000,
{
    reveal_with_fuel(pow256, 9);
}

/// A key that is not zero unpacks to a word, and packing that word gives
/// the key back.
pub proof fn lemma_unpack(k: nat)
    ensures
        pack(unpack(k)) == k,
        k > 0 ==> unpack(k).len() > 0 && unpack(k)[0] != 0,
        forall|n: nat| k < pow256(n) ==> unpack(k).len() <= n,
    decreases k,
{
    if k > 0 {
        let q = k / 256;
        lemma_unpack(q);
        assert(unpack(k).drop_last() =~= unpack(q));
        assert forall|n: nat| k < pow256(n) implies unpack(k).len() <= n by {
            if n == 0 {
                assert(pow256(0) == 1);
            } else {
                assert(pow256(n) == 256 * pow256((n - 1) as nat));
                assert(q < pow256((n - 1) as nat));
            }
        }
    }
}

/// Every key but zero is the key of the word it unpacks to.
pub proof fn lemma_key_of_unpacked(k: u64)
    requires
        k > 0,
    ensures
        word_key(unpack(k as nat)) == Some(k),
{
    lemma_unpack(k as nat);
    lemma_pow256_of_8();
    assert(unpack(k as nat).len() <= 8);
}

/// Whether every byte of the word with key `k` is a capital letter.
pub open spec fn is_letters(k: nat) -> bool
    decreases k,
{
    k == 0 || (0x41 <= k % 256 <= 0x5a && is_letters(k / 256))
}

/// A word of capital letters unpacks to capital letters: the word holds no
/// space, no comma and no colon.
pub proof fn lemma_letters_unpack(k: nat)
    requires
        is_letters(k),
    ensures
        forall|i: int| 0 <= i < unpack(k).len() ==> 0x41 <= #[trigger] unpack(k)[i] <= 0x5a,
    decreases k,
{
    if k > 0 {
        lemma_letters_unpack(k / 256);
        let init = unpack(k / 256);
        assert forall|i: int| 0 <= i < unpack(k).len() implies 0x41 <= #[trigger] unpack(k)[i]
            <= 0x5a by {
            if i < init.len() {
                assert(unpack(k)[i] == init[i]);
            }
        }
    }
}

/// Packs a command word into its key.
pub fn key_of(w: &[u8]) -> (k: Option<u64>)
    ensures
        k == word_key(w@),
{
    let n = w.len();
    if n == 0 || n > 8 || w[0] == 0 {
        return None;
    }
    let mut k: u64 = 0;
    let mut i: usize = 0;
    while i < n
        invariant
            i <= n == w@.len() <= 8,
            k == pack(w@.subrange(0, i as int)),
            k < pow256(i as nat),
        decreases n - i,
    {
        proof {
            lemma_pow256_grows(i as nat, 7);
            lemma_pow256_of_8();
            assert(w@.subrange(0, i + 1).drop_last() =~= w@.subrange(0, i as int));
            assert(pow256((i + 1) as nat) == 256 * pow256(i as nat));
        }
        k = k * 256 + w[i] as u64;
        i += 1;
    }
    assert(w@.subrange(0, n as int) =~= w@);
    Some(k)
}

/// Unpacks a key into the bytes of its word.
pub fn word_of(k: u64) -> (w: Vec<u8>)
    ensures
        w@ == unpack(k as nat),
    decreases k,
{
    if k == 0 {
        Vec::new()
    } else {
        let mut w = word_of(k / 256);
        w.push((k % 256) as u8);
        w
    }
}

/// Whether `b` is a decimal digit.
pub open spec fn is_digit(b: u8) -> bool {
    0x30 <= b <= 0x39
}

/// The number that a three-digit numeric spells, or `None` for anything
/// but three decimal digits.
pub open spec fn numeric_code(w: Seq<u8>) -> Option<u16> {
    if w.len() == 3 && is_digit(w[0]) && is_digit(w[1]) && is_digit(w[2]) {
        Some(((w[0] - 0x30) * 100 + (w[1] - 0x30) * 10 + (w[2] - 0x30)) as u16)
    } else {
        None
    }
}

/// The three digits that spell a number below 1000.
pub open spec fn code_digits(c: u16) -> Seq<u8> {
    seq![(0x30 + c / 100) as u8, (0x30 + (c / 10) % 10) as u8, (0x30 + c % 10) as u8]
}

/// The digits of a number below 1000 spell that number.
pub proof fn lemma_code_of_digits(c: u16)
    requires
        c < 1000,
    ensures
        numeric_code(code_digits(c)) == Some(c),
{
    let w = code_digits(c);
    assert(w[0] == (0x30 + c / 100) as u8);
    assert(w[1] == (0x30 + (c / 10) % 10) as u8);
    assert(w[2] == (0x30 + c % 10) as u8);
}

/// Reads a three-digit numeric.
pub fn code_of(w: &[u8]) -> (c: Option<u16>)
    ensures
        c == numeric_code(w@),
{
    if w.len() != 3 {
        return None;
    }
    let a = w[0];
    let b = w[1];
    let d = w[2];
    if a >= 0x30 && a <= 0x39 && b >= 0x30 && b <= 0x39 && d >= 0x30 && d <= 0x39 {
        Some((a - 0x30) as u16 * 100 + (b - 0x30) as u16 * 10 + (d - 0x30) as u16)
    } else {
        None
    }
}

/// Spells a number below 1000 with three digits.
pub fn digits_of(c: u16) -> (w: Vec<u8>)
    requires
        c < 1000,
    ensures
        w@ == code_digits(c),
{
    let mut w: Vec<u8> = Vec::new();
    w.push((0x30 + c / 100) as u8);
    w.push((0x30 + (c / 10) % 10) as u8);
    w.push((0x30 + c % 10) as u8);
    assert(w@ =~= code_digits(c));
    w
}

} // verus!
