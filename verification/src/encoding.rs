//! The byte encoding of a digit window.
//!
//! A window's digits are read as one number, the number is written in
//! big-endian bytes, and the bytes are padded on the left to a length that
//! depends on the window length alone. A window that starts with zeros thus
//! gets as many bytes as any other.

use crate::bignum::{canonical_be, decimal_value, is_decimal_literal, parse_decimal, to_bytes_be};
use vstd::arithmetic::power::pow;
use vstd::pervasive::unreached;
use vstd::prelude::*;
use vstd::string::StringExecFns;

verus! {

/// The number that the bytes of `b` write in base 256, most significant
/// first.
pub open spec fn be_value(b: Seq<u8>) -> nat
    decreases b.len(),
{
    if b.len() == 0 {
        0
    } else {
        be_value(b.drop_last()) * 256 + b.last() as nat
    }
}

/// The number of base-256 digits of `n`: the least `k` with `n < 256^k`.
pub open spec fn byte_width(n: nat) -> nat
    decreases n,
{
    if n == 0 {
        0
    } else {
        1 + byte_width(n / 256)
    }
}

/// The number of bytes that hold every window of `window_length` digits: the
/// byte width of the largest such window, which is the least `k` with
/// `10^window_length <= 256^k`.
pub open spec fn target_len(window_length: nat) -> nat {
    byte_width((pow(10, window_length) - 1) as nat)
}

/// `b` with zero bytes put in front until it is `len` bytes long; `b` itself
/// where it is that long already.
pub open spec fn left_pad(b: Seq<u8>, len: nat) -> Seq<u8> {
    if b.len() >= len {
        b
    } else {
        Seq::new((len - b.len()) as nat, |i: int| 0u8) + b
    }
}

/// The encoding of a window in at least `len` bytes.
pub open spec fn window_encoding(digits: Seq<char>, len: nat) -> Seq<u8> {
    left_pad(canonical_be(decimal_value(digits)), len)
}

/// `n` nines in a row: the largest window of `n` digits.
pub open spec fn nines(n: nat) -> Seq<char> {
    Seq::new(n, |i: int| '9')
}

proof fn lemma_pow_succ(b: int, e: nat)
    ensures
        pow(b, e + 1) == b * pow(b, e),
        pow(b, 0) == 1,
{
    reveal(pow);
}

/// A string of `n` characters writes a number below `10^n`.
pub proof fn lemma_decimal_value_bound(s: Seq<char>)
    ensures
        decimal_value(s) < pow(10, s.len()),
    decreases s.len(),
{
    if s.len() == 0 {
        lemma_pow_succ(10, 0);
    } else {
        lemma_decimal_value_bound(s.drop_last());
        lemma_pow_succ(10, (s.len() - 1) as nat);
    }
}

/// Nines write the number just below a power of ten.
pub proof fn lemma_nines_value(n: nat)
    ensures
        decimal_value(nines(n)) == pow(10, n) - 1,
    decreases n,
{
    if n == 0 {
        lemma_pow_succ(10, 0);
    } else {
        lemma_nines_value((n - 1) as nat);
        assert(nines(n).drop_last() =~= nines((n - 1) as nat));
        lemma_pow_succ(10, (n - 1) as nat);
    }
}

/// A larger number is no narrower.
pub proof fn lemma_byte_width_monotone(a: nat, b: nat)
    requires
        a <= b,
    ensures
        byte_width(a) <= byte_width(b),
    decreases b,
{
    if a != 0 {
        lemma_byte_width_monotone(a / 256, b / 256);
    }
}

/// The byte width is the least exponent whose power of 256 exceeds the
/// number.
pub proof fn lemma_byte_width_bounds(n: nat)
    ensures
        n < pow(256, byte_width(n)),
        n > 0 ==> pow(256, (byte_width(n) - 1) as nat) <= n,
    decreases n,
{
    lemma_pow_succ(256, 0);
    if n != 0 {
        let m = n / 256;
        lemma_byte_width_bounds(m);
        lemma_pow_succ(256, byte_width(m));
        if m > 0 {
            lemma_pow_succ(256, (byte_width(m) - 1) as nat);
        }
    }
}

/// The shortest writing of a number is as long as the number is wide, and
/// one byte long for zero.
pub proof fn lemma_canonical_len(n: nat)
    ensures
        canonical_be(n).len() == (if n == 0 {
            1
        } else {
            byte_width(n)
        }),
    decreases n,
{
    if n >= 256 {
        lemma_canonical_len(n / 256);
    } else if n > 0 {
        assert(byte_width(n / 256) == 0);
    }
}

/// The shortest writing of a number writes that number, and starts with a
/// zero byte for zero only.
pub proof fn lemma_canonical_value(n: nat)
    ensures
        be_value(canonical_be(n)) == n,
        n > 0 ==> canonical_be(n)[0] != 0,
    decreases n,
{
    let b = canonical_be(n);
    if n >= 256 {
        lemma_canonical_value(n / 256);
        assert(b.drop_last() =~= canonical_be(n / 256));
        assert(b.last() == (n % 256) as u8);
        assert(b[0] == canonical_be(n / 256)[0]);
    } else {
        assert(b.drop_last() =~= Seq::<u8>::empty());
        assert(be_value(b.drop_last()) == 0);
        assert(b.last() == n as u8);
    }
}

/// Zero bytes in front change nothing of the number written.
pub proof fn lemma_left_pad_value(b: Seq<u8>, len: nat)
    ensures
        be_value(left_pad(b, len)) == be_value(b),
    decreases b.len(),
{
    if b.len() < len {
        let zeros = Seq::new((len - b.len()) as nat, |i: int| 0u8);
        if b.len() == 0 {
            assert(zeros + b =~= zeros);
            lemma_zeros_value((len - b.len()) as nat);
        } else {
            lemma_left_pad_value(b.drop_last(), (len - 1) as nat);
            assert((zeros + b).drop_last() =~= left_pad(b.drop_last(), (len - 1) as nat));
        }
    }
}

proof fn lemma_zeros_value(n: nat)
    ensures
        be_value(Seq::new(n, |i: int| 0u8)) == 0,
    decreases n,
{
    if n > 0 {
        lemma_zeros_value((n - 1) as nat);
        assert(Seq::new(n, |i: int| 0u8).drop_last() =~= Seq::new((n - 1) as nat, |i: int| 0u8));
    }
}

/// The encoding of a window writes the window's number, whatever the length
/// asked for.
pub proof fn law_encoding_writes_the_number(digits: Seq<char>, len: nat)
    ensures
        be_value(window_encoding(digits, len)) == decimal_value(digits),
{
    lemma_canonical_value(decimal_value(digits));
    lemma_left_pad_value(canonical_be(decimal_value(digits)), len);
}

/// The target length is the least number of bytes whose range reaches
/// `10^window_length`: the ceiling of `window_length * log2(10) / 8`.
pub proof fn law_target_len_is_least(window_length: nat)
    ensures
        pow(10, window_length) <= pow(256, target_len(window_length)),
        target_len(window_length) > 0 ==> pow(256, (target_len(window_length) - 1) as nat) < pow(
            10,
            window_length,
        ),
{
    lemma_nines_value(window_length);
    lemma_byte_width_bounds((pow(10, window_length) - 1) as nat);
}

/// Every window of at most `window_length` characters is encoded in exactly
/// the target length of `window_length`, however many zeros it starts with.
pub proof fn law_encoding_has_target_len(digits: Seq<char>, window_length: nat)
    requires
        digits.len() <= window_length,
        0 < window_length,
    ensures
        window_encoding(digits, target_len(window_length)).len() == target_len(window_length),
{
    let n = decimal_value(digits);
    let top = (pow(10, window_length) - 1) as nat;
    lemma_decimal_value_bound(digits);
    vstd::arithmetic::power::lemma_pow_increases(10, digits.len(), window_length);
    lemma_byte_width_monotone(n, top);
    lemma_canonical_len(n);
    lemma_nines_value(1);
    vstd::arithmetic::power::lemma_pow_increases(10, 1, window_length);
    lemma_byte_width_monotone(9, top);
}

/// The number of bytes in which every window of `window_length` digits is
/// encoded.
pub fn padded_len(window_length: u64) -> (len: usize)
    ensures
        len == target_len(window_length as nat),
{
    if window_length == 0 {
        proof {
            lemma_pow_succ(10, 0);
        }
        return 0;
    }
    let mut largest = String::new();
    let mut written: u64 = 0;
    while written < window_length
        invariant
            written <= window_length,
            largest@ == nines(written as nat),
        decreases window_length - written,
    {
        proof {
            reveal_strlit("9");
        }
        largest.append("9");
        written = written + 1;
        assert(largest@ =~= nines(written as nat));
    }
    proof {
        lemma_nines_value(window_length as nat);
        lemma_nines_value(1);
        vstd::arithmetic::power::lemma_pow_increases(10, 1, window_length as nat);
        lemma_canonical_len((pow(10, window_length as nat) - 1) as nat);
        assert(is_decimal_literal(largest@));
    }
    match parse_decimal(largest.as_str()) {
        Ok(n) => to_bytes_be(&n).len(),
        Err(_) => unreached(),
    }
}

/// Encodes a digit window in `len` bytes, or in more where its number needs
/// more. Returns `None` exactly when `digits` is no decimal literal.
pub fn encode_window(digits: &str, len: usize) -> (r: Option<Vec<u8>>)
    ensures
        r is Some <==> is_decimal_literal(digits@),
        r is Some ==> r->Some_0@ == window_encoding(digits@, len as nat),
{
    match parse_decimal(digits) {
        Ok(n) => {
            let mut bytes = to_bytes_be(&n);
            let ghost canonical = bytes@;
            while bytes.len() < len
                invariant
                    canonical.len() <= bytes.len(),
                    bytes.len() == canonical.len() || bytes.len() <= len,
                    bytes@ == Seq::new((bytes.len() - canonical.len()) as nat, |i: int| 0u8)
                        + canonical,
                decreases len - bytes.len(),
            {
                let ghost before = bytes@;
                bytes.insert(0, 0);
                assert(bytes@ =~= Seq::new(
                    (before.len() + 1 - canonical.len()) as nat,
                    |i: int| 0u8,
                ) + canonical);
            }
            assert(bytes@ =~= left_pad(canonical, len as nat));
            Some(bytes)
        },
        Err(_) => None,
    }
}

} // verus!
