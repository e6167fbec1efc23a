//! Arbitrary-precision unsigned integers, as far as the scan needs them:
//! reading a decimal literal, writing big-endian bytes, narrowing to a
//! machine word.
//!
//! The arithmetic itself is `num_bigint`'s. This module states what its
//! functions return, over the models below; nothing here is proved.

use core::str::FromStr;
use num_bigint::BigUint;
use num_bigint::ParseBigIntError;
use vstd::prelude::*;

verus! {

#[verifier::external_type_specification]
#[verifier::external_body]
pub struct ExBigUint(num_bigint::BigUint);

#[verifier::external_type_specification]
#[verifier::external_body]
pub struct ExParseBigIntError(num_bigint::ParseBigIntError);

/// The number that a big integer holds.
pub uninterp spec fn biguint_value(n: BigUint) -> nat;

/// An ASCII decimal digit.
pub open spec fn is_digit(c: char) -> bool {
    '0' <= c <= '9'
}

/// The value of a decimal digit.
pub open spec fn digit_value(c: char) -> nat {
    (c as int - '0' as int) as nat
}

/// A literal without its optional leading plus sign.
pub open spec fn literal_body(s: Seq<char>) -> Seq<char> {
    if s.len() > 0 && s[0] == '+' {
        s.subrange(1, s.len() as int)
    } else {
        s
    }
}

/// The strings that read as a decimal number: an optional plus sign, then at
/// least one character, all of them digits or underscores, the first one a
/// digit.
pub open spec fn is_decimal_literal(s: Seq<char>) -> bool {
    let body = literal_body(s);
    &&& body.len() > 0
    &&& body[0] != '_'
    &&& forall|i: int| 0 <= i < body.len() ==> is_digit(#[trigger] body[i]) || body[i] == '_'
}

/// The number written by the digits of `s`, most significant first. Every
/// character that is no digit is passed over.
pub open spec fn decimal_value(s: Seq<char>) -> nat
    decreases s.len(),
{
    if s.len() == 0 {
        0
    } else if is_digit(s.last()) {
        decimal_value(s.drop_last()) * 10 + digit_value(s.last())
    } else {
        decimal_value(s.drop_last())
    }
}

/// The shortest big-endian base-256 writing of `n`; zero is the single byte 0.
pub open spec fn canonical_be(n: nat) -> Seq<u8>
    decreases n,
{
    if n < 256 {
        seq![n as u8]
    } else {
        canonical_be(n / 256).push((n % 256) as u8)
    }
}

/// `<BigUint as FromStr>::from_str`, which reads in radix 10. It accepts
/// exactly the decimal literals, and the number it returns is the one that
/// the literal's digits write.
#[verifier::external_body]
pub(crate) fn parse_decimal(s: &str) -> (r: Result<BigUint, ParseBigIntError>)
    ensures
        r is Ok <==> is_decimal_literal(s@),
        r is Ok ==> biguint_value(r->Ok_0) == decimal_value(s@),
{
    BigUint::from_str(s)
}

/// `BigUint::to_bytes_be`: the number's bytes, most significant first,
/// without leading zero bytes, and one zero byte for zero.
#[verifier::external_body]
pub(crate) fn to_bytes_be(n: &BigUint) -> (bytes: Vec<u8>)
    ensures
        bytes@ == canonical_be(biguint_value(*n)),
{
    n.to_bytes_be()
}

/// `<u64 as TryFrom<&BigUint>>::try_from`: the number itself where it fits
/// in 64 bits, and nothing where it does not.
#[verifier::external_body]
pub(crate) fn to_u64(n: &BigUint) -> (r: Option<u64>)
    ensures
        r is Some <==> biguint_value(*n) <= u64::MAX,
        r is Some ==> r->Some_0 == biguint_value(*n),
{
    u64::try_from(n).ok()
}

} // verus!
