//! Base-91 payload compaction.
//!
//! The input buffer is read as a little-endian unsigned integer of
//! arbitrary size; that integer is written out most-significant digit
//! first in base 91, each digit offset by 33 so that every output byte is
//! printable. An empty buffer encodes the integer 0 and yields the single
//! byte 33. The big-integer arithmetic itself is done by `num_bigint`.

use vstd::prelude::*;

verus! {

/// The value that a `BigUint` stands for.
pub uninterp spec fn big_value(n: num_bigint::BigUint) -> nat;

#[verifier::external_type_specification]
#[verifier::external_body]
pub struct ExBigUint(num_bigint::BigUint);

/// The little-endian integer value of a byte sequence:
/// byte 0 is the least significant.
pub open spec fn le_value(s: Seq<u8>) -> nat
    decreases s.len(),
{
    if s.len() == 0 {
        0
    } else {
        (s[0] + 256 * le_value(s.subrange(1, s.len() as int))) as nat
    }
}

/// The base-91 digit bytes of `n`, most significant first, each offset
/// by 33. The value 0 still has one digit, the byte 33.
pub open spec fn b91_digits(n: nat) -> Seq<u8>
    decreases n,
{
    if n < 91 {
        seq![(n + 33) as u8]
    } else {
        b91_digits(n / 91).push((n % 91 + 33) as u8)
    }
}

/// Relies on num_bigint::BigUint::from_bytes_le: the bytes are read as an
/// unsigned integer in little-endian byte order.
#[verifier::external_body]
fn big_from_bytes_le(bytes: &[u8]) -> (r: num_bigint::BigUint)
    ensures
        big_value(r) == le_value(bytes@),
{
    num_bigint::BigUint::from_bytes_le(bytes)
}

/// Relies on num_bigint's Ord for BigUint and From<u8>: compares the
/// integer against 91.
#[verifier::external_body]
fn big_is_at_least_91(n: &num_bigint::BigUint) -> (r: bool)
    ensures
        r == (big_value(*n) >= 91),
{
    let threshold = num_bigint::BigUint::from(91u8);
    *n >= threshold
}

/// Relies on num_bigint's Rem<u8> for &BigUint and TryFrom<BigUint> for
/// u8: returns the remainder of the integer divided by 91, which always
/// fits in a byte.
#[verifier::external_body]
fn big_rem_91(n: &num_bigint::BigUint) -> (r: u8)
    ensures
        r as nat == big_value(*n) % 91,
{
    let rem = n % 91u8;
    u8::try_from(rem).unwrap()
}

/// Relies on num_bigint's DivAssign<u8> for BigUint: replaces the integer
/// with its quotient by 91, rounded down.
#[verifier::external_body]
fn big_div_assign_91(n: &mut num_bigint::BigUint)
    ensures
        big_value(*final(n)) == big_value(*old(n)) / 91,
{
    *n /= 91u8;
}

/// Relies on num_bigint's TryFrom<BigUint> for u8: converts an integer
/// already known to be below 91, so the conversion cannot fail.
#[verifier::external_body]
fn big_to_small(n: num_bigint::BigUint) -> (r: u8)
    requires
        big_value(n) < 91,
    ensures
        r as nat == big_value(n),
{
    u8::try_from(n).unwrap()
}

/// Encodes a byte buffer as base-91 digit bytes, most significant digit
/// first.
pub fn encode(bytes: &[u8]) -> (r: Vec<u8>)
    ensures
        r@ == b91_digits(le_value(bytes@)),
        r@.len() >= 1,
        forall|i: int| 0 <= i < r@.len() ==> 33 <= #[trigger] r@[i] <= 123,
{
    let ghost n0: nat = le_value(bytes@);
    let mut num = big_from_bytes_le(bytes);
    let mut rev_digits: Vec<u8> = Vec::new();
    let mut large = big_is_at_least_91(&num);
    while large
        invariant
            large == (big_value(num) >= 91),
            b91_digits(n0) == b91_digits(big_value(num)) + rev_digits@.reverse(),
        decreases big_value(num),
    {
        let ghost v: nat = big_value(num);
        let d = big_rem_91(&num);
        rev_digits.push(d + 33);
        big_div_assign_91(&mut num);
        large = big_is_at_least_91(&num);
        proof {
            assert(v / 91 < v) by (nonlinear_arith)
                requires v >= 91;
            assert(b91_digits(v) == b91_digits(v / 91).push((v % 91 + 33) as u8));
            assert(rev_digits@.reverse() =~= seq![(v % 91 + 33) as u8] + rev_digits@.drop_last().reverse());
            assert(b91_digits(n0) =~= b91_digits(big_value(num)) + rev_digits@.reverse());
        }
    }
    let ghost v_last: nat = big_value(num);
    let last = big_to_small(num);
    rev_digits.push(last + 33);
    proof {
        assert(b91_digits(v_last) =~= seq![(v_last + 33) as u8]);
        assert(rev_digits@.reverse() =~= seq![(v_last + 33) as u8] + rev_digits@.drop_last().reverse());
        assert(b91_digits(n0) =~= rev_digits@.reverse());
    }
    let mut out: Vec<u8> = Vec::new();
    let mut j: usize = rev_digits.len();
    while j > 0
        invariant
            j <= rev_digits@.len(),
            out@.len() == rev_digits@.len() - j,
            forall|i: int| 0 <= i < out@.len() ==> out@[i] == rev_digits@[rev_digits@.len() - 1 - i],
        decreases j,
    {
        j = j - 1;
        out.push(rev_digits[j]);
    }
    proof {
        assert(out@ =~= rev_digits@.reverse());
        lemma_b91_digit_range(n0);
    }
    out
}

/// Every base-91 digit byte lies between 33 and 123 inclusive.
pub proof fn lemma_b91_digit_range(n: nat)
    ensures
        forall|i: int| 0 <= i < b91_digits(n).len() ==> 33 <= #[trigger] b91_digits(n)[i] <= 123,
    decreases n,
{
    if n < 91 {
    } else {
        assert(n / 91 < n) by (nonlinear_arith)
            requires n >= 91;
        assert(n % 91 < 91) by (nonlinear_arith);
        lemma_b91_digit_range(n / 91);
        assert forall|i: int| 0 <= i < b91_digits(n).len() implies 33 <= #[trigger] b91_digits(n)[i] <= 123 by {
            if i < b91_digits(n / 91).len() {
                assert(b91_digits(n)[i] == b91_digits(n / 91)[i]);
            }
        }
    }
}

/// The empty buffer encodes to exactly one byte, the digit 33.
pub proof fn lemma_encode_empty()
    ensures
        b91_digits(le_value(Seq::<u8>::empty())) =~= seq![33u8],
{
    assert(le_value(Seq::<u8>::empty()) == 0);
}

/// A single byte below 91 encodes to exactly one byte, itself offset by 33.
pub proof fn lemma_encode_single_small(b: u8)
    requires
        b < 91,
    ensures
        b91_digits(le_value(seq![b])) =~= seq![(b + 33) as u8],
{
    let s = seq![b];
    assert(s.subrange(1, 1) =~= Seq::<u8>::empty());
    assert(le_value(s.subrange(1, 1)) == 0);
    assert(le_value(s) == b);
}

} // verus!
