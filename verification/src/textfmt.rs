//! Fixed-width decimal text fields.
//!
//! Every numeric field of a location report is plain ASCII: a value is
//! written in decimal, left-padded with zeros to the field width (wider
//! values keep all their digits), and fractional fields carry exactly two
//! decimal places.

use vstd::prelude::*;

verus! {

/// The decimal digit bytes of `n`, most significant first; 0 is "0".
pub open spec fn spec_dec_digits(n: nat) -> Seq<u8>
    decreases n,
{
    if n < 10 {
        seq![(n + 48) as u8]
    } else {
        spec_dec_digits(n / 10).push((n % 10 + 48) as u8)
    }
}

/// `n` in decimal, left-padded with ASCII zeros to at least `width`
/// bytes; a value with more digits keeps them all.
pub open spec fn spec_dec_padded(n: nat, width: nat) -> Seq<u8> {
    let digits = spec_dec_digits(n);
    if digits.len() >= width {
        digits
    } else {
        Seq::new((width - digits.len()) as nat, |i: int| 48u8) + digits
    }
}

/// A signed centi-valued quantity as text: optional minus sign, the
/// whole part, a dot, and exactly two fractional digits.
pub open spec fn spec_centi(t: int) -> Seq<u8> {
    let a = if t < 0 { -t } else { t };
    let magnitude = spec_dec_digits((a / 100) as nat) + seq![46u8] + spec_dec_padded(
        (a % 100) as nat,
        2,
    );
    if t < 0 {
        seq![45u8] + magnitude
    } else {
        magnitude
    }
}

/// Appends the decimal digits of `n`, most significant first.
pub fn push_dec(buf: &mut Vec<u8>, n: u64)
    ensures
        final(buf)@ == old(buf)@ + spec_dec_digits(n as nat),
    decreases n,
{
    if n < 10 {
        buf.push((n as u8) + 48);
        proof {
            assert(buf@ =~= old(buf)@ + spec_dec_digits(n as nat));
        }
    } else {
        push_dec(buf, n / 10);
        buf.push(((n % 10) as u8) + 48);
        proof {
            assert(buf@ =~= old(buf)@ + spec_dec_digits(n as nat));
        }
    }
}

/// Appends `n` in decimal, left-padded with zeros to at least `width`
/// bytes.
pub fn push_dec_padded(buf: &mut Vec<u8>, n: u64, width: usize)
    ensures
        final(buf)@ == old(buf)@ + spec_dec_padded(n as nat, width as nat),
{
    let mut rev: Vec<u8> = Vec::new();
    let mut m: u64 = n;
    while m >= 10
        invariant
            spec_dec_digits(n as nat) == spec_dec_digits(m as nat) + rev@.reverse(),
        decreases m,
    {
        let ghost v: nat = m as nat;
        rev.push(((m % 10) as u8) + 48);
        m = m / 10;
        proof {
            assert(spec_dec_digits(v) == spec_dec_digits(v / 10).push((v % 10 + 48) as u8));
            assert(rev@.reverse() =~= seq![(v % 10 + 48) as u8] + rev@.drop_last().reverse());
            assert(spec_dec_digits(n as nat) =~= spec_dec_digits(m as nat) + rev@.reverse());
        }
    }
    let ghost v_last: nat = m as nat;
    rev.push((m as u8) + 48);
    proof {
        assert(spec_dec_digits(v_last) =~= seq![(v_last + 48) as u8]);
        assert(rev@.reverse() =~= seq![(v_last + 48) as u8] + rev@.drop_last().reverse());
        assert(spec_dec_digits(n as nat) =~= rev@.reverse());
    }
    let ghost dlen: nat = spec_dec_digits(n as nat).len();
    while rev.len() < width
        invariant
            rev@.len() >= dlen,
            rev@.len() >= spec_dec_digits(n as nat).len(),
            rev@.reverse() =~= spec_dec_padded(n as nat, rev@.len()),
            rev@.len() <= width || rev@.len() == dlen,
        decreases width - rev@.len(),
    {
        let ghost pre = rev@;
        rev.push(48);
        proof {
            assert(rev@.drop_last() =~= pre);
            assert(rev@.reverse() =~= seq![48u8] + pre.reverse());
            assert(seq![48u8] + spec_dec_padded(n as nat, pre.len()) =~= spec_dec_padded(
                n as nat,
                pre.len() + 1,
            ));
            assert(rev@.reverse() =~= spec_dec_padded(n as nat, rev@.len()));
        }
    }
    let mut j: usize = rev.len();
    let ghost start = buf@;
    while j > 0
        invariant
            j <= rev@.len(),
            buf@.len() == start.len() + rev@.len() - j,
            buf@.subrange(0, start.len() as int) =~= start,
            forall|i: int|
                start.len() <= i < buf@.len() ==> buf@[i] == rev@[rev@.len() - 1 - (i
                    - start.len())],
        decreases j,
    {
        j = j - 1;
        buf.push(rev[j]);
    }
    proof {
        assert(buf@ =~= start + rev@.reverse());
        assert(spec_dec_padded(n as nat, rev@.len()) =~= spec_dec_padded(n as nat, width as nat));
    }
}

/// Appends a signed centi-valued quantity with two decimal places.
pub fn push_centi(buf: &mut Vec<u8>, t: i32)
    ensures
        final(buf)@ == old(buf)@ + spec_centi(t as int),
{
    let a: u64 = if t < 0 {
        (-(t as i64)) as u64
    } else {
        t as u64
    };
    if t < 0 {
        buf.push(45);
    }
    push_dec(buf, a / 100);
    buf.push(46);
    push_dec_padded(buf, a % 100, 2);
    proof {
        assert(buf@ =~= old(buf)@ + spec_centi(t as int));
    }
}

} // verus!
