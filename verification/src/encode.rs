//! Canonical byte encoding of entity fields.
//!
//! Every identifier on the ledger is a hash of a canonical encoding of the
//! entity's defining fields.  The encoding is fixed-width for integers and
//! length-prefixed for byte strings, which makes any concatenation of encoded
//! fields injective: two different field tuples can never encode to the same
//! byte string (proved below), so distinct entities can only collide through a
//! hash collision.

use vstd::prelude::*;

verus! {

/// Little-endian 8-byte encoding of a `u64`.
pub open spec fn enc_u64_s(x: u64) -> Seq<u8> {
    seq![
        (x & 0xff) as u8,
        ((x >> 8) & 0xff) as u8,
        ((x >> 16) & 0xff) as u8,
        ((x >> 24) & 0xff) as u8,
        ((x >> 32) & 0xff) as u8,
        ((x >> 40) & 0xff) as u8,
        ((x >> 48) & 0xff) as u8,
        ((x >> 56) & 0xff) as u8,
    ]
}

/// Little-endian 16-byte encoding of a `u128`.
pub open spec fn enc_u128_s(x: u128) -> Seq<u8> {
    seq![
        (x & 0xff) as u8,
        ((x >> 8) & 0xff) as u8,
        ((x >> 16) & 0xff) as u8,
        ((x >> 24) & 0xff) as u8,
        ((x >> 32) & 0xff) as u8,
        ((x >> 40) & 0xff) as u8,
        ((x >> 48) & 0xff) as u8,
        ((x >> 56) & 0xff) as u8,
        ((x >> 64) & 0xff) as u8,
        ((x >> 72) & 0xff) as u8,
        ((x >> 80) & 0xff) as u8,
        ((x >> 88) & 0xff) as u8,
        ((x >> 96) & 0xff) as u8,
        ((x >> 104) & 0xff) as u8,
        ((x >> 112) & 0xff) as u8,
        ((x >> 120) & 0xff) as u8,
    ]
}

/// Length-prefixed encoding of a byte string.
pub open spec fn enc_bytes_s(b: Seq<u8>) -> Seq<u8> {
    enc_u64_s(b.len() as u64) + b
}

/// Appends the encoding of `x` to `out`.
pub fn enc_u64(x: u64, out: &mut Vec<u8>)
    ensures
        final(out)@ == old(out)@ + enc_u64_s(x),
{
    out.push((x & 0xff) as u8);
    out.push(((x >> 8) & 0xff) as u8);
    out.push(((x >> 16) & 0xff) as u8);
    out.push(((x >> 24) & 0xff) as u8);
    out.push(((x >> 32) & 0xff) as u8);
    out.push(((x >> 40) & 0xff) as u8);
    out.push(((x >> 48) & 0xff) as u8);
    out.push(((x >> 56) & 0xff) as u8);
    assert(out@ =~= old(out)@ + enc_u64_s(x));
}

/// Appends the encoding of `x` to `out`.
pub fn enc_u128(x: u128, out: &mut Vec<u8>)
    ensures
        final(out)@ == old(out)@ + enc_u128_s(x),
{
    out.push((x & 0xff) as u8);
    out.push(((x >> 8) & 0xff) as u8);
    out.push(((x >> 16) & 0xff) as u8);
    out.push(((x >> 24) & 0xff) as u8);
    out.push(((x >> 32) & 0xff) as u8);
    out.push(((x >> 40) & 0xff) as u8);
    out.push(((x >> 48) & 0xff) as u8);
    out.push(((x >> 56) & 0xff) as u8);
    out.push(((x >> 64) & 0xff) as u8);
    out.push(((x >> 72) & 0xff) as u8);
    out.push(((x >> 80) & 0xff) as u8);
    out.push(((x >> 88) & 0xff) as u8);
    out.push(((x >> 96) & 0xff) as u8);
    out.push(((x >> 104) & 0xff) as u8);
    out.push(((x >> 112) & 0xff) as u8);
    out.push(((x >> 120) & 0xff) as u8);
    assert(out@ =~= old(out)@ + enc_u128_s(x));
}

/// Appends the length-prefixed encoding of `b` to `out`.
pub fn enc_bytes(b: &Vec<u8>, out: &mut Vec<u8>)
    ensures
        final(out)@ == old(out)@ + enc_bytes_s(b@),
{
    enc_u64(b.len() as u64, out);
    let n = b.len();
    let mut i: usize = 0;
    while i < n
        invariant
            n == b@.len(),
            0 <= i <= n,
            out@ == old(out)@ + enc_u64_s(b@.len() as u64) + b@.subrange(0, i as int),
        decreases n - i,
    {
        out.push(b[i]);
        assert(out@ =~= old(out)@ + enc_u64_s(b@.len() as u64) + b@.subrange(0, i + 1));
        i += 1;
    }
    assert(out@ =~= old(out)@ + enc_bytes_s(b@));
}

/// One-byte encoding of how interest accrues.
pub open spec fn interest_type_tag(t: crate::types::InterestType) -> u8 {
    match t {
        crate::types::InterestType::Simple => 0,
        crate::types::InterestType::Compound => 1,
    }
}

/// Canonical encoding of loan terms, field by field.
pub open spec fn enc_terms_s(t: crate::types::LoanTerms) -> Seq<u8> {
    enc_u128_s(t.amount) + enc_u64_s(t.interest_rate.rate_per_period) + enc_u64_s(
        t.interest_rate.decimals,
    ) + enc_u64_s(t.interest_rate.period.secs) + enc_u64_s(t.interest_rate.period.nanos as u64)
        + seq![interest_type_tag(t.interest_rate.interest_type)] + enc_u64_s(t.term_length.secs)
        + enc_u64_s(t.term_length.nanos as u64)
}

/// Appends the encoding of loan terms to `out`.
pub fn enc_terms(t: &crate::types::LoanTerms, out: &mut Vec<u8>)
    ensures
        final(out)@ == old(out)@ + enc_terms_s(*t),
{
    enc_u128(t.amount, out);
    enc_u64(t.interest_rate.rate_per_period, out);
    enc_u64(t.interest_rate.decimals, out);
    enc_u64(t.interest_rate.period.secs, out);
    enc_u64(t.interest_rate.period.nanos as u64, out);
    let tag: u8 = match t.interest_rate.interest_type {
        crate::types::InterestType::Simple => 0,
        crate::types::InterestType::Compound => 1,
    };
    out.push(tag);
    enc_u64(t.term_length.secs, out);
    enc_u64(t.term_length.nanos as u64, out);
    assert(out@ =~= old(out)@ + enc_terms_s(*t));
}

/// Two `u64`s with the same encoding are equal.
pub proof fn lemma_enc_u64_injective(a: u64, b: u64)
    requires
        enc_u64_s(a) == enc_u64_s(b),
    ensures
        a == b,
{
    assert(enc_u64_s(a)[0] == enc_u64_s(b)[0]);
    assert(enc_u64_s(a)[1] == enc_u64_s(b)[1]);
    assert(enc_u64_s(a)[2] == enc_u64_s(b)[2]);
    assert(enc_u64_s(a)[3] == enc_u64_s(b)[3]);
    assert(enc_u64_s(a)[4] == enc_u64_s(b)[4]);
    assert(enc_u64_s(a)[5] == enc_u64_s(b)[5]);
    assert(enc_u64_s(a)[6] == enc_u64_s(b)[6]);
    assert(enc_u64_s(a)[7] == enc_u64_s(b)[7]);
    assert(a == b) by (bit_vector)
        requires
            (a & 0xff) as u8 == (b & 0xff) as u8,
            ((a >> 8) & 0xff) as u8 == ((b >> 8) & 0xff) as u8,
            ((a >> 16) & 0xff) as u8 == ((b >> 16) & 0xff) as u8,
            ((a >> 24) & 0xff) as u8 == ((b >> 24) & 0xff) as u8,
            ((a >> 32) & 0xff) as u8 == ((b >> 32) & 0xff) as u8,
            ((a >> 40) & 0xff) as u8 == ((b >> 40) & 0xff) as u8,
            ((a >> 48) & 0xff) as u8 == ((b >> 48) & 0xff) as u8,
            ((a >> 56) & 0xff) as u8 == ((b >> 56) & 0xff) as u8,
    ;
}

/// A length-prefixed field determines itself and whatever follows it: the
/// encoding of a byte string is prefix-free within a concatenation.
pub proof fn lemma_enc_bytes_prefix_free(x1: Seq<u8>, r1: Seq<u8>, x2: Seq<u8>, r2: Seq<u8>)
    requires
        x1.len() <= u64::MAX,
        x2.len() <= u64::MAX,
        enc_bytes_s(x1) + r1 == enc_bytes_s(x2) + r2,
    ensures
        x1 == x2,
        r1 == r2,
{
    let s1 = enc_bytes_s(x1) + r1;
    let s2 = enc_bytes_s(x2) + r2;
    assert forall|i: int| 0 <= i < 8 implies #[trigger] enc_u64_s(x1.len() as u64)[i]
        == enc_u64_s(x2.len() as u64)[i] by {
        assert(s1[i] == s2[i]);
    }
    assert(enc_u64_s(x1.len() as u64) =~= enc_u64_s(x2.len() as u64));
    lemma_enc_u64_injective(x1.len() as u64, x2.len() as u64);
    assert(x1.len() == x2.len());
    assert forall|i: int| 0 <= i < x1.len() implies #[trigger] x1[i] == x2[i] by {
        assert(s1[8 + i] == s2[8 + i]);
    }
    assert(x1 =~= x2);
    assert(s1.len() == 8 + x1.len() + r1.len());
    assert(s2.len() == 8 + x2.len() + r2.len());
    assert(r1.len() == r2.len());
    assert forall|i: int| 0 <= i < r1.len() implies #[trigger] r1[i] == r2[i] by {
        assert(s1[8 + x1.len() + i] == s2[8 + x2.len() + i]);
    }
    assert(r1 =~= r2);
}

/// A fixed-width integer field likewise determines itself and its tail.
pub proof fn lemma_enc_u64_prefix_free(a: u64, r1: Seq<u8>, b: u64, r2: Seq<u8>)
    requires
        enc_u64_s(a) + r1 == enc_u64_s(b) + r2,
    ensures
        a == b,
        r1 == r2,
{
    let s1 = enc_u64_s(a) + r1;
    let s2 = enc_u64_s(b) + r2;
    assert forall|i: int| 0 <= i < 8 implies #[trigger] enc_u64_s(a)[i] == enc_u64_s(b)[i] by {
        assert(s1[i] == s2[i]);
    }
    assert(enc_u64_s(a) =~= enc_u64_s(b));
    lemma_enc_u64_injective(a, b);
    assert(s1.len() == 8 + r1.len());
    assert(s2.len() == 8 + r2.len());
    assert(r1.len() == r2.len());
    assert forall|i: int| 0 <= i < r1.len() implies #[trigger] r1[i] == r2[i] by {
        assert(s1[8 + i] == s2[8 + i]);
    }
    assert(r1 =~= r2);
}

} // verus!
