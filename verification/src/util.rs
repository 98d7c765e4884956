//! Byte-level helpers shared by the header codecs: big-endian size fields,
//! synch-safe integers, and the unsynchronization byte-stuffing scheme.

use vstd::prelude::*;

verus! {

/// The four bytes of `n`, most significant first.
pub open spec fn be_u32(n: u32) -> Seq<u8> {
    seq![
        ((n >> 24) & 0xFF) as u8,
        ((n >> 16) & 0xFF) as u8,
        ((n >> 8) & 0xFF) as u8,
        (n & 0xFF) as u8,
    ]
}

/// The eight bytes of `n`, most significant first.
pub open spec fn be_u64(n: u64) -> Seq<u8> {
    seq![
        ((n >> 56) & 0xFF) as u8,
        ((n >> 48) & 0xFF) as u8,
        ((n >> 40) & 0xFF) as u8,
        ((n >> 32) & 0xFF) as u8,
        ((n >> 24) & 0xFF) as u8,
        ((n >> 16) & 0xFF) as u8,
        ((n >> 8) & 0xFF) as u8,
        (n & 0xFF) as u8,
    ]
}

/// The value carried by eight big-endian bytes.
pub open spec fn u64_of_be(b0: u8, b1: u8, b2: u8, b3: u8, b4: u8, b5: u8, b6: u8, b7: u8) -> u64 {
    ((b0 as u64) << 56) | ((b1 as u64) << 48) | ((b2 as u64) << 40) | ((b3 as u64) << 32) | ((
    b4 as u64) << 24) | ((b5 as u64) << 16) | ((b6 as u64) << 8) | (b7 as u64)
}

/// The low three bytes of `n`, most significant first.
pub open spec fn be_u24(n: u32) -> Seq<u8> {
    seq![((n >> 16) & 0xFF) as u8, ((n >> 8) & 0xFF) as u8, (n & 0xFF) as u8]
}

/// The value carried by four big-endian bytes.
pub open spec fn u32_of_be(b0: u8, b1: u8, b2: u8, b3: u8) -> u32 {
    ((b0 as u32) << 24) | ((b1 as u32) << 16) | ((b2 as u32) << 8) | (b3 as u32)
}

/// The value carried by three big-endian bytes.
pub open spec fn u32_of_be3(b0: u8, b1: u8, b2: u8) -> u32 {
    ((b0 as u32) << 16) | ((b1 as u32) << 8) | (b2 as u32)
}

/// A 28-bit value spread over four bytes of seven significant bits each,
/// so that no byte of the size field ever has its high bit set.
pub open spec fn synchsafe(n: u32) -> u32 {
    (((n >> 21) & 0x7F) << 24) | (((n >> 14) & 0x7F) << 16) | (((n >> 7) & 0x7F) << 8) | (n
        & 0x7F)
}

/// The 28-bit value recovered from a synch-safe integer; the high bit of
/// every byte is ignored.
pub open spec fn unsynchsafe(n: u32) -> u32 {
    (((n >> 24) & 0x7F) << 21) | (((n >> 16) & 0x7F) << 14) | (((n >> 8) & 0x7F) << 7) | (n
        & 0x7F)
}

/// Reading a size field written in synch-safe form gives back the size.
pub proof fn lemma_synchsafe_roundtrip(n: u32)
    requires
        n < 0x10000000,
    ensures
        unsynchsafe(synchsafe(n)) == n,
{
    let s = synchsafe(n);
    assert(s == (((n >> 21) & 0x7F) << 24) | (((n >> 14) & 0x7F) << 16) | (((n >> 7) & 0x7F)
        << 8) | (n & 0x7F));
    assert((((s >> 24) & 0x7F) << 21) | (((s >> 16) & 0x7F) << 14) | (((s >> 8) & 0x7F) << 7) | (s
        & 0x7F) == n) by (bit_vector)
        requires
            n < 0x10000000,
            s == (((n >> 21) & 0x7F) << 24) | (((n >> 14) & 0x7F) << 16) | (((n >> 7) & 0x7F)
                << 8) | (n & 0x7F),
    ;
}

/// Reassembling the four bytes of a 32-bit value gives back the value.
pub proof fn lemma_be_u32_roundtrip(n: u32)
    ensures
        u32_of_be(be_u32(n)[0], be_u32(n)[1], be_u32(n)[2], be_u32(n)[3]) == n,
{
    let b0 = ((n >> 24) & 0xFF) as u8;
    let b1 = ((n >> 16) & 0xFF) as u8;
    let b2 = ((n >> 8) & 0xFF) as u8;
    let b3 = (n & 0xFF) as u8;
    assert(((b0 as u32) << 24) | ((b1 as u32) << 16) | ((b2 as u32) << 8) | (b3 as u32) == n)
        by (bit_vector)
        requires
            b0 == ((n >> 24) & 0xFF) as u8,
            b1 == ((n >> 16) & 0xFF) as u8,
            b2 == ((n >> 8) & 0xFF) as u8,
            b3 == (n & 0xFF) as u8,
    ;
}

/// Reassembling the eight bytes of a 64-bit value gives back the value.
pub proof fn lemma_be_u64_roundtrip(n: u64)
    ensures
        u64_of_be(
            be_u64(n)[0],
            be_u64(n)[1],
            be_u64(n)[2],
            be_u64(n)[3],
            be_u64(n)[4],
            be_u64(n)[5],
            be_u64(n)[6],
            be_u64(n)[7],
        ) == n,
{
    let b0 = ((n >> 56) & 0xFF) as u8;
    let b1 = ((n >> 48) & 0xFF) as u8;
    let b2 = ((n >> 40) & 0xFF) as u8;
    let b3 = ((n >> 32) & 0xFF) as u8;
    let b4 = ((n >> 24) & 0xFF) as u8;
    let b5 = ((n >> 16) & 0xFF) as u8;
    let b6 = ((n >> 8) & 0xFF) as u8;
    let b7 = (n & 0xFF) as u8;
    assert(((b0 as u64) << 56) | ((b1 as u64) << 48) | ((b2 as u64) << 40) | ((b3 as u64) << 32)
        | ((b4 as u64) << 24) | ((b5 as u64) << 16) | ((b6 as u64) << 8) | (b7 as u64) == n)
        by (bit_vector)
        requires
            b0 == ((n >> 56) & 0xFF) as u8,
            b1 == ((n >> 48) & 0xFF) as u8,
            b2 == ((n >> 40) & 0xFF) as u8,
            b3 == ((n >> 32) & 0xFF) as u8,
            b4 == ((n >> 24) & 0xFF) as u8,
            b5 == ((n >> 16) & 0xFF) as u8,
            b6 == ((n >> 8) & 0xFF) as u8,
            b7 == (n & 0xFF) as u8,
    ;
}

/// Reassembling the three bytes of a value below 2^24 gives back the value.
pub proof fn lemma_be_u24_roundtrip(n: u32)
    requires
        n < 0x1000000,
    ensures
        u32_of_be3(be_u24(n)[0], be_u24(n)[1], be_u24(n)[2]) == n,
{
    let b0 = ((n >> 16) & 0xFF) as u8;
    let b1 = ((n >> 8) & 0xFF) as u8;
    let b2 = (n & 0xFF) as u8;
    assert(((b0 as u32) << 16) | ((b1 as u32) << 8) | (b2 as u32) == n) by (bit_vector)
        requires
            n < 0x1000000,
            b0 == ((n >> 16) & 0xFF) as u8,
            b1 == ((n >> 8) & 0xFF) as u8,
            b2 == (n & 0xFF) as u8,
    ;
}

/// Appends the four big-endian bytes of `n`.
pub fn push_be_u32(out: &mut Vec<u8>, n: u32)
    ensures
        final(out)@ == old(out)@ + be_u32(n),
{
    out.push(#[verifier::truncate] (((n >> 24) & 0xFF) as u8));
    out.push(#[verifier::truncate] (((n >> 16) & 0xFF) as u8));
    out.push(#[verifier::truncate] (((n >> 8) & 0xFF) as u8));
    out.push(#[verifier::truncate] ((n & 0xFF) as u8));
    proof {
        assert(final(out)@ =~= old(out)@ + be_u32(n));
    }
}

/// Appends the eight big-endian bytes of `n`.
pub fn push_be_u64(out: &mut Vec<u8>, n: u64)
    ensures
        final(out)@ == old(out)@ + be_u64(n),
{
    out.push(#[verifier::truncate] (((n >> 56) & 0xFF) as u8));
    out.push(#[verifier::truncate] (((n >> 48) & 0xFF) as u8));
    out.push(#[verifier::truncate] (((n >> 40) & 0xFF) as u8));
    out.push(#[verifier::truncate] (((n >> 32) & 0xFF) as u8));
    out.push(#[verifier::truncate] (((n >> 24) & 0xFF) as u8));
    out.push(#[verifier::truncate] (((n >> 16) & 0xFF) as u8));
    out.push(#[verifier::truncate] (((n >> 8) & 0xFF) as u8));
    out.push(#[verifier::truncate] ((n & 0xFF) as u8));
    proof {
        assert(final(out)@ =~= old(out)@ + be_u64(n));
    }
}

/// Appends the three low big-endian bytes of `n`.
pub fn push_be_u24(out: &mut Vec<u8>, n: u32)
    ensures
        final(out)@ == old(out)@ + be_u24(n),
{
    out.push(#[verifier::truncate] (((n >> 16) & 0xFF) as u8));
    out.push(#[verifier::truncate] (((n >> 8) & 0xFF) as u8));
    out.push(#[verifier::truncate] ((n & 0xFF) as u8));
    proof {
        assert(final(out)@ =~= old(out)@ + be_u24(n));
    }
}

/// Reassembles four big-endian bytes.
pub fn read_be_u32(b0: u8, b1: u8, b2: u8, b3: u8) -> (r: u32)
    ensures
        r == u32_of_be(b0, b1, b2, b3),
{
    ((b0 as u32) << 24) | ((b1 as u32) << 16) | ((b2 as u32) << 8) | (b3 as u32)
}

/// Reassembles three big-endian bytes.
pub fn read_be_u24(b0: u8, b1: u8, b2: u8) -> (r: u32)
    ensures
        r == u32_of_be3(b0, b1, b2),
{
    ((b0 as u32) << 16) | ((b1 as u32) << 8) | (b2 as u32)
}

/// Computes the synch-safe form of a 28-bit value.
pub fn synchsafe_u32(n: u32) -> (r: u32)
    requires
        n < 0x10000000,
    ensures
        r == synchsafe(n),
{
    (((n >> 21) & 0x7F) << 24) | (((n >> 14) & 0x7F) << 16) | (((n >> 7) & 0x7F) << 8) | (n & 0x7F)
}

/// Recovers the value held by a synch-safe integer.
pub fn unsynchsafe_u32(n: u32) -> (r: u32)
    ensures
        r == unsynchsafe(n),
{
    (((n >> 24) & 0x7F) << 21) | (((n >> 16) & 0x7F) << 14) | (((n >> 8) & 0x7F) << 7) | (n & 0x7F)
}

/// The unsynchronization scheme: a zero byte is inserted after every 0xFF
/// byte, so that no false audio sync pattern survives in the output.
pub open spec fn unsynch_stuff(s: Seq<u8>) -> Seq<u8>
    decreases s.len(),
{
    if s.len() == 0 {
        Seq::empty()
    } else if s[0] == 0xFF {
        seq![0xFFu8, 0x00u8] + unsynch_stuff(s.skip(1))
    } else {
        seq![s[0]] + unsynch_stuff(s.skip(1))
    }
}

/// The inverse transform: a zero byte directly after a 0xFF byte is dropped.
pub open spec fn unsynch_destuff(s: Seq<u8>) -> Seq<u8>
    decreases s.len(),
{
    if s.len() == 0 {
        Seq::empty()
    } else if s[0] == 0xFF && s.len() >= 2 && s[1] == 0x00 {
        seq![0xFFu8] + unsynch_destuff(s.skip(2))
    } else {
        seq![s[0]] + unsynch_destuff(s.skip(1))
    }
}

/// Stuffing distributes over concatenation.
pub proof fn lemma_unsynch_stuff_concat(a: Seq<u8>, b: Seq<u8>)
    ensures
        unsynch_stuff(a + b) == unsynch_stuff(a) + unsynch_stuff(b),
    decreases a.len(),
{
    if a.len() == 0 {
        assert(a + b =~= b);
        assert(unsynch_stuff(a) + unsynch_stuff(b) =~= unsynch_stuff(b));
    } else {
        assert((a + b).skip(1) =~= a.skip(1) + b);
        lemma_unsynch_stuff_concat(a.skip(1), b);
        assert(unsynch_stuff(a + b) =~= unsynch_stuff(a) + unsynch_stuff(b));
    }
}

/// De-stuffing undoes stuffing exactly.
pub proof fn lemma_unsynch_roundtrip(s: Seq<u8>)
    ensures
        unsynch_destuff(unsynch_stuff(s)) == s,
    decreases s.len(),
{
    if s.len() == 0 {
    } else {
        lemma_unsynch_roundtrip(s.skip(1));
        if s[0] == 0xFF {
            assert(unsynch_stuff(s) == seq![0xFFu8, 0x00u8] + unsynch_stuff(s.skip(1)));
            assert((seq![0xFFu8, 0x00u8] + unsynch_stuff(s.skip(1))).skip(2) =~= unsynch_stuff(
                s.skip(1),
            ));
            assert(unsynch_destuff(unsynch_stuff(s)) =~= s);
        } else {
            assert(unsynch_stuff(s) == seq![s[0]] + unsynch_stuff(s.skip(1)));
            let t = seq![s[0]] + unsynch_stuff(s.skip(1));
            assert(t.skip(1) =~= unsynch_stuff(s.skip(1)));
            if t[0] == 0xFF && t.len() >= 2 && t[1] == 0x00 {
                // The first byte of a stuffed tail is never 0x00.
                assert(unsynch_stuff(s.skip(1)).len() >= 1);
                assert(unsynch_stuff(s.skip(1))[0] != 0x00);
                assert(false);
            }
            assert(unsynch_destuff(unsynch_stuff(s)) =~= s);
        }
    }
}

/// The stuffed form of a non-empty sequence never starts with a zero byte.
pub proof fn lemma_unsynch_stuff_head(s: Seq<u8>)
    requires
        s.len() >= 1,
    ensures
        unsynch_stuff(s).len() >= 1,
        unsynch_stuff(s)[0] != 0x00 || s[0] == 0x00,
        unsynch_stuff(s)[0] == s[0],
{
}

/// Applies the unsynchronization stuffing to `data`.
pub fn stuff(data: &[u8]) -> (r: Vec<u8>)
    ensures
        r@ == unsynch_stuff(data@),
{
    let mut out: Vec<u8> = Vec::new();
    let mut i: usize = 0;
    while i < data.len()
        invariant
            i <= data@.len(),
            out@ == unsynch_stuff(data@.take(i as int)),
        decreases data@.len() - i,
    {
        let b = data[i];
        out.push(b);
        if b == 0xFF {
            out.push(0x00);
        }
        proof {
            let pre = data@.take(i as int);
            let one = seq![data@[i as int]];
            assert(data@.take(i + 1) =~= pre + one);
            lemma_unsynch_stuff_concat(pre, one);
            assert(one.skip(1) =~= Seq::<u8>::empty());
            assert(unsynch_stuff(Seq::<u8>::empty()) =~= Seq::<u8>::empty());
            if data@[i as int] == 0xFF {
                assert(unsynch_stuff(one) =~= seq![0xFFu8, 0x00u8]);
            } else {
                assert(unsynch_stuff(one) =~= seq![data@[i as int]]);
            }
            assert(out@ =~= unsynch_stuff(data@.take(i + 1)));
        }
        i = i + 1;
    }
    proof {
        assert(data@.take(data@.len() as int) =~= data@);
    }
    out
}

/// Removes the unsynchronization stuffing from `data`.
pub fn destuff(data: &[u8]) -> (r: Vec<u8>)
    ensures
        r@ == unsynch_destuff(data@),
{
    let mut out: Vec<u8> = Vec::new();
    let mut i: usize = 0;
    proof {
        assert(data@.skip(0) =~= data@);
        assert(out@ + unsynch_destuff(data@) =~= unsynch_destuff(data@));
    }
    while i < data.len()
        invariant
            i <= data@.len(),
            unsynch_destuff(data@) == out@ + unsynch_destuff(data@.skip(i as int)),
        decreases data@.len() - i,
    {
        let b = data[i];
        out.push(b);
        proof {
            assert(data@.skip(i as int)[0] == data@[i as int]);
        }
        if b == 0xFF && i + 1 < data.len() && data[i + 1] == 0x00 {
            proof {
                let rest = data@.skip(i as int);
                assert(rest.len() >= 2 && rest[0] == 0xFF && rest[1] == 0x00);
                assert(rest.skip(2) =~= data@.skip(i + 2));
            }
            i = i + 2;
        } else {
            proof {
                let rest = data@.skip(i as int);
                assert(!(rest[0] == 0xFF && rest.len() >= 2 && rest[1] == 0x00));
                assert(rest.skip(1) =~= data@.skip(i + 1));
            }
            i = i + 1;
        }
    }
    proof {
        assert(data@.skip(data@.len() as int) =~= Seq::<u8>::empty());
        assert(out@ =~= unsynch_destuff(data@));
    }
    out
}

} // verus!
