//! The SCALE encodings the pallets hash and sign: little-endian integers and
//! compact-length-prefixed byte strings.
use vstd::prelude::*;

verus! {

/// The `n` low bytes of `x`, least significant first.
pub open spec fn le_bytes(x: nat, n: nat) -> Seq<u8>
    decreases n,
{
    if n == 0 {
        Seq::empty()
    } else {
        seq![(x % 256) as u8] + le_bytes(x / 256, (n - 1) as nat)
    }
}

/// Number of bytes needed to write `x` (zero for zero).
pub open spec fn byte_len(x: nat) -> nat
    decreases x,
{
    if x == 0 { 0 } else { 1 + byte_len(x / 256) }
}

/// SCALE compact encoding of a length: one, two or four bytes holding the value
/// shifted left by two with the mode in the low bits, or for lengths from 2^30 a
/// mode byte giving the byte count less four followed by the value's bytes.
pub open spec fn compact_len(n: nat) -> Seq<u8> {
    if n < 64 {
        le_bytes(n * 4, 1)
    } else if n < 16384 {
        le_bytes(n * 4 + 1, 2)
    } else if n < 1073741824 {
        le_bytes(n * 4 + 2, 4)
    } else {
        seq![((byte_len(n) - 4) * 4 + 3) as u8] + le_bytes(n, byte_len(n))
    }
}

/// SCALE encoding of a byte string: its compact length, then its bytes.
pub open spec fn encoded_bytes(v: Seq<u8>) -> Seq<u8> {
    compact_len(v.len()) + v
}

/// Appends the `n` low bytes of `x`, least significant first.
pub fn push_le(out: &mut Vec<u8>, x: u64, n: usize)
    ensures
        final(out)@ == old(out)@ + le_bytes(x as nat, n as nat),
{
    let mut cur: u64 = x;
    let mut i: usize = 0;
    while i < n
        invariant
            i <= n,
            out@ + le_bytes(cur as nat, (n - i) as nat) == old(out)@ + le_bytes(x as nat, n as nat),
        decreases n - i,
    {
        let ghost before = out@;
        let b: u8 = (cur % 256) as u8;
        out.push(b);
        proof {
            let rest = le_bytes((cur / 256) as nat, (n - i - 1) as nat);
            assert(le_bytes(cur as nat, (n - i) as nat) == seq![b] + rest);
            assert(before + (seq![b] + rest) =~= before.push(b) + rest);
        }
        cur = cur / 256;
        i = i + 1;
    }
    proof {
        assert(le_bytes(cur as nat, 0) =~= Seq::<u8>::empty());
        assert(out@ + Seq::<u8>::empty() =~= out@);
    }
}

/// The number of bytes needed to write `x`.
pub fn bytes_needed(x: u64) -> (r: usize)
    ensures
        r == byte_len(x as nat),
        r <= 8,
{
    proof {
        reveal_with_fuel(pow256, 9);
        assert(pow256(8) == 0x1_0000_0000_0000_0000);
        lemma_byte_len_bound(x as nat, 8);
    }
    let mut t: u64 = x;
    let mut count: usize = 0;
    while t > 0
        invariant
            count + byte_len(t as nat) == byte_len(x as nat),
            byte_len(x as nat) <= 8,
        decreases t,
    {
        t = t / 256;
        count = count + 1;
    }
    count
}

/// 256 to the power `k`.
pub open spec fn pow256(k: nat) -> nat
    decreases k,
{
    if k == 0 { 1 } else { 256 * pow256((k - 1) as nat) }
}

proof fn lemma_byte_len_bound(x: nat, k: nat)
    requires
        x < pow256(k),
    ensures
        byte_len(x) <= k,
    decreases k,
{
    if x > 0 {
        if k == 0 {
        } else {
            assert(x / 256 < pow256((k - 1) as nat));
            lemma_byte_len_bound(x / 256, (k - 1) as nat);
        }
    }
}

/// Appends the SCALE compact encoding of a length.
pub fn push_compact_len(out: &mut Vec<u8>, n: u64)
    ensures
        final(out)@ == old(out)@ + compact_len(n as nat),
{
    if n < 64 {
        push_le(out, n * 4, 1);
    } else if n < 16384 {
        push_le(out, n * 4 + 1, 2);
    } else if n < 1073741824 {
        push_le(out, n * 4 + 2, 4);
    } else {
        let k = bytes_needed(n);
        proof {
            lemma_byte_len_at_least_four(n as nat);
        }
        let ghost before = out@;
        let mode: u8 = ((k - 4) * 4 + 3) as u8;
        out.push(mode);
        push_le(out, n, k);
        proof {
            assert(before.push(mode) + le_bytes(n as nat, k as nat) =~= before + (seq![mode] + le_bytes(n as nat, k as nat)));
        }
    }
}

proof fn lemma_byte_len_at_least_four(x: nat)
    requires
        x >= 1073741824,
    ensures
        byte_len(x) >= 4,
{
    assert(x / 256 >= 4194304);
    assert(x / 256 / 256 >= 16384);
    assert(x / 256 / 256 / 256 >= 64);
    assert(byte_len(x / 256 / 256 / 256) >= 1);
    assert(byte_len(x / 256 / 256) >= 2);
    assert(byte_len(x / 256) >= 3);
}

/// Appends the SCALE encoding of a byte string.
pub fn push_encoded_bytes(out: &mut Vec<u8>, v: &[u8])
    ensures
        final(out)@ == old(out)@ + encoded_bytes(v@),
{
    let ghost before = out@;
    push_compact_len(out, v.len() as u64);
    let mut i: usize = 0;
    while i < v.len()
        invariant
            i <= v@.len(),
            out@ == before + compact_len(v@.len()) + v@.subrange(0, i as int),
        decreases v.len() - i,
    {
        out.push(v[i]);
        proof {
            assert(v@.subrange(0, i as int).push(v@[i as int]) =~= v@.subrange(0, i + 1));
        }
        i = i + 1;
    }
    proof {
        assert(v@.subrange(0, v@.len() as int) =~= v@);
        assert(before + compact_len(v@.len()) + v@ =~= before + encoded_bytes(v@));
    }
}

} // verus!
