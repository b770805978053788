//! SHA3 proof-of-work: difficulty checks, seals and their verification, and
//! the decision step of the mining loop.
use vstd::prelude::*;
use std::sync::Arc;
use crate::hashing::{sha3_256, sha3_256_of};
use crate::scale::{le_bytes, pow256, push_le};

verus! {

/// A 256-bit hash.
pub type H256 = [u8; 32];

/// A 256-bit unsigned integer, as four 64-bit words, least significant first.
pub type U256 = [u64; 4];

/// 2 to the 64th.
pub open spec fn word() -> nat {
    0x1_0000_0000_0000_0000nat
}

/// 2 to the 256th.
pub open spec fn modulus() -> nat {
    0x1_0000_0000_0000_0000_0000_0000_0000_0000_0000_0000_0000_0000_0000_0000_0000_0000nat
}

/// The value of a 256-bit integer.
pub open spec fn value(a: U256) -> nat {
    a[0] as nat + word() * (a[1] as nat + word() * (a[2] as nat + word() * (a[3] as nat)))
}

/// The value of bytes read most significant first.
pub open spec fn be_value(s: Seq<u8>) -> nat
    decreases s.len(),
{
    if s.len() == 0 { 0 } else { be_value(s.drop_last()) * 256 + s.last() as nat }
}

/// The value of bytes read least significant first.
pub open spec fn le_value(s: Seq<u8>) -> nat
    decreases s.len(),
{
    if s.len() == 0 { 0 } else { s[0] as nat + 256 * le_value(s.drop_first()) }
}

/// `U256::from_big_endian` (primitive-types, through sp-core): the integer whose
/// big-endian bytes are `bytes`, as words.
#[verifier::external_body]
fn u256_from_big_endian(bytes: &H256) -> (r: U256)
    ensures
        value(r) == be_value(bytes@),
{
    sp_core::U256::from_big_endian(&bytes[..]).0
}

/// `U256::overflowing_mul`: the product modulo 2^256, and whether it reached 2^256.
#[verifier::external_body]
fn u256_overflowing_mul(a: U256, b: U256) -> (r: (U256, bool))
    ensures
        value(r.0) == (value(a) * value(b)) % modulus(),
        r.1 == (value(a) * value(b) >= modulus()),
{
    let (v, overflow) = sp_core::U256(a).overflowing_mul(sp_core::U256(b));
    (v.0, overflow)
}

/// `U256::saturating_add`: the sum, or the largest value when it does not fit.
#[verifier::external_body]
fn u256_saturating_add(a: U256, b: U256) -> (r: U256)
    ensures
        value(r) == if value(a) + value(b) < modulus() { value(a) + value(b) } else { (modulus() - 1) as nat },
{
    sp_core::U256(a).saturating_add(sp_core::U256(b)).0
}

/// Whether `hash`, read as a big-endian integer, times `difficulty` stays
/// below 2^256.
pub open spec fn meets_difficulty(hash: Seq<u8>, difficulty: U256) -> bool {
    be_value(hash) * value(difficulty) < modulus()
}

/// Whether the given hash satisfies the given difficulty.
pub fn hash_difficulty(hash: &H256, difficulty: U256) -> (r: bool)
    ensures
        r == meets_difficulty(hash@, difficulty),
{
    let h = u256_from_big_endian(hash);
    let (_, overflow) = u256_overflowing_mul(h, difficulty);
    !overflow
}

/// The SCALE encoding of a 256-bit integer: 32 bytes, least significant first.
pub open spec fn u256_bytes(a: U256) -> Seq<u8> {
    le_bytes(a[0] as nat, 8) + le_bytes(a[1] as nat, 8) + le_bytes(a[2] as nat, 8) + le_bytes(a[3] as nat, 8)
}

/// The input of the proof-of-work hash.
#[derive(Clone, Copy, Debug)]
pub struct Compute {
    pub difficulty: U256,
    pub pre_hash: H256,
    pub nonce: U256,
}

/// A proof-of-work seal.
#[derive(Clone, Copy, Debug)]
pub struct Seal {
    pub difficulty: U256,
    pub work: H256,
    pub nonce: U256,
}

/// The SCALE encoding of a [`Compute`]: difficulty, pre-hash, nonce.
pub open spec fn compute_bytes(difficulty: U256, pre_hash: Seq<u8>, nonce: U256) -> Seq<u8> {
    u256_bytes(difficulty) + pre_hash + u256_bytes(nonce)
}

/// The SCALE encoding of a [`Seal`]: difficulty, work, nonce.
pub open spec fn seal_bytes(s: Seal) -> Seq<u8> {
    u256_bytes(s.difficulty) + s.work@ + u256_bytes(s.nonce)
}

/// The word stored little-endian at `off` in `s`.
pub open spec fn word_at(s: Seq<u8>, off: int) -> u64 {
    le_value(s.subrange(off, off + 8)) as u64
}

/// The integer stored at `off` in `s`.
pub open spec fn u256_at(s: Seq<u8>, off: int) -> U256 {
    [word_at(s, off), word_at(s, off + 8), word_at(s, off + 16), word_at(s, off + 24)]
}

/// Whether `seal` is what its encoding `s` decodes to: its first 96 bytes.
pub open spec fn decodes_to(s: Seq<u8>, seal: Seal) -> bool {
    &&& s.len() >= 96
    &&& seal.difficulty == u256_at(s, 0)
    &&& seal.work@ == s.subrange(32, 64)
    &&& seal.nonce == u256_at(s, 64)
}

/// The work for `difficulty`, `pre_hash` and `nonce`: the SHA3-256 hash of
/// their encoding.
pub open spec fn work_of(difficulty: U256, pre_hash: Seq<u8>, nonce: U256) -> Seq<u8> {
    sha3_256_of(compute_bytes(difficulty, pre_hash, nonce))
}

/// Whether a raw seal proves the work on `pre_hash` at `difficulty`: it decodes,
/// its work meets the difficulty, and it holds that difficulty and the work
/// that its nonce gives.
pub open spec fn seal_valid(pre_hash: Seq<u8>, raw: Seq<u8>, difficulty: U256) -> bool {
    raw.len() >= 96 && exists|seal: Seal| #[trigger] decodes_to(raw, seal)
        && meets_difficulty(seal.work@, difficulty)
        && seal.difficulty == difficulty
        && work_of(difficulty, pre_hash, seal.nonce) == seal.work@
}

proof fn lemma_le_value_bound(s: Seq<u8>)
    ensures
        le_value(s) < pow256(s.len()),
    decreases s.len(),
{
    if s.len() > 0 {
        lemma_le_value_bound(s.drop_first());
        let r = le_value(s.drop_first());
        let p = pow256((s.len() - 1) as nat);
        assert(s[0] as nat + 256 * r < 256 * p) by (nonlinear_arith)
            requires
                r < p,
                s[0] < 256,
        ;
    }
}

/// Reads the little-endian word at `off`.
fn read_word(bytes: &[u8], off: usize) -> (r: u64)
    requires
        off + 8 <= bytes@.len(),
    ensures
        r == word_at(bytes@, off as int),
{
    let len = bytes.len();
    let mut acc: u64 = 0;
    let mut k: usize = 8;
    proof {
        assert(off + 8 <= len);
        assert(bytes@.subrange(off + 8, off + 8) =~= Seq::<u8>::empty());
        reveal_with_fuel(pow256, 9);
    }
    while k > 0
        invariant
            k <= 8,
            off + 8 <= bytes@.len(),
            off + 8 <= usize::MAX,
            acc as nat == le_value(bytes@.subrange(off + k, off + 8)),
            acc < pow256((8 - k) as nat),
        decreases k,
    {
        let ghost t = bytes@.subrange(off + k - 1, off + 8);
        proof {
            assert(t.drop_first() =~= bytes@.subrange(off + k, off + 8));
            lemma_le_value_bound(t);
            assert(t.len() == 8 - k + 1);
            assert(pow256((8 - k + 1) as nat) == 256 * pow256((8 - k) as nat));
            assert(pow256(8) == 0x1_0000_0000_0000_0000) by { reveal_with_fuel(pow256, 9); }
            lemma_pow256_mono((8 - k + 1) as nat, 8);
        }
        acc = bytes[off + k - 1] as u64 + 256 * acc;
        k = k - 1;
    }
    acc
}

proof fn lemma_pow256_mono(a: nat, b: nat)
    requires
        a <= b,
    ensures
        pow256(a) <= pow256(b),
    decreases b,
{
    if a < b {
        lemma_pow256_mono(a, (b - 1) as nat);
    }
}

fn push_u256(out: &mut Vec<u8>, a: U256)
    ensures
        final(out)@ == old(out)@ + u256_bytes(a),
{
    push_le(out, a[0], 8);
    push_le(out, a[1], 8);
    push_le(out, a[2], 8);
    push_le(out, a[3], 8);
    proof {
        assert(final(out)@ =~= old(out)@ + u256_bytes(a));
    }
}

fn read_u256(bytes: &[u8], off: usize) -> (r: U256)
    requires
        off + 32 <= bytes@.len(),
    ensures
        r == u256_at(bytes@, off as int),
{
    let len = bytes.len();
    assert(off + 32 <= len);
    [read_word(bytes, off), read_word(bytes, off + 8), read_word(bytes, off + 16), read_word(bytes, off + 24)]
}

impl Compute {
    /// The SCALE encoding of this input.
    pub fn encode(&self) -> (r: Vec<u8>)
        ensures
            r@ == compute_bytes(self.difficulty, self.pre_hash@, self.nonce),
    {
        let mut out: Vec<u8> = Vec::new();
        push_u256(&mut out, self.difficulty);
        let mut i: usize = 0;
        let ghost prefix = out@;
        while i < 32
            invariant
                i <= 32,
                self.pre_hash@.len() == 32,
                out@ == prefix + self.pre_hash@.subrange(0, i as int),
            decreases 32 - i,
        {
            out.push(self.pre_hash[i]);
            proof { assert(self.pre_hash@.subrange(0, i as int).push(self.pre_hash@[i as int]) =~= self.pre_hash@.subrange(0, i + 1)); }
            i = i + 1;
        }
        proof {
            assert(self.pre_hash@.subrange(0, 32) =~= self.pre_hash@);
            assert(Seq::<u8>::empty() + u256_bytes(self.difficulty) =~= u256_bytes(self.difficulty));
        }
        push_u256(&mut out, self.nonce);
        out
    }

    /// The seal of this input: its difficulty and nonce, and the SHA3-256 hash of
    /// its encoding as the work.
    pub fn compute(&self) -> (r: Seal)
        ensures
            r.difficulty == self.difficulty,
            r.nonce == self.nonce,
            r.work@ == work_of(self.difficulty, self.pre_hash@, self.nonce),
    {
        let encoded = self.encode();
        let work = sha3_256(encoded.as_slice());
        Seal { difficulty: self.difficulty, work, nonce: self.nonce }
    }
}

impl Seal {
    /// The SCALE encoding of this seal.
    pub fn encode(&self) -> (r: Vec<u8>)
        ensures
            r@ == seal_bytes(*self),
    {
        let c = Compute { difficulty: self.difficulty, pre_hash: self.work, nonce: self.nonce };
        c.encode()
    }

    /// Decodes a seal from the first 96 bytes of `bytes`; `None` when there
    /// are fewer.
    pub fn decode(bytes: &[u8]) -> (r: Option<Seal>)
        ensures
            match r {
                Some(seal) => decodes_to(bytes@, seal),
                None => bytes@.len() < 96,
            },
    {
        if bytes.len() < 96 {
            return None;
        }
        let difficulty = read_u256(bytes, 0);
        let mut work: H256 = [0u8; 32];
        let mut i: usize = 0;
        while i < 32
            invariant
                i <= 32,
                bytes@.len() >= 96,
                forall|j: int| 0 <= j < i ==> work@[j] == bytes@[32 + j],
            decreases 32 - i,
        {
            work[i] = bytes[32 + i];
            i = i + 1;
        }
        proof { assert(work@ =~= bytes@.subrange(32, 64)); }
        let nonce = read_u256(bytes, 64);
        Some(Seal { difficulty, work, nonce })
    }

    /// Whether two seals are the same: difficulty, work and nonce.
    pub fn same_as(&self, other: &Seal) -> (r: bool)
        ensures
            r == (self.difficulty == other.difficulty && self.work@ == other.work@ && self.nonce == other.nonce),
    {
        let mut same = self.difficulty[0] == other.difficulty[0] && self.difficulty[1] == other.difficulty[1]
            && self.difficulty[2] == other.difficulty[2] && self.difficulty[3] == other.difficulty[3]
            && self.nonce[0] == other.nonce[0] && self.nonce[1] == other.nonce[1]
            && self.nonce[2] == other.nonce[2] && self.nonce[3] == other.nonce[3];
        proof {
            assert(same == (self.difficulty =~= other.difficulty && self.nonce =~= other.nonce));
        }
        let mut i: usize = 0;
        while i < 32
            invariant
                i <= 32,
                same ==> forall|j: int| 0 <= j < i ==> self.work@[j] == other.work@[j],
                !same ==> !(self.difficulty == other.difficulty && self.work@ == other.work@ && self.nonce == other.nonce),
                same ==> self.difficulty == other.difficulty && self.nonce == other.nonce,
            decreases 32 - i,
        {
            if self.work[i] != other.work[i] {
                same = false;
            }
            i = i + 1;
        }
        proof {
            if same {
                assert(self.work@ =~= other.work@);
            }
        }
        same
    }
}

/// Checks a raw seal against `pre_hash` and `difficulty`.
pub fn verify_seal(pre_hash: &H256, raw_seal: &[u8], difficulty: U256) -> (r: bool)
    ensures
        r == seal_valid(pre_hash@, raw_seal@, difficulty),
{
    let seal = match Seal::decode(raw_seal) {
        Some(s) => s,
        None => return false,
    };
    proof { lemma_decode_unique(raw_seal@, seal); }
    if !hash_difficulty(&seal.work, difficulty) {
        return false;
    }
    let compute = Compute { difficulty, pre_hash: *pre_hash, nonce: seal.nonce };
    if !compute.compute().same_as(&seal) {
        return false;
    }
    true
}

/// A seal decodes in one way only.
proof fn lemma_decode_unique(s: Seq<u8>, seal: Seal)
    requires
        decodes_to(s, seal),
    ensures
        forall|other: Seal| #[trigger] decodes_to(s, other) ==> other.difficulty == seal.difficulty
            && other.work@ == seal.work@ && other.nonce == seal.nonce,
{
}

/// Why a proof-of-work query failed.
#[derive(Debug)]
pub enum PowError {
    /// The runtime could not be asked; the text says why.
    Environment(String),
}

/// The text that starts the message of a failed difficulty query.
pub open spec fn difficulty_failure_prefix() -> Seq<char> {
    seq!['D', 'i', 'f', 'f', 'i', 'c', 'u', 'l', 't', 'y', ' ', 'f', 'r', 'o', 'm', ' ', 'R', 'u', 'n', 't', 'i', 'm',
        'e', ' ', 'F', 'a', 'i', 'l', 'e', 'd', ':', ' ']
}

/// Proof of work whose difficulty comes from the runtime through `client`.
#[derive(Clone)]
pub struct ShaAlgorithm<C> {
    pub client: Arc<C>,
}

impl<C> ShaAlgorithm<C> {
    /// The algorithm over `client`.
    pub fn new(client: Arc<C>) -> (r: Self)
        ensures
            r.client == client,
    {
        ShaAlgorithm { client }
    }

    /// Checks a raw seal against `pre_hash` and `difficulty`.
    pub fn verify(&self, pre_hash: &H256, seal: &[u8], difficulty: U256) -> (r: bool)
        ensures
            r == seal_valid(pre_hash@, seal@, difficulty),
    {
        verify_seal(pre_hash, seal, difficulty)
    }

    /// The difficulty for the block after a parent, given what the runtime
    /// answered when asked for it at that parent (an error as its debug text):
    /// its difficulty, or an environment error that says the query failed and why.
    pub fn difficulty(&self, runtime_answer: Result<U256, String>) -> (r: Result<U256, PowError>)
        ensures
            match runtime_answer {
                Ok(d) => r matches Ok(x) && x == d,
                Err(e) => r matches Err(PowError::Environment(m)) && m@ == difficulty_failure_prefix() + e@,
            },
    {
        match runtime_answer {
            Ok(d) => Ok(d),
            Err(e) => {
                let mut message = String::from_str("Difficulty from Runtime Failed: ");
                proof {
                    reveal_strlit("Difficulty from Runtime Failed: ");
                    assert(message@ =~= difficulty_failure_prefix());
                }
                message.append(e.as_str());
                Err(PowError::Environment(message))
            },
        }
    }
}

/// Proof of work at a fixed difficulty.
#[derive(Clone, Copy, Debug)]
pub struct SimplePoWAlgo;

impl SimplePoWAlgo {
    /// The fixed difficulty: one million.
    pub fn difficulty(&self) -> (r: U256)
        ensures
            value(r) == 1_000_000,
    {
        [1_000_000u64, 0, 0, 0]
    }

    /// Checks a raw seal against `pre_hash` and `difficulty`.
    pub fn verify(&self, pre_hash: &H256, seal: &[u8], difficulty: U256) -> (r: bool)
        ensures
            r == seal_valid(pre_hash@, seal@, difficulty),
    {
        verify_seal(pre_hash, seal, difficulty)
    }
}

/// What the mining worker reports: the difficulty and the pre-hash of the block
/// being mined.
#[derive(Clone, Copy, Debug)]
pub struct MiningMetadata {
    pub difficulty: U256,
    pub pre_hash: H256,
}

/// What the mining loop does next.
#[derive(Debug)]
pub enum MiningAction {
    /// Nothing to mine: wait a second.
    Sleep,
    /// Submit this encoded seal.
    Submit(Vec<u8>),
    /// Try the next nonce.
    Continue,
}

/// The nonce after `nonce` in the mining loop: one more, wrapping to zero at
/// the largest value and the one before it.
pub open spec fn next_nonce(nonce: U256) -> nat {
    if value(nonce) + 1 >= modulus() - 1 { 0 } else { value(nonce) + 1 }
}

/// One step of the mining loop: with metadata, the seal for the current nonce is
/// computed; one that meets its difficulty is submitted and the nonce restarts
/// at zero, otherwise the nonce moves on. Without metadata the loop waits.
pub fn mining_step(metadata: Option<MiningMetadata>, nonce: U256) -> (r: (U256, MiningAction))
    ensures
        match metadata {
            None => r.0 == nonce && r.1 is Sleep,
            Some(m) => {
                let work = work_of(m.difficulty, m.pre_hash@, nonce);
                if meets_difficulty(work, m.difficulty) {
                    value(r.0) == 0 && (r.1 matches MiningAction::Submit(bytes)
                        && bytes@ == u256_bytes(m.difficulty) + work + u256_bytes(nonce))
                } else {
                    value(r.0) == next_nonce(nonce) && r.1 is Continue
                }
            },
        },
{
    match metadata {
        None => (nonce, MiningAction::Sleep),
        Some(m) => {
            let compute = Compute { difficulty: m.difficulty, pre_hash: m.pre_hash, nonce };
            let seal = compute.compute();
            if hash_difficulty(&seal.work, seal.difficulty) {
                (([0u64; 4]), MiningAction::Submit(seal.encode()))
            } else {
                let next = u256_saturating_add(nonce, [1u64, 0, 0, 0]);
                if next[0] == u64::MAX && next[1] == u64::MAX && next[2] == u64::MAX && next[3] == u64::MAX {
                    proof { lemma_max_value(next); }
                    ([0u64; 4], MiningAction::Continue)
                } else {
                    proof { lemma_below_max(next); }
                    (next, MiningAction::Continue)
                }
            }
        },
    }
}

proof fn lemma_max_value(a: U256)
    requires
        a[0] == u64::MAX && a[1] == u64::MAX && a[2] == u64::MAX && a[3] == u64::MAX,
    ensures
        value(a) == modulus() - 1,
{
}

proof fn lemma_below_max(a: U256)
    requires
        !(a[0] == u64::MAX && a[1] == u64::MAX && a[2] == u64::MAX && a[3] == u64::MAX),
    ensures
        value(a) < modulus() - 1,
{
    assert(a[0] <= u64::MAX && a[1] <= u64::MAX && a[2] <= u64::MAX && a[3] <= u64::MAX);
    assert(value(a) < modulus() - 1) by (nonlinear_arith)
        requires
            a[0] <= 0xffff_ffff_ffff_ffffu64,
            a[1] <= 0xffff_ffff_ffff_ffffu64,
            a[2] <= 0xffff_ffff_ffff_ffffu64,
            a[3] <= 0xffff_ffff_ffff_ffffu64,
            !(a[0] == 0xffff_ffff_ffff_ffffu64 && a[1] == 0xffff_ffff_ffff_ffffu64 && a[2] == 0xffff_ffff_ffff_ffffu64 && a[3] == 0xffff_ffff_ffff_ffffu64),
    ;
}

/// Reading back the little-endian bytes of a value gives the value, modulo
/// the range the bytes can hold.
proof fn lemma_le_round_trip(x: nat, n: nat)
    ensures
        le_bytes(x, n).len() == n,
        le_value(le_bytes(x, n)) == x % pow256(n),
    decreases n,
{
    if n == 0 {
        assert(le_bytes(x, n) =~= Seq::<u8>::empty());
    } else {
        lemma_le_round_trip(x / 256, (n - 1) as nat);
        let rest = le_bytes(x / 256, (n - 1) as nat);
        let b = le_bytes(x, n);
        assert(b =~= seq![(x % 256) as u8] + rest);
        assert(b.drop_first() =~= rest);
        let p = pow256((n - 1) as nat);
        assert(p > 0) by { lemma_pow256_positive((n - 1) as nat); }
        vstd::arithmetic::div_mod::lemma_breakdown(x as int, 256, p as int);
    }
}

proof fn lemma_pow256_positive(k: nat)
    ensures
        pow256(k) > 0,
    decreases k,
{
    if k > 0 {
        lemma_pow256_positive((k - 1) as nat);
    }
}

/// The words of an encoded integer read back as the integer.
proof fn lemma_u256_round_trip(prefix: Seq<u8>, a: U256, suffix: Seq<u8>)
    ensures
        u256_at(prefix + u256_bytes(a) + suffix, prefix.len() as int) == a,
        u256_bytes(a).len() == 32,
{
    let s = prefix + u256_bytes(a) + suffix;
    let off = prefix.len() as int;
    assert(pow256(8) == 0x1_0000_0000_0000_0000) by { reveal_with_fuel(pow256, 9); }
    lemma_le_round_trip(a[0] as nat, 8);
    lemma_le_round_trip(a[1] as nat, 8);
    lemma_le_round_trip(a[2] as nat, 8);
    lemma_le_round_trip(a[3] as nat, 8);
    assert(s.subrange(off, off + 8) =~= le_bytes(a[0] as nat, 8));
    assert(s.subrange(off + 8, off + 16) =~= le_bytes(a[1] as nat, 8));
    assert(s.subrange(off + 16, off + 24) =~= le_bytes(a[2] as nat, 8));
    assert(s.subrange(off + 24, off + 32) =~= le_bytes(a[3] as nat, 8));
    assert(u256_at(s, off) =~= a);
}

/// An encoded seal decodes to itself.
pub proof fn lemma_seal_round_trip(seal: Seal)
    ensures
        decodes_to(seal_bytes(seal), seal),
{
    let b = seal_bytes(seal);
    lemma_u256_round_trip(Seq::empty(), seal.difficulty, seal.work@ + u256_bytes(seal.nonce));
    assert(b =~= Seq::<u8>::empty() + u256_bytes(seal.difficulty) + (seal.work@ + u256_bytes(seal.nonce)));
    lemma_u256_round_trip(u256_bytes(seal.difficulty) + seal.work@, seal.nonce, Seq::empty());
    assert(b =~= (u256_bytes(seal.difficulty) + seal.work@) + u256_bytes(seal.nonce) + Seq::<u8>::empty());
    assert(b.subrange(32, 64) =~= seal.work@);
}

/// A computed seal that meets its difficulty passes verification: whatever
/// nonce and pre-hash it was computed from, its encoding is accepted for that
/// pre-hash at its difficulty.
pub proof fn law_computed_seal_verifies(pre_hash: H256, seal: Seal)
    requires
        seal.work@ == work_of(seal.difficulty, pre_hash@, seal.nonce),
        meets_difficulty(seal.work@, seal.difficulty),
    ensures
        seal_valid(pre_hash@, seal_bytes(seal), seal.difficulty),
{
    lemma_seal_round_trip(seal);
}

/// What the mining loop submits passes verification for the block it mined.
pub proof fn law_submitted_seal_verifies(m: MiningMetadata, nonce: U256, work: H256)
    requires
        work@ == work_of(m.difficulty, m.pre_hash@, nonce),
        meets_difficulty(work@, m.difficulty),
    ensures
        seal_valid(m.pre_hash@, u256_bytes(m.difficulty) + work@ + u256_bytes(nonce), m.difficulty),
{
    law_computed_seal_verifies(m.pre_hash, Seal { difficulty: m.difficulty, work, nonce });
}

/// Only seals that meet the difficulty pass: a raw seal accepted for `pre_hash` at
/// `difficulty` has at least 96 bytes; its work (bytes 32 to 64), read big-endian,
/// times the difficulty is below 2^256; it names that difficulty in its first 32
/// bytes; and its work is the SHA3-256 hash of the difficulty, the pre-hash and
/// its nonce (bytes 64 to 96).
pub proof fn law_accepted_seal_meets_difficulty(pre_hash: H256, raw: Seq<u8>, difficulty: U256)
    requires
        seal_valid(pre_hash@, raw, difficulty),
    ensures
        raw.len() >= 96,
        be_value(raw.subrange(32, 64)) * value(difficulty) < modulus(),
        u256_at(raw, 0) == difficulty,
        raw.subrange(32, 64) == sha3_256_of(u256_bytes(difficulty) + pre_hash@ + u256_bytes(u256_at(raw, 64))),
{
    let seal = choose|seal: Seal| #[trigger] decodes_to(raw, seal)
        && meets_difficulty(seal.work@, difficulty)
        && seal.difficulty == difficulty
        && work_of(difficulty, pre_hash@, seal.nonce) == seal.work@;
    assert(decodes_to(raw, seal));
}

/// A seal whose work does not meet the difficulty is refused, whatever else it holds.
pub proof fn law_seal_short_of_difficulty_is_refused(pre_hash: H256, raw: Seq<u8>, difficulty: U256)
    requires
        raw.len() >= 96,
        be_value(raw.subrange(32, 64)) * value(difficulty) >= modulus(),
    ensures
        !seal_valid(pre_hash@, raw, difficulty),
{
    if seal_valid(pre_hash@, raw, difficulty) {
        law_accepted_seal_meets_difficulty(pre_hash, raw, difficulty);
    }
}

} // verus!
