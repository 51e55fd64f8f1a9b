//! The hash type shared by all stores, and its byte encodings.
//!
//! Every store keys and stores 256-bit values (block hashes, class hashes,
//! field elements). One concrete opaque value type stands for all of them,
//! held as four 64-bit limbs, least significant first. On the engine it is
//! laid out as 32 bytes: each limb little-endian, limb 0 first.

use vstd::bytes::*;
use vstd::prelude::*;
use vstd::slice::slice_subrange;

verus! {

/// A 256-bit opaque value: a block hash, class hash or field element.
#[derive(Clone, Copy, Debug, PartialEq, Eq, Hash, Structural)]
pub struct StarkHash {
    pub limb0: u64,
    pub limb1: u64,
    pub limb2: u64,
    pub limb3: u64,
}

impl StarkHash {
    /// The value with all limbs zero.
    pub fn zero() -> (r: StarkHash)
        ensures
            r == StarkHash::spec_zero(),
    {
        StarkHash { limb0: 0, limb1: 0, limb2: 0, limb3: 0 }
    }

    pub open spec fn spec_zero() -> StarkHash {
        StarkHash { limb0: 0, limb1: 0, limb2: 0, limb3: 0 }
    }

    /// The hash whose numeric value is a small integer.
    pub fn from_u64(x: u64) -> (r: StarkHash)
        ensures
            r == StarkHash::spec_from_u64(x),
    {
        StarkHash { limb0: x, limb1: 0, limb2: 0, limb3: 0 }
    }

    pub open spec fn spec_from_u64(x: u64) -> StarkHash {
        StarkHash { limb0: x, limb1: 0, limb2: 0, limb3: 0 }
    }

    /// The hash holding a 128-bit integer in its two low limbs.
    pub fn from_u128(x: u128) -> (r: StarkHash)
        ensures
            r == StarkHash::spec_from_u128(x),
    {
        StarkHash {
            limb0: (x as u64),
            limb1: ((x >> 64) as u64),
            limb2: 0,
            limb3: 0,
        }
    }

    pub open spec fn spec_from_u128(x: u128) -> StarkHash {
        StarkHash { limb0: (x as u64), limb1: ((x >> 64) as u64), limb2: 0, limb3: 0 }
    }
}

/// The address of a deployed contract.
#[derive(Clone, Copy, Debug, PartialEq, Eq, Hash, Structural)]
pub struct ContractAddress(pub StarkHash);

/// The hash identifying a declared contract class.
#[derive(Clone, Copy, Debug, PartialEq, Eq, Hash, Structural)]
pub struct ClassHash(pub StarkHash);

/// A key of a contract's storage.
#[derive(Clone, Copy, Debug, PartialEq, Eq, Hash, Structural)]
pub struct StorageKey(pub StarkHash);

/// The 32-byte engine encoding of a hash.
pub open spec fn hash_bytes(h: StarkHash) -> Seq<u8> {
    spec_u64_to_le_bytes(h.limb0) + spec_u64_to_le_bytes(h.limb1) + spec_u64_to_le_bytes(h.limb2)
        + spec_u64_to_le_bytes(h.limb3)
}

/// The hash read back from a 32-byte engine value.
pub open spec fn hash_from_bytes(s: Seq<u8>) -> StarkHash
    recommends
        s.len() == 32,
{
    StarkHash {
        limb0: spec_u64_from_le_bytes(s.subrange(0, 8)),
        limb1: spec_u64_from_le_bytes(s.subrange(8, 16)),
        limb2: spec_u64_from_le_bytes(s.subrange(16, 24)),
        limb3: spec_u64_from_le_bytes(s.subrange(24, 32)),
    }
}

pub proof fn lemma_hash_bytes_len(h: StarkHash)
    ensures
        hash_bytes(h).len() == 32,
{
    lemma_auto_spec_u64_to_from_le_bytes();
}

/// Decoding inverts encoding: the 32 bytes written for a hash read back as
/// the same hash.
pub proof fn lemma_hash_bytes_round_trip(h: StarkHash)
    ensures
        hash_bytes(h).len() == 32,
        hash_from_bytes(hash_bytes(h)) == h,
{
    lemma_auto_spec_u64_to_from_le_bytes();
    let s = hash_bytes(h);
    assert(s.subrange(0, 8) =~= spec_u64_to_le_bytes(h.limb0));
    assert(s.subrange(8, 16) =~= spec_u64_to_le_bytes(h.limb1));
    assert(s.subrange(16, 24) =~= spec_u64_to_le_bytes(h.limb2));
    assert(s.subrange(24, 32) =~= spec_u64_to_le_bytes(h.limb3));
}

/// Distinct hashes have distinct engine encodings.
pub proof fn lemma_hash_bytes_injective(a: StarkHash, b: StarkHash)
    requires
        hash_bytes(a) == hash_bytes(b),
    ensures
        a == b,
{
    lemma_hash_bytes_round_trip(a);
    lemma_hash_bytes_round_trip(b);
}

/// Encode a hash as its 32 engine bytes.
pub fn hash_to_vec(h: &StarkHash) -> (r: Vec<u8>)
    ensures
        r@ == hash_bytes(*h),
        r@.len() == 32,
{
    proof {
        lemma_hash_bytes_len(*h);
    }
    let mut r = u64_to_le_bytes(h.limb0);
    let mut b1 = u64_to_le_bytes(h.limb1);
    let mut b2 = u64_to_le_bytes(h.limb2);
    let mut b3 = u64_to_le_bytes(h.limb3);
    r.append(&mut b1);
    r.append(&mut b2);
    r.append(&mut b3);
    r
}

/// Decode a hash from its 32 engine bytes.
pub fn hash_from_slice(s: &[u8]) -> (r: StarkHash)
    requires
        s@.len() == 32,
    ensures
        r == hash_from_bytes(s@),
{
    let limb0 = u64_from_le_bytes(slice_subrange(s, 0, 8));
    let limb1 = u64_from_le_bytes(slice_subrange(s, 8, 16));
    let limb2 = u64_from_le_bytes(slice_subrange(s, 16, 24));
    let limb3 = u64_from_le_bytes(slice_subrange(s, 24, 32));
    StarkHash { limb0, limb1, limb2, limb3 }
}

/// The engine encoding of a list of hashes: each hash's 32 bytes, in order.
pub open spec fn hash_list_bytes(hs: Seq<StarkHash>) -> Seq<u8>
    decreases hs.len(),
{
    if hs.len() == 0 {
        Seq::empty()
    } else {
        hash_list_bytes(hs.drop_last()) + hash_bytes(hs.last())
    }
}

/// The list of hashes read back from a value whose length is a multiple
/// of 32.
pub open spec fn hash_list_from_bytes(s: Seq<u8>) -> Seq<StarkHash>
    recommends
        s.len() % 32 == 0,
    decreases s.len(),
{
    if s.len() < 32 {
        Seq::empty()
    } else {
        hash_list_from_bytes(s.subrange(0, s.len() - 32)).push(
            hash_from_bytes(s.subrange(s.len() - 32, s.len() as int)),
        )
    }
}

pub proof fn lemma_hash_list_bytes_len(hs: Seq<StarkHash>)
    ensures
        hash_list_bytes(hs).len() == 32 * hs.len(),
    decreases hs.len(),
{
    if hs.len() == 0 {
    } else {
        lemma_hash_list_bytes_len(hs.drop_last());
        lemma_hash_bytes_len(hs.last());
    }
}

/// Decoding inverts encoding for lists of hashes.
pub proof fn lemma_hash_list_round_trip(hs: Seq<StarkHash>)
    ensures
        hash_list_bytes(hs).len() == 32 * hs.len(),
        hash_list_from_bytes(hash_list_bytes(hs)) == hs,
    decreases hs.len(),
{
    lemma_hash_list_bytes_len(hs);
    if hs.len() == 0 {
        assert(hash_list_from_bytes(hash_list_bytes(hs)) =~= hs);
    } else {
        lemma_hash_list_round_trip(hs.drop_last());
        lemma_hash_bytes_round_trip(hs.last());
        let s = hash_list_bytes(hs);
        lemma_hash_list_bytes_len(hs.drop_last());
        assert(s.subrange(0, s.len() - 32) =~= hash_list_bytes(hs.drop_last()));
        assert(s.subrange(s.len() - 32, s.len() as int) =~= hash_bytes(hs.last()));
        assert(hash_list_from_bytes(s) =~= hs);
    }
}

/// Encode a list of hashes as one engine value.
pub fn hash_list_to_vec(hs: &Vec<StarkHash>) -> (r: Vec<u8>)
    ensures
        r@ == hash_list_bytes(hs@),
        r@.len() == 32 * hs@.len(),
{
    proof {
        lemma_hash_list_bytes_len(hs@);
    }
    let mut r: Vec<u8> = Vec::new();
    let mut i: usize = 0;
    while i < hs.len()
        invariant
            i <= hs@.len(),
            r@ == hash_list_bytes(hs@.take(i as int)),
        decreases hs@.len() - i,
    {
        let mut b = hash_to_vec(&hs[i]);
        r.append(&mut b);
        proof {
            let t = hs@.take(i + 1 as int);
            assert(t.drop_last() =~= hs@.take(i as int));
            assert(t.last() == hs@[i as int]);
        }
        i = i + 1;
    }
    proof {
        assert(hs@.take(hs@.len() as int) =~= hs@);
    }
    r
}

/// Decode a list of hashes from an engine value of 32-byte records.
pub fn hash_list_from_slice(s: &[u8]) -> (r: Vec<StarkHash>)
    requires
        s@.len() % 32 == 0,
    ensures
        r@ == hash_list_from_bytes(s@),
{
    proof {
        vstd::arithmetic::div_mod::lemma_fundamental_div_mod(s@.len() as int, 32);
    }
    let mut r: Vec<StarkHash> = Vec::new();
    let mut off: usize = 0;
    while off < s.len()
        invariant
            off <= s@.len(),
            off % 32 == 0,
            s@.len() % 32 == 0,
            r@ == hash_list_from_bytes(s@.subrange(0, off as int)),
        decreases s@.len() - off,
    {
        proof {
            vstd::arithmetic::div_mod::lemma_fundamental_div_mod(off as int, 32);
            vstd::arithmetic::div_mod::lemma_fundamental_div_mod(s@.len() as int, 32);
            assert(off + 32 <= s@.len()) by (nonlinear_arith)
                requires
                    (off as int) % 32 == 0,
                    (s@.len() as int) % 32 == 0,
                    (off as int) < s@.len(),
            ;
        }
        let h = hash_from_slice(slice_subrange(s, off, off + 32));
        r.push(h);
        proof {
            let hi = off + 32 as int;
            let sub = s@.subrange(0, hi);
            assert(sub.len() == hi);
            assert(sub.subrange(0, hi - 32) =~= s@.subrange(0, off as int));
            assert(sub.subrange(hi - 32, hi) =~= s@.subrange(off as int, hi));
        }
        off = off + 32;
    }
    proof {
        assert(s@.subrange(0, s@.len() as int) =~= s@);
    }
    r
}

} // verus!
