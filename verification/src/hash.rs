//! 32-byte hashes and the player reference commitment.

use vstd::prelude::*;

verus! {

/// A 32-byte hash value.
#[derive(Clone, Copy, Debug, Eq)]
pub struct Hash32 {
    pub bytes: [u8; 32],
}

impl View for Hash32 {
    type V = Seq<u8>;

    open spec fn view(&self) -> Seq<u8> {
        self.bytes@
    }
}

impl PartialEq for Hash32 {
    fn eq(&self, other: &Self) -> (same: bool) {
        let mut i: usize = 0;
        while i < 32
            invariant
                i <= 32,
                forall|j: int| 0 <= j < i ==> self.bytes[j] == other.bytes[j],
            decreases 32 - i,
        {
            if self.bytes[i] != other.bytes[i] {
                return false;
            }
            i += 1;
        }
        assert(self.bytes =~= other.bytes);
        true
    }
}

impl vstd::std_specs::cmp::PartialEqSpecImpl for Hash32 {
    open spec fn obeys_eq_spec() -> bool {
        true
    }

    open spec fn eq_spec(&self, other: &Self) -> bool {
        *self == *other
    }
}

/// Two hashes with the same bytes are the same hash.
pub proof fn lemma_hash_ext(a: Hash32, b: Hash32)
    requires
        a@ == b@,
    ensures
        a == b,
{
    assert forall|i: int| 0 <= i < 32 implies a.bytes[i] == b.bytes[i] by {
        assert(a.bytes@[i] == b.bytes@[i]);
    }
    assert(a.bytes =~= b.bytes);
}

/// The hash with the given bytes.
pub open spec fn hash_of(bytes: Seq<u8>) -> Hash32 {
    choose|h: Hash32| h@ == bytes
}

/// A hash is the hash with its bytes.
pub proof fn lemma_hash_of(h: Hash32)
    ensures
        hash_of(h@) == h,
{
    lemma_hash_ext(hash_of(h@), h);
}

/// The unkeyed BLAKE2b hash of `data` with a 32-byte output, as `blake2b_simd` computes it.
pub uninterp spec fn blake2b_256(data: Seq<u8>) -> Seq<u8>;

/// Calls `blake2b_simd::Params::new().hash_length(32).to_state().update(data).finalize()`.
///
/// Trusted: the bytes that come back depend on `data` alone, and are named `blake2b_256`.
#[verifier::external_body]
fn blake2b_simd_hash(data: &[u8]) -> (digest: [u8; 32])
    ensures
        digest@ == blake2b_256(data@),
{
    let hash = blake2b_simd::Params::new().hash_length(32).to_state().update(data).finalize();
    kaspa_consensus_core::Hash::from_slice(hash.as_bytes()).as_bytes()
}

/// Hashes `data` to a `Hash32`.
pub fn blake2b(data: &[u8]) -> (hash: Hash32)
    ensures
        hash@ == blake2b_256(data@),
{
    Hash32 { bytes: blake2b_simd_hash(data) }
}

/// Hashes the 64 bytes of `left` followed by `right`.
pub fn hash_pair(left: Hash32, right: Hash32) -> (hash: Hash32)
    ensures
        hash@ == blake2b_256(left@ + right@),
{
    let mut data: Vec<u8> = Vec::new();
    data.extend_from_slice(left.bytes.as_slice());
    data.extend_from_slice(right.bytes.as_slice());
    assert(data@ =~= left@ + right@);
    blake2b(data.as_slice())
}

/// The bytes by which a game state refers to a player: the hash of owner and player id.
pub open spec fn player_ref_bytes(owner_hash: Hash32, player_id: Hash32) -> Seq<u8> {
    blake2b_256(owner_hash@ + player_id@)
}

/// The reference to a player, computed from the owner's hash and the player id.
pub fn player_ref_hash(owner_hash: Hash32, player_id: Hash32) -> (hash: Hash32)
    ensures
        hash@ == player_ref_bytes(owner_hash, player_id),
{
    hash_pair(owner_hash, player_id)
}

} // verus!
