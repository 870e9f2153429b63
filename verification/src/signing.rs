//! Players' keys: derivation from a seed, and signatures over transaction inputs.

use vstd::prelude::*;

use crate::chain::{self, copy_bytes, signature_digest, ChainTx, ChainTxView, Unspent, UnspentView};
use crate::hash::{self, blake2b, Hash32};

verus! {

/// The order of the secp256k1 group.
pub open spec fn group_order() -> int {
    0xFFFFFFFF_FFFFFFFF_FFFFFFFF_FFFFFFFE_BAAEDCE6_AF48A03B_BFD25E8C_D0364141int
}

/// The number that a byte string writes in big-endian order.
pub open spec fn big_endian(bytes: Seq<u8>) -> int
    decreases bytes.len(),
{
    if bytes.len() == 0 {
        0
    } else {
        big_endian(bytes.drop_last()) * 256 + bytes.last()
    }
}

/// Whether 32 bytes are a secret key: a number between zero and the group order, both excluded.
pub open spec fn is_secret_key(bytes: Seq<u8>) -> bool {
    0 < big_endian(bytes) < group_order()
}

/// The x-only public key of a secret key, as `secp256k1` computes it.
pub uninterp spec fn x_only_public_key(secret: Seq<u8>) -> Seq<u8>;

/// Calls `secp256k1::SecretKey::from_slice`, `Keypair::from_secret_key` and
/// `Keypair::x_only_public_key`, and serializes the x coordinate.
///
/// Trusted: the bytes depend on the secret key alone, and are named `x_only_public_key`. The calls
/// fail outside the range of secret keys, which `requires` leaves out.
#[verifier::external_body]
fn secp_public_key(secret: &[u8; 32]) -> (public_key: [u8; 32])
    requires
        is_secret_key(secret@),
    ensures
        public_key@ == x_only_public_key(secret@),
{
    let secp = secp256k1::Secp256k1::new();
    let secret_key = secp256k1::SecretKey::from_slice(secret).expect("valid secret key");
    let (x_only, _) = secp256k1::Keypair::from_secret_key(&secp, &secret_key).x_only_public_key();
    x_only.serialize()
}

/// The BIP-340 signature over a digest, for a secret key and 32 bytes of auxiliary randomness, as
/// `secp256k1` computes it.
pub uninterp spec fn schnorr_signature(secret: Seq<u8>, digest: Seq<u8>, aux: Seq<u8>) -> Seq<u8>;

/// Calls `secp256k1::Keypair::sign_schnorr` on the digest.
///
/// Trusted: the signature is that of the key over the digest for some auxiliary randomness, which
/// the call draws from the thread's generator. Which randomness it draws is left unsaid.
#[verifier::external_body]
fn secp_sign_schnorr(secret: &[u8; 32], digest: &[u8; 32]) -> (signature: [u8; 64])
    requires
        is_secret_key(secret@),
    ensures
        exists|aux: [u8; 32]| signature@ == #[trigger] schnorr_signature(secret@, digest@, aux@),
{
    let secp = secp256k1::Secp256k1::new();
    let secret_key = secp256k1::SecretKey::from_slice(secret).expect("valid secret key");
    let keypair = secp256k1::Keypair::from_secret_key(&secp, &secret_key);
    keypair.sign_schnorr(secp256k1::Message::from_digest(*digest)).serialize()
}

/// Whether some auxiliary randomness gives this signature of the key over the digest.
pub open spec fn is_signature(secret: Seq<u8>, digest: Seq<u8>, signature: Seq<u8>) -> bool {
    exists|aux: [u8; 32]| signature == #[trigger] schnorr_signature(secret, digest, aux@)
}

/// A key with which a player signs. It always holds a secret key of the curve.
#[derive(Clone, Copy)]
pub struct Keypair {
    secret: [u8; 32],
}

impl Keypair {
    #[verifier::type_invariant]
    spec fn holds_secret_key(self) -> bool {
        is_secret_key(self.secret@)
    }

    /// The bytes of the secret key.
    pub closed spec fn secret_key(self) -> Seq<u8> {
        self.secret@
    }

    /// The key whose secret is `seed` repeated 32 times.
    ///
    /// A seed of 0 or 255 gives no secret key.
    pub fn from_seed(seed: u8) -> (keypair: Keypair)
        requires
            0 < seed < 255,
        ensures
            keypair.secret_key() == Seq::new(32, |i: int| seed),
    {
        let secret: [u8; 32] = [seed; 32];
        proof {
            assert(secret@ =~= Seq::new(32, |i: int| seed));
            repeated_byte_is_secret_key(secret@, seed);
        }
        Keypair { secret }
    }

    /// The x-only public key.
    pub fn public_key(&self) -> (public_key: [u8; 32])
        ensures
            public_key@ == x_only_public_key(self.secret_key()),
    {
        proof {
            use_type_invariant(self);
        }
        secp_public_key(&self.secret)
    }
}

/// A player who signs: the name, the key, and the identity in the league once registered.
pub struct SigningPlayer {
    pub name: String,
    pub(crate) keypair: Keypair,
    pub pubkey_bytes: Vec<u8>,
    pub owner_hash: Hash32,
    pub player_id: Option<Hash32>,
    pub player_ref: Option<Hash32>,
}

/// What is known of a player: the name, the keys and the identity in the league.
pub ghost struct SignerView {
    pub name: Seq<char>,
    pub secret: Seq<u8>,
    pub public_key: Seq<u8>,
    pub owner_hash: Hash32,
    pub player_id: Option<Hash32>,
    pub player_ref: Option<Hash32>,
}

impl View for SigningPlayer {
    type V = SignerView;

    open(crate) spec fn view(&self) -> SignerView {
        SignerView {
            name: self.name@,
            secret: self.keypair.secret_key(),
            public_key: self.pubkey_bytes@,
            owner_hash: self.owner_hash,
            player_id: self.player_id,
            player_ref: self.player_ref,
        }
    }
}

impl Clone for SigningPlayer {
    fn clone(&self) -> (copy: SigningPlayer)
        ensures
            copy@ == self@,
    {
        SigningPlayer {
            name: self.name.clone(),
            keypair: self.keypair,
            pubkey_bytes: copy_bytes(&self.pubkey_bytes),
            owner_hash: self.owner_hash,
            player_id: self.player_id,
            player_ref: self.player_ref,
        }
    }
}

proof fn lemma_big_endian_bounds(bytes: Seq<u8>, top: u8)
    requires
        bytes.len() > 0,
        forall|i: int| 0 <= i < bytes.len() ==> bytes[i] == top,
    ensures
        top * vstd::arithmetic::power::pow(256, (bytes.len() - 1) as nat) <= big_endian(bytes)
            < (top + 1) * vstd::arithmetic::power::pow(256, (bytes.len() - 1) as nat),
    decreases bytes.len(),
{
    let n = (bytes.len() - 1) as nat;
    vstd::arithmetic::power::lemma_pow0(256);
    if n == 0 {
        assert(bytes.drop_last() =~= Seq::<u8>::empty());
        assert(big_endian(bytes.drop_last()) == 0);
    } else {
        let prefix = bytes.drop_last();
        lemma_big_endian_bounds(prefix, top);
        let unit = vstd::arithmetic::power::pow(256, (n - 1) as nat);
        assert(vstd::arithmetic::power::pow(256, n) == 256 * unit) by {
            reveal(vstd::arithmetic::power::pow);
        }
        let b = big_endian(prefix);
        assert(top * unit <= b < (top + 1) * unit);
        assert(top * (256 * unit) == (top * unit) * 256) by (nonlinear_arith);
        assert((top + 1) * (256 * unit) == ((top + 1) * unit) * 256) by (nonlinear_arith);
        assert(b + 1 <= (top + 1) * unit);
    }
}

/// A byte repeated 32 times is a secret key unless it is zero or 255.
pub proof fn repeated_byte_is_secret_key(bytes: Seq<u8>, seed: u8)
    requires
        bytes.len() == 32,
        forall|i: int| 0 <= i < 32 ==> bytes[i] == seed,
        0 < seed < 255,
    ensures
        is_secret_key(bytes),
{
    lemma_big_endian_bounds(bytes, seed);
    let unit = vstd::arithmetic::power::pow(256, 31);
    assert(unit == 0x1_00000000_00000000_00000000_00000000_00000000_00000000_00000000_000000int) by {
        reveal_with_fuel(vstd::arithmetic::power::pow, 32);
    }
    assert(seed * unit >= unit) by (nonlinear_arith)
        requires
            seed >= 1,
            unit >= 0,
    ;
    assert((seed + 1) * unit <= 255 * unit) by (nonlinear_arith)
        requires
            seed + 1 <= 255,
            unit >= 0,
    ;
}

impl SigningPlayer {
    /// The player whose secret key is `seed` repeated 32 times, not yet registered.
    ///
    /// A seed of 0 or 255 gives no secret key.
    pub fn from_seed(name: &str, seed: u8) -> (player: Self)
        requires
            0 < seed < 255,
        ensures
            player@.name == name@,
            player@.secret == Seq::new(32, |i: int| seed),
            player@.public_key == x_only_public_key(player@.secret),
            player@.owner_hash@ == hash::blake2b_256(player@.public_key),
            player@.player_id is None,
            player@.player_ref is None,
    {
        let keypair: Keypair = Keypair::from_seed(seed);
        let mut pubkey_bytes: Vec<u8> = Vec::new();
        pubkey_bytes.extend_from_slice(keypair.public_key().as_slice());
        assert(pubkey_bytes@ =~= x_only_public_key(keypair.secret_key()));
        let owner_hash: Hash32 = blake2b(pubkey_bytes.as_slice());
        SigningPlayer {
            name: name.to_owned(),
            keypair,
            pubkey_bytes,
            owner_hash,
            player_id: None,
            player_ref: None,
        }
    }
}

/// The byte that marks a signature over all inputs and outputs.
pub const SIG_HASH_ALL_BYTE: u8 = 1;

/// What signing an input gives: the Schnorr signature over its digest, then the hash type.
pub open spec fn is_signed_input(
    tx: ChainTxView,
    entries: Seq<UnspentView>,
    input_index: int,
    secret: Seq<u8>,
    encoded: Seq<u8>,
) -> bool {
    &&& encoded.len() == 65
    &&& encoded[64] == SIG_HASH_ALL_BYTE
    &&& is_signature(secret, chain::schnorr_digest(tx, entries, input_index), encoded.take(64))
}

/// Signs an input of a transaction whose inputs spend the given entries.
pub fn sign_builder_input(
    tx: &ChainTx,
    entries: &Vec<Unspent>,
    input_index: usize,
    keypair: &Keypair,
) -> (encoded: Vec<u8>)
    requires
        entries@.len() == tx.inputs@.len(),
        input_index < entries@.len(),
    ensures
        is_signed_input(
            tx@,
            chain::unspent_views(entries@),
            input_index as int,
            keypair.secret_key(),
            encoded@,
        ),
{
    proof {
        use_type_invariant(keypair);
    }
    let digest: [u8; 32] = signature_digest(tx, entries, input_index);
    let signature: [u8; 64] = secp_sign_schnorr(&keypair.secret, &digest);
    let mut encoded: Vec<u8> = Vec::new();
    encoded.extend_from_slice(signature.as_slice());
    assert(encoded@ =~= signature@);
    encoded.push(SIG_HASH_ALL_BYTE);
    assert(encoded@.take(64) =~= signature@);
    encoded
}

} // verus!
