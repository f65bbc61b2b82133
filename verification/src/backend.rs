//! The boundary to the `schnorrkel` primitives library.
//!
//! Everything the protocol needs from the group arithmetic crosses through the
//! wrappers below, which take and return plain byte vectors. Their contracts
//! are trusted: each doc comment names the `schnorrkel` functions relied on.

use vstd::prelude::*;

verus! {

/// The 96 bytes that seed expansion produces from a 32-byte seed: a 64-byte
/// secret half (scalar material and nonce seed) followed by the 32-byte
/// encoding of the corresponding public group element. Expansion is a pure
/// function of the seed.
pub uninterp spec fn expand_of(seed: Seq<u8>) -> Seq<u8>;

/// Whether a byte string decodes to a valid secret key: 64 bytes whose first
/// half is a canonically encoded scalar.
pub uninterp spec fn sec_key_valid(bytes: Seq<u8>) -> bool;

/// Whether a byte string decodes to a valid public key: 32 bytes that
/// decompress to a group element.
pub uninterp spec fn pub_key_valid(bytes: Seq<u8>) -> bool;

/// The 32-byte encoding of the public group element that corresponds to a
/// decodable 64-byte secret key encoding.
pub uninterp spec fn public_of_secret(secret: Seq<u8>) -> Seq<u8>;

/// Whether a signature passes Schnorr verification for the given
/// domain-separation context, message and public-key encoding. Verification
/// is a pure function of those four byte strings; decode failure of the
/// signature or the public key counts as rejection.
pub uninterp spec fn verify_of(
    context: Seq<u8>,
    signature: Seq<u8>,
    message: Seq<u8>,
    public: Seq<u8>,
) -> bool;

/// Relies on `schnorrkel::MiniSecretKey::from_bytes` (always `Ok` for a
/// 32-byte slice), `MiniSecretKey::expand_to_keypair` with Ed25519-style
/// expansion (a pure SHA-512-based function of the seed), and
/// `Keypair::to_bytes` (the 64 secret bytes, then the 32 public bytes).
/// The secret half re-decodes under `SecretKey::from_bytes` because the
/// scalar is serialized canonically; the public half is
/// `SecretKey::to_public` of the secret half and re-decodes under
/// `PublicKey::from_bytes`.
#[verifier::external_body]
pub(crate) fn expand_seed(seed: &Vec<u8>) -> (r: Vec<u8>)
    requires
        seed@.len() == 32,
    ensures
        r@ == expand_of(seed@),
        r@.len() == 96,
        sec_key_valid(r@.subrange(0, 64)),
        pub_key_valid(r@.subrange(64, 96)),
        r@.subrange(64, 96) == public_of_secret(r@.subrange(0, 64)),
{
    let mini = schnorrkel::MiniSecretKey::from_bytes(seed.as_slice())
        .expect("a 32-byte slice always decodes to a mini secret key");
    let keypair = mini.expand_to_keypair(schnorrkel::ExpansionMode::Ed25519);
    keypair.to_bytes().to_vec()
}

/// Relies on `schnorrkel::SecretKey::from_bytes`: `Ok` exactly when the
/// buffer is 64 bytes whose first 32 bytes are a canonical scalar encoding.
#[verifier::external_body]
pub(crate) fn secret_key_is_valid(bytes: &Vec<u8>) -> (r: bool)
    ensures
        r == sec_key_valid(bytes@),
        bytes@.len() != 64 ==> !r,
{
    schnorrkel::SecretKey::from_bytes(bytes.as_slice()).is_ok()
}

/// Relies on `schnorrkel::PublicKey::from_bytes`: `Ok` exactly when the
/// buffer is 32 bytes that decompress to a group element.
#[verifier::external_body]
pub(crate) fn public_key_is_valid(bytes: &Vec<u8>) -> (r: bool)
    ensures
        r == pub_key_valid(bytes@),
        bytes@.len() != 32 ==> !r,
{
    schnorrkel::PublicKey::from_bytes(bytes.as_slice()).is_ok()
}

/// Relies on `schnorrkel::SecretKey::sign_simple` and
/// `Signature::to_bytes`. The nonce folds in operating-system randomness, so
/// two calls on the same input may return different bytes; what holds of
/// every outcome is the length and that, when `public` is the public key of
/// `secret`, the result passes `PublicKey::verify_simple` for the same
/// context, message and public key (`to_bytes` sets the marker bit that
/// `Signature::from_bytes` demands, so the result also re-decodes).
#[verifier::external_body]
pub(crate) fn schnorr_sign(
    context: &Vec<u8>,
    public: &Vec<u8>,
    secret: &Vec<u8>,
    message: &Vec<u8>,
) -> (r: Vec<u8>)
    requires
        sec_key_valid(secret@),
        pub_key_valid(public@),
    ensures
        r@.len() == 64,
        public@ == public_of_secret(secret@) ==> verify_of(context@, r@, message@, public@),
{
    let secret_key = schnorrkel::SecretKey::from_bytes(secret.as_slice())
        .expect("the caller established that the secret key decodes");
    let public_key = schnorrkel::PublicKey::from_bytes(public.as_slice())
        .expect("the caller established that the public key decodes");
    let signature = secret_key.sign_simple(context.as_slice(), message.as_slice(), &public_key);
    signature.to_bytes().to_vec()
}

/// Relies on `schnorrkel::Signature::from_bytes` (`Err` unless the buffer is
/// 64 bytes carrying the schnorrkel marker bit and a canonical scalar half),
/// `PublicKey::from_bytes` (`Err` unless 32 bytes decompress to a group
/// element), and `PublicKey::verify_simple`, a deterministic check over
/// context, signature, message and public key. Decode failure yields `false`,
/// never a panic.
#[verifier::external_body]
pub(crate) fn schnorr_verify(
    context: &Vec<u8>,
    signature: &Vec<u8>,
    message: &Vec<u8>,
    public: &Vec<u8>,
) -> (r: bool)
    ensures
        r == verify_of(context@, signature@, message@, public@),
        signature@.len() != 64 ==> !r,
        public@.len() != 32 ==> !r,
        !pub_key_valid(public@) ==> !r,
{
    let sig = match schnorrkel::Signature::from_bytes(signature.as_slice()) {
        Ok(sig) => sig,
        Err(_) => return false,
    };
    let public_key = match schnorrkel::PublicKey::from_bytes(public.as_slice()) {
        Ok(public_key) => public_key,
        Err(_) => return false,
    };
    public_key.verify_simple(context.as_slice(), message.as_slice(), &sig).is_ok()
}

} // verus!
