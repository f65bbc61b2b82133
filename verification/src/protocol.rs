//! The signing protocol: deterministic keypair derivation from a seed,
//! signing under the scheme's fixed domain-separation context, and
//! verification. Every operation is a pure, single-shot transformation of its
//! inputs; the group arithmetic behind it is reached only through the trusted
//! boundary in `backend`.

use vstd::prelude::*;

use crate::backend::expand_of;
use crate::backend::expand_seed;
use crate::backend::pub_key_valid;
use crate::backend::public_key_is_valid;
use crate::backend::public_of_secret;
use crate::backend::schnorr_sign;
use crate::backend::schnorr_verify;
use crate::backend::sec_key_valid;
use crate::backend::secret_key_is_valid;
use crate::backend::verify_of;
use crate::errors::SigError;
use crate::keys::Keypair;
use crate::keys::Message;
use crate::keys::PublicKey;
use crate::keys::Seed;
use crate::keys::Signature;

verus! {

/// The scheme's fixed domain-separation context: the bytes of `"substrate"`.
/// It is baked into both signing and verification, never transmitted, and
/// binds every signature to this scheme's namespace.
pub open spec fn context_spec() -> Seq<u8> {
    seq![115u8, 117u8, 98u8, 115u8, 116u8, 114u8, 97u8, 116u8, 101u8]
}

/// The fixed context as a byte vector.
pub fn signing_context_bytes() -> (r: Vec<u8>)
    ensures
        r@ == context_spec(),
{
    let mut r: Vec<u8> = Vec::new();
    r.push(115u8);
    r.push(117u8);
    r.push(98u8);
    r.push(115u8);
    r.push(116u8);
    r.push(114u8);
    r.push(97u8);
    r.push(116u8);
    r.push(101u8);
    proof {
        assert(r@ =~= context_spec());
    }
    r
}

/// The 64-byte private half (scalar material and nonce seed) that a 32-byte
/// seed expands to.
pub open spec fn derived_private(seed: Seq<u8>) -> Seq<u8> {
    expand_of(seed).subrange(0, 64)
}

/// The 32-byte public-key encoding that a 32-byte seed expands to.
pub open spec fn derived_public(seed: Seq<u8>) -> Seq<u8> {
    expand_of(seed).subrange(64, 96)
}

/// Expands 32 seed bytes into a keypair. Shared by the typed and the
/// byte-level derivation entry points.
fn expand_into_keypair(seed_bytes: &Vec<u8>) -> (kp: Keypair)
    requires
        seed_bytes@.len() == 32,
    ensures
        kp@.private == derived_private(seed_bytes@),
        kp@.public == derived_public(seed_bytes@),
        sec_key_valid(kp@.private),
        pub_key_valid(kp@.public),
        kp@.public == public_of_secret(kp@.private),
{
    let mut private = expand_seed(seed_bytes);
    let public = private.split_off(64);
    Keypair::from_raw(public, private)
}

/// Derives the keypair belonging to a seed. Expansion is deterministic —
/// the same seed always yields the same keypair — and never fails on a
/// well-formed seed: the private half always decodes to a valid secret key,
/// the public half is the valid encoding of the group element corresponding
/// to the private half.
pub fn keypair_from_seed(seed: &Seed) -> (kp: Keypair)
    ensures
        kp@.private == derived_private(seed@),
        kp@.public == derived_public(seed@),
        sec_key_valid(kp@.private),
        pub_key_valid(kp@.public),
        kp@.public == public_of_secret(kp@.private),
{
    expand_into_keypair(seed.as_bytes())
}

/// Derives a keypair from raw seed bytes: exactly 32 bytes are accepted, any
/// other length is rejected as `InvalidInput` before any derivation work.
pub fn derive_keypair(seed_bytes: &Vec<u8>) -> (r: Result<Keypair, SigError>)
    ensures
        r is Ok <==> seed_bytes@.len() == 32,
        r matches Err(e) ==> e == SigError::InvalidInput,
        r matches Ok(kp) ==> {
            &&& kp@.private == derived_private(seed_bytes@)
            &&& kp@.public == derived_public(seed_bytes@)
            &&& sec_key_valid(kp@.private)
            &&& pub_key_valid(kp@.public)
            &&& kp@.public == public_of_secret(kp@.private)
        },
{
    if seed_bytes.len() == 32 {
        Ok(expand_into_keypair(seed_bytes))
    } else {
        Err(SigError::InvalidInput)
    }
}

/// Signs a message under the given domain-separation context. Production
/// code signs through [`sign`], which fixes the context; this entry point
/// exists so that a verifying party's context can be varied under test.
///
/// Both halves of the keypair are validated before any cryptographic work:
/// signing succeeds exactly when the private half decodes to a secret key and
/// the public half decodes to a group element, and fails with
/// `InvalidKeyMaterial` otherwise. The signature bytes themselves are
/// randomized, so no two calls need agree; what every outcome satisfies is
/// the verification equation, provided the public half is the public key of
/// the private half.
pub fn sign_with_context(context: &Vec<u8>, keypair: &Keypair, message: &Message) -> (r: Result<
    Signature,
    SigError,
>)
    ensures
        r is Ok <==> (sec_key_valid(keypair@.private) && pub_key_valid(keypair@.public)),
        r matches Err(e) ==> e == SigError::InvalidKeyMaterial,
        r matches Ok(sig) ==> sig@.len() == 64,
        r matches Ok(sig) ==> (keypair@.public == public_of_secret(keypair@.private)
            ==> verify_of(context@, sig@, message@, keypair@.public)),
{
    if !secret_key_is_valid(keypair.private_bytes()) {
        return Err(SigError::InvalidKeyMaterial);
    }
    if !public_key_is_valid(keypair.public_bytes()) {
        return Err(SigError::InvalidKeyMaterial);
    }
    let sig_bytes = schnorr_sign(
        context,
        keypair.public_bytes(),
        keypair.private_bytes(),
        message.as_bytes(),
    );
    Ok(Signature::from_raw(sig_bytes))
}

/// Signs a message under the scheme's fixed context. The contract is that of
/// [`sign_with_context`] at [`context_spec`]: success exactly when both
/// halves of the keypair decode, `InvalidKeyMaterial` otherwise, and every
/// signature produced for a matching keypair satisfies the verification
/// equation for the same message and public key.
pub fn sign(keypair: &Keypair, message: &Message) -> (r: Result<Signature, SigError>)
    ensures
        r is Ok <==> (sec_key_valid(keypair@.private) && pub_key_valid(keypair@.public)),
        r matches Err(e) ==> e == SigError::InvalidKeyMaterial,
        r matches Ok(sig) ==> sig@.len() == 64,
        r matches Ok(sig) ==> (keypair@.public == public_of_secret(keypair@.private)
            ==> verify_of(context_spec(), sig@, message@, keypair@.public)),
{
    let context = signing_context_bytes();
    sign_with_context(&context, keypair, message)
}

/// Verifies a signature under the given context. Production code verifies
/// through [`verify`], which fixes the context; a different context here
/// rejects signatures made under the scheme's own context, which is what
/// domain separation is for.
pub fn verify_with_context(
    context: &Vec<u8>,
    signature: &Signature,
    message: &Message,
    public: &PublicKey,
) -> (r: bool)
    ensures
        r == verify_of(context@, signature@, message@, public@),
        !pub_key_valid(public@) ==> !r,
{
    schnorr_verify(context, signature.as_bytes(), message.as_bytes(), public.as_bytes())
}

/// Verifies a signature on a message against a public key under the scheme's
/// fixed context. A boolean predicate over untrusted input: a public-key
/// encoding that does not decode to a group element yields `false`, never an
/// error.
pub fn verify(signature: &Signature, message: &Message, public: &PublicKey) -> (r: bool)
    ensures
        r == verify_of(context_spec(), signature@, message@, public@),
        !pub_key_valid(public@) ==> !r,
{
    let context = signing_context_bytes();
    verify_with_context(&context, signature, message, public)
}

/// Verifies raw transport bytes under the scheme's fixed context. Anything
/// malformed — a signature buffer that is not 64 bytes, a public-key buffer
/// that is not 32 bytes or does not decode to a group element — yields
/// `false`, never an error.
pub fn verify_bytes(signature: &Vec<u8>, message: &Vec<u8>, public: &Vec<u8>) -> (r: bool)
    ensures
        r == verify_of(context_spec(), signature@, message@, public@),
        signature@.len() != 64 ==> !r,
        public@.len() != 32 ==> !r,
        !pub_key_valid(public@) ==> !r,
{
    let context = signing_context_bytes();
    schnorr_verify(&context, signature, message, public)
}

/// Law: derivation is deterministic. Deriving twice from one seed yields
/// byte-identical keypairs.
pub fn derive_twice(seed: &Seed) -> (r: (Keypair, Keypair))
    ensures
        r.0@ == r.1@,
{
    let first = keypair_from_seed(seed);
    let second = keypair_from_seed(seed);
    proof {
        assert(first@ =~= second@);
    }
    (first, second)
}

/// Law: round trip. For every seed and every message, signing the message
/// with the keypair derived from the seed succeeds, and the signature
/// verifies against that keypair's public key and the same message.
pub fn sign_then_verify(seed: &Seed, message: &Message) -> (ok: bool)
    ensures
        ok,
{
    let keypair = keypair_from_seed(seed);
    let public = keypair.public_key();
    match sign(&keypair, message) {
        Ok(signature) => verify(&signature, message, &public),
        Err(_) => false,
    }
}

} // verus!
