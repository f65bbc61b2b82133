//! Schnorr-style signatures over the Ristretto group: deterministic keypair
//! derivation from a 32-byte seed, message signing bound to a fixed
//! domain-separation context, and signature verification against a public key.
//! The group arithmetic itself is supplied by the `schnorrkel` crate and is
//! trusted; this crate verifies the protocol logic around it.

pub mod backend;
pub mod errors;
pub mod keys;
pub mod protocol;

pub use errors::SigError;
pub use protocol::derive_keypair;
pub use protocol::keypair_from_seed;
pub use protocol::sign;
pub use protocol::sign_with_context;
pub use protocol::verify;
pub use protocol::verify_bytes;
pub use protocol::verify_with_context;
pub use keys::Keypair;
pub use keys::KeypairView;
pub use keys::Message;
pub use keys::PublicKey;
pub use keys::Seed;
pub use keys::Signature;
