//! The values that cross the scheme's boundary: seeds, keypairs, public keys,
//! signatures and messages. Each fixed-width value is its own type whose
//! invariant pins the width, so a buffer of the wrong kind or length cannot
//! reach the protocol.

use vstd::prelude::*;

use crate::errors::SigError;

verus! {

/// Caller-supplied entropy: exactly 32 bytes, any byte pattern.
pub struct Seed {
    bytes: Vec<u8>,
}

/// A 64-byte secret half (scalar material and nonce seed) together with the
/// 32-byte encoding of the corresponding public group element.
pub struct Keypair {
    public: Vec<u8>,
    private: Vec<u8>,
}

/// The mathematical content of a `Keypair`: the two byte strings.
#[verifier::ext_equal]
pub ghost struct KeypairView {
    pub public: Seq<u8>,
    pub private: Seq<u8>,
}

/// A 32-byte canonical group-element encoding. The width is enforced here;
/// whether the bytes decompress to a group element is checked where the key
/// is used, so that verification can take untrusted encodings.
pub struct PublicKey {
    bytes: Vec<u8>,
}

/// A 64-byte signature: a 32-byte commitment half then a 32-byte response
/// half. Opaque transport bytes between signer and verifier.
pub struct Signature {
    bytes: Vec<u8>,
}

/// An arbitrary-length byte sequence to sign or verify; empty is valid.
pub struct Message {
    bytes: Vec<u8>,
}

/// Copies a byte vector element by element.
fn copy_bytes(v: &Vec<u8>) -> (r: Vec<u8>)
    ensures
        r@ == v@,
{
    let mut r: Vec<u8> = Vec::new();
    let mut i: usize = 0;
    while i < v.len()
        invariant
            i <= v@.len(),
            r@ == v@.subrange(0, i as int),
        decreases v@.len() - i,
    {
        r.push(v[i]);
        proof {
            assert(v@.subrange(0, i as int).push(v@[i as int]) =~= v@.subrange(0, i + 1));
        }
        i += 1;
    }
    proof {
        assert(r@ =~= v@);
    }
    r
}

impl View for Seed {
    type V = Seq<u8>;

    closed spec fn view(&self) -> Seq<u8> {
        self.bytes@
    }
}

impl Seed {
    #[verifier::type_invariant]
    closed spec fn inv(self) -> bool {
        self.bytes@.len() == 32
    }

    /// Accepts exactly 32 bytes; any other length is `InvalidInput`.
    pub fn new(bytes: Vec<u8>) -> (r: Result<Seed, SigError>)
        ensures
            r is Ok <==> bytes@.len() == 32,
            r matches Ok(seed) ==> seed@ == bytes@,
            r matches Err(e) ==> e == SigError::InvalidInput,
    {
        if bytes.len() == 32 {
            Ok(Seed { bytes })
        } else {
            Err(SigError::InvalidInput)
        }
    }

    pub fn as_bytes(&self) -> (r: &Vec<u8>)
        ensures
            r@ == self@,
            self@.len() == 32,
    {
        proof {
            use_type_invariant(self);
        }
        &self.bytes
    }
}

impl View for Keypair {
    type V = KeypairView;

    closed spec fn view(&self) -> KeypairView {
        KeypairView { public: self.public@, private: self.private@ }
    }
}

impl Keypair {
    #[verifier::type_invariant]
    closed spec fn inv(self) -> bool {
        self.public@.len() == 32 && self.private@.len() == 64
    }

    /// Assembles a keypair from parts whose widths the caller has established.
    pub(crate) fn from_raw(public: Vec<u8>, private: Vec<u8>) -> (kp: Keypair)
        requires
            public@.len() == 32,
            private@.len() == 64,
        ensures
            kp@.public == public@,
            kp@.private == private@,
    {
        Keypair { public, private }
    }

    /// Accepts a 32-byte public part and a 64-byte private part; any other
    /// widths are `InvalidInput`. Width is all that is checked here: whether
    /// the parts decode, and whether they correspond, is the signer's check.
    pub fn from_parts(public: Vec<u8>, private: Vec<u8>) -> (r: Result<Keypair, SigError>)
        ensures
            r is Ok <==> (public@.len() == 32 && private@.len() == 64),
            r matches Ok(kp) ==> kp@.public == public@ && kp@.private == private@,
            r matches Err(e) ==> e == SigError::InvalidInput,
    {
        if public.len() == 32 && private.len() == 64 {
            Ok(Keypair::from_raw(public, private))
        } else {
            Err(SigError::InvalidInput)
        }
    }

    /// The public half as its own value, for the verifying party.
    pub fn public_key(&self) -> (r: PublicKey)
        ensures
            r@ == self@.public,
    {
        proof {
            use_type_invariant(self);
        }
        PublicKey { bytes: copy_bytes(&self.public) }
    }

    pub fn public_bytes(&self) -> (r: &Vec<u8>)
        ensures
            r@ == self@.public,
            self@.public.len() == 32,
    {
        proof {
            use_type_invariant(self);
        }
        &self.public
    }

    pub fn private_bytes(&self) -> (r: &Vec<u8>)
        ensures
            r@ == self@.private,
            self@.private.len() == 64,
    {
        proof {
            use_type_invariant(self);
        }
        &self.private
    }
}

impl View for PublicKey {
    type V = Seq<u8>;

    closed spec fn view(&self) -> Seq<u8> {
        self.bytes@
    }
}

impl PublicKey {
    #[verifier::type_invariant]
    closed spec fn inv(self) -> bool {
        self.bytes@.len() == 32
    }

    /// Accepts exactly 32 bytes; any other length is `InvalidInput`.
    pub fn new(bytes: Vec<u8>) -> (r: Result<PublicKey, SigError>)
        ensures
            r is Ok <==> bytes@.len() == 32,
            r matches Ok(pk) ==> pk@ == bytes@,
            r matches Err(e) ==> e == SigError::InvalidInput,
    {
        if bytes.len() == 32 {
            Ok(PublicKey { bytes })
        } else {
            Err(SigError::InvalidInput)
        }
    }

    pub fn as_bytes(&self) -> (r: &Vec<u8>)
        ensures
            r@ == self@,
            self@.len() == 32,
    {
        proof {
            use_type_invariant(self);
        }
        &self.bytes
    }
}

impl View for Signature {
    type V = Seq<u8>;

    closed spec fn view(&self) -> Seq<u8> {
        self.bytes@
    }
}

impl Signature {
    #[verifier::type_invariant]
    closed spec fn inv(self) -> bool {
        self.bytes@.len() == 64
    }

    /// Accepts exactly 64 bytes; any other length is `InvalidInput`.
    pub fn new(bytes: Vec<u8>) -> (r: Result<Signature, SigError>)
        ensures
            r is Ok <==> bytes@.len() == 64,
            r matches Ok(sig) ==> sig@ == bytes@,
            r matches Err(e) ==> e == SigError::InvalidInput,
    {
        if bytes.len() == 64 {
            Ok(Signature { bytes })
        } else {
            Err(SigError::InvalidInput)
        }
    }

    pub(crate) fn from_raw(bytes: Vec<u8>) -> (sig: Signature)
        requires
            bytes@.len() == 64,
        ensures
            sig@ == bytes@,
    {
        Signature { bytes }
    }

    pub fn as_bytes(&self) -> (r: &Vec<u8>)
        ensures
            r@ == self@,
            self@.len() == 64,
    {
        proof {
            use_type_invariant(self);
        }
        &self.bytes
    }
}

impl View for Message {
    type V = Seq<u8>;

    closed spec fn view(&self) -> Seq<u8> {
        self.bytes@
    }
}

impl Message {
    pub fn new(bytes: Vec<u8>) -> (m: Message)
        ensures
            m@ == bytes@,
    {
        Message { bytes }
    }

    pub fn as_bytes(&self) -> (r: &Vec<u8>)
        ensures
            r@ == self@,
    {
        &self.bytes
    }
}

} // verus!
