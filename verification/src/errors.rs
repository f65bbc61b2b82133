use vstd::prelude::*;

verus! {

/// Why an operation refused its input.
///
/// `InvalidInput` is a buffer of the wrong width for a fixed-width value;
/// `InvalidKeyMaterial` is a key buffer of the right width whose bytes do not
/// decode to a valid group element or scalar. A signature that merely fails to
/// verify is neither: verification reports that as a plain `false`.
#[derive(Clone, Copy, Debug, PartialEq, Eq, Structural)]
pub enum SigError {
    InvalidInput,
    InvalidKeyMaterial,
}

} // verus!
