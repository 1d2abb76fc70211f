use vstd::prelude::*;

verus! {

/// The hash function that a signature is made over.
#[derive(Debug, Clone, Copy, PartialEq, Eq, Structural)]
pub enum DigestKind {
    Sha256,
    Sha384,
    Sha512,
}

} // verus!
