//! The bytes of a signature, held without a heap allocation where they fit.
use smallvec::SmallVec;
use vstd::prelude::*;

verus! {

/// A signature as `sign` returns it. The bytes lie in a `SmallVec` with room
/// for 64 of them inline, which holds an ES256 or Ed25519 signature without
/// an allocation.
#[verifier::external_body]
#[derive(Debug)]
pub struct SignatureBytes {
    bytes: SmallVec<[u8; 64]>,
}

/// The bytes that a `SignatureBytes` holds, in order.
pub uninterp spec fn signature_contents(signature: SignatureBytes) -> Seq<u8>;

impl View for SignatureBytes {
    type V = Seq<u8>;

    open spec fn view(&self) -> Seq<u8> {
        signature_contents(*self)
    }
}

impl SignatureBytes {
    /// `SmallVec::from_vec`: the same bytes in the same order, moved inline
    /// where the vector's capacity allows.
    #[verifier::external_body]
    pub(crate) fn from_vec(bytes: Vec<u8>) -> (signature: SignatureBytes)
        ensures
            signature_contents(signature) == bytes@,
    {
        SignatureBytes { bytes: SmallVec::from_vec(bytes) }
    }

    /// `SmallVec::as_slice`: the bytes as a slice.
    #[verifier::external_body]
    fn contents(&self) -> (bytes: &[u8])
        ensures
            bytes@ == signature_contents(*self),
    {
        self.bytes.as_slice()
    }

    /// The bytes of the signature.
    pub fn as_slice(&self) -> (bytes: &[u8])
        ensures
            bytes@ == self@,
    {
        self.contents()
    }

    /// The number of bytes.
    pub fn len(&self) -> (n: usize)
        ensures
            n == self@.len(),
    {
        self.as_slice().len()
    }
}

} // verus!
