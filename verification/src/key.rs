//! What every key offers, whatever its family.
use crate::error::Error;
use crate::jwk::{Jwk, JwkView};
use crate::outcome::{settles, Owed};
use crate::signature::SignatureBytes;
use vstd::prelude::*;

verus! {

/// The family of a key, as OpenSSL's key type tells it. `Other` stands for
/// every family that this crate has no key type for.
#[derive(Debug, Clone, Copy, PartialEq, Eq, Structural)]
pub enum KeyFamily {
    Rsa,
    Ec,
    Ed25519,
    Other,
}

/// A key that signs.
pub trait SigningKey {
    /// The name of the algorithm that the key signs with.
    spec fn spec_alg(&self) -> Seq<char>;

    /// The name of the algorithm that the key signs with.
    fn alg(&self) -> (name: &'static str)
        ensures
            name@ == self.spec_alg(),
    ;

    /// Signs the payload `v`. A failure is never a `VerificationError`.
    fn sign(&self, v: &[u8]) -> (sig: Result<SignatureBytes, Error>)
        ensures
            sig matches Err(e) ==> e is OpenSsl || e is UnsupportedOrInvalidKey,
    ;
}

/// A key that verifies.
pub trait VerificationKey {
    /// Whether the key takes signatures made under the algorithm called
    /// `alg`.
    spec fn accepts_alg(&self, alg: Seq<char>) -> bool;

    /// What `verify` owes for the payload `v`, the signature `sig` and the
    /// algorithm called `alg`.
    spec fn spec_verify(&self, v: Seq<u8>, sig: Seq<u8>, alg: Seq<char>) -> Owed<()>;

    /// Verifies `sig` as a signature of the payload `v` under the algorithm
    /// called `alg`. An algorithm that the key does not take is refused as a
    /// `VerificationError`, the same error as for a signature that does not
    /// verify.
    fn verify(&self, v: &[u8], sig: &[u8], alg: &str) -> (outcome: Result<(), Error>)
        ensures
            settles(self.spec_verify(v@, sig@, alg@), outcome),
            !self.accepts_alg(alg@) ==> outcome matches Err(Error::VerificationError),
    ;
}

/// A key whose public half can be written as a JSON Web Key.
pub trait PublicKeyToJwk {
    /// The JSON Web Key that `public_key_to_jwk` owes.
    spec fn spec_jwk(&self) -> Owed<JwkView>;

    /// The public half as a JSON Web Key, built anew by each call.
    fn public_key_to_jwk(&self) -> (jwk: Result<Jwk, Error>)
        ensures
            settles(self.spec_jwk(), jwk),
            jwk matches Ok(built) ==> self.spec_jwk() == Owed::Value(built@),
    ;
}

} // verus!
