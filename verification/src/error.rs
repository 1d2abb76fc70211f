use openssl::error::ErrorStack;
use vstd::prelude::*;

verus! {

/// OpenSSL's error queue, as the `openssl` crate hands it out. Nothing is
/// known of what it holds; it is only carried to the caller.
#[verifier::external_type_specification]
#[verifier::external_body]
pub struct ExErrorStack(ErrorStack);

/// What an operation of this crate can fail with.
#[non_exhaustive]
#[derive(Debug)]
pub enum Error {
    /// The key material is of an unsupported curve or algorithm, fails its
    /// consistency check, or the given coordinates are no point of the curve.
    UnsupportedOrInvalidKey,
    /// The signature does not verify: wrong algorithm name, wrong length or a
    /// wrong signature. The three are deliberately indistinguishable.
    VerificationError,
    /// A failure inside OpenSSL, passed on unchanged.
    OpenSsl(ErrorStack),
}

impl Error {
    /// A short description of the error.
    pub fn message(&self) -> (text: &'static str)
        ensures
            text@ == match self {
                Error::UnsupportedOrInvalidKey => "unsupported or invalid key"@,
                Error::VerificationError => "failed to verify signature"@,
                Error::OpenSsl(_) => "openssl error"@,
            },
    {
        match self {
            Error::UnsupportedOrInvalidKey => "unsupported or invalid key",
            Error::VerificationError => "failed to verify signature",
            Error::OpenSsl(_) => "openssl error",
        }
    }
}

/// A result of OpenSSL as a result of this crate: what succeeded stays, and
/// a failure is passed on unchanged.
pub fn from_openssl<T>(result: Result<T, ErrorStack>) -> (lifted: Result<T, Error>)
    ensures
        match result {
            Ok(value) => lifted == Ok::<T, Error>(value),
            Err(stack) => lifted == Err::<T, Error>(Error::OpenSsl(stack)),
        },
{
    match result {
        Ok(value) => Ok(value),
        Err(stack) => Err(Error::OpenSsl(stack)),
    }
}

} // verus!
