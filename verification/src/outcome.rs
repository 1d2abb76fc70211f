//! From OpenSSL's answer to the caller's.
use crate::error::Error;
use openssl::error::ErrorStack;
use vstd::prelude::*;

verus! {

/// What an operation owes its caller: a value, or an error of one of the
/// three kinds. It is the result without what OpenSSL's error holds, which
/// nothing is known of.
pub enum Owed<T> {
    Value(T),
    UnsupportedOrInvalidKey,
    VerificationError,
    OpenSsl,
}

/// Whether `result` succeeds where a value is owed, and else fails with the
/// error that is owed.
pub open spec fn settles<T, U>(owed: Owed<T>, result: Result<U, Error>) -> bool {
    match owed {
        Owed::Value(_) => result is Ok,
        Owed::UnsupportedOrInvalidKey => result matches Err(Error::UnsupportedOrInvalidKey),
        Owed::VerificationError => result matches Err(Error::VerificationError),
        Owed::OpenSsl => result matches Err(Error::OpenSsl(_)),
    }
}

/// What `verify` owes for OpenSSL's answer: success for a signature that
/// verifies, `VerificationError` for one that does not, and OpenSSL's own
/// failure passed on.
pub open spec fn spec_verification_outcome(answer: Option<bool>) -> Owed<()> {
    match answer {
        Some(true) => Owed::Value(()),
        Some(false) => Owed::VerificationError,
        None => Owed::OpenSsl,
    }
}

/// What a caller of `verify` sees for each answer of OpenSSL: success for a
/// signature that verifies, `VerificationError` for one that does not, and
/// OpenSSL's own error passed on.
pub fn verification_outcome(answer: Result<bool, ErrorStack>) -> (outcome: Result<(), Error>)
    ensures
        match answer {
            Ok(valid) => if valid {
                outcome is Ok
            } else {
                outcome matches Err(Error::VerificationError)
            },
            Err(stack) => outcome matches Err(Error::OpenSsl(passed)) && passed == stack,
        },
{
    match answer {
        Ok(true) => Ok(()),
        Ok(false) => Err(Error::VerificationError),
        Err(stack) => Err(Error::OpenSsl(stack)),
    }
}

} // verus!
