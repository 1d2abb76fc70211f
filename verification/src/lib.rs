//! Signing and verification keys for JOSE-style tokens.
//!
//! Keys of three families (ECDSA on the NIST prime curves, Ed25519, RSA) are
//! imported from PEM or generated, sign byte payloads, verify signatures and
//! export their public half as a JSON Web Key. The key arithmetic is
//! OpenSSL's; this crate owns the rules around it: which algorithm a key
//! belongs to, the fixed-width form of ECDSA signatures, and which error a
//! caller sees.
pub mod codec;
pub mod digest;
pub mod ecdsa;
pub mod eddsa;
pub mod error;
pub mod jwk;
pub mod key;
pub mod outcome;
pub mod pem;
pub mod primitives;
pub mod rsa;
pub mod signature;
pub mod some;
pub mod text;

pub use crate::error::Error;
pub use crate::key::{PublicKeyToJwk, SigningKey, VerificationKey};
