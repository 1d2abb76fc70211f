//! A key of any family.
//!
//! The two unions here hold exactly one key each and hand every operation
//! to it. What a union owes is what the key inside owes.
use crate::ecdsa::{is_fixed_form_of, spec_import, EcdsaPrivateKey, EcdsaPublicKey};
use crate::eddsa::{spec_ed25519_import, Ed25519PrivateKey, Ed25519PublicKey};
use crate::error::{from_openssl, Error};
use crate::jwk::{Jwk, JwkView};
use crate::key::{KeyFamily, PublicKeyToJwk, SigningKey, VerificationKey};
use crate::outcome::{settles, Owed};
use crate::pem::{is_export_of, is_private_key_pem, is_public_key_pem};
use crate::primitives::{
    key_family, key_family_of, pkcs8_pem_of, private_key_from_pem, public_key_from_pem,
    public_pem_of, KeyRef, MAX_INPUT_LEN,
};
use crate::rsa::{spec_rsa_public_import, RsaAlgorithm, RsaPrivateKey, RsaPublicKey};
use crate::signature::SignatureBytes;
use openssl::pkey::{PKey, Private, Public};
use vstd::prelude::*;

verus! {

/// A private key of one of the three families.
#[non_exhaustive]
#[derive(Debug)]
pub enum SomePrivateKey {
    Ed25519(Ed25519PrivateKey),
    Ecdsa(EcdsaPrivateKey),
    Rsa(RsaPrivateKey),
}

/// A public key of one of the three families.
#[non_exhaustive]
#[derive(Debug)]
pub enum SomePublicKey {
    Ed25519(Ed25519PublicKey),
    Ecdsa(EcdsaPublicKey),
    Rsa(RsaPublicKey),
}

impl SomePrivateKey {
    /// The family of the key inside.
    pub open spec fn family(&self) -> KeyFamily {
        match self {
            SomePrivateKey::Ed25519(_) => KeyFamily::Ed25519,
            SomePrivateKey::Ecdsa(_) => KeyFamily::Ec,
            SomePrivateKey::Rsa(_) => KeyFamily::Rsa,
        }
    }

    /// OpenSSL's handle of the key inside.
    pub open spec fn handle(&self) -> &PKey<Private> {
        match self {
            SomePrivateKey::Ed25519(ed) => ed.handle(),
            SomePrivateKey::Ecdsa(ec) => ec.handle(),
            SomePrivateKey::Rsa(rsa) => rsa.handle(),
        }
    }

    /// The handle, as the calls that need only a public key take it.
    pub open spec fn key_ref(&self) -> KeyRef<'_> {
        KeyRef::Private(self.handle())
    }

    /// Whether `key` is what importing the handle `pk` as a key of `family`
    /// owes: what the key type of that family owes for the handle, in the
    /// variant of that family. An RSA key gets `if_rsa_algorithm`. No other
    /// family is taken.
    pub open spec fn imported_as(
        pk: PKey<Private>,
        family: KeyFamily,
        if_rsa_algorithm: RsaAlgorithm,
        key: Result<Self, Error>,
    ) -> bool {
        match family {
            KeyFamily::Rsa => {
                &&& key_family_of(KeyRef::Private(&pk)) != KeyFamily::Rsa
                    ==> (key matches Err(Error::UnsupportedOrInvalidKey))
                &&& key matches Ok(k) ==> k matches SomePrivateKey::Rsa(rsa) && rsa@
                    == if_rsa_algorithm && *rsa.handle() == pk
                &&& key is Ok ==> key_family_of(KeyRef::Private(&pk)) == KeyFamily::Rsa
                &&& key matches Err(e) ==> e is UnsupportedOrInvalidKey || e is OpenSsl
            },
            KeyFamily::Ec => {
                &&& settles(spec_import(KeyRef::Private(&pk)), key)
                &&& key matches Ok(k) ==> k matches SomePrivateKey::Ecdsa(ec) && spec_import(
                    KeyRef::Private(&pk),
                ) == Owed::Value(ec@) && *ec.handle() == pk
            },
            KeyFamily::Ed25519 => {
                &&& settles(spec_ed25519_import(KeyRef::Private(&pk)), key)
                &&& key matches Ok(k) ==> k matches SomePrivateKey::Ed25519(ed) && *ed.handle()
                    == pk
            },
            KeyFamily::Other => key matches Err(Error::UnsupportedOrInvalidKey),
        }
    }

    /// Takes over a key handle as a key of the given family. An elliptic
    /// curve or Ed25519 key brings its algorithm with it; an RSA key gets
    /// `if_rsa_algorithm`. Any other family is refused.
    pub fn from_pkey_as(pk: PKey<Private>, family: KeyFamily, if_rsa_algorithm: RsaAlgorithm) -> (key:
        Result<Self, Error>)
        ensures
            Self::imported_as(pk, family, if_rsa_algorithm, key),
    {
        match family {
            KeyFamily::Rsa => {
                let k = RsaPrivateKey::from_pkey(pk, if_rsa_algorithm)?;
                Ok(Self::Rsa(k))
            },
            KeyFamily::Ec => {
                let k = EcdsaPrivateKey::from_pkey(pk)?;
                Ok(Self::Ecdsa(k))
            },
            KeyFamily::Ed25519 => {
                let k = Ed25519PrivateKey::from_pkey(pk)?;
                Ok(Self::Ed25519(k))
            },
            KeyFamily::Other => Err(Error::UnsupportedOrInvalidKey),
        }
    }

    /// Reads an RSA, elliptic-curve or Ed25519 private key from PEM.
    ///
    /// The algorithm of an elliptic-curve or Ed25519 key follows from the
    /// key, P-256 giving ES256 and so on. An RSA key does not say what it is
    /// for, so it gets `if_rsa_algorithm`. Where OpenSSL reads a key from
    /// the bytes, the result is what importing that key owes, as a key of
    /// the family that OpenSSL reports for it.
    pub fn from_pem(pem: &[u8], if_rsa_algorithm: RsaAlgorithm) -> (key: Result<Self, Error>)
        ensures
            pem@.len() > MAX_INPUT_LEN ==> key matches Err(Error::UnsupportedOrInvalidKey),
            pem@.len() <= MAX_INPUT_LEN ==> key matches Err(Error::OpenSsl(_)) || exists|
                pk: PKey<Private>,
            | #[trigger]
                Self::imported_as(pk, key_family_of(KeyRef::Private(&pk)), if_rsa_algorithm, key),
    {
        if pem.len() > MAX_INPUT_LEN {
            return Err(Error::UnsupportedOrInvalidKey);
        }
        let pk = from_openssl(private_key_from_pem(pem))?;
        let ghost handle = pk;
        let family = key_family(KeyRef::Private(&pk));
        let key = Self::from_pkey_as(pk, family, if_rsa_algorithm);
        assert(Self::imported_as(
            handle,
            key_family_of(KeyRef::Private(&handle)),
            if_rsa_algorithm,
            key,
        ));
        key
    }

    /// The key as PKCS#8 PEM: the bytes that OpenSSL writes for the handle.
    pub fn private_key_to_pem_pkcs8(&self) -> (pem: Result<Vec<u8>, Error>)
        ensures
            is_export_of(pkcs8_pem_of(*self.handle()), pem),
            pem matches Ok(bytes) ==> is_private_key_pem(bytes@),
    {
        match self {
            SomePrivateKey::Ed25519(ed) => ed.private_key_to_pem_pkcs8(),
            SomePrivateKey::Ecdsa(ec) => ec.private_key_to_pem_pkcs8(),
            SomePrivateKey::Rsa(rsa) => rsa.private_key_to_pem_pkcs8(),
        }
    }

    /// The public half as SubjectPublicKeyInfo PEM: the bytes that OpenSSL
    /// writes for the handle.
    pub fn public_key_to_pem(&self) -> (pem: Result<Vec<u8>, Error>)
        ensures
            is_export_of(public_pem_of(self.key_ref()), pem),
            pem matches Ok(bytes) ==> is_public_key_pem(bytes@),
    {
        match self {
            SomePrivateKey::Ed25519(ed) => ed.public_key_to_pem(),
            SomePrivateKey::Ecdsa(ec) => ec.public_key_pem(),
            SomePrivateKey::Rsa(rsa) => rsa.public_key_to_pem(),
        }
    }
}

impl PublicKeyToJwk for SomePrivateKey {
    open spec fn spec_jwk(&self) -> Owed<JwkView> {
        match self {
            SomePrivateKey::Ed25519(ed) => ed.spec_jwk(),
            SomePrivateKey::Ecdsa(ec) => ec.spec_jwk(),
            SomePrivateKey::Rsa(rsa) => rsa.spec_jwk(),
        }
    }

    fn public_key_to_jwk(&self) -> (jwk: Result<Jwk, Error>) {
        match self {
            SomePrivateKey::Ed25519(ed) => ed.public_key_to_jwk(),
            SomePrivateKey::Ecdsa(ec) => ec.public_key_to_jwk(),
            SomePrivateKey::Rsa(rsa) => rsa.public_key_to_jwk(),
        }
    }
}

impl SomePublicKey {
    /// The family of the key inside.
    pub open spec fn family(&self) -> KeyFamily {
        match self {
            SomePublicKey::Ed25519(_) => KeyFamily::Ed25519,
            SomePublicKey::Ecdsa(_) => KeyFamily::Ec,
            SomePublicKey::Rsa(_) => KeyFamily::Rsa,
        }
    }

    /// OpenSSL's handle of the key inside.
    pub open spec fn handle(&self) -> &PKey<Public> {
        match self {
            SomePublicKey::Ed25519(ed) => ed.handle(),
            SomePublicKey::Ecdsa(ec) => ec.handle(),
            SomePublicKey::Rsa(rsa) => rsa.handle(),
        }
    }

    /// The handle, as the calls that need only a public key take it.
    pub open spec fn key_ref(&self) -> KeyRef<'_> {
        KeyRef::Public(self.handle())
    }

    /// Whether `key` is what importing the handle `pk` as a key of `family`
    /// owes: what the key type of that family owes for the handle, in the
    /// variant of that family. An RSA key is bound to no algorithm. No
    /// other family is taken.
    pub open spec fn imported_as(pk: PKey<Public>, family: KeyFamily, key: Result<Self, Error>) -> bool {
        match family {
            KeyFamily::Rsa => {
                &&& settles(spec_rsa_public_import(KeyRef::Public(&pk)), key)
                &&& key matches Ok(k) ==> k matches SomePublicKey::Rsa(rsa) && rsa@ is None
                    && *rsa.handle() == pk
            },
            KeyFamily::Ec => {
                &&& settles(spec_import(KeyRef::Public(&pk)), key)
                &&& key matches Ok(k) ==> k matches SomePublicKey::Ecdsa(ec) && spec_import(
                    KeyRef::Public(&pk),
                ) == Owed::Value(ec@) && *ec.handle() == pk
            },
            KeyFamily::Ed25519 => {
                &&& settles(spec_ed25519_import(KeyRef::Public(&pk)), key)
                &&& key matches Ok(k) ==> k matches SomePublicKey::Ed25519(ed) && *ed.handle()
                    == pk
            },
            KeyFamily::Other => key matches Err(Error::UnsupportedOrInvalidKey),
        }
    }

    /// Takes over a key handle as a key of the given family. An RSA key is
    /// bound to no algorithm. Any family but the three is refused.
    pub fn from_pkey_as(pk: PKey<Public>, family: KeyFamily) -> (key: Result<Self, Error>)
        ensures
            Self::imported_as(pk, family, key),
    {
        match family {
            KeyFamily::Rsa => {
                let k = RsaPublicKey::from_pkey(pk, None)?;
                Ok(Self::Rsa(k))
            },
            KeyFamily::Ec => {
                let k = EcdsaPublicKey::from_pkey(pk)?;
                Ok(Self::Ecdsa(k))
            },
            KeyFamily::Ed25519 => {
                let k = Ed25519PublicKey::from_pkey(pk)?;
                Ok(Self::Ed25519(k))
            },
            KeyFamily::Other => Err(Error::UnsupportedOrInvalidKey),
        }
    }

    /// Reads an RSA, elliptic-curve or Ed25519 public key from PEM.
    ///
    /// The algorithm of an elliptic-curve or Ed25519 key follows from the
    /// key, P-256 giving ES256 and so on. An RSA key is bound to no
    /// algorithm: it verifies signatures of every RSA algorithm. Where
    /// OpenSSL reads a key from the bytes, the result is what importing
    /// that key owes, as a key of the family that OpenSSL reports for it.
    pub fn from_pem(pem: &[u8]) -> (key: Result<Self, Error>)
        ensures
            pem@.len() > MAX_INPUT_LEN ==> key matches Err(Error::UnsupportedOrInvalidKey),
            pem@.len() <= MAX_INPUT_LEN ==> key matches Err(Error::OpenSsl(_)) || exists|
                pk: PKey<Public>,
            | #[trigger] Self::imported_as(pk, key_family_of(KeyRef::Public(&pk)), key),
    {
        if pem.len() > MAX_INPUT_LEN {
            return Err(Error::UnsupportedOrInvalidKey);
        }
        let pk = from_openssl(public_key_from_pem(pem))?;
        let ghost handle = pk;
        let family = key_family(KeyRef::Public(&pk));
        let key = Self::from_pkey_as(pk, family);
        assert(Self::imported_as(handle, key_family_of(KeyRef::Public(&handle)), key));
        key
    }

    /// The key as SubjectPublicKeyInfo PEM: the bytes that OpenSSL writes
    /// for the handle.
    pub fn to_pem(&self) -> (pem: Result<Vec<u8>, Error>)
        ensures
            is_export_of(public_pem_of(self.key_ref()), pem),
            pem matches Ok(bytes) ==> is_public_key_pem(bytes@),
    {
        match self {
            SomePublicKey::Ed25519(ed) => ed.to_pem(),
            SomePublicKey::Ecdsa(ec) => ec.to_pem(),
            SomePublicKey::Rsa(rsa) => rsa.to_pem(),
        }
    }
}

impl SigningKey for SomePrivateKey {
    open spec fn spec_alg(&self) -> Seq<char> {
        match self {
            SomePrivateKey::Ed25519(ed) => ed.spec_alg(),
            SomePrivateKey::Ecdsa(ec) => ec.spec_alg(),
            SomePrivateKey::Rsa(rsa) => rsa.spec_alg(),
        }
    }

    fn alg(&self) -> (name: &'static str) {
        match self {
            SomePrivateKey::Ed25519(ed) => ed.alg(),
            SomePrivateKey::Ecdsa(ec) => ec.alg(),
            SomePrivateKey::Rsa(rsa) => rsa.alg(),
        }
    }

    fn sign(&self, v: &[u8]) -> (sig: Result<SignatureBytes, Error>)
        ensures
            self matches SomePrivateKey::Ecdsa(ec) ==> (sig matches Ok(bytes) ==> bytes@.len()
                == ec@.spec_sig_len() && exists|der: Seq<u8>| #[trigger]
                is_fixed_form_of(ec@, der, bytes@)),
    {
        match self {
            SomePrivateKey::Ed25519(ed) => ed.sign(v),
            SomePrivateKey::Ecdsa(ec) => ec.sign(v),
            SomePrivateKey::Rsa(rsa) => rsa.sign(v),
        }
    }
}

impl VerificationKey for SomePrivateKey {
    open spec fn accepts_alg(&self, alg: Seq<char>) -> bool {
        match self {
            SomePrivateKey::Ed25519(ed) => ed.accepts_alg(alg),
            SomePrivateKey::Ecdsa(ec) => ec.accepts_alg(alg),
            SomePrivateKey::Rsa(rsa) => rsa.accepts_alg(alg),
        }
    }

    open spec fn spec_verify(&self, v: Seq<u8>, sig: Seq<u8>, alg: Seq<char>) -> Owed<()> {
        match self {
            SomePrivateKey::Ed25519(ed) => ed.spec_verify(v, sig, alg),
            SomePrivateKey::Ecdsa(ec) => ec.spec_verify(v, sig, alg),
            SomePrivateKey::Rsa(rsa) => rsa.spec_verify(v, sig, alg),
        }
    }

    fn verify(&self, v: &[u8], sig: &[u8], alg: &str) -> (outcome: Result<(), Error>) {
        match self {
            SomePrivateKey::Ed25519(ed) => ed.verify(v, sig, alg),
            SomePrivateKey::Ecdsa(ec) => ec.verify(v, sig, alg),
            SomePrivateKey::Rsa(rsa) => rsa.verify(v, sig, alg),
        }
    }
}

impl VerificationKey for SomePublicKey {
    open spec fn accepts_alg(&self, alg: Seq<char>) -> bool {
        match self {
            SomePublicKey::Ed25519(ed) => ed.accepts_alg(alg),
            SomePublicKey::Ecdsa(ec) => ec.accepts_alg(alg),
            SomePublicKey::Rsa(rsa) => rsa.accepts_alg(alg),
        }
    }

    open spec fn spec_verify(&self, v: Seq<u8>, sig: Seq<u8>, alg: Seq<char>) -> Owed<()> {
        match self {
            SomePublicKey::Ed25519(ed) => ed.spec_verify(v, sig, alg),
            SomePublicKey::Ecdsa(ec) => ec.spec_verify(v, sig, alg),
            SomePublicKey::Rsa(rsa) => rsa.spec_verify(v, sig, alg),
        }
    }

    fn verify(&self, v: &[u8], sig: &[u8], alg: &str) -> (outcome: Result<(), Error>) {
        match self {
            SomePublicKey::Ed25519(ed) => ed.verify(v, sig, alg),
            SomePublicKey::Ecdsa(ec) => ec.verify(v, sig, alg),
            SomePublicKey::Rsa(rsa) => rsa.verify(v, sig, alg),
        }
    }
}

impl PublicKeyToJwk for SomePublicKey {
    open spec fn spec_jwk(&self) -> Owed<JwkView> {
        match self {
            SomePublicKey::Ed25519(ed) => ed.spec_jwk(),
            SomePublicKey::Ecdsa(ec) => ec.spec_jwk(),
            SomePublicKey::Rsa(rsa) => rsa.spec_jwk(),
        }
    }

    fn public_key_to_jwk(&self) -> (jwk: Result<Jwk, Error>) {
        match self {
            SomePublicKey::Ed25519(ed) => ed.public_key_to_jwk(),
            SomePublicKey::Ecdsa(ec) => ec.public_key_to_jwk(),
            SomePublicKey::Rsa(rsa) => rsa.public_key_to_jwk(),
        }
    }
}

} // verus!
