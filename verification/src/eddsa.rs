//! Ed25519 keys.
use crate::error::{from_openssl, Error};
use crate::jwk::{base64_fits, base64url_encode, base64url_text, fits_base64, Jwk, JwkView};
use crate::key::{KeyFamily, PublicKeyToJwk, SigningKey, VerificationKey};
use crate::outcome::{settles, spec_verification_outcome, verification_outcome, Owed};
use crate::pem::{is_export_of, is_private_key_pem, is_public_key_pem};
use crate::primitives::{
    key_family, key_family_of, oneshot_verify_answer, pkcs8_pem_of, private_key_from_pem,
    private_key_to_pem_pkcs8, public_key_from_pem, public_key_to_pem, public_pem_of,
    raw_public_key, raw_public_key_of, sign_oneshot, verify_oneshot, KeyRef, MAX_INPUT_LEN,
};
use crate::signature::SignatureBytes;
use crate::text::str_equal;
use openssl::pkey::{PKey, Private, Public};
use vstd::prelude::*;

verus! {

/// The name of the one algorithm that an Ed25519 key signs with.
pub open spec fn spec_eddsa_name() -> Seq<char> {
    "EdDSA"@
}

/// Accepts a key as an Ed25519 key by the family that OpenSSL reports.
pub fn require_ed25519(family: KeyFamily) -> (accepted: Result<(), Error>)
    ensures
        match accepted {
            Ok(_) => family == KeyFamily::Ed25519,
            Err(e) => e is UnsupportedOrInvalidKey && family != KeyFamily::Ed25519,
        },
{
    match family {
        KeyFamily::Ed25519 => Ok(()),
        _ => Err(Error::UnsupportedOrInvalidKey),
    }
}

/// What importing a key handle owes: acceptance, where OpenSSL reports an
/// Ed25519 key.
pub open spec fn spec_ed25519_import(key: KeyRef<'_>) -> Owed<()> {
    if key_family_of(key) == KeyFamily::Ed25519 {
        Owed::Value(())
    } else {
        Owed::UnsupportedOrInvalidKey
    }
}

/// The JSON Web Key of the Ed25519 public key with the raw bytes `x`.
pub open spec fn spec_ed25519_jwk(x: Seq<u8>) -> JwkView {
    JwkView {
        kty: "OKP"@,
        use_: Some("sig"@),
        alg: Some(spec_eddsa_name()),
        crv: Some("Ed25519"@),
        x: Some(base64url_text(x)),
        y: None,
        n: None,
        e: None,
    }
}

/// The JSON Web Key that a key owes, given the raw public key that OpenSSL
/// gives for it.
pub open spec fn spec_ed25519_jwk_of(raw: Option<Seq<u8>>) -> Owed<JwkView> {
    match raw {
        None => Owed::OpenSsl,
        Some(x) => if base64_fits(x.len()) {
            Owed::Value(spec_ed25519_jwk(x))
        } else {
            Owed::UnsupportedOrInvalidKey
        },
    }
}

/// What verifying under an Ed25519 key owes: any name but "EdDSA" is
/// refused; else OpenSSL's answer on the payload and the signature decides.
pub open spec fn spec_ed25519_verify(k: KeyRef<'_>, v: Seq<u8>, sig: Seq<u8>, alg: Seq<char>) -> Owed<
    (),
> {
    if alg == spec_eddsa_name() {
        spec_verification_outcome(oneshot_verify_answer(k, v, sig))
    } else {
        Owed::VerificationError
    }
}

/// Builds the JSON Web Key of an Ed25519 public key from its raw bytes: key
/// type "OKP", curve "Ed25519", the bytes in base64url without padding. A
/// key too long to be written is refused.
pub fn ed25519_jwk(x: &[u8]) -> (jwk: Result<Jwk, Error>)
    ensures
        settles(spec_ed25519_jwk_of(Some(x@)), jwk),
        jwk matches Ok(built) ==> spec_ed25519_jwk_of(Some(x@)) == Owed::Value(built@),
{
    if !fits_base64(x.len()) {
        return Err(Error::UnsupportedOrInvalidKey);
    }
    Ok(
        Jwk {
            kty: "OKP".to_owned(),
            use_: Some("sig".to_owned()),
            alg: Some("EdDSA".to_owned()),
            crv: Some("Ed25519".to_owned()),
            x: Some(base64url_encode(x)),
            y: None,
            n: None,
            e: None,
        },
    )
}

/// An Ed25519 private key: OpenSSL's handle of it.
#[derive(Debug)]
pub struct Ed25519PrivateKey {
    private_key: PKey<Private>,
}

impl Ed25519PrivateKey {
    /// OpenSSL's handle of the key.
    pub closed spec fn handle(&self) -> &PKey<Private> {
        &self.private_key
    }

    /// The handle, as the calls that need only a public key take it.
    pub open spec fn key_ref(&self) -> KeyRef<'_> {
        KeyRef::Private(self.handle())
    }

    /// Whether `key` is what importing the handle `pk` owes: a key that
    /// holds this handle, where it is an Ed25519 key.
    pub open spec fn imported_from(pk: PKey<Private>, key: Result<Self, Error>) -> bool {
        &&& settles(spec_ed25519_import(KeyRef::Private(&pk)), key)
        &&& key matches Ok(k) ==> *k.handle() == pk
    }

    /// Takes over a key handle, which must hold an Ed25519 key.
    pub(crate) fn from_pkey(pkey: PKey<Private>) -> (key: Result<Self, Error>)
        ensures
            Self::imported_from(pkey, key),
    {
        require_ed25519(key_family(KeyRef::Private(&pkey)))?;
        Ok(Self { private_key: pkey })
    }

    /// Reads a private key from PKCS#8 PEM. Where OpenSSL reads a key from
    /// the bytes, the result is what importing that key owes.
    pub fn from_pem(pem: &[u8]) -> (key: Result<Self, Error>)
        ensures
            pem@.len() > MAX_INPUT_LEN ==> key matches Err(Error::UnsupportedOrInvalidKey),
            pem@.len() <= MAX_INPUT_LEN ==> key matches Err(Error::OpenSsl(_)) || exists|
                pk: PKey<Private>,
            | #[trigger] Self::imported_from(pk, key),
    {
        if pem.len() > MAX_INPUT_LEN {
            return Err(Error::UnsupportedOrInvalidKey);
        }
        let pk = from_openssl(private_key_from_pem(pem))?;
        let ghost handle = pk;
        let key = Self::from_pkey(pk);
        assert(Self::imported_from(handle, key));
        key
    }

    /// The key as PKCS#8 PEM: the bytes that OpenSSL writes for the handle.
    pub fn private_key_to_pem_pkcs8(&self) -> (pem: Result<Vec<u8>, Error>)
        ensures
            is_export_of(pkcs8_pem_of(*self.handle()), pem),
            pem matches Ok(bytes) ==> is_private_key_pem(bytes@),
    {
        from_openssl(private_key_to_pem_pkcs8(&self.private_key))
    }

    /// The public half as SubjectPublicKeyInfo PEM: the bytes that OpenSSL
    /// writes for the handle.
    pub fn public_key_to_pem(&self) -> (pem: Result<Vec<u8>, Error>)
        ensures
            is_export_of(public_pem_of(self.key_ref()), pem),
            pem matches Ok(bytes) ==> is_public_key_pem(bytes@),
    {
        from_openssl(public_key_to_pem(KeyRef::Private(&self.private_key)))
    }
}

impl SigningKey for Ed25519PrivateKey {
    open spec fn spec_alg(&self) -> Seq<char> {
        spec_eddsa_name()
    }

    fn alg(&self) -> (name: &'static str) {
        "EdDSA"
    }

    /// Signs `v` itself; Ed25519 takes no digest beforehand.
    fn sign(&self, v: &[u8]) -> (sig: Result<SignatureBytes, Error>)
        ensures
            sig matches Err(e) ==> e is OpenSsl,
    {
        let bytes = from_openssl(sign_oneshot(&self.private_key, v))?;
        Ok(SignatureBytes::from_vec(bytes))
    }
}

impl VerificationKey for Ed25519PrivateKey {
    /// An Ed25519 key takes the name "EdDSA" and no other.
    open spec fn accepts_alg(&self, alg: Seq<char>) -> bool {
        alg == spec_eddsa_name()
    }

    open spec fn spec_verify(&self, v: Seq<u8>, sig: Seq<u8>, alg: Seq<char>) -> Owed<()> {
        spec_ed25519_verify(self.key_ref(), v, sig, alg)
    }

    fn verify(&self, v: &[u8], sig: &[u8], alg: &str) -> (outcome: Result<(), Error>) {
        if !str_equal(alg, "EdDSA") {
            return Err(Error::VerificationError);
        }
        verification_outcome(verify_oneshot(KeyRef::Private(&self.private_key), v, sig))
    }
}

impl PublicKeyToJwk for Ed25519PrivateKey {
    open spec fn spec_jwk(&self) -> Owed<JwkView> {
        spec_ed25519_jwk_of(raw_public_key_of(self.key_ref()))
    }

    fn public_key_to_jwk(&self) -> (jwk: Result<Jwk, Error>) {
        let x = from_openssl(raw_public_key(KeyRef::Private(&self.private_key)))?;
        ed25519_jwk(x.as_slice())
    }
}

/// An Ed25519 public key: OpenSSL's handle of it.
#[derive(Debug)]
pub struct Ed25519PublicKey {
    public_key: PKey<Public>,
}

impl Ed25519PublicKey {
    /// OpenSSL's handle of the key.
    pub closed spec fn handle(&self) -> &PKey<Public> {
        &self.public_key
    }

    /// The handle, as the calls that need only a public key take it.
    pub open spec fn key_ref(&self) -> KeyRef<'_> {
        KeyRef::Public(self.handle())
    }

    /// Whether `key` is what importing the handle `pk` owes: a key that
    /// holds this handle, where it is an Ed25519 key.
    pub open spec fn imported_from(pk: PKey<Public>, key: Result<Self, Error>) -> bool {
        &&& settles(spec_ed25519_import(KeyRef::Public(&pk)), key)
        &&& key matches Ok(k) ==> *k.handle() == pk
    }

    /// Takes over a key handle, which must hold an Ed25519 key.
    pub(crate) fn from_pkey(pkey: PKey<Public>) -> (key: Result<Self, Error>)
        ensures
            Self::imported_from(pkey, key),
    {
        require_ed25519(key_family(KeyRef::Public(&pkey)))?;
        Ok(Self { public_key: pkey })
    }

    /// Reads a public key from PEM (SubjectPublicKeyInfo). Where OpenSSL
    /// reads a key from the bytes, the result is what importing that key
    /// owes.
    pub fn from_pem(pem: &[u8]) -> (key: Result<Self, Error>)
        ensures
            pem@.len() > MAX_INPUT_LEN ==> key matches Err(Error::UnsupportedOrInvalidKey),
            pem@.len() <= MAX_INPUT_LEN ==> key matches Err(Error::OpenSsl(_)) || exists|
                pk: PKey<Public>,
            | #[trigger] Self::imported_from(pk, key),
    {
        if pem.len() > MAX_INPUT_LEN {
            return Err(Error::UnsupportedOrInvalidKey);
        }
        let pk = from_openssl(public_key_from_pem(pem))?;
        let ghost handle = pk;
        let key = Self::from_pkey(pk);
        assert(Self::imported_from(handle, key));
        key
    }

    /// The key as SubjectPublicKeyInfo PEM: the bytes that OpenSSL writes
    /// for the handle.
    pub fn to_pem(&self) -> (pem: Result<Vec<u8>, Error>)
        ensures
            is_export_of(public_pem_of(self.key_ref()), pem),
            pem matches Ok(bytes) ==> is_public_key_pem(bytes@),
    {
        from_openssl(public_key_to_pem(KeyRef::Public(&self.public_key)))
    }
}

impl VerificationKey for Ed25519PublicKey {
    /// An Ed25519 key takes the name "EdDSA" and no other.
    open spec fn accepts_alg(&self, alg: Seq<char>) -> bool {
        alg == spec_eddsa_name()
    }

    open spec fn spec_verify(&self, v: Seq<u8>, sig: Seq<u8>, alg: Seq<char>) -> Owed<()> {
        spec_ed25519_verify(self.key_ref(), v, sig, alg)
    }

    fn verify(&self, v: &[u8], sig: &[u8], alg: &str) -> (outcome: Result<(), Error>) {
        if !str_equal(alg, "EdDSA") {
            return Err(Error::VerificationError);
        }
        verification_outcome(verify_oneshot(KeyRef::Public(&self.public_key), v, sig))
    }
}

impl PublicKeyToJwk for Ed25519PublicKey {
    open spec fn spec_jwk(&self) -> Owed<JwkView> {
        spec_ed25519_jwk_of(raw_public_key_of(self.key_ref()))
    }

    fn public_key_to_jwk(&self) -> (jwk: Result<Jwk, Error>) {
        let x = from_openssl(raw_public_key(KeyRef::Public(&self.public_key)))?;
        ed25519_jwk(x.as_slice())
    }
}

} // verus!
