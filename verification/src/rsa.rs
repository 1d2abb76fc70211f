//! RSA keys, signing with PKCS#1 v1.5 padding.
use crate::digest::DigestKind;
use crate::error::{from_openssl, Error};
use crate::jwk::{base64_fits, base64url_encode, base64url_text, fits_base64, Jwk, JwkView};
use crate::key::{KeyFamily, PublicKeyToJwk, SigningKey, VerificationKey};
use crate::outcome::{settles, spec_verification_outcome, verification_outcome, Owed};
use crate::pem::{is_export_of, is_private_key_pem, is_public_key_pem};
use crate::primitives::{
    digest_verify_answer, key_family, key_family_of, pkcs8_pem_of, private_key_from_pem,
    private_key_to_pem_pkcs8, public_key_from_pem, public_key_to_pem, public_pem_of,
    rsa_components_of, rsa_key_check, rsa_public_components, sign_with_digest,
    verify_with_digest, KeyRef, MAX_INPUT_LEN,
};
use crate::signature::SignatureBytes;
use crate::text::str_equal;
use openssl::error::ErrorStack;
use openssl::pkey::{PKey, Private, Public};
use vstd::prelude::*;

verus! {

/// The RSA signing algorithms of JOSE with PKCS#1 v1.5 padding. An RSA key
/// does not say which of them it is for: the caller does.
#[non_exhaustive]
#[derive(Debug, Clone, Copy, PartialEq, Eq, Structural)]
pub enum RsaAlgorithm {
    RS256,
    RS384,
    RS512,
}

impl RsaAlgorithm {
    /// The name of the algorithm in a token's header.
    pub open spec fn spec_name(self) -> Seq<char> {
        match self {
            RsaAlgorithm::RS256 => "RS256"@,
            RsaAlgorithm::RS384 => "RS384"@,
            RsaAlgorithm::RS512 => "RS512"@,
        }
    }

    /// The algorithm called `name`, if there is one.
    pub open spec fn spec_from_name(name: Seq<char>) -> Option<RsaAlgorithm> {
        if name == "RS256"@ {
            Some(RsaAlgorithm::RS256)
        } else if name == "RS384"@ {
            Some(RsaAlgorithm::RS384)
        } else if name == "RS512"@ {
            Some(RsaAlgorithm::RS512)
        } else {
            None
        }
    }

    /// The hash function of the algorithm.
    pub open spec fn spec_digest(self) -> DigestKind {
        match self {
            RsaAlgorithm::RS256 => DigestKind::Sha256,
            RsaAlgorithm::RS384 => DigestKind::Sha384,
            RsaAlgorithm::RS512 => DigestKind::Sha512,
        }
    }

    pub fn name(self) -> (name: &'static str)
        ensures
            name@ == self.spec_name(),
    {
        match self {
            RsaAlgorithm::RS256 => "RS256",
            RsaAlgorithm::RS384 => "RS384",
            RsaAlgorithm::RS512 => "RS512",
        }
    }

    pub fn from_name(name: &str) -> (found: Option<RsaAlgorithm>)
        ensures
            found == Self::spec_from_name(name@),
    {
        if str_equal(name, "RS256") {
            Some(RsaAlgorithm::RS256)
        } else if str_equal(name, "RS384") {
            Some(RsaAlgorithm::RS384)
        } else if str_equal(name, "RS512") {
            Some(RsaAlgorithm::RS512)
        } else {
            None
        }
    }

    pub fn digest(self) -> (kind: DigestKind)
        ensures
            kind == self.spec_digest(),
    {
        match self {
            RsaAlgorithm::RS256 => DigestKind::Sha256,
            RsaAlgorithm::RS384 => DigestKind::Sha384,
            RsaAlgorithm::RS512 => DigestKind::Sha512,
        }
    }

    /// No two algorithms share a name: a name is that of `a` exactly when
    /// `from_name` finds `a` by it.
    pub proof fn lemma_names_are_one_to_one(a: RsaAlgorithm, name: Seq<char>)
        ensures
            Self::spec_from_name(name) == Some(a) <==> name == a.spec_name(),
    {
        reveal_strlit("RS256");
        reveal_strlit("RS384");
        reveal_strlit("RS512");
        assert("RS256"@[2] == '2' && "RS384"@[2] == '3' && "RS512"@[2] == '5');
    }
}

/// Accepts a key as an RSA key by the family that OpenSSL reports.
pub fn require_rsa(family: KeyFamily) -> (accepted: Result<(), Error>)
    ensures
        match accepted {
            Ok(_) => family == KeyFamily::Rsa,
            Err(e) => e is UnsupportedOrInvalidKey && family != KeyFamily::Rsa,
        },
{
    match family {
        KeyFamily::Rsa => Ok(()),
        _ => Err(Error::UnsupportedOrInvalidKey),
    }
}

/// Accepts a private key by the answer of OpenSSL's consistency check: a
/// key found unsound is invalid; a failure of the check itself is passed on.
pub fn require_sound(answer: Result<bool, ErrorStack>) -> (accepted: Result<(), Error>)
    ensures
        match answer {
            Ok(sound) => if sound {
                accepted is Ok
            } else {
                accepted matches Err(Error::UnsupportedOrInvalidKey)
            },
            Err(stack) => accepted matches Err(Error::OpenSsl(passed)) && passed == stack,
        },
{
    match answer {
        Ok(true) => Ok(()),
        Ok(false) => Err(Error::UnsupportedOrInvalidKey),
        Err(stack) => Err(Error::OpenSsl(stack)),
    }
}

/// What importing a public key handle owes: acceptance, where OpenSSL
/// reports an RSA key.
pub open spec fn spec_rsa_public_import(key: KeyRef<'_>) -> Owed<()> {
    if key_family_of(key) == KeyFamily::Rsa {
        Owed::Value(())
    } else {
        Owed::UnsupportedOrInvalidKey
    }
}

/// The name to write into a JSON Web Key for a key that may be bound to an
/// algorithm.
pub open spec fn spec_alg_member(algorithm: Option<RsaAlgorithm>) -> Option<Seq<char>> {
    match algorithm {
        Some(a) => Some(a.spec_name()),
        None => None,
    }
}

/// The JSON Web Key of the RSA public key with modulus `n` and exponent `e`.
pub open spec fn spec_rsa_jwk(algorithm: Option<RsaAlgorithm>, n: Seq<u8>, e: Seq<u8>) -> JwkView {
    JwkView {
        kty: "RSA"@,
        use_: Some("sig"@),
        alg: spec_alg_member(algorithm),
        crv: None,
        x: None,
        y: None,
        n: Some(base64url_text(n)),
        e: Some(base64url_text(e)),
    }
}

/// The JSON Web Key that a key owes, given the modulus and exponent that
/// OpenSSL gives for it.
pub open spec fn spec_rsa_jwk_of(algorithm: Option<RsaAlgorithm>, ne: Option<(Seq<u8>, Seq<u8>)>) -> Owed<
    JwkView,
> {
    match ne {
        None => Owed::OpenSsl,
        Some((n, e)) => if base64_fits(n.len()) && base64_fits(e.len()) {
            Owed::Value(spec_rsa_jwk(algorithm, n, e))
        } else {
            Owed::UnsupportedOrInvalidKey
        },
    }
}

/// What verifying under an RSA key owes. A key bound to an algorithm takes
/// that name alone; an unbound key takes the name of every RSA algorithm.
/// Then OpenSSL's answer under the digest of the claimed algorithm decides.
pub open spec fn spec_rsa_verify(
    bound: Option<RsaAlgorithm>,
    k: KeyRef<'_>,
    v: Seq<u8>,
    sig: Seq<u8>,
    alg: Seq<char>,
) -> Owed<()> {
    match RsaAlgorithm::spec_from_name(alg) {
        None => Owed::VerificationError,
        Some(claimed) => if bound is Some && bound != Some(claimed) {
            Owed::VerificationError
        } else {
            spec_verification_outcome(digest_verify_answer(k, claimed.spec_digest(), v, sig))
        },
    }
}

/// Builds the JSON Web Key of an RSA public key: key type "RSA", use "sig",
/// the algorithm's name if the key is bound to one, and modulus and exponent
/// in base64url without padding. Numbers too long to be written are refused.
pub fn rsa_jwk(algorithm: Option<RsaAlgorithm>, n: &[u8], e: &[u8]) -> (jwk: Result<Jwk, Error>)
    ensures
        settles(spec_rsa_jwk_of(algorithm, Some((n@, e@))), jwk),
        jwk matches Ok(built) ==> spec_rsa_jwk_of(algorithm, Some((n@, e@))) == Owed::Value(
            built@,
        ),
{
    if !fits_base64(n.len()) || !fits_base64(e.len()) {
        return Err(Error::UnsupportedOrInvalidKey);
    }
    let alg = match algorithm {
        Some(a) => Some(a.name().to_owned()),
        None => None,
    };
    Ok(
        Jwk {
            kty: "RSA".to_owned(),
            use_: Some("sig".to_owned()),
            alg,
            crv: None,
            x: None,
            y: None,
            n: Some(base64url_encode(n)),
            e: Some(base64url_encode(e)),
        },
    )
}

/// An RSA private key: OpenSSL's handle of it, and the algorithm that the
/// caller chose for it.
#[derive(Debug)]
pub struct RsaPrivateKey {
    private_key: PKey<Private>,
    algorithm: RsaAlgorithm,
}

impl View for RsaPrivateKey {
    type V = RsaAlgorithm;

    /// The algorithm of the key.
    closed spec fn view(&self) -> RsaAlgorithm {
        self.algorithm
    }
}

impl RsaPrivateKey {
    /// OpenSSL's handle of the key.
    pub closed spec fn handle(&self) -> &PKey<Private> {
        &self.private_key
    }

    /// The handle, as the calls that need only a public key take it.
    pub open spec fn key_ref(&self) -> KeyRef<'_> {
        KeyRef::Private(self.handle())
    }

    /// Whether `key` may come of importing the handle `pk` for
    /// `algorithm`. A handle that holds no RSA key is refused. For one that
    /// does, OpenSSL's consistency check decides, and its answer is no
    /// function of the key: the key that comes of it holds this handle
    /// under that algorithm, and a failure is of one of two kinds.
    pub open spec fn imported_from(
        pk: PKey<Private>,
        algorithm: RsaAlgorithm,
        key: Result<Self, Error>,
    ) -> bool {
        &&& key_family_of(KeyRef::Private(&pk)) != KeyFamily::Rsa
            ==> (key matches Err(Error::UnsupportedOrInvalidKey))
        &&& key matches Ok(k) ==> key_family_of(KeyRef::Private(&pk)) == KeyFamily::Rsa && k@
            == algorithm && *k.handle() == pk
        &&& key matches Err(e) ==> e is UnsupportedOrInvalidKey || e is OpenSsl
    }

    /// Takes over a key handle, to sign with `algorithm`. The handle must
    /// hold an RSA key that passes OpenSSL's consistency check.
    pub(crate) fn from_pkey(pkey: PKey<Private>, algorithm: RsaAlgorithm) -> (key: Result<Self, Error>)
        ensures
            Self::imported_from(pkey, algorithm, key),
    {
        require_rsa(key_family(KeyRef::Private(&pkey)))?;
        require_sound(rsa_key_check(&pkey))?;
        Ok(Self { private_key: pkey, algorithm })
    }

    /// Reads a private key from PEM, to sign with `algorithm`. Where
    /// OpenSSL reads a key from the bytes, the result is what importing
    /// that key owes.
    pub fn from_pem(pem: &[u8], algorithm: RsaAlgorithm) -> (key: Result<Self, Error>)
        ensures
            pem@.len() > MAX_INPUT_LEN ==> key matches Err(Error::UnsupportedOrInvalidKey),
            pem@.len() <= MAX_INPUT_LEN ==> key matches Err(Error::OpenSsl(_)) || exists|
                pk: PKey<Private>,
            | #[trigger] Self::imported_from(pk, algorithm, key),
    {
        if pem.len() > MAX_INPUT_LEN {
            return Err(Error::UnsupportedOrInvalidKey);
        }
        let pk = from_openssl(private_key_from_pem(pem))?;
        let ghost handle = pk;
        let key = Self::from_pkey(pk, algorithm);
        assert(Self::imported_from(handle, algorithm, key));
        key
    }

    /// The key as PKCS#8 PEM: the bytes that OpenSSL writes for the handle.
    pub fn private_key_to_pem_pkcs8(&self) -> (pem: Result<Vec<u8>, Error>)
        ensures
            is_export_of(pkcs8_pem_of(*self.handle()), pem),
            pem matches Ok(bytes) ==> is_private_key_pem(bytes@),
    {
        from_openssl(private_key_to_pem_pkcs8(&self.private_key))
    }

    /// The public half as SubjectPublicKeyInfo PEM: the bytes that OpenSSL
    /// writes for the handle.
    pub fn public_key_to_pem(&self) -> (pem: Result<Vec<u8>, Error>)
        ensures
            is_export_of(public_pem_of(self.key_ref()), pem),
            pem matches Ok(bytes) ==> is_public_key_pem(bytes@),
    {
        from_openssl(public_key_to_pem(KeyRef::Private(&self.private_key)))
    }

    /// The algorithm of the key.
    pub fn algorithm(&self) -> (algorithm: RsaAlgorithm)
        ensures
            algorithm == self@,
    {
        self.algorithm
    }
}

impl SigningKey for RsaPrivateKey {
    open spec fn spec_alg(&self) -> Seq<char> {
        self@.spec_name()
    }

    fn alg(&self) -> (name: &'static str) {
        self.algorithm.name()
    }

    /// Signs `v` over the algorithm's digest.
    fn sign(&self, v: &[u8]) -> (sig: Result<SignatureBytes, Error>)
        ensures
            sig matches Err(e) ==> e is OpenSsl,
    {
        let bytes = from_openssl(sign_with_digest(&self.private_key, self.algorithm.digest(), v))?;
        Ok(SignatureBytes::from_vec(bytes))
    }
}

impl VerificationKey for RsaPrivateKey {
    /// A private key takes its own algorithm and no other.
    open spec fn accepts_alg(&self, alg: Seq<char>) -> bool {
        alg == self@.spec_name()
    }

    open spec fn spec_verify(&self, v: Seq<u8>, sig: Seq<u8>, alg: Seq<char>) -> Owed<()> {
        spec_rsa_verify(Some(self@), self.key_ref(), v, sig, alg)
    }

    fn verify(&self, v: &[u8], sig: &[u8], alg: &str) -> (outcome: Result<(), Error>) {
        proof {
            RsaAlgorithm::lemma_names_are_one_to_one(self@, alg@);
        }
        if !str_equal(alg, self.algorithm.name()) {
            return Err(Error::VerificationError);
        }
        verification_outcome(
            verify_with_digest(KeyRef::Private(&self.private_key), self.algorithm.digest(), v, sig),
        )
    }
}

impl PublicKeyToJwk for RsaPrivateKey {
    open spec fn spec_jwk(&self) -> Owed<JwkView> {
        spec_rsa_jwk_of(Some(self@), rsa_components_of(self.key_ref()))
    }

    fn public_key_to_jwk(&self) -> (jwk: Result<Jwk, Error>) {
        let (n, e) = from_openssl(rsa_public_components(KeyRef::Private(&self.private_key)))?;
        rsa_jwk(Some(self.algorithm), n.as_slice(), e.as_slice())
    }
}

/// An RSA public key: OpenSSL's handle of it, and the one algorithm it is
/// bound to, if any. An unbound key verifies under every RSA algorithm.
#[derive(Debug)]
pub struct RsaPublicKey {
    public_key: PKey<Public>,
    algorithm: Option<RsaAlgorithm>,
}

impl View for RsaPublicKey {
    type V = Option<RsaAlgorithm>;

    /// The algorithm that the key is bound to, if any.
    closed spec fn view(&self) -> Option<RsaAlgorithm> {
        self.algorithm
    }
}

impl RsaPublicKey {
    /// OpenSSL's handle of the key.
    pub closed spec fn handle(&self) -> &PKey<Public> {
        &self.public_key
    }

    /// The handle, as the calls that need only a public key take it.
    pub open spec fn key_ref(&self) -> KeyRef<'_> {
        KeyRef::Public(self.handle())
    }

    /// Whether `key` is what importing the handle `pk`, bound to
    /// `algorithm`, owes: a key that holds this handle with that binding,
    /// where the handle holds an RSA key.
    pub open spec fn imported_from(
        pk: PKey<Public>,
        algorithm: Option<RsaAlgorithm>,
        key: Result<Self, Error>,
    ) -> bool {
        &&& settles(spec_rsa_public_import(KeyRef::Public(&pk)), key)
        &&& key matches Ok(k) ==> k@ == algorithm && *k.handle() == pk
    }

    /// Takes over a key handle, bound to `algorithm` if one is given. The
    /// handle must hold an RSA key.
    pub(crate) fn from_pkey(pkey: PKey<Public>, algorithm: Option<RsaAlgorithm>) -> (key: Result<
        Self,
        Error,
    >)
        ensures
            Self::imported_from(pkey, algorithm, key),
    {
        require_rsa(key_family(KeyRef::Public(&pkey)))?;
        Ok(Self { public_key: pkey, algorithm })
    }

    /// Reads a public key from PEM (SubjectPublicKeyInfo), bound to
    /// `algorithm` if one is given. Where OpenSSL reads a key from the
    /// bytes, the result is what importing that key owes.
    pub fn from_pem(pem: &[u8], algorithm: Option<RsaAlgorithm>) -> (key: Result<Self, Error>)
        ensures
            pem@.len() > MAX_INPUT_LEN ==> key matches Err(Error::UnsupportedOrInvalidKey),
            pem@.len() <= MAX_INPUT_LEN ==> key matches Err(Error::OpenSsl(_)) || exists|
                pk: PKey<Public>,
            | #[trigger] Self::imported_from(pk, algorithm, key),
    {
        if pem.len() > MAX_INPUT_LEN {
            return Err(Error::UnsupportedOrInvalidKey);
        }
        let pk = from_openssl(public_key_from_pem(pem))?;
        let ghost handle = pk;
        let key = Self::from_pkey(pk, algorithm);
        assert(Self::imported_from(handle, algorithm, key));
        key
    }

    /// The key as SubjectPublicKeyInfo PEM: the bytes that OpenSSL writes
    /// for the handle.
    pub fn to_pem(&self) -> (pem: Result<Vec<u8>, Error>)
        ensures
            is_export_of(public_pem_of(self.key_ref()), pem),
            pem matches Ok(bytes) ==> is_public_key_pem(bytes@),
    {
        from_openssl(public_key_to_pem(KeyRef::Public(&self.public_key)))
    }

    /// The algorithm that the key is bound to, if any.
    pub fn algorithm(&self) -> (algorithm: Option<RsaAlgorithm>)
        ensures
            algorithm == self@,
    {
        self.algorithm
    }
}

impl VerificationKey for RsaPublicKey {
    /// A bound key takes its own algorithm and no other; an unbound key
    /// takes every RSA algorithm.
    open spec fn accepts_alg(&self, alg: Seq<char>) -> bool {
        match self@ {
            Some(own) => alg == own.spec_name(),
            None => RsaAlgorithm::spec_from_name(alg) is Some,
        }
    }

    open spec fn spec_verify(&self, v: Seq<u8>, sig: Seq<u8>, alg: Seq<char>) -> Owed<()> {
        spec_rsa_verify(self@, self.key_ref(), v, sig, alg)
    }

    fn verify(&self, v: &[u8], sig: &[u8], alg: &str) -> (outcome: Result<(), Error>) {
        proof {
            if self@ is Some {
                RsaAlgorithm::lemma_names_are_one_to_one(self@->0, alg@);
            }
        }
        let claimed = match RsaAlgorithm::from_name(alg) {
            Some(a) => a,
            None => {
                return Err(Error::VerificationError);
            },
        };
        if let Some(own) = self.algorithm {
            if own != claimed {
                return Err(Error::VerificationError);
            }
        }
        verification_outcome(
            verify_with_digest(KeyRef::Public(&self.public_key), claimed.digest(), v, sig),
        )
    }
}

impl PublicKeyToJwk for RsaPublicKey {
    open spec fn spec_jwk(&self) -> Owed<JwkView> {
        spec_rsa_jwk_of(self@, rsa_components_of(self.key_ref()))
    }

    fn public_key_to_jwk(&self) -> (jwk: Result<Jwk, Error>) {
        let (n, e) = from_openssl(rsa_public_components(KeyRef::Public(&self.public_key)))?;
        rsa_jwk(self.algorithm, n.as_slice(), e.as_slice())
    }
}

} // verus!
