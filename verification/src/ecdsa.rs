//! ECDSA keys on the NIST prime curves.
use crate::codec::{decode_fixed, encode_fixed, fixed_decoding, fixed_encoding, left_pad, left_padded};
use crate::digest::DigestKind;
use crate::error::{from_openssl, Error};
use crate::jwk::{
    base64_fits, base64_len, base64url_encode, base64url_text, fits_base64, Jwk, JwkView,
};
use crate::key::{PublicKeyToJwk, SigningKey, VerificationKey};
use crate::outcome::{settles, spec_verification_outcome, verification_outcome, Owed};
use crate::pem::{is_export_of, is_private_key_pem, is_public_key_pem};
use crate::primitives::{
    bignum_from_slice, bignum_of, digest_verify_answer, ec_group_named, ec_group_of_curve,
    ec_key_at, ec_key_from_coordinates, ec_key_generate, ec_point, ec_point_of, ec_report,
    ec_report_of, ecdsa_components_of, ecdsa_components_of_der, ecdsa_der_of,
    ecdsa_der_of_components, pkcs8_pem_of, pkey_from_ec_key, pkey_from_public_ec_key,
    pkey_of_ec_key, private_key_from_pem, private_key_to_pem_pkcs8, public_key_from_pem,
    public_key_to_pem, public_pem_of, sign_with_digest, verify_with_digest, KeyRef,
    MAX_INPUT_LEN,
};
use crate::signature::SignatureBytes;
use crate::text::str_equal;
use openssl::pkey::{PKey, Private, Public};
use vstd::prelude::*;

verus! {

/// OpenSSL's number (NID) of the curve prime256v1, also called P-256.
pub const NID_PRIME256V1: i32 = 415;

/// OpenSSL's number (NID) of the curve secp384r1, also called P-384.
pub const NID_SECP384R1: i32 = 715;

/// OpenSSL's number (NID) of the curve secp521r1, also called P-521.
pub const NID_SECP521R1: i32 = 716;

/// The ECDSA signing algorithms of JOSE, one per NIST prime curve.
#[non_exhaustive]
#[derive(Debug, Clone, Copy, PartialEq, Eq, Structural)]
pub enum EcdsaAlgorithm {
    ES256,
    ES384,
    ES512,
}

impl EcdsaAlgorithm {
    /// The NID of the algorithm's curve.
    pub open spec fn spec_curve(self) -> i32 {
        match self {
            EcdsaAlgorithm::ES256 => NID_PRIME256V1,
            EcdsaAlgorithm::ES384 => NID_SECP384R1,
            EcdsaAlgorithm::ES512 => NID_SECP521R1,
        }
    }

    /// The algorithm whose curve has the NID `curve`, if there is one.
    pub open spec fn spec_from_curve(curve: i32) -> Option<EcdsaAlgorithm> {
        if curve == NID_PRIME256V1 {
            Some(EcdsaAlgorithm::ES256)
        } else if curve == NID_SECP384R1 {
            Some(EcdsaAlgorithm::ES384)
        } else if curve == NID_SECP521R1 {
            Some(EcdsaAlgorithm::ES512)
        } else {
            None
        }
    }

    /// The hash function of the algorithm.
    pub open spec fn spec_digest(self) -> DigestKind {
        match self {
            EcdsaAlgorithm::ES256 => DigestKind::Sha256,
            EcdsaAlgorithm::ES384 => DigestKind::Sha384,
            EcdsaAlgorithm::ES512 => DigestKind::Sha512,
        }
    }

    /// The name of the algorithm in a token's header.
    pub open spec fn spec_name(self) -> Seq<char> {
        match self {
            EcdsaAlgorithm::ES256 => "ES256"@,
            EcdsaAlgorithm::ES384 => "ES384"@,
            EcdsaAlgorithm::ES512 => "ES512"@,
        }
    }

    /// The name of the algorithm's curve in a JSON Web Key.
    pub open spec fn spec_curve_name(self) -> Seq<char> {
        match self {
            EcdsaAlgorithm::ES256 => "P-256"@,
            EcdsaAlgorithm::ES384 => "P-384"@,
            EcdsaAlgorithm::ES512 => "P-521"@,
        }
    }

    /// The algorithm whose curve is called `name`, if there is one.
    pub open spec fn spec_from_curve_name(name: Seq<char>) -> Option<EcdsaAlgorithm> {
        if name == "P-256"@ {
            Some(EcdsaAlgorithm::ES256)
        } else if name == "P-384"@ {
            Some(EcdsaAlgorithm::ES384)
        } else if name == "P-521"@ {
            Some(EcdsaAlgorithm::ES512)
        } else {
            None
        }
    }

    /// Byte length of a signature: twice the byte length of the curve's field.
    pub open spec fn spec_sig_len(self) -> nat {
        match self {
            EcdsaAlgorithm::ES256 => 64,
            EcdsaAlgorithm::ES384 => 96,
            EcdsaAlgorithm::ES512 => 132,
        }
    }

    /// Byte length of an element of the curve's field: the width of `r`, of
    /// `s` and of a coordinate.
    pub open spec fn spec_field_len(self) -> nat {
        self.spec_sig_len() / 2
    }

    pub fn curve(self) -> (nid: i32)
        ensures
            nid == self.spec_curve(),
    {
        match self {
            EcdsaAlgorithm::ES256 => NID_PRIME256V1,
            EcdsaAlgorithm::ES384 => NID_SECP384R1,
            EcdsaAlgorithm::ES512 => NID_SECP521R1,
        }
    }

    /// The algorithm of a curve, by the curve's NID. Any curve but the three
    /// NIST prime curves is refused.
    pub fn from_curve(curve: i32) -> (found: Result<EcdsaAlgorithm, Error>)
        ensures
            match found {
                Ok(algorithm) => Self::spec_from_curve(curve) == Some(algorithm),
                Err(e) => e is UnsupportedOrInvalidKey && Self::spec_from_curve(curve) is None,
            },
    {
        if curve == NID_PRIME256V1 {
            Ok(EcdsaAlgorithm::ES256)
        } else if curve == NID_SECP384R1 {
            Ok(EcdsaAlgorithm::ES384)
        } else if curve == NID_SECP521R1 {
            Ok(EcdsaAlgorithm::ES512)
        } else {
            Err(Error::UnsupportedOrInvalidKey)
        }
    }

    pub fn digest(self) -> (kind: DigestKind)
        ensures
            kind == self.spec_digest(),
    {
        match self {
            EcdsaAlgorithm::ES256 => DigestKind::Sha256,
            EcdsaAlgorithm::ES384 => DigestKind::Sha384,
            EcdsaAlgorithm::ES512 => DigestKind::Sha512,
        }
    }

    pub fn name(self) -> (name: &'static str)
        ensures
            name@ == self.spec_name(),
    {
        match self {
            EcdsaAlgorithm::ES256 => "ES256",
            EcdsaAlgorithm::ES384 => "ES384",
            EcdsaAlgorithm::ES512 => "ES512",
        }
    }

    pub fn curve_name(self) -> (name: &'static str)
        ensures
            name@ == self.spec_curve_name(),
    {
        match self {
            EcdsaAlgorithm::ES256 => "P-256",
            EcdsaAlgorithm::ES384 => "P-384",
            EcdsaAlgorithm::ES512 => "P-521",
        }
    }

    /// The algorithm of a curve, by the curve's name in a JSON Web Key. Any
    /// name but "P-256", "P-384" and "P-521" is refused.
    pub fn from_curve_name(name: &str) -> (found: Result<EcdsaAlgorithm, Error>)
        ensures
            match found {
                Ok(algorithm) => Self::spec_from_curve_name(name@) == Some(algorithm),
                Err(e) => e is UnsupportedOrInvalidKey && Self::spec_from_curve_name(name@) is None,
            },
    {
        if str_equal(name, "P-256") {
            Ok(EcdsaAlgorithm::ES256)
        } else if str_equal(name, "P-384") {
            Ok(EcdsaAlgorithm::ES384)
        } else if str_equal(name, "P-521") {
            Ok(EcdsaAlgorithm::ES512)
        } else {
            Err(Error::UnsupportedOrInvalidKey)
        }
    }

    pub fn sig_len(self) -> (len: usize)
        ensures
            len == self.spec_sig_len(),
    {
        match self {
            EcdsaAlgorithm::ES256 => 64,
            EcdsaAlgorithm::ES384 => 96,
            EcdsaAlgorithm::ES512 => 132,
        }
    }

    pub fn field_len(self) -> (len: usize)
        ensures
            len == self.spec_field_len(),
    {
        self.sig_len() / 2
    }

    /// Each algorithm has a curve of its own, and `from_curve` finds the
    /// algorithm again from it: algorithms and supported curves correspond
    /// one to one.
    pub proof fn lemma_curve_is_one_to_one(a: EcdsaAlgorithm, b: EcdsaAlgorithm, curve: i32)
        ensures
            Self::spec_from_curve(a.spec_curve()) == Some(a),
            a.spec_curve() == b.spec_curve() ==> a == b,
            Self::spec_from_curve(curve) == Some(a) <==> curve == a.spec_curve(),
    {
    }

    /// No two algorithms share a name or a curve name, and `from_curve_name`
    /// finds the algorithm again from its curve's name.
    pub proof fn lemma_names_are_one_to_one(a: EcdsaAlgorithm, b: EcdsaAlgorithm)
        ensures
            a.spec_name() == b.spec_name() ==> a == b,
            a.spec_curve_name() == b.spec_curve_name() ==> a == b,
            Self::spec_from_curve_name(a.spec_curve_name()) == Some(a),
    {
        reveal_strlit("ES256");
        reveal_strlit("ES384");
        reveal_strlit("ES512");
        reveal_strlit("P-256");
        reveal_strlit("P-384");
        reveal_strlit("P-521");
        assert("P-256"@[2] == '2' && "P-384"@[2] == '3' && "P-521"@[2] == '5');
        assert("ES256"@[2] == '2' && "ES384"@[2] == '3' && "ES512"@[2] == '5');
    }

    /// A signature has room for two field elements, and its length is even.
    pub proof fn lemma_sig_len_is_even(self)
        ensures
            self.spec_sig_len() % 2 == 0,
            self.spec_sig_len() >= 2,
            self.spec_sig_len() <= 132,
    {
    }
}

/// The algorithm of an elliptic-curve key, from what OpenSSL reports of it:
/// whether the key passed its consistency check, and the NID of its curve
/// if the curve has one. A key that failed the check, or lies on any other
/// curve than the three NIST prime curves, has none.
pub open spec fn spec_detect_algorithm(consistent: bool, curve: Option<i32>) -> Option<
    EcdsaAlgorithm,
> {
    if consistent && curve is Some {
        EcdsaAlgorithm::spec_from_curve(curve->0)
    } else {
        None
    }
}

/// Reads the algorithm off what OpenSSL reports of a key. The algorithm is
/// always that of the key's curve; a key without one is refused.
pub fn detect_algorithm(consistent: bool, curve: Option<i32>) -> (found: Result<EcdsaAlgorithm, Error>)
    ensures
        match found {
            Ok(algorithm) => spec_detect_algorithm(consistent, curve) == Some(algorithm),
            Err(e) => e is UnsupportedOrInvalidKey && spec_detect_algorithm(consistent, curve)
                is None,
        },
{
    if !consistent {
        return Err(Error::UnsupportedOrInvalidKey);
    }
    match curve {
        Some(nid) => EcdsaAlgorithm::from_curve(nid),
        None => Err(Error::UnsupportedOrInvalidKey),
    }
}

/// What importing a key handle owes: the algorithm of the curve of the
/// elliptic-curve key inside, if OpenSSL finds one there, finds it
/// consistent, and the curve is a supported one.
pub open spec fn spec_import(key: KeyRef<'_>) -> Owed<EcdsaAlgorithm> {
    match ec_report_of(key) {
        None => Owed::OpenSsl,
        Some((consistent, curve)) => match spec_detect_algorithm(consistent, curve) {
            Some(algorithm) => Owed::Value(algorithm),
            None => Owed::UnsupportedOrInvalidKey,
        },
    }
}

/// What taking over a key handle as a key of `algorithm` owes: the handle
/// must hold a key that imports, and its curve must be the algorithm's own.
pub open spec fn spec_adopt(key: KeyRef<'_>, algorithm: EcdsaAlgorithm) -> Owed<EcdsaAlgorithm> {
    match spec_import(key) {
        Owed::Value(found) => if found == algorithm {
            Owed::Value(algorithm)
        } else {
            Owed::UnsupportedOrInvalidKey
        },
        Owed::UnsupportedOrInvalidKey => Owed::UnsupportedOrInvalidKey,
        Owed::VerificationError => Owed::VerificationError,
        Owed::OpenSsl => Owed::OpenSsl,
    }
}

/// The fixed-width signature of `algorithm` that holds `r` and `s`. Numbers
/// wider than the curve's field cannot come from a key on that curve, so
/// they are refused as the sign of an invalid key.
pub fn encode_signature(algorithm: EcdsaAlgorithm, r: &[u8], s: &[u8]) -> (sig: Result<Vec<u8>, Error>)
    ensures
        match sig {
            Ok(bytes) => {
                &&& r@.len() <= algorithm.spec_field_len()
                &&& s@.len() <= algorithm.spec_field_len()
                &&& bytes@ == fixed_encoding(r@, s@, algorithm.spec_sig_len())
                &&& bytes@.len() == algorithm.spec_sig_len()
            },
            Err(e) => e is UnsupportedOrInvalidKey && (r@.len() > algorithm.spec_field_len()
                || s@.len() > algorithm.spec_field_len()),
        },
{
    let half = algorithm.field_len();
    if r.len() > half || s.len() > half {
        return Err(Error::UnsupportedOrInvalidKey);
    }
    Ok(encode_fixed(r, s, algorithm.sig_len()))
}

/// The coordinates that a key of `algorithm` owes for the point that
/// OpenSSL gives: each padded on the left to the width of the curve's
/// field. A coordinate wider than the field is the sign of an invalid key.
pub open spec fn spec_fixed_width(algorithm: EcdsaAlgorithm, point: Option<(Seq<u8>, Seq<u8>)>) -> Owed<
    (Seq<u8>, Seq<u8>),
> {
    match point {
        None => Owed::OpenSsl,
        Some((x, y)) => if x.len() <= algorithm.spec_field_len() && y.len()
            <= algorithm.spec_field_len() {
            Owed::Value(
                (
                    left_padded(x, algorithm.spec_field_len()),
                    left_padded(y, algorithm.spec_field_len()),
                ),
            )
        } else {
            Owed::UnsupportedOrInvalidKey
        },
    }
}

/// Writes the coordinates of a public point in the fixed width of the
/// curve's field, zero bytes in front. Coordinates wider than the field are
/// refused.
pub fn fixed_width_coordinates(algorithm: EcdsaAlgorithm, x: &[u8], y: &[u8]) -> (xy: Result<
    (Vec<u8>, Vec<u8>),
    Error,
>)
    ensures
        settles(spec_fixed_width(algorithm, Some((x@, y@))), xy),
        xy matches Ok((px, py)) ==> {
            &&& spec_fixed_width(algorithm, Some((x@, y@))) == Owed::Value((px@, py@))
            &&& px@.len() == algorithm.spec_field_len()
            &&& py@.len() == algorithm.spec_field_len()
        },
{
    let width = algorithm.field_len();
    if x.len() > width || y.len() > width {
        return Err(Error::UnsupportedOrInvalidKey);
    }
    Ok((left_pad(x, width), left_pad(y, width)))
}

/// The JSON Web Key of the public point `(x, y)` under `algorithm`.
pub open spec fn spec_ec_jwk(algorithm: EcdsaAlgorithm, x: Seq<u8>, y: Seq<u8>) -> JwkView {
    JwkView {
        kty: "EC"@,
        use_: Some("sig"@),
        alg: Some(algorithm.spec_name()),
        crv: Some(algorithm.spec_curve_name()),
        x: Some(base64url_text(x)),
        y: Some(base64url_text(y)),
        n: None,
        e: None,
    }
}

/// The JSON Web Key that a key of `algorithm` owes, given the coordinates
/// it owes.
pub open spec fn spec_jwk_of(algorithm: EcdsaAlgorithm, coordinates: Owed<(Seq<u8>, Seq<u8>)>) -> Owed<
    JwkView,
> {
    match coordinates {
        Owed::Value((x, y)) => Owed::Value(spec_ec_jwk(algorithm, x, y)),
        Owed::UnsupportedOrInvalidKey => Owed::UnsupportedOrInvalidKey,
        Owed::VerificationError => Owed::VerificationError,
        Owed::OpenSsl => Owed::OpenSsl,
    }
}

/// Builds the JSON Web Key of the public point `(x, y)` under `algorithm`:
/// key type "EC", use "sig", the algorithm's name and its curve's name, and
/// the coordinates in base64url without padding, every byte of them kept.
/// Coordinates too long to be written are refused.
pub fn ec_jwk(algorithm: EcdsaAlgorithm, x: &[u8], y: &[u8]) -> (jwk: Result<Jwk, Error>)
    ensures
        match jwk {
            Ok(jwk) => {
                &&& base64_fits(x@.len()) && base64_fits(y@.len())
                &&& jwk@ == spec_ec_jwk(algorithm, x@, y@)
                &&& jwk@.x matches Some(text) && text.len() == base64_len(x@.len())
                &&& jwk@.y matches Some(text) && text.len() == base64_len(y@.len())
            },
            Err(e) => e is UnsupportedOrInvalidKey && !(base64_fits(x@.len()) && base64_fits(
                y@.len(),
            )),
        },
{
    if !fits_base64(x.len()) || !fits_base64(y.len()) {
        return Err(Error::UnsupportedOrInvalidKey);
    }
    Ok(
        Jwk {
            kty: "EC".to_owned(),
            use_: Some("sig".to_owned()),
            alg: Some(algorithm.name().to_owned()),
            crv: Some(algorithm.curve_name().to_owned()),
            x: Some(base64url_encode(x)),
            y: Some(base64url_encode(y)),
            n: None,
            e: None,
        },
    )
}

/// The DER signature that OpenSSL writes for the numbers with the
/// big-endian bytes `r` and `s`.
pub open spec fn spec_ecdsa_der(r: Seq<u8>, s: Seq<u8>) -> Option<Seq<u8>> {
    match bignum_of(r) {
        None => None,
        Some(r) => match bignum_of(s) {
            None => None,
            Some(s) => ecdsa_der_of(r, s),
        },
    }
}

/// Whether `sig` is the fixed-width form, under `algorithm`, of the DER
/// signature `der`: the two numbers that OpenSSL reads from `der`, each
/// right-aligned in its half.
pub open spec fn is_fixed_form_of(algorithm: EcdsaAlgorithm, der: Seq<u8>, sig: Seq<u8>) -> bool {
    ecdsa_components_of(der) matches Some((r, s)) && {
        &&& r.len() <= algorithm.spec_field_len()
        &&& s.len() <= algorithm.spec_field_len()
        &&& sig == fixed_encoding(r, s, algorithm.spec_sig_len())
    }
}

/// What verifying the fixed-width signature `sig` of `v` under the key `k`
/// of algorithm `alg` owes: a signature of the wrong length is refused;
/// else the two halves, stripped of their padding, are written as a DER
/// signature, and OpenSSL's answer on it under the digest of `alg` decides.
pub open spec fn spec_es256_verify(alg: EcdsaAlgorithm, k: KeyRef<'_>, v: Seq<u8>, sig: Seq<u8>) -> Owed<
    (),
> {
    match fixed_decoding(sig, alg.spec_sig_len()) {
        None => Owed::VerificationError,
        Some((r, s)) => match spec_ecdsa_der(r, s) {
            None => Owed::OpenSsl,
            Some(der) => spec_verification_outcome(
                digest_verify_answer(k, alg.spec_digest(), v, der),
            ),
        },
    }
}

/// Verifies the fixed-width signature `sig` of `v` under the key `k` of
/// algorithm `alg`. The length is checked before a byte is read; then the
/// two halves are stripped of their padding, written as a DER signature and
/// handed to OpenSSL together with the digest of `alg`.
fn es256_verify(alg: EcdsaAlgorithm, k: KeyRef<'_>, v: &[u8], sig: &[u8]) -> (outcome: Result<
    (),
    Error,
>)
    ensures
        settles(spec_es256_verify(alg, k, v@, sig@), outcome),
{
    let (r, s) = decode_fixed(sig, alg.sig_len())?;
    let r = from_openssl(bignum_from_slice(r))?;
    let s = from_openssl(bignum_from_slice(s))?;
    let der = from_openssl(ecdsa_der_of_components(r, s))?;
    verification_outcome(verify_with_digest(k, alg.digest(), v, der.as_slice()))
}

/// What verifying under a key of algorithm `own` owes when the caller
/// claims the algorithm called `alg`: any name but the key's own is refused
/// before a byte of the signature is read.
pub open spec fn spec_verify_as(
    own: EcdsaAlgorithm,
    k: KeyRef<'_>,
    v: Seq<u8>,
    sig: Seq<u8>,
    alg: Seq<char>,
) -> Owed<()> {
    if alg == own.spec_name() {
        spec_es256_verify(own, k, v, sig)
    } else {
        Owed::VerificationError
    }
}

/// What building a key from the coordinates `(x, y)` on the curve of
/// `algorithm` owes. A coordinate too long to hand over is refused, and so
/// is a point that OpenSSL does not take; the key that OpenSSL makes of the
/// point is then taken over as any handle is, so it must pass the
/// consistency check and lie on the algorithm's curve.
pub open spec fn spec_from_coordinates(x: Seq<u8>, y: Seq<u8>, algorithm: EcdsaAlgorithm) -> Owed<
    EcdsaAlgorithm,
> {
    if x.len() > MAX_INPUT_LEN || y.len() > MAX_INPUT_LEN {
        Owed::UnsupportedOrInvalidKey
    } else {
        match ec_group_named(algorithm.spec_curve()) {
            None => Owed::OpenSsl,
            Some(group) => match bignum_of(x) {
                None => Owed::OpenSsl,
                Some(x) => match bignum_of(y) {
                    None => Owed::OpenSsl,
                    Some(y) => match ec_key_at(group, x, y) {
                        None => Owed::UnsupportedOrInvalidKey,
                        Some(ec) => match pkey_of_ec_key(ec) {
                            None => Owed::OpenSsl,
                            Some(pk) => spec_adopt(KeyRef::Public(&pk), algorithm),
                        },
                    },
                },
            },
        }
    }
}

/// An ECDSA private key. It owns OpenSSL's handle of the key, and the
/// algorithm that goes with the key's curve.
#[derive(Debug)]
pub struct EcdsaPrivateKey {
    private_key: PKey<Private>,
    algorithm: EcdsaAlgorithm,
}

impl View for EcdsaPrivateKey {
    type V = EcdsaAlgorithm;

    /// The algorithm of the key.
    closed spec fn view(&self) -> EcdsaAlgorithm {
        self.algorithm
    }
}

impl EcdsaPrivateKey {
    /// OpenSSL's handle of the key.
    pub closed spec fn handle(&self) -> &PKey<Private> {
        &self.private_key
    }

    /// The handle, as the calls that need only a public key take it.
    pub open spec fn key_ref(&self) -> KeyRef<'_> {
        KeyRef::Private(self.handle())
    }

    /// Whether `key` is what importing the handle `pk` owes: a key that
    /// holds this handle under the algorithm of its curve, or the error
    /// that `spec_import` names.
    pub open spec fn imported_from(pk: PKey<Private>, key: Result<Self, Error>) -> bool {
        &&& settles(spec_import(KeyRef::Private(&pk)), key)
        &&& key matches Ok(k) ==> spec_import(KeyRef::Private(&pk)) == Owed::Value(k@)
            && *k.handle() == pk
    }

    /// The coordinates that `coordinates` owes.
    pub open spec fn spec_coordinates(&self) -> Owed<(Seq<u8>, Seq<u8>)> {
        spec_fixed_width(self@, ec_point_of(self.key_ref()))
    }

    /// What every key is made with: its handle holds an elliptic-curve key
    /// that passes OpenSSL's consistency check and lies on the curve of the
    /// key's algorithm.
    pub open spec fn wf(&self) -> bool {
        spec_import(self.key_ref()) == Owed::Value(self@)
    }

    /// Takes over a key handle as a key of `algorithm`: the handle is
    /// imported, and a key on another curve is refused.
    fn adopt(pk: PKey<Private>, algorithm: EcdsaAlgorithm) -> (key: Result<Self, Error>)
        ensures
            settles(spec_adopt(KeyRef::Private(&pk), algorithm), key),
            key matches Ok(k) ==> k@ == algorithm && *k.handle() == pk && k.wf(),
    {
        let key = Self::from_pkey(pk)?;
        if key.algorithm != algorithm {
            return Err(Error::UnsupportedOrInvalidKey);
        }
        Ok(key)
    }

    /// A fresh key pair on the curve of `algorithm`. The new key is taken
    /// over as any handle is: it is held to the consistency check and to
    /// the algorithm's curve before it is handed out.
    pub fn generate(algorithm: EcdsaAlgorithm) -> (key: Result<Self, Error>)
        ensures
            match key {
                Ok(k) => k@ == algorithm && k.wf(),
                Err(e) => e is OpenSsl || e is UnsupportedOrInvalidKey,
            },
    {
        let group = from_openssl(ec_group_of_curve(algorithm.curve()))?;
        let ec_key = from_openssl(ec_key_generate(&group))?;
        let private_key = from_openssl(pkey_from_ec_key(ec_key))?;
        Self::adopt(private_key, algorithm)
    }

    /// Takes over a key handle. The key must be an elliptic-curve key that
    /// passes OpenSSL's consistency check and lies on a supported curve; its
    /// algorithm is the one of that curve.
    pub(crate) fn from_pkey(pk: PKey<Private>) -> (key: Result<Self, Error>)
        ensures
            Self::imported_from(pk, key),
            key matches Ok(k) ==> k.wf(),
    {
        let (consistent, curve) = from_openssl(ec_report(KeyRef::Private(&pk)))?;
        let algorithm = detect_algorithm(consistent, curve)?;
        Ok(Self { private_key: pk, algorithm })
    }

    /// Reads a private key from PEM, PKCS#8 or "EC PRIVATE KEY". The
    /// algorithm comes from the key's curve, never from the caller. Where
    /// OpenSSL reads a key from the bytes, the result is what importing
    /// that key owes.
    pub fn from_pem(pem: &[u8]) -> (key: Result<Self, Error>)
        ensures
            pem@.len() > MAX_INPUT_LEN ==> key matches Err(Error::UnsupportedOrInvalidKey),
            pem@.len() <= MAX_INPUT_LEN ==> key matches Err(Error::OpenSsl(_)) || exists|
                pk: PKey<Private>,
            | #[trigger] Self::imported_from(pk, key),
            key matches Ok(k) ==> k.wf(),
    {
        if pem.len() > MAX_INPUT_LEN {
            return Err(Error::UnsupportedOrInvalidKey);
        }
        let pk = from_openssl(private_key_from_pem(pem))?;
        let ghost handle = pk;
        let key = Self::from_pkey(pk);
        assert(Self::imported_from(handle, key));
        key
    }

    /// The key as PKCS#8 PEM: the bytes that OpenSSL writes for the handle.
    pub fn private_key_to_pem_pkcs8(&self) -> (pem: Result<Vec<u8>, Error>)
        ensures
            is_export_of(pkcs8_pem_of(*self.handle()), pem),
            pem matches Ok(bytes) ==> is_private_key_pem(bytes@),
    {
        from_openssl(private_key_to_pem_pkcs8(&self.private_key))
    }

    /// The public half as SubjectPublicKeyInfo PEM: the bytes that OpenSSL
    /// writes for the handle.
    pub fn public_key_pem(&self) -> (pem: Result<Vec<u8>, Error>)
        ensures
            is_export_of(public_pem_of(self.key_ref()), pem),
            pem matches Ok(bytes) ==> is_public_key_pem(bytes@),
    {
        from_openssl(public_key_to_pem(KeyRef::Private(&self.private_key)))
    }

    /// The affine coordinates `(x, y)` of the public point, big-endian, each
    /// as wide as an element of the curve's field, zero bytes in front.
    pub fn coordinates(&self) -> (xy: Result<(Vec<u8>, Vec<u8>), Error>)
        ensures
            settles(self.spec_coordinates(), xy),
            xy matches Ok((x, y)) ==> {
                &&& self.spec_coordinates() == Owed::Value((x@, y@))
                &&& x@.len() == self@.spec_field_len()
                &&& y@.len() == self@.spec_field_len()
            },
    {
        let (x, y) = from_openssl(ec_point(KeyRef::Private(&self.private_key)))?;
        fixed_width_coordinates(self.algorithm, x.as_slice(), y.as_slice())
    }

    /// The algorithm of the key.
    pub fn algorithm(&self) -> (algorithm: EcdsaAlgorithm)
        ensures
            algorithm == self@,
    {
        self.algorithm
    }
}

impl SigningKey for EcdsaPrivateKey {
    open spec fn spec_alg(&self) -> Seq<char> {
        self@.spec_name()
    }

    /// The name of the key's algorithm.
    fn alg(&self) -> (name: &'static str)
        ensures
            name@ == self@.spec_name(),
    {
        self.algorithm.name()
    }

    /// Signs `v` over the algorithm's digest. The signature has the fixed
    /// width of the algorithm, and is the fixed-width form of a DER
    /// signature. Which one is OpenSSL's choice, made at random.
    fn sign(&self, v: &[u8]) -> (sig: Result<SignatureBytes, Error>)
        ensures
            sig matches Ok(bytes) ==> bytes@.len() == self@.spec_sig_len() && exists|
                der: Seq<u8>,
            | #[trigger] is_fixed_form_of(self@, der, bytes@),
    {
        let sig_der = from_openssl(sign_with_digest(&self.private_key, self.algorithm.digest(), v))?;
        let (r, s) = from_openssl(ecdsa_components_of_der(sig_der.as_slice()))?;
        let out = encode_signature(self.algorithm, r.as_slice(), s.as_slice())?;
        let bytes = SignatureBytes::from_vec(out);
        assert(is_fixed_form_of(self@, sig_der@, bytes@));
        Ok(bytes)
    }
}

impl VerificationKey for EcdsaPrivateKey {
    /// An ECDSA key takes its own algorithm and no other.
    open spec fn accepts_alg(&self, alg: Seq<char>) -> bool {
        alg == self@.spec_name()
    }

    open spec fn spec_verify(&self, v: Seq<u8>, sig: Seq<u8>, alg: Seq<char>) -> Owed<()> {
        spec_verify_as(self@, self.key_ref(), v, sig, alg)
    }

    /// Verifies `sig` as a signature of `v`. The claimed algorithm `alg`
    /// must be the key's own, and the signature must have the algorithm's
    /// length; both are refused as `VerificationError` before any
    /// cryptographic work, as is a signature that does not verify.
    fn verify(&self, v: &[u8], sig: &[u8], alg: &str) -> (outcome: Result<(), Error>)
        ensures
            sig@.len() != self@.spec_sig_len() ==> outcome matches Err(Error::VerificationError),
    {
        if !str_equal(alg, self.algorithm.name()) {
            return Err(Error::VerificationError);
        }
        es256_verify(self.algorithm, KeyRef::Private(&self.private_key), v, sig)
    }
}

impl PublicKeyToJwk for EcdsaPrivateKey {
    open spec fn spec_jwk(&self) -> Owed<JwkView> {
        spec_jwk_of(self@, self.spec_coordinates())
    }

    /// The public half as a JSON Web Key, with the coordinates that
    /// `coordinates` gives.
    fn public_key_to_jwk(&self) -> (jwk: Result<Jwk, Error>)
        ensures
            jwk matches Ok(built) ==> {
                &&& built@.x matches Some(text) && text.len() == base64_len(
                    self@.spec_field_len(),
                )
                &&& built@.y matches Some(text) && text.len() == base64_len(
                    self@.spec_field_len(),
                )
            },
    {
        let (x, y) = self.coordinates()?;
        ec_jwk(self.algorithm, x.as_slice(), y.as_slice())
    }
}

/// An ECDSA public key. It owns OpenSSL's handle of the key, and the
/// algorithm that goes with the key's curve.
#[derive(Debug)]
pub struct EcdsaPublicKey {
    public_key: PKey<Public>,
    algorithm: EcdsaAlgorithm,
}

impl View for EcdsaPublicKey {
    type V = EcdsaAlgorithm;

    /// The algorithm of the key.
    closed spec fn view(&self) -> EcdsaAlgorithm {
        self.algorithm
    }
}

impl EcdsaPublicKey {
    /// OpenSSL's handle of the key.
    pub closed spec fn handle(&self) -> &PKey<Public> {
        &self.public_key
    }

    /// The handle, as the calls that need only a public key take it.
    pub open spec fn key_ref(&self) -> KeyRef<'_> {
        KeyRef::Public(self.handle())
    }

    /// Whether `key` is what importing the handle `pk` owes: a key that
    /// holds this handle under the algorithm of its curve, or the error
    /// that `spec_import` names.
    pub open spec fn imported_from(pk: PKey<Public>, key: Result<Self, Error>) -> bool {
        &&& settles(spec_import(KeyRef::Public(&pk)), key)
        &&& key matches Ok(k) ==> spec_import(KeyRef::Public(&pk)) == Owed::Value(k@)
            && *k.handle() == pk
    }

    /// The coordinates that `coordinates` owes.
    pub open spec fn spec_coordinates(&self) -> Owed<(Seq<u8>, Seq<u8>)> {
        spec_fixed_width(self@, ec_point_of(self.key_ref()))
    }

    /// What every key is made with: its handle holds an elliptic-curve key
    /// that passes OpenSSL's consistency check and lies on the curve of the
    /// key's algorithm.
    pub open spec fn wf(&self) -> bool {
        spec_import(self.key_ref()) == Owed::Value(self@)
    }

    /// Takes over a key handle as a key of `algorithm`: the handle is
    /// imported, and a key on another curve is refused.
    fn adopt(pk: PKey<Public>, algorithm: EcdsaAlgorithm) -> (key: Result<Self, Error>)
        ensures
            settles(spec_adopt(KeyRef::Public(&pk), algorithm), key),
            key matches Ok(k) ==> k@ == algorithm && *k.handle() == pk && k.wf(),
    {
        let key = Self::from_pkey(pk)?;
        if key.algorithm != algorithm {
            return Err(Error::UnsupportedOrInvalidKey);
        }
        Ok(key)
    }

    /// Takes over a key handle. The key must be an elliptic-curve key that
    /// passes OpenSSL's consistency check and lies on a supported curve; its
    /// algorithm is the one of that curve.
    pub(crate) fn from_pkey(pkey: PKey<Public>) -> (key: Result<Self, Error>)
        ensures
            Self::imported_from(pkey, key),
            key matches Ok(k) ==> k.wf(),
    {
        let (consistent, curve) = from_openssl(ec_report(KeyRef::Public(&pkey)))?;
        let algorithm = detect_algorithm(consistent, curve)?;
        Ok(Self { public_key: pkey, algorithm })
    }

    /// Reads a public key from PEM (SubjectPublicKeyInfo). The algorithm
    /// comes from the key's curve, never from the caller. Where OpenSSL
    /// reads a key from the bytes, the result is what importing that key
    /// owes.
    pub fn from_pem(pem: &[u8]) -> (key: Result<Self, Error>)
        ensures
            pem@.len() > MAX_INPUT_LEN ==> key matches Err(Error::UnsupportedOrInvalidKey),
            pem@.len() <= MAX_INPUT_LEN ==> key matches Err(Error::OpenSsl(_)) || exists|
                pk: PKey<Public>,
            | #[trigger] Self::imported_from(pk, key),
            key matches Ok(k) ==> k.wf(),
    {
        if pem.len() > MAX_INPUT_LEN {
            return Err(Error::UnsupportedOrInvalidKey);
        }
        let pk = from_openssl(public_key_from_pem(pem))?;
        let ghost handle = pk;
        let key = Self::from_pkey(pk);
        assert(Self::imported_from(handle, key));
        key
    }

    /// The key as SubjectPublicKeyInfo PEM: the bytes that OpenSSL writes
    /// for the handle.
    pub fn to_pem(&self) -> (pem: Result<Vec<u8>, Error>)
        ensures
            is_export_of(public_pem_of(self.key_ref()), pem),
            pem matches Ok(bytes) ==> is_public_key_pem(bytes@),
    {
        from_openssl(public_key_to_pem(KeyRef::Public(&self.public_key)))
    }

    /// The affine coordinates `(x, y)` of the public point, big-endian, each
    /// as wide as an element of the curve's field, zero bytes in front.
    pub fn coordinates(&self) -> (xy: Result<(Vec<u8>, Vec<u8>), Error>)
        ensures
            settles(self.spec_coordinates(), xy),
            xy matches Ok((x, y)) ==> {
                &&& self.spec_coordinates() == Owed::Value((x@, y@))
                &&& x@.len() == self@.spec_field_len()
                &&& y@.len() == self@.spec_field_len()
            },
    {
        let (x, y) = from_openssl(ec_point(KeyRef::Public(&self.public_key)))?;
        fixed_width_coordinates(self.algorithm, x.as_slice(), y.as_slice())
    }

    /// The public key at the point `(x, y)` of the curve of `algorithm`.
    /// Coordinates that OpenSSL does not accept as a point of the curve are
    /// refused as `UnsupportedOrInvalidKey`, and so is a key that fails the
    /// consistency check.
    pub fn from_coordinates(x: &[u8], y: &[u8], algorithm: EcdsaAlgorithm) -> (key: Result<
        Self,
        Error,
    >)
        ensures
            settles(spec_from_coordinates(x@, y@, algorithm), key),
            key matches Ok(k) ==> k@ == algorithm && k.wf(),
    {
        if x.len() > MAX_INPUT_LEN || y.len() > MAX_INPUT_LEN {
            return Err(Error::UnsupportedOrInvalidKey);
        }
        let group = from_openssl(ec_group_of_curve(algorithm.curve()))?;
        let x = from_openssl(bignum_from_slice(x))?;
        let y = from_openssl(bignum_from_slice(y))?;
        let k = match ec_key_from_coordinates(&group, &x, &y) {
            Ok(k) => k,
            Err(_) => {
                return Err(Error::UnsupportedOrInvalidKey);
            },
        };
        let public_key = from_openssl(pkey_from_public_ec_key(k))?;
        Self::adopt(public_key, algorithm)
    }

    /// The algorithm of the key.
    pub fn algorithm(&self) -> (algorithm: EcdsaAlgorithm)
        ensures
            algorithm == self@,
    {
        self.algorithm
    }
}

impl VerificationKey for EcdsaPublicKey {
    /// An ECDSA key takes its own algorithm and no other.
    open spec fn accepts_alg(&self, alg: Seq<char>) -> bool {
        alg == self@.spec_name()
    }

    open spec fn spec_verify(&self, v: Seq<u8>, sig: Seq<u8>, alg: Seq<char>) -> Owed<()> {
        spec_verify_as(self@, self.key_ref(), v, sig, alg)
    }

    /// Verifies `sig` as a signature of `v`. The claimed algorithm `alg`
    /// must be the key's own, and the signature must have the algorithm's
    /// length; both are refused as `VerificationError` before any
    /// cryptographic work, as is a signature that does not verify.
    fn verify(&self, v: &[u8], sig: &[u8], alg: &str) -> (outcome: Result<(), Error>)
        ensures
            sig@.len() != self@.spec_sig_len() ==> outcome matches Err(Error::VerificationError),
    {
        if !str_equal(alg, self.algorithm.name()) {
            return Err(Error::VerificationError);
        }
        es256_verify(self.algorithm, KeyRef::Public(&self.public_key), v, sig)
    }
}

impl PublicKeyToJwk for EcdsaPublicKey {
    open spec fn spec_jwk(&self) -> Owed<JwkView> {
        spec_jwk_of(self@, self.spec_coordinates())
    }

    /// The key as a JSON Web Key, with the coordinates that `coordinates`
    /// gives.
    fn public_key_to_jwk(&self) -> (jwk: Result<Jwk, Error>)
        ensures
            jwk matches Ok(built) ==> {
                &&& built@.x matches Some(text) && text.len() == base64_len(
                    self@.spec_field_len(),
                )
                &&& built@.y matches Some(text) && text.len() == base64_len(
                    self@.spec_field_len(),
                )
            },
    {
        let (x, y) = self.coordinates()?;
        ec_jwk(self.algorithm, x.as_slice(), y.as_slice())
    }
}

/// A key made for one curve takes no other algorithm: for a private key of
/// algorithm X, the name of any other algorithm Y is one that `verify`
/// refuses with `VerificationError`, whatever the signature.
pub proof fn lemma_private_key_refuses_other_algorithm(
    key: EcdsaPrivateKey,
    other: EcdsaAlgorithm,
    v: Seq<u8>,
    sig: Seq<u8>,
)
    requires
        other != key@,
    ensures
        !key.accepts_alg(other.spec_name()),
        key.accepts_alg(key@.spec_name()),
        key.spec_verify(v, sig, other.spec_name()) == Owed::<()>::VerificationError,
{
    EcdsaAlgorithm::lemma_names_are_one_to_one(other, key@);
}

/// A key made for one curve takes no other algorithm: for a public key of
/// algorithm X, the name of any other algorithm Y is one that `verify`
/// refuses with `VerificationError`, whatever the signature.
pub proof fn lemma_public_key_refuses_other_algorithm(
    key: EcdsaPublicKey,
    other: EcdsaAlgorithm,
    v: Seq<u8>,
    sig: Seq<u8>,
)
    requires
        other != key@,
    ensures
        !key.accepts_alg(other.spec_name()),
        key.accepts_alg(key@.spec_name()),
        key.spec_verify(v, sig, other.spec_name()) == Owed::<()>::VerificationError,
{
    EcdsaAlgorithm::lemma_names_are_one_to_one(other, key@);
}

/// A signature of any length but the algorithm's is refused with
/// `VerificationError`, under the key's own algorithm as under any other.
pub proof fn lemma_wrong_length_is_refused(
    own: EcdsaAlgorithm,
    k: KeyRef<'_>,
    v: Seq<u8>,
    sig: Seq<u8>,
    alg: Seq<char>,
)
    requires
        sig.len() != own.spec_sig_len(),
    ensures
        spec_verify_as(own, k, v, sig, alg) == Owed::<()>::VerificationError,
{
}

/// The JSON Web Key of a key holds the key's own coordinates: where
/// `coordinates` owes `(x, y)`, each as wide as the curve's field,
/// `public_key_to_jwk` owes the record with the base64url text of these
/// very bytes, under the key's algorithm and curve.
pub proof fn lemma_jwk_holds_the_coordinates(
    algorithm: EcdsaAlgorithm,
    point: Option<(Seq<u8>, Seq<u8>)>,
)
    ensures
        match spec_fixed_width(algorithm, point) {
            Owed::Value((x, y)) => {
                &&& x.len() == algorithm.spec_field_len()
                &&& y.len() == algorithm.spec_field_len()
                &&& spec_jwk_of(algorithm, spec_fixed_width(algorithm, point)) == Owed::Value(
                    spec_ec_jwk(algorithm, x, y),
                )
                &&& spec_ec_jwk(algorithm, x, y).x == Some(base64url_text(x))
                &&& spec_ec_jwk(algorithm, x, y).y == Some(base64url_text(y))
            },
            _ => !(spec_jwk_of(algorithm, spec_fixed_width(algorithm, point)) is Value),
        },
{
}

/// The coordinates in a JSON Web Key have 43, 64 and 88 characters for the
/// three algorithms: the base64 length of the width of the curve's field.
pub proof fn lemma_jwk_text_lengths(algorithm: EcdsaAlgorithm)
    ensures
        base64_len(algorithm.spec_field_len()) == match algorithm {
            EcdsaAlgorithm::ES256 => 43nat,
            EcdsaAlgorithm::ES384 => 64nat,
            EcdsaAlgorithm::ES512 => 88nat,
        },
{
}

/// A key on any curve but the three NIST prime curves is refused: whatever
/// the handle, if OpenSSL reports for it a curve that `from_curve` does not
/// know, or no named curve at all, or a failed consistency check, importing
/// it owes `UnsupportedOrInvalidKey`.
pub proof fn lemma_unsupported_curve_is_refused(key: KeyRef<'_>, consistent: bool, curve: Option<i32>)
    requires
        ec_report_of(key) == Some((consistent, curve)),
        !consistent || curve is None || EcdsaAlgorithm::spec_from_curve(curve->0) is None,
    ensures
        spec_import(key) == Owed::<EcdsaAlgorithm>::UnsupportedOrInvalidKey,
{
}

/// The algorithm of an imported key is that of the curve that OpenSSL
/// reports for its handle, and no other.
pub proof fn lemma_import_reads_the_curve(key: KeyRef<'_>, algorithm: EcdsaAlgorithm)
    requires
        spec_import(key) == Owed::Value(algorithm),
    ensures
        ec_report_of(key) == Some((true, Some(algorithm.spec_curve()))),
{
    match ec_report_of(key) {
        Some((_, Some(curve))) => {
            EcdsaAlgorithm::lemma_curve_is_one_to_one(algorithm, algorithm, curve);
        },
        _ => {},
    }
}

} // verus!
