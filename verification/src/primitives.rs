//! The calls into OpenSSL.
//!
//! Every function here hands its arguments to the `openssl` crate and hands
//! the result back. Their contracts are taken on trust. A key handle is
//! opaque, so what OpenSSL answers about one cannot be written out; where the
//! answer depends on the arguments alone it has a name, and the function
//! says that its result is what the name stands for. Such a name is `None`
//! where OpenSSL fails. The rules of this library live elsewhere and are
//! proved against these contracts.
use crate::digest::DigestKind;
use crate::key::KeyFamily;
use crate::pem::{is_private_key_pem, is_public_key_pem};
use openssl::bn::{BigNum, BigNumContext};
use openssl::ec::{EcGroup, EcKey};
use openssl::ecdsa::EcdsaSig;
use openssl::error::ErrorStack;
use openssl::hash::MessageDigest;
use openssl::nid::Nid;
use openssl::pkey::{Id, PKey, Private, Public};
use openssl::sign::{Signer, Verifier};
use vstd::prelude::*;

verus! {

/// Marker of a key handle that holds a private key.
#[verifier::external_type_specification]
#[verifier::external_body]
pub struct ExPrivate(Private);

/// Marker of a key handle that holds a public key only.
#[verifier::external_type_specification]
#[verifier::external_body]
pub struct ExPublic(Public);

/// A key of any family, owned by OpenSSL.
#[verifier::external_type_specification]
#[verifier::external_body]
#[verifier::reject_recursive_types(T)]
pub struct ExPKey<T>(PKey<T>);

/// An elliptic-curve key, owned by OpenSSL.
#[verifier::external_type_specification]
#[verifier::external_body]
#[verifier::reject_recursive_types(T)]
pub struct ExEcKey<T>(EcKey<T>);

/// An elliptic curve, owned by OpenSSL.
#[verifier::external_type_specification]
#[verifier::external_body]
pub struct ExEcGroup(EcGroup);

/// An integer of any size, owned by OpenSSL.
#[verifier::external_type_specification]
#[verifier::external_body]
pub struct ExBigNum(BigNum);

/// The longest input that OpenSSL's memory readers and `BN_bin2bn` take:
/// they count bytes in a C `int`.
pub const MAX_INPUT_LEN: usize = 0x7fff_ffff;

/// A borrowed key handle of either kind. Both hold a public key, which is
/// all that verifying and exporting one need.
pub enum KeyRef<'a> {
    Private(&'a PKey<Private>),
    Public(&'a PKey<Public>),
}

/// `PKey::private_key_from_pem`: parses a PEM private key, PKCS#8 or of a
/// family's own form. Nothing is claimed of the result: for an encrypted
/// block OpenSSL asks for a pass phrase, so the result is no function of the
/// bytes alone. The length bound keeps clear of the assertion in the crate's
/// memory reader.
#[verifier::external_body]
pub(crate) fn private_key_from_pem(pem: &[u8]) -> (key: Result<PKey<Private>, ErrorStack>)
    requires
        pem.len() <= MAX_INPUT_LEN,
{
    PKey::private_key_from_pem(pem)
}

/// `PKey::public_key_from_pem`: parses a PEM SubjectPublicKeyInfo. Nothing
/// is claimed of the result, for the reason given above: the block goes
/// through the same PEM reader. The length bound is that of the memory
/// reader.
#[verifier::external_body]
pub(crate) fn public_key_from_pem(pem: &[u8]) -> (key: Result<PKey<Public>, ErrorStack>)
    requires
        pem.len() <= MAX_INPUT_LEN,
{
    PKey::public_key_from_pem(pem)
}

/// The PKCS#8 PEM of a private key, as `PKeyRef::private_key_to_pem_pkcs8`
/// writes it.
pub uninterp spec fn pkcs8_pem_of(key: PKey<Private>) -> Option<Seq<u8>>;

/// `PKeyRef::private_key_to_pem_pkcs8`: the key as PKCS#8 PEM. The bytes
/// depend on the key alone; the crate documents the header they begin with.
#[verifier::external_body]
pub(crate) fn private_key_to_pem_pkcs8(key: &PKey<Private>) -> (pem: Result<Vec<u8>, ErrorStack>)
    ensures
        match pem {
            Ok(bytes) => pkcs8_pem_of(*key) == Some(bytes@) && is_private_key_pem(bytes@),
            Err(_) => pkcs8_pem_of(*key) is None,
        },
{
    key.private_key_to_pem_pkcs8()
}

/// The SubjectPublicKeyInfo PEM of a key's public half, as
/// `PKeyRef::public_key_to_pem` writes it.
pub uninterp spec fn public_pem_of(key: KeyRef<'_>) -> Option<Seq<u8>>;

/// `PKeyRef::public_key_to_pem`: the public half as SubjectPublicKeyInfo
/// PEM. The bytes depend on the key alone; the crate documents the header
/// they begin with.
#[verifier::external_body]
pub(crate) fn public_key_to_pem(key: KeyRef<'_>) -> (pem: Result<Vec<u8>, ErrorStack>)
    ensures
        match pem {
            Ok(bytes) => public_pem_of(key) == Some(bytes@) && is_public_key_pem(bytes@),
            Err(_) => public_pem_of(key) is None,
        },
{
    match key {
        KeyRef::Private(k) => k.public_key_to_pem(),
        KeyRef::Public(k) => k.public_key_to_pem(),
    }
}

/// The family of a key, by `PKeyRef::id`.
pub uninterp spec fn key_family_of(key: KeyRef<'_>) -> KeyFamily;

/// `PKeyRef::id`, told apart by the crate's constants `Id::RSA`, `Id::EC`
/// and `Id::ED25519`.
#[verifier::external_body]
pub(crate) fn key_family(key: KeyRef<'_>) -> (family: KeyFamily)
    ensures
        family == key_family_of(key),
{
    let id = match key {
        KeyRef::Private(k) => k.id(),
        KeyRef::Public(k) => k.id(),
    };
    match id {
        Id::RSA => KeyFamily::Rsa,
        Id::EC => KeyFamily::Ec,
        Id::ED25519 => KeyFamily::Ed25519,
        _ => KeyFamily::Other,
    }
}

/// What OpenSSL reports of the elliptic-curve key in a handle: whether
/// `EcKeyRef::check_key` passes, and the raw NID that
/// `EcGroupRef::curve_name` gives for its curve, if the curve has a name.
/// `None` where `PKeyRef::ec_key` finds no elliptic-curve key.
pub uninterp spec fn ec_report_of(key: KeyRef<'_>) -> Option<(bool, Option<i32>)>;

/// `PKeyRef::ec_key`, then `EcKeyRef::check_key` and
/// `EcGroupRef::curve_name` of `EcKeyRef::group` on the key found.
#[verifier::external_body]
pub(crate) fn ec_report(key: KeyRef<'_>) -> (report: Result<(bool, Option<i32>), ErrorStack>)
    ensures
        match report {
            Ok(found) => ec_report_of(key) == Some(found),
            Err(_) => ec_report_of(key) is None,
        },
{
    match key {
        KeyRef::Private(k) => {
            let ec = k.ec_key()?;
            Ok((ec.check_key().is_ok(), ec.group().curve_name().map(|nid| nid.as_raw())))
        },
        KeyRef::Public(k) => {
            let ec = k.ec_key()?;
            Ok((ec.check_key().is_ok(), ec.group().curve_name().map(|nid| nid.as_raw())))
        },
    }
}

/// The affine coordinates `(x, y)` of the public point of the
/// elliptic-curve key in a handle, each as `BigNumRef::to_vec` writes it:
/// big-endian, no sign, no padding.
pub uninterp spec fn ec_point_of(key: KeyRef<'_>) -> Option<(Seq<u8>, Seq<u8>)>;

/// `PKeyRef::ec_key`, then `EcPointRef::affine_coordinates` of
/// `EcKeyRef::public_key`, each coordinate written with `BigNumRef::to_vec`.
#[verifier::external_body]
pub(crate) fn ec_point(key: KeyRef<'_>) -> (xy: Result<(Vec<u8>, Vec<u8>), ErrorStack>)
    ensures
        match xy {
            Ok((x, y)) => ec_point_of(key) == Some((x@, y@)),
            Err(_) => ec_point_of(key) is None,
        },
{
    let (mut ctx, mut x, mut y) = (BigNumContext::new()?, BigNum::new()?, BigNum::new()?);
    match key {
        KeyRef::Private(k) => {
            let ec = k.ec_key()?;
            ec.public_key().affine_coordinates(ec.group(), &mut x, &mut y, &mut ctx)?;
        },
        KeyRef::Public(k) => {
            let ec = k.ec_key()?;
            ec.public_key().affine_coordinates(ec.group(), &mut x, &mut y, &mut ctx)?;
        },
    }
    Ok((x.to_vec(), y.to_vec()))
}

/// The curve with the raw NID `curve`, as `EcGroup::from_curve_name` gives
/// it.
pub uninterp spec fn ec_group_named(curve: i32) -> Option<EcGroup>;

/// `EcGroup::from_curve_name` on the curve with the raw NID `curve`.
#[verifier::external_body]
pub(crate) fn ec_group_of_curve(curve: i32) -> (group: Result<EcGroup, ErrorStack>)
    ensures
        match group {
            Ok(found) => ec_group_named(curve) == Some(found),
            Err(_) => ec_group_named(curve) is None,
        },
{
    EcGroup::from_curve_name(Nid::from_raw(curve))
}

/// `EcKey::generate`: a fresh key pair on the curve. The key is drawn at
/// random, so nothing is claimed of it.
#[verifier::external_body]
pub(crate) fn ec_key_generate(group: &EcGroup) -> (ec: Result<EcKey<Private>, ErrorStack>) {
    EcKey::generate(group)
}

/// `PKey::from_ec_key` on a private key: wraps it in a general handle.
/// Verified code calls it on fresh keys only, of which nothing is known, so
/// nothing is claimed of the handle.
#[verifier::external_body]
pub(crate) fn pkey_from_ec_key(ec: EcKey<Private>) -> (key: Result<PKey<Private>, ErrorStack>) {
    PKey::from_ec_key(ec)
}

/// The number that the big-endian bytes stand for, as `BigNum::from_slice`
/// gives it.
pub uninterp spec fn bignum_of(bytes: Seq<u8>) -> Option<BigNum>;

/// `BigNum::from_slice`: the number that the big-endian bytes stand for. The
/// length bound keeps clear of the crate's assertion.
#[verifier::external_body]
pub(crate) fn bignum_from_slice(bytes: &[u8]) -> (number: Result<BigNum, ErrorStack>)
    requires
        bytes.len() <= MAX_INPUT_LEN,
    ensures
        match number {
            Ok(found) => bignum_of(bytes@) == Some(found),
            Err(_) => bignum_of(bytes@) is None,
        },
{
    BigNum::from_slice(bytes)
}

/// The public key at the point `(x, y)` of a curve, as
/// `EcKey::from_public_key_affine_coordinates` gives it; `None` where
/// OpenSSL does not take the point.
pub uninterp spec fn ec_key_at(group: EcGroup, x: BigNum, y: BigNum) -> Option<EcKey<Public>>;

/// `EcKey::from_public_key_affine_coordinates`: the public key at the point
/// `(x, y)` of the curve; an error if OpenSSL does not accept the point.
#[verifier::external_body]
pub(crate) fn ec_key_from_coordinates(group: &EcGroup, x: &BigNum, y: &BigNum) -> (ec: Result<
    EcKey<Public>,
    ErrorStack,
>)
    ensures
        match ec {
            Ok(found) => ec_key_at(*group, *x, *y) == Some(found),
            Err(_) => ec_key_at(*group, *x, *y) is None,
        },
{
    EcKey::from_public_key_affine_coordinates(group, x, y)
}

/// The general handle that holds a public elliptic-curve key, as
/// `PKey::from_ec_key` gives it.
pub uninterp spec fn pkey_of_ec_key(ec: EcKey<Public>) -> Option<PKey<Public>>;

/// `PKey::from_ec_key` on a public key: wraps it in a general handle.
#[verifier::external_body]
pub(crate) fn pkey_from_public_ec_key(ec: EcKey<Public>) -> (key: Result<PKey<Public>, ErrorStack>)
    ensures
        match key {
            Ok(found) => pkey_of_ec_key(ec) == Some(found),
            Err(_) => pkey_of_ec_key(ec) is None,
        },
{
    PKey::from_ec_key(ec)
}

/// `Signer::new`, `update` and `sign_to_vec`: the signature of `message`
/// made with `key` over the named digest, in the form OpenSSL gives it (DER
/// for an elliptic-curve key, PKCS#1 v1.5 for an RSA key). Signing may draw
/// on randomness, so nothing is claimed of the bytes.
#[verifier::external_body]
pub(crate) fn sign_with_digest(key: &PKey<Private>, digest: DigestKind, message: &[u8]) -> (signature:
    Result<Vec<u8>, ErrorStack>) {
    let md = match digest {
        DigestKind::Sha256 => MessageDigest::sha256(),
        DigestKind::Sha384 => MessageDigest::sha384(),
        DigestKind::Sha512 => MessageDigest::sha512(),
    };
    let mut signer = Signer::new(md, key)?;
    signer.update(message)?;
    signer.sign_to_vec()
}

/// OpenSSL's answer to whether `signature`, in its own form, is one of
/// `message` under `key` and the named digest.
pub uninterp spec fn digest_verify_answer(
    key: KeyRef<'_>,
    digest: DigestKind,
    message: Seq<u8>,
    signature: Seq<u8>,
) -> Option<bool>;

/// `Verifier::new` and `verify_oneshot`: whether `signature`, in OpenSSL's
/// form, is one of `message` under `key` and the named digest.
#[verifier::external_body]
pub(crate) fn verify_with_digest(
    key: KeyRef<'_>,
    digest: DigestKind,
    message: &[u8],
    signature: &[u8],
) -> (valid: Result<bool, ErrorStack>)
    ensures
        match valid {
            Ok(answer) => digest_verify_answer(key, digest, message@, signature@) == Some(answer),
            Err(_) => digest_verify_answer(key, digest, message@, signature@) is None,
        },
{
    let md = match digest {
        DigestKind::Sha256 => MessageDigest::sha256(),
        DigestKind::Sha384 => MessageDigest::sha384(),
        DigestKind::Sha512 => MessageDigest::sha512(),
    };
    let mut verifier = match key {
        KeyRef::Private(k) => Verifier::new(md, k)?,
        KeyRef::Public(k) => Verifier::new(md, k)?,
    };
    verifier.verify_oneshot(signature, message)
}

/// The two numbers `(r, s)` that a DER signature holds, each as
/// `BigNumRef::to_vec` writes it.
pub uninterp spec fn ecdsa_components_of(der: Seq<u8>) -> Option<(Seq<u8>, Seq<u8>)>;

/// `EcdsaSig::from_der`, then `r` and `s` written with `BigNumRef::to_vec`:
/// the two numbers of a DER signature as big-endian magnitudes.
#[verifier::external_body]
pub(crate) fn ecdsa_components_of_der(der: &[u8]) -> (rs: Result<(Vec<u8>, Vec<u8>), ErrorStack>)
    ensures
        match rs {
            Ok((r, s)) => ecdsa_components_of(der@) == Some((r@, s@)),
            Err(_) => ecdsa_components_of(der@) is None,
        },
{
    let sig = EcdsaSig::from_der(der)?;
    Ok((sig.r().to_vec(), sig.s().to_vec()))
}

/// The DER signature that holds the numbers `r` and `s`, as OpenSSL
/// writes it.
pub uninterp spec fn ecdsa_der_of(r: BigNum, s: BigNum) -> Option<Seq<u8>>;

/// `EcdsaSig::from_private_components` and `to_der`: the DER signature that
/// holds the numbers `r` and `s`.
#[verifier::external_body]
pub(crate) fn ecdsa_der_of_components(r: BigNum, s: BigNum) -> (der: Result<Vec<u8>, ErrorStack>)
    ensures
        match der {
            Ok(bytes) => ecdsa_der_of(r, s) == Some(bytes@),
            Err(_) => ecdsa_der_of(r, s) is None,
        },
{
    EcdsaSig::from_private_components(r, s)?.to_der()
}

/// `Rsa::check_key` of `PKeyRef::rsa`: whether OpenSSL finds the RSA key's
/// parameters consistent; an error if the handle holds no RSA key. The
/// check tests the factors for primality on bases drawn at random, so two
/// calls on one key may differ: nothing is claimed of the answer.
#[verifier::external_body]
pub(crate) fn rsa_key_check(key: &PKey<Private>) -> (sound: Result<bool, ErrorStack>) {
    key.rsa()?.check_key()
}

/// Modulus and public exponent `(n, e)` of the RSA key in a handle, each
/// as `BigNumRef::to_vec` writes it.
pub uninterp spec fn rsa_components_of(key: KeyRef<'_>) -> Option<(Seq<u8>, Seq<u8>)>;

/// `Rsa::n` and `Rsa::e` of `PKeyRef::rsa`, each written with
/// `BigNumRef::to_vec`: modulus and public exponent, big-endian.
#[verifier::external_body]
pub(crate) fn rsa_public_components(key: KeyRef<'_>) -> (ne: Result<(Vec<u8>, Vec<u8>), ErrorStack>)
    ensures
        match ne {
            Ok((n, e)) => rsa_components_of(key) == Some((n@, e@)),
            Err(_) => rsa_components_of(key) is None,
        },
{
    match key {
        KeyRef::Private(k) => k.rsa().map(|rsa| (rsa.n().to_vec(), rsa.e().to_vec())),
        KeyRef::Public(k) => k.rsa().map(|rsa| (rsa.n().to_vec(), rsa.e().to_vec())),
    }
}

/// `Signer::new_without_digest` and `sign_oneshot_to_vec`: the signature of
/// `message` by a key that signs the message itself, as Ed25519 does.
#[verifier::external_body]
pub(crate) fn sign_oneshot(key: &PKey<Private>, message: &[u8]) -> (signature: Result<
    Vec<u8>,
    ErrorStack,
>) {
    Signer::new_without_digest(key)?.sign_oneshot_to_vec(message)
}

/// OpenSSL's answer to whether `signature` is one of `message` under a key
/// that signs the message itself.
pub uninterp spec fn oneshot_verify_answer(key: KeyRef<'_>, message: Seq<u8>, signature: Seq<u8>) -> Option<
    bool,
>;

/// `Verifier::new_without_digest` and `verify_oneshot`: whether `signature`
/// is one of `message` under a key that signs the message itself.
#[verifier::external_body]
pub(crate) fn verify_oneshot(key: KeyRef<'_>, message: &[u8], signature: &[u8]) -> (valid: Result<
    bool,
    ErrorStack,
>)
    ensures
        match valid {
            Ok(answer) => oneshot_verify_answer(key, message@, signature@) == Some(answer),
            Err(_) => oneshot_verify_answer(key, message@, signature@) is None,
        },
{
    let mut verifier = match key {
        KeyRef::Private(k) => Verifier::new_without_digest(k)?,
        KeyRef::Public(k) => Verifier::new_without_digest(k)?,
    };
    verifier.verify_oneshot(signature, message)
}

/// The raw bytes of a key's public half, by `PKeyRef::raw_public_key`.
pub uninterp spec fn raw_public_key_of(key: KeyRef<'_>) -> Option<Seq<u8>>;

/// `PKeyRef::raw_public_key`: the public key as raw bytes, for the families
/// that have such a form (Ed25519 among them).
#[verifier::external_body]
pub(crate) fn raw_public_key(key: KeyRef<'_>) -> (raw: Result<Vec<u8>, ErrorStack>)
    ensures
        match raw {
            Ok(bytes) => raw_public_key_of(key) == Some(bytes@),
            Err(_) => raw_public_key_of(key) is None,
        },
{
    match key {
        KeyRef::Private(k) => k.raw_public_key(),
        KeyRef::Public(k) => k.raw_public_key(),
    }
}

} // verus!
