use jws_keys::ecdsa::{EcdsaAlgorithm, EcdsaPrivateKey};
use jws_keys::key::KeyFamily;
use jws_keys::rsa::RsaAlgorithm;
use jws_keys::some::{SomePrivateKey, SomePublicKey};
use jws_keys::{Error, PublicKeyToJwk, SigningKey, VerificationKey};
use openssl::pkey::PKey;
use openssl::rsa::Rsa;

#[test]
fn an_ec_key_brings_its_algorithm() -> Result<(), Error> {
    for (alg, len) in [
        (EcdsaAlgorithm::ES256, 64usize),
        (EcdsaAlgorithm::ES384, 96),
        (EcdsaAlgorithm::ES512, 132),
    ] {
        let made = EcdsaPrivateKey::generate(alg)?;
        let pem = made.private_key_to_pem_pkcs8()?;
        let pub_pem = made.public_key_pem()?;
        let k = SomePrivateKey::from_pem(&pem, RsaAlgorithm::RS512)?;
        let pk = SomePublicKey::from_pem(&pub_pem)?;
        assert!(matches!(k, SomePrivateKey::Ecdsa(_)));
        assert!(matches!(pk, SomePublicKey::Ecdsa(_)));
        assert_eq!(k.alg(), alg.name());
        assert_eq!(k.private_key_to_pem_pkcs8()?, pem);
        assert_eq!(k.public_key_to_pem()?, pub_pem);
        assert_eq!(pk.to_pem()?, pub_pem);
        let sig = k.sign(b"...")?;
        assert_eq!(sig.len(), len);
        assert!(k.verify(b"...", sig.as_slice(), alg.name()).is_ok());
        assert!(pk.verify(b"...", sig.as_slice(), alg.name()).is_ok());
        assert!(matches!(pk.verify(b"....", sig.as_slice(), alg.name()), Err(Error::VerificationError)));
        assert!(matches!(pk.verify(b"...", sig.as_slice(), "RS512"), Err(Error::VerificationError)));
        assert!(matches!(
            pk.verify(b"...", &sig.as_slice()[..len - 1], alg.name()),
            Err(Error::VerificationError)
        ));
        assert_eq!(k.public_key_to_jwk()?, made.public_key_to_jwk()?);
        assert_eq!(pk.public_key_to_jwk()?, made.public_key_to_jwk()?);
        assert_eq!(pk.public_key_to_jwk()?.crv.as_deref(), Some(alg.curve_name()));
    }
    Ok(())
}

#[test]
fn an_rsa_key_gets_the_given_algorithm() -> Result<(), Error> {
    let key = PKey::from_rsa(Rsa::generate(2048).unwrap()).unwrap();
    let pem = key.private_key_to_pem_pkcs8().unwrap();
    let pub_pem = key.public_key_to_pem().unwrap();
    let pk = SomePublicKey::from_pem(&pub_pem)?;
    assert!(matches!(pk, SomePublicKey::Rsa(_)));
    assert_eq!(pk.to_pem()?, pub_pem);
    assert_eq!(pk.public_key_to_jwk()?.alg, None);
    for alg in [RsaAlgorithm::RS256, RsaAlgorithm::RS384, RsaAlgorithm::RS512] {
        let k = SomePrivateKey::from_pem(&pem, alg)?;
        match &k {
            SomePrivateKey::Rsa(rsa) => assert_eq!(rsa.algorithm(), alg),
            _ => panic!("not an RSA key"),
        }
        assert_eq!(k.alg(), alg.name());
        assert_eq!(k.private_key_to_pem_pkcs8()?, pem);
        assert_eq!(k.public_key_to_pem()?, pub_pem);
        let sig = k.sign(b"...")?;
        assert!(k.verify(b"...", sig.as_slice(), alg.name()).is_ok());
        assert!(pk.verify(b"...", sig.as_slice(), alg.name()).is_ok());
        assert!(matches!(pk.verify(b"....", sig.as_slice(), alg.name()), Err(Error::VerificationError)));
        assert!(matches!(k.verify(b"...", sig.as_slice(), "ES256"), Err(Error::VerificationError)));
        let jwk = k.public_key_to_jwk()?;
        assert_eq!(jwk.kty, "RSA");
        assert_eq!(jwk.alg.as_deref(), Some(alg.name()));
    }
    Ok(())
}

#[test]
fn an_ed25519_key_signs_with_eddsa() -> Result<(), Error> {
    let key = PKey::generate_ed25519().unwrap();
    let pem = key.private_key_to_pem_pkcs8().unwrap();
    let pub_pem = key.public_key_to_pem().unwrap();
    let k = SomePrivateKey::from_pem(&pem, RsaAlgorithm::RS256)?;
    let pk = SomePublicKey::from_pem(&pub_pem)?;
    assert!(matches!(k, SomePrivateKey::Ed25519(_)));
    assert!(matches!(pk, SomePublicKey::Ed25519(_)));
    assert_eq!(k.alg(), "EdDSA");
    assert_eq!(k.private_key_to_pem_pkcs8()?, pem);
    assert_eq!(k.public_key_to_pem()?, pub_pem);
    assert_eq!(pk.to_pem()?, pub_pem);
    let sig = k.sign(b"...")?;
    assert_eq!(sig.len(), 64);
    assert!(k.verify(b"...", sig.as_slice(), "EdDSA").is_ok());
    assert!(pk.verify(b"...", sig.as_slice(), "EdDSA").is_ok());
    assert!(matches!(pk.verify(b"...", sig.as_slice(), "RS256"), Err(Error::VerificationError)));
    assert!(matches!(pk.verify(b"....", sig.as_slice(), "EdDSA"), Err(Error::VerificationError)));
    assert_eq!(k.public_key_to_jwk()?, pk.public_key_to_jwk()?);
    assert_eq!(k.public_key_to_jwk()?.kty, "OKP");
    Ok(())
}

#[test]
fn keys_of_other_families_are_refused() {
    let x = PKey::generate_x25519().unwrap();
    assert!(matches!(
        SomePrivateKey::from_pem(&x.private_key_to_pem_pkcs8().unwrap(), RsaAlgorithm::RS256),
        Err(Error::UnsupportedOrInvalidKey)
    ));
    assert!(matches!(
        SomePublicKey::from_pem(&x.public_key_to_pem().unwrap()),
        Err(Error::UnsupportedOrInvalidKey)
    ));
    assert!(matches!(SomePrivateKey::from_pem(b"junk", RsaAlgorithm::RS256), Err(Error::OpenSsl(_))));
    assert!(matches!(SomePublicKey::from_pem(b"junk"), Err(Error::OpenSsl(_))));
}

#[test]
fn keys_on_other_curves_are_refused_by_the_union() {
    let group = openssl::ec::EcGroup::from_curve_name(openssl::nid::Nid::SECP256K1).unwrap();
    let key = openssl::ec::EcKey::generate(&group).unwrap();
    assert!(matches!(
        SomePrivateKey::from_pem(&key.private_key_to_pem().unwrap(), RsaAlgorithm::RS256),
        Err(Error::UnsupportedOrInvalidKey)
    ));
    assert!(matches!(
        SomePublicKey::from_pem(&key.public_key_to_pem().unwrap()),
        Err(Error::UnsupportedOrInvalidKey)
    ));
}

#[test]
fn the_family_decides_the_variant() {
    let ed = PKey::generate_ed25519().unwrap();
    let pem = ed.private_key_to_pem_pkcs8().unwrap();
    let pub_pem = ed.public_key_to_pem().unwrap();
    let handle = || PKey::private_key_from_pem(&pem).unwrap();
    let public = || PKey::public_key_from_pem(&pub_pem).unwrap();
    assert!(matches!(
        SomePrivateKey::from_pkey_as(handle(), KeyFamily::Ed25519, RsaAlgorithm::RS256),
        Ok(SomePrivateKey::Ed25519(_))
    ));
    assert!(matches!(
        SomePrivateKey::from_pkey_as(handle(), KeyFamily::Other, RsaAlgorithm::RS256),
        Err(Error::UnsupportedOrInvalidKey)
    ));
    assert!(SomePrivateKey::from_pkey_as(handle(), KeyFamily::Rsa, RsaAlgorithm::RS256).is_err());
    assert!(SomePrivateKey::from_pkey_as(handle(), KeyFamily::Ec, RsaAlgorithm::RS256).is_err());
    assert!(matches!(
        SomePublicKey::from_pkey_as(public(), KeyFamily::Ed25519),
        Ok(SomePublicKey::Ed25519(_))
    ));
    assert!(matches!(
        SomePublicKey::from_pkey_as(public(), KeyFamily::Other),
        Err(Error::UnsupportedOrInvalidKey)
    ));
    assert!(SomePublicKey::from_pkey_as(public(), KeyFamily::Rsa).is_err());
    assert!(SomePublicKey::from_pkey_as(public(), KeyFamily::Ec).is_err());
}
