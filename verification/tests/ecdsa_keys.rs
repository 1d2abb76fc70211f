use jws_keys::ecdsa::{
    ec_jwk, fixed_width_coordinates, EcdsaAlgorithm, EcdsaPrivateKey, EcdsaPublicKey,
};
use jws_keys::jwk::Jwk;
use jws_keys::{Error, PublicKeyToJwk, SigningKey, VerificationKey};
use openssl::ec::{EcGroup, EcKey};
use openssl::nid::Nid;
use openssl::pkey::PKey;

const ALL: [EcdsaAlgorithm; 3] =
    [EcdsaAlgorithm::ES256, EcdsaAlgorithm::ES384, EcdsaAlgorithm::ES512];

/// Turns an exported key back into a key that verifies.
fn to_verification_key(jwk: &Jwk) -> Result<EcdsaPublicKey, Error> {
    assert_eq!(jwk.kty, "EC");
    let algorithm = EcdsaAlgorithm::from_curve_name(jwk.crv.as_deref().unwrap())?;
    let x = base64::decode_config(jwk.x.as_deref().unwrap(), base64::URL_SAFE_NO_PAD).unwrap();
    let y = base64::decode_config(jwk.y.as_deref().unwrap(), base64::URL_SAFE_NO_PAD).unwrap();
    EcdsaPublicKey::from_coordinates(&x, &y, algorithm)
}

#[test]
fn conversion() -> Result<(), Error> {
    let k = EcdsaPrivateKey::generate(EcdsaAlgorithm::ES256)?;
    let pem = k.private_key_to_pem_pkcs8()?;
    EcdsaPrivateKey::from_pem(&pem)?;

    let secp256k1_k = EcKey::generate(
        EcGroup::from_curve_name(Nid::SECP256K1).map_err(Error::OpenSsl)?.as_ref(),
    )
    .map_err(Error::OpenSsl)?;
    let secp256k1_k_pem = secp256k1_k.private_key_to_pem().map_err(Error::OpenSsl)?;
    let secp256k1_k_pub_pem = secp256k1_k.public_key_to_pem().map_err(Error::OpenSsl)?;
    assert!(EcdsaPrivateKey::from_pem(&secp256k1_k_pem).is_err());
    assert!(EcdsaPublicKey::from_pem(&secp256k1_k_pub_pem).is_err());

    // Should be able to handle BEGIN EC PRIVATE KEY as well.
    let ec_pem = PKey::private_key_from_pem(&pem)
        .map_err(Error::OpenSsl)?
        .ec_key()
        .map_err(Error::OpenSsl)?
        .private_key_to_pem()
        .map_err(Error::OpenSsl)?;
    assert!(std::str::from_utf8(&ec_pem)
        .unwrap()
        .contains("BEGIN EC PRIVATE KEY"));
    EcdsaPrivateKey::from_pem(&ec_pem)?;

    let pk_pem = k.public_key_pem()?;

    let pk = EcdsaPublicKey::from_pem(&pk_pem)?;

    println!("k: {:?}, pk: {:?}", k, pk);

    let pk_pem1 = pk.to_pem()?;

    assert_eq!(pk_pem, pk_pem1);

    let (x, y) = k.coordinates()?;
    let (x1, y1) = pk.coordinates()?;

    assert_eq!((&x, &y), (&x1, &y1));

    EcdsaPublicKey::from_coordinates(&x, &y, EcdsaAlgorithm::ES256)?;

    to_verification_key(&k.public_key_to_jwk()?)?;
    to_verification_key(&pk.public_key_to_jwk()?)?;

    Ok(())
}

#[test]
fn sign_verify() -> Result<(), Error> {
    for alg in [EcdsaAlgorithm::ES256, EcdsaAlgorithm::ES384, EcdsaAlgorithm::ES512] {
        let k = EcdsaPrivateKey::generate(alg)?;
        let (x, y) = k.coordinates()?;
        let pk = EcdsaPublicKey::from_coordinates(&x, &y, alg)?;
        let sig = k.sign(b"...")?;
        let sig = sig.as_slice();
        assert!(k.verify(b"...", sig, alg.name()).is_ok());
        assert!(pk.verify(b"...", sig, alg.name()).is_ok());
        assert!(pk.verify(b"....", sig, alg.name()).is_err());
        assert!(pk.verify(b"...", sig, "WRONG ALG").is_err());
        assert!(pk.verify(b"...", &sig[..63], alg.name()).is_err());
    }
    Ok(())
}

#[test]
fn es256_scenario() -> Result<(), Error> {
    let k = EcdsaPrivateKey::generate(EcdsaAlgorithm::ES256)?;
    assert_eq!(k.alg(), "ES256");
    assert_eq!(k.algorithm(), EcdsaAlgorithm::ES256);
    let sig = k.sign(b"...")?;
    assert_eq!(sig.len(), 64);
    assert_eq!(sig.as_slice().len(), 64);
    assert!(k.verify(b"...", sig.as_slice(), "ES256").is_ok());
    assert!(matches!(k.verify(b"....", sig.as_slice(), "ES256"), Err(Error::VerificationError)));
    assert!(matches!(k.verify(b"...", sig.as_slice(), "WRONG ALG"), Err(Error::VerificationError)));
    assert!(matches!(
        k.verify(b"...", &sig.as_slice()[..63], "ES256"),
        Err(Error::VerificationError)
    ));
    Ok(())
}

#[test]
fn signatures_have_the_length_of_the_algorithm() -> Result<(), Error> {
    for (alg, len) in [
        (EcdsaAlgorithm::ES256, 64usize),
        (EcdsaAlgorithm::ES384, 96),
        (EcdsaAlgorithm::ES512, 132),
    ] {
        let k = EcdsaPrivateKey::generate(alg)?;
        for payload in [&b""[..], b"a", b"a longer payload than the others"] {
            let sig = k.sign(payload)?;
            assert_eq!(sig.len(), len);
            assert!(k.verify(payload, sig.as_slice(), alg.name()).is_ok());
        }
    }
    Ok(())
}

#[test]
fn coordinates_of_both_halves_agree() -> Result<(), Error> {
    for alg in ALL {
        let k = EcdsaPrivateKey::generate(alg)?;
        let pk = EcdsaPublicKey::from_pem(&k.public_key_pem()?)?;
        assert_eq!(pk.algorithm(), alg);
        let (x, y) = k.coordinates()?;
        assert_eq!(pk.coordinates()?, (x.clone(), y.clone()));
        assert!(x.len() == alg.field_len() && y.len() == alg.field_len());
        let again = EcdsaPublicKey::from_coordinates(&x, &y, alg)?;
        assert_eq!(again.coordinates()?, (x, y));
        assert_eq!(again.algorithm(), alg);
    }
    Ok(())
}

#[test]
fn public_pem_round_trip() -> Result<(), Error> {
    for alg in ALL {
        let k = EcdsaPrivateKey::generate(alg)?;
        let pem = k.public_key_pem()?;
        let pk = EcdsaPublicKey::from_pem(&pem)?;
        assert_eq!(pk.to_pem()?, pem);
        let pk2 = EcdsaPublicKey::from_pem(&pk.to_pem()?)?;
        assert_eq!(pk2.to_pem()?, pem);
    }
    Ok(())
}

#[test]
fn private_pem_round_trip() -> Result<(), Error> {
    for alg in ALL {
        let k = EcdsaPrivateKey::generate(alg)?;
        let pem = k.private_key_to_pem_pkcs8()?;
        assert!(std::str::from_utf8(&pem).unwrap().contains("BEGIN PRIVATE KEY"));
        let k2 = EcdsaPrivateKey::from_pem(&pem)?;
        assert_eq!(k2.algorithm(), alg);
        assert_eq!(k2.private_key_to_pem_pkcs8()?, pem);
        let sig = k2.sign(b"payload")?;
        assert!(k.verify(b"payload", sig.as_slice(), alg.name()).is_ok());
    }
    Ok(())
}

#[test]
fn a_key_of_one_curve_refuses_the_other_algorithms() -> Result<(), Error> {
    for alg in ALL {
        let k = EcdsaPrivateKey::generate(alg)?;
        let imported = EcdsaPrivateKey::from_pem(&k.private_key_to_pem_pkcs8()?)?;
        let pk = EcdsaPublicKey::from_pem(&k.public_key_pem()?)?;
        let sig = k.sign(b"...")?;
        for other in ALL {
            let expected_ok = other == alg;
            let a = imported.verify(b"...", sig.as_slice(), other.name());
            let b = pk.verify(b"...", sig.as_slice(), other.name());
            if expected_ok {
                assert!(a.is_ok() && b.is_ok());
            } else {
                assert!(matches!(a, Err(Error::VerificationError)));
                assert!(matches!(b, Err(Error::VerificationError)));
            }
        }
    }
    Ok(())
}

#[test]
fn a_signature_of_the_wrong_length_is_refused() -> Result<(), Error> {
    for alg in ALL {
        let k = EcdsaPrivateKey::generate(alg)?;
        let pk = EcdsaPublicKey::from_pem(&k.public_key_pem()?)?;
        let sig = k.sign(b"...")?;
        let sig = sig.as_slice();
        let short = &sig[..sig.len() - 1];
        let mut long = sig.to_vec();
        long.push(0);
        for bad in [short, &long[..], &[][..]] {
            assert!(matches!(k.verify(b"...", bad, alg.name()), Err(Error::VerificationError)));
            assert!(matches!(pk.verify(b"...", bad, alg.name()), Err(Error::VerificationError)));
        }
    }
    Ok(())
}

#[test]
fn a_changed_signature_is_refused() -> Result<(), Error> {
    let k = EcdsaPrivateKey::generate(EcdsaAlgorithm::ES256)?;
    let sig = k.sign(b"...")?;
    let mut changed = sig.as_slice().to_vec();
    changed[40] ^= 1;
    assert!(matches!(k.verify(b"...", &changed, "ES256"), Err(Error::VerificationError)));
    let zero = vec![0u8; 64];
    assert!(matches!(k.verify(b"...", &zero, "ES256"), Err(Error::VerificationError)));
    let other = EcdsaPrivateKey::generate(EcdsaAlgorithm::ES256)?;
    assert!(matches!(
        other.verify(b"...", sig.as_slice(), "ES256"),
        Err(Error::VerificationError)
    ));
    Ok(())
}

#[test]
fn keys_on_other_curves_are_refused() {
    for nid in [Nid::SECP256K1, Nid::SECP224R1] {
        let group = EcGroup::from_curve_name(nid).unwrap();
        let key = EcKey::generate(&group).unwrap();
        let pem = key.private_key_to_pem().unwrap();
        let pub_pem = key.public_key_to_pem().unwrap();
        let pkcs8 = PKey::from_ec_key(key).unwrap().private_key_to_pem_pkcs8().unwrap();
        assert!(matches!(EcdsaPrivateKey::from_pem(&pem), Err(Error::UnsupportedOrInvalidKey)));
        assert!(matches!(EcdsaPrivateKey::from_pem(&pkcs8), Err(Error::UnsupportedOrInvalidKey)));
        assert!(matches!(EcdsaPublicKey::from_pem(&pub_pem), Err(Error::UnsupportedOrInvalidKey)));
    }
}

#[test]
fn what_is_no_key_is_refused() {
    assert!(matches!(EcdsaPrivateKey::from_pem(b"no pem at all"), Err(Error::OpenSsl(_))));
    assert!(matches!(EcdsaPublicKey::from_pem(b""), Err(Error::OpenSsl(_))));
    let rsa = PKey::from_rsa(openssl::rsa::Rsa::generate(2048).unwrap()).unwrap();
    assert!(EcdsaPrivateKey::from_pem(&rsa.private_key_to_pem_pkcs8().unwrap()).is_err());
    assert!(EcdsaPublicKey::from_pem(&rsa.public_key_to_pem().unwrap()).is_err());
}

#[test]
fn coordinates_off_the_curve_are_refused() -> Result<(), Error> {
    let k = EcdsaPrivateKey::generate(EcdsaAlgorithm::ES256)?;
    let (x, mut y) = k.coordinates()?;
    let last = y.len() - 1;
    y[last] ^= 1;
    assert!(matches!(
        EcdsaPublicKey::from_coordinates(&x, &y, EcdsaAlgorithm::ES256),
        Err(Error::UnsupportedOrInvalidKey)
    ));
    assert!(matches!(
        EcdsaPublicKey::from_coordinates(&[], &[], EcdsaAlgorithm::ES256),
        Err(Error::UnsupportedOrInvalidKey)
    ));
    y[last] ^= 1;
    assert!(matches!(
        EcdsaPublicKey::from_coordinates(&x, &y, EcdsaAlgorithm::ES384),
        Err(Error::UnsupportedOrInvalidKey)
    ));
    Ok(())
}

#[test]
fn jwk_of_an_es256_key() -> Result<(), Error> {
    let k = EcdsaPrivateKey::generate(EcdsaAlgorithm::ES256)?;
    let pk = EcdsaPublicKey::from_pem(&k.public_key_pem()?)?;
    let (x, y) = k.coordinates()?;
    for jwk in [k.public_key_to_jwk()?, pk.public_key_to_jwk()?] {
        assert_eq!(jwk.kty, "EC");
        assert_eq!(jwk.use_.as_deref(), Some("sig"));
        assert_eq!(jwk.alg.as_deref(), Some("ES256"));
        assert_eq!(jwk.crv.as_deref(), Some("P-256"));
        assert_eq!(jwk.n, None);
        assert_eq!(jwk.e, None);
        let jx = base64::decode_config(jwk.x.as_deref().unwrap(), base64::URL_SAFE_NO_PAD);
        let jy = base64::decode_config(jwk.y.as_deref().unwrap(), base64::URL_SAFE_NO_PAD);
        assert_eq!(jx.unwrap(), x);
        assert_eq!(jy.unwrap(), y);
    }
    Ok(())
}

#[test]
fn jwk_of_each_algorithm() -> Result<(), Error> {
    for (alg, name, crv) in [
        (EcdsaAlgorithm::ES256, "ES256", "P-256"),
        (EcdsaAlgorithm::ES384, "ES384", "P-384"),
        (EcdsaAlgorithm::ES512, "ES512", "P-521"),
    ] {
        let k = EcdsaPrivateKey::generate(alg)?;
        let jwk = k.public_key_to_jwk()?;
        assert_eq!(jwk.alg.as_deref(), Some(name));
        assert_eq!(jwk.crv.as_deref(), Some(crv));
        let pk = to_verification_key(&jwk)?;
        let sig = k.sign(b"...")?;
        assert!(pk.verify(b"...", sig.as_slice(), name).is_ok());
    }
    Ok(())
}

#[test]
fn jwk_from_given_coordinates() {
    let jwk = ec_jwk(EcdsaAlgorithm::ES384, &[0xfb, 0xff, 0xbe], &[0, 0, 1]).unwrap();
    let expected = Jwk {
        kty: "EC".to_string(),
        use_: Some("sig".to_string()),
        alg: Some("ES384".to_string()),
        crv: Some("P-384".to_string()),
        x: Some("-_--".to_string()),
        y: Some("AAAB".to_string()),
        n: None,
        e: None,
    };
    assert_eq!(jwk, expected);
    let jwk = ec_jwk(EcdsaAlgorithm::ES256, b"hello", &[0]).unwrap();
    assert_eq!(jwk.x.as_deref(), Some("aGVsbG8"));
    assert_eq!(jwk.y.as_deref(), Some("AA"));
    let jwk = ec_jwk(EcdsaAlgorithm::ES512, &[], &[0, 1]).unwrap();
    assert_eq!(jwk.x.as_deref(), Some(""));
    assert_eq!(jwk.y.as_deref(), Some("AAE"));
    assert_eq!(jwk.crv.as_deref(), Some("P-521"));
}

#[test]
fn a_point_off_the_curve_is_an_invalid_key() {
    assert!(matches!(
        EcdsaPublicKey::from_coordinates(&[1], &[1], EcdsaAlgorithm::ES256),
        Err(Error::UnsupportedOrInvalidKey)
    ));
    for alg in ALL {
        assert!(matches!(
            EcdsaPublicKey::from_coordinates(&[1], &[1], alg),
            Err(Error::UnsupportedOrInvalidKey)
        ));
        assert!(matches!(
            EcdsaPublicKey::from_coordinates(&[0], &[0], alg),
            Err(Error::UnsupportedOrInvalidKey)
        ));
    }
}

#[test]
fn coordinates_have_the_width_of_the_field() -> Result<(), Error> {
    for (alg, width, chars) in [
        (EcdsaAlgorithm::ES256, 32usize, 43usize),
        (EcdsaAlgorithm::ES384, 48, 64),
        (EcdsaAlgorithm::ES512, 66, 88),
    ] {
        for _ in 0..8 {
            let k = EcdsaPrivateKey::generate(alg)?;
            let pk = EcdsaPublicKey::from_pem(&k.public_key_pem()?)?;
            let (x, y) = pk.coordinates()?;
            assert_eq!((x.len(), y.len()), (width, width));
            for jwk in [k.public_key_to_jwk()?, pk.public_key_to_jwk()?] {
                assert_eq!(jwk.x.as_deref().unwrap().len(), chars);
                assert_eq!(jwk.y.as_deref().unwrap().len(), chars);
            }
        }
    }
    Ok(())
}

#[test]
fn a_short_coordinate_keeps_its_leading_zero_bytes() -> Result<(), Error> {
    let mut found = false;
    for _ in 0..20000 {
        let k = EcdsaPrivateKey::generate(EcdsaAlgorithm::ES256)?;
        let (x, y) = k.coordinates()?;
        if x[0] != 0 && y[0] != 0 {
            continue;
        }
        found = true;
        assert_eq!((x.len(), y.len()), (32, 32));
        let pk = EcdsaPublicKey::from_coordinates(&x, &y, EcdsaAlgorithm::ES256)?;
        assert_eq!(pk.coordinates()?, (x.clone(), y.clone()));
        assert_eq!(pk.to_pem()?, k.public_key_pem()?);
        let short_x: Vec<u8> = x.iter().copied().skip_while(|b| *b == 0).collect();
        let again = EcdsaPublicKey::from_coordinates(&short_x, &y, EcdsaAlgorithm::ES256)?;
        assert_eq!(again.coordinates()?, (x.clone(), y.clone()));
        let jwk = pk.public_key_to_jwk()?;
        assert_eq!(jwk, k.public_key_to_jwk()?);
        let jx = base64::decode_config(jwk.x.as_deref().unwrap(), base64::URL_SAFE_NO_PAD).unwrap();
        let jy = base64::decode_config(jwk.y.as_deref().unwrap(), base64::URL_SAFE_NO_PAD).unwrap();
        assert_eq!((jx, jy), (x, y));
        let sig = k.sign(b"...")?;
        assert!(pk.verify(b"...", sig.as_slice(), "ES256").is_ok());
        break;
    }
    assert!(found);
    Ok(())
}

#[test]
fn coordinates_are_padded_to_the_field() {
    let (x, y) = fixed_width_coordinates(EcdsaAlgorithm::ES256, &[1], &[2, 3]).unwrap();
    let mut ex = vec![0u8; 32];
    ex[31] = 1;
    let mut ey = vec![0u8; 32];
    ey[30] = 2;
    ey[31] = 3;
    assert_eq!((x, y), (ex, ey));
    let full: Vec<u8> = (1..=48).collect();
    let (x, y) = fixed_width_coordinates(EcdsaAlgorithm::ES384, &full, &[]).unwrap();
    assert_eq!(x, full);
    assert_eq!(y, vec![0u8; 48]);
    let long = vec![1u8; 67];
    assert!(matches!(
        fixed_width_coordinates(EcdsaAlgorithm::ES512, &long, &[1]),
        Err(Error::UnsupportedOrInvalidKey)
    ));
    assert!(matches!(
        fixed_width_coordinates(EcdsaAlgorithm::ES512, &[1], &long),
        Err(Error::UnsupportedOrInvalidKey)
    ));
    assert!(fixed_width_coordinates(EcdsaAlgorithm::ES512, &long[..66], &long[..66]).is_ok());
}

#[test]
fn both_halves_export_the_same_jwk() -> Result<(), Error> {
    for alg in ALL {
        let k = EcdsaPrivateKey::generate(alg)?;
        let pk = EcdsaPublicKey::from_pem(&k.public_key_pem()?)?;
        let jwk = pk.public_key_to_jwk()?;
        assert_eq!(jwk, k.public_key_to_jwk()?);
        assert_eq!(jwk.kty, "EC");
        assert_eq!(jwk.alg.as_deref(), Some(alg.name()));
        assert_eq!(jwk.crv.as_deref(), Some(alg.curve_name()));
        let (x, y) = pk.coordinates()?;
        let jx = base64::decode_config(jwk.x.as_deref().unwrap(), base64::URL_SAFE_NO_PAD).unwrap();
        let jy = base64::decode_config(jwk.y.as_deref().unwrap(), base64::URL_SAFE_NO_PAD).unwrap();
        assert_eq!((jx, jy), (x, y));
    }
    Ok(())
}

#[test]
fn a_generated_key_imports_as_itself() -> Result<(), Error> {
    for alg in ALL {
        let k = EcdsaPrivateKey::generate(alg)?;
        assert_eq!(k.alg(), alg.name());
        let handle = PKey::private_key_from_pem(&k.private_key_to_pem_pkcs8()?).unwrap();
        let ec = handle.ec_key().unwrap();
        assert!(ec.check_key().is_ok());
        assert_eq!(ec.group().curve_name().map(|nid| nid.as_raw()), Some(alg.curve()));
        let again = EcdsaPrivateKey::from_pem(&k.private_key_to_pem_pkcs8()?)?;
        assert_eq!(again.alg(), k.alg());
        assert_eq!(again.algorithm(), alg);
        assert_eq!(again.coordinates()?, k.coordinates()?);
    }
    Ok(())
}

#[test]
fn a_key_from_coordinates_lies_on_its_curve() -> Result<(), Error> {
    for alg in ALL {
        let k = EcdsaPrivateKey::generate(alg)?;
        let (x, y) = k.coordinates()?;
        let pk = EcdsaPublicKey::from_coordinates(&x, &y, alg)?;
        let handle = PKey::public_key_from_pem(&pk.to_pem()?).unwrap();
        let ec = handle.ec_key().unwrap();
        assert!(ec.check_key().is_ok());
        assert_eq!(ec.group().curve_name().map(|nid| nid.as_raw()), Some(alg.curve()));
        for other in ALL {
            if other != alg {
                assert!(matches!(
                    EcdsaPublicKey::from_coordinates(&x, &y, other),
                    Err(Error::UnsupportedOrInvalidKey)
                ));
            }
        }
    }
    Ok(())
}
