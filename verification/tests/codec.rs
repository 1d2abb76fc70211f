use jws_keys::codec::{decode_fixed, encode_fixed, left_pad, trim_leading_zeros};
use jws_keys::error::Error;
use jws_keys::text::{bytes_equal, str_equal};

#[test]
fn encode_right_aligns_both_halves() {
    let sig = encode_fixed(&[1], &[2, 3], 4);
    assert_eq!(sig, vec![0, 1, 2, 3]);
    let sig = encode_fixed(&[0xab, 0xcd, 0xef], &[0x01], 8);
    assert_eq!(sig, vec![0, 0xab, 0xcd, 0xef, 0, 0, 0, 0x01]);
}

#[test]
fn encode_fills_the_whole_width() {
    let r: Vec<u8> = (1..=32).collect();
    let s: Vec<u8> = (101..=132).collect();
    let sig = encode_fixed(&r, &s, 64);
    assert_eq!(sig.len(), 64);
    assert_eq!(&sig[..32], &r[..]);
    assert_eq!(&sig[32..], &s[..]);
}

#[test]
fn encode_of_nothing_is_all_zero() {
    assert_eq!(encode_fixed(&[], &[], 6), vec![0u8; 6]);
    assert_eq!(encode_fixed(&[], &[], 0), Vec::<u8>::new());
}

#[test]
fn encode_has_the_length_of_each_algorithm() {
    for len in [64usize, 96, 132] {
        let sig = encode_fixed(&[7], &[9], len);
        assert_eq!(sig.len(), len);
        assert_eq!(sig[len / 2 - 1], 7);
        assert_eq!(sig[len - 1], 9);
        assert_eq!(sig.iter().filter(|b| **b != 0).count(), 2);
    }
}

#[test]
fn decode_strips_the_padding() {
    let sig = [0u8, 0, 5, 6, 0, 0, 0, 9];
    let (r, s) = decode_fixed(&sig, 8).unwrap();
    assert_eq!(r, &[5, 6]);
    assert_eq!(s, &[9]);
}

#[test]
fn decode_keeps_inner_zero_bytes() {
    let sig = [0u8, 4, 0, 0, 1, 0, 0, 0];
    let (r, s) = decode_fixed(&sig, 8).unwrap();
    assert_eq!(r, &[4, 0, 0]);
    assert_eq!(s, &[1, 0, 0, 0]);
}

#[test]
fn decode_of_zero_is_one_zero_byte() {
    let sig = [0u8; 8];
    let (r, s) = decode_fixed(&sig, 8).unwrap();
    assert_eq!(r, &[0]);
    assert_eq!(s, &[0]);
    let sig = [0u8, 0, 0, 0, 0, 0, 0, 3];
    let (r, s) = decode_fixed(&sig, 8).unwrap();
    assert_eq!(r, &[0]);
    assert_eq!(s, &[3]);
}

#[test]
fn decode_refuses_any_other_length() {
    let sig = [1u8; 64];
    assert!(matches!(decode_fixed(&sig[..63], 64), Err(Error::VerificationError)));
    assert!(matches!(decode_fixed(&sig, 96), Err(Error::VerificationError)));
    assert!(matches!(decode_fixed(&[], 64), Err(Error::VerificationError)));
    let long = [1u8; 65];
    assert!(matches!(decode_fixed(&long, 64), Err(Error::VerificationError)));
    assert!(decode_fixed(&sig, 64).is_ok());
}

#[test]
fn decode_inverts_encode() {
    let cases: [(&[u8], &[u8]); 5] = [
        (&[1], &[2]),
        (&[0], &[0]),
        (&[0xff, 0, 0], &[0x80]),
        (&[1, 2, 3, 4], &[5, 6, 7, 8]),
        (&[9, 0], &[0]),
    ];
    for (r, s) in cases {
        let sig = encode_fixed(r, s, 8);
        let (r2, s2) = decode_fixed(&sig, 8).unwrap();
        assert_eq!((r2, s2), (r, s));
    }
}

#[test]
fn decode_of_encode_keeps_the_numbers() {
    let sig = encode_fixed(&[0, 0, 7], &[], 8);
    let (r, s) = decode_fixed(&sig, 8).unwrap();
    assert_eq!(r, &[7]);
    assert_eq!(s, &[0]);
}

#[test]
fn trim_keeps_the_last_byte() {
    assert_eq!(trim_leading_zeros(&[0, 0, 1, 0]), &[1, 0]);
    assert_eq!(trim_leading_zeros(&[0, 0, 0]), &[0]);
    assert_eq!(trim_leading_zeros(&[0]), &[0]);
    assert_eq!(trim_leading_zeros(&[5]), &[5]);
    assert_eq!(trim_leading_zeros(&[]), &[] as &[u8]);
    assert_eq!(trim_leading_zeros(&[3, 0, 0]), &[3, 0, 0]);
}

#[test]
fn names_compare_by_content() {
    assert!(str_equal("ES256", "ES256"));
    assert!(!str_equal("ES256", "ES384"));
    assert!(!str_equal("ES256", "ES25"));
    assert!(!str_equal("", "x"));
    assert!(str_equal("", ""));
    assert!(str_equal("\u{e9}", "\u{e9}"));
    assert!(!str_equal("\u{e9}", "e"));
    assert!(bytes_equal(&[1, 2], &[1, 2]));
    assert!(!bytes_equal(&[1, 2], &[1, 3]));
    assert!(!bytes_equal(&[1, 2], &[1]));
}

#[test]
fn left_pad_fills_with_zero_bytes_in_front() {
    assert_eq!(left_pad(&[1, 2], 4), vec![0, 0, 1, 2]);
    assert_eq!(left_pad(&[1, 2], 2), vec![1, 2]);
    assert_eq!(left_pad(&[], 3), vec![0, 0, 0]);
    assert_eq!(left_pad(&[], 0), Vec::<u8>::new());
    assert_eq!(left_pad(&[0, 9], 3), vec![0, 0, 9]);
}
