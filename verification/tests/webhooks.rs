use octokit::error::ErrorKind;
use octokit::hmac::MAX_KEY_LEN;
use octokit::webhooks::{
    accepts, conclude, digests_match, parse_signature, verify, verify_bytes, verify_payload_signature,
    DIGEST_LEN, EVENT_HEADER_NAME, HEADER_LEN, PREFIX_LEN, SIGNATURE_HEADER_NAME,
};
use openssl::hash::MessageDigest;
use openssl::pkey::PKey;
use openssl::sign::Signer;

const SECRET: &str = "It's a Secret to Everybody";
const BODY: &str = "Hello, World!";
const SIGNATURE: &str = "sha1=01dc10d0c83e72ed246219cdd91669667fe2ca59";

/// The tag of `body` under `secret`, computed apart from the library.
fn tag(secret: &[u8], body: &[u8]) -> Vec<u8> {
    let key = PKey::hmac(secret).unwrap();
    let mut signer = Signer::new(MessageDigest::sha1(), &key).unwrap();
    signer.update(body).unwrap();
    signer.sign_to_vec().unwrap()
}

/// The header that announces the tag of `body` under `secret`.
fn header(secret: &[u8], body: &[u8]) -> String {
    format!("sha1={}", hex::encode(tag(secret, body)))
}

fn check(signature: &str, secret: &str, body: &str) -> bool {
    verify_payload_signature(&Some(signature.to_string()), &secret.to_string(), &body.to_string())
}

#[test]
fn it_works() {
    assert_eq!(2 + 2, 4);
}

#[test]
fn header_names_are_githubs() {
    assert_eq!(EVENT_HEADER_NAME, "X-GITHUB-EVENT");
    assert_eq!(SIGNATURE_HEADER_NAME, "X-HUB-SIGNATURE");
}

#[test]
fn header_length_is_prefix_and_two_digits_per_byte() {
    assert_eq!(PREFIX_LEN, 5);
    assert_eq!(DIGEST_LEN, 20);
    assert_eq!(HEADER_LEN, PREFIX_LEN + 2 * DIGEST_LEN);
}

#[test]
fn known_delivery_is_authentic() {
    assert_eq!(header(SECRET.as_bytes(), BODY.as_bytes()), SIGNATURE);
    assert!(check(SIGNATURE, SECRET, BODY));
    let verdict = verify(&SIGNATURE.to_string(), &SECRET.to_string(), &BODY.to_string());
    assert_eq!(verdict.unwrap(), true);
}

#[test]
fn known_delivery_with_any_character_altered_is_rejected() {
    for i in 0..BODY.len() {
        let mut altered = BODY.as_bytes().to_vec();
        altered[i] = if altered[i] == b'x' { b'y' } else { b'x' };
        let altered = String::from_utf8(altered).unwrap();
        assert!(!check(SIGNATURE, SECRET, &altered), "position {}", i);
    }
}

#[test]
fn round_trip_accepts_a_computed_signature() {
    let cases: [(&str, &str); 4] = [
        ("secret", "{\"action\":\"created\"}"),
        ("k", ""),
        ("a much longer secret than the sixty-four bytes of one block of SHA-1, so that it is hashed", "x"),
        ("p\u{e4}ssw\u{f6}rd", "gr\u{fc}\u{df}e \u{2603}"),
    ];
    for (secret, body) in cases {
        let signature = header(secret.as_bytes(), body.as_bytes());
        assert_eq!(signature.len(), HEADER_LEN);
        assert!(check(&signature, secret, body), "{:?} {:?}", secret, body);
    }
}

#[test]
fn empty_secret_is_verified_or_refused_by_the_backend() {
    let signature = "sha1=fbdb1d1b18aa6c08324b7d64b71fb76370690e1d".to_string();
    match verify(&signature, &String::new(), &String::new()) {
        Ok(accepted) => assert!(accepted),
        Err(e) => assert_eq!(e.kind(), ErrorKind::CryptoBackend),
    }
    let wrong = format!("sha1={}", "0".repeat(40));
    assert!(!verify_payload_signature(&Some(wrong), &String::new(), &String::new()));
}

#[test]
fn round_trip_accepts_raw_bytes() {
    let secret = [0u8, 255, 128, 7];
    let body = [0xffu8, 0xfe, 0x00, 0x80, 0x0a];
    let signature = header(&secret, &body);
    assert_eq!(verify_bytes(signature.as_bytes(), &secret, &body).unwrap(), true);
}

#[test]
fn single_bit_flips_in_the_body_are_rejected() {
    let secret = "secret";
    let body = b"{\"zen\":\"Keep it logically awesome.\"}".to_vec();
    let signature = header(secret.as_bytes(), &body);
    for i in 0..body.len() {
        for bit in 0..8 {
            let mut flipped = body.clone();
            flipped[i] ^= 1 << bit;
            let verdict = verify_bytes(signature.as_bytes(), secret.as_bytes(), &flipped);
            assert_eq!(verdict.unwrap(), false, "byte {} bit {}", i, bit);
        }
    }
}

#[test]
fn absent_header_is_rejected() {
    assert!(!verify_payload_signature(&None, &SECRET.to_string(), &BODY.to_string()));
    assert!(!verify_payload_signature(&None, &String::new(), &String::new()));
}

#[test]
fn wrong_digest_is_rejected() {
    let wrong = "sha1=757107ea0eb2509fc211221cce984b8a37570b8f";
    assert!(!check(wrong, SECRET, BODY));
    let verdict = verify(&wrong.to_string(), &SECRET.to_string(), &BODY.to_string());
    assert_eq!(verdict.unwrap(), false);
    let zeros = format!("sha1={}", "0".repeat(40));
    assert!(!check(&zeros, SECRET, BODY));
}

#[test]
fn malformed_hex_is_rejected_without_panic() {
    let signature = format!("sha1=nothex{}", "0".repeat(34));
    assert_eq!(signature.len(), HEADER_LEN);
    assert!(!check(&signature, SECRET, BODY));
    let verdict = verify(&signature, &SECRET.to_string(), &BODY.to_string());
    assert_eq!(verdict.unwrap_err().kind(), ErrorKind::MalformedSignature);
}

#[test]
fn malformed_headers_are_decode_errors() {
    let good = SIGNATURE.to_string();
    let cases: Vec<String> = vec![
        String::new(),
        "sha1".to_string(),
        "sha1=".to_string(),
        good[..44].to_string(),
        format!("{}0", good),
        good.replace("sha1=", "sha2="),
        good.replace("sha1=", "SHA1="),
        format!("sha256={}", "0".repeat(64)),
        format!("sha1={} ", "0".repeat(39)),
        format!("sha1={}g", "0".repeat(39)),
        format!("sha1={}", "\u{e9}".repeat(20)),
        format!("sha1\u{e9}{}", "0".repeat(39)),
    ];
    for signature in cases {
        let verdict = verify(&signature, &SECRET.to_string(), &BODY.to_string());
        assert_eq!(
            verdict.unwrap_err().kind(),
            ErrorKind::MalformedSignature,
            "{:?}",
            signature
        );
        assert!(!check(&signature, SECRET, BODY));
        assert!(parse_signature(signature.as_bytes()).is_err());
    }
}

#[test]
fn upper_case_digits_are_read() {
    let signature = SIGNATURE.replace("sha1=", "").to_uppercase();
    let signature = format!("sha1={}", signature);
    assert!(check(&signature, SECRET, BODY));
    let mixed = "sha1=01DC10d0c83e72ED246219cdd91669667fe2CA59";
    assert!(check(mixed, SECRET, BODY));
}

#[test]
fn another_secret_is_rejected() {
    let signature = header(b"first secret", BODY.as_bytes());
    assert!(check(&signature, "first secret", BODY));
    assert!(!check(&signature, "second secret", BODY));
    assert!(!check(&signature, "first secre", BODY));
    assert!(!check(&signature, "", BODY));
    assert!(!check(&signature, "First secret", BODY));
}

#[test]
fn secrets_with_one_tag_are_told_apart_by_nothing() {
    let signature = header(b"k", BODY.as_bytes());
    assert_eq!(signature, header(b"k\0", BODY.as_bytes()));
    assert!(check(&signature, "k", BODY));
    assert!(check(&signature, "k\0", BODY));
}

#[test]
fn parse_signature_reads_the_digest() {
    let digest = parse_signature(SIGNATURE.as_bytes()).unwrap();
    assert_eq!(
        digest,
        vec![
            0x01, 0xdc, 0x10, 0xd0, 0xc8, 0x3e, 0x72, 0xed, 0x24, 0x62, 0x19, 0xcd, 0xd9, 0x16,
            0x69, 0x66, 0x7f, 0xe2, 0xca, 0x59
        ]
    );
    assert_eq!(digest.len(), DIGEST_LEN);
    let digest = parse_signature(b"sha1=000102030405060708090A0B0C0D0E0Fa0b1c2ff").unwrap();
    assert_eq!(
        digest,
        vec![0, 1, 2, 3, 4, 5, 6, 7, 8, 9, 10, 11, 12, 13, 14, 15, 0xa0, 0xb1, 0xc2, 0xff]
    );
}

#[test]
fn parse_signature_names_the_fault() {
    let e = parse_signature(b"sha1=").unwrap_err();
    assert_eq!(e.kind(), ErrorKind::MalformedSignature);
    assert_eq!(e.description(), "signature header must be 45 bytes long");
    let e = parse_signature(b"md5==0000000000000000000000000000000000000000").unwrap_err();
    assert_eq!(e.description(), "signature header must start with sha1=");
    let e = parse_signature(b"sha1=00000000000000000000000000000000000000zz").unwrap_err();
    assert_eq!(e.kind(), ErrorKind::MalformedSignature);
    assert_eq!(e.description(), "Invalid character 'z' at position 38");
}

#[test]
fn digests_match_compares_length_and_content() {
    assert!(digests_match(&[], &[]));
    assert!(digests_match(&[1, 2, 3], &[1, 2, 3]));
    assert!(!digests_match(&[1, 2, 3], &[1, 2, 4]));
    assert!(!digests_match(&[0, 2, 3], &[1, 2, 3]));
    assert!(!digests_match(&[1, 2, 3], &[1, 2]));
    assert!(!digests_match(&[], &[0]));
    let a = tag(b"a", b"b");
    assert!(digests_match(&a, &a.clone()));
}

#[test]
fn conclude_compares_with_the_computed_tag() {
    let received = tag(SECRET.as_bytes(), BODY.as_bytes());
    assert_eq!(conclude(&received, Ok(received.clone())).unwrap(), true);
    let mut other = received.clone();
    other[19] ^= 1;
    assert_eq!(conclude(&received, Ok(other)).unwrap(), false);
    assert_eq!(conclude(&received, Ok(vec![])).unwrap(), false);
    assert_eq!(conclude(&received, Ok(received[..19].to_vec())).unwrap(), false);
}

#[test]
fn conclude_reports_a_backend_failure() {
    let received = tag(SECRET.as_bytes(), BODY.as_bytes());
    let failure = openssl::error::ErrorStack::get();
    let e = conclude(&received, Err(failure)).unwrap_err();
    assert_eq!(e.kind(), ErrorKind::CryptoBackend);
    assert_eq!(e.description(), "OpenSSL error");
}

#[test]
fn malformed_header_wins_over_everything_else() {
    let e = verify_bytes(b"sha1=zz", b"", b"").unwrap_err();
    assert_eq!(e.kind(), ErrorKind::MalformedSignature);
}

#[test]
fn tag_is_neither_the_secret_nor_the_body() {
    let secret = [7u8; 20];
    let body = [9u8; 20];
    let as_secret = format!("sha1={}", hex::encode(secret));
    let as_body = format!("sha1={}", hex::encode(body));
    assert_eq!(verify_bytes(as_secret.as_bytes(), &secret, &body).unwrap(), false);
    assert_eq!(verify_bytes(as_body.as_bytes(), &secret, &body).unwrap(), false);
    let right = header(&secret, &body);
    assert_eq!(verify_bytes(right.as_bytes(), &secret, &body).unwrap(), true);
}

#[test]
fn accepts_only_a_verification_that_ran_and_accepted() {
    assert!(accepts(&Ok(true)));
    assert!(!accepts(&Ok(false)));
    assert!(!accepts(&Err(octokit::error::OctokitError::new("anything"))));
    let malformed = verify(&"sha1=".to_string(), &SECRET.to_string(), &BODY.to_string());
    assert!(!accepts(&malformed));
}

#[test]
fn secret_longer_than_the_backend_takes_is_a_backend_error() {
    assert_eq!(MAX_KEY_LEN, 2147483647);
    let secret = vec![0u8; MAX_KEY_LEN + 1];
    let e = verify_bytes(SIGNATURE.as_bytes(), &secret, BODY.as_bytes()).unwrap_err();
    assert_eq!(e.kind(), ErrorKind::CryptoBackend);
    assert_eq!(e.description(), "secret is too long for the HMAC backend");
    let e = verify_bytes(b"sha1=short", &secret, BODY.as_bytes()).unwrap_err();
    assert_eq!(e.kind(), ErrorKind::MalformedSignature);
}
