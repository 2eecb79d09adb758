use cosmic_totp_client::totp::{
    decode_secret, generate, normalize_secret, remaining_seconds, Algorithm, SecretDecodeError,
};

#[test]
fn reference_code_at_59_seconds() {
    let secret = decode_secret("JBSWY3DPEHPK3PXP").unwrap();
    let code = generate(&secret, Algorithm::SHA1, 6, 30, 59);
    assert_eq!(code, "996554");
    assert_eq!(remaining_seconds(59, 30), 1);
}

#[test]
fn code_is_the_same_within_one_step() {
    let secret = b"12345678901234567890".to_vec();
    let at_30 = generate(&secret, Algorithm::SHA1, 8, 30, 30);
    let at_59 = generate(&secret, Algorithm::SHA1, 8, 30, 59);
    let at_60 = generate(&secret, Algorithm::SHA1, 8, 30, 60);
    assert_eq!(at_30, "94287082");
    assert_eq!(at_59, "94287082");
    assert_ne!(at_60, at_59);
}

#[test]
fn generate_is_deterministic() {
    let secret = b"TestSecretSuperSecret".to_vec();
    let first = generate(&secret, Algorithm::SHA1, 6, 1, 1000);
    let second = generate(&secret, Algorithm::SHA1, 6, 1, 1000);
    assert_eq!(first, second);
    assert_eq!(first, "659761");
}

#[test]
fn generate_with_each_hash_family() {
    let secret = b"TestSecretSuperSecret".to_vec();
    assert_eq!(generate(&secret, Algorithm::SHA1, 6, 1, 1000), "659761");
    assert_eq!(generate(&secret, Algorithm::SHA256, 6, 1, 1000), "076417");
    assert_eq!(generate(&secret, Algorithm::SHA512, 6, 1, 1000), "473536");
}

#[test]
fn generate_matches_the_published_vectors() {
    let sha1 = b"12345678901234567890".to_vec();
    let sha256 = b"12345678901234567890123456789012".to_vec();
    let sha512 = b"1234567890123456789012345678901234567890123456789012345678901234".to_vec();
    assert_eq!(generate(&sha1, Algorithm::SHA1, 8, 30, 59), "94287082");
    assert_eq!(generate(&sha256, Algorithm::SHA256, 8, 30, 59), "46119246");
    assert_eq!(generate(&sha512, Algorithm::SHA512, 8, 30, 59), "90693936");
    assert_eq!(generate(&sha1, Algorithm::SHA1, 8, 30, 1111111109), "07081804");
}

#[test]
fn generate_pads_with_zeros_to_the_digit_count() {
    let secret = decode_secret("JBSWY3DPEHPK3PXP").unwrap();
    assert_eq!(generate(&secret, Algorithm::SHA1, 9, 30, 59), "041996554");
    assert_eq!(generate(&secret, Algorithm::SHA1, 8, 30, 59), "41996554");
    assert_eq!(generate(&secret, Algorithm::SHA1, 1, 30, 59), "4");
    assert_eq!(generate(&secret, Algorithm::SHA1, 0, 30, 59), "0");
}

#[test]
fn generated_code_holds_digits_only() {
    let secret = b"12345678901234567890".to_vec();
    for digits in 1..=9usize {
        let code = generate(&secret, Algorithm::SHA256, digits, 30, 1234567890);
        assert_eq!(code.chars().count(), digits);
        assert!(code.chars().all(|c| c.is_ascii_digit()));
    }
}

#[test]
fn remaining_seconds_is_within_the_step() {
    for t in 0..200u64 {
        let r = remaining_seconds(t, 30);
        assert!(1 <= r && r <= 30);
        assert_eq!((t + r) % 30, 0);
    }
}

#[test]
fn remaining_seconds_is_the_step_at_a_boundary() {
    assert_eq!(remaining_seconds(0, 30), 30);
    assert_eq!(remaining_seconds(60, 30), 30);
    assert_eq!(remaining_seconds(61, 30), 29);
    assert_eq!(remaining_seconds(89, 30), 1);
    assert_eq!(remaining_seconds(7, 1), 1);
    assert_eq!(remaining_seconds(u64::MAX, 60), 60 - u64::MAX % 60);
}

#[test]
fn ten_byte_secret_is_padded_to_sixteen() {
    let secret = decode_secret("JBSWY3DPEHPK3PXP").unwrap();
    assert_eq!(secret, b"Hello!\xde\xad\xbe\xef\0\0\0\0\0\0".to_vec());
    assert_eq!(secret.len(), 16);
}

#[test]
fn other_lengths_are_used_as_they_are() {
    assert_eq!(decode_secret("MFRGG").unwrap(), b"abc".to_vec());
    assert_eq!(
        decode_secret("GEZDGNBVGY3TQOJQGEZDGNBVGY3TQOJQ").unwrap(),
        b"12345678901234567890".to_vec()
    );
    let nine = normalize_secret(Some(vec![7u8; 9])).unwrap();
    assert_eq!(nine, vec![7u8; 9]);
    let eleven = normalize_secret(Some(vec![7u8; 11])).unwrap();
    assert_eq!(eleven, vec![7u8; 11]);
    let sixteen = normalize_secret(Some(vec![7u8; 16])).unwrap();
    assert_eq!(sixteen, vec![7u8; 16]);
}

#[test]
fn normalize_pads_ten_bytes_with_six_zeros() {
    let ten = normalize_secret(Some(vec![9u8; 10])).unwrap();
    let mut expected = vec![9u8; 10];
    expected.extend_from_slice(&[0u8; 6]);
    assert_eq!(ten, expected);
}

#[test]
fn padding_does_not_change_the_code() {
    let raw = b"Hello!\xde\xad\xbe\xef".to_vec();
    let padded = decode_secret("JBSWY3DPEHPK3PXP").unwrap();
    assert_eq!(
        generate(&raw, Algorithm::SHA1, 6, 30, 59),
        generate(&padded, Algorithm::SHA1, 6, 30, 59)
    );
}

#[test]
fn malformed_secret_is_rejected() {
    assert_eq!(decode_secret("1"), Err(SecretDecodeError::Malformed));
    assert_eq!(decode_secret("JBSWY3DP!"), Err(SecretDecodeError::Malformed));
    assert_eq!(decode_secret("not base32"), Err(SecretDecodeError::Malformed));
    assert_eq!(normalize_secret(None), Err(SecretDecodeError::Malformed));
}

#[test]
fn empty_secret_is_rejected() {
    assert_eq!(decode_secret(""), Err(SecretDecodeError::Empty));
    assert_eq!(decode_secret("A"), Err(SecretDecodeError::Empty));
    assert_eq!(normalize_secret(Some(Vec::new())), Err(SecretDecodeError::Empty));
}

#[test]
fn decode_error_has_a_message() {
    assert_eq!(
        SecretDecodeError::Malformed.message(),
        "Invalid secret: Could not decode base32 secret."
    );
    assert_eq!(SecretDecodeError::Empty.message(), "Invalid secret: The secret is empty.");
}

#[test]
fn hash_families_have_their_places() {
    for algorithm in [Algorithm::SHA1, Algorithm::SHA256, Algorithm::SHA512] {
        assert_eq!(Algorithm::from_index(algorithm.index()), Some(algorithm));
    }
    assert_eq!(Algorithm::SHA1.index(), 0);
    assert_eq!(Algorithm::SHA256.index(), 1);
    assert_eq!(Algorithm::SHA512.index(), 2);
    assert_eq!(Algorithm::from_index(3), None);
    assert_eq!(Algorithm::from_index(usize::MAX), None);
}
