use pksc::builtin::crypto::{checksum, checksums, get_checksum_algo, get_hasher, hash, hash_str, ChecksumAlgorithm, CryptoError, HashAlgorithm};

#[test]
fn sha256_of_abc() {
    assert_eq!(
        hash_str("abc", "sha256").unwrap(),
        "ba7816bf8f01cfea414140de5dae2223b00361a396177a9cb410ff61f20015ad"
    );
}

#[test]
fn md5_of_empty() {
    assert_eq!(hash_str("", "md5").unwrap(), "d41d8cd98f00b204e9800998ecf8427e");
}

#[test]
fn sha3_256_of_abc() {
    assert_eq!(
        hash_str("abc", "sha3-256").unwrap(),
        "3a985da74fe225b2045c172d6bd390bd855f086e3e9d525b46bfe24511431532"
    );
}

#[test]
fn hash_of_several_contents_is_hash_of_concatenation() {
    let parts = vec!["ab".to_string(), "c".to_string()];
    assert_eq!(hash(&parts, "sha256").unwrap(), hash_str("abc", "sha256").unwrap());
}

#[test]
fn unknown_hash_algorithm() {
    match hash_str("abc", "sha1") {
        Err(e) => {
            assert!(matches!(e, CryptoError::UnknownHash { .. }));
            assert_eq!(e.message(), "Unkown hash algorithm: sha1");
        }
        Ok(_) => panic!("sha1 is not offered"),
    }
}

#[test]
fn hash_algorithm_names() {
    assert_eq!(get_hasher("sha512-224").unwrap(), HashAlgorithm::Sha512_224);
    assert_eq!(get_hasher("md5").unwrap(), HashAlgorithm::Md5);
    assert_eq!(get_checksum_algo("xxh3").unwrap(), ChecksumAlgorithm::Xxh3);
}

#[test]
fn crc32_check_value() {
    assert_eq!(checksums("123456789", "crc32").unwrap(), 0xCBF43926);
}

#[test]
fn adler32_of_wikipedia() {
    assert_eq!(checksums("Wikipedia", "adler32").unwrap(), 0x11E60398);
}

#[test]
fn xxh3_of_empty() {
    assert_eq!(checksums("", "xxh3").unwrap(), 0x2D06800538D394C2);
}

#[test]
fn checksum_of_several_contents() {
    let parts = vec!["1234".to_string(), "56789".to_string()];
    assert_eq!(checksum(&parts, "crc32").unwrap(), 0xCBF43926);
}

#[test]
fn unknown_checksum_algorithm() {
    let e = checksums("x", "crc64").unwrap_err();
    assert_eq!(e.message(), "Unknown checksum algorithm: crc64");
}

#[test]
fn hex_digest_has_two_digits_per_byte() {
    let cases = [
        ("md5", 32),
        ("sha224", 56),
        ("sha256", 64),
        ("sha384", 96),
        ("sha512", 128),
        ("sha512-224", 56),
        ("sha512-256", 64),
        ("sha3-224", 56),
        ("sha3-256", 64),
        ("sha3-384", 96),
        ("sha3-512", 128),
    ];
    for (format, len) in cases {
        let h = hash_str("some text", format).unwrap();
        assert_eq!(h.len(), len, "{format}");
        assert!(h.chars().all(|c| c.is_ascii_digit() || ('a'..='f').contains(&c)));
    }
}
