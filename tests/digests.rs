use tugger_io::{
    ChecksumType, Compression, ContentDigest, DigestParseError, MultiDigester, HashState,
};

const MD5_HELLO: &str = "5eb63bbbe01eeed093cb22bb8f5acdc3";
const SHA1_HELLO: &str = "2aae6c35c94fcfb415dbe95f408b9ce91ee846ed";
const SHA256_HELLO: &str = "b94d27b9934d3e08a52e52d7da7dabfac484efe37a5380ee9088f7ace2efcde9";

#[test]
fn multi_digester_hello_world() {
    let mut digester = MultiDigester::new();
    digester.update(b"hello world");
    let digests = digester.finish();
    assert_eq!(digests.md5.digest_hex(), MD5_HELLO);
    assert_eq!(digests.sha1.digest_hex(), SHA1_HELLO);
    assert_eq!(digests.sha256.digest_hex(), SHA256_HELLO);
    assert!(digests
        .sha256
        .digest_hex()
        .starts_with("b94d27b9934d3e08a52e52d7da7dabfac484efe37a5380ee9088f7ace2efcde"));
}

#[test]
fn multi_digester_split_updates_agree() {
    let mut whole = MultiDigester::default();
    whole.update(b"hello world");
    let mut split = MultiDigester::default();
    split.update(b"hello");
    split.update(b"");
    split.update(b" world");
    let a = whole.finish();
    let b = split.finish();
    assert_eq!(a.md5, b.md5);
    assert_eq!(a.sha1, b.sha1);
    assert_eq!(a.sha256, b.sha256);
}

#[test]
fn matches_digest_dispatches_on_kind() {
    let mut digester = MultiDigester::new();
    digester.update(b"hello world");
    let digests = digester.finish();
    let md5 = ContentDigest::from_hex_checksum(ChecksumType::Md5, MD5_HELLO).unwrap();
    let sha1 = ContentDigest::from_hex_checksum(ChecksumType::Sha1, SHA1_HELLO).unwrap();
    let sha256 = ContentDigest::from_hex_checksum(ChecksumType::Sha256, SHA256_HELLO).unwrap();
    assert!(digests.matches_digest(&md5));
    assert!(digests.matches_digest(&sha1));
    assert!(digests.matches_digest(&sha256));
    let other = ContentDigest::from_hex_checksum(ChecksumType::Md5, "00000000000000000000000000000000")
        .unwrap();
    assert!(!digests.matches_digest(&other));
}

#[test]
fn digests_of_different_kinds_never_equal() {
    let a = ContentDigest::Md5(vec![1, 2, 3]);
    let b = ContentDigest::Sha1(vec![1, 2, 3]);
    assert_ne!(a, b);
    assert_eq!(a, ContentDigest::Md5(vec![1, 2, 3]));
    assert_ne!(a, ContentDigest::Md5(vec![1, 2]));
}

#[test]
fn from_hex_checksum_accepts_both_cases() {
    let d = ContentDigest::from_hex_checksum(ChecksumType::Md5, "5EB63BBBE01EEED093CB22BB8F5ACDC3")
        .unwrap();
    assert_eq!(d.digest_hex(), MD5_HELLO);
    assert_eq!(d.digest_bytes()[0], 0x5e);
    assert_eq!(d.digest_bytes().len(), 16);
    assert!(matches!(d, ContentDigest::Md5(_)));
}

#[test]
fn from_hex_checksum_rejects_bad_hex() {
    assert_eq!(
        ContentDigest::from_hex_checksum(ChecksumType::Md5, "5eb"),
        Err(DigestParseError::InvalidHex)
    );
    assert_eq!(
        ContentDigest::from_hex_checksum(ChecksumType::Md5, "5eb63bbbe01eeed093cb22bb8f5acdcg"),
        Err(DigestParseError::InvalidHex)
    );
}

#[test]
fn from_hex_checksum_rejects_wrong_length() {
    assert_eq!(
        ContentDigest::from_hex_checksum(ChecksumType::Sha256, MD5_HELLO),
        Err(DigestParseError::InvalidLength { expected: 32, actual: 16 })
    );
    assert_eq!(
        ContentDigest::from_hex_checksum(ChecksumType::Sha1, ""),
        Err(DigestParseError::InvalidLength { expected: 20, actual: 0 })
    );
}

#[test]
fn digest_hex_encodes_bytes() {
    let d = ContentDigest::Sha1(vec![0x00, 0x0f, 0xa0, 0xff]);
    assert_eq!(d.digest_hex(), "000fa0ff");
}

#[test]
fn hash_state_matches_multi_digester() {
    let d = ContentDigest::from_hex_checksum(ChecksumType::Sha1, SHA1_HELLO).unwrap();
    let mut h: HashState = d.new_hasher();
    h.update(b"hello ");
    h.update(b"world");
    assert_eq!(h.finish(), d.digest_bytes().to_vec());
}

#[test]
fn compression_extensions() {
    assert_eq!(Compression::Uncompressed.extension(), "");
    assert_eq!(Compression::Xz.extension(), ".xz");
    assert_eq!(Compression::Gzip.extension(), ".gz");
    assert_eq!(Compression::Bzip2.extension(), ".bz2");
    assert_eq!(Compression::Lzma.extension(), ".lzma");
}

#[test]
fn compression_preferred_order() {
    assert_eq!(
        Compression::default_preferred_order(),
        vec![
            Compression::Xz,
            Compression::Lzma,
            Compression::Gzip,
            Compression::Bzip2,
            Compression::Uncompressed,
        ]
    );
}
