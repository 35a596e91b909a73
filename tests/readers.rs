use async_compression::futures::bufread::{
    BzDecoder, BzEncoder, GzipDecoder, GzipEncoder, LzmaDecoder, LzmaEncoder, XzDecoder,
    XzEncoder,
};
use futures::io::AsyncReadExt;
use tugger_io::{
    Compression, ContentDigest, ContentValidatingReader, DigestingReader, MultiDigester,
    ValidationError,
};

fn sha256(data: &[u8]) -> ContentDigest {
    let mut d = MultiDigester::new();
    d.update(data);
    d.finish().sha256
}

/// Feeds each chunk to a fresh reader, then an empty chunk for the end of
/// the stream, and returns the result of every pull.
fn pull_all(chunks: &[&[u8]], size: usize, digest: ContentDigest) -> Vec<Result<(), ValidationError>> {
    let mut reader = ContentValidatingReader::new((), size, digest);
    let mut out = Vec::new();
    for c in chunks {
        out.push(reader.observe(c));
    }
    out.push(reader.observe(&[]));
    out
}

#[test]
fn exact_content_validates() {
    let data = b"hello world";
    let results = pull_all(&[&data[..4], &data[4..], b""], 11, sha256(data));
    assert!(results.iter().all(|r| r.is_ok()));
}

#[test]
fn exact_content_validates_single_chunk() {
    let data = b"hello world";
    let mut reader = ContentValidatingReader::new(0u8, 11, sha256(data));
    assert!(reader.observe(data).is_ok());
    assert_eq!(reader.expected_size(), 11);
    assert_eq!(reader.expected_digest(), &sha256(data));
    *reader.source_mut() = 5;
    assert_eq!(*reader.source_mut(), 5);
}

#[test]
fn mismatch_fails_on_final_pull() {
    let data = b"hello world";
    let results = pull_all(&[&data[..3], &data[3..7], &data[7..]], 11, sha256(b"hello there"));
    assert!(results[0].is_ok());
    assert!(results[1].is_ok());
    match &results[2] {
        Err(ValidationError::DigestMismatch { expected_digest, actual_digest }) => {
            assert_eq!(expected_digest, &sha256(b"hello there").digest_bytes().to_vec());
            assert_eq!(actual_digest, &sha256(data).digest_bytes().to_vec());
        }
        other => panic!("unexpected result {:?}", other),
    }
    // The failure is sticky.
    assert!(matches!(results[3], Err(ValidationError::DigestMismatch { .. })));
}

#[test]
fn excess_bytes_fail_when_exceeded() {
    let data = b"hello world!";
    let results = pull_all(&[&data[..6], &data[6..]], 11, sha256(b"hello world"));
    assert!(results[0].is_ok());
    assert!(matches!(
        results[1],
        Err(ValidationError::ExcessBytes { expected_size: 11, actual_size: 12 })
    ));
    assert!(matches!(
        results[2],
        Err(ValidationError::ExcessBytes { expected_size: 11, actual_size: 12 })
    ));
}

#[test]
fn excess_byte_after_validation_fails() {
    let results = pull_all(&[b"hello world", b"!"], 11, sha256(b"hello world"));
    assert!(results[0].is_ok());
    assert!(matches!(
        results[1],
        Err(ValidationError::ExcessBytes { expected_size: 11, actual_size: 12 })
    ));
}

#[test]
fn short_source_is_not_flagged() {
    let results = pull_all(&[b"hello", b" worl"], 11, sha256(b"something else"));
    assert!(results.iter().all(|r| r.is_ok()));
}

#[test]
fn empty_content_validates_at_end_of_stream() {
    assert!(pull_all(&[], 0, sha256(b"")).iter().all(|r| r.is_ok()));
    assert!(matches!(
        pull_all(&[], 0, sha256(b"x"))[0],
        Err(ValidationError::DigestMismatch { .. })
    ));
}

#[test]
fn digesting_reader_accumulates() {
    let mut reader = DigestingReader::new(vec![1u8]);
    reader.observe(b"hello");
    reader.observe(b"");
    reader.observe(b" world");
    reader.source_mut().push(2);
    let (source, digests) = reader.finish();
    assert_eq!(source, vec![1, 2]);
    assert_eq!(digests.md5.digest_hex(), "5eb63bbbe01eeed093cb22bb8f5acdc3");
    assert_eq!(digests.sha256, sha256(b"hello world"));
}

#[test]
fn digesting_reader_finished_early() {
    let reader = DigestingReader::new(());
    let (_, digests) = reader.finish();
    assert_eq!(digests.md5.digest_hex(), "d41d8cd98f00b204e9800998ecf8427e");
}

fn compress(mut data: &[u8], compression: Compression) -> Vec<u8> {
    let mut out = Vec::new();
    futures::executor::block_on(async {
        match compression {
            Compression::Uncompressed => data.read_to_end(&mut out).await,
            Compression::Gzip => GzipEncoder::new(data).read_to_end(&mut out).await,
            Compression::Xz => XzEncoder::new(data).read_to_end(&mut out).await,
            Compression::Bzip2 => BzEncoder::new(data).read_to_end(&mut out).await,
            Compression::Lzma => LzmaEncoder::new(data).read_to_end(&mut out).await,
        }
    })
    .unwrap();
    out
}

fn decompress(mut data: &[u8], compression: Compression) -> Vec<u8> {
    let mut out = Vec::new();
    futures::executor::block_on(async {
        match compression {
            Compression::Uncompressed => data.read_to_end(&mut out).await,
            Compression::Gzip => GzipDecoder::new(data).read_to_end(&mut out).await,
            Compression::Xz => XzDecoder::new(data).read_to_end(&mut out).await,
            Compression::Bzip2 => BzDecoder::new(data).read_to_end(&mut out).await,
            Compression::Lzma => LzmaDecoder::new(data).read_to_end(&mut out).await,
        }
    })
    .unwrap();
    out
}

#[test]
fn compression_round_trips() {
    let data: Vec<u8> = (0..5000u32).map(|i| (i * 7 % 251) as u8).collect();
    for c in Compression::default_preferred_order() {
        let packed = compress(&data, c);
        assert_eq!(decompress(&packed, c), data);
    }
    assert_eq!(compress(&data, Compression::Uncompressed), data);
}

#[test]
fn verification_covers_compressed_bytes() {
    let content = b"hello world hello world hello world".to_vec();
    let stored = compress(&content, Compression::Gzip);
    assert_ne!(sha256(&stored), sha256(&content));

    let mut reader = ContentValidatingReader::new((), stored.len(), sha256(&stored));
    assert!(reader.observe(&stored).is_ok());
    assert_eq!(decompress(&stored, Compression::Gzip), content);

    let mut wrong = ContentValidatingReader::new((), stored.len(), sha256(&content));
    assert!(matches!(
        wrong.observe(&stored),
        Err(ValidationError::DigestMismatch { .. })
    ));
}
