//! Content retrieval helpers for package repositories: content digests,
//! compression formats, and reader adapters that hash and validate bytes as
//! they stream through, without buffering whole objects.

mod compression;
mod digest;
mod digesting;
mod hashes;
mod hex_text;
mod laws;
mod validating;

pub use compression::{extension_text, preferred_order, Compression};
pub use digest::{ContentDigest, DigestParseError, MultiContentDigest, MultiDigester};
pub use digesting::DigestingReader;
pub use hashes::{
    bytes_equal, digest_len, digest_of, md5_absorbed, md5_of, sha1_absorbed, sha1_of,
    sha256_absorbed, sha256_of, ChecksumType, HashState,
};
pub use hex_text::{hex_bytes, hex_digit, hex_text, hex_value, is_hex_text};
pub use laws::{
    joined, law_exact_content_validates, law_excess_fails_once_exceeded,
    law_mismatch_fails_at_last_byte, law_short_source_never_fails, lemma_joined_split,
    lemma_phase_after_push, lemma_phase_by_length, phase_after,
};
pub use validating::{
    is_failure, next_phase, saturated, ContentValidatingReader, Phase, ValidationError,
};
