use vstd::prelude::*;
use crate::hashes::{
    bytes_equal, digest_len, digest_of, md5_absorbed, md5_of, sha1_absorbed, sha1_of,
    sha256_absorbed, sha256_of, ChecksumType, HashState,
};
use crate::hex_text::{decode_hex, encode_hex, hex_bytes, hex_text, is_hex_text};
use md5::Md5;
use sha1::Sha1;
use sha2::Sha256;

verus! {

/// A content digest: the algorithm and the raw digest bytes.
#[derive(Clone, Debug, Eq)]
pub enum ContentDigest {
    /// An MD5 digest.
    Md5(Vec<u8>),
    /// A SHA-1 digest.
    Sha1(Vec<u8>),
    /// A SHA-256 digest.
    Sha256(Vec<u8>),
}

/// Why a hex checksum could not be turned into a [ContentDigest].
#[derive(Clone, Copy, Debug, PartialEq, Eq, Structural)]
pub enum DigestParseError {
    /// The text is not an even number of hex digits.
    InvalidHex,
    /// The text decodes, but to the wrong number of bytes for the algorithm.
    InvalidLength { expected: usize, actual: usize },
}

impl ContentDigest {
    /// The algorithm of this digest.
    pub open spec fn kind(&self) -> ChecksumType {
        match self {
            ContentDigest::Md5(_) => ChecksumType::Md5,
            ContentDigest::Sha1(_) => ChecksumType::Sha1,
            ContentDigest::Sha256(_) => ChecksumType::Sha256,
        }
    }

    /// The digest bytes.
    pub open spec fn bytes(&self) -> Seq<u8> {
        match self {
            ContentDigest::Md5(b) => b@,
            ContentDigest::Sha1(b) => b@,
            ContentDigest::Sha256(b) => b@,
        }
    }

    /// The byte length suits the algorithm.
    pub open spec fn wf(&self) -> bool {
        self.bytes().len() == digest_len(self.kind())
    }

    /// Parse a hex string as a digest of the given algorithm.
    ///
    /// Fails on text that is not hex, and on a digest of the wrong length.
    pub fn from_hex_checksum(checksum: ChecksumType, digest: &str) -> (r: Result<
        ContentDigest,
        DigestParseError,
    >)
        ensures
            !is_hex_text(digest@) ==> r == Err::<ContentDigest, DigestParseError>(
                DigestParseError::InvalidHex,
            ),
            is_hex_text(digest@) && hex_bytes(digest@).len() != digest_len(checksum) ==> r
                == Err::<ContentDigest, DigestParseError>(
                DigestParseError::InvalidLength {
                    expected: digest_len(checksum) as usize,
                    actual: hex_bytes(digest@).len() as usize,
                },
            ),
            is_hex_text(digest@) && hex_bytes(digest@).len() == digest_len(checksum) ==> r is Ok
                && r->Ok_0.kind() == checksum && r->Ok_0.bytes() == hex_bytes(digest@),
            r is Ok ==> r->Ok_0.wf(),
    {
        let bytes = match decode_hex(digest) {
            Ok(b) => b,
            Err(_) => return Err(DigestParseError::InvalidHex),
        };
        let expected: usize = match checksum {
            ChecksumType::Md5 => 16,
            ChecksumType::Sha1 => 20,
            ChecksumType::Sha256 => 32,
        };
        if bytes.len() != expected {
            return Err(DigestParseError::InvalidLength { expected, actual: bytes.len() });
        }
        Ok(
            match checksum {
                ChecksumType::Md5 => ContentDigest::Md5(bytes),
                ChecksumType::Sha1 => ContentDigest::Sha1(bytes),
                ChecksumType::Sha256 => ContentDigest::Sha256(bytes),
            },
        )
    }

    /// Create a fresh hash state of this digest's algorithm.
    pub fn new_hasher(&self) -> (r: HashState)
        ensures
            r.kind() == self.kind(),
            r.absorbed() == Seq::<u8>::empty(),
    {
        match self {
            ContentDigest::Md5(_) => HashState::new(ChecksumType::Md5),
            ContentDigest::Sha1(_) => HashState::new(ChecksumType::Sha1),
            ContentDigest::Sha256(_) => HashState::new(ChecksumType::Sha256),
        }
    }

    /// The algorithm of this digest.
    pub fn checksum_type(&self) -> (r: ChecksumType)
        ensures
            r == self.kind(),
    {
        match self {
            ContentDigest::Md5(_) => ChecksumType::Md5,
            ContentDigest::Sha1(_) => ChecksumType::Sha1,
            ContentDigest::Sha256(_) => ChecksumType::Sha256,
        }
    }

    /// The digest bytes.
    pub fn digest_bytes(&self) -> (r: &[u8])
        ensures
            r@ == self.bytes(),
    {
        match self {
            ContentDigest::Md5(x) => x.as_slice(),
            ContentDigest::Sha1(x) => x.as_slice(),
            ContentDigest::Sha256(x) => x.as_slice(),
        }
    }

    /// The digest bytes as lower-case hex.
    pub fn digest_hex(&self) -> (r: String)
        ensures
            r@ == hex_text(self.bytes()),
    {
        encode_hex(self.digest_bytes())
    }
}

impl PartialEq for ContentDigest {
    /// Same algorithm and same bytes; digests of different algorithms never
    /// compare equal.
    fn eq(&self, other: &ContentDigest) -> (r: bool)
        ensures
            r == (self.kind() == other.kind() && self.bytes() == other.bytes()),
    {
        self.checksum_type() == other.checksum_type() && bytes_equal(
            self.digest_bytes(),
            other.digest_bytes(),
        )
    }
}

impl vstd::std_specs::cmp::PartialEqSpecImpl for ContentDigest {
    open spec fn obeys_eq_spec() -> bool {
        true
    }

    open spec fn eq_spec(&self, other: &ContentDigest) -> bool {
        self.kind() == other.kind() && self.bytes() == other.bytes()
    }
}

/// One digest of each algorithm, all over the same content.
pub struct MultiContentDigest {
    pub md5: ContentDigest,
    pub sha1: ContentDigest,
    pub sha256: ContentDigest,
}

impl MultiContentDigest {
    /// The bundled digest of the given algorithm.
    pub open spec fn slot(&self, kind: ChecksumType) -> ContentDigest {
        match kind {
            ChecksumType::Md5 => self.md5,
            ChecksumType::Sha1 => self.sha1,
            ChecksumType::Sha256 => self.sha256,
        }
    }

    /// Each digest is of the algorithm of its field, over `data`.
    pub open spec fn digests_of(&self, data: Seq<u8>) -> bool {
        &&& self.md5.kind() == ChecksumType::Md5 && self.md5.bytes() == md5_of(data)
        &&& self.sha1.kind() == ChecksumType::Sha1 && self.sha1.bytes() == sha1_of(data)
        &&& self.sha256.kind() == ChecksumType::Sha256 && self.sha256.bytes() == sha256_of(data)
    }

    /// Whether the bundled digest of `other`'s algorithm equals `other`.
    pub fn matches_digest(&self, other: &ContentDigest) -> (r: bool)
        ensures
            r == (self.slot(other.kind()).kind() == other.kind() && self.slot(
                other.kind(),
            ).bytes() == other.bytes()),
    {
        match other {
            ContentDigest::Md5(_) => self.md5.eq(other),
            ContentDigest::Sha1(_) => self.sha1.eq(other),
            ContentDigest::Sha256(_) => self.sha256.eq(other),
        }
    }
}

/// Computes MD5, SHA-1 and SHA-256 over one stream of bytes at once.
pub struct MultiDigester {
    md5: Md5,
    sha1: Sha1,
    sha256: Sha256,
}

impl MultiDigester {
    /// The bytes fed so far.
    pub closed spec fn absorbed(&self) -> Seq<u8> {
        md5_absorbed(self.md5)
    }

    /// All three states have absorbed the same bytes.
    pub closed spec fn wf(&self) -> bool {
        &&& sha1_absorbed(self.sha1) == md5_absorbed(self.md5)
        &&& sha256_absorbed(self.sha256) == md5_absorbed(self.md5)
    }

    /// A digester that has absorbed nothing.
    pub fn new() -> (r: MultiDigester)
        ensures
            r.wf(),
            r.absorbed() == Seq::<u8>::empty(),
    {
        MultiDigester {
            md5: crate::hashes::md5_new(),
            sha1: crate::hashes::sha1_new(),
            sha256: crate::hashes::sha256_new(),
        }
    }

    /// Feed the same bytes to every algorithm.
    pub fn update(&mut self, data: &[u8])
        requires
            old(self).wf(),
        ensures
            final(self).wf(),
            final(self).absorbed() == old(self).absorbed() + data@,
    {
        crate::hashes::md5_update(&mut self.md5, data);
        crate::hashes::sha1_update(&mut self.sha1, data);
        crate::hashes::sha256_update(&mut self.sha256, data);
    }

    /// Consume the digester and return the three digests of what it absorbed.
    pub fn finish(self) -> (r: MultiContentDigest)
        requires
            self.wf(),
        ensures
            r.digests_of(self.absorbed()),
            r.md5.wf() && r.sha1.wf() && r.sha256.wf(),
    {
        MultiContentDigest {
            md5: ContentDigest::Md5(crate::hashes::md5_finish(self.md5)),
            sha1: ContentDigest::Sha1(crate::hashes::sha1_finish(self.sha1)),
            sha256: ContentDigest::Sha256(crate::hashes::sha256_finish(self.sha256)),
        }
    }
}

impl Default for MultiDigester {
    fn default() -> (r: MultiDigester)
        ensures
            r.wf(),
            r.absorbed() == Seq::<u8>::empty(),
    {
        MultiDigester::new()
    }
}

} // verus!
