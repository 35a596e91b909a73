use vstd::prelude::*;
use md5::Md5;
use sha1::Sha1;
use sha2::Sha256;

verus! {

/// The digest algorithms that repository metadata names.
#[derive(Clone, Copy, Debug, PartialEq, Eq, Structural, Hash)]
pub enum ChecksumType {
    Md5,
    Sha1,
    Sha256,
}

/// The MD5 digest of a byte sequence.
pub uninterp spec fn md5_of(data: Seq<u8>) -> Seq<u8>;

/// The SHA-1 digest of a byte sequence.
pub uninterp spec fn sha1_of(data: Seq<u8>) -> Seq<u8>;

/// The SHA-256 digest of a byte sequence.
pub uninterp spec fn sha256_of(data: Seq<u8>) -> Seq<u8>;

/// The bytes that a live MD5 state has absorbed so far.
pub uninterp spec fn md5_absorbed(h: Md5) -> Seq<u8>;

/// The bytes that a live SHA-1 state has absorbed so far.
pub uninterp spec fn sha1_absorbed(h: Sha1) -> Seq<u8>;

/// The bytes that a live SHA-256 state has absorbed so far.
pub uninterp spec fn sha256_absorbed(h: Sha256) -> Seq<u8>;

/// The digest of `data` under algorithm `kind`.
pub open spec fn digest_of(kind: ChecksumType, data: Seq<u8>) -> Seq<u8> {
    match kind {
        ChecksumType::Md5 => md5_of(data),
        ChecksumType::Sha1 => sha1_of(data),
        ChecksumType::Sha256 => sha256_of(data),
    }
}

/// The length in bytes of a digest of each algorithm.
pub open spec fn digest_len(kind: ChecksumType) -> nat {
    match kind {
        ChecksumType::Md5 => 16,
        ChecksumType::Sha1 => 20,
        ChecksumType::Sha256 => 32,
    }
}

#[verifier::external_type_specification]
#[verifier::external_body]
pub struct ExMd5(Md5);

#[verifier::external_type_specification]
#[verifier::external_body]
pub struct ExSha1(Sha1);

#[verifier::external_type_specification]
#[verifier::external_body]
pub struct ExSha256(Sha256);

/// Relies on `Digest::new` for `md5::Md5`: a fresh state has absorbed nothing.
#[verifier::external_body]
pub(crate) fn md5_new() -> (r: Md5)
    ensures
        md5_absorbed(r) == Seq::<u8>::empty(),
{
    <Md5 as md5::Digest>::new()
}

/// Relies on `Digest::update` for `md5::Md5`: the data is appended to what
/// the state has absorbed.
#[verifier::external_body]
pub(crate) fn md5_update(h: &mut Md5, data: &[u8])
    ensures
        md5_absorbed(*final(h)) == md5_absorbed(*old(h)) + data@,
{
    md5::Digest::update(h, data)
}

/// Relies on `Digest::finalize` for `md5::Md5`: the MD5 digest, 16 bytes,
/// of everything absorbed.
#[verifier::external_body]
pub(crate) fn md5_finish(h: Md5) -> (r: Vec<u8>)
    ensures
        r@ == md5_of(md5_absorbed(h)),
        r@.len() == 16,
{
    md5::Digest::finalize(h).to_vec()
}

/// Relies on `Digest::new` for `sha1::Sha1`: a fresh state has absorbed nothing.
#[verifier::external_body]
pub(crate) fn sha1_new() -> (r: Sha1)
    ensures
        sha1_absorbed(r) == Seq::<u8>::empty(),
{
    <Sha1 as sha1::Digest>::new()
}

/// Relies on `Digest::update` for `sha1::Sha1`: the data is appended to what
/// the state has absorbed.
#[verifier::external_body]
pub(crate) fn sha1_update(h: &mut Sha1, data: &[u8])
    ensures
        sha1_absorbed(*final(h)) == sha1_absorbed(*old(h)) + data@,
{
    sha1::Digest::update(h, data)
}

/// Relies on `Digest::finalize` for `sha1::Sha1`: the SHA-1 digest, 20 bytes,
/// of everything absorbed.
#[verifier::external_body]
pub(crate) fn sha1_finish(h: Sha1) -> (r: Vec<u8>)
    ensures
        r@ == sha1_of(sha1_absorbed(h)),
        r@.len() == 20,
{
    sha1::Digest::finalize(h).to_vec()
}

/// Relies on `Digest::new` for `sha2::Sha256`: a fresh state has absorbed nothing.
#[verifier::external_body]
pub(crate) fn sha256_new() -> (r: Sha256)
    ensures
        sha256_absorbed(r) == Seq::<u8>::empty(),
{
    <Sha256 as sha2::Digest>::new()
}

/// Relies on `Digest::update` for `sha2::Sha256`: the data is appended to
/// what the state has absorbed.
#[verifier::external_body]
pub(crate) fn sha256_update(h: &mut Sha256, data: &[u8])
    ensures
        sha256_absorbed(*final(h)) == sha256_absorbed(*old(h)) + data@,
{
    sha2::Digest::update(h, data)
}

/// Relies on `Digest::finalize` for `sha2::Sha256`: the SHA-256 digest,
/// 32 bytes, of everything absorbed.
#[verifier::external_body]
pub(crate) fn sha256_finish(h: Sha256) -> (r: Vec<u8>)
    ensures
        r@ == sha256_of(sha256_absorbed(h)),
        r@.len() == 32,
{
    sha2::Digest::finalize(h).to_vec()
}

/// A live hash state of one algorithm, chosen by a closed match on the kind.
pub enum HashState {
    Md5(Md5),
    Sha1(Sha1),
    Sha256(Sha256),
}

impl HashState {
    /// The algorithm of this state.
    pub open spec fn kind(&self) -> ChecksumType {
        match self {
            HashState::Md5(_) => ChecksumType::Md5,
            HashState::Sha1(_) => ChecksumType::Sha1,
            HashState::Sha256(_) => ChecksumType::Sha256,
        }
    }

    /// The bytes fed to this state so far, in order.
    pub open spec fn absorbed(&self) -> Seq<u8> {
        match self {
            HashState::Md5(h) => md5_absorbed(*h),
            HashState::Sha1(h) => sha1_absorbed(*h),
            HashState::Sha256(h) => sha256_absorbed(*h),
        }
    }

    /// A fresh state of the given algorithm.
    pub fn new(kind: ChecksumType) -> (r: HashState)
        ensures
            r.kind() == kind,
            r.absorbed() == Seq::<u8>::empty(),
    {
        match kind {
            ChecksumType::Md5 => HashState::Md5(md5_new()),
            ChecksumType::Sha1 => HashState::Sha1(sha1_new()),
            ChecksumType::Sha256 => HashState::Sha256(sha256_new()),
        }
    }

    /// Feed bytes into the state.
    pub fn update(&mut self, data: &[u8])
        ensures
            final(self).kind() == old(self).kind(),
            final(self).absorbed() == old(self).absorbed() + data@,
    {
        match self {
            HashState::Md5(h) => md5_update(h, data),
            HashState::Sha1(h) => sha1_update(h, data),
            HashState::Sha256(h) => sha256_update(h, data),
        }
    }

    /// Consume the state and return the digest of everything it absorbed.
    pub fn finish(self) -> (r: Vec<u8>)
        ensures
            r@ == digest_of(self.kind(), self.absorbed()),
            r@.len() == digest_len(self.kind()),
    {
        match self {
            HashState::Md5(h) => md5_finish(h),
            HashState::Sha1(h) => sha1_finish(h),
            HashState::Sha256(h) => sha256_finish(h),
        }
    }
}

/// Whether two byte slices hold the same bytes.
pub fn bytes_equal(a: &[u8], b: &[u8]) -> (r: bool)
    ensures
        r == (a@ == b@),
{
    if a.len() != b.len() {
        return false;
    }
    let mut i: usize = 0;
    while i < a.len()
        invariant
            a@.len() == b@.len(),
            0 <= i <= a@.len(),
            forall|j: int| 0 <= j < i ==> a@[j] == b@[j],
        decreases a@.len() - i,
    {
        if a[i] != b[i] {
            return false;
        }
        i = i + 1;
    }
    assert(a@ =~= b@);
    true
}

} // verus!
