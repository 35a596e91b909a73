use vstd::prelude::*;
use crate::digest::ContentDigest;
use crate::hashes::{bytes_equal, digest_of, HashState};

verus! {

/// An integrity failure found by a [ContentValidatingReader].
#[derive(Debug)]
pub enum ValidationError {
    /// The content reached the expected size but its digest differs.
    DigestMismatch { expected_digest: Vec<u8>, actual_digest: Vec<u8> },
    /// The source produced more bytes than expected; `actual_size` saturates.
    ExcessBytes { expected_size: usize, actual_size: usize },
}

/// Where a validating reader stands.
pub enum Phase {
    /// Fewer bytes than expected have been delivered, or none was checked yet.
    Reading,
    /// Exactly the expected bytes were delivered and their digest matched.
    Validated,
    /// Exactly the expected bytes were delivered and their digest was `actual`.
    Mismatch { actual: Seq<u8> },
    /// `seen` bytes were delivered, more than expected.
    Excess { seen: nat },
}

/// A phase that every further pull reports as an error.
pub open spec fn is_failure(p: Phase) -> bool {
    p is Mismatch || p is Excess
}

/// The phase after the source hands over `chunk`, given the phase before
/// and the bytes delivered before it.
pub open spec fn next_phase(
    p: Phase,
    delivered: Seq<u8>,
    chunk: Seq<u8>,
    expected_size: nat,
    expected: ContentDigest,
) -> Phase {
    let d = delivered + chunk;
    match p {
        Phase::Reading => {
            if d.len() < expected_size {
                Phase::Reading
            } else if d.len() == expected_size {
                if digest_of(expected.kind(), d) == expected.bytes() {
                    Phase::Validated
                } else {
                    Phase::Mismatch { actual: digest_of(expected.kind(), d) }
                }
            } else {
                Phase::Excess { seen: d.len() }
            }
        },
        Phase::Validated => {
            if d.len() <= expected_size {
                Phase::Validated
            } else {
                Phase::Excess { seen: d.len() }
            }
        },
        _ => p,
    }
}

/// `n` where it fits in a `usize`, else `usize::MAX`.
pub open spec fn saturated(n: nat) -> usize {
    if n <= usize::MAX {
        n as usize
    } else {
        usize::MAX
    }
}

impl ValidationError {
    /// This error reports failure phase `p` of a reader that expected
    /// `expected_size` bytes with digest `expected`.
    pub open spec fn reports(&self, p: Phase, expected_size: usize, expected: ContentDigest) -> bool {
        match self {
            ValidationError::DigestMismatch { expected_digest: e, actual_digest: a } => {
                &&& p == Phase::Mismatch { actual: a@ }
                &&& e@ == expected.bytes()
            },
            ValidationError::ExcessBytes { expected_size: e, actual_size: a } => {
                &&& p is Excess
                &&& *e == expected_size
                &&& *a == saturated(p->seen)
            },
        }
    }

    /// Same variant, same field values.
    pub open spec fn same_as(&self, other: ValidationError) -> bool {
        match (self, other) {
            (
                ValidationError::DigestMismatch { expected_digest: a, actual_digest: b },
                ValidationError::DigestMismatch { expected_digest: c, actual_digest: d },
            ) => a@ == c@ && b@ == d@,
            (
                ValidationError::ExcessBytes { expected_size: a, actual_size: b },
                ValidationError::ExcessBytes { expected_size: c, actual_size: d },
            ) => *a == c && *b == d,
            _ => false,
        }
    }

    /// A copy of this error.
    pub fn duplicate(&self) -> (r: ValidationError)
        ensures
            r.same_as(*self),
    {
        match self {
            ValidationError::DigestMismatch { expected_digest, actual_digest } => {
                ValidationError::DigestMismatch {
                    expected_digest: vstd::slice::slice_to_vec(expected_digest.as_slice()),
                    actual_digest: vstd::slice::slice_to_vec(actual_digest.as_slice()),
                }
            },
            ValidationError::ExcessBytes { expected_size, actual_size } => {
                ValidationError::ExcessBytes {
                    expected_size: *expected_size,
                    actual_size: *actual_size,
                }
            },
        }
    }
}

/// A reader adapter that hashes the bytes its source produces and checks
/// size and digest once exactly the expected number of bytes has passed.
///
/// A source that ends early is never checked: callers must drain the
/// reader, or treat an early end as a failure.
pub struct ContentValidatingReader<R> {
    hasher: Option<HashState>,
    expected_size: usize,
    expected_digest: ContentDigest,
    source: R,
    bytes_read: usize,
    failure: Option<ValidationError>,
    delivered: Ghost<Seq<u8>>,
    phase: Ghost<Phase>,
}

impl<R> ContentValidatingReader<R> {
    /// The number of bytes the source is expected to produce.
    pub closed spec fn expected_size_spec(&self) -> usize {
        self.expected_size
    }

    /// The digest the content is expected to have.
    pub closed spec fn expected_digest_spec(&self) -> ContentDigest {
        self.expected_digest
    }

    /// Every byte the source has produced through this reader, in order.
    pub closed spec fn delivered(&self) -> Seq<u8> {
        self.delivered@
    }

    /// Where the reader stands.
    pub closed spec fn phase(&self) -> Phase {
        self.phase@
    }

    /// The wrapped source.
    pub closed spec fn source_spec(&self) -> R {
        self.source
    }

    /// The reader's fields agree with its phase.
    pub closed spec fn wf(&self) -> bool {
        match self.phase@ {
            Phase::Reading => {
                &&& self.hasher is Some
                &&& self.hasher->Some_0.kind() == self.expected_digest.kind()
                &&& self.hasher->Some_0.absorbed() == self.delivered@
                &&& self.bytes_read as nat == self.delivered@.len()
                &&& self.bytes_read <= self.expected_size
                &&& self.failure is None
            },
            Phase::Validated => {
                &&& self.hasher is None
                &&& self.bytes_read as nat == self.delivered@.len()
                &&& self.bytes_read == self.expected_size
                &&& self.failure is None
            },
            _ => {
                &&& self.failure is Some
                &&& self.failure->Some_0.reports(
                    self.phase@,
                    self.expected_size,
                    self.expected_digest,
                )
            },
        }
    }

    /// Bind a source to the size and digest its content must have.
    pub fn new(source: R, expected_size: usize, expected_digest: ContentDigest) -> (r: Self)
        ensures
            r.wf(),
            r.expected_size_spec() == expected_size,
            r.expected_digest_spec() == expected_digest,
            r.delivered() == Seq::<u8>::empty(),
            r.phase() == Phase::Reading,
            r.source_spec() == source,
    {
        ContentValidatingReader {
            hasher: Some(expected_digest.new_hasher()),
            expected_size,
            expected_digest,
            source,
            bytes_read: 0,
            failure: None,
            delivered: Ghost(Seq::empty()),
            phase: Ghost(Phase::Reading),
        }
    }

    /// Account for the bytes of one successful pull from the source (an
    /// empty chunk stands for the end of the stream).
    ///
    /// `Ok` means the chunk may be handed to the caller; an error replaces
    /// it. Once an error was returned, every later call returns it again.
    pub fn observe(&mut self, chunk: &[u8]) -> (r: Result<(), ValidationError>)
        requires
            old(self).wf(),
        ensures
            final(self).wf(),
            final(self).expected_size_spec() == old(self).expected_size_spec(),
            final(self).expected_digest_spec() == old(self).expected_digest_spec(),
            final(self).source_spec() == old(self).source_spec(),
            final(self).delivered() == old(self).delivered() + chunk@,
            final(self).phase() == next_phase(
                old(self).phase(),
                old(self).delivered(),
                chunk@,
                old(self).expected_size_spec() as nat,
                old(self).expected_digest_spec(),
            ),
            r is Ok <==> !is_failure(final(self).phase()),
            r is Err ==> r->Err_0.reports(
                final(self).phase(),
                final(self).expected_size_spec(),
                final(self).expected_digest_spec(),
            ),
    {
        let ghost before = self.delivered@;
        self.delivered = Ghost(self.delivered@ + chunk@);
        if let Some(e) = &self.failure {
            let dup = e.duplicate();
            return Err(dup);
        }
        let remaining = self.expected_size - self.bytes_read;
        if chunk.len() > remaining {
            let actual = if chunk.len() > usize::MAX - self.bytes_read {
                usize::MAX
            } else {
                self.bytes_read + chunk.len()
            };
            let e = ValidationError::ExcessBytes { expected_size: self.expected_size, actual_size: actual };
            self.phase = Ghost(Phase::Excess { seen: self.delivered@.len() });
            self.hasher = None;
            self.failure = Some(ValidationError::ExcessBytes {
                expected_size: self.expected_size,
                actual_size: actual,
            });
            return Err(e);
        }
        let taken = self.hasher.take();
        match taken {
            None => {
                assert(self.phase@ is Validated);
                assert((before + chunk@).len() == before.len());
                Ok(())
            },
            Some(mut h) => {
                h.update(chunk);
                self.bytes_read = self.bytes_read + chunk.len();
                if self.bytes_read < self.expected_size {
                    self.hasher = Some(h);
                    Ok(())
                } else {
                    let got = h.finish();
                    if bytes_equal(got.as_slice(), self.expected_digest.digest_bytes()) {
                        self.phase = Ghost(Phase::Validated);
                        Ok(())
                    } else {
                        self.phase = Ghost(Phase::Mismatch { actual: got@ });
                        let expected = vstd::slice::slice_to_vec(
                            self.expected_digest.digest_bytes(),
                        );
                        self.failure = Some(ValidationError::DigestMismatch {
                            expected_digest: vstd::slice::slice_to_vec(expected.as_slice()),
                            actual_digest: vstd::slice::slice_to_vec(got.as_slice()),
                        });
                        Err(ValidationError::DigestMismatch {
                            expected_digest: expected,
                            actual_digest: got,
                        })
                    }
                }
            },
        }
    }

    /// The number of bytes the source is expected to produce.
    pub fn expected_size(&self) -> (r: usize)
        ensures
            r == self.expected_size_spec(),
    {
        self.expected_size
    }

    /// The digest the content is expected to have.
    pub fn expected_digest(&self) -> (r: &ContentDigest)
        ensures
            *r == self.expected_digest_spec(),
    {
        &self.expected_digest
    }

    /// Mutable access to the wrapped source, to pull the next chunk from it.
    pub fn source_mut(&mut self) -> (r: &mut R)
        ensures
            *r == old(self).source_spec(),
            final(self).source_spec() == *final(r),
            final(self).wf() == old(self).wf(),
            final(self).expected_size_spec() == old(self).expected_size_spec(),
            final(self).expected_digest_spec() == old(self).expected_digest_spec(),
            final(self).delivered() == old(self).delivered(),
            final(self).phase() == old(self).phase(),
    {
        &mut self.source
    }
}

} // verus!
