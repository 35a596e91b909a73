use vstd::prelude::*;
use crate::digest::{MultiContentDigest, MultiDigester};

verus! {

/// A reader adapter that computes MD5, SHA-1 and SHA-256 over every byte its
/// source produces. It never fails on its own account.
pub struct DigestingReader<R> {
    digester: MultiDigester,
    source: R,
}

impl<R> DigestingReader<R> {
    /// Every byte the source has produced through this reader, in order.
    pub closed spec fn absorbed(&self) -> Seq<u8> {
        self.digester.absorbed()
    }

    /// The wrapped source.
    pub closed spec fn source_spec(&self) -> R {
        self.source
    }

    /// The digester is consistent.
    pub closed spec fn wf(&self) -> bool {
        self.digester.wf()
    }

    /// Wrap a source; nothing has been read yet.
    pub fn new(source: R) -> (r: Self)
        ensures
            r.wf(),
            r.absorbed() == Seq::<u8>::empty(),
            r.source_spec() == source,
    {
        DigestingReader { digester: MultiDigester::new(), source }
    }

    /// Account for the bytes of one successful pull from the source.
    pub fn observe(&mut self, chunk: &[u8])
        requires
            old(self).wf(),
        ensures
            final(self).wf(),
            final(self).absorbed() == old(self).absorbed() + chunk@,
            final(self).source_spec() == old(self).source_spec(),
    {
        if chunk.len() > 0 {
            self.digester.update(chunk);
        } else {
            assert(chunk@ =~= Seq::<u8>::empty());
            assert(self.absorbed() + chunk@ =~= self.absorbed());
        }
    }

    /// Mutable access to the wrapped source, to pull the next chunk from it.
    pub fn source_mut(&mut self) -> (r: &mut R)
        ensures
            *r == old(self).source_spec(),
            final(self).source_spec() == *final(r),
            final(self).wf() == old(self).wf(),
            final(self).absorbed() == old(self).absorbed(),
    {
        &mut self.source
    }

    /// Stop reading: hand back the source and the digests of everything read.
    pub fn finish(self) -> (r: (R, MultiContentDigest))
        requires
            self.wf(),
        ensures
            r.0 == self.source_spec(),
            r.1.digests_of(self.absorbed()),
    {
        (self.source, self.digester.finish())
    }
}

} // verus!
