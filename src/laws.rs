use vstd::prelude::*;
use crate::digest::ContentDigest;
use crate::hashes::digest_of;
use crate::validating::{is_failure, next_phase, Phase};

verus! {

/// The bytes of all chunks, in order.
pub open spec fn joined(chunks: Seq<Seq<u8>>) -> Seq<u8>
    decreases chunks.len(),
{
    if chunks.len() == 0 {
        Seq::empty()
    } else {
        joined(chunks.drop_last()) + chunks.last()
    }
}

/// The phase of a fresh validating reader after its source produced
/// `chunks`, one per pull.
pub open spec fn phase_after(chunks: Seq<Seq<u8>>, expected_size: nat, expected: ContentDigest) -> Phase
    decreases chunks.len(),
{
    if chunks.len() == 0 {
        Phase::Reading
    } else {
        next_phase(
            phase_after(chunks.drop_last(), expected_size, expected),
            joined(chunks.drop_last()),
            chunks.last(),
            expected_size,
            expected,
        )
    }
}

/// One more pull moves the reader by one step of `next_phase`.
pub proof fn lemma_phase_after_push(
    chunks: Seq<Seq<u8>>,
    chunk: Seq<u8>,
    expected_size: nat,
    expected: ContentDigest,
)
    ensures
        joined(chunks.push(chunk)) == joined(chunks) + chunk,
        phase_after(chunks.push(chunk), expected_size, expected) == next_phase(
            phase_after(chunks, expected_size, expected),
            joined(chunks),
            chunk,
            expected_size,
            expected,
        ),
{
    assert(chunks.push(chunk).drop_last() =~= chunks);
}

/// The chunks before position `i` and those from `i` on join to all the bytes.
pub proof fn lemma_joined_split(chunks: Seq<Seq<u8>>, i: int)
    requires
        0 <= i <= chunks.len(),
    ensures
        joined(chunks) == joined(chunks.take(i)) + joined(chunks.subrange(i, chunks.len() as int)),
    decreases chunks.len(),
{
    if i == chunks.len() {
        assert(chunks.take(i) =~= chunks);
        assert(chunks.subrange(i, chunks.len() as int) =~= Seq::<Seq<u8>>::empty());
        assert(joined(chunks) + Seq::<u8>::empty() =~= joined(chunks));
    } else {
        let dl = chunks.drop_last();
        lemma_joined_split(dl, i);
        assert(dl.take(i) =~= chunks.take(i));
        let rest = chunks.subrange(i, chunks.len() as int);
        assert(rest.drop_last() =~= dl.subrange(i, dl.len() as int));
        assert(rest.last() == chunks.last());
        assert(joined(chunks) =~= joined(chunks.take(i)) + joined(rest));
    }
}

/// What a reader's phase is after any sequence of pulls, by the number of
/// bytes delivered: below the expected size it is still reading; at it, the
/// digest of those bytes decides; above it, it has failed.
pub proof fn lemma_phase_by_length(chunks: Seq<Seq<u8>>, expected_size: nat, expected: ContentDigest)
    ensures
        joined(chunks).len() < expected_size ==> phase_after(chunks, expected_size, expected)
            == Phase::Reading,
        joined(chunks).len() == expected_size && chunks.len() > 0 ==> phase_after(
            chunks,
            expected_size,
            expected,
        ) == (if digest_of(expected.kind(), joined(chunks)) == expected.bytes() {
            Phase::Validated
        } else {
            Phase::Mismatch { actual: digest_of(expected.kind(), joined(chunks)) }
        }),
        joined(chunks).len() > expected_size ==> is_failure(
            phase_after(chunks, expected_size, expected),
        ),
    decreases chunks.len(),
{
    if chunks.len() > 0 {
        let dl = chunks.drop_last();
        lemma_phase_by_length(dl, expected_size, expected);
        if dl.len() > 0 && joined(dl).len() == expected_size && chunks.last().len() == 0 {
            assert(joined(chunks) =~= joined(dl));
        }
    }
}

/// Content of exactly the expected size and digest is accepted at every
/// pull, and the reader ends validated.
pub proof fn law_exact_content_validates(
    chunks: Seq<Seq<u8>>,
    expected_size: nat,
    expected: ContentDigest,
)
    requires
        chunks.len() > 0,
        joined(chunks).len() == expected_size,
        digest_of(expected.kind(), joined(chunks)) == expected.bytes(),
    ensures
        phase_after(chunks, expected_size, expected) == Phase::Validated,
        forall|i: int|
            0 <= i <= chunks.len() ==> !is_failure(
                #[trigger] phase_after(chunks.take(i), expected_size, expected),
            ),
{
    lemma_phase_by_length(chunks, expected_size, expected);
    assert forall|i: int| 0 <= i <= chunks.len() implies !is_failure(
        #[trigger] phase_after(chunks.take(i), expected_size, expected),
    ) by {
        lemma_joined_split(chunks, i);
        lemma_phase_by_length(chunks.take(i), expected_size, expected);
        if joined(chunks.take(i)).len() == expected_size {
            assert(joined(chunks.take(i)) =~= joined(chunks));
        }
    }
}

/// Content of the expected size whose digest differs is accepted at every
/// pull before the last, and refused at the pull that brings the last byte.
pub proof fn law_mismatch_fails_at_last_byte(
    chunks: Seq<Seq<u8>>,
    expected_size: nat,
    expected: ContentDigest,
)
    requires
        chunks.len() > 0,
        chunks.last().len() > 0,
        joined(chunks).len() == expected_size,
        digest_of(expected.kind(), joined(chunks)) != expected.bytes(),
    ensures
        phase_after(chunks, expected_size, expected) == (Phase::Mismatch {
            actual: digest_of(expected.kind(), joined(chunks)),
        }),
        forall|i: int|
            0 <= i < chunks.len() ==> #[trigger] phase_after(
                chunks.take(i),
                expected_size,
                expected,
            ) == Phase::Reading,
{
    lemma_phase_by_length(chunks, expected_size, expected);
    assert forall|i: int| 0 <= i < chunks.len() implies #[trigger] phase_after(
        chunks.take(i),
        expected_size,
        expected,
    ) == Phase::Reading by {
        let dl = chunks.drop_last();
        lemma_joined_split(dl, i);
        assert(dl.take(i) =~= chunks.take(i));
        lemma_phase_by_length(chunks.take(i), expected_size, expected);
    }
}

/// When the source produces more than the expected size and the first
/// `expected_size` bytes have the expected digest, a pull fails exactly when
/// more than the expected size has been delivered.
pub proof fn law_excess_fails_once_exceeded(
    chunks: Seq<Seq<u8>>,
    expected_size: nat,
    expected: ContentDigest,
)
    requires
        joined(chunks).len() > expected_size,
        digest_of(expected.kind(), joined(chunks).take(expected_size as int)) == expected.bytes(),
    ensures
        forall|i: int|
            0 <= i <= chunks.len() ==> (is_failure(
                #[trigger] phase_after(chunks.take(i), expected_size, expected),
            ) <==> joined(chunks.take(i)).len() > expected_size),
{
    assert forall|i: int| 0 <= i <= chunks.len() implies (is_failure(
        #[trigger] phase_after(chunks.take(i), expected_size, expected),
    ) <==> joined(chunks.take(i)).len() > expected_size) by {
        lemma_joined_split(chunks, i);
        lemma_phase_by_length(chunks.take(i), expected_size, expected);
        if joined(chunks.take(i)).len() == expected_size {
            assert(joined(chunks.take(i)) =~= joined(chunks).take(expected_size as int));
            if i == 0 {
                assert(chunks.take(i).len() == 0);
            }
        }
    }
}

/// A source that ends before the expected size is never refused: no pull
/// fails and no digest is checked.
pub proof fn law_short_source_never_fails(
    chunks: Seq<Seq<u8>>,
    expected_size: nat,
    expected: ContentDigest,
)
    requires
        joined(chunks).len() < expected_size,
    ensures
        forall|i: int|
            0 <= i <= chunks.len() ==> #[trigger] phase_after(
                chunks.take(i),
                expected_size,
                expected,
            ) == Phase::Reading,
{
    assert forall|i: int| 0 <= i <= chunks.len() implies #[trigger] phase_after(
        chunks.take(i),
        expected_size,
        expected,
    ) == Phase::Reading by {
        lemma_joined_split(chunks, i);
        lemma_phase_by_length(chunks.take(i), expected_size, expected);
    }
}

} // verus!
