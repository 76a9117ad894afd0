//! Laws of the writer, proved from its invariant.
//!
//! Each law holds of every well-formed writer, in every state it can reach,
//! whatever the order in which the remote uploads finished, however often
//! any of them failed and was retried, and for every concurrency bound.

use vstd::prelude::*;

use crate::writer::parts_numbered;
use crate::writer::tasks_match_accepted;
use crate::writer::tasks_numbered;
use crate::writer::MultipartWriter;

verus! {

/// Ordering under concurrency: the completed parts always form the exact
/// list `0, 1, ..., n - 1`, in that order. In particular the part list that
/// a [`crate::writer::CloseStep::Complete`] step hands to the remote
/// completion call is gapless and ascending.
pub proof fn lemma_parts_ordered(w: MultipartWriter)
    requires
        w.wf(),
    ensures
        parts_numbered(w.parts_view()),
        forall|i: int|
            0 <= i < w.parts_view().len() ==> #[trigger] w.parts_view()[i].part_number == i,
{
}

/// Retry preserves position: the head pending task - the next one to be
/// folded back, and the one a retry re-dispatches - always carries part
/// number `parts.len()`, so its descriptor lands at the index equal to its
/// part number, never at the end.
pub proof fn lemma_retry_preserves_position(w: MultipartWriter)
    requires
        w.wf(),
        w.tasks_view().len() > 0,
    ensures
        w.tasks_view()[0].0 == w.parts_view().len(),
        w.tasks_view()[0].1 == w.accepted_chunks()[w.parts_view().len() as int],
{
    assert(tasks_numbered(w.parts_view().len() as int, w.tasks_view()));
    assert(tasks_match_accepted(
        w.parts_view().len() as int,
        w.tasks_view(),
        w.accepted_chunks(),
    ));
    assert(w.tasks_view()[0].0 == w.parts_view().len() as int + 0);
    assert(w.tasks_view()[0].1 == w.accepted_chunks()[w.parts_view().len() as int + 0]);
}

/// The concurrency bound is respected: at no point are more part uploads
/// pending than the bound the writer was built with.
pub proof fn lemma_concurrency_bounded(w: MultipartWriter)
    requires
        w.wf(),
    ensures
        w.tasks_view().len() <= w.capacity(),
        1 <= w.capacity(),
{
}

/// Byte conservation: once nothing is buffered and nothing is pending - the
/// moment the completion call is issued - every chunk ever accepted from a
/// write call was dispatched under its own part number and folded back as a
/// completed part: chunk `k` of `accepted_chunks` belongs to the part at
/// index `k`, one for one. The dispatch steps say that part `k` is uploaded
/// with exactly `accepted_chunks()[k]` as its body, so the bytes the remote
/// side received equal the bytes the write calls passed in.
pub proof fn lemma_byte_conservation(w: MultipartWriter)
    requires
        w.wf(),
        !w.is_aborted(),
        w.tasks_view().len() == 0,
        w.cache_view() is None,
    ensures
        w.accepted_chunks().len() == w.parts_view().len(),
        w.next_part() == w.parts_view().len(),
        parts_numbered(w.parts_view()),
{
}

} // verus!
