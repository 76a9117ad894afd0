//! The multipart writer state machine.
//!
//! The writer is driven by one logical caller through three operations:
//! write, close and abort. Remote work (starting a session, uploading a
//! part, finalizing, cancelling) is asynchronous and is performed by the
//! caller's shell between steps; each step here is a synchronous decision
//! that says what remote call to make next, and each completion is handed
//! back through one of the `*_succeeded` / `*_failed` entry points.
//!
//! The central invariant: completed parts always form the gapless,
//! ascending list `0, 1, ..., parts.len() - 1`, and the pending tasks carry
//! exactly the next part numbers in order, so the list handed to the final
//! completion call is in strict submission order no matter in which order
//! the remote uploads finished or how often any of them was retried.

use vstd::prelude::*;

use crate::part::copy_bytes;
use crate::part::MultipartPart;
use crate::part::PartTask;
use crate::queue::TaskQueue;

verus! {

/// Where the writer last suspended, if anywhere.
///
/// Exactly one suspension may be pending at a time: the writer is driven by
/// a single caller, and each remote call is resolved before the next one is
/// issued on the same operation.
pub enum State {
    /// No remote call is pending; the next step may be taken.
    Idle,
    /// A session-opening call is pending; resolve it with
    /// [`MultipartWriter::init_succeeded`] or [`MultipartWriter::init_failed`].
    Initiating,
    /// A oneshot upload or a completion call is pending; resolve it with
    /// [`MultipartWriter::close_succeeded`] or [`MultipartWriter::close_failed`].
    Closing,
    /// A cancellation call is pending; resolve it with
    /// [`MultipartWriter::abort_finished`].
    Aborting,
}

/// What a write step asks of the caller.
pub enum WriteStep {
    /// The bytes were accepted into the free buffer slot; the write call is
    /// done and consumed `size` bytes.
    Accepted {
        /// How many bytes were consumed: always the whole payload.
        size: usize,
    },
    /// The buffered chunk was dispatched as `task` and the new bytes were
    /// accepted into the freed slot. The caller starts the remote part
    /// upload for `task`, at the tail of its own queue of pending uploads;
    /// the write call is done and consumed `size` bytes.
    Dispatched {
        /// The chunk and part number to upload, at the tail.
        task: PartTask,
        /// How many bytes were consumed: always the whole payload.
        size: usize,
    },
    /// A second chunk arrived before any session exists. The caller starts
    /// the session-opening remote call, resolves it, and retries the same
    /// write; no bytes were consumed.
    NeedInit,
    /// Every concurrency slot is taken. The caller awaits the remote result
    /// of the head task, hands it back, and retries the same write; no
    /// bytes were consumed.
    NeedPoll,
}

/// What a close step asks of the caller.
pub enum CloseStep {
    /// No session was ever opened: upload the whole object in one remote
    /// call, with `size` bytes of `body` (an absent body is a zero-byte
    /// object), and resolve with `close_succeeded` / `close_failed`.
    Oneshot {
        /// The exact number of bytes in `body`, or 0 when it is absent.
        size: usize,
        /// The single buffered chunk, if one was written.
        body: Option<Vec<u8>>,
    },
    /// The last buffered chunk was dispatched as `task`. The caller starts
    /// its remote part upload at the tail of its own pending queue and
    /// calls close again.
    Dispatched {
        /// The chunk and part number to upload, at the tail.
        task: PartTask,
    },
    /// Pending part uploads remain. The caller awaits the remote result of
    /// the head task, hands it back, and calls close again.
    NeedPoll,
    /// Every part is done: finalize the object from `parts`, the complete
    /// list in strict part-number order, and resolve with
    /// `close_succeeded` / `close_failed`.
    Complete {
        /// The session the parts belong to.
        upload_id: String,
        /// One descriptor per part number `0, 1, ...`, in that order.
        parts: Vec<MultipartPart>,
    },
}

/// What an abort step asks of the caller.
pub enum AbortStep {
    /// No session was ever opened: nothing to cancel, abort succeeded
    /// without any remote call.
    Done,
    /// Every pending task was discarded; cancel the session with one remote
    /// call and resolve with `abort_finished`.
    Abort {
        /// The session to cancel.
        upload_id: String,
    },
}

/// The multipart writer: a single-slot write buffer, a bounded queue of
/// in-flight part uploads, the completed-parts list, and the session
/// identity, driven step by step from one caller.
pub struct MultipartWriter {
    state: State,
    upload_id: Option<String>,
    parts: Vec<MultipartPart>,
    cache: Option<Vec<u8>>,
    queue: TaskQueue<PartTask>,
    next_part_number: usize,
    aborted: bool,
    accepted: Ghost<Seq<Seq<u8>>>,
}

/// Completed parts form the gapless ascending list `0, 1, ...`: the part at
/// index `i` carries part number `i`.
pub open spec fn parts_numbered(parts: Seq<MultipartPart>) -> bool {
    forall|i: int| 0 <= i < parts.len() ==> #[trigger] parts[i].part_number == i
}

/// Pending tasks continue the numbering right after the completed parts:
/// the task at queue position `i` carries part number `parts_len + i`.
pub open spec fn tasks_numbered(parts_len: int, tasks: Seq<(int, Seq<u8>)>) -> bool {
    forall|i: int| 0 <= i < tasks.len() ==> #[trigger] tasks[i].0 == parts_len + i
}

/// Every pending task carries exactly the chunk that was accepted for its
/// part number, so a retry resends the identical bytes.
pub open spec fn tasks_match_accepted(
    parts_len: int,
    tasks: Seq<(int, Seq<u8>)>,
    accepted: Seq<Seq<u8>>,
) -> bool {
    forall|i: int| 0 <= i < tasks.len() ==> #[trigger] tasks[i].1 == accepted[parts_len + i]
}

impl MultipartWriter {
    /// Where the writer last suspended.
    pub closed spec fn state_of(self) -> State {
        self.state
    }

    /// The session identity, once one was opened.
    pub closed spec fn session_view(self) -> Option<Seq<char>> {
        match self.upload_id {
            Some(id) => Some(id@),
            None => None,
        }
    }

    /// The completed parts, in the order they were folded back.
    pub closed spec fn parts_view(self) -> Seq<MultipartPart> {
        self.parts@
    }

    /// The buffered chunk awaiting dispatch, if any.
    pub closed spec fn cache_view(self) -> Option<Seq<u8>> {
        match self.cache {
            Some(bs) => Some(bs@),
            None => None,
        }
    }

    /// The pending part uploads, head first, as (part number, chunk) pairs.
    pub closed spec fn tasks_view(self) -> Seq<(int, Seq<u8>)> {
        self.queue@.map_values(|t: PartTask| t@)
    }

    /// The next part number to assign; never reused, not even on retry.
    pub closed spec fn next_part(self) -> nat {
        self.next_part_number as nat
    }

    /// The bound on simultaneously pending part uploads.
    pub closed spec fn capacity(self) -> nat {
        self.queue.cap()
    }

    /// Whether the session was cancelled.
    pub closed spec fn is_aborted(self) -> bool {
        self.aborted
    }

    /// Every chunk accepted from a write call, in acceptance order.
    pub closed spec fn accepted_chunks(self) -> Seq<Seq<u8>> {
        self.accepted@
    }

    /// The writer's invariant. Established by [`MultipartWriter::new`] and
    /// preserved by every step:
    ///
    /// - at most `capacity` part uploads are pending, and `capacity >= 1`;
    /// - before a session exists nothing was dispatched or completed;
    /// - completed parts are numbered `0, 1, ...` in order, pending tasks
    ///   continue that numbering, and `next_part` sits right after both;
    /// - each accepted chunk is accounted for: one per assigned part number
    ///   plus the buffered one, and every pending task carries exactly the
    ///   chunk accepted for its number.
    pub open spec fn wf(self) -> bool {
        &&& 1 <= self.capacity()
        &&& self.tasks_view().len() <= self.capacity()
        &&& (self.session_view() is None ==> {
            &&& self.parts_view().len() == 0
            &&& self.tasks_view().len() == 0
            &&& self.next_part() == 0
            &&& !self.is_aborted()
        })
        &&& (self.state_of() is Initiating ==> self.session_view() is None
            && self.cache_view() is Some)
        &&& (self.state_of() is Closing && self.session_view() is Some ==> {
            &&& self.tasks_view().len() == 0
            &&& self.cache_view() is None
        })
        &&& (self.state_of() is Aborting ==> self.is_aborted())
        &&& (self.is_aborted() ==> self.session_view() is Some && self.tasks_view().len() == 0)
        &&& (!self.is_aborted() ==> self.next_part() == self.parts_view().len()
            + self.tasks_view().len())
        &&& parts_numbered(self.parts_view())
        &&& tasks_numbered(self.parts_view().len() as int, self.tasks_view())
        &&& self.accepted_chunks().len() == self.next_part() + (
        if self.cache_view() is Some {
            1int
        } else {
            0int
        })
        &&& tasks_match_accepted(
            self.parts_view().len() as int,
            self.tasks_view(),
            self.accepted_chunks(),
        )
        &&& (self.cache_view() is Some ==> self.accepted_chunks().last()
            == self.cache_view().unwrap())
    }

    /// A fresh writer: no session, nothing buffered, nothing pending, with
    /// room for `concurrent` simultaneous part uploads (at least 1).
    pub fn new(concurrent: usize) -> (w: MultipartWriter)
        ensures
            w.wf(),
            w.state_of() is Idle,
            w.session_view() is None,
            w.parts_view() == Seq::<MultipartPart>::empty(),
            w.cache_view() is None,
            w.tasks_view() == Seq::<(int, Seq<u8>)>::empty(),
            w.next_part() == 0,
            !w.is_aborted(),
            w.accepted_chunks() == Seq::<Seq<u8>>::empty(),
            w.capacity() == if concurrent >= 1 {
                concurrent as nat
            } else {
                1nat
            },
    {
        let cap: usize = if concurrent >= 1 {
            concurrent
        } else {
            1
        };
        let w = MultipartWriter {
            state: State::Idle,
            upload_id: None,
            parts: Vec::new(),
            cache: None,
            queue: TaskQueue::new(cap),
            next_part_number: 0,
            aborted: false,
            accepted: Ghost(Seq::empty()),
        };
        proof {
            assert(w.parts_view() =~= Seq::<MultipartPart>::empty());
            assert(w.tasks_view() =~= Seq::<(int, Seq<u8>)>::empty());
        }
        w
    }

    /// How many part uploads are pending right now.
    pub fn in_flight(&self) -> (n: usize)
        ensures
            n == self.tasks_view().len(),
    {
        self.queue.len()
    }

    /// The part number of the head pending task: the one whose result must
    /// be folded back next.
    pub fn head_part_number(&self) -> (n: usize)
        requires
            self.tasks_view().len() > 0,
        ensures
            n as int == self.tasks_view()[0].0,
    {
        self.queue.front().part_number
    }

    /// Whether a multipart session was opened.
    pub fn has_session(&self) -> (b: bool)
        ensures
            b == (self.session_view() is Some),
    {
        self.upload_id.is_some()
    }

    /// Whether the session was cancelled. Once it was, no further write or
    /// close is meaningful; only abort may be repeated.
    pub fn was_aborted(&self) -> (b: bool)
        ensures
            b == self.is_aborted(),
    {
        self.aborted
    }

    /// Whether a chunk sits in the single buffer slot.
    pub fn has_pending_chunk(&self) -> (b: bool)
        ensures
            b == (self.cache_view() is Some),
    {
        self.cache.is_some()
    }

    /// Whether no remote call is pending.
    pub fn is_idle(&self) -> (b: bool)
        ensures
            b == (self.state_of() is Idle),
    {
        match self.state {
            State::Idle => true,
            _ => false,
        }
    }

    /// The completed parts so far, in part-number order.
    pub fn completed_parts(&self) -> (parts: &Vec<MultipartPart>)
        ensures
            parts@ == self.parts_view(),
    {
        &self.parts
    }

    /// The next part number to assign.
    pub fn next_part_number(&self) -> (n: usize)
        ensures
            n as nat == self.next_part(),
    {
        self.next_part_number
    }

    /// The bound on simultaneously pending part uploads.
    pub fn concurrency(&self) -> (c: usize)
        ensures
            c as nat == self.capacity(),
    {
        self.queue.capacity()
    }

    /// Copy the caller's bytes into the empty buffer slot, taking ownership
    /// of the chunk so its lifetime no longer depends on the caller's.
    fn fill_cache(&mut self, bs: &Vec<u8>) -> (size: usize)
        requires
            old(self).cache_view() is None,
        ensures
            size == bs@.len(),
            final(self).cache_view() == Some(bs@),
            final(self).accepted_chunks() == old(self).accepted_chunks().push(bs@),
            final(self).state_of() == old(self).state_of(),
            final(self).session_view() == old(self).session_view(),
            final(self).parts_view() == old(self).parts_view(),
            final(self).tasks_view() == old(self).tasks_view(),
            final(self).next_part() == old(self).next_part(),
            final(self).capacity() == old(self).capacity(),
            final(self).is_aborted() == old(self).is_aborted(),
    {
        let size = bs.len();
        let chunk = copy_bytes(bs);
        self.cache = Some(chunk);
        self.accepted = Ghost(self.accepted@.push(bs@));
        size
    }

    /// One write step: offer the payload `bs` to the writer.
    ///
    /// Exactly one of the four outcomes happens, decided by the writer's
    /// state alone:
    ///
    /// - no session, empty slot: the bytes go into the slot, write is done
    ///   (and may stay the only write ever made - the oneshot path);
    /// - no session, occupied slot: a second chunk arrived, so a session
    ///   must be opened first ([`WriteStep::NeedInit`]);
    /// - session, free concurrency slot: the buffered chunk is dispatched
    ///   at the next part number, the new bytes take the freed slot, write
    ///   is done;
    /// - session, all slots taken: the head task's result must be folded
    ///   back first ([`WriteStep::NeedPoll`]).
    ///
    /// A write call never consumes its payload partially: either the whole
    /// of `bs` is accepted, or none of it.
    pub fn write(&mut self, bs: &Vec<u8>) -> (step: WriteStep)
        requires
            old(self).wf(),
            old(self).state_of() is Idle,
            !old(self).is_aborted(),
            old(self).session_view() is Some ==> old(self).cache_view() is Some,
            old(self).next_part() < usize::MAX,
        ensures
            final(self).wf(),
            final(self).session_view() == old(self).session_view(),
            final(self).capacity() == old(self).capacity(),
            !final(self).is_aborted(),
            final(self).parts_view() == old(self).parts_view(),
            (step is Accepted <==> old(self).session_view() is None && old(self).cache_view()
                is None),
            (step matches WriteStep::Accepted { size } ==> {
                &&& size == bs@.len()
                &&& final(self).state_of() is Idle
                &&& final(self).cache_view() == Some(bs@)
                &&& final(self).tasks_view() == old(self).tasks_view()
                &&& final(self).next_part() == old(self).next_part()
                &&& final(self).accepted_chunks() == old(self).accepted_chunks().push(bs@)
            }),
            (step is NeedInit <==> old(self).session_view() is None && old(self).cache_view()
                is Some),
            (step is NeedInit ==> {
                &&& final(self).state_of() is Initiating
                &&& final(self).cache_view() == old(self).cache_view()
                &&& final(self).tasks_view() == old(self).tasks_view()
                &&& final(self).next_part() == old(self).next_part()
                &&& final(self).accepted_chunks() == old(self).accepted_chunks()
            }),
            (step is Dispatched <==> old(self).session_view() is Some && old(self).tasks_view().len()
                < old(self).capacity()),
            (step matches WriteStep::Dispatched { task, size } ==> {
                &&& size == bs@.len()
                &&& final(self).state_of() is Idle
                &&& task@ == (old(self).next_part() as int, old(self).cache_view().unwrap())
                &&& final(self).tasks_view() == old(self).tasks_view().push(task@)
                &&& final(self).cache_view() == Some(bs@)
                &&& final(self).next_part() == old(self).next_part() + 1
                &&& final(self).accepted_chunks() == old(self).accepted_chunks().push(bs@)
            }),
            (step is NeedPoll <==> old(self).session_view() is Some && old(self).tasks_view().len()
                == old(self).capacity()),
            (step is NeedPoll ==> {
                &&& final(self).state_of() is Idle
                &&& final(self).cache_view() == old(self).cache_view()
                &&& final(self).tasks_view() == old(self).tasks_view()
                &&& final(self).next_part() == old(self).next_part()
                &&& final(self).accepted_chunks() == old(self).accepted_chunks()
            }),
    {
        if self.upload_id.is_some() {
            if self.queue.has_remaining() {
                let chunk = self.cache.take().unwrap();
                let part_number = self.next_part_number;
                self.next_part_number = self.next_part_number + 1;
                let task = PartTask { part_number, bytes: chunk };
                let handed = task.duplicate();
                let ghost pre_tasks = self.tasks_view();
                let ghost tv = task@;
                self.queue.push_back(task);
                proof {
                    assert(self.tasks_view() =~= pre_tasks.push(tv));
                }
                let size = self.fill_cache(bs);
                WriteStep::Dispatched { task: handed, size }
            } else {
                WriteStep::NeedPoll
            }
        } else {
            if self.cache.is_none() {
                let size = self.fill_cache(bs);
                WriteStep::Accepted { size }
            } else {
                self.state = State::Initiating;
                WriteStep::NeedInit
            }
        }
    }

    /// The session-opening call came back with `id`: store the session and
    /// resume. A session is opened at most once per writer.
    pub fn init_succeeded(&mut self, id: String)
        requires
            old(self).wf(),
            old(self).state_of() is Initiating,
        ensures
            final(self).wf(),
            final(self).state_of() is Idle,
            final(self).session_view() == Some(id@),
            final(self).parts_view() == old(self).parts_view(),
            final(self).cache_view() == old(self).cache_view(),
            final(self).tasks_view() == old(self).tasks_view(),
            final(self).next_part() == old(self).next_part(),
            final(self).capacity() == old(self).capacity(),
            final(self).is_aborted() == old(self).is_aborted(),
            final(self).accepted_chunks() == old(self).accepted_chunks(),
    {
        self.upload_id = Some(id);
        self.state = State::Idle;
    }

    /// The session-opening call failed: return to rest with no session, so
    /// a retried write opens a fresh session. The buffered chunk is kept.
    pub fn init_failed(&mut self)
        requires
            old(self).wf(),
            old(self).state_of() is Initiating,
        ensures
            final(self).wf(),
            final(self).state_of() is Idle,
            final(self).session_view() == old(self).session_view(),
            final(self).parts_view() == old(self).parts_view(),
            final(self).cache_view() == old(self).cache_view(),
            final(self).tasks_view() == old(self).tasks_view(),
            final(self).next_part() == old(self).next_part(),
            final(self).capacity() == old(self).capacity(),
            final(self).is_aborted() == old(self).is_aborted(),
            final(self).accepted_chunks() == old(self).accepted_chunks(),
    {
        self.state = State::Idle;
    }

    /// The head pending task finished with descriptor `part`: remove it and
    /// append the descriptor to the completed parts.
    ///
    /// The backend echoes the part number it was called with, so `part`
    /// must carry the head task's number; the descriptor lands at index
    /// `part.part_number` of the completed list.
    pub fn part_succeeded(&mut self, part: MultipartPart)
        requires
            old(self).wf(),
            old(self).tasks_view().len() > 0,
            part.part_number as int == old(self).tasks_view()[0].0,
        ensures
            final(self).wf(),
            final(self).parts_view() == old(self).parts_view().push(part),
            final(self).tasks_view() == old(self).tasks_view().drop_first(),
            final(self).state_of() == old(self).state_of(),
            final(self).session_view() == old(self).session_view(),
            final(self).cache_view() == old(self).cache_view(),
            final(self).next_part() == old(self).next_part(),
            final(self).capacity() == old(self).capacity(),
            final(self).is_aborted() == old(self).is_aborted(),
            final(self).accepted_chunks() == old(self).accepted_chunks(),
    {
        let ghost pre_tasks = self.tasks_view();
        let _head = self.queue.pop_front();
        self.parts.push(part);
        proof {
            assert(self.tasks_view() =~= pre_tasks.drop_first());
        }
    }

    /// The head pending task failed: hand back a task with the identical
    /// part number and bytes, to be restarted at the head of the caller's
    /// own pending queue. The writer's pending tasks are unchanged, so the
    /// retried part keeps both its number and its position ahead of every
    /// later part.
    pub fn part_failed(&mut self) -> (task: PartTask)
        requires
            old(self).wf(),
            old(self).tasks_view().len() > 0,
        ensures
            final(self).wf(),
            task@ == old(self).tasks_view()[0],
            final(self).tasks_view() == old(self).tasks_view(),
            final(self).parts_view() == old(self).parts_view(),
            final(self).state_of() == old(self).state_of(),
            final(self).session_view() == old(self).session_view(),
            final(self).cache_view() == old(self).cache_view(),
            final(self).next_part() == old(self).next_part(),
            final(self).capacity() == old(self).capacity(),
            final(self).is_aborted() == old(self).is_aborted(),
            final(self).accepted_chunks() == old(self).accepted_chunks(),
    {
        let ghost pre_tasks = self.tasks_view();
        let head = self.queue.pop_front();
        let retry = head.duplicate();
        self.queue.push_front(head);
        proof {
            assert(self.queue@ =~= old(self).queue@);
            assert(self.tasks_view() =~= pre_tasks);
        }
        retry
    }

    /// A copy of the session identity. The session must exist.
    fn clone_session(&self) -> (id: String)
        requires
            self.session_view() is Some,
        ensures
            Some(id@) == self.session_view(),
    {
        self.upload_id.as_ref().unwrap().clone()
    }

    /// An exact copy of the completed-parts list.
    fn duplicate_parts(&self) -> (parts: Vec<MultipartPart>)
        ensures
            parts@ == self.parts_view(),
    {
        let mut parts: Vec<MultipartPart> = Vec::new();
        let mut i: usize = 0;
        while i < self.parts.len()
            invariant
                i <= self.parts@.len(),
                parts@ == self.parts@.subrange(0, i as int),
            decreases self.parts@.len() - i,
        {
            parts.push(self.parts[i].duplicate());
            assert(parts@ =~= self.parts@.subrange(0, i + 1 as int));
            i = i + 1;
        }
        assert(parts@ =~= self.parts@);
        parts
    }

    /// One close step. Exactly one of the four outcomes happens:
    ///
    /// - no session: the whole object is uploaded in one remote call - the
    ///   buffered chunk if one exists, a zero-byte body otherwise;
    /// - session, last chunk still buffered, free slot: the chunk is
    ///   dispatched as the final part;
    /// - session, pending tasks remain (or no free slot): the head task's
    ///   result must be folded back first;
    /// - session, nothing buffered, nothing pending: the upload is
    ///   finalized from the full, gapless, ascending part list.
    ///
    /// On a reported failure the writer stays retryable: the buffered chunk
    /// (oneshot) and the part list and session (multipart) are kept, and a
    /// repeated close resumes exactly where it failed.
    pub fn close(&mut self) -> (step: CloseStep)
        requires
            old(self).wf(),
            old(self).state_of() is Idle,
            !old(self).is_aborted(),
            old(self).cache_view() is Some ==> old(self).next_part() < usize::MAX,
        ensures
            final(self).wf(),
            final(self).session_view() == old(self).session_view(),
            final(self).capacity() == old(self).capacity(),
            !final(self).is_aborted(),
            final(self).parts_view() == old(self).parts_view(),
            final(self).accepted_chunks() == old(self).accepted_chunks(),
            (step is Oneshot <==> old(self).session_view() is None),
            (step matches CloseStep::Oneshot { size, body } ==> {
                &&& final(self).state_of() is Closing
                &&& final(self).cache_view() == old(self).cache_view()
                &&& final(self).tasks_view() == old(self).tasks_view()
                &&& final(self).next_part() == old(self).next_part()
                &&& (old(self).cache_view() matches Some(chunk) ==> {
                    &&& size == chunk.len()
                    &&& body matches Some(b) && b@ == chunk
                })
                &&& (old(self).cache_view() is None ==> size == 0 && body is None)
            }),
            (step is Dispatched <==> old(self).session_view() is Some && old(self).cache_view()
                is Some && old(self).tasks_view().len() < old(self).capacity()),
            (step matches CloseStep::Dispatched { task } ==> {
                &&& final(self).state_of() is Idle
                &&& task@ == (old(self).next_part() as int, old(self).cache_view().unwrap())
                &&& final(self).tasks_view() == old(self).tasks_view().push(task@)
                &&& final(self).cache_view() is None
                &&& final(self).next_part() == old(self).next_part() + 1
            }),
            (step is NeedPoll <==> old(self).session_view() is Some && (old(self).cache_view()
                is None && old(self).tasks_view().len() > 0 || old(self).cache_view() is Some
                && old(self).tasks_view().len() == old(self).capacity())),
            (step is NeedPoll ==> {
                &&& final(self).state_of() is Idle
                &&& final(self).cache_view() == old(self).cache_view()
                &&& final(self).tasks_view() == old(self).tasks_view()
                &&& final(self).next_part() == old(self).next_part()
            }),
            (step is Complete <==> old(self).session_view() is Some && old(self).cache_view()
                is None && old(self).tasks_view().len() == 0),
            (step matches CloseStep::Complete { upload_id, parts } ==> {
                &&& final(self).state_of() is Closing
                &&& Some(upload_id@) == old(self).session_view()
                &&& parts@ == old(self).parts_view()
                &&& parts@.len() == old(self).next_part()
                &&& parts_numbered(parts@)
                &&& final(self).cache_view() is None
                &&& final(self).tasks_view() == old(self).tasks_view()
                &&& final(self).next_part() == old(self).next_part()
            }),
    {
        if self.upload_id.is_some() {
            if self.queue.is_empty() && self.cache.is_none() {
                let upload_id = self.clone_session();
                let parts = self.duplicate_parts();
                self.state = State::Closing;
                CloseStep::Complete { upload_id, parts }
            } else if self.cache.is_some() && self.queue.has_remaining() {
                let chunk = self.cache.take().unwrap();
                let part_number = self.next_part_number;
                self.next_part_number = self.next_part_number + 1;
                let task = PartTask { part_number, bytes: chunk };
                let handed = task.duplicate();
                let ghost pre_tasks = self.tasks_view();
                let ghost tv = task@;
                self.queue.push_back(task);
                proof {
                    assert(self.tasks_view() =~= pre_tasks.push(tv));
                }
                CloseStep::Dispatched { task: handed }
            } else {
                CloseStep::NeedPoll
            }
        } else {
            let (size, body) = match &self.cache {
                Some(chunk) => (chunk.len(), Some(copy_bytes(chunk))),
                None => (0usize, None),
            };
            self.state = State::Closing;
            CloseStep::Oneshot { size, body }
        }
    }

    /// The pending oneshot upload or completion call succeeded: the object
    /// is written. After a oneshot upload the buffer slot is cleared and
    /// the writer is again as fresh; after a completion the part list and
    /// session are kept as a record of the finished upload.
    pub fn close_succeeded(&mut self)
        requires
            old(self).wf(),
            old(self).state_of() is Closing,
        ensures
            final(self).wf(),
            final(self).state_of() is Idle,
            old(self).session_view() is None ==> final(self).cache_view() is None
                && final(self).accepted_chunks() == Seq::<Seq<u8>>::empty(),
            old(self).session_view() is Some ==> final(self).cache_view() == old(self).cache_view()
                && final(self).accepted_chunks() == old(self).accepted_chunks(),
            final(self).session_view() == old(self).session_view(),
            final(self).parts_view() == old(self).parts_view(),
            final(self).tasks_view() == old(self).tasks_view(),
            final(self).next_part() == old(self).next_part(),
            final(self).capacity() == old(self).capacity(),
            final(self).is_aborted() == old(self).is_aborted(),
    {
        self.state = State::Idle;
        if self.upload_id.is_none() {
            self.cache = None;
            self.accepted = Ghost(Seq::empty());
        }
    }

    /// The pending oneshot upload or completion call failed: the error goes
    /// to the caller, and everything - buffered chunk, part list, session -
    /// is kept, so a repeated close retries exactly the failed call.
    pub fn close_failed(&mut self)
        requires
            old(self).wf(),
            old(self).state_of() is Closing,
        ensures
            final(self).wf(),
            final(self).state_of() is Idle,
            final(self).session_view() == old(self).session_view(),
            final(self).parts_view() == old(self).parts_view(),
            final(self).cache_view() == old(self).cache_view(),
            final(self).tasks_view() == old(self).tasks_view(),
            final(self).next_part() == old(self).next_part(),
            final(self).capacity() == old(self).capacity(),
            final(self).is_aborted() == old(self).is_aborted(),
            final(self).accepted_chunks() == old(self).accepted_chunks(),
    {
        self.state = State::Idle;
    }

    /// One abort step. With no session there is nothing to cancel and abort
    /// succeeds with no remote call at all. With a session, every pending
    /// task is discarded at once - without awaiting any of them - and the
    /// one remote cancellation call is issued; remote work already done is
    /// the backend's to roll back.
    pub fn abort(&mut self) -> (step: AbortStep)
        requires
            old(self).wf(),
            old(self).state_of() is Idle,
        ensures
            final(self).wf(),
            (step is Done <==> old(self).session_view() is None),
            (step is Done ==> {
                &&& final(self).state_of() is Idle
                &&& final(self).session_view() == old(self).session_view()
                &&& final(self).parts_view() == old(self).parts_view()
                &&& final(self).cache_view() == old(self).cache_view()
                &&& final(self).tasks_view() == old(self).tasks_view()
                &&& final(self).next_part() == old(self).next_part()
                &&& final(self).capacity() == old(self).capacity()
                &&& !final(self).is_aborted()
                &&& final(self).accepted_chunks() == old(self).accepted_chunks()
            }),
            (step matches AbortStep::Abort { upload_id } ==> {
                &&& Some(upload_id@) == old(self).session_view()
                &&& final(self).state_of() is Aborting
                &&& final(self).is_aborted()
                &&& final(self).tasks_view() == Seq::<(int, Seq<u8>)>::empty()
                &&& final(self).session_view() == old(self).session_view()
                &&& final(self).parts_view() == old(self).parts_view()
                &&& final(self).cache_view() == old(self).cache_view()
                &&& final(self).next_part() == old(self).next_part()
                &&& final(self).capacity() == old(self).capacity()
                &&& final(self).accepted_chunks() == old(self).accepted_chunks()
            }),
    {
        if self.upload_id.is_some() {
            let upload_id = self.clone_session();
            self.queue.clear();
            self.aborted = true;
            self.state = State::Aborting;
            proof {
                assert(self.tasks_view() =~= Seq::<(int, Seq<u8>)>::empty());
            }
            AbortStep::Abort { upload_id }
        } else {
            AbortStep::Done
        }
    }

    /// The cancellation call came back (with success or failure, reported
    /// to the caller either way): the writer returns to rest. There is no
    /// further recovery action; abort may be issued again.
    pub fn abort_finished(&mut self)
        requires
            old(self).wf(),
            old(self).state_of() is Aborting,
        ensures
            final(self).wf(),
            final(self).state_of() is Idle,
            final(self).session_view() == old(self).session_view(),
            final(self).parts_view() == old(self).parts_view(),
            final(self).cache_view() == old(self).cache_view(),
            final(self).tasks_view() == old(self).tasks_view(),
            final(self).next_part() == old(self).next_part(),
            final(self).capacity() == old(self).capacity(),
            final(self).is_aborted() == old(self).is_aborted(),
            final(self).accepted_chunks() == old(self).accepted_chunks(),
    {
        self.state = State::Idle;
    }
}

} // verus!
