//! A fixed-capacity FIFO of pending work, head first.
//!
//! The writer runs up to `capacity` part uploads at once, yet folds their
//! results back strictly in submission order: new work enters at the tail
//! with `push_back`, a retried task returns to the head with `push_front`,
//! and results are only ever taken from the head with `pop_front`. A task
//! submitted late may finish its remote work early, but it is not reported
//! before every earlier task has been.

use vstd::prelude::*;

verus! {

/// A bounded FIFO with its head at index 0 of the underlying buffer.
pub struct TaskQueue<T> {
    tasks: Vec<T>,
    capacity: usize,
}

impl<T> View for TaskQueue<T> {
    type V = Seq<T>;

    closed spec fn view(&self) -> Seq<T> {
        self.tasks@
    }
}

impl<T> TaskQueue<T> {
    /// The fixed bound on how many tasks may be held at once.
    pub closed spec fn cap(self) -> nat {
        self.capacity as nat
    }

    /// The queue holds at least one slot and never more tasks than its bound.
    pub open spec fn wf(self) -> bool {
        &&& 1 <= self.cap()
        &&& self@.len() <= self.cap()
    }

    /// An empty queue with room for `capacity` tasks.
    pub fn new(capacity: usize) -> (q: TaskQueue<T>)
        requires
            capacity >= 1,
        ensures
            q.wf(),
            q@ == Seq::<T>::empty(),
            q.cap() == capacity,
    {
        let q = TaskQueue { tasks: Vec::new(), capacity };
        proof {
            assert(q@ =~= Seq::<T>::empty());
        }
        q
    }

    /// The fixed capacity.
    pub fn capacity(&self) -> (c: usize)
        ensures
            c as nat == self.cap(),
    {
        self.capacity
    }

    /// How many tasks are held right now.
    pub fn len(&self) -> (n: usize)
        ensures
            n == self@.len(),
    {
        self.tasks.len()
    }

    /// Whether no task is held.
    pub fn is_empty(&self) -> (b: bool)
        ensures
            b == (self@.len() == 0),
    {
        self.tasks.len() == 0
    }

    /// Whether a further task may enter before the bound is reached.
    pub fn has_remaining(&self) -> (b: bool)
        ensures
            b == (self@.len() < self.cap()),
    {
        self.tasks.len() < self.capacity
    }

    /// Enqueue a new task at the tail.
    pub fn push_back(&mut self, t: T)
        requires
            old(self).wf(),
            old(self)@.len() < old(self).cap(),
        ensures
            final(self).wf(),
            final(self)@ == old(self)@.push(t),
            final(self).cap() == old(self).cap(),
    {
        self.tasks.push(t);
    }

    /// Re-enqueue a task at the head, so a retried task keeps its position
    /// ahead of every later one.
    pub fn push_front(&mut self, t: T)
        requires
            old(self).wf(),
            old(self)@.len() < old(self).cap(),
        ensures
            final(self).wf(),
            final(self)@ == old(self)@.insert(0, t),
            final(self).cap() == old(self).cap(),
    {
        self.tasks.insert(0, t);
    }

    /// Remove and hand back the head task.
    pub fn pop_front(&mut self) -> (t: T)
        requires
            old(self).wf(),
            old(self)@.len() > 0,
        ensures
            final(self).wf(),
            t == old(self)@[0],
            final(self)@ == old(self)@.drop_first(),
            final(self).cap() == old(self).cap(),
    {
        let t = self.tasks.remove(0);
        proof {
            assert(self@ =~= old(self)@.drop_first());
        }
        t
    }

    /// Borrow the head task without removing it.
    pub fn front(&self) -> (t: &T)
        requires
            self@.len() > 0,
        ensures
            *t == self@[0],
    {
        &self.tasks[0]
    }

    /// Drop every held task at once, without waiting for any of them.
    pub fn clear(&mut self)
        requires
            old(self).wf(),
        ensures
            final(self).wf(),
            final(self)@ == Seq::<T>::empty(),
            final(self).cap() == old(self).cap(),
    {
        self.tasks.clear();
        proof {
            assert(self@ =~= Seq::<T>::empty());
        }
    }
}

} // verus!
