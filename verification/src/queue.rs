//! The bounded queue of batches between the callers and the dispatcher.

use std::collections::VecDeque;
use vstd::prelude::*;
use crate::span::{batch_view, Span, SpanView};

verus! {

/// Why a batch was not taken into the queue.
#[derive(Clone, Copy, Debug, PartialEq, Eq, Structural)]
pub enum EnqueueError {
    /// The queue holds as many batches as it may; a later attempt can succeed.
    Full,
    /// The queue was closed; no later attempt will succeed.
    Closed,
}

/// What an `IngestQueue` holds: the waiting batches, oldest first, the
/// number of batches it may hold, and whether it was closed.
pub struct QueueView {
    pub batches: Seq<Seq<SpanView>>,
    pub capacity: nat,
    pub closed: bool,
}

impl QueueView {
    /// A queue never holds more batches than its capacity.
    pub open spec fn wf(self) -> bool {
        self.batches.len() <= self.capacity
    }

    /// No further batch fits.
    pub open spec fn is_full(self) -> bool {
        self.batches.len() >= self.capacity
    }

    /// The queue after `batch` was put at its end.
    pub open spec fn with_batch(self, batch: Seq<SpanView>) -> QueueView {
        QueueView { batches: self.batches.push(batch), ..self }
    }

    /// The queue after its oldest batch was taken.
    pub open spec fn without_first(self) -> QueueView {
        QueueView { batches: self.batches.drop_first(), ..self }
    }

    /// The queue after it was closed.
    pub open spec fn closed_off(self) -> QueueView {
        QueueView { closed: true, ..self }
    }

    /// What an attempt to put a batch into the queue answers.
    pub open spec fn admits(self) -> Result<(), EnqueueError> {
        if self.closed {
            Err(EnqueueError::Closed)
        } else if self.is_full() {
            Err(EnqueueError::Full)
        } else {
            Ok(())
        }
    }
}

/// A queue of batches with a fixed capacity. Batches leave it in the order
/// in which they entered, whole and unchanged.
#[derive(Debug)]
pub struct IngestQueue {
    batches: VecDeque<Vec<Span>>,
    capacity: usize,
    closed: bool,
}

impl View for IngestQueue {
    type V = QueueView;

    closed spec fn view(&self) -> QueueView {
        QueueView {
            batches: self.batches@.map_values(|b: Vec<Span>| batch_view(b@)),
            capacity: self.capacity as nat,
            closed: self.closed,
        }
    }
}

impl IngestQueue {
    /// An open, empty queue for up to `capacity` batches.
    pub fn new(capacity: usize) -> (queue: IngestQueue)
        ensures
            queue@ == (QueueView { batches: Seq::empty(), capacity: capacity as nat, closed: false }),
            queue@.wf(),
    {
        let queue = IngestQueue { batches: VecDeque::new(), capacity, closed: false };
        assert(queue@.batches =~= Seq::empty());
        queue
    }

    /// Whether the queue holds no more batches than it may.
    pub fn is_well_formed(&self) -> (ok: bool)
        ensures
            ok == self@.wf(),
    {
        self.batches.len() <= self.capacity
    }

    /// The number of batches that wait.
    pub fn len(&self) -> (n: usize)
        ensures
            n == self@.batches.len(),
    {
        self.batches.len()
    }

    /// The number of batches the queue may hold.
    pub fn capacity(&self) -> (n: usize)
        ensures
            n == self@.capacity,
    {
        self.capacity
    }

    /// Whether the queue was closed.
    pub fn is_closed(&self) -> (closed: bool)
        ensures
            closed == self@.closed,
    {
        self.closed
    }

    /// Puts a batch at the end of the queue, unless the queue is closed or
    /// full. A batch that is not taken is dropped, and the queue stays as
    /// it was.
    pub fn try_enqueue(&mut self, batch: Vec<Span>) -> (result: Result<(), EnqueueError>)
        requires
            old(self)@.wf(),
        ensures
            result == old(self)@.admits(),
            result is Ok ==> final(self)@ == old(self)@.with_batch(batch_view(batch@)),
            result is Err ==> final(self)@ == old(self)@,
            final(self)@.wf(),
    {
        if self.closed {
            return Err(EnqueueError::Closed);
        }
        if self.batches.len() >= self.capacity {
            return Err(EnqueueError::Full);
        }
        self.batches.push_back(batch);
        assert(self@.batches =~= old(self)@.batches.push(batch_view(batch@)));
        Ok(())
    }

    /// Takes the oldest batch out of the queue, if there is one.
    pub fn dequeue(&mut self) -> (batch: Option<Vec<Span>>)
        requires
            old(self)@.wf(),
        ensures
            match batch {
                Some(b) => old(self)@.batches.len() > 0 && batch_view(b@) == old(self)@.batches[0]
                    && final(self)@ == old(self)@.without_first(),
                None => old(self)@.batches.len() == 0 && final(self)@ == old(self)@,
            },
            final(self)@.wf(),
    {
        let batch = self.batches.pop_front();
        proof {
            if batch is Some {
                assert(self@.batches =~= old(self)@.batches.drop_first());
            }
        }
        batch
    }

    /// Closes the queue: from now on it takes no batch. The batches that
    /// wait stay in it.
    pub fn close(&mut self)
        ensures
            final(self)@ == old(self)@.closed_off(),
    {
        self.closed = true;
    }
}

} // verus!
