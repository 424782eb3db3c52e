//! The exporter: it takes batches into its queue without waiting, hands
//! them to submissions within the bound on concurrency, and counts the
//! batches that are outstanding.

use vstd::prelude::*;
use crate::dispatcher::{
    limit_of, outcome_of, Dispatcher, DispatcherView, Outcome, Submission, SubmissionView,
};
use crate::queue::{EnqueueError, IngestQueue, QueueView};
use crate::shutdown::{keep_waiting, waits, Observation, DEFAULT_SHUTDOWN_NANOS};
use crate::span::{batch_view, Span, SpanView};

verus! {

/// The number of batches that the queue of an exporter may hold.
pub const QUEUE_CAPACITY: usize = 64;

/// What the caller of `export` is told.
#[derive(Clone, Copy, Debug, PartialEq, Eq, Structural)]
pub enum ExportResult {
    /// The batch was taken.
    Success,
    /// The exporter is closed for good. The caller must not try again.
    FailedNotRetryable,
    /// The batch did not fit for the moment. The caller may try again.
    FailedRetryable,
}

/// What the dispatcher does next.
#[derive(Clone, Copy, Debug, PartialEq, Eq, Structural)]
pub enum DispatchAction {
    /// A batch waits and a slot is free: start its submission.
    Start,
    /// Nothing can start now: wait for a batch to arrive or for a
    /// submission to end.
    Wait,
    /// The queue is closed and empty and nothing runs: end.
    Stop,
}

/// Something that happens to an exporter.
pub enum PipelineEvent {
    /// A caller hands over a batch.
    Export(Seq<SpanView>),
    /// The dispatcher tries to start the submission of the oldest batch.
    Start,
    /// A submission that ran has ended, with this outcome.
    Finish(Outcome),
    /// The queue is closed.
    Close,
}

/// What a `StackDriverExporter` holds.
pub struct ExporterView {
    pub queue: QueueView,
    pub dispatcher: DispatcherView,
    pub pending_count: nat,
    pub maximum_shutdown_nanos: u128,
}

impl ExporterView {
    /// The queue and the dispatcher are in order, and the count of
    /// outstanding batches is the number of batches that wait plus the
    /// number of submissions that run.
    pub open spec fn wf(self) -> bool {
        &&& self.queue.wf()
        &&& self.dispatcher.wf()
        &&& self.pending_count == self.queue.batches.len() + self.dispatcher.in_flight
        &&& self.pending_count <= usize::MAX
    }

    /// No batch waits and no submission runs.
    pub open spec fn idle(self) -> bool {
        self.queue.batches.len() == 0 && self.dispatcher.in_flight == 0
    }

    /// What `export` answers: that the exporter is closed, where it is;
    /// else that the batch does not fit, where the queue is full or the
    /// count of outstanding batches has reached what a machine word
    /// holds; else success.
    pub open spec fn export_result(self) -> ExportResult {
        if self.queue.closed {
            ExportResult::FailedNotRetryable
        } else if self.queue.is_full() || self.pending_count >= usize::MAX {
            ExportResult::FailedRetryable
        } else {
            ExportResult::Success
        }
    }

    /// The exporter after a caller handed over `batch`: where the batch is
    /// taken it stands last in the queue and is counted; else nothing has
    /// changed.
    pub open spec fn after_export(self, batch: Seq<SpanView>) -> ExporterView {
        if self.export_result() == ExportResult::Success {
            ExporterView {
                queue: self.queue.with_batch(batch),
                pending_count: self.pending_count + 1,
                ..self
            }
        } else {
            self
        }
    }

    /// A batch waits and a slot is free for its submission.
    pub open spec fn can_start(self) -> bool {
        self.queue.batches.len() > 0 && self.dispatcher.has_free_slot()
    }

    /// The exporter after the dispatcher tried to start a submission: where
    /// it could, the oldest batch has left the queue and runs.
    pub open spec fn after_start(self) -> ExporterView {
        if self.can_start() {
            ExporterView {
                queue: self.queue.without_first(),
                dispatcher: self.dispatcher.started(),
                ..self
            }
        } else {
            self
        }
    }

    /// The exporter after a submission ended: its slot is free and its
    /// batch is no longer counted. Where nothing ran, nothing has changed.
    pub open spec fn after_finish(self) -> ExporterView {
        if self.dispatcher.in_flight > 0 {
            ExporterView {
                dispatcher: self.dispatcher.completed(),
                pending_count: (self.pending_count - 1) as nat,
                ..self
            }
        } else {
            self
        }
    }

    /// The exporter after its queue was closed.
    pub open spec fn after_close(self) -> ExporterView {
        ExporterView { queue: self.queue.closed_off(), ..self }
    }

    /// What the dispatcher does next.
    pub open spec fn action(self) -> DispatchAction {
        if self.can_start() {
            DispatchAction::Start
        } else if self.queue.closed && self.idle() {
            DispatchAction::Stop
        } else {
            DispatchAction::Wait
        }
    }

    /// The exporter after one event.
    pub open spec fn after(self, event: PipelineEvent) -> ExporterView {
        match event {
            PipelineEvent::Export(batch) => self.after_export(batch),
            PipelineEvent::Start => self.after_start(),
            PipelineEvent::Finish(_) => self.after_finish(),
            PipelineEvent::Close => self.after_close(),
        }
    }

    /// The exporter after a course of events, the first of them first.
    pub open spec fn after_all(self, events: Seq<PipelineEvent>) -> ExporterView
        decreases events.len(),
    {
        if events.len() == 0 {
            self
        } else {
            self.after(events[0]).after_all(events.drop_first())
        }
    }

    /// The batches that are taken in a course of events, in the order in
    /// which they are taken.
    pub open spec fn taken_in(self, events: Seq<PipelineEvent>) -> Seq<Seq<SpanView>>
        decreases events.len(),
    {
        if events.len() == 0 {
            Seq::empty()
        } else {
            let now: Seq<Seq<SpanView>> = match events[0] {
                PipelineEvent::Export(batch) => if self.export_result() == ExportResult::Success {
                    seq![batch]
                } else {
                    Seq::empty()
                },
                _ => Seq::empty(),
            };
            now + self.after(events[0]).taken_in(events.drop_first())
        }
    }

    /// The batches whose submission starts in a course of events, in the
    /// order in which they start.
    pub open spec fn started_in(self, events: Seq<PipelineEvent>) -> Seq<Seq<SpanView>>
        decreases events.len(),
    {
        if events.len() == 0 {
            Seq::empty()
        } else {
            let now: Seq<Seq<SpanView>> = if events[0] is Start && self.can_start() {
                seq![self.queue.batches[0]]
            } else {
                Seq::empty()
            };
            now + self.after(events[0]).started_in(events.drop_first())
        }
    }

    /// The number of submissions that end in a course of events.
    pub open spec fn ended_in(self, events: Seq<PipelineEvent>) -> nat
        decreases events.len(),
    {
        if events.len() == 0 {
            0
        } else {
            let now: nat = if events[0] is Finish && self.dispatcher.in_flight > 0 {
                1
            } else {
                0
            };
            now + self.after(events[0]).ended_in(events.drop_first())
        }
    }

    /// Whether a shutdown that has lasted `elapsed_nanos` waits on.
    pub open spec fn shutdown_waits(self, elapsed_nanos: u128) -> bool {
        elapsed_nanos < self.maximum_shutdown_nanos && self.pending_count > 0
    }
}

/// The longest wait at shutdown that a configured time stands for: the
/// time itself, or five seconds where none is given.
pub open spec fn shutdown_nanos_of(maximum_shutdown_nanos: Option<u128>) -> u128 {
    match maximum_shutdown_nanos {
        Some(nanos) => nanos,
        None => DEFAULT_SHUTDOWN_NANOS,
    }
}

/// Exports batches of spans: a bounded queue, a bound on the submissions
/// that run at once, and the count of batches that are outstanding.
#[derive(Debug)]
pub struct StackDriverExporter {
    queue: IngestQueue,
    dispatcher: Dispatcher,
    pending_count: usize,
    maximum_shutdown_nanos: u128,
}

impl View for StackDriverExporter {
    type V = ExporterView;

    closed spec fn view(&self) -> ExporterView {
        ExporterView {
            queue: self.queue@,
            dispatcher: self.dispatcher@,
            pending_count: self.pending_count as nat,
            maximum_shutdown_nanos: self.maximum_shutdown_nanos,
        }
    }
}

impl StackDriverExporter {
    /// An exporter with an empty queue and nothing running. Where no time
    /// is given a shutdown waits five seconds at most; where no number of
    /// concurrent requests is given, or zero, there is no bound on them.
    pub fn new(
        maximum_shutdown_nanos: Option<u128>,
        num_concurrent_requests: Option<usize>,
    ) -> (exporter: StackDriverExporter)
        ensures
            exporter@.wf(),
            exporter@.queue == (QueueView {
                batches: Seq::empty(),
                capacity: QUEUE_CAPACITY as nat,
                closed: false,
            }),
            exporter@.dispatcher == (DispatcherView {
                limit: limit_of(num_concurrent_requests),
                in_flight: 0,
            }),
            exporter@.pending_count == 0,
            exporter@.maximum_shutdown_nanos == shutdown_nanos_of(maximum_shutdown_nanos),
    {
        let nanos: u128 = match maximum_shutdown_nanos {
            Some(nanos) => nanos,
            None => DEFAULT_SHUTDOWN_NANOS,
        };
        StackDriverExporter {
            queue: IngestQueue::new(QUEUE_CAPACITY),
            dispatcher: Dispatcher::new(num_concurrent_requests),
            pending_count: 0,
            maximum_shutdown_nanos: nanos,
        }
    }

    /// Whether the queue and the dispatcher are in order and the count of
    /// outstanding batches is what waits plus what runs.
    pub fn is_well_formed(&self) -> (ok: bool)
        ensures
            ok == self@.wf(),
    {
        self.queue.is_well_formed() && self.dispatcher.is_well_formed() && self.pending_count
            >= self.dispatcher.in_flight() && self.pending_count - self.dispatcher.in_flight()
            == self.queue.len()
    }

    /// The number of batches that were taken and whose submission has not
    /// ended.
    pub fn pending_count(&self) -> (count: usize)
        ensures
            count == self@.pending_count,
    {
        self.pending_count
    }

    /// The number of batches that wait in the queue.
    pub fn queued(&self) -> (count: usize)
        ensures
            count == self@.queue.batches.len(),
    {
        self.queue.len()
    }

    /// The number of submissions that run.
    pub fn in_flight(&self) -> (count: usize)
        ensures
            count == self@.dispatcher.in_flight,
    {
        self.dispatcher.in_flight()
    }

    /// Whether the queue was closed.
    pub fn is_closed(&self) -> (closed: bool)
        ensures
            closed == self@.queue.closed,
    {
        self.queue.is_closed()
    }

    /// The longest a shutdown waits, in nanoseconds.
    pub fn maximum_shutdown_nanos(&self) -> (nanos: u128)
        ensures
            nanos == self@.maximum_shutdown_nanos,
    {
        self.maximum_shutdown_nanos
    }

    /// Takes a batch into the queue and counts it, or refuses it at once:
    /// for good where the exporter is closed, for the moment where the
    /// batch does not fit. A batch that is refused is dropped.
    pub fn export(&mut self, batch: Vec<Span>) -> (result: ExportResult)
        requires
            old(self)@.wf(),
        ensures
            result == old(self)@.export_result(),
            final(self)@ == old(self)@.after_export(batch_view(batch@)),
            final(self)@.wf(),
    {
        if self.queue.is_closed() {
            return ExportResult::FailedNotRetryable;
        }
        if self.pending_count == usize::MAX {
            return ExportResult::FailedRetryable;
        }
        match self.queue.try_enqueue(batch) {
            Ok(()) => {
                self.pending_count = self.pending_count + 1;
                ExportResult::Success
            },
            Err(EnqueueError::Full) => ExportResult::FailedRetryable,
            Err(EnqueueError::Closed) => ExportResult::FailedNotRetryable,
        }
    }

    /// Says what the dispatcher does next.
    pub fn next_action(&self) -> (action: DispatchAction)
        ensures
            action == self@.action(),
    {
        if self.queue.len() > 0 && self.dispatcher.has_free_slot() {
            DispatchAction::Start
        } else if self.queue.is_closed() && self.queue.len() == 0 && self.dispatcher.in_flight()
            == 0 {
            DispatchAction::Stop
        } else {
            DispatchAction::Wait
        }
    }

    /// Starts the submission of the oldest batch that waits, where there
    /// is one and a slot is free: the batch leaves the queue and takes the
    /// slot. The batch stays counted as outstanding.
    pub fn start_next(&mut self) -> (submission: Option<Submission>)
        requires
            old(self)@.wf(),
        ensures
            submission is Some == old(self)@.can_start(),
            submission matches Some(s) ==> s@ == SubmissionView::fresh(old(self)@.queue.batches[0])
                && s@.wf(),
            final(self)@ == old(self)@.after_start(),
            final(self)@.wf(),
    {
        if self.queue.len() == 0 || !self.dispatcher.has_free_slot() {
            return None;
        }
        match self.queue.dequeue() {
            Some(batch) => {
                let started = self.dispatcher.start();
                assert(started);
                Some(Submission::new(batch))
            },
            None => None,
        }
    }

    /// Takes back a submission that has ended, however it ended: its slot
    /// is free again and its batch is no longer counted. Answers how it
    /// ended.
    pub fn finish(&mut self, submission: Submission) -> (outcome: Option<Outcome>)
        requires
            old(self)@.wf(),
        ensures
            outcome == outcome_of(submission@.phase),
            final(self)@ == old(self)@.after_finish(),
            final(self)@.wf(),
    {
        if self.dispatcher.complete() {
            self.pending_count = self.pending_count - 1;
        }
        submission.outcome()
    }

    /// Closes the queue: no batch is taken from now on. The batches that
    /// wait are still submitted.
    pub fn close(&mut self)
        requires
            old(self)@.wf(),
        ensures
            final(self)@ == old(self)@.after_close(),
            final(self)@.wf(),
    {
        self.queue.close();
    }

    /// Decides whether a shutdown that has lasted `elapsed_nanos` waits
    /// on: it does while time is left and batches are outstanding.
    pub fn shutdown_waits(&self, elapsed_nanos: u128) -> (wait: bool)
        ensures
            wait == self@.shutdown_waits(elapsed_nanos),
            wait == waits(
                self@.maximum_shutdown_nanos,
                Observation { elapsed_nanos, pending: self@.pending_count as usize },
            ),
    {
        keep_waiting(self.maximum_shutdown_nanos, elapsed_nanos, self.pending_count)
    }
}

/// An exporter that is in order is in order after any event.
pub proof fn event_keeps_wf(s: ExporterView, event: PipelineEvent)
    requires
        s.wf(),
    ensures
        s.after(event).wf(),
        s.after(event).dispatcher.limit == s.dispatcher.limit,
        s.after(event).queue.capacity == s.queue.capacity,
{
}

/// An exporter that is in order is in order after any course of events:
/// the queue never holds more batches than its capacity, and the count of
/// outstanding batches is always the number of batches that wait plus the
/// number of submissions that run.
pub proof fn events_keep_wf(s: ExporterView, events: Seq<PipelineEvent>)
    requires
        s.wf(),
    ensures
        s.after_all(events).wf(),
        s.after_all(events).dispatcher.limit == s.dispatcher.limit,
        s.after_all(events).queue.capacity == s.queue.capacity,
    decreases events.len(),
{
    if events.len() > 0 {
        event_keeps_wf(s, events[0]);
        events_keep_wf(s.after(events[0]), events.drop_first());
    }
}

/// With a bound on concurrency, no more submissions than the bound run at
/// any time, whatever happens.
pub proof fn in_flight_stays_within_limit(s: ExporterView, events: Seq<PipelineEvent>)
    requires
        s.wf(),
        s.dispatcher.limit > 0,
    ensures
        s.after_all(events).dispatcher.in_flight <= s.dispatcher.limit,
{
    events_keep_wf(s, events);
}

/// The count of outstanding batches goes up by one for each batch that is
/// taken and down by one for each submission that ends, and moves for
/// nothing else.
pub proof fn pending_count_is_taken_less_ended(s: ExporterView, events: Seq<PipelineEvent>)
    requires
        s.wf(),
    ensures
        s.after_all(events).pending_count + s.ended_in(events) == s.pending_count + s.taken_in(
            events,
        ).len(),
    decreases events.len(),
{
    if events.len() > 0 {
        event_keeps_wf(s, events[0]);
        pending_count_is_taken_less_ended(s.after(events[0]), events.drop_first());
    }
}

/// Once every batch that was taken has been submitted and every
/// submission has ended, however each of them ended, the count of
/// outstanding batches is zero again.
pub proof fn pending_count_returns_to_zero(s: ExporterView, events: Seq<PipelineEvent>)
    requires
        s.wf(),
        s.after_all(events).idle(),
    ensures
        s.after_all(events).pending_count == 0,
        s.pending_count + s.taken_in(events).len() == s.ended_in(events),
{
    events_keep_wf(s, events);
    pending_count_is_taken_less_ended(s, events);
}

/// Batches are neither lost nor made, neither split nor merged, and they
/// keep their order: the batches that waited at first, followed by those
/// taken since, are the batches whose submission has started, followed by
/// those that still wait.
pub proof fn batches_pass_whole_and_in_order(s: ExporterView, events: Seq<PipelineEvent>)
    requires
        s.wf(),
    ensures
        s.queue.batches + s.taken_in(events) == s.started_in(events) + s.after_all(
            events,
        ).queue.batches,
    decreases events.len(),
{
    if events.len() > 0 {
        let next = s.after(events[0]);
        let rest = events.drop_first();
        event_keeps_wf(s, events[0]);
        batches_pass_whole_and_in_order(next, rest);
        match events[0] {
            PipelineEvent::Export(batch) => {
                if s.export_result() == ExportResult::Success {
                    assert(s.queue.batches + (seq![batch] + next.taken_in(rest)) == s.queue.batches.push(
                        batch,
                    ) + next.taken_in(rest));
                }
            },
            PipelineEvent::Start => {
                if s.can_start() {
                    let first = s.queue.batches[0];
                    assert(s.queue.batches == seq![first] + s.queue.batches.drop_first());
                    assert((seq![first] + s.queue.batches.drop_first()) + next.taken_in(rest)
                        == seq![first] + (s.queue.batches.drop_first() + next.taken_in(rest)));
                    assert(seq![first] + (next.started_in(rest) + s.after_all(events).queue.batches)
                        == (seq![first] + next.started_in(rest)) + s.after_all(
                        events,
                    ).queue.batches);
                }
            },
            _ => {},
        }
    }
}

/// How a submission ended makes no difference to the exporter: after a
/// submission that failed, all that follows goes as it would have gone
/// after one that was delivered.
pub proof fn outcome_leaves_no_trace(
    s: ExporterView,
    first: Outcome,
    second: Outcome,
    later: Seq<PipelineEvent>,
)
    ensures
        s.after(PipelineEvent::Finish(first)).after_all(later) == s.after(PipelineEvent::Finish(second)).after_all(
            later,
        ),
{
}

/// A batch that is handed over after a submission failed is taken
/// whenever it would have been taken after a success, and a batch that
/// waits can start as soon as the failed submission has ended.
pub proof fn failure_does_not_block_later_batches(s: ExporterView, failure: Outcome)
    requires
        s.wf(),
        s.dispatcher.in_flight > 0,
    ensures
        s.after(PipelineEvent::Finish(failure)).export_result() == s.after(
            PipelineEvent::Finish(Outcome::Delivered),
        ).export_result(),
        s.after(PipelineEvent::Finish(failure)).queue == s.queue,
        s.queue.batches.len() > 0 ==> s.after(PipelineEvent::Finish(failure)).can_start(),
{
}

/// A full queue answers at once that the batch may be tried again, and
/// keeps what it holds.
pub proof fn full_queue_sheds_load(s: ExporterView, batch: Seq<SpanView>)
    requires
        s.wf(),
        !s.queue.closed,
        s.queue.is_full(),
    ensures
        s.export_result() == ExportResult::FailedRetryable,
        s.after_export(batch) == s,
{
}

/// Batches start in the order in which they were taken: a batch that is
/// taken stands behind all that wait, and the batch that starts is the one
/// that has waited longest.
pub proof fn batches_start_in_order(s: ExporterView, batch: Seq<SpanView>)
    requires
        s.wf(),
        s.export_result() == ExportResult::Success,
    ensures
        s.after_export(batch).queue.batches == s.queue.batches.push(batch),
        s.queue.batches.len() > 0 ==> s.after_export(batch).queue.batches[0] == s.queue.batches[0],
        s.can_start() ==> s.after_start().queue.batches == s.queue.batches.drop_first(),
{
}

} // verus!
