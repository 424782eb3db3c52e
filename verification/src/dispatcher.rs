//! The bound on submissions that run at once, and the course of one
//! submission.

use vstd::prelude::*;
use crate::span::{batch_view, Span, SpanView};
use crate::translate::{
    build_request, request_for, BatchWriteSpansRequest, BatchWriteSpansRequestView,
};

verus! {

/// What a `Dispatcher` holds: the bound on submissions that run at once,
/// where zero stands for no bound, and the number that run.
pub struct DispatcherView {
    pub limit: nat,
    pub in_flight: nat,
}

impl DispatcherView {
    /// Where there is a bound, no more submissions run than it allows; and
    /// their number fits a machine word.
    pub open spec fn wf(self) -> bool {
        &&& self.limit > 0 ==> self.in_flight <= self.limit
        &&& self.in_flight <= usize::MAX
    }

    /// One more submission may start.
    pub open spec fn has_free_slot(self) -> bool {
        &&& self.limit == 0 || self.in_flight < self.limit
        &&& self.in_flight < usize::MAX
    }

    /// The dispatcher after one more submission started.
    pub open spec fn started(self) -> DispatcherView {
        DispatcherView { in_flight: self.in_flight + 1, ..self }
    }

    /// The dispatcher after one submission ended.
    pub open spec fn completed(self) -> DispatcherView {
        DispatcherView { in_flight: (self.in_flight - 1) as nat, ..self }
    }
}

/// The bound that a configured number of concurrent requests stands for:
/// none where the number is absent or zero.
pub open spec fn limit_of(num_concurrent_requests: Option<usize>) -> nat {
    match num_concurrent_requests {
        Some(n) => n as nat,
        None => 0,
    }
}

/// Counts the submissions that run and keeps them within the bound.
#[derive(Debug)]
pub struct Dispatcher {
    limit: usize,
    in_flight: usize,
}

impl View for Dispatcher {
    type V = DispatcherView;

    closed spec fn view(&self) -> DispatcherView {
        DispatcherView { limit: self.limit as nat, in_flight: self.in_flight as nat }
    }
}

impl Dispatcher {
    /// A dispatcher with nothing running. An absent number, or zero, sets
    /// no bound.
    pub fn new(num_concurrent_requests: Option<usize>) -> (dispatcher: Dispatcher)
        ensures
            dispatcher@ == (DispatcherView {
                limit: limit_of(num_concurrent_requests),
                in_flight: 0,
            }),
            dispatcher@.wf(),
    {
        let limit: usize = match num_concurrent_requests {
            Some(n) => n,
            None => 0,
        };
        Dispatcher { limit, in_flight: 0 }
    }

    /// Whether the submissions that run are within the bound.
    pub fn is_well_formed(&self) -> (ok: bool)
        ensures
            ok == self@.wf(),
    {
        self.limit == 0 || self.in_flight <= self.limit
    }

    /// The bound on submissions that run at once, if there is one.
    pub fn limit(&self) -> (limit: Option<usize>)
        ensures
            limit == if self@.limit == 0 { None } else { Some(self@.limit as usize) },
    {
        if self.limit == 0 {
            None
        } else {
            Some(self.limit)
        }
    }

    /// The number of submissions that run.
    pub fn in_flight(&self) -> (n: usize)
        ensures
            n == self@.in_flight,
    {
        self.in_flight
    }

    /// Whether one more submission may start.
    pub fn has_free_slot(&self) -> (free: bool)
        ensures
            free == self@.has_free_slot(),
    {
        (self.limit == 0 || self.in_flight < self.limit) && self.in_flight < usize::MAX
    }

    /// Takes a slot for one more submission, if one is free, and says
    /// whether it did.
    pub fn start(&mut self) -> (started: bool)
        requires
            old(self)@.wf(),
        ensures
            started == old(self)@.has_free_slot(),
            started ==> final(self)@ == old(self)@.started(),
            !started ==> final(self)@ == old(self)@,
            final(self)@.wf(),
    {
        if self.has_free_slot() {
            self.in_flight = self.in_flight + 1;
            true
        } else {
            false
        }
    }

    /// Gives the slot of a submission back, if any is taken, and says
    /// whether it did.
    pub fn complete(&mut self) -> (completed: bool)
        requires
            old(self)@.wf(),
        ensures
            completed == (old(self)@.in_flight > 0),
            completed ==> final(self)@ == old(self)@.completed(),
            !completed ==> final(self)@ == old(self)@,
            final(self)@.wf(),
    {
        if self.in_flight > 0 {
            self.in_flight = self.in_flight - 1;
            true
        } else {
            false
        }
    }
}

/// How the submission of a batch ended.
#[derive(Clone, Copy, Debug, PartialEq, Eq, Structural)]
pub enum Outcome {
    /// The trace service took the batch.
    Delivered,
    /// The request was not authorized; it was not sent.
    AuthorizationFailed,
    /// The request was authorized and sent, and the send failed.
    SendFailed,
}

/// Where the submission of a batch stands.
#[derive(Clone, Copy, Debug, PartialEq, Eq, Structural)]
pub enum Phase {
    /// The batch waits to be translated into a request.
    Translating,
    /// The request is built and waits to be authorized.
    Authorizing,
    /// The request was authorized and waits to be sent.
    Sending,
    /// Nothing more is done for the batch.
    Finished(Outcome),
}

/// The phase that follows once the authorizer has answered. A refusal
/// ends the submission; the request is never sent.
pub open spec fn phase_after_authorization(phase: Phase, granted: bool) -> Phase {
    match phase {
        Phase::Authorizing => if granted {
            Phase::Sending
        } else {
            Phase::Finished(Outcome::AuthorizationFailed)
        },
        _ => phase,
    }
}

/// The phase that follows once the send has ended. Either way the
/// submission is over; a failed send is not tried again.
pub open spec fn phase_after_send(phase: Phase, accepted: bool) -> Phase {
    match phase {
        Phase::Sending => if accepted {
            Phase::Finished(Outcome::Delivered)
        } else {
            Phase::Finished(Outcome::SendFailed)
        },
        _ => phase,
    }
}

/// The outcome that a phase stands for, once the submission is over.
pub open spec fn outcome_of(phase: Phase) -> Option<Outcome> {
    match phase {
        Phase::Finished(outcome) => Some(outcome),
        _ => None,
    }
}

/// What a `Submission` holds: the batch, the request once it is built,
/// and the phase.
pub struct SubmissionView {
    pub batch: Seq<SpanView>,
    pub request: Option<BatchWriteSpansRequestView>,
    pub phase: Phase,
}

impl SubmissionView {
    /// A submission has its request from the time it is translated.
    pub open spec fn wf(self) -> bool {
        self.phase is Translating <==> self.request is None
    }

    /// The submission of a batch that has just left the queue.
    pub open spec fn fresh(batch: Seq<SpanView>) -> SubmissionView {
        SubmissionView { batch, request: None, phase: Phase::Translating }
    }

    /// The submission after its batch was translated under `project_id`:
    /// it holds the request and waits to be authorized. A submission that
    /// was translated before stays as it is.
    pub open spec fn translated(self, project_id: Seq<char>) -> SubmissionView {
        match self.phase {
            Phase::Translating => SubmissionView {
                request: Some(request_for(project_id, self.batch)),
                phase: Phase::Authorizing,
                ..self
            },
            _ => self,
        }
    }

    /// The submission after the authorizer has answered.
    pub open spec fn authorized(self, granted: bool) -> SubmissionView {
        SubmissionView { phase: phase_after_authorization(self.phase, granted), ..self }
    }

    /// The submission after the send has ended.
    pub open spec fn sent(self, accepted: bool) -> SubmissionView {
        SubmissionView { phase: phase_after_send(self.phase, accepted), ..self }
    }
}

/// One batch on its way to the trace service: the batch, the request
/// built from it, and how far it has come.
#[derive(Debug)]
pub struct Submission {
    batch: Vec<Span>,
    request: Option<BatchWriteSpansRequest>,
    phase: Phase,
}

impl View for Submission {
    type V = SubmissionView;

    closed spec fn view(&self) -> SubmissionView {
        SubmissionView {
            batch: batch_view(self.batch@),
            request: match self.request {
                Some(request) => Some(request@),
                None => None,
            },
            phase: self.phase,
        }
    }
}

impl Submission {
    /// The submission of a batch that has just left the queue.
    pub(crate) fn new(batch: Vec<Span>) -> (submission: Submission)
        ensures
            submission@ == SubmissionView::fresh(batch_view(batch@)),
            submission@.wf(),
    {
        Submission { batch, request: None, phase: Phase::Translating }
    }

    /// Whether the submission has its request from the time it is
    /// translated.
    pub fn is_well_formed(&self) -> (ok: bool)
        ensures
            ok == self@.wf(),
    {
        match self.phase {
            Phase::Translating => self.request.is_none(),
            _ => self.request.is_some(),
        }
    }

    /// The request to authorize and send, once the batch is translated.
    pub fn request(&self) -> (request: Option<&BatchWriteSpansRequest>)
        ensures
            match request {
                Some(r) => self@.request == Some(r@),
                None => self@.request is None,
            },
    {
        self.request.as_ref()
    }

    /// Where the submission stands.
    pub fn phase(&self) -> (phase: Phase)
        ensures
            phase == self@.phase,
    {
        self.phase
    }

    /// How the submission ended, once it is over.
    pub fn outcome(&self) -> (outcome: Option<Outcome>)
        ensures
            outcome == outcome_of(self@.phase),
    {
        match self.phase {
            Phase::Finished(outcome) => Some(outcome),
            _ => None,
        }
    }

    /// Translates the batch and builds the request for it under
    /// `project_id`.
    pub fn translate(&mut self, project_id: &str)
        requires
            old(self)@.wf(),
        ensures
            final(self)@ == old(self)@.translated(project_id@),
            final(self)@.wf(),
    {
        match self.phase {
            Phase::Translating => {
                self.request = Some(build_request(project_id, &self.batch));
                self.phase = Phase::Authorizing;
            },
            _ => {},
        }
    }

    /// Takes the authorizer's answer. The request stays as it is.
    pub fn authorized(&mut self, granted: bool)
        requires
            old(self)@.wf(),
        ensures
            final(self)@ == old(self)@.authorized(granted),
            final(self)@.wf(),
    {
        match self.phase {
            Phase::Authorizing => {
                if granted {
                    self.phase = Phase::Sending;
                } else {
                    self.phase = Phase::Finished(Outcome::AuthorizationFailed);
                }
            },
            _ => {},
        }
    }

    /// Takes the end of the send. The request stays as it is.
    pub fn sent(&mut self, accepted: bool)
        requires
            old(self)@.wf(),
        ensures
            final(self)@ == old(self)@.sent(accepted),
            final(self)@.wf(),
    {
        match self.phase {
            Phase::Sending => {
                if accepted {
                    self.phase = Phase::Finished(Outcome::Delivered);
                } else {
                    self.phase = Phase::Finished(Outcome::SendFailed);
                }
            },
            _ => {},
        }
    }
}

/// A submission comes to its end in one of three ways, and in no other:
/// refused by the authorizer and never sent, sent and failed, or
/// delivered.
pub proof fn submission_ends_in_one_of_three_ways(
    batch: Seq<SpanView>,
    project_id: Seq<char>,
    granted: bool,
    accepted: bool,
)
    ensures
        ({
            let translated = SubmissionView::fresh(batch).translated(project_id);
            let answered = translated.authorized(granted);
            &&& translated.phase == Phase::Authorizing
            &&& translated.request == Some(request_for(project_id, batch))
            &&& !granted ==> answered.phase == Phase::Finished(Outcome::AuthorizationFailed)
            &&& !granted ==> answered.sent(accepted) == answered
            &&& granted && accepted ==> answered.sent(accepted).phase == Phase::Finished(
                Outcome::Delivered,
            )
            &&& granted && !accepted ==> answered.sent(accepted).phase == Phase::Finished(
                Outcome::SendFailed,
            )
            &&& answered.sent(accepted).request == translated.request
        }),
{
}

} // verus!
