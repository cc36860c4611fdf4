//! The two channels between the window and the worker, and the handle that
//! each side holds. Requests go to the worker on one channel, outcomes come
//! back on the other. When one side drops its handle, the other side sees its
//! channels disconnected: that is how the worker is told to end, and how the
//! window learns that the worker is gone.

use crate::protocol::{SynthesisOutcome, SynthesisRequest};
use crossbeam_channel::{Receiver, Sender, TryRecvError};
use vstd::prelude::*;

verus! {

/// The sending end of a channel of `crossbeam_channel`. Nothing of its
/// inside is known here.
#[verifier::external_type_specification]
#[verifier::external_body]
#[verifier::reject_recursive_types(T)]
pub struct ExSender<T>(Sender<T>);

/// The receiving end of a channel of `crossbeam_channel`. Nothing of its
/// inside is known here.
#[verifier::external_type_specification]
#[verifier::external_body]
#[verifier::reject_recursive_types(T)]
pub struct ExReceiver<T>(Receiver<T>);

/// The window's side: requests go in, outcomes come out.
pub struct WorkerHandle {
    requests: Sender<SynthesisRequest>,
    outcomes: Receiver<SynthesisOutcome>,
}

/// The worker's side: requests come out, outcomes go in.
pub struct WorkerEndpoint {
    requests: Receiver<SynthesisRequest>,
    outcomes: Sender<SynthesisOutcome>,
}

/// A request could not be handed over: the worker has ended.
#[derive(Debug, PartialEq, Eq)]
pub struct SendFailure {
    /// What the channel says about the failure.
    pub description: String,
}

/// What a look at the outcome channel found.
#[derive(Debug, PartialEq, Eq)]
pub enum Polled {
    /// Nothing yet: the worker is idle or still busy.
    Pending,
    /// The outcome of the request in flight.
    Ready(SynthesisOutcome),
    /// The channel is closed for good: the worker has ended.
    Disconnected,
}

/// What `crossbeam_channel::SendError` prints.
pub open spec fn disconnected_text() -> Seq<char> {
    "sending on a disconnected channel"@
}

/// Calls `crossbeam_channel::unbounded`, which makes a channel that holds any
/// number of messages and returns its two ends. Nothing is stated of them.
#[verifier::external_body]
fn new_channel<T>() -> (ends: (Sender<T>, Receiver<T>)) {
    crossbeam_channel::unbounded()
}

/// Calls `Sender::send`, which on a channel made by [`new_channel`] returns
/// at once: with `Ok` when the message is in the channel, or, when the
/// receiving end is gone, with an error, whose text is what the contract
/// says. Which of the two happens is up to the other side.
#[verifier::external_body]
fn send_message<T>(to: &Sender<T>, message: T) -> (sent: Result<(), String>)
    ensures
        sent matches Err(description) ==> description@ == disconnected_text(),
{
    match to.send(message) {
        Ok(()) => Ok(()),
        Err(error) => Err(error.to_string()),
    }
}

/// Calls `Receiver::recv`, which waits until a message is there and returns
/// it, or returns an error once the channel is empty and every sender is
/// gone. Which of the two happens is up to the other side.
#[verifier::external_body]
fn receive_message<T>(from: &Receiver<T>) -> (message: Option<T>) {
    from.recv().ok()
}

/// Calls `Receiver::try_recv`, which never waits: it returns a message if one
/// is there, and else says whether the channel is merely empty or is empty
/// and disconnected. Which of the three happens is up to the other side.
#[verifier::external_body]
fn look_for_outcome(from: &Receiver<SynthesisOutcome>) -> (found: Polled) {
    match from.try_recv() {
        Ok(outcome) => Polled::Ready(outcome),
        Err(TryRecvError::Empty) => Polled::Pending,
        Err(TryRecvError::Disconnected) => Polled::Disconnected,
    }
}

/// Makes the two channels and returns the handle of each side.
pub fn worker_channels() -> (sides: (WorkerHandle, WorkerEndpoint)) {
    let (request_in, request_out) = new_channel::<SynthesisRequest>();
    let (outcome_in, outcome_out) = new_channel::<SynthesisOutcome>();
    (
        WorkerHandle { requests: request_in, outcomes: outcome_out },
        WorkerEndpoint { requests: request_out, outcomes: outcome_in },
    )
}

impl WorkerHandle {
    /// Hands a request to the worker. This fails only when the worker has
    /// ended; the caller has to treat that as fatal.
    pub fn submit(&self, request: SynthesisRequest) -> (sent: Result<(), SendFailure>)
        ensures
            sent matches Err(failure) ==> failure.description@ == disconnected_text(),
    {
        match send_message(&self.requests, request) {
            Ok(()) => Ok(()),
            Err(description) => Err(SendFailure { description }),
        }
    }

    /// Looks for an outcome without waiting.
    pub fn poll(&self) -> (found: Polled) {
        look_for_outcome(&self.outcomes)
    }
}

impl WorkerEndpoint {
    /// Waits for the next request. `None` means that the window has dropped
    /// its handle: the worker is to end.
    pub fn next_request(&self) -> (request: Option<SynthesisRequest>) {
        receive_message(&self.requests)
    }

    /// Hands an outcome to the window. If the window is gone, the outcome is
    /// dropped and nothing else happens.
    pub fn deliver(&self, outcome: SynthesisOutcome) {
        let _ = send_message(&self.outcomes, outcome);
    }
}

} // verus!
