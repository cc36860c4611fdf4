//! What the window is doing, and how it says so.

use crate::clock::{elapsed_since, whole_seconds};
use crate::digits::{decimal, push_decimal, push_padded, zero_padded};
use crate::worker::TTS_TIMEOUT_SECONDS;
use std::time::Instant;
use vstd::prelude::*;
use vstd::string::*;

verus! {

/// The state of the window. Only the window changes it, by what it sees of
/// the worker's outcomes; the worker never touches it.
#[derive(Clone, Copy)]
pub enum Status {
    /// Waiting for a prompt.
    Idle,
    /// A request is under way since the given time.
    Processing(Instant),
    /// The last request ended well.
    Success,
}

/// What the window shows while a request has been under way for `seconds`:
/// the seconds with at least three digits, and the seconds after which the
/// request is given up.
pub open spec fn processing_label(seconds: u64) -> Seq<char> {
    "Processing ["@ + zero_padded(decimal(seconds as nat), 3) + "s / "@ + decimal(
        TTS_TIMEOUT_SECONDS as nat,
    ) + "s]"@
}

/// What the window shows for a status, where `seconds` is the time that a
/// request has been under way.
pub open spec fn status_label(status: Status, seconds: u64) -> Seq<char> {
    match status {
        Status::Idle => "Idle"@,
        Status::Processing(_) => processing_label(seconds),
        Status::Success => "Success"@,
    }
}

/// Builds [`processing_label`].
pub fn processing_text(seconds: u64) -> (label: String)
    ensures
        label@ == processing_label(seconds),
{
    let mut label = "Processing [".to_owned();
    push_padded(&mut label, seconds);
    label.append("s / ");
    push_decimal(&mut label, TTS_TIMEOUT_SECONDS);
    label.append("s]");
    label
}

impl Status {
    /// Whether a request is under way.
    pub fn is_processing(&self) -> (yes: bool)
        ensures
            yes == (*self is Processing),
    {
        match self {
            Status::Processing(_) => true,
            _ => false,
        }
    }

    /// The label of the status, given the seconds that a request has been
    /// under way: see [`status_label`].
    pub fn describe_after(&self, seconds: u64) -> (label: String)
        ensures
            label@ == status_label(*self, seconds),
    {
        match self {
            Status::Idle => "Idle".to_owned(),
            Status::Processing(_) => processing_text(seconds),
            Status::Success => "Success".to_owned(),
        }
    }

    /// The label of the status now. For a request under way it shows the
    /// whole seconds since the request began, read from the clock.
    pub fn describe(&self) -> (label: String)
        ensures
            exists|seconds: u64| label@ == #[trigger] status_label(*self, seconds),
    {
        let seconds = match self {
            Status::Processing(start) => {
                let elapsed = elapsed_since(start);
                whole_seconds(&elapsed)
            },
            _ => 0,
        };
        self.describe_after(seconds)
    }
}

} // verus!
