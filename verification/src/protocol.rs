//! What travels between the window and the background worker: requests one
//! way, outcomes the other.

use vstd::prelude::*;

verus! {

/// One synthesis job: speak `text` in `voice` and save the audio at
/// `output_path`.
#[derive(Debug, Clone, PartialEq, Eq)]
pub struct SynthesisRequest {
    /// Identifier of the voice, as the voice table knows it.
    pub voice: String,
    /// The text to speak.
    pub text: String,
    /// Where the audio file goes.
    pub output_path: String,
}

/// A request as plain character sequences.
pub ghost struct RequestView {
    pub voice: Seq<char>,
    pub text: Seq<char>,
    pub output_path: Seq<char>,
}

impl View for SynthesisRequest {
    type V = RequestView;

    open spec fn view(&self) -> RequestView {
        RequestView { voice: self.voice@, text: self.text@, output_path: self.output_path@ }
    }
}

/// A failure to show to the user.
#[derive(Debug, Clone, PartialEq, Eq)]
pub struct SynthesisError {
    /// Heading of the error window.
    pub title: String,
    /// The detail text.
    pub message: String,
    /// Whether the program must end once the user has seen the error.
    pub fatal: bool,
    /// Whether the user has confirmed the error. Only the window sets this.
    pub acknowledged: bool,
}

/// An error as plain values.
pub ghost struct ErrorView {
    pub title: Seq<char>,
    pub message: Seq<char>,
    pub fatal: bool,
    pub acknowledged: bool,
}

impl View for SynthesisError {
    type V = ErrorView;

    open spec fn view(&self) -> ErrorView {
        ErrorView {
            title: self.title@,
            message: self.message@,
            fatal: self.fatal,
            acknowledged: self.acknowledged,
        }
    }
}

/// How one request ended: the file was written, or an error.
pub type SynthesisOutcome = Result<(), SynthesisError>;

/// An outcome as plain values.
pub open spec fn outcome_view(outcome: SynthesisOutcome) -> Result<(), ErrorView> {
    match outcome {
        Ok(_) => Ok(()),
        Err(e) => Err(e@),
    }
}

/// An error that nobody has confirmed yet.
pub open spec fn fresh_error(title: Seq<char>, message: Seq<char>, fatal: bool) -> ErrorView {
    ErrorView { title, message, fatal, acknowledged: false }
}

/// The error for a request that got no response: connection failure or
/// timeout. The worker stays usable.
pub open spec fn generation_failure(description: Seq<char>) -> ErrorView {
    fresh_error("failed to generate audio"@, description, false)
}

/// The error for audio that could not be read or written. The worker stays
/// usable.
pub open spec fn save_failure(description: Seq<char>) -> ErrorView {
    fresh_error("failed to save the audio"@, description, false)
}

/// The error for a worker that ended while the window still needs it.
pub open spec fn worker_exited() -> ErrorView {
    fresh_error(
        "Error: The downloader thread has exited unexpectedly."@,
        "As the message says, the downloader thread has panicked for some reason. The application cannot continue functioning without it and must be shut down."@,
        true,
    )
}

/// The error for a request that could not be handed to the worker.
pub open spec fn submission_failure(description: Seq<char>) -> ErrorView {
    fresh_error("A critical error has occurred"@, description, true)
}

impl SynthesisError {
    /// An error with the given heading and text, not yet confirmed.
    pub fn new(title: String, message: String, fatal: bool) -> (error: SynthesisError)
        ensures
            error@ == fresh_error(title@, message@, fatal),
            error.title == title,
            error.message == message,
    {
        SynthesisError { title, message, fatal, acknowledged: false }
    }

    /// See [`generation_failure`].
    pub fn generation_failed(description: String) -> (error: SynthesisError)
        ensures
            error@ == generation_failure(description@),
    {
        SynthesisError::new("failed to generate audio".to_owned(), description, false)
    }

    /// See [`save_failure`].
    pub fn save_failed(description: String) -> (error: SynthesisError)
        ensures
            error@ == save_failure(description@),
    {
        SynthesisError::new("failed to save the audio".to_owned(), description, false)
    }

    /// See [`worker_exited`].
    pub fn worker_exited() -> (error: SynthesisError)
        ensures
            error@ == worker_exited(),
    {
        SynthesisError::new(
            "Error: The downloader thread has exited unexpectedly.".to_owned(),
            "As the message says, the downloader thread has panicked for some reason. The application cannot continue functioning without it and must be shut down.".to_owned(),
            true,
        )
    }

    /// See [`submission_failure`].
    pub fn submission_failed(description: String) -> (error: SynthesisError)
        ensures
            error@ == submission_failure(description@),
    {
        SynthesisError::new("A critical error has occurred".to_owned(), description, true)
    }

    /// Records that the user has confirmed the error. The result says whether
    /// the program has to end now.
    pub fn acknowledge(&mut self) -> (quit: bool)
        ensures
            final(self)@ == (ErrorView { acknowledged: true, ..old(self)@ }),
            quit == old(self).fatal,
    {
        self.acknowledged = true;
        self.fatal
    }
}

} // verus!
