//! The decisions of the background worker. The worker takes one request at a
//! time, posts it to the speech service, saves the audio it gets back and
//! reports one outcome. Everything it decides is in [`WorkerState::step`]: the
//! caller performs the action that a step asks for and hands back what
//! happened as the next event.

use crate::http::{code_digits, is_success_code, status_line, HttpStatus};
use crate::protocol::{
    fresh_error, generation_failure, outcome_view, save_failure, ErrorView, RequestView,
    SynthesisError, SynthesisOutcome, SynthesisRequest,
};
use crate::voices::VoiceTable;
use vstd::prelude::*;
use vstd::string::*;

verus! {

/// Address of the speech service.
pub const TTS_ENDPOINT: &'static str = "https://mumble.stream/speak";

/// Content type of the request body.
pub const JSON_CONTENT_TYPE: &'static str = "application/json";

/// Seconds after which a request without a response is given up. The service
/// sometimes never answers.
pub const TTS_TIMEOUT_SECONDS: u64 = 180;

/// Where the worker stands between two steps.
#[derive(Debug, PartialEq, Eq)]
pub enum WorkerState {
    /// Idle: waiting for the next request.
    AwaitingRequest,
    /// A request was posted; the response is awaited.
    AwaitingReply { output_path: String },
    /// The service reported success; its body is being read as audio.
    ReadingAudio { output_path: String },
    /// The service reported a failure; its body is being read as text.
    ReadingRejection { status: HttpStatus },
    /// The audio is being written to disk.
    Saving,
    /// The outcome is being handed to the window.
    Delivering,
    /// The worker has ended.
    Stopped,
}

/// What happened to the action that the last step asked for.
#[derive(Debug, PartialEq, Eq)]
pub enum WorkerEvent {
    /// The wait for a request ended: with a request, or, when the window has
    /// dropped its handle, with nothing.
    Inbound(Option<SynthesisRequest>),
    /// The post ended: with the status of the response, or with the
    /// description of a transport failure (no connection, or the timeout).
    Reply(Result<HttpStatus, String>),
    /// The body of a successful response was read: its bytes, or why not.
    Audio(Result<Vec<u8>, String>),
    /// The body of a failed response was read as text, unless it could not be.
    ErrorText(Option<String>),
    /// The write ended: the file is there, or the description of the failure.
    Saved(Result<(), String>),
    /// The outcome was handed over (or dropped, if nobody listens any more).
    Delivered,
}

/// What the worker's caller has to do next.
#[derive(Debug, PartialEq, Eq)]
pub enum WorkerAction {
    /// Wait for the next request.
    Receive,
    /// Post `body` to `url` with the given content type.
    Post { url: String, content_type: String, body: String },
    /// Read the body of the response as bytes.
    ReadAudio,
    /// Read the body of the response as text.
    ReadErrorText,
    /// Write `audio` to the file at `path`, replacing what is there.
    Save { path: String, audio: Vec<u8> },
    /// Hand the outcome to the window.
    Deliver(SynthesisOutcome),
    /// End: the window is gone.
    Stop,
    /// End without an outcome: a request named a voice that the table does not
    /// hold, or an event came out of turn.
    Abort,
}

pub ghost enum StateView {
    AwaitingRequest,
    AwaitingReply { output_path: Seq<char> },
    ReadingAudio { output_path: Seq<char> },
    ReadingRejection { status: u16 },
    Saving,
    Delivering,
    Stopped,
}

pub ghost enum EventView {
    Inbound(Option<RequestView>),
    Reply(Result<u16, Seq<char>>),
    Audio(Result<Seq<u8>, Seq<char>>),
    ErrorText(Option<Seq<char>>),
    Saved(Result<(), Seq<char>>),
    Delivered,
}

pub ghost enum ActionView {
    Receive,
    Post { url: Seq<char>, content_type: Seq<char>, body: Seq<char> },
    ReadAudio,
    ReadErrorText,
    Save { path: Seq<char>, audio: Seq<u8> },
    Deliver(Result<(), ErrorView>),
    Stop,
    Abort,
}

impl View for WorkerState {
    type V = StateView;

    open spec fn view(&self) -> StateView {
        match *self {
            WorkerState::AwaitingRequest => StateView::AwaitingRequest,
            WorkerState::AwaitingReply { output_path } => StateView::AwaitingReply {
                output_path: output_path@,
            },
            WorkerState::ReadingAudio { output_path } => StateView::ReadingAudio {
                output_path: output_path@,
            },
            WorkerState::ReadingRejection { status } => StateView::ReadingRejection {
                status: status.spec_code(),
            },
            WorkerState::Saving => StateView::Saving,
            WorkerState::Delivering => StateView::Delivering,
            WorkerState::Stopped => StateView::Stopped,
        }
    }
}

impl View for WorkerEvent {
    type V = EventView;

    open spec fn view(&self) -> EventView {
        match *self {
            WorkerEvent::Inbound(Some(request)) => EventView::Inbound(Some(request@)),
            WorkerEvent::Inbound(None) => EventView::Inbound(None),
            WorkerEvent::Reply(Ok(status)) => EventView::Reply(Ok(status.spec_code())),
            WorkerEvent::Reply(Err(description)) => EventView::Reply(Err(description@)),
            WorkerEvent::Audio(Ok(audio)) => EventView::Audio(Ok(audio@)),
            WorkerEvent::Audio(Err(description)) => EventView::Audio(Err(description@)),
            WorkerEvent::ErrorText(Some(text)) => EventView::ErrorText(Some(text@)),
            WorkerEvent::ErrorText(None) => EventView::ErrorText(None),
            WorkerEvent::Saved(Ok(_)) => EventView::Saved(Ok(())),
            WorkerEvent::Saved(Err(description)) => EventView::Saved(Err(description@)),
            WorkerEvent::Delivered => EventView::Delivered,
        }
    }
}

impl View for WorkerAction {
    type V = ActionView;

    open spec fn view(&self) -> ActionView {
        match *self {
            WorkerAction::Receive => ActionView::Receive,
            WorkerAction::Post { url, content_type, body } => ActionView::Post {
                url: url@,
                content_type: content_type@,
                body: body@,
            },
            WorkerAction::ReadAudio => ActionView::ReadAudio,
            WorkerAction::ReadErrorText => ActionView::ReadErrorText,
            WorkerAction::Save { path, audio } => ActionView::Save { path: path@, audio: audio@ },
            WorkerAction::Deliver(outcome) => ActionView::Deliver(outcome_view(outcome)),
            WorkerAction::Stop => ActionView::Stop,
            WorkerAction::Abort => ActionView::Abort,
        }
    }
}

/// The JSON object that asks the service to speak `text` as `speaker`.
/// Neither string is escaped: cleaned text holds nothing that JSON would
/// have to escape.
pub open spec fn request_json(speaker: Seq<char>, text: Seq<char>) -> Seq<char> {
    "{\"speaker\":\""@ + speaker + "\",\"text\":\""@ + text + "\"}"@
}

/// Heading of the error for a response whose status is no success, given
/// the line that stands for the status.
pub open spec fn rejection_title(line: Seq<char>) -> Seq<char> {
    "Error: The server's response wasn't a success ("@ + line + ")"@
}

/// Text of that error: the body of the response as it came, or a note in
/// its place where the body was empty or could not be read.
pub open spec fn rejection_message(text: Option<Seq<char>>) -> Seq<char> {
    match text {
        Some(body) => if body.len() == 0 {
            "(response was empty)"@
        } else {
            body
        },
        None => "<Failed to get the error message>"@,
    }
}

/// The error for a response whose status is no success. The worker stays
/// usable.
pub open spec fn rejection(status: u16, text: Option<Seq<char>>) -> ErrorView {
    fresh_error(rejection_title(status_line(status)), rejection_message(text), false)
}

/// One step of the worker: from where it stands and what happened, to where
/// it stands next and what to do.
pub open spec fn step_spec(
    voices: Map<Seq<char>, Seq<char>>,
    state: StateView,
    event: EventView,
) -> (StateView, ActionView) {
    match state {
        StateView::AwaitingRequest => match event {
            EventView::Inbound(Some(request)) => if voices.contains_key(request.voice) {
                (
                    StateView::AwaitingReply { output_path: request.output_path },
                    ActionView::Post {
                        url: TTS_ENDPOINT@,
                        content_type: JSON_CONTENT_TYPE@,
                        body: request_json(voices[request.voice], request.text),
                    },
                )
            } else {
                (StateView::Stopped, ActionView::Abort)
            },
            EventView::Inbound(None) => (StateView::Stopped, ActionView::Stop),
            _ => (StateView::Stopped, ActionView::Abort),
        },
        StateView::AwaitingReply { output_path } => match event {
            EventView::Reply(Ok(status)) => if is_success_code(status) {
                (StateView::ReadingAudio { output_path }, ActionView::ReadAudio)
            } else {
                (StateView::ReadingRejection { status }, ActionView::ReadErrorText)
            },
            EventView::Reply(Err(description)) => (
                StateView::Delivering,
                ActionView::Deliver(Err(generation_failure(description))),
            ),
            _ => (StateView::Stopped, ActionView::Abort),
        },
        StateView::ReadingAudio { output_path } => match event {
            EventView::Audio(Ok(audio)) => (
                StateView::Saving,
                ActionView::Save { path: output_path, audio },
            ),
            EventView::Audio(Err(description)) => (
                StateView::Delivering,
                ActionView::Deliver(Err(save_failure(description))),
            ),
            _ => (StateView::Stopped, ActionView::Abort),
        },
        StateView::ReadingRejection { status } => match event {
            EventView::ErrorText(text) => (
                StateView::Delivering,
                ActionView::Deliver(Err(rejection(status, text))),
            ),
            _ => (StateView::Stopped, ActionView::Abort),
        },
        StateView::Saving => match event {
            EventView::Saved(Ok(_)) => (StateView::Delivering, ActionView::Deliver(Ok(()))),
            EventView::Saved(Err(description)) => (
                StateView::Delivering,
                ActionView::Deliver(Err(save_failure(description))),
            ),
            _ => (StateView::Stopped, ActionView::Abort),
        },
        StateView::Delivering => match event {
            EventView::Delivered => (StateView::AwaitingRequest, ActionView::Receive),
            _ => (StateView::Stopped, ActionView::Abort),
        },
        StateView::Stopped => (StateView::Stopped, ActionView::Stop),
    }
}

/// The text of an optional string.
pub open spec fn text_view(text: Option<String>) -> Option<Seq<char>> {
    match text {
        Some(t) => Some(t@),
        None => None,
    }
}

/// Builds the body of the request: see [`request_json`].
pub fn request_body(speaker: &str, text: &str) -> (body: String)
    ensures
        body@ == request_json(speaker@, text@),
{
    let mut body = "{\"speaker\":\"".to_owned();
    body.append(speaker);
    body.append("\",\"text\":\"");
    body.append(text);
    body.append("\"}");
    body
}

/// Builds the error for a response whose status is no success, from the
/// line that stands for the status and from what was read of the body.
pub fn rejection_with_line(line: &str, text: Option<String>) -> (error: SynthesisError)
    ensures
        error@ == fresh_error(rejection_title(line@), rejection_message(text_view(text)), false),
{
    let mut title = "Error: The server's response wasn't a success (".to_owned();
    title.append(line);
    title.append(")");
    let message = match text {
        Some(body) => if body.as_str().is_empty() {
            "(response was empty)".to_owned()
        } else {
            body
        },
        None => "<Failed to get the error message>".to_owned(),
    };
    SynthesisError::new(title, message, false)
}

/// Whether `part` occurs in `whole` as a run of neighbours.
pub open spec fn occurs_in(part: Seq<char>, whole: Seq<char>) -> bool {
    exists|at: int|
        0 <= at && at + part.len() <= whole.len() && #[trigger] whole.subrange(
            at,
            at + part.len(),
        ) == part
}

/// Builds the error for a response whose status is no success: see
/// [`rejection`]. Its heading shows the status code in decimal.
pub fn rejection_error(status: HttpStatus, text: Option<String>) -> (error: SynthesisError)
    ensures
        error@ == rejection(status.spec_code(), text_view(text)),
        occurs_in(code_digits(status.spec_code()), error@.title),
{
    let line = status.line();
    let error = rejection_with_line(line.as_str(), text);
    proof {
        let head = "Error: The server's response wasn't a success ("@;
        let at = head.len() as int;
        assert(error@.title.subrange(at, at + 3) =~= line@.subrange(0, 3));
    }
    error
}

impl WorkerState {
    /// The state of a worker that has just started.
    pub fn new() -> (state: WorkerState)
        ensures
            state@ == StateView::AwaitingRequest,
    {
        WorkerState::AwaitingRequest
    }

    /// The state of a worker that has just started, and the first thing to
    /// do: wait for a request.
    pub fn start() -> (first: (WorkerState, WorkerAction))
        ensures
            first.0@ == StateView::AwaitingRequest,
            first.1@ == ActionView::Receive,
    {
        (WorkerState::new(), WorkerAction::Receive)
    }

    /// Takes one step: see [`step_spec`]. The heading of the error for a
    /// response whose status is no success shows the status code in decimal.
    pub fn step(
        self,
        voices: &VoiceTable,
        event: WorkerEvent,
    ) -> (next: (WorkerState, WorkerAction))
        ensures
            (next.0@, next.1@) == step_spec(voices@, self@, event@),
            self@ matches StateView::ReadingRejection { status } ==> (event@ is ErrorText ==> (
            next.1@ matches ActionView::Deliver(Err(error)) && occurs_in(
                code_digits(status),
                error.title,
            ))),
    {
        match self {
            WorkerState::AwaitingRequest => match event {
                WorkerEvent::Inbound(Some(request)) => {
                    match voices.lookup(request.voice.as_str()) {
                        Ok(speaker) => {
                            let body = request_body(speaker, request.text.as_str());
                            (
                                WorkerState::AwaitingReply { output_path: request.output_path },
                                WorkerAction::Post {
                                    url: TTS_ENDPOINT.to_owned(),
                                    content_type: JSON_CONTENT_TYPE.to_owned(),
                                    body,
                                },
                            )
                        },
                        Err(_) => (WorkerState::Stopped, WorkerAction::Abort),
                    }
                },
                WorkerEvent::Inbound(None) => (WorkerState::Stopped, WorkerAction::Stop),
                _ => (WorkerState::Stopped, WorkerAction::Abort),
            },
            WorkerState::AwaitingReply { output_path } => match event {
                WorkerEvent::Reply(Ok(status)) => if status.is_success() {
                    (WorkerState::ReadingAudio { output_path }, WorkerAction::ReadAudio)
                } else {
                    (WorkerState::ReadingRejection { status }, WorkerAction::ReadErrorText)
                },
                WorkerEvent::Reply(Err(description)) => (
                    WorkerState::Delivering,
                    WorkerAction::Deliver(Err(SynthesisError::generation_failed(description))),
                ),
                _ => (WorkerState::Stopped, WorkerAction::Abort),
            },
            WorkerState::ReadingAudio { output_path } => match event {
                WorkerEvent::Audio(Ok(audio)) => (
                    WorkerState::Saving,
                    WorkerAction::Save { path: output_path, audio },
                ),
                WorkerEvent::Audio(Err(description)) => (
                    WorkerState::Delivering,
                    WorkerAction::Deliver(Err(SynthesisError::save_failed(description))),
                ),
                _ => (WorkerState::Stopped, WorkerAction::Abort),
            },
            WorkerState::ReadingRejection { status } => match event {
                WorkerEvent::ErrorText(text) => (
                    WorkerState::Delivering,
                    WorkerAction::Deliver(Err(rejection_error(status, text))),
                ),
                _ => (WorkerState::Stopped, WorkerAction::Abort),
            },
            WorkerState::Saving => match event {
                WorkerEvent::Saved(Ok(_)) => (WorkerState::Delivering, WorkerAction::Deliver(Ok(()))),
                WorkerEvent::Saved(Err(description)) => (
                    WorkerState::Delivering,
                    WorkerAction::Deliver(Err(SynthesisError::save_failed(description))),
                ),
                _ => (WorkerState::Stopped, WorkerAction::Abort),
            },
            WorkerState::Delivering => match event {
                WorkerEvent::Delivered => (WorkerState::AwaitingRequest, WorkerAction::Receive),
                _ => (WorkerState::Stopped, WorkerAction::Abort),
            },
            WorkerState::Stopped => (WorkerState::Stopped, WorkerAction::Stop),
        }
    }
}

} // verus!
