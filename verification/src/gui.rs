//! The state behind the window and what the window decides: what to do with
//! the worker's outcomes, when an error leaves the screen, what a click on
//! the download button sends. Drawing is not here, and neither is the event
//! loop: the shell calls these methods once per frame.

use crate::channel::{disconnected_text, Polled, SendFailure, WorkerHandle};
use crate::clock::{is_time_text, now};
use crate::filename::{filename, suggest_filename};
use crate::protocol::{
    outcome_view, submission_failure, worker_exited, ErrorView, RequestView, SynthesisError,
    SynthesisRequest,
};
use crate::status::{status_label, Status};
use crate::text::{clean, clean_text};
use std::time::Instant;
use vstd::prelude::*;
use vstd::string::*;

verus! {

/// The state of the window.
pub struct VoCodesTts {
    /// The way to the worker.
    pub submitter: WorkerHandle,
    /// The text as the user typed it.
    pub prompt: String,
    /// The identifier of the chosen voice.
    pub voice: String,
    /// Where the audio is to be saved.
    pub filename: String,
    /// The error on the screen, if there is one.
    pub error: Option<SynthesisError>,
    /// What the window is doing.
    pub status: Status,
    /// Whether the loss of the worker has been reported. It is reported
    /// once; from then on nothing more is asked of the worker.
    pub worker_lost: bool,
}

/// The state of the window as plain values.
pub ghost struct WindowView {
    pub prompt: Seq<char>,
    pub voice: Seq<char>,
    pub filename: Seq<char>,
    pub error: Option<ErrorView>,
    pub status: Status,
    pub worker_lost: bool,
}

/// What a look at the outcome channel found, as plain values.
pub ghost enum PolledView {
    Pending,
    Ready(Result<(), ErrorView>),
    Disconnected,
}

impl View for Polled {
    type V = PolledView;

    open spec fn view(&self) -> PolledView {
        match *self {
            Polled::Pending => PolledView::Pending,
            Polled::Ready(outcome) => PolledView::Ready(outcome_view(outcome)),
            Polled::Disconnected => PolledView::Disconnected,
        }
    }
}

/// An optional error as plain values.
pub open spec fn error_view(error: Option<SynthesisError>) -> Option<ErrorView> {
    match error {
        Some(e) => Some(e@),
        None => None,
    }
}

impl View for VoCodesTts {
    type V = WindowView;

    open spec fn view(&self) -> WindowView {
        WindowView {
            prompt: self.prompt@,
            voice: self.voice@,
            filename: self.filename@,
            error: error_view(self.error),
            status: self.status,
            worker_lost: self.worker_lost,
        }
    }
}

/// The window after a look at the outcome channel. A success shows in the
/// status. An error goes on the screen. A closed channel means that the
/// worker is gone, which is an error that ends the program; it is reported
/// the first time only, so an error that the user has confirmed does not
/// come back. Nothing found changes nothing.
pub open spec fn after_poll(window: WindowView, found: PolledView) -> WindowView {
    match found {
        PolledView::Pending => window,
        PolledView::Ready(Ok(_)) => WindowView { status: Status::Success, ..window },
        PolledView::Ready(Err(error)) => WindowView { error: Some(error), ..window },
        PolledView::Disconnected => if window.worker_lost {
            window
        } else {
            WindowView { error: Some(worker_exited()), worker_lost: true, ..window }
        },
    }
}

/// Whether the window's error is still to be shown.
pub open spec fn shows_error(window: WindowView) -> bool {
    window.error matches Some(error) && !error.acknowledged
}

/// The window after its error was looked at: a confirmed error leaves, and
/// with it the status goes back to idle, whatever it was.
pub open spec fn after_settle(window: WindowView) -> WindowView {
    match window.error {
        Some(error) => if error.acknowledged {
            WindowView { error: None, status: Status::Idle, ..window }
        } else {
            window
        },
        None => window,
    }
}

/// The window after the user confirmed its error.
pub open spec fn after_acknowledge(window: WindowView) -> WindowView {
    match window.error {
        Some(error) => WindowView {
            error: Some(ErrorView { acknowledged: true, ..error }),
            ..window
        },
        None => window,
    }
}

/// Whether the download button is active: the worker is there, no request
/// is under way and the prompt is not empty.
pub open spec fn may_submit(window: WindowView) -> bool {
    !window.worker_lost && !(window.status is Processing) && window.prompt.len() > 0
}

/// The request that a click sends: the prompt is cleaned, voice and path
/// are taken as they are.
pub open spec fn request_of(window: WindowView) -> RequestView {
    RequestView {
        voice: window.voice,
        text: clean_text(window.prompt),
        output_path: window.filename,
    }
}

/// The window after a click was handled. A request that could not be handed
/// over is an error that ends the program. Either way the status says that a
/// request is under way since `start`.
pub open spec fn after_submit(
    window: WindowView,
    sent: Result<(), Seq<char>>,
    start: Instant,
) -> WindowView {
    match sent {
        Ok(_) => WindowView { status: Status::Processing(start), ..window },
        Err(description) => WindowView {
            error: Some(submission_failure(description)),
            status: Status::Processing(start),
            ..window
        },
    }
}

/// What sending a request came to, as plain values.
pub open spec fn sent_view(sent: Result<(), SendFailure>) -> Result<(), Seq<char>> {
    match sent {
        Ok(_) => Ok(()),
        Err(failure) => Err(failure.description@),
    }
}

/// The line that shows the status.
pub open spec fn status_line(status: Status, seconds: u64) -> Seq<char> {
    "(status: "@ + status_label(status, seconds) + ")"@
}

impl VoCodesTts {
    /// The window as it opens: the voice `sonic`, a sample prompt, a file
    /// name for the two with the time of the call, no error, idle, the
    /// worker there.
    pub fn new(submitter: WorkerHandle) -> (window: VoCodesTts)
        ensures
            window@.voice == "sonic"@,
            window@.prompt == "A test message"@,
            exists|stamp: Seq<char>|
                window@.filename == #[trigger] filename("sonic"@, "A test message"@, stamp)
                    && is_time_text(stamp),
            window@.error is None,
            window.status is Idle,
            !window.worker_lost,
    {
        VoCodesTts {
            submitter,
            error: None,
            voice: "sonic".to_owned(),
            prompt: "A test message".to_owned(),
            filename: suggest_filename("sonic", "A test message"),
            status: Status::Idle,
            worker_lost: false,
        }
    }

    /// The title of the window.
    pub fn name(&self) -> (title: &'static str)
        ensures
            title@ == "Vo.Codes TTS Downloader"@,
    {
        "Vo.Codes TTS Downloader"
    }

    /// Takes in what a look at the outcome channel found: see
    /// [`after_poll`].
    pub fn absorb(&mut self, found: Polled)
        ensures
            final(self)@ == after_poll(old(self)@, found@),
            final(self).submitter == old(self).submitter,
    {
        match found {
            Polled::Pending => {},
            Polled::Ready(Ok(_)) => {
                self.status = Status::Success;
            },
            Polled::Ready(Err(error)) => {
                self.error = Some(error);
            },
            Polled::Disconnected => {
                if !self.worker_lost {
                    self.error = Some(SynthesisError::worker_exited());
                    self.worker_lost = true;
                }
            },
        }
    }

    /// Looks at the outcome channel, without waiting, and takes in what is
    /// there. What is there is up to the worker. Once the loss of the worker
    /// has been reported, the channel is left alone and nothing changes.
    pub fn poll_worker(&mut self)
        ensures
            exists|found: PolledView| final(self)@ == #[trigger] after_poll(old(self)@, found),
            old(self).worker_lost ==> final(self)@ == old(self)@,
            final(self).submitter == old(self).submitter,
    {
        if self.worker_lost {
            assert(self@ == after_poll(self@, PolledView::Pending));
            return ;
        }
        let found = self.submitter.poll();
        self.absorb(found);
    }

    /// Clears an error that the user has confirmed, and says whether an
    /// error is still to be shown: see [`after_settle`].
    pub fn settle_error(&mut self) -> (show: bool)
        ensures
            final(self)@ == after_settle(old(self)@),
            show == shows_error(old(self)@),
            final(self).submitter == old(self).submitter,
    {
        let confirmed = match &self.error {
            Some(error) => Some(error.acknowledged),
            None => None,
        };
        match confirmed {
            Some(true) => {
                self.error = None;
                self.status = Status::Idle;
                false
            },
            Some(false) => true,
            None => false,
        }
    }

    /// Records that the user has confirmed the error on the screen, and says
    /// whether the program has to end now: it has if the error is fatal.
    pub fn acknowledge_error(&mut self) -> (quit: bool)
        ensures
            final(self)@ == after_acknowledge(old(self)@),
            quit == (old(self)@.error matches Some(error) && error.fatal),
            final(self).submitter == old(self).submitter,
    {
        match self.error.take() {
            Some(mut error) => {
                let quit = error.acknowledge();
                self.error = Some(error);
                quit
            },
            None => false,
        }
    }

    /// Gives the file a new name when the prompt was edited or another voice
    /// was chosen: the name for the voice and the cleaned prompt, with the
    /// time of the call. Otherwise nothing changes.
    pub fn input_changed(&mut self, prompt_edited: bool, previous_voice: &str)
        ensures
            final(self).submitter == old(self).submitter,
            prompt_edited || old(self)@.voice != previous_voice@ ==> exists|stamp: Seq<char>|
                final(self)@ == (WindowView {
                    filename: #[trigger] filename(
                        old(self)@.voice,
                        clean_text(old(self)@.prompt),
                        stamp,
                    ),
                    ..old(self)@
                }) && is_time_text(stamp),
            !(prompt_edited || old(self)@.voice != previous_voice@) ==> final(self)@ == old(self)@,
    {
        let previous = previous_voice.to_owned();
        if prompt_edited || self.voice != previous {
            let cleaned = clean(self.prompt.as_str());
            let name = suggest_filename(self.voice.as_str(), cleaned.as_str());
            proof {
                let stamp = choose|stamp: Seq<char>|
                    name@ == #[trigger] filename(self.voice@, cleaned@, stamp) && is_time_text(
                        stamp,
                    );
                assert(name@ == filename(old(self)@.voice, clean_text(old(self)@.prompt), stamp));
            }
            self.filename = name;
        }
    }

    /// Whether a click on the download button is accepted: see
    /// [`may_submit`].
    pub fn can_submit(&self) -> (yes: bool)
        ensures
            yes == may_submit(self@),
    {
        !self.worker_lost && !self.status.is_processing() && !self.prompt.as_str().is_empty()
    }

    /// The request that a click sends: see [`request_of`].
    pub fn request(&self) -> (request: SynthesisRequest)
        ensures
            request@ == request_of(self@),
    {
        SynthesisRequest {
            text: clean(self.prompt.as_str()),
            voice: self.voice.clone(),
            output_path: self.filename.clone(),
        }
    }

    /// Takes in what sending a request came to: see [`after_submit`].
    pub fn record_submission(&mut self, sent: Result<(), SendFailure>, start: Instant)
        ensures
            final(self)@ == after_submit(old(self)@, sent_view(sent), start),
            final(self).submitter == old(self).submitter,
    {
        match sent {
            Ok(_) => {},
            Err(failure) => {
                self.error = Some(SynthesisError::submission_failed(failure.description));
            },
        }
        self.status = Status::Processing(start);
    }

    /// Handles a click on the download button: hands the request to the
    /// worker and takes in what came of it. Whether the worker is still
    /// there to take the request is not up to the window.
    pub fn download(&mut self)
        ensures
            final(self).submitter == old(self).submitter,
            exists|sent: Result<(), Seq<char>>, start: Instant|
                final(self)@ == #[trigger] after_submit(old(self)@, sent, start) && (sent matches Err(
                    description,
                ) ==> description == disconnected_text()),
    {
        let request = self.request();
        let sent = self.submitter.submit(request);
        let start = now();
        self.record_submission(sent, start);
    }

    /// The line that shows the status, given the seconds that a request has
    /// been under way: see [`status_line`].
    pub fn status_text_after(&self, seconds: u64) -> (line: String)
        ensures
            line@ == status_line(self.status, seconds),
    {
        let mut line = "(status: ".to_owned();
        let label = self.status.describe_after(seconds);
        line.append(label.as_str());
        line.append(")");
        line
    }

    /// The line that shows the status now.
    pub fn status_text(&self) -> (line: String)
        ensures
            exists|seconds: u64| line@ == #[trigger] status_line(self.status, seconds),
    {
        let mut line = "(status: ".to_owned();
        let label = self.status.describe();
        line.append(label.as_str());
        line.append(")");
        proof {
            let seconds = choose|seconds: u64| label@ == #[trigger] status_label(self.status, seconds);
            assert(line@ == status_line(self.status, seconds));
        }
        line
    }
}

} // verus!
