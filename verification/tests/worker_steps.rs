use tts_gui::http::HttpStatus;
use tts_gui::protocol::{SynthesisError, SynthesisRequest};
use tts_gui::voices::VoiceTable;
use tts_gui::worker::{
    rejection_error, rejection_with_line, request_body, WorkerAction, WorkerEvent, WorkerState,
    JSON_CONTENT_TYPE, TTS_ENDPOINT, TTS_TIMEOUT_SECONDS,
};

fn voices() -> VoiceTable {
    let mut table = VoiceTable::new();
    table.add("sonic".to_string(), "sonic-the-hedgehog".to_string());
    table
}

fn request(voice: &str, text: &str, path: &str) -> SynthesisRequest {
    SynthesisRequest {
        voice: voice.to_string(),
        text: text.to_string(),
        output_path: path.to_string(),
    }
}

fn error(title: &str, message: &str) -> SynthesisError {
    SynthesisError {
        title: title.to_string(),
        message: message.to_string(),
        fatal: false,
        acknowledged: false,
    }
}

fn awaiting_reply() -> WorkerState {
    WorkerState::AwaitingReply { output_path: "out.wav".to_string() }
}

#[test]
fn constants_of_the_service() {
    assert_eq!(TTS_ENDPOINT, "https://mumble.stream/speak");
    assert_eq!(JSON_CONTENT_TYPE, "application/json");
    assert_eq!(TTS_TIMEOUT_SECONDS, 180);
}

#[test]
fn request_body_is_a_json_object() {
    assert_eq!(
        request_body("sonic-the-hedgehog", "A test message"),
        "{\"speaker\":\"sonic-the-hedgehog\",\"text\":\"A test message\"}"
    );
    assert_eq!(request_body("", ""), "{\"speaker\":\"\",\"text\":\"\"}");
}

#[test]
fn a_new_worker_awaits_a_request() {
    assert_eq!(WorkerState::new(), WorkerState::AwaitingRequest);
    assert_eq!(WorkerState::start(), (WorkerState::AwaitingRequest, WorkerAction::Receive));
}

#[test]
fn a_request_is_posted() {
    let (state, action) = WorkerState::new().step(
        &voices(),
        WorkerEvent::Inbound(Some(request("sonic", "Hello, world!", "out.wav"))),
    );
    assert_eq!(state, awaiting_reply());
    assert_eq!(
        action,
        WorkerAction::Post {
            url: "https://mumble.stream/speak".to_string(),
            content_type: "application/json".to_string(),
            body: "{\"speaker\":\"sonic-the-hedgehog\",\"text\":\"Hello, world!\"}".to_string(),
        }
    );
}

#[test]
fn a_request_for_an_unknown_voice_ends_the_worker() {
    let (state, action) = WorkerState::new().step(
        &voices(),
        WorkerEvent::Inbound(Some(request("nobody", "Hello", "out.wav"))),
    );
    assert_eq!(state, WorkerState::Stopped);
    assert_eq!(action, WorkerAction::Abort);
}

#[test]
fn a_closed_channel_stops_the_worker() {
    let (state, action) = WorkerState::new().step(&voices(), WorkerEvent::Inbound(None));
    assert_eq!(state, WorkerState::Stopped);
    assert_eq!(action, WorkerAction::Stop);
}

#[test]
fn a_transport_failure_is_an_error_that_is_not_fatal() {
    let (state, action) = awaiting_reply().step(
        &voices(),
        WorkerEvent::Reply(Err("operation timed out".to_string())),
    );
    assert_eq!(state, WorkerState::Delivering);
    assert_eq!(
        action,
        WorkerAction::Deliver(Err(error("failed to generate audio", "operation timed out")))
    );
}

#[test]
fn a_success_status_has_the_audio_read() {
    let (state, action) =
        awaiting_reply().step(&voices(), WorkerEvent::Reply(Ok(HttpStatus::new(200).unwrap())));
    assert_eq!(state, WorkerState::ReadingAudio { output_path: "out.wav".to_string() });
    assert_eq!(action, WorkerAction::ReadAudio);
    let (state, action) =
        awaiting_reply().step(&voices(), WorkerEvent::Reply(Ok(HttpStatus::new(299).unwrap())));
    assert_eq!(state, WorkerState::ReadingAudio { output_path: "out.wav".to_string() });
    assert_eq!(action, WorkerAction::ReadAudio);
}

#[test]
fn another_status_has_the_error_text_read() {
    for code in [100u16, 199, 300, 404, 500, 999] {
        let status = HttpStatus::new(code).unwrap();
        let (state, action) = awaiting_reply().step(&voices(), WorkerEvent::Reply(Ok(status)));
        assert_eq!(state, WorkerState::ReadingRejection { status });
        assert_eq!(action, WorkerAction::ReadErrorText);
    }
}

#[test]
fn a_rejection_reports_the_body_verbatim() {
    let status = HttpStatus::new(404).unwrap();
    let (state, action) = WorkerState::ReadingRejection { status }.step(
        &voices(),
        WorkerEvent::ErrorText(Some("  no such <speaker>\n".to_string())),
    );
    assert_eq!(state, WorkerState::Delivering);
    assert_eq!(
        action,
        WorkerAction::Deliver(Err(error(
            "Error: The server's response wasn't a success (404 Not Found)",
            "  no such <speaker>\n"
        )))
    );
}

#[test]
fn a_rejection_with_an_empty_body_reports_a_note() {
    let status = HttpStatus::new(500).unwrap();
    let (_, action) = WorkerState::ReadingRejection { status }
        .step(&voices(), WorkerEvent::ErrorText(Some(String::new())));
    assert_eq!(
        action,
        WorkerAction::Deliver(Err(error(
            "Error: The server's response wasn't a success (500 Internal Server Error)",
            "(response was empty)"
        )))
    );
}

#[test]
fn a_rejection_with_an_unreadable_body_reports_a_note() {
    let status = HttpStatus::new(503).unwrap();
    let (_, action) =
        WorkerState::ReadingRejection { status }.step(&voices(), WorkerEvent::ErrorText(None));
    assert_eq!(
        action,
        WorkerAction::Deliver(Err(error(
            "Error: The server's response wasn't a success (503 Service Unavailable)",
            "<Failed to get the error message>"
        )))
    );
}

#[test]
fn rejection_error_shows_the_status_code() {
    for code in [100u16, 301, 404, 418, 999] {
        let built = rejection_error(HttpStatus::new(code).unwrap(), Some("x".to_string()));
        assert!(built.title.contains(&code.to_string()));
        assert_eq!(built.message, "x");
        assert!(!built.fatal);
        assert!(!built.acknowledged);
    }
}

#[test]
fn rejection_with_line_puts_the_line_in_brackets() {
    assert_eq!(
        rejection_with_line("418 I'm a teapot", Some("short and stout".to_string())),
        error(
            "Error: The server's response wasn't a success (418 I'm a teapot)",
            "short and stout"
        )
    );
    assert_eq!(
        rejection_with_line("", None),
        error(
            "Error: The server's response wasn't a success ()",
            "<Failed to get the error message>"
        )
    );
}

#[test]
fn audio_that_was_read_is_saved_at_the_path_of_the_request() {
    let (state, action) = WorkerState::ReadingAudio { output_path: "out.wav".to_string() }
        .step(&voices(), WorkerEvent::Audio(Ok(vec![82, 73, 70, 70, 0, 255])));
    assert_eq!(state, WorkerState::Saving);
    assert_eq!(
        action,
        WorkerAction::Save { path: "out.wav".to_string(), audio: vec![82, 73, 70, 70, 0, 255] }
    );
}

#[test]
fn audio_that_could_not_be_read_is_a_save_failure() {
    let (state, action) = WorkerState::ReadingAudio { output_path: "out.wav".to_string() }
        .step(&voices(), WorkerEvent::Audio(Err("connection reset".to_string())));
    assert_eq!(state, WorkerState::Delivering);
    assert_eq!(
        action,
        WorkerAction::Deliver(Err(error("failed to save the audio", "connection reset")))
    );
}

#[test]
fn a_write_that_succeeded_is_a_success() {
    let (state, action) = WorkerState::Saving.step(&voices(), WorkerEvent::Saved(Ok(())));
    assert_eq!(state, WorkerState::Delivering);
    assert_eq!(action, WorkerAction::Deliver(Ok(())));
}

#[test]
fn a_write_that_failed_is_a_save_failure() {
    let (state, action) = WorkerState::Saving.step(
        &voices(),
        WorkerEvent::Saved(Err("No such file or directory (os error 2)".to_string())),
    );
    assert_eq!(state, WorkerState::Delivering);
    assert_eq!(
        action,
        WorkerAction::Deliver(Err(error(
            "failed to save the audio",
            "No such file or directory (os error 2)"
        )))
    );
}

#[test]
fn after_a_delivery_the_worker_waits_again() {
    let (state, action) = WorkerState::Delivering.step(&voices(), WorkerEvent::Delivered);
    assert_eq!(state, WorkerState::AwaitingRequest);
    assert_eq!(action, WorkerAction::Receive);
}

#[test]
fn an_event_out_of_turn_ends_the_worker() {
    let cases = vec![
        (WorkerState::AwaitingRequest, WorkerEvent::Delivered),
        (WorkerState::AwaitingRequest, WorkerEvent::Saved(Ok(()))),
        (awaiting_reply(), WorkerEvent::Inbound(None)),
        (awaiting_reply(), WorkerEvent::Audio(Ok(vec![1]))),
        (
            WorkerState::ReadingAudio { output_path: "o".to_string() },
            WorkerEvent::ErrorText(None),
        ),
        (
            WorkerState::ReadingRejection { status: HttpStatus::new(404).unwrap() },
            WorkerEvent::Audio(Ok(vec![])),
        ),
        (WorkerState::Saving, WorkerEvent::Delivered),
        (WorkerState::Delivering, WorkerEvent::Inbound(None)),
    ];
    for (state, event) in cases {
        let (next, action) = state.step(&voices(), event);
        assert_eq!(next, WorkerState::Stopped);
        assert_eq!(action, WorkerAction::Abort);
    }
}

#[test]
fn a_stopped_worker_stays_stopped() {
    let (state, action) = WorkerState::Stopped
        .step(&voices(), WorkerEvent::Inbound(Some(request("sonic", "x", "y"))));
    assert_eq!(state, WorkerState::Stopped);
    assert_eq!(action, WorkerAction::Stop);
}
