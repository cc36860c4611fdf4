use tts_gui::channel::{worker_channels, Polled, SendFailure};
use tts_gui::protocol::{SynthesisError, SynthesisRequest};

fn request(text: &str) -> SynthesisRequest {
    SynthesisRequest {
        voice: "sonic".to_string(),
        text: text.to_string(),
        output_path: "out.wav".to_string(),
    }
}

#[test]
fn nothing_is_delivered_before_a_request() {
    let (handle, _endpoint) = worker_channels();
    assert_eq!(handle.poll(), Polled::Pending);
    assert_eq!(handle.poll(), Polled::Pending);
}

#[test]
fn a_request_reaches_the_worker_and_one_outcome_comes_back() {
    let (handle, endpoint) = worker_channels();
    assert_eq!(handle.submit(request("first")), Ok(()));
    assert_eq!(handle.poll(), Polled::Pending);
    assert_eq!(endpoint.next_request(), Some(request("first")));
    assert_eq!(handle.poll(), Polled::Pending);
    endpoint.deliver(Ok(()));
    assert_eq!(handle.poll(), Polled::Ready(Ok(())));
    assert_eq!(handle.poll(), Polled::Pending);
}

#[test]
fn an_error_outcome_comes_back_as_it_was_sent() {
    let (handle, endpoint) = worker_channels();
    let error = SynthesisError {
        title: "failed to generate audio".to_string(),
        message: "timed out".to_string(),
        fatal: false,
        acknowledged: false,
    };
    endpoint.deliver(Err(error.clone()));
    assert_eq!(handle.poll(), Polled::Ready(Err(error)));
}

#[test]
fn requests_arrive_in_the_order_of_submission() {
    let (handle, endpoint) = worker_channels();
    assert_eq!(handle.submit(request("a")), Ok(()));
    assert_eq!(handle.submit(request("b")), Ok(()));
    assert_eq!(endpoint.next_request(), Some(request("a")));
    assert_eq!(endpoint.next_request(), Some(request("b")));
}

#[test]
fn a_worker_that_is_gone_shows_as_disconnected() {
    let (handle, endpoint) = worker_channels();
    assert_eq!(handle.poll(), Polled::Pending);
    drop(endpoint);
    assert_eq!(handle.poll(), Polled::Disconnected);
    assert_ne!(handle.poll(), Polled::Pending);
}

#[test]
fn an_outcome_sent_before_the_worker_went_is_still_delivered() {
    let (handle, endpoint) = worker_channels();
    endpoint.deliver(Ok(()));
    drop(endpoint);
    assert_eq!(handle.poll(), Polled::Ready(Ok(())));
    assert_eq!(handle.poll(), Polled::Disconnected);
}

#[test]
fn submitting_to_a_worker_that_is_gone_fails() {
    let (handle, endpoint) = worker_channels();
    drop(endpoint);
    assert_eq!(
        handle.submit(request("late")),
        Err(SendFailure { description: "sending on a disconnected channel".to_string() })
    );
}

#[test]
fn dropping_the_handle_tells_the_worker_to_end() {
    let (handle, endpoint) = worker_channels();
    assert_eq!(handle.submit(request("last")), Ok(()));
    drop(handle);
    assert_eq!(endpoint.next_request(), Some(request("last")));
    assert_eq!(endpoint.next_request(), None);
}

#[test]
fn delivering_to_a_window_that_is_gone_does_nothing() {
    let (handle, endpoint) = worker_channels();
    drop(handle);
    endpoint.deliver(Ok(()));
    assert_eq!(endpoint.next_request(), None);
}
