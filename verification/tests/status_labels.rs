use std::time::Instant;
use tts_gui::digits::{digit, push_decimal, push_padded};
use tts_gui::status::{processing_text, Status};

#[test]
fn idle_and_success_have_fixed_labels() {
    assert_eq!(Status::Idle.describe(), "Idle");
    assert_eq!(Status::Success.describe(), "Success");
    assert_eq!(Status::Idle.describe_after(7), "Idle");
    assert_eq!(Status::Success.describe_after(7), "Success");
}

#[test]
fn processing_label_pads_the_seconds_to_three_digits() {
    assert_eq!(processing_text(0), "Processing [000s / 180s]");
    assert_eq!(processing_text(3), "Processing [003s / 180s]");
    assert_eq!(processing_text(42), "Processing [042s / 180s]");
    assert_eq!(processing_text(99), "Processing [099s / 180s]");
    assert_eq!(processing_text(100), "Processing [100s / 180s]");
    assert_eq!(processing_text(180), "Processing [180s / 180s]");
}

#[test]
fn processing_label_does_not_cut_long_times() {
    assert_eq!(processing_text(1234), "Processing [1234s / 180s]");
    assert_eq!(
        processing_text(u64::MAX),
        "Processing [18446744073709551615s / 180s]"
    );
}

#[test]
fn processing_label_agrees_with_the_standard_library() {
    for seconds in [0u64, 1, 9, 10, 11, 99, 100, 101, 999, 1000, 65535, 4294967296] {
        assert_eq!(
            processing_text(seconds),
            format!("Processing [{:0>3}s / {}s]", seconds, 180)
        );
    }
}

#[test]
fn a_request_just_begun_shows_no_seconds() {
    let status = Status::Processing(Instant::now());
    assert!(status.is_processing());
    assert_eq!(status.describe_after(5), "Processing [005s / 180s]");
    assert_eq!(status.describe(), "Processing [000s / 180s]");
}

#[test]
fn only_processing_is_processing() {
    assert!(!Status::Idle.is_processing());
    assert!(!Status::Success.is_processing());
}

#[test]
fn decimal_digits() {
    for d in 0u64..10 {
        assert_eq!(digit(d).to_string(), d.to_string());
    }
    for n in [0u64, 7, 10, 19, 100, 1005, u64::MAX] {
        let mut text = String::from("n=");
        push_decimal(&mut text, n);
        assert_eq!(text, format!("n={}", n));
        let mut padded = String::from("n=");
        push_padded(&mut padded, n);
        assert_eq!(padded, format!("n={:0>3}", n));
    }
}
