use tts_gui::http::HttpStatus;

#[test]
fn status_needs_three_digits() {
    assert!(HttpStatus::new(99).is_none());
    assert!(HttpStatus::new(0).is_none());
    assert!(HttpStatus::new(1000).is_none());
    assert!(HttpStatus::new(u16::MAX).is_none());
    assert_eq!(HttpStatus::new(100).map(|s| s.code()), Some(100));
    assert_eq!(HttpStatus::new(999).map(|s| s.code()), Some(999));
    assert_eq!(HttpStatus::new(404).map(|s| s.code()), Some(404));
}

#[test]
fn success_is_two_hundred_to_two_ninety_nine() {
    for code in 100u16..=999 {
        let status = HttpStatus::new(code).unwrap();
        assert_eq!(status.is_success(), (200..300).contains(&code), "{}", code);
    }
}

#[test]
fn status_line_is_code_and_reason() {
    assert_eq!(HttpStatus::new(404).unwrap().line(), "404 Not Found");
    assert_eq!(HttpStatus::new(200).unwrap().line(), "200 OK");
    assert_eq!(HttpStatus::new(500).unwrap().line(), "500 Internal Server Error");
    assert_eq!(HttpStatus::new(999).unwrap().line(), "999 <unknown status code>");
}

#[test]
fn status_line_begins_with_the_code_and_a_space() {
    for code in 100u16..=999 {
        let line = HttpStatus::new(code).unwrap().line();
        assert!(line.len() >= 4);
        assert_eq!(&line[..3], code.to_string());
        assert_eq!(&line[3..4], " ");
    }
}
