use tts_gui::voices::{LookupError, VoiceTable};

fn table() -> VoiceTable {
    let mut table = VoiceTable::new();
    assert!(table.add("sonic".to_string(), "sonic-the-hedgehog".to_string()));
    assert!(table.add("narrator".to_string(), "david-attenborough".to_string()));
    table
}

#[test]
fn lookup_finds_the_speaker_of_a_voice() {
    let table = table();
    assert_eq!(table.lookup("sonic"), Ok("sonic-the-hedgehog"));
    assert_eq!(table.lookup("narrator"), Ok("david-attenborough"));
}

#[test]
fn lookup_of_an_unknown_voice_is_an_error() {
    let table = table();
    assert_eq!(
        table.lookup("nobody"),
        Err(LookupError::UnknownVoice { identifier: "nobody".to_string() })
    );
    assert_eq!(
        table.lookup(""),
        Err(LookupError::UnknownVoice { identifier: String::new() })
    );
    assert_eq!(
        table.lookup("Sonic"),
        Err(LookupError::UnknownVoice { identifier: "Sonic".to_string() })
    );
}

#[test]
fn lookup_in_an_empty_table_fails() {
    let table = VoiceTable::new();
    assert_eq!(table.len(), 0);
    assert!(table.lookup("sonic").is_err());
    assert!(table.identifiers().is_empty());
}

#[test]
fn add_refuses_an_identifier_that_is_taken() {
    let mut table = table();
    assert!(!table.add("sonic".to_string(), "someone-else".to_string()));
    assert_eq!(table.len(), 2);
    assert_eq!(table.lookup("sonic"), Ok("sonic-the-hedgehog"));
}

#[test]
fn identifiers_come_in_the_order_of_the_table() {
    let mut table = table();
    assert_eq!(table.identifiers(), vec!["sonic".to_string(), "narrator".to_string()]);
    assert!(table.add("alpha".to_string(), "a".to_string()));
    assert_eq!(
        table.identifiers(),
        vec!["sonic".to_string(), "narrator".to_string(), "alpha".to_string()]
    );
    assert_eq!(table.len(), 3);
}
