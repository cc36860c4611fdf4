//! Core of a text-to-speech download tool: prompt clean-up, file naming, the
//! background worker's protocol and the state behind the window.

pub mod channel;
pub mod clock;
pub mod digits;
pub mod filename;
pub mod gui;
pub mod http;
pub mod protocol;
pub mod runs;
pub mod status;
pub mod strings;
pub mod text;
pub mod voices;
pub mod worker;

pub use gui::VoCodesTts;
pub use worker::TTS_TIMEOUT_SECONDS;
