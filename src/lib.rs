//! Story time: generate a short text, have it spoken, then play or keep the audio.
//!
//! The library holds the text values that flow between the stages, the audio
//! stream, the JSON forms they take on the wire, and the decisions of the
//! pipeline; the network calls, the audio device and the file system stay with
//! the program that drives it.
pub mod json;
pub mod chatgpt;
pub mod elevenlabs;
pub mod audio;
pub mod read_aloud;
