//! Core of a voice-dictation application: the dictation lifecycle coordinator.
//!
//! A user starts a recording, stops it, and receives a transcript. Audio
//! capture and speech recognition are delegated to collaborators; this crate
//! owns the part with real state-machine and failure-handling complexity:
//! guaranteeing that at most one dictation session is active at a time,
//! handing the capture operation a single-use cooperative cancellation
//! signal, sequencing capture and transcription, and normalizing every
//! failure into a structured error.

pub mod errors;
pub mod model;
pub mod session;
pub mod text;
