//! Orchestration of an offline speech-to-text run.
//!
//! The crate holds the decisions of a transcription run: which step follows
//! which, what is announced to the host, what reaches the store of segments,
//! and how the audio file and the engine's segment data are turned into the
//! application's own values. Reading files, loading the model, running the
//! engine and sending events are left to the caller, which performs each
//! [`session::Action`] and reports back with an [`session::Input`].

pub mod audio;
pub mod error;
pub mod event;
pub mod laws;
pub mod segment;
pub mod session;
pub mod store;
