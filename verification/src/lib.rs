//! Core of a notification-to-action dispatcher: a fixed catalog of lifecycle
//! events raised by an analysis host is mapped to optional pre-loaded audio
//! buffers, each event occurrence triggers at most one playback submission,
//! and a document is instrumented at most once however often the host
//! re-announces it.

pub mod config;
pub mod errors;
pub mod events;
pub mod handler;
pub mod playback;
pub mod registry;
pub mod table;
