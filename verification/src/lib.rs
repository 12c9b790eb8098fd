//! Live media segment pipeline: catalog track model, segment reassembly,
//! encoder supervision, and wall-clock timestamp anchoring.
//!
//! A broadcast arrives as ordered byte fragments on a set of named tracks.
//! This crate models the tracks from the broadcast's catalog document,
//! reassembles fragment streams into complete segments, supervises one
//! external encoder process per track, and re-anchors the encoder's
//! numbered output segments onto a shared wall-clock timeline so that
//! audio and video can be paired again by timestamp alone.

pub mod catalog;
pub mod digits;
pub mod ffmpeg;
pub mod json;
pub mod reassembly;
pub mod sched;
pub mod session;
pub mod supervisor;
pub mod text;
pub mod timeline;
pub mod vompc;
pub mod watcher;
