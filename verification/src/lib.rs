//! Orchestration of a streaming video pipeline.
//!
//! A pipeline is an ordered list of processing stages (read, demultiplex,
//! decode, filter, encode, render) that a media engine instantiates, links and
//! runs. This crate decides *what* the engine is asked to do and in which
//! order; it never talks to the engine itself. The caller performs each
//! requested engine call and reports the engine's answer back.
//!
//! * [`util`] holds the user-facing options and their validators.
//! * [`video`] holds the stage descriptors, the stage factory and the
//!   pipeline graph with its assembly and playback state machine.

pub mod util;
pub mod video;
