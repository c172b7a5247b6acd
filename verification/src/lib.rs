//! Core of a guardrails orchestrator: a coordination layer placed in front of
//! a text-generation service that optionally runs input and output through
//! pluggable detector services, each of which needs its text segmented by a
//! designated chunker service first.
//!
//! This crate holds the orchestration logic itself, verified: resolving the
//! detector-to-chunker dependency map, slicing masked input into segments,
//! planning and aggregating detection fan-out, and the request state machine
//! that orders tokenize, generate and detect calls for the unary and the
//! streaming mode. Every backend call (tokenize, chunk, detect, generate) is
//! an asynchronous operation of the surrounding transport layer: the library
//! decides, from the current state and the backend's answer, what to do next;
//! the caller performs the calls and feeds the answers back in.

pub mod config;
pub mod detection;
pub mod errors;
pub mod generation;
pub mod orchestrator;
pub mod slicer;
