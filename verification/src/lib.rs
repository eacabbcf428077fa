//! Verified core of a contest-judge worker daemon.
//!
//! The daemon pulls pending submissions from a coordinator, runs each one in a
//! sandbox container against a cached `(input, expected output)` pair, classifies
//! the outcome, and reports verdicts back.  This crate holds the decision logic:
//! the submission lifecycle state machine, the problem-cache validity check, the
//! result vocabulary, and the typed classification of coordinator and container
//! engine responses.  The surrounding process (HTTP, filesystem, the event loop)
//! drives these functions and performs the actions they prescribe.

pub mod cache;
pub mod docker;
pub mod error;
pub mod ravel;
pub mod runner;
pub mod scheduler;
pub mod text;
pub mod workspace;
