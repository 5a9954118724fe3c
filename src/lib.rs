//! Core of a multiple-choice quiz: the question model, reading a question
//! bank from delimited text with a built-in fallback, choosing a contiguous
//! run of questions, the session state machine and the scorer.

pub mod question;
pub mod loader;
pub mod sampler;
pub mod scoring;
pub mod session;
pub mod location;
