//! Commit messages from a diff, written by a language model.
//!
//! The library holds every decision of the tool as a function from plain
//! values to plain values: the prompt that is built from a diff, the request
//! that each backend sends, what each backend makes of the reply, and what the
//! process finally prints. Reading standard input, the environment and the
//! network is left to the program around it.

pub mod error;
pub mod http;
pub mod models;
pub mod prompt;
pub mod services;
pub mod shell;
pub mod text;
