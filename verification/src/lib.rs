//! A verified core for a birding-data tool service.
//!
//! The crate models one remote ornithological HTTP API as a set of endpoint
//! descriptors, a typed dispatcher that classifies every outcome of a call,
//! codecs between the record types and a canonical JSON representation, and
//! an orchestrator that composes several dependent calls into one document.
//! All decision logic lives here and is verified; the network transport and
//! the protocol wiring live outside the crate and only hand plain values in.

pub mod api;
pub mod codec;
pub mod content;
pub mod fixed;
pub mod json;
pub mod prompts;
pub mod server;
pub mod text;
pub mod tools;
