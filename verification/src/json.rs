//! The canonical structured representation that every response payload is
//! decoded from and every tool result is encoded into.

pub mod parse;
pub mod value;
pub mod write;
