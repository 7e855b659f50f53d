//! The remote-service layer: endpoint descriptors, the typed dispatcher,
//! and the failure taxonomy.

pub mod client;
pub mod endpoint;
pub mod error;
