//! The record types of the upstream data model and the endpoint
//! descriptors of every remote operation.

pub mod hotspot;
pub mod observations;
pub mod rare_birds;
pub mod region;
pub mod trip;
