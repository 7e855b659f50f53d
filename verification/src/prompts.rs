//! Composite operations that issue several dependent remote calls and merge
//! the results into one document.

pub mod trip;
