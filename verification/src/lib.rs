//! Generation-time logic for a memoizing wrapper around a function
//! declaration: option resolution, argument classification, storage backend
//! selection, naming, and synthesis of the artifact descriptor, together with
//! a runtime model of the generated cache's lookup-or-compute protocol.

pub mod backend;
pub mod cache;
pub mod errors;
pub mod naming;
pub mod options;
pub mod signature;
pub mod synth;
