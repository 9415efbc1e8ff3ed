//! A host-automation broker: pointer and keyboard control, process
//! execution, and network fetch, reduced to a uniform success/failure
//! result. Parameters drawn from closed sets are validated before any
//! OS facility is touched, and the outcome of every spawned process is
//! normalized by one shared policy.

pub mod device;
pub mod errors;
pub mod files;
pub mod net;
pub mod numfmt;
pub mod ops;
pub mod outcome;
pub mod script;
pub mod textutil;
