//! The logic of a compilation service for zkSync contracts: the task
//! records and their storage format, the HTTP service's checks and
//! workspace layouts, the queue worker's retrying, processing and purging,
//! and the request handlers in front of the worker.
use vstd::prelude::*;

pub mod text;
pub mod attribute;
pub mod types;
pub mod ident;
pub mod clock;
pub mod legacy;
pub mod paths;
pub mod api;
pub mod worker;
pub mod lambdas;

verus! {

} // verus!
