//! The compilation worker: it takes tasks from the queue, compiles the
//! sources stored for them, records the outcome and later removes what a
//! finished task left behind.
pub mod retry;
pub mod layout;
pub mod purgatory;
pub mod commands;
pub mod storage;
pub mod processing;
