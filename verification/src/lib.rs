//! A thread-per-core connection-accepting server core: the error model that
//! turns handler failures into protocol responses, the worker state machine,
//! and the bootstrap rules that decide how many workers run and where they bind.

pub mod status;
pub mod text;
pub mod handler;
pub mod worker;
pub mod bootstrap;
pub mod service;
