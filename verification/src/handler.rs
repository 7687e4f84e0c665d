//! What a handler hands back when it fails.

pub mod error;
