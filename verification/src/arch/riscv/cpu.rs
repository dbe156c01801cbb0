//! The processor: what it runs and what stops it.

pub mod context;
