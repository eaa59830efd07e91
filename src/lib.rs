//! Call-by-call model of a managed heap: how the heap pointer and the peak memory use evolve
//! under a garbage-collection strategy and a heap-growth scheduler.

pub mod config;
pub mod policy;
pub mod collection;
pub mod simulation;
pub mod laws;
