//! A micro-benchmark harness for an external access-control enforcement
//! engine. The verified core covers the scenario catalog and its lookup,
//! the scaling policy/grouping generator, and the raw baseline check;
//! the engine calls themselves, timing and I/O live outside the library.

pub mod baseline;
pub mod generator;
pub mod registry;
pub mod scenario;
pub mod text;
