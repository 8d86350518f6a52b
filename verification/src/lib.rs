//! Context assembly and operation dispatch for a GNSS analysis run.
//!
//! The library decides, from plain values, which discovered files become part
//! of a dataset, which receiver position is authoritative, whether a
//! differential pairing can be formed, and which steps a run performs for the
//! selected operating mode. Reading files, decoding their formats and
//! rendering a report are left to the caller.

pub mod context;
pub mod dataset;
pub mod discovery;
pub mod error;
pub mod loader;
pub mod mode;
pub mod position;
pub mod probe;
pub mod run;
