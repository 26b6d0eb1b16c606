//! A catalog-driven micro-benchmark library for homomorphic integer
//! arithmetic.
//!
//! The library enumerates a fixed catalog of benchmark cases (a cleartext
//! width paired with an arithmetic operation), drives one timed run of the
//! encrypt / operate / decrypt pipeline per case against an FHE backend,
//! and renders each run as a deterministic text report with a deterministic
//! file name. File input/output itself is left to the embedding program;
//! the library produces the path and the full file contents as values.

pub mod backend;
pub mod catalog;
pub mod errors;
pub mod orchestrate;
pub mod reporting;
pub mod runner;
