//! A benchmark harness for proof-of-solvency systems: it synthesizes a
//! population of account entries under numeric constraints, drives a proving
//! backend through a fixed phase sequence, isolates the wall-clock timing of
//! the commitment phase and the inclusion phase, and records the
//! measurements as an immutable result that renders to a structured file.

pub mod adapter;
pub mod config;
pub mod digits;
pub mod entries;
pub mod error;
pub mod orchestrator;
pub mod recorder;
pub mod scan;

pub use adapter::BackendAdapter;
pub use adapter::Circuit;
pub use adapter::CommitmentArtifact;
pub use adapter::InclusionClaim;
pub use config::BenchConfig;
pub use entries::generate_dummy_entries;
pub use entries::Entry;
pub use error::BenchError;
pub use orchestrator::BenchmarkRun;
pub use orchestrator::Phase;
pub use recorder::output_filename;
pub use recorder::parse_json;
pub use recorder::BenchmarkResult;
