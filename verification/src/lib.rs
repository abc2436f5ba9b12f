//! Affinity-aware build-stress engine.
//!
//! The library maps physical core indices to the execution units that must be
//! reserved together, scopes CPU-affinity changes so that the previous mask is
//! restored on every exit path, filters discovered directories down to
//! buildable projects, and drives the sequential/parallel clean+build cycle,
//! classifying each outcome as recoverable or fatal to the run.

pub mod cli;
pub mod engine;
pub mod pinning;
pub mod project;
pub mod units;

pub use cli::{Args, Mode};
pub use engine::{BuildOutcome, Decision, Engine, EngineError, Job};
pub use project::{discover, eligible, has_manifest_marker, Entry, Project};
pub use pinning::{with_pinned, AffinityCtl, AffinityError, PinEvidence, PinOutcome};
pub use units::{units_for, units_for_many};
