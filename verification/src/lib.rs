//! Darwin protocol: a deterministic state-transition engine for a population
//! of simulated trading agents organized into sequential generations.
//!
//! Agents carry a fixed-length genome of twelve genes, each in `0..=1000`,
//! accrue trading performance, breed, and are culled; a singleton protocol
//! record tracks global counters and the all-time champion.

pub mod darwin;
pub mod errors;
pub mod instructions;
pub mod laws;
pub mod state;

pub use darwin::DarwinProtocol;
pub use darwin::advance_generation;
pub use darwin::breed;
pub use darwin::initialize_protocol;
pub use darwin::kill_agent;
pub use darwin::record_performance;
pub use darwin::spawn_agent;
pub use errors::DarwinError;
