//! The six operation handlers. Each validates every precondition of the
//! operation, then mutates the records it was handed; on any failure it
//! returns an error and leaves every record unchanged.

pub mod advance_generation;
pub mod breed;
pub mod initialize_protocol;
pub mod kill_agent;
pub mod record_performance;
pub mod spawn_agent;
