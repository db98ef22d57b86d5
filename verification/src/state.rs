//! Persistent record types of the protocol: the singleton protocol state,
//! per-epoch generation records, and per-agent genome records.

pub mod agent;
pub mod generation;
pub mod protocol;
pub mod pubkey;

pub use agent::AgentGenome;
pub use generation::Generation;
pub use protocol::ProtocolState;
pub use pubkey::Pubkey;
