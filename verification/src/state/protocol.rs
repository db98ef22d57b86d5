use vstd::prelude::*;

use crate::state::pubkey::Pubkey;

verus! {

/// The singleton protocol record: the privileged authority identity, global
/// counters, and the all-time champion agent. Created once by
/// `initialize_protocol`, mutated by every other operation, never destroyed.
#[derive(Clone, Copy, Debug)]
pub struct ProtocolState {
    /// The single identity permitted to perform privileged mutations.
    pub authority: Pubkey,
    /// Number of the currently open generation; starts at 0.
    pub current_generation: u16,
    /// Count of agents ever created by spawn or breed.
    pub total_agents_ever: u64,
    /// Count of successful generation advancements.
    pub total_generations: u16,
    /// Id of the agent holding the best cumulative pnl ever observed.
    pub best_agent_ever: u64,
    /// Best cumulative pnl ever observed across all performance recordings.
    pub best_pnl_ever: i64,
}

/// The protocol record as `initialize_protocol` creates it.
pub open spec fn initial_protocol_state(authority: Pubkey) -> ProtocolState {
    ProtocolState {
        authority,
        current_generation: 0u16,
        total_agents_ever: 0u64,
        total_generations: 0u16,
        best_agent_ever: 0u64,
        best_pnl_ever: 0i64,
    }
}

} // verus!
