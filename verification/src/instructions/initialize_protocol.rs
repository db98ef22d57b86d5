use vstd::prelude::*;

use crate::state::protocol::ProtocolState;
use crate::state::protocol::initial_protocol_state;
use crate::state::pubkey::Pubkey;

verus! {

/// Notification emitted when the protocol record is created.
#[derive(Clone, Copy, Debug)]
pub struct ProtocolInitialized {
    pub authority: Pubkey,
}

/// Creates the singleton protocol record. The caller identity becomes the
/// stored authority; every counter and the champion start at zero. The record
/// store refuses a duplicate key, so this runs at most once.
pub fn handler(authority: Pubkey) -> (r: (ProtocolState, ProtocolInitialized))
    ensures
        r.0 == initial_protocol_state(authority),
        r.1.authority == authority,
{
    let state = ProtocolState {
        authority,
        current_generation: 0,
        total_agents_ever: 0,
        total_generations: 0,
        best_agent_ever: 0,
        best_pnl_ever: 0,
    };
    let event = ProtocolInitialized { authority };
    (state, event)
}

} // verus!
