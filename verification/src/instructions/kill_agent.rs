use vstd::prelude::*;

use crate::errors::DarwinError;
use crate::state::agent::AgentGenome;
use crate::state::generation::Generation;
use crate::state::protocol::ProtocolState;
use crate::state::pubkey::Pubkey;
use crate::state::pubkey::same_key;

verus! {

/// Notification emitted when an agent is killed.
#[derive(Clone, Copy, Debug)]
pub struct AgentDied {
    pub id: u64,
    pub generation: u16,
    pub pnl: i64,
    pub trades: u32,
}

/// Success demands the caller to be the stored authority, the agent still
/// alive, and the generation's death counter incrementable.
pub open spec fn kill_allowed(
    state: ProtocolState,
    agent: AgentGenome,
    generation: Generation,
    caller: Pubkey,
) -> bool {
    &&& same_key(caller, state.authority)
    &&& agent.is_alive
    &&& generation.agents_died < u16::MAX
}

/// Marks a living agent dead, stamps its time of death, and increments the
/// current generation's death counter. The record is never removed: it
/// persists as a permanent tombstone. Killing an agent that is already dead
/// fails with `AlreadyDead`; a caller other than the authority with
/// `Unauthorized`; a saturated death counter with `Overflow`. Any failure
/// leaves both mutable records unchanged.
pub fn handler(
    state: &ProtocolState,
    agent: &mut AgentGenome,
    generation: &mut Generation,
    caller: &Pubkey,
    now: i64,
) -> (r: Result<AgentDied, DarwinError>)
    ensures
        r is Ok <==> kill_allowed(*state, *old(agent), *old(generation), *caller),
        r == Err::<AgentDied, DarwinError>(DarwinError::Unauthorized) <==> !same_key(
            *caller,
            state.authority,
        ),
        r == Err::<AgentDied, DarwinError>(DarwinError::AlreadyDead) <==> (same_key(
            *caller,
            state.authority,
        ) && !old(agent).is_alive),
        r == Err::<AgentDied, DarwinError>(DarwinError::Overflow) <==> (same_key(
            *caller,
            state.authority,
        ) && old(agent).is_alive && old(generation).agents_died == u16::MAX),
        r is Err ==> *final(agent) == *old(agent) && *final(generation) == *old(generation),
        r matches Ok(event) ==> {
            &&& *final(agent) == (AgentGenome {
                is_alive: false,
                died_at: Some(now),
                ..*old(agent)
            })
            &&& *final(generation) == (Generation {
                agents_died: (old(generation).agents_died + 1) as u16,
                ..*old(generation)
            })
            &&& event == (AgentDied {
                id: old(agent).id,
                generation: old(agent).generation,
                pnl: old(agent).total_pnl,
                trades: old(agent).total_trades,
            })
        },
{
    if !caller.matches(&state.authority) {
        return Err(DarwinError::Unauthorized);
    }
    if !agent.is_alive {
        return Err(DarwinError::AlreadyDead);
    }
    let new_died = match generation.agents_died.checked_add(1) {
        Some(n) => n,
        None => {
            return Err(DarwinError::Overflow);
        },
    };

    agent.is_alive = false;
    agent.died_at = Some(now);
    generation.agents_died = new_died;

    Ok(
        AgentDied {
            id: agent.id,
            generation: agent.generation,
            pnl: agent.total_pnl,
            trades: agent.total_trades,
        },
    )
}

} // verus!
