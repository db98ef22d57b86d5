use vstd::prelude::*;

use crate::errors::DarwinError;
use crate::state::agent::AgentGenome;
use crate::state::agent::MAX_GENE;
use crate::state::agent::genome_ok;
use crate::state::agent::new_agent_record;
use crate::state::agent::validate_genome;
use crate::state::protocol::ProtocolState;
use crate::state::pubkey::Pubkey;
use crate::state::pubkey::same_key;

verus! {

/// Notification emitted when an agent is spawned.
#[derive(Clone, Copy, Debug)]
pub struct AgentSpawned {
    pub id: u64,
    pub generation: u16,
    pub genome: [u16; 12],
    pub owner: Pubkey,
}

/// Success demands the caller to be the stored authority, every gene in
/// range, and the agent counter not yet saturated.
pub open spec fn spawn_allowed(state: ProtocolState, caller: Pubkey, genome: [u16; 12]) -> bool {
    &&& same_key(caller, state.authority)
    &&& genome_ok(genome@)
    &&& state.total_agents_ever < u64::MAX
}

/// Creates a new agent record with the next sequential id, no lineage, and
/// zeroed statistics, and increments the global agent counter. Rejected
/// inputs leave the protocol record unchanged and create nothing: the caller
/// must be the stored authority (else `Unauthorized`), every gene must be in
/// range (else `GeneOutOfRange`), and the agent counter must be incrementable
/// (else `Overflow`).
pub fn handler(state: &mut ProtocolState, caller: &Pubkey, genome: [u16; 12], now: i64) -> (r:
    Result<(AgentGenome, AgentSpawned), DarwinError>)
    ensures
        r is Ok <==> spawn_allowed(*old(state), *caller, genome),
        r == Err::<(AgentGenome, AgentSpawned), DarwinError>(DarwinError::Unauthorized) <==> !same_key(
            *caller,
            old(state).authority,
        ),
        r == Err::<(AgentGenome, AgentSpawned), DarwinError>(DarwinError::GeneOutOfRange) <==> (
        same_key(*caller, old(state).authority) && !genome_ok(genome@)),
        r == Err::<(AgentGenome, AgentSpawned), DarwinError>(DarwinError::Overflow) <==> (same_key(
            *caller,
            old(state).authority,
        ) && genome_ok(genome@) && old(state).total_agents_ever == u64::MAX),
        r is Err ==> *final(state) == *old(state),
        r matches Ok((agent, event)) ==> {
            &&& agent == new_agent_record(
                old(state).total_agents_ever,
                old(state).current_generation,
                None,
                None,
                genome,
                now,
                *caller,
            )
            &&& *final(state) == (ProtocolState {
                total_agents_ever: (old(state).total_agents_ever + 1) as u64,
                ..*old(state)
            })
            &&& event == (AgentSpawned {
                id: agent.id,
                generation: agent.generation,
                genome,
                owner: *caller,
            })
        },
{
    if !caller.matches(&state.authority) {
        return Err(DarwinError::Unauthorized);
    }
    if !validate_genome(&genome) {
        return Err(DarwinError::GeneOutOfRange);
    }
    let agent_id = state.total_agents_ever;
    let next_total = match agent_id.checked_add(1) {
        Some(n) => n,
        None => {
            return Err(DarwinError::Overflow);
        },
    };
    let agent = AgentGenome {
        id: agent_id,
        generation: state.current_generation,
        parent_a: None,
        parent_b: None,
        genome,
        born_at: now,
        died_at: None,
        total_pnl: 0,
        total_trades: 0,
        win_rate: 0,
        is_alive: true,
        owner: *caller,
    };
    state.total_agents_ever = next_total;
    let event = AgentSpawned { id: agent_id, generation: agent.generation, genome, owner: agent.owner };
    Ok((agent, event))
}

} // verus!
