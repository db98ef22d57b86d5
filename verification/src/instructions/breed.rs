use vstd::prelude::*;

use crate::errors::DarwinError;
use crate::state::agent::AgentGenome;
use crate::state::agent::genome_ok;
use crate::state::agent::new_agent_record;
use crate::state::agent::validate_genome;
use crate::state::generation::Generation;
use crate::state::protocol::ProtocolState;
use crate::state::pubkey::Pubkey;
use crate::state::pubkey::same_key;

verus! {

/// Notification emitted when a child agent is bred.
#[derive(Clone, Copy, Debug)]
pub struct AgentBred {
    pub child_id: u64,
    pub parent_a: u64,
    pub parent_b: u64,
    pub generation: u16,
    pub genome: [u16; 12],
}

/// Success demands the caller to be the stored authority, both parents
/// alive, every gene of the child genome in range, and both the agent
/// counter and the generation's birth counter incrementable.
pub open spec fn breed_allowed(
    state: ProtocolState,
    parent_a: AgentGenome,
    parent_b: AgentGenome,
    generation: Generation,
    caller: Pubkey,
    child_genome: [u16; 12],
) -> bool {
    &&& same_key(caller, state.authority)
    &&& parent_a.is_alive
    &&& parent_b.is_alive
    &&& genome_ok(child_genome@)
    &&& state.total_agents_ever < u64::MAX
    &&& generation.agents_born < u16::MAX
}

/// Creates a child agent at the next sequential id, recording the two parent
/// ids as its lineage; the caller supplies the child genome, and the core
/// only validates its range. Increments the global agent counter and the
/// current generation's birth counter. A caller other than the authority
/// fails with `Unauthorized`; a dead parent with `AgentNotAlive`; an
/// out-of-range gene with `GeneOutOfRange`; a saturated counter with
/// `Overflow`. Any failure leaves both mutable records unchanged and creates
/// nothing.
pub fn handler(
    state: &mut ProtocolState,
    parent_a: &AgentGenome,
    parent_b: &AgentGenome,
    generation: &mut Generation,
    caller: &Pubkey,
    child_genome: [u16; 12],
    now: i64,
) -> (r: Result<(AgentGenome, AgentBred), DarwinError>)
    ensures
        r is Ok <==> breed_allowed(
            *old(state),
            *parent_a,
            *parent_b,
            *old(generation),
            *caller,
            child_genome,
        ),
        r == Err::<(AgentGenome, AgentBred), DarwinError>(DarwinError::Unauthorized) <==> !same_key(
            *caller,
            old(state).authority,
        ),
        r == Err::<(AgentGenome, AgentBred), DarwinError>(DarwinError::AgentNotAlive) <==> (
        same_key(*caller, old(state).authority) && (!parent_a.is_alive || !parent_b.is_alive)),
        r == Err::<(AgentGenome, AgentBred), DarwinError>(DarwinError::GeneOutOfRange) <==> (
        same_key(*caller, old(state).authority) && parent_a.is_alive && parent_b.is_alive
            && !genome_ok(child_genome@)),
        r == Err::<(AgentGenome, AgentBred), DarwinError>(DarwinError::Overflow) <==> (same_key(
            *caller,
            old(state).authority,
        ) && parent_a.is_alive && parent_b.is_alive && genome_ok(child_genome@) && (old(
            state,
        ).total_agents_ever == u64::MAX || old(generation).agents_born == u16::MAX)),
        r is Err ==> *final(state) == *old(state) && *final(generation) == *old(generation),
        r matches Ok((child, event)) ==> {
            &&& child == new_agent_record(
                old(state).total_agents_ever,
                old(state).current_generation,
                Some(parent_a.id),
                Some(parent_b.id),
                child_genome,
                now,
                *caller,
            )
            &&& *final(state) == (ProtocolState {
                total_agents_ever: (old(state).total_agents_ever + 1) as u64,
                ..*old(state)
            })
            &&& *final(generation) == (Generation {
                agents_born: (old(generation).agents_born + 1) as u16,
                ..*old(generation)
            })
            &&& event == (AgentBred {
                child_id: child.id,
                parent_a: parent_a.id,
                parent_b: parent_b.id,
                generation: child.generation,
                genome: child_genome,
            })
        },
{
    if !caller.matches(&state.authority) {
        return Err(DarwinError::Unauthorized);
    }
    if !parent_a.is_alive || !parent_b.is_alive {
        return Err(DarwinError::AgentNotAlive);
    }
    if !validate_genome(&child_genome) {
        return Err(DarwinError::GeneOutOfRange);
    }
    let child_id = state.total_agents_ever;
    let next_total = match child_id.checked_add(1) {
        Some(n) => n,
        None => {
            return Err(DarwinError::Overflow);
        },
    };
    let next_born = match generation.agents_born.checked_add(1) {
        Some(n) => n,
        None => {
            return Err(DarwinError::Overflow);
        },
    };

    let child = AgentGenome {
        id: child_id,
        generation: state.current_generation,
        parent_a: Some(parent_a.id),
        parent_b: Some(parent_b.id),
        genome: child_genome,
        born_at: now,
        died_at: None,
        total_pnl: 0,
        total_trades: 0,
        win_rate: 0,
        is_alive: true,
        owner: *caller,
    };

    state.total_agents_ever = next_total;
    generation.agents_born = next_born;

    let event = AgentBred {
        child_id,
        parent_a: parent_a.id,
        parent_b: parent_b.id,
        generation: child.generation,
        genome: child_genome,
    };
    Ok((child, event))
}

} // verus!
