use vstd::prelude::*;

use crate::errors::DarwinError;
use crate::state::generation::Generation;
use crate::state::generation::new_generation_record;
use crate::state::protocol::ProtocolState;
use crate::state::pubkey::Pubkey;
use crate::state::pubkey::same_key;

verus! {

/// Notification emitted when a new generation is opened.
#[derive(Clone, Copy, Debug)]
pub struct GenerationAdvanced {
    pub generation: u16,
    pub timestamp: i64,
}

/// Success demands the caller to be the stored authority and both generation
/// counters incrementable.
pub open spec fn advance_allowed(state: ProtocolState, caller: Pubkey) -> bool {
    &&& same_key(caller, state.authority)
    &&& state.current_generation < u16::MAX
    &&& state.total_generations < u16::MAX
}

/// Opens the next generation: creates a zeroed generation record numbered
/// one past the current generation, stamps its start time, and advances both
/// the current-generation counter and the lifetime generation counter. A
/// caller other than the authority fails with `Unauthorized`; a saturated
/// counter with `Overflow`; either failure leaves the protocol record
/// unchanged and creates nothing.
pub fn handler(state: &mut ProtocolState, caller: &Pubkey, now: i64) -> (r: Result<
    (Generation, GenerationAdvanced),
    DarwinError,
>)
    ensures
        r is Ok <==> advance_allowed(*old(state), *caller),
        r == Err::<(Generation, GenerationAdvanced), DarwinError>(DarwinError::Unauthorized) <==> !same_key(
            *caller,
            old(state).authority,
        ),
        r == Err::<(Generation, GenerationAdvanced), DarwinError>(DarwinError::Overflow) <==> (
        same_key(*caller, old(state).authority) && (old(state).current_generation == u16::MAX || old(
            state,
        ).total_generations == u16::MAX)),
        r is Err ==> *final(state) == *old(state),
        r matches Ok((generation, event)) ==> {
            &&& generation == new_generation_record(
                (old(state).current_generation + 1) as u16,
                now,
            )
            &&& *final(state) == (ProtocolState {
                current_generation: (old(state).current_generation + 1) as u16,
                total_generations: (old(state).total_generations + 1) as u16,
                ..*old(state)
            })
            &&& event == (GenerationAdvanced {
                generation: (old(state).current_generation + 1) as u16,
                timestamp: now,
            })
        },
{
    if !caller.matches(&state.authority) {
        return Err(DarwinError::Unauthorized);
    }
    let new_number = match state.current_generation.checked_add(1) {
        Some(n) => n,
        None => {
            return Err(DarwinError::Overflow);
        },
    };
    let new_total = match state.total_generations.checked_add(1) {
        Some(n) => n,
        None => {
            return Err(DarwinError::Overflow);
        },
    };

    let generation = Generation {
        number: new_number,
        started_at: now,
        ended_at: None,
        best_pnl: 0,
        best_agent: 0,
        avg_pnl: 0,
        agents_born: 0,
        agents_died: 0,
    };

    state.current_generation = new_number;
    state.total_generations = new_total;

    let event = GenerationAdvanced { generation: new_number, timestamp: now };
    Ok((generation, event))
}

} // verus!
