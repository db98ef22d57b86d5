use vstd::arithmetic::div_mod::lemma_div_is_ordered;
use vstd::arithmetic::div_mod::lemma_div_multiples_vanish;
use vstd::arithmetic::div_mod::lemma_div_pos_is_pos;
use vstd::prelude::*;

use crate::errors::DarwinError;
use crate::state::agent::AgentGenome;
use crate::state::protocol::ProtocolState;
use crate::state::pubkey::Pubkey;
use crate::state::pubkey::same_key;

verus! {

/// Notification emitted when a performance round is recorded.
#[derive(Clone, Copy, Debug)]
pub struct PerformanceRecorded {
    pub agent_id: u64,
    pub pnl_bps: i64,
    pub trades: u32,
    pub wins: u32,
    pub cumulative_pnl: i64,
}

/// The agent's historical win count, reconstructed from its stored win rate:
/// the rate is basis points of winning trades, so the count is the rate times
/// the trade count, scaled back down.
pub open spec fn historical_wins(win_rate: u16, trades: u32) -> int {
    (win_rate as int) * (trades as int) / 10000
}

/// The win rate after one more round: historical wins plus this round's wins,
/// over the new trade total, rescaled to basis points. A zero trade total
/// defines the rate as zero.
pub open spec fn updated_win_rate(win_rate: u16, trades_before: u32, trades: u32, wins: u32) -> int {
    let new_trades = trades_before + trades;
    if new_trades > 0 {
        (historical_wins(win_rate, trades_before) + wins) * 10000 / new_trades
    } else {
        0
    }
}

/// Adding `pnl_bps` to the accumulator would leave the representable range.
pub open spec fn pnl_overflows(total_pnl: i64, pnl_bps: i64) -> bool {
    total_pnl + pnl_bps > i64::MAX || total_pnl + pnl_bps < i64::MIN
}

/// Success demands the caller to be the stored authority, the agent alive,
/// and both accumulators incrementable.
pub open spec fn record_allowed(
    state: ProtocolState,
    agent: AgentGenome,
    caller: Pubkey,
    pnl_bps: i64,
    trades: u32,
) -> bool {
    &&& same_key(caller, state.authority)
    &&& agent.is_alive
    &&& !pnl_overflows(agent.total_pnl, pnl_bps)
    &&& agent.total_trades + trades <= u32::MAX
}

/// Accumulates one round of trading into a living agent: pnl and trade count
/// are added with checked arithmetic, the win rate is recomputed from the
/// reconstructed historical win count, and the all-time champion is replaced
/// exactly when the agent's new cumulative pnl strictly exceeds it. A dead
/// agent (`AgentNotAlive`), a caller other than the authority
/// (`Unauthorized`) or a saturated accumulator (`Overflow`) leaves both
/// records unchanged.
pub fn handler(
    state: &mut ProtocolState,
    agent: &mut AgentGenome,
    caller: &Pubkey,
    pnl_bps: i64,
    trades: u32,
    wins: u32,
) -> (r: Result<PerformanceRecorded, DarwinError>)
    requires
        old(agent).wf(),
        wins <= trades,
    ensures
        r is Ok <==> record_allowed(*old(state), *old(agent), *caller, pnl_bps, trades),
        r == Err::<PerformanceRecorded, DarwinError>(DarwinError::Unauthorized) <==> !same_key(
            *caller,
            old(state).authority,
        ),
        r == Err::<PerformanceRecorded, DarwinError>(DarwinError::AgentNotAlive) <==> (same_key(
            *caller,
            old(state).authority,
        ) && !old(agent).is_alive),
        r == Err::<PerformanceRecorded, DarwinError>(DarwinError::Overflow) <==> (same_key(
            *caller,
            old(state).authority,
        ) && old(agent).is_alive && (pnl_overflows(old(agent).total_pnl, pnl_bps) || old(
            agent,
        ).total_trades + trades > u32::MAX)),
        r is Err ==> *final(agent) == *old(agent) && *final(state) == *old(state),
        r matches Ok(event) ==> ({
            let new_pnl = (old(agent).total_pnl + pnl_bps) as i64;
            &&& *final(agent) == (AgentGenome {
                total_pnl: new_pnl,
                total_trades: (old(agent).total_trades + trades) as u32,
                win_rate: updated_win_rate(
                    old(agent).win_rate,
                    old(agent).total_trades,
                    trades,
                    wins,
                ) as u16,
                ..*old(agent)
            })
            &&& *final(state) == (if new_pnl > old(state).best_pnl_ever {
                ProtocolState {
                    best_pnl_ever: new_pnl,
                    best_agent_ever: old(agent).id,
                    ..*old(state)
                }
            } else {
                *old(state)
            })
            &&& event == (PerformanceRecorded {
                agent_id: old(agent).id,
                pnl_bps,
                trades,
                wins,
                cumulative_pnl: new_pnl,
            })
        }),
        final(agent).wf(),
        final(agent).win_rate <= 10000,
{
    if !caller.matches(&state.authority) {
        return Err(DarwinError::Unauthorized);
    }
    if !agent.is_alive {
        return Err(DarwinError::AgentNotAlive);
    }

    let trades_before = agent.total_trades;
    let rate_before = agent.win_rate;

    let new_pnl = match agent.total_pnl.checked_add(pnl_bps) {
        Some(v) => v,
        None => {
            return Err(DarwinError::Overflow);
        },
    };
    let new_trades = match trades_before.checked_add(trades) {
        Some(v) => v,
        None => {
            return Err(DarwinError::Overflow);
        },
    };

    agent.total_pnl = new_pnl;
    agent.total_trades = new_trades;

    // Reconstruct the historical win count, add this round's wins, and
    // rescale to basis points over the new trade total.
    proof {
        assert((rate_before as int) * (trades_before as int) < 0x10000 * 0x100000000)
            by (nonlinear_arith)
            requires
                rate_before < 0x10000,
                trades_before < 0x100000000,
        ;
    }
    let hist: u64 = (rate_before as u64) * (trades_before as u64) / 10000;
    proof {
        lemma_historical_wins_le_trades(rate_before, trades_before);
    }
    let total_wins: u64 = hist + (wins as u64);
    let new_rate: u16 = if new_trades > 0 {
        proof {
            lemma_win_rate_quotient_bounded(
                hist as int + wins as int,
                new_trades as int,
            );
        }
        ((total_wins * 10000) / (new_trades as u64)) as u16
    } else {
        0
    };
    agent.win_rate = new_rate;

    if agent.total_pnl > state.best_pnl_ever {
        state.best_pnl_ever = agent.total_pnl;
        state.best_agent_ever = agent.id;
    }

    Ok(
        PerformanceRecorded {
            agent_id: agent.id,
            pnl_bps,
            trades,
            wins,
            cumulative_pnl: new_pnl,
        },
    )
}

/// A win rate within basis points reconstructs to no more wins than trades.
pub proof fn lemma_historical_wins_le_trades(win_rate: u16, trades: u32)
    requires
        win_rate <= 10000,
    ensures
        0 <= historical_wins(win_rate, trades) <= trades,
{
    let w = win_rate as int;
    let t = trades as int;
    assert(w * t <= 10000 * t) by (nonlinear_arith)
        requires
            w <= 10000,
            t >= 0,
    ;
    assert(w * t >= 0) by (nonlinear_arith)
        requires
            w >= 0,
            t >= 0,
    ;
    lemma_div_is_ordered(w * t, 10000 * t, 10000);
    lemma_div_multiples_vanish(t, 10000);
    lemma_div_pos_is_pos(w * t, 10000);
}

/// A win count no larger than the trade total rescales to at most 10000
/// basis points.
pub proof fn lemma_win_rate_quotient_bounded(total_wins: int, new_trades: int)
    requires
        0 <= total_wins <= new_trades,
        new_trades > 0,
    ensures
        0 <= total_wins * 10000 / new_trades <= 10000,
{
    assert(total_wins * 10000 <= new_trades * 10000) by (nonlinear_arith)
        requires
            total_wins <= new_trades,
    ;
    assert(total_wins * 10000 >= 0) by (nonlinear_arith)
        requires
            total_wins >= 0,
    ;
    lemma_div_is_ordered(total_wins * 10000, new_trades * 10000, new_trades);
    lemma_div_multiples_vanish(10000, new_trades);
    lemma_div_pos_is_pos(total_wins * 10000, new_trades);
}

} // verus!
