//! The guarantees of the engine, stated once over the whole store. Each law
//! follows from the store invariant `DarwinProtocol::wf`, which every
//! operation requires and re-establishes.

use vstd::prelude::*;

use crate::darwin::DarwinProtocol;
use crate::darwin::champion_of;
use crate::instructions::record_performance::lemma_historical_wins_le_trades;
use crate::instructions::record_performance::lemma_win_rate_quotient_bounded;
use crate::instructions::record_performance::updated_win_rate;
use crate::state::agent::MAX_GENE;

verus! {

/// Agent ids are sequential and unique: the record stored at index `n`
/// carries id `n`, so the Nth agent ever created carries id N-1, and ids
/// strictly increase along the store.
pub proof fn lemma_agent_ids_sequential(d: DarwinProtocol)
    requires
        d.wf(),
        d.protocol is Some,
    ensures
        forall|n: int| 0 <= n < d.agents.len() ==> (#[trigger] d.agents[n]).id == n,
        forall|i: int, j: int|
            0 <= i < j < d.agents.len() ==> d.agents[i].id < d.agents[j].id,
{
    assert forall|i: int, j: int|
        0 <= i < j < d.agents.len() implies d.agents[i].id < d.agents[j].id by {
        assert(d.agents[i].id == i);
        assert(d.agents[j].id == j);
    }
}

/// The global agent counter equals the count of agents ever created: every
/// successful spawn or breed appends exactly one record and adds exactly one
/// to the counter, and nothing else touches either.
pub proof fn lemma_total_agents_counts_creations(d: DarwinProtocol)
    requires
        d.wf(),
        d.protocol is Some,
    ensures
        d.protocol_record().total_agents_ever == d.agents.len(),
{
}

/// Every stored gene of every agent lies in `0..=MAX_GENE`: spawn and breed
/// reject an out-of-range genome before creating anything.
pub proof fn lemma_stored_genes_in_range(d: DarwinProtocol)
    requires
        d.wf(),
        d.protocol is Some,
    ensures
        forall|n: int, i: int|
            0 <= n < d.agents.len() && 0 <= i < d.agents[n].genome@.len() ==> d.agents[n].genome@[i]
                <= MAX_GENE,
{
    assert forall|n: int, i: int|
        0 <= n < d.agents.len() && 0 <= i
            < d.agents[n].genome@.len() implies d.agents[n].genome@[i] <= MAX_GENE by {
        assert(d.agents[n].wf());
    }
}

/// Every stored win rate lies within basis points, whatever sequence of
/// performance recordings produced it.
pub proof fn lemma_win_rates_bounded(d: DarwinProtocol)
    requires
        d.wf(),
        d.protocol is Some,
    ensures
        forall|n: int| 0 <= n < d.agents.len() ==> (#[trigger] d.agents[n]).win_rate <= 10000,
{
}

/// One performance round keeps the win rate within basis points: a rate
/// within basis points reconstructs to no more historical wins than trades,
/// and a win count no larger than the trade total rescales to at most 10000.
pub proof fn lemma_updated_win_rate_bounded(
    win_rate: u16,
    trades_before: u32,
    trades: u32,
    wins: u32,
)
    requires
        win_rate <= 10000,
        wins <= trades,
    ensures
        0 <= updated_win_rate(win_rate, trades_before, trades, wins) <= 10000,
{
    lemma_historical_wins_le_trades(win_rate, trades_before);
    if trades_before + trades > 0 {
        lemma_win_rate_quotient_bounded(
            crate::instructions::record_performance::historical_wins(win_rate, trades_before)
                + wins,
            trades_before + trades,
        );
    }
}

/// The champion of a journal is the strict running maximum: its pnl is never
/// negative, no observation exceeds it, and once positive it was attained by
/// an observation that strictly exceeded everything before it — so an
/// observation merely equalling the incumbent never displaces it.
pub proof fn lemma_champion_is_strict_max(observations: Seq<(u64, i64)>)
    ensures
        champion_of(observations).1 >= 0,
        forall|i: int|
            0 <= i < observations.len() ==> (#[trigger] observations[i]).1 <= champion_of(
                observations,
            ).1,
        champion_of(observations).1 > 0 ==> exists|i: int|
            0 <= i < observations.len() && observations[i] == champion_of(observations) && (
            forall|j: int|
                0 <= j < i ==> (#[trigger] observations[j]).1 < champion_of(observations).1),
    decreases observations.len(),
{
    if observations.len() == 0 {
    } else {
        let prefix = observations.drop_last();
        let last = observations.last();
        let prev = champion_of(prefix);
        lemma_champion_is_strict_max(prefix);
        assert(forall|i: int| 0 <= i < prefix.len() ==> prefix[i] == observations[i]);
        if last.1 > prev.1 {
            let w = observations.len() - 1;
            assert(observations[w] == champion_of(observations));
            assert(forall|j: int|
                0 <= j < w ==> (#[trigger] observations[j]).1 < champion_of(observations).1);
        } else {
            if prev.1 > 0 {
                let w = choose|i: int|
                    0 <= i < prefix.len() && prefix[i] == prev && (forall|j: int|
                        0 <= j < i ==> (#[trigger] prefix[j]).1 < prev.1);
                assert(observations[w] == champion_of(observations));
                assert(forall|j: int|
                    0 <= j < w ==> (#[trigger] observations[j]).1 < champion_of(observations).1);
            }
        }
    }
}

/// The stored champion fields always reflect the strict maximum cumulative
/// pnl ever observed across all performance recordings: no recorded pnl ever
/// exceeded `best_pnl_ever`, and once positive, `best_agent_ever` is the
/// agent that first strictly exceeded every earlier observation — ties never
/// displaced the incumbent. The champion id always refers to a stored agent.
pub proof fn lemma_champion_reflects_observations(d: DarwinProtocol)
    requires
        d.wf(),
        d.protocol is Some,
    ensures
        d.protocol_record().best_pnl_ever >= 0,
        forall|i: int|
            0 <= i < d.observed@.len() ==> (#[trigger] d.observed@[i]).1
                <= d.protocol_record().best_pnl_ever,
        d.protocol_record().best_pnl_ever > 0 ==> exists|i: int|
            0 <= i < d.observed@.len() && d.observed@[i] == (
            d.protocol_record().best_agent_ever,
            d.protocol_record().best_pnl_ever,
            ) && (forall|j: int|
                0 <= j < i ==> (#[trigger] d.observed@[j]).1 < d.protocol_record().best_pnl_ever),
        d.protocol_record().best_pnl_ever > 0 ==> d.protocol_record().best_agent_ever
            < d.agents.len(),
{
    lemma_champion_is_strict_max(d.observed@);
    if d.protocol_record().best_pnl_ever > 0 {
        let w = choose|i: int|
            0 <= i < d.observed@.len() && d.observed@[i] == champion_of(d.observed@) && (
            forall|j: int| 0 <= j < i ==> (#[trigger] d.observed@[j]).1 < champion_of(d.observed@).1);
        assert(d.observed@[w].0 < d.agents.len());
    }
}

} // verus!
