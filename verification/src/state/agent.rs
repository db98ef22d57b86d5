use vstd::prelude::*;

use crate::state::pubkey::Pubkey;

verus! {

/// Largest admissible gene value.
pub const MAX_GENE: u16 = 1000;

/// A per-agent record: genome, lineage, lifetime trading statistics and the
/// alive flag. Created by `spawn_agent` or `breed`, mutated by
/// `record_performance` and `kill_agent`, never destroyed — dead agents
/// remain as permanent tombstones.
#[derive(Clone, Copy, Debug)]
pub struct AgentGenome {
    /// Sequential id: the Nth agent ever created carries id N-1.
    pub id: u64,
    /// Generation the agent was born into.
    pub generation: u16,
    /// First parent id; absent for originally spawned agents.
    pub parent_a: Option<u64>,
    /// Second parent id; absent for originally spawned agents.
    pub parent_b: Option<u64>,
    /// Twelve genes, each in `0..=MAX_GENE`.
    pub genome: [u16; 12],
    /// Timestamp of creation.
    pub born_at: i64,
    /// Timestamp of death; absent while the agent is alive.
    pub died_at: Option<i64>,
    /// Signed cumulative pnl, in basis points.
    pub total_pnl: i64,
    /// Cumulative count of trades recorded.
    pub total_trades: u32,
    /// Fraction of winning trades, in basis points (`0..=10000`).
    pub win_rate: u16,
    /// True until the agent is killed.
    pub is_alive: bool,
    /// Identity that owns the agent.
    pub owner: Pubkey,
}

/// Every gene of the sequence lies in `0..=MAX_GENE`.
pub open spec fn genome_ok(g: Seq<u16>) -> bool {
    forall|i: int| 0 <= i < g.len() ==> g[i] <= MAX_GENE
}

/// Record-level well-formedness: genes in range and win rate within basis
/// points.
impl AgentGenome {
    pub open spec fn wf(self) -> bool {
        &&& genome_ok(self.genome@)
        &&& self.win_rate <= 10000
    }
}

/// The agent record as `spawn_agent` or `breed` creates it: statistics
/// zeroed, alive, with the given identity and lineage.
pub open spec fn new_agent_record(
    id: u64,
    generation: u16,
    parent_a: Option<u64>,
    parent_b: Option<u64>,
    genome: [u16; 12],
    born_at: i64,
    owner: Pubkey,
) -> AgentGenome {
    AgentGenome {
        id,
        generation,
        parent_a,
        parent_b,
        genome,
        born_at,
        died_at: None,
        total_pnl: 0i64,
        total_trades: 0u32,
        win_rate: 0u16,
        is_alive: true,
        owner,
    }
}

/// True exactly when every gene of the array is in range; the executable
/// counterpart of `genome_ok`.
pub fn validate_genome(genome: &[u16; 12]) -> (r: bool)
    ensures
        r == genome_ok(genome@),
{
    let mut i: usize = 0;
    while i < 12
        invariant
            0 <= i <= 12,
            forall|k: int| 0 <= k < i ==> genome@[k] <= MAX_GENE,
        decreases 12 - i,
    {
        if genome[i] > MAX_GENE {
            return false;
        }
        i += 1;
    }
    true
}

} // verus!
