use vstd::prelude::*;

verus! {

/// A per-epoch record: birth and death counters and performance summaries
/// for one generation. Created by `advance_generation`, mutated by `breed`
/// (births) and `kill_agent` (deaths), never destroyed.
#[derive(Clone, Copy, Debug)]
pub struct Generation {
    /// Generation number; the record for generation `n` is keyed by `n`.
    pub number: u16,
    /// Timestamp at which the generation was opened.
    pub started_at: i64,
    /// Timestamp at which the generation was closed; no operation sets it.
    pub ended_at: Option<i64>,
    /// Best pnl recorded within this generation.
    pub best_pnl: i64,
    /// Agent holding `best_pnl` within this generation.
    pub best_agent: u64,
    /// Average pnl within this generation.
    pub avg_pnl: i64,
    /// Count of agents bred into this generation while it was current.
    pub agents_born: u16,
    /// Count of agents killed while this generation was current.
    pub agents_died: u16,
}

/// The generation record as `advance_generation` creates it.
pub open spec fn new_generation_record(number: u16, started_at: i64) -> Generation {
    Generation {
        number,
        started_at,
        ended_at: None,
        best_pnl: 0i64,
        best_agent: 0u64,
        avg_pnl: 0i64,
        agents_born: 0u16,
        agents_died: 0u16,
    }
}

} // verus!
