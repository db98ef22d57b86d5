//! The record store and the six operations over it.
//!
//! Records are addressed deterministically — the singleton protocol record,
//! agent records keyed by sequential id, generation records keyed by
//! generation number — so the store holds the agents and generations as
//! vectors indexed by their keys. A ghost journal of every recorded
//! performance observation ties the stored champion to the history of calls.

use vstd::prelude::*;

use crate::errors::DarwinError;
use crate::instructions::advance_generation;
use crate::instructions::advance_generation::GenerationAdvanced;
use crate::instructions::advance_generation::advance_allowed;
use crate::instructions::breed;
use crate::instructions::breed::AgentBred;
use crate::instructions::breed::breed_allowed;
use crate::instructions::initialize_protocol;
use crate::instructions::initialize_protocol::ProtocolInitialized;
use crate::instructions::kill_agent;
use crate::instructions::kill_agent::AgentDied;
use crate::instructions::kill_agent::kill_allowed;
use crate::instructions::record_performance;
use crate::instructions::record_performance::PerformanceRecorded;
use crate::instructions::record_performance::pnl_overflows;
use crate::instructions::record_performance::record_allowed;
use crate::instructions::record_performance::updated_win_rate;
use crate::instructions::spawn_agent;
use crate::instructions::spawn_agent::AgentSpawned;
use crate::instructions::spawn_agent::spawn_allowed;
use crate::state::agent::AgentGenome;
use crate::state::agent::genome_ok;
use crate::state::agent::new_agent_record;
use crate::state::generation::Generation;
use crate::state::generation::new_generation_record;
use crate::state::protocol::ProtocolState;
use crate::state::protocol::initial_protocol_state;
use crate::state::pubkey::Pubkey;
use crate::state::pubkey::same_key;

verus! {

/// The champion that a sequence of performance observations produces: each
/// observation is an agent id with the cumulative pnl it reached, the
/// incumbent starts at agent 0 with pnl 0, and an observation replaces the
/// incumbent exactly when its pnl strictly exceeds the incumbent's.
pub open spec fn champion_of(observations: Seq<(u64, i64)>) -> (u64, i64)
    decreases observations.len(),
{
    if observations.len() == 0 {
        (0u64, 0i64)
    } else {
        let prev = champion_of(observations.drop_last());
        let last = observations.last();
        if last.1 > prev.1 {
            last
        } else {
            prev
        }
    }
}

/// The whole record store. Agent ids are sequential, so the agent record
/// with id `n` sits at index `n`; generation records exist for generations
/// `1..=current_generation`, so the record for generation `n` sits at index
/// `n - 1`.
pub struct DarwinProtocol {
    /// The singleton protocol record; absent until `initialize_protocol`.
    pub protocol: Option<ProtocolState>,
    /// Every agent record ever created, indexed by id.
    pub agents: Vec<AgentGenome>,
    /// Every generation record ever created, indexed by number minus one.
    pub generations: Vec<Generation>,
    /// Journal of every successful performance recording: the agent id and
    /// the cumulative pnl it reached in that call.
    pub observed: Ghost<Seq<(u64, i64)>>,
}

impl DarwinProtocol {
    /// The protocol record, where one exists.
    pub open spec fn protocol_record(self) -> ProtocolState
        recommends
            self.protocol is Some,
    {
        self.protocol->Some_0
    }

    /// Store-wide well-formedness: counters agree with the number of
    /// records, ids and generation numbers are sequential, every agent
    /// record is well formed, and the stored champion is exactly the
    /// champion of the journal.
    pub open spec fn wf(self) -> bool {
        match self.protocol {
            Some(p) => {
                &&& self.agents.len() == p.total_agents_ever
                &&& self.generations.len() == p.current_generation
                &&& p.total_generations == p.current_generation
                &&& (forall|i: int|
                    0 <= i < self.agents.len() ==> (#[trigger] self.agents[i]).id == i)
                &&& (forall|i: int| 0 <= i < self.agents.len() ==> (#[trigger] self.agents[i]).wf())
                &&& (forall|i: int|
                    0 <= i < self.generations.len() ==> (#[trigger] self.generations[i]).number == i
                        + 1)
                &&& (p.best_agent_ever, p.best_pnl_ever) == champion_of(self.observed@)
                &&& (forall|i: int|
                    0 <= i < self.observed@.len() ==> (#[trigger] self.observed@[i]).0
                        < self.agents.len())
            },
            None => {
                &&& self.agents.len() == 0
                &&& self.generations.len() == 0
                &&& self.observed@.len() == 0
            },
        }
    }

    /// An empty store: no protocol record, no agents, no generations.
    pub fn new() -> (d: DarwinProtocol)
        ensures
            d.wf(),
            d.protocol is None,
            d.agents@.len() == 0,
            d.generations@.len() == 0,
    {
        DarwinProtocol {
            protocol: None,
            agents: Vec::new(),
            generations: Vec::new(),
            observed: Ghost(Seq::empty()),
        }
    }
}

/// Creates the singleton protocol record with the caller as authority and
/// every counter at zero. The store holds at most one record per key, so
/// this requires that none exists yet.
pub fn initialize_protocol(d: &mut DarwinProtocol, caller: Pubkey) -> (r: Result<
    ProtocolInitialized,
    DarwinError,
>)
    requires
        old(d).wf(),
        old(d).protocol is None,
    ensures
        final(d).wf(),
        final(d).protocol == Some(initial_protocol_state(caller)),
        final(d).agents@ == old(d).agents@,
        final(d).generations@ == old(d).generations@,
        r matches Ok(event) && event.authority == caller,
{
    let (state, event) = initialize_protocol::handler(caller);
    d.protocol = Some(state);
    Ok(event)
}

/// Spawns a new agent with the given genome under the next sequential id.
/// Exactly on success one agent record is appended and the global agent
/// counter grows by one; on any failure the store is unchanged.
pub fn spawn_agent(d: &mut DarwinProtocol, caller: &Pubkey, genome: [u16; 12], now: i64) -> (r:
    Result<AgentSpawned, DarwinError>)
    requires
        old(d).wf(),
        old(d).protocol is Some,
    ensures
        final(d).wf(),
        r is Ok <==> spawn_allowed(old(d).protocol_record(), *caller, genome),
        r == Err::<AgentSpawned, DarwinError>(DarwinError::Unauthorized) <==> !same_key(
            *caller,
            old(d).protocol_record().authority,
        ),
        r == Err::<AgentSpawned, DarwinError>(DarwinError::GeneOutOfRange) <==> (same_key(
            *caller,
            old(d).protocol_record().authority,
        ) && !genome_ok(genome@)),
        r == Err::<AgentSpawned, DarwinError>(DarwinError::Overflow) <==> (same_key(
            *caller,
            old(d).protocol_record().authority,
        ) && genome_ok(genome@) && old(d).protocol_record().total_agents_ever
            == u64::MAX),
        r is Err ==> final(d).protocol == old(d).protocol && final(d).agents@ == old(d).agents@
            && final(d).generations@ == old(d).generations@ && final(d).observed == old(d).observed,
        r matches Ok(event) ==> ({
            let p = old(d).protocol_record();
            let agent = new_agent_record(
                p.total_agents_ever,
                p.current_generation,
                None,
                None,
                genome,
                now,
                *caller,
            );
            &&& final(d).agents@ == old(d).agents@.push(agent)
            &&& final(d).generations@ == old(d).generations@
            &&& final(d).protocol == Some(
                ProtocolState { total_agents_ever: (p.total_agents_ever + 1) as u64, ..p },
            )
            &&& final(d).observed == old(d).observed
            &&& event == (AgentSpawned {
                id: agent.id,
                generation: agent.generation,
                genome,
                owner: *caller,
            })
        }),
{
    let mut state = match d.protocol {
        Some(s) => s,
        None => vstd::pervasive::unreached(),
    };
    match spawn_agent::handler(&mut state, caller, genome, now) {
        Ok((agent, event)) => {
            d.protocol = Some(state);
            d.agents.push(agent);
            Ok(event)
        },
        Err(e) => Err(e),
    }
}

/// Accumulates one round of trading into the agent with the given id and
/// lets it challenge the all-time champion. Exactly on success the journal
/// grows by one observation; on any failure the store is unchanged.
pub fn record_performance(
    d: &mut DarwinProtocol,
    caller: &Pubkey,
    agent_id: u64,
    pnl_bps: i64,
    trades: u32,
    wins: u32,
) -> (r: Result<PerformanceRecorded, DarwinError>)
    requires
        old(d).wf(),
        old(d).protocol is Some,
        agent_id < old(d).agents.len(),
        wins <= trades,
    ensures
        final(d).wf(),
        r is Ok <==> record_allowed(
            old(d).protocol_record(),
            old(d).agents[agent_id as int],
            *caller,
            pnl_bps,
            trades,
        ),
        r == Err::<PerformanceRecorded, DarwinError>(DarwinError::Unauthorized) <==> !same_key(
            *caller,
            old(d).protocol_record().authority,
        ),
        r == Err::<PerformanceRecorded, DarwinError>(DarwinError::AgentNotAlive) <==> (same_key(
            *caller,
            old(d).protocol_record().authority,
        ) && !old(d).agents[agent_id as int].is_alive),
        r == Err::<PerformanceRecorded, DarwinError>(DarwinError::Overflow) <==> (same_key(
            *caller,
            old(d).protocol_record().authority,
        ) && old(d).agents[agent_id as int].is_alive && (pnl_overflows(
            old(d).agents[agent_id as int].total_pnl,
            pnl_bps,
        ) || old(d).agents[agent_id as int].total_trades + trades > u32::MAX)),
        r is Err ==> final(d).protocol == old(d).protocol && final(d).agents@ == old(d).agents@
            && final(d).generations@ == old(d).generations@ && final(d).observed == old(d).observed,
        r matches Ok(event) ==> ({
            let p = old(d).protocol_record();
            let a = old(d).agents[agent_id as int];
            let new_pnl = (a.total_pnl + pnl_bps) as i64;
            let new_agent = AgentGenome {
                total_pnl: new_pnl,
                total_trades: (a.total_trades + trades) as u32,
                win_rate: updated_win_rate(a.win_rate, a.total_trades, trades, wins) as u16,
                ..a
            };
            &&& final(d).agents@ == old(d).agents@.update(agent_id as int, new_agent)
            &&& final(d).generations@ == old(d).generations@
            &&& final(d).protocol == Some(
                if new_pnl > p.best_pnl_ever {
                    ProtocolState { best_pnl_ever: new_pnl, best_agent_ever: a.id, ..p }
                } else {
                    p
                },
            )
            &&& final(d).observed@ == old(d).observed@.push((a.id, new_pnl))
            &&& event == (PerformanceRecorded {
                agent_id: a.id,
                pnl_bps,
                trades,
                wins,
                cumulative_pnl: new_pnl,
            })
        }),
{
    let mut state = match d.protocol {
        Some(s) => s,
        None => vstd::pervasive::unreached(),
    };
    let ghost obs = d.observed@;
    let idx = agent_id as usize;
    let agent = &mut d.agents[idx];
    match record_performance::handler(&mut state, agent, caller, pnl_bps, trades, wins) {
        Ok(event) => {
            let cumulative = event.cumulative_pnl;
            d.protocol = Some(state);
            d.observed = Ghost(obs.push((agent_id, cumulative)));
            proof {
                assert(obs.push((agent_id, cumulative)).drop_last() =~= obs);
            }
            Ok(event)
        },
        Err(e) => {
            proof {
                assert(final(d).agents@ =~= old(d).agents@);
            }
            Err(e)
        },
    }
}

/// Breeds the two living parents into a child agent carrying the supplied
/// genome at the next sequential id, and counts the birth against the
/// current generation. Exactly on success one agent record is appended; on
/// any failure the store is unchanged.
pub fn breed(
    d: &mut DarwinProtocol,
    caller: &Pubkey,
    parent_a_id: u64,
    parent_b_id: u64,
    child_genome: [u16; 12],
    now: i64,
) -> (r: Result<AgentBred, DarwinError>)
    requires
        old(d).wf(),
        old(d).protocol is Some,
        parent_a_id < old(d).agents.len(),
        parent_b_id < old(d).agents.len(),
        old(d).generations.len() >= 1,
    ensures
        final(d).wf(),
        r is Ok <==> breed_allowed(
            old(d).protocol_record(),
            old(d).agents[parent_a_id as int],
            old(d).agents[parent_b_id as int],
            old(d).generations[old(d).generations.len() - 1],
            *caller,
            child_genome,
        ),
        r == Err::<AgentBred, DarwinError>(DarwinError::Unauthorized) <==> !same_key(
            *caller,
            old(d).protocol_record().authority,
        ),
        r == Err::<AgentBred, DarwinError>(DarwinError::AgentNotAlive) <==> (same_key(
            *caller,
            old(d).protocol_record().authority,
        ) && (!old(d).agents[parent_a_id as int].is_alive || !old(
            d,
        ).agents[parent_b_id as int].is_alive)),
        r == Err::<AgentBred, DarwinError>(DarwinError::GeneOutOfRange) <==> (same_key(
            *caller,
            old(d).protocol_record().authority,
        ) && old(d).agents[parent_a_id as int].is_alive && old(
            d,
        ).agents[parent_b_id as int].is_alive && !genome_ok(child_genome@)),
        r == Err::<AgentBred, DarwinError>(DarwinError::Overflow) <==> (same_key(
            *caller,
            old(d).protocol_record().authority,
        ) && old(d).agents[parent_a_id as int].is_alive && old(
            d,
        ).agents[parent_b_id as int].is_alive && genome_ok(child_genome@) && (old(
            d,
        ).protocol_record().total_agents_ever == u64::MAX || old(
            d,
        ).generations[old(d).generations.len() - 1].agents_born == u16::MAX)),
        r is Err ==> final(d).protocol == old(d).protocol && final(d).agents@ == old(d).agents@
            && final(d).generations@ == old(d).generations@ && final(d).observed == old(d).observed,
        r matches Ok(event) ==> ({
            let p = old(d).protocol_record();
            let gi = old(d).generations.len() - 1;
            let child = new_agent_record(
                p.total_agents_ever,
                p.current_generation,
                Some(old(d).agents[parent_a_id as int].id),
                Some(old(d).agents[parent_b_id as int].id),
                child_genome,
                now,
                *caller,
            );
            &&& final(d).agents@ == old(d).agents@.push(child)
            &&& final(d).generations@ == old(d).generations@.update(
                gi,
                Generation {
                    agents_born: (old(d).generations[gi].agents_born + 1) as u16,
                    ..old(d).generations[gi]
                },
            )
            &&& final(d).protocol == Some(
                ProtocolState { total_agents_ever: (p.total_agents_ever + 1) as u64, ..p },
            )
            &&& final(d).observed == old(d).observed
            &&& event == (AgentBred {
                child_id: child.id,
                parent_a: old(d).agents[parent_a_id as int].id,
                parent_b: old(d).agents[parent_b_id as int].id,
                generation: child.generation,
                genome: child_genome,
            })
        }),
{
    let mut state = match d.protocol {
        Some(s) => s,
        None => vstd::pervasive::unreached(),
    };
    let pa = d.agents[parent_a_id as usize];
    let pb = d.agents[parent_b_id as usize];
    let gi = d.generations.len() - 1;
    let mut generation = d.generations[gi];
    match breed::handler(&mut state, &pa, &pb, &mut generation, caller, child_genome, now) {
        Ok((child, event)) => {
            d.protocol = Some(state);
            d.generations[gi] = generation;
            d.agents.push(child);
            Ok(event)
        },
        Err(e) => Err(e),
    }
}

/// Kills the agent with the given id, leaving its record as a tombstone,
/// and counts the death against the current generation. On any failure the
/// store is unchanged.
pub fn kill_agent(d: &mut DarwinProtocol, caller: &Pubkey, agent_id: u64, now: i64) -> (r: Result<
    AgentDied,
    DarwinError,
>)
    requires
        old(d).wf(),
        old(d).protocol is Some,
        agent_id < old(d).agents.len(),
        old(d).generations.len() >= 1,
    ensures
        final(d).wf(),
        r is Ok <==> kill_allowed(
            old(d).protocol_record(),
            old(d).agents[agent_id as int],
            old(d).generations[old(d).generations.len() - 1],
            *caller,
        ),
        r == Err::<AgentDied, DarwinError>(DarwinError::Unauthorized) <==> !same_key(
            *caller,
            old(d).protocol_record().authority,
        ),
        r == Err::<AgentDied, DarwinError>(DarwinError::AlreadyDead) <==> (same_key(
            *caller,
            old(d).protocol_record().authority,
        ) && !old(d).agents[agent_id as int].is_alive),
        r == Err::<AgentDied, DarwinError>(DarwinError::Overflow) <==> (same_key(
            *caller,
            old(d).protocol_record().authority,
        ) && old(d).agents[agent_id as int].is_alive && old(
            d,
        ).generations[old(d).generations.len() - 1].agents_died == u16::MAX),
        r is Err ==> final(d).protocol == old(d).protocol && final(d).agents@ == old(d).agents@
            && final(d).generations@ == old(d).generations@ && final(d).observed == old(d).observed,
        r matches Ok(event) ==> ({
            let a = old(d).agents[agent_id as int];
            let gi = old(d).generations.len() - 1;
            &&& final(d).agents@ == old(d).agents@.update(
                agent_id as int,
                AgentGenome { is_alive: false, died_at: Some(now), ..a },
            )
            &&& final(d).generations@ == old(d).generations@.update(
                gi,
                Generation {
                    agents_died: (old(d).generations[gi].agents_died + 1) as u16,
                    ..old(d).generations[gi]
                },
            )
            &&& final(d).protocol == old(d).protocol
            &&& final(d).observed == old(d).observed
            &&& event == (AgentDied {
                id: a.id,
                generation: a.generation,
                pnl: a.total_pnl,
                trades: a.total_trades,
            })
        }),
{
    let state = match d.protocol {
        Some(s) => s,
        None => vstd::pervasive::unreached(),
    };
    let gi = d.generations.len() - 1;
    let mut generation = d.generations[gi];
    let idx = agent_id as usize;
    let agent = &mut d.agents[idx];
    match kill_agent::handler(&state, agent, &mut generation, caller, now) {
        Ok(event) => {
            d.generations[gi] = generation;
            Ok(event)
        },
        Err(e) => {
            proof {
                assert(final(d).agents@ =~= old(d).agents@);
            }
            Err(e)
        },
    }
}

/// Opens the next generation: appends a zeroed generation record numbered
/// one past the current generation and advances both generation counters.
/// On any failure the store is unchanged.
pub fn advance_generation(d: &mut DarwinProtocol, caller: &Pubkey, now: i64) -> (r: Result<
    GenerationAdvanced,
    DarwinError,
>)
    requires
        old(d).wf(),
        old(d).protocol is Some,
    ensures
        final(d).wf(),
        r is Ok <==> advance_allowed(old(d).protocol_record(), *caller),
        r == Err::<GenerationAdvanced, DarwinError>(DarwinError::Unauthorized) <==> !same_key(
            *caller,
            old(d).protocol_record().authority,
        ),
        r == Err::<GenerationAdvanced, DarwinError>(DarwinError::Overflow) <==> (same_key(
            *caller,
            old(d).protocol_record().authority,
        ) && (old(d).protocol_record().current_generation == u16::MAX || old(
            d,
        ).protocol_record().total_generations == u16::MAX)),
        r is Err ==> final(d).protocol == old(d).protocol && final(d).agents@ == old(d).agents@
            && final(d).generations@ == old(d).generations@ && final(d).observed == old(d).observed,
        r matches Ok(event) ==> ({
            let p = old(d).protocol_record();
            &&& final(d).generations@ == old(d).generations@.push(
                new_generation_record((p.current_generation + 1) as u16, now),
            )
            &&& final(d).agents@ == old(d).agents@
            &&& final(d).protocol == Some(
                ProtocolState {
                    current_generation: (p.current_generation + 1) as u16,
                    total_generations: (p.total_generations + 1) as u16,
                    ..p
                },
            )
            &&& final(d).observed == old(d).observed
            &&& event == (GenerationAdvanced {
                generation: (p.current_generation + 1) as u16,
                timestamp: now,
            })
        }),
{
    let mut state = match d.protocol {
        Some(s) => s,
        None => vstd::pervasive::unreached(),
    };
    match advance_generation::handler(&mut state, caller, now) {
        Ok((generation, event)) => {
            d.protocol = Some(state);
            d.generations.push(generation);
            Ok(event)
        },
        Err(e) => Err(e),
    }
}

} // verus!
