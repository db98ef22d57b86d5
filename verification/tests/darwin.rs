use darwin_protocol::DarwinError;
use darwin_protocol::DarwinProtocol;
use darwin_protocol::darwin;
use darwin_protocol::state::pubkey::Pubkey;

fn authority() -> Pubkey {
    Pubkey::new([7u8; 32])
}

fn stranger() -> Pubkey {
    Pubkey::new([9u8; 32])
}

fn initialized() -> (DarwinProtocol, Pubkey) {
    let key = authority();
    let mut d = DarwinProtocol::new();
    darwin::initialize_protocol(&mut d, key).unwrap();
    (d, key)
}

#[test]
fn initialize_sets_zeroed_singleton() {
    let (d, key) = initialized();
    let p = d.protocol.unwrap();
    assert_eq!(p.authority.bytes, key.bytes);
    assert_eq!(p.current_generation, 0);
    assert_eq!(p.total_agents_ever, 0);
    assert_eq!(p.total_generations, 0);
    assert_eq!(p.best_agent_ever, 0);
    assert_eq!(p.best_pnl_ever, 0);
    assert!(d.agents.is_empty());
    assert!(d.generations.is_empty());
}

#[test]
fn spawn_creates_fresh_agent() {
    let (mut d, key) = initialized();
    let ev = darwin::spawn_agent(&mut d, &key, [500u16; 12], 42).unwrap();
    assert_eq!(ev.id, 0);
    assert_eq!(ev.generation, 0);
    let a = &d.agents[0];
    assert_eq!(a.id, 0);
    assert_eq!(a.generation, 0);
    assert_eq!(a.parent_a, None);
    assert_eq!(a.parent_b, None);
    assert_eq!(a.genome, [500u16; 12]);
    assert_eq!(a.born_at, 42);
    assert_eq!(a.died_at, None);
    assert_eq!(a.total_pnl, 0);
    assert_eq!(a.total_trades, 0);
    assert_eq!(a.win_rate, 0);
    assert!(a.is_alive);
    assert_eq!(a.owner.bytes, key.bytes);
    assert_eq!(d.protocol.unwrap().total_agents_ever, 1);
}

#[test]
fn spawn_rejects_out_of_range_gene() {
    let (mut d, key) = initialized();
    let mut genome = [500u16; 12];
    genome[11] = 1001;
    let r = darwin::spawn_agent(&mut d, &key, genome, 42);
    assert_eq!(r.unwrap_err(), DarwinError::GeneOutOfRange);
    assert!(d.agents.is_empty());
    assert_eq!(d.protocol.unwrap().total_agents_ever, 0);
}

#[test]
fn spawn_accepts_boundary_gene() {
    let (mut d, key) = initialized();
    let genome = [1000u16; 12];
    assert!(darwin::spawn_agent(&mut d, &key, genome, 42).is_ok());
    assert_eq!(d.agents[0].genome, genome);
}

#[test]
fn spawn_rejects_stranger() {
    let (mut d, _key) = initialized();
    let r = darwin::spawn_agent(&mut d, &stranger(), [500u16; 12], 42);
    assert_eq!(r.unwrap_err(), DarwinError::Unauthorized);
    assert!(d.agents.is_empty());
}

#[test]
fn agent_ids_are_sequential() {
    let (mut d, key) = initialized();
    for n in 0..5u64 {
        let ev = darwin::spawn_agent(&mut d, &key, [500u16; 12], 42).unwrap();
        assert_eq!(ev.id, n);
        assert_eq!(d.agents[n as usize].id, n);
    }
    assert_eq!(d.protocol.unwrap().total_agents_ever, 5);
}

#[test]
fn performance_rounds_accumulate() {
    let (mut d, key) = initialized();
    darwin::spawn_agent(&mut d, &key, [500u16; 12], 42).unwrap();

    let ev = darwin::record_performance(&mut d, &key, 0, 100, 10, 6).unwrap();
    assert_eq!(ev.cumulative_pnl, 100);
    assert_eq!(d.agents[0].total_pnl, 100);
    assert_eq!(d.agents[0].total_trades, 10);
    assert_eq!(d.agents[0].win_rate, 6000);

    let ev = darwin::record_performance(&mut d, &key, 0, -50, 5, 1).unwrap();
    assert_eq!(ev.cumulative_pnl, 50);
    assert_eq!(d.agents[0].total_pnl, 50);
    assert_eq!(d.agents[0].total_trades, 15);
    assert_eq!(d.agents[0].win_rate, 4666);
}

#[test]
fn win_rate_stays_within_basis_points() {
    let (mut d, key) = initialized();
    darwin::spawn_agent(&mut d, &key, [500u16; 12], 42).unwrap();
    let rounds = [(10i64, 3u32, 3u32), (-5, 7, 0), (20, 1, 1), (0, 9, 9), (1, 2, 0)];
    for (pnl, trades, wins) in rounds {
        darwin::record_performance(&mut d, &key, 0, pnl, trades, wins).unwrap();
        assert!(d.agents[0].win_rate <= 10000);
    }
}

#[test]
fn win_rate_is_zero_without_trades() {
    let (mut d, key) = initialized();
    darwin::spawn_agent(&mut d, &key, [500u16; 12], 42).unwrap();
    darwin::record_performance(&mut d, &key, 0, 25, 0, 0).unwrap();
    assert_eq!(d.agents[0].total_pnl, 25);
    assert_eq!(d.agents[0].total_trades, 0);
    assert_eq!(d.agents[0].win_rate, 0);
}

#[test]
fn record_on_dead_agent_changes_nothing() {
    let (mut d, key) = initialized();
    darwin::advance_generation(&mut d, &key, 1).unwrap();
    darwin::spawn_agent(&mut d, &key, [500u16; 12], 42).unwrap();
    darwin::record_performance(&mut d, &key, 0, 100, 10, 6).unwrap();
    darwin::kill_agent(&mut d, &key, 0, 43).unwrap();
    assert!(!d.agents[0].is_alive);
    assert_eq!(d.agents[0].died_at, Some(43));

    let r = darwin::record_performance(&mut d, &key, 0, 77, 3, 2);
    assert_eq!(r.unwrap_err(), DarwinError::AgentNotAlive);
    assert_eq!(d.agents[0].total_pnl, 100);
    assert_eq!(d.agents[0].total_trades, 10);
    assert_eq!(d.agents[0].win_rate, 6000);
}

#[test]
fn kill_twice_fails_already_dead() {
    let (mut d, key) = initialized();
    darwin::advance_generation(&mut d, &key, 1).unwrap();
    darwin::spawn_agent(&mut d, &key, [500u16; 12], 42).unwrap();
    darwin::kill_agent(&mut d, &key, 0, 43).unwrap();
    assert_eq!(d.generations[0].agents_died, 1);
    let r = darwin::kill_agent(&mut d, &key, 0, 44);
    assert_eq!(r.unwrap_err(), DarwinError::AlreadyDead);
    assert_eq!(d.generations[0].agents_died, 1);
}

#[test]
fn breed_records_lineage() {
    let (mut d, key) = initialized();
    darwin::advance_generation(&mut d, &key, 1).unwrap();
    darwin::spawn_agent(&mut d, &key, [500u16; 12], 42).unwrap();
    darwin::spawn_agent(&mut d, &key, [600u16; 12], 42).unwrap();
    let ev = darwin::breed(&mut d, &key, 0, 1, [550u16; 12], 43).unwrap();
    assert_eq!(ev.child_id, 2);
    assert_eq!(ev.parent_a, 0);
    assert_eq!(ev.parent_b, 1);
    let child = &d.agents[2];
    assert_eq!(child.id, 2);
    assert_eq!(child.parent_a, Some(0));
    assert_eq!(child.parent_b, Some(1));
    assert_eq!(child.generation, 1);
    assert_eq!(child.genome, [550u16; 12]);
    assert!(child.is_alive);
    assert_eq!(d.generations[0].agents_born, 1);
    assert_eq!(d.protocol.unwrap().total_agents_ever, 3);
}

#[test]
fn breed_with_dead_parent_creates_nothing() {
    let (mut d, key) = initialized();
    darwin::advance_generation(&mut d, &key, 1).unwrap();
    darwin::spawn_agent(&mut d, &key, [500u16; 12], 42).unwrap();
    darwin::spawn_agent(&mut d, &key, [600u16; 12], 42).unwrap();
    darwin::kill_agent(&mut d, &key, 1, 43).unwrap();

    let r = darwin::breed(&mut d, &key, 0, 1, [550u16; 12], 44);
    assert_eq!(r.unwrap_err(), DarwinError::AgentNotAlive);
    assert_eq!(d.agents.len(), 2);
    assert_eq!(d.protocol.unwrap().total_agents_ever, 2);
    assert_eq!(d.generations[0].agents_born, 0);
}

#[test]
fn breed_rejects_out_of_range_gene() {
    let (mut d, key) = initialized();
    darwin::advance_generation(&mut d, &key, 1).unwrap();
    darwin::spawn_agent(&mut d, &key, [500u16; 12], 42).unwrap();
    darwin::spawn_agent(&mut d, &key, [600u16; 12], 42).unwrap();
    let mut genome = [0u16; 12];
    genome[0] = 2000;
    let r = darwin::breed(&mut d, &key, 0, 1, genome, 43);
    assert_eq!(r.unwrap_err(), DarwinError::GeneOutOfRange);
    assert_eq!(d.agents.len(), 2);
}

#[test]
fn advance_generation_counts_up_by_one() {
    let (mut d, key) = initialized();
    let ev = darwin::advance_generation(&mut d, &key, 100).unwrap();
    assert_eq!(ev.generation, 1);
    assert_eq!(ev.timestamp, 100);
    let p = d.protocol.unwrap();
    assert_eq!(p.current_generation, 1);
    assert_eq!(p.total_generations, 1);
    let g = &d.generations[0];
    assert_eq!(g.number, 1);
    assert_eq!(g.started_at, 100);
    assert_eq!(g.ended_at, None);
    assert_eq!(g.best_pnl, 0);
    assert_eq!(g.best_agent, 0);
    assert_eq!(g.avg_pnl, 0);
    assert_eq!(g.agents_born, 0);
    assert_eq!(g.agents_died, 0);

    darwin::advance_generation(&mut d, &key, 200).unwrap();
    let p = d.protocol.unwrap();
    assert_eq!(p.current_generation, 2);
    assert_eq!(p.total_generations, 2);
    assert_eq!(d.generations[1].number, 2);
}

#[test]
fn advance_generation_rejects_stranger() {
    let (mut d, _key) = initialized();
    let r = darwin::advance_generation(&mut d, &stranger(), 100);
    assert_eq!(r.unwrap_err(), DarwinError::Unauthorized);
    assert!(d.generations.is_empty());
}

#[test]
fn champion_tracks_strict_maximum() {
    let (mut d, key) = initialized();
    darwin::spawn_agent(&mut d, &key, [500u16; 12], 42).unwrap();
    darwin::spawn_agent(&mut d, &key, [600u16; 12], 42).unwrap();

    darwin::record_performance(&mut d, &key, 0, 100, 1, 1).unwrap();
    let p = d.protocol.unwrap();
    assert_eq!(p.best_pnl_ever, 100);
    assert_eq!(p.best_agent_ever, 0);

    // An equal pnl never displaces the incumbent.
    darwin::record_performance(&mut d, &key, 1, 100, 1, 1).unwrap();
    let p = d.protocol.unwrap();
    assert_eq!(p.best_pnl_ever, 100);
    assert_eq!(p.best_agent_ever, 0);

    // A strictly larger pnl does.
    darwin::record_performance(&mut d, &key, 1, 50, 1, 1).unwrap();
    let p = d.protocol.unwrap();
    assert_eq!(p.best_pnl_ever, 150);
    assert_eq!(p.best_agent_ever, 1);

    // The champion keeps its record even after the pnl falls back.
    darwin::record_performance(&mut d, &key, 1, -200, 1, 0).unwrap();
    let p = d.protocol.unwrap();
    assert_eq!(p.best_pnl_ever, 150);
    assert_eq!(p.best_agent_ever, 1);
}

#[test]
fn record_performance_rejects_stranger() {
    let (mut d, key) = initialized();
    darwin::spawn_agent(&mut d, &key, [500u16; 12], 42).unwrap();
    let r = darwin::record_performance(&mut d, &stranger(), 0, 10, 1, 1);
    assert_eq!(r.unwrap_err(), DarwinError::Unauthorized);
    assert_eq!(d.agents[0].total_pnl, 0);
}

#[test]
fn kill_rejects_stranger() {
    let (mut d, key) = initialized();
    darwin::advance_generation(&mut d, &key, 1).unwrap();
    darwin::spawn_agent(&mut d, &key, [500u16; 12], 42).unwrap();
    let r = darwin::kill_agent(&mut d, &stranger(), 0, 43);
    assert_eq!(r.unwrap_err(), DarwinError::Unauthorized);
    assert!(d.agents[0].is_alive);
}
