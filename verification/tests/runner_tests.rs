use tennis_sim::batch::{combine_totals, plan_run, should_flush, simulate_batch, ConfigError};
use tennis_sim::player::Player;
use tennis_sim::runner::{PointSource, SimError};
use tennis_sim::scoring::TennisMatch;

fn player(name: &str, serve: u32, ace: u32, df: u32) -> Player {
    Player {
        name: name.to_string(),
        serve_win_prob: serve,
        ace_prob: ace,
        double_fault_prob: df,
    }
}

#[test]
fn certain_server_wins_the_game_to_love() {
    // A server who never double-faults and always wins a served rally
    // takes the game four points to none, whatever the draws.
    let mut m = TennisMatch::new(player("A", 1000, 0, 0), player("B", 620, 80, 40), 3, false);
    let (winner_is_p1, set_over) = m.play_game(&PointSource::Random).unwrap();
    assert!(winner_is_p1);
    assert!(!set_over);
    assert_eq!(m.points_p1, 4);
    assert_eq!(m.points_p2, 0);
    assert_eq!(m.games_p1, 1);
    assert_eq!(m.games_p2, 0);
    assert_eq!(m.total_shots, 4);
    assert_eq!(m.point_log.len(), 4);
    // The serve passed to the other player after the game.
    assert!(!m.server_is_p1);
}

#[test]
fn certain_server_point_goes_to_the_server() {
    let mut m = TennisMatch::new(player("A", 1000, 0, 0), player("B", 620, 80, 40), 3, false);
    assert!(m.play_point(&PointSource::Random));
    m.server_is_p1 = false;
    let mut m2 = TennisMatch::new(player("B", 620, 80, 40), player("A", 1000, 0, 0), 3, false);
    m2.server_is_p1 = false;
    assert!(!m2.play_point(&PointSource::Random));
}

#[test]
fn tiebreak_game_plays_to_seven() {
    let mut m = TennisMatch::new(player("A", 650, 100, 50), player("B", 620, 80, 40), 3, false);
    m.games_p1 = 6;
    m.games_p2 = 6;
    m.is_tiebreak = true;
    m.tiebreak_server_is_p1 = Some(true);
    let (winner_is_p1, set_over) = m.play_game(&PointSource::FixedWinner { p1_wins: true }).unwrap();
    assert!(winner_is_p1);
    assert!(set_over);
    assert_eq!(m.points_p1, 7);
    assert_eq!(m.points_p2, 0);
    assert_eq!(m.games_p1, 7);
    assert_eq!(m.games_p2, 6);
    assert_eq!(m.sets_p1, 1);
    assert!(!m.is_tiebreak);
    assert_eq!(m.tiebreak_points, 7);
    // The serve rotated after points one, three, five and seven: an even
    // number of handovers, so it is back where the tiebreak began.
    assert!(m.server_is_p1);
    // The first point was logged after the first rotation, from the new
    // server's side.
    assert_eq!(m.point_log[0].point_score, "0-1");
}

#[test]
fn grand_slam_final_set_tiebreak_runs_to_ten() {
    let mut m = TennisMatch::new(player("A", 650, 100, 50), player("B", 620, 80, 40), 3, true);
    m.sets_p1 = 1;
    m.sets_p2 = 1;
    m.games_p1 = 6;
    m.games_p2 = 6;
    m.is_tiebreak = true;
    m.tiebreak_server_is_p1 = Some(true);
    let (winner_is_p1, set_over) = m.play_game(&PointSource::FixedWinner { p1_wins: true }).unwrap();
    assert!(winner_is_p1);
    assert!(set_over);
    assert_eq!(m.points_p1, 10);
    assert_eq!(m.points_p2, 0);
    assert_eq!(m.sets_p1, 2);
}

#[test]
fn stub_match_ends_in_the_minimum_number_of_points() {
    let mut m = TennisMatch::new(player("A", 650, 100, 50), player("B", 620, 80, 40), 3, false);
    let winner_is_p1 = m.play_match(&PointSource::FixedWinner { p1_wins: true }).unwrap();
    assert!(winner_is_p1);
    assert_eq!(m.sets_p1, 2);
    assert_eq!(m.sets_p2, 0);
    // two sets, six games each, four points each
    assert_eq!(m.total_shots, 48);
    assert_eq!(m.point_log.len(), 48);
    assert_eq!(m.set_history.len(), 2);
    for s in &m.set_history {
        assert_eq!(s.aces_p1, 0);
        assert_eq!(s.aces_p2, 0);
        assert_eq!(s.double_faults_p1, 0);
        assert_eq!(s.double_faults_p2, 0);
    }
}

#[test]
fn stub_match_can_go_to_the_other_player() {
    let mut m = TennisMatch::new(player("A", 650, 100, 50), player("B", 620, 80, 40), 5, true);
    let winner_is_p1 = m.play_match(&PointSource::FixedWinner { p1_wins: false }).unwrap();
    assert!(!winner_is_p1);
    assert_eq!(m.sets_p2, 3);
    assert_eq!(m.sets_p1, 0);
    assert_eq!(m.total_shots, 72);
}

#[test]
fn exhausted_counters_abandon_the_match() {
    let mut m = TennisMatch::new(player("A", 650, 100, 50), player("B", 620, 80, 40), 3, false);
    m.total_shots = u64::MAX;
    let r = m.play_game(&PointSource::FixedWinner { p1_wins: true });
    assert_eq!(r.unwrap_err(), SimError::ScoreLimitExceeded);
}

#[test]
fn random_match_is_consistent_with_its_log() {
    let mut m = TennisMatch::new(player("A", 650, 100, 50), player("B", 620, 80, 40), 3, false);
    let winner_is_p1 = m.play_match(&PointSource::Random).unwrap();
    let target = 3 / 2 + 1;
    if winner_is_p1 {
        assert_eq!(m.sets_p1, target);
        assert!(m.sets_p2 < target);
    } else {
        assert_eq!(m.sets_p2, target);
        assert!(m.sets_p1 < target);
    }
    assert_eq!(m.point_log.len() as u64, m.total_shots);
    assert_eq!(m.set_history.len() as u32, m.sets_p1 + m.sets_p2);
}

#[test]
fn two_stub_batches_reduce_like_one() {
    let a = player("A", 650, 100, 50);
    let b = player("B", 620, 80, 40);
    let stub = PointSource::FixedWinner { p1_wins: true };
    let (t1, r1) = simulate_batch(&a, &b, 3, false, 5, &stub).unwrap();
    let (t2, r2) = simulate_batch(&a, &b, 3, false, 5, &stub).unwrap();
    let (t10, r10) = simulate_batch(&a, &b, 3, false, 10, &stub).unwrap();
    let combined = combine_totals(&t1, &t2).unwrap();
    assert_eq!(combined, t10);
    assert_eq!(r1.len() + r2.len(), r10.len());
    assert_eq!(t10.wins_p1, 10);
    assert_eq!(t10.wins_p2, 0);
    assert_eq!(t10.total_shots, 480);
    assert_eq!(t10.aces_p1, 0);
    assert_eq!(t10.double_faults_p2, 0);
}

#[test]
fn random_batch_accounts_for_every_match_and_point() {
    let a = player("A", 650, 100, 50);
    let b = player("B", 620, 80, 40);
    let (t, records) = simulate_batch(&a, &b, 3, false, 4, &PointSource::Random).unwrap();
    assert_eq!(t.wins_p1 + t.wins_p2, 4);
    assert_eq!(records.len() as u64, t.total_shots);
}

#[test]
fn combining_totals_checks_for_overflow() {
    let a = player("A", 650, 100, 50);
    let b = player("B", 620, 80, 40);
    let (t, _) = simulate_batch(&a, &b, 3, false, 1, &PointSource::FixedWinner {
        p1_wins: true,
    }).unwrap();
    let mut big = t;
    big.total_shots = u64::MAX;
    assert_eq!(combine_totals(&big, &t).unwrap_err(), SimError::TotalsOverflow);
}

#[test]
fn run_plans_are_validated_in_order() {
    assert_eq!(plan_run(0, 10, 100, 5).unwrap_err(), ConfigError::NonPositiveSimulations);
    assert_eq!(plan_run(100, 0, 100, 5).unwrap_err(), ConfigError::NonPositiveBatchSize);
    assert_eq!(plan_run(100, 30, 100, 5).unwrap_err(), ConfigError::IndivisibleBatchSize);
    assert_eq!(plan_run(100, 10, 0, 5).unwrap_err(), ConfigError::NonPositiveLogInterval);
    assert_eq!(plan_run(100, 10, 100, 4).unwrap_err(), ConfigError::EvenBestOf);
    assert_eq!(plan_run(100, 10, 100, 5).unwrap(), 10);
    assert_eq!(plan_run(10000, 10, 10000, 5).unwrap(), 1000);
}

#[test]
fn flushing_happens_on_interval_boundaries() {
    assert!(should_flush(0, 10, 10));
    assert!(!should_flush(0, 10, 20));
    assert!(should_flush(1, 10, 20));
    assert!(!should_flush(2, 10, 10000));
    assert!(should_flush(999, 10, 10000));
}
