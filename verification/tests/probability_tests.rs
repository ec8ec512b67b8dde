use tennis_sim::player::Player;
use tennis_sim::scoring::TennisMatch;

fn player(name: &str, serve: u32, ace: u32, df: u32) -> Player {
    Player {
        name: name.to_string(),
        serve_win_prob: serve,
        ace_prob: ace,
        double_fault_prob: df,
    }
}

fn fresh_match() -> TennisMatch {
    TennisMatch::new(player("A", 650, 100, 50), player("B", 620, 80, 40), 3, false)
}

#[test]
fn match_win_probability_counts_sets_and_games() {
    let mut m = fresh_match();
    m.sets_p1 = 1;
    m.games_p1 = 2;
    m.games_p2 = 1;
    let p1 = m.player1.clone();
    let p2 = m.player2.clone();
    // 0.5 + 0.1 * 1 + 0.01 * 1
    assert_eq!(m.calculate_match_win_probability(&p1), 610);
    assert_eq!(m.calculate_match_win_probability(&p2), 390);
}

#[test]
fn set_win_probability_counts_games() {
    let mut m = fresh_match();
    m.games_p1 = 3;
    m.games_p2 = 1;
    let p1 = m.player1.clone();
    let p2 = m.player2.clone();
    // 0.5 + 0.05 * 2
    assert_eq!(m.calculate_set_win_probability(&p1), 600);
    assert_eq!(m.calculate_set_win_probability(&p2), 400);
}

#[test]
fn game_win_probability_uses_the_serve_and_the_points() {
    let mut m = fresh_match();
    m.points_p1 = 2;
    m.points_p2 = 0;
    let p1 = m.player1.clone();
    let p2 = m.player2.clone();
    // server: 0.65 + 0.05 * 2; receiver: 0.35 - 0.05 * 2
    assert_eq!(m.calculate_game_win_probability(&p1), 750);
    assert_eq!(m.calculate_game_win_probability(&p2), 250);
}

#[test]
fn next_point_probability_adds_momentum_and_recent_serves() {
    let mut m = fresh_match();
    m.points_p1 = 2;
    m.points_p2 = 0;
    m.last_point_winner = Some(true);
    m.consecutive_points = 2;
    let p1 = m.player1.clone();
    // 0.65 + 0.02 * 2 + min(0.01 * 2, 0.05)
    assert_eq!(m.calculate_next_point_win_probability(&p1), 710);
    m.game_aces_p1 = 1;
    assert_eq!(m.calculate_next_point_win_probability(&p1), 740);
    m.game_dfs_p1 = 1;
    assert_eq!(m.calculate_next_point_win_probability(&p1), 710);
    let p2 = m.player2.clone();
    // 0.35 - 0.02 * 2 - min(0.01 * 2, 0.05)
    assert_eq!(m.calculate_next_point_win_probability(&p2), 290);
}

#[test]
fn ace_probability_tracks_score_momentum_and_last_ace() {
    let mut m = fresh_match();
    m.points_p1 = 2;
    m.points_p2 = 0;
    // 0.10 + 0.01 * 2
    assert_eq!(m.calculate_ace_probability(), 120);
    m.last_point_winner = Some(true);
    m.consecutive_points = 2;
    // + min(0.005 * 2, 0.02)
    assert_eq!(m.calculate_ace_probability(), 130);
    m.last_point_ace = true;
    assert_eq!(m.calculate_ace_probability(), 150);
}

#[test]
fn ace_probability_is_capped_at_three_tenths() {
    let mut m = fresh_match();
    m.points_p1 = 40;
    m.points_p2 = 0;
    m.last_point_ace = true;
    assert_eq!(m.calculate_ace_probability(), 300);
}

#[test]
fn tiebreak_probability_steps_with_the_games_sum() {
    let mut m = fresh_match();
    m.games_p1 = 4;
    m.games_p2 = 5;
    assert_eq!(m.calculate_tiebreak_probability(), 100);
    m.games_p1 = 5;
    assert_eq!(m.calculate_tiebreak_probability(), 200);
    m.games_p1 = 6;
    assert_eq!(m.calculate_tiebreak_probability(), 500);
    m.games_p2 = 6;
    assert_eq!(m.calculate_tiebreak_probability(), 1000);
    m.games_p1 = 9;
    m.games_p2 = 9;
    assert_eq!(m.calculate_tiebreak_probability(), 1000);
}

#[test]
fn probabilities_stay_in_bounds_for_adversarial_scores() {
    let p1 = player("A", 1000, 1000, 1000);
    let p2 = player("B", 0, 0, 0);
    for &sets in &[0u32, 4] {
        for &games in &[0u32, 6] {
            for &points in &[0u32, 40] {
                for &server_first in &[true, false] {
                    let mut m = TennisMatch::new(p1.clone(), p2.clone(), 5, true);
                    m.server_is_p1 = server_first;
                    m.sets_p2 = sets;
                    m.games_p2 = games;
                    m.points_p2 = points;
                    m.last_point_winner = Some(false);
                    m.consecutive_points = 1000;
                    m.last_point_ace = true;
                    let a = m.player1.clone();
                    let b = m.player2.clone();
                    for p in &[&a, &b] {
                        assert!(m.calculate_match_win_probability(p) <= 1000);
                        assert!(m.calculate_set_win_probability(p) <= 1000);
                        assert!(m.calculate_game_win_probability(p) <= 1000);
                        assert!(m.calculate_next_point_win_probability(p) <= 1000);
                    }
                    assert!(m.calculate_ace_probability() <= 300);
                    let t = m.calculate_tiebreak_probability();
                    assert!(t >= 100 && t <= 1000);
                }
            }
        }
    }
}
