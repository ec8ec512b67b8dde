use tennis_sim::format::{milli_string, point_score_string, tennis_call_string, u32_string};
use tennis_sim::player::Player;
use tennis_sim::runner::PointSource;
use tennis_sim::scoring::TennisMatch;

fn player(name: &str, serve: u32, ace: u32, df: u32) -> Player {
    Player {
        name: name.to_string(),
        serve_win_prob: serve,
        ace_prob: ace,
        double_fault_prob: df,
    }
}

fn fresh_match() -> TennisMatch {
    TennisMatch::new(player("A", 650, 100, 50), player("B", 620, 80, 40), 3, false)
}

#[test]
fn new_match_starts_from_zero() {
    let m = fresh_match();
    assert_eq!(m.sets_p1, 0);
    assert_eq!(m.sets_p2, 0);
    assert_eq!(m.games_p1, 0);
    assert_eq!(m.games_p2, 0);
    assert_eq!(m.points_p1, 0);
    assert_eq!(m.points_p2, 0);
    assert_eq!(m.total_shots, 0);
    assert!(m.point_log.is_empty());
    assert!(m.set_history.is_empty());
    assert!(!m.is_tiebreak);
    assert!(m.server_is_p1);
}

#[test]
fn player_validity_checks_ranges() {
    assert!(player("A", 650, 100, 50).valid());
    assert!(!player("A", 1001, 100, 50).valid());
    assert!(!player("A", 650, 2000, 50).valid());
}

#[test]
fn tennis_calls_map_points() {
    assert_eq!(tennis_call_string(0), "0");
    assert_eq!(tennis_call_string(1), "15");
    assert_eq!(tennis_call_string(2), "30");
    assert_eq!(tennis_call_string(3), "40");
    assert_eq!(tennis_call_string(5), "5");
}

#[test]
fn number_formatting_is_decimal() {
    assert_eq!(u32_string(0), "0");
    assert_eq!(u32_string(7), "7");
    assert_eq!(u32_string(12345), "12345");
    assert_eq!(milli_string(0), "0.000");
    assert_eq!(milli_string(500), "0.500");
    assert_eq!(milli_string(1000), "1.000");
    assert_eq!(milli_string(65), "0.065");
}

#[test]
fn point_score_strings_cover_the_calls() {
    assert_eq!(point_score_string(0, 0, false), "0-0");
    assert_eq!(point_score_string(1, 2, false), "15-30");
    assert_eq!(point_score_string(3, 3, false), "Deuce");
    assert_eq!(point_score_string(4, 4, false), "Deuce");
    assert_eq!(point_score_string(4, 3, false), "Ad-In");
    assert_eq!(point_score_string(3, 4, false), "Ad-Out");
    assert_eq!(point_score_string(4, 0, false), "GAME");
    assert_eq!(point_score_string(5, 3, false), "GAME");
    assert_eq!(point_score_string(7, 5, true), "7-5");
}

#[test]
fn score_formatting_follows_the_server() {
    let mut m = fresh_match();
    m.points_p1 = 1;
    m.points_p2 = 2;
    m.games_p1 = 3;
    m.games_p2 = 1;
    m.sets_p1 = 1;
    assert_eq!(m.format_point_score(), "15-30");
    assert_eq!(m.format_game_score(), "3-1");
    assert_eq!(m.format_set_score(), "1-0");
    m.server_is_p1 = false;
    assert_eq!(m.format_point_score(), "30-15");
    assert_eq!(m.format_game_score(), "1-3");
    assert_eq!(m.format_set_score(), "0-1");
    assert_eq!(m.point_to_tennis_score(3), "40");
    m.is_tiebreak = true;
    assert_eq!(m.point_to_tennis_score(3), "3");
}

#[test]
fn deuce_advantage_game_sequence() {
    // From deuce, the server takes two points: Ad-In, then GAME.
    let mut m = fresh_match();
    m.points_p1 = 3;
    m.points_p2 = 3;
    let src = PointSource::FixedWinner { p1_wins: true };
    m.play_point(&src);
    let (game_over, set_over) = m.log_point();
    assert!(!game_over);
    assert!(!set_over);
    assert_eq!(m.point_log.last().unwrap().point_score, "Ad-In");
    m.play_point(&src);
    let (game_over, set_over) = m.log_point();
    assert!(game_over);
    assert!(!set_over);
    assert_eq!(m.point_log.last().unwrap().point_score, "GAME");
    assert_eq!(m.games_p1, 1);
    assert_eq!(m.games_p2, 0);
}

#[test]
fn advantage_out_restores_deuce() {
    // The receiver reaches Ad-Out; the server levels back to deuce.
    let mut m = fresh_match();
    m.points_p1 = 3;
    m.points_p2 = 3;
    m.play_point(&PointSource::FixedWinner { p1_wins: false });
    let (game_over, _) = m.log_point();
    assert!(!game_over);
    assert_eq!(m.point_log.last().unwrap().point_score, "Ad-Out");
    m.play_point(&PointSource::FixedWinner { p1_wins: true });
    let (game_over, _) = m.log_point();
    assert!(!game_over);
    assert_eq!(m.point_log.last().unwrap().point_score, "Deuce");
}

#[test]
fn tiebreak_starts_at_six_games_all() {
    let mut m = fresh_match();
    m.games_p1 = 6;
    m.games_p2 = 5;
    m.points_p1 = 0;
    m.points_p2 = 3;
    m.play_point(&PointSource::FixedWinner { p1_wins: false });
    let (game_over, set_over) = m.log_point();
    assert!(game_over);
    assert!(!set_over);
    assert_eq!(m.games_p1, 6);
    assert_eq!(m.games_p2, 6);
    assert!(m.is_tiebreak);
    assert_eq!(m.points_p1, 0);
    assert_eq!(m.points_p2, 0);
    assert_eq!(m.tiebreak_points, 0);
    // The serve is not handed over when the tiebreak begins, and the
    // tiebreak records its opening server.
    assert!(m.server_is_p1);
    assert_eq!(m.tiebreak_server_is_p1, Some(true));
}

#[test]
fn game_into_tiebreak_keeps_the_server() {
    let mut m = fresh_match();
    m.games_p1 = 6;
    m.games_p2 = 5;
    let (winner_is_p1, set_over) = m
        .play_game(&PointSource::FixedWinner { p1_wins: false })
        .unwrap();
    assert!(!winner_is_p1);
    assert!(!set_over);
    assert_eq!(m.games_p2, 6);
    assert!(m.is_tiebreak);
    assert_eq!(m.points_p1, 0);
    assert_eq!(m.points_p2, 0);
    assert!(m.server_is_p1);
    assert_eq!(m.last_point_winner, Some(false));
}

#[test]
fn tiebreak_needs_seven_points_in_ordinary_sets() {
    let mut m = fresh_match();
    m.is_tiebreak = true;
    m.points_p1 = 7;
    m.points_p2 = 5;
    assert!(m.is_set_over());
    m.points_p1 = 7;
    m.points_p2 = 6;
    assert!(!m.is_set_over());
}

#[test]
fn grand_slam_final_set_tiebreak_needs_ten_points() {
    let mut m = TennisMatch::new(player("A", 650, 100, 50), player("B", 620, 80, 40), 3, true);
    m.sets_p1 = 1;
    m.sets_p2 = 1;
    m.is_tiebreak = true;
    m.points_p1 = 7;
    m.points_p2 = 5;
    assert!(m.is_final_set());
    assert!(!m.is_set_over());
    m.points_p1 = 10;
    m.points_p2 = 8;
    assert!(m.is_set_over());
    // A non-final set of the same match still closes at seven.
    m.sets_p1 = 0;
    m.sets_p2 = 0;
    m.points_p1 = 7;
    m.points_p2 = 5;
    assert!(!m.is_final_set());
    assert!(m.is_set_over());
}

#[test]
fn set_needs_six_games_and_a_two_game_margin() {
    let mut m = fresh_match();
    m.games_p1 = 6;
    m.games_p2 = 4;
    assert!(m.is_set_over());
    m.games_p2 = 5;
    assert!(!m.is_set_over());
    m.games_p1 = 7;
    assert!(m.is_set_over());
    m.games_p1 = 5;
    m.games_p2 = 3;
    assert!(!m.is_set_over());
}
