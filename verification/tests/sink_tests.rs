use tennis_sim::player::Player;
use tennis_sim::runner::PointSource;
use tennis_sim::scoring::{PointRecord, TennisMatch};
use tennis_sim::sink::{header_line, row_line, CsvLog};

fn record(server: &str, receiver: &str) -> PointRecord {
    PointRecord {
        server: server.to_string(),
        receiver: receiver.to_string(),
        point_score: "15-0".to_string(),
        game_score: "0-0".to_string(),
        set_score: "0-0".to_string(),
        match_win_p1: 500,
        match_win_p2: 500,
        set_win_p1: 550,
        set_win_p2: 450,
        game_win_p1: 650,
        game_win_p2: 350,
        next_point_p1: 700,
        next_point_p2: 300,
        ace_prob: 120,
        tiebreak_prob: 100,
    }
}

#[test]
fn header_lists_every_column() {
    let h = header_line("A", "B");
    assert_eq!(
        h,
        "server,receiver,point_score,game_score,set_score,A_match_win_prob,B_match_win_prob,\
         A_set_win_prob,B_set_win_prob,A_game_win_prob,B_game_win_prob,A_next_point_win_prob,\
         B_next_point_win_prob,next_serve_ace_prob,tiebreak_prob"
    );
}

#[test]
fn rows_write_all_fifteen_fields() {
    let r = row_line(&record("A", "B"));
    assert_eq!(
        r,
        "A,B,15-0,0-0,0-0,0.500,0.500,0.550,0.450,0.650,0.350,0.700,0.300,0.120,0.100"
    );
}

#[test]
fn header_appears_once_over_many_flushes() {
    let mut log = CsvLog::new();
    let batch1 = vec![record("A", "B"), record("B", "A")];
    let batch2 = vec![record("A", "B"), record("A", "B"), record("B", "A")];
    log.flush("A", "B", &batch1);
    assert_eq!(log.lines.len(), 3);
    log.flush("A", "B", &batch2);
    assert_eq!(log.lines.len(), 6);
    let header = header_line("A", "B");
    assert_eq!(log.lines[0], header);
    for line in &log.lines[1..] {
        assert_ne!(*line, header);
    }
}

#[test]
fn empty_flush_writes_only_the_header() {
    let mut log = CsvLog::new();
    let none: Vec<PointRecord> = Vec::new();
    log.flush("A", "B", &none);
    assert_eq!(log.lines.len(), 1);
    assert_eq!(log.lines[0], header_line("A", "B"));
    log.flush("A", "B", &none);
    assert_eq!(log.lines.len(), 1);
}

#[test]
fn row_count_equals_points_flushed() {
    let a = Player {
        name: "A".to_string(),
        serve_win_prob: 650,
        ace_prob: 100,
        double_fault_prob: 50,
    };
    let b = Player {
        name: "B".to_string(),
        serve_win_prob: 620,
        ace_prob: 80,
        double_fault_prob: 40,
    };
    let mut m = TennisMatch::new(a, b, 3, false);
    m.play_match(&PointSource::FixedWinner { p1_wins: true }).unwrap();
    let mut log = CsvLog::new();
    log.flush("A", "B", &m.point_log);
    assert_eq!(m.total_shots, 48);
    assert_eq!(log.lines.len(), 49);
    log.flush("A", "B", &m.point_log);
    assert_eq!(log.lines.len(), 97);
}

#[test]
fn rows_are_flushed_in_order() {
    let mut log = CsvLog::new();
    let batch = vec![record("A", "B"), record("B", "A")];
    log.flush("A", "B", &batch);
    assert!(log.lines[1].starts_with("A,B,"));
    assert!(log.lines[2].starts_with("B,A,"));
}
