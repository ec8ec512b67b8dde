//! The match runner: draws point outcomes, drives the scoring state
//! machine through games and sets, and plays a full match.

use vstd::prelude::*;
use crate::player::Player;
use crate::rng::{draw_below, draw_bool};
use crate::scoring::{SetStats, TennisMatch};

verus! {

/// Where point outcomes come from: the pseudo-random cascade of the model,
/// or a deterministic stub in which one player wins every point (used to
/// exercise the machinery reproducibly).
#[derive(Clone, Copy, Debug)]
pub enum PointSource {
    Random,
    FixedWinner { p1_wins: bool },
}

/// How a single point ended.
#[derive(Clone, Copy, Debug)]
pub enum PointOutcome {
    Ace,
    DoubleFault,
    ServerPoint,
    ReceiverPoint,
}

/// Why a simulation was abandoned.
#[derive(Clone, Copy, PartialEq, Eq, Structural, Debug)]
pub enum SimError {
    /// A score or shot counter reached the machine limit.
    ScoreLimitExceeded,
    /// An aggregate total would no longer fit its counter.
    TotalsOverflow,
}

/// The player profile currently serving.
pub open spec fn spec_server_player(m: TennisMatch) -> Player {
    if m.server_is_p1 {
        m.player1
    } else {
        m.player2
    }
}

/// Which position wins the point for a given outcome: the server for an
/// ace or a won serve, the receiver for a double fault or a lost serve.
pub open spec fn spec_outcome_winner_p1(m: TennisMatch, o: PointOutcome) -> bool {
    match o {
        PointOutcome::Ace => m.server_is_p1,
        PointOutcome::ServerPoint => m.server_is_p1,
        PointOutcome::DoubleFault => !m.server_is_p1,
        PointOutcome::ReceiverPoint => !m.server_is_p1,
    }
}

/// The state after one point with the given outcome: the shot counter and
/// the winner's point count advance, the server's ace or double-fault
/// tallies record the outcome type, momentum tracking is updated, and in a
/// tiebreak the serve rotates after every odd-numbered point.
pub open spec fn spec_apply_point(m: TennisMatch, o: PointOutcome) -> TennisMatch {
    let winner_p1 = spec_outcome_winner_p1(m, o);
    let is_ace = o is Ace;
    let is_df = o is DoubleFault;
    TennisMatch {
        total_shots: (m.total_shots + 1) as u64,
        game_aces_p1: if is_ace && m.server_is_p1 {
            (m.game_aces_p1 + 1) as u32
        } else {
            m.game_aces_p1
        },
        game_aces_p2: if is_ace && !m.server_is_p1 {
            (m.game_aces_p2 + 1) as u32
        } else {
            m.game_aces_p2
        },
        set_aces_p1: if is_ace && m.server_is_p1 {
            (m.set_aces_p1 + 1) as u32
        } else {
            m.set_aces_p1
        },
        set_aces_p2: if is_ace && !m.server_is_p1 {
            (m.set_aces_p2 + 1) as u32
        } else {
            m.set_aces_p2
        },
        game_dfs_p1: if is_df && m.server_is_p1 {
            (m.game_dfs_p1 + 1) as u32
        } else {
            m.game_dfs_p1
        },
        game_dfs_p2: if is_df && !m.server_is_p1 {
            (m.game_dfs_p2 + 1) as u32
        } else {
            m.game_dfs_p2
        },
        set_dfs_p1: if is_df && m.server_is_p1 {
            (m.set_dfs_p1 + 1) as u32
        } else {
            m.set_dfs_p1
        },
        set_dfs_p2: if is_df && !m.server_is_p1 {
            (m.set_dfs_p2 + 1) as u32
        } else {
            m.set_dfs_p2
        },
        points_p1: if winner_p1 {
            (m.points_p1 + 1) as u32
        } else {
            m.points_p1
        },
        points_p2: if !winner_p1 {
            (m.points_p2 + 1) as u32
        } else {
            m.points_p2
        },
        last_point_ace: is_ace,
        consecutive_points: if m.last_point_winner == Some(winner_p1) {
            (m.consecutive_points + 1) as u32
        } else {
            1
        },
        last_point_winner: Some(winner_p1),
        tiebreak_points: if m.is_tiebreak {
            (m.tiebreak_points + 1) as u32
        } else {
            m.tiebreak_points
        },
        server_is_p1: if m.is_tiebreak && ((m.tiebreak_points + 1) % 2 == 1) {
            !m.server_is_p1
        } else {
            m.server_is_p1
        },
        ..m
    }
}

/// The outcome produced by the deterministic stub: the chosen player wins
/// a plain rally, never an ace or a double fault.
pub open spec fn spec_fixed_outcome(m: TennisMatch, p1_wins: bool) -> PointOutcome {
    if p1_wins == m.server_is_p1 {
        PointOutcome::ServerPoint
    } else {
        PointOutcome::ReceiverPoint
    }
}

/// Which outcomes the source admits. The stub admits exactly one. The
/// random cascade admits any, except that a server who never double-faults
/// and always wins a served rally cannot lose the point.
pub open spec fn spec_outcome_allowed(src: PointSource, m: TennisMatch, o: PointOutcome) -> bool {
    match src {
        PointSource::Random => (spec_server_player(m).double_fault_prob == 0
            && spec_server_player(m).serve_win_prob >= 1000) ==> (o is Ace || o is ServerPoint),
        PointSource::FixedWinner { p1_wins } => o == spec_fixed_outcome(m, p1_wins),
    }
}

/// The random cascade is decided for the server: no double faults and a
/// certain serve.
pub open spec fn spec_certain_server(src: PointSource, m: TennisMatch) -> bool {
    &&& src is Random
    &&& spec_server_player(m).double_fault_prob == 0
    &&& spec_server_player(m).serve_win_prob >= 1000
}

/// Every counter has room left for the next point.
pub open spec fn spec_has_room(m: TennisMatch) -> bool {
    &&& m.points_p1 < u32::MAX && m.points_p2 < u32::MAX
    &&& m.games_p1 < u32::MAX && m.games_p2 < u32::MAX
    &&& m.sets_p1 < u32::MAX && m.sets_p2 < u32::MAX
    &&& m.game_aces_p1 < u32::MAX && m.game_aces_p2 < u32::MAX
    &&& m.game_dfs_p1 < u32::MAX && m.game_dfs_p2 < u32::MAX
    &&& m.set_aces_p1 < u32::MAX && m.set_aces_p2 < u32::MAX
    &&& m.set_dfs_p1 < u32::MAX && m.set_dfs_p2 < u32::MAX
    &&& m.consecutive_points < u32::MAX
    &&& m.tiebreak_points < u32::MAX
    &&& m.total_shots < u64::MAX
}

/// Nothing of the configuration changed between the two states.
pub open spec fn spec_config_unchanged(a: TennisMatch, b: TennisMatch) -> bool {
    &&& b.player1 == a.player1
    &&& b.player2 == a.player2
    &&& b.best_of == a.best_of
    &&& b.grand_slam == a.grand_slam
}

/// How any run of play relates a state to a later one: the configuration
/// is kept, set counts never go down, play only appends to the point log
/// and the set history, and exactly one record is appended per shot.
pub open spec fn spec_progress(a: TennisMatch, b: TennisMatch) -> bool {
    &&& spec_config_unchanged(a, b)
    &&& b.sets_p1 >= a.sets_p1 && b.sets_p2 >= a.sets_p2
    &&& b.total_shots >= a.total_shots
    &&& b.point_log@.len() >= a.point_log@.len()
    &&& forall|i: int|
        0 <= i < a.point_log@.len() ==> b.point_log@[i] == #[trigger] a.point_log@[i]
    &&& b.point_log@.len() + a.total_shots == a.point_log@.len() + b.total_shots
    &&& b.set_history@.len() >= a.set_history@.len()
    &&& forall|i: int|
        0 <= i < a.set_history@.len() ==> b.set_history@[i] == #[trigger] a.set_history@[i]
}

/// A state from which the stub can play out one game predictably: not in a
/// tiebreak, the winner at most five games up, the loser at zero, and
/// ample room in every counter.
pub open spec fn spec_fixed_game_pre(m: TennisMatch, w: bool) -> bool {
    &&& !m.is_tiebreak
    &&& (if w {
        m.games_p1 <= 5 && m.games_p2 == 0
    } else {
        m.games_p2 <= 5 && m.games_p1 == 0
    })
    &&& m.sets_p1 < 0x1000000 && m.sets_p2 < 0x1000000
    &&& m.set_aces_p1 < 0x10000000 && m.set_aces_p2 < 0x10000000
    &&& m.set_dfs_p1 < 0x10000000 && m.set_dfs_p2 < 0x10000000
    &&& m.tiebreak_points == 0
    &&& m.total_shots < 0x1000000000000000
}

/// The state after the stub plays one game: four straight points to the
/// winner, the game credited, the set too when it was the sixth game, and
/// the serve handed over unless the set ended.
pub open spec fn spec_fixed_game_post(m: TennisMatch, w: bool) -> TennisMatch {
    let set_done = (if w {
        m.games_p1
    } else {
        m.games_p2
    }) == 5;
    TennisMatch {
        points_p1: if w {
            4
        } else {
            0
        },
        points_p2: if w {
            0
        } else {
            4
        },
        games_p1: if w {
            (m.games_p1 + 1) as u32
        } else {
            m.games_p1
        },
        games_p2: if !w {
            (m.games_p2 + 1) as u32
        } else {
            m.games_p2
        },
        sets_p1: if w && set_done {
            (m.sets_p1 + 1) as u32
        } else {
            m.sets_p1
        },
        sets_p2: if !w && set_done {
            (m.sets_p2 + 1) as u32
        } else {
            m.sets_p2
        },
        total_shots: (m.total_shots + 4) as u64,
        game_aces_p1: 0,
        game_aces_p2: 0,
        game_dfs_p1: 0,
        game_dfs_p2: 0,
        last_point_winner: Some(w),
        consecutive_points: 4,
        last_point_ace: false,
        server_is_p1: if set_done {
            m.server_is_p1
        } else {
            !m.server_is_p1
        },
        ..m
    }
}

/// The all-zero set snapshot.
pub open spec fn spec_zero_set_stats() -> SetStats {
    SetStats { aces_p1: 0, double_faults_p1: 0, aces_p2: 0, double_faults_p2: 0 }
}

/// A state from which the stub can play out one set predictably: a fresh
/// set, nothing tallied for it yet, and ample room in every counter.
pub open spec fn spec_fixed_set_pre(m: TennisMatch, w: bool) -> bool {
    &&& !m.is_tiebreak
    &&& m.games_p1 == 0 && m.games_p2 == 0
    &&& m.sets_p1 < 0x1000000 && m.sets_p2 < 0x1000000
    &&& m.set_aces_p1 == 0 && m.set_aces_p2 == 0
    &&& m.set_dfs_p1 == 0 && m.set_dfs_p2 == 0
    &&& m.tiebreak_points == 0
    &&& m.total_shots < 0x100000000000000
}

/// The state after the stub plays one set: six games of four points each,
/// all to the winner, the set credited, scores reset for the next set, and
/// the serve back with whoever opened the set.
pub open spec fn spec_fixed_set_post(m: TennisMatch, w: bool) -> TennisMatch {
    TennisMatch {
        sets_p1: if w {
            (m.sets_p1 + 1) as u32
        } else {
            m.sets_p1
        },
        sets_p2: if !w {
            (m.sets_p2 + 1) as u32
        } else {
            m.sets_p2
        },
        games_p1: 0,
        games_p2: 0,
        points_p1: 0,
        points_p2: 0,
        total_shots: (m.total_shots + 24) as u64,
        game_aces_p1: 0,
        game_aces_p2: 0,
        game_dfs_p1: 0,
        game_dfs_p2: 0,
        set_aces_p1: 0,
        set_aces_p2: 0,
        set_dfs_p1: 0,
        set_dfs_p2: 0,
        last_point_winner: Some(w),
        consecutive_points: 4,
        last_point_ace: false,
        is_tiebreak: false,
        tiebreak_points: 0,
        server_is_p1: m.server_is_p1,
        ..m
    }
}

/// A set in progress under the stub, `k` games in.
spec fn spec_fixed_set_partial(m: TennisMatch, w: bool, k: int) -> TennisMatch {
    TennisMatch {
        games_p1: if w {
            k as u32
        } else {
            0
        },
        games_p2: if w {
            0
        } else {
            k as u32
        },
        points_p1: if k == 0 {
            m.points_p1
        } else if w {
            4
        } else {
            0
        },
        points_p2: if k == 0 {
            m.points_p2
        } else if w {
            0
        } else {
            4
        },
        total_shots: (m.total_shots + 4 * k) as u64,
        game_aces_p1: if k == 0 {
            m.game_aces_p1
        } else {
            0
        },
        game_aces_p2: if k == 0 {
            m.game_aces_p2
        } else {
            0
        },
        game_dfs_p1: if k == 0 {
            m.game_dfs_p1
        } else {
            0
        },
        game_dfs_p2: if k == 0 {
            m.game_dfs_p2
        } else {
            0
        },
        last_point_winner: if k == 0 {
            m.last_point_winner
        } else {
            Some(w)
        },
        consecutive_points: if k == 0 {
            m.consecutive_points
        } else {
            4
        },
        last_point_ace: if k == 0 {
            m.last_point_ace
        } else {
            false
        },
        server_is_p1: if k % 2 == 0 {
            m.server_is_p1
        } else {
            !m.server_is_p1
        },
        ..m
    }
}

/// A match in progress under the stub, `k` sets in, started from the
/// fresh state `m`.
spec fn spec_fixed_match_partial(m: TennisMatch, w: bool, k: int) -> TennisMatch {
    TennisMatch {
        sets_p1: if w {
            k as u32
        } else {
            0
        },
        sets_p2: if w {
            0
        } else {
            k as u32
        },
        total_shots: (m.total_shots + 24 * k) as u64,
        last_point_winner: if k == 0 {
            m.last_point_winner
        } else {
            Some(w)
        },
        consecutive_points: if k == 0 {
            m.consecutive_points
        } else {
            4
        },
        ..m
    }
}

/// A game in progress under the stub, `k` points in.
spec fn spec_fixed_game_partial(m: TennisMatch, w: bool, k: int) -> TennisMatch {
    TennisMatch {
        points_p1: if w {
            k as u32
        } else {
            0
        },
        points_p2: if w {
            0
        } else {
            k as u32
        },
        last_point_winner: if k == 0 {
            None
        } else {
            Some(w)
        },
        consecutive_points: k as u32,
        last_point_ace: false,
        game_aces_p1: 0,
        game_aces_p2: 0,
        game_dfs_p1: 0,
        game_dfs_p2: 0,
        total_shots: (m.total_shots + k) as u64,
        ..m
    }
}

impl TennisMatch {
    /// Every counter has room left for the next point.
    pub fn has_room(&self) -> (r: bool)
        ensures
            r == spec_has_room(*self),
    {
        self.points_p1 < u32::MAX && self.points_p2 < u32::MAX && self.games_p1 < u32::MAX
            && self.games_p2 < u32::MAX && self.sets_p1 < u32::MAX && self.sets_p2 < u32::MAX
            && self.game_aces_p1 < u32::MAX && self.game_aces_p2 < u32::MAX && self.game_dfs_p1
            < u32::MAX && self.game_dfs_p2 < u32::MAX && self.set_aces_p1 < u32::MAX
            && self.set_aces_p2 < u32::MAX && self.set_dfs_p1 < u32::MAX && self.set_dfs_p2
            < u32::MAX && self.consecutive_points < u32::MAX && self.tiebreak_points < u32::MAX
            && self.total_shots < u64::MAX
    }

    /// Apply one decided point outcome to the state.
    fn apply_point(&mut self, o: PointOutcome) -> (winner_is_p1: bool)
        requires
            spec_has_room(*old(self)),
        ensures
            *final(self) == spec_apply_point(*old(self), o),
            winner_is_p1 == spec_outcome_winner_p1(*old(self), o),
    {
        self.total_shots = self.total_shots + 1;
        let (is_ace, is_df, server_wins) = match o {
            PointOutcome::Ace => (true, false, true),
            PointOutcome::DoubleFault => (false, true, false),
            PointOutcome::ServerPoint => (false, false, true),
            PointOutcome::ReceiverPoint => (false, false, false),
        };
        let winner_is_p1 = if server_wins {
            self.server_is_p1
        } else {
            !self.server_is_p1
        };
        if is_ace {
            if self.server_is_p1 {
                self.game_aces_p1 = self.game_aces_p1 + 1;
                self.set_aces_p1 = self.set_aces_p1 + 1;
            } else {
                self.game_aces_p2 = self.game_aces_p2 + 1;
                self.set_aces_p2 = self.set_aces_p2 + 1;
            }
        }
        if is_df {
            if self.server_is_p1 {
                self.game_dfs_p1 = self.game_dfs_p1 + 1;
                self.set_dfs_p1 = self.set_dfs_p1 + 1;
            } else {
                self.game_dfs_p2 = self.game_dfs_p2 + 1;
                self.set_dfs_p2 = self.set_dfs_p2 + 1;
            }
        }
        if winner_is_p1 {
            self.points_p1 = self.points_p1 + 1;
        } else {
            self.points_p2 = self.points_p2 + 1;
        }
        self.last_point_ace = is_ace;
        let same_winner = match self.last_point_winner {
            Some(w) => w == winner_is_p1,
            None => false,
        };
        if same_winner {
            self.consecutive_points = self.consecutive_points + 1;
        } else {
            self.consecutive_points = 1;
        }
        self.last_point_winner = Some(winner_is_p1);
        if self.is_tiebreak {
            self.tiebreak_points = self.tiebreak_points + 1;
            if self.tiebreak_points % 2 == 1 {
                self.server_is_p1 = !self.server_is_p1;
            }
        }
        winner_is_p1
    }

    /// Play one point: decide its outcome from the source, then apply it.
    /// Whatever the draws, the state moves by exactly one admissible
    /// outcome.
    pub fn play_point(&mut self, src: &PointSource) -> (winner_is_p1: bool)
        requires
            spec_has_room(*old(self)),
        ensures
            exists|o: PointOutcome|
                #![auto]
                {
                    &&& *final(self) == spec_apply_point(*old(self), o)
                    &&& winner_is_p1 == spec_outcome_winner_p1(*old(self), o)
                    &&& spec_outcome_allowed(*src, *old(self), o)
                },
            spec_config_unchanged(*old(self), *final(self)),
            final(self).games_p1 == old(self).games_p1,
            final(self).games_p2 == old(self).games_p2,
            final(self).sets_p1 == old(self).sets_p1,
            final(self).sets_p2 == old(self).sets_p2,
            final(self).is_tiebreak == old(self).is_tiebreak,
            final(self).tiebreak_server_is_p1 == old(self).tiebreak_server_is_p1,
            final(self).point_log == old(self).point_log,
            final(self).set_history == old(self).set_history,
            final(self).total_shots == old(self).total_shots + 1,
            winner_is_p1 ==> final(self).points_p1 == old(self).points_p1 + 1
                && final(self).points_p2 == old(self).points_p2,
            !winner_is_p1 ==> final(self).points_p2 == old(self).points_p2 + 1
                && final(self).points_p1 == old(self).points_p1,
            final(self).last_point_winner == Some(winner_is_p1),
            (match *src {
                PointSource::FixedWinner { p1_wins } => winner_is_p1 == p1_wins && *final(self)
                    == spec_apply_point(*old(self), spec_fixed_outcome(*old(self), p1_wins)),
                PointSource::Random => true,
            }),
            spec_certain_server(*src, *old(self)) ==> winner_is_p1 == old(self).server_is_p1,
    {
        let o = match src {
            PointSource::FixedWinner { p1_wins } => {
                if *p1_wins == self.server_is_p1 {
                    PointOutcome::ServerPoint
                } else {
                    PointOutcome::ReceiverPoint
                }
            },
            PointSource::Random => {
                let ace_prob = self.calculate_ace_probability();
                let u1 = draw_below(1000);
                if u1 < ace_prob {
                    PointOutcome::Ace
                } else {
                    let df_prob = if self.server_is_p1 {
                        self.player1.double_fault_prob
                    } else {
                        self.player2.double_fault_prob
                    };
                    let u2 = draw_below(1000);
                    if u2 < df_prob {
                        PointOutcome::DoubleFault
                    } else {
                        let serve_prob = if self.server_is_p1 {
                            self.player1.serve_win_prob
                        } else {
                            self.player2.serve_win_prob
                        };
                        let u3 = draw_below(1000);
                        if u3 < serve_prob {
                            PointOutcome::ServerPoint
                        } else {
                            PointOutcome::ReceiverPoint
                        }
                    }
                }
            },
        };
        self.apply_point(o)
    }

    /// Play one game to completion (or a whole tiebreak, which stands as a
    /// single game): points are played until the game or the set closes,
    /// and the serve is handed over after an ordinary completed game.
    /// Returns the winner of the deciding point and whether the set
    /// closed; fails only when a counter runs out of room.
    pub fn play_game(&mut self, src: &PointSource) -> (res: Result<(bool, bool), SimError>)
        requires
            old(self).wf(),
        ensures
            final(self).wf(),
            spec_progress(*old(self), *final(self)),
            final(self).set_history == old(self).set_history,
            final(self).games_p1 >= old(self).games_p1,
            final(self).games_p2 >= old(self).games_p2,
            (match res {
                Ok(r) => {
                    &&& final(self).total_shots > old(self).total_shots
                    &&& final(self).last_point_winner == Some(r.0)
                    &&& (r.1 ==> final(self).sets_p1 + final(self).sets_p2 == old(self).sets_p1
                        + old(self).sets_p2 + 1)
                    &&& (!r.1 ==> final(self).sets_p1 == old(self).sets_p1 && final(self).sets_p2
                        == old(self).sets_p2)
                    &&& (!r.1 ==> !final(self).spec_set_over())
                    &&& (!r.1 ==> !old(self).is_tiebreak)
                    &&& (!r.1 ==> (if r.0 {
                        final(self).games_p1 == old(self).games_p1 + 1 && final(self).games_p2
                            == old(self).games_p2
                    } else {
                        final(self).games_p2 == old(self).games_p2 + 1 && final(self).games_p1
                            == old(self).games_p1
                    }))
                    &&& (!r.1 ==> (final(self).is_tiebreak <==> (final(self).games_p1 == 6
                        && final(self).games_p2 == 6)))
                    &&& (!r.1 && !final(self).is_tiebreak ==> final(self).server_is_p1 == !old(
                        self,
                    ).server_is_p1)
                    &&& (!r.1 && final(self).is_tiebreak ==> {
                        &&& final(self).server_is_p1 == old(self).server_is_p1
                        &&& final(self).points_p1 == 0 && final(self).points_p2 == 0
                        &&& final(self).tiebreak_points == 0
                        &&& final(self).tiebreak_server_is_p1 == Some(old(self).server_is_p1)
                    })
                    &&& (!old(self).spec_set_over() && r.1 ==> (if r.0 {
                        final(self).sets_p1 == old(self).sets_p1 + 1 && final(self).sets_p2 == old(
                            self,
                        ).sets_p2
                    } else {
                        final(self).sets_p2 == old(self).sets_p2 + 1 && final(self).sets_p1 == old(
                            self,
                        ).sets_p1
                    }))
                    &&& (spec_certain_server(*src, *old(self)) && !old(self).is_tiebreak && !(
                    old(self).games_p1 == 6 && old(self).games_p2 == 6) && !old(
                        self,
                    ).spec_set_over() ==> {
                        &&& r.0 == old(self).server_is_p1
                        &&& (if old(self).server_is_p1 {
                            final(self).games_p1 == old(self).games_p1 + 1 && final(self).games_p2
                                == old(self).games_p2
                        } else {
                            final(self).games_p2 == old(self).games_p2 + 1 && final(self).games_p1
                                == old(self).games_p1
                        })
                        &&& (!final(self).is_tiebreak ==> (if old(self).server_is_p1 {
                            final(self).points_p1 == 4 && final(self).points_p2 == 0
                        } else {
                            final(self).points_p2 == 4 && final(self).points_p1 == 0
                        }))
                    })
                    &&& (match *src {
                        PointSource::FixedWinner { p1_wins } => spec_fixed_game_pre(
                            *old(self),
                            p1_wins,
                        ) ==> {
                            &&& r.0 == p1_wins
                            &&& r.1 == ((if p1_wins {
                                old(self).games_p1
                            } else {
                                old(self).games_p2
                            }) == 5)
                            &&& (TennisMatch { point_log: old(self).point_log, ..*final(self) })
                                == spec_fixed_game_post(*old(self), p1_wins)
                            &&& final(self).point_log@.len() == old(self).point_log@.len() + 4
                        },
                        PointSource::Random => true,
                    })
                },
                Err(e) => {
                    &&& e == SimError::ScoreLimitExceeded
                    &&& (match *src {
                        PointSource::FixedWinner { p1_wins } => !spec_fixed_game_pre(
                            *old(self),
                            p1_wins,
                        ),
                        PointSource::Random => true,
                    })
                },
            }),
    {
        if !self.is_tiebreak {
            self.points_p1 = 0;
            self.points_p2 = 0;
        }
        self.last_point_winner = None;
        self.consecutive_points = 0;
        self.last_point_ace = false;
        self.game_aces_p1 = 0;
        self.game_aces_p2 = 0;
        self.game_dfs_p1 = 0;
        self.game_dfs_p2 = 0;
        loop
            invariant
                self.wf(),
                spec_config_unchanged(*old(self), *self),
                self.games_p1 == old(self).games_p1,
                self.games_p2 == old(self).games_p2,
                self.sets_p1 == old(self).sets_p1,
                self.sets_p2 == old(self).sets_p2,
                self.set_history == old(self).set_history,
                self.total_shots >= old(self).total_shots,
                self.point_log@.len() >= old(self).point_log@.len(),
                forall|i: int|
                    0 <= i < old(self).point_log@.len() ==> self.point_log@[i] == #[trigger] old(
                        self,
                    ).point_log@[i],
                self.point_log@.len() + old(self).total_shots == old(self).point_log@.len()
                    + self.total_shots,
                !self.is_tiebreak ==> !self.spec_game_over(),
                !old(self).spec_set_over() ==> !self.spec_set_over(),
                old(self).is_tiebreak ==> self.is_tiebreak,
                !self.is_tiebreak ==> self.server_is_p1 == old(self).server_is_p1,
                (spec_certain_server(*src, *old(self)) && !old(self).is_tiebreak && !(old(
                self).games_p1 == 6 && old(self).games_p2 == 6) ==> {
                    &&& !self.is_tiebreak
                    &&& self.server_is_p1 == old(self).server_is_p1
                    &&& (if old(self).server_is_p1 {
                        self.points_p2 == 0 && self.points_p1 <= 3
                    } else {
                        self.points_p1 == 0 && self.points_p2 <= 3
                    })
                }),
                (match *src {
                    PointSource::FixedWinner { p1_wins } => spec_fixed_game_pre(
                        *old(self),
                        p1_wins,
                    ) ==> {
                        let k = if p1_wins {
                            self.points_p1 as int
                        } else {
                            self.points_p2 as int
                        };
                        &&& 0 <= k <= 3
                        &&& (TennisMatch { point_log: old(self).point_log, ..*self })
                            == spec_fixed_game_partial(*old(self), p1_wins, k)
                        &&& self.point_log@.len() == old(self).point_log@.len() + k
                    },
                    PointSource::Random => true,
                }),
            decreases u64::MAX - self.total_shots,
        {
            if !self.has_room() {
                return Err(SimError::ScoreLimitExceeded);
            }
            let winner_is_p1 = self.play_point(src);
            let flags = self.log_point();
            let game_over = flags.0;
            let set_over = flags.1;
            if game_over || set_over {
                if !set_over && !self.is_tiebreak {
                    self.switch_server();
                }
                return Ok((winner_is_p1, set_over));
            }
        }
    }

    /// Play one set to completion: games until the set closes (through a
    /// tiebreak at six games all), then snapshot the set's ace and
    /// double-fault tallies into the history, reset the scores for the
    /// next set, and hand the serve over. Returns who won the set.
    pub fn play_set(&mut self, src: &PointSource) -> (res: Result<bool, SimError>)
        requires
            old(self).wf(),
            !old(self).spec_set_over(),
        ensures
            final(self).wf(),
            spec_progress(*old(self), *final(self)),
            (match res {
                Ok(winner_is_p1) => {
                    &&& final(self).total_shots > old(self).total_shots
                    &&& (if winner_is_p1 {
                        final(self).sets_p1 == old(self).sets_p1 + 1 && final(self).sets_p2 == old(
                            self,
                        ).sets_p2
                    } else {
                        final(self).sets_p2 == old(self).sets_p2 + 1 && final(self).sets_p1 == old(
                            self,
                        ).sets_p1
                    })
                    &&& final(self).games_p1 == 0 && final(self).games_p2 == 0
                    &&& final(self).points_p1 == 0 && final(self).points_p2 == 0
                    &&& !final(self).is_tiebreak
                    &&& final(self).tiebreak_points == 0
                    &&& final(self).set_aces_p1 == 0 && final(self).set_aces_p2 == 0
                    &&& final(self).set_dfs_p1 == 0 && final(self).set_dfs_p2 == 0
                    &&& final(self).set_history@.len() == old(self).set_history@.len() + 1
                    &&& (match *src {
                        PointSource::FixedWinner { p1_wins } => spec_fixed_set_pre(
                            *old(self),
                            p1_wins,
                        ) ==> {
                            &&& winner_is_p1 == p1_wins
                            &&& (TennisMatch {
                                point_log: old(self).point_log,
                                set_history: old(self).set_history,
                                ..*final(self)
                            }) == spec_fixed_set_post(*old(self), p1_wins)
                            &&& final(self).set_history@ == old(self).set_history@.push(
                                spec_zero_set_stats(),
                            )
                            &&& final(self).point_log@.len() == old(self).point_log@.len() + 24
                        },
                        PointSource::Random => true,
                    })
                },
                Err(e) => {
                    &&& e == SimError::ScoreLimitExceeded
                    &&& (match *src {
                        PointSource::FixedWinner { p1_wins } => !spec_fixed_set_pre(
                            *old(self),
                            p1_wins,
                        ),
                        PointSource::Random => true,
                    })
                },
            }),
    {
        loop
            invariant
                self.wf(),
                spec_config_unchanged(*old(self), *self),
                self.sets_p1 == old(self).sets_p1,
                self.sets_p2 == old(self).sets_p2,
                self.set_history == old(self).set_history,
                self.total_shots >= old(self).total_shots,
                self.point_log@.len() >= old(self).point_log@.len(),
                forall|i: int|
                    0 <= i < old(self).point_log@.len() ==> self.point_log@[i] == #[trigger] old(
                        self,
                    ).point_log@[i],
                self.point_log@.len() + old(self).total_shots == old(self).point_log@.len()
                    + self.total_shots,
                !self.spec_set_over(),
                (match *src {
                    PointSource::FixedWinner { p1_wins } => spec_fixed_set_pre(
                        *old(self),
                        p1_wins,
                    ) ==> {
                        let k = if p1_wins {
                            self.games_p1 as int
                        } else {
                            self.games_p2 as int
                        };
                        &&& 0 <= k <= 5
                        &&& (TennisMatch { point_log: old(self).point_log, ..*self })
                            == spec_fixed_set_partial(*old(self), p1_wins, k)
                        &&& self.point_log@.len() == old(self).point_log@.len() + 4 * k
                    },
                    PointSource::Random => true,
                }),
            decreases u64::MAX - self.total_shots,
        {
            let r = self.play_game(src);
            match r {
                Err(e) => {
                    return Err(e);
                },
                Ok(g) => {
                    let winner_is_p1 = g.0;
                    let set_over = g.1;
                    if set_over {
                        let snap = SetStats {
                            aces_p1: self.set_aces_p1,
                            double_faults_p1: self.set_dfs_p1,
                            aces_p2: self.set_aces_p2,
                            double_faults_p2: self.set_dfs_p2,
                        };
                        self.set_history.push(snap);
                        self.set_aces_p1 = 0;
                        self.set_aces_p2 = 0;
                        self.set_dfs_p1 = 0;
                        self.set_dfs_p2 = 0;
                        self.games_p1 = 0;
                        self.games_p2 = 0;
                        self.points_p1 = 0;
                        self.points_p2 = 0;
                        self.is_tiebreak = false;
                        self.tiebreak_points = 0;
                        self.switch_server();
                        return Ok(winner_is_p1);
                    }
                },
            }
        }
    }

    /// Play a whole match from a fresh state: pick the opening server (at
    /// random, or player 1 under the stub), then play sets until one side
    /// reaches best-of-threshold many. Returns who won the match; one
    /// record was logged per point played, and one snapshot kept per set.
    pub fn play_match(&mut self, src: &PointSource) -> (res: Result<bool, SimError>)
        requires
            old(self).wf(),
            old(self).is_fresh(),
        ensures
            final(self).wf(),
            spec_progress(*old(self), *final(self)),
            (match res {
                Ok(winner_is_p1) => {
                    &&& (if winner_is_p1 {
                        final(self).sets_p1
                    } else {
                        final(self).sets_p2
                    }) == old(self).best_of / 2 + 1
                    &&& (if winner_is_p1 {
                        final(self).sets_p2
                    } else {
                        final(self).sets_p1
                    }) < old(self).best_of / 2 + 1
                    &&& final(self).point_log@.len() == final(self).total_shots
                    &&& final(self).set_history@.len() == final(self).sets_p1 + final(self).sets_p2
                    &&& (match *src {
                        PointSource::FixedWinner { p1_wins } => old(self).best_of <= 1001 ==> {
                            &&& winner_is_p1 == p1_wins
                            &&& final(self).total_shots == 24 * (old(self).best_of / 2 + 1)
                            &&& (if p1_wins {
                                final(self).sets_p2
                            } else {
                                final(self).sets_p1
                            }) == 0
                            &&& (forall|i: int|
                                0 <= i < final(self).set_history@.len()
                                    ==> #[trigger] final(self).set_history@[i]
                                    == spec_zero_set_stats())
                        },
                        PointSource::Random => true,
                    })
                },
                Err(e) => {
                    &&& e == SimError::ScoreLimitExceeded
                    &&& (match *src {
                        PointSource::FixedWinner { p1_wins } => old(self).best_of > 1001,
                        PointSource::Random => true,
                    })
                },
            }),
    {
        let target = self.best_of / 2 + 1;
        match src {
            PointSource::Random => {
                let heads = draw_bool();
                self.server_is_p1 = heads;
            },
            PointSource::FixedWinner { p1_wins: _ } => {},
        }
        loop
            invariant
                old(self).wf(),
                old(self).is_fresh(),
                self.wf(),
                spec_config_unchanged(*old(self), *self),
                target == self.best_of / 2 + 1,
                self.games_p1 == 0 && self.games_p2 == 0,
                self.points_p1 == 0 && self.points_p2 == 0,
                !self.is_tiebreak,
                self.tiebreak_points == 0,
                self.set_aces_p1 == 0 && self.set_aces_p2 == 0,
                self.set_dfs_p1 == 0 && self.set_dfs_p2 == 0,
                self.sets_p1 <= target && self.sets_p2 <= target,
                self.sets_p1 + self.sets_p2 < 2 * target,
                self.total_shots >= old(self).total_shots,
                self.point_log@.len() == self.total_shots,
                self.set_history@.len() == self.sets_p1 + self.sets_p2,
                forall|i: int|
                    0 <= i < old(self).point_log@.len() ==> self.point_log@[i] == #[trigger] old(
                        self,
                    ).point_log@[i],
                forall|i: int|
                    0 <= i < old(self).set_history@.len() ==> self.set_history@[i] == #[trigger] old(
                        self,
                    ).set_history@[i],
                (match *src {
                    PointSource::FixedWinner { p1_wins } => old(self).best_of <= 1001 ==> {
                        let k = if p1_wins {
                            self.sets_p1 as int
                        } else {
                            self.sets_p2 as int
                        };
                        &&& (TennisMatch {
                            point_log: old(self).point_log,
                            set_history: old(self).set_history,
                            ..*self
                        }) == spec_fixed_match_partial(*old(self), p1_wins, k)
                        &&& forall|i: int|
                            0 <= i < self.set_history@.len() ==> #[trigger] self.set_history@[i]
                                == spec_zero_set_stats()
                    },
                    PointSource::Random => true,
                }),
            decreases 2 * target - self.sets_p1 - self.sets_p2,
        {
            if self.sets_p1 >= target || self.sets_p2 >= target {
                return Ok(self.sets_p1 > self.sets_p2);
            }
            match self.play_set(src) {
                Err(e) => {
                    return Err(e);
                },
                Ok(_set_winner) => {},
            }
        }
    }
}

} // verus!
