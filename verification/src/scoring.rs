//! The match scoring state machine: points, games, sets, tiebreaks, and the
//! point-by-point record log.

use vstd::prelude::*;
use crate::format::{
    dec_rep, point_score_rep, point_score_string, score_pair_rep, score_pair_string,
    tennis_call_rep, tennis_call_string, u32_string,
};
use crate::player::Player;

verus! {

/// Ace and double-fault counts for one completed set, both players.
#[derive(Clone, Copy, PartialEq, Eq, Structural, Debug)]
pub struct SetStats {
    pub aces_p1: u32,
    pub double_faults_p1: u32,
    pub aces_p2: u32,
    pub double_faults_p2: u32,
}

/// An immutable snapshot taken after every point: who served, the formatted
/// scores, and the ten live probability estimates, in thousandths.
pub struct PointRecord {
    pub server: String,
    pub receiver: String,
    pub point_score: String,
    pub game_score: String,
    pub set_score: String,
    pub match_win_p1: u32,
    pub match_win_p2: u32,
    pub set_win_p1: u32,
    pub set_win_p2: u32,
    pub game_win_p1: u32,
    pub game_win_p2: u32,
    pub next_point_p1: u32,
    pub next_point_p2: u32,
    pub ace_prob: u32,
    pub tiebreak_prob: u32,
}

/// The full mutable state of one match. Counters are indexed by player
/// position (player 1 / player 2), not by who serves.
pub struct TennisMatch {
    pub player1: Player,
    pub player2: Player,
    pub best_of: u32,
    pub grand_slam: bool,
    pub server_is_p1: bool,
    pub sets_p1: u32,
    pub sets_p2: u32,
    pub games_p1: u32,
    pub games_p2: u32,
    pub points_p1: u32,
    pub points_p2: u32,
    pub total_shots: u64,
    pub set_history: Vec<SetStats>,
    pub point_log: Vec<PointRecord>,
    pub game_aces_p1: u32,
    pub game_aces_p2: u32,
    pub game_dfs_p1: u32,
    pub game_dfs_p2: u32,
    pub set_aces_p1: u32,
    pub set_aces_p2: u32,
    pub set_dfs_p1: u32,
    pub set_dfs_p2: u32,
    pub last_point_winner: Option<bool>,
    pub consecutive_points: u32,
    pub last_point_ace: bool,
    pub is_tiebreak: bool,
    pub tiebreak_points: u32,
    pub tiebreak_server_is_p1: Option<bool>,
}

impl TennisMatch {
    /// The players' probabilities are within range and the match length is
    /// sensible.
    pub open spec fn wf(self) -> bool {
        self.player1.wf() && self.player2.wf() && self.best_of >= 1
    }

    /// A state as produced by `new`: nothing played yet.
    pub open spec fn is_fresh(self) -> bool {
        &&& self.server_is_p1
        &&& self.sets_p1 == 0 && self.sets_p2 == 0
        &&& self.games_p1 == 0 && self.games_p2 == 0
        &&& self.points_p1 == 0 && self.points_p2 == 0
        &&& self.total_shots == 0
        &&& self.set_history@.len() == 0
        &&& self.point_log@.len() == 0
        &&& self.game_aces_p1 == 0 && self.game_aces_p2 == 0
        &&& self.game_dfs_p1 == 0 && self.game_dfs_p2 == 0
        &&& self.set_aces_p1 == 0 && self.set_aces_p2 == 0
        &&& self.set_dfs_p1 == 0 && self.set_dfs_p2 == 0
        &&& self.last_point_winner is None
        &&& self.consecutive_points == 0
        &&& !self.last_point_ace
        &&& !self.is_tiebreak
        &&& self.tiebreak_points == 0
        &&& self.tiebreak_server_is_p1 is None
    }

    /// The name of the player currently serving.
    pub open spec fn server_name(self) -> Seq<char> {
        if self.server_is_p1 {
            self.player1.name@
        } else {
            self.player2.name@
        }
    }

    /// The name of the player currently receiving.
    pub open spec fn receiver_name(self) -> Seq<char> {
        if self.server_is_p1 {
            self.player2.name@
        } else {
            self.player1.name@
        }
    }

    /// The server's point count.
    pub open spec fn server_points(self) -> int {
        if self.server_is_p1 {
            self.points_p1 as int
        } else {
            self.points_p2 as int
        }
    }

    /// The receiver's point count.
    pub open spec fn receiver_points(self) -> int {
        if self.server_is_p1 {
            self.points_p2 as int
        } else {
            self.points_p1 as int
        }
    }

    /// The server's game count.
    pub open spec fn server_games(self) -> int {
        if self.server_is_p1 {
            self.games_p1 as int
        } else {
            self.games_p2 as int
        }
    }

    /// The receiver's game count.
    pub open spec fn receiver_games(self) -> int {
        if self.server_is_p1 {
            self.games_p2 as int
        } else {
            self.games_p1 as int
        }
    }

    /// The server's set count.
    pub open spec fn server_sets(self) -> int {
        if self.server_is_p1 {
            self.sets_p1 as int
        } else {
            self.sets_p2 as int
        }
    }

    /// The receiver's set count.
    pub open spec fn receiver_sets(self) -> int {
        if self.server_is_p1 {
            self.sets_p2 as int
        } else {
            self.sets_p1 as int
        }
    }

    /// The match is in its last possible set.
    pub open spec fn spec_is_final_set(self) -> bool {
        self.sets_p1 + self.sets_p2 == self.best_of - 1
    }

    /// Points needed to win the current tiebreak: ten in the deciding set of
    /// a grand-slam match, seven otherwise.
    pub open spec fn spec_tiebreak_target(self) -> int {
        if self.grand_slam && self.spec_is_final_set() {
            10
        } else {
            7
        }
    }

    /// The current game is decided: the leader has at least four points and
    /// leads by at least two. Meaningful outside a tiebreak.
    pub open spec fn spec_game_over(self) -> bool {
        let a = self.points_p1 as int;
        let b = self.points_p2 as int;
        (a >= 4 || b >= 4) && (a - b >= 2 || b - a >= 2)
    }

    /// The current set is decided: outside a tiebreak, six games with a two
    /// game margin; inside one, the tiebreak target with a two point margin.
    pub open spec fn spec_set_over(self) -> bool {
        if !self.is_tiebreak {
            let a = self.games_p1 as int;
            let b = self.games_p2 as int;
            (a >= 6 || b >= 6) && (a - b >= 2 || b - a >= 2)
        } else {
            let a = self.points_p1 as int;
            let b = self.points_p2 as int;
            let t = self.spec_tiebreak_target();
            (a >= t || b >= t) && (a - b >= 2 || b - a >= 2)
        }
    }

    /// Whether recording the point just played closes the current game.
    pub open spec fn spec_game_completed(self) -> bool {
        if self.is_tiebreak {
            self.spec_set_over()
        } else {
            self.spec_game_over()
        }
    }

    /// Whether recording the point just played closes the current set.
    pub open spec fn spec_set_completed(self) -> bool {
        if self.is_tiebreak {
            self.spec_set_over()
        } else {
            spec_after_game(self).spec_set_over()
        }
    }
}

/// The state after crediting a completed (non-tiebreak) game to the point
/// leader; the identity where the game is still running.
pub open spec fn spec_after_game(m: TennisMatch) -> TennisMatch {
    if m.spec_game_over() {
        if m.points_p1 > m.points_p2 {
            TennisMatch { games_p1: (m.games_p1 + 1) as u32, ..m }
        } else {
            TennisMatch { games_p2: (m.games_p2 + 1) as u32, ..m }
        }
    } else {
        m
    }
}

/// The score transition applied when a point is recorded: completed games
/// and sets are credited, and a tiebreak begins when games reach six all
/// without the set being over.
pub open spec fn spec_score_update(m: TennisMatch) -> TennisMatch {
    if m.is_tiebreak {
        if m.spec_set_over() {
            if m.points_p1 > m.points_p2 {
                TennisMatch {
                    games_p1: (m.games_p1 + 1) as u32,
                    sets_p1: (m.sets_p1 + 1) as u32,
                    is_tiebreak: false,
                    ..m
                }
            } else {
                TennisMatch {
                    games_p2: (m.games_p2 + 1) as u32,
                    sets_p2: (m.sets_p2 + 1) as u32,
                    is_tiebreak: false,
                    ..m
                }
            }
        } else {
            m
        }
    } else {
        let m1 = spec_after_game(m);
        if m1.spec_set_over() {
            if m1.games_p1 > m1.games_p2 {
                TennisMatch { sets_p1: (m1.sets_p1 + 1) as u32, ..m1 }
            } else {
                TennisMatch { sets_p2: (m1.sets_p2 + 1) as u32, ..m1 }
            }
        } else if m1.games_p1 == 6 && m1.games_p2 == 6 {
            TennisMatch {
                is_tiebreak: true,
                points_p1: 0,
                points_p2: 0,
                tiebreak_points: 0,
                tiebreak_server_is_p1: Some(m1.server_is_p1),
                ..m1
            }
        } else {
            m1
        }
    }
}

/// Recording a point never lowers a game or set counter: within a match,
/// both players' game and set counts are non-decreasing (game counts
/// until the per-set reset, set counts throughout).
pub proof fn lemma_score_update_monotonic(m: TennisMatch)
    requires
        m.games_p1 < u32::MAX,
        m.games_p2 < u32::MAX,
        m.sets_p1 < u32::MAX,
        m.sets_p2 < u32::MAX,
    ensures
        spec_score_update(m).games_p1 >= m.games_p1,
        spec_score_update(m).games_p2 >= m.games_p2,
        spec_score_update(m).sets_p1 >= m.sets_p1,
        spec_score_update(m).sets_p2 >= m.sets_p2,
{
}

/// A tiebreak begins exactly when recording a point leaves the games at
/// six all without closing the set, and it begins with the points and the
/// tiebreak point counter reset to zero.
pub proof fn lemma_tiebreak_trigger(m: TennisMatch)
    requires
        !m.is_tiebreak,
    ensures
        spec_score_update(m).is_tiebreak <==> (spec_after_game(m).games_p1 == 6 && spec_after_game(
            m,
        ).games_p2 == 6 && !spec_after_game(m).spec_set_over()),
        spec_score_update(m).is_tiebreak ==> spec_score_update(m).points_p1 == 0
            && spec_score_update(m).points_p2 == 0 && spec_score_update(m).tiebreak_points == 0,
{
}

/// A tiebreak set closes at ten points (with a two point margin) exactly
/// in the deciding set of a grand-slam match, and at seven points in
/// every other set.
pub proof fn lemma_tiebreak_threshold(m: TennisMatch)
    requires
        m.is_tiebreak,
    ensures
        (m.grand_slam && m.sets_p1 + m.sets_p2 == m.best_of - 1) ==> (m.spec_set_over() <==> ((
        m.points_p1 >= 10 || m.points_p2 >= 10) && (m.points_p1 - m.points_p2 >= 2 || m.points_p2
            - m.points_p1 >= 2))),
        !(m.grand_slam && m.sets_p1 + m.sets_p2 == m.best_of - 1) ==> (m.spec_set_over() <==> ((
        m.points_p1 >= 7 || m.points_p2 >= 7) && (m.points_p1 - m.points_p2 >= 2 || m.points_p2
            - m.points_p1 >= 2))),
{
}

/// In ordinary play the recorded point score reads "GAME" exactly when the
/// point closed the game: the score string and the game-over rule agree.
pub proof fn lemma_logged_game_call(rec: PointRecord, pre: TennisMatch, post: TennisMatch)
    requires
        !pre.is_tiebreak,
        spec_record_ok(rec, pre, post),
    ensures
        (rec.point_score@ == "GAME"@) <==> pre.spec_game_over(),
{
    crate::format::lemma_game_string_iff_game_over(pre.server_points(), pre.receiver_points());
}

/// The recorded snapshot is right for a point taken in state `pre` and
/// scored into state `post`: the point score is formatted from the points
/// as they stood when the point ended, everything else from the updated
/// state.
pub open spec fn spec_record_ok(rec: PointRecord, pre: TennisMatch, post: TennisMatch) -> bool {
    &&& rec.server@ == post.server_name()
    &&& rec.receiver@ == post.receiver_name()
    &&& rec.point_score@ == point_score_rep(
        pre.server_points(),
        pre.receiver_points(),
        pre.is_tiebreak,
    )
    &&& rec.game_score@ == score_pair_rep(post.server_games(), post.receiver_games())
    &&& rec.set_score@ == score_pair_rep(post.server_sets(), post.receiver_sets())
    &&& rec.match_win_p1 as int == post.spec_match_win(post.name_is_p1(post.player1.name@))
    &&& rec.match_win_p2 as int == post.spec_match_win(post.name_is_p1(post.player2.name@))
    &&& rec.set_win_p1 as int == post.spec_set_win(post.name_is_p1(post.player1.name@))
    &&& rec.set_win_p2 as int == post.spec_set_win(post.name_is_p1(post.player2.name@))
    &&& rec.game_win_p1 as int == post.spec_game_win(
        post.name_is_p1(post.player1.name@),
        post.name_is_server(post.player1.name@),
    )
    &&& rec.game_win_p2 as int == post.spec_game_win(
        post.name_is_p1(post.player2.name@),
        post.name_is_server(post.player2.name@),
    )
    &&& rec.next_point_p1 as int == post.spec_next_point_win(
        post.name_is_p1(post.player1.name@),
        post.name_is_server(post.player1.name@),
    )
    &&& rec.next_point_p2 as int == post.spec_next_point_win(
        post.name_is_p1(post.player2.name@),
        post.name_is_server(post.player2.name@),
    )
    &&& rec.ace_prob as int == post.spec_ace_prob()
    &&& rec.tiebreak_prob as int == post.spec_tiebreak_prob()
}

impl TennisMatch {
    /// A fresh match between the two players, player 1 serving first until
    /// the runner picks the opening server.
    pub fn new(player1: Player, player2: Player, best_of: u32, grand_slam: bool) -> (m:
        TennisMatch)
        requires
            player1.wf(),
            player2.wf(),
            player1.name@ != player2.name@,
            best_of >= 1,
        ensures
            m.wf(),
            m.is_fresh(),
            m.player1 == player1,
            m.player2 == player2,
            m.best_of == best_of,
            m.grand_slam == grand_slam,
    {
        TennisMatch {
            player1,
            player2,
            best_of,
            grand_slam,
            server_is_p1: true,
            sets_p1: 0,
            sets_p2: 0,
            games_p1: 0,
            games_p2: 0,
            points_p1: 0,
            points_p2: 0,
            total_shots: 0,
            set_history: Vec::new(),
            point_log: Vec::new(),
            game_aces_p1: 0,
            game_aces_p2: 0,
            game_dfs_p1: 0,
            game_dfs_p2: 0,
            set_aces_p1: 0,
            set_aces_p2: 0,
            set_dfs_p1: 0,
            set_dfs_p2: 0,
            last_point_winner: None,
            consecutive_points: 0,
            last_point_ace: false,
            is_tiebreak: false,
            tiebreak_points: 0,
            tiebreak_server_is_p1: None,
        }
    }

    /// Swap server and receiver.
    pub fn switch_server(&mut self)
        ensures
            *final(self) == (TennisMatch { server_is_p1: !old(self).server_is_p1, ..*old(self) }),
    {
        self.server_is_p1 = !self.server_is_p1;
    }

    /// The match is in its last possible set.
    pub fn is_final_set(&self) -> (r: bool)
        ensures
            r == self.spec_is_final_set(),
    {
        self.sets_p1 as u64 + self.sets_p2 as u64 + 1 == self.best_of as u64
    }

    /// The current set is decided.
    pub fn is_set_over(&self) -> (r: bool)
        ensures
            r == self.spec_set_over(),
    {
        if !self.is_tiebreak {
            (self.games_p1 >= 6 || self.games_p2 >= 6) && (if self.games_p1 >= self.games_p2 {
                self.games_p1 - self.games_p2 >= 2
            } else {
                self.games_p2 - self.games_p1 >= 2
            })
        } else {
            let target: u32 = if self.grand_slam && self.is_final_set() {
                10
            } else {
                7
            };
            (self.points_p1 >= target || self.points_p2 >= target) && (if self.points_p1
                >= self.points_p2 {
                self.points_p1 - self.points_p2 >= 2
            } else {
                self.points_p2 - self.points_p1 >= 2
            })
        }
    }

    /// The tennis call for a point count: the plain number inside a
    /// tiebreak, the 0/15/30/40 calls otherwise.
    pub fn point_to_tennis_score(&self, points: u32) -> (r: String)
        ensures
            r@ == (if self.is_tiebreak {
                dec_rep(points as int)
            } else {
                tennis_call_rep(points as int)
            }),
    {
        if self.is_tiebreak {
            u32_string(points)
        } else {
            tennis_call_string(points)
        }
    }

    /// The formatted point score of the current game, server first.
    pub fn format_point_score(&self) -> (r: String)
        ensures
            r@ == point_score_rep(self.server_points(), self.receiver_points(), self.is_tiebreak),
    {
        let sp = if self.server_is_p1 {
            self.points_p1
        } else {
            self.points_p2
        };
        let rp = if self.server_is_p1 {
            self.points_p2
        } else {
            self.points_p1
        };
        point_score_string(sp, rp, self.is_tiebreak)
    }

    /// The formatted game score of the current set, server first.
    pub fn format_game_score(&self) -> (r: String)
        ensures
            r@ == score_pair_rep(self.server_games(), self.receiver_games()),
    {
        let sg = if self.server_is_p1 {
            self.games_p1
        } else {
            self.games_p2
        };
        let rg = if self.server_is_p1 {
            self.games_p2
        } else {
            self.games_p1
        };
        score_pair_string(sg, rg)
    }

    /// The formatted set score of the match, server first.
    pub fn format_set_score(&self) -> (r: String)
        ensures
            r@ == score_pair_rep(self.server_sets(), self.receiver_sets()),
    {
        let ss = if self.server_is_p1 {
            self.sets_p1
        } else {
            self.sets_p2
        };
        let rs = if self.server_is_p1 {
            self.sets_p2
        } else {
            self.sets_p1
        };
        score_pair_string(ss, rs)
    }

    /// Apply the score transition for the point just played. Returns
    /// whether the game and whether the set were closed by it.
    pub fn update_score(&mut self) -> (res: (bool, bool))
        requires
            old(self).games_p1 < u32::MAX,
            old(self).games_p2 < u32::MAX,
            old(self).sets_p1 < u32::MAX,
            old(self).sets_p2 < u32::MAX,
        ensures
            *final(self) == spec_score_update(*old(self)),
            res.0 == old(self).spec_game_completed(),
            res.1 == old(self).spec_set_completed(),
    {
        let mut game_over = false;
        let mut set_over = false;
        if self.is_tiebreak {
            if self.is_set_over() {
                set_over = true;
                game_over = true;
                if self.points_p1 > self.points_p2 {
                    self.games_p1 = self.games_p1 + 1;
                    self.sets_p1 = self.sets_p1 + 1;
                } else {
                    self.games_p2 = self.games_p2 + 1;
                    self.sets_p2 = self.sets_p2 + 1;
                }
                self.is_tiebreak = false;
            }
        } else {
            let a = self.points_p1;
            let b = self.points_p2;
            if (a >= 4 || b >= 4) && (if a >= b {
                a - b >= 2
            } else {
                b - a >= 2
            }) {
                game_over = true;
                if a > b {
                    self.games_p1 = self.games_p1 + 1;
                } else {
                    self.games_p2 = self.games_p2 + 1;
                }
            }
            if self.is_set_over() {
                set_over = true;
                if self.games_p1 > self.games_p2 {
                    self.sets_p1 = self.sets_p1 + 1;
                } else {
                    self.sets_p2 = self.sets_p2 + 1;
                }
            } else if self.games_p1 == 6 && self.games_p2 == 6 {
                self.is_tiebreak = true;
                self.points_p1 = 0;
                self.points_p2 = 0;
                self.tiebreak_server_is_p1 = Some(self.server_is_p1);
                self.tiebreak_points = 0;
            }
        }
        (game_over, set_over)
    }

    /// Record the point just played: apply the score transition and append
    /// a snapshot with the formatted scores and the live probability
    /// estimates. Returns whether the game and whether the set were closed.
    pub fn log_point(&mut self) -> (res: (bool, bool))
        requires
            old(self).games_p1 < u32::MAX,
            old(self).games_p2 < u32::MAX,
            old(self).sets_p1 < u32::MAX,
            old(self).sets_p2 < u32::MAX,
        ensures
            res.0 == old(self).spec_game_completed(),
            res.1 == old(self).spec_set_completed(),
            (TennisMatch { point_log: old(self).point_log, ..*final(self) }) == spec_score_update(
                *old(self),
            ),
            final(self).point_log@.len() == old(self).point_log@.len() + 1,
            final(self).point_log@.drop_last() == old(self).point_log@,
            spec_record_ok(
                final(self).point_log@.last(),
                *old(self),
                spec_score_update(*old(self)),
            ),
    {
        let point_score = self.format_point_score();
        let res = self.update_score();
        let game_score = self.format_game_score();
        let set_score = self.format_set_score();
        let server = if self.server_is_p1 {
            self.player1.name.clone()
        } else {
            self.player2.name.clone()
        };
        let receiver = if self.server_is_p1 {
            self.player2.name.clone()
        } else {
            self.player1.name.clone()
        };
        let rec = PointRecord {
            server,
            receiver,
            point_score,
            game_score,
            set_score,
            match_win_p1: self.calculate_match_win_probability(&self.player1),
            match_win_p2: self.calculate_match_win_probability(&self.player2),
            set_win_p1: self.calculate_set_win_probability(&self.player1),
            set_win_p2: self.calculate_set_win_probability(&self.player2),
            game_win_p1: self.calculate_game_win_probability(&self.player1),
            game_win_p2: self.calculate_game_win_probability(&self.player2),
            next_point_p1: self.calculate_next_point_win_probability(&self.player1),
            next_point_p2: self.calculate_next_point_win_probability(&self.player2),
            ace_prob: self.calculate_ace_probability(),
            tiebreak_prob: self.calculate_tiebreak_probability(),
        };
        self.point_log.push(rec);
        proof {
            assert(self.point_log@.drop_last() =~= old(self).point_log@);
        }
        res
    }
}

} // verus!
