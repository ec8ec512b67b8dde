//! Live win-probability estimates: pure functions of the current match
//! state, each clamped to its documented range. All values are in
//! thousandths.

use vstd::prelude::*;
use crate::player::{Player, PROB_ONE};
use crate::scoring::TennisMatch;

verus! {

/// The largest ace probability the model will report: 0.3.
pub const ACE_PROB_MAX: u32 = 300;

/// Clamp to [0, 1].
pub open spec fn clamp_unit(v: int) -> int {
    if v < 0 {
        0
    } else if v > PROB_ONE {
        PROB_ONE as int
    } else {
        v
    }
}

/// Clamp to [0, 0.3].
pub open spec fn clamp_ace(v: int) -> int {
    if v < 0 {
        0
    } else if v > ACE_PROB_MAX {
        ACE_PROB_MAX as int
    } else {
        v
    }
}

/// The capped momentum bonus: one hundredth per consecutive point, at most
/// five hundredths.
pub open spec fn spec_momentum(consecutive: int) -> int {
    if 10 * consecutive > 50 {
        50
    } else {
        10 * consecutive
    }
}

impl TennisMatch {
    /// The named player takes part in this match. Asking for anyone else's
    /// stats is a programming error, so the estimators require this.
    pub open spec fn is_participant(self, name: Seq<char>) -> bool {
        name == self.player1.name@ || name == self.player2.name@
    }

    /// The named player stands at the first position.
    pub open spec fn name_is_p1(self, name: Seq<char>) -> bool {
        name == self.player1.name@
    }

    /// The named player is the one serving.
    pub open spec fn name_is_server(self, name: Seq<char>) -> bool {
        name == self.server_name()
    }

    /// The serving player's serve-win probability.
    pub open spec fn server_serve_prob(self) -> int {
        if self.server_is_p1 {
            self.player1.serve_win_prob as int
        } else {
            self.player2.serve_win_prob as int
        }
    }

    /// Chance that the given side wins the match: one half, shifted by a
    /// tenth per set of lead and a hundredth per game of lead.
    pub open spec fn spec_match_win(self, is_p1: bool) -> int {
        let set_lead = if is_p1 {
            self.sets_p1 - self.sets_p2
        } else {
            self.sets_p2 - self.sets_p1
        };
        let game_lead = if is_p1 {
            self.games_p1 - self.games_p2
        } else {
            self.games_p2 - self.games_p1
        };
        clamp_unit(500 + 100 * set_lead + 10 * game_lead)
    }

    /// Chance that the given side wins the set: one half, shifted by five
    /// hundredths per game of lead.
    pub open spec fn spec_set_win(self, is_p1: bool) -> int {
        let game_lead = if is_p1 {
            self.games_p1 - self.games_p2
        } else {
            self.games_p2 - self.games_p1
        };
        clamp_unit(500 + 50 * game_lead)
    }

    /// Chance that the given side wins the current game: the server's
    /// serve-win probability (or its complement for the receiver), shifted
    /// by five hundredths per point of lead.
    pub open spec fn spec_game_win(self, is_p1: bool, is_server: bool) -> int {
        let base = if is_server {
            self.server_serve_prob()
        } else {
            PROB_ONE - self.server_serve_prob()
        };
        let point_lead = if is_p1 {
            self.points_p1 - self.points_p2
        } else {
            self.points_p2 - self.points_p1
        };
        clamp_unit(base + 50 * point_lead)
    }

    /// Chance that the given side wins the next point: serve base, a score
    /// shift of two hundredths per point of first-position lead (sign set
    /// by who serves), capped momentum for the winner of the last point,
    /// and three-hundredths nudges for a recent ace or double fault.
    pub open spec fn spec_next_point_win(self, is_p1: bool, is_server: bool) -> int {
        let base = if is_server {
            self.server_serve_prob()
        } else {
            PROB_ONE - self.server_serve_prob()
        };
        let score_diff = self.points_p1 - self.points_p2;
        let score_adj = if is_server {
            20 * score_diff
        } else {
            -20 * score_diff
        };
        let momentum = if self.last_point_winner == Some(is_p1) {
            spec_momentum(self.consecutive_points as int)
        } else if self.last_point_winner is Some {
            -spec_momentum(self.consecutive_points as int)
        } else {
            0
        };
        let aces = if is_p1 {
            self.game_aces_p1
        } else {
            self.game_aces_p2
        };
        let dfs = if is_p1 {
            self.game_dfs_p1
        } else {
            self.game_dfs_p2
        };
        let ace_adj: int = if aces > 0 {
            30
        } else {
            0
        };
        let df_adj: int = if dfs > 0 {
            -30
        } else {
            0
        };
        clamp_unit(base + score_adj + momentum + ace_adj + df_adj)
    }

    /// Chance that the next serve is an ace: the server's ace probability,
    /// shifted by a hundredth per point of first-position lead, a small
    /// capped momentum bonus when the server won the last point, and two
    /// hundredths after an ace; at most 0.3.
    pub open spec fn spec_ace_prob(self) -> int {
        let base = if self.server_is_p1 {
            self.player1.ace_prob as int
        } else {
            self.player2.ace_prob as int
        };
        let score_adj = 10 * (self.points_p1 - self.points_p2);
        let momentum = if self.last_point_winner == Some(self.server_is_p1) {
            if 5 * self.consecutive_points > 20 {
                20
            } else {
                5 * self.consecutive_points
            }
        } else {
            0
        };
        let ace_adj: int = if self.last_point_ace {
            20
        } else {
            0
        };
        clamp_ace(base + score_adj + momentum + ace_adj)
    }

    /// Chance that the set reaches a tiebreak, a step function of the games
    /// played so far in it.
    pub open spec fn spec_tiebreak_prob(self) -> int {
        let s = self.games_p1 + self.games_p2;
        if s <= 9 {
            100
        } else if s == 10 {
            200
        } else if s == 11 {
            500
        } else {
            1000
        }
    }
}

/// Clamp a signed value to [0, 1] in thousandths.
fn clamp_unit_exec(v: i64) -> (r: u32)
    ensures
        r as int == clamp_unit(v as int),
{
    if v < 0 {
        0
    } else if v > PROB_ONE as i64 {
        PROB_ONE
    } else {
        v as u32
    }
}

/// Clamp a signed value to [0, 0.3] in thousandths.
fn clamp_ace_exec(v: i64) -> (r: u32)
    ensures
        r as int == clamp_ace(v as int),
{
    if v < 0 {
        0
    } else if v > ACE_PROB_MAX as i64 {
        ACE_PROB_MAX
    } else {
        v as u32
    }
}

impl TennisMatch {
    /// The named player stands at the first position.
    fn player_is_p1(&self, player: &Player) -> (r: bool)
        ensures
            r == self.name_is_p1(player.name@),
    {
        player.name == self.player1.name
    }

    /// The named player is the one serving.
    fn player_is_server(&self, player: &Player) -> (r: bool)
        ensures
            r == self.name_is_server(player.name@),
    {
        if self.server_is_p1 {
            player.name == self.player1.name
        } else {
            player.name == self.player2.name
        }
    }

    /// Live chance that the player wins the match.
    pub fn calculate_match_win_probability(&self, player: &Player) -> (r: u32)
        requires
            self.is_participant(player.name@),
        ensures
            r as int == self.spec_match_win(self.name_is_p1(player.name@)),
    {
        let is_p1 = self.player_is_p1(player);
        let set_lead: i64 = if is_p1 {
            self.sets_p1 as i64 - self.sets_p2 as i64
        } else {
            self.sets_p2 as i64 - self.sets_p1 as i64
        };
        let game_lead: i64 = if is_p1 {
            self.games_p1 as i64 - self.games_p2 as i64
        } else {
            self.games_p2 as i64 - self.games_p1 as i64
        };
        clamp_unit_exec(500 + 100 * set_lead + 10 * game_lead)
    }

    /// Live chance that the player wins the current set.
    pub fn calculate_set_win_probability(&self, player: &Player) -> (r: u32)
        requires
            self.is_participant(player.name@),
        ensures
            r as int == self.spec_set_win(self.name_is_p1(player.name@)),
    {
        let is_p1 = self.player_is_p1(player);
        let game_lead: i64 = if is_p1 {
            self.games_p1 as i64 - self.games_p2 as i64
        } else {
            self.games_p2 as i64 - self.games_p1 as i64
        };
        clamp_unit_exec(500 + 50 * game_lead)
    }

    /// Live chance that the player wins the current game.
    pub fn calculate_game_win_probability(&self, player: &Player) -> (r: u32)
        requires
            self.is_participant(player.name@),
        ensures
            r as int == self.spec_game_win(
                self.name_is_p1(player.name@),
                self.name_is_server(player.name@),
            ),
    {
        let is_p1 = self.player_is_p1(player);
        let is_server = self.player_is_server(player);
        let serve_prob: i64 = if self.server_is_p1 {
            self.player1.serve_win_prob as i64
        } else {
            self.player2.serve_win_prob as i64
        };
        let base: i64 = if is_server {
            serve_prob
        } else {
            PROB_ONE as i64 - serve_prob
        };
        let point_lead: i64 = if is_p1 {
            self.points_p1 as i64 - self.points_p2 as i64
        } else {
            self.points_p2 as i64 - self.points_p1 as i64
        };
        clamp_unit_exec(base + 50 * point_lead)
    }

    /// Live chance that the player wins the next point.
    pub fn calculate_next_point_win_probability(&self, player: &Player) -> (r: u32)
        requires
            self.is_participant(player.name@),
        ensures
            r as int == self.spec_next_point_win(
                self.name_is_p1(player.name@),
                self.name_is_server(player.name@),
            ),
    {
        let is_p1 = self.player_is_p1(player);
        let is_server = self.player_is_server(player);
        let serve_prob: i64 = if self.server_is_p1 {
            self.player1.serve_win_prob as i64
        } else {
            self.player2.serve_win_prob as i64
        };
        let base: i64 = if is_server {
            serve_prob
        } else {
            PROB_ONE as i64 - serve_prob
        };
        let score_diff: i64 = self.points_p1 as i64 - self.points_p2 as i64;
        let score_shift: i64 = 20 * score_diff;
        let score_adj: i64 = if is_server {
            score_shift
        } else {
            -score_shift
        };
        let capped: i64 = if 10 * self.consecutive_points as i64 > 50 {
            50
        } else {
            10 * self.consecutive_points as i64
        };
        let momentum: i64 = match self.last_point_winner {
            Some(w) => if w == is_p1 {
                capped
            } else {
                -capped
            },
            None => 0,
        };
        let aces = if is_p1 {
            self.game_aces_p1
        } else {
            self.game_aces_p2
        };
        let dfs = if is_p1 {
            self.game_dfs_p1
        } else {
            self.game_dfs_p2
        };
        let ace_adj: i64 = if aces > 0 {
            30
        } else {
            0
        };
        let df_adj: i64 = if dfs > 0 {
            -30
        } else {
            0
        };
        clamp_unit_exec(base + score_adj + momentum + ace_adj + df_adj)
    }

    /// Live chance that the next serve is an ace.
    pub fn calculate_ace_probability(&self) -> (r: u32)
        ensures
            r as int == self.spec_ace_prob(),
    {
        let base: i64 = if self.server_is_p1 {
            self.player1.ace_prob as i64
        } else {
            self.player2.ace_prob as i64
        };
        let score_adj: i64 = 10 * (self.points_p1 as i64 - self.points_p2 as i64);
        let momentum: i64 = match self.last_point_winner {
            Some(w) => if w == self.server_is_p1 {
                if 5 * self.consecutive_points as i64 > 20 {
                    20
                } else {
                    5 * self.consecutive_points as i64
                }
            } else {
                0
            },
            None => 0,
        };
        let ace_adj: i64 = if self.last_point_ace {
            20
        } else {
            0
        };
        clamp_ace_exec(base + score_adj + momentum + ace_adj)
    }

    /// Live chance that the current set reaches a tiebreak.
    pub fn calculate_tiebreak_probability(&self) -> (r: u32)
        ensures
            r as int == self.spec_tiebreak_prob(),
    {
        let s: u64 = self.games_p1 as u64 + self.games_p2 as u64;
        if s <= 9 {
            100
        } else if s == 10 {
            200
        } else if s == 11 {
            500
        } else {
            1000
        }
    }
}

/// Every estimate of the model stays within its documented bounds, whatever
/// the score: match, set, game and next-point chances lie in [0, 1], the
/// ace chance in [0, 0.3], and the tiebreak chance in [0.1, 1].
pub proof fn lemma_probability_bounds(m: TennisMatch, is_p1: bool, is_server: bool)
    ensures
        0 <= m.spec_match_win(is_p1) <= 1000,
        0 <= m.spec_set_win(is_p1) <= 1000,
        0 <= m.spec_game_win(is_p1, is_server) <= 1000,
        0 <= m.spec_next_point_win(is_p1, is_server) <= 1000,
        0 <= m.spec_ace_prob() <= 300,
        100 <= m.spec_tiebreak_prob() <= 1000,
{
}

/// The tiebreak estimate is exactly 0.1, 0.2, 0.5 and 1.0 at games sums of
/// nine, ten, eleven and twelve.
pub proof fn lemma_tiebreak_probability_steps(m: TennisMatch)
    ensures
        m.games_p1 + m.games_p2 == 9 ==> m.spec_tiebreak_prob() == 100,
        m.games_p1 + m.games_p2 == 10 ==> m.spec_tiebreak_prob() == 200,
        m.games_p1 + m.games_p2 == 11 ==> m.spec_tiebreak_prob() == 500,
        m.games_p1 + m.games_p2 >= 12 ==> m.spec_tiebreak_prob() == 1000,
{
}

} // verus!
