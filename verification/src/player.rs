//! A player's immutable skill profile.

use vstd::prelude::*;

verus! {

/// One unit of probability: probabilities are integers in thousandths, so
/// `PROB_ONE` stands for a probability of 1.0.
pub const PROB_ONE: u32 = 1000;

/// An immutable per-point skill profile. The name identifies the player
/// within a match; the three probabilities are in thousandths and must not
/// exceed `PROB_ONE`.
pub struct Player {
    pub name: String,
    pub serve_win_prob: u32,
    pub ace_prob: u32,
    pub double_fault_prob: u32,
}

impl Player {
    /// All probability fields lie in [0, 1].
    pub open spec fn wf(self) -> bool {
        self.serve_win_prob <= PROB_ONE
            && self.ace_prob <= PROB_ONE
            && self.double_fault_prob <= PROB_ONE
    }

    /// Executable check of `wf`, for callers that receive a profile from
    /// outside and must reject an invalid one.
    pub fn valid(&self) -> (r: bool)
        ensures
            r == self.wf(),
    {
        self.serve_win_prob <= PROB_ONE && self.ace_prob <= PROB_ONE
            && self.double_fault_prob <= PROB_ONE
    }
}

impl Clone for Player {
    fn clone(&self) -> (res: Self)
        ensures
            res == *self,
    {
        Player {
            name: self.name.clone(),
            serve_win_prob: self.serve_win_prob,
            ace_prob: self.ace_prob,
            double_fault_prob: self.double_fault_prob,
        }
    }
}

} // verus!
