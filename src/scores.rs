use vstd::prelude::*;
use crate::config::Difficulty;

verus! {

/// The best score reached at each difficulty.
#[derive(Clone, Copy, Debug, PartialEq, Eq, Structural)]
pub struct HighScores {
    pub easy: i32,
    pub medium: i32,
    pub hard: i32,
    pub extreme: i32,
}

impl Default for HighScores {
    /// No score yet at any difficulty.
    fn default() -> (r: HighScores)
        ensures
            r == (HighScores { easy: 0, medium: 0, hard: 0, extreme: 0 }),
    {
        HighScores { easy: 0, medium: 0, hard: 0, extreme: 0 }
    }
}

impl HighScores {
    pub open spec fn best(&self, d: Difficulty) -> i32 {
        match d {
            Difficulty::Easy => self.easy,
            Difficulty::Medium => self.medium,
            Difficulty::Hard => self.hard,
            Difficulty::Extreme => self.extreme,
        }
    }

    /// The record with the best of `d` replaced by `score`.
    pub open spec fn with_best(&self, d: Difficulty, score: i32) -> HighScores {
        match d {
            Difficulty::Easy => HighScores { easy: score, ..*self },
            Difficulty::Medium => HighScores { medium: score, ..*self },
            Difficulty::Hard => HighScores { hard: score, ..*self },
            Difficulty::Extreme => HighScores { extreme: score, ..*self },
        }
    }

    /// The record after offering `score` as a new best for `d`.
    pub open spec fn offered(&self, d: Difficulty, score: i32) -> HighScores {
        if score > self.best(d) {
            self.with_best(d, score)
        } else {
            *self
        }
    }

    pub fn get(&self, difficulty: Difficulty) -> (r: i32)
        ensures
            r == self.best(difficulty),
    {
        match difficulty {
            Difficulty::Easy => self.easy,
            Difficulty::Medium => self.medium,
            Difficulty::Hard => self.hard,
            Difficulty::Extreme => self.extreme,
        }
    }

    /// Records `score` for `difficulty` if it beats the stored best; returns
    /// whether it did, which is when the record needs saving.
    pub fn update(&mut self, difficulty: Difficulty, score: i32) -> (r: bool)
        ensures
            r == (score > old(self).best(difficulty)),
            *final(self) == old(self).offered(difficulty, score),
    {
        let current_high = self.get(difficulty);
        if score > current_high {
            match difficulty {
                Difficulty::Easy => self.easy = score,
                Difficulty::Medium => self.medium = score,
                Difficulty::Hard => self.hard = score,
                Difficulty::Extreme => self.extreme = score,
            }
            true
        } else {
            false
        }
    }
}

} // verus!
