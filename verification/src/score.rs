use vstd::prelude::*;

verus! {

/// Session score: number of stars collected since the current game started.
pub struct Score {
    pub value: u32,
}

impl Score {
    /// A fresh score of zero.
    pub fn new() -> (s: Score)
        ensures
            s.value == 0,
    {
        Score { value: 0 }
    }

    /// Reset to zero; done every time a new game is entered.
    pub fn reset(&mut self)
        ensures
            final(self).value == 0,
    {
        self.value = 0;
    }

    /// Count one collected star.
    pub fn increment(&mut self)
        requires
            old(self).value < u32::MAX,
        ensures
            final(self).value == old(self).value + 1,
    {
        self.value = self.value + 1;
    }

    /// Read the current score.
    pub fn value(&self) -> (v: u32)
        ensures
            v == self.value,
    {
        self.value
    }
}

impl Default for Score {
    fn default() -> (s: Score)
        ensures
            s.value == 0,
    {
        Score { value: 0 }
    }
}

} // verus!
