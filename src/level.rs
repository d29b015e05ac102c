use vstd::prelude::*;

verus! {

/// The level driven on an output pin.
#[derive(Clone, Copy, Debug, PartialEq, Eq, Structural)]
pub enum Level {
    Low,
    High,
}

impl Level {
    /// The opposite level.
    pub open spec fn not(self) -> Level {
        match self {
            Level::Low => Level::High,
            Level::High => Level::Low,
        }
    }

    pub fn toggled(self) -> (r: Level)
        ensures
            r == self.not(),
    {
        match self {
            Level::Low => Level::High,
            Level::High => Level::Low,
        }
    }

    pub fn is_high(self) -> (r: bool)
        ensures
            r == (self == Level::High),
    {
        match self {
            Level::Low => false,
            Level::High => true,
        }
    }
}

/// The level reached from `l` after `n` toggles, one at a time.
pub open spec fn level_after(l: Level, n: nat) -> Level
    decreases n,
{
    if n == 0 {
        l
    } else {
        level_after(l, (n - 1) as nat).not()
    }
}

/// Toggling a level `n` times gives the start level back when `n` is even,
/// and the opposite level when `n` is odd.
pub proof fn lemma_level_after_parity(l: Level, n: nat)
    ensures
        level_after(l, n) == (if n % 2 == 0 { l } else { l.not() }),
    decreases n,
{
    if n > 0 {
        lemma_level_after_parity(l, (n - 1) as nat);
    }
}

} // verus!
