//! The three top-level screens and the cyclic order between them.

use vstd::prelude::*;

verus! {

/// One of the three mutually exclusive screens of the switcher.
#[derive(Clone, Copy, Debug, PartialEq, Eq, Structural)]
pub enum ActiveScreen {
    /// Create a new session.
    New,
    /// Attach to a running session.
    Attach,
    /// Resurrect a session that was closed.
    Resurrect,
}

impl ActiveScreen {
    /// The screen that follows `self`: New, Attach, Resurrect, and New again.
    pub open spec fn next(self) -> ActiveScreen {
        match self {
            ActiveScreen::New => ActiveScreen::Attach,
            ActiveScreen::Attach => ActiveScreen::Resurrect,
            ActiveScreen::Resurrect => ActiveScreen::New,
        }
    }

    /// The screen that precedes `self` in the same cycle.
    pub open spec fn prev(self) -> ActiveScreen {
        match self {
            ActiveScreen::New => ActiveScreen::Resurrect,
            ActiveScreen::Attach => ActiveScreen::New,
            ActiveScreen::Resurrect => ActiveScreen::Attach,
        }
    }

    /// The screen shown first: the creation screen in standalone
    /// presentation, the attach screen otherwise.
    pub open spec fn initial(standalone: bool) -> ActiveScreen {
        if standalone {
            ActiveScreen::New
        } else {
            ActiveScreen::Attach
        }
    }

    /// Moves one step forward in the cycle.
    pub fn toggle_forward(self) -> (res: ActiveScreen)
        ensures
            res == self.next(),
    {
        match self {
            ActiveScreen::New => ActiveScreen::Attach,
            ActiveScreen::Attach => ActiveScreen::Resurrect,
            ActiveScreen::Resurrect => ActiveScreen::New,
        }
    }

    /// Moves one step backward in the cycle.
    pub fn toggle_backward(self) -> (res: ActiveScreen)
        ensures
            res == self.prev(),
    {
        match self {
            ActiveScreen::New => ActiveScreen::Resurrect,
            ActiveScreen::Attach => ActiveScreen::New,
            ActiveScreen::Resurrect => ActiveScreen::Attach,
        }
    }
}

impl Default for ActiveScreen {
    fn default() -> (res: ActiveScreen)
        ensures
            res == ActiveScreen::Attach,
    {
        ActiveScreen::Attach
    }
}

/// Three steps forward lead back to the start, and so do three steps
/// backward.
pub proof fn lemma_cycle_has_period_three(s: ActiveScreen)
    ensures
        s.next().next().next() == s,
        s.prev().prev().prev() == s,
{
}

/// A step backward undoes a step forward, and the other way round.
pub proof fn lemma_forward_backward_inverse(s: ActiveScreen)
    ensures
        s.next().prev() == s,
        s.prev().next() == s,
{
}

/// One step backward is the same as two steps forward.
pub proof fn lemma_backward_is_two_forward(s: ActiveScreen)
    ensures
        s.prev() == s.next().next(),
{
}

/// Four steps forward from the creation screen lead to the attach screen,
/// one step past a full turn; one step backward leads to the resurrect
/// screen.
pub proof fn lemma_cycle_from_new()
    ensures
        ActiveScreen::New.next().next().next() == ActiveScreen::New,
        ActiveScreen::New.next().next().next().next() == ActiveScreen::Attach,
        ActiveScreen::New.prev() == ActiveScreen::Resurrect,
{
}

} // verus!
