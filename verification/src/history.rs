//! The place of the prompt while history is browsed.

use vstd::prelude::*;

verus! {

/// State for where the prompt is in history browse mode
#[derive(Debug, Clone, Copy, PartialEq, Eq, Structural)]
pub enum HistoryInd {
    /// Brand new prompt
    Prompt,
    /// In history line
    Line(usize),
}

impl HistoryInd {
    /// Whether going up is defined in a history of `limit` lines: a prompt that shows a line
    /// needs a history with a line in it.
    pub open spec fn can_go_up(self, limit: usize) -> bool {
        self matches HistoryInd::Line(i) ==> i < usize::MAX && limit > 0
    }

    /// One line up in a history of `limit` lines: into history from the prompt, and no
    /// further than the oldest line.
    pub open spec fn older(self, limit: usize) -> HistoryInd {
        match self {
            HistoryInd::Prompt => if limit == 0 {
                HistoryInd::Prompt
            } else {
                HistoryInd::Line(0)
            },
            HistoryInd::Line(i) => if i + 1 < limit {
                HistoryInd::Line((i + 1) as usize)
            } else {
                HistoryInd::Line((limit - 1) as usize)
            },
        }
    }

    /// One line down: back to the prompt from the most recent line.
    pub open spec fn newer(self) -> HistoryInd {
        match self {
            HistoryInd::Prompt => HistoryInd::Prompt,
            HistoryInd::Line(i) => if i == 0 {
                HistoryInd::Prompt
            } else {
                HistoryInd::Line((i - 1) as usize)
            },
        }
    }

    /// Whether a history of `limit` lines has the line that is shown.
    pub open spec fn is_within(self, limit: usize) -> bool {
        self matches HistoryInd::Line(i) ==> i < limit
    }

    /// Go up (less recent) in history, if in prompt mode, then enter history
    pub fn up(&self, limit: usize) -> (ind: HistoryInd)
        requires
            self.can_go_up(limit),
        ensures
            ind == self.older(limit),
    {
        match self {
            HistoryInd::Prompt => {
                if limit == 0 {
                    HistoryInd::Prompt
                } else {
                    HistoryInd::Line(0)
                }
            },
            HistoryInd::Line(i) => {
                if *i + 1 < limit - 1 {
                    HistoryInd::Line(*i + 1)
                } else {
                    HistoryInd::Line(limit - 1)
                }
            },
        }
    }

    /// Whether [`HistoryInd::up`] is defined.
    pub fn has_up(&self, limit: usize) -> (b: bool)
        ensures
            b == self.can_go_up(limit),
    {
        match self {
            HistoryInd::Prompt => true,
            HistoryInd::Line(i) => *i < usize::MAX && limit > 0,
        }
    }

    /// Go down (more recent) in history, if in most recent history line, enter prompt mode
    pub fn down(&self) -> (ind: HistoryInd)
        ensures
            ind == self.newer(),
    {
        match self {
            HistoryInd::Prompt => HistoryInd::Prompt,
            HistoryInd::Line(i) => {
                if *i == 0 {
                    HistoryInd::Prompt
                } else {
                    HistoryInd::Line((*i).saturating_sub(1))
                }
            },
        }
    }
}

/// `n` lines up.
pub open spec fn older_by(ind: HistoryInd, limit: usize, n: nat) -> HistoryInd
    decreases n,
{
    if n == 0 {
        ind
    } else {
        older_by(ind, limit, (n - 1) as nat).older(limit)
    }
}

/// `n` lines down.
pub open spec fn newer_by(ind: HistoryInd, n: nat) -> HistoryInd
    decreases n,
{
    if n == 0 {
        ind
    } else {
        newer_by(ind, (n - 1) as nat).newer()
    }
}

/// Going up or down never leaves the history.
pub proof fn browsing_stays_within(ind: HistoryInd, limit: usize)
    requires
        ind.is_within(limit),
    ensures
        ind.can_go_up(limit),
        ind.older(limit).is_within(limit),
        ind.newer().is_within(limit),
{
}

/// Going up from the prompt `n` times shows line `n - 1`, and stops at the oldest line.
pub proof fn up_from_prompt(limit: usize, n: nat)
    requires
        limit > 0,
        n > 0,
    ensures
        older_by(HistoryInd::Prompt, limit, n) == if n <= limit {
            HistoryInd::Line((n - 1) as usize)
        } else {
            HistoryInd::Line((limit - 1) as usize)
        },
    decreases n,
{
    reveal_with_fuel(older_by, 2);
    if n > 1 {
        up_from_prompt(limit, (n - 1) as nat);
    }
}

/// Going down from a line as often as it takes always ends at the prompt, and then stays.
pub proof fn down_reaches_prompt(i: usize, n: nat)
    ensures
        newer_by(HistoryInd::Line(i), n) == if n <= i {
            HistoryInd::Line((i - n) as usize)
        } else {
            HistoryInd::Prompt
        },
    decreases n,
{
    if n > 0 {
        down_reaches_prompt(i, (n - 1) as nat);
    }
}

/// Down undoes up, as long as up has not stopped at the oldest line.
pub proof fn down_undoes_up(ind: HistoryInd, limit: usize)
    requires
        ind.is_within(limit),
        ind != HistoryInd::Line((limit - 1) as usize),
    ensures
        ind.older(limit).newer() == ind,
{
}

/// An empty history cannot be entered.
pub proof fn empty_history_stays_at_prompt(n: nat)
    ensures
        older_by(HistoryInd::Prompt, 0, n) == HistoryInd::Prompt,
    decreases n,
{
    if n > 0 {
        empty_history_stays_at_prompt((n - 1) as nat);
    }
}

} // verus!
