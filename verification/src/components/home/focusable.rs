//! The parts of the home screen that can hold the focus.

use vstd::prelude::*;

verus! {

/// A part of the home screen that can hold the focus, in the order in
/// which the focus cycles.
#[derive(Debug, Clone, Copy, PartialEq, Eq, Structural)]
pub enum Focusable {
    Usage,
    Search,
    Sort,
    Scope,
    Results,
    DocsButton,
    RepositoryButton,
    CratesIoButton,
    LibRsButton,
}

impl Focusable {
    /// The number of parts.
    pub const COUNT: usize = 9;

    /// The position of the part in the cycle.
    pub open spec fn spec_index(self) -> int {
        match self {
            Focusable::Usage => 0,
            Focusable::Search => 1,
            Focusable::Sort => 2,
            Focusable::Scope => 3,
            Focusable::Results => 4,
            Focusable::DocsButton => 5,
            Focusable::RepositoryButton => 6,
            Focusable::CratesIoButton => 7,
            Focusable::LibRsButton => 8,
        }
    }

    /// The part at position `ix` of the cycle, positions taken modulo the
    /// number of parts.
    pub open spec fn at(ix: int) -> Focusable {
        let k = ix % 9;
        if k == 0 {
            Focusable::Usage
        } else if k == 1 {
            Focusable::Search
        } else if k == 2 {
            Focusable::Sort
        } else if k == 3 {
            Focusable::Scope
        } else if k == 4 {
            Focusable::Results
        } else if k == 5 {
            Focusable::DocsButton
        } else if k == 6 {
            Focusable::RepositoryButton
        } else if k == 7 {
            Focusable::CratesIoButton
        } else {
            Focusable::LibRsButton
        }
    }

    /// Whether the part is one of the buttons of the details pane.
    pub open spec fn is_details(self) -> bool {
        self == Focusable::DocsButton || self == Focusable::RepositoryButton || self
            == Focusable::CratesIoButton || self == Focusable::LibRsButton
    }

    /// The part after this one; the first follows the last.
    pub fn next(&self) -> (r: Focusable)
        ensures
            r == Focusable::at(self.spec_index() + 1),
    {
        match self {
            Focusable::Usage => Focusable::Search,
            Focusable::Search => Focusable::Sort,
            Focusable::Sort => Focusable::Scope,
            Focusable::Scope => Focusable::Results,
            Focusable::Results => Focusable::DocsButton,
            Focusable::DocsButton => Focusable::RepositoryButton,
            Focusable::RepositoryButton => Focusable::CratesIoButton,
            Focusable::CratesIoButton => Focusable::LibRsButton,
            Focusable::LibRsButton => Focusable::Usage,
        }
    }

    /// The part before this one; the last precedes the first.
    pub fn prev(&self) -> (r: Focusable)
        ensures
            r == Focusable::at(self.spec_index() + 8),
    {
        match self {
            Focusable::Usage => Focusable::LibRsButton,
            Focusable::Search => Focusable::Usage,
            Focusable::Sort => Focusable::Search,
            Focusable::Scope => Focusable::Sort,
            Focusable::Results => Focusable::Scope,
            Focusable::DocsButton => Focusable::Results,
            Focusable::RepositoryButton => Focusable::DocsButton,
            Focusable::CratesIoButton => Focusable::RepositoryButton,
            Focusable::LibRsButton => Focusable::CratesIoButton,
        }
    }

    /// `next` and `prev` undo each other, and nine steps in one direction
    /// lead back to the start.
    pub proof fn lemma_cycle(self)
        ensures
            Focusable::at(self.spec_index()) == self,
            Focusable::at(Focusable::at(self.spec_index() + 1).spec_index() + 8) == self,
            Focusable::at(Focusable::at(self.spec_index() + 8).spec_index() + 1) == self,
            Focusable::at(self.spec_index() + 9) == self,
    {
    }
}

impl Default for Focusable {
    fn default() -> (r: Focusable)
        ensures
            r == Focusable::Search,
    {
        Focusable::Search
    }
}

/// Whether the focus is on the result list or on a button of the details
/// pane.
pub fn is_results_or_details_focused(focused: &Focusable) -> (r: bool)
    ensures
        r == (*focused == Focusable::Results || focused.is_details()),
{
    *focused == Focusable::Results || *focused == Focusable::DocsButton || *focused
        == Focusable::RepositoryButton || *focused == Focusable::CratesIoButton || *focused
        == Focusable::LibRsButton
}

} // verus!
