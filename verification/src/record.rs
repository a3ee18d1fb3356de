//! The record of a move.

use vstd::prelude::*;

verus! {

/// One file moved: where it was, and where it is now.
#[derive(Debug, Clone, PartialEq, Eq)]
pub struct Move {
    pub from: String,
    pub to: String,
}

/// A move as two path texts.
pub struct MoveView {
    pub from: Seq<char>,
    pub to: Seq<char>,
}

impl View for Move {
    type V = MoveView;

    open spec fn view(&self) -> MoveView {
        MoveView { from: self.from@, to: self.to@ }
    }
}

impl DeepView for Move {
    type V = MoveView;

    open spec fn deep_view(&self) -> MoveView {
        self@
    }
}

impl Move {
    /// Records that the file at `from` is now at `to`.
    pub fn new(from: String, to: String) -> (record: Move)
        ensures
            record@ == (MoveView { from: from@, to: to@ }),
    {
        Move { from, to }
    }
}

} // verus!
