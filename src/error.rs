use vstd::prelude::*;

verus! {

/// What the session refuses, and why.
#[derive(Clone, Copy, Debug, PartialEq, Eq)]
pub enum DpkError {
    /// Four players are in already.
    RosterFull,
    /// The name is empty or already taken.
    DuplicateName,
    /// A list was read with no cursor on an item.
    NoSelection,
    /// A round was closed with fewer than four players.
    IncompleteRoster,
}

} // verus!
