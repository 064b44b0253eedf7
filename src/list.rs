use vstd::prelude::*;
use crate::error::DpkError;

verus! {

/// Where the cursor of a list of `n` items goes on `next()`.
pub open spec fn next_cursor(c: Option<usize>, n: nat) -> Option<usize> {
    if n == 0 {
        None
    } else {
        match c {
            None => Some(0usize),
            Some(i) => if i + 1 >= n { Some(0usize) } else { Some((i + 1) as usize) },
        }
    }
}

/// Where the cursor of a list of `n` items goes on `previous()`.
pub open spec fn previous_cursor(c: Option<usize>, n: nat) -> Option<usize> {
    if n == 0 {
        None
    } else {
        match c {
            None => Some((n - 1) as usize),
            Some(i) => if i == 0 || i >= n { Some((n - 1) as usize) } else { Some((i - 1) as usize) },
        }
    }
}

/// Whether a cursor is unset or points at one of `n` items.
pub open spec fn cursor_valid(c: Option<usize>, n: nat) -> bool {
    match c {
        None => true,
        Some(i) => i < n,
    }
}

/// The cursor after `k` consecutive `next()` calls.
pub open spec fn next_n(c: Option<usize>, n: nat, k: nat) -> Option<usize>
    decreases k,
{
    if k == 0 {
        c
    } else {
        next_cursor(next_n(c, n, (k - 1) as nat), n)
    }
}

/// The cursor after a sequence of moves, `true` for `next()` and `false`
/// for `previous()`.
pub open spec fn apply_moves(c: Option<usize>, n: nat, moves: Seq<bool>) -> Option<usize>
    decreases moves.len(),
{
    if moves.len() == 0 {
        c
    } else {
        let before = apply_moves(c, n, moves.drop_last());
        if moves.last() {
            next_cursor(before, n)
        } else {
            previous_cursor(before, n)
        }
    }
}

proof fn lemma_next_n_split(c: Option<usize>, n: nat, a: nat, b: nat)
    ensures
        next_n(c, n, a + b) == next_n(next_n(c, n, a), n, b),
    decreases b,
{
    if b > 0 {
        lemma_next_n_split(c, n, a, (b - 1) as nat);
        assert(a + b - 1 == a + (b - 1) as nat);
    }
}

proof fn lemma_next_n_climb(i: usize, n: nat, k: nat)
    requires
        i + k < n <= usize::MAX,
    ensures
        next_n(Some(i), n, k) == Some((i + k) as usize),
    decreases k,
{
    if k > 0 {
        lemma_next_n_climb(i, n, (k - 1) as nat);
    }
}

/// On a non-empty list every sequence of `next()`/`previous()` calls leaves
/// the cursor on a valid index: set as soon as one move was made, and never
/// out of range when it started valid.
pub proof fn lemma_cursor_stays_in_range(c: Option<usize>, n: nat, moves: Seq<bool>)
    requires
        n > 0,
    ensures
        moves.len() > 0 ==> (apply_moves(c, n, moves) matches Some(j) && j < n),
        cursor_valid(c, n) ==> cursor_valid(apply_moves(c, n, moves), n),
    decreases moves.len(),
{
    if moves.len() > 0 {
        lemma_cursor_stays_in_range(c, n, moves.drop_last());
    }
}

/// On a list of `n` items, `n` consecutive `next()` calls bring a set
/// cursor back to where it started.
pub proof fn lemma_next_full_cycle(i: usize, n: nat)
    requires
        i < n <= usize::MAX,
    ensures
        next_n(Some(i), n, n) == Some(i),
{
    let up = (n - 1 - i) as nat;
    lemma_next_n_split(Some(i), n, up, (i + 1) as nat);
    lemma_next_n_climb(i, n, up);
    assert(up + (i + 1) as nat == n);
    lemma_next_n_split(Some((n - 1) as usize), n, 1, i as nat);
    assert(next_n(Some((n - 1) as usize), n, 0) == Some((n - 1) as usize));
    assert(next_n(Some((n - 1) as usize), n, 1) == Some(0usize));
    lemma_next_n_climb(0, n, i as nat);
}

/// From a set cursor, `previous()` undoes `next()` and `next()` undoes
/// `previous()`.
pub proof fn lemma_previous_next_inverse(i: usize, n: nat)
    requires
        i < n <= usize::MAX,
    ensures
        previous_cursor(next_cursor(Some(i), n), n) == Some(i),
        next_cursor(previous_cursor(Some(i), n), n) == Some(i),
{
}

/// An ordered collection with an optional cursor.
pub struct StatefulList<T> {
    pub items: Vec<T>,
    pub selected: Option<usize>,
}

impl<T> StatefulList<T> {
    /// A list of the given items with no cursor.
    pub fn with_items(items: Vec<T>) -> (r: StatefulList<T>)
        ensures
            r.items@ == items@,
            r.selected is None,
    {
        StatefulList { items, selected: None }
    }

    /// Moves the cursor one item down, wrapping to the first item.
    pub fn next(&mut self)
        ensures
            final(self).items == old(self).items,
            final(self).selected == next_cursor(old(self).selected, old(self).items@.len()),
            old(self).items@.len() > 0 ==> (final(self).selected matches Some(i) && i < old(self).items@.len()),
            old(self).items@.len() == 0 ==> final(self).selected is None,
    {
        let n = self.items.len();
        if n == 0 {
            self.selected = None;
            return;
        }
        let i: usize = match self.selected {
            Some(i) => if i >= n - 1 { 0 } else { i + 1 },
            None => 0,
        };
        self.selected = Some(i);
    }

    /// Moves the cursor one item up, wrapping to the last item.
    pub fn previous(&mut self)
        ensures
            final(self).items == old(self).items,
            final(self).selected == previous_cursor(old(self).selected, old(self).items@.len()),
            old(self).items@.len() > 0 ==> (final(self).selected matches Some(i) && i < old(self).items@.len()),
            old(self).items@.len() == 0 ==> final(self).selected is None,
    {
        let n = self.items.len();
        if n == 0 {
            self.selected = None;
            return;
        }
        let i: usize = match self.selected {
            Some(i) => if i == 0 || i >= n { n - 1 } else { i - 1 },
            None => n - 1,
        };
        self.selected = Some(i);
    }

    /// The item under the cursor; `NoSelection` when the cursor is unset or
    /// no longer points into the list.
    pub fn current_item(&self) -> (r: Result<&T, DpkError>)
        ensures
            r is Ok <==> (self.selected matches Some(i) && i < self.items@.len()),
            r matches Ok(x) ==> *x == self.items@[self.selected.unwrap() as int],
            r is Err ==> r == Err::<&T, DpkError>(DpkError::NoSelection),
    {
        match self.selected {
            Some(i) => if i < self.items.len() { Ok(&self.items[i]) } else { Err(DpkError::NoSelection) },
            None => Err(DpkError::NoSelection),
        }
    }
}

} // verus!
