use vstd::prelude::*;

verus! {

/// The cursor after moving forward in a list of `n` items: nothing selected
/// goes to the first item, the last item wraps to the first, and an empty
/// list keeps no selection.
pub open spec fn next_cursor(c: Option<usize>, n: nat) -> Option<usize> {
    if n == 0 {
        None
    } else {
        match c {
            None => Some(0usize),
            Some(i) => if i + 1 >= n { Some(0usize) } else { Some((i + 1) as usize) },
        }
    }
}

/// The cursor after moving backward in a list of `n` items: nothing selected
/// goes to the first item, the first item wraps to the last, and an empty
/// list keeps no selection.
pub open spec fn previous_cursor(c: Option<usize>, n: nat) -> Option<usize> {
    if n == 0 {
        None
    } else {
        match c {
            None => Some(0usize),
            Some(i) => if i == 0 || i >= n { Some((n - 1) as usize) } else { Some((i - 1) as usize) },
        }
    }
}

/// `k` forward moves in a row.
pub open spec fn next_cursor_times(c: Option<usize>, n: nat, k: nat) -> Option<usize>
    decreases k,
{
    if k == 0 {
        c
    } else {
        next_cursor(next_cursor_times(c, n, (k - 1) as nat), n)
    }
}

/// `k` backward moves in a row.
pub open spec fn previous_cursor_times(c: Option<usize>, n: nat, k: nat) -> Option<usize>
    decreases k,
{
    if k == 0 {
        c
    } else {
        previous_cursor(previous_cursor_times(c, n, (k - 1) as nat), n)
    }
}

/// A cursor that is either absent or a valid index into `n` items.
pub open spec fn cursor_in_range(c: Option<usize>, n: nat) -> bool {
    match c {
        None => true,
        Some(i) => i < n,
    }
}

/// Moves add up: `a` moves followed by `b` moves are `a + b` moves.
proof fn lemma_next_times_add(c: Option<usize>, n: nat, a: nat, b: nat)
    ensures
        next_cursor_times(next_cursor_times(c, n, a), n, b) == next_cursor_times(c, n, a + b),
    decreases b,
{
    if b > 0 {
        lemma_next_times_add(c, n, a, (b - 1) as nat);
        assert((a + b - 1) as nat == a + (b - 1) as nat);
    }
}

proof fn lemma_previous_times_add(c: Option<usize>, n: nat, a: nat, b: nat)
    ensures
        previous_cursor_times(previous_cursor_times(c, n, a), n, b) == previous_cursor_times(
            c,
            n,
            a + b,
        ),
    decreases b,
{
    if b > 0 {
        lemma_previous_times_add(c, n, a, (b - 1) as nat);
        assert((a + b - 1) as nat == a + (b - 1) as nat);
    }
}

/// Forward moves that do not reach the end advance the cursor one by one.
proof fn lemma_next_times_straight(i: usize, n: nat, k: nat)
    requires
        i + k < n <= usize::MAX,
    ensures
        next_cursor_times(Some(i), n, k) == Some((i + k) as usize),
    decreases k,
{
    if k > 0 {
        lemma_next_times_straight(i, n, (k - 1) as nat);
    }
}

/// Backward moves that do not pass the start step the cursor back one by one.
proof fn lemma_previous_times_straight(i: usize, n: nat, k: nat)
    requires
        i < n <= usize::MAX,
        k <= i,
    ensures
        previous_cursor_times(Some(i), n, k) == Some((i - k) as usize),
    decreases k,
{
    if k > 0 {
        lemma_previous_times_straight(i, n, (k - 1) as nat);
    }
}

proof fn lemma_next_returns(n: nat, i: usize)
    requires
        0 < n <= usize::MAX,
        i < n,
    ensures
        next_cursor_times(Some(i), n, n) == Some(i),
{
    let k = (n - 1 - i) as nat;
    lemma_next_times_straight(i, n, k);
    assert(next_cursor_times(Some(i), n, k + 1) == Some(0usize));
    lemma_next_times_straight(0, n, i as nat);
    lemma_next_times_add(Some(i), n, k + 1, i as nat);
    assert(k + 1 + i == n);
}

/// Moving forward as many times as the list is long brings a selected cursor
/// back to where it was; from no selection, one move more than that ends on
/// the first item, and exactly that many moves end on the last one.
pub proof fn lemma_next_is_cyclic(n: nat, i: usize)
    requires
        0 < n <= usize::MAX,
        i < n,
    ensures
        next_cursor_times(Some(i), n, n) == Some(i),
        next_cursor_times(None, n, n + 1) == Some(0usize),
        next_cursor_times(None, n, n) == Some((n - 1) as usize),
{
    lemma_next_returns(n, i);
    lemma_next_returns(n, 0);
    assert(next_cursor_times(None, n, 0) == None::<usize>);
    assert(next_cursor_times(None, n, 1) == Some(0usize));
    lemma_next_times_add(None, n, 1, n);
    lemma_next_times_straight(0, n, (n - 1) as nat);
    lemma_next_times_add(None, n, 1, (n - 1) as nat);
}

proof fn lemma_previous_returns(n: nat, i: usize)
    requires
        0 < n <= usize::MAX,
        i < n,
    ensures
        previous_cursor_times(Some(i), n, n) == Some(i),
{
    lemma_previous_times_straight(i, n, i as nat);
    assert(previous_cursor_times(Some(i), n, (i + 1) as nat) == Some((n - 1) as usize));
    let k = (n - 1 - i) as nat;
    lemma_previous_times_straight((n - 1) as usize, n, k);
    lemma_previous_times_add(Some(i), n, (i + 1) as nat, k);
    assert((i + 1) as nat + k == n);
}

/// Moving backward as many times as the list is long brings a selected
/// cursor back to where it was; from no selection, one move more than that
/// ends on the first item.
pub proof fn lemma_previous_is_cyclic(n: nat, i: usize)
    requires
        0 < n <= usize::MAX,
        i < n,
    ensures
        previous_cursor_times(Some(i), n, n) == Some(i),
        previous_cursor_times(None, n, n + 1) == Some(0usize),
{
    lemma_previous_returns(n, i);
    lemma_previous_returns(n, 0);
    assert(previous_cursor_times(None, n, 0) == None::<usize>);
    assert(previous_cursor_times(None, n, 1) == Some(0usize));
    lemma_previous_times_add(None, n, 1, n);
}

/// On an empty list no move ever selects anything, so no cursor can point
/// outside the list.
pub proof fn lemma_empty_list_never_selects(c: Option<usize>, k: nat)
    ensures
        next_cursor(c, 0) is None,
        previous_cursor(c, 0) is None,
        k > 0 ==> next_cursor_times(c, 0, k) is None,
        k > 0 ==> previous_cursor_times(c, 0, k) is None,
{
}

/// An ordered collection with an optional selected position.
pub struct SelectableList<T> {
    pub items: Vec<T>,
    pub cursor: Option<usize>,
}

impl<T> SelectableList<T> {
    /// The cursor, if present, indexes an item.
    pub open spec fn wf(&self) -> bool {
        cursor_in_range(self.cursor, self.items@.len())
    }

    /// An empty list with nothing selected.
    pub fn new() -> (r: SelectableList<T>)
        ensures
            r.items@.len() == 0,
            r.cursor.is_none(),
            r.wf(),
    {
        SelectableList { items: Vec::new(), cursor: None }
    }

    /// A list of the given items, in their order, with nothing selected.
    pub fn with_items(items: Vec<T>) -> (r: SelectableList<T>)
        ensures
            r.items@ == items@,
            r.cursor.is_none(),
            r.wf(),
    {
        SelectableList { items, cursor: None }
    }

    /// The selected position, if any.
    pub fn selected(&self) -> (r: Option<usize>)
        ensures
            r == self.cursor,
    {
        self.cursor
    }

    /// Moves the cursor forward, wrapping from the last item to the first.
    pub fn next(&mut self)
        requires
            old(self).wf(),
        ensures
            final(self).items@ == old(self).items@,
            final(self).cursor == next_cursor(old(self).cursor, old(self).items@.len()),
            final(self).wf(),
    {
        let n = self.items.len();
        if n == 0 {
            self.cursor = None;
        } else {
            let i: usize = match self.cursor {
                Some(i) => if i >= n - 1 { 0 } else { i + 1 },
                None => 0,
            };
            self.cursor = Some(i);
        }
    }

    /// Moves the cursor backward, wrapping from the first item to the last.
    pub fn previous(&mut self)
        requires
            old(self).wf(),
        ensures
            final(self).items@ == old(self).items@,
            final(self).cursor == previous_cursor(old(self).cursor, old(self).items@.len()),
            final(self).wf(),
    {
        let n = self.items.len();
        if n == 0 {
            self.cursor = None;
        } else {
            let i: usize = match self.cursor {
                Some(i) => if i == 0 || i >= n { n - 1 } else { i - 1 },
                None => 0,
            };
            self.cursor = Some(i);
        }
    }

    /// Clears the selection.
    pub fn unselect(&mut self)
        ensures
            final(self).items@ == old(self).items@,
            final(self).cursor.is_none(),
    {
        self.cursor = None;
    }
}

} // verus!
