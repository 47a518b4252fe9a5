//! A list of items with an optional selected position that moves cyclically.

use vstd::prelude::*;

verus! {

/// A selected position as a mathematical integer.
pub open spec fn sel_int(s: Option<usize>) -> Option<int> {
    match s {
        Some(i) => Some(i as int),
        None => None,
    }
}

/// The selection one step forward in a list of `n` items: wraps from the
/// last item to the first, starts at the first when nothing is selected,
/// and stays empty when the list is.
pub open spec fn next_index(s: Option<int>, n: int) -> Option<int> {
    if n <= 0 {
        None
    } else {
        match s {
            Some(i) => Some((i + 1) % n),
            None => Some(0),
        }
    }
}

/// The selection one step back in a list of `n` items: wraps from the
/// first item to the last, starts at the first when nothing is selected,
/// and stays empty when the list is.
pub open spec fn previous_index(s: Option<int>, n: int) -> Option<int> {
    if n <= 0 {
        None
    } else {
        match s {
            Some(i) => Some((i - 1 + n) % n),
            None => Some(0),
        }
    }
}

/// The selection after `k` steps forward.
pub open spec fn next_steps(s: Option<int>, n: int, k: nat) -> Option<int>
    decreases k,
{
    if k == 0 {
        s
    } else {
        next_index(next_steps(s, n, (k - 1) as nat), n)
    }
}

/// The selection after `k` steps back.
pub open spec fn previous_steps(s: Option<int>, n: int, k: nat) -> Option<int>
    decreases k,
{
    if k == 0 {
        s
    } else {
        previous_index(previous_steps(s, n, (k - 1) as nat), n)
    }
}

proof fn lemma_next_steps_formula(i: int, n: int, k: nat)
    requires
        0 <= i < n,
    ensures
        next_steps(Some(i), n, k) == Some((i + k) % n),
    decreases k,
{
    if k > 0 {
        lemma_next_steps_formula(i, n, (k - 1) as nat);
        let j = (i + k - 1) % n;
        vstd::arithmetic::div_mod::lemma_add_mod_noop(i + k - 1, 1, n);
        assert((j + 1) % n == (i + k) % n) by {
            vstd::arithmetic::div_mod::lemma_mod_twice(1int, n);
            if n > 1 {
                vstd::arithmetic::div_mod::lemma_small_mod(1, n as nat);
            }
            vstd::arithmetic::div_mod::lemma_add_mod_noop(j, 1, n);
            vstd::arithmetic::div_mod::lemma_mod_twice(i + k - 1, n);
        }
    } else {
        vstd::arithmetic::div_mod::lemma_small_mod(i as nat, n as nat);
    }
}

proof fn lemma_previous_steps_formula(i: int, n: int, k: nat)
    requires
        0 <= i < n,
        k <= n,
    ensures
        previous_steps(Some(i), n, k) == Some((i - k + n) % n),
    decreases k,
{
    if k > 0 {
        lemma_previous_steps_formula(i, n, (k - 1) as nat);
        let j = (i - (k - 1) + n) % n;
        assert((j - 1 + n) % n == (i - k + n) % n) by {
            vstd::arithmetic::div_mod::lemma_add_mod_noop(i - (k - 1) + n, n - 1, n);
            vstd::arithmetic::div_mod::lemma_mod_twice(i - (k - 1) + n, n);
            vstd::arithmetic::div_mod::lemma_add_mod_noop(j, n - 1, n);
            vstd::arithmetic::div_mod::lemma_mod_self_0(n);
            vstd::arithmetic::div_mod::lemma_mod_add_multiples_vanish(i - k + n, n);
            assert(i - (k - 1) + n + (n - 1) == i - k + n + n);
            if n - 1 < n {
                vstd::arithmetic::div_mod::lemma_small_mod((n - 1) as nat, n as nat);
            }
        }
    } else {
        vstd::arithmetic::div_mod::lemma_mod_add_multiples_vanish(i, n);
        vstd::arithmetic::div_mod::lemma_small_mod(i as nat, n as nat);
    }
}

/// In a list of `n > 0` items, `n` steps forward from any selected position
/// come back to it, and so do `n` steps back.
pub proof fn lemma_cycle_returns(i: int, n: int)
    requires
        0 <= i < n,
    ensures
        next_steps(Some(i), n, n as nat) == Some(i),
        previous_steps(Some(i), n, n as nat) == Some(i),
{
    lemma_next_steps_formula(i, n, n as nat);
    lemma_previous_steps_formula(i, n, n as nat);
    vstd::arithmetic::div_mod::lemma_mod_add_multiples_vanish(i, n);
    vstd::arithmetic::div_mod::lemma_small_mod(i as nat, n as nat);
}

/// Items with an optional selected position.
pub struct StatefulList<T> {
    pub selected: Option<usize>,
    pub items: Vec<T>,
}

impl<T> StatefulList<T> {
    /// The selection, when there is one, points at an item.
    pub open spec fn wf(&self) -> bool {
        match self.selected {
            Some(i) => i < self.items@.len(),
            None => true,
        }
    }

    /// A list of `items` with nothing selected.
    pub fn with_items(items: Vec<T>) -> (r: Self)
        ensures
            r.items@ == items@,
            r.selected == None::<usize>,
            r.wf(),
    {
        StatefulList { selected: None, items }
    }

    /// Selects the next item, wrapping from the last to the first; on an
    /// empty list nothing is selected.
    pub fn next(&mut self)
        requires
            old(self).wf(),
        ensures
            final(self).wf(),
            final(self).items@ == old(self).items@,
            sel_int(final(self).selected) == next_index(
                sel_int(old(self).selected),
                old(self).items@.len() as int,
            ),
    {
        let n = self.items.len();
        if n == 0 {
            self.selected = None;
        } else {
            let i = match self.selected {
                Some(i) => if i >= n - 1 {
                    0
                } else {
                    i + 1
                },
                None => 0,
            };
            self.selected = Some(i);
            proof {
                if let Some(j) = old(self).selected {
                    if j + 1 < n {
                        vstd::arithmetic::div_mod::lemma_small_mod((j + 1) as nat, n as nat);
                    } else {
                        vstd::arithmetic::div_mod::lemma_mod_self_0(n as int);
                    }
                }
            }
        }
    }

    /// Selects the previous item, wrapping from the first to the last; on
    /// an empty list nothing is selected.
    pub fn previous(&mut self)
        requires
            old(self).wf(),
        ensures
            final(self).wf(),
            final(self).items@ == old(self).items@,
            sel_int(final(self).selected) == previous_index(
                sel_int(old(self).selected),
                old(self).items@.len() as int,
            ),
    {
        let n = self.items.len();
        if n == 0 {
            self.selected = None;
        } else {
            let i = match self.selected {
                Some(i) => if i == 0 {
                    n - 1
                } else {
                    i - 1
                },
                None => 0,
            };
            self.selected = Some(i);
            proof {
                if let Some(j) = old(self).selected {
                    if j == 0 {
                        vstd::arithmetic::div_mod::lemma_small_mod((n - 1) as nat, n as nat);
                    } else {
                        vstd::arithmetic::div_mod::lemma_mod_add_multiples_vanish(j - 1, n as int);
                        vstd::arithmetic::div_mod::lemma_small_mod((j - 1) as nat, n as nat);
                    }
                }
            }
        }
    }
}

} // verus!
