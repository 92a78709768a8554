//! Which open document (tab) is current as tabs are switched and closed.
use vstd::prelude::*;

verus! {

/// The current tab after a tab was closed and `remaining` tabs are left: unchanged if it
/// still exists, else the last tab (or 0 when none is left).
pub open spec fn index_after_close(current: nat, remaining: nat) -> nat {
    if current >= remaining {
        if remaining == 0 { 0 } else { (remaining - 1) as nat }
    } else {
        current
    }
}

/// The current tab after closing one tab, when `remaining` tabs are left.
pub fn tab_index_after_close(current: usize, remaining: usize) -> (r: usize)
    ensures
        r == index_after_close(current as nat, remaining as nat),
{
    if current >= remaining {
        if remaining == 0 {
            0
        } else {
            remaining - 1
        }
    } else {
        current
    }
}

/// The tab before `current`, staying on the first.
pub fn previous_tab_index(current: usize) -> (r: usize)
    ensures
        r == (if current == 0 { 0 } else { current - 1 }),
{
    if current == 0 {
        0
    } else {
        current - 1
    }
}

/// The tab after `current` among `count`, staying on the last; unchanged without tabs.
pub fn next_tab_index(current: usize, count: usize) -> (r: usize)
    ensures
        count == 0 ==> r == current,
        count > 0 ==> r == (if current + 1 < count - 1 { current + 1 } else { count - 1 }),
{
    if count == 0 {
        current
    } else if current < count - 1 && current + 1 < count - 1 {
        current + 1
    } else {
        count - 1
    }
}

} // verus!
