//! The jumplist: a bounded history of reading positions to jump back and forth in,
//! like a browser's back and forward buttons.
use vstd::prelude::*;
use std::collections::VecDeque;

verus! {

broadcast use vstd::std_specs::vecdeque::group_vec_dequeue_axioms;

/// The most positions a jumplist keeps.
pub const JUMPLIST_CAPACITY: usize = 100;

/// A history of positions of type `L` and the index of the current one.
#[derive(Debug)]
pub struct Jumplist<L> {
    pub entries: VecDeque<L>,
    pub current_index: usize,
}

/// A jumplist as values: its positions and the current index.
pub struct JumpState<L> {
    pub entries: Seq<L>,
    pub current: nat,
}

/// A well formed history: at most `JUMPLIST_CAPACITY` positions, and the current index
/// points at one of them (or is 0 when there are none).
pub open spec fn history_wf<L>(s: JumpState<L>) -> bool {
    &&& s.entries.len() <= JUMPLIST_CAPACITY
    &&& if s.entries.len() == 0 { s.current == 0 } else { s.current < s.entries.len() }
}

/// Recording `location`: nothing happens if it duplicates the current position; otherwise
/// the positions after the current one are dropped, the oldest position is dropped if the
/// history is full, and `location` becomes the newest and current position.
pub open spec fn history_push<L>(s: JumpState<L>, location: L, duplicate_of_current: bool) -> JumpState<L> {
    if duplicate_of_current && s.entries.len() > 0 {
        s
    } else {
        let kept = if s.entries.len() > 0 { s.entries.take(s.current + 1 as int) } else { s.entries };
        let room = if kept.len() == JUMPLIST_CAPACITY { kept.drop_first() } else { kept };
        let entries = room.push(location);
        JumpState { entries, current: (entries.len() - 1) as nat }
    }
}

/// Going back one position, if there is an earlier one.
pub open spec fn history_back<L>(s: JumpState<L>) -> JumpState<L> {
    if s.current == 0 {
        s
    } else {
        JumpState { entries: s.entries, current: (s.current - 1) as nat }
    }
}

/// Going forward one position, if there is a later one.
pub open spec fn history_forward<L>(s: JumpState<L>) -> JumpState<L> {
    if s.entries.len() <= 1 || s.current >= s.entries.len() - 1 {
        s
    } else {
        JumpState { entries: s.entries, current: s.current + 1 }
    }
}

impl<L> Jumplist<L> {
    /// The jumplist as values.
    pub open spec fn state(&self) -> JumpState<L> {
        JumpState { entries: self.entries@, current: self.current_index as nat }
    }

    pub open spec fn wf(&self) -> bool {
        history_wf(self.state())
    }

    /// An empty jumplist.
    pub fn new() -> (r: Self)
        ensures
            r.wf(),
            r.state().entries.len() == 0,
            r.state().current == 0,
    {
        Jumplist { entries: VecDeque::with_capacity(JUMPLIST_CAPACITY), current_index: 0 }
    }

    pub fn len(&self) -> (r: usize)
        ensures
            r == self.entries@.len(),
    {
        self.entries.len()
    }

    pub fn is_empty(&self) -> (r: bool)
        ensures
            r == (self.entries@.len() == 0),
    {
        self.entries.len() == 0
    }

    /// The current position, if any.
    pub fn current(&self) -> (r: Option<&L>)
        requires
            self.wf(),
        ensures
            self.entries@.len() == 0 ==> r is None,
            self.entries@.len() > 0 ==> (r matches Some(x) && *x == self.entries@[self.current_index as int]),
    {
        if self.current_index < self.entries.len() {
            Some(&self.entries[self.current_index])
        } else {
            None
        }
    }

    /// Records `location`. `duplicate_of_current` says whether it is (approximately) the
    /// current position, in which case nothing is recorded.
    pub fn push(&mut self, location: L, duplicate_of_current: bool)
        requires
            old(self).wf(),
        ensures
            final(self).wf(),
            final(self).state() == history_push(old(self).state(), location, duplicate_of_current),
    {
        if duplicate_of_current && self.current_index < self.entries.len() {
            return;
        }
        if !self.is_empty() {
            self.entries.truncate(self.current_index + 1);
        }
        if self.len() == JUMPLIST_CAPACITY {
            let _ = self.entries.pop_front();
            self.current_index = self.current_index - 1;
        }
        self.entries.push_back(location);
        self.current_index = self.len() - 1;
    }

    /// Moves to the previous position and returns it, if there is one.
    pub fn jump_back(&mut self) -> (r: Option<&L>)
        requires
            old(self).wf(),
        ensures
            final(self).wf(),
            final(self).state() == history_back(old(self).state()),
            old(self).current_index == 0 ==> r is None,
            old(self).current_index > 0 ==> (r matches Some(x) && *x == old(self).entries@[old(self).current_index - 1]),
    {
        if self.current_index == 0 {
            return None;
        }
        self.current_index = self.current_index - 1;
        Some(&self.entries[self.current_index])
    }

    /// Moves to the next position and returns it, if there is one.
    pub fn jump_forward(&mut self) -> (r: Option<&L>)
        requires
            old(self).wf(),
        ensures
            final(self).wf(),
            final(self).state() == history_forward(old(self).state()),
            history_forward(old(self).state()) == old(self).state() ==> r is None,
            history_forward(old(self).state()) != old(self).state() ==> (r matches Some(x)
                && *x == old(self).entries@[old(self).current_index + 1]),
    {
        if self.len() <= 1 || self.current_index >= self.len() - 1 {
            return None;
        }
        self.current_index = self.current_index + 1;
        Some(&self.entries[self.current_index])
    }
}

/// Recording a position keeps the history well formed.
pub proof fn lemma_push_keeps_wf<L>(s: JumpState<L>, location: L, duplicate_of_current: bool)
    requires
        history_wf(s),
    ensures
        history_wf(history_push(s, location, duplicate_of_current)),
{
}

/// After recording a position that is not the current one, it is the current and newest
/// position: there is nothing to go forward to, and going back leads to the position that
/// was current before.
pub proof fn lemma_push_makes_current<L>(s: JumpState<L>, location: L)
    requires
        history_wf(s),
    ensures
        history_push(s, location, false).entries[history_push(s, location, false).current as int]
            == location,
        history_forward(history_push(s, location, false)) == history_push(s, location, false),
        s.entries.len() > 0 ==> history_back(history_push(s, location, false)).entries[history_back(
            history_push(s, location, false),
        ).current as int] == s.entries[s.current as int],
{
    let t = history_push(s, location, false);
    if s.entries.len() > 0 {
        let kept = s.entries.take(s.current + 1 as int);
        assert(kept[kept.len() - 1] == s.entries[s.current as int]);
        if kept.len() == JUMPLIST_CAPACITY {
            assert(kept.drop_first()[kept.len() - 2] == kept[kept.len() - 1]);
        }
    }
}

/// Going back and then forward again returns to the same place, when going back moved.
pub proof fn lemma_back_then_forward<L>(s: JumpState<L>)
    requires
        history_wf(s),
        s.current > 0,
    ensures
        history_forward(history_back(s)) == s,
{
}

/// Going forward and then back again returns to the same place, when going forward moved.
pub proof fn lemma_forward_then_back<L>(s: JumpState<L>)
    requires
        history_wf(s),
        history_forward(s) != s,
    ensures
        history_back(history_forward(s)) == s,
{
}

/// Going back or forward never changes the recorded positions, and keeps the history well
/// formed.
pub proof fn lemma_moves_keep_entries<L>(s: JumpState<L>)
    requires
        history_wf(s),
    ensures
        history_back(s).entries == s.entries,
        history_forward(s).entries == s.entries,
        history_wf(history_back(s)),
        history_wf(history_forward(s)),
{
}

} // verus!
