//! The book that keeps the current phase of every conversation.

use vstd::prelude::*;
use crate::dialogue::{StateMachine, StateView};

verus! {

/// The phase in which conversation `chat_id` stands according to `book`: the
/// one recorded, or the authenticating phase where none is.
pub open spec fn phase_of(book: Map<i64, StateView>, chat_id: i64) -> StateView {
    if book.dom().contains(chat_id) {
        book[chat_id]
    } else {
        StateView::Authentication
    }
}

struct PhaseEntry {
    chat_id: i64,
    phase: StateMachine,
}

/// One phase per conversation. Its value is the map from the conversations
/// on record to their phases.
pub struct PhaseBook {
    entries: Vec<PhaseEntry>,
}

impl View for PhaseBook {
    type V = Map<i64, StateView>;

    closed spec fn view(&self) -> Map<i64, StateView> {
        Map::new(|k: i64| self.records(k), |k: i64| self.entries@[self.index_of(k)].phase@)
    }
}

impl PhaseBook {
    /// Some entry is about conversation `chat_id`.
    closed spec fn records(&self, chat_id: i64) -> bool {
        exists|i: int| 0 <= i < self.entries@.len() && (#[trigger] self.entries@[i]).chat_id == chat_id
    }

    /// The place of an entry about conversation `chat_id`.
    closed spec fn index_of(&self, chat_id: i64) -> int {
        choose|i: int| 0 <= i < self.entries@.len() && (#[trigger] self.entries@[i]).chat_id == chat_id
    }

    /// The book's invariant: no conversation has two entries.
    pub closed spec fn wf(&self) -> bool {
        forall|i: int, j: int|
            0 <= i < j < self.entries@.len() ==> (#[trigger] self.entries@[i]).chat_id != (
            #[trigger] self.entries@[j]).chat_id
    }

    /// The entry at `i` is the one that the book's value shows for its
    /// conversation.
    proof fn lemma_entry(&self, i: int)
        requires
            self.wf(),
            0 <= i < self.entries@.len(),
        ensures
            self@.dom().contains(self.entries@[i].chat_id),
            self@[self.entries@[i].chat_id] == self.entries@[i].phase@,
    {
        let chat_id = self.entries@[i].chat_id;
        assert(self.records(chat_id));
        let j = self.index_of(chat_id);
        if j < i {
            assert(self.entries@[j].chat_id != self.entries@[i].chat_id);
        } else if i < j {
            assert(self.entries@[i].chat_id != self.entries@[j].chat_id);
        }
    }

    /// An empty book: every conversation is authenticating.
    pub fn new() -> (book: PhaseBook)
        ensures
            book.wf(),
            book@ == Map::<i64, StateView>::empty(),
    {
        let book = PhaseBook { entries: Vec::new() };
        assert(book@ =~= Map::<i64, StateView>::empty());
        book
    }

    /// The place of the entry about conversation `chat_id`.
    fn position(&self, chat_id: i64) -> (r: Option<usize>)
        ensures
            match r {
                Some(i) => i < self.entries@.len() && self.entries@[i as int].chat_id == chat_id,
                None => !self.records(chat_id),
            },
    {
        let mut i: usize = 0;
        while i < self.entries.len()
            invariant
                i <= self.entries@.len(),
                forall|k: int| 0 <= k < i ==> (#[trigger] self.entries@[k]).chat_id != chat_id,
            decreases self.entries@.len() - i,
        {
            if self.entries[i].chat_id == chat_id {
                return Some(i);
            }
            i += 1;
        }
        None
    }

    /// The phase in which conversation `chat_id` stands.
    pub fn get(&self, chat_id: i64) -> (phase: StateMachine)
        requires
            self.wf(),
        ensures
            phase@ == phase_of(self@, chat_id),
    {
        match self.position(chat_id) {
            Some(i) => {
                proof {
                    self.lemma_entry(i as int);
                }
                self.entries[i].phase.clone()
            },
            None => StateMachine::Authentication,
        }
    }

    /// Records `phase` for conversation `chat_id`, in place of what was
    /// recorded for it before.
    pub fn set(&mut self, chat_id: i64, phase: StateMachine)
        requires
            old(self).wf(),
        ensures
            final(self).wf(),
            final(self)@ == old(self)@.insert(chat_id, phase@),
    {
        let ghost before = *self;
        let at = match self.position(chat_id) {
            Some(i) => {
                self.entries.set(i, PhaseEntry { chat_id, phase });
                i
            },
            None => {
                self.entries.push(PhaseEntry { chat_id, phase });
                self.entries.len() - 1
            },
        };
        proof {
            let after = *self;
            assert(after.entries@[at as int].chat_id == chat_id);
            assert(forall|j: int|
                0 <= j < before.entries@.len() && j != at ==> after.entries@[j]
                    == before.entries@[j]);
            assert(after.wf());
            assert forall|k: i64| #[trigger]
                after@.dom().contains(k) == before@.insert(chat_id, phase@).dom().contains(
                    k,
                ) by {
                if after.records(k) && k != chat_id {
                    let j = after.index_of(k);
                    assert(before.entries@[j].chat_id == k);
                }
                if k != chat_id && before.records(k) {
                    let j = before.index_of(k);
                    assert(after.entries@[j].chat_id == k);
                }
            }
            assert forall|k: i64| #[trigger] after@.dom().contains(k) implies after@[k]
                == before@.insert(chat_id, phase@)[k] by {
                let j = after.index_of(k);
                after.lemma_entry(j);
                if k != chat_id {
                    assert(before.entries@[j].chat_id == k);
                    before.lemma_entry(j);
                }
            }
            assert(after@ =~= before@.insert(chat_id, phase@));
        }
    }
}

} // verus!
