//! The per-conversation slot table of one dialogue family. Entries persist
//! for the process lifetime; a conversation without an entry stands at the
//! family's start state, which the engine supplies when it reads a slot.

use vstd::prelude::*;

use vstd::hash_map::HashMapWithView;

verus! {

#[verifier::reject_recursive_types(S)]
pub struct DialogueStore<S> {
    m: HashMapWithView<i64, S>,
}

impl<S> View for DialogueStore<S> {
    type V = Map<i64, S>;

    closed spec fn view(&self) -> Map<i64, S> {
        self.m@
    }
}

impl<S> DialogueStore<S> {
    /// An empty table: every conversation is at its family's start state.
    pub fn new() -> (r: Self)
        ensures
            r@ =~= Map::<i64, S>::empty(),
    {
        broadcast use vstd::std_specs::hash::axiom_i64_obeys_hash_table_key_model;
        DialogueStore { m: HashMapWithView::new() }
    }

    /// Removes and returns the conversation's entry, leaving the slot empty
    /// until [`Self::set`] writes the state the event led to.
    pub fn take(&mut self, id: i64) -> (r: Option<S>)
        ensures
            r == if old(self)@.contains_key(id) {
                Some(old(self)@[id])
            } else {
                None::<S>
            },
            final(self)@ =~= old(self)@.remove(id),
    {
        self.m.remove(&id)
    }

    /// Writes the conversation's entry.
    pub fn set(&mut self, id: i64, s: S)
        ensures
            final(self)@ =~= old(self)@.insert(id, s),
    {
        self.m.insert(id, s)
    }

    /// Discards the conversation's entry: the conversation stands at the
    /// family's start state again, as if it had never been seen.
    pub fn clear(&mut self, id: i64)
        ensures
            final(self)@ =~= old(self)@.remove(id),
    {
        self.m.remove(&id);
    }
}

} // verus!
