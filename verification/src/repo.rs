//! The keyed table of completed submissions: append-only, queried by
//! conversation id. In a deployment a durable store stands behind the same
//! narrow interface; this is its verified in-memory form, and the engine's
//! guarantees are stated against it.

use vstd::prelude::*;

use crate::state::{Submission, SubmissionV};

verus! {

/// `subs` holds a submission for conversation `id`.
pub open spec fn contains_id(subs: Seq<SubmissionV>, id: i64) -> bool {
    exists|i: int| 0 <= i < subs.len() && subs[i].chat_id == id
}

/// No two submissions share a conversation id.
pub open spec fn unique_ids(subs: Seq<SubmissionV>) -> bool {
    forall|i: int, j: int|
        0 <= i < j < subs.len() ==> #[trigger] subs[i].chat_id != #[trigger] subs[j].chat_id
}

/// The conversation ids of `subs`, in order.
pub open spec fn ids_of(subs: Seq<SubmissionV>) -> Seq<i64> {
    subs.map_values(|s: SubmissionV| s.chat_id)
}

/// Appending reaches a conversation id exactly when the table already did or
/// the appended record carries it.
pub proof fn lemma_contains_id_push(subs: Seq<SubmissionV>, s: SubmissionV, id: i64)
    ensures
        contains_id(subs.push(s), id) == (contains_id(subs, id) || s.chat_id == id),
{
    if contains_id(subs, id) {
        let i = choose|i: int| 0 <= i < subs.len() && subs[i].chat_id == id;
        assert(subs.push(s)[i].chat_id == id);
    }
    if s.chat_id == id {
        assert(subs.push(s)[subs.len() as int].chat_id == id);
    }
    if contains_id(subs.push(s), id) && s.chat_id != id {
        let i = choose|i: int| 0 <= i < subs.push(s).len() && subs.push(s)[i].chat_id == id;
        assert(0 <= i < subs.len());
        assert(subs[i].chat_id == id);
    }
}

/// Appending a record whose conversation id is new keeps ids unique.
pub proof fn lemma_unique_ids_push(subs: Seq<SubmissionV>, s: SubmissionV)
    requires
        unique_ids(subs),
        !contains_id(subs, s.chat_id),
    ensures
        unique_ids(subs.push(s)),
{
    assert forall|i: int, j: int|
        0 <= i < j < subs.push(s).len() implies #[trigger] subs.push(s)[i].chat_id
        != #[trigger] subs.push(s)[j].chat_id by {
        if j == subs.len() {
            assert(subs.push(s)[i] == subs[i]);
            if subs[i].chat_id == s.chat_id {
                assert(contains_id(subs, s.chat_id));
            }
        } else {
            assert(subs.push(s)[i] == subs[i]);
            assert(subs.push(s)[j] == subs[j]);
        }
    }
}

pub struct Repository {
    subs: Vec<Submission>,
}

impl View for Repository {
    type V = Seq<SubmissionV>;

    closed spec fn view(&self) -> Seq<SubmissionV> {
        self.subs.deep_view()
    }
}

impl Repository {
    /// An empty table.
    pub fn new() -> (r: Repository)
        ensures
            r@ =~= Seq::<SubmissionV>::empty(),
    {
        Repository { subs: Vec::new() }
    }

    /// How many submissions the table holds.
    pub fn len(&self) -> (n: usize)
        ensures
            n == self@.len(),
    {
        self.subs.len()
    }

    /// Appends one submission. The table never mutates or removes records;
    /// keeping ids unique is the caller's charge, met by asking
    /// [`Self::contains_chat_id`] before the intake flow begins.
    pub fn insert(&mut self, s: Submission)
        ensures
            final(self)@ =~= old(self)@.push(s@),
    {
        self.subs.push(s);
    }

    /// Whether a submission for `id` exists.
    pub fn contains_chat_id(&self, id: i64) -> (r: bool)
        ensures
            r == contains_id(self@, id),
    {
        let mut i: usize = 0;
        while i < self.subs.len()
            invariant
                i <= self.subs@.len(),
                self@.len() == self.subs@.len(),
                forall|j: int| 0 <= j < i ==> #[trigger] self@[j].chat_id != id,
            decreases self.subs@.len() - i,
        {
            if self.subs[i].chat_id == id {
                assert(self@[i as int].chat_id == id);
                return true;
            }
            i = i + 1;
        }
        false
    }

    /// The stored submission for `id`, if any — with unique ids, the one.
    pub fn find_by_chat_id(&self, id: i64) -> (r: Option<&Submission>)
        ensures
            match r {
                Some(s) => contains_id(self@, id) && s@.chat_id == id && self@.contains(s@),
                None => !contains_id(self@, id),
            },
    {
        let mut i: usize = 0;
        while i < self.subs.len()
            invariant
                i <= self.subs@.len(),
                self@.len() == self.subs@.len(),
                forall|j: int| 0 <= j < i ==> #[trigger] self@[j].chat_id != id,
            decreases self.subs@.len() - i,
        {
            if self.subs[i].chat_id == id {
                let s = &self.subs[i];
                assert(self@[i as int].chat_id == id);
                assert(self@.contains(self@[i as int]));
                return Some(s);
            }
            i = i + 1;
        }
        None
    }

    /// The conversation ids of all submissions, in insertion order: the
    /// recipient snapshot a broadcast is composed against.
    pub fn recipient_ids(&self) -> (r: Vec<i64>)
        ensures
            r@ =~= ids_of(self@),
    {
        let mut out: Vec<i64> = Vec::new();
        let mut i: usize = 0;
        while i < self.subs.len()
            invariant
                i <= self.subs@.len(),
                self@.len() == self.subs@.len(),
                out@.len() == i,
                forall|j: int| 0 <= j < i ==> out@[j] == #[trigger] self@[j].chat_id,
            decreases self.subs@.len() - i,
        {
            out.push(self.subs[i].chat_id);
            i = i + 1;
        }
        out
    }

    /// An owned copy of every submission, in insertion order: what the export
    /// serializes.
    pub fn export_all(&self) -> (r: Vec<Submission>)
        ensures
            r.deep_view() =~= self@,
    {
        let mut out: Vec<Submission> = Vec::new();
        let mut i: usize = 0;
        while i < self.subs.len()
            invariant
                i <= self.subs@.len(),
                self@.len() == self.subs@.len(),
                out@.len() == i,
                forall|j: int| 0 <= j < i ==> out@[j]@ == #[trigger] self@[j],
            decreases self.subs@.len() - i,
        {
            let s = &self.subs[i];
            out.push(s.duplicate());
            i = i + 1;
        }
        proof {
            assert forall|j: int| 0 <= j < out@.len() implies #[trigger] out.deep_view()[j]
                == self@[j] by {
                assert(out.deep_view()[j] == out@[j]@);
            }
        }
        out
    }
}

} // verus!
