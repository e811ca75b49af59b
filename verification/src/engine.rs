//! The engine: one inbound chat event in, the actions to perform out. It
//! owns the two per-conversation slot tables and the submission table, gates
//! broadcast routing by the operator allow-list, and guarantees that a
//! conversation never holds more than one submission.

use vstd::prelude::*;

use crate::broadcast::{
    broadcast_compose, broadcast_confirm, broadcast_start, broadcast_start_spec, compose_spec,
    confirm_spec,
};
use crate::form::{form_start, form_start_spec, form_step, form_step_spec};
use crate::gate::is_operator;
use crate::repo::{
    contains_id, ids_of, lemma_contains_id_push, lemma_unique_ids_push, unique_ids, Repository,
};
use crate::router::{route, route_spec, Route};
use crate::state::{
    Action, ActionV, BroadcastState, BroadcastStateV, Event, FormState, FormStateV, Reply, ReplyV,
    SubmissionV,
};
use crate::store::DialogueStore;

verus! {

/// The form state a conversation stands at: its stored entry, or `Start` if
/// none is stored.
pub open spec fn form_at(m: Map<i64, FormState>, id: i64) -> FormStateV {
    if m.contains_key(id) {
        m[id]@
    } else {
        FormStateV::Start
    }
}

/// The broadcast state a conversation stands at: its stored entry, or `Start`
/// if none is stored.
pub open spec fn broadcast_at(m: Map<i64, BroadcastState>, id: i64) -> BroadcastStateV {
    if m.contains_key(id) {
        m[id]@
    } else {
        BroadcastStateV::Start
    }
}

/// Everything one inbound event amounts to: the states the conversation
/// moves to, the submissions after the event, and the actions to perform, in
/// the order given.
pub ghost struct StepV {
    pub form: FormStateV,
    pub broadcast: BroadcastStateV,
    pub subs: Seq<SubmissionV>,
    pub actions: Seq<ActionV>,
}

/// The whole transition relation of the engine for one inbound event, over
/// the routing relation and the two machines' transition relations.
pub open spec fn engine_step_spec(
    ops: Seq<i64>,
    fst: FormStateV,
    bst: BroadcastStateV,
    subs: Seq<SubmissionV>,
    chat_id: i64,
    username: Option<Seq<char>>,
    text: Option<Seq<char>>,
) -> StepV {
    let is_op = ops.contains(chat_id);
    match route_spec(is_op, fst, bst, text) {
        Route::Cancel => StepV {
            form: FormStateV::Start,
            broadcast: BroadcastStateV::Start,
            subs,
            actions: seq![ActionV::Send(ReplyV::Cancelled)],
        },
        Route::Help => StepV {
            form: fst,
            broadcast: bst,
            subs,
            actions: seq![ActionV::Send(ReplyV::Help)],
        },
        Route::HelpOperator => StepV {
            form: fst,
            broadcast: bst,
            subs,
            actions: seq![ActionV::Send(ReplyV::HelpOperator)],
        },
        Route::FormStart => {
            let (f2, rep) = form_start_spec(contains_id(subs, chat_id));
            StepV { form: f2, broadcast: bst, subs, actions: seq![ActionV::Send(rep)] }
        },
        Route::FormStep => {
            let out = form_step_spec(fst, chat_id, username, text);
            match out.persist {
                Some(s) => StepV {
                    form: out.next,
                    broadcast: bst,
                    subs: subs.push(s),
                    actions: seq![ActionV::Persist(s), ActionV::Send(out.reply)],
                },
                None => StepV {
                    form: out.next,
                    broadcast: bst,
                    subs,
                    actions: seq![ActionV::Send(out.reply)],
                },
            }
        },
        Route::BroadcastStart => {
            let (b2, rep) = broadcast_start_spec();
            StepV { form: fst, broadcast: b2, subs, actions: seq![ActionV::Send(rep)] }
        },
        Route::BroadcastCompose => {
            let (b2, rep) = compose_spec(text, ids_of(subs));
            StepV { form: fst, broadcast: b2, subs, actions: seq![ActionV::Send(rep)] }
        },
        Route::BroadcastConfirm => match bst {
            BroadcastStateV::AwaitingConfirm { message, recipients } => {
                let (b2, acts) = confirm_spec(message, recipients, text);
                StepV { form: fst, broadcast: b2, subs, actions: acts }
            },
            _ => StepV { form: fst, broadcast: bst, subs, actions: Seq::empty() },
        },
        Route::OrgList => StepV {
            form: fst,
            broadcast: bst,
            subs,
            actions: seq![
                ActionV::Send(ReplyV::FoundCount(subs.len() as usize)),
                ActionV::Export(subs),
            ],
        },
        Route::Ignore => StepV { form: fst, broadcast: bst, subs, actions: Seq::empty() },
    }
}

pub struct Engine {
    operators: Vec<i64>,
    form: DialogueStore<FormState>,
    broadcast: DialogueStore<BroadcastState>,
    repo: Repository,
}

impl Engine {
    /// The configured operator allow-list.
    pub closed spec fn ops(&self) -> Seq<i64> {
        self.operators@
    }

    /// The form state the given conversation stands at.
    pub closed spec fn form_of(&self, id: i64) -> FormStateV {
        form_at(self.form@, id)
    }

    /// The broadcast state the given conversation stands at.
    pub closed spec fn bcast_of(&self, id: i64) -> BroadcastStateV {
        broadcast_at(self.broadcast@, id)
    }

    /// The submissions, in insertion order.
    pub closed spec fn subs(&self) -> Seq<SubmissionV> {
        self.repo@
    }

    /// The engine's invariant, held before and after every event:
    /// no two submissions share a conversation id; a conversation mid-form
    /// has not submitted yet; the two families never own one conversation at
    /// the same time; and only operators ever hold broadcast state.
    pub open spec fn wf(&self) -> bool {
        &&& unique_ids(self.subs())
        &&& forall|id: i64|
            !(#[trigger] self.form_of(id) is Start) ==> !contains_id(self.subs(), id)
        &&& forall|id: i64| !(#[trigger] self.form_of(id) is Start) ==> self.bcast_of(id) is Start
        &&& forall|id: i64| !(#[trigger] self.bcast_of(id) is Start) ==> self.ops().contains(id)
    }

    /// A fresh engine with the given allow-list: no sessions, no submissions.
    pub fn new(operators: Vec<i64>) -> (r: Engine)
        ensures
            r.wf(),
            r.ops() == operators@,
            forall|id: i64| #[trigger] r.form_of(id) is Start,
            forall|id: i64| #[trigger] r.bcast_of(id) is Start,
            r.subs() =~= Seq::<SubmissionV>::empty(),
    {
        Engine {
            operators,
            form: DialogueStore::new(),
            broadcast: DialogueStore::new(),
            repo: Repository::new(),
        }
    }

    /// How many submissions exist.
    pub fn submission_count(&self) -> (n: usize)
        ensures
            n == self.subs().len(),
    {
        self.repo.len()
    }

    /// Whether a submission for `id` exists.
    pub fn has_submission(&self, id: i64) -> (r: bool)
        ensures
            r == contains_id(self.subs(), id),
    {
        self.repo.contains_chat_id(id)
    }

    /// Handles one inbound event: moves the conversation's states, records a
    /// completed submission, and returns the actions to perform, in order —
    /// exactly [`engine_step_spec`]. Every other conversation is untouched.
    pub fn handle_event(&mut self, ev: Event) -> (acts: Vec<Action>)
        requires
            old(self).wf(),
        ensures
            final(self).wf(),
            final(self).ops() == old(self).ops(),
            ({
                let step = engine_step_spec(
                    old(self).ops(),
                    old(self).form_of(ev.chat_id),
                    old(self).bcast_of(ev.chat_id),
                    old(self).subs(),
                    ev.chat_id,
                    ev.username.deep_view(),
                    ev.text.deep_view(),
                );
                &&& final(self).form_of(ev.chat_id) == step.form
                &&& final(self).bcast_of(ev.chat_id) == step.broadcast
                &&& final(self).subs() == step.subs
                &&& acts.deep_view() == step.actions
            }),
            forall|id: i64|
                id != ev.chat_id ==> #[trigger] final(self).form_of(id) == old(self).form_of(id),
            forall|id: i64|
                id != ev.chat_id ==> #[trigger] final(self).bcast_of(id) == old(self).bcast_of(id),
    {
        let id = ev.chat_id;
        let is_op = is_operator(&self.operators, id);
        let fst = match self.form.take(id) {
            Some(s) => s,
            None => FormState::Start,
        };
        let bst = match self.broadcast.take(id) {
            Some(s) => s,
            None => BroadcastState::Start,
        };
        let ghost fst0 = fst@;
        let ghost bst0 = bst@;
        let r = route(is_op, &fst, &bst, &ev.text);
        let acts: Vec<Action> = match r {
            Route::Cancel => {
                self.form.clear(id);
                self.broadcast.clear(id);
                let acts: Vec<Action> = vec![Action::Send(Reply::Cancelled)];
                proof {
                    assert(acts.deep_view() =~= seq![ActionV::Send(ReplyV::Cancelled)]);
                }
                acts
            },
            Route::Help => {
                self.form.set(id, fst);
                self.broadcast.set(id, bst);
                let acts: Vec<Action> = vec![Action::Send(Reply::Help)];
                proof {
                    assert(acts.deep_view() =~= seq![ActionV::Send(ReplyV::Help)]);
                }
                acts
            },
            Route::HelpOperator => {
                self.form.set(id, fst);
                self.broadcast.set(id, bst);
                let acts: Vec<Action> = vec![Action::Send(Reply::HelpOperator)];
                proof {
                    assert(acts.deep_view() =~= seq![ActionV::Send(ReplyV::HelpOperator)]);
                }
                acts
            },
            Route::Ignore => {
                self.form.set(id, fst);
                self.broadcast.set(id, bst);
                let acts: Vec<Action> = Vec::new();
                proof {
                    assert(acts.deep_view() =~= Seq::<ActionV>::empty());
                }
                acts
            },
            Route::FormStart => {
                proof {
                    if !(bst0 is Start) {
                        assert(old(self).ops().contains(id));
                        assert(false);
                    }
                }
                let already = self.repo.contains_chat_id(id);
                let (f2, rep) = form_start(already);
                self.form.set(id, f2);
                self.broadcast.set(id, bst);
                let ghost repv = rep@;
                let acts: Vec<Action> = vec![Action::Send(rep)];
                proof {
                    assert(acts.deep_view() =~= seq![ActionV::Send(repv)]);
                }
                acts
            },
            Route::FormStep => {
                proof {
                    assert(!(fst0 is Start));
                    crate::form::lemma_form_step_completion(
                        fst0,
                        id,
                        ev.username.deep_view(),
                        ev.text.deep_view(),
                    );
                }
                let out = form_step(fst, id, ev.username, ev.text);
                self.form.set(id, out.next);
                self.broadcast.set(id, bst);
                match out.persist {
                    Some(sub) => {
                        let ghost subv = sub@;
                        let ghost replyv = out.reply@;
                        self.repo.insert(sub.duplicate());
                        proof {
                            let spec_out = form_step_spec(
                                fst0,
                                id,
                                ev.username.deep_view(),
                                ev.text.deep_view(),
                            );
                            assert(spec_out.persist == Some(subv));
                            assert(subv.chat_id == id && spec_out.next is Start);
                            assert(fst0 == old(self).form_of(id));
                            assert(!contains_id(old(self).subs(), id));
                            assert(self.subs() =~= old(self).subs().push(subv));
                            lemma_unique_ids_push(old(self).subs(), subv);
                            assert forall|q: i64|
                                !(#[trigger] self.form_of(q) is Start) implies !contains_id(
                                self.subs(),
                                q,
                            ) by {
                                lemma_contains_id_push(old(self).subs(), subv, q);
                                if q != id {
                                    assert(old(self).form_of(q) == self.form_of(q));
                                    assert(!contains_id(old(self).subs(), q));
                                }
                            }
                        }
                        let acts: Vec<Action> = vec![
                            Action::Persist(sub),
                            Action::Send(out.reply),
                        ];
                        proof {
                            assert(acts.deep_view() =~= seq![
                                ActionV::Persist(subv),
                                ActionV::Send(replyv),
                            ]);
                        }
                        acts
                    },
                    None => {
                        let ghost replyv = out.reply@;
                        let acts: Vec<Action> = vec![Action::Send(out.reply)];
                        proof {
                            assert(acts.deep_view() =~= seq![ActionV::Send(replyv)]);
                        }
                        acts
                    },
                }
            },
            Route::BroadcastStart => {
                let (b2, rep) = broadcast_start();
                self.form.set(id, fst);
                self.broadcast.set(id, b2);
                let ghost repv = rep@;
                let acts: Vec<Action> = vec![Action::Send(rep)];
                proof {
                    assert(acts.deep_view() =~= seq![ActionV::Send(repv)]);
                }
                acts
            },
            Route::BroadcastCompose => {
                let recipients = self.repo.recipient_ids();
                let (b2, rep) = broadcast_compose(ev.text, recipients);
                self.form.set(id, fst);
                self.broadcast.set(id, b2);
                let ghost repv = rep@;
                let acts: Vec<Action> = vec![Action::Send(rep)];
                proof {
                    assert(acts.deep_view() =~= seq![ActionV::Send(repv)]);
                }
                acts
            },
            Route::BroadcastConfirm => match bst {
                BroadcastState::AwaitingConfirm { message, recipients } => {
                    let (b2, acts) = broadcast_confirm(message, recipients, ev.text);
                    self.form.set(id, fst);
                    self.broadcast.set(id, b2);
                    acts
                },
                BroadcastState::Start => {
                    proof {
                        assert(false);
                    }
                    self.form.set(id, fst);
                    self.broadcast.set(id, BroadcastState::Start);
                    Vec::new()
                },
                BroadcastState::AwaitingMessage => {
                    proof {
                        assert(false);
                    }
                    self.form.set(id, fst);
                    self.broadcast.set(id, BroadcastState::Start);
                    Vec::new()
                },
            },
            Route::OrgList => {
                let n = self.repo.len();
                let all = self.repo.export_all();
                self.form.set(id, fst);
                self.broadcast.set(id, bst);
                let ghost allv = all.deep_view();
                let acts: Vec<Action> = vec![
                    Action::Send(Reply::FoundCount(n)),
                    Action::Export(all),
                ];
                proof {
                    assert(acts.deep_view() =~= seq![
                        ActionV::Send(ReplyV::FoundCount(n)),
                        ActionV::Export(allv),
                    ]);
                }
                acts
            },
        };
        proof {
            assert forall|q: i64|
                !(#[trigger] self.form_of(q) is Start) implies !contains_id(self.subs(), q)
                && self.bcast_of(q) is Start by {
                assert(!(old(self).form_of(q) is Start) ==> !contains_id(old(self).subs(), q));
                assert(!(old(self).form_of(q) is Start) ==> old(self).bcast_of(q) is Start);
                assert(!(old(self).bcast_of(q) is Start) ==> old(self).ops().contains(q));
            }
            assert forall|q: i64|
                !(#[trigger] self.bcast_of(q) is Start) implies self.ops().contains(q) by {
                assert(!(old(self).bcast_of(q) is Start) ==> old(self).ops().contains(q));
                assert(!(old(self).form_of(q) is Start) ==> old(self).bcast_of(q) is Start);
            }
        }
        acts
    }
}

} // verus!
