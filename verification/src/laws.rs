//! The guarantees the engine gives, stated on their own and proved from the
//! transition relations alone.

use vstd::prelude::*;

use crate::broadcast::{is_send_token, plan_spec};
use crate::engine::{engine_step_spec, Engine};
use crate::form::form_step_spec;
use crate::repo::{contains_id, ids_of};
use crate::router::cmd_of;
use crate::state::{ActionV, BroadcastStateV, FormStateV, ReplyV, SubmissionV};
use crate::validate::{course_of, CourseValue};

verus! {

/// At most one submission exists per conversation id: in a well-formed
/// engine any two submissions differ in conversation id.
pub proof fn lemma_at_most_one_submission(e: &Engine, i: int, j: int)
    requires
        e.wf(),
        0 <= i < j < e.subs().len(),
    ensures
        e.subs()[i].chat_id != e.subs()[j].chat_id,
{
}

/// Re-entry is idempotent: the form entry of a conversation that already
/// submitted answers "already submitted", creates nothing, and leaves the
/// conversation outside any session.
pub proof fn lemma_reentry_idempotent(
    ops: Seq<i64>,
    subs: Seq<SubmissionV>,
    chat_id: i64,
    username: Option<Seq<char>>,
)
    requires
        contains_id(subs, chat_id),
    ensures
        ({
            let step = engine_step_spec(
                ops,
                FormStateV::Start,
                BroadcastStateV::Start,
                subs,
                chat_id,
                username,
                Some("/start"@),
            );
            &&& step.form is Start
            &&& step.broadcast is Start
            &&& step.subs == subs
            &&& step.actions =~= seq![ActionV::Send(ReplyV::AlreadySubmitted)]
        }),
{
    reveal_strlit("/help");
    reveal_strlit("/start");
}

/// The course fork. A course in [1, 4] moves on to the motivation question
/// and persists nothing yet; a senior course persists at once, with an empty
/// motivation; a rejected answer reprompts and stays, persisting nothing.
pub proof fn lemma_course_branches(
    full_name: Seq<char>,
    chat_id: i64,
    username: Option<Seq<char>>,
    t: Seq<char>,
)
    ensures
        ({
            let out = form_step_spec(
                FormStateV::AwaitingCourse { full_name },
                chat_id,
                username,
                Some(t),
            );
            match course_of(t) {
                Some(CourseValue::Junior(n)) => {
                    &&& out.persist is None
                    &&& out.next == FormStateV::AwaitingMotivation { full_name, course: t }
                    &&& out.reply == ReplyV::AskMotivation
                },
                Some(CourseValue::Senior) => {
                    &&& out.next is Start
                    &&& out.reply == ReplyV::ClosingSenior
                    &&& out.persist == Some(
                        SubmissionV {
                            chat_id,
                            username,
                            name: full_name,
                            course: t,
                            question: Seq::<char>::empty(),
                        },
                    )
                },
                None => {
                    &&& out.next == FormStateV::AwaitingCourse { full_name }
                    &&& out.reply == ReplyV::RetryCourse
                    &&& out.persist is None
                },
            }
        }),
{
}

/// Within the form machine there is no way back: a mid-form step either
/// stays, moves forward, or completes — it ends the session exactly when it
/// persists a submission. The only other way out is explicit cancellation,
/// which the router handles before the machine sees the event.
pub proof fn lemma_form_reset_only_by_completion(
    st: FormStateV,
    chat_id: i64,
    username: Option<Seq<char>>,
    text: Option<Seq<char>>,
)
    requires
        !(st is Start),
    ensures
        ({
            let out = form_step_spec(st, chat_id, username, text);
            out.next is Start <==> out.persist is Some
        }),
{
}

/// The recipient snapshot is taken at composition: composing an announcement
/// fixes exactly the conversation ids submitted at that moment, and the
/// preview count equals the submission count at that moment.
pub proof fn lemma_snapshot_at_compose(
    ops: Seq<i64>,
    fst: FormStateV,
    subs: Seq<SubmissionV>,
    chat_id: i64,
    username: Option<Seq<char>>,
    t: Seq<char>,
)
    requires
        ops.contains(chat_id),
        cmd_of(Some(t)) is None,
    ensures
        ({
            let step = engine_step_spec(
                ops,
                fst,
                BroadcastStateV::AwaitingMessage,
                subs,
                chat_id,
                username,
                Some(t),
            );
            &&& step.broadcast == BroadcastStateV::AwaitingConfirm {
                message: t,
                recipients: ids_of(subs),
            }
            &&& ids_of(subs).len() == subs.len()
            &&& step.subs == subs
            &&& step.actions =~= seq![
                ActionV::Send(ReplyV::Preview { count: subs.len() as usize, message: t }),
            ]
        }),
{
}

/// A confirmed broadcast delivers to the snapshot fixed at composition,
/// whatever the submissions are by confirmation time: one delivery per
/// snapshot recipient, in snapshot order, with a pause after each. A
/// submission added between preview and confirmation receives nothing.
pub proof fn lemma_confirm_uses_snapshot(
    ops: Seq<i64>,
    fst: FormStateV,
    message: Seq<char>,
    recipients: Seq<i64>,
    subs_now: Seq<SubmissionV>,
    chat_id: i64,
    username: Option<Seq<char>>,
    t: Seq<char>,
)
    requires
        ops.contains(chat_id),
        is_send_token(t),
    ensures
        ({
            let step = engine_step_spec(
                ops,
                fst,
                BroadcastStateV::AwaitingConfirm { message, recipients },
                subs_now,
                chat_id,
                username,
                Some(t),
            );
            &&& step.broadcast is Start
            &&& step.subs == subs_now
            &&& step.actions =~= plan_spec(message, recipients)
            &&& forall|k: int|
                0 <= k < recipients.len() ==> step.actions[2 * k] == ActionV::Deliver {
                    chat_id: recipients[k],
                    message,
                }
        }),
{
    reveal_strlit("send");
    reveal_strlit("/help");
    reveal_strlit("/start");
    reveal_strlit("/cancel");
    reveal_strlit("/orglist");
    reveal_strlit("/broadcast");
    assert(t.len() == 4);
    assert(cmd_of(Some(t)) is None);
}

/// Submissions are append-only: one event leaves the table unchanged or adds
/// exactly one record at the end; no event ever mutates or removes one.
pub proof fn lemma_submissions_append_only(
    ops: Seq<i64>,
    fst: FormStateV,
    bst: BroadcastStateV,
    subs: Seq<SubmissionV>,
    chat_id: i64,
    username: Option<Seq<char>>,
    text: Option<Seq<char>>,
)
    ensures
        ({
            let step = engine_step_spec(ops, fst, bst, subs, chat_id, username, text);
            step.subs == subs || (step.subs.len() == subs.len() + 1 && step.subs.subrange(
                0,
                subs.len() as int,
            ) == subs)
        }),
{
    let r = crate::router::route_spec(ops.contains(chat_id), fst, bst, text);
    if r is FormStep {
        let out = form_step_spec(fst, chat_id, username, text);
        match out.persist {
            Some(s) => {
                assert(subs.push(s).subrange(0, subs.len() as int) =~= subs);
            },
            None => {},
        }
    }
}

/// Cancellation from any form or broadcast state returns the conversation to
/// both start states with no residual fields, keeps every submission, and
/// acknowledges.
pub proof fn lemma_cancel_resets(
    ops: Seq<i64>,
    fst: FormStateV,
    bst: BroadcastStateV,
    subs: Seq<SubmissionV>,
    chat_id: i64,
    username: Option<Seq<char>>,
)
    ensures
        ({
            let step = engine_step_spec(ops, fst, bst, subs, chat_id, username, Some("/cancel"@));
            &&& step.form is Start
            &&& step.broadcast is Start
            &&& step.subs == subs
            &&& step.actions =~= seq![ActionV::Send(ReplyV::Cancelled)]
        }),
{
    reveal_strlit("/help");
    reveal_strlit("/start");
    reveal_strlit("/cancel");
}

/// A gated command from a non-operator is ignored in silence: no action and
/// no state change. Together with the engine invariant — a non-operator
/// never holds broadcast state — no event of theirs ever advances one.
pub proof fn lemma_non_operator_ignored(
    ops: Seq<i64>,
    subs: Seq<SubmissionV>,
    chat_id: i64,
    username: Option<Seq<char>>,
    t: Seq<char>,
)
    requires
        !ops.contains(chat_id),
        t == "/broadcast"@ || t == "/orglist"@,
    ensures
        ({
            let step = engine_step_spec(
                ops,
                FormStateV::Start,
                BroadcastStateV::Start,
                subs,
                chat_id,
                username,
                Some(t),
            );
            &&& step.form is Start
            &&& step.broadcast is Start
            &&& step.subs == subs
            &&& step.actions =~= Seq::<ActionV>::empty()
        }),
{
    reveal_strlit("/help");
    reveal_strlit("/start");
    reveal_strlit("/cancel");
    reveal_strlit("/orglist");
    reveal_strlit("/broadcast");
}

} // verus!
