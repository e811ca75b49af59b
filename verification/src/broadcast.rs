//! The broadcast session machine: an operator composes an announcement, sees
//! a preview against a snapshot of the current recipients, and confirms or
//! cancels. Confirmation yields a rate-limited delivery plan over exactly the
//! snapshot.

use vstd::prelude::*;

use crate::state::{Action, ActionV, BroadcastState, BroadcastStateV, Reply, ReplyV};
use crate::validate::{eq_ignore_ascii_case, eq_ignore_case};

verus! {

/// What the broadcast entry yields: the composition prompt.
pub open spec fn broadcast_start_spec() -> (BroadcastStateV, ReplyV) {
    (BroadcastStateV::AwaitingMessage, ReplyV::AskBroadcastText)
}

/// The broadcast entry: the broadcast command of an operator.
pub fn broadcast_start() -> (r: (BroadcastState, Reply))
    ensures
        (r.0@, r.1@) == broadcast_start_spec(),
{
    (BroadcastState::AwaitingMessage, Reply::AskBroadcastText)
}

/// The composition step. Text becomes the announcement; `recipients` is the
/// snapshot of submitted conversation ids taken at this moment, fixed into
/// the state and shown in the preview. An event without text reprompts.
pub open spec fn compose_spec(text: Option<Seq<char>>, recipients: Seq<i64>) -> (
    BroadcastStateV,
    ReplyV,
) {
    match text {
        None => (BroadcastStateV::AwaitingMessage, ReplyV::NeedText),
        Some(t) => (
            BroadcastStateV::AwaitingConfirm { message: t, recipients },
            ReplyV::Preview { count: recipients.len() as usize, message: t },
        ),
    }
}

/// One composition step, exactly [`compose_spec`].
pub fn broadcast_compose(text: Option<String>, recipients: Vec<i64>) -> (r: (
    BroadcastState,
    Reply,
))
    ensures
        (r.0@, r.1@) == compose_spec(text.deep_view(), recipients@),
{
    match text {
        None => (BroadcastState::AwaitingMessage, Reply::NeedText),
        Some(t) => {
            let count = recipients.len();
            let message = t.clone();
            (
                BroadcastState::AwaitingConfirm { message: t, recipients },
                Reply::Preview { count, message },
            )
        },
    }
}

/// The token that confirms sending, up to ASCII case.
pub open spec fn is_send_token(t: Seq<char>) -> bool {
    eq_ignore_case(t, "send"@)
}

/// The token that cancels the broadcast, up to ASCII case.
pub open spec fn is_cancel_token(t: Seq<char>) -> bool {
    eq_ignore_case(t, "cancel"@)
}

/// The delivery plan: one delivery per snapshot recipient, in snapshot order,
/// a rate-limit pause after each, and the completion reply last. A failed
/// delivery is logged by the performer and the plan continues.
pub open spec fn plan_spec(message: Seq<char>, recipients: Seq<i64>) -> Seq<ActionV> {
    Seq::new(
        2 * recipients.len() + 1,
        |i: int|
            if i == 2 * recipients.len() {
                ActionV::Send(ReplyV::BroadcastDone)
            } else if i % 2 == 0 {
                ActionV::Deliver { chat_id: recipients[i / 2], message }
            } else {
                ActionV::Pause
            },
    )
}

/// Builds the delivery plan for a confirmed broadcast, exactly [`plan_spec`].
pub fn broadcast_plan(message: &String, recipients: &Vec<i64>) -> (acts: Vec<Action>)
    ensures
        acts.deep_view() =~= plan_spec(message@, recipients@),
{
    let mut acts: Vec<Action> = Vec::new();
    let mut i: usize = 0;
    while i < recipients.len()
        invariant
            i <= recipients@.len(),
            acts@.len() == 2 * i,
            forall|k: int|
                0 <= k < acts@.len() ==> #[trigger] acts@[k]@ == (if k % 2 == 0 {
                    ActionV::Deliver { chat_id: recipients@[k / 2], message: message@ }
                } else {
                    ActionV::Pause
                }),
        decreases recipients@.len() - i,
    {
        acts.push(Action::Deliver { chat_id: recipients[i], message: message.clone() });
        acts.push(Action::Pause);
        i = i + 1;
    }
    acts.push(Action::Send(Reply::BroadcastDone));
    proof {
        assert forall|k: int| 0 <= k < acts.deep_view().len() implies acts.deep_view()[k]
            == plan_spec(message@, recipients@)[k] by {
            assert(acts.deep_view()[k] == acts@[k]@);
        }
    }
    acts
}

/// The confirmation step. "send", up to ASCII case, yields the delivery plan
/// over the snapshot fixed at composition — the repository is not asked
/// again; "cancel" ends the session with nothing sent; any other answer, or
/// an event without text, reprompts for one of the two tokens and stays.
pub open spec fn confirm_spec(
    message: Seq<char>,
    recipients: Seq<i64>,
    text: Option<Seq<char>>,
) -> (BroadcastStateV, Seq<ActionV>) {
    match text {
        None => (
            BroadcastStateV::AwaitingConfirm { message, recipients },
            seq![ActionV::Send(ReplyV::NeedText)],
        ),
        Some(t) => if is_send_token(t) {
            (BroadcastStateV::Start, plan_spec(message, recipients))
        } else if is_cancel_token(t) {
            (BroadcastStateV::Start, seq![ActionV::Send(ReplyV::BroadcastCancelled)])
        } else {
            (
                BroadcastStateV::AwaitingConfirm { message, recipients },
                seq![ActionV::Send(ReplyV::ChooseSendOrCancel)],
            )
        },
    }
}

/// One confirmation step, exactly [`confirm_spec`].
pub fn broadcast_confirm(message: String, recipients: Vec<i64>, text: Option<String>) -> (r: (
    BroadcastState,
    Vec<Action>,
))
    ensures
        r.0@ == confirm_spec(message@, recipients@, text.deep_view()).0,
        r.1.deep_view() =~= confirm_spec(message@, recipients@, text.deep_view()).1,
{
    match text {
        None => {
            let acts: Vec<Action> = vec![Action::Send(Reply::NeedText)];
            (BroadcastState::AwaitingConfirm { message, recipients }, acts)
        },
        Some(t) => {
            if eq_ignore_ascii_case(t.as_str(), "send") {
                let plan = broadcast_plan(&message, &recipients);
                (BroadcastState::Start, plan)
            } else if eq_ignore_ascii_case(t.as_str(), "cancel") {
                let acts: Vec<Action> = vec![Action::Send(Reply::BroadcastCancelled)];
                (BroadcastState::Start, acts)
            } else {
                let acts: Vec<Action> = vec![Action::Send(Reply::ChooseSendOrCancel)];
                (BroadcastState::AwaitingConfirm { message, recipients }, acts)
            }
        },
    }
}

} // verus!
