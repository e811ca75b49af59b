//! The event router: classifies one inbound event by the family that
//! currently owns the conversation, else by its command, and never lets an
//! event fall through from one family to the other.

use vstd::prelude::*;

use crate::state::{BroadcastState, BroadcastStateV, FormState, FormStateV};

verus! {

/// The command surface, recognised by exact match on the whole text.
pub enum Cmd {
    Help,
    Start,
    Cancel,
    OrgList,
    Broadcast,
}

/// What command, if any, the text payload is.
pub open spec fn cmd_of(text: Option<Seq<char>>) -> Option<Cmd> {
    match text {
        None => None,
        Some(t) => if t == "/help"@ {
            Some(Cmd::Help)
        } else if t == "/start"@ {
            Some(Cmd::Start)
        } else if t == "/cancel"@ {
            Some(Cmd::Cancel)
        } else if t == "/orglist"@ {
            Some(Cmd::OrgList)
        } else if t == "/broadcast"@ {
            Some(Cmd::Broadcast)
        } else {
            None
        },
    }
}

fn text_is(t: &String, lit: &str) -> (r: bool)
    ensures
        r == (t@ == lit@),
{
    let s: String = lit.to_owned();
    *t == s
}

/// Recognises a command, exactly [`cmd_of`].
pub fn parse_command(text: &Option<String>) -> (r: Option<Cmd>)
    ensures
        r == cmd_of(text.deep_view()),
{
    match text {
        None => None,
        Some(t) => {
            if text_is(t, "/help") {
                Some(Cmd::Help)
            } else if text_is(t, "/start") {
                Some(Cmd::Start)
            } else if text_is(t, "/cancel") {
                Some(Cmd::Cancel)
            } else if text_is(t, "/orglist") {
                Some(Cmd::OrgList)
            } else if text_is(t, "/broadcast") {
                Some(Cmd::Broadcast)
            } else {
                None
            }
        },
    }
}

/// Where one inbound event goes.
pub enum Route {
    /// The cancel command: reset both families and acknowledge.
    Cancel,
    /// The command list for ordinary users.
    Help,
    /// The command list for operators.
    HelpOperator,
    /// The form entry: ask the repository, then enter or refuse.
    FormStart,
    /// A mid-form answer, for the form machine.
    FormStep,
    /// The broadcast entry, operators only.
    BroadcastStart,
    /// The announcement text, for the broadcast machine.
    BroadcastCompose,
    /// The confirmation answer, for the broadcast machine.
    BroadcastConfirm,
    /// The export command, operators only.
    OrgList,
    /// Nothing: no reply and no state change. In particular a gated command
    /// from a non-operator is ignored in silence.
    Ignore,
}

/// The routing relation. Cancellation wins over everything; then the family
/// that owns the conversation takes the event as payload (broadcast ownership
/// counts only for operators, so a non-operator can never advance broadcast
/// state); a conversation owned by neither family goes by its command.
pub open spec fn route_spec(
    is_op: bool,
    fst: FormStateV,
    bst: BroadcastStateV,
    text: Option<Seq<char>>,
) -> Route {
    let cmd = cmd_of(text);
    if cmd == Some(Cmd::Cancel) {
        Route::Cancel
    } else if is_op && bst is AwaitingMessage {
        Route::BroadcastCompose
    } else if is_op && bst is AwaitingConfirm {
        Route::BroadcastConfirm
    } else if !(fst is Start) {
        Route::FormStep
    } else {
        match cmd {
            Some(Cmd::Start) => Route::FormStart,
            Some(Cmd::Help) => if is_op {
                Route::HelpOperator
            } else {
                Route::Help
            },
            Some(Cmd::Broadcast) => if is_op {
                Route::BroadcastStart
            } else {
                Route::Ignore
            },
            Some(Cmd::OrgList) => if is_op {
                Route::OrgList
            } else {
                Route::Ignore
            },
            _ => Route::Ignore,
        }
    }
}

/// Classifies one inbound event, exactly [`route_spec`].
pub fn route(is_op: bool, fst: &FormState, bst: &BroadcastState, text: &Option<String>) -> (r:
    Route)
    ensures
        r == route_spec(is_op, fst@, bst@, text.deep_view()),
{
    let cmd = parse_command(text);
    if let Some(Cmd::Cancel) = cmd {
        return Route::Cancel;
    }
    if is_op {
        match bst {
            BroadcastState::AwaitingMessage => {
                return Route::BroadcastCompose;
            },
            BroadcastState::AwaitingConfirm { .. } => {
                return Route::BroadcastConfirm;
            },
            BroadcastState::Start => {},
        }
    }
    match fst {
        FormState::Start => {},
        _ => {
            return Route::FormStep;
        },
    }
    match cmd {
        Some(Cmd::Start) => Route::FormStart,
        Some(Cmd::Help) => if is_op {
            Route::HelpOperator
        } else {
            Route::Help
        },
        Some(Cmd::Broadcast) => if is_op {
            Route::BroadcastStart
        } else {
            Route::Ignore
        },
        Some(Cmd::OrgList) => if is_op {
            Route::OrgList
        } else {
            Route::Ignore
        },
        _ => Route::Ignore,
    }
}

} // verus!
