//! The form session machine: advances one conversation through the intake
//! states, validating each answer, and asks for the submission to be
//! persisted at the terminal step.

use vstd::prelude::*;

use crate::state::{FormState, FormStateV, Reply, ReplyV, Submission, SubmissionV};
use crate::validate::{course_of, parse_course, CourseValue};

verus! {

/// What the form entry yields: the state to move to and the reply to send.
/// Entering is refused while a submission for the conversation exists, so a
/// completed form can never be filled twice.
pub open spec fn form_start_spec(already_submitted: bool) -> (FormStateV, ReplyV) {
    if already_submitted {
        (FormStateV::Start, ReplyV::AlreadySubmitted)
    } else {
        (FormStateV::AwaitingName, ReplyV::AskName)
    }
}

/// The form entry: the start command of a conversation with no running
/// session. `already_submitted` is the repository's answer for this
/// conversation id, obtained before the session may begin.
pub fn form_start(already_submitted: bool) -> (r: (FormState, Reply))
    ensures
        (r.0@, r.1@) == form_start_spec(already_submitted),
{
    if already_submitted {
        (FormState::Start, Reply::AlreadySubmitted)
    } else {
        (FormState::AwaitingName, Reply::AskName)
    }
}

/// What one mid-form step yields: the state the conversation moves to, the
/// reply to send, and the submission to persist if the step completed the
/// form. When a submission is present, persisting it comes before the reply,
/// which announces success.
pub struct FormOutcome {
    pub next: FormState,
    pub reply: Reply,
    pub persist: Option<Submission>,
}

/// Mathematical image of a [`FormOutcome`].
pub ghost struct FormOutcomeV {
    pub next: FormStateV,
    pub reply: ReplyV,
    pub persist: Option<SubmissionV>,
}

impl View for FormOutcome {
    type V = FormOutcomeV;

    open spec fn view(&self) -> FormOutcomeV {
        FormOutcomeV { next: self.next@, reply: self.reply@, persist: self.persist.deep_view() }
    }
}

/// The transition relation of a conversation that stands mid-form.
///
/// An event without text reprompts and stays. A name or a motivation is any
/// text; a course answer goes through the course grammar: rejected answers
/// reprompt and stay, a junior course moves on to the motivation question,
/// and a senior course completes the form at once, with an empty motivation.
/// The course is stored as the text that was accepted.
pub open spec fn form_step_spec(
    st: FormStateV,
    chat_id: i64,
    username: Option<Seq<char>>,
    text: Option<Seq<char>>,
) -> FormOutcomeV
    recommends
        !(st is Start),
{
    match st {
        FormStateV::Start => FormOutcomeV { next: st, reply: ReplyV::NeedText, persist: None },
        FormStateV::AwaitingName => match text {
            None => FormOutcomeV { next: st, reply: ReplyV::NeedText, persist: None },
            Some(t) => FormOutcomeV {
                next: FormStateV::AwaitingCourse { full_name: t },
                reply: ReplyV::AskCourse,
                persist: None,
            },
        },
        FormStateV::AwaitingCourse { full_name } => match text {
            None => FormOutcomeV { next: st, reply: ReplyV::RetryCourse, persist: None },
            Some(t) => match course_of(t) {
                None => FormOutcomeV { next: st, reply: ReplyV::RetryCourse, persist: None },
                Some(CourseValue::Senior) => FormOutcomeV {
                    next: FormStateV::Start,
                    reply: ReplyV::ClosingSenior,
                    persist: Some(
                        SubmissionV {
                            chat_id,
                            username,
                            name: full_name,
                            course: t,
                            question: Seq::empty(),
                        },
                    ),
                },
                Some(CourseValue::Junior(_)) => FormOutcomeV {
                    next: FormStateV::AwaitingMotivation { full_name, course: t },
                    reply: ReplyV::AskMotivation,
                    persist: None,
                },
            },
        },
        FormStateV::AwaitingMotivation { full_name, course } => match text {
            None => FormOutcomeV { next: st, reply: ReplyV::NeedText, persist: None },
            Some(t) => FormOutcomeV {
                next: FormStateV::Start,
                reply: ReplyV::ClosingJunior,
                persist: Some(
                    SubmissionV { chat_id, username, name: full_name, course, question: t },
                ),
            },
        },
    }
}

/// What to reply once a durable store outside this crate has answered a
/// persist request: the closing reply only on success. A failed persist is
/// surfaced and never silently confirmed, since the closing reply implies
/// success.
pub fn after_persist(persist_ok: bool, closing: Reply) -> (r: Reply)
    ensures
        r@ == if persist_ok {
            closing@
        } else {
            ReplyV::PersistFailed
        },
{
    if persist_ok {
        closing
    } else {
        Reply::PersistFailed
    }
}

/// A step that yields a submission is terminal, and the submission carries
/// the conversation id of the event that completed it.
pub proof fn lemma_form_step_completion(
    st: FormStateV,
    chat_id: i64,
    username: Option<Seq<char>>,
    text: Option<Seq<char>>,
)
    ensures
        match form_step_spec(st, chat_id, username, text).persist {
            Some(s) => form_step_spec(st, chat_id, username, text).next is Start && s.chat_id
                == chat_id,
            None => true,
        },
{
}

/// One mid-form step, exactly the transition relation [`form_step_spec`].
pub fn form_step(
    state: FormState,
    chat_id: i64,
    username: Option<String>,
    text: Option<String>,
) -> (r: FormOutcome)
    requires
        !(state@ is Start),
    ensures
        r@ == form_step_spec(state@, chat_id, username.deep_view(), text.deep_view()),
{
    match state {
        FormState::Start => FormOutcome {
            next: FormState::Start,
            reply: Reply::NeedText,
            persist: None,
        },
        FormState::AwaitingName => match text {
            None => FormOutcome {
                next: FormState::AwaitingName,
                reply: Reply::NeedText,
                persist: None,
            },
            Some(t) => FormOutcome {
                next: FormState::AwaitingCourse { full_name: t },
                reply: Reply::AskCourse,
                persist: None,
            },
        },
        FormState::AwaitingCourse { full_name } => match text {
            None => FormOutcome {
                next: FormState::AwaitingCourse { full_name },
                reply: Reply::RetryCourse,
                persist: None,
            },
            Some(t) => match parse_course(t.as_str()) {
                None => FormOutcome {
                    next: FormState::AwaitingCourse { full_name },
                    reply: Reply::RetryCourse,
                    persist: None,
                },
                Some(CourseValue::Senior) => FormOutcome {
                    next: FormState::Start,
                    reply: Reply::ClosingSenior,
                    persist: Some(
                        Submission {
                            chat_id,
                            username,
                            name: full_name,
                            course: t,
                            question: String::new(),
                        },
                    ),
                },
                Some(CourseValue::Junior(_)) => FormOutcome {
                    next: FormState::AwaitingMotivation { full_name, course: t },
                    reply: Reply::AskMotivation,
                    persist: None,
                },
            },
        },
        FormState::AwaitingMotivation { full_name, course } => match text {
            None => FormOutcome {
                next: FormState::AwaitingMotivation { full_name, course },
                reply: Reply::NeedText,
                persist: None,
            },
            Some(t) => FormOutcome {
                next: FormState::Start,
                reply: Reply::ClosingJunior,
                persist: Some(
                    Submission { chat_id, username, name: full_name, course, question: t },
                ),
            },
        },
    }
}

} // verus!
