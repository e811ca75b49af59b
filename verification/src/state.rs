//! The data the two dialogue machines work on: submissions, per-conversation
//! dialogue states, the replies the machines emit, and the actions they ask
//! the surrounding process to perform.

use vstd::prelude::*;

verus! {

/// A completed intake record. Created once, at the terminal step of the form
/// machine, and never mutated afterward.
pub struct Submission {
    /// Conversation id of the respondent; unique over all submissions.
    pub chat_id: i64,
    /// Display handle of the respondent, when the transport knows one.
    pub username: Option<String>,
    /// Full name; the first answer of the form.
    pub name: String,
    /// Course answer, kept as the accepted text ("3", "7", "6+").
    pub course: String,
    /// Motivation answer; empty for senior respondents, who are never asked.
    pub question: String,
}

/// Mathematical image of a [`Submission`].
pub struct SubmissionV {
    pub chat_id: i64,
    pub username: Option<Seq<char>>,
    pub name: Seq<char>,
    pub course: Seq<char>,
    pub question: Seq<char>,
}

impl View for Submission {
    type V = SubmissionV;

    open spec fn view(&self) -> SubmissionV {
        SubmissionV {
            chat_id: self.chat_id,
            username: self.username.deep_view(),
            name: self.name@,
            course: self.course@,
            question: self.question@,
        }
    }
}

impl DeepView for Submission {
    type V = SubmissionV;

    open spec fn deep_view(&self) -> SubmissionV {
        self.view()
    }
}

impl Submission {
    /// An owned copy, equal to `self` in every field.
    pub fn duplicate(&self) -> (r: Submission)
        ensures
            r@ == self@,
    {
        Submission {
            chat_id: self.chat_id,
            username: match &self.username {
                Some(u) => Some(u.clone()),
                None => None,
            },
            name: self.name.clone(),
            course: self.course.clone(),
            question: self.question.clone(),
        }
    }
}

/// Where one conversation stands in the intake form.
pub enum FormState {
    /// No form session is running.
    Start,
    /// The name prompt was sent; the next text is the full name.
    AwaitingName,
    /// The course prompt was sent; the next text is the course answer.
    AwaitingCourse { full_name: String },
    /// The motivation prompt was sent; the next text completes the form.
    AwaitingMotivation { full_name: String, course: String },
}

/// Mathematical image of a [`FormState`].
pub enum FormStateV {
    Start,
    AwaitingName,
    AwaitingCourse { full_name: Seq<char> },
    AwaitingMotivation { full_name: Seq<char>, course: Seq<char> },
}

impl View for FormState {
    type V = FormStateV;

    open spec fn view(&self) -> FormStateV {
        match self {
            FormState::Start => FormStateV::Start,
            FormState::AwaitingName => FormStateV::AwaitingName,
            FormState::AwaitingCourse { full_name } => FormStateV::AwaitingCourse {
                full_name: full_name@,
            },
            FormState::AwaitingMotivation { full_name, course } => FormStateV::AwaitingMotivation {
                full_name: full_name@,
                course: course@,
            },
        }
    }
}

/// Where one conversation stands in the broadcast flow.
pub enum BroadcastState {
    /// No broadcast session is running.
    Start,
    /// The composition prompt was sent; the next text is the announcement.
    AwaitingMessage,
    /// The preview was sent; the conversation must confirm or cancel.
    /// `recipients` is the snapshot of submitted conversation ids taken when
    /// the message was composed.
    AwaitingConfirm { message: String, recipients: Vec<i64> },
}

/// Mathematical image of a [`BroadcastState`].
pub enum BroadcastStateV {
    Start,
    AwaitingMessage,
    AwaitingConfirm { message: Seq<char>, recipients: Seq<i64> },
}

impl View for BroadcastState {
    type V = BroadcastStateV;

    open spec fn view(&self) -> BroadcastStateV {
        match self {
            BroadcastState::Start => BroadcastStateV::Start,
            BroadcastState::AwaitingMessage => BroadcastStateV::AwaitingMessage,
            BroadcastState::AwaitingConfirm { message, recipients } => (
                BroadcastStateV::AwaitingConfirm { message: message@, recipients: recipients@ }
            ),
        }
    }
}

/// A reply the engine asks the transport to send back to the conversation the
/// event came from. The transport owns the wording; these are its cues.
pub enum Reply {
    /// The command list for ordinary users.
    Help,
    /// The command list for operators.
    HelpOperator,
    /// The form was already completed by this conversation.
    AlreadySubmitted,
    /// Greeting plus the name prompt.
    AskName,
    /// The course prompt, with the enumerated choices.
    AskCourse,
    /// The motivation prompt.
    AskMotivation,
    /// Closing message for a senior respondent.
    ClosingSenior,
    /// Closing message for a respondent who answered the motivation question.
    ClosingJunior,
    /// The inbound event carried no text payload; ask for text.
    NeedText,
    /// The course answer was rejected; ask again.
    RetryCourse,
    /// The current session was cancelled.
    Cancelled,
    /// Ask the operator for the announcement text.
    AskBroadcastText,
    /// Preview of a composed announcement: how many will receive it, and the
    /// message verbatim, with the send-or-cancel choice.
    Preview { count: usize, message: String },
    /// The confirmation answer was neither accepted token; ask again.
    ChooseSendOrCancel,
    /// The delivery pass over all recipients finished.
    BroadcastDone,
    /// The broadcast was cancelled at the confirmation step.
    BroadcastCancelled,
    /// How many submissions the export will contain.
    FoundCount(usize),
    /// A submission could not be stored; the form was not confirmed.
    PersistFailed,
}

/// Mathematical image of a [`Reply`].
pub enum ReplyV {
    Help,
    HelpOperator,
    AlreadySubmitted,
    AskName,
    AskCourse,
    AskMotivation,
    ClosingSenior,
    ClosingJunior,
    NeedText,
    RetryCourse,
    Cancelled,
    AskBroadcastText,
    Preview { count: usize, message: Seq<char> },
    ChooseSendOrCancel,
    BroadcastDone,
    BroadcastCancelled,
    FoundCount(usize),
    PersistFailed,
}

impl View for Reply {
    type V = ReplyV;

    open spec fn view(&self) -> ReplyV {
        match self {
            Reply::Help => ReplyV::Help,
            Reply::HelpOperator => ReplyV::HelpOperator,
            Reply::AlreadySubmitted => ReplyV::AlreadySubmitted,
            Reply::AskName => ReplyV::AskName,
            Reply::AskCourse => ReplyV::AskCourse,
            Reply::AskMotivation => ReplyV::AskMotivation,
            Reply::ClosingSenior => ReplyV::ClosingSenior,
            Reply::ClosingJunior => ReplyV::ClosingJunior,
            Reply::NeedText => ReplyV::NeedText,
            Reply::RetryCourse => ReplyV::RetryCourse,
            Reply::Cancelled => ReplyV::Cancelled,
            Reply::AskBroadcastText => ReplyV::AskBroadcastText,
            Reply::Preview { count, message } => ReplyV::Preview {
                count: *count,
                message: message@,
            },
            Reply::ChooseSendOrCancel => ReplyV::ChooseSendOrCancel,
            Reply::BroadcastDone => ReplyV::BroadcastDone,
            Reply::BroadcastCancelled => ReplyV::BroadcastCancelled,
            Reply::FoundCount(n) => ReplyV::FoundCount(*n),
            Reply::PersistFailed => ReplyV::PersistFailed,
        }
    }
}

impl DeepView for Reply {
    type V = ReplyV;

    open spec fn deep_view(&self) -> ReplyV {
        self.view()
    }
}

/// One side effect the engine asks the surrounding process to perform, in the
/// order the actions appear.
pub enum Action {
    /// Send the given reply to the conversation the event came from.
    Send(Reply),
    /// Store the submission durably. Must complete before the action after it
    /// is performed: the reply that follows it announces success.
    Persist(Submission),
    /// Deliver an announcement to one recipient; a failure is logged and the
    /// remaining actions are still performed.
    Deliver { chat_id: i64, message: String },
    /// Wait one rate-limit interval before the next action.
    Pause,
    /// Serialize the given submissions and send them to the conversation the
    /// event came from, as a document.
    Export(Vec<Submission>),
}

/// Mathematical image of an [`Action`].
pub enum ActionV {
    Send(ReplyV),
    Persist(SubmissionV),
    Deliver { chat_id: i64, message: Seq<char> },
    Pause,
    Export(Seq<SubmissionV>),
}

impl View for Action {
    type V = ActionV;

    open spec fn view(&self) -> ActionV {
        match self {
            Action::Send(r) => ActionV::Send(r@),
            Action::Persist(s) => ActionV::Persist(s@),
            Action::Deliver { chat_id, message } => ActionV::Deliver {
                chat_id: *chat_id,
                message: message@,
            },
            Action::Pause => ActionV::Pause,
            Action::Export(subs) => ActionV::Export(subs.deep_view()),
        }
    }
}

impl DeepView for Action {
    type V = ActionV;

    open spec fn deep_view(&self) -> ActionV {
        self.view()
    }
}

/// One inbound chat event, as the transport hands it over: who wrote, their
/// display handle if the transport knows one, and the text payload if the
/// message had one.
pub struct Event {
    pub chat_id: i64,
    pub username: Option<String>,
    pub text: Option<String>,
}

} // verus!
