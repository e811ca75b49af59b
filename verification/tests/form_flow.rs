use hr::engine::Engine;
use hr::form::after_persist;
use hr::state::{Action, Event, Reply};

fn ev(chat_id: i64, text: &str) -> Event {
    Event { chat_id, username: None, text: Some(text.to_owned()) }
}

fn no_text(chat_id: i64) -> Event {
    Event { chat_id, username: None, text: None }
}

fn only_send(mut acts: Vec<Action>) -> Reply {
    assert_eq!(acts.len(), 1);
    match acts.pop().unwrap() {
        Action::Send(r) => r,
        _ => panic!("expected a send action"),
    }
}

#[test]
fn junior_flow_persists_after_motivation() {
    let mut e = Engine::new(Vec::new());
    assert!(matches!(only_send(e.handle_event(ev(1, "/start"))), Reply::AskName));
    assert!(matches!(only_send(e.handle_event(ev(1, "Ann"))), Reply::AskCourse));
    assert!(matches!(only_send(e.handle_event(ev(1, "3"))), Reply::AskMotivation));
    assert_eq!(e.submission_count(), 0);
    let acts = e.handle_event(ev(1, "Because fun"));
    assert_eq!(acts.len(), 2);
    match &acts[0] {
        Action::Persist(s) => {
            assert_eq!(s.chat_id, 1);
            assert_eq!(s.name, "Ann");
            assert_eq!(s.course, "3");
            assert_eq!(s.question, "Because fun");
        },
        _ => panic!("expected the persist action first"),
    }
    assert!(matches!(acts[1], Action::Send(Reply::ClosingJunior)));
    assert!(e.has_submission(1));
    assert_eq!(e.submission_count(), 1);
}

#[test]
fn senior_flow_persists_immediately() {
    let mut e = Engine::new(Vec::new());
    only_send(e.handle_event(ev(2, "/start")));
    only_send(e.handle_event(ev(2, "Ben")));
    let acts = e.handle_event(ev(2, "7"));
    assert_eq!(acts.len(), 2);
    match &acts[0] {
        Action::Persist(s) => {
            assert_eq!(s.name, "Ben");
            assert_eq!(s.course, "7");
            assert_eq!(s.question, "");
        },
        _ => panic!("expected the persist action first"),
    }
    assert!(matches!(acts[1], Action::Send(Reply::ClosingSenior)));
    assert!(e.has_submission(2));
}

#[test]
fn senior_literal_flow() {
    let mut e = Engine::new(Vec::new());
    only_send(e.handle_event(ev(3, "/start")));
    only_send(e.handle_event(ev(3, "Cleo")));
    let acts = e.handle_event(ev(3, "6+"));
    match &acts[0] {
        Action::Persist(s) => {
            assert_eq!(s.course, "6+");
            assert_eq!(s.question, "");
        },
        _ => panic!("expected the persist action first"),
    }
}

#[test]
fn reentry_is_idempotent() {
    let mut e = Engine::new(Vec::new());
    only_send(e.handle_event(ev(1, "/start")));
    only_send(e.handle_event(ev(1, "Ann")));
    e.handle_event(ev(1, "7"));
    assert_eq!(e.submission_count(), 1);
    let r = only_send(e.handle_event(ev(1, "/start")));
    assert!(matches!(r, Reply::AlreadySubmitted));
    assert_eq!(e.submission_count(), 1);
    let r = only_send(e.handle_event(ev(1, "/start")));
    assert!(matches!(r, Reply::AlreadySubmitted));
    assert_eq!(e.submission_count(), 1);
}

#[test]
fn rejected_course_reprompts_and_stays() {
    let mut e = Engine::new(Vec::new());
    only_send(e.handle_event(ev(1, "/start")));
    only_send(e.handle_event(ev(1, "Ann")));
    assert!(matches!(only_send(e.handle_event(ev(1, "abc"))), Reply::RetryCourse));
    assert!(matches!(only_send(e.handle_event(ev(1, "0"))), Reply::RetryCourse));
    assert!(matches!(only_send(e.handle_event(no_text(1))), Reply::RetryCourse));
    assert!(matches!(only_send(e.handle_event(ev(1, "3"))), Reply::AskMotivation));
}

#[test]
fn missing_text_reprompts_for_name_and_motivation() {
    let mut e = Engine::new(Vec::new());
    only_send(e.handle_event(ev(1, "/start")));
    assert!(matches!(only_send(e.handle_event(no_text(1))), Reply::NeedText));
    only_send(e.handle_event(ev(1, "Ann")));
    only_send(e.handle_event(ev(1, "2")));
    assert!(matches!(only_send(e.handle_event(no_text(1))), Reply::NeedText));
    assert_eq!(e.submission_count(), 0);
}

#[test]
fn cancellation_leaves_no_residue() {
    let mut e = Engine::new(Vec::new());
    only_send(e.handle_event(ev(1, "/start")));
    only_send(e.handle_event(ev(1, "Ann")));
    assert!(matches!(only_send(e.handle_event(ev(1, "/cancel"))), Reply::Cancelled));
    assert_eq!(e.submission_count(), 0);
    // A fresh entry asks the name again: nothing of "Ann" survived.
    assert!(matches!(only_send(e.handle_event(ev(1, "/start"))), Reply::AskName));
    assert!(matches!(only_send(e.handle_event(ev(1, "Zoe"))), Reply::AskCourse));
    let acts = e.handle_event(ev(1, "7"));
    match &acts[0] {
        Action::Persist(s) => assert_eq!(s.name, "Zoe"),
        _ => panic!("expected the persist action first"),
    }
}

#[test]
fn cancel_outside_any_session_just_acknowledges() {
    let mut e = Engine::new(Vec::new());
    let r = only_send(e.handle_event(ev(5, "/cancel")));
    assert!(matches!(r, Reply::Cancelled));
    assert_eq!(e.submission_count(), 0);
}

#[test]
fn commands_mid_form_are_payload() {
    let mut e = Engine::new(Vec::new());
    only_send(e.handle_event(ev(1, "/start")));
    // Mid-form, a non-cancel command is an answer, as any other text.
    assert!(matches!(only_send(e.handle_event(ev(1, "/help"))), Reply::AskCourse));
    assert!(matches!(only_send(e.handle_event(ev(1, "abc"))), Reply::RetryCourse));
}

#[test]
fn unknown_text_outside_sessions_is_ignored() {
    let mut e = Engine::new(Vec::new());
    assert!(e.handle_event(ev(9, "hello")).is_empty());
    assert!(e.handle_event(no_text(9)).is_empty());
    assert_eq!(e.submission_count(), 0);
}

#[test]
fn help_lists_commands() {
    let mut e = Engine::new(vec![99]);
    assert!(matches!(only_send(e.handle_event(ev(1, "/help"))), Reply::Help));
    assert!(matches!(only_send(e.handle_event(ev(99, "/help"))), Reply::HelpOperator));
}

#[test]
fn empty_text_is_still_a_payload() {
    // The rejection signal is "no text payload", never "the text was empty":
    // an empty name and an empty motivation are accepted as answers.
    let mut e = Engine::new(Vec::new());
    only_send(e.handle_event(ev(1, "/start")));
    assert!(matches!(only_send(e.handle_event(ev(1, ""))), Reply::AskCourse));
    only_send(e.handle_event(ev(1, "2")));
    let acts = e.handle_event(ev(1, ""));
    match &acts[0] {
        Action::Persist(s) => {
            assert_eq!(s.name, "");
            assert_eq!(s.question, "");
        },
        _ => panic!("expected the persist action first"),
    }
}

#[test]
fn sender_handle_is_recorded() {
    let mut e = Engine::new(Vec::new());
    let named = |text: &str| Event {
        chat_id: 4,
        username: Some("ann_handle".to_owned()),
        text: Some(text.to_owned()),
    };
    e.handle_event(named("/start"));
    e.handle_event(named("Ann"));
    let acts = e.handle_event(named("7"));
    match &acts[0] {
        Action::Persist(s) => assert_eq!(s.username.as_deref(), Some("ann_handle")),
        _ => panic!("expected the persist action first"),
    }
}

#[test]
fn persist_outcome_gates_the_closing_reply() {
    assert!(matches!(after_persist(true, Reply::ClosingJunior), Reply::ClosingJunior));
    assert!(matches!(after_persist(true, Reply::ClosingSenior), Reply::ClosingSenior));
    assert!(matches!(after_persist(false, Reply::ClosingJunior), Reply::PersistFailed));
}
