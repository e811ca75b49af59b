use hr::engine::Engine;
use hr::state::{Action, Event, Reply};

fn ev(chat_id: i64, text: &str) -> Event {
    Event { chat_id, username: None, text: Some(text.to_owned()) }
}

fn only_send(mut acts: Vec<Action>) -> Reply {
    assert_eq!(acts.len(), 1);
    match acts.pop().unwrap() {
        Action::Send(r) => r,
        _ => panic!("expected a send action"),
    }
}

/// Completes the form for `chat_id` on the quick senior path.
fn submit(e: &mut Engine, chat_id: i64, name: &str) {
    e.handle_event(ev(chat_id, "/start"));
    e.handle_event(ev(chat_id, name));
    e.handle_event(ev(chat_id, "7"));
    assert!(e.has_submission(chat_id));
}

const OP: i64 = 99;

#[test]
fn broadcast_reaches_both_recipients_with_pauses() {
    let mut e = Engine::new(vec![OP]);
    submit(&mut e, 1, "Ann");
    submit(&mut e, 2, "Ben");
    assert!(matches!(only_send(e.handle_event(ev(OP, "/broadcast"))), Reply::AskBroadcastText));
    match only_send(e.handle_event(ev(OP, "Hello all"))) {
        Reply::Preview { count, message } => {
            assert_eq!(count, 2);
            assert_eq!(message, "Hello all");
        },
        _ => panic!("expected the preview"),
    }
    let acts = e.handle_event(ev(OP, "send"));
    assert_eq!(acts.len(), 5);
    match &acts[0] {
        Action::Deliver { chat_id, message } => {
            assert_eq!(*chat_id, 1);
            assert_eq!(message, "Hello all");
        },
        _ => panic!("expected a delivery first"),
    }
    assert!(matches!(acts[1], Action::Pause));
    match &acts[2] {
        Action::Deliver { chat_id, message } => {
            assert_eq!(*chat_id, 2);
            assert_eq!(message, "Hello all");
        },
        _ => panic!("expected the second delivery"),
    }
    assert!(matches!(acts[3], Action::Pause));
    assert!(matches!(acts[4], Action::Send(Reply::BroadcastDone)));
}

#[test]
fn snapshot_excludes_submissions_after_preview() {
    let mut e = Engine::new(vec![OP]);
    submit(&mut e, 1, "Ann");
    e.handle_event(ev(OP, "/broadcast"));
    match only_send(e.handle_event(ev(OP, "News"))) {
        Reply::Preview { count, .. } => assert_eq!(count, 1),
        _ => panic!("expected the preview"),
    }
    // A submission lands between preview and confirmation.
    submit(&mut e, 2, "Ben");
    assert_eq!(e.submission_count(), 2);
    let acts = e.handle_event(ev(OP, "send"));
    assert_eq!(acts.len(), 3);
    match &acts[0] {
        Action::Deliver { chat_id, .. } => assert_eq!(*chat_id, 1),
        _ => panic!("expected one delivery"),
    }
    assert!(matches!(acts[1], Action::Pause));
    assert!(matches!(acts[2], Action::Send(Reply::BroadcastDone)));
}

#[test]
fn broadcast_with_no_recipients() {
    let mut e = Engine::new(vec![OP]);
    e.handle_event(ev(OP, "/broadcast"));
    match only_send(e.handle_event(ev(OP, "Anyone?"))) {
        Reply::Preview { count, .. } => assert_eq!(count, 0),
        _ => panic!("expected the preview"),
    }
    let acts = e.handle_event(ev(OP, "send"));
    assert_eq!(acts.len(), 1);
    assert!(matches!(acts[0], Action::Send(Reply::BroadcastDone)));
}

#[test]
fn confirmation_tokens_are_case_insensitive() {
    let mut e = Engine::new(vec![OP]);
    submit(&mut e, 1, "Ann");
    e.handle_event(ev(OP, "/broadcast"));
    e.handle_event(ev(OP, "Hi"));
    assert!(matches!(only_send(e.handle_event(ev(OP, "maybe"))), Reply::ChooseSendOrCancel));
    let acts = e.handle_event(ev(OP, "SeNd"));
    assert!(matches!(acts[0], Action::Deliver { .. }));
}

#[test]
fn broadcast_cancel_at_confirmation() {
    let mut e = Engine::new(vec![OP]);
    submit(&mut e, 1, "Ann");
    e.handle_event(ev(OP, "/broadcast"));
    e.handle_event(ev(OP, "Hi"));
    assert!(matches!(only_send(e.handle_event(ev(OP, "CANCEL"))), Reply::BroadcastCancelled));
    // The session ended: plain text is ignored again.
    assert!(e.handle_event(ev(OP, "Hi")).is_empty());
}

#[test]
fn cancel_command_aborts_broadcast_session() {
    let mut e = Engine::new(vec![OP]);
    e.handle_event(ev(OP, "/broadcast"));
    assert!(matches!(only_send(e.handle_event(ev(OP, "/cancel"))), Reply::Cancelled));
    assert!(e.handle_event(ev(OP, "stray text")).is_empty());
}

#[test]
fn non_operator_gated_commands_are_silent() {
    let mut e = Engine::new(vec![OP]);
    submit(&mut e, 1, "Ann");
    assert!(e.handle_event(ev(2, "/broadcast")).is_empty());
    assert!(e.handle_event(ev(2, "/orglist")).is_empty());
    // No broadcast state was created: the next text enters no machine.
    assert!(e.handle_event(ev(2, "Hello")).is_empty());
    assert_eq!(e.submission_count(), 1);
}

#[test]
fn export_lists_every_submission() {
    let mut e = Engine::new(vec![OP]);
    submit(&mut e, 1, "Ann");
    submit(&mut e, 2, "Ben");
    let acts = e.handle_event(ev(OP, "/orglist"));
    assert_eq!(acts.len(), 2);
    match &acts[0] {
        Action::Send(Reply::FoundCount(n)) => assert_eq!(*n, 2),
        _ => panic!("expected the count"),
    }
    match &acts[1] {
        Action::Export(subs) => {
            assert_eq!(subs.len(), 2);
            assert_eq!(subs[0].name, "Ann");
            assert_eq!(subs[1].name, "Ben");
        },
        _ => panic!("expected the export"),
    }
}

#[test]
fn reprompt_when_announcement_has_no_text() {
    let mut e = Engine::new(vec![OP]);
    e.handle_event(ev(OP, "/broadcast"));
    let acts = e.handle_event(Event { chat_id: OP, username: None, text: None });
    assert!(matches!(acts[0], Action::Send(Reply::NeedText)));
    // Still composing: text now becomes the announcement.
    assert!(matches!(only_send(e.handle_event(ev(OP, "Hi"))), Reply::Preview { .. }));
}
