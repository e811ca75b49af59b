use hr::repo::Repository;
use hr::state::{FormState, Submission};
use hr::store::DialogueStore;

fn sub(chat_id: i64, name: &str, course: &str, question: &str) -> Submission {
    Submission {
        chat_id,
        username: None,
        name: name.to_owned(),
        course: course.to_owned(),
        question: question.to_owned(),
    }
}

#[test]
fn repository_round_trip() {
    let mut r = Repository::new();
    assert_eq!(r.len(), 0);
    assert!(!r.contains_chat_id(1));
    assert!(r.find_by_chat_id(1).is_none());
    r.insert(sub(1, "Ann", "3", "Because fun"));
    r.insert(sub(2, "Ben", "7", ""));
    assert_eq!(r.len(), 2);
    assert!(r.contains_chat_id(1));
    assert!(r.contains_chat_id(2));
    assert!(!r.contains_chat_id(3));
    let found = r.find_by_chat_id(2).expect("stored");
    assert_eq!(found.name, "Ben");
    assert_eq!(found.course, "7");
    assert_eq!(found.question, "");
}

#[test]
fn repository_snapshots_in_insertion_order() {
    let mut r = Repository::new();
    r.insert(sub(5, "Ann", "2", "x"));
    r.insert(sub(3, "Ben", "6+", ""));
    r.insert(sub(9, "Cleo", "1", "y"));
    assert_eq!(r.recipient_ids(), vec![5, 3, 9]);
    let all = r.export_all();
    assert_eq!(all.len(), 3);
    assert_eq!(all[0].name, "Ann");
    assert_eq!(all[1].chat_id, 3);
    assert_eq!(all[2].question, "y");
}

#[test]
fn store_defaults_and_clear() {
    let mut s: DialogueStore<FormState> = DialogueStore::new();
    assert!(s.take(7).is_none());
    s.set(7, FormState::AwaitingName);
    assert!(matches!(s.take(7), Some(FormState::AwaitingName)));
    // take removed the entry
    assert!(s.take(7).is_none());
    s.set(7, FormState::AwaitingName);
    s.clear(7);
    assert!(s.take(7).is_none());
}
