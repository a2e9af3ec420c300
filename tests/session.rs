use lean::path::FsPath;
use lean::session::{ask_yes_no_answer, decision_from_lowered, EditingSession, SessionAction, SessionEvent, SessionStage};
use lean::task::Task;
use lean::workspace::Workspace;

fn session() -> EditingSession {
    let ws = Workspace { base_dir: FsPath::parse("/home/me/ws") };
    let (session, action) = EditingSession::start(ws, String::from("."));
    assert!(matches!(action, SessionAction::SeedAndEdit));
    assert_eq!(SessionStage::Editing, session.stage);
    session
}

fn titled(title: &str) -> Task {
    let mut task = Task::new();
    task.title = String::from(title);
    task
}

#[test]
fn declining_to_fix_an_empty_title_aborts_cleanly() {
    let mut s = session();
    assert!(matches!(s.handle(SessionEvent::EditorClosed), SessionAction::ReadBack));
    match s.handle(SessionEvent::Loaded(Ok(titled("")))) {
        SessionAction::Ask(reason) => assert_eq!("title is empty", reason),
        other => panic!("unexpected {:?}", other),
    }
    assert!(matches!(s.handle(SessionEvent::Answered(String::from("n\n"))), SessionAction::Discard));
    assert_eq!(SessionStage::Aborted, s.stage);
    assert!(s.is_finished());
    assert!(matches!(s.handle(SessionEvent::EditorClosed), SessionAction::Ignore));
}

#[test]
fn fixing_after_a_parse_error_publishes() {
    let mut s = session();
    s.handle(SessionEvent::EditorClosed);
    match s.handle(SessionEvent::Loaded(Err(String::from("bad yaml")))) {
        SessionAction::Ask(reason) => assert_eq!("bad yaml", reason),
        other => panic!("unexpected {:?}", other),
    }
    assert!(matches!(s.handle(SessionEvent::Answered(String::from("maybe"))), SessionAction::AskAgain));
    assert_eq!(SessionStage::AwaitingDecision, s.stage);
    assert!(matches!(s.handle(SessionEvent::Answered(String::from(" Y "))), SessionAction::Edit));
    assert_eq!(SessionStage::Editing, s.stage);
    s.handle(SessionEvent::EditorClosed);
    match s.handle(SessionEvent::Loaded(Ok(titled("Buy milk")))) {
        SessionAction::Publish(path) => assert_eq!("/home/me/ws/tasks/000U_buy_milk.yaml", path.to_text()),
        other => panic!("unexpected {:?}", other),
    }
    assert_eq!(SessionStage::Published, s.stage);
    assert!(s.is_finished());
}

#[test]
fn events_out_of_turn_are_ignored() {
    let mut s = session();
    assert!(matches!(s.handle(SessionEvent::Answered(String::from("y"))), SessionAction::Ignore));
    assert_eq!(SessionStage::Editing, s.stage);
    assert!(!s.is_finished());
}

#[test]
fn answers_are_read_case_insensitively() {
    assert_eq!(Some(true), ask_yes_no_answer("y"));
    assert_eq!(Some(true), ask_yes_no_answer("  Y\n"));
    assert_eq!(Some(false), ask_yes_no_answer("N"));
    assert_eq!(None, ask_yes_no_answer(""));
    assert_eq!(None, ask_yes_no_answer("yes"));
    assert_eq!(Some(false), decision_from_lowered("n"));
    assert_eq!(None, decision_from_lowered("N"));
}
