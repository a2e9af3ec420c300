use lean::naming::{format_percent, status_prefix};
use lean::path::FsPath;
use lean::task::{now_rounded, Occurrence, Recurrence, Task, Timestamp, Weekday};
use lean::workspace::Workspace;

fn task_titled(title: &str) -> Task {
    let mut task = Task::new();
    task.title = String::from(title);
    task
}

fn stamp(secs: i64, offset: i32) -> Timestamp {
    Timestamp { secs, offset }
}

#[test]
fn create_task() -> Result<(), String> {
    let mut task = Task {
        title: String::from("Title"),
        description: String::from("Description"),
        created_at: now_rounded(),
        done_percent: 0,
        effort: vec![5.0f64.to_bits()],
        occurrence: Occurrence::Periodic { recurrence: Recurrence::Weekly(Weekday::Mon) },
        due_at: None,
        started_at: None,
        paused_at: None,
        resumed_at: None,
        finished_at: None,
        cancelled_at: None,
        people: None,
    };

    assert_eq!("Title", task.title);
    assert_eq!("Description", task.description);
    assert_eq!(1, task.effort.len());

    assert!(task.is_valid());
    task.title.clear();
    assert!(!task.is_valid());

    Ok(())
}

#[test]
fn new_task_is_a_blank_template() {
    let task = Task::new();
    assert!(task.title.is_empty());
    assert!(task.description.is_empty());
    assert_eq!(Occurrence::OneTime, task.occurrence);
    assert!(task.effort.is_empty());
    assert_eq!(0, task.done_in_percent());
    assert!(!task.is_valid());
}

#[test]
fn titles_without_slug_characters_are_invalid() {
    assert!(!task_titled("   ").is_valid());
    assert!(!task_titled("!?").is_valid());
    assert!(task_titled(" ok ").is_valid());
}

#[test]
fn percent_has_three_digits() {
    assert_eq!("000", format_percent(0));
    assert_eq!("007", format_percent(7));
    assert_eq!("042", format_percent(42));
    assert_eq!("100", format_percent(100));
}

#[test]
fn prefix_follows_the_lifecycle_priority() {
    let mut task = task_titled("t");
    task.done_percent = 5;
    assert_eq!("005U", status_prefix(&task, ""));
    task.started_at = Some(stamp(0, 0));
    assert_eq!("005P", status_prefix(&task, ""));
    task.paused_at = Some(vec![stamp(10, 0)]);
    assert_eq!("005S", status_prefix(&task, ""));
    task.finished_at = Some(stamp(20, 0));
    assert_eq!("Xwhen", status_prefix(&task, "when"));
}

#[test]
fn file_name_of_a_finished_task_holds_its_time() {
    let ws = Workspace { base_dir: FsPath::parse("/ws") };
    let mut task = task_titled("My Task");
    task.finished_at = Some(stamp(1570618800, 7200));
    assert_eq!("X2019-10-09T13:00:00+02:00_my_task.yaml", ws.get_file_name(&task));
}

#[test]
fn file_name_and_path_of_an_open_task() {
    let ws = Workspace { base_dir: FsPath::parse("/ws") };
    let mut task = task_titled("  Write   the Report ");
    task.done_percent = 30;
    task.started_at = Some(stamp(1577934245, 0));
    assert_eq!("030P_write_the_report.yaml", ws.get_file_name(&task));
    let path = ws.get_path(&Some(String::from("work/q1")), &task);
    assert_eq!("/ws/tasks/work/q1/030P_write_the_report.yaml", path.to_text());
    let path = ws.get_path(&None, &task);
    assert_eq!("/ws/tasks/030P_write_the_report.yaml", path.to_text());
    assert_eq!("/ws/tasks", ws.task_dir(".").to_text());
}

#[test]
fn timestamps_check_their_range() {
    assert!(stamp(0, 0).is_in_range());
    assert!(!stamp(i64::MAX, 0).is_in_range());
    assert!(!stamp(0, 86_400).is_in_range());
    assert!(now_rounded().is_in_range());
}

#[test]
fn template_keeps_the_given_creation_time() {
    let task = Task::new_at(stamp(1577934245, 3600));
    assert_eq!(stamp(1577934245, 3600), task.created_at);
    assert!(task.title.is_empty());
    assert!(task.finished_at.is_none());
}
