use todo_app::session::{parse_choice, text_is_char, Choice, Outcome, Prompt, Session};
use todo_app::{Task, TaskStatus, Todo};

fn started() -> Session {
    let mut session = Session::new(Todo::default());
    for name in ["buy milk", "walk dog", "call mom"] {
        assert_eq!(session.enter("1\n"), Outcome::AskTaskName);
        assert!(matches!(session.enter(name), Outcome::Added(_)));
    }
    session
}

fn ids(session: &Session) -> Vec<u64> {
    session.todo.tasks.iter().map(|t| t.id).collect()
}

#[test]
fn a_session_begins_at_the_menu() {
    let todo = Todo { tasks: Vec::new(), next_id: 9 };
    let session = Session::new(todo.clone());
    assert_eq!(session.prompt, Prompt::Choice);
    assert_eq!(session.todo, todo);
}

#[test]
fn choices_are_the_digits_one_to_five() {
    assert_eq!(parse_choice("1"), Some(Choice::AddTask));
    assert_eq!(parse_choice("2"), Some(Choice::ListTasks));
    assert_eq!(parse_choice("3"), Some(Choice::UpdateStatus));
    assert_eq!(parse_choice("4"), Some(Choice::DeleteTask));
    assert_eq!(parse_choice("5"), Some(Choice::Quit));
    for text in ["", "0", "6", "11", "1 ", " 1", "one", "+1", "\u{661}"] {
        assert_eq!(parse_choice(text), None, "{:?}", text);
    }
}

#[test]
fn text_is_char_wants_exactly_one_character() {
    assert!(text_is_char("y", 'y'));
    assert!(text_is_char("\u{e9}", '\u{e9}'));
    assert!(!text_is_char("", 'y'));
    assert!(!text_is_char("n", 'y'));
    assert!(!text_is_char("yy", 'y'));
    assert!(!text_is_char("Y", 'y'));
}

#[test]
fn a_bad_choice_leaves_the_session_at_the_menu() {
    let mut session = started();
    let before = session.clone();
    for line in ["", "\n", "0", "6", "add", "12", "1 2"] {
        assert_eq!(session.enter(line), Outcome::BadChoice, "{:?}", line);
        assert_eq!(session, before);
    }
}

#[test]
fn listing_changes_nothing() {
    let mut session = started();
    let before = session.clone();
    assert_eq!(session.enter(" 2 \n"), Outcome::ListTasks);
    assert_eq!(session, before);
}

#[test]
fn adding_takes_the_name_without_the_white_space_around_it() {
    let mut session = Session::new(Todo::default());
    assert_eq!(session.enter("1\n"), Outcome::AskTaskName);
    assert_eq!(session.prompt, Prompt::TaskName);
    assert_eq!(session.enter("  buy milk \n"), Outcome::Added(1));
    assert_eq!(session.prompt, Prompt::Choice);
    assert_eq!(
        session.todo,
        Todo {
            tasks: vec![Task { id: 1, task_name: "buy milk".to_string(), status: TaskStatus::NotStarted }],
            next_id: 2,
        }
    );
}

#[test]
fn a_blank_name_adds_nothing_and_returns_to_the_menu() {
    let mut session = started();
    let todo = session.todo.clone();
    for line in ["", "\n", "   \t\n"] {
        assert_eq!(session.enter("1"), Outcome::AskTaskName);
        assert_eq!(session.enter(line), Outcome::InvalidName, "{:?}", line);
        assert_eq!(session.prompt, Prompt::Choice);
        assert_eq!(session.todo, todo);
    }
}

#[test]
fn adding_reports_when_ids_are_used_up() {
    let mut session = Session::new(Todo { tasks: Vec::new(), next_id: u64::MAX });
    session.enter("1");
    assert_eq!(session.enter("late"), Outcome::IdsExhausted);
    assert_eq!(session.prompt, Prompt::Choice);
    assert!(session.todo.tasks.is_empty());
}

#[test]
fn deleting_by_identifier() {
    let mut session = started();
    assert_eq!(session.enter("4\n"), Outcome::AskDeleteId);
    assert_eq!(session.prompt, Prompt::DeleteId);
    assert_eq!(session.enter(" 1\n"), Outcome::Deleted(1));
    assert_eq!(session.prompt, Prompt::Choice);
    assert_eq!(ids(&session), vec![3, 2]);
    assert_eq!(session.todo.next_id, 4);
}

#[test]
fn deleting_an_absent_identifier_is_reported() {
    let mut session = started();
    let todo = session.todo.clone();
    session.enter("4");
    assert_eq!(session.enter("17"), Outcome::NotFound(17));
    assert_eq!(session.prompt, Prompt::Choice);
    assert_eq!(session.todo, todo);
}

#[test]
fn an_identifier_that_is_no_number_is_reported() {
    let mut session = started();
    let todo = session.todo.clone();
    for line in ["", "one", "-1", "1.5", "1 2", "99999999999999999999"] {
        session.enter("4");
        assert_eq!(session.enter(line), Outcome::InvalidId, "{:?}", line);
        assert_eq!(session.prompt, Prompt::Choice);
        session.enter("3");
        assert_eq!(session.enter(line), Outcome::InvalidId, "{:?}", line);
        assert_eq!(session.prompt, Prompt::Choice);
        assert_eq!(session.todo, todo);
    }
}

#[test]
fn changing_a_status() {
    let mut session = started();
    assert_eq!(session.enter("3\n"), Outcome::AskStatusId);
    assert_eq!(session.prompt, Prompt::StatusId);
    assert_eq!(session.enter("2\n"), Outcome::AskNewStatus);
    assert_eq!(session.prompt, Prompt::NewStatus(2));
    assert_eq!(session.enter(" IN_PROGRESS\n"), Outcome::StatusChanged(2, TaskStatus::InProgress));
    assert_eq!(session.prompt, Prompt::Choice);
    assert_eq!(session.todo.tasks[1].status, TaskStatus::InProgress);
    assert_eq!(session.todo.tasks[0].status, TaskStatus::NotStarted);
    assert_eq!(session.todo.tasks[2].status, TaskStatus::NotStarted);
    assert_eq!(ids(&session), vec![1, 2, 3]);
}

#[test]
fn changing_the_status_of_an_absent_task_is_reported_at_once() {
    let mut session = started();
    let todo = session.todo.clone();
    session.enter("3");
    assert_eq!(session.enter("8"), Outcome::NotFound(8));
    assert_eq!(session.prompt, Prompt::Choice);
    assert_eq!(session.todo, todo);
}

#[test]
fn a_status_of_another_name_is_reported() {
    let mut session = started();
    let todo = session.todo.clone();
    for line in ["", "done", "completed", "IN PROGRESS", "2"] {
        session.enter("3");
        session.enter("1");
        assert_eq!(session.enter(line), Outcome::InvalidStatus, "{:?}", line);
        assert_eq!(session.prompt, Prompt::Choice);
        assert_eq!(session.todo, todo);
    }
}

#[test]
fn a_status_for_a_task_that_is_gone_is_reported() {
    let mut session = started();
    session.prompt = Prompt::NewStatus(12);
    let todo = session.todo.clone();
    assert_eq!(session.enter("COMPLETED"), Outcome::NotFound(12));
    assert_eq!(session.prompt, Prompt::Choice);
    assert_eq!(session.todo, todo);
}

#[test]
fn quitting_asks_for_a_save() {
    let mut session = started();
    let todo = session.todo.clone();
    assert_eq!(session.enter("5\n"), Outcome::Save);
    assert_eq!(session.prompt, Prompt::ExitAnyway);
    assert_eq!(session.todo, todo);
}

#[test]
fn after_a_failed_save_y_leaves() {
    let mut session = started();
    session.enter("5");
    assert_eq!(session.enter("y\n"), Outcome::Exit);
}

#[test]
fn after_a_failed_save_anything_else_resumes() {
    for line in ["n", "", "yes", "Y", "no\n"] {
        let mut session = started();
        let todo = session.todo.clone();
        session.enter("5");
        assert_eq!(session.enter(line), Outcome::Resume, "{:?}", line);
        assert_eq!(session.prompt, Prompt::Choice);
        assert_eq!(session.todo, todo);
        assert_eq!(session.enter("2"), Outcome::ListTasks);
    }
}

#[test]
fn a_whole_conversation() {
    let mut session = Session::new(Todo::default());
    let lines = ["1", "buy milk", "1", "walk dog", "4", "1", "1", "call mom", "9", "3", "3", "COMPLETED", "5"];
    let outcomes: Vec<Outcome> = lines.iter().map(|line| session.enter(line)).collect();
    assert_eq!(
        outcomes,
        vec![
            Outcome::AskTaskName,
            Outcome::Added(1),
            Outcome::AskTaskName,
            Outcome::Added(2),
            Outcome::AskDeleteId,
            Outcome::Deleted(1),
            Outcome::AskTaskName,
            Outcome::Added(3),
            Outcome::BadChoice,
            Outcome::AskStatusId,
            Outcome::AskNewStatus,
            Outcome::StatusChanged(3, TaskStatus::Completed),
            Outcome::Save,
        ]
    );
    let mut left = ids(&session);
    left.sort();
    assert_eq!(left, vec![2, 3]);
    assert_eq!(session.todo.next_id, 4);
}
