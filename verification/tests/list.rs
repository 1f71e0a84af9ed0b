use todo_app::text::{char_is_whitespace, name_is_blank};
use todo_app::{AddError, Task, TaskStatus, Todo};

fn ids(todo: &Todo) -> Vec<u64> {
    todo.tasks.iter().map(|t| t.id).collect()
}

fn names(todo: &Todo) -> Vec<String> {
    todo.tasks.iter().map(|t| t.task_name.clone()).collect()
}

#[test]
fn default_list_is_empty_and_starts_at_one() {
    let todo = Todo::default();
    assert!(todo.tasks.is_empty());
    assert_eq!(todo.next_id, 1);
}

#[test]
fn add_gives_next_id_and_returns_the_task() {
    let mut todo = Todo::default();
    let task = todo.add_task("buy milk".to_string()).unwrap();
    assert_eq!(
        task,
        Task { id: 1, task_name: "buy milk".to_string(), status: TaskStatus::NotStarted }
    );
    assert_eq!(todo.tasks, vec![task]);
    assert_eq!(todo.next_id, 2);
}

#[test]
fn add_appends_in_order_with_rising_ids() {
    let mut todo = Todo::default();
    for name in ["a", "b", "c", "d"] {
        todo.add_task(name.to_string()).unwrap();
    }
    assert_eq!(ids(&todo), vec![1, 2, 3, 4]);
    assert_eq!(names(&todo), vec!["a", "b", "c", "d"]);
    assert_eq!(todo.next_id, 5);
}

#[test]
fn add_keeps_the_name_as_given() {
    let mut todo = Todo::default();
    let task = todo.add_task("  walk dog \n".to_string()).unwrap();
    assert_eq!(task.task_name, "  walk dog \n");
    assert_eq!(todo.tasks[0].task_name, "  walk dog \n");
}

#[test]
fn add_refuses_blank_names_and_changes_nothing() {
    let mut todo = Todo::default();
    todo.add_task("kept".to_string()).unwrap();
    let before = todo.clone();
    for name in ["", " ", "\t", "\n", " \t\r\n ", "\u{a0}", "\u{3000}\u{2003}", "\u{85}\u{1680}"] {
        assert_eq!(todo.add_task(name.to_string()), Err(AddError::InvalidName), "{:?}", name);
        assert_eq!(todo, before);
    }
}

#[test]
fn add_takes_names_that_only_look_blank() {
    let mut todo = Todo::default();
    // zero width space and the character before the white-space range: neither is white space
    assert!(todo.add_task("\u{200b}".to_string()).is_ok());
    assert!(todo.add_task("\u{8}".to_string()).is_ok());
    assert!(todo.add_task(" x ".to_string()).is_ok());
    assert_eq!(todo.next_id, 4);
}

#[test]
fn add_refuses_when_ids_are_used_up() {
    let mut todo = Todo { tasks: Vec::new(), next_id: u64::MAX };
    assert_eq!(todo.add_task("late".to_string()), Err(AddError::IdsExhausted));
    assert!(todo.tasks.is_empty());
    assert_eq!(todo.next_id, u64::MAX);
    // a blank name is reported as such even then
    assert_eq!(todo.add_task(" ".to_string()), Err(AddError::InvalidName));
}

#[test]
fn add_gives_the_last_id_before_the_limit() {
    let mut todo = Todo { tasks: Vec::new(), next_id: u64::MAX - 1 };
    let task = todo.add_task("last".to_string()).unwrap();
    assert_eq!(task.id, u64::MAX - 1);
    assert_eq!(todo.next_id, u64::MAX);
}

#[test]
fn delete_moves_the_last_task_into_the_gap() {
    let mut todo = Todo::default();
    for name in ["a", "b", "c", "d"] {
        todo.add_task(name.to_string()).unwrap();
    }
    assert!(todo.delete_task(2));
    assert_eq!(ids(&todo), vec![1, 4, 3]);
    assert_eq!(names(&todo), vec!["a", "d", "c"]);
    assert_eq!(todo.next_id, 5);
}

#[test]
fn delete_of_the_last_task_only_shortens() {
    let mut todo = Todo::default();
    for name in ["a", "b", "c"] {
        todo.add_task(name.to_string()).unwrap();
    }
    assert!(todo.delete_task(3));
    assert_eq!(ids(&todo), vec![1, 2]);
    assert!(todo.delete_task(1));
    assert_eq!(ids(&todo), vec![2]);
    assert!(todo.delete_task(2));
    assert!(todo.tasks.is_empty());
    assert_eq!(todo.next_id, 4);
}

#[test]
fn delete_of_an_absent_id_changes_nothing() {
    let mut todo = Todo::default();
    todo.add_task("a".to_string()).unwrap();
    todo.add_task("b".to_string()).unwrap();
    let before = todo.clone();
    assert!(!todo.delete_task(7));
    assert!(!todo.delete_task(0));
    assert_eq!(todo, before);
    let mut empty = Todo::default();
    assert!(!empty.delete_task(1));
    assert_eq!(empty, Todo::default());
}

#[test]
fn delete_removes_exactly_one_task() {
    let mut todo = Todo::default();
    for name in ["a", "b", "c", "d", "e"] {
        todo.add_task(name.to_string()).unwrap();
    }
    let before = todo.clone();
    assert!(todo.delete_task(3));
    assert_eq!(todo.tasks.len(), before.tasks.len() - 1);
    assert_eq!(todo.next_id, before.next_id);
    for task in &before.tasks {
        let left = todo.tasks.iter().filter(|t| *t == task).count();
        assert_eq!(left, if task.id == 3 { 0 } else { 1 });
    }
}

#[test]
fn delete_takes_the_first_of_equal_ids() {
    let task = |id: u64, name: &str| Task {
        id,
        task_name: name.to_string(),
        status: TaskStatus::NotStarted,
    };
    let mut todo = Todo { tasks: vec![task(5, "x"), task(9, "first"), task(9, "second"), task(6, "y")], next_id: 3 };
    assert!(todo.delete_task(9));
    assert_eq!(names(&todo), vec!["x", "y", "second"]);
    assert_eq!(todo.next_id, 3);
}

#[test]
fn deleted_ids_are_not_given_out_again() {
    let mut todo = Todo::default();
    todo.add_task("buy milk".to_string()).unwrap();
    todo.add_task("walk dog".to_string()).unwrap();
    assert!(todo.delete_task(1));
    let task = todo.add_task("call mom".to_string()).unwrap();
    assert_eq!(task.id, 3);
    let mut left = ids(&todo);
    left.sort();
    assert_eq!(left, vec![2, 3]);
    assert_eq!(todo.next_id, 4);
}

#[test]
fn ids_rise_whatever_is_deleted_in_between() {
    let mut todo = Todo::default();
    let mut given: Vec<u64> = Vec::new();
    for round in 0..20u64 {
        given.push(todo.add_task(format!("task {}", round)).unwrap().id);
        if round % 3 == 0 {
            assert!(todo.delete_task(given[(round / 2) as usize]) || round / 2 != round);
        }
        assert_eq!(todo.add_task("  ".to_string()), Err(AddError::InvalidName));
    }
    for pair in given.windows(2) {
        assert!(pair[0] < pair[1]);
    }
    assert_eq!(given, (1..=20).collect::<Vec<u64>>());
    let mut left = ids(&todo);
    left.sort();
    left.dedup();
    assert_eq!(left.len(), todo.tasks.len());
    assert!(left.iter().all(|id| *id < todo.next_id));
}

#[test]
fn update_status_changes_one_task() {
    let mut todo = Todo::default();
    for name in ["a", "b", "c"] {
        todo.add_task(name.to_string()).unwrap();
    }
    assert!(todo.update_status(2, TaskStatus::InProgress));
    assert_eq!(todo.tasks[0].status, TaskStatus::NotStarted);
    assert_eq!(todo.tasks[1].status, TaskStatus::InProgress);
    assert_eq!(todo.tasks[2].status, TaskStatus::NotStarted);
    assert_eq!(ids(&todo), vec![1, 2, 3]);
    assert_eq!(names(&todo), vec!["a", "b", "c"]);
    assert_eq!(todo.next_id, 4);
}

#[test]
fn update_status_allows_any_change() {
    let mut todo = Todo::default();
    todo.add_task("a".to_string()).unwrap();
    assert!(todo.update_status(1, TaskStatus::Completed));
    assert_eq!(todo.tasks[0].status, TaskStatus::Completed);
    assert!(todo.update_status(1, TaskStatus::NotStarted));
    assert_eq!(todo.tasks[0].status, TaskStatus::NotStarted);
    assert!(todo.update_status(1, TaskStatus::NotStarted));
    assert_eq!(todo.tasks[0].status, TaskStatus::NotStarted);
}

#[test]
fn update_status_of_an_absent_id_changes_nothing() {
    let mut todo = Todo::default();
    todo.add_task("a".to_string()).unwrap();
    let before = todo.clone();
    assert!(!todo.update_status(2, TaskStatus::Completed));
    assert_eq!(todo, before);
}

#[test]
fn find_gives_the_first_place() {
    let mut todo = Todo::default();
    for name in ["a", "b", "c"] {
        todo.add_task(name.to_string()).unwrap();
    }
    assert_eq!(todo.find(1), Some(0));
    assert_eq!(todo.find(3), Some(2));
    assert_eq!(todo.find(4), None);
    todo.tasks[2].id = 1;
    assert_eq!(todo.find(1), Some(0));
}

#[test]
fn list_tasks_gives_the_stored_order() {
    let mut todo = Todo::default();
    for name in ["a", "b", "c"] {
        todo.add_task(name.to_string()).unwrap();
    }
    todo.delete_task(1);
    let listed = todo.list_tasks();
    assert_eq!(listed.iter().map(|t| t.id).collect::<Vec<u64>>(), vec![3, 2]);
    assert_eq!(listed, &todo.tasks);
}

#[test]
fn status_names() {
    assert_eq!(TaskStatus::NotStarted.name(), "NOT_STARTED");
    assert_eq!(TaskStatus::InProgress.name(), "IN_PROGRESS");
    assert_eq!(TaskStatus::Completed.name(), "COMPLETED");
    for status in [TaskStatus::NotStarted, TaskStatus::InProgress, TaskStatus::Completed] {
        assert_eq!(TaskStatus::from_name(status.name()), Some(status));
    }
    for name in ["", "not_started", "Completed", "COMPLETED ", "DONE", "NOT STARTED"] {
        assert_eq!(TaskStatus::from_name(name), None, "{:?}", name);
    }
}

#[test]
fn white_space_is_what_the_standard_library_says() {
    for n in 0..=0x10FFFFu32 {
        if let Some(c) = char::from_u32(n) {
            assert_eq!(char_is_whitespace(c), c.is_whitespace(), "{:#x}", n);
        }
    }
}

#[test]
fn blank_names_are_those_that_trim_to_nothing() {
    for name in ["", " ", "a", " a", "a ", "\t\n", "\u{2028}\u{2029}", "\u{200b}", " \u{feff}", "\u{202f}\u{205f}"] {
        assert_eq!(name_is_blank(name), name.trim().is_empty(), "{:?}", name);
    }
}

#[test]
fn lists_made_by_the_operations_are_well_formed() {
    let mut todo = Todo::default();
    assert!(todo.is_well_formed());
    for name in ["a", "b", "c", "d"] {
        todo.add_task(name.to_string()).unwrap();
        assert!(todo.is_well_formed());
    }
    todo.delete_task(2);
    assert!(todo.is_well_formed());
    todo.update_status(4, TaskStatus::Completed);
    assert!(todo.is_well_formed());
    todo.add_task("e".to_string()).unwrap();
    assert!(todo.is_well_formed());
}

#[test]
fn lists_that_are_not_well_formed_are_told() {
    let task = |id: u64| Task { id, task_name: "x".to_string(), status: TaskStatus::NotStarted };
    assert!(Todo { tasks: vec![task(1), task(2)], next_id: 3 }.is_well_formed());
    assert!(Todo { tasks: Vec::new(), next_id: 0 }.is_well_formed());
    // an identifier that is not below `next_id`
    assert!(!Todo { tasks: vec![task(1), task(3)], next_id: 3 }.is_well_formed());
    assert!(!Todo { tasks: vec![task(0)], next_id: 0 }.is_well_formed());
    // an identifier that two tasks have
    assert!(!Todo { tasks: vec![task(1), task(2), task(1)], next_id: 9 }.is_well_formed());
    assert!(!Todo { tasks: vec![task(4), task(4)], next_id: 9 }.is_well_formed());
}
