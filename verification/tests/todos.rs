use backend_core::todos::{
    add_todo, add_todo_at, get_next_id, mark_completed, remove_todo, status_icon, summarize,
    Priority, Todo, TodoSummary,
};
use std::collections::HashMap;
use std::time::{Duration, SystemTime, UNIX_EPOCH};

fn at(secs: u64) -> SystemTime {
    UNIX_EPOCH + Duration::from_secs(secs)
}

fn todo(id: u32, completed: bool) -> Todo {
    Todo {
        id,
        title: format!("t{}", id),
        description: format!("d{}", id),
        completed,
        created_at: at(100),
        complete_at: at(200),
        priority: Priority::Medium,
    }
}

fn list(entries: &[(u32, bool)]) -> HashMap<u32, Todo> {
    entries.iter().map(|&(id, c)| (id, todo(id, c))).collect()
}

#[test]
fn next_id_of_an_empty_list_is_one() {
    assert_eq!(get_next_id(&HashMap::new()), 1);
}

#[test]
fn next_id_is_one_past_the_largest() {
    assert_eq!(get_next_id(&list(&[(3, false), (10, true), (4, false)])), 11);
    assert_eq!(get_next_id(&list(&[(0, false)])), 1);
    assert_eq!(get_next_id(&list(&[(u32::MAX - 1, false)])), u32::MAX);
}

#[test]
fn add_todo_at_uses_the_next_id_and_keeps_the_others() {
    let mut todos = list(&[(1, false), (5, true)]);
    let id = add_todo_at(&mut todos, "Buy milk".to_string(), "2 litres".to_string(), Priority::High, at(7), at(8));
    assert_eq!(id, 6);
    assert_eq!(todos.len(), 3);
    assert_eq!(
        todos[&6],
        Todo {
            id: 6,
            title: "Buy milk".to_string(),
            description: "2 litres".to_string(),
            completed: false,
            created_at: at(7),
            complete_at: at(8),
            priority: Priority::High,
        }
    );
    assert_eq!(todos[&1], todo(1, false));
    assert_eq!(todos[&5], todo(5, true));
}

#[test]
fn add_todo_stamps_the_current_time() {
    let before = SystemTime::now();
    let mut todos = HashMap::new();
    let id = add_todo(&mut todos, "a".to_string(), "b".to_string(), Priority::Low);
    let after = SystemTime::now();
    assert_eq!(id, 1);
    let t = &todos[&1];
    assert!(!t.completed);
    assert_eq!(t.priority, Priority::Low);
    assert!(before <= t.created_at && t.created_at <= after);
    assert!(before <= t.complete_at && t.complete_at <= after);
}

#[test]
fn successive_adds_get_increasing_ids() {
    let mut todos = HashMap::new();
    let a = add_todo_at(&mut todos, "a".to_string(), String::new(), Priority::Low, at(1), at(1));
    let b = add_todo_at(&mut todos, "b".to_string(), String::new(), Priority::Low, at(1), at(1));
    let c = add_todo_at(&mut todos, "c".to_string(), String::new(), Priority::Low, at(1), at(1));
    assert_eq!((a, b, c), (1, 2, 3));
}

#[test]
fn mark_completed_sets_only_that_todo() {
    let mut todos = list(&[(1, false), (2, false)]);
    assert!(mark_completed(&mut todos, 2));
    assert_eq!(todos[&2], todo(2, true));
    assert_eq!(todos[&1], todo(1, false));
}

#[test]
fn mark_completed_of_a_missing_id_changes_nothing() {
    let mut todos = list(&[(1, false)]);
    assert!(!mark_completed(&mut todos, 9));
    assert_eq!(todos, list(&[(1, false)]));
}

#[test]
fn mark_completed_is_idempotent() {
    let mut todos = list(&[(1, false)]);
    assert!(mark_completed(&mut todos, 1));
    let once = copy_list(&todos);
    assert!(mark_completed(&mut todos, 1));
    assert_eq!(todos, once);
}

fn copy_list(todos: &HashMap<u32, Todo>) -> HashMap<u32, Todo> {
    todos
        .iter()
        .map(|(k, t)| {
            (
                *k,
                Todo {
                    id: t.id,
                    title: t.title.clone(),
                    description: t.description.clone(),
                    completed: t.completed,
                    created_at: t.created_at,
                    complete_at: t.complete_at,
                    priority: t.priority,
                },
            )
        })
        .collect()
}

#[test]
fn remove_todo_gives_back_the_todo() {
    let mut todos = list(&[(1, false), (2, true)]);
    assert_eq!(remove_todo(&mut todos, 2), Some(todo(2, true)));
    assert_eq!(todos, list(&[(1, false)]));
    assert_eq!(remove_todo(&mut todos, 2), None);
    assert_eq!(todos, list(&[(1, false)]));
}

#[test]
fn remove_undoes_add() {
    let mut todos = list(&[(4, false)]);
    let before = copy_list(&todos);
    let id = add_todo_at(&mut todos, "x".to_string(), "y".to_string(), Priority::High, at(1), at(2));
    let removed = remove_todo(&mut todos, id).unwrap();
    assert_eq!(removed.title, "x");
    assert_eq!(removed.id, 5);
    assert_eq!(todos, before);
}

#[test]
fn summary_counts_completed_and_pending() {
    let todos = list(&[(1, false), (2, true), (3, true), (4, false), (5, false)]);
    assert_eq!(summarize(&todos), TodoSummary { total: 5, completed: 2, pending: 3 });
    assert_eq!(summarize(&HashMap::new()), TodoSummary { total: 0, completed: 0, pending: 0 });
}

#[test]
fn completing_moves_a_todo_from_pending_to_completed() {
    let mut todos = list(&[(1, false), (2, false)]);
    mark_completed(&mut todos, 1);
    assert_eq!(summarize(&todos), TodoSummary { total: 2, completed: 1, pending: 1 });
}

#[test]
fn icons_and_colours_follow_the_priority_and_state() {
    assert_eq!(Priority::High.icon(), "🔥");
    assert_eq!(Priority::Medium.icon(), "⚡");
    assert_eq!(Priority::Low.icon(), "🌱");
    assert_eq!(Priority::High.color(), "red");
    assert_eq!(Priority::Medium.color(), "yellow");
    assert_eq!(Priority::Low.color(), "green");
    assert_eq!(Priority::High.label(), "High");
    assert_eq!(Priority::Medium.label(), "Medium");
    assert_eq!(Priority::Low.label(), "Low");
    assert_eq!(status_icon(true), "✅");
    assert_eq!(status_icon(false), "⭕");
}
