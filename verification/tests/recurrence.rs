use paperclip::recurrence::make_follow_up;
use paperclip::store::TodoList;
use paperclip::time::Timestamp;
use paperclip::todo::{RecurrencePattern, Todo, TodoStatus};

fn at(year: i32, month: u32, day: u32, hour: u32, minute: u32, second: u32) -> Timestamp {
    Timestamp::from_civil(year, month, day, hour, minute, second).unwrap()
}

#[test]
fn a_monthly_task_comes_back_a_month_later() {
    let now = at(2024, 1, 10, 9, 0, 0);
    let mut list = TodoList::new();
    let id = list.add_todo_at("Pay rent #bills due:2024-01-15".to_string(), now);
    assert_eq!(list.total_count(), 1);
    {
        let todo = list.get_todo(id).unwrap();
        assert_eq!(todo.description, "Pay rent bills");
        assert_eq!(todo.tags, vec!["bills".to_string()]);
        assert_eq!(todo.due_date, Some(at(2024, 1, 15, 23, 59, 59)));
    }
    let done = at(2024, 1, 14, 18, 0, 0);
    list.complete_at(id, done);
    list.set_recurrence(id, RecurrencePattern::Monthly);
    list.process_recurring_todos_at(at(2024, 1, 14, 18, 0, 1));
    assert_eq!(list.total_count(), 2);
    let source = list.get_todo(id).unwrap();
    assert_eq!(source.status, TodoStatus::Completed);
    assert_eq!(source.completed_at, Some(done));
    assert_eq!(source.due_date, Some(at(2024, 1, 15, 23, 59, 59)));
    assert_eq!(source.recurrence, RecurrencePattern::Monthly);
    assert!(source.children.is_empty());
    let next = list.get_todo(2).unwrap();
    assert_eq!(next.id, 2);
    assert_eq!(next.parent_id, None);
    assert_eq!(next.status, TodoStatus::Pending);
    assert_eq!(next.due_date, Some(at(2024, 2, 15, 23, 59, 59)));
    assert_eq!(next.description, "Pay rent bills");
    assert_eq!(next.raw_description, "Pay rent #bills due:2024-01-15");
    assert_eq!(next.tags, vec!["bills".to_string()]);
    assert_eq!(next.recurrence, RecurrencePattern::Monthly);
    assert_eq!(next.created_at, at(2024, 1, 14, 18, 0, 1));
    assert_eq!(list.next_id, 3);
    assert!(list.is_well_formed());
    let rows = list.get_flattened_todos();
    assert!(rows.iter().any(|(t, d)| t.id == 2 && *d == 0));
}

#[test]
fn the_follow_up_keeps_notes_priority_and_labels() {
    let now = at(2024, 1, 10, 9, 0, 0);
    let mut source = Todo::new_at(1, "Water #plants @home due:2024-01-10".to_string(), now);
    source.set_notes(Some("two litres".to_string()));
    source.set_priority(3);
    source.set_recurrence(RecurrencePattern::Custom(3));
    assert!(make_follow_up(&source, 9, now).is_none());
    source.complete_at(now);
    let next = make_follow_up(&source, 9, now).unwrap();
    assert_eq!(next.id, 9);
    assert_eq!(next.notes, Some("two litres".to_string()));
    assert_eq!(next.priority, 3);
    assert_eq!(next.tags, vec!["plants".to_string()]);
    assert_eq!(next.contexts, vec!["home".to_string()]);
    assert_eq!(next.recurrence, RecurrencePattern::Custom(3));
    assert_eq!(next.due_date, Some(at(2024, 1, 13, 23, 59, 59)));
    assert_eq!(next.status, TodoStatus::Pending);
    assert_eq!(next.completed_at, None);
}

#[test]
fn only_completed_recurring_tasks_with_a_due_date_come_back() {
    let now = at(2024, 1, 10, 9, 0, 0);
    let mut list = TodoList::new();
    let pending = list.add_todo_at("a due:2024-01-10".to_string(), now);
    list.set_recurrence(pending, RecurrencePattern::Daily);
    let plain = list.add_todo_at("b due:2024-01-10".to_string(), now);
    list.complete_at(plain, now);
    let undated = list.add_todo_at("c".to_string(), now);
    list.complete_at(undated, now);
    list.set_recurrence(undated, RecurrencePattern::Daily);
    let impossible = list.add_todo_at("d due:2024-01-31".to_string(), now);
    list.complete_at(impossible, now);
    list.set_recurrence(impossible, RecurrencePattern::Monthly);
    list.process_recurring_todos_at(now);
    assert_eq!(list.total_count(), 4);
    assert_eq!(list.next_id, 5);
}

#[test]
fn follow_ups_get_ids_in_store_order_and_a_second_run_makes_them_again() {
    let now = at(2024, 1, 10, 9, 0, 0);
    let mut list = TodoList::new();
    let a = list.add_todo_at("a due:2024-01-10".to_string(), now);
    let b = list.add_todo_at("b due:2024-01-11".to_string(), now);
    list.complete_at(a, now);
    list.complete_at(b, now);
    list.set_recurrence(a, RecurrencePattern::Weekly);
    list.set_recurrence(b, RecurrencePattern::Yearly);
    list.process_recurring_todos();
    assert_eq!(list.total_count(), 4);
    assert_eq!(list.get_todo(3).unwrap().description, "a");
    assert_eq!(list.get_todo(3).unwrap().due_date, Some(at(2024, 1, 17, 23, 59, 59)));
    assert_eq!(list.get_todo(4).unwrap().description, "b");
    assert_eq!(list.get_todo(4).unwrap().due_date, Some(at(2025, 1, 11, 23, 59, 59)));
    list.process_recurring_todos_at(now);
    assert_eq!(list.total_count(), 6);
    assert_eq!(list.next_id, 7);
}
