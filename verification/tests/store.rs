use paperclip::outline::{DueDateFilter, Filter};
use paperclip::store::TodoList;
use paperclip::time::Timestamp;
use paperclip::todo::{RecurrencePattern, Todo, TodoStatus};

fn at(year: i32, month: u32, day: u32, hour: u32, minute: u32, second: u32) -> Timestamp {
    Timestamp::from_civil(year, month, day, hour, minute, second).unwrap()
}

fn ids(rows: &Vec<(&Todo, u32)>) -> Vec<(u32, u32)> {
    rows.iter().map(|(t, d)| (t.id, *d)).collect()
}

fn ids_of(todos: &Vec<&Todo>) -> Vec<u32> {
    todos.iter().map(|t| t.id).collect()
}

/// A: 1 with children B: 2 (with child D: 4) and C: 3; E: 5 is a second root.
fn family() -> TodoList {
    let mut list = TodoList::new();
    let t = |s: i64| Timestamp::new(s, 0);
    let a = list.add_todo_at("A".to_string(), t(1));
    let b = list.add_child_todo_at(a, "B".to_string(), t(2)).unwrap();
    list.add_child_todo_at(a, "C".to_string(), t(3)).unwrap();
    list.add_child_todo_at(b, "D".to_string(), t(4)).unwrap();
    list.add_todo_at("E".to_string(), t(5));
    list
}

#[test]
fn a_new_store_is_empty_and_starts_at_one() {
    let list = TodoList::new();
    assert_eq!(list.total_count(), 0);
    assert_eq!(list.next_id, 1);
    assert!(list.is_well_formed());
    assert!(list.get_flattened_todos().is_empty());
    let other = TodoList::default();
    assert_eq!(other.next_id, 1);
    assert_eq!(other.total_count(), 0);
}

#[test]
fn an_added_task_is_in_the_outline_at_depth_zero_without_children() {
    let mut list = family();
    let id = list.add_todo_at("New #x".to_string(), Timestamp::new(9, 0));
    assert_eq!(id, 6);
    assert_eq!(list.next_id, 7);
    let rows = list.get_flattened_todos();
    let row = rows.iter().find(|(t, _)| t.id == id).unwrap();
    assert_eq!(row.1, 0);
    assert!(row.0.children.is_empty());
    assert_eq!(row.0.parent_id, None);
    assert_eq!(row.0.description, "New x");
}

#[test]
fn a_child_names_its_parent_and_is_listed_by_it() {
    let mut list = TodoList::new();
    let p = list.add_todo_at("P".to_string(), Timestamp::new(1, 0));
    let c = list.add_child_todo_at(p, "C".to_string(), Timestamp::new(2, 0)).unwrap();
    assert_eq!(c, 2);
    assert_eq!(list.get_todo(c).unwrap().parent_id, Some(p));
    assert_eq!(list.get_todo(p).unwrap().children, vec![c]);
    let d = list.add_child_todo_at(p, "D".to_string(), Timestamp::new(3, 0)).unwrap();
    assert_eq!(list.get_todo(p).unwrap().children, vec![c, d]);
    assert!(list.is_well_formed());
}

#[test]
fn a_child_of_a_missing_parent_is_not_made() {
    let mut list = family();
    let before = list.next_id;
    assert_eq!(list.add_child_todo_at(99, "X".to_string(), Timestamp::new(9, 0)), None);
    assert_eq!(list.add_child_todo(99, "X".to_string()), None);
    assert_eq!(list.next_id, before);
    assert_eq!(list.total_count(), 5);
}

#[test]
fn ids_are_never_used_again() {
    let mut list = TodoList::new();
    let a = list.add_todo_at("a".to_string(), Timestamp::new(1, 0));
    list.remove_todo(a);
    let b = list.add_todo_at("b".to_string(), Timestamp::new(2, 0));
    assert_eq!(a, 1);
    assert_eq!(b, 2);
    assert!(list.get_todo(a).is_none());
}

#[test]
fn lookups_of_unknown_ids_find_nothing() {
    let mut list = family();
    assert!(list.get_todo(42).is_none());
    assert!(list.get_todo_mut(42).is_none());
    assert!(list.find(42).is_none());
    assert!(!list.has_children(42));
    assert!(list.get_children(42).is_empty());
    assert_eq!(list.get_depth(42), 0);
    assert!(list.remove_todo(42).is_none());
    assert!(list.remove_todo_and_children(42).is_empty());
    list.toggle_expanded(42);
    list.start_timer(42);
    list.stop_timer(42);
    assert!(!list.set_notes(42, None));
    assert!(!list.set_recurrence(42, RecurrencePattern::Daily));
    assert_eq!(list.total_count(), 5);
}

#[test]
fn get_todo_mut_changes_the_task_in_place() {
    let mut list = family();
    match list.get_todo_mut(2) {
        Some(todo) => todo.set_priority(3),
        None => panic!("task 2 is there"),
    }
    assert_eq!(list.get_todo(2).unwrap().priority, 3);
    assert_eq!(list.total_count(), 5);
}

#[test]
fn the_outline_walks_depth_first() {
    let list = family();
    let rows = list.get_flattened_todos();
    assert_eq!(ids(&rows), vec![(1, 0), (2, 1), (4, 2), (3, 1), (5, 0)]);
}

#[test]
fn collapsing_hides_the_subtree_and_expanding_shows_it_again() {
    let mut list = TodoList::new();
    let a = list.add_todo("A".to_string());
    let b = list.add_child_todo(a, "B".to_string()).unwrap();
    let c = list.add_child_todo(a, "C".to_string()).unwrap();
    list.toggle_expanded(a);
    assert_eq!(ids(&list.get_flattened_todos()), vec![(a, 0)]);
    list.toggle_expanded(a);
    assert_eq!(ids(&list.get_flattened_todos()), vec![(a, 0), (b, 1), (c, 1)]);
}

#[test]
fn toggling_twice_restores_the_flag() {
    let mut list = family();
    let before = list.get_todo(2).unwrap().expanded;
    list.toggle_expanded(2);
    assert_eq!(list.get_todo(2).unwrap().expanded, !before);
    list.toggle_expanded(2);
    assert_eq!(list.get_todo(2).unwrap().expanded, before);
}

#[test]
fn siblings_come_by_priority_then_by_creation() {
    let mut list = family();
    // C gets the higher priority and goes before B.
    match list.get_todo_mut(3) {
        Some(todo) => todo.set_priority(2),
        None => panic!("task 3 is there"),
    }
    assert_eq!(ids(&list.get_flattened_todos()), vec![(1, 0), (3, 1), (2, 1), (4, 2), (5, 0)]);
    assert_eq!(ids_of(&list.get_children(1)), vec![3, 2]);
    // E gets a higher priority than A and goes first among the roots.
    list.set_priority(5, 5);
    assert_eq!(ids(&list.get_flattened_todos()), vec![(5, 0), (1, 0), (3, 1), (2, 1), (4, 2)]);
    assert_eq!(ids_of(&list.get_root_todos()), vec![5, 1]);
    assert_eq!(ids_of(&list.get_all_todos()), vec![5, 3, 1, 2, 4]);
}

#[test]
fn equal_priorities_come_by_creation_time() {
    let mut list = TodoList::new();
    let late = list.add_todo_at("late".to_string(), Timestamp::new(100, 0));
    let early = list.add_todo_at("early".to_string(), Timestamp::new(50, 0));
    let same = list.add_todo_at("same".to_string(), Timestamp::new(50, 0));
    assert_eq!(ids_of(&list.get_root_todos()), vec![early, same, late]);
    assert_eq!(ids(&list.get_flattened_todos()), vec![(early, 0), (same, 0), (late, 0)]);
}

#[test]
fn an_orphan_is_tolerated_and_not_shown() {
    let mut list = family();
    let gone = list.remove_todo(2).unwrap();
    assert_eq!(gone.id, 2);
    assert_eq!(gone.children, vec![4]);
    // D still names B as its parent.
    assert_eq!(list.get_todo(4).unwrap().parent_id, Some(2));
    assert_eq!(list.get_todo(1).unwrap().children, vec![3]);
    assert_eq!(ids(&list.get_flattened_todos()), vec![(1, 0), (3, 1), (5, 0)]);
    assert_eq!(list.get_depth(4), 1);
    assert!(list.is_well_formed());
}

#[test]
fn a_child_list_with_a_missing_id_is_walked_without_it() {
    let mut list = family();
    match list.get_todo_mut(1) {
        Some(todo) => todo.children.push(77),
        None => panic!("task 1 is there"),
    }
    assert_eq!(ids(&list.get_flattened_todos()), vec![(1, 0), (2, 1), (4, 2), (3, 1), (5, 0)]);
    assert_eq!(ids_of(&list.get_children(1)), vec![2, 3]);
    let gone = list.remove_todo_and_children(1);
    assert_eq!(gone.iter().map(|t| t.id).collect::<Vec<u32>>(), vec![1, 2, 4, 3]);
}

#[test]
fn a_link_back_to_an_ancestor_does_not_trap_the_walk() {
    let mut list = family();
    match list.get_todo_mut(4) {
        Some(todo) => todo.children.push(1),
        None => panic!("task 4 is there"),
    }
    assert_eq!(ids(&list.get_flattened_todos()), vec![(1, 0), (2, 1), (4, 2), (3, 1), (5, 0)]);
    let gone = list.remove_todo_and_children(2);
    assert_eq!(gone.iter().map(|t| t.id).collect::<Vec<u32>>(), vec![2, 4]);
}

#[test]
fn removing_with_descendants_takes_the_whole_subtree() {
    let mut list = family();
    let gone = list.remove_todo_and_children(2);
    assert_eq!(gone.iter().map(|t| t.id).collect::<Vec<u32>>(), vec![2, 4]);
    assert!(list.get_todo(2).is_none());
    assert!(list.get_todo(4).is_none());
    assert_eq!(list.get_todo(1).unwrap().children, vec![3]);
    assert_eq!(list.total_count(), 3);
    assert!(list.is_well_formed());
    let rest = list.remove_todo_and_children(1);
    assert_eq!(rest.iter().map(|t| t.id).collect::<Vec<u32>>(), vec![1, 3]);
    assert_eq!(list.total_count(), 1);
    assert_eq!(ids(&list.get_flattened_todos()), vec![(5, 0)]);
}

#[test]
fn removing_a_leaf_with_descendants_returns_the_leaf() {
    let mut list = family();
    let gone = list.remove_todo_and_children(3);
    assert_eq!(gone.len(), 1);
    assert_eq!(gone[0].id, 3);
    assert_eq!(gone[0].parent_id, Some(1));
    assert_eq!(list.get_todo(1).unwrap().children, vec![2]);
}

#[test]
fn depth_counts_the_parents() {
    let list = family();
    assert_eq!(list.get_depth(1), 0);
    assert_eq!(list.get_depth(2), 1);
    assert_eq!(list.get_depth(3), 1);
    assert_eq!(list.get_depth(4), 2);
    assert_eq!(list.get_depth(5), 0);
}

#[test]
fn counts_and_views_by_status() {
    let mut list = family();
    let now = Timestamp::new(10, 0);
    list.complete_at(2, now);
    list.complete_at(5, now);
    assert_eq!(list.total_count(), 5);
    assert_eq!(list.pending_count(), 3);
    assert_eq!(list.completed_count(), 2);
    assert_eq!(list.count(&Filter::Everything), 5);
    assert_eq!(ids(&list.get_flattened_pending_todos()), vec![(1, 0), (4, 2), (3, 1)]);
    assert_eq!(ids(&list.get_flattened_completed_todos()), vec![(2, 1), (5, 0)]);
    assert_eq!(ids_of(&list.get_pending_todos()), vec![1, 3, 4]);
    assert_eq!(ids_of(&list.get_completed_todos()), vec![2, 5]);
    list.clear_completed();
    assert_eq!(list.total_count(), 3);
    assert!(list.get_todo(2).is_none());
    assert!(list.get_todo(5).is_none());
    // The child list of A is left as it was.
    assert_eq!(list.get_todo(1).unwrap().children, vec![2, 3]);
    assert_eq!(ids(&list.get_flattened_todos()), vec![(1, 0), (3, 1)]);
    assert!(list.is_well_formed());
}

#[test]
fn filters_by_tag_and_context_compare_in_lower_case() {
    let mut list = TodoList::new();
    let now = Timestamp::new(1, 0);
    let a = list.add_todo_at("Mow #Garden @home".to_string(), now);
    let b = list.add_todo_at("Mail #office @Work".to_string(), now);
    let c = list.add_child_todo_at(a, "Rake #garden".to_string(), now).unwrap();
    assert_eq!(ids(&list.filter_by_tag("garden")), vec![(a, 0), (c, 1)]);
    assert_eq!(ids(&list.filter_by_tag("GARDEN")), vec![(a, 0), (c, 1)]);
    assert_eq!(ids(&list.filter_by_tag("gard")), vec![]);
    assert_eq!(ids(&list.filter_by_context("WORK")), vec![(b, 0)]);
    assert_eq!(ids(&list.filter_by_context("home")), vec![(a, 0)]);
    assert_eq!(ids(&list.filter_by_context("nowhere")), vec![]);
}

#[test]
fn search_looks_into_hidden_subtrees() {
    let mut list = TodoList::new();
    let now = Timestamp::new(1, 0);
    let a = list.add_todo_at("Plan the Trip #travel".to_string(), now);
    let b = list.add_child_todo_at(a, "Book flights @Web".to_string(), now).unwrap();
    let c = list.add_todo_at("Other".to_string(), now);
    list.toggle_expanded(a);
    assert_eq!(ids(&list.get_flattened_todos()), vec![(a, 0), (c, 0)]);
    assert_eq!(ids(&list.search_todos("FLIGHT")), vec![(b, 1)]);
    assert_eq!(ids(&list.search_todos("trip")), vec![(a, 0)]);
    assert_eq!(ids(&list.search_todos("rav")), vec![(a, 0)]);
    assert_eq!(ids(&list.search_todos("web")), vec![(b, 1)]);
    assert_eq!(ids(&list.search_todos("T")), vec![(a, 0), (b, 1), (c, 0)]);
    assert_eq!(ids(&list.search_todos("o")), vec![(b, 1), (c, 0)]);
    assert_eq!(ids(&list.search_todos("zzz")), vec![]);
    assert_eq!(ids(&list.search_todos("")), vec![(a, 0), (b, 1), (c, 0)]);
}

#[test]
fn due_date_buckets() {
    let now = at(2024, 3, 6, 10, 0, 0);
    let mut list = TodoList::new();
    let overdue = list.add_todo_at("a due:2024-03-05".to_string(), now);
    let today = list.add_todo_at("b due:today".to_string(), now);
    let tomorrow = list.add_todo_at("c due:tomorrow".to_string(), now);
    let week = list.add_todo_at("d due:2024-03-12".to_string(), now);
    let far = list.add_todo_at("e due:2024-03-13".to_string(), now);
    let none = list.add_todo_at("f".to_string(), now);
    let done = list.add_todo_at("g due:2024-03-01".to_string(), now);
    list.complete_at(done, now);
    assert_eq!(ids(&list.filter_by_due_date_at(DueDateFilter::Overdue, now)), vec![(overdue, 0)]);
    assert_eq!(ids(&list.filter_by_due_date_at(DueDateFilter::Today, now)), vec![(today, 0)]);
    assert_eq!(ids(&list.filter_by_due_date_at(DueDateFilter::Tomorrow, now)), vec![(tomorrow, 0)]);
    assert_eq!(
        ids(&list.filter_by_due_date_at(DueDateFilter::ThisWeek, now)),
        vec![(today, 0), (tomorrow, 0), (week, 0)]
    );
    assert_eq!(ids(&list.filter_by_due_date_at(DueDateFilter::NoDueDate, now)), vec![(none, 0)]);
    assert_eq!(list.get_overdue_count_at(now), 1);
    assert_eq!(list.get_due_today_count_at(now), 1);
    list.complete_at(today, now);
    assert_eq!(list.get_due_today_count_at(now), 0);
    assert_eq!(ids(&list.filter_by_due_date_at(DueDateFilter::Today, now)), vec![(today, 0)]);
    // Seven days from now, to the second.
    let edge = at(2024, 3, 5, 23, 59, 59);
    assert_eq!(
        ids(&list.filter_by_due_date_at(DueDateFilter::ThisWeek, edge)),
        vec![(overdue, 0), (today, 0), (tomorrow, 0), (week, 0)]
    );
    assert!(!ids(&list.filter_by_due_date_at(DueDateFilter::ThisWeek, at(2024, 3, 6, 0, 0, 0)))
        .contains(&(far, 0)));
    assert_eq!(ids(&list.filter_by_due_date(DueDateFilter::NoDueDate)), vec![(none, 0)]);
    assert!(list.get_overdue_count() >= 1);
    assert_eq!(far, 5);
}

#[test]
fn timers_by_id() {
    let mut list = family();
    let start = at(2024, 3, 6, 10, 0, 0);
    list.start_timer_at(2, start);
    list.start_timer_at(5, start);
    assert_eq!(ids_of(&list.get_active_timers()), vec![2, 5]);
    assert_eq!(list.get_todo(2).unwrap().status, TodoStatus::InProgress);
    list.stop_timer_at(2, at(2024, 3, 6, 10, 0, 42));
    assert_eq!(ids_of(&list.get_active_timers()), vec![5]);
    assert_eq!(list.get_todo(2).unwrap().time_tracker.total_seconds, 42);
    list.stop_timer(5);
    assert!(list.get_active_timers().is_empty());
}

#[test]
fn a_store_with_a_repeated_id_is_not_well_formed() {
    let mut list = family();
    let copy = list.get_todo(3).unwrap().clone();
    list.todos.push(copy);
    assert!(!list.is_well_formed());
    let mut other = family();
    other.next_id = 5;
    assert!(!other.is_well_formed());
}
