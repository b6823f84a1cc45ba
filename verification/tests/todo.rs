use paperclip::time::Timestamp;
use paperclip::todo::{
    a_month_later, a_year_later, format_tracked, RecurrencePattern, Todo, TodoStatus,
};

fn at(year: i32, month: u32, day: u32, hour: u32, minute: u32, second: u32) -> Timestamp {
    Timestamp::from_civil(year, month, day, hour, minute, second).unwrap()
}

#[test]
fn a_new_task_is_a_pending_expanded_root() {
    let now = at(2024, 3, 6, 10, 0, 0);
    let todo = Todo::new_at(7, "Pay rent #bills @home due:2024-01-15".to_string(), now);
    assert_eq!(todo.id, 7);
    assert_eq!(todo.description, "Pay rent bills home");
    assert_eq!(todo.raw_description, "Pay rent #bills @home due:2024-01-15");
    assert_eq!(todo.tags, vec!["bills".to_string()]);
    assert_eq!(todo.contexts, vec!["home".to_string()]);
    assert_eq!(todo.status, TodoStatus::Pending);
    assert_eq!(todo.created_at, now);
    assert_eq!(todo.completed_at, None);
    assert_eq!(todo.due_date, Some(at(2024, 1, 15, 23, 59, 59)));
    assert_eq!(todo.priority, 0);
    assert_eq!(todo.parent_id, None);
    assert!(todo.children.is_empty());
    assert!(todo.expanded);
    assert_eq!(todo.notes, None);
    assert_eq!(todo.time_tracker.total_seconds, 0);
    assert!(todo.time_tracker.entries.is_empty());
    assert_eq!(todo.time_tracker.current_session, None);
    assert_eq!(todo.recurrence, RecurrencePattern::Never);
    assert_eq!(todo.template_id, None);
}

#[test]
fn completion_sets_and_clears_the_completion_time() {
    let now = at(2024, 3, 6, 10, 0, 0);
    let later = at(2024, 3, 6, 11, 0, 0);
    let mut todo = Todo::new_at(1, "x".to_string(), now);
    assert!(!todo.is_completed());
    todo.complete_at(later);
    assert!(todo.is_completed());
    assert_eq!(todo.status, TodoStatus::Completed);
    assert_eq!(todo.completed_at, Some(later));
    todo.uncomplete();
    assert_eq!(todo.status, TodoStatus::Pending);
    assert_eq!(todo.completed_at, None);
    todo.toggle_complete_at(later);
    assert_eq!(todo.status, TodoStatus::Completed);
    assert_eq!(todo.completed_at, Some(later));
    todo.toggle_complete_at(later);
    assert_eq!(todo.status, TodoStatus::Pending);
    assert_eq!(todo.completed_at, None);
}

#[test]
fn toggling_a_task_in_progress_completes_it() {
    let now = at(2024, 3, 6, 10, 0, 0);
    let mut todo = Todo::new_at(1, "x".to_string(), now);
    todo.start_timer_at(now);
    assert_eq!(todo.status, TodoStatus::InProgress);
    todo.toggle_complete_at(now);
    assert_eq!(todo.status, TodoStatus::Completed);
}

#[test]
fn completion_by_the_clock() {
    let mut todo = Todo::new(1, "x".to_string());
    todo.complete();
    assert!(todo.is_completed());
    assert!(todo.completed_at.is_some());
    todo.toggle_complete();
    assert!(!todo.is_completed());
    assert_eq!(todo.completed_at, None);
    todo.toggle_complete();
    assert!(todo.is_completed());
}

#[test]
fn priority_is_held_at_five() {
    let mut todo = Todo::new_at(1, "x".to_string(), Timestamp::new(0, 0));
    todo.set_priority(3);
    assert_eq!(todo.priority, 3);
    todo.set_priority(5);
    assert_eq!(todo.priority, 5);
    todo.set_priority(6);
    assert_eq!(todo.priority, 5);
    todo.set_priority(255);
    assert_eq!(todo.priority, 5);
    todo.set_priority(0);
    assert_eq!(todo.priority, 0);
}

#[test]
fn overdue_is_due_before_now_and_not_completed() {
    let now = at(2024, 3, 6, 10, 0, 0);
    let mut todo = Todo::new_at(1, "x due:2024-03-05".to_string(), now);
    assert!(todo.is_overdue_at(&now));
    assert!(todo.is_overdue());
    assert!(!todo.is_overdue_at(&at(2024, 3, 5, 23, 59, 59)));
    assert!(!todo.is_overdue_at(&at(2024, 3, 5, 12, 0, 0)));
    todo.complete_at(now);
    assert!(!todo.is_overdue_at(&now));
    assert!(!todo.is_overdue());
    let none = Todo::new_at(2, "y".to_string(), now);
    assert!(!none.is_overdue_at(&now));
}

#[test]
fn the_timer_opens_and_closes_sessions() {
    let start = at(2024, 3, 6, 10, 0, 0);
    let stop = at(2024, 3, 6, 11, 1, 5);
    let mut todo = Todo::new_at(1, "x".to_string(), start);
    todo.start_timer_at(start);
    assert!(todo.is_timer_running());
    assert_eq!(todo.status, TodoStatus::InProgress);
    assert_eq!(todo.time_tracker.current_session, Some(start));
    // A second start changes nothing.
    todo.start_timer_at(stop);
    assert_eq!(todo.time_tracker.current_session, Some(start));
    assert_eq!(todo.current_session_duration_at(&stop), Some(3665));
    todo.stop_timer_at(stop);
    assert!(!todo.is_timer_running());
    assert_eq!(todo.time_tracker.total_seconds, 3665);
    assert_eq!(todo.time_tracker.entries.len(), 1);
    assert_eq!(todo.time_tracker.entries[0].start, start);
    assert_eq!(todo.time_tracker.entries[0].end, Some(stop));
    assert_eq!(todo.time_tracker.entries[0].description, None);
    // A stop without an open session changes nothing.
    todo.stop_timer_at(stop);
    assert_eq!(todo.time_tracker.total_seconds, 3665);
    assert_eq!(todo.time_tracker.entries.len(), 1);
    assert_eq!(todo.current_session_duration_at(&stop), None);
    assert_eq!(todo.get_current_session_duration(), None);
}

#[test]
fn starting_the_timer_leaves_a_completed_task_completed() {
    let now = at(2024, 3, 6, 10, 0, 0);
    let mut todo = Todo::new_at(1, "x".to_string(), now);
    todo.complete_at(now);
    todo.start_timer_at(now);
    assert_eq!(todo.status, TodoStatus::Completed);
    assert!(todo.is_timer_running());
}

#[test]
fn a_session_that_ends_before_it_starts_counts_nothing() {
    let start = at(2024, 3, 6, 10, 0, 0);
    let earlier = at(2024, 3, 6, 9, 0, 0);
    let mut todo = Todo::new_at(1, "x".to_string(), start);
    todo.start_timer_at(start);
    todo.stop_timer_at(earlier);
    assert_eq!(todo.time_tracker.total_seconds, 0);
    assert_eq!(todo.time_tracker.entries.len(), 1);
}

#[test]
fn the_total_stops_at_the_largest_count() {
    let mut todo = Todo::new_at(1, "x".to_string(), Timestamp::new(0, 0));
    todo.time_tracker.total_seconds = u64::MAX - 1;
    todo.start_timer_at(Timestamp::new(0, 0));
    todo.stop_timer_at(Timestamp::new(10, 0));
    assert_eq!(todo.time_tracker.total_seconds, u64::MAX);
}

#[test]
fn tracked_time_is_written_in_hours_and_minutes() {
    assert_eq!(format_tracked(0), "0m");
    assert_eq!(format_tracked(59), "0m");
    assert_eq!(format_tracked(60), "1m");
    assert_eq!(format_tracked(3599), "59m");
    assert_eq!(format_tracked(3600), "1h 0m");
    assert_eq!(format_tracked(7500), "2h 5m");
    assert_eq!(format_tracked(360_000), "100h 0m");
    let start = at(2024, 3, 6, 10, 0, 0);
    let mut todo = Todo::new_at(1, "x".to_string(), start);
    todo.time_tracker.total_seconds = 3600;
    assert_eq!(todo.total_time_formatted_at(&start), "1h 0m");
    todo.start_timer_at(start);
    assert_eq!(todo.total_time_formatted_at(&at(2024, 3, 6, 10, 30, 0)), "1h 30m");
    let idle = Todo::new_at(2, "y".to_string(), start);
    assert_eq!(idle.get_total_time_formatted(), "0m");
}

#[test]
fn notes_that_are_only_white_space_are_no_notes() {
    let mut todo = Todo::new_at(1, "x".to_string(), Timestamp::new(0, 0));
    assert!(!todo.has_notes());
    todo.set_notes(Some("  \n\t ".to_string()));
    assert!(!todo.has_notes());
    todo.set_notes(Some(String::new()));
    assert!(!todo.has_notes());
    todo.set_notes(Some(" a ".to_string()));
    assert!(todo.has_notes());
    todo.set_notes(None);
    assert!(!todo.has_notes());
    assert_eq!(todo.notes, None);
}

#[test]
fn editing_reads_everything_anew() {
    let now = at(2024, 3, 6, 10, 0, 0);
    let mut todo = Todo::new_at(1, "Pay rent #bills @home due:2024-01-15".to_string(), now);
    todo.set_priority(4);
    todo.update_description_at("Call #Mum @phone due:tomorrow".to_string(), now);
    let direct = paperclip::annotations::parse_description("Call #Mum @phone due:tomorrow", &now);
    assert_eq!(todo.raw_description, "Call #Mum @phone due:tomorrow");
    assert_eq!(todo.description, direct.description);
    assert_eq!(todo.tags, direct.tags);
    assert_eq!(todo.contexts, direct.contexts);
    assert_eq!(todo.due_date, direct.due_date);
    assert_eq!(todo.description, "Call Mum phone");
    assert_eq!(todo.tags, vec!["mum".to_string()]);
    assert_eq!(todo.contexts, vec!["phone".to_string()]);
    assert_eq!(todo.due_date, Some(at(2024, 3, 7, 23, 59, 59)));
    // What the text does not determine stays.
    assert_eq!(todo.priority, 4);
    assert_eq!(todo.id, 1);
    assert_eq!(todo.created_at, now);
}

#[test]
fn editing_clears_a_due_date_that_the_new_text_does_not_name() {
    let now = at(2024, 3, 6, 10, 0, 0);
    let mut todo = Todo::new_at(1, "Pay rent due:2024-01-15".to_string(), now);
    assert!(todo.due_date.is_some());
    todo.update_description_at("Pay rent".to_string(), now);
    assert_eq!(todo.due_date, None);
    let mut by_clock = Todo::new(2, "a #b due:2024-01-15".to_string());
    by_clock.update_description("c @d".to_string());
    assert_eq!(by_clock.due_date, None);
    assert!(by_clock.tags.is_empty());
    assert_eq!(by_clock.contexts, vec!["d".to_string()]);
}

#[test]
fn recurrence_rules() {
    let mut todo = Todo::new_at(1, "x".to_string(), Timestamp::new(0, 0));
    assert!(!todo.is_recurring());
    assert!(!todo.should_generate_next());
    todo.set_recurrence(RecurrencePattern::Weekly);
    assert!(todo.is_recurring());
    assert!(!todo.should_generate_next());
    todo.complete_at(Timestamp::new(1, 0));
    assert!(todo.should_generate_next());
    todo.set_recurrence(RecurrencePattern::Never);
    assert!(!todo.should_generate_next());
}

#[test]
fn the_next_due_date_follows_the_rule() {
    let now = at(2024, 1, 1, 9, 0, 0);
    let mut todo = Todo::new_at(1, "x due:2024-01-31".to_string(), now);
    assert_eq!(todo.get_next_due_date(), None);
    todo.set_recurrence(RecurrencePattern::Daily);
    assert_eq!(todo.get_next_due_date(), Some(at(2024, 2, 1, 23, 59, 59)));
    todo.set_recurrence(RecurrencePattern::Weekly);
    assert_eq!(todo.get_next_due_date(), Some(at(2024, 2, 7, 23, 59, 59)));
    todo.set_recurrence(RecurrencePattern::Custom(30));
    assert_eq!(todo.get_next_due_date(), Some(at(2024, 3, 1, 23, 59, 59)));
    todo.set_recurrence(RecurrencePattern::Custom(0));
    assert_eq!(todo.get_next_due_date(), Some(at(2024, 1, 31, 23, 59, 59)));
    todo.set_recurrence(RecurrencePattern::Yearly);
    assert_eq!(todo.get_next_due_date(), Some(at(2025, 1, 31, 23, 59, 59)));
    // February has no 31st.
    todo.set_recurrence(RecurrencePattern::Monthly);
    assert_eq!(todo.get_next_due_date(), None);
    let mut none = Todo::new_at(2, "y".to_string(), now);
    none.set_recurrence(RecurrencePattern::Daily);
    assert_eq!(none.get_next_due_date(), None);
}

#[test]
fn a_month_later_rolls_over_the_year() {
    assert_eq!(a_month_later(&at(2024, 1, 15, 23, 59, 59)), Some(at(2024, 2, 15, 23, 59, 59)));
    assert_eq!(a_month_later(&at(2024, 12, 31, 8, 0, 1)), Some(at(2025, 1, 31, 8, 0, 1)));
    assert_eq!(a_month_later(&at(2024, 1, 29, 0, 0, 0)), Some(at(2024, 2, 29, 0, 0, 0)));
    assert_eq!(a_month_later(&at(2023, 1, 29, 0, 0, 0)), None);
    assert_eq!(a_month_later(&at(2024, 3, 31, 0, 0, 0)), None);
    assert_eq!(a_month_later(&Timestamp::new(i64::MAX, 0)), None);
}

#[test]
fn a_year_later_has_no_leap_day() {
    assert_eq!(a_year_later(&at(2024, 2, 28, 12, 0, 0)), Some(at(2025, 2, 28, 12, 0, 0)));
    assert_eq!(a_year_later(&at(2024, 2, 29, 12, 0, 0)), None);
    assert_eq!(a_year_later(&at(2023, 12, 31, 23, 59, 59)), Some(at(2024, 12, 31, 23, 59, 59)));
    assert_eq!(a_year_later(&Timestamp::new(i64::MIN, 0)), None);
}

#[test]
fn a_copy_is_equal_in_every_field() {
    let now = at(2024, 3, 6, 10, 0, 0);
    let mut todo = Todo::new_at(3, "Pay rent #bills @home due:2024-01-15".to_string(), now);
    todo.set_notes(Some("n".to_string()));
    todo.set_priority(2);
    todo.children.push(9);
    todo.parent_id = Some(1);
    todo.start_timer_at(now);
    todo.stop_timer_at(at(2024, 3, 6, 10, 0, 9));
    let copy = todo.clone();
    assert_eq!(copy.id, todo.id);
    assert_eq!(copy.description, todo.description);
    assert_eq!(copy.raw_description, todo.raw_description);
    assert_eq!(copy.tags, todo.tags);
    assert_eq!(copy.contexts, todo.contexts);
    assert_eq!(copy.status, todo.status);
    assert_eq!(copy.created_at, todo.created_at);
    assert_eq!(copy.completed_at, todo.completed_at);
    assert_eq!(copy.due_date, todo.due_date);
    assert_eq!(copy.priority, todo.priority);
    assert_eq!(copy.parent_id, todo.parent_id);
    assert_eq!(copy.children, todo.children);
    assert_eq!(copy.expanded, todo.expanded);
    assert_eq!(copy.notes, todo.notes);
    assert_eq!(copy.time_tracker.total_seconds, 9);
    assert_eq!(copy.time_tracker.entries.len(), 1);
    assert_eq!(copy.time_tracker.entries[0].start, now);
    assert_eq!(copy.recurrence, todo.recurrence);
    assert_eq!(copy.template_id, todo.template_id);
}
