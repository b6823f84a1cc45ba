use paperclip::annotations::{
    first_token, labels_of, next_weekday, next_weekday_after, parse_description, parse_due_date,
    weekday_from_name,
};
use paperclip::time::Timestamp;
use paperclip::todo::Todo;

fn at(year: i32, month: u32, day: u32, hour: u32, minute: u32, second: u32) -> Timestamp {
    Timestamp::from_civil(year, month, day, hour, minute, second).unwrap()
}

fn words(list: &[&str]) -> Vec<String> {
    list.iter().map(|w| w.to_string()).collect()
}

#[test]
fn tags_and_contexts_are_lowercased_and_distinct() {
    let now = at(2024, 3, 6, 10, 0, 0);
    let found = parse_description("Call #Home @Phone then #home and #Work_2 @phone", &now);
    assert_eq!(found.tags, words(&["home", "work_2"]));
    assert_eq!(found.contexts, words(&["phone"]));
    assert_eq!(found.description, "Call Home Phone then home and Work_2 phone");
    assert_eq!(found.due_date, None);
}

#[test]
fn markers_are_stripped_and_words_stay() {
    let now = at(2024, 3, 6, 10, 0, 0);
    let found = parse_description("Buy #milk", &now);
    assert_eq!(found.description, "Buy milk");
    assert_eq!(found.tags, words(&["milk"]));
}

#[test]
fn text_without_annotations_is_only_trimmed() {
    let now = at(2024, 3, 6, 10, 0, 0);
    let found = parse_description("  plain text  ", &now);
    assert_eq!(found.description, "plain text");
    assert!(found.tags.is_empty());
    assert!(found.contexts.is_empty());
    assert_eq!(found.due_date, None);
}

#[test]
fn empty_text_gives_an_empty_result() {
    let now = at(2024, 3, 6, 10, 0, 0);
    let found = parse_description("", &now);
    assert_eq!(found.description, "");
    assert!(found.tags.is_empty());
    assert!(found.contexts.is_empty());
    assert_eq!(found.due_date, None);
}

#[test]
fn parsing_twice_gives_the_same_result() {
    let now = at(2024, 3, 6, 10, 0, 0);
    let a = parse_description("Pay rent #bills @home due:2024-01-15", &now);
    let b = parse_description("Pay rent #bills @home due:2024-01-15", &now);
    assert_eq!(a.description, b.description);
    assert_eq!(a.tags, b.tags);
    assert_eq!(a.contexts, b.contexts);
    assert_eq!(a.due_date, b.due_date);
}

#[test]
fn only_the_first_due_token_is_cut_out() {
    let now = at(2024, 3, 6, 10, 0, 0);
    let found = parse_description("a due:2024-01-15 b due:2024-02-01", &now);
    assert_eq!(found.description, "a  b due:2024-02-01");
    assert_eq!(found.due_date, Some(at(2024, 1, 15, 23, 59, 59)));
}

#[test]
fn a_written_date_is_due_at_the_end_of_that_day() {
    let now = at(2024, 3, 6, 10, 0, 0);
    assert_eq!(parse_due_date("2024-01-15", &now), Some(at(2024, 1, 15, 23, 59, 59)));
    assert_eq!(parse_due_date("2024-02-29", &now), Some(at(2024, 2, 29, 23, 59, 59)));
}

#[test]
fn an_unknown_token_names_no_date() {
    let now = at(2024, 3, 6, 10, 0, 0);
    assert_eq!(parse_due_date("someday", &now), None);
    assert_eq!(parse_due_date("2023-02-29", &now), None);
    assert_eq!(parse_due_date("15/01/2024", &now), None);
    let found = parse_description("Write report due:someday", &now);
    assert_eq!(found.due_date, None);
    assert_eq!(found.description, "Write report");
}

#[test]
fn today_and_tomorrow_count_from_the_day_of_now() {
    let now = at(2024, 3, 6, 10, 30, 0);
    assert_eq!(parse_due_date("today", &now), Some(at(2024, 3, 6, 23, 59, 59)));
    assert_eq!(parse_due_date("TODAY", &now), Some(at(2024, 3, 6, 23, 59, 59)));
    assert_eq!(parse_due_date("tomorrow", &now), Some(at(2024, 3, 7, 23, 59, 59)));
    let end_of_month = at(2024, 2, 29, 23, 0, 0);
    assert_eq!(parse_due_date("Tomorrow", &end_of_month), Some(at(2024, 3, 1, 23, 59, 59)));
}

#[test]
fn a_weekday_is_the_next_such_day_and_never_today() {
    // The 6th of March 2024 was a Wednesday.
    let now = at(2024, 3, 6, 10, 0, 0);
    assert_eq!(parse_due_date("thursday", &now), Some(at(2024, 3, 7, 23, 59, 59)));
    assert_eq!(parse_due_date("fri", &now), Some(at(2024, 3, 8, 23, 59, 59)));
    assert_eq!(parse_due_date("Monday", &now), Some(at(2024, 3, 11, 23, 59, 59)));
    assert_eq!(parse_due_date("tue", &now), Some(at(2024, 3, 12, 23, 59, 59)));
    assert_eq!(parse_due_date("wednesday", &now), Some(at(2024, 3, 13, 23, 59, 59)));
    assert_eq!(parse_due_date("wed", &now), Some(at(2024, 3, 13, 23, 59, 59)));
    assert_eq!(parse_due_date("sun", &now), Some(at(2024, 3, 10, 23, 59, 59)));
    assert_eq!(parse_due_date("saturday", &now), Some(at(2024, 3, 9, 23, 59, 59)));
}

#[test]
fn next_weekday_reads_the_weekday_of_now() {
    let now = at(2024, 3, 6, 10, 0, 0);
    assert_eq!(next_weekday(&now, 3), Some(at(2024, 3, 13, 23, 59, 59)));
    assert_eq!(next_weekday(&now, 4), Some(at(2024, 3, 7, 23, 59, 59)));
}

#[test]
fn next_weekday_after_counts_one_to_seven_days() {
    let today = at(2024, 3, 6, 0, 0, 0).day();
    assert_eq!(next_weekday_after(today, 3, 3), Timestamp::end_of_day(today + 7));
    assert_eq!(next_weekday_after(today, 3, 4), Timestamp::end_of_day(today + 1));
    assert_eq!(next_weekday_after(today, 3, 2), Timestamp::end_of_day(today + 6));
    assert_eq!(next_weekday_after(today, 7, 1), Timestamp::end_of_day(today + 1));
    assert_eq!(next_weekday_after(today, 1, 7), Timestamp::end_of_day(today + 6));
    assert_eq!(next_weekday_after(i64::MAX, 1, 2), None);
}

#[test]
fn weekday_names_and_abbreviations() {
    assert_eq!(weekday_from_name(&"monday".to_string()), Some(1));
    assert_eq!(weekday_from_name(&"tue".to_string()), Some(2));
    assert_eq!(weekday_from_name(&"wednesday".to_string()), Some(3));
    assert_eq!(weekday_from_name(&"thu".to_string()), Some(4));
    assert_eq!(weekday_from_name(&"friday".to_string()), Some(5));
    assert_eq!(weekday_from_name(&"sat".to_string()), Some(6));
    assert_eq!(weekday_from_name(&"sunday".to_string()), Some(7));
    assert_eq!(weekday_from_name(&"Monday".to_string()), None);
    assert_eq!(weekday_from_name(&"mond".to_string()), None);
}

#[test]
fn labels_of_matches() {
    let groups = Some(vec![
        Some("Work".to_string()),
        None,
        Some("home".to_string()),
        Some("WORK".to_string()),
    ]);
    assert_eq!(labels_of(&groups), words(&["work", "home"]));
    assert!(labels_of(&None).is_empty());
    assert!(labels_of(&Some(Vec::new())).is_empty());
}

#[test]
fn first_token_of_matches() {
    assert_eq!(first_token(&None), None);
    assert_eq!(first_token(&Some(Vec::new())), None);
    assert_eq!(first_token(&Some(vec![None, Some("b".to_string())])), None);
    assert_eq!(
        first_token(&Some(vec![Some("a".to_string()), Some("b".to_string())])),
        Some("a".to_string())
    );
}

#[test]
fn the_due_token_takes_word_characters_hyphens_and_slashes() {
    let now = at(2024, 3, 6, 10, 0, 0);
    let found = parse_description("x due:2024-01-15, y", &now);
    assert_eq!(found.description, "x , y");
    assert_eq!(found.due_date, Some(at(2024, 1, 15, 23, 59, 59)));
}

#[test]
fn todo_parse_description_reads_the_clock() {
    let found = Todo::parse_description("Water plants #garden @home");
    assert_eq!(found.description, "Water plants garden home");
    assert_eq!(found.tags, words(&["garden"]));
    assert_eq!(found.contexts, words(&["home"]));
    assert_eq!(found.due_date, None);
}
