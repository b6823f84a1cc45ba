use paperclip::time::Timestamp;
use paperclip::todo::{RecurrencePattern, TimeEntry, TimeTracker, Todo, TodoStatus};
use serde_json::{Number, Value};

fn time_to_json(t: &Timestamp) -> Value {
    let mut m = serde_json::Map::new();
    m.insert("secs".to_string(), Value::Number(Number::from(t.secs)));
    m.insert("nanos".to_string(), Value::Number(Number::from(t.nanos)));
    Value::Object(m)
}

fn time_from_json(v: &Value) -> Timestamp {
    Timestamp::new(v["secs"].as_i64().unwrap(), v["nanos"].as_u64().unwrap() as u32)
}

fn opt_time_to_json(t: &Option<Timestamp>) -> Value {
    match t {
        Some(t) => time_to_json(t),
        None => Value::Null,
    }
}

fn opt_time_from_json(v: &Value) -> Option<Timestamp> {
    if v.is_null() {
        None
    } else {
        Some(time_from_json(v))
    }
}

fn opt_text_to_json(t: &Option<String>) -> Value {
    match t {
        Some(t) => Value::String(t.clone()),
        None => Value::Null,
    }
}

fn opt_text_from_json(v: &Value) -> Option<String> {
    v.as_str().map(|s| s.to_string())
}

fn texts_to_json(words: &Vec<String>) -> Value {
    Value::Array(words.iter().map(|w| Value::String(w.clone())).collect())
}

fn texts_from_json(v: &Value) -> Vec<String> {
    v.as_array().unwrap().iter().map(|w| w.as_str().unwrap().to_string()).collect()
}

fn status_to_json(status: TodoStatus) -> Value {
    Value::String(
        match status {
            TodoStatus::Pending => "Pending",
            TodoStatus::Completed => "Completed",
            TodoStatus::InProgress => "InProgress",
        }
        .to_string(),
    )
}

fn status_from_json(v: &Value) -> TodoStatus {
    match v.as_str().unwrap() {
        "Pending" => TodoStatus::Pending,
        "Completed" => TodoStatus::Completed,
        "InProgress" => TodoStatus::InProgress,
        other => panic!("no status: {}", other),
    }
}

fn recurrence_to_json(pattern: RecurrencePattern) -> Value {
    match pattern {
        RecurrencePattern::Never => Value::String("None".to_string()),
        RecurrencePattern::Daily => Value::String("Daily".to_string()),
        RecurrencePattern::Weekly => Value::String("Weekly".to_string()),
        RecurrencePattern::Monthly => Value::String("Monthly".to_string()),
        RecurrencePattern::Yearly => Value::String("Yearly".to_string()),
        RecurrencePattern::Custom(days) => {
            let mut m = serde_json::Map::new();
            m.insert("Custom".to_string(), Value::Number(Number::from(days)));
            Value::Object(m)
        },
    }
}

fn recurrence_from_json(v: &Value) -> RecurrencePattern {
    match v.as_str() {
        Some("None") => RecurrencePattern::Never,
        Some("Daily") => RecurrencePattern::Daily,
        Some("Weekly") => RecurrencePattern::Weekly,
        Some("Monthly") => RecurrencePattern::Monthly,
        Some("Yearly") => RecurrencePattern::Yearly,
        Some(other) => panic!("no recurrence: {}", other),
        None => RecurrencePattern::Custom(v["Custom"].as_u64().unwrap() as u32),
    }
}

fn to_json(todo: &Todo) -> Value {
    let mut tracker = serde_json::Map::new();
    tracker.insert(
        "total_seconds".to_string(),
        Value::Number(Number::from(todo.time_tracker.total_seconds)),
    );
    tracker.insert(
        "entries".to_string(),
        Value::Array(
            todo.time_tracker
                .entries
                .iter()
                .map(|e| {
                    let mut m = serde_json::Map::new();
                    m.insert("start".to_string(), time_to_json(&e.start));
                    m.insert("end".to_string(), opt_time_to_json(&e.end));
                    m.insert("description".to_string(), opt_text_to_json(&e.description));
                    Value::Object(m)
                })
                .collect(),
        ),
    );
    tracker.insert(
        "current_session".to_string(),
        opt_time_to_json(&todo.time_tracker.current_session),
    );
    let mut m = serde_json::Map::new();
    m.insert("id".to_string(), Value::Number(Number::from(todo.id)));
    m.insert("description".to_string(), Value::String(todo.description.clone()));
    m.insert("raw_description".to_string(), Value::String(todo.raw_description.clone()));
    m.insert("tags".to_string(), texts_to_json(&todo.tags));
    m.insert("contexts".to_string(), texts_to_json(&todo.contexts));
    m.insert("status".to_string(), status_to_json(todo.status));
    m.insert("created_at".to_string(), time_to_json(&todo.created_at));
    m.insert("completed_at".to_string(), opt_time_to_json(&todo.completed_at));
    m.insert("due_date".to_string(), opt_time_to_json(&todo.due_date));
    m.insert("priority".to_string(), Value::Number(Number::from(todo.priority)));
    m.insert(
        "parent_id".to_string(),
        match todo.parent_id {
            Some(p) => Value::Number(Number::from(p)),
            None => Value::Null,
        },
    );
    m.insert(
        "children".to_string(),
        Value::Array(todo.children.iter().map(|c| Value::Number(Number::from(*c))).collect()),
    );
    m.insert("expanded".to_string(), Value::Bool(todo.expanded));
    m.insert("notes".to_string(), opt_text_to_json(&todo.notes));
    m.insert("time_tracker".to_string(), Value::Object(tracker));
    m.insert("recurrence".to_string(), recurrence_to_json(todo.recurrence));
    m.insert("template_id".to_string(), opt_text_to_json(&todo.template_id));
    Value::Object(m)
}

fn from_json(v: &Value) -> Todo {
    let tracker = &v["time_tracker"];
    Todo {
        id: v["id"].as_u64().unwrap() as u32,
        description: v["description"].as_str().unwrap().to_string(),
        raw_description: v["raw_description"].as_str().unwrap().to_string(),
        tags: texts_from_json(&v["tags"]),
        contexts: texts_from_json(&v["contexts"]),
        status: status_from_json(&v["status"]),
        created_at: time_from_json(&v["created_at"]),
        completed_at: opt_time_from_json(&v["completed_at"]),
        due_date: opt_time_from_json(&v["due_date"]),
        priority: v["priority"].as_u64().unwrap() as u8,
        parent_id: v["parent_id"].as_u64().map(|p| p as u32),
        children: v["children"]
            .as_array()
            .unwrap()
            .iter()
            .map(|c| c.as_u64().unwrap() as u32)
            .collect(),
        expanded: v["expanded"].as_bool().unwrap(),
        notes: opt_text_from_json(&v["notes"]),
        time_tracker: TimeTracker {
            total_seconds: tracker["total_seconds"].as_u64().unwrap(),
            entries: tracker["entries"]
                .as_array()
                .unwrap()
                .iter()
                .map(|e| TimeEntry {
                    start: time_from_json(&e["start"]),
                    end: opt_time_from_json(&e["end"]),
                    description: opt_text_from_json(&e["description"]),
                })
                .collect(),
            current_session: opt_time_from_json(&tracker["current_session"]),
        },
        recurrence: recurrence_from_json(&v["recurrence"]),
        template_id: opt_text_from_json(&v["template_id"]),
    }
}

#[test]
fn test_serialization() {
    let mut todo = Todo::new(1, "Test serialization #test @dev".to_string());
    todo.set_notes(Some("Test notes\\nMultiple lines".to_string()));
    todo.start_timer();
    todo.stop_timer();
    todo.set_recurrence(RecurrencePattern::Weekly);

    // Test serialization
    let json = serde_json::to_string(&to_json(&todo)).expect("Failed to serialize todo");
    let value: Value = serde_json::from_str(&json).expect("Failed to deserialize todo");
    let deserialized: Todo = from_json(&value);

    assert_eq!(todo.id, deserialized.id);
    assert_eq!(todo.description, deserialized.description);
    assert_eq!(todo.notes, deserialized.notes);
    assert_eq!(todo.recurrence, deserialized.recurrence);

    println!("✅ Serialization works correctly");
}

#[test]
fn every_field_of_a_task_survives_the_round_trip() {
    let now = Timestamp::from_civil(2024, 3, 6, 10, 0, 0).unwrap();
    let mut todo = Todo::new_at(9, "Pay rent #bills @home due:2024-01-15".to_string(), now);
    todo.set_priority(4);
    todo.parent_id = Some(3);
    todo.children.push(11);
    todo.expanded = false;
    todo.template_id = Some("builtin-work-task".to_string());
    todo.set_recurrence(RecurrencePattern::Custom(10));
    todo.start_timer_at(now);
    todo.stop_timer_at(Timestamp::new(now.secs + 5, 1));
    todo.start_timer_at(Timestamp::new(now.secs + 9, 2));
    todo.complete_at(Timestamp::new(now.secs + 10, 3));
    let json = serde_json::to_string(&to_json(&todo)).unwrap();
    let back = from_json(&serde_json::from_str(&json).unwrap());
    assert_eq!(back.id, 9);
    assert_eq!(back.description, "Pay rent bills home");
    assert_eq!(back.raw_description, todo.raw_description);
    assert_eq!(back.tags, todo.tags);
    assert_eq!(back.contexts, todo.contexts);
    assert_eq!(back.status, TodoStatus::Completed);
    assert_eq!(back.created_at, now);
    assert_eq!(back.completed_at, Some(Timestamp::new(now.secs + 10, 3)));
    assert_eq!(back.due_date, todo.due_date);
    assert_eq!(back.priority, 4);
    assert_eq!(back.parent_id, Some(3));
    assert_eq!(back.children, vec![11]);
    assert!(!back.expanded);
    assert_eq!(back.notes, None);
    assert_eq!(back.time_tracker.total_seconds, 5);
    assert_eq!(back.time_tracker.entries.len(), 1);
    assert_eq!(back.time_tracker.entries[0].end, Some(Timestamp::new(now.secs + 5, 1)));
    assert_eq!(back.time_tracker.current_session, Some(Timestamp::new(now.secs + 9, 2)));
    assert_eq!(back.recurrence, RecurrencePattern::Custom(10));
    assert_eq!(back.template_id, Some("builtin-work-task".to_string()));
}
