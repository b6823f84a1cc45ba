//! The task entity: one trackable item with its annotations, status,
//! priority, place in the hierarchy, notes, tracked time and recurrence.

use crate::annotations::{parse, parse_description};
use crate::text::{
    copy_opt_text, copy_texts, decimal, decimal_string, opt_text, texts, trim, trimmed,
};
use crate::time::{
    civil_of_epoch_day, civil_to_epoch_day, epoch_day_of_civil, epoch_day_to_civil, Timestamp,
};
use vstd::prelude::*;
use vstd::string::StringExecFns;

verus! {

/// The highest priority a task can have; the lowest is 0.
pub const MAX_PRIORITY: u8 = 5;

/// Where a task stands.
#[derive(Debug, Clone, Copy, PartialEq, Eq, Structural)]
pub enum TodoStatus {
    Pending,
    Completed,
    InProgress,
}

/// The rule by which a completed task comes back.
#[derive(Debug, Clone, Copy, PartialEq, Eq, Structural)]
pub enum RecurrencePattern {
    /// The task does not come back.
    Never,
    Daily,
    Weekly,
    Monthly,
    Yearly,
    /// Every so many days.
    Custom(u32),
}

/// One closed stretch of tracked time.
#[derive(Debug)]
pub struct TimeEntry {
    pub start: Timestamp,
    pub end: Option<Timestamp>,
    pub description: Option<String>,
}

/// The mathematical content of a [`TimeEntry`].
pub struct TimeEntryView {
    pub start: Timestamp,
    pub end: Option<Timestamp>,
    pub description: Option<Seq<char>>,
}

impl View for TimeEntry {
    type V = TimeEntryView;

    open spec fn view(&self) -> TimeEntryView {
        TimeEntryView {
            start: self.start,
            end: self.end,
            description: opt_text(self.description),
        }
    }
}

/// The views of a sequence of time entries.
pub open spec fn entry_views(entries: Seq<TimeEntry>) -> Seq<TimeEntryView> {
    Seq::new(entries.len(), |i: int| entries[i]@)
}

/// The time tracked on a task: the seconds of all closed sessions, the log
/// of those sessions, and the start of the session that is open, if one is.
#[derive(Debug)]
pub struct TimeTracker {
    pub total_seconds: u64,
    pub entries: Vec<TimeEntry>,
    pub current_session: Option<Timestamp>,
}

/// The mathematical content of a [`TimeTracker`].
pub struct TimeTrackerView {
    pub total_seconds: u64,
    pub entries: Seq<TimeEntryView>,
    pub current_session: Option<Timestamp>,
}

impl View for TimeTracker {
    type V = TimeTrackerView;

    open spec fn view(&self) -> TimeTrackerView {
        TimeTrackerView {
            total_seconds: self.total_seconds,
            entries: entry_views(self.entries@),
            current_session: self.current_session,
        }
    }
}

/// A task.
#[derive(Debug)]
pub struct Todo {
    pub id: u32,
    /// The text shown: the raw text without its annotations.
    pub description: String,
    /// The text as it was entered.
    pub raw_description: String,
    /// Distinct lower-cased `#` words.
    pub tags: Vec<String>,
    /// Distinct lower-cased `@` words.
    pub contexts: Vec<String>,
    pub status: TodoStatus,
    pub created_at: Timestamp,
    pub completed_at: Option<Timestamp>,
    pub due_date: Option<Timestamp>,
    /// From 0 to [`MAX_PRIORITY`]; higher is more important.
    pub priority: u8,
    pub parent_id: Option<u32>,
    pub children: Vec<u32>,
    /// Whether the children are shown under the task.
    pub expanded: bool,
    pub notes: Option<String>,
    pub time_tracker: TimeTracker,
    pub recurrence: RecurrencePattern,
    /// The template that last stamped the task.
    pub template_id: Option<String>,
}

/// The mathematical content of a [`Todo`].
pub struct TodoView {
    pub id: u32,
    pub description: Seq<char>,
    pub raw_description: Seq<char>,
    pub tags: Seq<Seq<char>>,
    pub contexts: Seq<Seq<char>>,
    pub status: TodoStatus,
    pub created_at: Timestamp,
    pub completed_at: Option<Timestamp>,
    pub due_date: Option<Timestamp>,
    pub priority: u8,
    pub parent_id: Option<u32>,
    pub children: Seq<u32>,
    pub expanded: bool,
    pub notes: Option<Seq<char>>,
    pub time_tracker: TimeTrackerView,
    pub recurrence: RecurrencePattern,
    pub template_id: Option<Seq<char>>,
}

impl View for Todo {
    type V = TodoView;

    open spec fn view(&self) -> TodoView {
        TodoView {
            id: self.id,
            description: self.description@,
            raw_description: self.raw_description@,
            tags: texts(self.tags@),
            contexts: texts(self.contexts@),
            status: self.status,
            created_at: self.created_at,
            completed_at: self.completed_at,
            due_date: self.due_date,
            priority: self.priority,
            parent_id: self.parent_id,
            children: self.children@,
            expanded: self.expanded,
            notes: opt_text(self.notes),
            time_tracker: self.time_tracker@,
            recurrence: self.recurrence,
            template_id: opt_text(self.template_id),
        }
    }
}

/// The date one month after `due`, at the same time of day: the same day of
/// the next month, December rolling over into January of the next year.
/// `None` where the next month has no such day.
pub open spec fn month_later(due: Timestamp) -> Option<Timestamp> {
    let day = due.epoch_day();
    if i32::MIN <= day <= i32::MAX {
        match civil_of_epoch_day(day) {
            Some(civil) => {
                let (year, month) = if civil.1 == 12 {
                    (civil.0 + 1, 1)
                } else {
                    (civil.0, civil.1 + 1)
                };
                if year <= i32::MAX && month <= u32::MAX {
                    match epoch_day_of_civil(year, month, civil.2) {
                        Some(next) => due.on_day_spec(next),
                        None => None,
                    }
                } else {
                    None
                }
            },
            None => None,
        }
    } else {
        None
    }
}

/// The date one year after `due`, at the same time of day. `None` where the
/// next year has no such day (the 29th of February).
pub open spec fn year_later(due: Timestamp) -> Option<Timestamp> {
    let day = due.epoch_day();
    if i32::MIN <= day <= i32::MAX {
        match civil_of_epoch_day(day) {
            Some(civil) => if civil.0 + 1 <= i32::MAX {
                match epoch_day_of_civil(civil.0 + 1, civil.1, civil.2) {
                    Some(next) => due.on_day_spec(next),
                    None => None,
                }
            } else {
                None
            },
            None => None,
        }
    } else {
        None
    }
}

/// The due date that follows `due` under a recurrence rule.
pub open spec fn next_due(due: Option<Timestamp>, recurrence: RecurrencePattern) -> Option<
    Timestamp,
> {
    match due {
        Some(d) => match recurrence {
            RecurrencePattern::Daily => d.plus_days_spec(1),
            RecurrencePattern::Weekly => d.plus_days_spec(7),
            RecurrencePattern::Monthly => month_later(d),
            RecurrencePattern::Yearly => year_later(d),
            RecurrencePattern::Custom(days) => d.plus_days_spec(days as int),
            RecurrencePattern::Never => None,
        },
        None => None,
    }
}

/// Tracked seconds as hours and minutes: `2h 5m`, or `5m` under an hour.
pub open spec fn formatted_time(total: nat) -> Seq<char> {
    let hours = total / 3600;
    let minutes = (total % 3600) / 60;
    if hours > 0 {
        decimal(hours) + "h "@ + decimal(minutes) + "m"@
    } else {
        decimal(minutes) + "m"@
    }
}

/// The sum of two counts of seconds, held at the largest count a `u64` has.
pub open spec fn saturating_sum(a: u64, b: u64) -> u64 {
    if a + b > u64::MAX {
        u64::MAX
    } else {
        (a + b) as u64
    }
}

impl TodoView {
    /// Whether the task keeps what every operation of this module keeps: the
    /// priority within its range, and a completion time exactly when the
    /// status is completed.
    pub open spec fn well_formed(self) -> bool {
        &&& self.priority <= MAX_PRIORITY
        &&& self.completed_at.is_some() <==> self.status == TodoStatus::Completed
    }

    /// Whether the task is due before `now` and not completed.
    pub open spec fn overdue_at(self, now: Timestamp) -> bool {
        match self.due_date {
            Some(due) => due.before(now) && self.status != TodoStatus::Completed,
            None => false,
        }
    }

    /// The whole seconds of the open session up to `now`.
    pub open spec fn session_seconds(self, now: Timestamp) -> Option<u64> {
        match self.time_tracker.current_session {
            Some(start) => Some(now.seconds_since(start) as u64),
            None => None,
        }
    }

    /// `self` once completed at `now`.
    pub open spec fn completed(self, now: Timestamp) -> TodoView {
        TodoView { status: TodoStatus::Completed, completed_at: Some(now), ..self }
    }

    /// `self` once put back to pending.
    pub open spec fn reopened(self) -> TodoView {
        TodoView { status: TodoStatus::Pending, completed_at: None, ..self }
    }

    /// `self` after new raw text was entered at `now`: text, description,
    /// labels and due date are those of the new text, all else stays.
    pub open spec fn rewritten(self, raw: Seq<char>, now: Timestamp) -> TodoView {
        let found = parse(raw, now);
        TodoView {
            description: found.description,
            raw_description: raw,
            tags: found.tags,
            contexts: found.contexts,
            due_date: found.due_date,
            ..self
        }
    }

    /// `self` after a session was opened at `now`.
    pub open spec fn timer_started(self, now: Timestamp) -> TodoView {
        if self.time_tracker.current_session.is_none() {
            TodoView {
                status: if self.status == TodoStatus::Pending {
                    TodoStatus::InProgress
                } else {
                    self.status
                },
                time_tracker: TimeTrackerView { current_session: Some(now), ..self.time_tracker },
                ..self
            }
        } else {
            self
        }
    }

    /// `self` after the open session was closed at `now`.
    pub open spec fn timer_stopped(self, now: Timestamp) -> TodoView {
        match self.time_tracker.current_session {
            Some(start) => TodoView {
                time_tracker: TimeTrackerView {
                    total_seconds: saturating_sum(
                        self.time_tracker.total_seconds,
                        now.seconds_since(start) as u64,
                    ),
                    entries: self.time_tracker.entries.push(
                        TimeEntryView { start, end: Some(now), description: None },
                    ),
                    current_session: None,
                },
                ..self
            },
            None => self,
        }
    }

    /// The seconds tracked up to `now`, the open session included.
    pub open spec fn tracked_seconds(self, now: Timestamp) -> u64 {
        match self.time_tracker.current_session {
            Some(start) => saturating_sum(
                self.time_tracker.total_seconds,
                now.seconds_since(start) as u64,
            ),
            None => self.time_tracker.total_seconds,
        }
    }
}

impl TimeEntry {
    /// A copy of the entry.
    pub fn duplicate(&self) -> (copy: TimeEntry)
        ensures
            copy@ == self@,
    {
        TimeEntry {
            start: self.start,
            end: self.end,
            description: copy_opt_text(&self.description),
        }
    }
}

impl Clone for TimeEntry {
    fn clone(&self) -> (copy: Self)
        ensures
            copy@ == self@,
    {
        self.duplicate()
    }
}

impl TimeTracker {
    /// A tracker with no time on it.
    pub fn new() -> (tracker: TimeTracker)
        ensures
            tracker@ == TimeTracker::empty(),
    {
        let tracker = TimeTracker { total_seconds: 0, entries: Vec::new(), current_session: None };
        assert(tracker@.entries =~= Seq::empty());
        tracker
    }

    /// The view of a tracker with no time on it.
    pub open spec fn empty() -> TimeTrackerView {
        TimeTrackerView { total_seconds: 0, entries: Seq::empty(), current_session: None }
    }

    /// A copy of the tracker.
    pub fn duplicate(&self) -> (copy: TimeTracker)
        ensures
            copy@ == self@,
    {
        let mut entries: Vec<TimeEntry> = Vec::new();
        let mut i: usize = 0;
        while i < self.entries.len()
            invariant
                i <= self.entries.len(),
                entries@.len() == i,
                forall|j: int| 0 <= j < i ==> entries@[j]@ == self.entries@[j]@,
            decreases self.entries.len() - i,
        {
            entries.push(self.entries[i].duplicate());
            i += 1;
        }
        assert(entry_views(entries@) =~= entry_views(self.entries@));
        TimeTracker {
            total_seconds: self.total_seconds,
            entries,
            current_session: self.current_session,
        }
    }
}

impl Clone for TimeTracker {
    fn clone(&self) -> (copy: Self)
        ensures
            copy@ == self@,
    {
        self.duplicate()
    }
}

impl Clone for Todo {
    fn clone(&self) -> (copy: Self)
        ensures
            copy@ == self@,
    {
        let mut children: Vec<u32> = Vec::new();
        let mut i: usize = 0;
        while i < self.children.len()
            invariant
                i <= self.children.len(),
                children@ == self.children@.take(i as int),
            decreases self.children.len() - i,
        {
            children.push(self.children[i]);
            assert(self.children@.take(i + 1) =~= self.children@.take(i as int).push(
                self.children@[i as int],
            ));
            i += 1;
        }
        assert(self.children@.take(self.children@.len() as int) =~= self.children@);
        Todo {
            id: self.id,
            description: self.description.clone(),
            raw_description: self.raw_description.clone(),
            tags: copy_texts(&self.tags),
            contexts: copy_texts(&self.contexts),
            status: self.status,
            created_at: self.created_at,
            completed_at: self.completed_at,
            due_date: self.due_date,
            priority: self.priority,
            parent_id: self.parent_id,
            children,
            expanded: self.expanded,
            notes: copy_opt_text(&self.notes),
            time_tracker: self.time_tracker.duplicate(),
            recurrence: self.recurrence,
            template_id: copy_opt_text(&self.template_id),
        }
    }
}

impl Todo {
    /// The task that raw text entered at `now` makes: pending, of priority
    /// 0, a root without children, expanded, with nothing tracked.
    pub open spec fn created(id: u32, raw: Seq<char>, now: Timestamp) -> TodoView {
        let found = parse(raw, now);
        TodoView {
            id,
            description: found.description,
            raw_description: raw,
            tags: found.tags,
            contexts: found.contexts,
            status: TodoStatus::Pending,
            created_at: now,
            completed_at: None,
            due_date: found.due_date,
            priority: 0,
            parent_id: None,
            children: Seq::empty(),
            expanded: true,
            notes: None,
            time_tracker: TimeTracker::empty(),
            recurrence: RecurrencePattern::Never,
            template_id: None,
        }
    }

    /// Makes the task that `raw_description`, entered at `now`, describes.
    pub fn new_at(id: u32, raw_description: String, now: Timestamp) -> (todo: Todo)
        ensures
            todo@ == Todo::created(id, raw_description@, now),
            todo@.well_formed(),
    {
        let found = parse_description(raw_description.as_str(), &now);
        let todo = Todo {
            id,
            description: found.description,
            raw_description,
            tags: found.tags,
            contexts: found.contexts,
            status: TodoStatus::Pending,
            created_at: now,
            completed_at: None,
            due_date: found.due_date,
            priority: 0,
            parent_id: None,
            children: Vec::new(),
            expanded: true,
            notes: None,
            time_tracker: TimeTracker::new(),
            recurrence: RecurrencePattern::Never,
            template_id: None,
        };
        assert(todo@.children =~= Seq::empty());
        todo
    }

    /// Makes the task that `raw_description` describes, entered now.
    pub fn new(id: u32, raw_description: String) -> (todo: Todo)
        ensures
            exists|now: Timestamp| todo@ == Todo::created(id, raw_description@, now),
            todo@.well_formed(),
    {
        let now = Timestamp::now();
        Todo::new_at(id, raw_description, now)
    }

    /// Reads raw task text now. See [`parse_description`].
    pub fn parse_description(input: &str) -> (found: crate::annotations::Annotations)
        ensures
            exists|now: Timestamp| found@ == parse(input@, now),
    {
        let now = Timestamp::now();
        parse_description(input, &now)
    }

    /// Marks the task completed at `now`.
    pub fn complete_at(&mut self, now: Timestamp)
        ensures
            final(self)@ == old(self)@.completed(now),
            old(self).priority <= MAX_PRIORITY ==> final(self)@.well_formed(),
    {
        self.status = TodoStatus::Completed;
        self.completed_at = Some(now);
    }

    /// Marks the task completed now.
    pub fn complete(&mut self)
        ensures
            exists|now: Timestamp|
                final(self)@ == old(self)@.completed(now),
            old(self).priority <= MAX_PRIORITY ==> final(self)@.well_formed(),
    {
        let now = Timestamp::now();
        self.complete_at(now);
    }

    /// Puts the task back to pending and forgets when it was completed.
    pub fn uncomplete(&mut self)
        ensures
            final(self)@ == old(self)@.reopened(),
            old(self).priority <= MAX_PRIORITY ==> final(self)@.well_formed(),
    {
        self.status = TodoStatus::Pending;
        self.completed_at = None;
    }

    /// A completed task becomes pending; any other becomes completed at `now`.
    pub fn toggle_complete_at(&mut self, now: Timestamp)
        ensures
            old(self).status == TodoStatus::Completed ==> final(self)@ == old(self)@.reopened(),
            old(self).status != TodoStatus::Completed ==> final(self)@ == old(self)@.completed(now),
            old(self).priority <= MAX_PRIORITY ==> final(self)@.well_formed(),
    {
        match self.status {
            TodoStatus::Completed => self.uncomplete(),
            _ => self.complete_at(now),
        }
    }

    /// A completed task becomes pending; any other becomes completed now.
    pub fn toggle_complete(&mut self)
        ensures
            old(self).status == TodoStatus::Completed ==> final(self)@ == old(self)@.reopened(),
            old(self).status != TodoStatus::Completed ==> exists|now: Timestamp|
                final(self)@ == old(self)@.completed(now),
            old(self).priority <= MAX_PRIORITY ==> final(self)@.well_formed(),
    {
        let now = Timestamp::now();
        self.toggle_complete_at(now);
    }

    /// Sets the priority, holding it at [`MAX_PRIORITY`].
    pub fn set_priority(&mut self, priority: u8)
        ensures
            final(self)@ == (TodoView {
                priority: if priority <= MAX_PRIORITY {
                    priority
                } else {
                    MAX_PRIORITY
                },
                ..old(self)@
            }),
            final(self).priority <= MAX_PRIORITY,
    {
        self.priority = if priority <= MAX_PRIORITY {
            priority
        } else {
            MAX_PRIORITY
        };
    }

    /// Whether the status is completed.
    pub fn is_completed(&self) -> (done: bool)
        ensures
            done == (self.status == TodoStatus::Completed),
    {
        match self.status {
            TodoStatus::Completed => true,
            _ => false,
        }
    }

    /// Whether the task is due before `now` and not completed.
    pub fn is_overdue_at(&self, now: &Timestamp) -> (late: bool)
        ensures
            late == self@.overdue_at(*now),
    {
        match &self.due_date {
            Some(due) => due.is_before(now) && !self.is_completed(),
            None => false,
        }
    }

    /// Whether the task is due before the present moment and not completed.
    pub fn is_overdue(&self) -> (late: bool)
        ensures
            exists|now: Timestamp| late == self@.overdue_at(now),
            self.due_date.is_none() || self.status == TodoStatus::Completed ==> !late,
    {
        let now = Timestamp::now();
        self.is_overdue_at(&now)
    }

    /// Opens a session at `now`, and moves a pending task to in progress.
    /// Nothing happens while a session is open.
    pub fn start_timer_at(&mut self, now: Timestamp)
        ensures
            final(self)@ == old(self)@.timer_started(now),
            old(self)@.well_formed() ==> final(self)@.well_formed(),
    {
        if self.time_tracker.current_session.is_none() {
            self.time_tracker.current_session = Some(now);
            if self.status == TodoStatus::Pending {
                self.status = TodoStatus::InProgress;
            }
        }
    }

    /// Opens a session now. See [`Todo::start_timer_at`].
    pub fn start_timer(&mut self)
        ensures
            exists|now: Timestamp| final(self)@ == old(self)@.timer_started(now),
            old(self)@.well_formed() ==> final(self)@.well_formed(),
    {
        let now = Timestamp::now();
        self.start_timer_at(now);
    }

    /// Closes the open session at `now`: its whole seconds go onto the total
    /// (none where `now` is before its start; the total stops at `u64::MAX`)
    /// and it is logged. Nothing happens while no session is open.
    pub fn stop_timer_at(&mut self, now: Timestamp)
        ensures
            final(self)@ == old(self)@.timer_stopped(now),
            old(self)@.well_formed() ==> final(self)@.well_formed(),
    {
        match self.time_tracker.current_session {
            Some(start) => {
                let elapsed = now.whole_seconds_since(&start);
                let ghost logged = self.time_tracker@.entries;
                self.time_tracker.current_session = None;
                self.time_tracker.total_seconds = self.time_tracker.total_seconds.saturating_add(
                    elapsed,
                );
                self.time_tracker.entries.push(
                    TimeEntry { start, end: Some(now), description: None },
                );
                assert(self.time_tracker@.entries =~= logged.push(
                    TimeEntryView { start, end: Some(now), description: None },
                ));
            },
            None => {},
        }
    }

    /// Closes the open session now. See [`Todo::stop_timer_at`].
    pub fn stop_timer(&mut self)
        ensures
            exists|now: Timestamp| final(self)@ == old(self)@.timer_stopped(now),
            old(self)@.well_formed() ==> final(self)@.well_formed(),
    {
        let now = Timestamp::now();
        self.stop_timer_at(now);
    }

    /// Whether a session is open.
    pub fn is_timer_running(&self) -> (running: bool)
        ensures
            running == self.time_tracker.current_session.is_some(),
    {
        self.time_tracker.current_session.is_some()
    }

    /// The whole seconds of the open session up to `now`.
    pub fn current_session_duration_at(&self, now: &Timestamp) -> (seconds: Option<u64>)
        ensures
            seconds == self@.session_seconds(*now),
    {
        match &self.time_tracker.current_session {
            Some(start) => Some(now.whole_seconds_since(start)),
            None => None,
        }
    }

    /// The whole seconds of the open session up to the present moment.
    pub fn get_current_session_duration(&self) -> (seconds: Option<u64>)
        ensures
            exists|now: Timestamp| seconds == self@.session_seconds(now),
            seconds.is_some() == self.time_tracker.current_session.is_some(),
    {
        let now = Timestamp::now();
        self.current_session_duration_at(&now)
    }

    /// The time tracked up to `now`, written as hours and minutes.
    pub fn total_time_formatted_at(&self, now: &Timestamp) -> (shown: String)
        ensures
            shown@ == formatted_time(self@.tracked_seconds(*now) as nat),
    {
        let total: u64 = match self.current_session_duration_at(now) {
            Some(running) => self.time_tracker.total_seconds.saturating_add(running),
            None => self.time_tracker.total_seconds,
        };
        format_tracked(total)
    }

    /// The time tracked up to the present moment, written as hours and
    /// minutes.
    pub fn get_total_time_formatted(&self) -> (shown: String)
        ensures
            exists|now: Timestamp| shown@ == formatted_time(self@.tracked_seconds(now) as nat),
    {
        let now = Timestamp::now();
        self.total_time_formatted_at(&now)
    }

    /// Replaces the notes.
    pub fn set_notes(&mut self, notes: Option<String>)
        ensures
            final(self)@ == (TodoView { notes: opt_text(notes), ..old(self)@ }),
            old(self)@.well_formed() ==> final(self)@.well_formed(),
    {
        self.notes = notes;
    }

    /// Replaces the text of the task with text entered at `now`, and reads
    /// description, labels and due date anew from it. A due date that the
    /// new text does not name is gone.
    pub fn update_description_at(&mut self, new_raw_description: String, now: Timestamp)
        ensures
            final(self)@ == old(self)@.rewritten(new_raw_description@, now),
            final(self)@.raw_description == new_raw_description@,
            final(self)@.description == parse(new_raw_description@, now).description,
            final(self)@.tags == parse(new_raw_description@, now).tags,
            final(self)@.contexts == parse(new_raw_description@, now).contexts,
            final(self)@.due_date == parse(new_raw_description@, now).due_date,
            old(self)@.well_formed() ==> final(self)@.well_formed(),
    {
        let found = parse_description(new_raw_description.as_str(), &now);
        self.raw_description = new_raw_description;
        self.description = found.description;
        self.tags = found.tags;
        self.contexts = found.contexts;
        self.due_date = found.due_date;
    }

    /// Replaces the text of the task with text entered now. See
    /// [`Todo::update_description_at`].
    pub fn update_description(&mut self, new_raw_description: String)
        ensures
            exists|now: Timestamp| final(self)@ == old(self)@.rewritten(new_raw_description@, now),
            old(self)@.well_formed() ==> final(self)@.well_formed(),
    {
        let now = Timestamp::now();
        self.update_description_at(new_raw_description, now);
    }

    /// Whether the task has notes that are more than white space.
    pub fn has_notes(&self) -> (any: bool)
        ensures
            any == match self.notes {
                Some(notes) => trimmed(notes@).len() > 0,
                None => false,
            },
    {
        match &self.notes {
            Some(notes) => {
                let cut = trim(notes.as_str());
                !cut.as_str().is_empty()
            },
            None => false,
        }
    }

    /// Sets the recurrence rule.
    pub fn set_recurrence(&mut self, pattern: RecurrencePattern)
        ensures
            final(self)@ == (TodoView { recurrence: pattern, ..old(self)@ }),
            old(self)@.well_formed() ==> final(self)@.well_formed(),
    {
        self.recurrence = pattern;
    }

    /// Whether the task has a recurrence rule.
    pub fn is_recurring(&self) -> (recurring: bool)
        ensures
            recurring == (self.recurrence != RecurrencePattern::Never),
    {
        match self.recurrence {
            RecurrencePattern::Never => false,
            _ => true,
        }
    }

    /// Whether the task is completed and recurs, so that a follow-up is due.
    pub fn should_generate_next(&self) -> (due: bool)
        ensures
            due == (self.status == TodoStatus::Completed && self.recurrence
                != RecurrencePattern::Never),
    {
        self.is_completed() && self.is_recurring()
    }

    /// The due date of the follow-up: the present due date moved on by the
    /// recurrence rule. A task without a due date or without a rule has none.
    pub fn get_next_due_date(&self) -> (next: Option<Timestamp>)
        ensures
            next == next_due(self.due_date, self.recurrence),
    {
        match &self.due_date {
            Some(due) => match self.recurrence {
                RecurrencePattern::Daily => due.plus_days(1),
                RecurrencePattern::Weekly => due.plus_days(7),
                RecurrencePattern::Monthly => a_month_later(due),
                RecurrencePattern::Yearly => a_year_later(due),
                RecurrencePattern::Custom(days) => due.plus_days(days as i64),
                RecurrencePattern::Never => None,
            },
            None => None,
        }
    }
}

/// Writes a count of seconds as hours and minutes.
pub fn format_tracked(total: u64) -> (shown: String)
    ensures
        shown@ == formatted_time(total as nat),
{
    let hours: u64 = total / 3600;
    let minutes: u64 = (total % 3600) / 60;
    let mut shown = String::new();
    if hours > 0 {
        shown.append(decimal_string(hours).as_str());
        shown.append("h ");
    }
    shown.append(decimal_string(minutes).as_str());
    shown.append("m");
    assert(shown@ =~= formatted_time(total as nat));
    shown
}

/// The same day of the month after that of `due`, at the same time of day.
pub fn a_month_later(due: &Timestamp) -> (next: Option<Timestamp>)
    ensures
        next == month_later(*due),
{
    let day = due.day();
    if day < i32::MIN as i64 || day > i32::MAX as i64 {
        return None;
    }
    match epoch_day_to_civil(day as i32) {
        Some((year, month, day_of_month)) => {
            let target: Option<(i32, u32)> = if month == 12 {
                match year.checked_add(1) {
                    Some(y) => Some((y, 1)),
                    None => None,
                }
            } else {
                match month.checked_add(1) {
                    Some(m) => Some((year, m)),
                    None => None,
                }
            };
            match target {
                Some((y, m)) => match civil_to_epoch_day(y, m, day_of_month) {
                    Some(next) => due.on_day(next as i64),
                    None => None,
                },
                None => None,
            }
        },
        None => None,
    }
}

/// The same day of the same month in the year after that of `due`, at the
/// same time of day.
pub fn a_year_later(due: &Timestamp) -> (next: Option<Timestamp>)
    ensures
        next == year_later(*due),
{
    let day = due.day();
    if day < i32::MIN as i64 || day > i32::MAX as i64 {
        return None;
    }
    match epoch_day_to_civil(day as i32) {
        Some((year, month, day_of_month)) => match year.checked_add(1) {
            Some(y) => match civil_to_epoch_day(y, month, day_of_month) {
                Some(next) => due.on_day(next as i64),
                None => None,
            },
            None => None,
        },
        None => None,
    }
}

} // verus!
