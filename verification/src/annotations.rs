//! The annotation grammar of task text: `#tag` and `@context` markers and a
//! `due:` token.
//!
//! Matching is done by the `regex` crate behind the wrappers of
//! [`crate::text`]; this module fixes the patterns, and verifies everything
//! that is made of the matches: lower-casing and deduplication of labels, the
//! due-date grammar, and the order of the clean-up steps.

use crate::text::{
    contains_text, groups_view, lowercase_of, opt_text, opt_texts, regex_capture_groups,
    regex_groups, regex_replace, regex_replaced, same_text, texts, to_lowercase, trim, trimmed,
};
use crate::time::{
    epoch_day_to_weekday, parse_epoch_day, parsed_epoch_day, weekday_of_epoch_day, Timestamp,
};
use vstd::prelude::*;
use vstd::string::StringExecFns;

verus! {

/// A `#` followed by a run of ASCII letters, digits and underscores.
pub const TAG_PATTERN: &'static str = "#([a-zA-Z0-9_]+)";

/// An `@` followed by a run of ASCII letters, digits and underscores.
pub const CONTEXT_PATTERN: &'static str = "@([a-zA-Z0-9_]+)";

/// `due:` followed by a run of word characters, hyphens and slashes.
pub const DUE_PATTERN: &'static str = "due:([\\w\\-/]+)";

/// The `strftime` pattern of a written due date: year, month, day.
pub const DATE_FORMAT: &'static str = "%Y-%m-%d";

/// What puts the word of a marker in its place, without the marker.
pub const KEEP_WORD: &'static str = "$1";

/// What task text says beside its words.
pub struct Annotations {
    /// The text without the due token and the markers, trimmed.
    pub description: String,
    /// The distinct lower-cased tag words, in order of first appearance.
    pub tags: Vec<String>,
    /// The distinct lower-cased context words, in order of first appearance.
    pub contexts: Vec<String>,
    /// The due date, if the text names one the grammar knows.
    pub due_date: Option<Timestamp>,
}

/// The mathematical content of [`Annotations`].
pub struct AnnotationsView {
    pub description: Seq<char>,
    pub tags: Seq<Seq<char>>,
    pub contexts: Seq<Seq<char>>,
    pub due_date: Option<Timestamp>,
}

impl View for Annotations {
    type V = AnnotationsView;

    open spec fn view(&self) -> AnnotationsView {
        AnnotationsView {
            description: self.description@,
            tags: texts(self.tags@),
            contexts: texts(self.contexts@),
            due_date: self.due_date,
        }
    }
}

/// The words of a sequence without repetitions, each where it came first.
pub open spec fn distinct(words: Seq<Seq<char>>) -> Seq<Seq<char>>
    decreases words.len(),
{
    if words.len() == 0 {
        Seq::empty()
    } else {
        let before = distinct(words.drop_last());
        if before.contains(words.last()) {
            before
        } else {
            before.push(words.last())
        }
    }
}

/// Lower-cased, the words that the matches of a marker pattern captured.
pub open spec fn lowered(groups: Seq<Option<Seq<char>>>) -> Seq<Seq<char>>
    decreases groups.len(),
{
    if groups.len() == 0 {
        Seq::empty()
    } else {
        match groups.last() {
            Some(word) => lowered(groups.drop_last()).push(lowercase_of(word)),
            None => lowered(groups.drop_last()),
        }
    }
}

/// The label set of the matches of a marker pattern: lower-cased and
/// distinct. A pattern that did not compile gives no labels.
pub open spec fn labels(groups: Option<Seq<Option<Seq<char>>>>) -> Seq<Seq<char>> {
    match groups {
        Some(g) => distinct(lowered(g)),
        None => Seq::empty(),
    }
}

/// The word that the first match captured, if there is a first match and it
/// captured one.
pub open spec fn first_word(groups: Option<Seq<Option<Seq<char>>>>) -> Option<Seq<char>> {
    match groups {
        Some(g) => if g.len() > 0 {
            g[0]
        } else {
            None
        },
        None => None,
    }
}

/// The weekday, Monday being 1, that a lower-case English name or
/// three-letter abbreviation stands for.
pub open spec fn weekday_named(word: Seq<char>) -> Option<int> {
    if word == "monday"@ || word == "mon"@ {
        Some(1)
    } else if word == "tuesday"@ || word == "tue"@ {
        Some(2)
    } else if word == "wednesday"@ || word == "wed"@ {
        Some(3)
    } else if word == "thursday"@ || word == "thu"@ {
        Some(4)
    } else if word == "friday"@ || word == "fri"@ {
        Some(5)
    } else if word == "saturday"@ || word == "sat"@ {
        Some(6)
    } else if word == "sunday"@ || word == "sun"@ {
        Some(7)
    } else {
        None
    }
}

/// Days from a day with weekday `from` to the next day with weekday
/// `target`: between 1 and 7, never 0.
pub open spec fn days_until(from: int, target: int) -> int {
    let ahead = (target - from + 7) % 7;
    if ahead == 0 {
        7
    } else {
        ahead
    }
}

/// The weekday of a day, where the calendar wrapper can be asked for it.
pub open spec fn weekday_on(day: int) -> Option<int> {
    if i32::MIN <= day <= i32::MAX {
        weekday_of_epoch_day(day)
    } else {
        None
    }
}

/// 23:59:59 on the next day after `today` whose weekday is `target`.
pub open spec fn next_weekday_spec(today: int, target: int) -> Option<Timestamp> {
    match weekday_on(today) {
        Some(from) => Timestamp::end_of_day_spec(today + days_until(from, target)),
        None => None,
    }
}

/// The due date that the token after `due:` names, read at `now`.
pub open spec fn due_of(token: Seq<char>, now: Timestamp) -> Option<Timestamp> {
    let word = lowercase_of(token);
    if word == "today"@ {
        Timestamp::end_of_day_spec(now.epoch_day())
    } else if word == "tomorrow"@ {
        Timestamp::end_of_day_spec(now.epoch_day() + 1)
    } else {
        match weekday_named(word) {
            Some(target) => next_weekday_spec(now.epoch_day(), target),
            None => match parsed_epoch_day(token, DATE_FORMAT@) {
                Some(day) => Timestamp::end_of_day_spec(day),
                None => None,
            },
        }
    }
}

/// `text` after one replacement step; unchanged where the pattern did not
/// compile.
pub open spec fn replaced_or_same(
    pattern: Seq<char>,
    text: Seq<char>,
    limit: nat,
    replacement: Seq<char>,
) -> Seq<char> {
    match regex_replaced(pattern, text, limit, replacement) {
        Some(out) => out,
        None => text,
    }
}

/// The description of raw text: the first due token cut out if there is one,
/// every marker replaced by its word, and the ends trimmed.
pub open spec fn clean(raw: Seq<char>) -> Seq<char> {
    let without_due = if first_word(regex_groups(DUE_PATTERN@, raw, 1)).is_some() {
        replaced_or_same(DUE_PATTERN@, raw, 1, Seq::empty())
    } else {
        raw
    };
    let without_tags = replaced_or_same(TAG_PATTERN@, without_due, 0, KEEP_WORD@);
    trimmed(replaced_or_same(CONTEXT_PATTERN@, without_tags, 0, KEEP_WORD@))
}

/// The due date of raw text read at `now`: what the first due token names.
pub open spec fn due_in(raw: Seq<char>, now: Timestamp) -> Option<Timestamp> {
    match first_word(regex_groups(DUE_PATTERN@, raw, 1)) {
        Some(token) => due_of(token, now),
        None => None,
    }
}

/// Everything the grammar reads out of raw text at `now`.
pub open spec fn parse(raw: Seq<char>, now: Timestamp) -> AnnotationsView {
    AnnotationsView {
        description: clean(raw),
        tags: labels(regex_groups(TAG_PATTERN@, raw, 1)),
        contexts: labels(regex_groups(CONTEXT_PATTERN@, raw, 1)),
        due_date: due_in(raw, now),
    }
}

/// `distinct` keeps every word once: its result has no repetitions and holds
/// exactly the words of its argument.
pub proof fn lemma_distinct_is_a_set(words: Seq<Seq<char>>)
    ensures
        distinct(words).no_duplicates(),
        forall|w: Seq<char>| distinct(words).contains(w) <==> words.contains(w),
    decreases words.len(),
{
    if words.len() > 0 {
        let init = words.drop_last();
        let last = words.last();
        lemma_distinct_is_a_set(init);
        let before = distinct(init);
        assert forall|w: Seq<char>| distinct(words).contains(w) <==> words.contains(w) by {
            assert(before.contains(w) <==> init.contains(w));
            if words.contains(w) {
                let i = choose|i: int| 0 <= i < words.len() && words[i] == w;
                if i < words.len() - 1 {
                    assert(init[i] == w);
                    assert(init.contains(w));
                    if !before.contains(last) {
                        let k = before.index_of(w);
                        assert(before.push(last)[k] == w);
                    }
                } else {
                    if !before.contains(last) {
                        assert(before.push(last)[before.len() as int] == last);
                    }
                }
            }
            if distinct(words).contains(w) {
                let i = choose|i: int| 0 <= i < distinct(words).len() && distinct(words)[i] == w;
                if before.contains(last) || i < before.len() {
                    assert(before[i] == w);
                    assert(before.contains(w));
                    assert(init.contains(w));
                    let j = choose|j: int| 0 <= j < init.len() && init[j] == w;
                    assert(words[j] == w);
                } else {
                    assert(words[words.len() - 1] == w);
                }
            }
        }
    }
}

/// The weekday that a lower-case name stands for.
pub fn weekday_from_name(word: &String) -> (day: Option<u32>)
    ensures
        match day {
            Some(d) => weekday_named(word@) == Some(d as int),
            None => weekday_named(word@).is_none(),
        },
{
    if same_text(word, "monday") || same_text(word, "mon") {
        Some(1)
    } else if same_text(word, "tuesday") || same_text(word, "tue") {
        Some(2)
    } else if same_text(word, "wednesday") || same_text(word, "wed") {
        Some(3)
    } else if same_text(word, "thursday") || same_text(word, "thu") {
        Some(4)
    } else if same_text(word, "friday") || same_text(word, "fri") {
        Some(5)
    } else if same_text(word, "saturday") || same_text(word, "sat") {
        Some(6)
    } else if same_text(word, "sunday") || same_text(word, "sun") {
        Some(7)
    } else {
        None
    }
}

/// 23:59:59 on the first day after `today` that falls on weekday `target`,
/// given that `today` falls on weekday `from` (Monday is 1, Sunday 7). A
/// target equal to today's weekday gives the day a week from now.
pub fn next_weekday_after(today: i64, from: u32, target: u32) -> (due: Option<Timestamp>)
    requires
        1 <= from <= 7,
        1 <= target <= 7,
    ensures
        due == Timestamp::end_of_day_spec(today + days_until(from as int, target as int)),
{
    let ahead: u32 = (target + 7 - from) % 7;
    let ahead: i64 = if ahead == 0 {
        7
    } else {
        ahead as i64
    };
    match today.checked_add(ahead) {
        Some(day) => Timestamp::end_of_day(day),
        None => None,
    }
}

/// 23:59:59 on the next day after the day of `now` whose weekday is
/// `target`; `None` where the calendar does not reach that day.
pub fn next_weekday(now: &Timestamp, target: u32) -> (due: Option<Timestamp>)
    requires
        1 <= target <= 7,
    ensures
        due == next_weekday_spec(now.epoch_day(), target as int),
{
    let today = now.day();
    if today < i32::MIN as i64 || today > i32::MAX as i64 {
        return None;
    }
    match epoch_day_to_weekday(today as i32) {
        Some(from) => next_weekday_after(today, from, target),
        None => None,
    }
}

/// Reads the token that follows `due:`. The words `today` and `tomorrow`
/// and the English weekday names, in any case, count from the day of `now`;
/// anything else is tried as a date written year-month-day. A token that is
/// none of these names no date.
pub fn parse_due_date(token: &str, now: &Timestamp) -> (due: Option<Timestamp>)
    ensures
        due == due_of(token@, *now),
{
    let word = to_lowercase(token);
    if same_text(&word, "today") {
        Timestamp::end_of_day(now.day())
    } else if same_text(&word, "tomorrow") {
        Timestamp::end_of_day(now.day() + 1)
    } else {
        match weekday_from_name(&word) {
            Some(target) => next_weekday(now, target),
            None => match parse_epoch_day(token, DATE_FORMAT) {
                Some(day) => Timestamp::end_of_day(day as i64),
                None => None,
            },
        }
    }
}

/// The labels of the matches of a marker pattern: each captured word in
/// lower case, repetitions dropped.
pub fn labels_of(groups: &Option<Vec<Option<String>>>) -> (found: Vec<String>)
    ensures
        texts(found@) == labels(groups_view(*groups)),
{
    let mut found: Vec<String> = Vec::new();
    match groups {
        Some(list) => {
            let ghost all = opt_texts(list@);
            let mut i: usize = 0;
            assert(all.take(0) =~= Seq::empty());
            while i < list.len()
                invariant
                    i <= list.len(),
                    all == opt_texts(list@),
                    texts(found@) == distinct(lowered(all.take(i as int))),
                decreases list.len() - i,
            {
                proof {
                    assert(all.take(i as int + 1).drop_last() =~= all.take(i as int));
                    assert(all.take(i as int + 1).last() == opt_text(list@[i as int]));
                }
                match &list[i] {
                    Some(word) => {
                        let lower = to_lowercase(word.as_str());
                        let ghost so_far = lowered(all.take(i as int));
                        assert(lowered(all.take(i as int + 1)) == so_far.push(lower@));
                        assert(so_far.push(lower@).drop_last() =~= so_far);
                        if !contains_text(&found, &lower) {
                            let ghost before = texts(found@);
                            found.push(lower);
                            assert(texts(found@) =~= before.push(lower@));
                        }
                    },
                    None => {},
                }
                i += 1;
            }
            assert(all.take(list.len() as int) =~= all);
        },
        None => {},
    }
    assert(texts(found@) =~= labels(groups_view(*groups)));
    found
}

/// The token that the first match of the due pattern captured.
pub fn first_token(groups: &Option<Vec<Option<String>>>) -> (token: Option<String>)
    ensures
        opt_text(token) == first_word(groups_view(*groups)),
{
    match groups {
        Some(list) => {
            if list.len() > 0 {
                match &list[0] {
                    Some(word) => Some(word.clone()),
                    None => None,
                }
            } else {
                None
            }
        },
        None => None,
    }
}

/// One replacement step: the first `limit` matches of `pattern` in `text`
/// (all where `limit` is 0) give way to `replacement`.
pub fn replace_step(pattern: &str, text: String, limit: usize, replacement: &str) -> (out: String)
    ensures
        out@ == replaced_or_same(pattern@, text@, limit as nat, replacement@),
{
    match regex_replace(pattern, text.as_str(), limit, replacement) {
        Some(out) => out,
        None => text,
    }
}

/// Reads raw task text at the wall-clock reading `now`.
///
/// Tags and contexts are the lower-cased words behind `#` and `@`, each
/// once. The first `due:` token is cut out of the description and read by
/// [`parse_due_date`]; the markers are dropped from the description, their
/// words stay; the ends are trimmed. Text without annotations comes back
/// trimmed, with no labels and no due date.
pub fn parse_description(input: &str, now: &Timestamp) -> (found: Annotations)
    ensures
        found@ == parse(input@, *now),
{
    let tag_groups = regex_capture_groups(TAG_PATTERN, input, 1);
    let tags = labels_of(&tag_groups);
    let context_groups = regex_capture_groups(CONTEXT_PATTERN, input, 1);
    let contexts = labels_of(&context_groups);
    let due_groups = regex_capture_groups(DUE_PATTERN, input, 1);
    let mut description = String::from_str(input);
    let mut due_date: Option<Timestamp> = None;
    match first_token(&due_groups) {
        Some(token) => {
            due_date = parse_due_date(token.as_str(), now);
            proof {
                reveal_strlit("");
                assert(""@ =~= Seq::<char>::empty());
            }
            description = replace_step(DUE_PATTERN, description, 1, "");
        },
        None => {},
    }
    description = replace_step(TAG_PATTERN, description, 0, KEEP_WORD);
    description = replace_step(CONTEXT_PATTERN, description, 0, KEEP_WORD);
    let description = trim(description.as_str());
    Annotations { description, tags, contexts, due_date }
}

} // verus!
