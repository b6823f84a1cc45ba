//! Text helpers: views of string collections, and trusted wrappers round the
//! string functions of `std` and the `regex` crate that the task model calls.

use vstd::prelude::*;
use vstd::string::StringExecFns;

verus! {

/// `text` with every character in lower case, as `str::to_lowercase` maps it.
pub uninterp spec fn lowercase_of(text: Seq<char>) -> Seq<char>;

/// `text` without its leading and trailing white space, as `str::trim` cuts it.
pub uninterp spec fn trimmed(text: Seq<char>) -> Seq<char>;

/// For each successive match of the regular expression `pattern` in `text`,
/// what capture group `group` matched, or `None` where the group took no
/// part; `None` as a whole where `pattern` is no regular expression.
pub uninterp spec fn regex_groups(pattern: Seq<char>, text: Seq<char>, group: nat) -> Option<
    Seq<Option<Seq<char>>>,
>;

/// `text` with the first `limit` matches of `pattern` (all of them where
/// `limit` is 0) replaced by the expansion of `replacement`; `None` where
/// `pattern` is no regular expression.
pub uninterp spec fn regex_replaced(
    pattern: Seq<char>,
    text: Seq<char>,
    limit: nat,
    replacement: Seq<char>,
) -> Option<Seq<char>>;

/// The characters of each string of a sequence.
pub open spec fn texts(strings: Seq<String>) -> Seq<Seq<char>> {
    Seq::new(strings.len(), |i: int| strings[i]@)
}

/// The characters of an optional string.
pub open spec fn opt_text(string: Option<String>) -> Option<Seq<char>> {
    match string {
        Some(s) => Some(s@),
        None => None,
    }
}

/// The characters of each optional string of a sequence.
pub open spec fn opt_texts(strings: Seq<Option<String>>) -> Seq<Option<Seq<char>>> {
    Seq::new(strings.len(), |i: int| opt_text(strings[i]))
}

/// The view of what [`regex_capture_groups`] returns.
pub open spec fn groups_view(groups: Option<Vec<Option<String>>>) -> Option<
    Seq<Option<Seq<char>>>,
> {
    match groups {
        Some(v) => Some(opt_texts(v@)),
        None => None,
    }
}

/// `needle` occurs in `hay` as a run of consecutive characters.
pub open spec fn is_infix(needle: Seq<char>, hay: Seq<char>) -> bool {
    exists|start: int|
        0 <= start && start + needle.len() <= hay.len() && #[trigger] hay.subrange(
            start,
            start + needle.len(),
        ) == needle
}

/// The character of a decimal digit.
pub open spec fn digit_char(digit: nat) -> char {
    if digit == 0 {
        '0'
    } else if digit == 1 {
        '1'
    } else if digit == 2 {
        '2'
    } else if digit == 3 {
        '3'
    } else if digit == 4 {
        '4'
    } else if digit == 5 {
        '5'
    } else if digit == 6 {
        '6'
    } else if digit == 7 {
        '7'
    } else if digit == 8 {
        '8'
    } else {
        '9'
    }
}

/// A number written in decimal, without sign or leading zeros.
pub open spec fn decimal(n: nat) -> Seq<char>
    decreases n,
{
    if n < 10 {
        seq![digit_char(n)]
    } else {
        decimal(n / 10).push(digit_char(n % 10))
    }
}

/// Trusted: `str::to_lowercase`. The contract only names the result.
#[verifier::external_body]
pub(crate) fn to_lowercase(text: &str) -> (lower: String)
    ensures
        lower@ == lowercase_of(text@),
{
    text.to_lowercase()
}

/// Trusted: `str::trim`, the slice copied into a `String`. The contract only
/// names the result.
#[verifier::external_body]
pub(crate) fn trim(text: &str) -> (cut: String)
    ensures
        cut@ == trimmed(text@),
{
    text.trim().to_string()
}

/// Trusted: `str::contains` with a string pattern, which is documented to
/// tell whether the pattern matches a sub-slice of the string.
#[verifier::external_body]
pub(crate) fn contains(hay: &str, needle: &str) -> (found: bool)
    ensures
        found == is_infix(needle@, hay@),
{
    hay.contains(needle)
}

/// A whole number written in decimal, with a minus sign where it is
/// negative.
pub open spec fn signed_decimal(n: int) -> Seq<char> {
    if n < 0 {
        seq!['-'] + decimal((-n) as nat)
    } else {
        decimal(n as nat)
    }
}

/// Trusted: `i128::to_string`, which writes the number in decimal, with a
/// minus sign where it is negative.
#[verifier::external_body]
pub(crate) fn signed_decimal_string(n: i128) -> (digits: String)
    ensures
        digits@ == signed_decimal(n as int),
{
    n.to_string()
}

/// Trusted: `regex::Regex::new` on `pattern`, then `Regex::captures_iter` on
/// `text`, each match handed out as the text of `Captures::get(group)`.
/// `None` where the pattern does not compile. The contract only names the
/// result.
#[verifier::external_body]
pub(crate) fn regex_capture_groups(pattern: &str, text: &str, group: usize) -> (groups: Option<
    Vec<Option<String>>,
>)
    ensures
        groups_view(groups) == regex_groups(pattern@, text@, group as nat),
{
    match regex::Regex::new(pattern) {
        Ok(re) => Some(
            re.captures_iter(text).map(|c| c.get(group).map(|m| m.as_str().to_string())).collect(),
        ),
        Err(_) => None,
    }
}

/// Trusted: `regex::Regex::new` on `pattern`, then `Regex::replacen` on
/// `text` with the given limit and replacement string. `None` where the
/// pattern does not compile. The contract only names the result.
#[verifier::external_body]
pub(crate) fn regex_replace(pattern: &str, text: &str, limit: usize, replacement: &str) -> (out:
    Option<String>)
    ensures
        opt_text(out) == regex_replaced(pattern@, text@, limit as nat, replacement@),
{
    match regex::Regex::new(pattern) {
        Ok(re) => Some(re.replacen(text, limit, replacement).into_owned()),
        Err(_) => None,
    }
}

/// A count written in decimal.
pub fn decimal_string(n: u64) -> (digits: String)
    ensures
        digits@ == decimal(n as nat),
{
    signed_decimal_string(n as i128)
}

/// Whether `text` spells exactly `word`.
pub fn same_text(text: &String, word: &str) -> (same: bool)
    ensures
        same == (text@ == word@),
{
    let other = String::from_str(word);
    *text == other
}

/// Whether `word` is among `words`.
pub fn contains_text(words: &Vec<String>, word: &String) -> (found: bool)
    ensures
        found == texts(words@).contains(word@),
{
    let mut i: usize = 0;
    while i < words.len()
        invariant
            i <= words.len(),
            forall|j: int| 0 <= j < i ==> texts(words@)[j] != word@,
        decreases words.len() - i,
    {
        if words[i] == *word {
            assert(texts(words@)[i as int] == word@);
            return true;
        }
        i += 1;
    }
    false
}

/// A copy of a list of strings.
pub fn copy_texts(words: &Vec<String>) -> (copy: Vec<String>)
    ensures
        texts(copy@) == texts(words@),
{
    let mut copy: Vec<String> = Vec::new();
    let mut i: usize = 0;
    while i < words.len()
        invariant
            i <= words.len(),
            copy@.len() == i,
            forall|j: int| 0 <= j < i ==> copy@[j]@ == words@[j]@,
        decreases words.len() - i,
    {
        copy.push(words[i].clone());
        i += 1;
    }
    assert(texts(copy@) =~= texts(words@));
    copy
}

/// A copy of an optional string.
pub fn copy_opt_text(text: &Option<String>) -> (copy: Option<String>)
    ensures
        opt_text(copy) == opt_text(*text),
{
    match text {
        Some(s) => Some(s.clone()),
        None => None,
    }
}

} // verus!
