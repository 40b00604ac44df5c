//! Reading a date out of a file name.

use vstd::prelude::*;
use crate::datetime::{is_calendar_date, is_clock_time, valid_date, DateTime};
use crate::pattern::{all_captures, groups_view, matches_view, regex_all_captures};
use crate::text::{from_chars, parse_number, parsed_number, to_chars};

verus! {

/// Why a transformer could not read a date from a match.
#[derive(Debug, Copy, Clone, PartialEq, Eq, Structural)]
pub enum TransformError {
    /// The transformer's pattern is not a regular expression.
    InvalidPattern,
    /// A capture group that holds a number took no part in the match.
    MissingGroup,
    /// A capture group does not hold a number.
    InvalidNumber,
    /// Hour, minute and second name no time of day.
    InvalidTime,
    /// Year, month and day name no day of the calendar.
    InvalidDate,
}

/// Whether `pattern` stands in `s` at index `at`.
pub open spec fn occurs_at(s: Seq<char>, pattern: Seq<char>, at: int) -> bool {
    0 <= at && at + pattern.len() <= s.len() && s.subrange(at, at + pattern.len()) == pattern
}

/// The part of `s` from `from` on, without the occurrences of `pattern`:
/// read left to right, an occurrence is skipped where it starts. An empty
/// pattern removes nothing.
pub open spec fn removed_from(s: Seq<char>, pattern: Seq<char>, from: int) -> Seq<char>
    decreases s.len() - from,
{
    if from < 0 || from >= s.len() {
        Seq::empty()
    } else if pattern.len() > 0 && occurs_at(s, pattern, from) {
        removed_from(s, pattern, from + pattern.len())
    } else {
        seq![s[from]] + removed_from(s, pattern, from + 1)
    }
}

/// A text without the occurrences of a pattern.
pub open spec fn without_all(s: Seq<char>, pattern: Seq<char>) -> Seq<char> {
    removed_from(s, pattern, 0)
}

fn stands_at(s: &[char], pattern: &[char], at: usize) -> (found: bool)
    requires
        at <= s.len(),
    ensures
        found == occurs_at(s@, pattern@, at as int),
{
    if pattern.len() > s.len() - at {
        return false;
    }
    let mut i: usize = 0;
    while i < pattern.len()
        invariant
            i <= pattern.len(),
            at + pattern.len() <= s.len(),
            s@.subrange(at as int, at + i) == pattern@.subrange(0, i as int),
        decreases pattern.len() - i,
    {
        if s[at + i] != pattern[i] {
            return false;
        }
        i += 1;
    }
    assert(pattern@.subrange(0, i as int) == pattern@);
    true
}

/// Removes every occurrence of a pattern from a text.
pub fn remove_all(text: &str, pattern: &str) -> (cleaned: String)
    ensures
        cleaned@ == without_all(text@, pattern@),
{
    let s = to_chars(text);
    let p = to_chars(pattern);
    let mut out: Vec<char> = Vec::new();
    let mut i: usize = 0;
    while i < s.len()
        invariant
            i <= s.len(),
            s@ == text@,
            p@ == pattern@,
            out@ + removed_from(s@, p@, i as int) == removed_from(s@, p@, 0),
        decreases s.len() - i,
    {
        if p.len() > 0 && stands_at(s.as_slice(), p.as_slice(), i) {
            i += p.len();
        } else {
            out.push(s[i]);
            i += 1;
        }
    }
    from_chars(out.as_slice())
}

/// The capture group with the given number, `None` where the match has no
/// such group or the group took no part.
pub open spec fn group(groups: Seq<Option<Seq<char>>>, i: int) -> Option<Seq<char>> {
    if 0 <= i < groups.len() {
        groups[i]
    } else {
        None
    }
}

/// The number that a capture group holds.
pub open spec fn number_group(groups: Seq<Option<Seq<char>>>, i: int) -> Result<
    u32,
    TransformError,
> {
    match group(groups, i) {
        None => Err(TransformError::MissingGroup),
        Some(text) => match parsed_number(text) {
            None => Err(TransformError::InvalidNumber),
            Some(n) => Ok(n),
        },
    }
}

/// The time of day that groups 5, 6 and 7 hold; midnight where one of them
/// took no part in the match.
pub open spec fn naive_time(groups: Seq<Option<Seq<char>>>) -> Result<
    (u32, u32, u32),
    TransformError,
> {
    if group(groups, 5) is Some && group(groups, 6) is Some && group(groups, 7) is Some {
        match number_group(groups, 5) {
            Err(e) => Err(e),
            Ok(hour) => match number_group(groups, 6) {
                Err(e) => Err(e),
                Ok(minute) => match number_group(groups, 7) {
                    Err(e) => Err(e),
                    Ok(second) => if is_clock_time(hour as int, minute as int, second as int) {
                        Ok((hour, minute, second))
                    } else {
                        Err(TransformError::InvalidTime)
                    },
                },
            },
        }
    } else {
        Ok((0, 0, 0))
    }
}

/// The date that the groups of one match of the naive pattern hold: year,
/// month and day in groups 1 to 3, the time in groups 5 to 7.
pub open spec fn naive_date(groups: Seq<Option<Seq<char>>>) -> Result<DateTime, TransformError> {
    match number_group(groups, 1) {
        Err(e) => Err(e),
        Ok(year) => if year > i32::MAX {
            Err(TransformError::InvalidNumber)
        } else {
            match number_group(groups, 2) {
                Err(e) => Err(e),
                Ok(month) => match number_group(groups, 3) {
                    Err(e) => Err(e),
                    Ok(day) => match naive_time(groups) {
                        Err(e) => Err(e),
                        Ok(time) => if is_calendar_date(year as int, month as int, day as int) {
                            Ok(
                                DateTime {
                                    year: year as i32,
                                    month,
                                    day,
                                    hour: time.0,
                                    minute: time.1,
                                    second: time.2,
                                },
                            )
                        } else {
                            Err(TransformError::InvalidDate)
                        },
                    },
                },
            }
        },
    }
}

fn read_number(groups: &Vec<Option<String>>, i: usize) -> (n: Result<u32, TransformError>)
    ensures
        n == number_group(groups_view(groups@), i as int),
{
    if i >= groups.len() {
        return Err(TransformError::MissingGroup);
    }
    match &groups[i] {
        None => Err(TransformError::MissingGroup),
        Some(text) => {
            let chars = to_chars(text.as_str());
            match parse_number(chars.as_slice()) {
                None => Err(TransformError::InvalidNumber),
                Some(n) => Ok(n),
            }
        },
    }
}

fn has_group(groups: &Vec<Option<String>>, i: usize) -> (present: bool)
    ensures
        present == (group(groups_view(groups@), i as int) is Some),
{
    if i >= groups.len() {
        return false;
    }
    groups[i].is_some()
}

fn read_time(groups: &Vec<Option<String>>) -> (time: Result<(u32, u32, u32), TransformError>)
    ensures
        time == naive_time(groups_view(groups@)),
{
    if has_group(groups, 5) && has_group(groups, 6) && has_group(groups, 7) {
        let hour = read_number(groups, 5)?;
        let minute = read_number(groups, 6)?;
        let second = read_number(groups, 7)?;
        if hour < 24 && minute < 60 && second < 60 {
            Ok((hour, minute, second))
        } else {
            Err(TransformError::InvalidTime)
        }
    } else {
        Ok((0, 0, 0))
    }
}

/// What reading the capture groups of one match gives.
pub type Reading = spec_fn(Seq<Option<Seq<char>>>) -> Result<Option<DateTime>, TransformError>;

/// The first of the matches, from `from` on, that gives a date: its index
/// and the date.
pub open spec fn first_dated(read: Reading, found: Seq<Seq<Option<Seq<char>>>>, from: int)
    -> Option<(int, DateTime)>
    decreases found.len() - from,
{
    if from < 0 || from >= found.len() {
        None
    } else {
        match read(found[from]) {
            Ok(Some(date)) => Some((from, date)),
            _ => first_dated(read, found, from + 1),
        }
    }
}

/// What a reading makes of the matches that a pattern found in a file
/// name: the date of the first match that gives one, and the name without
/// every occurrence of the text of that match. `None` where no match gives
/// a date.
pub open spec fn matches_date(
    read: Reading,
    name: Seq<char>,
    found: Seq<Seq<Option<Seq<char>>>>,
) -> Option<(DateTime, Seq<char>)> {
    match first_dated(read, found, 0) {
        None => None,
        Some((at, date)) => Some(
            (
                date,
                without_all(
                    name,
                    match group(found[at], 0) {
                        Some(matched) => matched,
                        None => Seq::empty(),
                    },
                ),
            ),
        ),
    }
}

/// What a pattern and a reading of its matches make of a file name; an
/// error where the pattern does not compile.
pub open spec fn name_date_by(pattern: Seq<char>, read: Reading, name: Seq<char>) -> Result<
    Option<(DateTime, Seq<char>)>,
    TransformError,
> {
    match regex_all_captures(pattern, name) {
        None => Err(TransformError::InvalidPattern),
        Some(found) => Ok(matches_date(read, name, found)),
    }
}

/// The value of a reading: the date and the text of the remaining name.
pub open spec fn reading(r: Result<Option<(DateTime, String)>, TransformError>) -> Result<
    Option<(DateTime, Seq<char>)>,
    TransformError,
> {
    match r {
        Ok(Some((date, rest))) => Ok(Some((date, rest@))),
        Ok(None) => Ok(None),
        Err(e) => Err(e),
    }
}

/// A way to read a date out of a file name: a pattern that finds the places
/// where a date may stand, and a reading of one such place.
pub trait FileNameToDateTransformer {
    /// The regular expression that finds the candidates.
    spec fn pattern(&self) -> Seq<char>;

    /// What the capture groups of one match give: a date, nothing, or an
    /// error.
    spec fn transformed(&self, groups: Seq<Option<Seq<char>>>) -> Result<
        Option<DateTime>,
        TransformError,
    >;

    /// The regular expression to match against the file name.
    fn get_regex(&self) -> (pattern: String)
        ensures
            pattern@ == self.pattern(),
    ;

    /// Reads the capture groups of one match.
    fn transform(&self, capture: &Vec<Option<String>>) -> (date: Result<
        Option<DateTime>,
        TransformError,
    >)
        ensures
            date == self.transformed(groups_view(capture@)),
    ;

    /// Goes through the matches that the pattern found in a file name, in
    /// order, up to the first that gives a date. A match that gives an
    /// error or nothing is passed over.
    fn transform_matches(&self, name: &str, found: &Vec<Vec<Option<String>>>) -> (r: Option<
        (DateTime, String),
    >)
        ensures
            match r {
                Some((date, rest)) => matches_date(
                    |groups: Seq<Option<Seq<char>>>| self.transformed(groups),
                    name@,
                    matches_view(found@),
                ) == Some((date, rest@)),
                None => matches_date(
                    |groups: Seq<Option<Seq<char>>>| self.transformed(groups),
                    name@,
                    matches_view(found@),
                ) is None,
            },
    {
        let ghost read: Reading = |groups: Seq<Option<Seq<char>>>| self.transformed(groups);
        let ghost all = matches_view(found@);
        let mut i: usize = 0;
        while i < found.len()
            invariant
                i <= found.len(),
                all == matches_view(found@),
                read == (|groups: Seq<Option<Seq<char>>>| self.transformed(groups)),
                first_dated(read, all, 0) == first_dated(read, all, i as int),
            decreases found.len() - i,
        {
            match self.transform(&found[i]) {
                Ok(Some(date)) => {
                    let groups = &found[i];
                    let cleaned = if groups.len() > 0 {
                        match &groups[0] {
                            Some(matched) => remove_all(name, matched.as_str()),
                            None => remove_all(name, ""),
                        }
                    } else {
                        remove_all(name, "")
                    };
                    proof {
                        reveal_strlit("");
                        assert(""@ == Seq::<char>::empty());
                    }
                    return Some((date, cleaned));
                },
                _ => {},
            }
            i += 1;
        }
        None
    }

    /// Tries to read a date from a file name: finds the matches of the
    /// pattern and goes through them.
    fn try_transform_name(&self, name: &str) -> (r: Result<
        Option<(DateTime, String)>,
        TransformError,
    >)
        ensures
            reading(r) == name_date_by(
                self.pattern(),
                |groups: Seq<Option<Seq<char>>>| self.transformed(groups),
                name@,
            ),
    {
        let pattern = self.get_regex();
        match all_captures(pattern.as_str(), name) {
            None => Err(TransformError::InvalidPattern),
            Some(found) => Ok(self.transform_matches(name, &found)),
        }
    }
}

/// What a transformer makes of a file name.
pub open spec fn name_date<T: FileNameToDateTransformer>(transformer: &T, name: Seq<char>)
    -> Result<Option<(DateTime, Seq<char>)>, TransformError> {
    name_date_by(
        transformer.pattern(),
        |groups: Seq<Option<Seq<char>>>| transformer.transformed(groups),
        name,
    )
}

/// Reads dates of the form year, month, day, optionally followed by hour,
/// minute and second, with or without `-`, `_` and `:` between the numbers.
#[derive(Debug, Default, Clone, Copy)]
pub struct NaiveFileNameParser {}

impl FileNameToDateTransformer for NaiveFileNameParser {
    open spec fn pattern(&self) -> Seq<char> {
        "(\\d{4})[-_]?(\\d{2})[-_]?(\\d{2})(\\D+(\\d{2})[-_:]?(\\d{2})[-_:]?(\\d{2}))?[-_]?"@
    }

    open spec fn transformed(&self, groups: Seq<Option<Seq<char>>>) -> Result<
        Option<DateTime>,
        TransformError,
    > {
        match naive_date(groups) {
            Ok(date) => Ok(Some(date)),
            Err(e) => Err(e),
        }
    }

    fn get_regex(&self) -> (pattern: String) {
        "(\\d{4})[-_]?(\\d{2})[-_]?(\\d{2})(\\D+(\\d{2})[-_:]?(\\d{2})[-_:]?(\\d{2}))?[-_]?".to_owned()
    }

    fn transform(&self, capture: &Vec<Option<String>>) -> (date: Result<
        Option<DateTime>,
        TransformError,
    >) {
        let year = read_number(capture, 1)?;
        if year > 0x7fff_ffff {
            return Err(TransformError::InvalidNumber);
        }
        let month = read_number(capture, 2)?;
        let day = read_number(capture, 3)?;
        let (hour, minute, second) = read_time(capture)?;
        if valid_date(year as i32, month, day) {
            Ok(Some(DateTime { year: year as i32, month, day, hour, minute, second }))
        } else {
            Err(TransformError::InvalidDate)
        }
    }
}

} // verus!
