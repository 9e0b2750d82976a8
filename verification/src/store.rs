//! The store of pending reminder dates: one `DD.MM.YYYY` date per line.
//! Each day the store is compacted: a line that names today fires a
//! reminder and leaves, a line that names a later day stays as it is, and
//! every other line leaves without effect.

use vstd::prelude::*;
use crate::dates::{CalendarDate, is_calendar_date};

verus! {

pub open spec fn is_digit(c: char) -> bool {
    48 <= c as u32 <= 57
}

/// The value of a decimal digit; 0 for any other character.
pub open spec fn digit_value(c: char) -> nat {
    if is_digit(c) {
        (c as u32 - 48) as nat
    } else {
        0
    }
}

pub open spec fn all_digits(s: Seq<char>) -> bool {
    forall|i: int| 0 <= i < s.len() ==> is_digit(#[trigger] s[i])
}

/// The number that a string of decimal digits denotes.
pub open spec fn decimal_value(s: Seq<char>) -> nat
    decreases s.len(),
{
    if s.len() == 0 {
        0
    } else {
        decimal_value(s.drop_last()) * 10 + digit_value(s.last())
    }
}

/// The digits of a date component: the text itself, less one leading `+`.
pub open spec fn component_digits(s: Seq<char>) -> Seq<char> {
    if s.len() > 0 && s[0] == '+' {
        s.skip(1)
    } else {
        s
    }
}

/// The number that a date component denotes: one or more decimal digits,
/// with an optional leading `+`, whose value fits in 32 bits.
pub open spec fn parse_component(s: Seq<char>) -> Option<u32> {
    let digits = component_digits(s);
    if digits.len() > 0 && all_digits(digits) && decimal_value(digits) <= u32::MAX {
        Some(decimal_value(digits) as u32)
    } else {
        None
    }
}

/// Index of the first `.` of `s`, or the length of `s` where it has none.
pub open spec fn first_dot(s: Seq<char>) -> int
    decreases s.len(),
{
    if s.len() == 0 || s[0] == '.' {
        0
    } else {
        1 + first_dot(s.skip(1))
    }
}

/// The three numbers (day, month, year) of a line made of exactly three
/// components with a `.` between them.
pub open spec fn parse_date_text(s: Seq<char>) -> Option<(u32, u32, u32)> {
    let a = first_dot(s);
    let after_day = s.skip(a + 1);
    let b = first_dot(after_day);
    let after_month = after_day.skip(b + 1);
    if a < s.len() && b < after_day.len() && first_dot(after_month) == after_month.len() {
        match (
            parse_component(s.take(a)),
            parse_component(after_day.take(b)),
            parse_component(after_month),
        ) {
            (Some(day), Some(month), Some(year)) => Some((day, month, year)),
            _ => None,
        }
    } else {
        None
    }
}

/// The day that a line names, where it names one that exists.
pub open spec fn line_date(s: Seq<char>) -> Option<CalendarDate> {
    match parse_date_text(s) {
        Some((day, month, year)) => if year <= i32::MAX && is_calendar_date(
            year as int,
            month as int,
            day as int,
        ) {
            Some(CalendarDate { year: year as i32, month, day })
        } else {
            None
        },
        None => None,
    }
}

/// What becomes of a line of the store on a given day.
#[derive(Clone, Copy, Debug, PartialEq, Eq, Structural)]
pub enum LineOutcome {
    /// The line names no day: it leaves the store.
    Malformed,
    /// The line names a day before today: it leaves the store.
    Expired,
    /// The line names today: a reminder fires and the line leaves the store.
    Due,
    /// The line names a later day: it stays in the store.
    Pending,
}

pub open spec fn line_outcome(s: Seq<char>, today: CalendarDate) -> LineOutcome {
    match line_date(s) {
        None => LineOutcome::Malformed,
        Some(date) => if date == today {
            LineOutcome::Due
        } else if today.is_before(date) {
            LineOutcome::Pending
        } else {
            LineOutcome::Expired
        },
    }
}

/// The lines of `lines` with the given outcome, in their order.
pub open spec fn lines_with_outcome(
    lines: Seq<Seq<char>>,
    today: CalendarDate,
    outcome: LineOutcome,
) -> Seq<Seq<char>>
    decreases lines.len(),
{
    if lines.len() == 0 {
        Seq::empty()
    } else {
        let earlier = lines_with_outcome(lines.drop_last(), today, outcome);
        if line_outcome(lines.last(), today) == outcome {
            earlier.push(lines.last())
        } else {
            earlier
        }
    }
}

/// The text of each line.
pub open spec fn texts(lines: Seq<String>) -> Seq<Seq<char>> {
    lines.map_values(|line: String| line@)
}

proof fn lemma_first_dot(s: Seq<char>, n: int)
    requires
        0 <= n <= s.len(),
        forall|k: int| 0 <= k < n ==> s[k] != '.',
        n == s.len() || s[n] == '.',
    ensures
        first_dot(s) == n,
    decreases n,
{
    if n > 0 {
        let rest = s.skip(1);
        assert forall|k: int| 0 <= k < n - 1 implies rest[k] != '.' by {
            assert(rest[k] == s[k + 1]);
        }
        lemma_first_dot(rest, n - 1);
    }
}

proof fn lemma_prefix_value(s: Seq<char>, k: int)
    requires
        0 <= k <= s.len(),
    ensures
        decimal_value(s.take(k)) <= decimal_value(s),
    decreases s.len() - k,
{
    if k < s.len() {
        lemma_prefix_value(s, k + 1);
        assert(s.take(k + 1).drop_last() =~= s.take(k));
    } else {
        assert(s.take(k) =~= s);
    }
}

/// Index of the first `.` of `line` at or after `from`, or `len`.
fn find_dot(line: &str, from: usize, len: usize) -> (at: usize)
    requires
        len == line@.len(),
        from <= len,
    ensures
        from <= at <= len,
        at - from == first_dot(line@.skip(from as int)),
{
    let mut at: usize = from;
    while at < len && line.get_char(at) != '.'
        invariant
            len == line@.len(),
            from <= at <= len,
            forall|k: int| from <= k < at ==> line@[k] != '.',
        decreases len - at,
    {
        at = at + 1;
    }
    proof {
        let rest = line@.skip(from as int);
        assert forall|k: int| 0 <= k < at - from implies rest[k] != '.' by {
            assert(rest[k] == line@[from + k]);
        }
        lemma_first_dot(rest, at - from);
    }
    at
}

/// Reads the component that stands in `line` from `from` up to `to`.
fn read_component(line: &str, from: usize, to: usize) -> (value: Option<u32>)
    requires
        from <= to <= line@.len(),
    ensures
        value == parse_component(line@.subrange(from as int, to as int)),
{
    let ghost text = line@.subrange(from as int, to as int);
    let start: usize = if from < to && line.get_char(from) == '+' {
        from + 1
    } else {
        from
    };
    let ghost digits = component_digits(text);
    assert(digits =~= line@.subrange(start as int, to as int));
    if start == to {
        return None;
    }
    let mut value: u64 = 0;
    let mut at: usize = start;
    while at < to
        invariant
            start <= at <= to <= line@.len(),
            digits == line@.subrange(start as int, to as int),
            digits == component_digits(line@.subrange(from as int, to as int)),
            all_digits(digits.take(at - start)),
            value == decimal_value(digits.take(at - start)),
            value <= u32::MAX,
        decreases to - at,
    {
        let c = line.get_char(at);
        let code: u32 = c as u32;
        assert(c == digits[at - start]);
        if code < 48 || code > 57 {
            assert(!is_digit(digits[at - start]));
            return None;
        }
        let ghost before = digits.take(at - start);
        let ghost now = digits.take(at - start + 1);
        assert(now.drop_last() =~= before);
        assert(now.last() == c);
        value = value * 10 + ((code - 48) as u64);
        if value > 0xffff_ffff {
            proof {
                assert(value == decimal_value(now));
                lemma_prefix_value(digits, at - start + 1);
            }
            return None;
        }
        at = at + 1;
    }
    assert(digits.take(at - start) =~= digits);
    Some(value as u32)
}

/// Reads the three numbers of a line, where it is made of exactly three
/// components with a `.` between them.
pub fn parse_date_line(line: &str) -> (numbers: Option<(u32, u32, u32)>)
    ensures
        numbers == parse_date_text(line@),
{
    let len = line.unicode_len();
    let first = find_dot(line, 0, len);
    assert(line@.skip(0) =~= line@);
    if first == len {
        return None;
    }
    let ghost after_day = line@.skip(first + 1);
    let second = find_dot(line, first + 1, len);
    if second == len {
        return None;
    }
    let ghost after_month = after_day.skip(second - first);
    assert(after_month =~= line@.skip(second + 1));
    let third = find_dot(line, second + 1, len);
    if third != len {
        return None;
    }
    assert(line@.take(first as int) =~= line@.subrange(0, first as int));
    assert(after_day.take(second - first - 1) =~= line@.subrange(first + 1, second as int));
    assert(after_month =~= line@.subrange(second + 1, len as int));
    let day = read_component(line, 0, first);
    let month = read_component(line, first + 1, second);
    let year = read_component(line, second + 1, len);
    match (day, month, year) {
        (Some(d), Some(m), Some(y)) => Some((d, m, y)),
        _ => None,
    }
}

/// The day that a line names, where it names one that exists.
pub fn read_date(line: &str) -> (date: Option<CalendarDate>)
    ensures
        date == line_date(line@),
{
    match parse_date_line(line) {
        Some((day, month, year)) => {
            if year > 0x7fff_ffff {
                None
            } else {
                CalendarDate::from_ymd(year as i32, month, day)
            }
        },
        None => None,
    }
}

/// What becomes of `line` on the day `today`.
pub fn classify_line(line: &str, today: &CalendarDate) -> (outcome: LineOutcome)
    ensures
        outcome == line_outcome(line@, *today),
{
    match read_date(line) {
        None => LineOutcome::Malformed,
        Some(date) => {
            if date.year == today.year && date.month == today.month && date.day == today.day {
                LineOutcome::Due
            } else if today.precedes(&date) {
                LineOutcome::Pending
            } else {
                LineOutcome::Expired
            }
        },
    }
}

/// What one compaction of the store yields.
pub struct Compaction {
    /// The lines that stay in the store, unchanged and in their order.
    pub kept: Vec<String>,
    /// How many reminders fire: one for each line that names today.
    pub fired: usize,
    /// The lines that name no day, in their order.
    pub malformed: Vec<String>,
}

/// Compacts the store on the day `today`.
pub fn compact(lines: &Vec<String>, today: &CalendarDate) -> (result: Compaction)
    ensures
        texts(result.kept@) == lines_with_outcome(texts(lines@), *today, LineOutcome::Pending),
        texts(result.malformed@) == lines_with_outcome(
            texts(lines@),
            *today,
            LineOutcome::Malformed,
        ),
        result.fired == lines_with_outcome(texts(lines@), *today, LineOutcome::Due).len(),
        forall|i: int|
            0 <= i < result.kept@.len() ==> line_outcome(#[trigger] result.kept@[i]@, *today)
                == LineOutcome::Pending,
{
    let mut kept: Vec<String> = Vec::new();
    let mut malformed: Vec<String> = Vec::new();
    let mut fired: usize = 0;
    let mut at: usize = 0;
    let ghost all = texts(lines@);
    assert(all.take(0) =~= Seq::<Seq<char>>::empty());
    assert(texts(kept@) =~= Seq::<Seq<char>>::empty());
    assert(texts(malformed@) =~= Seq::<Seq<char>>::empty());
    while at < lines.len()
        invariant
            at <= lines.len(),
            all == texts(lines@),
            texts(kept@) == lines_with_outcome(all.take(at as int), *today, LineOutcome::Pending),
            texts(malformed@) == lines_with_outcome(
                all.take(at as int),
                *today,
                LineOutcome::Malformed,
            ),
            fired == lines_with_outcome(all.take(at as int), *today, LineOutcome::Due).len(),
            fired <= at,
            forall|i: int|
                0 <= i < kept@.len() ==> line_outcome(#[trigger] kept@[i]@, *today)
                    == LineOutcome::Pending,
        decreases lines.len() - at,
    {
        let line = &lines[at];
        let ghost before = all.take(at as int);
        let ghost now = all.take(at + 1);
        assert(now.drop_last() =~= before);
        assert(now.last() == line@);
        let ghost old_kept = kept@;
        let ghost old_malformed = malformed@;
        match classify_line(line.as_str(), today) {
            LineOutcome::Pending => {
                kept.push(line.clone());
                assert(texts(kept@) =~= texts(old_kept).push(line@));
            },
            LineOutcome::Malformed => {
                malformed.push(line.clone());
                assert(texts(malformed@) =~= texts(old_malformed).push(line@));
            },
            LineOutcome::Due => {
                fired = fired + 1;
            },
            LineOutcome::Expired => {},
        }
        at = at + 1;
    }
    assert(all.take(at as int) =~= all);
    Compaction { kept, fired, malformed }
}

/// A line of the given outcome is among the lines of that outcome only.
pub proof fn lemma_outcome_of_selected(
    lines: Seq<Seq<char>>,
    today: CalendarDate,
    outcome: LineOutcome,
    i: int,
)
    requires
        0 <= i < lines_with_outcome(lines, today, outcome).len(),
    ensures
        line_outcome(lines_with_outcome(lines, today, outcome)[i], today) == outcome,
    decreases lines.len(),
{
    if lines.len() > 0 {
        let earlier = lines_with_outcome(lines.drop_last(), today, outcome);
        if i < earlier.len() {
            lemma_outcome_of_selected(lines.drop_last(), today, outcome, i);
        }
    }
}

/// Selecting the lines of one outcome from a store that holds only lines of
/// that outcome keeps the store as it is.
proof fn lemma_select_all(lines: Seq<Seq<char>>, today: CalendarDate, outcome: LineOutcome)
    requires
        forall|i: int| 0 <= i < lines.len() ==> line_outcome(#[trigger] lines[i], today) == outcome,
    ensures
        lines_with_outcome(lines, today, outcome) == lines,
    decreases lines.len(),
{
    if lines.len() > 0 {
        lemma_select_all(lines.drop_last(), today, outcome);
        assert(lines.drop_last().push(lines.last()) =~= lines);
    }
}

/// Selecting the lines of one outcome from a store that holds none of that
/// outcome yields nothing.
proof fn lemma_select_none(lines: Seq<Seq<char>>, today: CalendarDate, outcome: LineOutcome)
    requires
        forall|i: int| 0 <= i < lines.len() ==> line_outcome(#[trigger] lines[i], today) != outcome,
    ensures
        lines_with_outcome(lines, today, outcome).len() == 0,
    decreases lines.len(),
{
    if lines.len() > 0 {
        lemma_select_none(lines.drop_last(), today, outcome);
    }
}

/// Compacting twice on one day changes nothing the second time: the store
/// that the first compaction left is kept whole, no reminder fires and no
/// line is found malformed.
pub proof fn lemma_compaction_idempotent(lines: Seq<Seq<char>>, today: CalendarDate)
    ensures
        lines_with_outcome(
            lines_with_outcome(lines, today, LineOutcome::Pending),
            today,
            LineOutcome::Pending,
        ) == lines_with_outcome(lines, today, LineOutcome::Pending),
        lines_with_outcome(
            lines_with_outcome(lines, today, LineOutcome::Pending),
            today,
            LineOutcome::Due,
        ).len() == 0,
        lines_with_outcome(
            lines_with_outcome(lines, today, LineOutcome::Pending),
            today,
            LineOutcome::Malformed,
        ).len() == 0,
{
    let kept = lines_with_outcome(lines, today, LineOutcome::Pending);
    assert forall|i: int| 0 <= i < kept.len() implies line_outcome(#[trigger] kept[i], today)
        == LineOutcome::Pending by {
        lemma_outcome_of_selected(lines, today, LineOutcome::Pending, i);
    }
    lemma_select_all(kept, today, LineOutcome::Pending);
    lemma_select_none(kept, today, LineOutcome::Due);
    lemma_select_none(kept, today, LineOutcome::Malformed);
}

/// Every line that a compaction keeps names a day strictly after today.
pub proof fn lemma_kept_lines_are_future(lines: Seq<Seq<char>>, today: CalendarDate, i: int)
    requires
        0 <= i < lines_with_outcome(lines, today, LineOutcome::Pending).len(),
    ensures
        line_date(lines_with_outcome(lines, today, LineOutcome::Pending)[i]).is_some(),
        today.is_before(
            line_date(lines_with_outcome(lines, today, LineOutcome::Pending)[i]).unwrap(),
        ),
{
    lemma_outcome_of_selected(lines, today, LineOutcome::Pending, i);
}

/// Every line of the store has exactly one outcome: the lines that stay,
/// those that fire, those that expired and those that name no day add up
/// to the store.
pub proof fn lemma_outcomes_partition(lines: Seq<Seq<char>>, today: CalendarDate)
    ensures
        lines_with_outcome(lines, today, LineOutcome::Pending).len() + lines_with_outcome(
            lines,
            today,
            LineOutcome::Due,
        ).len() + lines_with_outcome(lines, today, LineOutcome::Expired).len()
            + lines_with_outcome(lines, today, LineOutcome::Malformed).len() == lines.len(),
    decreases lines.len(),
{
    if lines.len() > 0 {
        lemma_outcomes_partition(lines.drop_last(), today);
    }
}

/// An empty store compacts to an empty store, and nothing fires.
pub proof fn lemma_empty_store(today: CalendarDate, outcome: LineOutcome)
    ensures
        lines_with_outcome(Seq::empty(), today, outcome) == Seq::<Seq<char>>::empty(),
{
}

} // verus!
