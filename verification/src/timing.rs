//! Time ranges: the `HH:MM:SS-HH:MM:SS` text form, the numbers a time is
//! compared by, and the overlap test between ranges of one day.

use vstd::prelude::*;
use crate::text::{string_of_range, to_chars};

verus! {

/// An ASCII decimal digit.
pub open spec fn is_digit(c: char) -> bool {
    '0' <= c && c <= '9'
}

/// The value of the decimal digit `c`.
pub open spec fn digit_value(c: char) -> int {
    c as int - '0' as int
}

/// The number written by the two digits of `s` at `i` and `i + 1`.
pub open spec fn two_digits(s: Seq<char>, i: int) -> int {
    digit_value(s[i]) * 10 + digit_value(s[i + 1])
}

/// `s` has the shape `DD:DD:DD`: eight characters, digits around two colons.
pub open spec fn time_shape(s: Seq<char>) -> bool {
    &&& s.len() == 8
    &&& is_digit(s[0])
    &&& is_digit(s[1])
    &&& s[2] == ':'
    &&& is_digit(s[3])
    &&& is_digit(s[4])
    &&& s[5] == ':'
    &&& is_digit(s[6])
    &&& is_digit(s[7])
}

/// `s` is a time of day `HH:MM:SS` on the 24 hour clock.
pub open spec fn time_valid(s: Seq<char>) -> bool {
    &&& time_shape(s)
    &&& two_digits(s, 0) < 24
    &&& two_digits(s, 3) < 60
    &&& two_digits(s, 6) < 60
}

/// The number a time is compared by: its six digits read as one decimal
/// number, so that `11:00:00` is 110000.
pub open spec fn time_number(s: Seq<char>) -> int {
    two_digits(s, 0) * 10000 + two_digits(s, 3) * 100 + two_digits(s, 6)
}

/// `s` is a range `HH:MM:SS-HH:MM:SS` of two times of day.
pub open spec fn range_text_valid(s: Seq<char>) -> bool {
    &&& s.len() == 17
    &&& s[8] == '-'
    &&& time_valid(s.subrange(0, 8))
    &&& time_valid(s.subrange(9, 17))
}

/// The text `start-end` of a range.
pub open spec fn range_text(start: Seq<char>, end: Seq<char>) -> Seq<char> {
    start + seq!['-'] + end
}

fn digit_at(v: &Vec<char>, i: usize) -> (d: Option<u32>)
    requires
        i < v.len(),
    ensures
        d is Some <==> is_digit(v@[i as int]),
        d matches Some(n) ==> n == digit_value(v@[i as int]) && n < 10,
{
    let c = v[i];
    if c >= '0' && c <= '9' {
        Some(c as u32 - '0' as u32)
    } else {
        None
    }
}

fn pair_at(v: &Vec<char>, i: usize, limit: u32) -> (p: Option<u32>)
    requires
        i + 1 < v.len(),
    ensures
        p is Some <==> is_digit(v@[i as int]) && is_digit(v@[i + 1]) && two_digits(v@, i as int)
            < limit,
        p matches Some(n) ==> n == two_digits(v@, i as int) && n < 100,
{
    match (digit_at(v, i), digit_at(v, i + 1)) {
        (Some(hi), Some(lo)) => {
            let n: u32 = hi * 10 + lo;
            if n < limit {
                Some(n)
            } else {
                None
            }
        },
        _ => None,
    }
}

/// Reads the time of day that stands in `v` at `from`, as the number it is
/// compared by.
fn time_at(v: &Vec<char>, from: usize) -> (t: Option<u32>)
    requires
        from + 8 <= v.len(),
    ensures
        t is Some <==> time_valid(v@.subrange(from as int, from + 8)),
        t matches Some(n) ==> n == time_number(v@.subrange(from as int, from + 8)) && n < 240000,
{
    let ghost s = v@.subrange(from as int, from + 8);
    assert forall|k: int| 0 <= k < 8 implies s[k] == v@[from + k] by {}
    if v[from + 2] != ':' || v[from + 5] != ':' {
        return None;
    }
    let h = pair_at(v, from, 24);
    let m = pair_at(v, from + 3, 60);
    let sec = pair_at(v, from + 6, 60);
    match (h, m, sec) {
        (Some(h), Some(m), Some(sec)) => Some(h * 10000 + m * 100 + sec),
        _ => None,
    }
}

/// Whether `text` is a range of two times of day, `HH:MM:SS-HH:MM:SS`.
pub fn format_ok(text: &str) -> (ok: bool)
    ensures
        ok == range_text_valid(text@),
{
    let v = to_chars(text);
    if v.len() != 17 {
        return false;
    }
    if v[8] != '-' {
        return false;
    }
    time_at(&v, 0).is_some() && time_at(&v, 9).is_some()
}

/// What a [`Timing`] holds: the characters of its two times.
pub struct TimingView {
    pub start: Seq<char>,
    pub end: Seq<char>,
}

/// The range that a day is seeded with, 09:00:00 to 17:00:00.
pub open spec fn default_timing() -> TimingView {
    TimingView { start: "09:00:00"@, end: "17:00:00"@ }
}

/// The range that the text `HH:MM:SS-HH:MM:SS` writes.
pub open spec fn timing_of_text(text: Seq<char>) -> TimingView {
    TimingView { start: text.subrange(0, 8), end: text.subrange(9, 17) }
}

/// Both ends of the range are times of day.
pub open spec fn timing_valid(t: TimingView) -> bool {
    time_valid(t.start) && time_valid(t.end)
}

/// Two ranges clash when an end of the first falls within the second, or
/// when one of them encloses the other. The ends are compared as numbers;
/// a range whose end lies before its start is compared all the same.
pub open spec fn overlaps(c: TimingView, t: TimingView) -> bool {
    let cs = time_number(c.start);
    let ce = time_number(c.end);
    let ts = time_number(t.start);
    let te = time_number(t.end);
    ||| ts <= cs <= te
    ||| ts <= ce <= te
    ||| (cs <= ts && ce >= te)
    ||| (cs >= ts && ce <= te)
}

/// Every range of the day is made of two times of day.
pub open spec fn day_valid(day: Seq<TimingView>) -> bool {
    forall|i: int| 0 <= i < day.len() ==> timing_valid(#[trigger] day[i])
}

/// No two ranges of the day clash.
pub open spec fn clash_free(day: Seq<TimingView>) -> bool {
    forall|i: int, j: int|
        0 <= i < day.len() && 0 <= j < day.len() && i != j ==> !overlaps(
            #[trigger] day[i],
            #[trigger] day[j],
        )
}

/// A time range of one day, as its start and end times.
#[derive(Debug, PartialEq, Eq)]
pub struct Timing {
    pub start: String,
    pub end: String,
}

impl View for Timing {
    type V = TimingView;

    open spec fn view(&self) -> TimingView {
        TimingView { start: self.start@, end: self.end@ }
    }
}

impl Clone for Timing {
    fn clone(&self) -> (t: Self)
        ensures
            t@ == self@,
    {
        Timing { start: self.start.clone(), end: self.end.clone() }
    }
}

impl Timing {
    /// The range a day is seeded with, 09:00:00 to 17:00:00.
    pub fn default() -> (t: Timing)
        ensures
            t@ == default_timing(),
            timing_valid(t@),
    {
        proof {
            reveal_strlit("09:00:00");
            reveal_strlit("17:00:00");
        }
        Timing { start: "09:00:00".to_owned(), end: "17:00:00".to_owned() }
    }

    /// The range from `start` to `end`, whatever the two texts hold.
    pub fn new(start: &str, end: &str) -> (t: Timing)
        ensures
            t@.start == start@,
            t@.end == end@,
    {
        Timing { start: start.to_owned(), end: end.to_owned() }
    }

    /// The text of the range, `start-end`.
    pub fn format(self) -> (text: String)
        ensures
            text@ == range_text(self@.start, self@.end),
    {
        let mut joined = self.start;
        joined.push('-');
        let ghost mid = joined@;
        let end = self.end;
        let chars = to_chars(end.as_str());
        let mut i: usize = 0;
        while i < chars.len()
            invariant
                i <= chars.len(),
                joined@ == mid + chars@.take(i as int),
            decreases chars.len() - i,
        {
            joined.push(chars[i]);
            i += 1;
        }
        joined
    }

    /// Whether both ends are times of day.
    pub fn is_valid(&self) -> (ok: bool)
        ensures
            ok == timing_valid(self@),
    {
        let s = to_chars(self.start.as_str());
        let e = to_chars(self.end.as_str());
        if s.len() != 8 || e.len() != 8 {
            return false;
        }
        time_at(&s, 0).is_some() && time_at(&e, 0).is_some()
    }

    /// The numbers that the two ends are compared by.
    pub fn numbers(&self) -> (n: (u32, u32))
        requires
            timing_valid(self@),
        ensures
            n.0 == time_number(self@.start),
            n.1 == time_number(self@.end),
    {
        let s = to_chars(self.start.as_str());
        let e = to_chars(self.end.as_str());
        (time_at(&s, 0).unwrap(), time_at(&e, 0).unwrap())
    }

    /// Whether this range clashes with `other`.
    pub fn overlaps(&self, other: &Timing) -> (b: bool)
        requires
            timing_valid(self@),
            timing_valid(other@),
        ensures
            b == overlaps(self@, other@),
    {
        let (cs, ce) = self.numbers();
        let (ts, te) = other.numbers();
        (ts <= cs && cs <= te) || (ts <= ce && ce <= te) || (cs <= ts && ce >= te) || (cs >= ts
            && ce <= te)
    }
}

/// The range that a valid text `HH:MM:SS-HH:MM:SS` writes, or `None` for
/// any other text.
pub fn parse_timing(text: &str) -> (t: Option<Timing>)
    ensures
        t is Some <==> range_text_valid(text@),
        t matches Some(r) ==> r@ == timing_of_text(text@) && timing_valid(r@),
{
    let v = to_chars(text);
    timing_of_chars(&v)
}

/// As [`parse_timing`], on characters.
pub fn timing_of_chars(v: &Vec<char>) -> (t: Option<Timing>)
    ensures
        t is Some <==> range_text_valid(v@),
        t matches Some(r) ==> r@ == timing_of_text(v@) && timing_valid(r@),
{
    if v.len() != 17 {
        return None;
    }
    if v[8] != '-' {
        return None;
    }
    if time_at(v, 0).is_some() && time_at(v, 9).is_some() {
        Some(Timing { start: string_of_range(v, 0, 8), end: string_of_range(v, 9, 17) })
    } else {
        None
    }
}

/// The two numbers that the text of a range is compared by: first that of
/// its start, then that of its end.
pub fn extract_timings_from_input(input: &str) -> (n: (u32, u32))
    requires
        range_text_valid(input@),
    ensures
        n.0 == time_number(input@.subrange(0, 8)),
        n.1 == time_number(input@.subrange(9, 17)),
{
    let v = to_chars(input);
    (time_at(&v, 0).unwrap(), time_at(&v, 9).unwrap())
}

/// One range read as text gives its two ends back.
pub proof fn lemma_range_text_splits(start: Seq<char>, end: Seq<char>)
    requires
        start.len() == 8,
        end.len() == 8,
    ensures
        range_text(start, end).len() == 17,
        range_text(start, end)[8] == '-',
        range_text(start, end).subrange(0, 8) == start,
        range_text(start, end).subrange(9, 17) == end,
{
    let r = range_text(start, end);
}

} // verus!
