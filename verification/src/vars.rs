//! The schedule as text: one line `KEY=ranges` for each day of the week.

use vstd::prelude::*;
use crate::day::TimingCollection;
use crate::schedule::{day_at, empty_week, week_valid, Weekday, WeekSchedule};
use crate::text::{chars_are, copy_range, from_chars, push_str, to_chars};
use crate::timing::{
    day_valid, range_text, range_text_valid, timing_of_chars, timing_of_text, timing_valid,
    Timing, TimingView,
};

verus! {

/// The key under which the ranges of a day are kept.
pub open spec fn day_key(day: Weekday) -> Seq<char> {
    match day {
        Weekday::Monday => "MT_MONDAY"@,
        Weekday::Tuesday => "MT_TUESDAY"@,
        Weekday::Wednesday => "MT_WEDNESDAY"@,
        Weekday::Thursday => "MT_THURSDAY"@,
        Weekday::Friday => "MT_FRIDAY"@,
        Weekday::Saturday => "MT_SATURDAY"@,
        Weekday::Sunday => "MT_SUNDAY"@,
    }
}

/// The day that is kept under `key`, if `key` is the key of a day.
pub open spec fn day_of_key(key: Seq<char>) -> Option<Weekday> {
    if key == day_key(Weekday::Monday) {
        Some(Weekday::Monday)
    } else if key == day_key(Weekday::Tuesday) {
        Some(Weekday::Tuesday)
    } else if key == day_key(Weekday::Wednesday) {
        Some(Weekday::Wednesday)
    } else if key == day_key(Weekday::Thursday) {
        Some(Weekday::Thursday)
    } else if key == day_key(Weekday::Friday) {
        Some(Weekday::Friday)
    } else if key == day_key(Weekday::Saturday) {
        Some(Weekday::Saturday)
    } else if key == day_key(Weekday::Sunday) {
        Some(Weekday::Sunday)
    } else {
        None
    }
}

/// The texts of the ranges of a day, with a comma between each two.
pub open spec fn joined(day: Seq<TimingView>) -> Seq<char>
    decreases day.len(),
{
    if day.len() == 0 {
        Seq::empty()
    } else if day.len() == 1 {
        range_text(day[0].start, day[0].end)
    } else {
        range_text(day[0].start, day[0].end) + seq![','] + joined(day.drop_first())
    }
}

/// The line of a day: its key, `=`, its ranges, and the end of the line.
pub open spec fn day_line(day: Weekday, ranges: Seq<TimingView>) -> Seq<char> {
    day_key(day) + seq!['='] + joined(ranges) + seq!['\n']
}

/// The lines of the days from position `from` of the week on.
pub open spec fn lines_from(week: Seq<Seq<TimingView>>, from: int) -> Seq<char>
    decreases 7 - from,
{
    if from >= 7 || from < 0 {
        Seq::empty()
    } else {
        day_line(day_at(from), week[from]) + lines_from(week, from + 1)
    }
}

/// The text of a schedule: the lines of its seven days, Monday first.
pub open spec fn export_spec(week: Seq<Seq<TimingView>>) -> Seq<char> {
    lines_from(week, 0)
}

/// `i` is where `c` stands first in `s`, or the length of `s` where `c`
/// does not stand in it.
pub open spec fn is_first(s: Seq<char>, c: char, i: int) -> bool {
    &&& 0 <= i <= s.len()
    &&& forall|j: int| 0 <= j < i ==> s[j] != c
    &&& i < s.len() ==> s[i] == c
}

/// Where `c` stands first in `s`; the length of `s` where it does not
/// stand in it.
pub open spec fn index_of(s: Seq<char>, c: char) -> int {
    choose|i: int| is_first(s, c, i)
}

/// A character that is dropped from the ends of a range in a list: the
/// space, and the control characters tab, line feed, vertical tab, form
/// feed and carriage return.
pub open spec fn is_blank(c: char) -> bool {
    c == ' ' || c == '\t' || c == '\n' || c == '\r' || c == '\x0B' || c == '\x0C'
}

/// `s` without the blanks at its start.
pub open spec fn trim_start(s: Seq<char>) -> Seq<char>
    decreases s.len(),
{
    if s.len() > 0 && is_blank(s[0]) {
        trim_start(s.drop_first())
    } else {
        s
    }
}

/// `s` without the blanks at its end.
pub open spec fn trim_end(s: Seq<char>) -> Seq<char>
    decreases s.len(),
{
    if s.len() > 0 && is_blank(s.last()) {
        trim_end(s.drop_last())
    } else {
        s
    }
}

/// `s` without the blanks at its two ends.
pub open spec fn trimmed(s: Seq<char>) -> Seq<char> {
    trim_end(trim_start(s))
}

/// What follows the character at `at` in `s`; nothing where `at` is no
/// position of `s`.
pub open spec fn after(s: Seq<char>, at: int) -> Seq<char> {
    if 0 <= at < s.len() {
        s.skip(at + 1)
    } else {
        Seq::empty()
    }
}

/// The ranges that a list `range,range,...` writes, or `None` where one of
/// its parts, blanks at its ends aside, is no range of two times of day.
pub open spec fn ranges_of_list(value: Seq<char>) -> Option<Seq<TimingView>>
    decreases value.len(),
{
    let n = index_of(value, ',');
    let part = trimmed(value.take(n));
    if !(0 <= n < value.len()) {
        if range_text_valid(part) {
            Some(seq![timing_of_text(part)])
        } else {
            None
        }
    } else {
        match ranges_of_list(after(value, n)) {
            Some(rest) => if range_text_valid(part) {
                Some(seq![timing_of_text(part)] + rest)
            } else {
                None
            },
            None => None,
        }
    }
}

/// The ranges that the value of a day's line gives the day: those of the
/// list, and none where the list cannot be read.
pub open spec fn day_of_value(value: Seq<char>) -> Seq<TimingView> {
    match ranges_of_list(value) {
        Some(ranges) => ranges,
        None => Seq::empty(),
    }
}

/// The week after one line was read. A line `KEY=value` whose key is that
/// of a day gives that day the ranges of the value; any other line is
/// passed over.
pub open spec fn line_applied(week: Seq<Seq<TimingView>>, line: Seq<char>) -> Seq<Seq<TimingView>> {
    let eq = index_of(line, '=');
    if !(0 <= eq < line.len()) {
        week
    } else {
        pair_applied(week, line.take(eq), after(line, eq))
    }
}

/// The week after one pair of key and value was read: where the key is
/// that of a day, that day has the ranges of the value.
pub open spec fn pair_applied(week: Seq<Seq<TimingView>>, key: Seq<char>, value: Seq<char>) -> Seq<
    Seq<TimingView>,
> {
    match day_of_key(key) {
        Some(day) => week.update(day.index(), day_of_value(value)),
        None => week,
    }
}

/// The week after the first `n` of the pairs were read one after the
/// other.
pub open spec fn pairs_applied(
    week: Seq<Seq<TimingView>>,
    pairs: Seq<(String, String)>,
    n: int,
) -> Seq<Seq<TimingView>>
    decreases n,
{
    if n <= 0 {
        week
    } else {
        pair_applied(pairs_applied(week, pairs, n - 1), pairs[n - 1].0@, pairs[n - 1].1@)
    }
}

/// The week after the lines of `text` were read one after the other, a
/// later line for a day taking the place of an earlier one.
pub open spec fn import_from(week: Seq<Seq<TimingView>>, text: Seq<char>) -> Seq<Seq<TimingView>>
    decreases text.len(),
{
    if text.len() == 0 {
        week
    } else {
        let n = index_of(text, '\n');
        import_from(line_applied(week, text.take(n)), after(text, n))
    }
}

/// The schedule that a text gives: every day has the ranges of the last
/// line under its key, and no range where there is no such line.
pub open spec fn import_spec(text: Seq<char>) -> Seq<Seq<TimingView>> {
    import_from(empty_week(), text)
}

/// The place where a character stands first is the one place that
/// [`is_first`] describes.
pub proof fn lemma_index_of(s: Seq<char>, c: char, i: int)
    requires
        is_first(s, c, i),
    ensures
        index_of(s, c) == i,
{
    let k = index_of(s, c);
}

/// A character stands first somewhere in every text, or nowhere in it.
pub proof fn lemma_index_of_in_bounds(s: Seq<char>, c: char)
    ensures
        0 <= index_of(s, c) <= s.len(),
        is_first(s, c, index_of(s, c)),
    decreases s.len(),
{
    if s.len() == 0 {
        assert(is_first(s, c, 0));
    } else if s[0] == c {
        assert(is_first(s, c, 0));
    } else {
        let t = s.drop_first();
        lemma_index_of_in_bounds(t, c);
        let k = index_of(t, c);
        assert forall|j: int| 0 <= j < k + 1 implies s[j] != c by {
            if j > 0 {
                assert(t[j - 1] == s[j]);
            }
        }
        assert(is_first(s, c, k + 1));
    }
}

/// Where `c` stands first in `v` at or behind `from`.
fn find_char(v: &Vec<char>, from: usize, c: char) -> (at: usize)
    requires
        from <= v.len(),
    ensures
        from <= at <= v.len(),
        at - from == index_of(v@.skip(from as int), c),
{
    let mut at: usize = from;
    while at < v.len() && v[at] != c
        invariant
            from <= at <= v.len(),
            forall|j: int| from <= j < at ==> v@[j] != c,
        decreases v.len() - at,
    {
        at += 1;
    }
    proof {
        let s = v@.skip(from as int);
        assert forall|j: int| 0 <= j < at - from implies s[j] != c by {}
        lemma_index_of(s, c, at - from);
    }
    at
}

/// Whether `c` is dropped from the ends of a range in a list.
fn blank(c: char) -> (b: bool)
    ensures
        b == is_blank(c),
{
    c == ' ' || c == '\t' || c == '\n' || c == '\r' || c == '\x0B' || c == '\x0C'
}

/// The characters of `v` between `from` and `to`, without the blanks at
/// the two ends.
fn trim_range(v: &Vec<char>, from: usize, to: usize) -> (part: Vec<char>)
    requires
        from <= to <= v.len(),
    ensures
        part@ == trimmed(v@.subrange(from as int, to as int)),
{
    let mut lo: usize = from;
    while lo < to && blank(v[lo])
        invariant
            from <= lo <= to <= v.len(),
            trim_start(v@.subrange(from as int, to as int)) == trim_start(
                v@.subrange(lo as int, to as int),
            ),
        decreases to - lo,
    {
        assert(v@.subrange(lo as int, to as int).drop_first() == v@.subrange(lo + 1, to as int));
        lo += 1;
    }
    let mut hi: usize = to;
    while lo < hi && blank(v[hi - 1])
        invariant
            lo <= hi <= to <= v.len(),
            trim_end(v@.subrange(lo as int, to as int)) == trim_end(
                v@.subrange(lo as int, hi as int),
            ),
        decreases hi - lo,
    {
        assert(v@.subrange(lo as int, hi as int).drop_last() == v@.subrange(lo as int, hi - 1));
        hi -= 1;
    }
    copy_range(v, lo, hi)
}

/// The name of the key under which the ranges of a day are kept.
pub fn key_of_day(day: Weekday) -> (key: &'static str)
    ensures
        key@ == day_key(day),
{
    match day {
        Weekday::Monday => "MT_MONDAY",
        Weekday::Tuesday => "MT_TUESDAY",
        Weekday::Wednesday => "MT_WEDNESDAY",
        Weekday::Thursday => "MT_THURSDAY",
        Weekday::Friday => "MT_FRIDAY",
        Weekday::Saturday => "MT_SATURDAY",
        Weekday::Sunday => "MT_SUNDAY",
    }
}

/// Appends the line of a day to `out`.
fn push_day_line(out: &mut Vec<char>, day: Weekday, ranges: &TimingCollection)
    ensures
        final(out)@ == old(out)@ + day_line(day, ranges@),
{
    push_str(out, key_of_day(day));
    out.push('=');
    let ghost head = out@;
    let n = ranges.len();
    let mut i: usize = 0;
    assert(ranges@.skip(0) == ranges@);
    while i < n
        invariant
            i <= n,
            n == ranges@.len(),
            i < n ==> head + joined(ranges@) == out@ + (if i == 0 {
                Seq::<char>::empty()
            } else {
                seq![',']
            }) + joined(ranges@.skip(i as int)),
            i == n ==> out@ == head + joined(ranges@),
        decreases n - i,
    {
        let ghost tail = ranges@.skip(i as int);
        let ghost before = out@;
        assert(tail.drop_first() == ranges@.skip(i + 1));
        if i > 0 {
            out.push(',');
        }
        let text = ranges.get(i).clone().format();
        push_str(out, text.as_str());
        i += 1;
        proof {
            let sep = if i == 1 {
                Seq::<char>::empty()
            } else {
                seq![',']
            };
        }
    }
    out.push('\n');
}

/// The text of a schedule: for each day, Monday first, one line of its key,
/// `=`, and its ranges as `start-end` with commas between them. A day
/// without ranges has the line of its key and `=` alone.
pub fn export_schedule(timings: &WeekSchedule) -> (text: String)
    ensures
        text@ == export_spec(timings@),
{
    let mut out: Vec<char> = Vec::new();
    let mut d: usize = 0;
    while d < 7
        invariant
            d <= 7,
            out@ + lines_from(timings@, d as int) == export_spec(timings@),
        decreases 7 - d,
    {
        let day = Weekday::from_ordinal(d);
        let ghost before = out@;
        push_day_line(&mut out, day, timings.day(day));
        d += 1;
    }
    from_chars(&out)
}

/// The day that is kept under `key`, if `key` is the key of a day.
fn weekday_of_key(key: &Vec<char>) -> (day: Option<Weekday>)
    ensures
        day == day_of_key(key@),
{
    if chars_are(key, key_of_day(Weekday::Monday)) {
        Some(Weekday::Monday)
    } else if chars_are(key, key_of_day(Weekday::Tuesday)) {
        Some(Weekday::Tuesday)
    } else if chars_are(key, key_of_day(Weekday::Wednesday)) {
        Some(Weekday::Wednesday)
    } else if chars_are(key, key_of_day(Weekday::Thursday)) {
        Some(Weekday::Thursday)
    } else if chars_are(key, key_of_day(Weekday::Friday)) {
        Some(Weekday::Friday)
    } else if chars_are(key, key_of_day(Weekday::Saturday)) {
        Some(Weekday::Saturday)
    } else if chars_are(key, key_of_day(Weekday::Sunday)) {
        Some(Weekday::Sunday)
    } else {
        None
    }
}

/// The ranges `done` followed by those that the rest of a list writes;
/// `None` where the rest cannot be read.
spec fn continued(done: Seq<TimingView>, rest: Option<Seq<TimingView>>) -> Option<
    Seq<TimingView>,
> {
    match rest {
        Some(ranges) => Some(done + ranges),
        None => None,
    }
}

/// The views of the ranges of `v`.
spec fn views(v: Seq<Timing>) -> Seq<TimingView> {
    Seq::new(v.len(), |k: int| v[k]@)
}

/// The ranges that the list in `v` from `from` on writes.
fn ranges_of_chars(v: &Vec<char>, from: usize) -> (ranges: Option<Vec<Timing>>)
    requires
        from <= v.len(),
    ensures
        match ranges_of_list(v@.skip(from as int)) {
            Some(list) => ranges is Some && views(ranges->0@) == list,
            None => ranges is None,
        },
{
    let mut done: Vec<Timing> = Vec::new();
    let mut pos: usize = from;
    proof {
        let all = ranges_of_list(v@.skip(from as int));
        if all is Some {
            assert(views(done@) + all->0 == all->0);
        }
    }
    loop
        invariant
            from <= pos <= v.len(),
            ranges_of_list(v@.skip(from as int)) == continued(
                views(done@),
                ranges_of_list(v@.skip(pos as int)),
            ),
        decreases v.len() - pos,
    {
        let ghost value = v@.skip(pos as int);
        let ghost before = views(done@);
        let at = find_char(v, pos, ',');
        let part = trim_range(v, pos, at);
        assert(v@.subrange(pos as int, at as int) == value.take(at - pos));
        match timing_of_chars(&part) {
            None => {
                return None;
            },
            Some(timing) => {
                done.push(timing);
                if at >= v.len() {
                    return Some(done);
                }
                assert(after(value, at - pos) == v@.skip(at + 1));
                proof {
                    let rest = ranges_of_list(v@.skip(at + 1));
                    if rest is Some {
                        assert(before + (seq![timing_of_text(part@)] + rest->0) == views(done@)
                            + rest->0);
                    }
                }
                pos = at + 1;
            },
        }
    }
}

/// The ranges that the value of a day's line gives the day: the ranges of
/// the list `range,range,...`, blanks around each range dropped. Where a
/// part of the list is no range `HH:MM:SS-HH:MM:SS` of two times of day,
/// the day gets no range at all.
pub fn to_weekday(value: &str) -> (day: TimingCollection)
    ensures
        day@ == day_of_value(value@),
        day_valid(day@),
{
    let v = to_chars(value);
    assert(v@.skip(0) == v@);
    day_of_chars(&v, 0)
}

/// As [`to_weekday`], on the characters of `v` from `from` on.
fn day_of_chars(v: &Vec<char>, from: usize) -> (day: TimingCollection)
    requires
        from <= v.len(),
    ensures
        day@ == day_of_value(v@.skip(from as int)),
        day_valid(day@),
{
    proof {
        lemma_ranges_of_list_valid(v@.skip(from as int));
    }
    match ranges_of_chars(v, from) {
        Some(timing_collection) => {
            TimingCollection { timing_collection }
        },
        None => TimingCollection::new(),
    }
}

/// Every range that a list writes is made of two times of day.
pub proof fn lemma_ranges_of_list_valid(value: Seq<char>)
    ensures
        day_valid(day_of_value(value)),
    decreases value.len(),
{
    let n = index_of(value, ',');
    if 0 <= n < value.len() {
        lemma_ranges_of_list_valid(after(value, n));
        let rest = day_of_value(after(value, n));
        let list = day_of_value(value);
        assert forall|k: int| 0 <= k < list.len() implies timing_valid(#[trigger] list[k]) by {
            if k > 0 {
                assert(list[k] == rest[k - 1]);
            }
        }
    }
}

/// Whatever text is read, every range of the schedule that it gives is
/// made of two times of day.
pub proof fn lemma_import_valid(week: Seq<Seq<TimingView>>, text: Seq<char>)
    requires
        week_valid(week),
    ensures
        week_valid(import_from(week, text)),
    decreases text.len(),
{
    if text.len() > 0 {
        let n = index_of(text, '\n');
        let line = text.take(n);
        let eq = index_of(line, '=');
        lemma_ranges_of_list_valid(after(line, eq));
        lemma_import_valid(line_applied(week, line), after(text, n));
    }
}

/// Reads one line into the week.
fn apply_line(week: &mut WeekSchedule, line: &Vec<char>)
    requires
        week_valid(old(week)@),
    ensures
        final(week)@ == line_applied(old(week)@, line@),
        week_valid(final(week)@),
{
    assert(line@.skip(0) == line@);
    let eq = find_char(line, 0, '=');
    if eq < line.len() {
        let key = copy_range(line, 0, eq);
        match weekday_of_key(&key) {
            Some(day) => {
                let ranges = day_of_chars(line, eq + 1);
                week.set_day(day, ranges);
            },
            None => {},
        }
    }
}

/// The schedule that pairs of key and value give, such as a reader of
/// `KEY=value` files hands them out. The pairs are taken in their order; a
/// pair whose key is that of a day gives the day the ranges of the value,
/// as [`to_weekday`] reads them; every other pair is passed over. A day
/// without a pair has no range.
pub fn import_pairs(pairs: &Vec<(String, String)>) -> (week: WeekSchedule)
    ensures
        week@ == pairs_applied(empty_week(), pairs@, pairs@.len() as int),
        week_valid(week@),
{
    let mut week = WeekSchedule::new();
    let mut i: usize = 0;
    while i < pairs.len()
        invariant
            i <= pairs.len(),
            week_valid(week@),
            week@ == pairs_applied(empty_week(), pairs@, i as int),
        decreases pairs.len() - i,
    {
        let key = to_chars(pairs[i].0.as_str());
        match weekday_of_key(&key) {
            Some(day) => {
                week.set_day(day, to_weekday(pairs[i].1.as_str()));
            },
            None => {},
        }
        i += 1;
    }
    week
}

/// The schedule that a text gives. The text is read line by line; a line
/// `KEY=value` whose key is that of a day gives the day the ranges of the
/// value, as [`to_weekday`] reads them, and takes the place of an earlier
/// line for that day; every other line is passed over. A day without a
/// line has no range.
pub fn import_schedule(text: &str) -> (week: WeekSchedule)
    ensures
        week@ == import_spec(text@),
        week_valid(week@),
{
    let v = to_chars(text);
    let mut week = WeekSchedule::new();
    let mut pos: usize = 0;
    assert(v@.skip(0) == v@);
    while pos < v.len()
        invariant
            pos <= v.len(),
            week_valid(week@),
            import_from(week@, v@.skip(pos as int)) == import_spec(v@),
        decreases v.len() - pos,
    {
        let ghost rest = v@.skip(pos as int);
        let end = find_char(&v, pos, '\n');
        let line = copy_range(&v, pos, end);
        assert(line@ == rest.take(end - pos));
        apply_line(&mut week, &line);
        if end < v.len() {
            assert(after(rest, end - pos) == v@.skip(end + 1));
            pos = end + 1;
        } else {
            assert(after(rest, end - pos) == v@.skip(end as int));
            pos = end;
        }
    }
    week
}

} // verus!
