//! Reading back what was written: the text of a schedule gives the
//! schedule again.

use vstd::prelude::*;
use crate::laws::{after_keys, lemma_keys_keep_inv};
use crate::schedule::{day_at, empty_week, week_valid, Weekday};
use crate::screen::{inv, KeyEvent, WidgetView};
use crate::timing::{
    day_valid, is_digit, lemma_range_text_splits, range_text, range_text_valid, timing_of_text,
    timing_valid, TimingView,
};
use crate::vars::{
    after, day_key, day_of_key, day_of_value, export_spec, import_from, import_spec, is_blank,
    is_first, joined, lemma_index_of, line_applied, lines_from, ranges_of_list, trim_end,
    trim_start, trimmed,
};

verus! {

/// A character of the text of a range: a digit, a colon or the dash.
pub open spec fn is_range_char(c: char) -> bool {
    is_digit(c) || c == ':' || c == '-'
}

/// A character of a list of ranges.
pub open spec fn is_list_char(c: char) -> bool {
    is_range_char(c) || c == ','
}

/// The text of a range of two times of day is a valid text, writes that
/// range, is made of digits, colons and the dash, and has no blank to drop
/// at its ends.
pub proof fn lemma_range_text_reads_back(t: TimingView)
    requires
        timing_valid(t),
    ensures
        range_text_valid(range_text(t.start, t.end)),
        timing_of_text(range_text(t.start, t.end)) == t,
        forall|i: int|
            0 <= i < range_text(t.start, t.end).len() ==> is_range_char(
                #[trigger] range_text(t.start, t.end)[i],
            ),
        trimmed(range_text(t.start, t.end)) == range_text(t.start, t.end),
        range_text(t.start, t.end).len() == 17,
{
    let s = range_text(t.start, t.end);
    lemma_range_text_splits(t.start, t.end);
    assert forall|i: int| 0 <= i < s.len() implies is_range_char(#[trigger] s[i]) by {
        if i < 8 {
            assert(s[i] == t.start[i]);
        } else if i > 8 {
            assert(s[i] == t.end[i - 9]);
        }
    }
    assert(is_range_char(s[0]) && !is_blank(s[0]));
    assert(is_range_char(s[16]) && !is_blank(s[16]));
    assert(s.last() == s[16]);
    assert(trim_start(s) == s);
    assert(trim_end(s) == s);
}

/// The list of a day's ranges is made of the characters of ranges and of
/// commas.
pub proof fn lemma_joined_chars(day: Seq<TimingView>)
    requires
        day_valid(day),
    ensures
        forall|i: int| 0 <= i < joined(day).len() ==> is_list_char(#[trigger] joined(day)[i]),
    decreases day.len(),
{
    if day.len() > 0 {
        let head = range_text(day[0].start, day[0].end);
        assert(timing_valid(day[0]));
        lemma_range_text_reads_back(day[0]);
        if day.len() > 1 {
            let rest = day.drop_first();
            assert forall|k: int| 0 <= k < rest.len() implies timing_valid(#[trigger] rest[k]) by {
                assert(rest[k] == day[k + 1]);
            }
            lemma_joined_chars(rest);
            let all = joined(day);
            assert forall|i: int| 0 <= i < all.len() implies is_list_char(#[trigger] all[i]) by {
                if i < 17 {
                    assert(all[i] == head[i]);
                } else if i > 17 {
                    assert(all[i] == joined(rest)[i - 18]);
                }
            }
        }
    }
}

/// The list of a day's ranges reads back as those ranges.
pub proof fn lemma_list_reads_back(day: Seq<TimingView>)
    requires
        day_valid(day),
        day.len() > 0,
    ensures
        ranges_of_list(joined(day)) == Some(day),
    decreases day.len(),
{
    let head = range_text(day[0].start, day[0].end);
    assert(timing_valid(day[0]));
    lemma_range_text_reads_back(day[0]);
    let value = joined(day);
    if day.len() == 1 {
        assert(is_first(value, ',', 17)) by {
            assert forall|j: int| 0 <= j < 17 implies value[j] != ',' by {
                assert(is_range_char(head[j]));
            }
        }
        lemma_index_of(value, ',', 17);
        assert(value.take(17) == head);
        assert(seq![day[0]] == day);
    } else {
        let rest = day.drop_first();
        assert forall|k: int| 0 <= k < rest.len() implies timing_valid(#[trigger] rest[k]) by {
            assert(rest[k] == day[k + 1]);
        }
        lemma_list_reads_back(rest);
        assert(is_first(value, ',', 17)) by {
            assert forall|j: int| 0 <= j < 17 implies value[j] != ',' by {
                assert(value[j] == head[j]);
                assert(is_range_char(head[j]));
            }
            assert(value[17] == ',');
        }
        lemma_index_of(value, ',', 17);
        assert(value.take(17) == head);
        assert(after(value, 17) == joined(rest));
        assert(seq![day[0]] + rest == day);
    }
}

/// The value of a day's line reads back as the ranges of the day.
pub proof fn lemma_value_reads_back(day: Seq<TimingView>)
    requires
        day_valid(day),
    ensures
        day_of_value(joined(day)) == day,
{
    if day.len() == 0 {
        let value = joined(day);
        assert(is_first(value, ',', 0));
        lemma_index_of(value, ',', 0);
        assert(value.take(0).len() == 0);
        assert(trim_start(value.take(0)) == value.take(0));
        assert(trimmed(value.take(0)).len() == 0);
        assert(day_of_value(value) == day);
    } else {
        lemma_list_reads_back(day);
    }
}

/// The keys of the seven days: what they are made of, and that no two are
/// the same.
pub proof fn lemma_day_keys(day: Weekday)
    ensures
        day_of_key(day_key(day)) == Some(day),
        forall|i: int|
            0 <= i < day_key(day).len() ==> (#[trigger] day_key(day)[i]) != '=' && day_key(day)[i]
                != '\n',
        day_key(day).len() >= 9,
{
    reveal_strlit("MT_MONDAY");
    reveal_strlit("MT_TUESDAY");
    reveal_strlit("MT_WEDNESDAY");
    reveal_strlit("MT_THURSDAY");
    reveal_strlit("MT_FRIDAY");
    reveal_strlit("MT_SATURDAY");
    reveal_strlit("MT_SUNDAY");
    let monday = day_key(Weekday::Monday);
    let tuesday = day_key(Weekday::Tuesday);
    let wednesday = day_key(Weekday::Wednesday);
    let thursday = day_key(Weekday::Thursday);
    let friday = day_key(Weekday::Friday);
    let saturday = day_key(Weekday::Saturday);
    let sunday = day_key(Weekday::Sunday);
    assert(monday.len() == 9 && friday.len() == 9 && sunday.len() == 9);
    assert(tuesday.len() == 10 && wednesday.len() == 12);
    assert(thursday.len() == 11 && saturday.len() == 11);
    assert(monday[3] == 'M' && friday[3] == 'F' && sunday[3] == 'S');
    assert(thursday[3] == 'T' && saturday[3] == 'S');
}

/// The line of a day, read into a week, gives the day its ranges.
pub proof fn lemma_line_reads_back(week: Seq<Seq<TimingView>>, day: Weekday, ranges: Seq<TimingView>)
    requires
        day_valid(ranges),
    ensures
        line_applied(week, day_key(day) + seq!['='] + joined(ranges)) == week.update(
            day.index(),
            ranges,
        ),
        forall|i: int|
            0 <= i < (day_key(day) + seq!['='] + joined(ranges)).len() ==> (#[trigger] (day_key(day)
                + seq!['='] + joined(ranges))[i]) != '\n',
{
    let key = day_key(day);
    let line = key + seq!['='] + joined(ranges);
    lemma_day_keys(day);
    lemma_joined_chars(ranges);
    lemma_value_reads_back(ranges);
    let n = key.len() as int;
    assert(is_first(line, '=', n)) by {
        assert forall|j: int| 0 <= j < n implies line[j] != '=' by {
            assert(line[j] == key[j]);
        }
        assert(line[n] == '=');
    }
    lemma_index_of(line, '=', n);
    assert(line.take(n) == key);
    assert(after(line, n) == joined(ranges));
    assert forall|i: int| 0 <= i < line.len() implies (#[trigger] line[i]) != '\n' by {
        if i < n {
            assert(line[i] == key[i]);
        } else if i > n {
            assert(line[i] == joined(ranges)[i - n - 1]);
            assert(is_list_char(joined(ranges)[i - n - 1]));
        }
    }
}

/// A text that starts with a line is read by reading that line and then
/// what follows it.
pub proof fn lemma_first_line(week: Seq<Seq<TimingView>>, line: Seq<char>, rest: Seq<char>)
    requires
        forall|i: int| 0 <= i < line.len() ==> (#[trigger] line[i]) != '\n',
    ensures
        import_from(week, line + seq!['\n'] + rest) == import_from(line_applied(week, line), rest),
{
    let text = line + seq!['\n'] + rest;
    let n = line.len() as int;
    assert(is_first(text, '\n', n)) by {
        assert forall|j: int| 0 <= j < n implies text[j] != '\n' by {
            assert(text[j] == line[j]);
        }
        assert(text[n] == '\n');
    }
    lemma_index_of(text, '\n', n);
    assert(text.take(n) == line);
    assert(after(text, n) == rest);
}

/// The lines of the days from `from` on, read into a week, give each of
/// those days its ranges and leave the days before them as they are.
pub proof fn lemma_lines_read_back(acc: Seq<Seq<TimingView>>, week: Seq<Seq<TimingView>>, from: int)
    requires
        week_valid(week),
        acc.len() == 7,
        0 <= from <= 7,
    ensures
        import_from(acc, lines_from(week, from)).len() == 7,
        forall|d: int|
            0 <= d < from ==> (#[trigger] import_from(acc, lines_from(week, from))[d]) == acc[d],
        forall|d: int|
            from <= d < 7 ==> (#[trigger] import_from(acc, lines_from(week, from))[d]) == week[d],
    decreases 7 - from,
{
    if from < 7 {
        let day = day_at(from);
        let ranges = week[from];
        assert(day_valid(ranges));
        let line = day_key(day) + seq!['='] + joined(ranges);
        let rest = lines_from(week, from + 1);
        lemma_line_reads_back(acc, day, ranges);
        lemma_first_line(acc, line, rest);
        assert(lines_from(week, from) == line + seq!['\n'] + rest);
        assert(day.index() == from);
        let next = acc.update(from, ranges);
        lemma_lines_read_back(next, week, from + 1);
        let result = import_from(acc, lines_from(week, from));
        assert(result == import_from(next, rest));
        assert forall|d: int| 0 <= d < from implies (#[trigger] result[d]) == acc[d] by {
            assert(next[d] == acc[d]);
        }
        assert forall|d: int| from <= d < 7 implies (#[trigger] result[d]) == week[d] by {
            if d == from {
                assert(next[d] == week[d]);
            }
        }
    }
}

/// A schedule that holds times of day only is read back from its text as
/// it was written: every day has its ranges again, in their order.
pub proof fn lemma_import_of_export(week: Seq<Seq<TimingView>>)
    requires
        week_valid(week),
    ensures
        import_spec(export_spec(week)) == week,
{
    lemma_lines_read_back(empty_week(), week, 0);
    assert(import_spec(export_spec(week)) =~= week);
}

/// Writing a schedule, reading the text and writing what was read gives the
/// same text again, character for character.
pub proof fn lemma_export_import_export(week: Seq<Seq<TimingView>>)
    requires
        week_valid(week),
    ensures
        export_spec(import_spec(export_spec(week))) == export_spec(week),
{
    lemma_import_of_export(week);
}

/// Whatever keys the editor was given, the schedule that it holds is read
/// back from its text as it is, and written again gives the same text.
pub proof fn lemma_edited_schedule_reads_back(v: WidgetView, keys: Seq<KeyEvent>)
    requires
        inv(v),
    ensures
        import_spec(export_spec(after_keys(v, keys).timings)) == after_keys(v, keys).timings,
        export_spec(import_spec(export_spec(after_keys(v, keys).timings))) == export_spec(
            after_keys(v, keys).timings,
        ),
{
    lemma_keys_keep_inv(v, keys);
    lemma_import_of_export(after_keys(v, keys).timings);
}

} // verus!
