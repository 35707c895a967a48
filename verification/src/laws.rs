//! What holds of the editor whatever keys it is given.

use vstd::prelude::*;
use crate::day::{display_order_spec, lemma_display_order};
use crate::input::lemma_edits_keep_cursor_in_bounds;
use crate::schedule::week_clash_free;
use crate::screen::{
    chosen_day, clamped, commit_spec, confirm_delete, confirm_exit, confirm_operation,
    confirm_timing, confirm_weekday, cursor_ok, day_with_input, delete_chosen, input_format_ok,
    input_no_clash, inv, leave_error, list_move, on_screen, op_at, reverse_state_spec,
    select_spec, selection_of, step, typing_step, CurrentScreen, KeyCode, KeyEvent, KeyEventKind,
    ListMove, TimingOp, WidgetView,
};
use crate::timing::{clash_free, day_valid, overlaps, timing_valid, TimingView};

verus! {

/// The range chosen through the list of a day, as it is shown, is one of
/// the ranges of that day.
pub proof fn lemma_selection_in_day(day: Seq<TimingView>, cursor: int)
    ensures
        match selection_of(day, cursor) {
            Some(i) => 0 <= i < day.len(),
            None => day.len() == 0,
        },
{
    if day.len() > 0 {
        lemma_display_order(day);
        let order = display_order_spec(day);
        let pos = clamped(cursor, day.len() as int);
        assert(0 <= order[pos] < day.len());
    }
}

/// A line that is committed changes the schedule only where it is a range
/// of two times of day that clashes with no other range of the day; the
/// schedule then still holds times of day only.
pub proof fn lemma_commit_keeps_inv(v: WidgetView, origin: CurrentScreen)
    requires
        inv(v),
        origin == CurrentScreen::Add || origin == CurrentScreen::Edit,
        v.current_screen == origin,
    ensures
        inv(commit_spec(v, origin)),
        week_clash_free(v.timings) ==> week_clash_free(commit_spec(v, origin).timings),
        !(input_format_ok(v) && input_no_clash(v, origin)) ==> {
            &&& commit_spec(v, origin).timings == v.timings
            &&& commit_spec(v, origin).input == v.input
            &&& commit_spec(v, origin).current_screen == CurrentScreen::Error
            &&& leave_error(commit_spec(v, origin)).current_screen == origin
            &&& leave_error(commit_spec(v, origin)).input == v.input
        },
        input_format_ok(v) && input_no_clash(v, origin) ==> {
            &&& commit_spec(v, origin).current_screen == CurrentScreen::TimingOptions
            &&& chosen_day(commit_spec(v, origin)) == day_with_input(v, origin)
            &&& forall|d: int|
                0 <= d < 7 && d != v.weekday_selected ==> #[trigger] commit_spec(v, origin).timings[d]
                    == v.timings[d]
        },
{
    let w = commit_spec(v, origin);
    if input_format_ok(v) && input_no_clash(v, origin) {
        let day = w.timings[v.weekday_selected];
        assert forall|d: int| 0 <= d < 7 implies day_valid(#[trigger] w.timings[d]) by {
            if d == v.weekday_selected {
                assert forall|k: int| 0 <= k < day.len() implies timing_valid(#[trigger] day[k]) by {
                    if k < chosen_day(v).len() {
                        assert(timing_valid(chosen_day(v)[k]));
                    }
                }
            } else {
                assert(w.timings[d] == v.timings[d]);
            }
        }
        if week_clash_free(v.timings) {
            assert forall|d: int| 0 <= d < w.timings.len() implies clash_free(
                #[trigger] w.timings[d],
            ) by {
                assert(clash_free(v.timings[d]));
                if d != v.weekday_selected {
                    assert(w.timings[d] == v.timings[d]);
                }
            }
        }
    }
}

/// Deleting the chosen range takes one range out of the chosen day and
/// leaves the other days as they are: the only range of a day leaves the day
/// empty, and on an empty day nothing changes. What is left holds times of
/// day only and has no clash that was not there before.
pub proof fn lemma_delete_keeps_inv(v: WidgetView)
    requires
        inv(v),
    ensures
        inv(confirm_delete(v)),
        week_clash_free(v.timings) ==> week_clash_free(confirm_delete(v).timings),
        chosen_day(v).len() == 0 ==> delete_chosen(v) == v,
        chosen_day(v).len() > 0 ==> chosen_day(delete_chosen(v)).len() == chosen_day(v).len() - 1,
        chosen_day(v).len() == 1 ==> chosen_day(delete_chosen(v)).len() == 0,
        forall|d: int|
            0 <= d < 7 && d != v.weekday_selected ==> #[trigger] delete_chosen(v).timings[d]
                == v.timings[d],
        confirm_delete(v).timings == if v.del_cursor == 0 {
            delete_chosen(v).timings
        } else {
            v.timings
        },
{
    let w = delete_chosen(v);
    match v.timing_selected {
        Some(i) => {
            let day = w.timings[v.weekday_selected];
            assert forall|d: int| 0 <= d < 7 implies day_valid(#[trigger] w.timings[d]) by {
                if d == v.weekday_selected {
                    assert forall|k: int| 0 <= k < day.len() implies timing_valid(
                        #[trigger] day[k],
                    ) by {
                        if k < i {
                            assert(timing_valid(chosen_day(v)[k]));
                        } else {
                            assert(timing_valid(chosen_day(v)[k + 1]));
                        }
                    }
                } else {
                    assert(w.timings[d] == v.timings[d]);
                }
            }
            if week_clash_free(v.timings) {
                assert forall|d: int| 0 <= d < w.timings.len() implies clash_free(
                    #[trigger] w.timings[d],
                ) by {
                    assert(clash_free(v.timings[d]));
                    if d != v.weekday_selected {
                        assert(w.timings[d] == v.timings[d]);
                    } else {
                        let old_day = chosen_day(v);
                        assert forall|a: int, b: int|
                            0 <= a < day.len() && 0 <= b < day.len() && a != b implies !overlaps(
                            #[trigger] day[a],
                            #[trigger] day[b],
                        ) by {
                            let a0 = if a < i { a } else { a + 1 };
                            let b0 = if b < i { b } else { b + 1 };
                            assert(day[a] == old_day[a0] && day[b] == old_day[b0]);
                        }
                    }
                }
            }
        },
        None => {},
    }
}

/// Going back changes the screen only, and never leads to the screen on
/// which a range is edited.
pub proof fn lemma_reverse_keeps_inv(v: WidgetView)
    requires
        inv(v),
    ensures
        inv(reverse_state_spec(v)),
        reverse_state_spec(v).timings == v.timings,
{
}

/// A step of a selection leaves it within its list, and changes nothing
/// else.
pub proof fn lemma_select_keeps_inv(v: WidgetView, m: ListMove)
    requires
        inv(v),
    ensures
        inv(select_spec(v, m)),
        select_spec(v, m).timings == v.timings,
        select_spec(v, m).current_screen == v.current_screen,
{
    let w = select_spec(v, m);
    if v.current_screen == CurrentScreen::Day {
        assert forall|d: int| 0 <= d < 7 implies cursor_ok(
            #[trigger] w.day_cursors[d],
            w.timings[d].len() as int,
        ) by {
            assert(cursor_ok(v.day_cursors[d], v.timings[d].len() as int));
        }
    }
}

/// Choosing a day, a range or an operation changes no range.
proof fn lemma_confirm_keeps_inv(v: WidgetView)
    requires
        inv(v),
    ensures
        v.current_screen == CurrentScreen::Weekdays ==> inv(confirm_weekday(v)),
        v.current_screen == CurrentScreen::Day ==> inv(confirm_timing(v)),
        v.current_screen == CurrentScreen::TimingOptions ==> inv(confirm_operation(v)),
        confirm_weekday(v).timings == v.timings,
        confirm_timing(v).timings == v.timings,
        confirm_operation(v).timings == v.timings,
{
    lemma_selection_in_day(v.timings[v.weekday_cursor], v.day_cursors[v.weekday_cursor]);
    lemma_selection_in_day(chosen_day(v), v.day_cursors[v.weekday_selected]);
    if v.current_screen == CurrentScreen::TimingOptions {
        if op_at(v.op_cursor) == TimingOp::Edit && v.timing_selected is None {
            lemma_reverse_keeps_inv(WidgetView { operation_selected: TimingOp::Edit, ..v });
        }
    }
}

/// Typing, on either screen, keeps the cursor within the line, and only a
/// line that is committed reaches the schedule.
proof fn lemma_typing_keeps_inv(v: WidgetView, code: KeyCode, origin: CurrentScreen)
    requires
        inv(v),
        origin == CurrentScreen::Add || origin == CurrentScreen::Edit,
        v.current_screen == origin,
    ensures
        inv(typing_step(v, code, origin)),
        week_clash_free(v.timings) ==> week_clash_free(typing_step(v, code, origin).timings),
        code != KeyCode::Enter ==> typing_step(v, code, origin).timings == v.timings,
{
    match code {
        KeyCode::Esc => {
            lemma_reverse_keeps_inv(v);
        },
        KeyCode::Enter => {
            lemma_commit_keeps_inv(v, origin);
        },
        KeyCode::Char(c) => {
            lemma_edits_keep_cursor_in_bounds(v.input, c);
        },
        KeyCode::Backspace => {
            lemma_edits_keep_cursor_in_bounds(v.input, 'x');
        },
        _ => {},
    }
}

/// Leaving an error message, or answering the question before the editor
/// is left, changes no range.
proof fn lemma_leave_keeps_inv(v: WidgetView)
    requires
        inv(v),
    ensures
        v.current_screen == CurrentScreen::Error ==> inv(leave_error(v)),
        inv(confirm_exit(v)),
        v.previous_screen != CurrentScreen::Edit ==> inv(on_screen(v, CurrentScreen::Exit)),
        leave_error(v).timings == v.timings,
        confirm_exit(v).timings == v.timings,
{
    lemma_reverse_keeps_inv(v);
}

/// Whatever key the editor is given, what holds of it at all times holds
/// afterwards; and a schedule without clashes stays without clashes.
pub proof fn lemma_step_keeps_inv(v: WidgetView, key: KeyEvent)
    requires
        inv(v),
    ensures
        inv(step(v, key)),
        week_clash_free(v.timings) ==> week_clash_free(step(v, key).timings),
{
    let code = key.code;
    if key.kind == KeyEventKind::Press {
        lemma_reverse_keeps_inv(v);
        lemma_confirm_keeps_inv(v);
        lemma_leave_keeps_inv(v);
        match list_move(code) {
            Some(m) => {
                lemma_select_keeps_inv(v, m);
            },
            None => {},
        }
        match v.current_screen {
            CurrentScreen::Add => {
                lemma_typing_keeps_inv(v, code, CurrentScreen::Add);
            },
            CurrentScreen::Edit => {
                lemma_typing_keeps_inv(v, code, CurrentScreen::Edit);
            },
            CurrentScreen::Delete => {
                lemma_delete_keeps_inv(v);
            },
            _ => {},
        }
    }
}

/// The keys of `keys` given to the editor one after the other.
pub open spec fn after_keys(v: WidgetView, keys: Seq<KeyEvent>) -> WidgetView
    decreases keys.len(),
{
    if keys.len() == 0 {
        v
    } else {
        step(after_keys(v, keys.drop_last()), keys.last())
    }
}

/// No sequence of keys brings an invalid range, or a clash, into the
/// schedule.
pub proof fn lemma_keys_keep_inv(v: WidgetView, keys: Seq<KeyEvent>)
    requires
        inv(v),
    ensures
        inv(after_keys(v, keys)),
        week_clash_free(v.timings) ==> week_clash_free(after_keys(v, keys).timings),
    decreases keys.len(),
{
    if keys.len() > 0 {
        lemma_keys_keep_inv(v, keys.drop_last());
        lemma_step_keeps_inv(after_keys(v, keys.drop_last()), keys.last());
    }
}

} // verus!
