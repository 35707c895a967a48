//! The screens of the editor, the keys it reads, and what each key does on
//! each screen, stated on the editor's contents as plain values.

use vstd::prelude::*;
use crate::day::{display_order_spec, no_clash_spec};
use crate::input::{
    blank, cursor_in_bounds, deleted_before_cursor, inserted, moved_left, moved_right, seeded,
    TextInputView,
};
use crate::schedule::week_valid;
use crate::timing::{range_text, range_text_valid, timing_of_text, TimingView};

verus! {

/// The screen that the editor shows.
#[derive(Clone, Copy, Debug, PartialEq, Eq, Structural)]
pub enum CurrentScreen {
    Weekdays,
    Day,
    TimingOptions,
    Add,
    Edit,
    Delete,
    Error,
    Exit,
}

/// What can be done with the ranges of a day.
#[derive(Clone, Copy, Debug, PartialEq, Eq, Structural)]
pub enum TimingOp {
    Add,
    Del,
    Edit,
    Exit,
}

/// Why a range that was typed in was not taken.
#[derive(Clone, Copy, Debug, PartialEq, Eq, Structural)]
pub enum ErrorType {
    /// The text is not of the form `HH:MM:SS-HH:MM:SS`.
    Format,
    /// The range clashes with another range of the day.
    Clash,
}

/// The key of a key event.
#[derive(Clone, Copy, Debug, PartialEq, Eq, Structural)]
pub enum KeyCode {
    Backspace,
    Enter,
    Left,
    Right,
    Up,
    Down,
    Home,
    End,
    Esc,
    Char(char),
    /// Any key that the editor has no use for.
    Other,
}

/// Whether a key went down, is held, or came up.
#[derive(Clone, Copy, Debug, PartialEq, Eq, Structural)]
pub enum KeyEventKind {
    Press,
    Repeat,
    Release,
}

/// One event of the keyboard.
#[derive(Clone, Copy, Debug, PartialEq, Eq, Structural)]
pub struct KeyEvent {
    pub code: KeyCode,
    pub kind: KeyEventKind,
}

/// A step of the selection in a list.
#[derive(Clone, Copy, Debug, PartialEq, Eq, Structural)]
pub enum ListMove {
    Next,
    Previous,
    First,
    Last,
}

/// The contents of the editor.
pub struct WidgetView {
    /// The schedule was confirmed and the editor is done.
    pub should_exit: bool,
    pub current_screen: CurrentScreen,
    /// The screen that an error message leads back to.
    pub previous_screen: CurrentScreen,
    /// The selection in the list of days.
    pub weekday_cursor: int,
    /// The day that was chosen.
    pub weekday_selected: int,
    /// For each day, the selection in the list of its ranges as it is
    /// shown.
    pub day_cursors: Seq<int>,
    /// The index, in the chosen day, of the range that was chosen; absent
    /// while the day has none.
    pub timing_selected: Option<int>,
    pub operation_selected: TimingOp,
    /// The selection in the list of operations.
    pub op_cursor: int,
    pub input: TextInputView,
    /// The selection in the question before a range is deleted: 0 is yes.
    pub del_cursor: int,
    /// The selection in the question before the editor is left: 0 is yes.
    pub exit_cursor: int,
    pub error_type: ErrorType,
    pub timings: Seq<Seq<TimingView>>,
}

/// The number of operations on offer.
pub open spec fn op_count() -> int {
    4
}

/// The operation at `index` of the list of operations.
pub open spec fn op_at(index: int) -> TimingOp {
    if index == 1 {
        TimingOp::Del
    } else if index == 2 {
        TimingOp::Edit
    } else if index == 3 {
        TimingOp::Exit
    } else {
        TimingOp::Add
    }
}

/// The name of an operation, as it is shown.
pub open spec fn op_name(op: TimingOp) -> Seq<char> {
    match op {
        TimingOp::Add => "Add"@,
        TimingOp::Del => "Delete"@,
        TimingOp::Edit => "Edit"@,
        TimingOp::Exit => "Exit"@,
    }
}

/// `index` brought into a list of `len` entries: the nearest position of
/// the list, and 0 where the list is empty.
pub open spec fn clamped(index: int, len: int) -> int {
    if len <= 0 || index < 0 {
        0
    } else if index >= len {
        len - 1
    } else {
        index
    }
}

/// The selection `cursor` of a list of `len` entries after one step.
pub open spec fn moved_index(cursor: int, len: int, step: ListMove) -> int {
    match step {
        ListMove::Next => clamped(cursor + 1, len),
        ListMove::Previous => clamped(cursor - 1, len),
        ListMove::First => 0,
        ListMove::Last => clamped(len - 1, len),
    }
}

/// A chosen index after the list has come to hold `len` entries: absent
/// for an empty list, else the nearest index of the list, the first where
/// none was chosen.
pub open spec fn normalized(chosen: Option<int>, len: int) -> Option<int> {
    if len <= 0 {
        None
    } else {
        match chosen {
            Some(i) => Some(clamped(i, len)),
            None => Some(0),
        }
    }
}

/// The index, in the day as it is stored, of the range that is shown at
/// position `cursor`; absent for a day without ranges.
pub open spec fn selection_of(day: Seq<TimingView>, cursor: int) -> Option<int> {
    if day.len() == 0 {
        None
    } else {
        Some(display_order_spec(day)[clamped(cursor, day.len() as int)])
    }
}

/// The step of a selection that a key asks for, if any.
pub open spec fn list_move(code: KeyCode) -> Option<ListMove> {
    match code {
        KeyCode::Down => Some(ListMove::Next),
        KeyCode::Up => Some(ListMove::Previous),
        KeyCode::Home => Some(ListMove::First),
        KeyCode::End => Some(ListMove::Last),
        KeyCode::Char(c) => if c == 'j' {
            Some(ListMove::Next)
        } else if c == 'k' {
            Some(ListMove::Previous)
        } else if c == 'g' {
            Some(ListMove::First)
        } else if c == 'G' {
            Some(ListMove::Last)
        } else {
            None
        },
        _ => None,
    }
}

/// The keys that confirm the selection of a list.
pub open spec fn is_confirm(code: KeyCode) -> bool {
    code == KeyCode::Enter || code == KeyCode::Right || code == KeyCode::Char('l')
}

/// The screen that "back" leads to.
pub open spec fn reversed(screen: CurrentScreen) -> CurrentScreen {
    match screen {
        CurrentScreen::Weekdays => CurrentScreen::Weekdays,
        CurrentScreen::Day => CurrentScreen::Weekdays,
        CurrentScreen::TimingOptions => CurrentScreen::Day,
        CurrentScreen::Add => CurrentScreen::TimingOptions,
        CurrentScreen::Edit => CurrentScreen::TimingOptions,
        CurrentScreen::Delete => CurrentScreen::Day,
        CurrentScreen::Error => CurrentScreen::TimingOptions,
        CurrentScreen::Exit => CurrentScreen::Weekdays,
    }
}

/// The ranges of the day that was chosen.
pub open spec fn chosen_day(v: WidgetView) -> Seq<TimingView> {
    v.timings[v.weekday_selected]
}

/// One step back.
pub open spec fn reverse_state_spec(v: WidgetView) -> WidgetView {
    WidgetView {
        current_screen: reversed(v.current_screen),
        previous_screen: reversed(v.current_screen),
        ..v
    }
}

/// The editor on another screen.
pub open spec fn on_screen(v: WidgetView, screen: CurrentScreen) -> WidgetView {
    WidgetView { current_screen: screen, ..v }
}

/// The selection in the list of the current screen; 0 on a screen without
/// a list.
pub open spec fn active_cursor(v: WidgetView) -> int {
    match v.current_screen {
        CurrentScreen::Weekdays => v.weekday_cursor,
        CurrentScreen::Day => v.day_cursors[v.weekday_selected],
        CurrentScreen::TimingOptions => v.op_cursor,
        CurrentScreen::Delete => v.del_cursor,
        CurrentScreen::Exit => v.exit_cursor,
        _ => 0,
    }
}

/// One step of the selection in the list of the current screen. The
/// screens on which text is typed, and the error message, have no list.
pub open spec fn select_spec(v: WidgetView, step: ListMove) -> WidgetView {
    match v.current_screen {
        CurrentScreen::Weekdays => WidgetView {
            weekday_cursor: moved_index(v.weekday_cursor, 7, step),
            ..v
        },
        CurrentScreen::Day => WidgetView {
            day_cursors: v.day_cursors.update(
                v.weekday_selected,
                moved_index(v.day_cursors[v.weekday_selected], chosen_day(v).len() as int, step),
            ),
            ..v
        },
        CurrentScreen::TimingOptions => WidgetView {
            op_cursor: moved_index(v.op_cursor, op_count(), step),
            ..v
        },
        CurrentScreen::Delete => WidgetView { del_cursor: moved_index(v.del_cursor, 2, step), ..v },
        CurrentScreen::Exit => WidgetView { exit_cursor: moved_index(v.exit_cursor, 2, step), ..v },
        _ => v,
    }
}

/// The day under the selection is chosen, and its ranges are shown.
pub open spec fn confirm_weekday(v: WidgetView) -> WidgetView {
    WidgetView {
        weekday_selected: v.weekday_cursor,
        timing_selected: selection_of(v.timings[v.weekday_cursor], v.day_cursors[v.weekday_cursor]),
        current_screen: CurrentScreen::Day,
        ..v
    }
}

/// The range under the selection is chosen, and the operations are offered.
pub open spec fn confirm_timing(v: WidgetView) -> WidgetView {
    WidgetView {
        timing_selected: selection_of(chosen_day(v), v.day_cursors[v.weekday_selected]),
        current_screen: CurrentScreen::TimingOptions,
        ..v
    }
}

/// The operation under the selection is started. Adding starts on an empty
/// line; editing starts on the text of the chosen range, the cursor at its
/// end, and leads back to the day where there is no range to edit; the
/// question before deleting starts on yes.
pub open spec fn confirm_operation(v: WidgetView) -> WidgetView {
    let op = op_at(v.op_cursor);
    let chosen = WidgetView { operation_selected: op, ..v };
    match op {
        TimingOp::Add => WidgetView {
            current_screen: CurrentScreen::Add,
            input: blank(),
            ..chosen
        },
        TimingOp::Del => WidgetView { current_screen: CurrentScreen::Delete, del_cursor: 0, ..chosen },
        TimingOp::Edit => match v.timing_selected {
            Some(i) => WidgetView {
                current_screen: CurrentScreen::Edit,
                input: seeded(range_text(chosen_day(v)[i].start, chosen_day(v)[i].end)),
                ..chosen
            },
            None => reverse_state_spec(chosen),
        },
        TimingOp::Exit => WidgetView { current_screen: CurrentScreen::Exit, ..chosen },
    }
}

/// The range that the clash test leaves out: when a range is edited, the
/// one that it replaces.
pub open spec fn exclusion(v: WidgetView, origin: CurrentScreen) -> Option<int> {
    if origin == CurrentScreen::Edit {
        v.timing_selected
    } else {
        None
    }
}

/// The line that was typed is a range of two times of day.
pub open spec fn input_format_ok(v: WidgetView) -> bool {
    range_text_valid(v.input.text)
}

/// The range that was typed clashes with no other range of the chosen day.
pub open spec fn input_no_clash(v: WidgetView, origin: CurrentScreen) -> bool {
    no_clash_spec(timing_of_text(v.input.text), chosen_day(v), exclusion(v, origin))
}

/// The editor showing an error message that leads back to `origin`.
pub open spec fn rejected(v: WidgetView, origin: CurrentScreen, error: ErrorType) -> WidgetView {
    WidgetView {
        previous_screen: origin,
        error_type: error,
        current_screen: CurrentScreen::Error,
        ..v
    }
}

/// The chosen day with the range that was typed taken in: appended when it
/// is added, in the place of the chosen range when that is edited.
pub open spec fn day_with_input(v: WidgetView, origin: CurrentScreen) -> Seq<TimingView> {
    let timing = timing_of_text(v.input.text);
    if origin == CurrentScreen::Edit {
        match v.timing_selected {
            Some(i) => chosen_day(v).update(i, timing),
            None => chosen_day(v),
        }
    } else {
        chosen_day(v).push(timing)
    }
}

/// The line that was typed on the screen `origin` is committed: it is
/// turned down where its format is wrong or, else, where it clashes; else
/// it goes into the chosen day, the line is emptied, and the operations
/// are offered again.
pub open spec fn commit_spec(v: WidgetView, origin: CurrentScreen) -> WidgetView {
    if !input_format_ok(v) {
        rejected(v, origin, ErrorType::Format)
    } else if !input_no_clash(v, origin) {
        rejected(v, origin, ErrorType::Clash)
    } else {
        let day = day_with_input(v, origin);
        WidgetView {
            timings: v.timings.update(v.weekday_selected, day),
            timing_selected: normalized(v.timing_selected, day.len() as int),
            input: blank(),
            current_screen: CurrentScreen::TimingOptions,
            previous_screen: CurrentScreen::TimingOptions,
            ..v
        }
    }
}

/// Typing is given up: the line is dropped and the operations are offered
/// again.
pub open spec fn cancel_input(v: WidgetView) -> WidgetView {
    WidgetView { input: blank(), ..reverse_state_spec(v) }
}

/// The chosen range is taken out of its day; nothing changes where the day
/// has none. The selections of the day follow its new length.
pub open spec fn delete_chosen(v: WidgetView) -> WidgetView {
    match v.timing_selected {
        Some(i) => {
            let day = chosen_day(v).remove(i);
            WidgetView {
                timings: v.timings.update(v.weekday_selected, day),
                timing_selected: normalized(Some(i), day.len() as int),
                day_cursors: v.day_cursors.update(
                    v.weekday_selected,
                    clamped(v.day_cursors[v.weekday_selected], day.len() as int),
                ),
                ..v
            }
        },
        None => v,
    }
}

/// The question before deleting is answered: on yes the chosen range is
/// deleted; either way the day is shown again.
pub open spec fn confirm_delete(v: WidgetView) -> WidgetView {
    if v.del_cursor == 0 {
        reverse_state_spec(delete_chosen(v))
    } else {
        reverse_state_spec(v)
    }
}

/// An error message is left: back to the screen on which the line was
/// typed, which is as it was.
pub open spec fn leave_error(v: WidgetView) -> WidgetView {
    match v.previous_screen {
        CurrentScreen::Add => on_screen(v, CurrentScreen::Add),
        CurrentScreen::Edit => on_screen(v, CurrentScreen::Edit),
        _ => reverse_state_spec(v),
    }
}

/// The question before leaving is answered: on yes the editor is done,
/// else the days are shown again.
pub open spec fn confirm_exit(v: WidgetView) -> WidgetView {
    if v.exit_cursor == 0 {
        WidgetView { should_exit: true, ..v }
    } else {
        reverse_state_spec(v)
    }
}

/// What a key does on a screen on which a line is typed.
pub open spec fn typing_step(v: WidgetView, code: KeyCode, origin: CurrentScreen) -> WidgetView {
    match code {
        KeyCode::Esc => cancel_input(v),
        KeyCode::Left => WidgetView { input: moved_left(v.input), ..v },
        KeyCode::Right => WidgetView { input: moved_right(v.input), ..v },
        KeyCode::Backspace => WidgetView { input: deleted_before_cursor(v.input), ..v },
        KeyCode::Char(c) => WidgetView { input: inserted(v.input, c), ..v },
        KeyCode::Enter => commit_spec(v, origin),
        _ => v,
    }
}

/// What one key event does to the editor. Only a key that goes down
/// counts.
pub open spec fn step(v: WidgetView, key: KeyEvent) -> WidgetView {
    let code = key.code;
    if key.kind != KeyEventKind::Press {
        v
    } else {
        match v.current_screen {
            CurrentScreen::Weekdays => {
                if code == KeyCode::Char('q') || code == KeyCode::Left || code == KeyCode::Backspace
                    || code == KeyCode::Esc {
                    on_screen(v, CurrentScreen::Exit)
                } else if is_confirm(code) {
                    confirm_weekday(v)
                } else {
                    match list_move(code) {
                        Some(m) => select_spec(v, m),
                        None => v,
                    }
                }
            },
            CurrentScreen::Day => {
                if code == KeyCode::Char('q') || code == KeyCode::Esc {
                    on_screen(v, CurrentScreen::Exit)
                } else if code == KeyCode::Char('h') || code == KeyCode::Left || code
                    == KeyCode::Backspace {
                    reverse_state_spec(v)
                } else if is_confirm(code) {
                    confirm_timing(v)
                } else {
                    match list_move(code) {
                        Some(m) => select_spec(v, m),
                        None => v,
                    }
                }
            },
            CurrentScreen::TimingOptions => {
                if code == KeyCode::Char('q') || code == KeyCode::Esc || code == KeyCode::Char('h')
                    || code == KeyCode::Left || code == KeyCode::Backspace {
                    reverse_state_spec(v)
                } else if is_confirm(code) {
                    confirm_operation(v)
                } else {
                    match list_move(code) {
                        Some(m) => select_spec(v, m),
                        None => v,
                    }
                }
            },
            CurrentScreen::Add => typing_step(v, code, CurrentScreen::Add),
            CurrentScreen::Edit => typing_step(v, code, CurrentScreen::Edit),
            CurrentScreen::Delete => {
                if code == KeyCode::Esc || code == KeyCode::Backspace {
                    reverse_state_spec(v)
                } else if is_confirm(code) {
                    confirm_delete(v)
                } else {
                    match list_move(code) {
                        Some(m) => select_spec(v, m),
                        None => v,
                    }
                }
            },
            CurrentScreen::Error => leave_error(v),
            CurrentScreen::Exit => {
                if code == KeyCode::Esc || code == KeyCode::Backspace || code == KeyCode::Char('h')
                    || code == KeyCode::Left {
                    reverse_state_spec(v)
                } else if is_confirm(code) {
                    confirm_exit(v)
                } else {
                    match list_move(code) {
                        Some(m) => select_spec(v, m),
                        None => v,
                    }
                }
            },
        }
    }
}

/// A selection stands within its list of `len` entries, or at 0 where the
/// list is empty.
pub open spec fn cursor_ok(cursor: int, len: int) -> bool {
    0 <= cursor && (cursor < len || cursor == 0)
}

/// What holds of the editor at all times: the week is complete and holds
/// times of day only; every selection stands within its list; the chosen
/// range is one of the chosen day, and is absent only while that day has
/// none; the cursor stands within the line; and a range is being edited
/// only on a day that has one.
pub open spec fn inv(v: WidgetView) -> bool {
    &&& week_valid(v.timings)
    &&& 0 <= v.weekday_cursor < 7
    &&& 0 <= v.weekday_selected < 7
    &&& v.day_cursors.len() == 7
    &&& forall|d: int|
        0 <= d < 7 ==> cursor_ok(#[trigger] v.day_cursors[d], v.timings[d].len() as int)
    &&& match v.timing_selected {
        Some(i) => 0 <= i < chosen_day(v).len(),
        None => chosen_day(v).len() == 0,
    }
    &&& 0 <= v.op_cursor < op_count()
    &&& 0 <= v.del_cursor < 2
    &&& 0 <= v.exit_cursor < 2
    &&& cursor_in_bounds(v.input)
    &&& (v.current_screen == CurrentScreen::Edit || v.previous_screen == CurrentScreen::Edit) ==> {
        &&& chosen_day(v).len() > 0
        &&& (v.current_screen == CurrentScreen::Edit || v.current_screen == CurrentScreen::Error)
    }
}

} // verus!
