//! The editor of the weekly schedule: its state, and the key handler that
//! moves it from screen to screen.

use vstd::prelude::*;
use crate::day::{as_index, no_clash, TimingCollection};
use crate::input::{
    blank, deleted_before_cursor, inserted, moved_left, moved_right, seeded, TextInput,
    TextInputView,
};
use crate::laws::{
    lemma_reverse_keeps_inv, lemma_select_keeps_inv, lemma_selection_in_day, lemma_step_keeps_inv,
};
use crate::schedule::{has_timings, seed_week, week_clash_free, week_valid, Weekday, WeekSchedule};
use crate::screen::{
    active_cursor, cancel_input, chosen_day, commit_spec, confirm_delete, confirm_exit,
    confirm_operation, confirm_timing, confirm_weekday, day_with_input, delete_chosen,
    input_format_ok, input_no_clash, inv, is_confirm, leave_error, list_move, moved_index,
    normalized, op_at, op_name, reverse_state_spec, reversed, select_spec, selection_of,
    step, typing_step, CurrentScreen, ErrorType, KeyCode, KeyEvent, KeyEventKind, ListMove,
    TimingOp, WidgetView,
};
use crate::timing::{
    extract_timings_from_input, format_ok, parse_timing, range_text_valid, time_number,
    timing_of_text, timing_valid, Timing, TimingView,
};

verus! {

impl TimingOp {
    /// The name of the operation, as it is shown.
    pub fn as_str(&self) -> (name: &'static str)
        ensures
            name@ == op_name(*self),
    {
        match self {
            TimingOp::Add => "Add",
            TimingOp::Del => "Delete",
            TimingOp::Edit => "Edit",
            TimingOp::Exit => "Exit",
        }
    }

    /// The operations in the order in which they are offered.
    pub fn as_vec_of_str(&self) -> (names: Vec<&'static str>)
        ensures
            names@.len() == 4,
            forall|i: int| 0 <= i < 4 ==> (#[trigger] names@[i])@ == op_name(op_at(i)),
    {
        let mut names: Vec<&'static str> = Vec::new();
        names.push(TimingOp::Add.as_str());
        names.push(TimingOp::Del.as_str());
        names.push(TimingOp::Edit.as_str());
        names.push(TimingOp::Exit.as_str());
        names
    }

    /// The operation at `index` of the list of operations.
    pub fn at(index: usize) -> (op: TimingOp)
        ensures
            op == op_at(index as int),
    {
        if index == 1 {
            TimingOp::Del
        } else if index == 2 {
            TimingOp::Edit
        } else if index == 3 {
            TimingOp::Exit
        } else {
            TimingOp::Add
        }
    }
}

impl CurrentScreen {
    /// The screen that "back" leads to.
    pub fn reverse(self) -> (screen: CurrentScreen)
        ensures
            screen == reversed(self),
    {
        match self {
            CurrentScreen::Weekdays => CurrentScreen::Weekdays,
            CurrentScreen::Day => CurrentScreen::Weekdays,
            CurrentScreen::TimingOptions => CurrentScreen::Day,
            CurrentScreen::Add => CurrentScreen::TimingOptions,
            CurrentScreen::Edit => CurrentScreen::TimingOptions,
            CurrentScreen::Delete => CurrentScreen::Day,
            CurrentScreen::Error => CurrentScreen::TimingOptions,
            CurrentScreen::Exit => CurrentScreen::Weekdays,
        }
    }
}

impl KeyCode {
    /// The step of a selection that the key asks for, if any.
    pub fn list_move(self) -> (m: Option<ListMove>)
        ensures
            m == list_move(self),
    {
        match self {
            KeyCode::Down => Some(ListMove::Next),
            KeyCode::Up => Some(ListMove::Previous),
            KeyCode::Home => Some(ListMove::First),
            KeyCode::End => Some(ListMove::Last),
            KeyCode::Char(c) => if c == 'j' {
                Some(ListMove::Next)
            } else if c == 'k' {
                Some(ListMove::Previous)
            } else if c == 'g' {
                Some(ListMove::First)
            } else if c == 'G' {
                Some(ListMove::Last)
            } else {
                None
            },
            _ => None,
        }
    }

    /// Whether the key confirms the selection of a list.
    pub fn is_confirm(self) -> (b: bool)
        ensures
            b == is_confirm(self),
    {
        match self {
            KeyCode::Enter => true,
            KeyCode::Right => true,
            KeyCode::Char(c) => c == 'l',
            _ => false,
        }
    }

    /// Whether the key is the character `c`.
    pub fn is_char(self, c: char) -> (b: bool)
        ensures
            b == (self == KeyCode::Char(c)),
    {
        match self {
            KeyCode::Char(d) => c == d,
            _ => false,
        }
    }
}

impl KeyEvent {
    /// The event of `code` going down.
    pub fn press(code: KeyCode) -> (key: KeyEvent)
        ensures
            key == (KeyEvent { code, kind: KeyEventKind::Press }),
    {
        KeyEvent { code, kind: KeyEventKind::Press }
    }
}

/// The selection `cursor` of a list of `len` entries after one step.
pub fn move_index(cursor: usize, len: usize, step: ListMove) -> (moved: usize)
    ensures
        moved == moved_index(cursor as int, len as int, step),
{
    match step {
        ListMove::Next => {
            if len == 0 {
                0
            } else if cursor >= len - 1 {
                len - 1
            } else {
                cursor + 1
            }
        },
        ListMove::Previous => {
            if len == 0 || cursor == 0 {
                0
            } else if cursor - 1 >= len {
                len - 1
            } else {
                cursor - 1
            }
        },
        ListMove::First => 0,
        ListMove::Last => {
            if len == 0 {
                0
            } else {
                len - 1
            }
        },
    }
}

/// The editor of the weekly schedule.
pub struct TimingsWidget {
    should_exit: bool,
    current_screen: CurrentScreen,
    previous_screen: CurrentScreen,
    weekday_cursor: usize,
    weekday_selected: usize,
    day_cursors: [usize; 7],
    timing_selected: Option<usize>,
    operation_selected: TimingOp,
    op_cursor: usize,
    input: TextInput,
    del_cursor: usize,
    exit_cursor: usize,
    error_type: ErrorType,
    timings: WeekSchedule,
}

impl View for TimingsWidget {
    type V = WidgetView;

    closed spec fn view(&self) -> WidgetView {
        WidgetView {
            should_exit: self.should_exit,
            current_screen: self.current_screen,
            previous_screen: self.previous_screen,
            weekday_cursor: self.weekday_cursor as int,
            weekday_selected: self.weekday_selected as int,
            day_cursors: Seq::new(7, |d: int| self.day_cursors@[d] as int),
            timing_selected: as_index(self.timing_selected),
            operation_selected: self.operation_selected,
            op_cursor: self.op_cursor as int,
            input: self.input@,
            del_cursor: self.del_cursor as int,
            exit_cursor: self.exit_cursor as int,
            error_type: self.error_type,
            timings: self.timings@,
        }
    }
}

/// The editor as it starts on the schedule `timings`: on the list of
/// days, everything selected at its first entry, Monday and the range of
/// Monday that is shown first chosen, the line empty.
pub open spec fn initial(timings: Seq<Seq<TimingView>>) -> WidgetView {
    WidgetView {
        should_exit: false,
        current_screen: CurrentScreen::Weekdays,
        previous_screen: CurrentScreen::Weekdays,
        weekday_cursor: 0,
        weekday_selected: 0,
        day_cursors: Seq::new(7, |d: int| 0int),
        timing_selected: selection_of(timings[0], 0),
        operation_selected: TimingOp::Add,
        op_cursor: 0,
        input: blank(),
        del_cursor: 0,
        exit_cursor: 0,
        error_type: ErrorType::Format,
        timings,
    }
}

impl TimingsWidget {
    /// What holds of the editor at all times.
    pub open spec fn well_formed(&self) -> bool {
        inv(self@)
    }

    fn start(timings: WeekSchedule) -> (widget: TimingsWidget)
        requires
            week_valid(timings@),
        ensures
            widget@ == initial(timings@),
            widget.well_formed(),
    {
        proof {
            lemma_selection_in_day(timings@[0], 0);
        }
        let timing_selected = if timings.monday.is_empty() {
            None
        } else {
            let order = timings.monday.display_order();
            Some(order[0])
        };
        let widget = TimingsWidget {
            should_exit: false,
            current_screen: CurrentScreen::Weekdays,
            previous_screen: CurrentScreen::Weekdays,
            weekday_cursor: 0,
            weekday_selected: 0,
            day_cursors: [0, 0, 0, 0, 0, 0, 0],
            timing_selected,
            operation_selected: TimingOp::Add,
            op_cursor: 0,
            input: TextInput::new(),
            del_cursor: 0,
            exit_cursor: 0,
            error_type: ErrorType::Format,
            timings,
        };
        assert(widget@.day_cursors =~= Seq::new(7, |d: int| 0int));
        widget
    }

    /// The editor on the seed schedule: on every day the one range
    /// 09:00:00 to 17:00:00.
    pub fn default() -> (widget: TimingsWidget)
        ensures
            widget@ == initial(seed_week()),
            widget.well_formed(),
            week_clash_free(widget@.timings),
    {
        TimingsWidget::start(WeekSchedule::default())
    }

    /// The editor on a schedule that was kept from an earlier run. A
    /// schedule in which no day has a range gives way to the seed schedule.
    pub fn new(preset_timings: WeekSchedule) -> (widget: TimingsWidget)
        requires
            week_valid(preset_timings@),
        ensures
            widget@ == initial(
                if has_timings(preset_timings@) {
                    preset_timings@
                } else {
                    seed_week()
                },
            ),
            widget.well_formed(),
            week_clash_free(preset_timings@) ==> week_clash_free(widget@.timings),
    {
        if preset_timings.has_timings() {
            TimingsWidget::start(preset_timings)
        } else {
            TimingsWidget::start(WeekSchedule::default())
        }
    }

    /// Whether the schedule was confirmed and the editor is done.
    pub fn should_exit(&self) -> (b: bool)
        ensures
            b == self@.should_exit,
    {
        self.should_exit
    }

    /// The screen that is shown.
    pub fn current_screen(&self) -> (screen: CurrentScreen)
        ensures
            screen == self@.current_screen,
    {
        self.current_screen
    }

    /// The screen that an error message leads back to.
    pub fn previous_screen(&self) -> (screen: CurrentScreen)
        ensures
            screen == self@.previous_screen,
    {
        self.previous_screen
    }

    /// Why the last line that was turned down was turned down.
    pub fn error_type(&self) -> (error: ErrorType)
        ensures
            error == self@.error_type,
    {
        self.error_type
    }

    /// The operation that was chosen last.
    pub fn operation_selected(&self) -> (op: TimingOp)
        ensures
            op == self@.operation_selected,
    {
        self.operation_selected
    }

    /// The position, in the week, of the day that was chosen.
    pub fn weekday_selected(&self) -> (index: usize)
        ensures
            index == self@.weekday_selected,
    {
        self.weekday_selected
    }

    /// The index, in the chosen day, of the range that was chosen.
    pub fn timing_selected(&self) -> (index: Option<usize>)
        ensures
            as_index(index) == self@.timing_selected,
    {
        self.timing_selected
    }

    /// The selection in the list of the current screen; 0 on a screen
    /// without a list.
    pub fn cursor(&self) -> (index: usize)
        requires
            self.well_formed(),
        ensures
            index == active_cursor(self@),
    {
        match self.current_screen {
            CurrentScreen::Weekdays => self.weekday_cursor,
            CurrentScreen::Day => self.day_cursors[self.weekday_selected],
            CurrentScreen::TimingOptions => self.op_cursor,
            CurrentScreen::Delete => self.del_cursor,
            CurrentScreen::Exit => self.exit_cursor,
            _ => 0,
        }
    }

    /// The selection in the list of the chosen day's ranges, as that list
    /// is shown.
    pub fn day_cursor(&self) -> (index: usize)
        requires
            self.well_formed(),
        ensures
            index == self@.day_cursors[self@.weekday_selected],
    {
        self.day_cursors[self.weekday_selected]
    }

    /// The selection in the list of days.
    pub fn weekday_cursor(&self) -> (index: usize)
        ensures
            index == self@.weekday_cursor,
    {
        self.weekday_cursor
    }

    /// The line that is being typed.
    pub fn input(&self) -> (text: String)
        ensures
            text@ == self@.input.text,
    {
        self.input.text()
    }

    /// The number of characters left of the cursor in the line.
    pub fn character_index(&self) -> (index: usize)
        ensures
            index == self@.input.cursor,
    {
        self.input.cursor()
    }

    /// The schedule as it is now.
    pub fn timings(&self) -> (week: &WeekSchedule)
        ensures
            week@ == self@.timings,
    {
        &self.timings
    }

    /// The schedule that the editor hands over when it is done.
    pub fn compile_schedule(&self) -> (week: WeekSchedule)
        ensures
            week@ == self@.timings,
    {
        self.timings.clone()
    }

    /// Puts `text` on the line, the cursor at its end.
    pub fn set_input(&mut self, text: &str)
        ensures
            final(self)@ == (WidgetView { input: seeded(text@), ..old(self)@ }),
            old(self).well_formed() ==> final(self).well_formed(),
    {
        self.input = TextInput::with_text(text);
    }

    /// Shows `screen`, as if nothing had been shown before it.
    pub fn set_current_screen(&mut self, screen: CurrentScreen)
        requires
            old(self).well_formed(),
            screen == CurrentScreen::Edit ==> chosen_day(old(self)@).len() > 0,
        ensures
            final(self)@ == (WidgetView {
                current_screen: screen,
                previous_screen: screen,
                ..old(self)@
            }),
            final(self).well_formed(),
    {
        self.current_screen = screen;
        self.previous_screen = screen;
    }

    fn chosen(&self) -> (day: &TimingCollection)
        requires
            self.well_formed(),
        ensures
            day@ == chosen_day(self@),
    {
        self.timings.day(Weekday::from_ordinal(self.weekday_selected))
    }

    fn selection(&self, day_index: usize) -> (chosen: Option<usize>)
        requires
            self.well_formed(),
            day_index < 7,
        ensures
            as_index(chosen) == selection_of(
                self@.timings[day_index as int],
                self@.day_cursors[day_index as int],
            ),
            chosen matches Some(i) ==> i < self@.timings[day_index as int].len(),
    {
        let day = self.timings.day(Weekday::from_ordinal(day_index));
        if day.is_empty() {
            None
        } else {
            let order = day.display_order();
            let cursor = self.day_cursors[day_index];
            let pos = if cursor >= day.len() {
                day.len() - 1
            } else {
                cursor
            };
            Some(order[pos])
        }
    }

    /// One step back.
    pub fn reverse_state(&mut self)
        requires
            old(self).well_formed(),
        ensures
            final(self)@ == reverse_state_spec(old(self)@),
            final(self).well_formed(),
    {
        proof {
            lemma_reverse_keeps_inv(self@);
        }
        let screen = self.current_screen.reverse();
        self.current_screen = screen;
        self.previous_screen = screen;
    }

    /// One step of the selection in the list of the current screen.
    pub fn select(&mut self, step: ListMove)
        requires
            old(self).well_formed(),
        ensures
            final(self)@ == select_spec(old(self)@, step),
            final(self).well_formed(),
    {
        proof {
            lemma_select_keeps_inv(self@, step);
        }
        match self.current_screen {
            CurrentScreen::Weekdays => {
                self.weekday_cursor = move_index(self.weekday_cursor, 7, step);
            },
            CurrentScreen::Day => {
                let d = self.weekday_selected;
                let len = self.chosen().len();
                let moved = move_index(self.day_cursors[d], len, step);
                self.day_cursors[d] = moved;
                assert(self@.day_cursors =~= old(self)@.day_cursors.update(d as int, moved as int));
            },
            CurrentScreen::TimingOptions => {
                self.op_cursor = move_index(self.op_cursor, 4, step);
            },
            CurrentScreen::Delete => {
                self.del_cursor = move_index(self.del_cursor, 2, step);
            },
            CurrentScreen::Exit => {
                self.exit_cursor = move_index(self.exit_cursor, 2, step);
            },
            _ => {},
        }
    }

    /// Moves the selection of the current list one entry down.
    pub fn select_next(&mut self)
        requires
            old(self).well_formed(),
        ensures
            final(self)@ == select_spec(old(self)@, ListMove::Next),
            final(self).well_formed(),
    {
        self.select(ListMove::Next)
    }

    /// Moves the selection of the current list one entry up.
    pub fn select_previous(&mut self)
        requires
            old(self).well_formed(),
        ensures
            final(self)@ == select_spec(old(self)@, ListMove::Previous),
            final(self).well_formed(),
    {
        self.select(ListMove::Previous)
    }

    /// Moves the selection of the current list to its first entry.
    pub fn select_first(&mut self)
        requires
            old(self).well_formed(),
        ensures
            final(self)@ == select_spec(old(self)@, ListMove::First),
            final(self).well_formed(),
    {
        self.select(ListMove::First)
    }

    /// Moves the selection of the current list to its last entry.
    pub fn select_last(&mut self)
        requires
            old(self).well_formed(),
        ensures
            final(self)@ == select_spec(old(self)@, ListMove::Last),
            final(self).well_formed(),
    {
        self.select(ListMove::Last)
    }

    /// Moves the cursor of the line one character to the left.
    pub fn move_cursor_left(&mut self)
        requires
            old(self).well_formed(),
        ensures
            final(self)@ == (WidgetView { input: moved_left(old(self)@.input), ..old(self)@ }),
            final(self).well_formed(),
    {
        self.input.move_left();
    }

    /// Moves the cursor of the line one character to the right.
    pub fn move_cursor_right(&mut self)
        requires
            old(self).well_formed(),
        ensures
            final(self)@ == (WidgetView { input: moved_right(old(self)@.input), ..old(self)@ }),
            final(self).well_formed(),
    {
        self.input.move_right();
    }

    /// Puts `new_char` into the line at the cursor.
    pub fn enter_char(&mut self, new_char: char)
        requires
            old(self).well_formed(),
        ensures
            final(self)@ == (WidgetView { input: inserted(old(self)@.input, new_char), ..old(self)@ }),
            final(self).well_formed(),
    {
        self.input.insert(new_char);
    }

    /// Takes the character left of the cursor out of the line.
    pub fn delete_char(&mut self)
        requires
            old(self).well_formed(),
        ensures
            final(self)@ == (WidgetView {
                input: deleted_before_cursor(old(self)@.input),
                ..old(self)@
            }),
            final(self).well_formed(),
    {
        self.input.delete_before_cursor();
    }

    /// Moves the cursor of the line to its start.
    pub fn reset_cursor(&mut self)
        ensures
            final(self)@ == (WidgetView {
                input: TextInputView { text: old(self)@.input.text, cursor: 0 },
                ..old(self)@
            }),
            old(self).well_formed() ==> final(self).well_formed(),
    {
        self.input.move_to_start();
    }

    /// A position of the cursor brought within the line.
    pub fn clamp_cursor(&self, new_cursor_pos: usize) -> (pos: usize)
        ensures
            pos == if new_cursor_pos <= self@.input.text.len() {
                new_cursor_pos as int
            } else {
                self@.input.text.len() as int
            },
    {
        let len = self.input.len();
        if new_cursor_pos <= len {
            new_cursor_pos
        } else {
            len
        }
    }

    /// Whether the line is a range of two times of day.
    pub fn timing_format_correct(&self) -> (ok: bool)
        ensures
            ok == input_format_ok(self@),
    {
        let text = self.input.text();
        format_ok(text.as_str())
    }

    /// Whether the range on the line clashes with no range of the chosen
    /// day. While a range is edited, that range is left out of the
    /// comparison.
    pub fn timing_format_no_clash(&self) -> (ok: bool)
        requires
            self.well_formed(),
            input_format_ok(self@),
        ensures
            ok == input_no_clash(self@, self@.current_screen),
    {
        let timing = self.parse_timing_from_input();
        let exclude = if self.current_screen == CurrentScreen::Edit {
            self.timing_selected
        } else {
            None
        };
        no_clash(&timing, self.chosen(), exclude)
    }

    /// The range that the line writes.
    pub fn parse_timing_from_input(&self) -> (timing: Timing)
        requires
            input_format_ok(self@),
        ensures
            timing@ == timing_of_text(self@.input.text),
            timing_valid(timing@),
    {
        let text = self.input.text();
        parse_timing(text.as_str()).unwrap()
    }

    /// The two numbers that the text of a range is compared by.
    pub fn extract_timings_from_input(&self, input: &String) -> (n: (u32, u32))
        requires
            range_text_valid(input@),
        ensures
            n.0 == time_number(input@.subrange(0, 8)),
            n.1 == time_number(input@.subrange(9, 17)),
    {
        extract_timings_from_input(input.as_str())
    }

    /// The day under the selection is chosen, and its ranges are shown.
    fn confirm_weekday(&mut self)
        requires
            old(self).well_formed(),
        ensures
            final(self)@ == confirm_weekday(old(self)@),
    {
        let chosen = self.selection(self.weekday_cursor);
        self.weekday_selected = self.weekday_cursor;
        self.timing_selected = chosen;
        self.current_screen = CurrentScreen::Day;
    }

    /// The range under the selection is chosen, and the operations are
    /// offered.
    fn confirm_timing(&mut self)
        requires
            old(self).well_formed(),
        ensures
            final(self)@ == confirm_timing(old(self)@),
    {
        let chosen = self.selection(self.weekday_selected);
        self.timing_selected = chosen;
        self.current_screen = CurrentScreen::TimingOptions;
    }

    /// The operation under the selection is started.
    fn confirm_operation(&mut self)
        requires
            old(self).well_formed(),
        ensures
            final(self)@ == confirm_operation(old(self)@),
    {
        let op = TimingOp::at(self.op_cursor);
        self.operation_selected = op;
        match op {
            TimingOp::Add => {
                self.input.clear();
                self.current_screen = CurrentScreen::Add;
            },
            TimingOp::Del => {
                self.del_cursor = 0;
                self.current_screen = CurrentScreen::Delete;
            },
            TimingOp::Edit => {
                match self.timing_selected {
                    Some(i) => {
                        let text = self.chosen().get(i).clone().format();
                        self.input = TextInput::with_text(text.as_str());
                        self.current_screen = CurrentScreen::Edit;
                    },
                    None => {
                        let screen = self.current_screen.reverse();
                        self.current_screen = screen;
                        self.previous_screen = screen;
                    },
                }
            },
            TimingOp::Exit => {
                self.current_screen = CurrentScreen::Exit;
            },
        }
    }

    /// The line that was typed on the screen `origin` is committed.
    fn commit(&mut self, origin: CurrentScreen)
        requires
            old(self).well_formed(),
        ensures
            final(self)@ == commit_spec(old(self)@, origin),
    {
        let text = self.input.text();
        let day = Weekday::from_ordinal(self.weekday_selected);
        match parse_timing(text.as_str()) {
            None => {
                self.previous_screen = origin;
                self.error_type = ErrorType::Format;
                self.current_screen = CurrentScreen::Error;
            },
            Some(timing) => {
                let editing = origin == CurrentScreen::Edit;
                let exclude = if editing {
                    self.timing_selected
                } else {
                    None
                };
                if !no_clash(&timing, self.chosen(), exclude) {
                    self.previous_screen = origin;
                    self.error_type = ErrorType::Clash;
                    self.current_screen = CurrentScreen::Error;
                } else {
                    if editing {
                        match self.timing_selected {
                            Some(i) => {
                                self.timings.replace(day, i, timing);
                            },
                            None => {},
                        }
                    } else {
                        self.timings.push(day, timing);
                        if self.timing_selected.is_none() {
                            self.timing_selected = Some(0);
                        }
                    }
                    self.input.clear();
                    self.current_screen = CurrentScreen::TimingOptions;
                    self.previous_screen = CurrentScreen::TimingOptions;
                    assert(self@.timings == old(self)@.timings.update(
                        old(self)@.weekday_selected,
                        day_with_input(old(self)@, origin),
                    ));
                    assert(self@.timing_selected == normalized(
                        old(self)@.timing_selected,
                        day_with_input(old(self)@, origin).len() as int,
                    ));
                }
            },
        }
    }

    /// Typing is given up.
    fn cancel_input(&mut self)
        requires
            old(self).well_formed(),
        ensures
            final(self)@ == cancel_input(old(self)@),
    {
        let screen = self.current_screen.reverse();
        self.current_screen = screen;
        self.previous_screen = screen;
        self.input.clear();
    }

    /// The chosen range is taken out of its day.
    fn delete_chosen(&mut self)
        requires
            old(self).well_formed(),
        ensures
            final(self)@ == delete_chosen(old(self)@),
    {
        match self.timing_selected {
            Some(i) => {
                let d = self.weekday_selected;
                self.timings.remove(Weekday::from_ordinal(d), i);
                let len = self.timings.day(Weekday::from_ordinal(d)).len();
                self.timing_selected = if len == 0 {
                    None
                } else if i >= len {
                    Some(len - 1)
                } else {
                    Some(i)
                };
                let cursor = self.day_cursors[d];
                let moved = if len == 0 {
                    0
                } else if cursor >= len {
                    len - 1
                } else {
                    cursor
                };
                self.day_cursors[d] = moved;
                assert(self@.day_cursors =~= old(self)@.day_cursors.update(d as int, moved as int));
            },
            None => {},
        }
    }

    /// The question before deleting is answered.
    fn confirm_delete(&mut self)
        requires
            old(self).well_formed(),
        ensures
            final(self)@ == confirm_delete(old(self)@),
    {
        if self.del_cursor == 0 {
            self.delete_chosen();
        }
        let screen = self.current_screen.reverse();
        self.current_screen = screen;
        self.previous_screen = screen;
    }

    /// An error message is left.
    fn leave_error(&mut self)
        requires
            old(self).well_formed(),
        ensures
            final(self)@ == leave_error(old(self)@),
    {
        match self.previous_screen {
            CurrentScreen::Add => {
                self.current_screen = CurrentScreen::Add;
            },
            CurrentScreen::Edit => {
                self.current_screen = CurrentScreen::Edit;
            },
            _ => {
                let screen = self.current_screen.reverse();
                self.current_screen = screen;
                self.previous_screen = screen;
            },
        }
    }

    /// The question before leaving is answered.
    fn confirm_exit(&mut self)
        requires
            old(self).well_formed(),
        ensures
            final(self)@ == confirm_exit(old(self)@),
    {
        if self.exit_cursor == 0 {
            self.should_exit = true;
        } else {
            let screen = self.current_screen.reverse();
            self.current_screen = screen;
            self.previous_screen = screen;
        }
    }

    /// What a key does on a screen on which a line is typed.
    fn handle_typing(&mut self, code: KeyCode, origin: CurrentScreen)
        requires
            old(self).well_formed(),
        ensures
            final(self)@ == typing_step(old(self)@, code, origin),
    {
        match code {
            KeyCode::Esc => self.cancel_input(),
            KeyCode::Left => self.input.move_left(),
            KeyCode::Right => self.input.move_right(),
            KeyCode::Backspace => self.input.delete_before_cursor(),
            KeyCode::Char(c) => self.input.insert(c),
            KeyCode::Enter => self.commit(origin),
            _ => {},
        }
    }

    /// What a key does on a screen that shows a list and that "back" and
    /// the keys of the selection act on.
    fn handle_list(&mut self, code: KeyCode)
        requires
            old(self).well_formed(),
        ensures
            final(self)@ == match list_move(code) {
                Some(m) => select_spec(old(self)@, m),
                None => old(self)@,
            },
    {
        match code.list_move() {
            Some(m) => self.select(m),
            None => {},
        }
    }

    /// Takes one key event: the editor goes on as the table of its screens
    /// says. Only a key that goes down counts. What holds of the editor at
    /// all times holds afterwards, and a schedule without clashes stays
    /// without clashes.
    pub fn handle_key(&mut self, key: KeyEvent)
        requires
            old(self).well_formed(),
        ensures
            final(self)@ == step(old(self)@, key),
            final(self).well_formed(),
            week_clash_free(old(self)@.timings) ==> week_clash_free(final(self)@.timings),
    {
        proof {
            lemma_step_keeps_inv(self@, key);
        }
        if key.kind != KeyEventKind::Press {
            return ;
        }
        let code = key.code;
        match self.current_screen {
            CurrentScreen::Weekdays => {
                if code.is_char('q') || code == KeyCode::Left || code == KeyCode::Backspace || code
                    == KeyCode::Esc {
                    self.current_screen = CurrentScreen::Exit;
                } else if code.is_confirm() {
                    self.confirm_weekday();
                } else {
                    self.handle_list(code);
                }
            },
            CurrentScreen::Day => {
                if code.is_char('q') || code == KeyCode::Esc {
                    self.current_screen = CurrentScreen::Exit;
                } else if code.is_char('h') || code == KeyCode::Left || code == KeyCode::Backspace {
                    self.reverse_state();
                } else if code.is_confirm() {
                    self.confirm_timing();
                } else {
                    self.handle_list(code);
                }
            },
            CurrentScreen::TimingOptions => {
                if code.is_char('q') || code == KeyCode::Esc || code.is_char('h') || code
                    == KeyCode::Left || code == KeyCode::Backspace {
                    self.reverse_state();
                } else if code.is_confirm() {
                    self.confirm_operation();
                } else {
                    self.handle_list(code);
                }
            },
            CurrentScreen::Add => self.handle_typing(code, CurrentScreen::Add),
            CurrentScreen::Edit => self.handle_typing(code, CurrentScreen::Edit),
            CurrentScreen::Delete => {
                if code == KeyCode::Esc || code == KeyCode::Backspace {
                    self.reverse_state();
                } else if code.is_confirm() {
                    self.confirm_delete();
                } else {
                    self.handle_list(code);
                }
            },
            CurrentScreen::Error => self.leave_error(),
            CurrentScreen::Exit => {
                if code == KeyCode::Esc || code == KeyCode::Backspace || code.is_char('h') || code
                    == KeyCode::Left {
                    self.reverse_state();
                } else if code.is_confirm() {
                    self.confirm_exit();
                } else {
                    self.handle_list(code);
                }
            },
        }
    }
}

} // verus!