use mediatimer::schedule::{default_timings, Weekday, WeekSchedule};
use mediatimer::screen::{CurrentScreen, ErrorType, KeyCode, KeyEvent, KeyEventKind, ListMove, TimingOp};
use mediatimer::timing::Timing;
use mediatimer::widget::{move_index, TimingsWidget};

fn press(widget: &mut TimingsWidget, code: KeyCode) {
    widget.handle_key(KeyEvent::press(code));
}

fn type_text(widget: &mut TimingsWidget, text: &str) {
    for c in text.chars() {
        press(widget, KeyCode::Char(c));
    }
}

fn monday(widget: &TimingsWidget) -> Vec<String> {
    let day = widget.timings().day(Weekday::Monday);
    (0..day.len()).map(|i| day.get(i).clone().format()).collect()
}

/// An editor on a week in which only Tuesday has a range, so that Monday
/// is empty and the week is still taken as it is.
fn with_empty_monday() -> TimingsWidget {
    let mut week = WeekSchedule::new();
    week.push(Weekday::Tuesday, Timing::new("01:00:00", "02:00:00"));
    TimingsWidget::new(week)
}

/// From the list of days to the operations of Monday.
fn open_monday(widget: &mut TimingsWidget) {
    assert_eq!(widget.current_screen(), CurrentScreen::Weekdays);
    press(widget, KeyCode::Enter);
    assert_eq!(widget.current_screen(), CurrentScreen::Day);
    press(widget, KeyCode::Enter);
    assert_eq!(widget.current_screen(), CurrentScreen::TimingOptions);
}

#[test]
fn check_reverse_state() {
    let mut t_widget = TimingsWidget::default();
    // current state is CurrentScreen::Weekdays
    t_widget.set_current_screen(CurrentScreen::Day);
    t_widget.reverse_state();
    // state should now be CurrentScreen::Weekdays

    assert!(t_widget.current_screen() == CurrentScreen::Weekdays);

    // set state to CurrentScreen::TimingOptions
    t_widget.set_current_screen(CurrentScreen::TimingOptions);
    t_widget.reverse_state();

    assert!(t_widget.current_screen() == CurrentScreen::Day);

    t_widget.set_current_screen(CurrentScreen::Add);
    t_widget.reverse_state();
    assert!(t_widget.current_screen() == CurrentScreen::TimingOptions);

    t_widget.set_current_screen(CurrentScreen::Edit);
    t_widget.reverse_state();
    assert!(t_widget.current_screen() == CurrentScreen::TimingOptions);

    t_widget.set_current_screen(CurrentScreen::Delete);
    t_widget.reverse_state();
    assert!(t_widget.current_screen() == CurrentScreen::Day);

    t_widget.set_current_screen(CurrentScreen::Error);
    t_widget.reverse_state();
    assert!(t_widget.current_screen() == CurrentScreen::TimingOptions);

    t_widget.set_current_screen(CurrentScreen::Exit);
    t_widget.reverse_state();
    assert!(t_widget.current_screen() == CurrentScreen::Weekdays);
}

#[test]
fn reverse_state_on_the_first_screen_stays() {
    let mut widget = TimingsWidget::default();
    widget.reverse_state();
    assert_eq!(widget.current_screen(), CurrentScreen::Weekdays);
    assert_eq!(widget.previous_screen(), CurrentScreen::Weekdays);
    assert_eq!(CurrentScreen::Day.reverse(), CurrentScreen::Weekdays);
    assert_eq!(CurrentScreen::Error.reverse(), CurrentScreen::TimingOptions);
}

#[test]
fn the_editor_starts_on_the_list_of_days() {
    let widget = TimingsWidget::default();
    assert_eq!(widget.current_screen(), CurrentScreen::Weekdays);
    assert!(!widget.should_exit());
    assert_eq!(widget.input(), "");
    assert_eq!(widget.character_index(), 0);
    assert_eq!(widget.weekday_selected(), 0);
    assert_eq!(widget.timing_selected(), Some(0));
    assert_eq!(widget.cursor(), 0);
    assert_eq!(widget.timings(), &WeekSchedule::default());
    assert_eq!(monday(&widget), vec!["09:00:00-17:00:00"]);
}

#[test]
fn a_week_without_ranges_gives_way_to_the_seed() {
    let widget = TimingsWidget::new(default_timings());
    assert_eq!(widget.timings(), &WeekSchedule::default());
    let kept = with_empty_monday();
    assert_eq!(monday(&kept), Vec::<String>::new());
    assert_eq!(kept.timing_selected(), None);
    assert_eq!(kept.timings().day(Weekday::Tuesday).len(), 1);
}

#[test]
fn add_then_clash_end_to_end() {
    let mut widget = with_empty_monday();
    open_monday(&mut widget);
    assert_eq!(widget.timing_selected(), None);
    // the first operation is Add
    press(&mut widget, KeyCode::Enter);
    assert_eq!(widget.current_screen(), CurrentScreen::Add);
    assert_eq!(widget.operation_selected(), TimingOp::Add);
    type_text(&mut widget, "09:00:00-10:00:00");
    assert_eq!(widget.input(), "09:00:00-10:00:00");
    press(&mut widget, KeyCode::Enter);
    assert_eq!(widget.current_screen(), CurrentScreen::TimingOptions);
    assert_eq!(monday(&widget), vec!["09:00:00-10:00:00"]);
    assert_eq!(widget.input(), "");
    assert_eq!(widget.timing_selected(), Some(0));

    press(&mut widget, KeyCode::Enter);
    assert_eq!(widget.current_screen(), CurrentScreen::Add);
    type_text(&mut widget, "09:30:00-09:45:00");
    press(&mut widget, KeyCode::Enter);
    assert_eq!(widget.current_screen(), CurrentScreen::Error);
    assert_eq!(widget.error_type(), ErrorType::Clash);
    assert_eq!(monday(&widget), vec!["09:00:00-10:00:00"]);

    // any key leads back to the line, which is as it was
    press(&mut widget, KeyCode::Other);
    assert_eq!(widget.current_screen(), CurrentScreen::Add);
    assert_eq!(widget.input(), "09:30:00-09:45:00");
    assert_eq!(widget.character_index(), 17);
    assert_eq!(monday(&widget), vec!["09:00:00-10:00:00"]);
}

#[test]
fn a_wrong_format_is_turned_down_before_the_clash_is_looked_at() {
    let mut widget = TimingsWidget::default();
    open_monday(&mut widget);
    press(&mut widget, KeyCode::Enter);
    type_text(&mut widget, "10:00-11:00");
    press(&mut widget, KeyCode::Enter);
    assert_eq!(widget.current_screen(), CurrentScreen::Error);
    assert_eq!(widget.error_type(), ErrorType::Format);
    assert_eq!(widget.previous_screen(), CurrentScreen::Add);
    assert_eq!(monday(&widget), vec!["09:00:00-17:00:00"]);
    press(&mut widget, KeyCode::Esc);
    assert_eq!(widget.current_screen(), CurrentScreen::Add);
    assert_eq!(widget.input(), "10:00-11:00");
    // there is no limit on the tries
    for _ in 0..3 {
        press(&mut widget, KeyCode::Enter);
        assert_eq!(widget.current_screen(), CurrentScreen::Error);
        press(&mut widget, KeyCode::Char('x'));
        assert_eq!(widget.current_screen(), CurrentScreen::Add);
        assert_eq!(widget.input(), "10:00-11:00");
    }
    // the line can be mended and then goes in
    for _ in 0..11 {
        press(&mut widget, KeyCode::Backspace);
    }
    type_text(&mut widget, "18:00:00-19:00:00");
    press(&mut widget, KeyCode::Enter);
    assert_eq!(widget.current_screen(), CurrentScreen::TimingOptions);
    assert_eq!(monday(&widget), vec!["09:00:00-17:00:00", "18:00:00-19:00:00"]);
}

#[test]
fn an_hour_of_24_is_a_format_error() {
    let mut widget = TimingsWidget::default();
    open_monday(&mut widget);
    press(&mut widget, KeyCode::Enter);
    type_text(&mut widget, "24:00:00-25:00:00");
    press(&mut widget, KeyCode::Enter);
    assert_eq!(widget.error_type(), ErrorType::Format);
    assert_eq!(widget.current_screen(), CurrentScreen::Error);
}

#[test]
fn cancel_drops_the_line() {
    let mut widget = TimingsWidget::default();
    open_monday(&mut widget);
    press(&mut widget, KeyCode::Enter);
    type_text(&mut widget, "18:00:00-19:00:00");
    press(&mut widget, KeyCode::Esc);
    assert_eq!(widget.current_screen(), CurrentScreen::TimingOptions);
    assert_eq!(widget.input(), "");
    assert_eq!(monday(&widget), vec!["09:00:00-17:00:00"]);
    // adding starts on an empty line
    press(&mut widget, KeyCode::Enter);
    assert_eq!(widget.current_screen(), CurrentScreen::Add);
    assert_eq!(widget.input(), "");
}

#[test]
fn while_typing_the_letters_are_text_and_the_arrows_move_the_cursor() {
    let mut widget = TimingsWidget::default();
    open_monday(&mut widget);
    press(&mut widget, KeyCode::Enter);
    type_text(&mut widget, "qhjklgG");
    assert_eq!(widget.current_screen(), CurrentScreen::Add);
    assert_eq!(widget.input(), "qhjklgG");
    press(&mut widget, KeyCode::Left);
    press(&mut widget, KeyCode::Left);
    assert_eq!(widget.character_index(), 5);
    press(&mut widget, KeyCode::Backspace);
    assert_eq!(widget.input(), "qhjkgG");
    assert_eq!(widget.character_index(), 4);
    press(&mut widget, KeyCode::Right);
    press(&mut widget, KeyCode::Right);
    press(&mut widget, KeyCode::Right);
    assert_eq!(widget.character_index(), 6);
    press(&mut widget, KeyCode::Up);
    press(&mut widget, KeyCode::Home);
    assert_eq!(widget.input(), "qhjkgG");
    assert_eq!(widget.character_index(), 6);
}

#[test]
fn edit_starts_on_the_text_of_the_range_and_replaces_it() {
    let mut widget = TimingsWidget::default();
    open_monday(&mut widget);
    press(&mut widget, KeyCode::Down);
    press(&mut widget, KeyCode::Down);
    press(&mut widget, KeyCode::Enter);
    assert_eq!(widget.current_screen(), CurrentScreen::Edit);
    assert_eq!(widget.operation_selected(), TimingOp::Edit);
    assert_eq!(widget.input(), "09:00:00-17:00:00");
    assert_eq!(widget.character_index(), 17);
    // the range does not clash with itself
    press(&mut widget, KeyCode::Enter);
    assert_eq!(widget.current_screen(), CurrentScreen::TimingOptions);
    assert_eq!(monday(&widget), vec!["09:00:00-17:00:00"]);

    press(&mut widget, KeyCode::Enter);
    assert_eq!(widget.current_screen(), CurrentScreen::Edit);
    for _ in 0..8 {
        press(&mut widget, KeyCode::Backspace);
    }
    type_text(&mut widget, "12:30:00");
    press(&mut widget, KeyCode::Enter);
    assert_eq!(widget.current_screen(), CurrentScreen::TimingOptions);
    assert_eq!(monday(&widget), vec!["09:00:00-12:30:00"]);
    assert_eq!(widget.input(), "");
}

#[test]
fn edit_is_held_against_the_other_ranges() {
    let mut week = WeekSchedule::new();
    week.push(Weekday::Monday, Timing::new("09:00:00", "10:00:00"));
    week.push(Weekday::Monday, Timing::new("11:00:00", "12:00:00"));
    week.push(Weekday::Monday, Timing::new("13:00:00", "14:00:00"));
    let mut widget = TimingsWidget::new(week);
    press(&mut widget, KeyCode::Enter);
    // the first range of the list is chosen
    press(&mut widget, KeyCode::Enter);
    assert_eq!(widget.timing_selected(), Some(0));
    press(&mut widget, KeyCode::Char('j'));
    press(&mut widget, KeyCode::Char('j'));
    press(&mut widget, KeyCode::Char('l'));
    assert_eq!(widget.current_screen(), CurrentScreen::Edit);
    for _ in 0..17 {
        press(&mut widget, KeyCode::Backspace);
    }
    type_text(&mut widget, "09:00:00-13:30:00");
    press(&mut widget, KeyCode::Enter);
    assert_eq!(widget.current_screen(), CurrentScreen::Error);
    assert_eq!(widget.error_type(), ErrorType::Clash);
    assert_eq!(widget.previous_screen(), CurrentScreen::Edit);
    assert_eq!(
        monday(&widget),
        vec!["09:00:00-10:00:00", "11:00:00-12:00:00", "13:00:00-14:00:00"]
    );
    press(&mut widget, KeyCode::Enter);
    assert_eq!(widget.current_screen(), CurrentScreen::Edit);
    assert_eq!(widget.input(), "09:00:00-13:30:00");
}

#[test]
fn edit_of_an_empty_day_leads_back_to_the_day() {
    let mut widget = with_empty_monday();
    open_monday(&mut widget);
    press(&mut widget, KeyCode::Down);
    press(&mut widget, KeyCode::Down);
    assert_eq!(widget.cursor(), 2);
    press(&mut widget, KeyCode::Enter);
    assert_eq!(widget.current_screen(), CurrentScreen::Day);
    assert_eq!(widget.operation_selected(), TimingOp::Edit);
    assert_eq!(monday(&widget), Vec::<String>::new());
}

#[test]
fn deleting_the_only_range_empties_the_day() {
    let mut widget = TimingsWidget::default();
    open_monday(&mut widget);
    press(&mut widget, KeyCode::Down);
    press(&mut widget, KeyCode::Enter);
    assert_eq!(widget.current_screen(), CurrentScreen::Delete);
    // the question starts on yes
    assert_eq!(widget.cursor(), 0);
    press(&mut widget, KeyCode::Enter);
    assert_eq!(widget.current_screen(), CurrentScreen::Day);
    assert_eq!(monday(&widget), Vec::<String>::new());
    assert_eq!(widget.timing_selected(), None);
    // the other days are as they were
    assert_eq!(widget.timings().day(Weekday::Tuesday).len(), 1);

    // deleting from the empty day changes nothing; the list of operations
    // still stands on Delete
    press(&mut widget, KeyCode::Enter);
    assert_eq!(widget.current_screen(), CurrentScreen::TimingOptions);
    assert_eq!(widget.cursor(), 1);
    press(&mut widget, KeyCode::Enter);
    assert_eq!(widget.current_screen(), CurrentScreen::Delete);
    press(&mut widget, KeyCode::Enter);
    assert_eq!(widget.current_screen(), CurrentScreen::Day);
    assert_eq!(monday(&widget), Vec::<String>::new());
    assert_eq!(widget.timings().day(Weekday::Tuesday).len(), 1);
}

#[test]
fn delete_answered_with_no_keeps_the_range() {
    let mut widget = TimingsWidget::default();
    open_monday(&mut widget);
    press(&mut widget, KeyCode::Down);
    press(&mut widget, KeyCode::Enter);
    press(&mut widget, KeyCode::Down);
    assert_eq!(widget.cursor(), 1);
    press(&mut widget, KeyCode::Down);
    assert_eq!(widget.cursor(), 1);
    press(&mut widget, KeyCode::Enter);
    assert_eq!(widget.current_screen(), CurrentScreen::Day);
    assert_eq!(monday(&widget), vec!["09:00:00-17:00:00"]);
    // and so does going back
    press(&mut widget, KeyCode::Enter);
    press(&mut widget, KeyCode::Enter);
    assert_eq!(widget.current_screen(), CurrentScreen::Delete);
    assert_eq!(widget.cursor(), 0);
    press(&mut widget, KeyCode::Backspace);
    assert_eq!(widget.current_screen(), CurrentScreen::Day);
    assert_eq!(monday(&widget), vec!["09:00:00-17:00:00"]);
}

#[test]
fn the_range_is_chosen_as_it_is_shown() {
    let mut week = WeekSchedule::new();
    week.push(Weekday::Monday, Timing::new("13:00:00", "14:00:00"));
    week.push(Weekday::Monday, Timing::new("09:00:00", "10:00:00"));
    week.push(Weekday::Monday, Timing::new("11:00:00", "12:00:00"));
    let mut widget = TimingsWidget::new(week);
    press(&mut widget, KeyCode::Enter);
    // shown first is the range that starts first: the second one stored
    press(&mut widget, KeyCode::Enter);
    assert_eq!(widget.timing_selected(), Some(1));
    press(&mut widget, KeyCode::Left);
    assert_eq!(widget.current_screen(), CurrentScreen::Day);
    press(&mut widget, KeyCode::End);
    assert_eq!(widget.cursor(), 2);
    press(&mut widget, KeyCode::Enter);
    assert_eq!(widget.timing_selected(), Some(0));
    // delete it: what was stored behind it moves up
    press(&mut widget, KeyCode::Down);
    press(&mut widget, KeyCode::Enter);
    press(&mut widget, KeyCode::Enter);
    assert_eq!(monday(&widget), vec!["09:00:00-10:00:00", "11:00:00-12:00:00"]);
    assert_eq!(widget.current_screen(), CurrentScreen::Day);
    // the selection of the list follows its new length
    assert_eq!(widget.cursor(), 1);
    assert_eq!(widget.timing_selected(), Some(0));
}

#[test]
fn selections_stay_within_their_lists() {
    let mut widget = TimingsWidget::default();
    for expected in [1, 2, 3, 4, 5, 6, 6, 6] {
        press(&mut widget, KeyCode::Down);
        assert_eq!(widget.cursor(), expected);
        assert_eq!(widget.weekday_cursor(), expected);
    }
    press(&mut widget, KeyCode::Char('g'));
    assert_eq!(widget.cursor(), 0);
    press(&mut widget, KeyCode::Up);
    assert_eq!(widget.cursor(), 0);
    press(&mut widget, KeyCode::Char('G'));
    assert_eq!(widget.cursor(), 6);
    press(&mut widget, KeyCode::Char('k'));
    assert_eq!(widget.cursor(), 5);
    press(&mut widget, KeyCode::Enter);
    assert_eq!(widget.weekday_selected(), 5);
    assert_eq!(widget.current_screen(), CurrentScreen::Day);
    press(&mut widget, KeyCode::Down);
    assert_eq!(widget.cursor(), 0);
    press(&mut widget, KeyCode::Enter);
    for expected in [1, 2, 3, 3] {
        widget.select_next();
        assert_eq!(widget.cursor(), expected);
    }
    widget.select_previous();
    assert_eq!(widget.cursor(), 2);
    widget.select_first();
    assert_eq!(widget.cursor(), 0);
    widget.select_last();
    assert_eq!(widget.cursor(), 3);
}

#[test]
fn move_index_by_case() {
    assert_eq!(move_index(0, 0, ListMove::Next), 0);
    assert_eq!(move_index(0, 0, ListMove::Last), 0);
    assert_eq!(move_index(0, 3, ListMove::Next), 1);
    assert_eq!(move_index(2, 3, ListMove::Next), 2);
    assert_eq!(move_index(9, 3, ListMove::Next), 2);
    assert_eq!(move_index(9, 3, ListMove::Previous), 2);
    assert_eq!(move_index(2, 3, ListMove::Previous), 1);
    assert_eq!(move_index(0, 3, ListMove::Previous), 0);
    assert_eq!(move_index(2, 3, ListMove::First), 0);
    assert_eq!(move_index(0, 3, ListMove::Last), 2);
    assert_eq!(move_index(usize::MAX, usize::MAX, ListMove::Next), usize::MAX - 1);
}

#[test]
fn only_a_key_that_goes_down_counts() {
    let mut widget = TimingsWidget::default();
    widget.handle_key(KeyEvent { code: KeyCode::Enter, kind: KeyEventKind::Release });
    assert_eq!(widget.current_screen(), CurrentScreen::Weekdays);
    widget.handle_key(KeyEvent { code: KeyCode::Enter, kind: KeyEventKind::Repeat });
    assert_eq!(widget.current_screen(), CurrentScreen::Weekdays);
    widget.handle_key(KeyEvent { code: KeyCode::Enter, kind: KeyEventKind::Press });
    assert_eq!(widget.current_screen(), CurrentScreen::Day);
}

#[test]
fn leaving_the_editor() {
    let mut widget = TimingsWidget::default();
    press(&mut widget, KeyCode::Esc);
    assert_eq!(widget.current_screen(), CurrentScreen::Exit);
    // no leads back to the days
    press(&mut widget, KeyCode::Down);
    press(&mut widget, KeyCode::Enter);
    assert_eq!(widget.current_screen(), CurrentScreen::Weekdays);
    assert!(!widget.should_exit());
    press(&mut widget, KeyCode::Char('q'));
    assert_eq!(widget.current_screen(), CurrentScreen::Exit);
    press(&mut widget, KeyCode::Char('h'));
    assert_eq!(widget.current_screen(), CurrentScreen::Weekdays);
    press(&mut widget, KeyCode::Backspace);
    press(&mut widget, KeyCode::Up);
    assert_eq!(widget.cursor(), 0);
    press(&mut widget, KeyCode::Right);
    assert!(widget.should_exit());
    assert_eq!(widget.compile_schedule(), WeekSchedule::default());
}

#[test]
fn the_ways_between_the_screens() {
    let mut widget = TimingsWidget::default();
    press(&mut widget, KeyCode::Right);
    assert_eq!(widget.current_screen(), CurrentScreen::Day);
    press(&mut widget, KeyCode::Esc);
    assert_eq!(widget.current_screen(), CurrentScreen::Exit);
    press(&mut widget, KeyCode::Left);
    press(&mut widget, KeyCode::Char('l'));
    press(&mut widget, KeyCode::Char('h'));
    assert_eq!(widget.current_screen(), CurrentScreen::Weekdays);
    open_monday(&mut widget);
    press(&mut widget, KeyCode::Esc);
    assert_eq!(widget.current_screen(), CurrentScreen::Day);
    press(&mut widget, KeyCode::Enter);
    press(&mut widget, KeyCode::End);
    press(&mut widget, KeyCode::Enter);
    assert_eq!(widget.operation_selected(), TimingOp::Exit);
    assert_eq!(widget.current_screen(), CurrentScreen::Exit);
    press(&mut widget, KeyCode::Other);
    assert_eq!(widget.current_screen(), CurrentScreen::Exit);
}

#[test]
fn operation_names() {
    assert_eq!(TimingOp::Add.as_str(), "Add");
    assert_eq!(TimingOp::Del.as_str(), "Delete");
    assert_eq!(TimingOp::Edit.as_str(), "Edit");
    assert_eq!(TimingOp::Exit.as_str(), "Exit");
    assert_eq!(TimingOp::Add.as_vec_of_str(), vec!["Add", "Delete", "Edit", "Exit"]);
    assert_eq!(TimingOp::at(0), TimingOp::Add);
    assert_eq!(TimingOp::at(1), TimingOp::Del);
    assert_eq!(TimingOp::at(2), TimingOp::Edit);
    assert_eq!(TimingOp::at(3), TimingOp::Exit);
    assert_eq!(TimingOp::at(4), TimingOp::Add);
}

#[test]
fn helpers_of_the_line() {
    let mut widget = TimingsWidget::default();
    widget.set_input("abc");
    assert_eq!(widget.clamp_cursor(2), 2);
    assert_eq!(widget.clamp_cursor(3), 3);
    assert_eq!(widget.clamp_cursor(90), 3);
    widget.move_cursor_left();
    widget.enter_char('x');
    assert_eq!(widget.input(), "abxc");
    widget.move_cursor_right();
    widget.move_cursor_right();
    assert_eq!(widget.character_index(), 4);
    widget.delete_char();
    assert_eq!(widget.input(), "abx");
    widget.reset_cursor();
    assert_eq!(widget.character_index(), 0);
    assert_eq!(widget.input(), "abx");
    widget.delete_char();
    assert_eq!(widget.input(), "abx");
}

#[test]
fn whatever_is_typed_the_schedule_stays_valid_and_free_of_clashes() {
    let keys = [
        KeyCode::Enter,
        KeyCode::Enter,
        KeyCode::Enter,
        KeyCode::Down,
        KeyCode::Up,
        KeyCode::Left,
        KeyCode::Right,
        KeyCode::Backspace,
        KeyCode::Esc,
        KeyCode::Home,
        KeyCode::End,
        KeyCode::Other,
        KeyCode::Char('0'),
        KeyCode::Char('1'),
        KeyCode::Char('2'),
        KeyCode::Char('5'),
        KeyCode::Char(':'),
        KeyCode::Char('-'),
        KeyCode::Char('j'),
        KeyCode::Char('l'),
    ];
    let ranges = [
        "00:00:00-00:30:00",
        "06:00:00-07:00:00",
        "06:30:00-06:45:00",
        "09:00:00-17:00:00",
        "17:00:00-18:00:00",
        "20:00:00-19:00:00",
        "23:00:00-23:59:59",
        "25:00:00-26:00:00",
    ];
    let mut widget = TimingsWidget::default();
    let mut seed: u64 = 20240229;
    let mut commits = 0;
    for _ in 0..20000 {
        seed = seed.wrapping_mul(6364136223846793005).wrapping_add(1442695040888963407);
        let pick = (seed >> 33) as usize;
        let typing = widget.current_screen() == CurrentScreen::Add
            || widget.current_screen() == CurrentScreen::Edit;
        if typing && pick % 3 == 0 {
            // now and then a whole range is put on the line and committed
            widget.set_input(ranges[(pick / 3) % ranges.len()]);
            press(&mut widget, KeyCode::Enter);
            commits += 1;
        } else {
            press(&mut widget, keys[pick % keys.len()]);
        }
        if widget.should_exit() {
            widget = TimingsWidget::new(widget.compile_schedule());
        }
        assert!(widget.timings().is_valid());
        assert!(widget.timings().is_clash_free());
        assert!(widget.character_index() <= widget.input().chars().count());
        let day = widget.timings().day(Weekday::from_ordinal(widget.weekday_selected()));
        match widget.timing_selected() {
            Some(index) => assert!(index < day.len()),
            None => assert!(day.is_empty()),
        }
        if widget.current_screen() == CurrentScreen::Edit {
            assert!(!day.is_empty());
        }
    }
    assert!(commits > 100);
}
