use mediatimer::day::TimingCollection;
use mediatimer::schedule::{default_timings, Weekday, WeekSchedule};
use mediatimer::timing::Timing;
use mediatimer::vars::{export_schedule, import_schedule, key_of_day, to_weekday};
use mediatimer::wizard::{log_error, log_info, log_warn, AdvancedSchedule, Autoloop, ProcType, Reboot};

fn day_of(pairs: &[(&str, &str)]) -> TimingCollection {
    let schedule: Vec<(String, String)> =
        pairs.iter().map(|(start, end)| (start.to_string(), end.to_string())).collect();
    TimingCollection::from_common_schedule(&schedule)
}

fn sample_week() -> WeekSchedule {
    let mut week = WeekSchedule::new();
    week.set_day(Weekday::Monday, day_of(&[("10:00:00", "11:00:00")]));
    week.set_day(
        Weekday::Friday,
        day_of(&[("15:30:00", "16:45:00"), ("18:00:00", "19:30:00")]),
    );
    week
}

#[test]
fn check_to_weekday() {
    let weekday = to_weekday("");
    assert_eq!(weekday, TimingCollection::new());

    let weekday = to_weekday("10:00:00-11:00:00");
    let schedule = vec![(String::from("10:00:00"), String::from("11:00:00"))];
    assert_eq!(weekday, TimingCollection::from_common_schedule(&schedule));

    let weekday = to_weekday("10:00:00-11:00:00,11:00:01-12:12:12");
    let schedule = vec![
        (String::from("10:00:00"), String::from("11:00:00")),
        (String::from("11:00:01"), String::from("12:12:12")),
    ];
    assert_eq!(weekday, TimingCollection::from_common_schedule(&schedule));

    let weekday = to_weekday(" 10:00:00-11:00:00 , 11:00:01-12:12:12");
    let schedule = vec![
        (String::from("10:00:00"), String::from("11:00:00")),
        (String::from("11:00:01"), String::from("12:12:12")),
    ];
    assert_eq!(weekday, TimingCollection::from_common_schedule(&schedule));
}

#[test]
fn check_export_schedule() {
    let timings = sample_week();
    let text = export_schedule(&timings);
    let lines: Vec<String> = text.lines().map(|line| line.to_string()).collect();
    assert!(
        lines.contains(&"MT_MONDAY=10:00:00-11:00:00".to_string()),
        "Missing or incorrect Monday schedule"
    );
    assert!(
        lines.contains(&"MT_FRIDAY=15:30:00-16:45:00,18:00:00-19:30:00".to_string()),
        "Missing or incorrect Friday schedule"
    );
}

#[test]
fn check_import_schedule() {
    // the text of a week whose Friday holds a range that is no range
    let mut text = String::new();
    text.push_str("MT_MONDAY=10:00:00-11:00:00\n");
    text.push_str("MT_TUESDAY=\n");
    text.push_str("MT_WEDNESDAY=\n");
    text.push_str("MT_THURSDAY=\n");
    text.push_str("MT_FRIDAY=15:30:00-16:45:00,18:00-19:30:00\n");
    text.push_str("MT_SATURDAY=\n");
    text.push_str("MT_SUNDAY=\n");
    let imported_schedule = import_schedule(&text);
    assert_eq!(
        imported_schedule.monday,
        day_of(&[("10:00:00", "11:00:00")])
    );
    // the day that cannot be read has no range, and the rest is read
    assert_eq!(imported_schedule.friday, TimingCollection::new());
    assert!(imported_schedule.is_valid());
}

#[test]
fn export_writes_the_seven_days_in_order() {
    assert_eq!(
        export_schedule(&sample_week()),
        "MT_MONDAY=10:00:00-11:00:00\n\
         MT_TUESDAY=\n\
         MT_WEDNESDAY=\n\
         MT_THURSDAY=\n\
         MT_FRIDAY=15:30:00-16:45:00,18:00:00-19:30:00\n\
         MT_SATURDAY=\n\
         MT_SUNDAY=\n"
    );
    assert_eq!(
        export_schedule(&default_timings()),
        "MT_MONDAY=\nMT_TUESDAY=\nMT_WEDNESDAY=\nMT_THURSDAY=\nMT_FRIDAY=\nMT_SATURDAY=\nMT_SUNDAY=\n"
    );
}

#[test]
fn export_writes_whatever_the_ranges_hold() {
    let mut week = WeekSchedule::new();
    week.push(Weekday::Monday, Timing::new("10:00", "11:00"));
    week.push(Weekday::Friday, Timing::new("15:30", "16:45"));
    week.push(Weekday::Friday, Timing::new("18:00", "19:30"));
    let text = export_schedule(&week);
    let lines: Vec<&str> = text.lines().collect();
    assert!(lines.contains(&"MT_MONDAY=10:00-11:00"));
    assert!(lines.contains(&"MT_FRIDAY=15:30-16:45,18:00-19:30"));
    for day in ["TUESDAY", "WEDNESDAY", "THURSDAY", "SATURDAY", "SUNDAY"] {
        assert!(lines.contains(&format!("MT_{}=", day).as_str()), "Missing {} schedule", day);
    }
}

#[test]
fn import_reads_back_what_export_wrote() {
    let week = sample_week();
    let text = export_schedule(&week);
    let read = import_schedule(&text);
    assert_eq!(read, week);
    assert_eq!(export_schedule(&read), text);

    let seed = WeekSchedule::default();
    let text = export_schedule(&seed);
    assert_eq!(import_schedule(&text), seed);
    assert_eq!(export_schedule(&import_schedule(&text)), text);
}

#[test]
fn import_keeps_the_order_of_the_ranges() {
    let read = import_schedule("MT_SUNDAY=13:00:00-14:00:00,09:00:00-10:00:00\n");
    assert_eq!(
        read.sunday,
        day_of(&[("13:00:00", "14:00:00"), ("09:00:00", "10:00:00")])
    );
    assert_eq!(read.day(Weekday::Sunday).display_order(), vec![1, 0]);
}

#[test]
fn import_takes_the_last_line_of_a_day() {
    let read = import_schedule(
        "MT_MONDAY=10:00:00-11:00:00\nMT_TUESDAY=01:00:00-02:00:00\nMT_MONDAY=12:00:00-13:00:00\n",
    );
    assert_eq!(read.monday, day_of(&[("12:00:00", "13:00:00")]));
    assert_eq!(read.tuesday, day_of(&[("01:00:00", "02:00:00")]));
    let emptied = import_schedule("MT_MONDAY=10:00:00-11:00:00\nMT_MONDAY=\n");
    assert_eq!(emptied, default_timings());
}

#[test]
fn import_passes_over_what_is_no_line_of_a_day() {
    let read = import_schedule(
        "MT_PROCTYPE=\"video\"\n\nno equals sign here\nMT_MONDAY\nMT_monday=10:00:00-11:00:00\n\
         MT_FILE=\"/a=b\"\nMT_WEDNESDAY=10:00:00-11:00:00",
    );
    let mut expected = WeekSchedule::new();
    expected.push(Weekday::Wednesday, Timing::new("10:00:00", "11:00:00"));
    assert_eq!(read, expected);
    assert_eq!(import_schedule(""), default_timings());
    assert_eq!(import_schedule("\n\n"), default_timings());
}

#[test]
fn import_gives_a_day_that_cannot_be_read_no_range() {
    for value in [
        "10:00-11:00",
        "10:00:00-11:00:00,",
        ",10:00:00-11:00:00",
        "10:00:00-11:00:00,,12:00:00-13:00:00",
        "10:00:00-11:00:00;12:00:00-13:00:00",
        "10:00:00-24:00:00",
        "10:00:00 - 11:00:00",
        "\"10:00:00-11:00:00\"",
        "10:00:00-11:00:00,ten-four",
    ] {
        assert_eq!(to_weekday(value), TimingCollection::new(), "{}", value);
        let text = format!("MT_TUESDAY=09:00:00-10:00:00\nMT_MONDAY={}\n", value);
        let read = import_schedule(&text);
        assert_eq!(read.monday, TimingCollection::new(), "{}", value);
        assert_eq!(read.tuesday, day_of(&[("09:00:00", "10:00:00")]));
    }
}

#[test]
fn import_drops_blanks_around_a_range() {
    let read = import_schedule("MT_MONDAY=\t10:00:00-11:00:00 ,\x0B11:00:01-12:12:12\x0C\r\nMT_TUESDAY= \r\n");
    assert_eq!(
        read.monday,
        day_of(&[("10:00:00", "11:00:00"), ("11:00:01", "12:12:12")])
    );
    assert_eq!(read.tuesday, TimingCollection::new());
    // a space that is no ASCII blank stays, and the range is none
    assert_eq!(to_weekday("\u{a0}10:00:00-11:00:00"), TimingCollection::new());
}

#[test]
fn keys_of_the_days() {
    assert_eq!(key_of_day(Weekday::Monday), "MT_MONDAY");
    assert_eq!(key_of_day(Weekday::Tuesday), "MT_TUESDAY");
    assert_eq!(key_of_day(Weekday::Wednesday), "MT_WEDNESDAY");
    assert_eq!(key_of_day(Weekday::Thursday), "MT_THURSDAY");
    assert_eq!(key_of_day(Weekday::Friday), "MT_FRIDAY");
    assert_eq!(key_of_day(Weekday::Saturday), "MT_SATURDAY");
    assert_eq!(key_of_day(Weekday::Sunday), "MT_SUNDAY");
}

#[test]
fn days_of_the_week() {
    let days = [
        (Weekday::Monday, "Monday"),
        (Weekday::Tuesday, "Tuesday"),
        (Weekday::Wednesday, "Wednesday"),
        (Weekday::Thursday, "Thursday"),
        (Weekday::Friday, "Friday"),
        (Weekday::Saturday, "Saturday"),
        (Weekday::Sunday, "Sunday"),
    ];
    for (index, (day, name)) in days.iter().enumerate() {
        assert_eq!(day.ordinal(), index);
        assert_eq!(Weekday::from_ordinal(index), *day);
        assert_eq!(day.as_str(), *name);
        assert_eq!(day.to_string(), *name);
    }
    assert_eq!(Weekday::from_ordinal(7), Weekday::Sunday);
}

#[test]
fn week_mutations_touch_one_day() {
    let mut week = WeekSchedule::default();
    assert!(week.has_timings());
    assert!(!default_timings().has_timings());
    week.push(Weekday::Wednesday, Timing::new("18:00:00", "19:00:00"));
    week.replace(Weekday::Wednesday, 0, Timing::new("08:00:00", "09:00:00"));
    week.remove(Weekday::Thursday, 0);
    week.remove(Weekday::Thursday, 0);
    week.remove(Weekday::Friday, 1);
    assert_eq!(
        week.wednesday,
        day_of(&[("08:00:00", "09:00:00"), ("18:00:00", "19:00:00")])
    );
    assert_eq!(week.thursday, TimingCollection::new());
    for day in [Weekday::Monday, Weekday::Tuesday, Weekday::Friday, Weekday::Saturday, Weekday::Sunday] {
        assert_eq!(week.day(day), &TimingCollection::default());
    }
    let mut other = day_of(&[("01:00:00", "02:00:00")]);
    week.swap_day(Weekday::Sunday, &mut other);
    assert_eq!(other, TimingCollection::default());
    assert_eq!(week.sunday, day_of(&[("01:00:00", "02:00:00")]));
    assert!(week.is_valid());
    week.push(Weekday::Sunday, Timing::new("1", "2"));
    assert!(!week.is_valid());
    assert_eq!(week.clone(), week);
}

#[test]
fn names_of_the_choices() {
    assert_eq!(ProcType::Video.to_string(), "Video");
    assert_eq!(ProcType::Audio.as_str(), "Audio");
    assert_eq!(ProcType::Image.as_str(), "Image");
    assert_eq!(ProcType::Slideshow.as_str(), "Slideshow");
    assert_eq!(ProcType::Browser.as_str(), "Browser");
    assert_eq!(ProcType::Executable.to_string(), "Executable");
    assert_eq!(Autoloop::Yes.to_string(), "Yes");
    assert_eq!(Autoloop::No.to_string(), "No");
    assert_eq!(AdvancedSchedule::Yes.to_string(), "Yes");
    assert_eq!(AdvancedSchedule::No.to_string(), "No");
    assert_eq!(Reboot::Yes.to_string(), "Yes");
    assert_eq!(Reboot::No.to_string(), "No");
    log_info("started");
    log_warn("nothing to read");
    log_error("nothing written");
}

#[test]
fn a_week_that_was_read_may_hold_clashes() {
    let read = import_schedule("MT_MONDAY=09:00:00-10:00:00,09:30:00-09:45:00\nMT_TUESDAY=09:00:00-10:00:00\n");
    assert!(read.is_valid());
    assert!(!read.is_clash_free());
    assert!(WeekSchedule::default().is_clash_free());
    assert!(default_timings().is_clash_free());
}
