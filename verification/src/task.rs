//! The whole setup as text: the choices, the schedule and the file, one
//! `KEY=value` line each.

use vstd::prelude::*;
use crate::schedule::WeekSchedule;
use crate::text::{from_chars, push_str, to_chars};
use crate::timing::TimingView;
use crate::vars::{export_schedule, export_spec};
use crate::wizard::{proc_type_value, AdvancedSchedule, Autoloop, ProcType};

verus! {

/// What is played, when and how.
#[derive(Debug)]
pub struct Task {
    pub proc_type: ProcType,
    pub auto_loop: Autoloop,
    pub advanced_schedule: AdvancedSchedule,
    pub timings: WeekSchedule,
    /// The path of the file that is played.
    pub file: String,
    /// The seconds for which a slide is shown.
    pub slide_delay: u32,
}

/// What a [`Task`] holds.
pub struct TaskView {
    pub proc_type: ProcType,
    pub auto_loop: Autoloop,
    pub advanced_schedule: AdvancedSchedule,
    pub timings: Seq<Seq<TimingView>>,
    pub file: Seq<char>,
    pub slide_delay: nat,
}

impl View for Task {
    type V = TaskView;

    open spec fn view(&self) -> TaskView {
        TaskView {
            proc_type: self.proc_type,
            auto_loop: self.auto_loop,
            advanced_schedule: self.advanced_schedule,
            timings: self.timings@,
            file: self.file@,
            slide_delay: self.slide_delay as nat,
        }
    }
}

/// The character of a decimal digit.
pub open spec fn digit_char(d: nat) -> char {
    if d == 0 {
        '0'
    } else if d == 1 {
        '1'
    } else if d == 2 {
        '2'
    } else if d == 3 {
        '3'
    } else if d == 4 {
        '4'
    } else if d == 5 {
        '5'
    } else if d == 6 {
        '6'
    } else if d == 7 {
        '7'
    } else if d == 8 {
        '8'
    } else {
        '9'
    }
}

/// A number written in decimal digits, without leading zeros.
pub open spec fn decimal(n: nat) -> Seq<char>
    decreases n,
{
    if n < 10 {
        seq![digit_char(n)]
    } else {
        decimal(n / 10).push(digit_char(n % 10))
    }
}

/// The word for a switch that is on or off.
pub open spec fn true_false(on: bool) -> Seq<char> {
    if on {
        "true"@
    } else {
        "false"@
    }
}

/// A line `KEY="value"`.
pub open spec fn quoted_line(key: Seq<char>, value: Seq<char>) -> Seq<char> {
    key + seq!['=', '"'] + value + seq!['"', '\n']
}

/// The text of a setup: the kind of thing that is played, whether it is
/// played again and again, whether the schedule is used; the lines of the
/// schedule; the file; and the seconds for which a slide is shown.
pub open spec fn task_text(task: TaskView) -> Seq<char> {
    quoted_line("MT_PROCTYPE"@, proc_type_value(task.proc_type)) + quoted_line(
        "MT_AUTOLOOP"@,
        true_false(task.auto_loop == Autoloop::Yes),
    ) + quoted_line("MT_SCHEDULE"@, true_false(task.advanced_schedule == AdvancedSchedule::Yes))
        + export_spec(task.timings) + quoted_line("MT_FILE"@, task.file) + quoted_line(
        "MT_SLIDE_DELAY"@,
        decimal(task.slide_delay),
    )
}

fn digit_of(d: u32) -> (c: char)
    requires
        d < 10,
    ensures
        c == digit_char(d as nat),
{
    if d == 0 {
        '0'
    } else if d == 1 {
        '1'
    } else if d == 2 {
        '2'
    } else if d == 3 {
        '3'
    } else if d == 4 {
        '4'
    } else if d == 5 {
        '5'
    } else if d == 6 {
        '6'
    } else if d == 7 {
        '7'
    } else if d == 8 {
        '8'
    } else {
        '9'
    }
}

/// Appends `n` in decimal digits to `out`.
fn push_decimal(out: &mut Vec<char>, n: u32)
    ensures
        final(out)@ == old(out)@ + decimal(n as nat),
    decreases n,
{
    if n >= 10 {
        push_decimal(out, n / 10);
    }
    out.push(digit_of(n % 10));
}

/// Appends the line `KEY="value"` to `out`.
fn push_quoted_line(out: &mut Vec<char>, key: &str, value: &Vec<char>)
    ensures
        final(out)@ == old(out)@ + quoted_line(key@, value@),
{
    push_str(out, key);
    out.push('=');
    out.push('"');
    let mut i: usize = 0;
    let ghost head = out@;
    while i < value.len()
        invariant
            i <= value.len(),
            out@ == head + value@.take(i as int),
        decreases value.len() - i,
    {
        out.push(value[i]);
        i += 1;
    }
    out.push('"');
    out.push('\n');
}

fn switch_word(on: bool) -> (word: &'static str)
    ensures
        word@ == true_false(on),
{
    if on {
        "true"
    } else {
        "false"
    }
}

impl Task {
    /// The setup made of the given choices.
    pub fn new(
        proc_type: ProcType,
        auto_loop: Autoloop,
        advanced_schedule: AdvancedSchedule,
        timings: WeekSchedule,
        file: String,
        slide_delay: u32,
    ) -> (task: Task)
        ensures
            task@ == (TaskView {
                proc_type,
                auto_loop,
                advanced_schedule,
                timings: timings@,
                file: file@,
                slide_delay: slide_delay as nat,
            }),
    {
        Task { proc_type, auto_loop, advanced_schedule, timings, file, slide_delay }
    }

    /// The text of the setup, as it is kept for the player.
    pub fn vars_text(&self) -> (text: String)
        ensures
            text@ == task_text(self@),
    {
        let mut out: Vec<char> = Vec::new();
        push_quoted_line(&mut out, "MT_PROCTYPE", &to_chars(self.proc_type.value()));
        push_quoted_line(
            &mut out,
            "MT_AUTOLOOP",
            &to_chars(switch_word(self.auto_loop == Autoloop::Yes)),
        );
        push_quoted_line(
            &mut out,
            "MT_SCHEDULE",
            &to_chars(switch_word(self.advanced_schedule == AdvancedSchedule::Yes)),
        );
        let days = export_schedule(&self.timings);
        push_str(&mut out, days.as_str());
        push_quoted_line(&mut out, "MT_FILE", &to_chars(self.file.as_str()));
        let mut delay: Vec<char> = Vec::new();
        push_decimal(&mut delay, self.slide_delay);
        push_quoted_line(&mut out, "MT_SLIDE_DELAY", &delay);
        from_chars(&out)
    }
}

} // verus!
