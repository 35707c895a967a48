//! The editor of a weekly schedule for an unattended media player.
//!
//! A schedule gives each day of the week a list of time ranges
//! `HH:MM:SS-HH:MM:SS`. The editor walks through the days, takes ranges
//! that are typed in, and refuses a range whose text is not of that form or
//! that clashes with another range of the same day. The schedule is kept as
//! text, one `KEY=ranges` line for each day.
//!
//! - [`timing`]: the text form of a range, the numbers that times are
//!   compared by, and when two ranges clash.
//! - [`day`]: the ranges of one day, the clash test against them, and the
//!   order in which they are shown.
//! - [`schedule`]: the seven days of the week.
//! - [`input`]: the line of text that is being typed, with its cursor.
//! - [`screen`]: the screens of the editor and what each key does on each
//!   of them, stated on plain values.
//! - [`widget`]: the editor itself, which takes one key at a time.
//! - [`laws`]: what holds of the editor whatever keys it is given.
//! - [`vars`]: the schedule as text, written and read.
//! - [`round_trip`]: that a schedule is read back as it was written.
//! - [`task`]: the whole setup as text.
//! - [`wizard`]: the choices of the setup besides the schedule.
//! - [`text`]: characters in and out of strings.
//!
//! Contracts speak of views: a string is the sequence of its characters, a
//! day the sequence of its ranges, the editor the record of what it holds.
//! What is taken from std without proof is marked where it stands: that
//! `String::push` appends a character, and the two error types of std that
//! [`wizard::MTError`] carries.

pub mod text;
pub mod timing;
pub mod day;
pub mod input;
pub mod schedule;
pub mod screen;
pub mod laws;
pub mod widget;
pub mod vars;
pub mod round_trip;
pub mod wizard;
pub mod task;
