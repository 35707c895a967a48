//! The week: seven days in a fixed order, each with its ranges.

use vstd::prelude::*;
use crate::day::TimingCollection;
use crate::timing::{clash_free, day_valid, default_timing, Timing, TimingView};

verus! {

/// A day of the week. The days stand in the order Monday to Sunday.
#[derive(Clone, Copy, Debug, PartialEq, Eq, Structural)]
pub enum Weekday {
    Monday,
    Tuesday,
    Wednesday,
    Thursday,
    Friday,
    Saturday,
    Sunday,
}

/// The name of a day, as it is shown.
pub open spec fn day_name(day: Weekday) -> Seq<char> {
    match day {
        Weekday::Monday => "Monday"@,
        Weekday::Tuesday => "Tuesday"@,
        Weekday::Wednesday => "Wednesday"@,
        Weekday::Thursday => "Thursday"@,
        Weekday::Friday => "Friday"@,
        Weekday::Saturday => "Saturday"@,
        Weekday::Sunday => "Sunday"@,
    }
}

/// The day at position `index` of the week, Monday being 0.
pub open spec fn day_at(index: int) -> Weekday {
    if index == 0 {
        Weekday::Monday
    } else if index == 1 {
        Weekday::Tuesday
    } else if index == 2 {
        Weekday::Wednesday
    } else if index == 3 {
        Weekday::Thursday
    } else if index == 4 {
        Weekday::Friday
    } else if index == 5 {
        Weekday::Saturday
    } else {
        Weekday::Sunday
    }
}

impl Weekday {
    /// The position of the day in the week, Monday being 0.
    pub open spec fn index(self) -> int {
        match self {
            Weekday::Monday => 0,
            Weekday::Tuesday => 1,
            Weekday::Wednesday => 2,
            Weekday::Thursday => 3,
            Weekday::Friday => 4,
            Weekday::Saturday => 5,
            Weekday::Sunday => 6,
        }
    }

    /// The position of the day in the week, Monday being 0.
    pub fn ordinal(self) -> (i: usize)
        ensures
            i == self.index(),
            i < 7,
            day_at(i as int) == self,
    {
        match self {
            Weekday::Monday => 0,
            Weekday::Tuesday => 1,
            Weekday::Wednesday => 2,
            Weekday::Thursday => 3,
            Weekday::Friday => 4,
            Weekday::Saturday => 5,
            Weekday::Sunday => 6,
        }
    }

    /// The day at position `index` of the week; Sunday for every position
    /// behind it.
    pub fn from_ordinal(index: usize) -> (day: Weekday)
        ensures
            day == day_at(index as int),
            index < 7 ==> day.index() == index,
    {
        if index == 0 {
            Weekday::Monday
        } else if index == 1 {
            Weekday::Tuesday
        } else if index == 2 {
            Weekday::Wednesday
        } else if index == 3 {
            Weekday::Thursday
        } else if index == 4 {
            Weekday::Friday
        } else if index == 5 {
            Weekday::Saturday
        } else {
            Weekday::Sunday
        }
    }

    /// The name of the day, as it is shown.
    pub fn as_str(&self) -> (name: &'static str)
        ensures
            name@ == day_name(*self),
    {
        match self {
            Weekday::Monday => "Monday",
            Weekday::Tuesday => "Tuesday",
            Weekday::Wednesday => "Wednesday",
            Weekday::Thursday => "Thursday",
            Weekday::Friday => "Friday",
            Weekday::Saturday => "Saturday",
            Weekday::Sunday => "Sunday",
        }
    }

    /// The name of the day, as it is shown.
    pub fn to_string(&self) -> (name: String)
        ensures
            name@ == day_name(*self),
    {
        self.as_str().to_owned()
    }
}

/// Every day of the week is there and holds ranges of two times of day.
pub open spec fn week_valid(week: Seq<Seq<TimingView>>) -> bool {
    &&& week.len() == 7
    &&& forall|d: int| 0 <= d < 7 ==> day_valid(#[trigger] week[d])
}

/// On no day of the week do two ranges clash.
pub open spec fn week_clash_free(week: Seq<Seq<TimingView>>) -> bool {
    forall|d: int| 0 <= d < week.len() ==> clash_free(#[trigger] week[d])
}

/// The schedule of a week: for each day its ranges. A day for which
/// nothing is configured has an empty list.
#[derive(Debug, PartialEq, Eq)]
pub struct WeekSchedule {
    pub monday: TimingCollection,
    pub tuesday: TimingCollection,
    pub wednesday: TimingCollection,
    pub thursday: TimingCollection,
    pub friday: TimingCollection,
    pub saturday: TimingCollection,
    pub sunday: TimingCollection,
}

impl View for WeekSchedule {
    type V = Seq<Seq<TimingView>>;

    open spec fn view(&self) -> Seq<Seq<TimingView>> {
        seq![
            self.monday@,
            self.tuesday@,
            self.wednesday@,
            self.thursday@,
            self.friday@,
            self.saturday@,
            self.sunday@,
        ]
    }
}

impl Clone for WeekSchedule {
    fn clone(&self) -> (w: Self)
        ensures
            w@ == self@,
    {
        WeekSchedule {
            monday: self.monday.clone(),
            tuesday: self.tuesday.clone(),
            wednesday: self.wednesday.clone(),
            thursday: self.thursday.clone(),
            friday: self.friday.clone(),
            saturday: self.saturday.clone(),
            sunday: self.sunday.clone(),
        }
    }
}

/// The week in which no day has a range.
pub open spec fn empty_week() -> Seq<Seq<TimingView>> {
    Seq::new(7, |d: int| Seq::<TimingView>::empty())
}

/// The week that the editor is seeded with: on every day the one range
/// 09:00:00 to 17:00:00.
pub open spec fn seed_week() -> Seq<Seq<TimingView>> {
    Seq::new(7, |d: int| seq![default_timing()])
}

/// Some day of the week has a range.
pub open spec fn has_timings(week: Seq<Seq<TimingView>>) -> bool {
    exists|d: int| 0 <= d < 7 && (#[trigger] week[d]).len() > 0
}

/// The week in which no day has a range.
pub fn default_timings() -> (week: WeekSchedule)
    ensures
        week@ == empty_week(),
        week_valid(week@),
        week_clash_free(week@),
{
    WeekSchedule::new()
}

impl WeekSchedule {
    /// The week in which no day has a range.
    pub fn new() -> (week: WeekSchedule)
        ensures
            week@ == empty_week(),
            week_valid(week@),
            week_clash_free(week@),
    {
        WeekSchedule {
            monday: TimingCollection::new(),
            tuesday: TimingCollection::new(),
            wednesday: TimingCollection::new(),
            thursday: TimingCollection::new(),
            friday: TimingCollection::new(),
            saturday: TimingCollection::new(),
            sunday: TimingCollection::new(),
        }
    }

    /// The week that the editor is seeded with: on every day the one range
    /// 09:00:00 to 17:00:00.
    pub fn default() -> (week: WeekSchedule)
        ensures
            week@ == seed_week(),
            week_valid(week@),
            week_clash_free(week@),
    {
        WeekSchedule {
            monday: TimingCollection::default(),
            tuesday: TimingCollection::default(),
            wednesday: TimingCollection::default(),
            thursday: TimingCollection::default(),
            friday: TimingCollection::default(),
            saturday: TimingCollection::default(),
            sunday: TimingCollection::default(),
        }
    }

    /// The ranges of `day`.
    pub fn day(&self, day: Weekday) -> (c: &TimingCollection)
        ensures
            c@ == self@[day.index()],
    {
        match day {
            Weekday::Monday => &self.monday,
            Weekday::Tuesday => &self.tuesday,
            Weekday::Wednesday => &self.wednesday,
            Weekday::Thursday => &self.thursday,
            Weekday::Friday => &self.friday,
            Weekday::Saturday => &self.saturday,
            Weekday::Sunday => &self.sunday,
        }
    }

    /// Gives `day` the ranges of `ranges`, and hands back those it had.
    pub fn swap_day(&mut self, day: Weekday, ranges: &mut TimingCollection)
        ensures
            final(self)@ == old(self)@.update(day.index(), old(ranges)@),
            final(ranges)@ == old(self)@[day.index()],
    {
        match day {
            Weekday::Monday => core::mem::swap(&mut self.monday, ranges),
            Weekday::Tuesday => core::mem::swap(&mut self.tuesday, ranges),
            Weekday::Wednesday => core::mem::swap(&mut self.wednesday, ranges),
            Weekday::Thursday => core::mem::swap(&mut self.thursday, ranges),
            Weekday::Friday => core::mem::swap(&mut self.friday, ranges),
            Weekday::Saturday => core::mem::swap(&mut self.saturday, ranges),
            Weekday::Sunday => core::mem::swap(&mut self.sunday, ranges),
        }
    }

    /// Gives `day` the ranges of `ranges`.
    pub fn set_day(&mut self, day: Weekday, ranges: TimingCollection)
        ensures
            final(self)@ == old(self)@.update(day.index(), ranges@),
    {
        let mut ranges = ranges;
        self.swap_day(day, &mut ranges);
    }

    /// Appends a range to `day`.
    pub fn push(&mut self, day: Weekday, timing: Timing)
        ensures
            final(self)@ == old(self)@.update(day.index(), old(self)@[day.index()].push(timing@)),
    {
        let mut ranges = TimingCollection::new();
        self.swap_day(day, &mut ranges);
        ranges.push(timing);
        self.swap_day(day, &mut ranges);
    }

    /// Puts `timing` in the place of the range of `day` at `index`.
    pub fn replace(&mut self, day: Weekday, index: usize, timing: Timing)
        requires
            index < old(self)@[day.index()].len(),
        ensures
            final(self)@ == old(self)@.update(
                day.index(),
                old(self)@[day.index()].update(index as int, timing@),
            ),
    {
        let mut ranges = TimingCollection::new();
        self.swap_day(day, &mut ranges);
        ranges.replace(index, timing);
        self.swap_day(day, &mut ranges);
        assert(self@ =~= old(self)@.update(
            day.index(),
            old(self)@[day.index()].update(index as int, timing@),
        ));
    }

    /// Takes the range at `index` out of `day`; a day that has no such
    /// range stays as it is.
    pub fn remove(&mut self, day: Weekday, index: usize)
        ensures
            index < old(self)@[day.index()].len() ==> final(self)@ == old(self)@.update(
                day.index(),
                old(self)@[day.index()].remove(index as int),
            ),
            index >= old(self)@[day.index()].len() ==> final(self)@ == old(self)@,
    {
        let mut ranges = TimingCollection::new();
        self.swap_day(day, &mut ranges);
        ranges.remove(index);
        self.swap_day(day, &mut ranges);
        assert(index < old(self)@[day.index()].len() ==> self@ =~= old(self)@.update(
            day.index(),
            old(self)@[day.index()].remove(index as int),
        ));
    }

    /// Whether every range of the week is made of two times of day.
    pub fn is_valid(&self) -> (ok: bool)
        ensures
            ok == week_valid(self@),
    {
        let ok = self.monday.is_valid() && self.tuesday.is_valid() && self.wednesday.is_valid()
            && self.thursday.is_valid() && self.friday.is_valid() && self.saturday.is_valid()
            && self.sunday.is_valid();
        proof {
            if ok {
                assert forall|d: int| 0 <= d < 7 implies day_valid(#[trigger] self@[d]) by {}
            } else {
                assert(self@[0] == self.monday@ && self@[1] == self.tuesday@ && self@[2]
                    == self.wednesday@ && self@[3] == self.thursday@ && self@[4] == self.friday@
                    && self@[5] == self.saturday@ && self@[6] == self.sunday@);
            }
        }
        ok
    }

    /// Whether on no day of the week two ranges clash.
    pub fn is_clash_free(&self) -> (ok: bool)
        requires
            week_valid(self@),
        ensures
            ok == week_clash_free(self@),
    {
        proof {
            assert(self@[0] == self.monday@ && self@[1] == self.tuesday@ && self@[2]
                == self.wednesday@ && self@[3] == self.thursday@ && self@[4] == self.friday@
                && self@[5] == self.saturday@ && self@[6] == self.sunday@);
            assert(day_valid(self@[0]) && day_valid(self@[1]) && day_valid(self@[2]) && day_valid(
                self@[3],
            ) && day_valid(self@[4]) && day_valid(self@[5]) && day_valid(self@[6]));
        }
        let ok = self.monday.is_clash_free() && self.tuesday.is_clash_free()
            && self.wednesday.is_clash_free() && self.thursday.is_clash_free()
            && self.friday.is_clash_free() && self.saturday.is_clash_free()
            && self.sunday.is_clash_free();
        proof {
            if ok {
                assert forall|d: int| 0 <= d < self@.len() implies clash_free(
                    #[trigger] self@[d],
                ) by {}
            }
        }
        ok
    }

    /// Whether any day of the week has a range.
    pub fn has_timings(&self) -> (any: bool)
        ensures
            any == has_timings(self@),
    {
        let any = !self.monday.is_empty() || !self.tuesday.is_empty() || !self.wednesday.is_empty()
            || !self.thursday.is_empty() || !self.friday.is_empty() || !self.saturday.is_empty()
            || !self.sunday.is_empty();
        proof {
            assert(self@[0] == self.monday@ && self@[1] == self.tuesday@ && self@[2]
                == self.wednesday@ && self@[3] == self.thursday@ && self@[4] == self.friday@
                && self@[5] == self.saturday@ && self@[6] == self.sunday@);
        }
        any
    }
}

} // verus!
