//! The six recurrence kinds of a schedule and their shared data.
//!
//! Times of day are seconds after local midnight; instants are Unix
//! seconds.  Each variant struct keeps its own parameters so that an editor
//! switching a schedule between kinds can switch back without losing them.

use vstd::prelude::*;
use crate::calendar::valid_instant;

verus! {

/// Which recurrence rule of a [`Schedule`] is active.
#[derive(Clone, Copy)]
pub enum ScheduleKind {
    NDays,
    NWeeks,
    Monthwise,
    WeeksOfMonth,
    CertainMonths,
    Once,
}

/// A one-time event at a fixed instant.
#[derive(Clone, Copy)]
pub struct Once {
    pub datetime: i64,
}

impl Once {
    pub open spec fn wf(&self) -> bool {
        valid_instant(self.datetime as int)
    }
}

/// Every so-and-so-many days, at a fixed time of day.
#[derive(Clone, Copy)]
pub struct NDays {
    pub days: i32,
    pub time: u32,
}

impl NDays {
    pub open spec fn wf(&self) -> bool {
        1 <= self.days <= 36500 && self.time < 86400
    }
}

/// A 7-bit weekday mask plus a time of day, shared by the weekly and
/// week-of-month kinds.
#[derive(Clone, Copy)]
pub struct DaysOfWeek {
    pub sunday: bool,
    pub monday: bool,
    pub tuesday: bool,
    pub wednesday: bool,
    pub thursday: bool,
    pub friday: bool,
    pub saturday: bool,
    pub time: u32,
}

impl DaysOfWeek {
    pub open spec fn wf(&self) -> bool {
        self.time < 86400
    }

    /// Whether the weekday with index `w` (0 = Sunday .. 6 = Saturday) is
    /// active.
    pub open spec fn active_spec(&self, w: int) -> bool {
        if w == 0 {
            self.sunday
        } else if w == 1 {
            self.monday
        } else if w == 2 {
            self.tuesday
        } else if w == 3 {
            self.wednesday
        } else if w == 4 {
            self.thursday
        } else if w == 5 {
            self.friday
        } else {
            self.saturday
        }
    }

    /// Looks up the mask bit of a weekday, 0 = Sunday through 6 = Saturday.
    pub fn active(&self, day: u8) -> (r: bool)
        requires
            day < 7,
        ensures
            r == self.active_spec(day as int),
    {
        match day {
            0 => self.sunday,
            1 => self.monday,
            2 => self.tuesday,
            3 => self.wednesday,
            4 => self.thursday,
            5 => self.friday,
            _ => self.saturday,
        }
    }
}

/// Every so-and-so-many weeks on the active weekdays; `weeks` bounds how far
/// the due-date search looks, not the weekday rule itself.
#[derive(Clone, Copy)]
pub struct NWeeks {
    pub weeks: i32,
    pub sub_schedule: DaysOfWeek,
}

impl NWeeks {
    pub open spec fn wf(&self) -> bool {
        1 <= self.weeks <= 5200 && self.sub_schedule.wf()
    }
}

/// On fixed days of each month; a day a short month lacks never matches.
#[derive(Clone)]
pub struct Monthwise {
    pub days: Vec<i32>,
    pub time: u32,
}

impl Monthwise {
    pub open spec fn wf(&self) -> bool {
        self.time < 86400
    }
}

/// On the active weekdays of the named weeks of each month (week 1 holds
/// days 1-7, week 2 days 8-14, and so on).
#[derive(Clone)]
pub struct WeeksOfMonth {
    pub weeks: Vec<i32>,
    pub sub_schedule: DaysOfWeek,
}

impl WeeksOfMonth {
    pub open spec fn wf(&self) -> bool {
        self.sub_schedule.wf()
    }
}

/// On fixed days of fixed months, e.g. the 15th and 20th of February and
/// March.
#[derive(Clone)]
pub struct CertainMonths {
    pub months: Vec<i32>,
    pub days: Vec<i32>,
    pub time: u32,
}

impl CertainMonths {
    pub open spec fn wf(&self) -> bool {
        self.time < 86400
    }
}

/// A schedule: one active recurrence kind, with the parameter sets of every
/// kind kept alongside.
#[derive(Clone)]
pub struct Schedule {
    pub kind: ScheduleKind,
    pub n_days: NDays,
    pub n_weeks: NWeeks,
    pub monthwise: Monthwise,
    pub weeks_of_month: WeeksOfMonth,
    pub certain_months: CertainMonths,
    pub once: Once,
}

impl Schedule {
    pub open spec fn wf(&self) -> bool {
        &&& self.n_days.wf()
        &&& self.n_weeks.wf()
        &&& self.monthwise.wf()
        &&& self.weeks_of_month.wf()
        &&& self.certain_months.wf()
        &&& self.once.wf()
    }
}

/// Whether some element of `v` has the integer value `x`.
pub open spec fn contains_int(v: Seq<i32>, x: int) -> bool {
    exists|k: int| 0 <= k < v.len() && v[k] as int == x
}

/// Linear membership test, the executable side of [`contains_int`].
pub fn contains_val(v: &Vec<i32>, x: i64) -> (r: bool)
    ensures
        r == contains_int(v@, x as int),
{
    let mut i: usize = 0;
    while i < v.len()
        invariant
            0 <= i <= v@.len(),
            forall|k: int| 0 <= k < i ==> (#[trigger] v@[k]) as int != x as int,
        decreases v@.len() - i,
    {
        if (v[i] as i64) == x {
            assert(v@[i as int] as int == x as int);
            return true;
        }
        i = i + 1;
    }
    false
}

} // verus!
