//! Seed records: the plain shape a seed file's task entries take, and their
//! conversion into chores.  Weekday names are matched without regard to
//! ASCII case.

use vstd::prelude::*;
use vstd::string::StrSliceExecFns;
use vstd::string::StringExecFns;
use crate::calendar::valid_instant;
use crate::daylist::int_view;
use crate::schedule::{CertainMonths, DaysOfWeek, Monthwise, NDays, NWeeks, Once, ScheduleKind,
    WeeksOfMonth};
use crate::tasks::{clone_vec_i32, DemoTask};
use crate::timeparse::{hm_secs, parse_hm};

verus! {

/// A task entry of a seed file, already decoded into plain values.
pub struct SeedTask {
    pub name: String,
    pub details: String,
    pub schedule_type: String,
    pub n_days: Option<i32>,
    pub n_weeks: Option<i32>,
    pub time: Option<String>,
    pub days: Option<Vec<String>>,
    pub days_of_month: Option<Vec<i32>>,
    pub weeks: Option<Vec<i32>>,
    pub months: Option<Vec<i32>>,
    pub alerting_time: Option<i64>,
    pub completeable: bool,
}

/// Whether a seed entry leaves `completeable` on.
pub fn default_completeable() -> (r: bool)
    ensures
        r == true,
{
    true
}

/// The lower-case form of an ASCII letter; other characters stay as they
/// are.
pub open spec fn lower_ascii(c: char) -> char {
    if 65 <= c as int && c as int <= 90 {
        ((c as int) + 32) as char
    } else {
        c
    }
}

/// ASCII-case-insensitive equality of two texts.
pub open spec fn ieq_ascii(a: Seq<char>, b: Seq<char>) -> bool {
    a.len() == b.len() && forall|i: int|
        0 <= i < a.len() ==> lower_ascii(#[trigger] a[i]) == lower_ascii(b[i])
}

/// Whether some entry of the list names this weekday, ignoring ASCII case.
pub open spec fn names_day(days: Option<Vec<String>>, name: Seq<char>) -> bool {
    match days {
        Option::Some(v) => exists|i: int| 0 <= i < v@.len() && ieq_ascii((#[trigger] v@[i])@, name),
        Option::None => false,
    }
}

fn ascii_ieq(a: &str, b: &str) -> (r: bool)
    ensures
        r == ieq_ascii(a@, b@),
{
    let na = a.unicode_len();
    let nb = b.unicode_len();
    if na != nb {
        return false;
    }
    let mut i: usize = 0;
    while i < na
        invariant
            0 <= i <= na,
            na == a@.len(),
            na == b@.len(),
            forall|k: int| 0 <= k < i ==> lower_ascii(#[trigger] a@[k]) == lower_ascii(b@[k]),
        decreases na - i,
    {
        let ca = a.get_char(i) as u32;
        let cb = b.get_char(i) as u32;
        let la = if 65 <= ca && ca <= 90 {
            ca + 32
        } else {
            ca
        };
        let lb = if 65 <= cb && cb <= 90 {
            cb + 32
        } else {
            cb
        };
        if la != lb {
            proof {
                assert(lower_ascii(a@[i as int]) != lower_ascii(b@[i as int]));
            }
            return false;
        }
        proof {
            assert(lower_ascii(a@[i as int]) == lower_ascii(b@[i as int]));
        }
        i = i + 1;
    }
    true
}

#[verifier::loop_isolation(false)]
fn contains_day(days: &Option<Vec<String>>, name: &str) -> (r: bool)
    ensures
        r == names_day(*days, name@),
{
    match days {
        Option::Some(v) => {
            let mut i: usize = 0;
            while i < v.len()
                invariant
                    0 <= i <= v@.len(),
                    forall|k: int| 0 <= k < i ==> !ieq_ascii((#[trigger] v@[k])@, name@),
                decreases v@.len() - i,
            {
                if ascii_ieq(v[i].as_str(), name) {
                    proof {
                        assert(ieq_ascii((v@[i as int])@, name@));
                    }
                    return true;
                }
                i = i + 1;
            }
            false
        },
        Option::None => false,
    }
}

/// The schedule kind a seed entry names; anything else, the one-time kind
/// included, counts as the every-n-days kind.
pub open spec fn seed_kind(s: Seq<char>) -> ScheduleKind {
    if s == "n_days"@ {
        ScheduleKind::NDays
    } else if s == "n_weeks"@ {
        ScheduleKind::NWeeks
    } else if s == "monthwise"@ {
        ScheduleKind::Monthwise
    } else if s == "weeks_of_month"@ {
        ScheduleKind::WeeksOfMonth
    } else if s == "certain_months"@ {
        ScheduleKind::CertainMonths
    } else {
        ScheduleKind::NDays
    }
}

/// The seed entry's time of day: its `HH:MM` text, or 09:00.
pub open spec fn seed_time(t: Option<String>) -> int {
    match t {
        Option::Some(s) => match hm_secs(s@) {
            Option::Some(v) => v,
            Option::None => 32400,
        },
        Option::None => 32400,
    }
}

/// An optional day list, or the single day 1.
pub open spec fn list_or_first(v: Option<Vec<i32>>) -> Seq<int> {
    match v {
        Option::Some(l) => int_view(l@),
        Option::None => seq![1int],
    }
}

pub open spec fn clamp_int(v: int, lo: int, hi: int) -> int {
    if v < lo {
        lo
    } else if v > hi {
        hi
    } else {
        v
    }
}

impl SeedTask {
    /// The weekday mask the entry's day names select, with the given time
    /// of day.
    pub fn parse_days_of_week(&self, time: u32) -> (r: DaysOfWeek)
        requires
            time < 86400,
        ensures
            r.sunday == names_day(self.days, "sunday"@),
            r.monday == names_day(self.days, "monday"@),
            r.tuesday == names_day(self.days, "tuesday"@),
            r.wednesday == names_day(self.days, "wednesday"@),
            r.thursday == names_day(self.days, "thursday"@),
            r.friday == names_day(self.days, "friday"@),
            r.saturday == names_day(self.days, "saturday"@),
            r.time == time,
            r.wf(),
    {
        DaysOfWeek {
            sunday: contains_day(&self.days, "sunday"),
            monday: contains_day(&self.days, "monday"),
            tuesday: contains_day(&self.days, "tuesday"),
            wednesday: contains_day(&self.days, "wednesday"),
            thursday: contains_day(&self.days, "thursday"),
            friday: contains_day(&self.days, "friday"),
            saturday: contains_day(&self.days, "saturday"),
            time,
        }
    }

    /// The chore a seed entry denotes: the kind from its name, counts
    /// clamped into the engine's ranges, day lists defaulting to the 1st,
    /// months to January, the one-time instant to `now`, and the alerting
    /// duration to a day.
    pub fn to_demo_task(&self, now: i64) -> (r: DemoTask)
        requires
            valid_instant(now as int),
        ensures
            r.name@ == self.name@,
            r.details@ == self.details@,
            r.schedule_kind == seed_kind(self.schedule_type@),
            r.n_days.days as int == clamp_int(
                match self.n_days {
                    Option::Some(c) => c as int,
                    Option::None => 1,
                },
                1,
                36500,
            ),
            r.n_days.time as int == seed_time(self.time),
            r.n_weeks.weeks as int == clamp_int(
                match self.n_weeks {
                    Option::Some(c) => c as int,
                    Option::None => 1,
                },
                1,
                5200,
            ),
            r.n_weeks.sub_schedule.sunday == names_day(self.days, "sunday"@),
            r.n_weeks.sub_schedule.monday == names_day(self.days, "monday"@),
            r.n_weeks.sub_schedule.tuesday == names_day(self.days, "tuesday"@),
            r.n_weeks.sub_schedule.wednesday == names_day(self.days, "wednesday"@),
            r.n_weeks.sub_schedule.thursday == names_day(self.days, "thursday"@),
            r.n_weeks.sub_schedule.friday == names_day(self.days, "friday"@),
            r.n_weeks.sub_schedule.saturday == names_day(self.days, "saturday"@),
            r.n_weeks.sub_schedule.time as int == seed_time(self.time),
            int_view(r.monthwise.days@) == list_or_first(self.days_of_month),
            r.monthwise.time as int == seed_time(self.time),
            int_view(r.weeks_of_month.weeks@) == list_or_first(self.weeks),
            r.weeks_of_month.sub_schedule == r.n_weeks.sub_schedule,
            int_view(r.certain_months.months@) == list_or_first(self.months),
            int_view(r.certain_months.days@) == list_or_first(self.days_of_month),
            r.certain_months.time as int == seed_time(self.time),
            r.once.datetime == now,
            r.alerting_time as int == clamp_int(
                match self.alerting_time {
                    Option::Some(a) => a as int,
                    Option::None => 1440,
                },
                0,
                527040,
            ),
            r.completeable == self.completeable,
            r.created_at is None,
            r.deleted_at is None,
            r.wf(),
    {
        let time: u32 = match &self.time {
            Option::Some(t) => match parse_hm(t.as_str()) {
                Option::Some(v) => v,
                Option::None => 32400,
            },
            Option::None => 32400,
        };
        let nd_count = match self.n_days {
            Option::Some(c) => c,
            Option::None => 1,
        };
        let nd_count = if nd_count < 1 {
            1
        } else if nd_count > 36500 {
            36500
        } else {
            nd_count
        };
        let nw_count = match self.n_weeks {
            Option::Some(c) => c,
            Option::None => 1,
        };
        let nw_count = if nw_count < 1 {
            1
        } else if nw_count > 5200 {
            5200
        } else {
            nw_count
        };
        let al = match self.alerting_time {
            Option::Some(a) => a,
            Option::None => 1440,
        };
        let al = if al < 0 {
            0
        } else if al > 527040 {
            527040
        } else {
            al
        };
        let days_of_week = self.parse_days_of_week(time);
        let dom1 = match &self.days_of_month {
            Option::Some(v) => clone_vec_i32(v),
            Option::None => one_vec(),
        };
        let dom2 = match &self.days_of_month {
            Option::Some(v) => clone_vec_i32(v),
            Option::None => one_vec(),
        };
        let wk = match &self.weeks {
            Option::Some(v) => clone_vec_i32(v),
            Option::None => one_vec(),
        };
        let mo = match &self.months {
            Option::Some(v) => clone_vec_i32(v),
            Option::None => one_vec(),
        };
        DemoTask {
            id: String::new(),
            name: self.name.clone(),
            details: self.details.clone(),
            schedule_kind: seed_kind_exec(self.schedule_type.as_str()),
            n_days: NDays { days: nd_count, time },
            n_weeks: NWeeks { weeks: nw_count, sub_schedule: days_of_week },
            monthwise: Monthwise { days: dom1, time },
            weeks_of_month: WeeksOfMonth { weeks: wk, sub_schedule: days_of_week },
            certain_months: CertainMonths { months: mo, days: dom2, time },
            once: Once { datetime: now },
            alerting_time: al,
            completeable: self.completeable,
            created_at: Option::None,
            deleted_at: Option::None,
        }
    }
}

fn one_vec() -> (r: Vec<i32>)
    ensures
        int_view(r@) =~= seq![1int],
{
    let mut v: Vec<i32> = Vec::new();
    v.push(1);
    proof {
        assert(int_view(v@) =~= seq![1int]);
    }
    v
}

fn seed_kind_exec(s: &str) -> (r: ScheduleKind)
    ensures
        r == seed_kind(s@),
{
    if crate::strutil::str_eq(s, "n_days") {
        ScheduleKind::NDays
    } else if crate::strutil::str_eq(s, "n_weeks") {
        ScheduleKind::NWeeks
    } else if crate::strutil::str_eq(s, "monthwise") {
        ScheduleKind::Monthwise
    } else if crate::strutil::str_eq(s, "weeks_of_month") {
        ScheduleKind::WeeksOfMonth
    } else if crate::strutil::str_eq(s, "certain_months") {
        ScheduleKind::CertainMonths
    } else {
        ScheduleKind::NDays
    }
}

} // verus!
