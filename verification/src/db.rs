//! The stored shapes of schedules, tasks and completions — plain rows of
//! optional columns — and their conversion into schedule values.  Invalid or
//! missing columns fall back to defaults, and out-of-range counts are
//! clamped into the ranges the search engine works over.

use vstd::prelude::*;
use crate::calendar::valid_instant;
use crate::daylist::{find_from, int_view, lemma_find_from_bounds, trim_spec, find_char,
    trim_str};
use crate::schedule::{CertainMonths, DaysOfWeek, Monthwise, NDays, NWeeks, Once, ScheduleKind,
    WeeksOfMonth};
use crate::timeparse::{hm_secs, parse_hm, parse_tok_signed, sint_tok};
use crate::zone::{parse_rfc3339, rfc3339_instant};
use vstd::string::StrSliceExecFns;

verus! {

/// A completion row handed to the status predicates: its key and when it
/// was recorded, as Unix seconds.
pub struct CompletionRecord {
    pub id: i64,
    pub completed_at: i64,
}

/// A stored schedule row: one column per parameter of every kind.
pub struct DbSchedule {
    pub id: i64,
    pub kind: String,
    pub ndays_days: Option<i32>,
    pub ndays_time: Option<String>,
    pub nweeks_weeks: Option<i32>,
    pub nweeks_sunday: Option<i32>,
    pub nweeks_monday: Option<i32>,
    pub nweeks_tuesday: Option<i32>,
    pub nweeks_wednesday: Option<i32>,
    pub nweeks_thursday: Option<i32>,
    pub nweeks_friday: Option<i32>,
    pub nweeks_saturday: Option<i32>,
    pub nweeks_time: Option<String>,
    pub monthwise_days: Option<String>,
    pub monthwise_time: Option<String>,
    pub weeks_of_month_weeks: Option<String>,
    pub weeks_of_month_sunday: Option<i32>,
    pub weeks_of_month_monday: Option<i32>,
    pub weeks_of_month_tuesday: Option<i32>,
    pub weeks_of_month_wednesday: Option<i32>,
    pub weeks_of_month_thursday: Option<i32>,
    pub weeks_of_month_friday: Option<i32>,
    pub weeks_of_month_saturday: Option<i32>,
    pub weeks_of_month_time: Option<String>,
    pub certain_months_months: Option<String>,
    pub certain_months_days: Option<String>,
    pub certain_months_time: Option<String>,
    pub once_datetime: Option<String>,
}

/// A stored task row.
pub struct DbTask {
    pub id: i64,
    pub name: String,
    pub details: Option<String>,
    pub schedule_id: i64,
    pub alerting_time: Option<i64>,
    pub completeable: Option<i32>,
    pub created_at: Option<String>,
    pub deleted_at: Option<String>,
}

/// A stored completion row.
pub struct DbCompletion {
    pub id: i64,
    pub task_id: i64,
    pub completed_at: String,
}

#[via_fn]
proof fn int_list_from_decreases(s: Seq<char>) {
    lemma_find_from_bounds(s, 0, ',');
}

/// The integers a comma-separated column denotes, in written order;
/// unparsable pieces are skipped.
pub open spec fn int_list_from(s: Seq<char>) -> Seq<int>
    decreases s.len(),
    via int_list_from_decreases
{
    let j = find_from(s, 0, ',');
    let t = trim_spec(s.take(j));
    let head: Seq<int> = match sint_tok(t) {
        Option::Some(v) => seq![v],
        Option::None => Seq::empty(),
    };
    if j == s.len() {
        head
    } else {
        head + int_list_from(s.skip(j + 1))
    }
}

/// Parses a comma-separated integer column, skipping unparsable pieces.
pub fn parse_int_list(s: &Option<String>) -> (r: Vec<i32>)
    ensures
        match s {
            Option::Some(st) => int_view(r@) == int_list_from(st@),
            Option::None => r@ == Seq::<i32>::empty(),
        },
{
    let mut out: Vec<i32> = Vec::new();
    let t = match s {
        Option::Some(st) => st.as_str(),
        Option::None => {
            return out;
        },
    };
    let n = t.unicode_len();
    let mut pos: usize = 0;
    proof {
        assert(t@.skip(0) =~= t@);
        assert(int_view(out@) =~= Seq::<int>::empty());
    }
    loop
        invariant_except_break
            pos <= n,
            n == t@.len(),
            int_list_from(t@) =~= int_view(out@) + int_list_from(t@.skip(pos as int)),
        ensures
            int_view(out@) == int_list_from(t@),
        decreases n - pos,
    {
        let j = find_char(t, pos, ',');
        let seg = t.substring_char(pos, j);
        let tok = trim_str(seg);
        let ghost su = t@.skip(pos as int);
        let ghost base = out@;
        proof {
            lemma_find_shift_list(t@, pos as int);
            assert(seg@ =~= su.take(j - pos));
            assert(trim_spec(su.take(j - pos)) == tok@);
        }
        let ghost head: Seq<int> = match sint_tok(tok@) {
            Option::Some(v) => seq![v as int],
            Option::None => Seq::empty(),
        };
        match parse_tok_signed(tok) {
            Option::Some(v) => {
                out.push(v);
                proof {
                    assert(int_view(out@) =~= int_view(base) + head);
                }
            },
            Option::None => {
                proof {
                    assert(int_view(out@) =~= int_view(base) + head);
                }
            },
        }
        if j == n {
            proof {
                assert(int_list_from(su) == head);
            }
            break;
        }
        proof {
            assert(su.skip(j + 1 - pos) =~= t@.skip(j + 1));
            let rest = int_list_from(t@.skip(j + 1));
            assert(int_list_from(su) =~= head + rest);
            assert(int_view(base) + (head + rest) =~= int_view(out@) + rest);
        }
        pos = j + 1;
    }
    out
}

proof fn lemma_find_shift_list(s: Seq<char>, pos: int)
    requires
        0 <= pos <= s.len(),
    ensures
        find_from(s.skip(pos), 0, ',') == find_from(s, pos, ',') - pos,
{
    crate::daylist::lemma_find_shift(s, pos, ',');
}

/// The time of day a stored column denotes, defaulting to 09:00 when the
/// column is absent or not a `HH:MM` text.
pub open spec fn time_col(s: Option<String>) -> int {
    match s {
        Option::Some(t) => match hm_secs(t@) {
            Option::Some(v) => v,
            Option::None => 32400,
        },
        Option::None => 32400,
    }
}

fn parse_time(s: &Option<String>) -> (r: u32)
    ensures
        r as int == time_col(*s),
        r < 86400,
{
    match s {
        Option::Some(t) => match parse_hm(t.as_str()) {
            Option::Some(v) => v,
            Option::None => 32400,
        },
        Option::None => 32400,
    }
}

/// Whether a stored weekday flag column counts as set: any value but 0.
pub open spec fn flag_col(c: Option<i32>) -> bool {
    match c {
        Option::Some(v) => v != 0,
        Option::None => false,
    }
}

fn flag(c: &Option<i32>) -> (r: bool)
    ensures
        r == flag_col(*c),
{
    match c {
        Option::Some(v) => *v != 0,
        Option::None => false,
    }
}

/// The schedule kind a stored text names; an unknown text counts as the
/// every-n-days kind.
pub open spec fn kind_of_text(s: Seq<char>) -> ScheduleKind {
    if s == "n_days"@ {
        ScheduleKind::NDays
    } else if s == "n_weeks"@ {
        ScheduleKind::NWeeks
    } else if s == "monthwise"@ {
        ScheduleKind::Monthwise
    } else if s == "weeks_of_month"@ {
        ScheduleKind::WeeksOfMonth
    } else if s == "certain_months"@ {
        ScheduleKind::CertainMonths
    } else if s == "once"@ {
        ScheduleKind::Once
    } else {
        ScheduleKind::NDays
    }
}

/// Reads a schedule kind name.
pub fn kind_from_str(s: &str) -> (r: ScheduleKind)
    ensures
        r == kind_of_text(s@),
{
    if crate::strutil::str_eq(s, "n_days") {
        ScheduleKind::NDays
    } else if crate::strutil::str_eq(s, "n_weeks") {
        ScheduleKind::NWeeks
    } else if crate::strutil::str_eq(s, "monthwise") {
        ScheduleKind::Monthwise
    } else if crate::strutil::str_eq(s, "weeks_of_month") {
        ScheduleKind::WeeksOfMonth
    } else if crate::strutil::str_eq(s, "certain_months") {
        ScheduleKind::CertainMonths
    } else if crate::strutil::str_eq(s, "once") {
        ScheduleKind::Once
    } else {
        ScheduleKind::NDays
    }
}

/// A count column clamped into `lo..=hi`, defaulting to 1.
pub open spec fn clamp_col(c: Option<i32>, lo: int, hi: int) -> int {
    let v = match c {
        Option::Some(v) => v as int,
        Option::None => 1,
    };
    if v < lo {
        lo
    } else if v > hi {
        hi
    } else {
        v
    }
}

fn clamp(c: &Option<i32>, lo: i32, hi: i32) -> (r: i32)
    requires
        lo <= hi,
    ensures
        r as int == clamp_col(*c, lo as int, hi as int),
        lo <= r <= hi,
{
    let v = match c {
        Option::Some(v) => *v,
        Option::None => 1,
    };
    if v < lo {
        lo
    } else if v > hi {
        hi
    } else {
        v
    }
}

impl DbSchedule {
    /// The schedule a stored row denotes, field by field: the kind from its
    /// name, counts clamped into the engine's ranges, times read as `HH:MM`
    /// with 09:00 as default, day lists split on commas, and the one-time
    /// instant read as RFC 3339 with `now` as default.
    pub fn to_schedule_parts(&self, now: i64) -> (r: (
        ScheduleKind,
        NDays,
        NWeeks,
        Monthwise,
        WeeksOfMonth,
        CertainMonths,
        Once,
    ))
        requires
            valid_instant(now as int),
        ensures
            r.0 == kind_of_text(self.kind@),
            r.1.days as int == clamp_col(self.ndays_days, 1, 36500),
            r.1.time as int == time_col(self.ndays_time),
            r.2.weeks as int == clamp_col(self.nweeks_weeks, 1, 5200),
            r.2.sub_schedule.sunday == flag_col(self.nweeks_sunday),
            r.2.sub_schedule.monday == flag_col(self.nweeks_monday),
            r.2.sub_schedule.tuesday == flag_col(self.nweeks_tuesday),
            r.2.sub_schedule.wednesday == flag_col(self.nweeks_wednesday),
            r.2.sub_schedule.thursday == flag_col(self.nweeks_thursday),
            r.2.sub_schedule.friday == flag_col(self.nweeks_friday),
            r.2.sub_schedule.saturday == flag_col(self.nweeks_saturday),
            r.2.sub_schedule.time as int == time_col(self.nweeks_time),
            int_view(r.3.days@) == match self.monthwise_days {
                Option::Some(st) => int_list_from(st@),
                Option::None => Seq::<int>::empty(),
            },
            r.3.time as int == time_col(self.monthwise_time),
            int_view(r.4.weeks@) == match self.weeks_of_month_weeks {
                Option::Some(st) => int_list_from(st@),
                Option::None => Seq::<int>::empty(),
            },
            r.4.sub_schedule.sunday == flag_col(self.weeks_of_month_sunday),
            r.4.sub_schedule.monday == flag_col(self.weeks_of_month_monday),
            r.4.sub_schedule.tuesday == flag_col(self.weeks_of_month_tuesday),
            r.4.sub_schedule.wednesday == flag_col(self.weeks_of_month_wednesday),
            r.4.sub_schedule.thursday == flag_col(self.weeks_of_month_thursday),
            r.4.sub_schedule.friday == flag_col(self.weeks_of_month_friday),
            r.4.sub_schedule.saturday == flag_col(self.weeks_of_month_saturday),
            r.4.sub_schedule.time as int == time_col(self.weeks_of_month_time),
            int_view(r.5.months@) == match self.certain_months_months {
                Option::Some(st) => int_list_from(st@),
                Option::None => Seq::<int>::empty(),
            },
            int_view(r.5.days@) == match self.certain_months_days {
                Option::Some(st) => int_list_from(st@),
                Option::None => Seq::<int>::empty(),
            },
            r.5.time as int == time_col(self.certain_months_time),
            r.6.datetime as int == match self.once_datetime {
                Option::Some(st) => match rfc3339_instant(st@) {
                    Option::Some(v) => v,
                    Option::None => now as int,
                },
                Option::None => now as int,
            },
            r.1.wf() && r.2.wf() && r.3.wf() && r.4.wf() && r.5.wf() && r.6.wf(),
    {
        let kind = kind_from_str(self.kind.as_str());
        let n_days = NDays {
            days: clamp(&self.ndays_days, 1, 36500),
            time: parse_time(&self.ndays_time),
        };
        let n_weeks = NWeeks {
            weeks: clamp(&self.nweeks_weeks, 1, 5200),
            sub_schedule: DaysOfWeek {
                sunday: flag(&self.nweeks_sunday),
                monday: flag(&self.nweeks_monday),
                tuesday: flag(&self.nweeks_tuesday),
                wednesday: flag(&self.nweeks_wednesday),
                thursday: flag(&self.nweeks_thursday),
                friday: flag(&self.nweeks_friday),
                saturday: flag(&self.nweeks_saturday),
                time: parse_time(&self.nweeks_time),
            },
        };
        let monthwise = Monthwise {
            days: parse_int_list(&self.monthwise_days),
            time: parse_time(&self.monthwise_time),
        };
        let weeks_of_month = WeeksOfMonth {
            weeks: parse_int_list(&self.weeks_of_month_weeks),
            sub_schedule: DaysOfWeek {
                sunday: flag(&self.weeks_of_month_sunday),
                monday: flag(&self.weeks_of_month_monday),
                tuesday: flag(&self.weeks_of_month_tuesday),
                wednesday: flag(&self.weeks_of_month_wednesday),
                thursday: flag(&self.weeks_of_month_thursday),
                friday: flag(&self.weeks_of_month_friday),
                saturday: flag(&self.weeks_of_month_saturday),
                time: parse_time(&self.weeks_of_month_time),
            },
        };
        let certain_months = CertainMonths {
            months: parse_int_list(&self.certain_months_months),
            days: parse_int_list(&self.certain_months_days),
            time: parse_time(&self.certain_months_time),
        };
        let once_ts = match &self.once_datetime {
            Option::Some(st) => match parse_rfc3339(st.as_str()) {
                Option::Some(v) => v,
                Option::None => now,
            },
            Option::None => now,
        };
        let once = Once { datetime: once_ts };
        (kind, n_days, n_weeks, monthwise, weeks_of_month, certain_months, once)
    }
}

} // verus!
