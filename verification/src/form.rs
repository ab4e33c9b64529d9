//! The task editor form: the raw fields a submitted form carries, their
//! validation, and their conversion into a chore, field by field, with the
//! previously stored chore supplying every value the form leaves out or
//! spoils.

use vstd::prelude::*;
use crate::calendar::valid_instant;
use crate::daylist::{int_view, msg_empty, parse_day_range, parse_spec};
use crate::schedule::{CertainMonths, DaysOfWeek, Monthwise, NDays, NWeeks, Once, ScheduleKind,
    WeeksOfMonth};
use crate::tasks::{clone_vec_i32, DemoTask};
use crate::timeparse::{hm_secs, parse_hm, parse_ymd, ymd_fields};
use crate::zone::{day_num_of_civil, day_num_of_civil_exec, instant_of_day, instant_of_day_num};
use vstd::string::StrSliceExecFns;
use vstd::string::StringExecFns;

verus! {

/// Validation errors of the task form, one slot per field that can fail and
/// one for anything else.
#[derive(Clone)]
pub struct FormErrors {
    pub monthwise_days: Option<String>,
    pub certain_months_days: Option<String>,
    pub general: Option<String>,
}

impl Default for FormErrors {
    /// No errors.
    fn default() -> (r: Self)
        ensures
            r.monthwise_days is None,
            r.certain_months_days is None,
            r.general is None,
    {
        FormErrors { monthwise_days: Option::None, certain_months_days: Option::None, general: Option::None }
    }
}

impl FormErrors {
    /// Whether any slot holds an error.
    pub fn has_errors(&self) -> (r: bool)
        ensures
            r == (self.monthwise_days is Some || self.certain_months_days is Some
                || self.general is Some),
    {
        self.monthwise_days.is_some() || self.certain_months_days.is_some()
            || self.general.is_some()
    }
}

/// The raw fields of a submitted task form; checkbox fields carry `Some`
/// exactly when ticked.
pub struct TaskForm {
    pub name: String,
    pub details: String,
    pub schedule_type: String,
    pub n_days_count: Option<i32>,
    pub n_days_time: Option<String>,
    pub n_weeks_count: Option<i32>,
    pub n_weeks_time: Option<String>,
    pub dow_sun: Option<String>,
    pub dow_mon: Option<String>,
    pub dow_tue: Option<String>,
    pub dow_wed: Option<String>,
    pub dow_thu: Option<String>,
    pub dow_fri: Option<String>,
    pub dow_sat: Option<String>,
    pub monthwise_days: Option<String>,
    pub monthwise_time: Option<String>,
    pub wom_week_1: Option<String>,
    pub wom_week_2: Option<String>,
    pub wom_week_3: Option<String>,
    pub wom_week_4: Option<String>,
    pub wom_week_5: Option<String>,
    pub wom_dow_sun: Option<String>,
    pub wom_dow_mon: Option<String>,
    pub wom_dow_tue: Option<String>,
    pub wom_dow_wed: Option<String>,
    pub wom_dow_thu: Option<String>,
    pub wom_dow_fri: Option<String>,
    pub wom_dow_sat: Option<String>,
    pub wom_time: Option<String>,
    pub cm_month_jan: Option<String>,
    pub cm_month_feb: Option<String>,
    pub cm_month_mar: Option<String>,
    pub cm_month_apr: Option<String>,
    pub cm_month_may: Option<String>,
    pub cm_month_jun: Option<String>,
    pub cm_month_jul: Option<String>,
    pub cm_month_aug: Option<String>,
    pub cm_month_sep: Option<String>,
    pub cm_month_oct: Option<String>,
    pub cm_month_nov: Option<String>,
    pub cm_month_dec: Option<String>,
    pub cm_days: Option<String>,
    pub cm_time: Option<String>,
    pub once_now: Option<String>,
    pub once_date: Option<String>,
    pub once_time: Option<String>,
    pub alerting_time: Option<i64>,
    pub completeable: Option<String>,
}

impl Default for TaskForm {
    /// An empty form: every text empty, every optional field absent.
    fn default() -> (r: Self)
        ensures
            r.name@ == Seq::<char>::empty(),
            r.details@ == Seq::<char>::empty(),
            r.schedule_type@ == Seq::<char>::empty(),
            r.n_days_count is None,
            r.n_days_time is None,
            r.n_weeks_count is None,
            r.n_weeks_time is None,
            r.dow_sun is None && r.dow_mon is None && r.dow_tue is None && r.dow_wed is None
                && r.dow_thu is None && r.dow_fri is None && r.dow_sat is None,
            r.monthwise_days is None,
            r.monthwise_time is None,
            r.wom_week_1 is None && r.wom_week_2 is None && r.wom_week_3 is None
                && r.wom_week_4 is None && r.wom_week_5 is None,
            r.wom_dow_sun is None && r.wom_dow_mon is None && r.wom_dow_tue is None
                && r.wom_dow_wed is None && r.wom_dow_thu is None && r.wom_dow_fri is None
                && r.wom_dow_sat is None,
            r.wom_time is None,
            r.cm_month_jan is None && r.cm_month_feb is None && r.cm_month_mar is None
                && r.cm_month_apr is None && r.cm_month_may is None && r.cm_month_jun is None
                && r.cm_month_jul is None && r.cm_month_aug is None && r.cm_month_sep is None
                && r.cm_month_oct is None && r.cm_month_nov is None && r.cm_month_dec is None,
            r.cm_days is None,
            r.cm_time is None,
            r.once_now is None,
            r.once_date is None,
            r.once_time is None,
            r.alerting_time is None,
            r.completeable is None,
    {
        proof {
            reveal_strlit("");
        }
        TaskForm {
            name: String::new(),
            details: String::new(),
            schedule_type: String::new(),
            n_days_count: Option::None,
            n_days_time: Option::None,
            n_weeks_count: Option::None,
            n_weeks_time: Option::None,
            dow_sun: Option::None,
            dow_mon: Option::None,
            dow_tue: Option::None,
            dow_wed: Option::None,
            dow_thu: Option::None,
            dow_fri: Option::None,
            dow_sat: Option::None,
            monthwise_days: Option::None,
            monthwise_time: Option::None,
            wom_week_1: Option::None,
            wom_week_2: Option::None,
            wom_week_3: Option::None,
            wom_week_4: Option::None,
            wom_week_5: Option::None,
            wom_dow_sun: Option::None,
            wom_dow_mon: Option::None,
            wom_dow_tue: Option::None,
            wom_dow_wed: Option::None,
            wom_dow_thu: Option::None,
            wom_dow_fri: Option::None,
            wom_dow_sat: Option::None,
            wom_time: Option::None,
            cm_month_jan: Option::None,
            cm_month_feb: Option::None,
            cm_month_mar: Option::None,
            cm_month_apr: Option::None,
            cm_month_may: Option::None,
            cm_month_jun: Option::None,
            cm_month_jul: Option::None,
            cm_month_aug: Option::None,
            cm_month_sep: Option::None,
            cm_month_oct: Option::None,
            cm_month_nov: Option::None,
            cm_month_dec: Option::None,
            cm_days: Option::None,
            cm_time: Option::None,
            once_now: Option::None,
            once_date: Option::None,
            once_time: Option::None,
            alerting_time: Option::None,
            completeable: Option::None,
        }
    }
}

/// A time field's seconds: the parsed `HH:MM` value, or `base` when the
/// field is absent or unreadable.
pub open spec fn time_or(field: Option<String>, base: int) -> int {
    match field {
        Option::Some(t) => match hm_secs(t@) {
            Option::Some(v) => v,
            Option::None => base,
        },
        Option::None => base,
    }
}

/// A count clamped into `lo..=hi`.
pub open spec fn clamp_int(v: int, lo: int, hi: int) -> int {
    if v < lo {
        lo
    } else if v > hi {
        hi
    } else {
        v
    }
}

/// A day-list field's days: the parsed list, or `base` when the field is
/// absent or unreadable.
pub open spec fn days_or(field: Option<String>, base: Seq<int>) -> Seq<int> {
    match field {
        Option::Some(s) => match parse_spec(s@) {
            Result::Ok(ds) => ds,
            Result::Err(_) => base,
        },
        Option::None => base,
    }
}

/// The ordinals the ticked flags select: flag `k` (1-based) contributes
/// `k`, in order.
pub open spec fn sel_from(flags: Seq<bool>) -> Seq<int>
    decreases flags.len(),
{
    if flags.len() == 0 {
        Seq::empty()
    } else {
        sel_from(flags.drop_last()) + (if flags.last() {
            seq![flags.len() as int]
        } else {
            Seq::empty()
        })
    }
}

/// The week ordinals the five week checkboxes select, or `base` when none
/// is ticked.
pub open spec fn weeks_sel(
    w1: Option<String>,
    w2: Option<String>,
    w3: Option<String>,
    w4: Option<String>,
    w5: Option<String>,
    base: Seq<int>,
) -> Seq<int> {
    let sel = sel_from(seq![w1 is Some, w2 is Some, w3 is Some, w4 is Some, w5 is Some]);
    if sel.len() == 0 {
        base
    } else {
        sel
    }
}

/// The months the twelve month checkboxes select, or `base` when none is
/// ticked.
pub open spec fn months_sel(f: &TaskForm, base: Seq<int>) -> Seq<int> {
    let sel = sel_from(
        seq![
            f.cm_month_jan is Some,
            f.cm_month_feb is Some,
            f.cm_month_mar is Some,
            f.cm_month_apr is Some,
            f.cm_month_may is Some,
            f.cm_month_jun is Some,
            f.cm_month_jul is Some,
            f.cm_month_aug is Some,
            f.cm_month_sep is Some,
            f.cm_month_oct is Some,
            f.cm_month_nov is Some,
            f.cm_month_dec is Some,
        ],
    );
    if sel.len() == 0 {
        base
    } else {
        sel
    }
}

/// The schedule kind a form names, or `fallback` for an unknown name.
pub open spec fn kind_or(s: Seq<char>, fallback: ScheduleKind) -> ScheduleKind {
    if s == "n_days"@ {
        ScheduleKind::NDays
    } else if s == "n_weeks"@ {
        ScheduleKind::NWeeks
    } else if s == "monthwise"@ {
        ScheduleKind::Monthwise
    } else if s == "weeks_of_month"@ {
        ScheduleKind::WeeksOfMonth
    } else if s == "certain_months"@ {
        ScheduleKind::CertainMonths
    } else if s == "once"@ {
        ScheduleKind::Once
    } else {
        fallback
    }
}

/// The one-time field's time of day: the parsed non-empty `HH:MM` text, or
/// 09:00.
pub open spec fn once_time_secs(field: Option<String>) -> int {
    match field {
        Option::Some(t) => if t@.len() > 0 {
            match hm_secs(t@) {
                Option::Some(v) => v,
                Option::None => 32400,
            }
        } else {
            32400
        },
        Option::None => 32400,
    }
}

/// The one-time instant a form denotes: `now` when "now" is ticked; else
/// the named local date at the form's time of day, converted in the zone;
/// else the stored instant.
pub open spec fn once_instant(
    once_now: Option<String>,
    once_date: Option<String>,
    once_time: Option<String>,
    base: int,
    now: int,
    tz: Seq<char>,
) -> int {
    if once_now is Some {
        now
    } else {
        match once_date {
            Option::Some(ds) => if ds@.len() > 0 && ymd_fields(ds@) is Some {
                let f = ymd_fields(ds@)->Some_0;
                instant_of_day(day_num_of_civil(f.0, f.1, f.2), once_time_secs(once_time), tz)
            } else {
                base
            },
            Option::None => base,
        }
    }
}

/// What validation says of one day-list field: nothing when the field is
/// not in play, the parse error when the text is bad, the missing-field
/// message when it is absent.
pub open spec fn day_field_error(field: Option<String>, in_play: bool) -> Option<Seq<char>> {
    if !in_play {
        None
    } else {
        match field {
            Option::Some(ds) => match parse_spec(ds@) {
                Result::Ok(_) => None,
                Result::Err(e) => Some(e),
            },
            Option::None => Some(msg_empty()),
        }
    }
}

fn time_field(field: &Option<String>, base: u32) -> (r: u32)
    requires
        base < 86400,
    ensures
        r as int == time_or(*field, base as int),
        r < 86400,
{
    match field {
        Option::Some(t) => match parse_hm(t.as_str()) {
            Option::Some(v) => v,
            Option::None => base,
        },
        Option::None => base,
    }
}

fn days_field(field: &Option<String>, base: &Vec<i32>) -> (r: Vec<i32>)
    ensures
        int_view(r@) == days_or(*field, int_view(base@)),
{
    match field {
        Option::Some(s) => match parse_day_range(s.as_str()) {
            Result::Ok(v) => v,
            Result::Err(_) => clone_vec_i32(base),
        },
        Option::None => clone_vec_i32(base),
    }
}

fn clamp_v(v: i32, lo: i32, hi: i32) -> (r: i32)
    requires
        lo <= hi,
    ensures
        r as int == clamp_int(v as int, lo as int, hi as int),
        lo <= r <= hi,
{
    if v < lo {
        lo
    } else if v > hi {
        hi
    } else {
        v
    }
}

fn clamp_a(v: i64, lo: i64, hi: i64) -> (r: i64)
    requires
        lo <= hi,
    ensures
        r as int == clamp_int(v as int, lo as int, hi as int),
        lo <= r <= hi,
{
    if v < lo {
        lo
    } else if v > hi {
        hi
    } else {
        v
    }
}

fn kind_or_else(s: &str, fallback: ScheduleKind) -> (r: ScheduleKind)
    ensures
        r == kind_or(s@, fallback),
{
    if crate::strutil::str_eq(s, "n_days") {
        ScheduleKind::NDays
    } else if crate::strutil::str_eq(s, "n_weeks") {
        ScheduleKind::NWeeks
    } else if crate::strutil::str_eq(s, "monthwise") {
        ScheduleKind::Monthwise
    } else if crate::strutil::str_eq(s, "weeks_of_month") {
        ScheduleKind::WeeksOfMonth
    } else if crate::strutil::str_eq(s, "certain_months") {
        ScheduleKind::CertainMonths
    } else if crate::strutil::str_eq(s, "once") {
        ScheduleKind::Once
    } else {
        fallback
    }
}

/// Collects `k + 1` for every set flag, in order.
fn select_ordinals(flags: &Vec<bool>) -> (r: Vec<i32>)
    requires
        flags@.len() <= 12,
    ensures
        int_view(r@) == sel_from(flags@),
{
    let mut v: Vec<i32> = Vec::new();
    let mut k: usize = 0;
    proof {
        assert(flags@.take(0) =~= Seq::<bool>::empty());
        assert(int_view(v@) =~= Seq::<int>::empty());
    }
    while k < flags.len()
        invariant
            0 <= k <= flags@.len(),
            flags@.len() <= 12,
            int_view(v@) == sel_from(flags@.take(k as int)),
        decreases flags@.len() - k,
    {
        let ghost base = v@;
        if flags[k] {
            v.push((k as i32) + 1);
        }
        proof {
            let w = flags@.take(k + 1);
            assert(w.drop_last() =~= flags@.take(k as int));
            assert(w.last() == flags@[k as int]);
            if flags@[k as int] {
                assert(int_view(v@) =~= int_view(base) + seq![k + 1]);
            } else {
                assert(int_view(v@) =~= int_view(base) + Seq::<int>::empty());
            }
        }
        k = k + 1;
    }
    proof {
        assert(flags@.take(flags@.len() as int) =~= flags@);
    }
    v
}

fn build_wom_weeks(f: &TaskForm, base: &Vec<i32>) -> (r: Vec<i32>)
    ensures
        int_view(r@) == weeks_sel(
            f.wom_week_1,
            f.wom_week_2,
            f.wom_week_3,
            f.wom_week_4,
            f.wom_week_5,
            int_view(base@),
        ),
{
    let mut flags: Vec<bool> = Vec::new();
    flags.push(f.wom_week_1.is_some());
    flags.push(f.wom_week_2.is_some());
    flags.push(f.wom_week_3.is_some());
    flags.push(f.wom_week_4.is_some());
    flags.push(f.wom_week_5.is_some());
    proof {
        assert(flags@ =~= seq![
            f.wom_week_1 is Some,
            f.wom_week_2 is Some,
            f.wom_week_3 is Some,
            f.wom_week_4 is Some,
            f.wom_week_5 is Some,
        ]);
    }
    let v = select_ordinals(&flags);
    if v.len() == 0 {
        clone_vec_i32(base)
    } else {
        v
    }
}

#[verifier::rlimit(100)]
fn build_cm_months(f: &TaskForm, base: &Vec<i32>) -> (r: Vec<i32>)
    ensures
        int_view(r@) == months_sel(f, int_view(base@)),
{
    let mut flags: Vec<bool> = Vec::new();
    flags.push(f.cm_month_jan.is_some());
    flags.push(f.cm_month_feb.is_some());
    flags.push(f.cm_month_mar.is_some());
    flags.push(f.cm_month_apr.is_some());
    flags.push(f.cm_month_may.is_some());
    flags.push(f.cm_month_jun.is_some());
    flags.push(f.cm_month_jul.is_some());
    flags.push(f.cm_month_aug.is_some());
    flags.push(f.cm_month_sep.is_some());
    flags.push(f.cm_month_oct.is_some());
    flags.push(f.cm_month_nov.is_some());
    flags.push(f.cm_month_dec.is_some());
    proof {
        assert(flags@ =~= seq![
            f.cm_month_jan is Some,
            f.cm_month_feb is Some,
            f.cm_month_mar is Some,
            f.cm_month_apr is Some,
            f.cm_month_may is Some,
            f.cm_month_jun is Some,
            f.cm_month_jul is Some,
            f.cm_month_aug is Some,
            f.cm_month_sep is Some,
            f.cm_month_oct is Some,
            f.cm_month_nov is Some,
            f.cm_month_dec is Some,
        ]);
    }
    let v = select_ordinals(&flags);
    if v.len() == 0 {
        clone_vec_i32(base)
    } else {
        v
    }
}

fn build_once_instant(f: &TaskForm, base: i64, now: i64, tz: &str) -> (r: i64)
    requires
        valid_instant(base as int),
        valid_instant(now as int),
    ensures
        r as int == once_instant(f.once_now, f.once_date, f.once_time, base as int, now as int, tz@),
        valid_instant(r as int),
{
    if f.once_now.is_some() {
        return now;
    }
    match &f.once_date {
        Option::Some(ds) => {
            if ds.as_str().unicode_len() > 0 {
                match parse_ymd(ds.as_str()) {
                    Option::Some(fields) => {
                        let secs: u32 = match &f.once_time {
                            Option::Some(t) => {
                                if t.as_str().unicode_len() > 0 {
                                    match parse_hm(t.as_str()) {
                                        Option::Some(v) => v,
                                        Option::None => 32400,
                                    }
                                } else {
                                    32400
                                }
                            },
                            Option::None => 32400,
                        };
                        let dn = day_num_of_civil_exec(fields.0, fields.1, fields.2);
                        let inst = instant_of_day_num(dn, secs, tz);
                        inst
                    },
                    Option::None => base,
                }
            } else {
                base
            }
        },
        Option::None => base,
    }
}

impl TaskForm {
    /// The chore a submitted form denotes, field by field: every value the
    /// form leaves out, leaves empty or spoils comes from `base_task`, the
    /// chore as stored; counts and the alerting duration are clamped into
    /// the engine's ranges; the "now" checkbox pins the one-time instant to
    /// the supplied current instant; and the validity window always comes
    /// from `base_task`.
    #[verifier::rlimit(100)]
    pub fn to_demo_task(&self, id: &str, base_task: &DemoTask, now: i64, tz: &str) -> (r:
        DemoTask)
        requires
            base_task.wf(),
            valid_instant(now as int),
        ensures
            r.id@ == id@,
            r.name@ == self.name@,
            r.details@ == self.details@,
            r.schedule_kind == kind_or(self.schedule_type@, base_task.schedule_kind),
            r.n_days.days as int == clamp_int(
                match self.n_days_count {
                    Option::Some(c) => c as int,
                    Option::None => base_task.n_days.days as int,
                },
                1,
                36500,
            ),
            r.n_days.time as int == time_or(self.n_days_time, base_task.n_days.time as int),
            r.n_weeks.weeks as int == clamp_int(
                match self.n_weeks_count {
                    Option::Some(c) => c as int,
                    Option::None => base_task.n_weeks.weeks as int,
                },
                1,
                5200,
            ),
            r.n_weeks.sub_schedule.sunday == self.dow_sun is Some,
            r.n_weeks.sub_schedule.monday == self.dow_mon is Some,
            r.n_weeks.sub_schedule.tuesday == self.dow_tue is Some,
            r.n_weeks.sub_schedule.wednesday == self.dow_wed is Some,
            r.n_weeks.sub_schedule.thursday == self.dow_thu is Some,
            r.n_weeks.sub_schedule.friday == self.dow_fri is Some,
            r.n_weeks.sub_schedule.saturday == self.dow_sat is Some,
            r.n_weeks.sub_schedule.time as int == time_or(
                self.n_weeks_time,
                base_task.n_weeks.sub_schedule.time as int,
            ),
            int_view(r.monthwise.days@) == days_or(
                self.monthwise_days,
                int_view(base_task.monthwise.days@),
            ),
            r.monthwise.time as int == time_or(
                self.monthwise_time,
                base_task.monthwise.time as int,
            ),
            int_view(r.weeks_of_month.weeks@) == weeks_sel(
                self.wom_week_1,
                self.wom_week_2,
                self.wom_week_3,
                self.wom_week_4,
                self.wom_week_5,
                int_view(base_task.weeks_of_month.weeks@),
            ),
            r.weeks_of_month.sub_schedule.sunday == self.wom_dow_sun is Some,
            r.weeks_of_month.sub_schedule.monday == self.wom_dow_mon is Some,
            r.weeks_of_month.sub_schedule.tuesday == self.wom_dow_tue is Some,
            r.weeks_of_month.sub_schedule.wednesday == self.wom_dow_wed is Some,
            r.weeks_of_month.sub_schedule.thursday == self.wom_dow_thu is Some,
            r.weeks_of_month.sub_schedule.friday == self.wom_dow_fri is Some,
            r.weeks_of_month.sub_schedule.saturday == self.wom_dow_sat is Some,
            r.weeks_of_month.sub_schedule.time as int == time_or(
                self.wom_time,
                base_task.weeks_of_month.sub_schedule.time as int,
            ),
            int_view(r.certain_months.months@) == months_sel(self, int_view(
                base_task.certain_months.months@,
            )),
            int_view(r.certain_months.days@) == days_or(
                self.cm_days,
                int_view(base_task.certain_months.days@),
            ),
            r.certain_months.time as int == time_or(
                self.cm_time,
                base_task.certain_months.time as int,
            ),
            r.once.datetime as int == once_instant(
                self.once_now,
                self.once_date,
                self.once_time,
                base_task.once.datetime as int,
                now as int,
                tz@,
            ),
            r.alerting_time as int == clamp_int(
                match self.alerting_time {
                    Option::Some(a) => a as int,
                    Option::None => base_task.alerting_time as int,
                },
                0,
                527040,
            ),
            r.completeable == self.completeable is Some,
            r.created_at == base_task.created_at,
            r.deleted_at == base_task.deleted_at,
            r.wf(),
    {
        let schedule_kind = kind_or_else(
            self.schedule_type.as_str(),
            base_task.schedule_kind,
        );
        let n_days = NDays {
            days: clamp_v(
                match self.n_days_count {
                    Option::Some(c) => c,
                    Option::None => base_task.n_days.days,
                },
                1,
                36500,
            ),
            time: time_field(&self.n_days_time, base_task.n_days.time),
        };
        let n_weeks = NWeeks {
            weeks: clamp_v(
                match self.n_weeks_count {
                    Option::Some(c) => c,
                    Option::None => base_task.n_weeks.weeks,
                },
                1,
                5200,
            ),
            sub_schedule: DaysOfWeek {
                sunday: self.dow_sun.is_some(),
                monday: self.dow_mon.is_some(),
                tuesday: self.dow_tue.is_some(),
                wednesday: self.dow_wed.is_some(),
                thursday: self.dow_thu.is_some(),
                friday: self.dow_fri.is_some(),
                saturday: self.dow_sat.is_some(),
                time: time_field(&self.n_weeks_time, base_task.n_weeks.sub_schedule.time),
            },
        };
        let monthwise = Monthwise {
            days: days_field(&self.monthwise_days, &base_task.monthwise.days),
            time: time_field(&self.monthwise_time, base_task.monthwise.time),
        };
        let wom_weeks = build_wom_weeks(self, &base_task.weeks_of_month.weeks);
        let weeks_of_month = WeeksOfMonth {
            weeks: wom_weeks,
            sub_schedule: DaysOfWeek {
                sunday: self.wom_dow_sun.is_some(),
                monday: self.wom_dow_mon.is_some(),
                tuesday: self.wom_dow_tue.is_some(),
                wednesday: self.wom_dow_wed.is_some(),
                thursday: self.wom_dow_thu.is_some(),
                friday: self.wom_dow_fri.is_some(),
                saturday: self.wom_dow_sat.is_some(),
                time: time_field(&self.wom_time, base_task.weeks_of_month.sub_schedule.time),
            },
        };
        let cm_months = build_cm_months(self, &base_task.certain_months.months);
        let certain_months = CertainMonths {
            months: cm_months,
            days: days_field(&self.cm_days, &base_task.certain_months.days),
            time: time_field(&self.cm_time, base_task.certain_months.time),
        };
        let once_dt: i64 = build_once_instant(self, base_task.once.datetime, now, tz);
        let once = Once { datetime: once_dt };
        DemoTask {
            id: String::from_str(id),
            name: self.name.clone(),
            details: self.details.clone(),
            schedule_kind,
            n_days,
            n_weeks,
            monthwise,
            weeks_of_month,
            certain_months,
            once,
            alerting_time: clamp_a(
                match self.alerting_time {
                    Option::Some(a) => a,
                    Option::None => base_task.alerting_time,
                },
                0,
                527040,
            ),
            completeable: self.completeable.is_some(),
            created_at: base_task.created_at,
            deleted_at: base_task.deleted_at,
        }
    }

    /// Validates the day-list fields of the active schedule kind; the
    /// general slot stays empty.
    pub fn validate(&self) -> (r: FormErrors)
        ensures
            match r.monthwise_days {
                Option::Some(e) => day_field_error(
                    self.monthwise_days,
                    self.schedule_type@ == "monthwise"@,
                ) == Some(e@),
                Option::None => day_field_error(
                    self.monthwise_days,
                    self.schedule_type@ == "monthwise"@,
                ) is None,
            },
            match r.certain_months_days {
                Option::Some(e) => day_field_error(
                    self.cm_days,
                    self.schedule_type@ == "certain_months"@,
                ) == Some(e@),
                Option::None => day_field_error(
                    self.cm_days,
                    self.schedule_type@ == "certain_months"@,
                ) is None,
            },
            r.general is None,
    {
        let monthwise_err: Option<String> = if crate::strutil::str_eq(
            self.schedule_type.as_str(),
            "monthwise",
        ) {
            match &self.monthwise_days {
                Option::Some(ds) => match parse_day_range(ds.as_str()) {
                    Result::Ok(_) => Option::None,
                    Result::Err(e) => Option::Some(e),
                },
                Option::None => Option::Some(
                    String::from_str("Please enter at least one day"),
                ),
            }
        } else {
            Option::None
        };
        let cm_err: Option<String> = if crate::strutil::str_eq(
            self.schedule_type.as_str(),
            "certain_months",
        ) {
            match &self.cm_days {
                Option::Some(ds) => match parse_day_range(ds.as_str()) {
                    Result::Ok(_) => Option::None,
                    Result::Err(e) => Option::Some(e),
                },
                Option::None => Option::Some(
                    String::from_str("Please enter at least one day"),
                ),
            }
        } else {
            Option::None
        };
        FormErrors {
            monthwise_days: monthwise_err,
            certain_months_days: cm_err,
            general: Option::None,
        }
    }
}

} // verus!
