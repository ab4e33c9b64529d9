//! Bounded due-date search: the per-kind day predicate, the backward search
//! for the most recent due instant and the forward search for the next one,
//! each with a fixed horizon per recurrence kind and a deterministic
//! fallback when the horizon is exhausted.

use vstd::prelude::*;
use crate::calendar::{valid_instant, week_of_month, weekday_of_day, week_of_month_exec,
    weekday_of_day_num};
use crate::schedule::{contains_int, contains_val, DaysOfWeek, Schedule, ScheduleKind, NDays,
    NWeeks, Once};
use crate::zone::{civil_of_day, civil_of_day_num, instant_of_day, instant_of_day_num,
    local_stamp, local_stamp_of, LocalStamp};

verus! {

/// The ghost value of a [`Schedule`]: the same parameters with vectors
/// abstracted to sequences.
pub struct ScheduleView {
    pub kind: ScheduleKind,
    pub n_days: NDays,
    pub n_weeks: NWeeks,
    pub monthwise_days: Seq<i32>,
    pub monthwise_time: u32,
    pub wom_weeks: Seq<i32>,
    pub wom_dow: DaysOfWeek,
    pub cm_months: Seq<i32>,
    pub cm_days: Seq<i32>,
    pub cm_time: u32,
    pub once: Once,
}

impl View for Schedule {
    type V = ScheduleView;

    open spec fn view(&self) -> ScheduleView {
        ScheduleView {
            kind: self.kind,
            n_days: self.n_days,
            n_weeks: self.n_weeks,
            monthwise_days: self.monthwise.days@,
            monthwise_time: self.monthwise.time,
            wom_weeks: self.weeks_of_month.weeks@,
            wom_dow: self.weeks_of_month.sub_schedule,
            cm_months: self.certain_months.months@,
            cm_days: self.certain_months.days@,
            cm_time: self.certain_months.time,
            once: self.once,
        }
    }
}

impl ScheduleView {
    pub open spec fn wf(&self) -> bool {
        &&& self.n_days.wf()
        &&& self.n_weeks.wf()
        &&& self.monthwise_time < 86400
        &&& self.wom_dow.wf()
        &&& self.cm_time < 86400
        &&& self.once.wf()
    }
}

/// The time of day, in local seconds, at which an occurrence of the active
/// kind is due; for a one-time schedule it is the local time of the fixed
/// instant.
pub open spec fn due_time_secs(s: ScheduleView, tz: Seq<char>) -> int {
    match s.kind {
        ScheduleKind::NDays => s.n_days.time as int,
        ScheduleKind::NWeeks => s.n_weeks.sub_schedule.time as int,
        ScheduleKind::Monthwise => s.monthwise_time as int,
        ScheduleKind::WeeksOfMonth => s.wom_dow.time as int,
        ScheduleKind::CertainMonths => s.cm_time as int,
        ScheduleKind::Once => local_stamp(s.once.datetime as int, tz).1,
    }
}

/// Whether the calendar day with number `n` is an occurrence day of the
/// schedule, when today (the caller's current local date) has number
/// `today_n`.  The every-n-days kind is anchored to today, not to an
/// origin date.
pub open spec fn due_on_day(s: ScheduleView, today_n: int, n: int, tz: Seq<char>) -> bool {
    match s.kind {
        ScheduleKind::NDays => (if n >= today_n {
            n - today_n
        } else {
            today_n - n
        }) % (s.n_days.days as int) == 0,
        ScheduleKind::NWeeks => s.n_weeks.sub_schedule.active_spec(weekday_of_day(n)),
        ScheduleKind::Monthwise => contains_int(s.monthwise_days, civil_of_day(n).2),
        ScheduleKind::WeeksOfMonth => s.wom_dow.active_spec(weekday_of_day(n)) && contains_int(
            s.wom_weeks,
            week_of_month(civil_of_day(n).2),
        ),
        ScheduleKind::CertainMonths => contains_int(s.cm_months, civil_of_day(n).1)
            && contains_int(s.cm_days, civil_of_day(n).2),
        ScheduleKind::Once => n == local_stamp(s.once.datetime as int, tz).0,
    }
}

/// Whether day `n` lies inside the validity window: not before the local
/// date of `created` and not after the local date of `deleted`.
pub open spec fn in_window(
    created: Option<i64>,
    deleted: Option<i64>,
    n: int,
    tz: Seq<char>,
) -> bool {
    &&& match created {
        Option::Some(c) => n >= local_stamp(c as int, tz).0,
        Option::None => true,
    }
    &&& match deleted {
        Option::Some(d) => n <= local_stamp(d as int, tz).0,
        Option::None => true,
    }
}

/// How many days the backward search looks, per kind.
pub open spec fn horizon_back(s: ScheduleView) -> int {
    match s.kind {
        ScheduleKind::NDays => if s.n_days.days > 60 {
            s.n_days.days as int
        } else {
            60
        },
        ScheduleKind::NWeeks => 7 * s.n_weeks.weeks as int,
        ScheduleKind::Monthwise => 60,
        ScheduleKind::WeeksOfMonth => 60,
        ScheduleKind::CertainMonths => 400,
        ScheduleKind::Once => 60,
    }
}

/// How many days the forward search looks: about three years, so that even
/// a sparse certain-months schedule is found.
pub open spec fn horizon_fwd() -> int {
    1000
}

/// The first due instant at or before `now`, walking backward from today
/// day by day: day `today_n - k` is tried first, then earlier days, up to
/// `h` days back; `None` when the horizon is exhausted.
pub open spec fn search_back(
    s: ScheduleView,
    created: Option<i64>,
    deleted: Option<i64>,
    today_n: int,
    k: int,
    h: int,
    now: int,
    tz: Seq<char>,
) -> Option<int>
    decreases h - k + 1,
{
    if k > h {
        None
    } else {
        let n = today_n - k;
        let inst = instant_of_day(n, due_time_secs(s, tz), tz);
        if due_on_day(s, today_n, n, tz) && in_window(created, deleted, n, tz) && inst <= now {
            Some(inst)
        } else {
            search_back(s, created, deleted, today_n, k + 1, h, now, tz)
        }
    }
}

/// The first due instant strictly after `now`, walking forward from today.
pub open spec fn search_fwd(
    s: ScheduleView,
    created: Option<i64>,
    deleted: Option<i64>,
    today_n: int,
    k: int,
    h: int,
    now: int,
    tz: Seq<char>,
) -> Option<int>
    decreases h - k + 1,
{
    if k > h {
        None
    } else {
        let n = today_n + k;
        let inst = instant_of_day(n, due_time_secs(s, tz), tz);
        if due_on_day(s, today_n, n, tz) && in_window(created, deleted, n, tz) && inst > now {
            Some(inst)
        } else {
            search_fwd(s, created, deleted, today_n, k + 1, h, now, tz)
        }
    }
}

/// What the backward search returns: a found value is the due instant, at
/// the schedule's time of day, of the nearest qualifying occurrence day
/// within the horizon, and it never lies after `now`; a miss means no day
/// within the horizon qualifies.
pub proof fn lemma_search_back_found(
    s: ScheduleView,
    created: Option<i64>,
    deleted: Option<i64>,
    today_n: int,
    k0: int,
    h: int,
    now: int,
    tz: Seq<char>,
)
    requires
        0 <= k0,
    ensures
        match search_back(s, created, deleted, today_n, k0, h, now, tz) {
            Option::Some(v) => exists|k: int|
                k0 <= k <= h && #[trigger] due_on_day(s, today_n, today_n - k, tz) && in_window(
                    created,
                    deleted,
                    today_n - k,
                    tz,
                ) && v == instant_of_day(today_n - k, due_time_secs(s, tz), tz) && v <= now,
            Option::None => forall|k: int|
                k0 <= k <= h ==> !(#[trigger] due_on_day(s, today_n, today_n - k, tz)
                    && in_window(created, deleted, today_n - k, tz) && instant_of_day(
                    today_n - k,
                    due_time_secs(s, tz),
                    tz,
                ) <= now),
        },
    decreases h - k0 + 1,
{
    if k0 <= h {
        let n = today_n - k0;
        let inst = instant_of_day(n, due_time_secs(s, tz), tz);
        if due_on_day(s, today_n, n, tz) && in_window(created, deleted, n, tz) && inst <= now {
        } else {
            lemma_search_back_found(s, created, deleted, today_n, k0 + 1, h, now, tz);
        }
    }
}

/// Unless no day within the horizon has a due instant at or before `now`
/// (the fallback `now` minus the horizon is then returned), the most
/// recent due instant of a recurring schedule is the schedule's time of
/// day on a qualifying occurrence day within the horizon, at or before
/// `now`.
pub proof fn lemma_most_recent_due_occurrence(
    s: ScheduleView,
    created: Option<i64>,
    deleted: Option<i64>,
    now: int,
    tz: Seq<char>,
)
    requires
        !(s.kind is Once),
    ensures
        ({
            let today_n = local_stamp(now, tz).0;
            let h = horizon_back(s);
            let r = most_recent_due_spec(s, created, deleted, now, tz);
            r == now - h * 86400 || (exists|k: int|
                0 <= k <= h && #[trigger] due_on_day(s, today_n, today_n - k, tz) && in_window(
                    created,
                    deleted,
                    today_n - k,
                    tz,
                ) && r == instant_of_day(today_n - k, due_time_secs(s, tz), tz) && r <= now)
        }),
{
    let today_n = local_stamp(now, tz).0;
    let h = horizon_back(s);
    lemma_search_back_found(s, created, deleted, today_n, 0, h, now, tz);
}

/// A weekly schedule active only on Wednesday, looked at every other week:
/// when the backward search finds an occurrence, it lies on a Wednesday at
/// the configured time of day, at most 14 days before today and not after
/// `now`; otherwise the fallback 14 days before `now` is returned.
pub proof fn lemma_wednesday_only_most_recent(
    s: ScheduleView,
    created: Option<i64>,
    deleted: Option<i64>,
    now: int,
    tz: Seq<char>,
)
    requires
        s.kind is NWeeks,
        s.n_weeks.weeks == 2,
        s.n_weeks.sub_schedule.wednesday,
        !s.n_weeks.sub_schedule.sunday,
        !s.n_weeks.sub_schedule.monday,
        !s.n_weeks.sub_schedule.tuesday,
        !s.n_weeks.sub_schedule.thursday,
        !s.n_weeks.sub_schedule.friday,
        !s.n_weeks.sub_schedule.saturday,
    ensures
        ({
            let today_n = local_stamp(now, tz).0;
            let r = most_recent_due_spec(s, created, deleted, now, tz);
            r == now - 14 * 86400 || (exists|k: int|
                0 <= k <= 14 && #[trigger] weekday_of_day(today_n - k) == 3 && r
                    == instant_of_day(
                    today_n - k,
                    s.n_weeks.sub_schedule.time as int,
                    tz,
                ) && r <= now)
        }),
{
    let today_n = local_stamp(now, tz).0;
    let r = most_recent_due_spec(s, created, deleted, now, tz);
    lemma_most_recent_due_occurrence(s, created, deleted, now, tz);
    assert(horizon_back(s) == 14);
    if r != now - 14 * 86400 {
        let k = choose|k: int|
            0 <= k <= 14 && #[trigger] due_on_day(s, today_n, today_n - k, tz) && in_window(
                created,
                deleted,
                today_n - k,
                tz,
            ) && r == instant_of_day(today_n - k, due_time_secs(s, tz), tz) && r <= now;
        let w = weekday_of_day(today_n - k);
        assert(s.n_weeks.sub_schedule.active_spec(w));
        assert(0 <= w < 7) by {
            assert(w == (today_n - k) % 7);
        }
        assert(w == 3);
        assert(weekday_of_day(today_n - k) == 3);
    }
}

/// The value [`most_recent_due`] returns: the backward search's find, the
/// one-time schedule's own instant when it has passed, or the fallback
/// `now` minus the horizon.  A one-time schedule is checked directly
/// against its fixed instant and, unlike the recurring kinds, is not
/// filtered by the validity window: inactivity is the caller's separate
/// predicate there.
pub open spec fn most_recent_due_spec(
    s: ScheduleView,
    created: Option<i64>,
    deleted: Option<i64>,
    now: int,
    tz: Seq<char>,
) -> int {
    if s.kind is Once {
        if s.once.datetime <= now {
            s.once.datetime as int
        } else {
            now - 60 * 86400
        }
    } else {
        let h = horizon_back(s);
        match search_back(s, created, deleted, local_stamp(now, tz).0, 0, h, now, tz) {
            Option::Some(v) => v,
            Option::None => now - h * 86400,
        }
    }
}

/// The value [`next_due`] returns: the forward search's find, the one-time
/// schedule's own instant whether past or future, or the distant sentinel
/// `now` plus 10000 days.
pub open spec fn next_due_spec(
    s: ScheduleView,
    created: Option<i64>,
    deleted: Option<i64>,
    now: int,
    tz: Seq<char>,
) -> int {
    if s.kind is Once {
        s.once.datetime as int
    } else {
        match search_fwd(s, created, deleted, local_stamp(now, tz).0, 0, horizon_fwd(), now, tz) {
            Option::Some(v) => v,
            Option::None => now + 10000 * 86400,
        }
    }
}

/// Tests whether day `n` is an occurrence day of the schedule when today is
/// `today_n`, the executable side of [`due_on_day`].
pub fn day_matches(s: &Schedule, today_n: i64, n: i64, tz: &str) -> (r: bool)
    requires
        s@.wf(),
        -1000000 <= n <= 10000000,
        -1000000 <= today_n <= 10000000,
    ensures
        r == due_on_day(s@, today_n as int, n as int, tz@),
{
    match s.kind {
        ScheduleKind::NDays => {
            let diff = if n >= today_n {
                n - today_n
            } else {
                today_n - n
            };
            diff % (s.n_days.days as i64) == 0
        },
        ScheduleKind::NWeeks => {
            let w = weekday_of_day_num(n);
            s.n_weeks.sub_schedule.active(w)
        },
        ScheduleKind::Monthwise => {
            let civ = civil_of_day_num(n);
            contains_val(&s.monthwise.days, civ.2 as i64)
        },
        ScheduleKind::WeeksOfMonth => {
            let civ = civil_of_day_num(n);
            let w = weekday_of_day_num(n);
            let wk = week_of_month_exec(civ.2);
            s.weeks_of_month.sub_schedule.active(w) && contains_val(
                &s.weeks_of_month.weeks,
                wk as i64,
            )
        },
        ScheduleKind::CertainMonths => {
            let civ = civil_of_day_num(n);
            contains_val(&s.certain_months.months, civ.1 as i64) && contains_val(
                &s.certain_months.days,
                civ.2 as i64,
            )
        },
        ScheduleKind::Once => {
            let st = local_stamp_of(s.once.datetime, tz);
            n == st.day_num
        },
    }
}

/// The configured time of day of a schedule whose kind is not one-time.
fn due_time_of(s: &Schedule) -> (r: u32)
    requires
        s@.wf(),
        !(s@.kind is Once),
    ensures
        forall|tz: Seq<char>| r as int == #[trigger] due_time_secs(s@, tz),
        r < 86400,
{
    match s.kind {
        ScheduleKind::NDays => s.n_days.time,
        ScheduleKind::NWeeks => s.n_weeks.sub_schedule.time,
        ScheduleKind::Monthwise => s.monthwise.time,
        ScheduleKind::WeeksOfMonth => s.weeks_of_month.sub_schedule.time,
        ScheduleKind::CertainMonths => s.certain_months.time,
        ScheduleKind::Once => 0,
    }
}

/// The most recent due instant of the schedule at or before `now`: the
/// backward search with occurrence days filtered by the validity window,
/// the deterministic fallback `now` minus the horizon when nothing is
/// found, and a one-time schedule checked directly against its fixed
/// instant — the one kind the window does not filter, inactivity being the
/// caller's separate predicate.  The result never lies after `now`.
#[verifier::loop_isolation(false)]
pub fn most_recent_due(
    s: &Schedule,
    created: Option<i64>,
    deleted: Option<i64>,
    now: i64,
    tz: &str,
) -> (r: i64)
    requires
        s@.wf(),
        valid_instant(now as int),
        created matches Option::Some(c) ==> valid_instant(c as int),
        deleted matches Option::Some(d) ==> valid_instant(d as int),
    ensures
        s@.kind is Once ==> r as int == if s@.once.datetime <= now {
            s@.once.datetime as int
        } else {
            now - 60 * 86400
        },
        !(s@.kind is Once) ==> r as int == {
            let today_n = local_stamp(now as int, tz@).0;
            let h = horizon_back(s@);
            match search_back(s@, created, deleted, today_n, 0, h, now as int, tz@) {
                Option::Some(v) => v,
                Option::None => now - h * 86400,
            }
        },
        r <= now,
        r >= -66_000_000_000,
{
    if let ScheduleKind::Once = s.kind {
        if s.once.datetime <= now {
            return s.once.datetime;
        } else {
            return now - 60 * 86400;
        }
    }
    let stamp = local_stamp_of(now, tz);
    let today_n = stamp.day_num;
    let cd: Option<i64> = match created {
        Option::Some(c) => Option::Some(local_stamp_of(c, tz).day_num),
        Option::None => Option::None,
    };
    let dd: Option<i64> = match deleted {
        Option::Some(d) => Option::Some(local_stamp_of(d, tz).day_num),
        Option::None => Option::None,
    };
    let h: i64 = match s.kind {
        ScheduleKind::NDays => if s.n_days.days > 60 {
            s.n_days.days as i64
        } else {
            60
        },
        ScheduleKind::NWeeks => 7 * (s.n_weeks.weeks as i64),
        ScheduleKind::Monthwise => 60,
        ScheduleKind::WeeksOfMonth => 60,
        ScheduleKind::CertainMonths => 400,
        ScheduleKind::Once => 60,
    };
    assert(h == horizon_back(s@));
    let secs = due_time_of(s);
    let mut k: i64 = 0;
    while k <= h
        invariant
            0 <= k <= h + 1,
            search_back(s@, created, deleted, today_n as int, 0, h as int, now as int, tz@)
                == search_back(
                s@,
                created,
                deleted,
                today_n as int,
                k as int,
                h as int,
                now as int,
                tz@,
            ),
        decreases h + 1 - k,
    {
        let n = today_n - k;
        let hit = day_matches(s, today_n, n, tz);
        let okw = (match cd {
            Option::Some(c) => n >= c,
            Option::None => true,
        }) && (match dd {
            Option::Some(d) => n <= d,
            Option::None => true,
        });
        assert(okw == in_window(created, deleted, n as int, tz@));
        if hit && okw {
            let inst = instant_of_day_num(n, secs, tz);
            if inst <= now {
                return inst;
            }
        }
        k = k + 1;
    }
    now - h * 86400
}

/// The next due instant of the schedule strictly after `now`, within the
/// validity window: the forward search, with a one-time schedule always
/// answering its fixed instant whether past or future, and the distant
/// sentinel `now` plus 10000 days when nothing is found within the horizon.
/// For every recurring kind the result lies strictly after `now`.
#[verifier::loop_isolation(false)]
pub fn next_due(
    s: &Schedule,
    created: Option<i64>,
    deleted: Option<i64>,
    now: i64,
    tz: &str,
) -> (r: i64)
    requires
        s@.wf(),
        valid_instant(now as int),
        created matches Option::Some(c) ==> valid_instant(c as int),
        deleted matches Option::Some(d) ==> valid_instant(d as int),
    ensures
        s@.kind is Once ==> r == s@.once.datetime,
        !(s@.kind is Once) ==> r as int == {
            let today_n = local_stamp(now as int, tz@).0;
            match search_fwd(s@, created, deleted, today_n, 0, horizon_fwd(), now as int, tz@) {
                Option::Some(v) => v,
                Option::None => now + 10000 * 86400,
            }
        },
        !(s@.kind is Once) ==> r > now,
{
    if let ScheduleKind::Once = s.kind {
        return s.once.datetime;
    }
    let stamp = local_stamp_of(now, tz);
    let today_n = stamp.day_num;
    let cd: Option<i64> = match created {
        Option::Some(c) => Option::Some(local_stamp_of(c, tz).day_num),
        Option::None => Option::None,
    };
    let dd: Option<i64> = match deleted {
        Option::Some(d) => Option::Some(local_stamp_of(d, tz).day_num),
        Option::None => Option::None,
    };
    let h: i64 = 1000;
    let secs = due_time_of(s);
    let mut k: i64 = 0;
    while k <= h
        invariant
            0 <= k <= h + 1,
            search_fwd(s@, created, deleted, today_n as int, 0, h as int, now as int, tz@)
                == search_fwd(
                s@,
                created,
                deleted,
                today_n as int,
                k as int,
                h as int,
                now as int,
                tz@,
            ),
        decreases h + 1 - k,
    {
        let n = today_n + k;
        let hit = day_matches(s, today_n, n, tz);
        let okw = (match cd {
            Option::Some(c) => n >= c,
            Option::None => true,
        }) && (match dd {
            Option::Some(d) => n <= d,
            Option::None => true,
        });
        assert(okw == in_window(created, deleted, n as int, tz@));
        if hit && okw {
            let inst = instant_of_day_num(n, secs, tz);
            if inst > now {
                return inst;
            }
        }
        k = k + 1;
    }
    now + 10000 * 86400
}

/// The due instant of the first occurrence day strictly after the local day
/// of `after` whose instant lies strictly after `after`, up to 60 days
/// ahead; the fallback is `after` plus 60 days.  The result always lies
/// strictly after `after`.
#[verifier::loop_isolation(false)]
pub fn next_due_after(
    s: &Schedule,
    created: Option<i64>,
    deleted: Option<i64>,
    after: i64,
    tz: &str,
) -> (r: i64)
    requires
        s@.wf(),
        valid_instant(after as int),
        created matches Option::Some(c) ==> valid_instant(c as int),
        deleted matches Option::Some(d) ==> valid_instant(d as int),
    ensures
        r as int == {
            let base_n = local_stamp(after as int, tz@).0;
            match search_after_day(s@, created, deleted, base_n, 1, 60, after as int, tz@) {
                Option::Some(v) => v,
                Option::None => after + 60 * 86400,
            }
        },
        r > after,
{
    let stamp = local_stamp_of(after, tz);
    let base_n = stamp.day_num;
    let cd: Option<i64> = match created {
        Option::Some(c) => Option::Some(local_stamp_of(c, tz).day_num),
        Option::None => Option::None,
    };
    let dd: Option<i64> = match deleted {
        Option::Some(d) => Option::Some(local_stamp_of(d, tz).day_num),
        Option::None => Option::None,
    };
    let secs: u32 = if let ScheduleKind::Once = s.kind {
        local_stamp_of(s.once.datetime, tz).secs
    } else {
        due_time_of(s)
    };
    assert(secs as int == due_time_secs(s@, tz@));
    let mut k: i64 = 1;
    while k <= 60
        invariant
            1 <= k <= 61,
            search_after_day(s@, created, deleted, base_n as int, 1, 60, after as int, tz@)
                == search_after_day(
                s@,
                created,
                deleted,
                base_n as int,
                k as int,
                60,
                after as int,
                tz@,
            ),
        decreases 61 - k,
    {
        let n = base_n + k;
        let hit = day_matches(s, base_n, n, tz);
        let okw = (match cd {
            Option::Some(c) => n >= c,
            Option::None => true,
        }) && (match dd {
            Option::Some(d) => n <= d,
            Option::None => true,
        });
        assert(okw == in_window(created, deleted, n as int, tz@));
        if hit && okw {
            let inst = instant_of_day_num(n, secs, tz);
            if inst > after {
                return inst;
            }
        }
        k = k + 1;
    }
    after + 60 * 86400
}

impl Schedule {
    /// The most recent due instant of this schedule at or before `now` in
    /// the named zone, with no validity window; never after `now`.
    pub fn most_recent_due_date(&self, now: i64, tz: &str) -> (r: i64)
        requires
            self@.wf(),
            valid_instant(now as int),
        ensures
            r as int == most_recent_due_spec(self@, Option::None, Option::None, now as int, tz@),
            r <= now,
            r >= -66_000_000_000,
    {
        most_recent_due(self, Option::None, Option::None, now, tz)
    }
}

/// The due instant of the first occurrence day after the base day whose
/// instant lies strictly after `after`, whatever its time of day; a day
/// whose converted instant does not lie after `after` is passed over, so
/// every find is strictly later than `after`.
pub open spec fn search_after_day(
    s: ScheduleView,
    created: Option<i64>,
    deleted: Option<i64>,
    base_n: int,
    k: int,
    h: int,
    after: int,
    tz: Seq<char>,
) -> Option<int>
    decreases h - k + 1,
{
    if k > h {
        None
    } else {
        let n = base_n + k;
        let inst = instant_of_day(n, due_time_secs(s, tz), tz);
        if due_on_day(s, base_n, n, tz) && in_window(created, deleted, n, tz) && inst > after {
            Some(inst)
        } else {
            search_after_day(s, created, deleted, base_n, k + 1, h, after, tz)
        }
    }
}

} // verus!
