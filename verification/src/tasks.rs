//! Chores and their derived status: a task owns one schedule (all six
//! parameter sets, one active kind), an alerting duration, a completeable
//! flag and an optional validity window; the predicates here classify it
//! against a caller-supplied instant, zone name and latest completion.

use vstd::prelude::*;
use crate::calendar::valid_instant;
use crate::schedule::{CertainMonths, DaysOfWeek, Monthwise, NDays, NWeeks, Once, Schedule,
    ScheduleKind, WeeksOfMonth};
use crate::search::{due_on_day, in_window, most_recent_due, most_recent_due_spec, next_due,
    next_due_spec, ScheduleView};
use crate::zone::local_stamp;

verus! {

/// Copies a vector of days.
pub fn clone_vec_i32(v: &Vec<i32>) -> (r: Vec<i32>)
    ensures
        r@ == v@,
{
    let mut out: Vec<i32> = Vec::new();
    let mut i: usize = 0;
    while i < v.len()
        invariant
            0 <= i <= v@.len(),
            out@ =~= v@.take(i as int),
        decreases v@.len() - i,
    {
        out.push(v[i]);
        i = i + 1;
    }
    proof {
        assert(v@.take(v@.len() as int) =~= v@);
    }
    out
}

/// A chore: one schedule with every kind's parameters kept, a name and
/// details opaque to the scheduling rules, an alerting duration in minutes,
/// a completeable flag, and an optional validity window.
#[derive(Clone)]
pub struct DemoTask {
    pub id: String,
    pub name: String,
    pub details: String,
    pub schedule_kind: ScheduleKind,
    pub n_days: NDays,
    pub n_weeks: NWeeks,
    pub monthwise: Monthwise,
    pub weeks_of_month: WeeksOfMonth,
    pub certain_months: CertainMonths,
    pub once: Once,
    pub alerting_time: i64,
    pub completeable: bool,
    pub created_at: Option<i64>,
    pub deleted_at: Option<i64>,
}

impl DemoTask {
    /// The schedule this chore carries, as a ghost value.
    pub open spec fn sched(&self) -> ScheduleView {
        ScheduleView {
            kind: self.schedule_kind,
            n_days: self.n_days,
            n_weeks: self.n_weeks,
            monthwise_days: self.monthwise.days@,
            monthwise_time: self.monthwise.time,
            wom_weeks: self.weeks_of_month.weeks@,
            wom_dow: self.weeks_of_month.sub_schedule,
            cm_months: self.certain_months.months@,
            cm_days: self.certain_months.days@,
            cm_time: self.certain_months.time,
            once: self.once,
        }
    }

    pub open spec fn wf(&self) -> bool {
        &&& self.sched().wf()
        &&& 0 <= self.alerting_time <= 527040
        &&& match self.created_at {
            Option::Some(c) => valid_instant(c as int),
            Option::None => true,
        }
        &&& match self.deleted_at {
            Option::Some(d) => valid_instant(d as int),
            Option::None => true,
        }
    }

    /// The chore's schedule as an owned value.
    pub fn to_schedule(&self) -> (s: Schedule)
        ensures
            s@ == self.sched(),
    {
        Schedule {
            kind: self.schedule_kind,
            n_days: self.n_days,
            n_weeks: self.n_weeks,
            monthwise: Monthwise {
                days: clone_vec_i32(&self.monthwise.days),
                time: self.monthwise.time,
            },
            weeks_of_month: WeeksOfMonth {
                weeks: clone_vec_i32(&self.weeks_of_month.weeks),
                sub_schedule: self.weeks_of_month.sub_schedule,
            },
            certain_months: CertainMonths {
                months: clone_vec_i32(&self.certain_months.months),
                days: clone_vec_i32(&self.certain_months.days),
                time: self.certain_months.time,
            },
            once: self.once,
        }
    }

    /// Whether the chore is outside its validity window at `now`: before
    /// `created_at` or after `deleted_at`.
    pub open spec fn inactive_spec(&self, now: int) -> bool {
        ||| match self.created_at {
            Option::Some(c) => now < c,
            Option::None => false,
        }
        ||| match self.deleted_at {
            Option::Some(d) => now > d,
            Option::None => false,
        }
    }

    /// True before `created_at` and after `deleted_at`; inactive chores are
    /// excluded from due and alerting classification.
    pub fn is_inactive(&self, now: i64) -> (r: bool)
        ensures
            r == self.inactive_spec(now as int),
    {
        if let Option::Some(c) = self.created_at {
            if now < c {
                return true;
            }
        }
        if let Option::Some(d) = self.deleted_at {
            if now > d {
                return true;
            }
        }
        false
    }

    /// True exactly for a one-time chore whose fixed instant has passed: it
    /// has no future occurrence, independent of completion records.
    pub fn is_once_completed(&self, now: i64) -> (r: bool)
        ensures
            r == (self.schedule_kind is Once && self.once.datetime <= now),
    {
        match self.schedule_kind {
            ScheduleKind::Once => self.once.datetime <= now,
            _ => false,
        }
    }

    /// The most recent due instant at or before `now`, never after it; the
    /// validity window filters occurrence days.
    pub fn most_recent_due_date(&self, now: i64, tz: &str) -> (r: i64)
        requires
            self.wf(),
            valid_instant(now as int),
        ensures
            r as int == most_recent_due_spec(
                self.sched(),
                self.created_at,
                self.deleted_at,
                now as int,
                tz@,
            ),
            r <= now,
            r >= -66_000_000_000,
    {
        let s = self.to_schedule();
        most_recent_due(&s, self.created_at, self.deleted_at, now, tz)
    }

    /// The next due instant: strictly after `now` for every recurring kind,
    /// and exactly the fixed instant for a one-time chore, past or future.
    pub fn next_due_date(&self, now: i64, tz: &str) -> (r: i64)
        requires
            self.wf(),
            valid_instant(now as int),
        ensures
            r as int == next_due_spec(
                self.sched(),
                self.created_at,
                self.deleted_at,
                now as int,
                tz@,
            ),
            !(self.schedule_kind is Once) ==> r > now,
            self.schedule_kind is Once ==> r == self.once.datetime,
    {
        let s = self.to_schedule();
        next_due(&s, self.created_at, self.deleted_at, now, tz)
    }

    /// Whether the latest completion lies strictly after the most recent
    /// due instant.
    pub open spec fn is_completed_spec(
        &self,
        latest_completion: Option<i64>,
        now: int,
        tz: Seq<char>,
    ) -> bool {
        match latest_completion {
            Option::Some(l) => l as int > most_recent_due_spec(
                self.sched(),
                self.created_at,
                self.deleted_at,
                now,
                tz,
            ),
            Option::None => false,
        }
    }

    /// Due: active, and the most recent occurrence not yet completed.
    pub open spec fn is_due_spec(
        &self,
        latest_completion: Option<i64>,
        now: int,
        tz: Seq<char>,
    ) -> bool {
        !self.inactive_spec(now) && !self.is_completed_spec(latest_completion, now, tz)
    }

    /// Alerting: active, and the next due instant within the alerting
    /// window after `now`.
    pub open spec fn is_alerting_spec(&self, now: int, tz: Seq<char>) -> bool {
        let nd = next_due_spec(self.sched(), self.created_at, self.deleted_at, now, tz);
        !self.inactive_spec(now) && now < nd && nd <= now + self.alerting_time * 60
    }

    /// Whether the latest completion settles the current occurrence: true
    /// exactly when it lies strictly after the most recent due instant.
    pub fn is_completed(&self, latest_completion: Option<i64>, now: i64, tz: &str) -> (r: bool)
        requires
            self.wf(),
            valid_instant(now as int),
        ensures
            r == self.is_completed_spec(latest_completion, now as int, tz@),
    {
        match latest_completion {
            Option::Some(l) => {
                let mrd = self.most_recent_due_date(now, tz);
                l > mrd
            },
            Option::None => false,
        }
    }

    /// Due: active, and the most recent occurrence not yet completed.
    pub fn is_due(&self, latest_completion: Option<i64>, now: i64, tz: &str) -> (r: bool)
        requires
            self.wf(),
            valid_instant(now as int),
        ensures
            r == self.is_due_spec(latest_completion, now as int, tz@),
    {
        if self.is_inactive(now) {
            return false;
        }
        !self.is_completed(latest_completion, now, tz)
    }

    /// Alerting: active, and the next due instant lies in the window
    /// `(now, now + alerting_time]`, the alerting duration read in minutes.
    pub fn is_alerting(&self, now: i64, tz: &str) -> (r: bool)
        requires
            self.wf(),
            valid_instant(now as int),
        ensures
            r == self.is_alerting_spec(now as int, tz@),
    {
        if self.is_inactive(now) {
            return false;
        }
        let nd = self.next_due_date(now, tz);
        now < nd && nd <= now + self.alerting_time * 60
    }

    /// Whether the calendar day `day_num` is an occurrence day of this
    /// chore, inside the validity window, when evaluated at `now`; used by
    /// a per-day calendar view.
    pub fn is_due_on_date(&self, day_num: i64, now: i64, tz: &str) -> (r: bool)
        requires
            self.wf(),
            valid_instant(now as int),
            -1000000 <= day_num <= 10000000,
        ensures
            r == (due_on_day(self.sched(), local_stamp(now as int, tz@).0, day_num as int, tz@)
                && in_window(self.created_at, self.deleted_at, day_num as int, tz@)),
    {
        let stamp = crate::zone::local_stamp_of(now, tz);
        let s = self.to_schedule();
        let hit = crate::search::day_matches(&s, stamp.day_num, day_num, tz);
        if !hit {
            return false;
        }
        let okc = match self.created_at {
            Option::Some(c) => day_num >= crate::zone::local_stamp_of(c, tz).day_num,
            Option::None => true,
        };
        let okd = match self.deleted_at {
            Option::Some(d) => day_num <= crate::zone::local_stamp_of(d, tz).day_num,
            Option::None => true,
        };
        okc && okd
    }
}

/// A number padded to two digits.
pub open spec fn pad2(v: int) -> Seq<char> {
    if 0 <= v < 10 {
        seq!['0'] + crate::strutil::dec_str(v)
    } else {
        crate::strutil::dec_str(v)
    }
}

/// A second of the day written `HH:MM`.
pub open spec fn hm_text(secs: int) -> Seq<char> {
    pad2(secs / 3600) + seq![':'] + pad2((secs % 3600) / 60)
}

/// The English weekday name of a weekday index, 0 = Sunday.
pub open spec fn weekday_name(w: int) -> Seq<char> {
    if w == 0 {
        "Sunday"@
    } else if w == 1 {
        "Monday"@
    } else if w == 2 {
        "Tuesday"@
    } else if w == 3 {
        "Wednesday"@
    } else if w == 4 {
        "Thursday"@
    } else if w == 5 {
        "Friday"@
    } else {
        "Saturday"@
    }
}

/// The English month name of a month number, 1 = January.
pub open spec fn month_name(m: int) -> Seq<char> {
    if m == 1 {
        "January"@
    } else if m == 2 {
        "February"@
    } else if m == 3 {
        "March"@
    } else if m == 4 {
        "April"@
    } else if m == 5 {
        "May"@
    } else if m == 6 {
        "June"@
    } else if m == 7 {
        "July"@
    } else if m == 8 {
        "August"@
    } else if m == 9 {
        "September"@
    } else if m == 10 {
        "October"@
    } else if m == 11 {
        "November"@
    } else {
        "December"@
    }
}

/// The text the next-due field shows for a chore: a note for a passed
/// one-time chore, a distant-future note when the search found nothing,
/// and otherwise the local due time with the day named relative to today
/// where it is near.
pub open spec fn readable_spec(t: &DemoTask, now: int, tz: Seq<char>) -> Seq<char> {
    if t.schedule_kind is Once && t.once.datetime <= now {
        "No future occurrences"@
    } else {
        let nd = next_due_spec(t.sched(), t.created_at, t.deleted_at, now, tz);
        if nd > now + 1000 * 86400 {
            "Distant Future"@
        } else {
            let due_n = local_stamp(nd, tz).0;
            let due_secs = local_stamp(nd, tz).1;
            let today = local_stamp(now, tz).0;
            if due_n == today - 1 {
                "Yesterday at "@ + hm_text(due_secs)
            } else if due_n == today {
                "Today at "@ + hm_text(due_secs)
            } else if due_n == today + 1 {
                "Tomorrow at "@ + hm_text(due_secs)
            } else if due_n == today + 2 {
                "Overmorrow at "@ + hm_text(due_secs)
            } else {
                weekday_name(crate::calendar::weekday_of_day(due_n)) + ", "@ + month_name(
                    crate::zone::civil_of_day(due_n).1,
                ) + " "@ + crate::strutil::dec_str(crate::zone::civil_of_day(due_n).2) + " at "@
                    + hm_text(due_secs)
            }
        }
    }
}

fn pad2_string(v: u32) -> (r: String)
    requires
        v < 60,
    ensures
        r@ == pad2(v as int),
{
    proof {
        reveal_strlit("0");
    }
    if v < 10 {
        let s = String::from_str("0");
        let r = s.concat(crate::strutil::u32_to_string(v).as_str());
        proof {
            assert(r@ =~= pad2(v as int));
        }
        r
    } else {
        crate::strutil::u32_to_string(v)
    }
}

fn hm_string(secs: u32) -> (r: String)
    requires
        secs < 86400,
    ensures
        r@ == hm_text(secs as int),
{
    proof {
        reveal_strlit(":");
    }
    let h = secs / 3600;
    let m = (secs % 3600) / 60;
    let s = pad2_string(h);
    let s = s.concat(":");
    let r = s.concat(pad2_string(m).as_str());
    proof {
        assert(r@ =~= hm_text(secs as int));
    }
    r
}

fn weekday_name_str(w: u8) -> (r: &'static str)
    requires
        w < 7,
    ensures
        r@ == weekday_name(w as int),
{
    match w {
        0 => "Sunday",
        1 => "Monday",
        2 => "Tuesday",
        3 => "Wednesday",
        4 => "Thursday",
        5 => "Friday",
        _ => "Saturday",
    }
}

fn month_name_str(m: u8) -> (r: &'static str)
    requires
        1 <= m <= 12,
    ensures
        r@ == month_name(m as int),
{
    match m {
        1 => "January",
        2 => "February",
        3 => "March",
        4 => "April",
        5 => "May",
        6 => "June",
        7 => "July",
        8 => "August",
        9 => "September",
        10 => "October",
        11 => "November",
        _ => "December",
    }
}

impl DemoTask {
    /// Renders the next due instant for display, exactly as
    /// [`readable_spec`] states: a passed one-time chore has no future
    /// occurrence, a fruitless search reads "Distant Future", and nearby
    /// days are named relative to today.
    pub fn time_as_readable_string(&self, now: i64, tz: &str) -> (r: String)
        requires
            self.wf(),
            valid_instant(now as int),
            now <= 253_500_000_000,
        ensures
            r@ == readable_spec(self, now as int, tz@),
    {
        if self.is_once_completed(now) {
            return String::from_str("No future occurrences");
        }
        let nd = self.next_due_date(now, tz);
        if nd > now + 1000 * 86400 {
            return String::from_str("Distant Future");
        }
        let due = crate::zone::local_stamp_of(nd, tz);
        let today = crate::zone::local_stamp_of(now, tz);
        let hm = hm_string(due.secs);
        if due.day_num == today.day_num - 1 {
            let r = String::from_str("Yesterday at ").concat(hm.as_str());
            proof {
                assert(r@ =~= readable_spec(self, now as int, tz@));
            }
            r
        } else if due.day_num == today.day_num {
            let r = String::from_str("Today at ").concat(hm.as_str());
            proof {
                assert(r@ =~= readable_spec(self, now as int, tz@));
            }
            r
        } else if due.day_num == today.day_num + 1 {
            let r = String::from_str("Tomorrow at ").concat(hm.as_str());
            proof {
                assert(r@ =~= readable_spec(self, now as int, tz@));
            }
            r
        } else if due.day_num == today.day_num + 2 {
            let r = String::from_str("Overmorrow at ").concat(hm.as_str());
            proof {
                assert(r@ =~= readable_spec(self, now as int, tz@));
            }
            r
        } else {
            let w = crate::calendar::weekday_of_day_num(due.day_num);
            let s = String::from_str(weekday_name_str(w));
            let s = s.concat(", ");
            let s = s.concat(month_name_str(due.month));
            let s = s.concat(" ");
            let s = s.concat(crate::strutil::u32_to_string(due.day as u32).as_str());
            let s = s.concat(" at ");
            let r = s.concat(hm.as_str());
            proof {
                assert((due.day as u32) as int == crate::zone::civil_of_day(
                    due.day_num as int,
                ).2);
                assert(r@ =~= readable_spec(self, now as int, tz@));
            }
            r
        }
    }
}

/// The bucket a chore falls into on the overview: its status at `now`
/// given the latest completion on record.
#[derive(Clone, Copy, Debug, PartialEq, Eq, Structural)]
pub enum TaskStatus {
    Due,
    Alerting,
    Completed,
    RecurringEvent,
    Inactive,
    Other,
}

impl DemoTask {
    /// The bucket this chore falls into, mirroring the overview page:
    /// inactive chores first; a passed one-time reminder counts completed;
    /// other non-completeable chores are alerting inside their window,
    /// recently occurred for one day after their due instant, and a plain
    /// recurring event otherwise; completeable chores are completed when
    /// the latest completion settles the current occurrence, due when the
    /// next due instant has passed (a one-time chore whose instant went
    /// by), alerting inside the window, and otherwise simply upcoming.
    pub open spec fn classify_spec(
        &self,
        latest_completion: Option<i64>,
        now: int,
        tz: Seq<char>,
    ) -> TaskStatus {
        let mrd = most_recent_due_spec(self.sched(), self.created_at, self.deleted_at, now, tz);
        let nd = next_due_spec(self.sched(), self.created_at, self.deleted_at, now, tz);
        if self.inactive_spec(now) {
            TaskStatus::Inactive
        } else if (self.schedule_kind is Once && self.once.datetime <= now)
            && !self.completeable {
            TaskStatus::Completed
        } else if !self.completeable {
            if self.is_alerting_spec(now, tz) {
                TaskStatus::Alerting
            } else if mrd <= now && now - mrd <= 86400 {
                TaskStatus::Completed
            } else {
                TaskStatus::RecurringEvent
            }
        } else if self.is_completed_spec(latest_completion, now, tz) {
            TaskStatus::Completed
        } else if nd <= now {
            TaskStatus::Due
        } else if self.is_alerting_spec(now, tz) {
            TaskStatus::Alerting
        } else {
            TaskStatus::Other
        }
    }

    /// Classifies this chore, the executable side of [`Self::classify_spec`].
    pub fn classify(&self, latest_completion: Option<i64>, now: i64, tz: &str) -> (r: TaskStatus)
        requires
            self.wf(),
            valid_instant(now as int),
        ensures
            r == self.classify_spec(latest_completion, now as int, tz@),
    {
        if self.is_inactive(now) {
            return TaskStatus::Inactive;
        }
        if self.is_once_completed(now) && !self.completeable {
            return TaskStatus::Completed;
        }
        if !self.completeable {
            if self.is_alerting(now, tz) {
                return TaskStatus::Alerting;
            }
            let mrd = self.most_recent_due_date(now, tz);
            if mrd <= now && now - mrd <= 86400 {
                return TaskStatus::Completed;
            }
            return TaskStatus::RecurringEvent;
        }
        if self.is_completed(latest_completion, now, tz) {
            return TaskStatus::Completed;
        }
        let nd = self.next_due_date(now, tz);
        if nd <= now {
            return TaskStatus::Due;
        }
        if self.is_alerting(now, tz) {
            return TaskStatus::Alerting;
        }
        TaskStatus::Other
    }
}

/// A chore whose `created_at` lies in the future is inactive, and is then
/// neither due nor alerting, whatever its schedule, completions and
/// alerting duration.
pub proof fn lemma_future_created_inactive(
    t: &DemoTask,
    latest_completion: Option<i64>,
    now: int,
    tz: Seq<char>,
)
    requires
        t.created_at matches Option::Some(c) && now < c,
    ensures
        t.inactive_spec(now),
        !t.is_due_spec(latest_completion, now, tz),
        !t.is_alerting_spec(now, tz),
{
}

/// A chore whose latest completion lies strictly after its most recent due
/// instant is completed, and recording one more completion that is not
/// later than the latest leaves the latest completion — and with it the
/// completed status — unchanged.
pub proof fn lemma_earlier_completion_keeps_completed(
    t: &DemoTask,
    s: Seq<crate::task::Completion>,
    c: crate::task::Completion,
    lc: i64,
    now: int,
    tz: Seq<char>,
)
    requires
        crate::task::latest_of(s) == Option::Some(lc as int),
        c.when <= lc,
        lc as int > most_recent_due_spec(t.sched(), t.created_at, t.deleted_at, now, tz),
    ensures
        t.is_completed_spec(Option::Some(lc), now, tz),
        crate::task::latest_of(s.push(c)) == crate::task::latest_of(s),
{
    let p = s.push(c);
    assert(p.drop_last() =~= s);
    assert(p.last() == c);
}

/// The default every-n-days schedule: daily at 09:00.
pub fn default_n_days() -> (r: NDays)
    ensures
        r.days == 1,
        r.time == 32400,
        r.wf(),
{
    NDays { days: 1, time: 32400 }
}

/// The default weekly schedule: every week on Monday at 09:00.
pub fn default_n_weeks() -> (r: NWeeks)
    ensures
        r.weeks == 1,
        r.sub_schedule.monday,
        !r.sub_schedule.sunday && !r.sub_schedule.tuesday && !r.sub_schedule.wednesday
            && !r.sub_schedule.thursday && !r.sub_schedule.friday && !r.sub_schedule.saturday,
        r.sub_schedule.time == 32400,
        r.wf(),
{
    NWeeks {
        weeks: 1,
        sub_schedule: DaysOfWeek {
            sunday: false,
            monday: true,
            tuesday: false,
            wednesday: false,
            thursday: false,
            friday: false,
            saturday: false,
            time: 32400,
        },
    }
}

/// The default monthwise schedule: the 1st of each month at 09:00.
pub fn default_monthwise() -> (r: Monthwise)
    ensures
        r.days@ =~= seq![1i32],
        r.time == 32400,
        r.wf(),
{
    let mut days: Vec<i32> = Vec::new();
    days.push(1);
    Monthwise { days, time: 32400 }
}

/// The default weeks-of-month schedule: the first Monday of each month at
/// 09:00.
pub fn default_weeks_of_month() -> (r: WeeksOfMonth)
    ensures
        r.weeks@ =~= seq![1i32],
        r.sub_schedule.monday,
        r.sub_schedule.time == 32400,
        r.wf(),
{
    let mut weeks: Vec<i32> = Vec::new();
    weeks.push(1);
    WeeksOfMonth {
        weeks,
        sub_schedule: DaysOfWeek {
            sunday: false,
            monday: true,
            tuesday: false,
            wednesday: false,
            thursday: false,
            friday: false,
            saturday: false,
            time: 32400,
        },
    }
}

/// The default certain-months schedule: January 1 at 09:00.
pub fn default_certain_months() -> (r: CertainMonths)
    ensures
        r.months@ =~= seq![1i32],
        r.days@ =~= seq![1i32],
        r.time == 32400,
        r.wf(),
{
    let mut months: Vec<i32> = Vec::new();
    months.push(1);
    let mut days: Vec<i32> = Vec::new();
    days.push(1);
    CertainMonths { months, days, time: 32400 }
}

/// The default one-time schedule: due at the supplied current instant.
pub fn default_once(now: i64) -> (r: Once)
    requires
        valid_instant(now as int),
    ensures
        r.datetime == now,
        r.wf(),
{
    Once { datetime: now }
}

} // verus!
