//! A task owning its schedule and completion list: a task is due while its
//! most recent occurrence has no later completion, and alerting while the
//! next due instant lies within the alerting window after now.

use vstd::prelude::*;
use crate::calendar::valid_instant;
use crate::schedule::Schedule;
use crate::search::{most_recent_due_spec, next_due, next_due_spec};

verus! {

/// One completion of a task, as a Unix instant.
#[derive(Clone, Copy)]
pub struct Completion {
    pub when: i64,
}

/// The greatest completion instant of a list, if any.
pub open spec fn latest_of(s: Seq<Completion>) -> Option<int>
    decreases s.len(),
{
    if s.len() == 0 {
        None
    } else {
        match latest_of(s.drop_last()) {
            None => Some(s.last().when as int),
            Some(m) => if s.last().when as int > m {
                Some(s.last().when as int)
            } else {
                Some(m)
            },
        }
    }
}

/// A task: a name, one schedule, an optional completion list, and an
/// optional alerting lead time in seconds.
pub struct Task {
    pub name: String,
    pub schedule: Schedule,
    pub completions: Option<Vec<Completion>>,
    pub alerting_time: Option<i64>,
}

impl Task {
    /// The latest completion instant, as a ghost value.
    pub open spec fn latest_completion_spec(&self) -> Option<int> {
        match self.completions {
            Option::Some(v) => latest_of(v@),
            Option::None => None,
        }
    }

    pub open spec fn wf(&self) -> bool {
        &&& self.schedule@.wf()
        &&& match self.alerting_time {
            Option::Some(a) => 0 <= a <= 31622400,
            Option::None => true,
        }
    }

    /// The completion with the greatest instant, or nothing when no
    /// completion is recorded.
    pub fn last_completion(&self) -> (r: Option<Completion>)
        ensures
            match r {
                Option::Some(c) => self.latest_completion_spec() == Option::Some(c.when as int),
                Option::None => self.latest_completion_spec() is None,
            },
    {
        let v = match &self.completions {
            Option::Some(v) => v,
            Option::None => {
                return Option::None;
            },
        };
        let mut best: Option<Completion> = Option::None;
        let mut i: usize = 0;
        while i < v.len()
            invariant
                0 <= i <= v@.len(),
                match best {
                    Option::Some(c) => latest_of(v@.take(i as int)) == Option::Some(
                        c.when as int,
                    ),
                    Option::None => latest_of(v@.take(i as int)) is None,
                },
            decreases v@.len() - i,
        {
            let c = v[i];
            proof {
                let w = v@.take(i + 1);
                assert(w.drop_last() =~= v@.take(i as int));
                assert(w.last() == v@[i as int]);
            }
            best = match best {
                Option::Some(b) => if c.when > b.when {
                    Option::Some(c)
                } else {
                    Option::Some(b)
                },
                Option::None => Option::Some(c),
            };
            i = i + 1;
        }
        proof {
            assert(v@.take(v@.len() as int) =~= v@);
        }
        best
    }

    /// The most recent due instant of the task's schedule, never after
    /// `now`.
    pub fn most_recent_due_date(&self, now: i64, tz: &str) -> (r: i64)
        requires
            self.wf(),
            valid_instant(now as int),
        ensures
            r as int == most_recent_due_spec(
                self.schedule@,
                Option::None,
                Option::None,
                now as int,
                tz@,
            ),
            r <= now,
            r >= -66_000_000_000,
    {
        self.schedule.most_recent_due_date(now, tz)
    }

    /// Due: no completion recorded, or the latest completion lies strictly
    /// before the most recent due instant.
    pub fn is_due(&self, now: i64, tz: &str) -> (r: bool)
        requires
            self.wf(),
            valid_instant(now as int),
        ensures
            r == match self.latest_completion_spec() {
                Option::Some(l) => l < most_recent_due_spec(
                    self.schedule@,
                    Option::None,
                    Option::None,
                    now as int,
                    tz@,
                ),
                Option::None => true,
            },
    {
        match self.last_completion() {
            Option::Some(c) => c.when < self.most_recent_due_date(now, tz),
            Option::None => true,
        }
    }

    /// Alerting: the next due instant lies in the window `(now, now +
    /// alerting_time]`, the lead time read in seconds and absent meaning
    /// zero.
    pub fn is_alerting(&self, now: i64, tz: &str) -> (r: bool)
        requires
            self.wf(),
            valid_instant(now as int),
        ensures
            r == ({
                let nd = next_due_spec(self.schedule@, Option::None, Option::None, now as int, tz@);
                let alert = match self.alerting_time {
                    Option::Some(a) => a as int,
                    Option::None => 0,
                };
                now < nd && nd <= now + alert
            }),
    {
        let nd = next_due(&self.schedule, Option::None, Option::None, now, tz);
        let alert = match self.alerting_time {
            Option::Some(a) => a,
            Option::None => 0,
        };
        now < nd && nd <= now + alert
    }
}

} // verus!
