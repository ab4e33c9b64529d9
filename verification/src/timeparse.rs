//! Small text parsers shared by the record conversions and the form layer:
//! signed integers, wall-clock times written `H:MM` or `HH:MM`, and civil
//! dates written `YYYY-MM-DD`.

use vstd::prelude::*;
use vstd::string::StrSliceExecFns;
use crate::calendar::{days_in_month, days_in_month_exec};
use crate::daylist::{find_char, find_from, int_tok};
use crate::strutil::{all_digits, is_digit, str_to_nat};

verus! {

/// The value of a signed integer token: decimal digits with an optional
/// `+` or `-`, within the `i32` range.
pub open spec fn sint_tok(t: Seq<char>) -> Option<int> {
    if t.len() >= 1 && t[0] == '-' {
        let d = t.skip(1);
        if d.len() >= 1 && all_digits(d) && str_to_nat(d) <= 0x8000_0000 {
            Some(-str_to_nat(d))
        } else {
            None
        }
    } else {
        int_tok(t)
    }
}

/// The seconds after midnight a `H:MM` / `HH:MM` text denotes: one or two
/// digits of hour below 24, a colon, one or two digits of minute below 60,
/// and nothing else.
pub open spec fn hm_secs(s: Seq<char>) -> Option<int> {
    let c = find_from(s, 0, ':');
    if c == s.len() {
        None
    } else {
        let hh = s.take(c);
        let mm = s.skip(c + 1);
        if 1 <= hh.len() <= 2 && all_digits(hh) && 1 <= mm.len() <= 2 && all_digits(mm)
            && find_from(mm, 0, ':') == mm.len() && str_to_nat(hh) <= 23 && str_to_nat(mm) <= 59 {
            Some(str_to_nat(hh) * 3600 + str_to_nat(mm) * 60)
        } else {
            None
        }
    }
}

/// The civil date a `YYYY-MM-DD` text denotes, if the fields are digits and
/// name a real calendar day with a year up to 9999.
pub open spec fn ymd_fields(s: Seq<char>) -> Option<(int, int, int)> {
    let p1 = find_from(s, 0, '-');
    if p1 == s.len() {
        None
    } else {
        let rest = s.skip(p1 + 1);
        let p2 = find_from(rest, 0, '-');
        if p2 == rest.len() {
            None
        } else {
            let ys = s.take(p1);
            let ms = rest.take(p2);
            let ds = rest.skip(p2 + 1);
            if 1 <= ys.len() <= 4 && all_digits(ys) && 1 <= ms.len() <= 2 && all_digits(ms) && 1
                <= ds.len() <= 2 && all_digits(ds) && find_from(ds, 0, '-') == ds.len() {
                let y = str_to_nat(ys);
                let m = str_to_nat(ms);
                let d = str_to_nat(ds);
                if 1 <= m <= 12 && 1 <= d <= days_in_month(y, m) {
                    Some((y, m, d))
                } else {
                    None
                }
            } else {
                None
            }
        }
    }
}

/// Parses the digits of `t` between `start` and its end, accumulating at
/// most `limit`; the digit run must be non-empty and wholly numeric.
#[verifier::loop_isolation(false)]
fn digits_value(t: &str, start: usize, limit: u64) -> (r: Option<u64>)
    requires
        start <= t@.len(),
        limit <= 0x8000_0000,
    ensures
        ({
            let d = t@.skip(start as int);
            match r {
                Option::Some(v) => d.len() >= 1 && all_digits(d) && str_to_nat(d) == v
                    && v <= limit,
                Option::None => !(d.len() >= 1 && all_digits(d) && str_to_nat(d) <= limit),
            }
        }),
{
    let n = t.unicode_len();
    let ghost d = t@.skip(start as int);
    if n == start {
        return Option::None;
    }
    let mut val: u64 = 0;
    let mut i = start;
    while i < n
        invariant
            start <= i <= n,
            all_digits(t@.subrange(start as int, i as int)),
            val == str_to_nat(t@.subrange(start as int, i as int)),
            val <= limit,
        decreases n - i,
    {
        let c = t.get_char(i);
        let cv = c as u32;
        if cv < 48 || cv > 57 {
            assert(d[i - start] == c && !is_digit(c));
            return Option::None;
        }
        proof {
            let p = t@.subrange(start as int, i as int);
            let q = t@.subrange(start as int, i + 1);
            assert(q.drop_last() =~= p);
            assert(q.last() == t@[i as int]);
        }
        val = val * 10 + ((cv - 48) as u64);
        i = i + 1;
        if val > limit {
            proof {
                assert(t@.subrange(start as int, i as int) =~= d.take(i - start));
                if all_digits(d) {
                    crate::daylist::lemma_str_to_nat_prefix(d, i - start);
                }
            }
            return Option::None;
        }
    }
    assert(t@.subrange(start as int, i as int) =~= d);
    Option::Some(val)
}

/// Parses a signed integer token, the executable side of [`sint_tok`].
pub fn parse_tok_signed(t: &str) -> (r: Option<i32>)
    ensures
        match r {
            Option::Some(v) => sint_tok(t@) == Option::Some(v as int),
            Option::None => sint_tok(t@) is None,
        },
{
    let n = t.unicode_len();
    if n >= 1 && t.get_char(0) == '-' {
        match digits_value(t, 1, 0x8000_0000) {
            Option::Some(v) => Option::Some((-(v as i64)) as i32),
            Option::None => Option::None,
        }
    } else if n >= 1 && t.get_char(0) == '+' {
        proof {
            assert(t@.skip(1) =~= t@.subrange(1, n as int));
        }
        match digits_value(t, 1, 0x7fff_ffff) {
            Option::Some(v) => Option::Some(v as i32),
            Option::None => Option::None,
        }
    } else {
        proof {
            assert(t@.skip(0) =~= t@);
        }
        match digits_value(t, 0, 0x7fff_ffff) {
            Option::Some(v) => Option::Some(v as i32),
            Option::None => Option::None,
        }
    }
}

/// Parses a wall-clock time, the executable side of [`hm_secs`]; the result
/// is below 86400.
pub fn parse_hm(s: &str) -> (r: Option<u32>)
    ensures
        match r {
            Option::Some(v) => hm_secs(s@) == Option::Some(v as int) && v < 86400,
            Option::None => hm_secs(s@) is None,
        },
{
    let n = s.unicode_len();
    let c = find_char(s, 0, ':');
    if c == n {
        return Option::None;
    }
    let hh = s.substring_char(0, c);
    let mm = s.substring_char(c + 1, n);
    proof {
        assert(hh@ =~= s@.take(c as int));
        assert(mm@ =~= s@.skip(c + 1));
        assert(mm@.skip(0) =~= mm@);
        assert(hh@.skip(0) =~= hh@);
    }
    let c2 = find_char(mm, 0, ':');
    if c2 != mm.unicode_len() {
        return Option::None;
    }
    if hh.unicode_len() > 2 || mm.unicode_len() > 2 {
        return Option::None;
    }
    let hv = match digits_value(hh, 0, 23) {
        Option::Some(v) => v,
        Option::None => {
            return Option::None;
        },
    };
    let mv = match digits_value(mm, 0, 59) {
        Option::Some(v) => v,
        Option::None => {
            return Option::None;
        },
    };
    Option::Some((hv as u32) * 3600 + (mv as u32) * 60)
}

/// Parses a civil date text, the executable side of [`ymd_fields`].
pub fn parse_ymd(s: &str) -> (r: Option<(i32, u8, u8)>)
    ensures
        match r {
            Option::Some(v) => ymd_fields(s@) == Option::Some(
                (v.0 as int, v.1 as int, v.2 as int),
            ) && 0 <= v.0 <= 9999 && 1 <= v.1 <= 12 && 1 <= v.2 as int <= days_in_month(
                v.0 as int,
                v.1 as int,
            ),
            Option::None => ymd_fields(s@) is None,
        },
{
    let n = s.unicode_len();
    let p1 = find_char(s, 0, '-');
    if p1 == n {
        return Option::None;
    }
    let rest = s.substring_char(p1 + 1, n);
    proof {
        assert(rest@ =~= s@.skip(p1 + 1));
        assert(rest@.skip(0) =~= rest@);
    }
    let rn = rest.unicode_len();
    let p2 = find_char(rest, 0, '-');
    if p2 == rn {
        return Option::None;
    }
    let ys = s.substring_char(0, p1);
    let ms = rest.substring_char(0, p2);
    let ds = rest.substring_char(p2 + 1, rn);
    proof {
        assert(ys@ =~= s@.take(p1 as int));
        assert(ms@ =~= rest@.take(p2 as int));
        assert(ds@ =~= rest@.skip(p2 + 1));
        assert(ds@.skip(0) =~= ds@);
        assert(ys@.skip(0) =~= ys@);
        assert(ms@.skip(0) =~= ms@);
    }
    let p3 = find_char(ds, 0, '-');
    if p3 != ds.unicode_len() {
        return Option::None;
    }
    if ys.unicode_len() > 4 || ms.unicode_len() > 2 || ds.unicode_len() > 2 {
        return Option::None;
    }
    if ys.unicode_len() == 0 {
        return Option::None;
    }
    let y = match digits_value(ys, 0, 9999) {
        Option::Some(v) => v,
        Option::None => {
            proof {
                if all_digits(ys@) {
                    crate::strutil::lemma_str_to_nat_small(ys@);
                }
            }
            return Option::None;
        },
    };
    let m = match digits_value(ms, 0, 12) {
        Option::Some(v) => v,
        Option::None => {
            return Option::None;
        },
    };
    let d = match digits_value(ds, 0, 31) {
        Option::Some(v) => v,
        Option::None => {
            return Option::None;
        },
    };
    if m < 1 || d < 1 {
        return Option::None;
    }
    let dim = days_in_month_exec(y as i32, m as u8);
    if (d as u8) > dim {
        return Option::None;
    }
    Option::Some((y as i32, m as u8, d as u8))
}

} // verus!
