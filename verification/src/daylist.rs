//! The compact day-of-month notation: parsing "1, 4-7, 15" into a sorted,
//! duplicate-free list of days and rendering such a list back into its
//! shortest form.
//!
//! The grammar is given by spec functions over character sequences; the
//! executable parser and formatter are proved to return exactly what the
//! spec functions denote, including the exact text of every error message.

use vstd::prelude::*;
use vstd::string::StrSliceExecFns;
use vstd::string::StringExecFns;
use crate::strutil::{dec_str, int_str, digit_val, is_digit, str_to_nat, all_digits,
    u32_to_string, i32_to_string, lemma_dec_str_value};

verus! {

/// ASCII whitespace, the class ignored around tokens.
pub open spec fn is_space(c: char) -> bool {
    c == ' ' || c == '\t' || c == '\n' || c == '\r' || c == '\u{b}' || c == '\u{c}'
}

/// Index of the first character at or after `i` that is not whitespace.
pub open spec fn skip_ws(s: Seq<char>, i: int) -> int
    decreases s.len() - i,
{
    if i < 0 || i >= s.len() {
        s.len() as int
    } else if is_space(s[i]) {
        skip_ws(s, i + 1)
    } else {
        i
    }
}

/// Index just after the last character before `j` that is not whitespace.
pub open spec fn end_ws(s: Seq<char>, j: int) -> int
    decreases j,
{
    if j <= 0 || j > s.len() {
        0
    } else if is_space(s[j - 1]) {
        end_ws(s, j - 1)
    } else {
        j
    }
}

/// `s` with leading and trailing whitespace removed.
pub open spec fn trim_spec(s: Seq<char>) -> Seq<char> {
    let a = skip_ws(s, 0);
    if a == s.len() {
        Seq::empty()
    } else {
        s.subrange(a, end_ws(s, s.len() as int))
    }
}

/// Index of the first occurrence of `c` at or after `i`, or `s.len()`.
pub open spec fn find_from(s: Seq<char>, i: int, c: char) -> int
    decreases s.len() - i,
{
    if i < 0 || i >= s.len() {
        s.len() as int
    } else if s[i] == c {
        i
    } else {
        find_from(s, i + 1, c)
    }
}

/// The value denoted by an integer token: one or more decimal digits,
/// optionally preceded by `+`, whose value fits in an `i32`.
pub open spec fn int_tok(t: Seq<char>) -> Option<int> {
    let digits = if t.len() >= 1 && t[0] == '+' {
        t.skip(1)
    } else {
        t
    };
    if digits.len() >= 1 && all_digits(digits) && str_to_nat(digits) <= 0x7fff_ffff {
        Some(str_to_nat(digits))
    } else {
        None
    }
}

pub open spec fn msg_empty() -> Seq<char> {
    "Please enter at least one day"@
}

pub open spec fn msg_invalid_number(t: Seq<char>) -> Seq<char> {
    "Invalid number: '"@ + t + "'"@
}

pub open spec fn msg_bad_range(t: Seq<char>) -> Seq<char> {
    "Invalid range format: '"@ + t + "'"@
}

pub open spec fn msg_reversed(t: Seq<char>) -> Seq<char> {
    "Range start must be <= end: '"@ + t + "'"@
}

pub open spec fn msg_out_of_range(v: int) -> Seq<char> {
    "Day "@ + dec_str(v) + " is out of range (1-31)"@
}

/// The days `a..=b`, in ascending order.
pub open spec fn range_seq(a: int, b: int) -> Seq<int> {
    Seq::new((b + 1 - a) as nat, |k: int| a + k)
}

/// The days denoted by one non-empty, already-trimmed token: either a single
/// integer or a range `a-b`, every resolved day within 1..=31.
pub open spec fn tok_days_spec(t: Seq<char>) -> Result<Seq<int>, Seq<char>> {
    let dash = find_from(t, 0, '-');
    if dash == t.len() {
        match int_tok(t) {
            Option::None => Result::Err(msg_invalid_number(t)),
            Option::Some(v) => if v < 1 || v > 31 {
                Result::Err(msg_out_of_range(v))
            } else {
                Result::Ok(seq![v])
            },
        }
    } else {
        let rest = t.skip(dash + 1);
        if find_from(rest, 0, '-') != rest.len() {
            Result::Err(msg_bad_range(t))
        } else {
            let t0 = trim_spec(t.take(dash));
            let t1 = trim_spec(rest);
            match int_tok(t0) {
                Option::None => Result::Err(msg_invalid_number(t0)),
                Option::Some(a) => match int_tok(t1) {
                    Option::None => Result::Err(msg_invalid_number(t1)),
                    Option::Some(b) => if a > b {
                        Result::Err(msg_reversed(t))
                    } else if a < 1 {
                        Result::Err(msg_out_of_range(a))
                    } else if a > 31 {
                        Result::Err(msg_out_of_range(a))
                    } else if b > 31 {
                        Result::Err(msg_out_of_range(32))
                    } else {
                        Result::Ok(range_seq(a, b))
                    },
                },
            }
        }
    }
}

pub proof fn lemma_find_from_bounds(s: Seq<char>, i: int, c: char)
    requires
        0 <= i <= s.len(),
    ensures
        i <= find_from(s, i, c) <= s.len(),
        find_from(s, i, c) < s.len() ==> s[find_from(s, i, c)] == c,
        forall|k: int| i <= k < find_from(s, i, c) ==> s[k] != c,
    decreases s.len() - i,
{
    if i < s.len() && s[i] != c {
        lemma_find_from_bounds(s, i + 1, c);
    }
}

#[via_fn]
proof fn run_spec_decreases(s: Seq<char>) {
    lemma_find_from_bounds(s, 0, ',');
}

/// The days denoted by a comma-separated list of tokens, in written order;
/// empty tokens are skipped, and the leftmost bad token decides the error.
pub open spec fn run_spec(s: Seq<char>) -> Result<Seq<int>, Seq<char>>
    decreases s.len(),
    via run_spec_decreases
{
    let j = find_from(s, 0, ',');
    let t = trim_spec(s.take(j));
    let head: Result<Seq<int>, Seq<char>> = if t.len() == 0 {
        Result::Ok(Seq::empty())
    } else {
        tok_days_spec(t)
    };
    match head {
        Result::Err(e) => Result::Err(e),
        Result::Ok(ds) => if j == s.len() {
            Result::Ok(ds)
        } else {
            match run_spec(s.skip(j + 1)) {
                Result::Err(e) => Result::Err(e),
                Result::Ok(rest) => Result::Ok(ds + rest),
            }
        },
    }
}

/// `x` inserted into the sorted, duplicate-free sequence `s`.
pub open spec fn insert_one(x: int, s: Seq<int>) -> Seq<int>
    decreases s.len(),
{
    if s.len() == 0 {
        seq![x]
    } else if x < s[0] {
        seq![x] + s
    } else if x == s[0] {
        s
    } else {
        seq![s[0]] + insert_one(x, s.skip(1))
    }
}

/// `s` sorted ascending with duplicates removed.
pub open spec fn sort_dedup(s: Seq<int>) -> Seq<int>
    decreases s.len(),
{
    if s.len() == 0 {
        Seq::empty()
    } else {
        insert_one(s.last(), sort_dedup(s.drop_last()))
    }
}

/// Strictly ascending: sorted and duplicate-free at once.
pub open spec fn strictly_increasing(s: Seq<int>) -> bool {
    forall|i: int, j: int| 0 <= i < j < s.len() ==> s[i] < s[j]
}

/// What `parse_day_range` denotes on any input text.
pub open spec fn parse_spec(s: Seq<char>) -> Result<Seq<int>, Seq<char>> {
    let t = trim_spec(s);
    if t.len() == 0 {
        Result::Err(msg_empty())
    } else {
        match run_spec(t) {
            Result::Err(e) => Result::Err(e),
            Result::Ok(ds) => if ds.len() == 0 {
                Result::Err(msg_empty())
            } else {
                Result::Ok(sort_dedup(ds))
            },
        }
    }
}

/// Searching in a suffix finds the same occurrence, shifted.
pub proof fn lemma_find_shift(s: Seq<char>, pos: int, c: char)
    requires
        0 <= pos <= s.len(),
    ensures
        find_from(s.skip(pos), 0, c) == find_from(s, pos, c) - pos,
{
    let su = s.skip(pos);
    let j1 = find_from(s, pos, c);
    lemma_find_from_bounds(s, pos, c);
    let j2 = find_from(su, 0, c);
    lemma_find_from_bounds(su, 0, c);
    if j2 < j1 - pos {
        assert(su[j2] == c);
        assert(s[pos + j2] == c);
        assert(false);
    }
    if j1 - pos < j2 {
        assert(s[j1] == c);
        assert(su[j1 - pos] == c);
        assert(false);
    }
}

/// The length of the maximal run of consecutive values starting at `i`.
pub open spec fn run_len(ds: Seq<int>, i: int) -> int
    decreases ds.len() - i,
{
    if i < 0 || i + 1 >= ds.len() || ds[i + 1] != ds[i] + 1 {
        1
    } else {
        1 + run_len(ds, i + 1)
    }
}

pub proof fn lemma_run_len_bounds(ds: Seq<int>, i: int)
    requires
        0 <= i < ds.len(),
    ensures
        1 <= run_len(ds, i),
        i + run_len(ds, i) <= ds.len(),
    decreases ds.len() - i,
{
    if !(i + 1 >= ds.len() || ds[i + 1] != ds[i] + 1) {
        lemma_run_len_bounds(ds, i + 1);
    }
}

#[via_fn]
proof fn fmt_from_decreases(ds: Seq<int>, i: int) {
    if 0 <= i < ds.len() {
        lemma_run_len_bounds(ds, i);
    }
}

/// The rendered text of the sorted day list `ds` from position `i` on:
/// maximal runs become `a` or `a-b`, joined by `", "`.
pub open spec fn fmt_from(ds: Seq<int>, i: int) -> Seq<char>
    decreases ds.len() - i,
    via fmt_from_decreases
{
    if i < 0 || i >= ds.len() {
        Seq::empty()
    } else {
        let l = run_len(ds, i);
        let e = i + l;
        let piece = if l == 1 {
            int_str(ds[i])
        } else {
            int_str(ds[i]) + seq!['-'] + int_str(ds[e - 1])
        };
        if e >= ds.len() {
            piece
        } else {
            piece + seq![',', ' '] + fmt_from(ds, e)
        }
    }
}

/// What `format_day_range` denotes: the days normalized, then rendered.
pub open spec fn format_spec(ds: Seq<int>) -> Seq<char> {
    fmt_from(sort_dedup(ds), 0)
}

/// The integer values of a vector of days.
pub open spec fn int_view(v: Seq<i32>) -> Seq<int> {
    v.map_values(|x: i32| x as int)
}

proof fn lemma_skip_ws_spaces(s: Seq<char>, k: int)
    requires
        0 <= k <= s.len(),
        forall|j: int| k <= j < s.len() ==> is_space(#[trigger] s[j]),
    ensures
        skip_ws(s, k) == s.len(),
    decreases s.len() - k,
{
    if k < s.len() {
        lemma_skip_ws_spaces(s, k + 1);
    }
}

proof fn lemma_skip_ws_stops(s: Seq<char>, k: int, a: int)
    requires
        0 <= k <= a <= s.len(),
        forall|j: int| k <= j < a ==> is_space(#[trigger] s[j]),
        a < s.len() ==> !is_space(s[a]),
    ensures
        skip_ws(s, k) == if a < s.len() {
            a
        } else {
            s.len() as int
        },
    decreases s.len() - k,
{
    if k < s.len() && is_space(s[k]) {
        lemma_skip_ws_stops(s, k + 1, a);
    }
}

proof fn lemma_end_ws_stops(s: Seq<char>, j: int)
    requires
        0 <= j <= s.len(),
        j > 0 ==> !is_space(s[j - 1]),
        forall|k: int| j <= k < s.len() ==> is_space(#[trigger] s[k]),
    ensures
        end_ws(s, s.len() as int) == j,
    decreases s.len(),
{
    lemma_end_ws_down(s, s.len() as int, j);
}

proof fn lemma_end_ws_down(s: Seq<char>, from: int, j: int)
    requires
        0 <= j <= from <= s.len(),
        j > 0 ==> !is_space(s[j - 1]),
        forall|k: int| j <= k < from ==> is_space(#[trigger] s[k]),
    ensures
        end_ws(s, from) == j,
    decreases from,
{
    if from > j {
        lemma_end_ws_down(s, from - 1, j);
    }
}

/// Trimming a string of spaces followed by a token that neither starts nor
/// ends with a space yields exactly the token.
proof fn lemma_trim_pad(pad: Seq<char>, x: Seq<char>)
    requires
        forall|j: int| 0 <= j < pad.len() ==> is_space(#[trigger] pad[j]),
        x.len() >= 1,
        !is_space(x[0]),
        !is_space(x.last()),
    ensures
        trim_spec(pad + x) == x,
{
    let s = pad + x;
    lemma_skip_ws_stops(s, 0, pad.len() as int);
    assert(skip_ws(s, 0) == pad.len());
    lemma_end_ws_stops(s, s.len() as int);
    assert(end_ws(s, s.len() as int) == s.len());
    assert(s.subrange(pad.len() as int, s.len() as int) =~= x);
}

/// Trimming a string of spaces alone yields the empty string.
proof fn lemma_trim_spaces(pad: Seq<char>)
    requires
        forall|j: int| 0 <= j < pad.len() ==> is_space(#[trigger] pad[j]),
    ensures
        trim_spec(pad) == Seq::<char>::empty(),
{
    lemma_skip_ws_spaces(pad, 0);
    if pad.len() == 0 {
        assert(trim_spec(pad) =~= Seq::<char>::empty());
    }
}

/// If nothing before position `j` is `c`, and `j` is `c` or the end, the
/// first occurrence is at `j`.
proof fn lemma_find_at(s: Seq<char>, c: char, j: int)
    requires
        0 <= j <= s.len(),
        forall|k: int| 0 <= k < j ==> s[k] != c,
        j < s.len() ==> s[j] == c,
    ensures
        find_from(s, 0, c) == j,
{
    lemma_find_from_bounds(s, 0, c);
    let f = find_from(s, 0, c);
    if f < j {
        assert(s[f] == c);
        assert(false);
    }
    if j < f {
        assert(s[j] == c);
        assert(false);
    }
}

/// Decimal digit strings contain no separator and no space characters.
proof fn lemma_dec_str_plain(n: int)
    requires
        n >= 0,
    ensures
        forall|k: int| 0 <= k < dec_str(n).len() ==> !is_space(#[trigger] dec_str(n)[k])
            && dec_str(n)[k] != ',' && dec_str(n)[k] != '-' && dec_str(n)[k] != '+',
        dec_str(n).len() >= 1,
        all_digits(dec_str(n)),
        str_to_nat(dec_str(n)) == n,
{
    lemma_dec_str_value(n);
    assert forall|k: int| 0 <= k < dec_str(n).len() implies !is_space(#[trigger] dec_str(n)[k])
        && dec_str(n)[k] != ',' && dec_str(n)[k] != '-' && dec_str(n)[k] != '+' by {
        let c = dec_str(n)[k];
        assert(is_digit(c));
        assert(48 <= c as int <= 57);
        assert(' ' as int == 32 && '\t' as int == 9 && '\n' as int == 10 && '\r' as int == 13
            && '\u{b}' as int == 11 && '\u{c}' as int == 12 && ',' as int == 44 && '-' as int
            == 45 && '+' as int == 43);
    }
}

/// A single-number token parses back to its value.
proof fn lemma_tok_single(v: int)
    requires
        1 <= v <= 31,
    ensures
        tok_days_spec(dec_str(v)) == Result::<Seq<int>, Seq<char>>::Ok(seq![v]),
{
    let t = dec_str(v);
    lemma_dec_str_plain(v);
    lemma_find_at(t, '-', t.len() as int);
    assert(t[0] != '+');
    assert(int_tok(t) == Option::Some(v));
}

/// A range token `a-b` parses back to the run `a..=b`.
proof fn lemma_tok_range(a: int, b: int)
    requires
        1 <= a <= b <= 31,
    ensures
        tok_days_spec(dec_str(a) + seq!['-'] + dec_str(b)) == Result::<Seq<int>, Seq<char>>::Ok(
            range_seq(a, b),
        ),
{
    let da = dec_str(a);
    let db = dec_str(b);
    let t = da + seq!['-'] + db;
    lemma_dec_str_plain(a);
    lemma_dec_str_plain(b);
    assert(forall|k: int| 0 <= k < da.len() ==> #[trigger] t[k] == da[k]);
    assert(t[da.len() as int] == '-');
    lemma_find_at(t, '-', da.len() as int);
    let dash = da.len() as int;
    let rest = t.skip(dash + 1);
    assert(rest =~= db);
    lemma_find_at(db, '-', db.len() as int);
    assert(t.take(dash) =~= da);
    lemma_trim_pad(Seq::empty(), da);
    assert(Seq::<char>::empty() + da =~= da);
    lemma_trim_pad(Seq::empty(), db);
    assert(Seq::<char>::empty() + db =~= db);
    assert(trim_spec(t.take(dash)) == da);
    assert(trim_spec(rest) == db);
    assert(da[0] != '+');
    assert(db[0] != '+');
    assert(int_tok(da) == Option::Some(a));
    assert(int_tok(db) == Option::Some(b));
}

/// Within one maximal run the values are consecutive, and the run really is
/// maximal.
proof fn lemma_run_vals(ds: Seq<int>, i: int)
    requires
        0 <= i < ds.len(),
    ensures
        forall|k: int| i <= k < i + run_len(ds, i) ==> #[trigger] ds[k] == ds[i] + (k - i),
    decreases ds.len() - i,
{
    lemma_run_len_bounds(ds, i);
    if !(i + 1 >= ds.len() || ds[i + 1] != ds[i] + 1) {
        lemma_run_vals(ds, i + 1);
        lemma_run_len_bounds(ds, i + 1);
        assert forall|k: int| i <= k < i + run_len(ds, i) implies #[trigger] ds[k] == ds[i] + (k
            - i) by {
            if k > i {
                assert(ds[k] == ds[i + 1] + (k - (i + 1)));
            }
        }
    }
}

/// The rendering of a day list reparses, token by token, to the same list.
#[verifier::rlimit(60)]
proof fn lemma_run_fmt(d: Seq<int>, i: int, pad: Seq<char>)
    requires
        strictly_increasing(d),
        forall|k: int| 0 <= k < d.len() ==> 1 <= #[trigger] d[k] <= 31,
        0 <= i <= d.len(),
        forall|j: int| 0 <= j < pad.len() ==> #[trigger] pad[j] == ' ',
    ensures
        run_spec(pad + fmt_from(d, i)) == Result::<Seq<int>, Seq<char>>::Ok(d.skip(i)),
    decreases d.len() - i,
{
    assert(forall|j: int| 0 <= j < pad.len() ==> is_space(#[trigger] pad[j]));
    if i == d.len() {
        let s = pad + fmt_from(d, i);
        assert(s =~= pad);
        lemma_find_at(s, ',', s.len() as int);
        assert(s.take(s.len() as int) =~= s);
        lemma_trim_spaces(s);
        assert(d.skip(i) =~= Seq::<int>::empty());
    } else {
        let l = run_len(d, i);
        lemma_run_len_bounds(d, i);
        lemma_run_vals(d, i);
        let e = i + l;
        let a = d[i];
        let b = d[e - 1];
        assert(b == a + (l - 1));
        let piece = if l == 1 {
            int_str(a)
        } else {
            int_str(a) + seq!['-'] + int_str(b)
        };
        assert(int_str(a) == dec_str(a));
        assert(int_str(b) == dec_str(b));
        lemma_dec_str_plain(a);
        lemma_dec_str_plain(b);
        assert(piece.len() >= 1);
        assert(forall|k: int| 0 <= k < piece.len() ==> !is_space(#[trigger] piece[k])
            && piece[k] != ',');
        if l == 1 {
            lemma_tok_single(a);
        } else {
            lemma_tok_range(a, b);
            assert(range_seq(a, b) =~= d.subrange(i, e));
        }
        assert(seq![a] =~= d.subrange(i, i + 1));
        assert(tok_days_spec(piece) == Result::<Seq<int>, Seq<char>>::Ok(d.subrange(i, e)));
        lemma_trim_pad(pad, piece);
        if e >= d.len() {
            let s = pad + fmt_from(d, i);
            assert(fmt_from(d, i) == piece);
            lemma_find_at(s, ',', s.len() as int);
            assert(s.take(s.len() as int) =~= pad + piece);
            assert(trim_spec(s.take(s.len() as int)) == piece);
            assert(d.subrange(i, e) =~= d.skip(i));
        } else {
            let s = pad + fmt_from(d, i);
            assert(fmt_from(d, i) == piece + seq![',', ' '] + fmt_from(d, e));
            let jj = pad.len() + piece.len() as int;
            assert forall|k: int| 0 <= k < jj implies s[k] != ',' by {
                if k < pad.len() {
                    assert(s[k] == pad[k]);
                } else {
                    assert(s[k] == piece[k - pad.len()]);
                }
            }
            assert(s[jj] == ',');
            lemma_find_at(s, ',', jj);
            assert(s.take(jj) =~= pad + piece);
            assert(trim_spec(s.take(jj)) == piece);
            assert(s.skip(jj + 1) =~= seq![' '] + fmt_from(d, e));
            lemma_run_fmt(d, e, seq![' ']);
            assert(d.subrange(i, e) + d.skip(e) =~= d.skip(i));
        }
    }
}

/// Round trip: formatting any day list whose values lie in 1..=31 and
/// parsing the text back yields the normalized list — the input sorted
/// ascending with duplicates removed.
pub proof fn lemma_format_parse_roundtrip(s: Seq<int>)
    requires
        s.len() >= 1,
        forall|k: int| 0 <= k < s.len() ==> 1 <= #[trigger] s[k] <= 31,
    ensures
        parse_spec(format_spec(s)) == Result::<Seq<int>, Seq<char>>::Ok(sort_dedup(s)),
{
    let d = sort_dedup(s);
    lemma_sort_dedup_props(s);
    assert(s.contains(s[0]));
    assert(d.contains(s[0]));
    assert(d.len() >= 1);
    assert forall|k: int| 0 <= k < d.len() implies 1 <= #[trigger] d[k] <= 31 by {
        assert(d.contains(d[k]));
        assert(s.contains(d[k]));
        let idx = choose|idx: int| 0 <= idx < s.len() && s[idx] == d[k];
        assert(1 <= s[idx] <= 31);
    }
    let f = fmt_from(d, 0);
    lemma_run_fmt(d, 0, Seq::empty());
    assert(Seq::<char>::empty() + f =~= f);
    assert(run_spec(f) == Result::<Seq<int>, Seq<char>>::Ok(d.skip(0)));
    assert(d.skip(0) =~= d);
    lemma_run_len_bounds(d, 0);
    lemma_run_vals(d, 0);
    let l = run_len(d, 0);
    let piece0 = if l == 1 {
        int_str(d[0])
    } else {
        int_str(d[0]) + seq!['-'] + int_str(d[l - 1])
    };
    lemma_dec_str_plain(d[0]);
    lemma_dec_str_plain(d[l - 1]);
    assert(f[0] == piece0[0]);
    assert(!is_space(f[0]));
    assert(!is_space(f.last())) by {
        lemma_fmt_last_digit(d, 0);
    }
    lemma_trim_pad(Seq::empty(), f);
    assert(Seq::<char>::empty() + f =~= f);
    assert(trim_spec(f) == f);
    lemma_sort_dedup_id(d);
}

/// The last character of a rendered, non-empty day list is a digit.
proof fn lemma_fmt_last_digit(d: Seq<int>, i: int)
    requires
        0 <= i < d.len(),
        forall|k: int| 0 <= k < d.len() ==> 1 <= #[trigger] d[k] <= 31,
    ensures
        fmt_from(d, i).len() >= 1,
        !is_space(fmt_from(d, i).last()),
    decreases d.len() - i,
{
    let l = run_len(d, i);
    lemma_run_len_bounds(d, i);
    let e = i + l;
    lemma_dec_str_plain(d[i]);
    lemma_dec_str_plain(d[e - 1]);
    if e >= d.len() {
        let piece = if l == 1 {
            int_str(d[i])
        } else {
            int_str(d[i]) + seq!['-'] + int_str(d[e - 1])
        };
        assert(piece.last() == dec_str(d[e - 1]).last());
        assert(!is_space(piece.last()));
    } else {
        lemma_fmt_last_digit(d, e);
    }
}

/// Parses a day-range text such as `"1, 4-7, 10, 15-17"` into a sorted,
/// duplicate-free list of days, or returns a message naming the first bad
/// token.  The result and every error text are exactly those of
/// [`parse_spec`]; on success the list is strictly ascending.
pub fn parse_day_range(input: &str) -> (r: Result<Vec<i32>, String>)
    ensures
        match r {
            Result::Ok(v) => parse_spec(input@) == Result::<Seq<int>, Seq<char>>::Ok(int_view(v@))
                && strictly_increasing(int_view(v@)),
            Result::Err(e) => parse_spec(input@) == Result::<Seq<int>, Seq<char>>::Err(e@),
        },
{
    let t = trim_str(input);
    let n = t.unicode_len();
    if n == 0 {
        return Result::Err(String::from_str("Please enter at least one day"));
    }
    let mut raw: Vec<i32> = Vec::new();
    let mut pos: usize = 0;
    proof {
        assert(t@.skip(0) =~= t@);
        assert(int_view(raw@) =~= Seq::<int>::empty());
    }
    loop
        invariant_except_break
            pos <= n,
            n == t@.len(),
            t@ == trim_spec(input@),
            t@.len() >= 1,
            run_spec(t@.skip(pos as int)) is Ok ==> run_spec(t@)
                == Result::<Seq<int>, Seq<char>>::Ok(
                int_view(raw@) + run_spec(t@.skip(pos as int))->Ok_0,
            ),
            run_spec(t@.skip(pos as int)) is Err ==> run_spec(t@) == run_spec(
                t@.skip(pos as int),
            ),
        ensures
            run_spec(t@) == Result::<Seq<int>, Seq<char>>::Ok(int_view(raw@)),
        decreases n - pos,
    {
        let j = find_char(t, pos, ',');
        let seg = t.substring_char(pos, j);
        let tok = trim_str(seg);
        let ghost su = t@.skip(pos as int);
        let ghost base = raw@;
        proof {
            lemma_find_shift(t@, pos as int, ',');
            assert(seg@ =~= su.take(j - pos));
            assert(trim_spec(su.take(j - pos)) == tok@);
        }
        let ghost head: Result<Seq<int>, Seq<char>> = if tok@.len() == 0 {
            Result::Ok(Seq::empty())
        } else {
            tok_days_spec(tok@)
        };
        if tok.unicode_len() > 0 {
            match tok_days(tok) {
                Result::Err(e) => {
                    proof {
                        assert(run_spec(su) == Result::<Seq<int>, Seq<char>>::Err(e@));
                    }
                    return Result::Err(e);
                },
                Result::Ok(mut ds) => {
                    let ghost dsv = int_view(ds@);
                    raw.append(&mut ds);
                    proof {
                        assert(int_view(raw@) =~= int_view(base) + dsv);
                    }
                },
            }
        } else {
            proof {
                assert(int_view(raw@) =~= int_view(base) + head->Ok_0);
            }
        }
        if j == n {
            proof {
                assert(run_spec(su) == Result::<Seq<int>, Seq<char>>::Ok(head->Ok_0));
            }
            break;
        }
        proof {
            assert(su.skip(j + 1 - pos) =~= t@.skip(j + 1));
            let su2 = t@.skip(j + 1);
            if run_spec(su2) is Ok {
                let rest = run_spec(su2)->Ok_0;
                assert(run_spec(su) == Result::<Seq<int>, Seq<char>>::Ok(head->Ok_0 + rest));
                assert(int_view(base) + (head->Ok_0 + rest) =~= int_view(raw@) + rest);
            } else {
                assert(run_spec(su) == run_spec(su2));
            }
        }
        pos = j + 1;
    }
    if raw.len() == 0 {
        return Result::Err(String::from_str("Please enter at least one day"));
    }
    let sorted = sort_dedup_vec(&raw);
    Result::Ok(sorted)
}

/// Renders a day list in its shortest form: maximal runs of consecutive days
/// become `a` or `a-b`, joined by `", "`.  The input need not be sorted or
/// duplicate-free; the result is exactly [`format_spec`] of it.
pub fn format_day_range(days: &[i32]) -> (r: String)
    ensures
        r@ == format_spec(int_view(days@)),
{
    let mut v: Vec<i32> = Vec::new();
    let mut idx: usize = 0;
    while idx < days.len()
        invariant
            0 <= idx <= days@.len(),
            v@ =~= days@.take(idx as int),
        decreases days@.len() - idx,
    {
        v.push(days[idx]);
        idx = idx + 1;
    }
    proof {
        assert(v@ =~= days@);
    }
    let d = sort_dedup_vec(&v);
    let ghost dv = int_view(d@);
    let mut out = String::new();
    let mut i: usize = 0;
    proof {
        assert(out@ + fmt_from(dv, 0) =~= fmt_from(dv, 0));
    }
    while i < d.len()
        invariant
            0 <= i <= d@.len(),
            dv == int_view(d@),
            dv == sort_dedup(int_view(days@)),
            fmt_from(dv, 0) == out@ + fmt_from(dv, i as int),
        decreases d@.len() - i,
    {
        let ghost out0 = out@;
        let n2 = d.len();
        let mut e = i;
        while e + 1 < n2 && (d[e + 1] as i64) == (d[e] as i64) + 1
            invariant
                n2 == d@.len(),
                i <= e < n2,
                dv == int_view(d@),
                run_len(dv, i as int) == e - i + run_len(dv, e as int),
            decreases d@.len() - e,
        {
            e = e + 1;
        }
        proof {
            assert(run_len(dv, e as int) == 1);
            assert(run_len(dv, i as int) == e - i + 1);
        }
        let first = i32_to_string(d[i]);
        out.append(first.as_str());
        if e > i {
            out.append("-");
            let last_s = i32_to_string(d[e]);
            out.append(last_s.as_str());
        }
        if e + 1 < d.len() {
            out.append(", ");
        }
        proof {
            reveal_strlit("-");
            reveal_strlit(", ");
            let piece = if e == i {
                int_str(dv[i as int])
            } else {
                int_str(dv[i as int]) + seq!['-'] + int_str(dv[e as int])
            };
            if e + 1 < dv.len() {
                assert(fmt_from(dv, i as int) =~= piece + seq![',', ' '] + fmt_from(dv, e + 1));
                assert(out@ =~= out0 + piece + seq![',', ' ']);
                assert(out0 + (piece + seq![',', ' '] + fmt_from(dv, e + 1)) =~= (out0 + piece
                    + seq![',', ' ']) + fmt_from(dv, e + 1));
            } else {
                assert(fmt_from(dv, i as int) =~= piece);
                assert(out@ =~= out0 + piece);
                assert(fmt_from(dv, e + 1) =~= Seq::<char>::empty());
                assert(out0 + piece + fmt_from(dv, e + 1) =~= out0 + piece);
            }
        }
        i = e + 1;
    }
    proof {
        assert(fmt_from(dv, d@.len() as int) =~= Seq::<char>::empty());
        assert(out@ + fmt_from(dv, i as int) =~= out@);
    }
    out
}

fn is_ws(c: char) -> (r: bool)
    ensures
        r == is_space(c),
{
    c == ' ' || c == '\t' || c == '\n' || c == '\r' || c == '\u{b}' || c == '\u{c}'
}

pub(crate) fn find_char(s: &str, from: usize, c: char) -> (r: usize)
    requires
        from <= s@.len(),
    ensures
        r == find_from(s@, from as int, c),
        from <= r <= s@.len(),
        r < s@.len() ==> s@[r as int] == c,
{
    let n = s.unicode_len();
    let mut i = from;
    while i < n
        invariant
            from <= i <= n,
            n == s@.len(),
            find_from(s@, from as int, c) == find_from(s@, i as int, c),
        decreases n - i,
    {
        if s.get_char(i) == c {
            return i;
        }
        i = i + 1;
    }
    proof {
        lemma_find_from_bounds(s@, from as int, c);
    }
    n
}

pub(crate) fn trim_str<'a>(s: &'a str) -> (r: &'a str)
    ensures
        r@ == trim_spec(s@),
{
    let n = s.unicode_len();
    let mut a: usize = 0;
    while a < n && is_ws(s.get_char(a))
        invariant
            0 <= a <= n,
            n == s@.len(),
            skip_ws(s@, 0) == skip_ws(s@, a as int),
        decreases n - a,
    {
        a = a + 1;
    }
    if a == n {
        proof {
            reveal_strlit("");
        }
        return "";
    }
    let mut b: usize = n;
    while is_ws(s.get_char(b - 1))
        invariant
            a < b <= n,
            n == s@.len(),
            !is_space(s@[a as int]),
            end_ws(s@, n as int) == end_ws(s@, b as int),
        decreases b,
    {
        b = b - 1;
    }
    s.substring_char(a, b)
}

fn mk_msg(prefix: &str, t: &str, suffix: &str) -> (r: String)
    ensures
        r@ == prefix@ + t@ + suffix@,
{
    let s = String::from_str(prefix);
    let s = s.concat(t);
    let s = s.concat(suffix);
    s
}

fn msg_out_of_range_exec(v: i32) -> (r: String)
    requires
        v >= 0,
    ensures
        r@ == msg_out_of_range(v as int),
{
    let s = String::from_str("Day ");
    let s = s.concat(u32_to_string(v as u32).as_str());
    let s = s.concat(" is out of range (1-31)");
    s
}

proof fn lemma_str_to_nat_nonneg(s: Seq<char>)
    requires
        all_digits(s),
    ensures
        str_to_nat(s) >= 0,
    decreases s.len(),
{
    if s.len() > 0 {
        assert(all_digits(s.drop_last())) by {
            assert(forall|i: int| 0 <= i < s.len() - 1 ==> s.drop_last()[i] == #[trigger] s[i]);
        }
        lemma_str_to_nat_nonneg(s.drop_last());
    }
}

pub proof fn lemma_str_to_nat_prefix(s: Seq<char>, k: int)
    requires
        all_digits(s),
        0 <= k <= s.len(),
    ensures
        str_to_nat(s.take(k)) <= str_to_nat(s),
    decreases s.len() - k,
{
    if k < s.len() {
        lemma_str_to_nat_prefix(s, k + 1);
        let t = s.take(k + 1);
        assert(t.drop_last() =~= s.take(k));
        assert(all_digits(s.take(k))) by {
            assert(forall|i: int| 0 <= i < k ==> s.take(k)[i] == #[trigger] s[i]);
        }
        lemma_str_to_nat_nonneg(s.take(k));
        assert(is_digit(t.last()));
        assert(str_to_nat(t) == str_to_nat(s.take(k)) * 10 + digit_val(t.last()));
        assert(str_to_nat(s.take(k)) * 10 >= str_to_nat(s.take(k)));
    } else {
        assert(s.take(k) =~= s);
    }
}

#[verifier::loop_isolation(false)]
fn parse_tok_i32(t: &str) -> (r: Option<i32>)
    ensures
        match r {
            Option::Some(v) => int_tok(t@) == Option::Some(v as int) && v >= 0,
            Option::None => int_tok(t@) is None,
        },
{
    let n = t.unicode_len();
    let start: usize = if n >= 1 && t.get_char(0) == '+' {
        1
    } else {
        0
    };
    let ghost digits = if t@.len() >= 1 && t@[0] == '+' {
        t@.skip(1)
    } else {
        t@
    };
    assert(digits =~= t@.subrange(start as int, n as int));
    if n == start {
        return Option::None;
    }
    let mut val: u64 = 0;
    let mut i = start;
    while i < n
        invariant
            start <= i <= n,
            n == t@.len(),
            digits =~= t@.subrange(start as int, n as int),
            all_digits(t@.subrange(start as int, i as int)),
            val == str_to_nat(t@.subrange(start as int, i as int)),
            val <= 0x7fff_ffff,
        decreases n - i,
    {
        let c = t.get_char(i);
        let cv = c as u32;
        if cv < 48 || cv > 57 {
            assert(digits[i - start] == c);
            assert(!is_digit(c));
            assert(!all_digits(digits));
            assert(int_tok(t@) is None);
            return Option::None;
        }
        assert(is_digit(c));
        let d: u64 = (cv - 48) as u64;
        proof {
            let p = t@.subrange(start as int, i as int);
            let q = t@.subrange(start as int, i + 1);
            assert(q.drop_last() =~= p);
            assert(q.last() == t@[i as int]);
        }
        val = val * 10 + d;
        i = i + 1;
        if val > 0x7fff_ffff {
            proof {
                assert(t@.subrange(start as int, i as int) =~= digits.take(i - start));
                if all_digits(digits) {
                    lemma_str_to_nat_prefix(digits, i - start);
                }
            }
            return Option::None;
        }
    }
    assert(t@.subrange(start as int, i as int) =~= digits);
    Option::Some(val as i32)
}

/// A contiguous piece of a strictly increasing sequence is one too.
pub proof fn lemma_si_subrange(s: Seq<int>, lo: int, hi: int)
    requires
        strictly_increasing(s),
        0 <= lo <= hi <= s.len(),
    ensures
        strictly_increasing(s.subrange(lo, hi)),
{
    let r = s.subrange(lo, hi);
    assert forall|a: int, b: int| 0 <= a < b < r.len() implies r[a] < r[b] by {
        assert(r[a] == s[lo + a]);
        assert(r[b] == s[lo + b]);
    }
}

/// `insert_one` into a strictly increasing sequence: the element lands at
/// the position given by the number of smaller elements, or is dropped if
/// already present.
pub proof fn lemma_insert_one(x: int, s: Seq<int>, j: int)
    requires
        strictly_increasing(s),
        0 <= j <= s.len(),
        forall|k: int| 0 <= k < j ==> s[k] < x,
        j < s.len() ==> s[j] >= x,
    ensures
        j < s.len() && s[j] == x ==> insert_one(x, s) == s,
        !(j < s.len() && s[j] == x) ==> insert_one(x, s) == s.take(j) + seq![x] + s.skip(j),
        strictly_increasing(insert_one(x, s)),
    decreases s.len(),
{
    if s.len() == 0 {
        assert(insert_one(x, s) =~= s.take(j) + seq![x] + s.skip(j));
    } else if x < s[0] {
        assert(j == 0);
        assert(insert_one(x, s) =~= s.take(0) + seq![x] + s.skip(0));
        assert(strictly_increasing(seq![x] + s));
    } else if x == s[0] {
        assert(j == 0 || (j == 1 && s.len() == 1));
        if j == 1 && s.len() == 1 {
            assert(s[0] < x);
            assert(false);
        }
        assert(insert_one(x, s) == s);
    } else {
        let r = s.skip(1);
        assert(r =~= s.subrange(1, s.len() as int));
        lemma_si_subrange(s, 1, s.len() as int);
        assert(j >= 1) by {
            if j == 0 {
                assert(s[0] >= x);
            }
        }
        lemma_insert_one(x, r, j - 1);
        if j - 1 < r.len() && r[j - 1] == x {
            assert(s[j] == x);
            assert(insert_one(x, s) =~= s);
        } else {
            assert(insert_one(x, s) =~= seq![s[0]] + (r.take(j - 1) + seq![x] + r.skip(j - 1)));
            assert(seq![s[0]] + (r.take(j - 1) + seq![x] + r.skip(j - 1)) =~= s.take(j) + seq![x]
                + s.skip(j));
            let t = s.take(j) + seq![x] + s.skip(j);
            assert(strictly_increasing(t)) by {
                assert(forall|k: int| 0 <= k < j ==> t[k] == #[trigger] s[k]);
                assert(t[j] == x);
                assert(forall|k: int| j < k < t.len() ==> t[k] == #[trigger] s[k - 1]);
                assert(forall|k: int| j <= k < s.len() ==> #[trigger] s[k] >= x);
            }
        }
    }
}

/// There is always a position `j` as `lemma_insert_one` wants.
pub proof fn lemma_insert_pos(x: int, s: Seq<int>) -> (j: int)
    requires
        strictly_increasing(s),
    ensures
        0 <= j <= s.len(),
        forall|k: int| 0 <= k < j ==> s[k] < x,
        j < s.len() ==> s[j] >= x,
    decreases s.len(),
{
    if s.len() == 0 {
        0
    } else if s[0] >= x {
        0
    } else {
        let r = s.skip(1);
        assert(r =~= s.subrange(1, s.len() as int));
        lemma_si_subrange(s, 1, s.len() as int);
        let j = lemma_insert_pos(x, r) + 1;
        assert forall|k: int| 0 <= k < j implies s[k] < x by {
            if k >= 1 {
                assert(r[k - 1] < x);
                assert(s[k] == r[k - 1]);
            }
        }
        j
    }
}

/// The normalized list is strictly increasing and holds exactly the values
/// of the input.
pub proof fn lemma_sort_dedup_props(s: Seq<int>)
    ensures
        strictly_increasing(sort_dedup(s)),
        forall|y: int| sort_dedup(s).contains(y) <==> s.contains(y),
    decreases s.len(),
{
    if s.len() > 0 {
        lemma_sort_dedup_props(s.drop_last());
        let x = s.last();
        let t = sort_dedup(s.drop_last());
        let j = lemma_insert_pos(x, t);
        lemma_insert_one(x, t, j);
        let r = insert_one(x, t);
        assert forall|y: int| r.contains(y) implies (y == x || t.contains(y)) by {
            let idx = choose|idx: int| 0 <= idx < r.len() && r[idx] == y;
            if j < t.len() && t[j] == x {
            } else {
                if idx < j {
                    assert(t[idx] == y);
                } else if idx > j {
                    assert(t[idx - 1] == y);
                }
            }
        }
        assert forall|y: int| (y == x || t.contains(y)) implies r.contains(y) by {
            if j < t.len() && t[j] == x {
                if y == x {
                    assert(r[j] == y);
                } else {
                    let idx = choose|idx: int| 0 <= idx < t.len() && t[idx] == y;
                    assert(r[idx] == y);
                }
            } else {
                if y == x {
                    assert(r[j] == y);
                } else {
                    let idx = choose|idx: int| 0 <= idx < t.len() && t[idx] == y;
                    if idx < j {
                        assert(r[idx] == y);
                    } else {
                        assert(r[idx + 1] == y);
                    }
                }
            }
        }
        assert forall|y: int| s.contains(y) implies (y == x || s.drop_last().contains(y)) by {
            let idx = choose|idx: int| 0 <= idx < s.len() && s[idx] == y;
            if idx < s.len() - 1 {
                assert(s.drop_last()[idx] == y);
            }
        }
        assert forall|y: int| (y == x || s.drop_last().contains(y)) implies s.contains(y) by {
            if y == x {
                assert(s[s.len() - 1] == y);
            } else {
                let idx = choose|idx: int| 0 <= idx < s.drop_last().len() && s.drop_last()[idx]
                    == y;
                assert(s[idx] == y);
            }
        }
    }
}

/// Normalizing an already strictly increasing sequence changes nothing.
pub proof fn lemma_sort_dedup_id(s: Seq<int>)
    requires
        strictly_increasing(s),
    ensures
        sort_dedup(s) == s,
    decreases s.len(),
{
    if s.len() > 0 {
        let d = s.drop_last();
        assert(d =~= s.subrange(0, s.len() - 1));
        lemma_si_subrange(s, 0, s.len() - 1);
        lemma_sort_dedup_id(d);
        let x = s.last();
        lemma_insert_one(x, d, d.len() as int);
        assert(insert_one(x, d) =~= d.take(d.len() as int) + seq![x] + d.skip(d.len() as int));
        assert(d.take(d.len() as int) + seq![x] + d.skip(d.len() as int) =~= s);
    }
}

/// Sorts `v` ascending and removes duplicates.
#[verifier::loop_isolation(false)]
fn sort_dedup_vec(v: &Vec<i32>) -> (r: Vec<i32>)
    ensures
        int_view(r@) == sort_dedup(int_view(v@)),
        strictly_increasing(int_view(r@)),
{
    let mut acc: Vec<i32> = Vec::new();
    let mut i: usize = 0;
    proof {
        assert(int_view(v@).take(0) =~= Seq::<int>::empty());
        assert(int_view(acc@) =~= Seq::<int>::empty());
    }
    while i < v.len()
        invariant
            0 <= i <= v@.len(),
            int_view(acc@) == sort_dedup(int_view(v@).take(i as int)),
            strictly_increasing(int_view(acc@)),
        decreases v@.len() - i,
    {
        let x = v[i];
        let ghost s = int_view(acc@);
        let mut j: usize = 0;
        while j < acc.len() && acc[j] < x
            invariant
                0 <= j <= acc@.len(),
                forall|k: int| 0 <= k < j ==> int_view(acc@)[k] < x,
            decreases acc@.len() - j,
        {
            j = j + 1;
        }
        proof {
            lemma_insert_one(x as int, s, j as int);
        }
        if j < acc.len() && acc[j] == x {
        } else {
            acc.insert(j, x);
            proof {
                assert(int_view(acc@) =~= s.take(j as int) + seq![x as int] + s.skip(j as int));
            }
        }
        proof {
            assert(int_view(acc@) == insert_one(x as int, s));
            let w = int_view(v@).take(i + 1);
            assert(w.drop_last() =~= int_view(v@).take(i as int));
            assert(w.last() == x as int);
        }
        i = i + 1;
    }
    proof {
        assert(int_view(v@).take(v@.len() as int) =~= int_view(v@));
    }
    acc
}

/// The days of one non-empty, trimmed token, or its error message.
fn tok_days(t: &str) -> (r: Result<Vec<i32>, String>)
    requires
        t@.len() >= 1,
    ensures
        match r {
            Result::Ok(v) => tok_days_spec(t@) == Result::<Seq<int>, Seq<char>>::Ok(int_view(v@)),
            Result::Err(e) => tok_days_spec(t@) == Result::<Seq<int>, Seq<char>>::Err(e@),
        },
{
    let n = t.unicode_len();
    let dash = find_char(t, 0, '-');
    if dash == n {
        match parse_tok_i32(t) {
            Option::None => Result::Err(mk_msg("Invalid number: '", t, "'")),
            Option::Some(v) => {
                if v < 1 || v > 31 {
                    Result::Err(msg_out_of_range_exec(v))
                } else {
                    let mut days: Vec<i32> = Vec::new();
                    days.push(v);
                    assert(int_view(days@) =~= seq![v as int]);
                    Result::Ok(days)
                }
            },
        }
    } else {
        let rest = t.substring_char(dash + 1, n);
        let dash2 = find_char(rest, 0, '-');
        if dash2 != rest.unicode_len() {
            Result::Err(mk_msg("Invalid range format: '", t, "'"))
        } else {
            let left = trim_str(t.substring_char(0, dash));
            let right = trim_str(rest);
            proof {
                assert(t@.take(dash as int) =~= t@.subrange(0, dash as int));
                assert(t@.skip(dash + 1) =~= t@.subrange(dash + 1, n as int));
            }
            match parse_tok_i32(left) {
                Option::None => Result::Err(mk_msg("Invalid number: '", left, "'")),
                Option::Some(a) => {
                    match parse_tok_i32(right) {
                        Option::None => Result::Err(mk_msg("Invalid number: '", right, "'")),
                        Option::Some(b) => {
                            if a > b {
                                Result::Err(mk_msg("Range start must be <= end: '", t, "'"))
                            } else if a < 1 {
                                Result::Err(msg_out_of_range_exec(a))
                            } else if a > 31 {
                                Result::Err(msg_out_of_range_exec(a))
                            } else if b > 31 {
                                Result::Err(msg_out_of_range_exec(32))
                            } else {
                                let mut days: Vec<i32> = Vec::new();
                                let mut k = a;
                                while k <= b
                                    invariant
                                        a <= k <= b + 1,
                                        b <= 31,
                                        days@.len() == k - a,
                                        forall|j: int|
                                            0 <= j < days@.len() ==> (#[trigger] days@[j]) as int
                                                == a + j,
                                    decreases b + 1 - k,
                                {
                                    days.push(k);
                                    k = k + 1;
                                }
                                proof {
                                    let dv = int_view(days@);
                                    let rs = range_seq(a as int, b as int);
                                    assert forall|j: int| 0 <= j < dv.len() implies dv[j] == rs[j]
                                        by {
                                        assert(days@[j] as int == a + j);
                                    }
                                    assert(dv =~= rs);
                                }
                                Result::Ok(days)
                            }
                        },
                    }
                },
            }
        }
    }
}

} // verus!
