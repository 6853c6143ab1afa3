//! RFC 3339 (UTC) timestamp parsing, civil-calendar day arithmetic and human
//! readable durations.
use vstd::prelude::*;
use crate::text::{chars_of, push_char, push_str, signed_decimal, trim_seq, trim_str, unicode_whitespace};

verus! {

// ---------------------------------------------------------------------------
// Character-level specifications
// ---------------------------------------------------------------------------

/// The first position of `c` in `s`, if any.
pub open spec fn find_first(s: Seq<char>, c: char) -> Option<int>
    decreases s.len(),
{
    if s.len() == 0 {
        None
    } else if s[0] == c {
        Some(0)
    } else {
        match find_first(s.drop_first(), c) {
            Some(i) => Some(i + 1),
            None => None,
        }
    }
}

/// The pieces of `s` between occurrences of `c` (`str::split` with a char
/// pattern); there is always at least one piece.
pub open spec fn split_seq(s: Seq<char>, c: char) -> Seq<Seq<char>>
    decreases s.len(),
{
    match find_first(s, c) {
        None => seq![s],
        Some(i) => if 0 <= i < s.len() {
            seq![s.take(i)] + split_seq(s.skip(i + 1), c)
        } else {
            seq![s]
        },
    }
}

/// `true` for the ASCII digits `0`..`9`.
pub open spec fn is_digit(c: char) -> bool {
    '0' <= c && c <= '9'
}

/// The value of an ASCII digit.
pub open spec fn digit_value(c: char) -> int {
    (c as int) - ('0' as int)
}

/// `true` when `s` is made of ASCII digits only.
pub open spec fn all_digits(s: Seq<char>) -> bool {
    forall|i: int| 0 <= i < s.len() ==> is_digit(#[trigger] s[i])
}

/// The number written by a string of decimal digits.
pub open spec fn digits_value(s: Seq<char>) -> int
    decreases s.len(),
{
    if s.len() == 0 {
        0
    } else {
        digits_value(s.drop_last()) * 10 + digit_value(s.last())
    }
}

/// The integer text accepted by `i64::from_str`: an optional `+` or `-` and
/// then at least one ASCII digit, with a value that fits in `i64`.
pub open spec fn parse_i64_spec(s: Seq<char>) -> Option<int> {
    let negative = s.len() > 0 && s[0] == '-';
    let signed = s.len() > 0 && (s[0] == '-' || s[0] == '+');
    let body = if signed { s.drop_first() } else { s };
    if body.len() == 0 || !all_digits(body) {
        None
    } else {
        let v = if negative { -digits_value(body) } else { digits_value(body) };
        if i64::MIN <= v <= i64::MAX { Some(v) } else { None }
    }
}

/// Rust's `/` on integers: the quotient truncated towards zero.
pub open spec fn trunc_div(a: int, b: int) -> int
    recommends
        b > 0,
{
    if a >= 0 { a / b } else { -((-a) / b) }
}

// ---------------------------------------------------------------------------
// Character-level executables
// ---------------------------------------------------------------------------

fn find_from(v: &Vec<char>, start: usize, c: char) -> (r: Option<usize>)
    requires
        start <= v@.len(),
    ensures
        r is Some <==> find_first(v@.skip(start as int), c) is Some,
        r matches Some(k) ==> k == start + find_first(v@.skip(start as int), c)->0 && k
            < v@.len(),
    decreases v@.len() - start,
{
    if start == v.len() {
        assert(v@.skip(start as int).len() == 0);
        None
    } else if v[start] == c {
        assert(v@.skip(start as int)[0] == c);
        Some(start)
    } else {
        assert(v@.skip(start as int).drop_first() =~= v@.skip(start + 1));
        find_from(v, start + 1, c)
    }
}

proof fn lemma_find_first_bounds(s: Seq<char>, c: char)
    ensures
        find_first(s, c) matches Some(i) ==> 0 <= i < s.len() && s[i] == c,
        find_first(s, c) is None ==> forall|j: int| 0 <= j < s.len() ==> s[j] != c,
    decreases s.len(),
{
    if s.len() > 0 && s[0] != c {
        lemma_find_first_bounds(s.drop_first(), c);
        if find_first(s, c) is None {
            assert forall|j: int| 0 <= j < s.len() implies s[j] != c by {
                if j > 0 {
                    assert(s.drop_first()[j - 1] == s[j]);
                }
            }
        }
    }
}

/// The characters of `v` from `from` up to `to`.
pub fn copy_range(v: &Vec<char>, from: usize, to: usize) -> (r: Vec<char>)
    requires
        from <= to <= v@.len(),
    ensures
        r@ == v@.subrange(from as int, to as int),
{
    let mut r: Vec<char> = Vec::new();
    let mut i = from;
    while i < to
        invariant
            from <= i <= to <= v@.len(),
            r@ == v@.subrange(from as int, i as int),
        decreases to - i,
    {
        r.push(v[i]);
        i = i + 1;
        assert(r@ =~= v@.subrange(from as int, i as int));
    }
    r
}

/// The pieces of `v[start..]` split on `c`.
fn split_from(v: &Vec<char>, start: usize, c: char) -> (r: Vec<Vec<char>>)
    requires
        start <= v@.len(),
    ensures
        r@.len() == split_seq(v@.skip(start as int), c).len(),
        forall|k: int|
            0 <= k < r@.len() ==> #[trigger] r@[k]@ == split_seq(v@.skip(start as int), c)[k],
    decreases v@.len() - start,
{
    let ghost s = v@.skip(start as int);
    let v_len = v.len();
    proof {
        lemma_find_first_bounds(s, c);
    }
    let found = find_from(v, start, c);
    match found {
        None => {
            let piece = copy_range(v, start, v.len());
            assert(piece@ =~= s);
            let mut r: Vec<Vec<char>> = Vec::new();
            r.push(piece);
            r
        },
        Some(i) => {
            assert(find_first(s, c) is Some);
            let ghost j0 = find_first(s, c)->0;
            assert(i == start + j0);
            let piece = copy_range(v, start, i);
            let rest = split_from(v, i + 1, c);
            let ghost j = i - start;
            assert(piece@ =~= s.take(j));
            assert(v@.skip(i + 1) =~= s.skip(j + 1));
            let mut r: Vec<Vec<char>> = Vec::new();
            r.push(piece);
            let mut k: usize = 0;
            while k < rest.len()
                invariant
                    r@.len() == k + 1,
                    r@[0]@ == s.take(j),
                    forall|m: int| 1 <= m <= k ==> #[trigger] r@[m]@ == rest@[m - 1]@,
                    k <= rest@.len(),
                decreases rest@.len() - k,
            {
                r.push(copy_range(&rest[k], 0, rest[k].len()));
                proof {
                    assert(rest@[k as int]@.subrange(0, rest@[k as int]@.len() as int) =~= rest@[k as int]@);
                }
                k = k + 1;
            }
            assert(split_seq(s, c) == seq![s.take(j)] + split_seq(s.skip(j + 1), c));
            r
        },
    }
}

/// Splits a character vector on `c` (`str::split` with a char pattern).
pub fn split_chars(v: &Vec<char>, c: char) -> (r: Vec<Vec<char>>)
    ensures
        r@.len() == split_seq(v@, c).len(),
        forall|k: int| 0 <= k < r@.len() ==> #[trigger] r@[k]@ == split_seq(v@, c)[k],
{
    assert(v@.skip(0) =~= v@);
    split_from(v, 0, c)
}

proof fn lemma_digits_value_nonneg(s: Seq<char>)
    requires
        all_digits(s),
    ensures
        digits_value(s) >= 0,
    decreases s.len(),
{
    if s.len() > 0 {
        assert(all_digits(s.drop_last()));
        lemma_digits_value_nonneg(s.drop_last());
    }
}

proof fn lemma_digits_value_prefix(s: Seq<char>, i: int)
    requires
        all_digits(s),
        0 <= i <= s.len(),
    ensures
        digits_value(s.take(i)) <= digits_value(s),
    decreases s.len() - i,
{
    if i < s.len() {
        lemma_digits_value_prefix(s, i + 1);
        let t = s.take(i + 1);
        assert(t.drop_last() =~= s.take(i));
        assert(all_digits(s.take(i)));
        lemma_digits_value_nonneg(s.take(i));
        assert(digits_value(t) == digits_value(s.take(i)) * 10 + digit_value(t.last()));
    } else {
        assert(s.take(i) =~= s);
    }
}

/// Parses a decimal integer as `i64::from_str` does.
pub fn parse_i64(s: &Vec<char>) -> (r: Option<i64>)
    ensures
        match parse_i64_spec(s@) {
            Some(v) => r == Some(v as i64),
            None => r is None,
        },
{
    let n = s.len();
    if n == 0 {
        return None;
    }
    let negative = s[0] == '-';
    let signed = s[0] == '-' || s[0] == '+';
    let start: usize = if signed { 1 } else { 0 };
    let ghost body = if signed { s@.drop_first() } else { s@ };
    assert(body =~= s@.skip(start as int));
    assert(signed == (s@.len() > 0 && (s@[0] == '-' || s@[0] == '+')));
    assert(negative == (s@.len() > 0 && s@[0] == '-'));
    if start == n {
        return None;
    }
    let mut acc: u64 = 0;
    let mut i = start;
    while i < n
        invariant
            n == s@.len(),
            start <= i <= n,
            body == s@.skip(start as int),
            signed == (s@.len() > 0 && (s@[0] == '-' || s@[0] == '+')),
            negative == (s@.len() > 0 && s@[0] == '-'),
            body == (if signed { s@.drop_first() } else { s@ }),
            forall|k: int| start <= k < i ==> is_digit(#[trigger] s@[k]),
            acc as int == digits_value(body.take(i - start)),
        decreases n - i,
    {
        let c = s[i];
        if !('0' <= c && c <= '9') {
            assert(!all_digits(body)) by {
                assert(body[i - start] == c);
            }
            assert(parse_i64_spec(s@) is None);
            return None;
        }
        let d = (c as u32 - '0' as u32) as u64;
        assert(body.take(i - start + 1).drop_last() =~= body.take(i - start));
        assert(body.take(i - start + 1).last() == c);
        match acc.checked_mul(10) {
            None => {
                proof {
                    assert(forall|k: int| 0 <= k < i - start + 1 ==> is_digit(#[trigger] body.take(i - start + 1)[k]));
                    lemma_digits_value_nonneg(body.take(i - start));
                }
                proof {
                    if all_digits(body) {
                        lemma_digits_value_prefix(body, i - start + 1);
                    }
                }
                return None;
            },
            Some(m) => match m.checked_add(d) {
                None => {
                    proof {
                        if all_digits(body) {
                            lemma_digits_value_prefix(body, i - start + 1);
                        }
                    }
                    return None;
                },
                Some(a) => {
                    acc = a;
                },
            },
        }
        i = i + 1;
    }
    assert(body.take(n - start) =~= body);
    assert(all_digits(body));
    if negative {
        if acc <= 9223372036854775807u64 {
            Some(-(acc as i64))
        } else if acc == 9223372036854775808u64 {
            Some(i64::MIN)
        } else {
            None
        }
    } else {
        if acc <= 9223372036854775807u64 {
            Some(acc as i64)
        } else {
            None
        }
    }
}


// ---------------------------------------------------------------------------
// Dates and times
// ---------------------------------------------------------------------------

/// `YYYY-MM-DD`: exactly three `-`-separated integers, the month in 1..=12
/// and the day in 1..=31.
pub open spec fn parse_date_spec(date: Seq<char>) -> Option<(int, int, int)> {
    let parts = split_seq(date, '-');
    if parts.len() < 3 {
        None
    } else {
        match (parse_i64_spec(parts[0]), parse_i64_spec(parts[1]), parse_i64_spec(parts[2])) {
            (Some(y), Some(m), Some(d)) => if parts.len() > 3 || !(1 <= m <= 12) || !(1 <= d
                <= 31) {
                None
            } else {
                Some((y, m, d))
            },
            _ => None,
        }
    }
}

/// `hh:mm:ss[.fraction]Z`: hour 0..=23, minute 0..=59, second 0..=60; a
/// leap second is reported as 59 and the fraction is ignored.
pub open spec fn parse_utc_time_spec(time: Seq<char>) -> Option<(int, int, int)> {
    if time.len() == 0 || time.last() != 'Z' {
        None
    } else {
        let parts = split_seq(time.drop_last(), ':');
        if parts.len() < 3 {
            None
        } else {
            let second_text = split_seq(parts[2], '.')[0];
            match (
                parse_i64_spec(parts[0]),
                parse_i64_spec(parts[1]),
                parse_i64_spec(second_text),
            ) {
                (Some(h), Some(mi), Some(se)) => if parts.len() > 3 || !(0 <= h <= 23) || !(0
                    <= mi <= 59) || !(0 <= se <= 60) {
                    None
                } else {
                    Some((h, mi, if se < 59 { se } else { 59 }))
                },
                _ => None,
            }
        }
    }
}

/// Days from 1970-01-01 to the given proleptic Gregorian date, computed the
/// way `days_from_civil` computes it (divisions truncate towards zero).
pub open spec fn civil_days(year: int, month: int, day: int) -> int {
    let y = year - (if month <= 2 { 1int } else { 0int });
    let era = trunc_div(if y >= 0 { y } else { y - 399 }, 400);
    let yoe = y - era * 400;
    let mp = month + (if month > 2 { -3int } else { 9int });
    let doy = trunc_div(153 * mp + 2, 5) + day - 1;
    let doe = yoe * 365 + trunc_div(yoe, 4) - trunc_div(yoe, 100) + doy;
    era * 146_097 + doe - 719_468
}

/// `true` when `x` fits in `i64`.
pub open spec fn in_i64(x: int) -> bool {
    i64::MIN <= x <= i64::MAX
}

/// Every intermediate value of `days_from_civil` fits in `i64`.
pub open spec fn civil_in_range(year: int, month: int, day: int) -> bool {
    let y = year - (if month <= 2 { 1int } else { 0int });
    let yb = if y >= 0 { y } else { y - 399 };
    let era = trunc_div(yb, 400);
    let yoe = y - era * 400;
    let mp = month + (if month > 2 { -3int } else { 9int });
    let q = trunc_div(153 * mp + 2, 5);
    let doy = q + day - 1;
    let doe = yoe * 365 + trunc_div(yoe, 4) - trunc_div(yoe, 100) + doy;
    &&& in_i64(y) && in_i64(yb) && in_i64(era * 400) && in_i64(yoe)
    &&& in_i64(mp) && in_i64(153 * mp) && in_i64(153 * mp + 2)
    &&& in_i64(q + day) && in_i64(doy)
    &&& in_i64(yoe * 365) && in_i64(yoe * 365 + trunc_div(yoe, 4))
    &&& in_i64(yoe * 365 + trunc_div(yoe, 4) - trunc_div(yoe, 100)) && in_i64(doe)
    &&& in_i64(era * 146_097) && in_i64(era * 146_097 + doe) && in_i64(
        era * 146_097 + doe - 719_468,
    )
}

/// Seconds since the Unix epoch written by an RFC 3339 UTC timestamp
/// (`YYYY-MM-DDThh:mm:ss[.fraction]Z`, surrounding white space ignored).
pub open spec fn rfc3339_seconds(timestamp: Seq<char>) -> Option<int> {
    let t = trim_seq(timestamp);
    match find_first(t, 'T') {
        None => None,
        Some(i) => match (parse_date_spec(t.take(i)), parse_utc_time_spec(t.skip(i + 1))) {
            (Some((y, mo, d)), Some((h, mi, se))) => Some(
                civil_days(y, mo, d) * 86_400 + h * 3_600 + mi * 60 + se,
            ),
            _ => None,
        },
    }
}

/// The timestamp, when it parses, denotes a second that fits in `i64`.
pub open spec fn rfc3339_fits(timestamp: Seq<char>) -> bool {
    rfc3339_seconds(timestamp) matches Some(v) ==> in_i64(v)
}

/// `rfc3339_seconds`, kept only where it fits in `i64`.
pub open spec fn rfc3339_seconds_in_range(timestamp: Seq<char>) -> Option<int> {
    match rfc3339_seconds(timestamp) {
        Some(v) => if in_i64(v) { Some(v) } else { None },
        None => None,
    }
}

fn tdiv(a: i64, b: i64) -> (r: i64)
    requires
        b > 0,
    ensures
        r == trunc_div(a as int, b as int),
{
    if a >= 0 {
        a / b
    } else {
        let m: i128 = -(a as i128);
        let q: i128 = m / (b as i128);
        assert(q <= m) by (nonlinear_arith)
            requires
                m >= 0,
                b >= 1,
                q == m / (b as i128),
        ;
        (-q) as i64
    }
}

/// Parses `YYYY-MM-DD` into year, month and day.
pub fn parse_date(date: &str) -> (r: Option<(i64, i64, i64)>)
    ensures
        match parse_date_spec(date@) {
            Some((y, m, d)) => r == Some((y as i64, m as i64, d as i64)),
            None => r is None,
        },
{
    let chars = chars_of(date);
    let parts = split_chars(&chars, '-');
    let ghost sp = split_seq(date@, '-');
    if parts.len() < 3 {
        return None;
    }
    assert(parts@[0]@ == sp[0] && parts@[1]@ == sp[1] && parts@[2]@ == sp[2]);
    let year = match parse_i64(&parts[0]) {
        Some(v) => v,
        None => return None,
    };
    let month = match parse_i64(&parts[1]) {
        Some(v) => v,
        None => return None,
    };
    let day = match parse_i64(&parts[2]) {
        Some(v) => v,
        None => return None,
    };
    if parts.len() > 3 || !(1 <= month && month <= 12) || !(1 <= day && day <= 31) {
        return None;
    }
    Some((year, month, day))
}

/// Parses `hh:mm:ss[.fraction]Z` into hour, minute and second (a leap second
/// becomes 59).
pub fn parse_utc_time(time: &str) -> (r: Option<(i64, i64, i64)>)
    ensures
        match parse_utc_time_spec(time@) {
            Some((h, mi, se)) => r == Some((h as i64, mi as i64, se as i64)),
            None => r is None,
        },
{
    let all = chars_of(time);
    let n = all.len();
    if n == 0 || all[n - 1] != 'Z' {
        return None;
    }
    let body = copy_range(&all, 0, n - 1);
    assert(body@ =~= time@.drop_last());
    let parts = split_chars(&body, ':');
    let ghost sp = split_seq(time@.drop_last(), ':');
    if parts.len() < 3 {
        return None;
    }
    assert(parts@[0]@ == sp[0] && parts@[1]@ == sp[1] && parts@[2]@ == sp[2]);
    let hour = match parse_i64(&parts[0]) {
        Some(v) => v,
        None => return None,
    };
    let minute = match parse_i64(&parts[1]) {
        Some(v) => v,
        None => return None,
    };
    let second_pieces = split_chars(&parts[2], '.');
    proof {
        reveal_with_fuel(split_seq, 2);
        lemma_split_nonempty(sp[2], '.');
    }
    let second = match parse_i64(&second_pieces[0]) {
        Some(v) => v,
        None => return None,
    };
    if parts.len() > 3 || !(0 <= hour && hour <= 23) || !(0 <= minute && minute <= 59) || !(0
        <= second && second <= 60) {
        return None;
    }
    Some((hour, minute, if second < 59 { second } else { 59 }))
}

proof fn lemma_split_nonempty(s: Seq<char>, c: char)
    ensures
        split_seq(s, c).len() >= 1,
    decreases s.len(),
{
    lemma_find_first_bounds(s, c);
    match find_first(s, c) {
        None => {},
        Some(i) => {
            lemma_split_nonempty(s.skip(i + 1), c);
        },
    }
}

/// Days from 1970-01-01 to a proleptic Gregorian date.
pub fn days_from_civil(year: i64, month: i64, day: i64) -> (r: i64)
    requires
        civil_in_range(year as int, month as int, day as int),
    ensures
        r == civil_days(year as int, month as int, day as int),
{
    let year = year - if month <= 2 { 1 } else { 0 };
    let era = tdiv(if year >= 0 { year } else { year - 399 }, 400);
    let year_of_era = year - era * 400;
    let month_prime = month + if month > 2 { -3 } else { 9 };
    let day_of_year = tdiv(153 * month_prime + 2, 5) + day - 1;
    let day_of_era = year_of_era * 365 + tdiv(year_of_era, 4) - tdiv(year_of_era, 100)
        + day_of_year;
    era * 146_097 + day_of_era - 719_468
}


fn tdiv_wide(a: i128, b: i128) -> (r: i128)
    requires
        b > 0,
        a > i128::MIN,
    ensures
        r == trunc_div(a as int, b as int),
{
    if a >= 0 {
        a / b
    } else {
        let m: i128 = -a;
        let q: i128 = m / b;
        assert(q <= m) by (nonlinear_arith)
            requires
                m >= 0,
                b >= 1,
                q == m / b,
        ;
        -q
    }
}

proof fn lemma_trunc_div_bounds(a: int, b: int)
    requires
        b > 0,
    ensures
        a >= 0 ==> 0 <= trunc_div(a, b) <= a,
        a < 0 ==> a <= trunc_div(a, b) <= 0,
{
    if a >= 0 {
        assert(0 <= a / b <= a) by (nonlinear_arith)
            requires
                a >= 0,
                b > 0,
        ;
    } else {
        assert(0 <= (-a) / b <= -a) by (nonlinear_arith)
            requires
                -a > 0,
                b > 0,
        ;
    }
}

/// `civil_days` for a month in 1..=12 and a day in 1..=31, computed without
/// any possibility of overflow.
fn civil_days_wide(year: i64, month: i64, day: i64) -> (r: i128)
    requires
        1 <= month <= 12,
        1 <= day <= 31,
    ensures
        r == civil_days(year as int, month as int, day as int),
{
    let y: i128 = (year as i128) - if month <= 2 { 1i128 } else { 0i128 };
    let yb: i128 = if y >= 0 { y } else { y - 399 };
    let era = tdiv_wide(yb, 400);
    proof {
        lemma_trunc_div_bounds(yb as int, 400);
    }
    let year_of_era = y - era * 400;
    proof {
        if y >= 0 {
            assert(0 <= year_of_era < 400) by (nonlinear_arith)
                requires
                    y >= 0,
                    era == y / 400,
                    year_of_era == y - era * 400,
            ;
        } else {
            assert(0 <= year_of_era < 400) by (nonlinear_arith)
                requires
                    y < 0,
                    era == -((-(y - 399)) / 400),
                    year_of_era == y - era * 400,
            ;
        }
        lemma_trunc_div_bounds(year_of_era as int, 4);
        lemma_trunc_div_bounds(year_of_era as int, 100);
    }
    let month_prime: i128 = (month as i128) + if month > 2 { -3i128 } else { 9i128 };
    let q = tdiv_wide(153 * month_prime + 2, 5);
    proof {
        lemma_trunc_div_bounds(153 * month_prime + 2, 5);
    }
    let day_of_year = q + (day as i128) - 1;
    let day_of_era = year_of_era * 365 + tdiv_wide(year_of_era, 4) - tdiv_wide(year_of_era, 100)
        + day_of_year;
    era * 146_097 + day_of_era - 719_468
}

fn chars_to_string_range(v: &Vec<char>, from: usize, to: usize) -> (s: String)
    requires
        from <= to <= v@.len(),
    ensures
        s@ == v@.subrange(from as int, to as int),
{
    let piece = copy_range(v, from, to);
    crate::text::string_from_chars(piece.as_slice())
}

/// Seconds since the Unix epoch for an RFC 3339 UTC timestamp, or `None`
/// when the text is not in that form or the second does not fit in `i64`.
pub fn rfc3339_utc_seconds_checked(timestamp: &str) -> (r: Option<i64>)
    ensures
        match rfc3339_seconds_in_range(timestamp@) {
            Some(v) => r == Some(v as i64),
            None => r is None,
        },
{
    let trimmed = trim_str(timestamp);
    let chars = chars_of(trimmed.as_str());
    let ghost t = trim_seq(timestamp@);
    assert(chars@.skip(0) =~= chars@);
    let found = find_from(&chars, 0, 'T');
    let i = match found {
        None => return None,
        Some(i) => i,
    };
    let date = chars_to_string_range(&chars, 0, i);
    let time = chars_to_string_range(&chars, i + 1, chars.len());
    assert(date@ =~= t.take(i as int));
    assert(time@ =~= t.skip(i + 1));
    let (year, month, day) = match parse_date(date.as_str()) {
        Some(parts) => parts,
        None => return None,
    };
    let (hour, minute, second) = match parse_utc_time(time.as_str()) {
        Some(parts) => parts,
        None => return None,
    };
    let days = civil_days_wide(year, month, day);
    proof {
        lemma_civil_days_bounded(year as int, month as int, day as int);
    }
    let total: i128 = days * 86_400 + (hour as i128) * 3_600 + (minute as i128) * 60
        + (second as i128);
    if total < (i64::MIN as i128) || total > (i64::MAX as i128) {
        None
    } else {
        Some(total as i64)
    }
}

proof fn lemma_civil_days_bounded(year: int, month: int, day: int)
    requires
        in_i64(year),
        1 <= month <= 12,
        1 <= day <= 31,
    ensures
        -100_000_000_000_000_000_000_000_000 <= civil_days(year, month, day)
            <= 100_000_000_000_000_000_000_000_000,
{
    let y = year - (if month <= 2 { 1int } else { 0int });
    let yb = if y >= 0 { y } else { y - 399 };
    lemma_trunc_div_bounds(yb, 400);
    let era = trunc_div(yb, 400);
    let yoe = y - era * 400;
    if y >= 0 {
        assert(0 <= yoe < 400) by (nonlinear_arith)
            requires
                y >= 0,
                era == y / 400,
                yoe == y - era * 400,
        ;
    } else {
        assert(0 <= yoe < 400) by (nonlinear_arith)
            requires
                y < 0,
                era == -((-(y - 399)) / 400),
                yoe == y - era * 400,
        ;
    }
    lemma_trunc_div_bounds(yoe, 4);
    lemma_trunc_div_bounds(yoe, 100);
    let mp = month + (if month > 2 { -3int } else { 9int });
    lemma_trunc_div_bounds(153 * mp + 2, 5);
    assert(-10_000_000_000_000_000_000_000_000 <= era * 146_097
        <= 10_000_000_000_000_000_000_000_000) by (nonlinear_arith)
        requires
            -10_000_000_000_000_000_000 <= era <= 10_000_000_000_000_000_000,
    ;
}

/// A leap year of the proleptic Gregorian calendar.
pub open spec fn is_leap_year(year: int) -> bool {
    (year % 4 == 0 && year % 100 != 0) || year % 400 == 0
}

/// The number of days of a month.
pub open spec fn days_in_month(year: int, month: int) -> int {
    if month == 2 {
        if is_leap_year(year) { 29 } else { 28 }
    } else if month == 4 || month == 6 || month == 9 || month == 11 {
        30
    } else {
        31
    }
}

/// A date of the proleptic Gregorian calendar.
pub open spec fn valid_civil_date(year: int, month: int, day: int) -> bool {
    1 <= month <= 12 && 1 <= day <= days_in_month(year, month)
}

/// The calendar day after a date.
pub open spec fn next_civil_day(year: int, month: int, day: int) -> (int, int, int) {
    if day < days_in_month(year, month) {
        (year, month, day + 1)
    } else if month < 12 {
        (year, month + 1, 1)
    } else {
        (year + 1, 1, 1)
    }
}

/// The year count from which `civil_days` starts, split into 400-year
/// eras: `y` is `era * 400 + yoe` with `yoe` in `0..400`.
proof fn lemma_era_split(y: int)
    ensures
        0 <= y - trunc_div(if y >= 0 { y } else { y - 399 }, 400) * 400 < 400,
{
    let yb = if y >= 0 { y } else { y - 399 };
    let era = trunc_div(yb, 400);
    let yoe = y - era * 400;
    if y >= 0 {
        assert(0 <= yoe < 400) by (nonlinear_arith)
            requires
                y >= 0,
                era == y / 400,
                yoe == y - era * 400,
        ;
    } else {
        assert(0 <= yoe < 400) by (nonlinear_arith)
            requires
                y < 0,
                era == -((-(y - 399)) / 400),
                yoe == y - era * 400,
        ;
    }
}

/// `days_from_civil` counts days: the calendar day after a date is one
/// day later, so it is strictly increasing in calendar order.
pub proof fn law_next_day_is_one_day_later(year: int, month: int, day: int)
    requires
        valid_civil_date(year, month, day),
    ensures
        ({
            let (y2, m2, d2) = next_civil_day(year, month, day);
            civil_days(y2, m2, d2) == civil_days(year, month, day) + 1
        }),
{
    let dim = days_in_month(year, month);
    if day < dim {
    } else if month == 2 {
        // From the last day of February to March 1: the year count that
        // `civil_days` starts from moves on by one.
        let y = year - 1;
        let e = trunc_div(if y >= 0 { y } else { y - 399 }, 400);
        let r = y - e * 400;
        let e2 = trunc_div(if year >= 0 { year } else { year - 399 }, 400);
        let r2 = year - e2 * 400;
        lemma_era_split(y);
        lemma_era_split(year);
        assert(e2 == e || e2 == e + 1) by (nonlinear_arith)
            requires
                0 <= r < 400,
                0 <= r2 < 400,
                y == e * 400 + r,
                year == e2 * 400 + r2,
                year == y + 1,
        ;
        if e2 == e {
            assert(r2 == r + 1);
            vstd::arithmetic::div_mod::lemma_mod_multiples_vanish(e * 100, r2, 4);
            vstd::arithmetic::div_mod::lemma_mod_multiples_vanish(e * 4, r2, 100);
            vstd::arithmetic::div_mod::lemma_mod_multiples_vanish(e, r2, 400);
            assert(4 * (e * 100) + r2 == year);
            assert(100 * (e * 4) + r2 == year);
            assert(400 * e + r2 == year);
            assert(r2 % 400 == r2);
            assert(trunc_div(153int * 11 + 2, 5) == 337);
            assert(trunc_div(153int * 0 + 2, 5) == 0);
            assert(r2 / 4 - r / 4 == if r2 % 4 == 0 { 1int } else { 0int });
            assert(r2 / 100 - r / 100 == if r2 % 100 == 0 { 1int } else { 0int });
        } else {
            assert(r == 399 && r2 == 0);
            vstd::arithmetic::div_mod::lemma_mod_multiples_vanish(e2, 0, 400);
            assert(400 * e2 + 0 == year);
            assert(trunc_div(153int * 11 + 2, 5) == 337);
            assert(trunc_div(153int * 0 + 2, 5) == 0);
            assert(e2 * 146_097 == e * 146_097 + 146_097);
        }
    } else if month == 12 {
        assert(trunc_div(153int * 9 + 2, 5) == 275);
        assert(trunc_div(153int * 10 + 2, 5) == 306);
    } else {
        assert(trunc_div(153int * 10 + 2, 5) == 306);
        assert(trunc_div(153int * 11 + 2, 5) == 337);
        assert(trunc_div(153int * 0 + 2, 5) == 0);
        assert(trunc_div(153int * 1 + 2, 5) == 31);
        assert(trunc_div(153int * 2 + 2, 5) == 61);
        assert(trunc_div(153int * 3 + 2, 5) == 92);
        assert(trunc_div(153int * 4 + 2, 5) == 122);
        assert(trunc_div(153int * 5 + 2, 5) == 153);
        assert(trunc_div(153int * 6 + 2, 5) == 184);
        assert(trunc_div(153int * 7 + 2, 5) == 214);
        assert(trunc_div(153int * 8 + 2, 5) == 245);
        assert(trunc_div(153int * 9 + 2, 5) == 275);
    }
}

/// Seconds since the Unix epoch for an RFC 3339 UTC timestamp, or `None`
/// when the text is not in that form.
pub fn parse_rfc3339_utc_seconds(timestamp: &str) -> (r: Option<i64>)
    requires
        rfc3339_fits(timestamp@),
    ensures
        match rfc3339_seconds(timestamp@) {
            Some(v) => r == Some(v as i64),
            None => r is None,
        },
{
    rfc3339_utc_seconds_checked(timestamp)
}

// ---------------------------------------------------------------------------
// Human readable durations
// ---------------------------------------------------------------------------

/// `"<value> <unit>"`, with an `s` after the unit unless the value is 1.
pub open spec fn duration_text(value: int, unit: Seq<char>) -> Seq<char> {
    signed_decimal(value) + seq![' '] + unit + (if value == 1 {
        Seq::<char>::empty()
    } else {
        seq!['s']
    })
}

/// A span of seconds in its largest whole unit: seconds below a minute,
/// minutes below an hour, hours below a day, days otherwise.
pub open spec fn human_duration(seconds: int) -> Seq<char> {
    if 0 <= seconds <= 59 {
        duration_text(seconds, "second"@)
    } else if 60 <= seconds <= 3_599 {
        duration_text(seconds / 60, "minute"@)
    } else if 3_600 <= seconds <= 86_399 {
        duration_text(seconds / 3_600, "hour"@)
    } else {
        duration_text(trunc_div(seconds, 86_400), "day"@)
    }
}

/// Formats `value` followed by `unit`, pluralised unless `value` is 1.
pub fn format_duration(value: i64, unit: &str) -> (r: String)
    ensures
        r@ == duration_text(value as int, unit@),
{
    let mut s = crate::text::i64_to_string(value);
    push_char(&mut s, ' ');
    push_str(&mut s, unit);
    if value != 1 {
        push_char(&mut s, 's');
    }
    assert(s@ =~= duration_text(value as int, unit@));
    s
}

/// A span of seconds in its largest whole unit (`"10 minutes"`).
pub fn human_duration_seconds(seconds: i64) -> (r: String)
    ensures
        r@ == human_duration(seconds as int),
{
    if 0 <= seconds && seconds <= 59 {
        format_duration(seconds, "second")
    } else if 60 <= seconds && seconds <= 3_599 {
        format_duration(seconds / 60, "minute")
    } else if 3_600 <= seconds && seconds <= 86_399 {
        format_duration(seconds / 3_600, "hour")
    } else {
        format_duration(tdiv(seconds, 86_400), "day")
    }
}

/// `a - b` clamped to the `i64` range (`i64::saturating_sub`).
pub open spec fn saturating_difference(a: int, b: int) -> int {
    if a - b > i64::MAX {
        i64::MAX as int
    } else if a - b < i64::MIN {
        i64::MIN as int
    } else {
        a - b
    }
}

/// The elapsed time from `start` to `end`, never negative
/// (`end.saturating_sub(start).max(0)`).
pub open spec fn elapsed_seconds(start: int, end: int) -> int {
    let d = saturating_difference(end, start);
    if d < 0 { 0 } else { d }
}

/// Elapsed seconds from `start` to `end`, never negative.
pub fn elapsed(start: i64, end: i64) -> (r: i64)
    ensures
        r == elapsed_seconds(start as int, end as int),
{
    let wide: i128 = (end as i128) - (start as i128);
    if wide <= 0 {
        0
    } else if wide > (i64::MAX as i128) {
        i64::MAX
    } else {
        wide as i64
    }
}

/// How long ago an RFC 3339 timestamp was, seen at `now` (seconds since the
/// Unix epoch): `"<duration> ago"`, or `None` when the text is not a
/// timestamp.
pub open spec fn human_age(timestamp: Seq<char>, now: int) -> Option<Seq<char>> {
    match rfc3339_seconds_in_range(timestamp) {
        Some(t) => Some(human_duration(elapsed_seconds(t, now)) + " ago"@),
        None => None,
    }
}

/// How long ago an RFC 3339 timestamp was, seen at `now`.
pub fn human_age_from_rfc3339(timestamp: &str, now: i64) -> (r: Option<String>)
    ensures
        match human_age(timestamp@, now as int) {
            Some(text) => r matches Some(s) && s@ == text,
            None => r is None,
        },
{
    match rfc3339_utc_seconds_checked(timestamp) {
        None => None,
        Some(t) => {
            let mut s = human_duration_seconds(elapsed(t, now));
            push_str(&mut s, " ago");
            Some(s)
        },
    }
}

/// A timestamp shown as its age at `now`, or as written when it is not a
/// timestamp.
pub open spec fn timestamp_text(timestamp: Seq<char>, now: int) -> Seq<char> {
    match human_age(timestamp, now) {
        Some(text) => text,
        None => timestamp,
    }
}

/// A duration is shown in its largest whole unit, rounded down: under a
/// minute in seconds, under an hour in whole minutes, under a day in whole
/// hours, else in whole days; the unit takes an `s` unless the count is 1.
pub proof fn law_durations_in_largest_unit(n: int, rest: int)
    requires
        n >= 0,
        rest >= 0,
    ensures
        n < 60 ==> human_duration(n) == signed_decimal(n) + " second"@ + (if n == 1 { ""@ } else { "s"@ }),
        1 <= n < 60 && rest < 60 ==> human_duration(60 * n + rest)
            == signed_decimal(n) + " minute"@ + (if n == 1 { ""@ } else { "s"@ }),
        1 <= n < 24 && rest < 3_600 ==> human_duration(3_600 * n + rest)
            == signed_decimal(n) + " hour"@ + (if n == 1 { ""@ } else { "s"@ }),
        1 <= n && rest < 86_400 ==> human_duration(86_400 * n + rest)
            == signed_decimal(n) + " day"@ + (if n == 1 { ""@ } else { "s"@ }),
{
    reveal_strlit(" second");
    reveal_strlit(" minute");
    reveal_strlit(" hour");
    reveal_strlit(" day");
    reveal_strlit("second");
    reveal_strlit("minute");
    reveal_strlit("hour");
    reveal_strlit("day");
    reveal_strlit("");
    reveal_strlit("s");
    if 1 <= n < 60 && rest < 60 {
        vstd::arithmetic::div_mod::lemma_fundamental_div_mod_converse(60 * n + rest, 60, n, rest);
    }
    if 1 <= n < 24 && rest < 3_600 {
        vstd::arithmetic::div_mod::lemma_fundamental_div_mod_converse(3_600 * n + rest, 3_600, n, rest);
    }
    if 1 <= n && rest < 86_400 {
        vstd::arithmetic::div_mod::lemma_fundamental_div_mod_converse(86_400 * n + rest, 86_400, n, rest);
    }
}

/// The time between two instants is never negative: it is `end - start`
/// when that is between 0 and `i64::MAX`, 0 when `end` is before `start`.
pub proof fn law_elapsed_is_never_negative(start: int, end: int)
    ensures
        elapsed_seconds(start, end) >= 0,
        0 <= end - start <= i64::MAX ==> elapsed_seconds(start, end) == end - start,
        end <= start ==> elapsed_seconds(start, end) == 0,
{
}

/// A time column shows a timestamp as how long ago it was, and any other
/// text as it is.
pub proof fn law_timestamp_column(timestamp: Seq<char>, now: int)
    ensures
        match rfc3339_seconds_in_range(timestamp) {
            Some(t) => timestamp_text(timestamp, now) == human_duration(elapsed_seconds(t, now)) + " ago"@,
            None => timestamp_text(timestamp, now) == timestamp,
        },
{
}

} // verus!
