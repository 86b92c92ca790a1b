//! Notes: ids, timestamps, summaries, the newest-first listing order, and
//! which note ids may name a file.  Reading and writing note files happens
//! in the app.
use vstd::prelude::*;
use vstd::multiset::Multiset;

use crate::errors::SettingsError;
use crate::models::{Note, NoteSummary};
use crate::paths::{path_extension, path_extension_spec, path_join, path_join_spec, app_config_dir};
use crate::templates::{lex_lt, lex_lt_exec, lemma_lex_total, lemma_lex_transitive, lemma_lex_asymmetric, lemma_lex_irreflexive};
use crate::text::{
    chars_of, contains_char, contains_str, contains_spec, decimal, digit_char, occurs_at, padded_decimal,
    push_padded, str_eq,
};

verus! {

/// Whether `y` is a Gregorian leap year.
pub open spec fn is_leap_year(y: int) -> bool {
    y % 4 == 0 && (y % 100 != 0 || y % 400 == 0)
}

/// Length of month `m` of year `y`.
pub open spec fn days_in_month(y: int, m: int) -> int {
    if m == 2 {
        if is_leap_year(y) {
            29
        } else {
            28
        }
    } else if m == 4 || m == 6 || m == 9 || m == 11 {
        30
    } else {
        31
    }
}

/// Days since 1970-01-01 of the proleptic Gregorian date `y-m-d`
/// (the days-from-civil count).
pub open spec fn days_from_civil(y: int, m: int, d: int) -> int {
    let yy = if m <= 2 {
        y - 1
    } else {
        y
    };
    let era = yy / 400;
    let yoe = yy - era * 400;
    let mp = if m > 2 {
        m - 3
    } else {
        m + 9
    };
    let doy = (153 * mp + 2) / 5 + d - 1;
    let doe = yoe * 365 + yoe / 4 - yoe / 100 + doy;
    era * 146097 + doe - 719468
}

proof fn lemma_yoe_bound(doe: int)
    requires
        0 <= doe <= 146096,
    ensures
        0 <= (doe - doe / 1460 + doe / 36524 - doe / 146096) / 365 <= 399,
{
    let f = doe - doe / 1460 + doe / 36524 - doe / 146096;
    if doe == 146096 {
        assert(f == 145999);
    } else {
        assert(doe / 146096 == 0);
        assert(doe / 36524 <= 4) by (nonlinear_arith)
            requires
                0 <= doe <= 146095,
        ;
        assert(doe - doe / 1460 <= 145995) by (nonlinear_arith)
            requires
                0 <= doe <= 146095,
        ;
        assert(doe - doe / 1460 >= 0) by (nonlinear_arith)
            requires
                0 <= doe,
        ;
    }
    assert(0 <= f <= 145999);
}

proof fn lemma_doe_before_next_year(doe: int, yoe: int)
    requires
        0 <= doe <= 146096,
        yoe == (doe - doe / 1460 + doe / 36524 - doe / 146096) / 365,
        0 <= yoe <= 399,
    ensures
        doe < 365 * (yoe + 1) + (yoe + 1) / 4 - (yoe + 1) / 100 + (if yoe == 399 {
            1int
        } else {
            0int
        }),
{
    assert(doe < 365 * (yoe + 1) + (yoe + 1) / 4 - (yoe + 1) / 100 + (if yoe == 399 {
        1int
    } else {
        0int
    })) by (nonlinear_arith)
        requires
            0 <= doe <= 146096,
            yoe == (doe - doe / 1460 + doe / 36524 - doe / 146096) / 365,
            0 <= yoe <= 399,
    ;
}

proof fn lemma_leap_every_400_years(k: int, era: int)
    ensures
        is_leap_year(k + era * 400) == is_leap_year(k),
{
    assert((k + era * 400) % 4 == k % 4) by (nonlinear_arith);
    assert((k + era * 400) % 100 == k % 100) by (nonlinear_arith);
    assert((k + era * 400) % 400 == k % 400) by (nonlinear_arith);
}

/// Days from the epoch to March 1 of the March-based year `yy`.
pub open spec fn march_year_start(yy: int) -> int {
    let era = yy / 400;
    let yoe = yy - era * 400;
    era * 146097 + yoe * 365 + yoe / 4 - yoe / 100 - 719468
}

/// Days from March 1 to the first of the `mp`-th month after March.
pub open spec fn month_offset(mp: int) -> int {
    (153 * mp + 2) / 5
}

proof fn lemma_civil_parts(y: int, m: int, d: int)
    requires
        1 <= m <= 12,
    ensures
        days_from_civil(y, m, d) == march_year_start(if m <= 2 { y - 1 } else { y }) + month_offset(
            if m > 2 { m - 3 } else { m + 9 },
        ) + d - 1,
{
}

proof fn lemma_march_year_step(yy: int)
    ensures
        march_year_start(yy + 1) == march_year_start(yy) + 365 + (if is_leap_year(yy + 1) {
            1int
        } else {
            0int
        }),
{
    let era = yy / 400;
    let yoe = yy - era * 400;
    assert(0 <= yoe < 400);
    if yoe == 399 {
        assert((yy + 1) / 400 == era + 1);
        assert(yy + 1 - (era + 1) * 400 == 0);
        lemma_leap_every_400_years(0, era + 1);
        assert(yy + 1 == 0 + (era + 1) * 400);
    } else {
        assert((yy + 1) / 400 == era);
        lemma_leap_every_400_years(yoe + 1, era);
        assert(yy + 1 == (yoe + 1) + era * 400);
    }
}

proof fn lemma_march_year_monotone(a: int, b: int)
    requires
        a <= b,
    ensures
        march_year_start(a) + 365 * (b - a) <= march_year_start(b),
    decreases b - a,
{
    if a < b {
        lemma_march_year_monotone(a, b - 1);
        lemma_march_year_step(b - 1);
    }
}

/// Dates in calendar order have increasing day counts.
#[verifier::spinoff_prover]
#[verifier::rlimit(40)]
pub proof fn lemma_civil_order(y1: int, m1: int, d1: int, y2: int, m2: int, d2: int)
    requires
        1 <= m1 <= 12,
        1 <= d1 <= days_in_month(y1, m1),
        1 <= m2 <= 12,
        1 <= d2 <= days_in_month(y2, m2),
        y1 < y2 || (y1 == y2 && m1 < m2) || (y1 == y2 && m1 == m2 && d1 < d2),
    ensures
        days_from_civil(y1, m1, d1) < days_from_civil(y2, m2, d2),
{
    lemma_civil_parts(y1, m1, d1);
    lemma_civil_parts(y2, m2, d2);
    let yy1 = if m1 <= 2 { y1 - 1 } else { y1 };
    let yy2 = if m2 <= 2 { y2 - 1 } else { y2 };
    let mp1 = if m1 > 2 { m1 - 3 } else { m1 + 9 };
    let mp2 = if m2 > 2 { m2 - 3 } else { m2 + 9 };
    // The day lies within its March-based year.
    assert(month_offset(mp1) + d1 - 1 < 365 + (if is_leap_year(yy1 + 1) { 1int } else { 0int }));
    if yy1 < yy2 {
        lemma_march_year_step(yy1);
        lemma_march_year_monotone(yy1 + 1, yy2);
    } else {
        assert(yy1 == yy2);
        if mp1 < mp2 {
            assert(month_offset(mp1) + d1 - 1 < month_offset(mp2));
        }
    }
}

/// The two decimal digits of `n` (below 100).
pub open spec fn two_digits(n: nat) -> Seq<char> {
    seq![digit_char((n / 10) as int), digit_char((n % 10) as int)]
}

/// The four decimal digits of `n` (below 10000).
pub open spec fn four_digits(n: nat) -> Seq<char> {
    two_digits(n / 100) + two_digits(n % 100)
}

#[verifier::spinoff_prover]
#[verifier::rlimit(40)]
proof fn lemma_padded_two(n: nat)
    requires
        n < 100,
    ensures
        padded_decimal(n, 2) == two_digits(n),
{
    reveal_with_fuel(decimal, 3);
    if n < 10 {
        assert(padded_decimal(n, 2) =~= two_digits(n));
    } else {
        assert(decimal(n / 10) =~= seq![digit_char((n / 10) as int)]);
        assert(padded_decimal(n, 2) =~= two_digits(n));
    }
}

#[verifier::spinoff_prover]
#[verifier::rlimit(40)]
proof fn lemma_padded_four(n: nat)
    requires
        n < 10000,
    ensures
        padded_decimal(n, 4) == four_digits(n),
{
    reveal_with_fuel(decimal, 5);
    if n < 10 {
        assert(padded_decimal(n, 4) =~= four_digits(n));
    } else if n < 100 {
        assert(decimal(n / 10) =~= seq![digit_char((n / 10) as int)]);
        assert(padded_decimal(n, 4) =~= four_digits(n));
    } else if n < 1000 {
        assert(decimal(n / 100) =~= seq![digit_char((n / 100) as int)]);
        assert(decimal(n / 10) =~= seq![digit_char((n / 100) as int), digit_char((n / 10 % 10) as int)]);
        assert(padded_decimal(n, 4) =~= four_digits(n));
    } else {
        assert(decimal(n / 1000) =~= seq![digit_char((n / 1000) as int)]);
        assert(decimal(n / 100) =~= seq![digit_char((n / 1000) as int), digit_char((n / 100 % 10) as int)]);
        assert(decimal(n / 10) =~= seq![
            digit_char((n / 1000) as int),
            digit_char((n / 100 % 10) as int),
            digit_char((n / 10 % 10) as int),
        ]);
        assert(padded_decimal(n, 4) =~= four_digits(n));
    }
}

/// Comparing `p + r` with `q + s` for `p`, `q` of one length: `p` before `q`
/// decides, and equal prefixes leave the rest to decide.
proof fn lemma_lex_concat(p: Seq<char>, q: Seq<char>, r: Seq<char>, t: Seq<char>)
    requires
        p.len() == q.len(),
    ensures
        lex_lt(p, q) ==> lex_lt(p + r, q + t),
        p == q ==> lex_lt(p + r, q + t) == lex_lt(r, t),
    decreases p.len(),
{
    if p.len() > 0 {
        assert((p + r).drop_first() =~= p.drop_first() + r);
        assert((q + t).drop_first() =~= q.drop_first() + t);
        assert((p + r)[0] == p[0] && (q + t)[0] == q[0]);
        lemma_lex_concat(p.drop_first(), q.drop_first(), r, t);
    } else {
        assert(p + r =~= r);
        assert(q + t =~= t);
    }
}

#[verifier::spinoff_prover]
#[verifier::rlimit(40)]
proof fn lemma_two_digits_order(a: nat, b: nat)
    requires
        a < b < 100,
    ensures
        lex_lt(two_digits(a), two_digits(b)),
{
    reveal_with_fuel(lex_lt, 3);
    let x = two_digits(a);
    let y = two_digits(b);
    assert(x.drop_first() =~= seq![digit_char((a % 10) as int)]);
    assert(y.drop_first() =~= seq![digit_char((b % 10) as int)]);
    assert(x.drop_first().drop_first().len() == 0);
    assert(y.drop_first().drop_first().len() == 0);
}

proof fn lemma_four_digits_order(a: nat, b: nat)
    requires
        a < b < 10000,
    ensures
        lex_lt(four_digits(a), four_digits(b)),
{
    if a / 100 < b / 100 {
        lemma_two_digits_order(a / 100, b / 100);
    } else {
        assert(a / 100 == b / 100);
        lemma_two_digits_order(a % 100, b % 100);
    }
    lemma_lex_concat(two_digits(a / 100), two_digits(b / 100), two_digits(a % 100), two_digits(b % 100));
}

/// The timestamp text of a date and time, as fixed-width pieces.
pub open spec fn iso_pieces(y: nat, mo: nat, d: nat, h: nat, mi: nat, s: nat) -> Seq<char> {
    four_digits(y) + (seq!['-'] + (two_digits(mo) + (seq!['-'] + (two_digits(d) + (seq!['T'] + (
    two_digits(h) + (seq![':'] + (two_digits(mi) + (seq![':'] + (two_digits(s) + seq!['Z']))))))))))
}

#[verifier::spinoff_prover]
#[verifier::rlimit(40)]
proof fn lemma_iso_pieces(y: nat, mo: nat, d: nat, h: nat, mi: nat, s: nat)
    requires
        y < 10000,
        mo < 100,
        d < 100,
        h < 100,
        mi < 100,
        s < 100,
    ensures
        iso_text(y, mo, d, h, mi, s) == iso_pieces(y, mo, d, h, mi, s),
{
    lemma_padded_four(y);
    lemma_padded_two(mo);
    lemma_padded_two(d);
    lemma_padded_two(h);
    lemma_padded_two(mi);
    lemma_padded_two(s);
    assert(iso_text(y, mo, d, h, mi, s) =~= iso_pieces(y, mo, d, h, mi, s));
}

proof fn lemma_step(p: Seq<char>, q: Seq<char>, sep: Seq<char>, r: Seq<char>, t: Seq<char>)
    requires
        p.len() == q.len(),
        lex_lt(p, q) || (p == q && lex_lt(r, t)),
    ensures
        lex_lt(p + (sep + r), q + (sep + t)),
{
    lemma_lex_concat(p, q, sep + r, sep + t);
    lemma_lex_concat(sep, sep, r, t);
}

/// Date and time fields in chronological order give timestamp texts in
/// character order.
#[verifier::spinoff_prover]
#[verifier::rlimit(40)]
proof fn lemma_iso_pieces_order(
    a: (nat, nat, nat, nat, nat, nat),
    b: (nat, nat, nat, nat, nat, nat),
)
    requires
        a.0 < 10000 && b.0 < 10000,
        a.1 < 100 && a.2 < 100 && a.3 < 100 && a.4 < 100 && a.5 < 100,
        b.1 < 100 && b.2 < 100 && b.3 < 100 && b.4 < 100 && b.5 < 100,
        a.0 < b.0 || (a.0 == b.0 && (a.1 < b.1 || (a.1 == b.1 && (a.2 < b.2 || (a.2 == b.2 && (a.3
            < b.3 || (a.3 == b.3 && (a.4 < b.4 || (a.4 == b.4 && a.5 < b.5))))))))),
    ensures
        lex_lt(iso_pieces(a.0, a.1, a.2, a.3, a.4, a.5), iso_pieces(b.0, b.1, b.2, b.3, b.4, b.5)),
{
    let zs = seq!['Z'];
    let ta_s = two_digits(a.5) + zs;
    let tb_s = two_digits(b.5) + zs;
    if a.5 < b.5 {
        lemma_two_digits_order(a.5, b.5);
    }
    lemma_lex_concat(two_digits(a.5), two_digits(b.5), zs, zs);
    let colon = seq![':'];
    let ta_mi = two_digits(a.4) + (colon + ta_s);
    let tb_mi = two_digits(b.4) + (colon + tb_s);
    if a.4 < b.4 {
        lemma_two_digits_order(a.4, b.4);
    }
    if a.4 < b.4 || (a.4 == b.4 && lex_lt(ta_s, tb_s)) {
        lemma_step(two_digits(a.4), two_digits(b.4), colon, ta_s, tb_s);
    }
    let ta_h = two_digits(a.3) + (colon + ta_mi);
    let tb_h = two_digits(b.3) + (colon + tb_mi);
    if a.3 < b.3 {
        lemma_two_digits_order(a.3, b.3);
    }
    if a.3 < b.3 || (a.3 == b.3 && lex_lt(ta_mi, tb_mi)) {
        lemma_step(two_digits(a.3), two_digits(b.3), colon, ta_mi, tb_mi);
    }
    let tee = seq!['T'];
    let ta_d = two_digits(a.2) + (tee + ta_h);
    let tb_d = two_digits(b.2) + (tee + tb_h);
    if a.2 < b.2 {
        lemma_two_digits_order(a.2, b.2);
    }
    if a.2 < b.2 || (a.2 == b.2 && lex_lt(ta_h, tb_h)) {
        lemma_step(two_digits(a.2), two_digits(b.2), tee, ta_h, tb_h);
    }
    let dash = seq!['-'];
    let ta_mo = two_digits(a.1) + (dash + ta_d);
    let tb_mo = two_digits(b.1) + (dash + tb_d);
    if a.1 < b.1 {
        lemma_two_digits_order(a.1, b.1);
    }
    if a.1 < b.1 || (a.1 == b.1 && lex_lt(ta_d, tb_d)) {
        lemma_step(two_digits(a.1), two_digits(b.1), dash, ta_d, tb_d);
    }
    if a.0 < b.0 {
        lemma_four_digits_order(a.0, b.0);
    }
    lemma_step(four_digits(a.0), four_digits(b.0), dash, ta_mo, tb_mo);
}

/// Fields in chronological order give timestamp texts in character order.
proof fn lemma_iso_text_order(a: (nat, nat, nat, nat, nat, nat), b: (nat, nat, nat, nat, nat, nat))
    requires
        a.0 < 10000 && b.0 < 10000,
        a.1 < 100 && a.2 < 100 && a.3 < 100 && a.4 < 100 && a.5 < 100,
        b.1 < 100 && b.2 < 100 && b.3 < 100 && b.4 < 100 && b.5 < 100,
        a.0 < b.0 || (a.0 == b.0 && (a.1 < b.1 || (a.1 == b.1 && (a.2 < b.2 || (a.2 == b.2 && (a.3
            < b.3 || (a.3 == b.3 && (a.4 < b.4 || (a.4 == b.4 && a.5 < b.5))))))))),
    ensures
        lex_lt(iso_text(a.0, a.1, a.2, a.3, a.4, a.5), iso_text(b.0, b.1, b.2, b.3, b.4, b.5)),
{
    lemma_iso_pieces(a.0, a.1, a.2, a.3, a.4, a.5);
    lemma_iso_pieces(b.0, b.1, b.2, b.3, b.4, b.5);
    lemma_iso_pieces_order(a, b);
}

/// A valid date on a day before 10000-01-01 (day 2932897) has a year below 10000.
proof fn lemma_year_below_10000(y: nat, mo: nat, d: nat)
    requires
        1 <= mo <= 12,
        1 <= d <= days_in_month(y as int, mo as int),
        days_from_civil(y as int, mo as int, d as int) < 2932897,
    ensures
        y < 10000,
{
    assert(days_from_civil(10000, 1, 1) == 2932897);
    if y >= 10000 && (y > 10000 || mo > 1 || d > 1) {
        lemma_civil_order(10000, 1, 1, y as int, mo as int, d as int);
    }
}

/// The date and time fields of a timestamp of `secs` seconds.
pub open spec fn iso_fields(secs: nat, y: nat, mo: nat, d: nat) -> (nat, nat, nat, nat, nat, nat) {
    let tod = secs % 86400;
    (y, mo, d, tod / 3600, (tod % 3600) / 60, tod % 60)
}

/// Timestamp texts sort as the times they stand for: of two timestamps of
/// `s1 <= s2` seconds after the epoch (before the year 10000), the first
/// never sorts after the second, character by character.
#[verifier::spinoff_prover]
#[verifier::rlimit(40)]
pub proof fn law_iso_timestamps_sort_by_time(t1: Seq<char>, s1: nat, t2: Seq<char>, s2: nat)
    requires
        iso_timestamp_of(t1, s1),
        iso_timestamp_of(t2, s2),
        s1 <= s2,
        s2 < 253_402_300_800,
    ensures
        !lex_lt(t2, t1),
{
    let (y1, mo1, d1) = choose|y: nat, mo: nat, d: nat|
        #![trigger days_from_civil(y as int, mo as int, d as int)]
        1 <= mo <= 12 && 1 <= d <= days_in_month(y as int, mo as int) && days_from_civil(
            y as int,
            mo as int,
            d as int,
        ) == s1 / 86400 && t1 == iso_text(y, mo, d, (s1 % 86400) / 3600, ((s1 % 86400) % 3600) / 60, (s1 % 86400) % 60);
    let (y2, mo2, d2) = choose|y: nat, mo: nat, d: nat|
        #![trigger days_from_civil(y as int, mo as int, d as int)]
        1 <= mo <= 12 && 1 <= d <= days_in_month(y as int, mo as int) && days_from_civil(
            y as int,
            mo as int,
            d as int,
        ) == s2 / 86400 && t2 == iso_text(y, mo, d, (s2 % 86400) / 3600, ((s2 % 86400) % 3600) / 60, (s2 % 86400) % 60);
    let a = iso_fields(s1, y1, mo1, d1);
    let b = iso_fields(s2, y2, mo2, d2);
    assert(t1 == iso_text(a.0, a.1, a.2, a.3, a.4, a.5));
    assert(t2 == iso_text(b.0, b.1, b.2, b.3, b.4, b.5));
    lemma_year_below_10000(y1, mo1, d1);
    lemma_year_below_10000(y2, mo2, d2);
    if y2 < y1 || (y2 == y1 && mo2 < mo1) || (y2 == y1 && mo2 == mo1 && d2 < d1) {
        lemma_civil_order(y2 as int, mo2 as int, d2 as int, y1 as int, mo1 as int, d1 as int);
    }
    if y1 < y2 || (y1 == y2 && mo1 < mo2) || (y1 == y2 && mo1 == mo2 && d1 < d2) {
        lemma_iso_text_order(a, b);
        lemma_lex_asymmetric(t1, t2);
    } else {
        assert(s1 % 86400 <= s2 % 86400);
        if s1 % 86400 == s2 % 86400 {
            lemma_lex_irreflexive(t1);
        } else {
            lemma_tod_order(s1 % 86400, s2 % 86400);
            lemma_iso_text_order(a, b);
            lemma_lex_asymmetric(t1, t2);
        }
    }
}

proof fn lemma_tod_order(x: nat, y: nat)
    requires
        x < y < 86400,
    ensures
        x / 3600 < y / 3600 || (x / 3600 == y / 3600 && ((x % 3600) / 60 < (y % 3600) / 60 || ((x
            % 3600) / 60 == (y % 3600) / 60 && x % 60 < y % 60))),
        x / 3600 < 100 && (x % 3600) / 60 < 100 && x % 60 < 100,
        y / 3600 < 100 && (y % 3600) / 60 < 100 && y % 60 < 100,
{
}

/// Within a March-based year of `365 + leap` days, the month and day that
/// `doy` falls on form a valid date.
proof fn lemma_day_within_month(doy: int, leap: bool)
    requires
        0 <= doy <= 364 + (if leap {
            1int
        } else {
            0int
        }),
    ensures
        ({
            let mp = (5 * doy + 2) / 153;
            let d = doy - (153 * mp + 2) / 5 + 1;
            &&& 0 <= mp <= 11
            &&& 1 <= d
            &&& mp == 11 ==> d <= 28 + (if leap {
                1int
            } else {
                0int
            })
            &&& (mp == 1 || mp == 3 || mp == 6 || mp == 8) ==> d <= 30
            &&& d <= 31
        }),
{
    let mp = (5 * doy + 2) / 153;
    assert(153 * mp <= 5 * doy + 2 < 153 * mp + 153) by (nonlinear_arith)
        requires
            mp == (5 * doy + 2) / 153,
    ;
    assert(0 <= mp <= 11);
    if mp == 0 {
    } else if mp == 1 {
    } else if mp == 2 {
    } else if mp == 3 {
    } else if mp == 4 {
    } else if mp == 5 {
    } else if mp == 6 {
    } else if mp == 7 {
    } else if mp == 8 {
    } else if mp == 9 {
    } else if mp == 10 {
    } else {
    }
}

proof fn lemma_floor_div_of_trunc(z: int)
    requires
        z < 0,
    ensures
        -((146096 - z) / 146097) == z / 146097,
{
    let w = -z;
    assert(-((w + 146096) / 146097) == (-w) / 146097) by (nonlinear_arith)
        requires
            w > 0,
    ;
}

/// The civil date `(year, month, day)` of a day count since 1970-01-01.
pub fn epoch_days_to_date(days: i64) -> (r: (i64, u32, u32))
    requires
        days <= i64::MAX - 719468,
    ensures
        1 <= r.1 <= 12,
        1 <= r.2 <= days_in_month(r.0 as int, r.1 as int),
        days_from_civil(r.0 as int, r.1 as int, r.2 as int) == days,
        days >= 0 ==> r.0 >= 0,
{
    let z: i64 = days + 719468;
    let num: i64 = if z >= 0 { z } else { z - 146096 };
    let era: i64 = num / 146097;
    proof {
        if z >= 0 {
            assert(era == z / 146097);
        } else {
            lemma_floor_div_of_trunc(z as int);
            assert(era == z / 146097);
        }
        assert(0 <= z - era * 146097 <= 146096) by (nonlinear_arith)
            requires
                era == z / 146097,
        ;
    }
    let doe: u32 = (z - era * 146097) as u32;
    proof {
        lemma_yoe_bound(doe as int);
    }
    let yoe: u32 = (doe - doe / 1460 + doe / 36524 - doe / 146096) / 365;
    let y0: i64 = yoe as i64 + era * 400;
    assert(365 * yoe + yoe / 4 - yoe / 100 <= doe) by (nonlinear_arith)
        requires
            yoe == (doe - doe / 1460 + doe / 36524 - doe / 146096) / 365,
            0 <= doe <= 146096,
            yoe <= 399,
    ;
    let doy: u32 = doe - (365 * yoe + yoe / 4 - yoe / 100);
    let mp: u32 = (5 * doy + 2) / 153;
    assert((153 * mp + 2) / 5 <= doy) by (nonlinear_arith)
        requires
            mp == (5 * doy + 2) / 153,
    ;
    let d: u32 = doy - (153 * mp + 2) / 5 + 1;
    let m: u32 = if mp < 10 { mp + 3 } else { mp - 9 };
    let y: i64 = if m <= 2 { y0 + 1 } else { y0 };
    proof {
        let yy = if m <= 2 { y - 1 } else { y as int };
        assert(yy == y0);
        assert(yy / 400 == era) by (nonlinear_arith)
            requires
                yy == yoe + era * 400,
                0 <= yoe <= 399,
        ;
        lemma_doe_before_next_year(doe as int, yoe as int);
        let leap = is_leap_year(yoe + 1);
        assert(((yoe + 1) / 4 - yoe / 4) - ((yoe + 1) / 100 - yoe / 100) + (if yoe == 399 {
            1int
        } else {
            0int
        }) <= (if leap {
            1int
        } else {
            0int
        })) by (nonlinear_arith)
            requires
                0 <= yoe <= 399,
                leap == is_leap_year(yoe + 1),
        ;
        lemma_day_within_month(doy as int, leap);
        lemma_leap_every_400_years(yoe + 1, era as int);
        assert(y0 + 1 == (yoe + 1) + era * 400);
        assert(mp <= 11);
        if days >= 0 {
            assert(era >= 0);
            assert(era * 400 >= 0) by (nonlinear_arith)
                requires
                    era >= 0,
            ;
        }
    }
    (y, m, d)
}


/// `YYYY-MM-DDTHH:MM:SSZ` for the given fields, each zero-padded.
pub open spec fn iso_text(y: nat, mo: nat, d: nat, h: nat, mi: nat, s: nat) -> Seq<char> {
    padded_decimal(y, 4) + seq!['-'] + padded_decimal(mo, 2) + seq!['-'] + padded_decimal(d, 2)
        + seq!['T'] + padded_decimal(h, 2) + seq![':'] + padded_decimal(mi, 2) + seq![':']
        + padded_decimal(s, 2) + seq!['Z']
}

/// `t` is the UTC timestamp text of `secs` seconds after the Unix epoch:
/// the calendar date of day `secs / 86400` and the time of day of the rest.
pub open spec fn iso_timestamp_of(t: Seq<char>, secs: nat) -> bool {
    let tod = secs % 86400;
    exists|y: nat, mo: nat, d: nat|
        #![trigger days_from_civil(y as int, mo as int, d as int)]
        1 <= mo <= 12 && 1 <= d <= days_in_month(y as int, mo as int) && days_from_civil(
            y as int,
            mo as int,
            d as int,
        ) == secs
            / 86400 && t == iso_text(y, mo, d, tod / 3600, (tod % 3600) / 60, tod % 60)
}

/// The ISO 8601 UTC timestamp, to the second, of `secs` seconds after the
/// Unix epoch.
pub fn format_iso_timestamp(secs: u64) -> (r: String)
    ensures
        iso_timestamp_of(r@, secs as nat),
{
    let days: u64 = secs / 86400;
    let time_of_day: u64 = secs % 86400;
    let hours: u64 = time_of_day / 3600;
    let minutes: u64 = (time_of_day % 3600) / 60;
    let seconds: u64 = time_of_day % 60;
    let (year, month, day) = epoch_days_to_date(days as i64);
    let mut out = String::new();
    push_padded(&mut out, year as u64, 4);
    out.push('-');
    push_padded(&mut out, month as u64, 2);
    out.push('-');
    push_padded(&mut out, day as u64, 2);
    out.push('T');
    push_padded(&mut out, hours, 2);
    out.push(':');
    push_padded(&mut out, minutes, 2);
    out.push(':');
    push_padded(&mut out, seconds, 2);
    out.push('Z');
    proof {
        let t = iso_text(year as nat, month as nat, day as nat, hours as nat, minutes as nat, seconds as nat);
        assert(out@ =~= t);
        assert(days_from_civil(year as nat as int, month as nat as int, day as nat as int) == secs / 86400);
    }
    out
}

/// The system clock (`SystemTime::now`) as seconds since the Unix epoch and
/// the nanoseconds within that second (`Duration::subsec_nanos`, always
/// under one billion); a clock set before the epoch reads as 0.  Nothing
/// else is stated of the value.
#[verifier::external_body]
fn unix_now() -> (r: (u64, u32))
    ensures
        r.1 < 1_000_000_000,
{
    let elapsed = std::time::SystemTime::now().duration_since(std::time::UNIX_EPOCH).unwrap_or_default();
    (elapsed.as_secs(), elapsed.subsec_nanos())
}

/// The current UTC time as `YYYY-MM-DDTHH:MM:SSZ`.
pub fn iso_now() -> (r: String)
    ensures
        exists|secs: nat| iso_timestamp_of(r@, secs),
{
    let (secs, _) = unix_now();
    format_iso_timestamp(secs)
}

/// A character of the hyphenated lowercase form of a UUID.
pub open spec fn is_uuid_text_char(c: char) -> bool {
    ('0' <= c <= '9') || ('a' <= c <= 'f') || c == '-'
}

/// Fills `buf` from the operating system's random source
/// (`getrandom::fill`); `false` when that source fails.  Which bytes come is
/// chance and is not stated.
#[verifier::external_body]
fn fill_random(buf: &mut Vec<u8>) -> (ok: bool)
    ensures
        final(buf)@.len() == old(buf)@.len(),
{
    getrandom::fill(buf.as_mut_slice()).is_ok()
}

/// Name for the text of the version 7 UUID that
/// `uuid::Builder::from_unix_timestamp_millis` builds from a millisecond
/// time and ten counter/random bytes.
pub uninterp spec fn uuid_v7_text_spec(unix_millis: u64, random: Seq<u8>) -> Seq<char>;

/// Builds a version 7 UUID with `uuid::Builder::from_unix_timestamp_millis`
/// and formats it with `to_string`: the hyphenated lowercase form, 36
/// characters of hex digits and hyphens.
#[verifier::external_body]
fn uuid_v7_text(unix_millis: u64, random: &Vec<u8>) -> (r: String)
    requires
        random@.len() == 10,
    ensures
        r@ == uuid_v7_text_spec(unix_millis, random@),
        r@.len() == 36,
        forall|i: int| 0 <= i < 36 ==> is_uuid_text_char(#[trigger] r@[i]),
{
    let bytes: [u8; 10] = random.as_slice().try_into().unwrap_or([0u8; 10]);
    uuid::Builder::from_unix_timestamp_millis(unix_millis, &bytes).into_uuid().to_string()
}

/// Milliseconds since the epoch of a clock reading, saturating.
pub open spec fn unix_millis_of(secs: u64, nanos: u32) -> u64 {
    if secs * 1000 + nanos / 1_000_000 > u64::MAX {
        u64::MAX
    } else {
        (secs * 1000 + nanos / 1_000_000) as u64
    }
}

fn unix_millis(secs: u64, nanos: u32) -> (r: u64)
    requires
        nanos < 1_000_000_000,
    ensures
        r == unix_millis_of(secs, nanos),
{
    match secs.checked_mul(1000) {
        None => u64::MAX,
        Some(m) => match m.checked_add((nanos / 1_000_000) as u64) {
            None => u64::MAX,
            Some(v) => v,
        },
    }
}

/// The sub-millisecond part of a clock reading as a 12-bit fraction, the
/// finer time ordering RFC 9562 allows in a version 7 UUID's `rand_a`.
pub open spec fn submilli_fraction(nanos: u32) -> nat {
    ((nanos % 1_000_000) * 4096 / 1_000_000) as nat
}

fn submilli_fraction_exec(nanos: u32) -> (r: u16)
    ensures
        r == submilli_fraction(nanos),
        r < 4096,
{
    let within: u64 = (nanos % 1_000_000) as u64;
    assert(within * 4096 / 1_000_000 < 4096) by (nonlinear_arith)
        requires
            within < 1_000_000,
    ;
    (within * 4096 / 1_000_000) as u16
}

/// A fresh note id: `note-` and a time-ordered (version 7) UUID: the clock's
/// millisecond, then its sub-millisecond fraction in the 12 `rand_a` bits
/// (so ids made later in a process sort later, to about a quarter
/// microsecond), then random bytes; `None` when the system's random source
/// fails.
pub fn generate_note_id() -> (r: Option<String>)
    ensures
        r matches Some(id) ==> exists|secs: u64, nanos: u32, random: Seq<u8>|
            #![trigger unix_millis_of(secs, nanos), uuid_v7_text_spec(unix_millis_of(secs, nanos), random)]
            nanos < 1_000_000_000 && random.len() == 10 && random[0] * 256 + random[1]
                == submilli_fraction(nanos) && id@ == "note-"@ + uuid_v7_text_spec(
                unix_millis_of(secs, nanos),
                random,
            ),
        r matches Some(id) ==> note_id_shape(id@),
{
    let (secs, nanos) = unix_now();
    let millis = unix_millis(secs, nanos);
    let mut random: Vec<u8> = vec![0u8; 10];
    if !fill_random(&mut random) {
        return None;
    }
    let fraction = submilli_fraction_exec(nanos);
    random.set(0, (fraction / 256) as u8);
    random.set(1, (fraction % 256) as u8);
    let id = note_id_from(millis, &random);
    proof {
        assert(random@[0] * 256 + random@[1] == submilli_fraction(nanos));
        assert(id@ == "note-"@ + uuid_v7_text_spec(unix_millis_of(secs, nanos), random@));
    }
    Some(id)
}

/// What a generated note id looks like: `note-` and 36 UUID characters, an
/// id the note store accepts.
pub open spec fn note_id_shape(id: Seq<char>) -> bool {
    &&& id.len() == 41
    &&& id.subrange(0, 5) == "note-"@
    &&& forall|i: int| 5 <= i < 41 ==> is_uuid_text_char(#[trigger] id[i])
    &&& is_safe_note_id(id)
}

/// The note id for a millisecond time and ten random bytes.
pub fn note_id_from(unix_millis: u64, random: &Vec<u8>) -> (r: String)
    requires
        random@.len() == 10,
    ensures
        r@ == "note-"@ + uuid_v7_text_spec(unix_millis, random@),
        note_id_shape(r@),
        r@.subrange(0, 5) == "note-"@,
        forall|i: int| 5 <= i < 41 ==> is_uuid_text_char(#[trigger] r@[i]),
        is_safe_note_id(r@),
{
    let mut id = String::from_str("note-");
    let u = uuid_v7_text(unix_millis, random);
    id.append(u.as_str());
    proof {
        reveal_strlit("note-");
        assert(id@.subrange(0, 5) =~= "note-"@);
        assert forall|i: int| 5 <= i < 41 implies is_uuid_text_char(#[trigger] id@[i]) by {
            assert(id@[i] == u@[i - 5]);
        }
        assert forall|i: int| 0 <= i < 41 implies id@[i] != '/' && id@[i] != '\\' && id@[i] != '.' by {
            if i < 5 {
                assert(id@[i] == "note-"@[i]);
            } else {
                assert(is_uuid_text_char(id@[i]));
            }
        }
        assert forall|k: int| !occurs_at(id@, ".."@, k) by {
            reveal_strlit("..");
            if occurs_at(id@, ".."@, k) {
                assert(id@.subrange(k, k + 2)[0] == '.');
                assert(id@[k] == '.');
            }
        }
    }
    id
}

// ---------------------------------------------------------------------------
// Summaries and the listing order
// ---------------------------------------------------------------------------

/// The summary of a note: everything but its content.
pub open spec fn summary_of(n: Note) -> NoteSummary {
    NoteSummary {
        id: n.id,
        title: n.title,
        created_at: n.created_at,
        updated_at: n.updated_at,
        source: n.source,
    }
}

impl Note {
    /// This note without its content.
    pub fn to_summary(&self) -> (r: NoteSummary)
        ensures
            r == summary_of(*self),
    {
        NoteSummary {
            id: self.id.clone(),
            title: self.title.clone(),
            created_at: self.created_at.clone(),
            updated_at: self.updated_at.clone(),
            source: self.source,
        }
    }
}

/// Newest first: no summary was updated before one that follows it
/// (timestamps compare as text, which orders ISO 8601 times).
pub open spec fn newest_first(s: Seq<NoteSummary>) -> bool {
    forall|i: int, j: int|
        0 <= i < j < s.len() ==> !lex_lt(#[trigger] s[i].updated_at@, #[trigger] s[j].updated_at@)
}

#[verifier::spinoff_prover]
#[verifier::rlimit(40)]
proof fn lemma_insert_newest_first(s: Seq<NoteSummary>, p: int, x: NoteSummary)
    requires
        newest_first(s),
        0 <= p <= s.len(),
        forall|k: int| 0 <= k < p ==> !lex_lt(#[trigger] s[k].updated_at@, x.updated_at@),
        p < s.len() ==> lex_lt(s[p].updated_at@, x.updated_at@),
    ensures
        newest_first(s.insert(p, x)),
{
    let t = s.insert(p, x);
    assert forall|i: int, j: int| 0 <= i < j < t.len() implies !lex_lt(
        #[trigger] t[i].updated_at@,
        #[trigger] t[j].updated_at@,
    ) by {
        if j < p {
            assert(t[i] == s[i] && t[j] == s[j]);
        } else if j == p {
            assert(t[i] == s[i] && t[j] == x);
        } else if i < p {
            assert(t[i] == s[i] && t[j] == s[j - 1]);
        } else if i == p {
            let a = s[j - 1].updated_at@;
            let b = s[p].updated_at@;
            let c = x.updated_at@;
            assert(t[i] == x && t[j] == s[j - 1]);
            if j - 1 > p {
                assert(!lex_lt(b, a));
                lemma_lex_total(a, b);
                if lex_lt(a, b) {
                    lemma_lex_transitive(a, b, c);
                }
            }
            assert(lex_lt(a, c));
            lemma_lex_asymmetric(a, c);
        } else {
            assert(t[i] == s[i - 1] && t[j] == s[j - 1]);
        }
    }
}

/// The summaries updated at `k`, in order.
pub open spec fn updated_at_exactly(s: Seq<NoteSummary>, k: Seq<char>) -> Seq<NoteSummary>
    decreases s.len(),
{
    if s.len() == 0 {
        s
    } else {
        let kept = updated_at_exactly(s.drop_last(), k);
        if s.last().updated_at@ == k {
            kept.push(s.last())
        } else {
            kept
        }
    }
}

proof fn lemma_updated_at_concat(a: Seq<NoteSummary>, b: Seq<NoteSummary>, k: Seq<char>)
    ensures
        updated_at_exactly(a + b, k) == updated_at_exactly(a, k) + updated_at_exactly(b, k),
    decreases b.len(),
{
    if b.len() == 0 {
        assert(a + b =~= a);
        assert(updated_at_exactly(a, k) + updated_at_exactly(b, k) =~= updated_at_exactly(a, k));
    } else {
        lemma_updated_at_concat(a, b.drop_last(), k);
        assert((a + b).drop_last() =~= a + b.drop_last());
        assert((a + b).last() == b.last());
        let ka = updated_at_exactly(a, k);
        let kb = updated_at_exactly(b.drop_last(), k);
        if b.last().updated_at@ == k {
            assert((ka + kb).push(b.last()) =~= ka + kb.push(b.last()));
        }
    }
}

proof fn lemma_updated_at_none(s: Seq<NoteSummary>, k: Seq<char>)
    requires
        forall|i: int| 0 <= i < s.len() ==> (#[trigger] s[i]).updated_at@ != k,
    ensures
        updated_at_exactly(s, k) == Seq::<NoteSummary>::empty(),
    decreases s.len(),
{
    if s.len() > 0 {
        assert forall|i: int| 0 <= i < s.drop_last().len() implies (#[trigger] s.drop_last()[i]).updated_at@ != k by {
            assert(s.drop_last()[i] == s[i]);
        }
        lemma_updated_at_none(s.drop_last(), k);
        assert(s.last() == s[s.len() - 1]);
    }
}

proof fn lemma_updated_at_single(x: NoteSummary, k: Seq<char>)
    ensures
        updated_at_exactly(seq![x], k) == (if x.updated_at@ == k {
            seq![x]
        } else {
            Seq::<NoteSummary>::empty()
        }),
{
    reveal_with_fuel(updated_at_exactly, 2);
    assert(seq![x].drop_last() =~= Seq::<NoteSummary>::empty());
    assert(seq![x].last() == x);
    if x.updated_at@ == k {
        assert(Seq::<NoteSummary>::empty().push(x) =~= seq![x]);
    }
}

/// Inserting `x` where the newest-first loop puts it keeps, for every
/// timestamp, the order in which equal timestamps arrived.
proof fn lemma_insert_keeps_ties(out: Seq<NoteSummary>, p: int, x: NoteSummary, k: Seq<char>)
    requires
        newest_first(out),
        0 <= p <= out.len(),
        p < out.len() ==> lex_lt(out[p].updated_at@, x.updated_at@),
    ensures
        updated_at_exactly(out.insert(p, x), k) == updated_at_exactly(out, k) + updated_at_exactly(
            seq![x],
            k,
        ),
{
    let head = out.subrange(0, p);
    let tail = out.subrange(p, out.len() as int);
    assert(out =~= head + tail);
    assert(out.insert(p, x) =~= head + (seq![x] + tail));
    lemma_updated_at_concat(head, tail, k);
    lemma_updated_at_concat(head, seq![x] + tail, k);
    lemma_updated_at_concat(seq![x], tail, k);
    lemma_updated_at_single(x, k);
    if x.updated_at@ == k {
        assert forall|i: int| 0 <= i < tail.len() implies (#[trigger] tail[i]).updated_at@ != k by {
            assert(tail[i] == out[p + i]);
            if i > 0 {
                assert(!lex_lt(out[p].updated_at@, out[p + i].updated_at@));
            } else {
                lemma_lex_irreflexive(x.updated_at@);
            }
        }
        lemma_updated_at_none(tail, k);
        assert(updated_at_exactly(tail, k) =~= Seq::<NoteSummary>::empty());
    }
    let a = updated_at_exactly(head, k);
    let b = updated_at_exactly(seq![x], k);
    let c = updated_at_exactly(tail, k);
    assert(a + (b + c) =~= (a + c) + b);
}

/// The given summaries reordered newest first; none is added or lost.
pub fn sort_newest_first(summaries: Vec<NoteSummary>) -> (r: Vec<NoteSummary>)
    ensures
        r@.to_multiset() == summaries@.to_multiset(),
        newest_first(r@),
        forall|k: Seq<char>| #[trigger] updated_at_exactly(r@, k) == updated_at_exactly(summaries@, k),
{
    broadcast use vstd::seq_lib::group_to_multiset_ensures;

    let ghost orig = summaries@;
    let mut rest = summaries;
    let mut out: Vec<NoteSummary> = Vec::new();
    assert(out@.to_multiset() =~= Multiset::empty());
    assert forall|k: Seq<char>| #[trigger] updated_at_exactly(orig, k) == updated_at_exactly(out@, k)
        + updated_at_exactly(rest@, k) by {
        assert(updated_at_exactly(out@, k) + updated_at_exactly(rest@, k) =~= updated_at_exactly(rest@, k));
    }
    while rest.len() > 0
        invariant
            out@.to_multiset().add(rest@.to_multiset()) == orig.to_multiset(),
            newest_first(out@),
            forall|k: Seq<char>| #[trigger] updated_at_exactly(orig, k) == updated_at_exactly(out@, k)
                + updated_at_exactly(rest@, k),
        decreases rest@.len(),
    {
        let ghost before = rest@;
        let x = rest.remove(0);
        assert(before.remove(0) == rest@);
        let key = chars_of(x.updated_at.as_str());
        let mut p: usize = 0;
        while p < out.len()
            invariant_except_break
                p <= out@.len(),
                forall|k: int| 0 <= k < p ==> !lex_lt(#[trigger] out@[k].updated_at@, x.updated_at@),
            invariant
                key@ == x.updated_at@,
            ensures
                p <= out@.len(),
                forall|k: int| 0 <= k < p ==> !lex_lt(#[trigger] out@[k].updated_at@, x.updated_at@),
                p < out@.len() ==> lex_lt(out@[p as int].updated_at@, x.updated_at@),
            decreases out@.len() - p,
        {
            let other = chars_of(out[p].updated_at.as_str());
            if lex_lt_exec(&other, &key) {
                break;
            }
            p = p + 1;
        }
        proof {
            lemma_insert_newest_first(out@, p as int, x);
            assert(before =~= seq![x] + rest@);
            assert forall|k: Seq<char>| #[trigger] updated_at_exactly(orig, k) == updated_at_exactly(
                out@.insert(p as int, x),
                k,
            ) + updated_at_exactly(rest@, k) by {
                lemma_insert_keeps_ties(out@, p as int, x, k);
                lemma_updated_at_concat(seq![x], rest@, k);
                let a = updated_at_exactly(out@, k);
                let b = updated_at_exactly(seq![x], k);
                let c = updated_at_exactly(rest@, k);
                assert((a + b) + c =~= a + (b + c));
            }
        }
        let ghost old_out = out@;
        out.insert(p, x);
        proof {
            vstd::seq_lib::to_multiset_insert(old_out, p as int, x);
            vstd::seq_lib::to_multiset_remove(before, 0);
            assert(x == before[0]);
            assert(out@.to_multiset() == old_out.to_multiset().insert(x));
            assert(rest@.to_multiset() == before.to_multiset().remove(x));
            vstd::seq_lib::to_multiset_contains(before, x);
            assert(before.contains(x));
            assert(before.to_multiset().count(x) > 0);
            assert(out@.to_multiset().add(rest@.to_multiset()) =~= old_out.to_multiset().add(
                before.to_multiset(),
            ));
        }
    }
    assert(rest@.to_multiset() =~= Multiset::empty());
    assert(out@.to_multiset() =~= orig.to_multiset());
    assert forall|k: Seq<char>| #[trigger] updated_at_exactly(out@, k) == updated_at_exactly(orig, k) by {
        assert(updated_at_exactly(out@, k) + updated_at_exactly(rest@, k) =~= updated_at_exactly(out@, k));
    }
    out
}

/// The summaries of the given notes, newest first.
pub fn summaries_newest_first(notes: Vec<Note>) -> (r: Vec<NoteSummary>)
    ensures
        r@.to_multiset() == notes@.map_values(|n: Note| summary_of(n)).to_multiset(),
        newest_first(r@),
        forall|k: Seq<char>| #[trigger] updated_at_exactly(r@, k) == updated_at_exactly(
            notes@.map_values(|n: Note| summary_of(n)),
            k,
        ),
{
    let mut summaries: Vec<NoteSummary> = Vec::new();
    let mut i: usize = 0;
    while i < notes.len()
        invariant
            i <= notes@.len(),
            summaries@ == notes@.subrange(0, i as int).map_values(|n: Note| summary_of(n)),
        decreases notes@.len() - i,
    {
        summaries.push(notes[i].to_summary());
        i = i + 1;
        assert(summaries@ =~= notes@.subrange(0, i as int).map_values(|n: Note| summary_of(n)));
    }
    assert(notes@.subrange(0, notes@.len() as int) =~= notes@);
    sort_newest_first(summaries)
}

// ---------------------------------------------------------------------------
// The note store: which files note ids name
// ---------------------------------------------------------------------------

/// A note id may name a file only when it holds no path separator and no
/// `..`, so that it cannot reach outside the notes directory.
pub open spec fn is_safe_note_id(id: Seq<char>) -> bool {
    !id.contains('/') && !id.contains('\\') && !contains_spec(id, ".."@)
}

/// The error for an id that could leave the notes directory.
pub open spec fn invalid_note_id_message() -> Seq<char> {
    "Invalid note ID: must not contain path separators or '..'"@
}

/// The file name of the note with id `id`.
pub open spec fn note_file_name(id: Seq<char>) -> Seq<char> {
    id + ".json"@
}

/// Checks [`is_safe_note_id`].
pub fn is_safe_note_id_exec(id: &str) -> (b: bool)
    ensures
        b == is_safe_note_id(id@),
{
    !contains_char(id, '/') && !contains_char(id, '\\') && !contains_str(id, "..")
}

/// Where notes are kept: one `<id>.json` file per note in one directory.
#[derive(Debug, Clone)]
pub struct NoteStore {
    notes_dir: String,
}

impl View for NoteStore {
    type V = Seq<char>;

    /// The notes directory.
    closed spec fn view(&self) -> Seq<char> {
        self.notes_dir@
    }
}

impl NoteStore {
    /// The store in the `notes` directory under the app's configuration
    /// directory.
    pub fn new() -> (r: Result<Self, SettingsError>)
        ensures
            r is Err ==> r matches Err(SettingsError::MissingConfigDir),
            r matches Ok(store) ==> exists|dir: Seq<char>| store@ == path_join_spec(dir, "notes"@),
    {
        let dir = app_config_dir();
        Self::from_config_dir(dir)
    }

    /// The store in the `notes` directory under `config_dir`; without a
    /// configuration directory there is none.
    pub fn from_config_dir(config_dir: Option<String>) -> (r: Result<Self, SettingsError>)
        ensures
            config_dir is None ==> r matches Err(SettingsError::MissingConfigDir),
            config_dir matches Some(d) ==> (r matches Ok(store) && store@ == path_join_spec(
                d@,
                "notes"@,
            )),
    {
        match config_dir {
            None => Err(SettingsError::MissingConfigDir),
            Some(d) => Ok(NoteStore { notes_dir: path_join(d.as_str(), "notes") }),
        }
    }

    /// The store in the given directory.
    pub fn with_dir(dir: String) -> (r: Self)
        ensures
            r@ == dir@,
    {
        NoteStore { notes_dir: dir }
    }

    /// The notes directory.
    pub fn notes_dir(&self) -> (r: &str)
        ensures
            r@ == self@,
    {
        self.notes_dir.as_str()
    }

    /// The file of the note with id `id`.
    fn file_for(&self, id: &str) -> (r: String)
        ensures
            r@ == path_join_spec(self@, note_file_name(id@)),
    {
        let mut name = String::from_str(id);
        name.append(".json");
        proof {
            reveal_strlit(".json");
        }
        path_join(self.notes_dir.as_str(), name.as_str())
    }

    /// The file to read for `get(id)`; an unsafe id has none, so the note
    /// is not found.
    pub fn get_path(&self, id: &str) -> (r: Option<String>)
        ensures
            is_safe_note_id(id@) ==> (r matches Some(p) && p@ == path_join_spec(
                self@,
                note_file_name(id@),
            )),
            !is_safe_note_id(id@) ==> r is None,
    {
        if !is_safe_note_id_exec(id) {
            return None;
        }
        Some(self.file_for(id))
    }

    /// The file to write for `save(note)`, or the validation error for an
    /// unsafe id.
    pub fn save_path(&self, note: &Note) -> (r: Result<String, SettingsError>)
        ensures
            is_safe_note_id(note.id@) ==> (r matches Ok(p) && p@ == path_join_spec(
                self@,
                note_file_name(note.id@),
            )),
            !is_safe_note_id(note.id@) ==> (r matches Err(SettingsError::Validation(m)) && m@
                == invalid_note_id_message()),
    {
        self.delete_path(note.id.as_str())
    }

    /// The file to remove for `delete(id)`, or the validation error for an
    /// unsafe id.
    pub fn delete_path(&self, id: &str) -> (r: Result<String, SettingsError>)
        ensures
            is_safe_note_id(id@) ==> (r matches Ok(p) && p@ == path_join_spec(
                self@,
                note_file_name(id@),
            )),
            !is_safe_note_id(id@) ==> (r matches Err(SettingsError::Validation(m)) && m@
                == invalid_note_id_message()),
    {
        if !is_safe_note_id_exec(id) {
            return Err(
                SettingsError::Validation(
                    String::from_str("Invalid note ID: must not contain path separators or '..'"),
                ),
            );
        }
        Ok(self.file_for(id))
    }

    /// What `delete(id)` does given whether the note's file exists: remove
    /// that file (`Some`), or nothing at all (`None`) when it is already
    /// gone, so deleting twice succeeds; an unsafe id is refused.
    pub fn delete_plan(&self, id: &str, file_exists: bool) -> (r: Result<Option<String>, SettingsError>)
        ensures
            delete_plan_matches(r, delete_plan_spec(self@, id@, file_exists)),
    {
        match self.delete_path(id) {
            Err(e) => Err(e),
            Ok(p) => if file_exists {
                Ok(Some(p))
            } else {
                Ok(None)
            },
        }
    }
}

/// `delete(id)`'s plan: the validation error for an unsafe id, else the file
/// to remove when it exists, else nothing.
pub open spec fn delete_plan_spec(dir: Seq<char>, id: Seq<char>, file_exists: bool) -> Result<
    Option<Seq<char>>,
    Seq<char>,
> {
    if !is_safe_note_id(id) {
        Err(invalid_note_id_message())
    } else if file_exists {
        Ok(Some(path_join_spec(dir, note_file_name(id))))
    } else {
        Ok(None)
    }
}

/// A plan as returned, against its specification.
pub open spec fn delete_plan_matches(
    r: Result<Option<String>, SettingsError>,
    spec: Result<Option<Seq<char>>, Seq<char>>,
) -> bool {
    match spec {
        Err(m) => r matches Err(SettingsError::Validation(x)) && x@ == m,
        Ok(Some(p)) => r matches Ok(Some(x)) && x@ == p,
        Ok(None) => r matches Ok(None),
    }
}

/// The outcome of removing a note's file.
pub fn finish_delete(removal: Result<(), String>) -> (r: Result<(), SettingsError>)
    ensures
        removal is Ok ==> r is Ok,
        removal matches Err(e) ==> (r matches Err(SettingsError::WriteFile(x)) && x@ == e@),
{
    match removal {
        Ok(()) => Ok(()),
        Err(e) => Err(SettingsError::WriteFile(e)),
    }
}

/// Deleting is idempotent: for an id the store accepts, once its file is
/// gone (the first delete removed it, or it never existed) a delete plans
/// nothing and so succeeds, however often it is repeated.
pub proof fn law_delete_twice_succeeds(dir: Seq<char>, id: Seq<char>)
    requires
        is_safe_note_id(id),
    ensures
        delete_plan_spec(dir, id, false) == Ok::<Option<Seq<char>>, Seq<char>>(None),
{
}

/// Whether a directory entry is a note file: its extension is `json`.
pub fn is_note_file(path: &str) -> (b: bool)
    ensures
        b == (path_extension_spec(path@) == Some("json"@)),
{
    proof {
        reveal_strlit("json");
    }
    match path_extension(path) {
        Some(ext) => str_eq(ext.as_str(), "json"),
        None => false,
    }
}

} // verus!
