//! The audit log: which file an event goes to, what is written with it, and which
//! files are old enough to go.

use vstd::prelude::*;

use crate::calendar::{
    civil_from_days, date_string, date_text, day_number, day_of, days_from_civil, is_date,
    monday_of, monday_of_week, two_digits, SECS_PER_DAY,
};
use crate::events::{AuditEvent, AuditEventView, FieldValue, FieldValueView};
use crate::number::{decimal, pad, parse_unsigned, spec_digits, spec_parse};
use crate::text::{
    cat, from_chars, same, spec_strip_prefix, spec_strip_suffix, strip_prefix, strip_suffix,
    to_chars,
};

verus! {

/// How long a log is kept, in weeks.
pub const RETENTION_WEEKS: i64 = 12;

/// The date with a day number.
pub open spec fn is_date_of(y: int, m: int, d: int, day: int) -> bool {
    is_date(y, m, d) && day_number(y, m, d) == day
}

/// The text of the date with a day number.
pub open spec fn day_text(day: int) -> Seq<char> {
    let date = choose|date: (int, int, int)| is_date_of(date.0, date.1, date.2, day);
    date_text(date.0, date.1, date.2)
}

pub proof fn lemma_day_text(y: int, m: int, d: int)
    requires
        is_date(y, m, d),
    ensures
        day_text(day_number(y, m, d)) == date_text(y, m, d),
{
    let day = day_number(y, m, d);
    assert(is_date_of((y, m, d).0, (y, m, d).1, (y, m, d).2, day));
    let date = choose|date: (int, int, int)| is_date_of(date.0, date.1, date.2, day);
    crate::calendar::law_day_number_tells_the_date(y, m, d, date.0, date.1, date.2);
}

proof fn lemma_year_bound(y: int, m: int, d: int)
    requires
        is_date(y, m, d),
        -200_000_000_000_000 <= day_number(y, m, d) <= 200_000_000_000_000,
    ensures
        -1_000_000_000_000 <= y <= 1_000_000_000_000,
{
    reveal_with_fuel(crate::calendar::before_month, 14);
}

/// The file for the events of a week, named after its Monday.
pub open spec fn spec_week_file(epoch_s: int) -> Seq<char> {
    "audit-"@ + day_text(monday_of(epoch_s)) + ".log"@
}

pub fn week_file_name(now_epoch_s: i64) -> (r: String)
    ensures
        r@ == spec_week_file(now_epoch_s as int),
{
    let monday: (i64, u32, u32) = monday_of_week(now_epoch_s);
    proof {
        lemma_year_bound(monday.0 as int, monday.1 as int, monday.2 as int);
        lemma_day_text(monday.0 as int, monday.1 as int, monday.2 as int);
    }
    let date: String = date_string(monday.0, monday.1, monday.2);
    cat(cat("audit-".to_string(), date.as_str()), ".log")
}

/// An instant in the form of ISO 8601, in UTC.
pub open spec fn spec_iso8601(epoch_s: int) -> Seq<char> {
    let s = epoch_s % 86400;
    day_text(day_of(epoch_s)) + "T"@ + two_digits(s / 3600) + ":"@ + two_digits((s / 60) % 60)
        + ":"@ + two_digits(s % 60) + "Z"@
}

fn floor_day(epoch_s: i64) -> (r: (i64, u64))
    ensures
        r.0 == day_of(epoch_s as int),
        r.1 == epoch_s as int % 86400,
{
    if epoch_s >= 0 {
        ((epoch_s as u64 / 86400) as i64, epoch_s as u64 % 86400)
    } else {
        let k: u64 = (-(epoch_s + 1)) as u64;
        (-((k / 86400) as i64) - 1, 86399 - k % 86400)
    }
}

pub fn format_iso8601(epoch_s: i64) -> (r: String)
    ensures
        r@ == spec_iso8601(epoch_s as int),
{
    let split: (i64, u64) = floor_day(epoch_s);
    let date: (i64, u32, u32) = civil_from_days(split.0);
    let s: u64 = split.1;
    proof {
        lemma_year_bound(date.0 as int, date.1 as int, date.2 as int);
        lemma_day_text(date.0 as int, date.1 as int, date.2 as int);
    }
    let h: String = pad(decimal(s / 3600), 2);
    let mi: String = pad(decimal((s / 60) % 60), 2);
    let sec: String = pad(decimal(s % 60), 2);
    cat(
        cat(
            cat(
                cat(
                    cat(
                        cat(
                            cat(date_string(date.0, date.1, date.2), "T"),
                            h.as_str(),
                        ),
                        ":",
                    ),
                    mi.as_str(),
                ),
                ":",
            ),
            sec.as_str(),
        ),
        "Z",
    )
}

// ---------------------------------------------------------------------------
// Old files
// ---------------------------------------------------------------------------

/// The value of a numeral of four characters, with a sign or without.
pub open spec fn year_value(s: Seq<char>) -> Option<int> {
    if s.len() > 0 && s[0] == '-' {
        match spec_digits(s.drop_first()) {
            Some(n) => Some(-(n as int)),
            None => None,
        }
    } else {
        match spec_parse(s, 9999) {
            Some(n) => Some(n as int),
            None => None,
        }
    }
}

/// The instant at which the day begins that a text of the form `<year>-<month>-<day>`
/// names.
pub open spec fn spec_parse_date(s: Seq<char>) -> Option<int> {
    if s.len() != 10 || s[4] != '-' || s[7] != '-' {
        None
    } else {
        match (
            year_value(s.subrange(0, 4)),
            spec_parse(s.subrange(5, 7), u32::MAX as nat),
            spec_parse(s.subrange(8, 10), u32::MAX as nat),
        ) {
            (Some(y), Some(m), Some(d)) => if 1 <= m <= 12 && 1 <= d <= 31 {
                Some(day_number(y, m as int, d as int) * 86400)
            } else {
                None
            },
            _ => None,
        }
    }
}

proof fn lemma_digits_bound(s: Seq<char>)
    ensures
        spec_digits(s) is Some && s.len() == 1 ==> spec_digits(s)->0 < 10,
        spec_digits(s) is Some && s.len() == 2 ==> spec_digits(s)->0 < 100,
        spec_digits(s) is Some && s.len() == 3 ==> spec_digits(s)->0 < 1000,
        spec_digits(s) is Some && s.len() == 4 ==> spec_digits(s)->0 < 10000,
{
    reveal_with_fuel(spec_digits, 5);
}

fn parse_year(s: &str) -> (r: Option<i64>)
    requires
        s@.len() == 4,
    ensures
        match r {
            Some(y) => year_value(s@) == Some(y as int) && -9999 <= y <= 9999,
            None => year_value(s@) is None,
        },
{
    if s.get_char(0) == '-' {
        let v: Vec<char> = to_chars(s);
        let rest: String = from_chars(vstd::slice::slice_subrange(v.as_slice(), 1, 4));
        proof {
            assert(rest@ =~= s@.drop_first());
            lemma_digits_bound(rest@);
        }
        if rest.as_str().get_char(0) == '+' {
            assert(spec_digits(rest@) is None) by {
                reveal_with_fuel(spec_digits, 4);
            }
            return None;
        }
        match parse_unsigned(rest.as_str(), 9999) {
            Some(n) => Some(-(n as i64)),
            None => None,
        }
    } else {
        match parse_unsigned(s, 9999) {
            Some(n) => Some(n as i64),
            None => None,
        }
    }
}

pub fn parse_yyyy_mm_dd(s: &str) -> (r: Option<i64>)
    ensures
        match r {
            Some(n) => spec_parse_date(s@) == Some(n as int),
            None => spec_parse_date(s@) is None,
        },
{
    let v: Vec<char> = to_chars(s);
    if v.len() != 10 || v[4] != '-' || v[7] != '-' {
        return None;
    }
    let year: String = from_chars(vstd::slice::slice_subrange(v.as_slice(), 0, 4));
    let month: String = from_chars(vstd::slice::slice_subrange(v.as_slice(), 5, 7));
    let day: String = from_chars(vstd::slice::slice_subrange(v.as_slice(), 8, 10));
    let y: i64 = match parse_year(year.as_str()) {
        Some(y) => y,
        None => {
            return None;
        },
    };
    let m: u64 = match parse_unsigned(month.as_str(), u32::MAX as u64) {
        Some(m) => m,
        None => {
            return None;
        },
    };
    let d: u64 = match parse_unsigned(day.as_str(), u32::MAX as u64) {
        Some(d) => d,
        None => {
            return None;
        },
    };
    if m < 1 || m > 12 || d < 1 || d > 31 {
        return None;
    }
    let days: i64 = days_from_civil(y, m as u32, d as u32);
    proof {
        reveal_with_fuel(crate::calendar::before_month, 14);
        assert(-5_000_000 <= days <= 5_000_000);
    }
    Some(days * SECS_PER_DAY)
}

/// The log file is of a week that is past its keeping.
pub open spec fn is_outdated(name: Seq<char>, now_epoch_s: int) -> bool {
    match spec_strip_prefix(name, "audit-"@) {
        None => false,
        Some(rest) => match spec_strip_suffix(rest, ".log"@) {
            None => false,
            Some(date) => match spec_parse_date(date) {
                None => false,
                Some(epoch) => epoch < now_epoch_s - RETENTION_WEEKS * 7 * SECS_PER_DAY,
            },
        },
    }
}

/// Whether a file in the log directory is to be deleted.
pub fn outdated(name: &str, now_epoch_s: i64) -> (r: bool)
    ensures
        r == is_outdated(name@, now_epoch_s as int),
{
    if let Some(rest) = strip_prefix(name, "audit-") {
        if let Some(date) = strip_suffix(rest.as_str(), ".log") {
            if let Some(epoch) = parse_yyyy_mm_dd(date.as_str()) {
                assert(-1_000_000_000_000 <= epoch <= 1_000_000_000_000) by {
                    lemma_date_bound(date@);
                }
                return epoch + 7257600 < now_epoch_s;
            }
        }
    }
    false
}

proof fn lemma_date_bound(s: Seq<char>)
    requires
        spec_parse_date(s) is Some,
    ensures
        -1_000_000_000_000 <= spec_parse_date(s)->0 <= 1_000_000_000_000,
{
    let year = s.subrange(0, 4);
    lemma_digits_bound(year);
    lemma_digits_bound(year.drop_first());
    reveal_with_fuel(crate::calendar::before_month, 14);
}

// ---------------------------------------------------------------------------
// What is written
// ---------------------------------------------------------------------------

/// The fields with a value put under a key, in place of the one there is.
pub open spec fn with_field(
    fields: Seq<(Seq<char>, FieldValueView)>,
    key: Seq<char>,
    value: FieldValueView,
) -> Seq<(Seq<char>, FieldValueView)>
    decreases fields.len(),
{
    if fields.len() == 0 {
        seq![(key, value)]
    } else if fields[0].0 == key {
        seq![(key, value)] + fields.drop_first()
    } else {
        seq![fields[0]] + with_field(fields.drop_first(), key, value)
    }
}

/// Puts a value under a key, in place of the one there is; without a value nothing
/// is put.
pub fn insert_field(fields: &mut Vec<(String, FieldValue)>, key: &str, value: Option<FieldValue>)
    ensures
        final(fields).deep_view() == (match value {
            Some(v) => with_field(old(fields).deep_view(), key@, v.deep_view()),
            None => old(fields).deep_view(),
        }),
{
    let value: FieldValue = match value {
        None => {
            return;
        },
        Some(v) => v,
    };
    let ghost all = fields.deep_view();
    let ghost v = value.deep_view();
    let mut i: usize = 0;
    assert(all.subrange(0, 0) + with_field(all, key@, v) =~= with_field(all, key@, v));
    assert(all.subrange(0, all.len() as int) =~= all);
    while i < fields.len() && !same(fields[i].0.as_str(), key)
        invariant
            i <= fields@.len(),
            fields.deep_view() == all,
            v == value.deep_view(),
            with_field(all, key@, v) == all.subrange(0, i as int) + with_field(
                all.subrange(i as int, all.len() as int),
                key@,
                v,
            ),
        decreases fields@.len() - i,
    {
        proof {
            let rest = all.subrange(i as int, all.len() as int);
            assert(rest[0] == fields@[i as int].deep_view());
            assert(rest.drop_first() =~= all.subrange(i + 1, all.len() as int));
            assert(all.subrange(0, i as int) + (seq![rest[0]] + with_field(
                rest.drop_first(),
                key@,
                v,
            )) =~= all.subrange(0, i + 1) + with_field(rest.drop_first(), key@, v));
        }
        i += 1;
    }
    if i < fields.len() {
        proof {
            let rest = all.subrange(i as int, all.len() as int);
            assert(rest[0] == fields@[i as int].deep_view());
            assert(rest.drop_first() =~= all.subrange(i + 1, all.len() as int));
        }
        fields.set(i, (key.to_string(), value));
        assert(fields.deep_view() =~= all.subrange(0, i as int) + (seq![(key@, v)] + all.subrange(
            i + 1,
            all.len() as int,
        )));
    } else {
        proof {
            assert(all.subrange(i as int, all.len() as int) =~= Seq::<
                (Seq<char>, FieldValueView),
            >::empty());
            assert(all.subrange(0, i as int) =~= all);
        }
        fields.push((key.to_string(), value));
        assert(fields.deep_view() =~= all + seq![(key@, v)]);
    }
}

/// The fields of an event as they are written: its own, the time in two forms, and
/// its name.
pub open spec fn stamped(event: AuditEventView, now_epoch_s: i64) -> Seq<
    (Seq<char>, FieldValueView),
> {
    with_field(
        with_field(
            with_field(
                event.fields,
                "ts"@,
                FieldValueView::Text(spec_iso8601(now_epoch_s as int)),
            ),
            "ts_epoch_s"@,
            FieldValueView::Int(now_epoch_s),
        ),
        "event"@,
        FieldValueView::Text(event.event),
    )
}

pub fn stamp(event: AuditEvent, now_epoch_s: i64) -> (r: Vec<(String, FieldValue)>)
    ensures
        r.deep_view() == stamped(event.deep_view(), now_epoch_s),
{
    let mut fields: Vec<(String, FieldValue)> = event.fields;
    insert_field(&mut fields, "ts", Some(FieldValue::Text(format_iso8601(now_epoch_s))));
    insert_field(&mut fields, "ts_epoch_s", Some(FieldValue::Int(now_epoch_s)));
    insert_field(&mut fields, "event", Some(FieldValue::Text(event.event)));
    fields
}

} // verus!
