//! The audit log: one file for each week, kept for twelve weeks.

use vstd::prelude::*;

use crate::audit::{
    is_outdated, lemma_day_text, spec_parse_date, spec_week_file, with_field, year_value,
    RETENTION_WEEKS,
};
use crate::calendar::{
    date_text, day_number, day_of, is_date, monday_of, two_digits, year_text, SECS_PER_DAY,
};
use crate::events::FieldValueView;
use crate::number::{
    digit_value, law_numeral_is_read_back, lemma_decimal, spec_decimal, spec_digits, spec_pad,
};
use crate::text::{spec_strip_prefix, stands_at};

verus! {

/// An instant falls in the week that begins on its Monday, and that day is a Monday:
/// its distance from the Monday before the first day of 1970 is a number of weeks.
pub proof fn law_monday_of_the_week(epoch_s: int)
    ensures
        monday_of(epoch_s) <= day_of(epoch_s) < monday_of(epoch_s) + 7,
        (monday_of(epoch_s) + 3) % 7 == 0,
{
}

/// All instants of a week have the same file, and no instant of another week has the
/// same Monday.
pub proof fn law_one_file_a_week(a: int, b: int, monday: int)
    requires
        (monday + 3) % 7 == 0,
        monday <= day_of(a) < monday + 7,
    ensures
        monday_of(a) == monday,
        monday <= day_of(b) < monday + 7 ==> spec_week_file(a) == spec_week_file(b),
        monday_of(b) == monday <==> monday <= day_of(b) < monday + 7,
{
}

proof fn lemma_pad_len(s: Seq<char>, width: nat)
    requires
        s.len() <= width,
    ensures
        spec_pad(s, width).len() == width,
    decreases width - s.len(),
{
    if s.len() < width {
        lemma_pad_len(seq!['0'] + s, width);
    }
}

proof fn lemma_decimal_len(n: nat)
    ensures
        n < 100 ==> spec_decimal(n).len() <= 2,
        n < 10000 ==> spec_decimal(n).len() <= 4,
{
    reveal_with_fuel(spec_decimal, 5);
}

proof fn lemma_first_digit(s: Seq<char>)
    requires
        spec_digits(s) is Some,
    ensures
        digit_value(s[0]) is Some,
    decreases s.len(),
{
    if s.len() > 1 {
        lemma_first_digit(s.drop_last());
    }
}

proof fn lemma_year(y: int)
    requires
        0 <= y < 10000,
    ensures
        year_text(y).len() == 4,
        year_value(year_text(y)) == Some(y),
{
    let s = spec_pad(spec_decimal(y as nat), 4);
    lemma_decimal(y as nat);
    lemma_decimal_len(y as nat);
    lemma_pad_len(spec_decimal(y as nat), 4);
    law_numeral_is_read_back(y as nat, 4, 9999);
    crate::number::lemma_padded(spec_decimal(y as nat), 4);
    lemma_first_digit(s);
}

proof fn lemma_two(n: int)
    requires
        0 <= n < 100,
    ensures
        two_digits(n).len() == 2,
        crate::number::spec_parse(two_digits(n), u32::MAX as nat) == Some(n as nat),
{
    lemma_decimal_len(n as nat);
    lemma_pad_len(spec_decimal(n as nat), 2);
    law_numeral_is_read_back(n as nat, 2, u32::MAX as nat);
}

/// The instant at which a day begins can be read back from the text of its date, for
/// the years with four digits.
pub proof fn law_dates_are_read_back(y: int, m: int, d: int)
    requires
        is_date(y, m, d),
        0 <= y < 10000,
    ensures
        spec_parse_date(date_text(y, m, d)) == Some(day_number(y, m, d) * 86400),
{
    reveal_strlit("-");
    lemma_year(y);
    lemma_two(m);
    lemma_two(d);
    let s = date_text(y, m, d);
    assert(s.len() == 10);
    assert(s[4] == '-');
    assert(s[7] == '-');
    assert(s.subrange(0, 4) =~= year_text(y));
    assert(s.subrange(5, 7) =~= two_digits(m));
    assert(s.subrange(8, 10) =~= two_digits(d));
}

/// The file of an instant is deleted once its Monday lies more than twelve weeks
/// back, and not before, for the years with four digits.
pub proof fn law_logs_are_kept_for_twelve_weeks(
    epoch_s: int,
    now: int,
    y: int,
    m: int,
    d: int,
)
    requires
        is_date(y, m, d),
        0 <= y < 10000,
        day_number(y, m, d) == monday_of(epoch_s),
    ensures
        is_outdated(spec_week_file(epoch_s), now) <==> monday_of(epoch_s) * 86400 < now - 12 * 7
            * 86400,
{
    let date = date_text(y, m, d);
    lemma_day_text(y, m, d);
    law_dates_are_read_back(y, m, d);
    let name = spec_week_file(epoch_s);
    assert(name == "audit-"@ + date + ".log"@);
    let k = "audit-"@.len() as int;
    assert(name.subrange(0, k) =~= "audit-"@);
    assert(stands_at(name, "audit-"@, 0));
    let rest = name.subrange(k, name.len() as int);
    assert(rest =~= date + ".log"@);
    let e = rest.len() - ".log"@.len();
    assert(rest.subrange(e, rest.len() as int) =~= ".log"@);
    assert(stands_at(rest, ".log"@, e));
    assert(rest.subrange(0, e) =~= date);
    assert(RETENTION_WEEKS * 7 * SECS_PER_DAY == 12 * 7 * 86400);
}

/// A file of another name is never deleted.
pub proof fn law_other_files_stay(name: Seq<char>, now: int)
    requires
        spec_strip_prefix(name, "audit-"@) is None,
    ensures
        !is_outdated(name, now),
{
}

// ---------------------------------------------------------------------------
// Fields
// ---------------------------------------------------------------------------

/// The value under a key.
pub open spec fn field(fields: Seq<(Seq<char>, FieldValueView)>, key: Seq<char>) -> Option<
    FieldValueView,
>
    decreases fields.len(),
{
    if fields.len() == 0 {
        None
    } else if fields[0].0 == key {
        Some(fields[0].1)
    } else {
        field(fields.drop_first(), key)
    }
}

/// What is put under a key is found there, and all other keys keep their values.
pub proof fn law_fields_are_found(
    fields: Seq<(Seq<char>, FieldValueView)>,
    key: Seq<char>,
    value: FieldValueView,
    other: Seq<char>,
)
    ensures
        field(with_field(fields, key, value), key) == Some(value),
        other != key ==> field(with_field(fields, key, value), other) == field(fields, other),
    decreases fields.len(),
{
    let after = with_field(fields, key, value);
    if fields.len() == 0 {
        assert(after.drop_first() =~= fields);
    } else if fields[0].0 == key {
        assert(after.drop_first() =~= fields.drop_first());
    } else {
        law_fields_are_found(fields.drop_first(), key, value, other);
        assert(after.drop_first() =~= with_field(fields.drop_first(), key, value));
    }
}

} // verus!
