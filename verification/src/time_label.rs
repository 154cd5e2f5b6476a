//! X-axis time labels: the calendar conversion comes from chrono behind a
//! trusted wrapper; the digit assembly of the label text is verified.
use vstd::prelude::*;
use crate::format::padded_digits;
use chrono::Datelike;
use chrono::Timelike;

verus! {

/// The civil (year, month, day, hour, minute) of a millisecond UTC timestamp
/// shifted east by a fixed offset. A function of the arguments alone.
pub uninterp spec fn civil_of(ts_ms: int, offset_s: int) -> (int, int, int, int, int);

/// Relies on chrono's `DateTime::from_timestamp_millis` and its `Datelike` /
/// `Timelike` accessors for the proleptic-Gregorian calendar fields of a
/// timestamp; the shift by the display offset is plain arithmetic. Restricted
/// to the years 1970..=9999 so every field has its documented width.
#[verifier::external_body]
fn civil_fields(ts_ms: i64, offset_s: i32) -> (r: (u16, u8, u8, u8, u8))
    requires
        0 <= ts_ms + offset_s * 1000 < 253_402_300_800_000,
    ensures
        (r.0 as int, r.1 as int, r.2 as int, r.3 as int, r.4 as int)
            == civil_of(ts_ms as int, offset_s as int),
        1970 <= r.0 <= 9999,
        1 <= r.1 <= 12,
        1 <= r.2 <= 31,
        r.3 < 24,
        r.4 < 60,
        r.3 == ((ts_ms + offset_s * 1000) / 3600000) % 24,
        r.4 == ((ts_ms + offset_s * 1000) / 60000) % 60,
{
    let shifted = ts_ms + offset_s as i64 * 1000;
    let dt = match chrono::DateTime::<chrono::Utc>::from_timestamp_millis(shifted) {
        Some(dt) => dt,
        None => chrono::DateTime::<chrono::Utc>::UNIX_EPOCH,
    };
    (dt.year() as u16, dt.month() as u8, dt.day() as u8, dt.hour() as u8, dt.minute() as u8)
}

/// `YYYY/MM/DD hh:mm` for the civil fields `c`.
pub open spec fn long_label(c: (int, int, int, int, int)) -> Seq<char> {
    padded_digits(c.0, 4) + seq!['/'] + padded_digits(c.1, 2) + seq!['/'] + padded_digits(c.2, 2)
        + seq![' '] + padded_digits(c.3, 2) + seq![':'] + padded_digits(c.4, 2)
}

/// `hh:mm` for the civil fields `c`.
pub open spec fn short_label(c: (int, int, int, int, int)) -> Seq<char> {
    padded_digits(c.3, 2) + seq![':'] + padded_digits(c.4, 2)
}

fn append_two(out: &mut Vec<char>, n: u8)
    ensures final(out)@ == old(out)@ + padded_digits(n as int, 2),
{
    let mut d = crate::format::padded_digits_exec(n as i64, 2);
    out.append(&mut d);
}

/// The date-and-time label text, `YYYY/MM/DD hh:mm`, sixteen characters.
pub fn long_label_text(ts_ms: i64, offset_s: i32) -> (r: Vec<char>)
    requires
        0 <= ts_ms + offset_s * 1000 < 253_402_300_800_000,
    ensures
        r@ == long_label(civil_of(ts_ms as int, offset_s as int)),
        r@.len() == 16,
{
    let c = civil_fields(ts_ms, offset_s);
    let mut out: Vec<char> = Vec::new();
    let mut y = crate::format::padded_digits_exec(c.0 as i64, 4);
    out.append(&mut y);
    out.push('/');
    append_two(&mut out, c.1);
    out.push('/');
    append_two(&mut out, c.2);
    out.push(' ');
    append_two(&mut out, c.3);
    out.push(':');
    append_two(&mut out, c.4);
    proof {
        crate::format::lemma_padded_len(c.0 as int, 4);
        crate::format::lemma_padded_len(c.1 as int, 2);
        crate::format::lemma_padded_len(c.2 as int, 2);
        crate::format::lemma_padded_len(c.3 as int, 2);
        crate::format::lemma_padded_len(c.4 as int, 2);
        assert(out@ =~= long_label(civil_of(ts_ms as int, offset_s as int)));
    }
    out
}

/// The time-only label text, `hh:mm`, five characters.
pub fn short_label_text(ts_ms: i64, offset_s: i32) -> (r: Vec<char>)
    requires
        0 <= ts_ms + offset_s * 1000 < 253_402_300_800_000,
    ensures
        r@ == short_label(civil_of(ts_ms as int, offset_s as int)),
        r@.len() == 5,
{
    let c = civil_fields(ts_ms, offset_s);
    let mut out: Vec<char> = Vec::new();
    append_two(&mut out, c.3);
    out.push(':');
    append_two(&mut out, c.4);
    proof {
        crate::format::lemma_padded_len(c.3 as int, 2);
        crate::format::lemma_padded_len(c.4 as int, 2);
        assert(out@ =~= short_label(civil_of(ts_ms as int, offset_s as int)));
    }
    out
}

} // verus!
