//! Creation timestamps. A new log document records, exactly once, the UTC
//! wall-clock time of its first write as an ISO-8601 string with millisecond
//! precision: `YYYY-MM-DDTHH:MM:SS.sssZ`.
//!
//! The current instant comes from the system clock through `chrono`; turning
//! its calendar fields into the string is verified here.

use vstd::prelude::*;
use vstd::string::*;
use crate::decimal::{pad2, pad3, pad4, append_pad2, append_pad3, append_pad4};
use chrono::{DateTime, Datelike, Timelike, Utc};
use std::time::SystemTime;

verus! {

/// The calendar fields of one UTC instant.
pub struct UtcParts {
    pub year: i32,
    pub month: u32,
    pub day: u32,
    pub hour: u32,
    pub minute: u32,
    pub second: u32,
    /// Nanoseconds since the whole non-leap second; a value of one billion or
    /// more stands for a leap second.
    pub nanos: u32,
}

impl UtcParts {
    /// Field ranges of a calendar instant. The year is deliberately left
    /// unconstrained; formatting clamps it.
    pub open spec fn wf(&self) -> bool {
        &&& 1 <= self.month <= 12
        &&& 1 <= self.day <= 31
        &&& self.hour < 24
        &&& self.minute < 60
        &&& self.second < 60
        &&& self.nanos < 2_000_000_000
    }
}

/// Years outside the four-digit range are pinned to its ends.
pub open spec fn clamp_year(y: int) -> int {
    if y < 0 {
        0
    } else if y > 9999 {
        9999
    } else {
        y
    }
}

/// Whole milliseconds within the second; during a leap second the count
/// saturates at 999 so the field keeps three digits.
pub open spec fn millis_of(nanos: int) -> int {
    if nanos / 1_000_000 > 999 {
        999
    } else {
        nanos / 1_000_000
    }
}

/// The ISO-8601 millisecond-precision UTC rendering of a calendar instant.
pub open spec fn iso_of(p: UtcParts) -> Seq<char> {
    pad4(clamp_year(p.year as int)) + seq!['-'] + pad2(p.month as int) + seq!['-'] + pad2(
        p.day as int,
    ) + seq!['T'] + pad2(p.hour as int) + seq![':'] + pad2(p.minute as int) + seq![':'] + pad2(
        p.second as int,
    ) + seq!['.'] + pad3(millis_of(p.nanos as int)) + seq!['Z']
}

/// A string is a creation timestamp when some calendar instant renders to it.
pub open spec fn is_created_at(s: Seq<char>) -> bool {
    exists|p: UtcParts| p.wf() && #[trigger] iso_of(p) == s
}

/// Renders a calendar instant as `YYYY-MM-DDTHH:MM:SS.sssZ`.
pub fn format_created_at(p: &UtcParts) -> (r: String)
    requires
        p.wf(),
    ensures
        r@ == iso_of(*p),
{
    let year: u32 = if p.year < 0 {
        0
    } else if p.year > 9999 {
        9999
    } else {
        p.year as u32
    };
    let raw_ms: u32 = p.nanos / 1_000_000;
    let ms: u32 = if raw_ms > 999 {
        999
    } else {
        raw_ms
    };
    let mut s = String::new();
    append_pad4(&mut s, year);
    s.append("-");
    append_pad2(&mut s, p.month);
    s.append("-");
    append_pad2(&mut s, p.day);
    s.append("T");
    append_pad2(&mut s, p.hour);
    s.append(":");
    append_pad2(&mut s, p.minute);
    s.append(":");
    append_pad2(&mut s, p.second);
    s.append(".");
    append_pad3(&mut s, ms);
    s.append("Z");
    proof {
        reveal_strlit("-");
        reveal_strlit("T");
        reveal_strlit(":");
        reveal_strlit(".");
        reveal_strlit("Z");
        assert(year as int == clamp_year(p.year as int));
        assert(ms as int == millis_of(p.nanos as int));
        assert(s@ =~= iso_of(*p));
    }
    s
}

/// Relies on std's `SystemTime::now` and chrono: the `From<SystemTime>`
/// conversion turns the current wall clock into a UTC instant (handling a
/// pre-epoch clock explicitly, rather than panicking on it), and the
/// `Datelike` / `Timelike` accessors return its calendar fields in their
/// documented ranges (month 1..=12, day 1..=31, hour 0..=23, minute 0..=59,
/// second 0..=59, nanosecond below two billion, where one billion and above
/// stands for a leap second). Nothing is assumed of the year.
#[verifier::external_body]
fn now_utc_parts() -> (r: UtcParts)
    ensures
        r.wf(),
{
    let now: DateTime<Utc> = SystemTime::now().into();
    UtcParts {
        year: now.year(),
        month: now.month(),
        day: now.day(),
        hour: now.hour(),
        minute: now.minute(),
        second: now.second(),
        nanos: now.nanosecond(),
    }
}

/// The creation timestamp for a document first written now.
pub fn created_at_now() -> (r: String)
    ensures
        is_created_at(r@),
{
    let p = now_utc_parts();
    let r = format_created_at(&p);
    proof {
        assert(p.wf() && iso_of(p) == r@);
    }
    r
}

} // verus!
