//! Calendar timestamps in UTC and the two texts derived from them: the
//! inquiry identifier, which is safe as a file name, and the RFC 3339 form,
//! which the `time` crate writes.

use crate::text::{decimal, padded_decimal, push_decimal, push_padded_decimal};
use vstd::prelude::*;

verus! {

/// A point in time, in UTC, by its calendar and clock components.
#[derive(Clone, Copy, Debug, PartialEq, Eq, Structural)]
pub struct Timestamp {
    pub year: i32,
    pub month: u8,
    pub day: u8,
    pub hour: u8,
    pub minute: u8,
    pub second: u8,
    pub nanosecond: u32,
}

/// The digits of a year: four, zero-padded, up to 9999, and as many as it
/// takes above.
pub open spec fn year_digits(n: nat) -> Seq<char> {
    if n < 10000 {
        padded_decimal(n, 4)
    } else {
        decimal(n)
    }
}

/// A year as text, with a minus sign before the digits of a negative one.
pub open spec fn year_text(year: int) -> Seq<char> {
    if year < 0 {
        seq!['-'] + year_digits((-year) as nat)
    } else {
        year_digits(year as nat)
    }
}

/// The RFC 3339 text that the `time` crate writes for a time in UTC; `None`
/// where it writes none.
pub uninterp spec fn rfc3339_text(at: Timestamp) -> Option<Seq<char>>;

impl Timestamp {
    /// Every component lies in its calendar or clock range.
    pub open spec fn wf(self) -> bool {
        &&& 1 <= self.month <= 12
        &&& 1 <= self.day <= 31
        &&& self.hour < 24
        &&& self.minute < 60
        &&& self.second < 60
        &&& self.nanosecond < 1_000_000_000
    }

    /// The date part, `YYYY-MM-DD`.
    pub open spec fn date_text(self) -> Seq<char> {
        year_text(self.year as int) + seq!['-'] + padded_decimal(self.month as nat, 2) + seq!['-']
            + padded_decimal(self.day as nat, 2)
    }

    /// The identifier of an inquiry accepted at this time:
    /// `YYYY-MM-DDTHH-MM-SS-mmmZ`.
    pub open spec fn id_text(self) -> Seq<char> {
        self.date_text() + seq!['T'] + padded_decimal(self.hour as nat, 2) + seq!['-']
            + padded_decimal(self.minute as nat, 2) + seq!['-'] + padded_decimal(
            self.second as nat,
            2,
        ) + seq!['-'] + padded_decimal(self.nanosecond as nat / 1_000_000, 3) + seq!['Z']
    }

    /// Whether the time has an RFC 3339 form.
    pub open spec fn has_rfc3339(self) -> bool {
        rfc3339_text(self) is Some
    }

    /// The RFC 3339 form of the time, where it has one.
    pub open spec fn rfc3339(self) -> Seq<char>
        recommends
            self.has_rfc3339(),
    {
        rfc3339_text(self).unwrap()
    }

    /// A timestamp of the given components, where each lies in its range.
    pub fn new(
        year: i32,
        month: u8,
        day: u8,
        hour: u8,
        minute: u8,
        second: u8,
        nanosecond: u32,
    ) -> (made: Option<Timestamp>)
        ensures
            made == (if (Timestamp { year, month, day, hour, minute, second, nanosecond }).wf() {
                Some(Timestamp { year, month, day, hour, minute, second, nanosecond })
            } else {
                None
            }),
    {
        if 1 <= month && month <= 12 && 1 <= day && day <= 31 && hour < 24 && minute < 60 && second
            < 60 && nanosecond < 1_000_000_000 {
            Some(Timestamp { year, month, day, hour, minute, second, nanosecond })
        } else {
            None
        }
    }

    /// The current time in UTC.
    pub fn now() -> (now: Timestamp)
        ensures
            now.wf(),
    {
        utc_now()
    }

    fn push_date(&self, out: &mut String)
        ensures
            final(out)@ == old(out)@ + self.date_text(),
    {
        let ghost before = out@;
        let year: i64 = self.year as i64;
        let magnitude: u64 = if year < 0 {
            out.push('-');
            (-year) as u64
        } else {
            year as u64
        };
        if magnitude < 10000 {
            push_padded_decimal(out, magnitude, 4);
        } else {
            push_decimal(out, magnitude);
        }
        assert(out@ =~= before + year_text(self.year as int));
        out.push('-');
        push_padded_decimal(out, self.month as u64, 2);
        out.push('-');
        push_padded_decimal(out, self.day as u64, 2);
        assert(out@ =~= before + self.date_text());
    }

    /// The identifier of an inquiry accepted at this time.
    pub fn inquiry_id(&self) -> (id: String)
        ensures
            id@ == self.id_text(),
    {
        let mut id = String::new();
        self.push_date(&mut id);
        id.push('T');
        push_padded_decimal(&mut id, self.hour as u64, 2);
        id.push('-');
        push_padded_decimal(&mut id, self.minute as u64, 2);
        id.push('-');
        push_padded_decimal(&mut id, self.second as u64, 2);
        id.push('-');
        push_padded_decimal(&mut id, (self.nanosecond / 1_000_000) as u64, 3);
        id.push('Z');
        assert(id@ =~= self.id_text());
        id
    }

    /// The RFC 3339 form of the time; `None` where it has none.
    pub fn to_rfc3339(&self) -> (text: Option<String>)
        ensures
            match text {
                Some(t) => self.has_rfc3339() && t@ == self.rfc3339(),
                None => !self.has_rfc3339(),
            },
    {
        format_rfc3339(self)
    }
}

/// `time::OffsetDateTime::format` with `Rfc3339`, on the time in UTC that
/// `Month::try_from`, `Date::from_calendar_date`, `Time::from_hms_nano`,
/// `PrimitiveDateTime::new` and `assume_utc` make of the components. Believed
/// of them: whether a text is written, and which, depends on the components
/// alone. `None` stands for components that one of them refuses.
#[verifier::external_body]
fn format_rfc3339(at: &Timestamp) -> (text: Option<String>)
    ensures
        match text {
            Some(t) => rfc3339_text(*at) == Some(t@),
            None => rfc3339_text(*at) is None,
        },
{
    let month = time::Month::try_from(at.month).ok()?;
    let date = time::Date::from_calendar_date(at.year, month, at.day).ok()?;
    let clock = time::Time::from_hms_nano(at.hour, at.minute, at.second, at.nanosecond).ok()?;
    time::PrimitiveDateTime::new(date, clock)
        .assume_utc()
        .format(&time::format_description::well_known::Rfc3339)
        .ok()
}

/// `time::OffsetDateTime::now_utc`, read through the getters `year`, `month`,
/// `day`, `hour`, `minute`, `second` and `nanosecond`. Believed of it: each
/// component lies in the range that the getter documents. Which time comes
/// back depends on the clock, so nothing else is stated.
#[verifier::external_body]
fn utc_now() -> (now: Timestamp)
    ensures
        now.wf(),
{
    let t = time::OffsetDateTime::now_utc();
    Timestamp {
        year: t.year(),
        month: u8::from(t.month()),
        day: t.day(),
        hour: t.hour(),
        minute: t.minute(),
        second: t.second(),
        nanosecond: t.nanosecond(),
    }
}

} // verus!
