//! The station part of a message: who sent it and when it was received.

use chrono::{Datelike, Timelike};
use vstd::prelude::*;
use crate::json::{exact_u64, number_text, AisMessage, JsonValue};
use crate::table::StringTable;
use crate::text::{digit_char, nat_digits, push_digits, string_from_chars, two_digits, u64_to_text};

verus! {

/// The pattern of the receive time that AIS-catcher writes: year, month, day,
/// hour, minute and second as digits, with nothing between them.
pub const RXTIME_PATTERN: &'static str = "%Y%m%d%H%M%S";

/// The station name used for an MMSI that the table does not hold.
pub const UNKNOWN_STATION: &'static str = "UNKNOWN";

/// Why a message could not be decoded; each names the field.
#[derive(Debug, Clone, Copy, PartialEq, Eq)]
pub enum DecodeError {
    /// A mandatory field is absent, or malformed (an unparsable receive time).
    MissingRequiredField(&'static str),
    /// A field is present with a type that cannot be read as the field's type.
    UnsupportedType(&'static str),
}

/// What a date and time parse gives: year, month, day, hour, minute, second and
/// nanosecond, as chrono's accessors return them.
pub type ParsedDateTime = (i32, u32, u32, u32, u32, u32, u32);

/// The result of parsing `s` as a date and time with a chrono pattern.
pub uninterp spec fn parsed_datetime(s: Seq<char>, pattern: Seq<char>) -> Option<ParsedDateTime>;

/// Relies on chrono's `NaiveDateTime::parse_from_str`, and on the `Datelike` and
/// `Timelike` accessors for the parts, whose ranges chrono documents.
#[verifier::external_body]
fn parse_datetime(s: &str, pattern: &str) -> (r: Option<ParsedDateTime>)
    ensures
        r == parsed_datetime(s@, pattern@),
        r matches Some(t) ==> 1 <= t.1 <= 12 && 1 <= t.2 <= 31 && t.3 <= 23 && t.4 <= 59 && t.5
            <= 59 && t.6 < 2_000_000_000,
{
    match chrono::NaiveDateTime::parse_from_str(s, pattern) {
        Ok(d) => Some((d.year(), d.month(), d.day(), d.hour(), d.minute(), d.second(), d.nanosecond())),
        Err(_) => None,
    }
}

/// A time in UTC, to the second. `second` is 60 during a leap second.
#[derive(Debug, Default, Clone, Copy, PartialEq, Eq, Structural)]
pub struct UtcTime {
    pub year: i32,
    pub month: u32,
    pub day: u32,
    pub hour: u32,
    pub minute: u32,
    pub second: u32,
}

impl UtcTime {
    pub open spec fn wf(&self) -> bool {
        &&& 1 <= self.month <= 12
        &&& 1 <= self.day <= 31
        &&& self.hour <= 23
        &&& self.minute <= 59
        &&& self.second <= 60
    }
}

/// The time of a parse result; a nanosecond count past one second marks a leap second.
pub open spec fn time_of(t: ParsedDateTime) -> UtcTime {
    UtcTime {
        year: t.0,
        month: t.1,
        day: t.2,
        hour: t.3,
        minute: t.4,
        second: if t.6 >= 1_000_000_000 {
            (t.5 + 1) as u32
        } else {
            t.5
        },
    }
}

/// Four digits, zero padded, or all of them where there are more.
pub open spec fn four_digits(n: nat) -> Seq<char> {
    if n < 10000 {
        seq![
            digit_char(n / 1000),
            digit_char((n / 100) % 10),
            digit_char((n / 10) % 10),
            digit_char(n % 10),
        ]
    } else {
        nat_digits(n)
    }
}

/// A year as ISO 8601 writes it: four digits within 0 to 9999, else a sign first.
pub open spec fn year_text(y: int) -> Seq<char> {
    if 0 <= y <= 9999 {
        four_digits(y as nat)
    } else if y < 0 {
        seq!['-'] + four_digits((-y) as nat)
    } else {
        seq!['+'] + four_digits(y as nat)
    }
}

/// The time as ISO 8601 in UTC to the second: `2023-06-15T12:00:00Z`.
pub open spec fn iso_text(t: UtcTime) -> Seq<char> {
    year_text(t.year as int) + seq!['-'] + two_digits(t.month as nat) + seq!['-'] + two_digits(
        t.day as nat,
    ) + seq!['T'] + two_digits(t.hour as nat) + seq![':'] + two_digits(t.minute as nat) + seq![':']
        + two_digits(t.second as nat) + seq!['Z']
}

fn push_four_digits(n: u64, out: &mut Vec<char>)
    ensures
        final(out)@ == old(out)@ + four_digits(n as nat),
{
    if n < 10000 {
        out.push(crate::text::digit_to_char(n / 1000));
        out.push(crate::text::digit_to_char((n / 100) % 10));
        out.push(crate::text::digit_to_char((n / 10) % 10));
        out.push(crate::text::digit_to_char(n % 10));
        assert(final(out)@ =~= old(out)@ + four_digits(n as nat));
    } else {
        push_digits(n, out);
    }
}

fn push_two_digits(n: u32, out: &mut Vec<char>)
    requires
        n < 100,
    ensures
        final(out)@ == old(out)@ + two_digits(n as nat),
{
    out.push(crate::text::digit_to_char((n / 10) as u64));
    out.push(crate::text::digit_to_char((n % 10) as u64));
    assert(final(out)@ =~= old(out)@ + two_digits(n as nat));
}

impl UtcTime {
    /// The time of a parse result.
    pub fn from_parsed(t: ParsedDateTime) -> (r: Self)
        requires
            1 <= t.1 <= 12 && 1 <= t.2 <= 31 && t.3 <= 23 && t.4 <= 59 && t.5 <= 59,
        ensures
            r == time_of(t),
            r.wf(),
    {
        UtcTime {
            year: t.0,
            month: t.1,
            day: t.2,
            hour: t.3,
            minute: t.4,
            second: if t.6 >= 1_000_000_000 {
                t.5 + 1
            } else {
                t.5
            },
        }
    }

    /// The time as ISO 8601 in UTC to the second.
    pub fn to_iso(&self) -> (r: String)
        requires
            self.wf(),
        ensures
            r@ == iso_text(*self),
    {
        let mut v: Vec<char> = Vec::new();
        if 0 <= self.year && self.year <= 9999 {
            push_four_digits(self.year as u64, &mut v);
        } else if self.year < 0 {
            v.push('-');
            push_four_digits((-(self.year as i64)) as u64, &mut v);
        } else {
            v.push('+');
            push_four_digits(self.year as u64, &mut v);
        }
        assert(v@ =~= year_text(self.year as int));
        v.push('-');
        push_two_digits(self.month, &mut v);
        v.push('-');
        push_two_digits(self.day, &mut v);
        v.push('T');
        push_two_digits(self.hour, &mut v);
        v.push(':');
        push_two_digits(self.minute, &mut v);
        v.push(':');
        push_two_digits(self.second, &mut v);
        v.push('Z');
        assert(v@ =~= iso_text(*self));
        string_from_chars(&v)
    }
}

/// Parses a receive time as AIS-catcher writes it.
pub fn parse_rxtime(s: &str) -> (r: Option<UtcTime>)
    ensures
        r == (match parsed_datetime(s@, RXTIME_PATTERN@) {
            Some(t) => Some(time_of(t)),
            None => None,
        }),
        r matches Some(t) ==> t.wf(),
{
    match parse_datetime(s, RXTIME_PATTERN) {
        Some(t) => Some(UtcTime::from_parsed(t)),
        None => None,
    }
}

/// Data about the station that sent a message.
#[derive(Debug, Clone)]
pub struct AisStationData {
    /// The Mobile Marine Service Identifier - 9 digits. ATON will start 99.
    pub mmsi: u64,
    /// The signal power reported by AIS-catcher, as decimal text, where the message has it.
    pub signal_power: Option<String>,
    /// The received time of the message, set by AIS-catcher from its clock, in UTC.
    pub rxtime: UtcTime,
}

/// Why the station part of `m` cannot be decoded, given `rxtime`, the parsed
/// receive time (meaningful where the message holds one as text); `None` where it can.
pub open spec fn station_error(m: AisMessage, rxtime: Option<UtcTime>) -> Option<DecodeError> {
    match m.field("rxtime"@) {
        None => Some(DecodeError::MissingRequiredField("rxtime")),
        Some(JsonValue::Text(_)) => if rxtime is None {
            Some(DecodeError::MissingRequiredField("rxtime"))
        } else {
            match m.field("mmsi"@) {
                None => Some(DecodeError::MissingRequiredField("mmsi")),
                Some(v) => if exact_u64(v) is None {
                    Some(DecodeError::UnsupportedType("mmsi"))
                } else {
                    match m.field("signalpower"@) {
                        Some(p) => if number_text(p) is None {
                            Some(DecodeError::UnsupportedType("signalpower"))
                        } else {
                            None
                        },
                        None => None,
                    }
                },
            }
        },
        Some(_) => Some(DecodeError::UnsupportedType("rxtime")),
    }
}

/// Whether `s` holds what `m` gives, with `rxtime` the parsed receive time.
pub open spec fn station_decoded(s: AisStationData, m: AisMessage, rxtime: Option<UtcTime>) -> bool {
    &&& rxtime == Some(s.rxtime)
    &&& m.field("mmsi"@) matches Some(v) && exact_u64(v) == Some(s.mmsi)
    &&& match m.field("signalpower"@) {
        None => s.signal_power is None,
        Some(p) => s.signal_power matches Some(t) && number_text(p) == Some(t@),
    }
}

/// The receive time of `m` as chrono parses it.
pub open spec fn rxtime_of(m: AisMessage) -> Option<UtcTime> {
    match m.field("rxtime"@) {
        Some(JsonValue::Text(s)) => match parsed_datetime(s@, RXTIME_PATTERN@) {
            Some(t) => Some(time_of(t)),
            None => None,
        },
        _ => None,
    }
}

/// The station name for an MMSI, or `UNKNOWN`.
pub open spec fn station_name(names: Map<Seq<char>, Seq<char>>, mmsi: u64) -> Seq<char> {
    if names.contains_key(nat_digits(mmsi as nat)) {
        names[nat_digits(mmsi as nat)]
    } else {
        UNKNOWN_STATION@
    }
}

/// The station's query fields: time, station name and MMSI.
pub open spec fn station_args(s: AisStationData, names: Map<Seq<char>, Seq<char>>) -> Seq<
    (Seq<char>, Seq<char>),
> {
    seq![
        ("time"@, iso_text(s.rxtime)),
        ("station_name"@, station_name(names, s.mmsi)),
        ("mmsi"@, nat_digits(s.mmsi as nat)),
    ]
}

impl AisStationData {
    /// Decodes the station part of a message, given its parsed receive time.
    pub fn decode_with_time(f: &AisMessage, rxtime: Option<UtcTime>) -> (r: Result<Self, DecodeError>)
        requires
            rxtime matches Some(t) ==> t.wf(),
        ensures
            match r {
                Ok(s) => station_error(*f, rxtime) is None && station_decoded(s, *f, rxtime)
                    && s.rxtime.wf(),
                Err(e) => station_error(*f, rxtime) == Some(e),
            },
    {
        match f.position("rxtime") {
            None => {
                return Err(DecodeError::MissingRequiredField("rxtime"));
            },
            Some(i) => match &f.msg[i].1 {
                JsonValue::Text(_) => {},
                _ => {
                    return Err(DecodeError::UnsupportedType("rxtime"));
                },
            },
        }
        let time = match rxtime {
            Some(t) => t,
            None => {
                return Err(DecodeError::MissingRequiredField("rxtime"));
            },
        };
        let mmsi = match f.position("mmsi") {
            None => {
                return Err(DecodeError::MissingRequiredField("mmsi"));
            },
            Some(i) => match f.msg[i].1.as_exact_u64() {
                Some(n) => n,
                None => {
                    return Err(DecodeError::UnsupportedType("mmsi"));
                },
            },
        };
        let signal_power = match f.position("signalpower") {
            None => None,
            Some(i) => match f.msg[i].1.as_number_text() {
                Some(t) => Some(t),
                None => {
                    return Err(DecodeError::UnsupportedType("signalpower"));
                },
            },
        };
        Ok(AisStationData { mmsi, signal_power, rxtime: time })
    }

    /// Decodes the station part of a message.
    pub fn from_message(f: &AisMessage) -> (r: Result<Self, DecodeError>)
        ensures
            match r {
                Ok(s) => station_error(*f, rxtime_of(*f)) is None && station_decoded(
                    s,
                    *f,
                    rxtime_of(*f),
                ) && s.rxtime.wf(),
                Err(e) => station_error(*f, rxtime_of(*f)) == Some(e),
            },
    {
        let rxtime = match f.position("rxtime") {
            Some(i) => match &f.msg[i].1 {
                JsonValue::Text(s) => parse_rxtime(s.as_str()),
                _ => None,
            },
            None => None,
        };
        Self::decode_with_time(f, rxtime)
    }

    /// The query fields for the station: `time`, `station_name` (from `mmsi_lookup`,
    /// or `UNKNOWN`) and `mmsi`.
    pub fn as_query_arguments(&self, mmsi_lookup: &StringTable) -> (r: Vec<(&str, String)>)
        requires
            self.rxtime.wf(),
        ensures
            r.deep_view() == station_args(*self, mmsi_lookup@),
    {
        let key = u64_to_text(self.mmsi);
        let station_id = match mmsi_lookup.get(key.as_str()) {
            Some(val) => val.clone(),
            None => String::from_str(UNKNOWN_STATION),
        };
        let mut r: Vec<(&str, String)> = Vec::new();
        r.push(("time", self.rxtime.to_iso()));
        r.push(("station_name", station_id));
        r.push(("mmsi", key));
        assert(r.deep_view() =~= station_args(*self, mmsi_lookup@));
        r
    }
}

} // verus!
