//! Creation-timestamp resolution.
//!
//! A file's creation timestamp is taken from the first of four sources
//! that yields one, in this priority order: an Exif `DateTimeOriginal`
//! field, the container's own creation time (the MP4 movie header,
//! extracted by the caller and handed in as a raw second count), the
//! filesystem's last-modified attribute, and finally the local wall
//! clock. A parse failure at one tier falls through to the next; the
//! clock tier never fails, so resolution always succeeds, and the source
//! it settles on is a pure function of what each tier has to offer.

use vstd::prelude::*;
use crate::timestamp::{spec_days_in_month, Timestamp};
use chrono::Datelike;
use chrono::TimeZone;
use chrono::Timelike;

verus! {

/// Seconds between the MP4 epoch (1904-01-01) and the Unix epoch
/// (1970-01-01).
pub const MP4_EPOCH_OFFSET: u64 = 2082844800;

/// The smallest Unix second count whose local calendar fields are
/// guaranteed to lie in years 1..=9999: one day past 0001-01-01T00:00:00
/// UTC, leaving room for any timezone offset (they stay within a day).
pub const LOCAL_SAFE_MIN_SECS: i64 = -62135510400;

/// The largest such Unix second count: one day short of
/// 9999-12-31T23:59:59 UTC.
pub const LOCAL_SAFE_MAX_SECS: i64 = 253402214399;

/// Which source a resolved creation timestamp came from.
#[derive(Clone, Copy, PartialEq, Eq, Structural, Debug)]
pub enum DateSource {
    Exif,
    ContainerMetadata,
    FilesystemAttribute,
    LocalClockFallback,
}

impl DateSource {
    /// A short human-readable label for reports.
    pub fn label(&self) -> (r: &'static str)
        ensures
            *self == DateSource::Exif ==> r@ == "EXIF"@,
            *self == DateSource::ContainerMetadata ==> r@ == "MP4 Metadata"@,
            *self == DateSource::FilesystemAttribute ==> r@ == "File Attribute"@,
            *self == DateSource::LocalClockFallback ==> r@ == "Local Time"@,
    {
        match self {
            DateSource::Exif => "EXIF",
            DateSource::ContainerMetadata => "MP4 Metadata",
            DateSource::FilesystemAttribute => "File Attribute",
            DateSource::LocalClockFallback => "Local Time",
        }
    }
}

/// The displayed `DateTimeOriginal` text the Exif reader extracts from
/// these container bytes, if the container parses and the field exists.
pub uninterp spec fn exif_dto_of(bytes: Seq<u8>) -> Option<Seq<char>>;

/// The calendar fields chrono parses out of a `YYYY-MM-DD HH:MM:SS`
/// string, if it parses: (year, month, day, hour, minute, second).
pub uninterp spec fn parsed_dto_of(s: Seq<char>) -> Option<(i32, u32, u32, u32, u32, u32)>;

/// Relies on exif's `Reader::read_from_container`, `Exif::get_field`
/// with `Tag::DateTimeOriginal` / `In::PRIMARY`, and
/// `Field::display_value`: a pure parse of the bytes, yielding the
/// field's displayed text when the container parses and carries the tag.
#[verifier::external_body]
fn exif_datetime_original(bytes: &Vec<u8>) -> (r: Option<String>)
    ensures
        match r {
            Some(s) => exif_dto_of(bytes@) == Some(s@),
            None => exif_dto_of(bytes@) is None,
        },
{
    let mut cursor = std::io::Cursor::new(bytes.as_slice());
    match exif::Reader::new().read_from_container(&mut cursor) {
        Ok(data) => match data.get_field(exif::Tag::DateTimeOriginal, exif::In::PRIMARY) {
            Some(field) => Some(field.display_value().to_string()),
            None => None,
        },
        Err(_) => None,
    }
}

/// Relies on chrono's `NaiveDateTime::parse_from_str` with the fixed
/// format `%Y-%m-%d %H:%M:%S`, a pure function of the text, and on the
/// documented field ranges of `Datelike` / `Timelike`: a parsed
/// `NaiveDateTime` always holds a real calendar date and a time of day
/// with seconds 0..=59.
#[verifier::external_body]
fn parse_datetime_fields(s: &str) -> (r: Option<(i32, u32, u32, u32, u32, u32)>)
    ensures
        match r {
            Some(t) => {
                &&& parsed_dto_of(s@) == Some(t)
                &&& 1 <= t.1 <= 12
                &&& 1 <= t.2 <= spec_days_in_month(t.0 as int, t.1 as int)
                &&& t.3 <= 23
                &&& t.4 <= 59
                &&& t.5 <= 59
            },
            None => parsed_dto_of(s@) is None,
        },
{
    match chrono::NaiveDateTime::parse_from_str(s, "%Y-%m-%d %H:%M:%S") {
        Ok(dt) => Some((dt.year(), dt.month(), dt.day(), dt.hour(), dt.minute(), dt.second())),
        Err(_) => None,
    }
}

/// Relies on chrono's `TimeZone::timestamp_opt` for `Local`, documented
/// to return `Single` for every representable second count, and
/// `DateTime::naive_local`. The admitted seconds lie at least one day
/// inside the UTC span of years 1..=9999, and a local offset
/// (`FixedOffset`) stays strictly within one day, so the conversion
/// cannot fail or leave those years. The exact fields depend on the
/// machine's timezone, so beyond that only the documented field ranges
/// are stated.
#[verifier::external_body]
fn local_fields_of_unix(secs: i64) -> (r: Option<(i32, u32, u32, u32, u32, u32)>)
    requires
        LOCAL_SAFE_MIN_SECS <= secs <= LOCAL_SAFE_MAX_SECS,
    ensures
        r is Some,
        match r {
            Some(t) => {
                &&& 1 <= t.0 <= 9999
                &&& 1 <= t.1 <= 12
                &&& 1 <= t.2 <= spec_days_in_month(t.0 as int, t.1 as int)
                &&& t.3 <= 23
                &&& t.4 <= 59
                &&& t.5 <= 59
            },
            None => true,
        },
{
    match chrono::Local.timestamp_opt(secs, 0) {
        chrono::LocalResult::Single(dt) => {
            let n = dt.naive_local();
            Some((n.year(), n.month(), n.day(), n.hour(), n.minute(), n.second()))
        },
        _ => None,
    }
}

/// Relies on chrono's `Local::now` and `DateTime::naive_local`: the
/// current local calendar fields. The result depends on the wall clock
/// and timezone, so only the documented field ranges are stated.
#[verifier::external_body]
fn local_now_fields() -> (r: (i32, u32, u32, u32, u32, u32))
    ensures
        1 <= r.1 <= 12,
        1 <= r.2 <= spec_days_in_month(r.0 as int, r.1 as int),
        r.3 <= 23,
        r.4 <= 59,
        r.5 <= 59,
{
    let n = chrono::Local::now().naive_local();
    (n.year(), n.month(), n.day(), n.hour(), n.minute(), n.second())
}

/// The timestamp the Exif tier yields for these container bytes: the
/// displayed `DateTimeOriginal` text, parsed in the fixed format, with
/// the year confined to 1..=9999.
pub open spec fn exif_timestamp_of(bytes: Seq<u8>) -> Option<Timestamp> {
    match exif_dto_of(bytes) {
        Some(text) => match parsed_dto_of(text) {
            Some(t) => if 1 <= t.0 <= 9999 {
                Some(
                    Timestamp {
                        year: t.0,
                        month: t.1,
                        day: t.2,
                        hour: t.3,
                        minute: t.4,
                        second: t.5,
                    },
                )
            } else {
                None
            },
            None => None,
        },
        None => None,
    }
}

/// Parses creation text in the fixed `YYYY-MM-DD HH:MM:SS` format into a
/// valid timestamp; years outside 1..=9999 are rejected.
pub fn parse_creation_text(s: &str) -> (r: Option<Timestamp>)
    ensures
        match parsed_dto_of(s@) {
            Some(t) => {
                if 1 <= t.0 <= 9999 {
                    r == Some(
                        Timestamp {
                            year: t.0,
                            month: t.1,
                            day: t.2,
                            hour: t.3,
                            minute: t.4,
                            second: t.5,
                        },
                    )
                } else {
                    r is None
                }
            },
            None => r is None,
        },
        r matches Some(ts) ==> ts.valid(),
{
    match parse_datetime_fields(s) {
        Some((year, month, day, hour, minute, second)) => Timestamp::from_parts(
            year,
            month,
            day,
            hour,
            minute,
            second,
        ),
        None => None,
    }
}

/// A raw MP4 movie-header time as Unix seconds: values at or past the
/// epoch gap are MP4-epoch based and are shifted; smaller values are
/// taken as already Unix based.
pub open spec fn spec_mp4_to_unix(raw: u64) -> int {
    if raw >= MP4_EPOCH_OFFSET {
        raw - MP4_EPOCH_OFFSET
    } else {
        raw as int
    }
}

/// Converts a raw MP4 movie-header time to Unix seconds.
pub fn mp4_to_unix(raw: u64) -> (r: u64)
    ensures
        r == spec_mp4_to_unix(raw),
{
    if raw >= MP4_EPOCH_OFFSET {
        raw - MP4_EPOCH_OFFSET
    } else {
        raw
    }
}

/// Whether a Unix second count converts to a local timestamp within the
/// library's calendar model (years 1..=9999, any timezone).
pub open spec fn in_local_range(secs: int) -> bool {
    LOCAL_SAFE_MIN_SECS <= secs <= LOCAL_SAFE_MAX_SECS
}

/// The local naive timestamp of a Unix timestamp. Succeeds exactly on
/// the seconds whose local calendar fields are sure to lie in years
/// 1..=9999, whatever the machine's timezone.
pub fn local_timestamp_of_unix(secs: i64) -> (r: Option<Timestamp>)
    ensures
        r is Some <==> in_local_range(secs as int),
        r matches Some(ts) ==> ts.valid(),
{
    if secs < LOCAL_SAFE_MIN_SECS || secs > LOCAL_SAFE_MAX_SECS {
        return None;
    }
    match local_fields_of_unix(secs) {
        Some((year, month, day, hour, minute, second)) => Timestamp::from_parts(
            year,
            month,
            day,
            hour,
            minute,
            second,
        ),
        None => None,
    }
}

/// The current local time; if the clock reports a year outside 1..=9999,
/// the Unix epoch instant stands in so that the terminal fallback never
/// fails.
pub fn local_now_timestamp() -> (r: Timestamp)
    ensures
        r.valid(),
{
    let (year, month, day, hour, minute, second) = local_now_fields();
    match Timestamp::from_parts(year, month, day, hour, minute, second) {
        Some(ts) => ts,
        None => Timestamp { year: 1970, month: 1, day: 1, hour: 0, minute: 0, second: 0 },
    }
}

/// The source the resolution chain settles on, as a pure function of
/// what each tier has to offer: the Exif timestamp wins, then a
/// container creation time whose Unix conversion is representable, then
/// a representable filesystem time, then the local clock.
pub open spec fn resolved_source(
    exif_ts: Option<Timestamp>,
    container_ctime: Option<u64>,
    fs_mtime_unix: Option<i64>,
) -> DateSource {
    if exif_ts is Some {
        DateSource::Exif
    } else if container_ctime matches Some(raw) && in_local_range(spec_mp4_to_unix(raw)) {
        DateSource::ContainerMetadata
    } else if fs_mtime_unix matches Some(s) && in_local_range(s as int) {
        DateSource::FilesystemAttribute
    } else {
        DateSource::LocalClockFallback
    }
}

/// Resolves a file's creation timestamp from its bytes, the container
/// creation time the caller extracted (raw MP4 seconds), and the file's
/// modification time, trying Exif, then container metadata, then the
/// filesystem attribute, then the local clock. Resolution never fails,
/// and the source is exactly `resolved_source` of the three offers.
pub fn resolve_creation(
    bytes: &Vec<u8>,
    container_ctime: Option<u64>,
    fs_mtime_unix: Option<i64>,
) -> (r: (Timestamp, DateSource))
    ensures
        r.0.valid(),
        r.1 == resolved_source(exif_timestamp_of(bytes@), container_ctime, fs_mtime_unix),
        match exif_timestamp_of(bytes@) {
            Some(ts) => r.0 == ts,
            None => true,
        },
{
    if let Some(text) = exif_datetime_original(bytes) {
        if let Some(ts) = parse_creation_text(text.as_str()) {
            return (ts, DateSource::Exif);
        }
    }
    if let Some(raw) = container_ctime {
        let unix = mp4_to_unix(raw);
        if unix <= LOCAL_SAFE_MAX_SECS as u64 {
            if let Some(ts) = local_timestamp_of_unix(unix as i64) {
                return (ts, DateSource::ContainerMetadata);
            }
        }
    }
    if let Some(secs) = fs_mtime_unix {
        if let Some(ts) = local_timestamp_of_unix(secs) {
            return (ts, DateSource::FilesystemAttribute);
        }
    }
    (local_now_timestamp(), DateSource::LocalClockFallback)
}

} // verus!
