//! The Shabbat times reply: its records, and the reading of its timestamps.

use crate::error::DecodeError;
use crate::shabbat::options::Coordinate;
use chrono::{Datelike, Timelike};
use std::collections::HashMap;
use vstd::prelude::*;
use vstd::string::StringExecFns;

verus! {

/// Relies on serde_json's `Value`: a JSON value kept as the service sent it.
#[verifier::external_type_specification]
#[verifier::external_body]
pub struct ExValue(serde_json::Value);

/// A calendar date and a time of day, as written, without a time zone.
#[derive(Clone, Copy, Debug, PartialEq, Eq, Structural)]
pub struct DateTime {
    pub year: i32,
    pub month: u32,
    pub day: u32,
    pub hour: u32,
    pub minute: u32,
    pub second: u32,
}

/// The place the reply is about.
#[derive(Debug, Clone)]
pub struct Location {
    pub title: String,
    pub city: String,
    pub tzid: String,
    pub latitude: Coordinate,
    pub longitude: Coordinate,
    pub cc: String,
    pub country: String,
    pub admin1: String,
    pub geo: String,
    pub geonameid: Option<u32>,
}

/// One calendar entry: candle lighting, a holiday, a Torah portion.
#[derive(Debug, Clone)]
pub struct Item {
    pub title: String,
    pub date: DateTime,
    pub category: Option<String>,
    pub subcat: Option<String>,
    pub hebrew: String,
    pub link: Option<String>,
    pub memo: Option<String>,
    pub title_orig: Option<String>,
    pub yomtov: Option<bool>,
    /// Reading details by reading name, kept as the service sent them.
    pub leyning: Option<HashMap<String, serde_json::Value>>,
}

/// A Shabbat times result; `items` keep the service's (chronological) order.
#[derive(Debug, Clone)]
pub struct Shabbat {
    pub title: Option<String>,
    /// The reply's own timestamp, in UTC.
    pub date: DateTime,
    pub location: Location,
    pub items: Vec<Item>,
}

/// A calendar entry as the reply carries it, its timestamp still text.
#[derive(Debug, Clone)]
pub struct RawItem {
    pub title: String,
    pub date: String,
    pub category: Option<String>,
    pub subcat: Option<String>,
    pub hebrew: String,
    pub link: Option<String>,
    pub memo: Option<String>,
    pub title_orig: Option<String>,
    pub yomtov: Option<bool>,
    pub leyning: Option<HashMap<String, serde_json::Value>>,
}

/// A Shabbat times reply as it arrives, its timestamps still text.
#[derive(Debug, Clone)]
pub struct RawShabbat {
    pub title: Option<String>,
    pub date: String,
    pub location: Location,
    pub items: Vec<RawItem>,
}

/// The fields (year, month, day, hour, minute, second) that chrono reads from
/// `s` in the format `%Y-%m-%dT%H:%M:%S%z`, the offset checked and not
/// applied; `None` where `s` is not in that format.
pub uninterp spec fn offset_date_time_fields(s: Seq<char>) -> Option<(i32, u32, u32, u32, u32, u32)>;

/// The (year, month, day) that chrono reads from `s` in the format
/// `%Y-%m-%d`; `None` where `s` is not in that format.
pub uninterp spec fn date_fields(s: Seq<char>) -> Option<(i32, u32, u32)>;

/// The UTC fields (year, month, day, hour, minute, second) of the RFC 3339
/// timestamp `s` as chrono reads it; `None` where chrono refuses it.
pub uninterp spec fn utc_date_time_fields(s: Seq<char>) -> Option<(i32, u32, u32, u32, u32, u32)>;

/// Relies on chrono's `NaiveDateTime::parse_from_str` with the format
/// `%Y-%m-%dT%H:%M:%S%z`, and on its field getters.
#[verifier::external_body]
fn parse_offset_date_time(s: &str) -> (r: Option<(i32, u32, u32, u32, u32, u32)>)
    ensures
        r == offset_date_time_fields(s@),
{
    chrono::NaiveDateTime::parse_from_str(s, "%Y-%m-%dT%H:%M:%S%z").ok().map(
        |d| (d.year(), d.month(), d.day(), d.hour(), d.minute(), d.second()),
    )
}

/// Relies on chrono's `NaiveDate::parse_from_str` with the format `%Y-%m-%d`,
/// and on its field getters.
#[verifier::external_body]
fn parse_date(s: &str) -> (r: Option<(i32, u32, u32)>)
    ensures
        r == date_fields(s@),
{
    chrono::NaiveDate::parse_from_str(s, "%Y-%m-%d").ok().map(|d| (d.year(), d.month(), d.day()))
}

/// Relies on chrono's `FromStr` for `DateTime<Utc>` (RFC 3339, converted to
/// UTC), and on its field getters.
#[verifier::external_body]
fn parse_utc_date_time(s: &str) -> (r: Option<(i32, u32, u32, u32, u32, u32)>)
    ensures
        r == utc_date_time_fields(s@),
{
    s.parse::<chrono::DateTime<chrono::Utc>>().ok().map(
        |d| (d.year(), d.month(), d.day(), d.hour(), d.minute(), d.second()),
    )
}

/// The date and time that six fields name.
pub open spec fn from_fields(f: (i32, u32, u32, u32, u32, u32)) -> DateTime {
    DateTime { year: f.0, month: f.1, day: f.2, hour: f.3, minute: f.4, second: f.5 }
}

/// An item's timestamp: the full date-time where there is one, else the bare
/// date at midnight, else nothing.
pub open spec fn item_date_of(
    full: Option<(i32, u32, u32, u32, u32, u32)>,
    bare: Option<(i32, u32, u32)>,
) -> Option<DateTime> {
    match full {
        Some(f) => Some(from_fields(f)),
        None => match bare {
            Some(d) => Some(DateTime { year: d.0, month: d.1, day: d.2, hour: 0, minute: 0, second: 0 }),
            None => None,
        },
    }
}

/// The message of a decode error for an unreadable timestamp.
pub open spec fn bad_date_message(text: Seq<char>) -> Seq<char> {
    "unrecognized timestamp: "@ + text
}

/// Chooses an item's timestamp from the two readings of its text: the full
/// date-time reading first, then the bare date at midnight.
pub fn item_date_from(
    full: Option<(i32, u32, u32, u32, u32, u32)>,
    bare: Option<(i32, u32, u32)>,
) -> (r: Option<DateTime>)
    ensures
        r == item_date_of(full, bare),
{
    match full {
        Some(f) => Some(DateTime { year: f.0, month: f.1, day: f.2, hour: f.3, minute: f.4, second: f.5 }),
        None => match bare {
            Some(d) => Some(DateTime { year: d.0, month: d.1, day: d.2, hour: 0, minute: 0, second: 0 }),
            None => None,
        },
    }
}

fn bad_date(text: &str) -> (r: DecodeError)
    ensures
        r.message@ == bad_date_message(text@),
{
    let mut message = String::from_str("unrecognized timestamp: ");
    message.append(text);
    DecodeError { message }
}

/// Reads an item's timestamp, which the service writes either as a date-time
/// with a UTC offset (`2023-06-09T19:30:00-07:00`, kept as written) or as a
/// bare date (`2023-06-09`, taken at midnight). Text in neither format is a
/// decode error.
pub fn decode_item_date(text: &str) -> (r: Result<DateTime, DecodeError>)
    ensures
        match item_date_of(offset_date_time_fields(text@), date_fields(text@)) {
            Some(d) => r == Ok::<DateTime, DecodeError>(d),
            None => r matches Err(e) && e.message@ == bad_date_message(text@),
        },
{
    let full = parse_offset_date_time(text);
    let chosen = match full {
        Some(_) => item_date_from(full, None),
        None => item_date_from(None, parse_date(text)),
    };
    match chosen {
        Some(d) => Ok(d),
        None => Err(bad_date(text)),
    }
}

/// Reads the reply's own timestamp, an RFC 3339 date-time, as UTC.
pub fn decode_timestamp(text: &str) -> (r: Result<DateTime, DecodeError>)
    ensures
        match utc_date_time_fields(text@) {
            Some(f) => r == Ok::<DateTime, DecodeError>(from_fields(f)),
            None => r matches Err(e) && e.message@ == bad_date_message(text@),
        },
{
    match parse_utc_date_time(text) {
        Some(f) => Ok(DateTime { year: f.0, month: f.1, day: f.2, hour: f.3, minute: f.4, second: f.5 }),
        None => Err(bad_date(text)),
    }
}

/// The timestamp of a raw item, where its text is in either format.
pub open spec fn raw_item_date(r: RawItem) -> Option<DateTime> {
    item_date_of(offset_date_time_fields(r.date@), date_fields(r.date@))
}

/// The item that a raw item becomes: every field kept, the timestamp read.
pub open spec fn finished_item(r: RawItem, d: DateTime) -> Item {
    Item {
        title: r.title,
        date: d,
        category: r.category,
        subcat: r.subcat,
        hebrew: r.hebrew,
        link: r.link,
        memo: r.memo,
        title_orig: r.title_orig,
        yomtov: r.yomtov,
        leyning: r.leyning,
    }
}

/// Every item before index `k` has a readable timestamp.
pub open spec fn dates_readable_before(items: Seq<RawItem>, k: int) -> bool {
    forall|j: int| 0 <= j < k ==> (#[trigger] raw_item_date(items[j])) is Some
}

fn finish_item(r: RawItem, d: DateTime) -> (out: Item)
    ensures
        out == finished_item(r, d),
{
    let RawItem { title, date: _, category, subcat, hebrew, link, memo, title_orig, yomtov, leyning } = r;
    Item { title, date: d, category, subcat, hebrew, link, memo, title_orig, yomtov, leyning }
}

/// Turns a raw reply into a result: the reply's own timestamp is read as
/// UTC, then each item's timestamp in order, and the items keep their order
/// and their other fields. The first timestamp that cannot be read is the
/// decode error, the reply's own before any item's.
pub fn decode_shabbat(raw: RawShabbat) -> (r: Result<Shabbat, DecodeError>)
    ensures
        match r {
            Ok(s) => {
                &&& utc_date_time_fields(raw.date@) matches Some(f) && s.date == from_fields(f)
                &&& dates_readable_before(raw.items@, raw.items@.len() as int)
                &&& s.items@.len() == raw.items@.len()
                &&& forall|j: int|
                    0 <= j < raw.items@.len() ==> s.items@[j] == finished_item(
                        raw.items@[j],
                        #[trigger] raw_item_date(raw.items@[j]).unwrap(),
                    )
                &&& s.title == raw.title
                &&& s.location == raw.location
            },
            Err(e) => if utc_date_time_fields(raw.date@) is None {
                e.message@ == bad_date_message(raw.date@)
            } else {
                exists|k: int|
                    0 <= k < raw.items@.len() && dates_readable_before(raw.items@, k)
                        && raw_item_date(raw.items@[k]) is None && e.message@ == bad_date_message(
                        #[trigger] raw.items@[k].date@,
                    )
            },
        },
{
    let date = match decode_timestamp(raw.date.as_str()) {
        Ok(d) => d,
        Err(e) => {
            return Err(e);
        },
    };
    let ghost items = raw.items@;
    let n = raw.items.len();
    let mut dates: Vec<DateTime> = Vec::new();
    let mut i: usize = 0;
    while i < n
        invariant
            n == raw.items@.len(),
            items == raw.items@,
            i <= n,
            dates@.len() == i,
            dates_readable_before(items, i as int),
            forall|j: int| 0 <= j < i ==> raw_item_date(items[j]) == Some(#[trigger] dates@[j]),
            utc_date_time_fields(raw.date@) matches Some(f) && date == from_fields(f),
        decreases n - i,
    {
        match decode_item_date(raw.items[i].date.as_str()) {
            Ok(d) => {
                dates.push(d);
            },
            Err(e) => {
                assert(raw_item_date(items[i as int]) is None);
                assert(e.message@ == bad_date_message(items[i as int].date@));
                return Err(e);
            },
        }
        i += 1;
    }
    let RawShabbat { title, date: _, location, items: mut rest } = raw;
    let mut reversed: Vec<Item> = Vec::new();
    while rest.len() > 0
        invariant
            rest@ == items.take(rest@.len() as int),
            rest@.len() <= n,
            n == items.len(),
            dates@.len() == n,
            reversed@.len() + rest@.len() == n,
            forall|j: int| 0 <= j < n ==> raw_item_date(items[j]) == Some(#[trigger] dates@[j]),
            forall|j: int|
                0 <= j < reversed@.len() ==> #[trigger] reversed@[j] == finished_item(
                    items[n - 1 - j],
                    dates@[n - 1 - j],
                ),
        decreases rest@.len(),
    {
        let k = rest.len() - 1;
        let it = rest.pop().unwrap();
        assert(it == items[k as int]);
        reversed.push(finish_item(it, dates[k]));
        assert(rest@ =~= items.take(rest@.len() as int));
    }
    let mut out: Vec<Item> = Vec::new();
    while reversed.len() > 0
        invariant
            out@.len() + reversed@.len() == n,
            n == items.len(),
            dates@.len() == n,
            forall|j: int| 0 <= j < n ==> raw_item_date(items[j]) == Some(#[trigger] dates@[j]),
            forall|j: int|
                0 <= j < reversed@.len() ==> #[trigger] reversed@[j] == finished_item(
                    items[n - 1 - j],
                    dates@[n - 1 - j],
                ),
            forall|j: int|
                0 <= j < out@.len() ==> #[trigger] out@[j] == finished_item(items[j], dates@[j]),
        decreases reversed@.len(),
    {
        let it = reversed.pop().unwrap();
        out.push(it);
    }
    Ok(Shabbat { title, date, location, items: out })
}

} // verus!
