use vstd::prelude::*;
use vstd::string::*;

use crate::telemetry_payloads::sampling::{window_offset, window_offset_spec};

verus! {

/// Unix time, in seconds, that chrono's `NaiveDateTime::parse_from_str` reads from `text`
/// with the format `"%Y-%m-%dT%H:%M:%S"` (taking the time as UTC), or `None` when chrono
/// refuses the text.
pub uninterp spec fn pack_timestamp_of(text: Seq<char>) -> Option<i64>;

/// Calls chrono's `NaiveDateTime::parse_from_str(text, "%Y-%m-%dT%H:%M:%S")` and turns the
/// parsed date-time into Unix seconds with `and_utc().timestamp()`. The contract only says
/// that the result is chrono's answer for `text`: which texts chrono accepts is left to
/// chrono.
#[verifier::external_body]
pub(crate) fn parse_pack_timestamp(text: &str) -> (r: Option<i64>)
    ensures
        r == pack_timestamp_of(text@),
{
    chrono::NaiveDateTime::parse_from_str(text, "%Y-%m-%dT%H:%M:%S").ok().map(
        |d| d.and_utc().timestamp(),
    )
}


/// Reads the time of a pack from its timestamp text, in Unix seconds; a timestamp that
/// cannot be read gives the error of an unreadable date.
pub fn read_pack_time(timestamp: &str) -> (r: Result<i64, String>)
    ensures
        match pack_timestamp_of(timestamp@) {
            Some(ts) => r == Ok::<i64, String>(ts),
            None => r matches Err(e) && e@ == "Error parsing Date"@,
        },
{
    match parse_pack_timestamp(timestamp) {
        Some(ts) => Ok(ts),
        None => Err(String::from_str("Error parsing Date")),
    }
}

/// A pack read at `pack_ts` can be placed in the window `[ts_ini, ts_next)`: its offset in
/// the window fits in `isize` whenever it falls inside it.
pub open spec fn pack_offset_fits(pack_ts: Option<i64>, ts_ini: i64, ts_next: i64) -> bool {
    pack_ts matches Some(ts) ==> (ts_ini <= ts < ts_next ==> ts - ts_ini <= isize::MAX)
}

/// Tests [`pack_offset_fits`].
pub fn check_pack_offset_fits(pack_ts: Option<i64>, ts_ini: i64, ts_next: i64) -> (r: bool)
    ensures
        r == pack_offset_fits(pack_ts, ts_ini, ts_next),
{
    match pack_ts {
        Some(ts) => !(ts_ini <= ts && ts < ts_next) || ts as i128 - ts_ini as i128
            <= isize::MAX as i128,
        None => true,
    }
}

/// Where a pack whose timestamp was read as `pack_ts` falls: an error when the timestamp
/// could not be read, otherwise its offset in the window `[ts_ini, ts_next)` or `None`
/// when it lies outside.
pub open spec fn pack_location(pack_ts: Option<i64>, ts_ini: i64, ts_next: i64) -> Result<
    Option<int>,
    Seq<char>,
> {
    match pack_ts {
        None => Err("Error parsing Date"@),
        Some(ts) => Ok(window_offset_spec(ts, ts_ini, ts_next)),
    }
}

/// The location of a pack with the text of its error message.
pub open spec fn located_as(r: Result<Option<isize>, String>, l: Result<Option<int>, Seq<char>>) -> bool {
    match (r, l) {
        (Ok(Some(o)), Ok(Some(p))) => o as int == p,
        (Ok(None), Ok(None)) => true,
        (Err(e), Err(m)) => e@ == m,
        _ => false,
    }
}

/// Places a pack whose timestamp was read as `pack_ts` in the window `[ts_ini, ts_next)`.
pub fn locate_pack_at(pack_ts: Option<i64>, ts_ini: i64, ts_next: i64) -> (r: Result<
    Option<isize>,
    String,
>)
    requires
        pack_offset_fits(pack_ts, ts_ini, ts_next),
    ensures
        located_as(r, pack_location(pack_ts, ts_ini, ts_next)),
{
    match pack_ts {
        None => Err(String::from_str("Error parsing Date")),
        Some(ts) => Ok(window_offset(ts, ts_ini, ts_next)),
    }
}

/// Places a pack stamped with the text `timestamp` in the window `[ts_ini, ts_next)`.
pub fn locate_pack(timestamp: &str, ts_ini: i64, ts_next: i64) -> (r: Result<Option<isize>, String>)
    requires
        pack_offset_fits(pack_timestamp_of(timestamp@), ts_ini, ts_next),
    ensures
        located_as(r, pack_location(pack_timestamp_of(timestamp@), ts_ini, ts_next)),
{
    let pack_ts = parse_pack_timestamp(timestamp);
    locate_pack_at(pack_ts, ts_ini, ts_next)
}

/// [`locate_pack`] for any input: `None` when the pack's offset in the window would not
/// fit in `isize`.
pub fn locate_pack_checked(timestamp: &str, ts_ini: i64, ts_next: i64) -> (r: Option<
    Result<Option<isize>, String>,
>)
    ensures
        r is None <==> !pack_offset_fits(pack_timestamp_of(timestamp@), ts_ini, ts_next),
        r matches Some(l) ==> located_as(
            l,
            pack_location(pack_timestamp_of(timestamp@), ts_ini, ts_next),
        ),
{
    let pack_ts = parse_pack_timestamp(timestamp);
    if check_pack_offset_fits(pack_ts, ts_ini, ts_next) {
        Some(locate_pack(timestamp, ts_ini, ts_next))
    } else {
        None
    }
}

} // verus!
