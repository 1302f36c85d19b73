//! Calendar text for the epoch seconds that a node reports.

use vstd::prelude::*;

verus! {

/// The text chrono writes for the UTC date and time that lies `secs` seconds
/// after the Unix epoch, in the strftime layout `layout`; `None` where chrono
/// has no date for `secs` or cannot write `layout`.
pub uninterp spec fn timestamp_text(secs: i64, layout: Seq<char>) -> Option<Seq<char>>;

/// The layout in which a block's time is stored: date and time of day, joined
/// by a `T`, without zone.
pub open spec fn time_layout() -> Seq<char> {
    "%Y-%m-%dT%H:%M:%S"@
}

/// The stored text of a block time, where the calendar reaches it.
pub open spec fn time_text(time: i64) -> Option<Seq<char>> {
    timestamp_text(time, time_layout())
}

/// Calls chrono: `DateTime::from_timestamp_secs`, then `NaiveDateTime::format`
/// on its UTC date and time, written out with `DelayedFormat::write_to`.
///
/// Trusted, not proved. The contract claims only that the outcome is fixed by
/// the two arguments: chrono reads no clock, zone or locale on this path.
#[verifier::external_body]
fn chrono_timestamp_text(secs: i64, layout: &str) -> (text: Option<String>)
    ensures
        text is Some <==> timestamp_text(secs, layout@) is Some,
        text matches Some(t) ==> timestamp_text(secs, layout@) == Some(t@),
{
    let moment = chrono::DateTime::from_timestamp_secs(secs)?;
    let mut text = String::new();
    match moment.naive_utc().format(layout).write_to(&mut text) {
        Ok(()) => Some(text),
        Err(_) => None,
    }
}

/// The stored text of the block time `time`, or `None` where the calendar
/// does not reach that far.
pub fn try_format_time(time: i64) -> (text: Option<String>)
    ensures
        text is Some <==> time_text(time) is Some,
        text matches Some(t) ==> time_text(time) == Some(t@),
{
    match chrono_timestamp_text(time, "%Y-%m-%dT%H:%M:%S") {
        Some(_) => Some(format_time(time)),
        None => None,
    }
}

/// The stored text of the block time `time`, such as `2023-11-14T22:13:20`
/// for 1700000000.
pub fn format_time(time: i64) -> (text: String)
    requires
        time_text(time) is Some,
    ensures
        time_text(time) == Some(text@),
{
    chrono_timestamp_text(time, "%Y-%m-%dT%H:%M:%S").unwrap()
}

} // verus!
