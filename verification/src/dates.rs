//! Calendar text for the times of a key.

use vstd::prelude::*;

verus! {

/// The text that chrono writes for the moment `secs` seconds after
/// 1970-01-01 00:00:00 UTC under the strftime pattern `pattern`, or `None`
/// where the moment lies outside chrono's calendar or the pattern holds an
/// item that chrono does not know.
pub uninterp spec fn utc_text(secs: int, pattern: Seq<char>) -> Option<Seq<char>>;

/// The pattern of every date that the tool shows: day, month and year, then
/// the time of day.
pub open spec fn date_pattern() -> Seq<char> {
    "%d/%m/%Y %T"@
}

/// The date text of a moment, as the tool shows it.
pub open spec fn date_text(secs: int) -> Option<Seq<char>> {
    utc_text(secs, date_pattern())
}

/// The last second of the year 9999, in seconds since the epoch.
pub open spec fn end_of_year_9999() -> int {
    253_402_300_799
}

/// Calls chrono's `DateTime::<Utc>::from_timestamp` with no nanoseconds and,
/// on the moment it gives, `DateTime::format` and `DelayedFormat::write_to`.
/// Trusted: the text depends on the seconds and the pattern alone (UTC has
/// no offset to look up and no locale is consulted), and `None` comes back
/// exactly where chrono gives no moment or reports a formatting error.
/// Trusted too: under the tool's pattern every moment from the epoch to the
/// end of the year 9999 has a text. chrono's calendar reaches beyond the
/// year 262000, and day, month, year, hour, minute and second are written
/// for every moment that has a date and a time.
#[verifier::external_body]
fn format_utc(secs: i64, pattern: &str) -> (text: Option<String>)
    ensures
        text.deep_view() == utc_text(secs as int, pattern@),
        pattern@ == date_pattern() && 0 <= secs <= end_of_year_9999() ==> text is Some,
{
    let moment = chrono::DateTime::<chrono::Utc>::from_timestamp(secs, 0)?;
    let mut text = String::new();
    moment.format(pattern).write_to(&mut text).ok()?;
    Some(text)
}

/// Formats a moment, given in seconds since the epoch, as a date of the
/// tool. `None` means that the moment has no date; every moment from the
/// epoch to the end of the year 9999 has one.
pub fn format_date(secs: i64) -> (text: Option<String>)
    ensures
        text.deep_view() == date_text(secs as int),
        0 <= secs <= end_of_year_9999() ==> text is Some,
{
    format_utc(secs, "%d/%m/%Y %T")
}

/// A moment as a whole number of nanoseconds from the epoch: the distance
/// of `whole` seconds and `nanos` nanoseconds, counted backwards where the
/// moment lies before the epoch.
pub open spec fn moment_nanos(before_epoch: bool, whole: u64, nanos: u32) -> int {
    let distance = whole * 1_000_000_000 + nanos;
    if before_epoch {
        -distance
    } else {
        distance
    }
}

/// The value within the range of `i64` that is nearest to `value`.
pub open spec fn nearest_i64(value: int) -> int {
    if value > i64::MAX {
        i64::MAX as int
    } else if value < i64::MIN {
        i64::MIN as int
    } else {
        value
    }
}

/// The second in which a moment lies: its nanoseconds divided by a
/// thousand million and rounded down, so that a moment before the epoch
/// that is not on a whole second belongs to the second before it.
pub open spec fn moment_second(before_epoch: bool, whole: u64, nanos: u32) -> int {
    moment_nanos(before_epoch, whole, nanos) / 1_000_000_000
}

/// The seconds since the epoch of a moment that lies `whole` seconds and
/// `nanos` nanoseconds after the epoch, or before it: rounded down to the
/// second, and held to the range of `i64`.
pub fn epoch_seconds(before_epoch: bool, whole: u64, nanos: u32) -> (secs: i64)
    ensures
        secs == nearest_i64(moment_second(before_epoch, whole, nanos)),
{
    let billion: i128 = 1_000_000_000;
    let distance: i128 = whole as i128 * billion + nanos as i128;
    let quotient: i128 = distance / billion;
    let rest: i128 = distance % billion;
    let second: i128 = if !before_epoch {
        quotient
    } else if rest == 0 {
        -quotient
    } else {
        -quotient - 1
    };
    assert(second == moment_second(before_epoch, whole, nanos)) by {
        assert(distance == quotient * 1_000_000_000 + rest);
        assert(0 <= rest < 1_000_000_000);
        if before_epoch && rest != 0 {
            assert(-distance == (-quotient - 1) * 1_000_000_000 + (1_000_000_000 - rest));
        }
    }
    if second > i64::MAX as i128 {
        i64::MAX
    } else if second < i64::MIN as i128 {
        i64::MIN
    } else {
        second as i64
    }
}

} // verus!
