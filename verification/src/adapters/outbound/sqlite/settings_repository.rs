//! How minutes are held in a signed 64-bit column and read back from it.
use vstd::prelude::*;

verus! {

/// The column value that stands for a number of minutes: the number itself,
/// held at `i64::MAX` where it does not fit.
pub open spec fn column_value(minutes: u64) -> i64 {
    if minutes > i64::MAX {
        i64::MAX
    } else {
        minutes as i64
    }
}

/// The minutes that a column holds: those of a row that exists and holds at
/// least one minute. A missing row and a value below one both count as
/// nothing stored.
pub open spec fn minutes_in_column(raw: Option<i64>) -> Option<u64> {
    match raw {
        Some(value) => if value >= 1 {
            Some(value as u64)
        } else {
            None
        },
        None => None,
    }
}

/// Whatever the column holds, what is read from it is nothing or at least
/// one minute.
pub proof fn lemma_column_reads_are_valid(raw: Option<i64>)
    ensures
        minutes_in_column(raw) matches Some(minutes) ==> minutes >= 1,
{
}

/// Valid minutes that fit the column come back as they were written; larger
/// ones come back as the largest the column holds.
pub proof fn lemma_column_round_trip(minutes: u64)
    requires
        minutes >= 1,
    ensures
        minutes <= i64::MAX ==> minutes_in_column(Some(column_value(minutes))) == Some(minutes),
        minutes > i64::MAX ==> minutes_in_column(Some(column_value(minutes))) == Some(
            i64::MAX as u64,
        ),
{
}

/// Converts minutes to the value written to the column.
pub fn minutes_to_column(minutes: u64) -> (value: i64)
    ensures
        value == column_value(minutes),
{
    if minutes > i64::MAX as u64 {
        i64::MAX
    } else {
        minutes as i64
    }
}

/// Converts what was read from the column to the minutes it stands for.
/// An invalid value is treated as absent, so that callers fall back to
/// defaults.
pub fn column_to_minutes(raw: Option<i64>) -> (minutes: Option<u64>)
    ensures
        minutes == minutes_in_column(raw),
{
    match raw {
        Some(value) => if value >= 1 {
            Some(value as u64)
        } else {
            None
        },
        None => None,
    }
}

} // verus!
