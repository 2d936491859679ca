//! Date ranges and the resolver that computes them from a horizon.
//!
//! A horizon query ("the next N weeks") excludes its upper bound; a range
//! given by two dates includes both ends. The two are built by different
//! constructors, [`DateRange::horizon`] and [`DateRange::inclusive`].

use vstd::prelude::*;
use vstd::string::*;
use crate::models::calendar::date_key;
use crate::models::calendar::is_calendar_date;
use crate::models::calendar::is_valid_date;
use crate::models::errors::StoreError;
use crate::models::interfaces::DateFormat;
use crate::models::interfaces::WeekRequest;

verus! {

/// The number of seconds in one week.
pub const SECONDS_PER_WEEK: i64 = 604_800;

/// The dates that a range query covers: from `from` on, up to `to`, which
/// itself is covered only if `upper_inclusive` is set.
#[derive(Debug, PartialEq, Eq)]
pub struct DateRange {
    pub from: DateFormat,
    pub to: DateFormat,
    pub upper_inclusive: bool,
}

/// What a [`DateRange`] holds, as mathematical values.
pub struct DateRangeView {
    pub from: Seq<char>,
    pub to: Seq<char>,
    pub upper_inclusive: bool,
}

impl DateRangeView {
    /// Whether both bounds are calendar dates.
    pub open spec fn is_valid(self) -> bool {
        &&& is_calendar_date(self.from)
        &&& is_calendar_date(self.to)
    }

    /// Whether the calendar date `date` lies in the range.
    pub open spec fn contains(self, date: Seq<char>) -> bool {
        let key = date_key(date);
        &&& date_key(self.from) <= key
        &&& if self.upper_inclusive {
            key <= date_key(self.to)
        } else {
            key < date_key(self.to)
        }
    }
}

impl View for DateRange {
    type V = DateRangeView;

    open spec fn view(&self) -> DateRangeView {
        DateRangeView { from: self.from@, to: self.to@, upper_inclusive: self.upper_inclusive }
    }
}

impl Clone for DateRange {
    fn clone(&self) -> (copy: Self)
        ensures
            copy == *self,
    {
        DateRange {
            from: self.from.clone(),
            to: self.to.clone(),
            upper_inclusive: self.upper_inclusive,
        }
    }
}

/// The range from `from` to `to` with the given policy for the upper bound,
/// or the validation error if one of the two is no calendar date.
pub open spec fn checked_range(from: Seq<char>, to: Seq<char>, upper_inclusive: bool) -> Result<
    DateRangeView,
    StoreError,
> {
    let range = DateRangeView { from, to, upper_inclusive };
    if range.is_valid() {
        Ok(range)
    } else {
        Err(StoreError::Validation)
    }
}

/// The view of a range or the error in its place.
pub open spec fn range_result_view(result: Result<DateRange, StoreError>) -> Result<
    DateRangeView,
    StoreError,
> {
    match result {
        Ok(range) => Ok(range@),
        Err(error) => Err(error),
    }
}

impl DateRange {
    /// The range of a query given by two dates: both ends are covered.
    ///
    /// Fails with [`StoreError::Validation`] exactly when `from` or `to` is
    /// no calendar date.
    pub fn inclusive(from: DateFormat, to: DateFormat) -> (range: Result<DateRange, StoreError>)
        ensures
            range_result_view(range) == checked_range(from@, to@, true),
    {
        DateRange::checked(from, to, true)
    }

    /// The range of a horizon query: `to` is the horizon and is not covered.
    ///
    /// Fails with [`StoreError::Validation`] exactly when `from` or `to` is
    /// no calendar date.
    pub fn horizon(from: DateFormat, to: DateFormat) -> (range: Result<DateRange, StoreError>)
        ensures
            range_result_view(range) == checked_range(from@, to@, false),
    {
        DateRange::checked(from, to, false)
    }

    fn checked(from: DateFormat, to: DateFormat, upper_inclusive: bool) -> (range: Result<
        DateRange,
        StoreError,
    >)
        ensures
            range_result_view(range) == checked_range(from@, to@, upper_inclusive),
    {
        if is_valid_date(from.as_str()) && is_valid_date(to.as_str()) {
            Ok(DateRange { from, to, upper_inclusive })
        } else {
            Err(StoreError::Validation)
        }
    }

    /// Whether both bounds are calendar dates.
    pub fn is_valid(&self) -> (valid: bool)
        ensures
            valid == self@.is_valid(),
    {
        is_valid_date(self.from.as_str()) && is_valid_date(self.to.as_str())
    }
}

/// The text that `chrono` writes for the UTC date of the instant `seconds`
/// after the Unix epoch, with the format `%Y-%m-%d`; `None` where `chrono`
/// has no such instant.
pub uninterp spec fn utc_date(seconds: int) -> Option<Seq<char>>;

/// Calls `chrono::DateTime::from_timestamp` and, on the instant it gives,
/// `format("%Y-%m-%d")`. The contract claims only that the text is a
/// function of `seconds`, named [`utc_date`]; it says nothing of the text.
#[verifier::external_body]
fn utc_date_text(seconds: i64) -> (text: Option<String>)
    ensures
        text.deep_view() == utc_date(seconds as int),
{
    chrono::DateTime::from_timestamp(seconds, 0).map(|instant| instant.format("%Y-%m-%d").to_string())
}

/// The text where it is there and is a calendar date, nothing else.
pub open spec fn calendar_text(found: Option<Seq<char>>) -> Option<Seq<char>> {
    match found {
        Some(text) => if is_calendar_date(text) {
            Some(text)
        } else {
            None
        },
        None => None,
    }
}

/// The calendar date of an instant: the text that [`utc_date`] names, where
/// there is one and it is a calendar date.
pub open spec fn date_at(seconds: int) -> Option<Seq<char>> {
    calendar_text(utc_date(seconds))
}

/// Accepts what was found as the date of an instant.
///
/// Fails with [`StoreError::Validation`] exactly when nothing was found or
/// what was found is no calendar date.
pub fn checked_date(found: Option<String>) -> (date: Result<DateFormat, StoreError>)
    ensures
        match date {
            Ok(text) => calendar_text(found.deep_view()) == Some(text@) && found == Some(text),
            Err(error) => error == StoreError::Validation && calendar_text(found.deep_view())
                is None,
        },
{
    match found {
        Some(text) => {
            if is_valid_date(text.as_str()) {
                Ok(text)
            } else {
                Err(StoreError::Validation)
            }
        },
        None => Err(StoreError::Validation),
    }
}

/// The calendar date, in UTC, of the instant `seconds` after the Unix epoch.
/// The time of day is dropped.
///
/// Fails with [`StoreError::Validation`] exactly when the instant has no
/// date of the form `YYYY-MM-DD`, as for a year beyond 9999.
pub fn calendar_date(seconds: i64) -> (date: Result<DateFormat, StoreError>)
    ensures
        match date {
            Ok(text) => date_at(seconds as int) == Some(text@),
            Err(error) => error == StoreError::Validation && date_at(seconds as int) is None,
        },
{
    checked_date(utc_date_text(seconds))
}

/// The range between the dates of two instants, with the given policy for
/// the upper bound, or the validation error if one of them has no date.
pub open spec fn range_between(from: int, to: int, upper_inclusive: bool) -> Result<
    DateRangeView,
    StoreError,
> {
    match (date_at(from), date_at(to)) {
        (Some(first), Some(last)) => Ok(DateRangeView { from: first, to: last, upper_inclusive }),
        _ => Err(StoreError::Validation),
    }
}

/// The instant `weeks` weeks after `now`.
pub open spec fn horizon_end(now: int, weeks: int) -> int {
    now + weeks * SECONDS_PER_WEEK
}

/// The range of the horizon query made at `now` for `weeks` weeks: from the
/// date of `now` up to, and without, the date `weeks` weeks later.
pub open spec fn horizon_range(now: int, weeks: int) -> Result<DateRangeView, StoreError> {
    if weeks < 0 || horizon_end(now, weeks) > i64::MAX {
        Err(StoreError::Validation)
    } else {
        range_between(now, horizon_end(now, weeks), false)
    }
}

/// Resolves the explicit range between two instants: from the date of
/// `from` to the date of `to`, both covered.
///
/// Fails with [`StoreError::Validation`] exactly when one of the instants
/// has no calendar date.
pub fn resolve_span(from: i64, to: i64) -> (range: Result<DateRange, StoreError>)
    ensures
        range_result_view(range) == range_between(from as int, to as int, true),
{
    resolve_between(from, to, true)
}

/// Resolves a horizon request made at the instant `now`: from the date of
/// `now` up to the date `request.weeks` weeks later, which is not covered.
///
/// Fails with [`StoreError::Validation`] exactly when the number of weeks is
/// negative, the horizon lies beyond what an instant can hold, or one of
/// the two instants has no calendar date.
pub fn resolve_horizon(now: i64, request: &WeekRequest) -> (range: Result<DateRange, StoreError>)
    ensures
        range_result_view(range) == horizon_range(now as int, request.weeks as int),
{
    if request.weeks < 0 {
        return Err(StoreError::Validation);
    }
    let end: i128 = now as i128 + request.weeks as i128 * SECONDS_PER_WEEK as i128;
    if end > i64::MAX as i128 {
        return Err(StoreError::Validation);
    }
    resolve_between(now, end as i64, false)
}

fn resolve_between(from: i64, to: i64, upper_inclusive: bool) -> (range: Result<
    DateRange,
    StoreError,
>)
    ensures
        range_result_view(range) == range_between(from as int, to as int, upper_inclusive),
{
    match (calendar_date(from), calendar_date(to)) {
        (Ok(first), Ok(last)) => Ok(DateRange { from: first, to: last, upper_inclusive }),
        _ => Err(StoreError::Validation),
    }
}

} // verus!
