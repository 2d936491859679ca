//! The entry store in front of a remote row store.
//!
//! Each operation checks its input, builds one request, makes one call and
//! reads the outcome. Nothing is cached and nothing is tried twice.

use vstd::prelude::*;
use vstd::string::*;
use crate::models::calendar::is_calendar_date;
use crate::models::calendar::is_valid_date;
use crate::models::constants::StoreConfig;
use crate::models::database::Ack;
use crate::models::database::AckView;
use crate::models::database::Database;
use crate::models::database::RowStore;
use crate::models::errors::StoreError;
use crate::models::interfaces::DateFormat;
use crate::models::interfaces::Entry;
use crate::models::interfaces::EntryView;
use crate::models::interfaces::WeekRequest;
use crate::models::range::DateRange;
use crate::models::range::DateRangeView;
use crate::models::range::horizon_range;
use crate::models::range::range_between;
use crate::models::range::resolve_horizon;
use crate::models::range::resolve_span;
use crate::models::request::Comparison;
use crate::models::request::DateFilter;
use crate::models::request::DateFilterView;
use crate::models::request::Request;
use crate::models::request::RequestView;
use crate::models::response::Outcome;
use crate::models::response::OutcomeView;
use crate::supabase::codec::ack_of;
use crate::supabase::codec::ack_result_view;
use crate::supabase::codec::listing_of;
use crate::supabase::codec::listing_result_view;
use crate::supabase::codec::read_ack;
use crate::supabase::codec::read_listing;

verus! {

/// The request that records `entry` in `table`: an insert of this one entry.
pub open spec fn insert_request(table: Seq<char>, entry: EntryView) -> RequestView {
    RequestView::Insert { table, entry }
}

/// The request that removes the entry of `date` from `table`: a delete of
/// the rows whose date is `date`.
pub open spec fn delete_request(table: Seq<char>, date: Seq<char>) -> RequestView {
    RequestView::Delete {
        table,
        filters: seq![DateFilterView { comparison: Comparison::Eq, date }],
    }
}

/// The comparison that bounds a range from above: `Lte` where the upper
/// bound is covered, `Lt` where it is not.
pub open spec fn upper_comparison(upper_inclusive: bool) -> Comparison {
    if upper_inclusive {
        Comparison::Lte
    } else {
        Comparison::Lt
    }
}

/// The request that lists the entries of `range` in `table`: a select of the
/// rows whose date is `range.from` or later and, as the range says, before
/// `range.to` or not after it.
pub open spec fn select_request(table: Seq<char>, range: DateRangeView) -> RequestView {
    RequestView::Select {
        table,
        filters: seq![
            DateFilterView { comparison: Comparison::Gte, date: range.from },
            DateFilterView { comparison: upper_comparison(range.upper_inclusive), date: range.to },
        ],
    }
}

/// Builds the request that records `entry` in `table`.
///
/// Fails with [`StoreError::Validation`] exactly when the date of the entry
/// is no calendar date.
pub fn build_insert(table: &String, entry: Entry) -> (request: Result<Request, StoreError>)
    ensures
        match request {
            Ok(built) => is_calendar_date(entry.date@) && built@ == insert_request(table@, entry@),
            Err(error) => error == StoreError::Validation && !is_calendar_date(entry.date@),
        },
{
    if !is_valid_date(entry.date.as_str()) {
        return Err(StoreError::Validation);
    }
    Ok(Request::Insert { table: table.clone(), entry })
}

/// Builds the request that removes the entry of `date` from `table`.
///
/// Fails with [`StoreError::Validation`] exactly when `date` is no calendar
/// date.
pub fn build_delete(table: &String, date: DateFormat) -> (request: Result<Request, StoreError>)
    ensures
        match request {
            Ok(built) => is_calendar_date(date@) && built@ == delete_request(table@, date@),
            Err(error) => error == StoreError::Validation && !is_calendar_date(date@),
        },
{
    if !is_valid_date(date.as_str()) {
        return Err(StoreError::Validation);
    }
    let ghost wanted = DateFilterView { comparison: Comparison::Eq, date: date@ };
    let mut filters: Vec<DateFilter> = Vec::new();
    filters.push(DateFilter { comparison: Comparison::Eq, date });
    assert(filters.deep_view() =~= seq![wanted]);
    Ok(Request::Delete { table: table.clone(), filters })
}

/// Builds the request that lists the entries of `range` in `table`.
///
/// Fails with [`StoreError::Validation`] exactly when a bound of the range
/// is no calendar date.
pub fn build_select(table: &String, range: &DateRange) -> (request: Result<Request, StoreError>)
    ensures
        match request {
            Ok(built) => range@.is_valid() && built@ == select_request(table@, range@),
            Err(error) => error == StoreError::Validation && !range@.is_valid(),
        },
{
    if !range.is_valid() {
        return Err(StoreError::Validation);
    }
    let upper = if range.upper_inclusive {
        Comparison::Lte
    } else {
        Comparison::Lt
    };
    let mut filters: Vec<DateFilter> = Vec::new();
    filters.push(DateFilter { comparison: Comparison::Gte, date: range.from.clone() });
    filters.push(DateFilter { comparison: upper, date: range.to.clone() });
    assert(filters.deep_view() =~= seq![
        DateFilterView { comparison: Comparison::Gte, date: range.from@ },
        DateFilterView { comparison: upper_comparison(range.upper_inclusive), date: range.to@ },
    ]);
    Ok(Request::Select { table: table.clone(), filters })
}

/// The entry store over the remote row store `client`, which holds the
/// entries in the table named `table`.
pub struct SupabaseDb<C: RowStore> {
    pub table: String,
    pub client: C,
}

impl<C: RowStore> SupabaseDb<C> {
    /// An entry store that keeps its entries in `table` of `client`.
    pub fn new(table: String, client: C) -> (database: Self)
        ensures
            database.table == table,
            database.client == client,
    {
        SupabaseDb { table, client }
    }

    /// An entry store over `client` that keeps its entries in the table
    /// that `settings` names.
    pub fn open(settings: &StoreConfig, client: C) -> (database: Self)
        ensures
            database.table@ == settings.table@,
            database.client == client,
    {
        SupabaseDb { table: settings.table.clone(), client }
    }

    /// Whether the store made no call: it is what it was.
    pub open spec fn untouched(before: Self, after: Self) -> bool {
        after == before
    }

    /// Whether the store made exactly one call, for `request`, that ended
    /// with `outcome`.
    pub open spec fn called(
        before: Self,
        request: RequestView,
        after: Self,
        outcome: OutcomeView,
    ) -> bool {
        &&& after.table == before.table
        &&& before.client.admits(request, &after.client, outcome)
    }

    /// What `add` of `entry` does to the store and returns. For an entry
    /// whose date is no calendar date: the validation error, and no call.
    /// Otherwise: one call, for the insert request of the entry, and what
    /// [`ack_of`] gives for its outcome.
    pub open spec fn adds(
        before: Self,
        entry: EntryView,
        after: Self,
        result: Result<AckView, StoreError>,
    ) -> bool {
        if is_calendar_date(entry.date) {
            exists|outcome: OutcomeView|
                #[trigger] Self::called(
                    before,
                    insert_request(before.table@, entry),
                    after,
                    outcome,
                ) && result == ack_of(outcome)
        } else {
            Self::untouched(before, after) && result == Err::<AckView, StoreError>(
                StoreError::Validation,
            )
        }
    }

    /// What `delete` of `date` does to the store and returns. For a text
    /// that is no calendar date: the validation error, and no call.
    /// Otherwise: one call, for the delete request of the date, and what
    /// [`ack_of`] gives for its outcome.
    pub open spec fn deletes(
        before: Self,
        date: Seq<char>,
        after: Self,
        result: Result<AckView, StoreError>,
    ) -> bool {
        if is_calendar_date(date) {
            exists|outcome: OutcomeView|
                #[trigger] Self::called(
                    before,
                    delete_request(before.table@, date),
                    after,
                    outcome,
                ) && result == ack_of(outcome)
        } else {
            Self::untouched(before, after) && result == Err::<AckView, StoreError>(
                StoreError::Validation,
            )
        }
    }

    /// What a query for `range` does to the store and returns. For a range
    /// with a bound that is no calendar date: the validation error, and no
    /// call. Otherwise: one call, for the select request of the range, and
    /// what [`listing_of`] gives for its outcome.
    pub open spec fn lists(
        before: Self,
        range: DateRangeView,
        after: Self,
        result: Result<Seq<EntryView>, StoreError>,
    ) -> bool {
        if range.is_valid() {
            exists|outcome: OutcomeView|
                #[trigger] Self::called(
                    before,
                    select_request(before.table@, range),
                    after,
                    outcome,
                ) && result == listing_of(outcome)
        } else {
            Self::untouched(before, after) && result == Err::<Seq<EntryView>, StoreError>(
                StoreError::Validation,
            )
        }
    }

    /// What a query for a resolved range does: where the resolver failed,
    /// its error and no call; else what [`Self::lists`] says for the range.
    pub open spec fn lists_resolved(
        before: Self,
        range: Result<DateRangeView, StoreError>,
        after: Self,
        result: Result<Seq<EntryView>, StoreError>,
    ) -> bool {
        match range {
            Ok(resolved) => Self::lists(before, resolved, after, result),
            Err(error) => Self::untouched(before, after) && result == Err::<
                Seq<EntryView>,
                StoreError,
            >(error),
        }
    }

    fn call(&mut self, request: &Request) -> (outcome: Outcome)
        ensures
            Self::called(*old(self), request@, *final(self), outcome@),
    {
        self.client.execute(request)
    }

    /// Lists the entries of the horizon query made at the instant `now`,
    /// counted in seconds from the Unix epoch: those dated from the date of
    /// `now` up to, and without, the date `request.weeks` weeks later.
    ///
    /// Where the horizon does not resolve it fails with
    /// [`StoreError::Validation`] and makes no call. Otherwise it does what
    /// [`Database::list_range`] does for the resolved range.
    pub fn list_horizon(&mut self, now: i64, request: &WeekRequest) -> (result: Result<
        Vec<Entry>,
        StoreError,
    >)
        ensures
            Self::lists_resolved(
                *old(self),
                horizon_range(now as int, request.weeks as int),
                *final(self),
                listing_result_view(result),
            ),
    {
        match resolve_horizon(now, request) {
            Err(error) => Err(error),
            Ok(range) => self.list_range(&range),
        }
    }
}

impl<C: RowStore> Database for SupabaseDb<C> {
    /// Removes the entry of the date `entry_id` with one delete call. That
    /// the date had no entry is no failure.
    fn delete(&mut self, entry_id: DateFormat) -> (result: Result<Ack, StoreError>)
        ensures
            Self::deletes(*old(self), entry_id@, *final(self), ack_result_view(result)),
    {
        match build_delete(&self.table, entry_id) {
            Err(error) => Err(error),
            Ok(request) => {
                let outcome = self.call(&request);
                read_ack(outcome)
            },
        }
    }

    /// Records `entry` with one insert call.
    fn add(&mut self, entry: Entry) -> (result: Result<Ack, StoreError>)
        ensures
            Self::adds(*old(self), entry@, *final(self), ack_result_view(result)),
    {
        match build_insert(&self.table, entry) {
            Err(error) => Err(error),
            Ok(request) => {
                let outcome = self.call(&request);
                read_ack(outcome)
            },
        }
    }

    /// Lists the entries whose dates lie in `range` with one select call,
    /// in the order in which the remote store returned them.
    fn list_range(&mut self, range: &DateRange) -> (result: Result<Vec<Entry>, StoreError>)
        ensures
            Self::lists(*old(self), range@, *final(self), listing_result_view(result)),
    {
        match build_select(&self.table, range) {
            Err(error) => Err(error),
            Ok(request) => {
                let outcome = self.call(&request);
                read_listing(outcome)
            },
        }
    }

    /// Lists the entries from the date of the instant `from` to the date of
    /// the instant `to`, both covered.
    ///
    /// Where one of the instants has no calendar date it fails with
    /// [`StoreError::Validation`] and makes no call. Otherwise it does what
    /// [`Database::list_range`] does for the range between the two dates.
    fn get_entries(&mut self, from: i64, to: i64) -> (result: Result<Vec<Entry>, StoreError>)
        ensures
            Self::lists_resolved(
                *old(self),
                range_between(from as int, to as int, true),
                *final(self),
                listing_result_view(result),
            ),
    {
        match resolve_span(from, to) {
            Err(error) => Err(error),
            Ok(range) => self.list_range(&range),
        }
    }
}

} // verus!
