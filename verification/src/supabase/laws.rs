//! The laws of the entry store over the row store in memory.
//!
//! Each law is stated over what the contracts of the entry store speak of:
//! the store before and after an operation, and what the operation returned.

use vstd::prelude::*;
use crate::models::calendar::date_key;
use crate::models::calendar::is_calendar_date;
use crate::models::database::AckView;
use crate::models::errors::StoreError;
use crate::models::interfaces::EntryView;
use crate::models::range::DateRangeView;
use crate::models::range::checked_range;
use crate::models::range::horizon_range;
use crate::models::request::RequestView;
use crate::supabase::memory::MemoryStore;
use crate::supabase::memory::table_after;
use crate::supabase::supabase::SupabaseDb;
use crate::supabase::supabase::delete_request;
use crate::supabase::supabase::insert_request;
use crate::supabase::tables::is_ascending;
use crate::supabase::tables::is_ordered;
use crate::supabase::tables::lacks_date;
use crate::supabase::tables::lemma_added_row_is_selected_once;
use crate::supabase::tables::lemma_deleted_date_is_not_listed;
use crate::supabase::tables::lemma_horizon_leaves_out_its_end;
use crate::supabase::tables::lemma_inclusive_range_takes_in_its_end;
use crate::supabase::tables::lemma_listing_is_sorted;
use crate::supabase::tables::lemma_request_keeps_order;
use crate::supabase::tables::occurs_once;

verus! {

/// The rows that an entry store over a row store in memory holds.
pub open spec fn rows_of(store: SupabaseDb<MemoryStore>) -> Seq<EntryView> {
    store.client@.entries
}

/// Round trip. Over a row store in memory: after `add` of an entry with a
/// calendar date has succeeded, a range query whose range holds the date of
/// the entry returns a list in which the entry stands exactly once.
pub proof fn law_added_entry_is_listed_once(
    before: SupabaseDb<MemoryStore>,
    entry: EntryView,
    added: Result<AckView, StoreError>,
    between: SupabaseDb<MemoryStore>,
    range: DateRangeView,
    listing: Result<Seq<EntryView>, StoreError>,
    after: SupabaseDb<MemoryStore>,
)
    requires
        is_calendar_date(entry.date),
        SupabaseDb::<MemoryStore>::adds(before, entry, between, added),
        added is Ok,
        range.is_valid(),
        range.contains(entry.date),
        SupabaseDb::<MemoryStore>::lists(between, range, after, listing),
    ensures
        listing matches Ok(entries) && occurs_once(entries, entry),
{
    lemma_added_row_is_selected_once(rows_of(before), before.table@, entry, range);
}

/// Ordering. Over a row store in memory whose table is ordered, a range
/// query returns its entries sorted by date, earliest first, and returns
/// exactly the rows of the table whose dates lie in the range. The table of
/// a store that started empty is ordered, in whatever order its entries
/// were added: see [`law_store_stays_ordered`] and [`law_add_keeps_order`].
pub proof fn law_listing_is_sorted(
    before: SupabaseDb<MemoryStore>,
    range: DateRangeView,
    listing: Result<Seq<EntryView>, StoreError>,
    after: SupabaseDb<MemoryStore>,
)
    requires
        is_ordered(rows_of(before)),
        range.is_valid(),
        SupabaseDb::<MemoryStore>::lists(before, range, after, listing),
    ensures
        listing matches Ok(entries) && is_ascending(entries) && (forall|entry: EntryView| #[trigger]
            entries.contains(entry) <==> rows_of(before).contains(entry) && range.contains(
                entry.date,
            )),
{
    lemma_listing_is_sorted(rows_of(before), before.table@, range);
}

/// Ordering, kept. A store in memory starts with an empty table, which is
/// ordered, and `add` leaves an ordered table ordered, whatever entry it is
/// given and however it ends.
pub proof fn law_add_keeps_order(
    before: SupabaseDb<MemoryStore>,
    entry: EntryView,
    added: Result<AckView, StoreError>,
    after: SupabaseDb<MemoryStore>,
)
    requires
        is_ordered(rows_of(before)),
        SupabaseDb::<MemoryStore>::adds(before, entry, after, added),
    ensures
        is_ordered(Seq::<EntryView>::empty()),
        is_ordered(rows_of(after)),
{
    lemma_request_keeps_order(rows_of(before), insert_request(before.table@, entry));
}

/// Ordering, kept. `delete` leaves an ordered table ordered, whatever date
/// it is given and however it ends.
pub proof fn law_delete_keeps_order(
    before: SupabaseDb<MemoryStore>,
    date: Seq<char>,
    deleted: Result<AckView, StoreError>,
    after: SupabaseDb<MemoryStore>,
)
    requires
        is_ordered(rows_of(before)),
        SupabaseDb::<MemoryStore>::deletes(before, date, after, deleted),
    ensures
        is_ordered(rows_of(after)),
{
    lemma_request_keeps_order(rows_of(before), delete_request(before.table@, date));
}

/// A range query changes no row of a store in memory.
pub proof fn law_query_keeps_rows(
    before: SupabaseDb<MemoryStore>,
    range: DateRangeView,
    listing: Result<Seq<EntryView>, StoreError>,
    after: SupabaseDb<MemoryStore>,
)
    requires
        SupabaseDb::<MemoryStore>::lists(before, range, after, listing),
    ensures
        rows_of(after) == rows_of(before),
{
}

/// Boundary of a horizon query. Over a row store in memory, the query for
/// the range that a horizon resolves to returns no entry dated on the
/// horizon: the upper bound is left out.
pub proof fn law_horizon_leaves_out_its_end(
    before: SupabaseDb<MemoryStore>,
    now: int,
    weeks: int,
    listing: Result<Seq<EntryView>, StoreError>,
    after: SupabaseDb<MemoryStore>,
)
    requires
        horizon_range(now, weeks) is Ok,
        SupabaseDb::<MemoryStore>::lists_resolved(
            before,
            horizon_range(now, weeks),
            after,
            listing,
        ),
    ensures
        listing matches Ok(entries) && lacks_date(entries, horizon_range(now, weeks)->Ok_0.to),
{
    lemma_horizon_leaves_out_its_end(rows_of(before), before.table@, now, weeks);
}

/// Boundary of a range given by two dates. Over a row store in memory, the
/// query for the range that two calendar dates make, the first not after
/// the second, returns every row dated on the second: the upper bound is
/// taken in.
pub proof fn law_inclusive_range_takes_in_its_end(
    before: SupabaseDb<MemoryStore>,
    from: Seq<char>,
    to: Seq<char>,
    entry: EntryView,
    listing: Result<Seq<EntryView>, StoreError>,
    after: SupabaseDb<MemoryStore>,
)
    requires
        checked_range(from, to, true) is Ok,
        date_key(from) <= date_key(to),
        rows_of(before).contains(entry),
        entry.date == to,
        SupabaseDb::<MemoryStore>::lists(
            before,
            checked_range(from, to, true)->Ok_0,
            after,
            listing,
        ),
    ensures
        listing matches Ok(entries) && entries.contains(entry),
{
    lemma_inclusive_range_takes_in_its_end(rows_of(before), before.table@, from, to, entry);
}

/// Delete then query. Over a row store in memory: after `delete` of a date
/// has succeeded, a range query returns no entry of that date, whatever its
/// range.
pub proof fn law_deleted_date_is_not_listed(
    before: SupabaseDb<MemoryStore>,
    date: Seq<char>,
    deleted: Result<AckView, StoreError>,
    between: SupabaseDb<MemoryStore>,
    range: DateRangeView,
    listing: Result<Seq<EntryView>, StoreError>,
    after: SupabaseDb<MemoryStore>,
)
    requires
        SupabaseDb::<MemoryStore>::deletes(before, date, between, deleted),
        deleted is Ok,
        range.is_valid(),
        SupabaseDb::<MemoryStore>::lists(between, range, after, listing),
    ensures
        listing matches Ok(entries) && lacks_date(entries, date),
{
    lemma_deleted_date_is_not_listed(rows_of(before), before.table@, date, range);
}

/// Validation gate. Over a row store in memory: `add` of an entry whose
/// date is no calendar date, `delete` of a text that is no calendar date
/// and a range query with such a bound fail with the validation error, and
/// the row store has counted no call.
pub proof fn law_invalid_input_makes_no_call(
    before: SupabaseDb<MemoryStore>,
    entry: EntryView,
    date: Seq<char>,
    range: DateRangeView,
    acked: Result<AckView, StoreError>,
    listing: Result<Seq<EntryView>, StoreError>,
    after: SupabaseDb<MemoryStore>,
)
    ensures
        !is_calendar_date(entry.date) && SupabaseDb::<MemoryStore>::adds(
            before,
            entry,
            after,
            acked,
        ) ==> acked == Err::<AckView, StoreError>(StoreError::Validation) && after.client.calls
            == before.client.calls,
        !is_calendar_date(date) && SupabaseDb::<MemoryStore>::deletes(
            before,
            date,
            after,
            acked,
        ) ==> acked == Err::<AckView, StoreError>(StoreError::Validation) && after.client.calls
            == before.client.calls,
        !range.is_valid() && SupabaseDb::<MemoryStore>::lists(before, range, after, listing)
            ==> listing == Err::<Seq<EntryView>, StoreError>(StoreError::Validation)
            && after.client.calls == before.client.calls,
{
}

/// One call. Over a row store in memory that has not run out of count:
/// `add` of an entry with a calendar date, `delete` of a calendar date and
/// a range query with calendar dates for bounds make exactly one call each.
pub proof fn law_valid_input_makes_one_call(
    before: SupabaseDb<MemoryStore>,
    entry: EntryView,
    date: Seq<char>,
    range: DateRangeView,
    acked: Result<AckView, StoreError>,
    listing: Result<Seq<EntryView>, StoreError>,
    after: SupabaseDb<MemoryStore>,
)
    requires
        before.client.calls < usize::MAX,
    ensures
        is_calendar_date(entry.date) && SupabaseDb::<MemoryStore>::adds(
            before,
            entry,
            after,
            acked,
        ) ==> after.client.calls == before.client.calls + 1,
        is_calendar_date(date) && SupabaseDb::<MemoryStore>::deletes(
            before,
            date,
            after,
            acked,
        ) ==> after.client.calls == before.client.calls + 1,
        range.is_valid() && SupabaseDb::<MemoryStore>::lists(before, range, after, listing)
            ==> after.client.calls == before.client.calls + 1,
{
}

/// The rows that a store holds after it has answered `requests` one after
/// the other, starting from `table`.
pub open spec fn table_after_all(table: Seq<EntryView>, requests: Seq<RequestView>) -> Seq<
    EntryView,
>
    decreases requests.len(),
{
    if requests.len() == 0 {
        table
    } else {
        table_after(table_after_all(table, requests.drop_last()), requests.last())
    }
}

/// Whatever requests a store has answered since it was empty, and in
/// whatever order, its table is ordered: calendar dates only, sorted by
/// date, one row for a date.
pub proof fn law_store_stays_ordered(requests: Seq<RequestView>)
    ensures
        is_ordered(table_after_all(Seq::empty(), requests)),
    decreases requests.len(),
{
    if requests.len() > 0 {
        law_store_stays_ordered(requests.drop_last());
        lemma_request_keeps_order(
            table_after_all(Seq::empty(), requests.drop_last()),
            requests.last(),
        );
    }
}

} // verus!
