//! Facts about the tables of the row store in memory: what its requests
//! keep, what its filters pick out, and what a range query reads from it.

use vstd::prelude::*;
use crate::models::calendar::date_key;
use crate::models::calendar::is_calendar_date;
use crate::models::calendar::lemma_key_names_one_date;
use crate::models::errors::StoreError;
use crate::models::interfaces::EntryView;
use crate::models::range::DateRangeView;
use crate::models::range::checked_range;
use crate::models::range::horizon_range;
use crate::models::request::Comparison;
use crate::models::request::DateFilterView;
use crate::models::request::RequestView;
use crate::supabase::codec::ack_of;
use crate::supabase::codec::lemma_rows_round_trip;
use crate::supabase::codec::listing_of;
use crate::supabase::memory::answer;
use crate::supabase::memory::filters_are_valid;
use crate::supabase::memory::has_date;
use crate::supabase::memory::holds;
use crate::supabase::memory::kept;
use crate::supabase::memory::meets_all;
use crate::supabase::memory::remaining;
use crate::supabase::memory::selected;
use crate::supabase::memory::slot_from;
use crate::supabase::memory::stands_before;
use crate::supabase::memory::table_after;
use crate::supabase::memory::with_entry;
use crate::supabase::supabase::delete_request;
use crate::supabase::supabase::insert_request;
use crate::supabase::supabase::select_request;
use crate::supabase::supabase::upper_comparison;

verus! {

/// Whether every row of `table` has a calendar date.
pub open spec fn is_dated(table: Seq<EntryView>) -> bool {
    forall|i: int|
        0 <= i < table.len() ==> is_calendar_date((#[trigger] table[i]).date)
}

/// Whether the rows of `table` stand in ascending order of their dates, no
/// date twice.
pub open spec fn is_ascending(table: Seq<EntryView>) -> bool {
    forall|i: int, j: int|
        #![trigger table[i], table[j]]
        0 <= i < j < table.len() ==> date_key(table[i].date) < date_key(table[j].date)
}

/// Whether `table` is what a row store holds: calendar dates only, sorted
/// by date, at most one row for a date.
pub open spec fn is_ordered(table: Seq<EntryView>) -> bool {
    is_dated(table) && is_ascending(table)
}

/// Whether `entry` stands at exactly one place of `entries`.
pub open spec fn occurs_once(entries: Seq<EntryView>, entry: EntryView) -> bool {
    exists|i: int|
        0 <= i < entries.len() && #[trigger] entries[i] == entry && (forall|j: int|
            0 <= j < entries.len() && j != i ==> #[trigger] entries[j] != entry)
}

/// Whether no entry of `entries` has the date `date`.
pub open spec fn lacks_date(entries: Seq<EntryView>, date: Seq<char>) -> bool {
    forall|i: int| 0 <= i < entries.len() ==> (#[trigger] entries[i]).date != date
}

/// The rows kept of a table followed by another are those kept of the one,
/// followed by those kept of the other.
pub proof fn lemma_kept_concat(
    first: Seq<EntryView>,
    second: Seq<EntryView>,
    filters: Seq<DateFilterView>,
    met: bool,
)
    ensures
        kept(first + second, filters, met) == kept(
            first,
            filters,
            met,
        ) + kept(second, filters, met),
    decreases second.len(),
{
    let front = kept(first, filters, met);
    if second.len() == 0 {
        assert(first + second =~= first);
        assert(front + kept(second, filters, met) =~= front);
    } else {
        assert((first + second).drop_last() =~= first + second.drop_last());
        assert((first + second).last() == second.last());
        lemma_kept_concat(first, second.drop_last(), filters, met);
        let back = kept(second.drop_last(), filters, met);
        assert((front + back).push(second.last()) =~= front + back.push(second.last()));
    }
}

/// Every row kept of a table is a row of the table for which "meets every
/// filter" is `met`, and every such row is kept.
pub proof fn lemma_kept_members(table: Seq<EntryView>, filters: Seq<DateFilterView>, met: bool)
    ensures
        forall|entry: EntryView|
            #[trigger] kept(table, filters, met).contains(entry) <==> (
            table.contains(entry) && meets_all(filters, entry.date) == met),
    decreases table.len(),
{
    let chosen = kept(table, filters, met);
    if table.len() == 0 {
    } else {
        let before = kept(table.drop_last(), filters, met);
        lemma_kept_members(table.drop_last(), filters, met);
        assert forall|entry: EntryView| #[trigger]
            chosen.contains(entry) <==> (table.contains(entry)
                && meets_all(filters, entry.date) == met) by {
            if chosen.contains(entry) {
                let j = choose|j: int| 0 <= j < chosen.len() && chosen[j] == entry;
                if j < before.len() {
                    assert(before.contains(entry));
                    let i = choose|i: int|
                        0 <= i < table.drop_last().len() && table.drop_last()[i] == entry;
                    assert(table[i] == entry);
                } else {
                    assert(table[table.len() - 1] == entry);
                }
            }
            if table.contains(entry) && meets_all(filters, entry.date) == met {
                let i = choose|i: int| 0 <= i < table.len() && table[i] == entry;
                if i < table.len() - 1 {
                    assert(table.drop_last()[i] == entry);
                    assert(before.contains(entry));
                    let j = choose|j: int| 0 <= j < before.len() && before[j] == entry;
                    assert(chosen[j] == entry);
                } else {
                    assert(chosen[chosen.len() - 1] == entry);
                }
            }
        }
    }
}

/// An ordered table without its last row is ordered.
pub proof fn lemma_front_is_ordered(table: Seq<EntryView>)
    requires
        is_ordered(table),
        table.len() > 0,
    ensures
        is_ordered(table.drop_last()),
{
    let rest = table.drop_last();
    assert forall|i: int, j: int| 0 <= i < j < rest.len() implies date_key(
        rest[i].date,
    ) < date_key(rest[j].date) by {
        assert(rest[i] == table[i] && rest[j] == table[j]);
    }
    assert forall|i: int| 0 <= i < rest.len() implies is_calendar_date(
        (#[trigger] rest[i]).date,
    ) by {
        assert(rest[i] == table[i]);
    }
}

/// The rows kept of an ordered table are ordered.
pub proof fn lemma_kept_is_ordered(table: Seq<EntryView>, filters: Seq<DateFilterView>, met: bool)
    requires
        is_ordered(table),
    ensures
        is_ordered(kept(table, filters, met)),
    decreases table.len(),
{
    let chosen = kept(table, filters, met);
    if table.len() == 0 {
    } else {
        let rest = table.drop_last();
        let before = kept(rest, filters, met);
        lemma_front_is_ordered(table);
        lemma_kept_is_ordered(rest, filters, met);
        lemma_kept_members(rest, filters, met);
        if meets_all(filters, table.last().date) == met {
            assert forall|i: int, j: int| 0 <= i < j < chosen.len() implies
                date_key(chosen[i].date) < date_key(chosen[j].date) by {
                if j < before.len() {
                    assert(chosen[i] == before[i] && chosen[j] == before[j]);
                } else {
                    assert(chosen[i] == before[i]);
                    assert(before.contains(before[i]));
                    assert(rest.contains(before[i]));
                    let k = choose|k: int| 0 <= k < rest.len() && rest[k] == before[i];
                    assert(table[k] == before[i]);
                    assert(chosen[j] == table[table.len() - 1]);
                }
            }
            assert forall|i: int| 0 <= i < chosen.len() implies
                is_calendar_date((#[trigger] chosen[i]).date) by {
                if i < before.len() {
                    assert(chosen[i] == before[i]);
                } else {
                    assert(chosen[i] == table[table.len() - 1]);
                }
            }
        }
    }
}

/// The place of a new row lies between the start of the search and the end
/// of the table. In an ordered table every row from the start to the place
/// is earlier than the new row, and the row at the place is not.
pub proof fn lemma_slot(table: Seq<EntryView>, key: int, start: int)
    requires
        0 <= start <= table.len(),
    ensures
        start <= slot_from(table, key, start) <= table.len(),
        is_dated(table) ==> forall|i: int|
            start <= i < slot_from(table, key, start)
                ==> date_key((#[trigger] table[i]).date) < key,
        is_dated(table) && slot_from(table, key, start) < table.len() ==> date_key(
            table[slot_from(table, key, start)].date,
        ) >= key,
    decreases table.len() - start,
{
    if start < table.len() && stands_before(table[start].date, key) {
        lemma_slot(table, key, start + 1);
    }
}

/// An ordered table is still ordered when an entry with a calendar date
/// that no row has yet is put in at its place.
pub proof fn lemma_with_entry_is_ordered(table: Seq<EntryView>, entry: EntryView)
    requires
        is_ordered(table),
        is_calendar_date(entry.date),
        !has_date(table, entry.date),
    ensures
        is_ordered(with_entry(table, entry)),
{
    let key = date_key(entry.date);
    let slot = slot_from(table, key, 0);
    let grown = with_entry(table, entry);
    lemma_slot(table, key, 0);
    assert forall|i: int| 0 <= i < table.len() implies date_key(
        (#[trigger] table[i]).date,
    ) != key by {
        if date_key(table[i].date) == key {
            lemma_key_names_one_date(table[i].date, entry.date);
        }
    }
    assert forall|i: int| 0 <= i < grown.len() implies is_calendar_date(
        (#[trigger] grown[i]).date,
    ) by {
        if i < slot {
            assert(grown[i] == table[i]);
        } else if i > slot {
            assert(grown[i] == table[i - 1]);
        }
    }
    assert forall|i: int, j: int| 0 <= i < j < grown.len() implies
        date_key(grown[i].date) < date_key(
        grown[j].date,
    ) by {
        if j < slot {
            assert(grown[i] == table[i] && grown[j] == table[j]);
        } else if j == slot {
            assert(grown[i] == table[i]);
        } else if i < slot {
            assert(grown[i] == table[i] && grown[j] == table[j - 1]);
        } else if i == slot {
            assert(grown[j] == table[j - 1]);
            if slot < j - 1 {
                assert(date_key(table[slot].date) < date_key(table[j - 1].date));
            }
        } else {
            assert(grown[i] == table[i - 1] && grown[j] == table[j - 1]);
        }
    }
}

/// A request leaves an ordered table ordered.
pub proof fn lemma_request_keeps_order(table: Seq<EntryView>, request: RequestView)
    requires
        is_ordered(table),
    ensures
        is_ordered(table_after(table, request)),
{
    match request {
        RequestView::Insert { table: _, entry } => {
            if is_calendar_date(entry.date) && !has_date(table, entry.date) {
                lemma_with_entry_is_ordered(table, entry);
            }
        },
        RequestView::Delete { table: _, filters } => {
            lemma_kept_is_ordered(table, filters, false);
        },
        RequestView::Select { .. } => {},
    }
}

/// What a range query reads from the answer of a store that holds `table`
/// to the select request of `range`.
pub open spec fn listed(table: Seq<EntryView>, name: Seq<char>, range: DateRangeView) -> Result<
    Seq<EntryView>,
    StoreError,
> {
    listing_of(answer(table, select_request(name, range)))
}

/// A calendar date meets the filters of a valid range exactly when it lies
/// in the range.
pub proof fn lemma_range_filters(name: Seq<char>, range: DateRangeView, date: Seq<char>)
    requires
        range.is_valid(),
    ensures
        select_request(name, range) matches RequestView::Select {
            filters,
            ..
        } && filters_are_valid(filters) && (
        meets_all(filters, date) <==> (
        is_calendar_date(date) && range.contains(date))),
{
    let filters = seq![
        DateFilterView { comparison: Comparison::Gte, date: range.from },
        DateFilterView {
            comparison: upper_comparison(range.upper_inclusive),
            date: range.to,
        },
    ];
    assert(filters[0].date == range.from);
    assert(filters[1].date == range.to);
    let key = date_key(date);
    if is_calendar_date(date) && range.contains(date) {
        assert forall|i: int| 0 <= i < filters.len() implies holds(#[trigger] filters[i], key) by {
            if i == 0 {
            } else {
                assert(i == 1);
            }
        }
    }
    if meets_all(filters, date) {
        assert(holds(filters[0], key));
        assert(holds(filters[1], key));
    }
}

/// A range query over a store in memory reads exactly the rows that the
/// store picks out for the filters of the range.
pub proof fn lemma_listed_is_selected(table: Seq<EntryView>, name: Seq<char>, range: DateRangeView)
    requires
        range.is_valid(),
    ensures
        select_request(name, range) matches RequestView::Select {
            filters,
            ..
        } && listed(table, name, range) == Ok::<Seq<EntryView>, StoreError>(
            selected(table, filters),
        ),
{
    lemma_range_filters(name, range, range.from);
    let filters = select_request(name, range)->Select_filters;
    let chosen = selected(table, filters);
    lemma_kept_members(table, filters, true);
    assert forall|i: int| 0 <= i < chosen.len() implies is_calendar_date(
        #[trigger] chosen[i].date,
    ) by {
        assert(chosen.contains(chosen[i]));
    }
    lemma_rows_round_trip(chosen);
}

/// Round trip. Take a store in memory and an entry with a calendar date.
/// If `add` of the entry succeeds, then a range query whose range holds the
/// date of the entry returns a list in which the entry stands exactly once.
pub proof fn lemma_added_row_is_selected_once(
    table: Seq<EntryView>,
    name: Seq<char>,
    entry: EntryView,
    range: DateRangeView,
)
    requires
        is_calendar_date(entry.date),
        range.is_valid(),
        range.contains(entry.date),
        ack_of(answer(table, insert_request(name, entry))) is Ok,
    ensures
        listed(
            table_after(table, insert_request(name, entry)),
            name,
            range,
        ) matches Ok(entries) && occurs_once(entries, entry),
{
    let key = date_key(entry.date);
    let slot = slot_from(table, key, 0);
    let grown = table_after(table, insert_request(name, entry));
    assert(!has_date(table, entry.date));
    assert(grown == table.insert(slot, entry));
    lemma_slot(table, key, 0);
    lemma_listed_is_selected(grown, name, range);
    lemma_range_filters(name, range, entry.date);
    let filters = select_request(name, range)->Select_filters;
    let head = table.take(slot);
    let tail = table.skip(slot);
    let one = seq![entry];
    assert(grown =~= head + one + tail);
    lemma_kept_concat(head + one, tail, filters, true);
    lemma_kept_concat(head, one, filters, true);
    let front = selected(head, filters);
    let back = selected(tail, filters);
    assert(selected(one, filters) =~= one) by {
        assert(one.drop_last() =~= Seq::<EntryView>::empty());
        assert(one.last() == entry);
        assert(kept(one.drop_last(), filters, true)
            =~= Seq::<EntryView>::empty());
    }
    let entries = front + one + back;
    assert(selected(grown, filters) == entries);
    lemma_kept_members(head, filters, true);
    lemma_kept_members(tail, filters, true);
    assert(entries[front.len() as int] == entry);
    assert forall|j: int| 0 <= j < entries.len() && j != front.len() implies #[trigger] entries[j]
        != entry by {
        if j < front.len() {
            assert(front.contains(entries[j]));
            let k = choose|k: int| 0 <= k < head.len() && head[k] == entries[j];
            assert(table[k] == entries[j]);
        } else {
            assert(entries[j] == back[j - front.len() - 1]);
            assert(back.contains(entries[j]));
            let k = choose|k: int| 0 <= k < tail.len() && tail[k] == entries[j];
            assert(table[slot + k] == entries[j]);
        }
    }
}

/// Ordering. A range query over an ordered store in memory returns its
/// entries sorted by date, earliest first, and returns exactly the rows of
/// the store whose dates lie in the range.
pub proof fn lemma_listing_is_sorted(table: Seq<EntryView>, name: Seq<char>, range: DateRangeView)
    requires
        is_ordered(table),
        range.is_valid(),
    ensures
        listed(table, name, range) matches Ok(entries) && is_ascending(entries) && (forall|
            entry: EntryView,
        | #[trigger]
            entries.contains(entry) <==> table.contains(entry) && range.contains(entry.date)),
{
    lemma_listed_is_selected(table, name, range);
    let filters = select_request(name, range)->Select_filters;
    let entries = selected(table, filters);
    lemma_kept_is_ordered(table, filters, true);
    lemma_kept_members(table, filters, true);
    assert forall|entry: EntryView| #[trigger]
        entries.contains(entry) <==> table.contains(entry) && range.contains(entry.date) by {
        lemma_range_filters(name, range, entry.date);
        if table.contains(entry) {
            let i = choose|i: int| 0 <= i < table.len() && table[i] == entry;
            assert(is_calendar_date(table[i].date));
        }
    }
}

/// Boundary of a horizon query. The range that a horizon resolves to does
/// not cover its upper bound: a range query for it over a store in memory
/// returns no entry dated on the horizon.
pub proof fn lemma_horizon_leaves_out_its_end(
    table: Seq<EntryView>,
    name: Seq<char>,
    now: int,
    weeks: int,
)
    requires
        horizon_range(now, weeks) is Ok,
    ensures
        ({
            let range = horizon_range(now, weeks)->Ok_0;
            listed(table, name, range) matches Ok(entries) && lacks_date(entries, range.to)
        }),
{
    let range = horizon_range(now, weeks)->Ok_0;
    lemma_exclusive_range_leaves_out_its_end(table, name, range);
}

/// Boundary of a range with an exclusive upper bound: a range query for it
/// over a store in memory returns no entry dated on the upper bound.
pub proof fn lemma_exclusive_range_leaves_out_its_end(
    table: Seq<EntryView>,
    name: Seq<char>,
    range: DateRangeView,
)
    requires
        range.is_valid(),
        !range.upper_inclusive,
    ensures
        listed(table, name, range) matches Ok(entries) && lacks_date(entries, range.to),
{
    lemma_listed_is_selected(table, name, range);
    let filters = select_request(name, range)->Select_filters;
    let entries = selected(table, filters);
    lemma_kept_members(table, filters, true);
    assert forall|i: int| 0 <= i < entries.len() implies (#[trigger] entries[i]).date
        != range.to by {
        assert(entries.contains(entries[i]));
        lemma_range_filters(name, range, entries[i].date);
    }
}

/// Boundary of a range given by two dates. The range that two calendar
/// dates resolve to covers both: where `from` is not after `to`, a range
/// query for it over a store in memory returns every row dated `to`.
pub proof fn lemma_inclusive_range_takes_in_its_end(
    table: Seq<EntryView>,
    name: Seq<char>,
    from: Seq<char>,
    to: Seq<char>,
    entry: EntryView,
)
    requires
        checked_range(from, to, true) is Ok,
        date_key(from) <= date_key(to),
        table.contains(entry),
        entry.date == to,
    ensures
        ({
            let range = checked_range(from, to, true)->Ok_0;
            listed(table, name, range) matches Ok(entries) && entries.contains(entry)
        }),
{
    let range = checked_range(from, to, true)->Ok_0;
    lemma_listed_is_selected(table, name, range);
    let filters = select_request(name, range)->Select_filters;
    lemma_kept_members(table, filters, true);
    lemma_range_filters(name, range, entry.date);
}

/// Delete then query. After `delete` of a calendar date over a store in
/// memory, which succeeds whether or not the date had a row, a range query
/// returns no entry of that date, whatever its range.
pub proof fn lemma_deleted_date_is_not_listed(
    table: Seq<EntryView>,
    name: Seq<char>,
    date: Seq<char>,
    range: DateRangeView,
)
    requires
        is_calendar_date(date),
        range.is_valid(),
    ensures
        ack_of(answer(table, delete_request(name, date))) is Ok,
        listed(
            table_after(table, delete_request(name, date)),
            name,
            range,
        ) matches Ok(entries) && lacks_date(entries, date),
{
    let only = seq![DateFilterView { comparison: Comparison::Eq, date }];
    assert(only[0].date == date);
    assert(filters_are_valid(only));
    let left = remaining(table, only);
    assert(left == table_after(table, delete_request(name, date)));
    lemma_listed_is_selected(left, name, range);
    let filters = select_request(name, range)->Select_filters;
    let entries = selected(left, filters);
    lemma_kept_members(left, filters, true);
    lemma_kept_members(table, only, false);
    assert forall|i: int| 0 <= i < entries.len() implies (#[trigger] entries[i]).date != date by {
        assert(entries.contains(entries[i]));
        assert(left.contains(entries[i]));
        if entries[i].date == date {
            assert(holds(only[0], date_key(date)));
            assert(meets_all(only, date));
        }
    }
}

} // verus!
