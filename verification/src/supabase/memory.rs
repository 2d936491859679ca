//! A row store held in memory.
//!
//! It answers the requests of the entry store as the remote store does: one
//! row per date, rows read back earliest first. It stands in for the remote
//! store where no network is wanted, and it is the model against which the
//! laws of the entry store are stated.

use vstd::prelude::*;
use vstd::string::*;
use crate::models::calendar::date_key;
use crate::models::calendar::date_key_of;
use crate::models::calendar::is_calendar_date;
use crate::models::database::RowStore;
use crate::models::interfaces::Entry;
use crate::models::interfaces::EntryView;
use crate::models::request::Comparison;
use crate::models::request::DateFilter;
use crate::models::request::DateFilterView;
use crate::models::request::Request;
use crate::models::request::RequestView;
use crate::models::response::Body;
use crate::models::response::BodyView;
use crate::models::response::Outcome;
use crate::models::response::OutcomeView;
use crate::models::response::Response;
use crate::models::response::ResponseView;
use crate::models::response::Row;
use crate::supabase::codec::encode_row;
use crate::supabase::codec::row_of_entry;
use crate::supabase::codec::rows_of_entries;

verus! {

/// The status of an answer to a request that was carried out.
pub const STATUS_OK: u16 = 200;

/// The status of an answer to an insert that created a row.
pub const STATUS_CREATED: u16 = 201;

/// The status of an answer to a request that names something that is no
/// calendar date.
pub const STATUS_BAD_REQUEST: u16 = 400;

/// The status of an answer to an insert for a date that has a row already.
pub const STATUS_CONFLICT: u16 = 409;

/// Whether the date with the key `key` meets `filter`, whose date is a
/// calendar date.
pub open spec fn holds(filter: DateFilterView, key: int) -> bool {
    let bound = date_key(filter.date);
    match filter.comparison {
        Comparison::Eq => key == bound,
        Comparison::Gte => key >= bound,
        Comparison::Lt => key < bound,
        Comparison::Lte => key <= bound,
    }
}

/// Whether every filter names a calendar date.
pub open spec fn filters_are_valid(filters: Seq<DateFilterView>) -> bool {
    forall|i: int|
        0 <= i < filters.len() ==> is_calendar_date(#[trigger] filters[i].date)
}

/// Whether a row of the date `date` meets every filter: the date is a
/// calendar date and each comparison holds of it.
pub open spec fn meets_all(filters: Seq<DateFilterView>, date: Seq<char>) -> bool {
    &&& is_calendar_date(date)
    &&& forall|i: int|
        0 <= i < filters.len() ==> holds(#[trigger] filters[i], date_key(date))
}

/// The rows of `table` for which "meets every filter" is `met`, in the order
/// of the table.
pub open spec fn kept(table: Seq<EntryView>, filters: Seq<DateFilterView>, met: bool) -> Seq<
    EntryView,
>
    decreases table.len(),
{
    if table.len() == 0 {
        Seq::empty()
    } else {
        let before = kept(table.drop_last(), filters, met);
        if meets_all(filters, table.last().date) == met {
            before.push(table.last())
        } else {
            before
        }
    }
}

/// The rows of `table` that meet every filter, in the order of the table.
pub open spec fn selected(table: Seq<EntryView>, filters: Seq<DateFilterView>) -> Seq<EntryView> {
    kept(table, filters, true)
}

/// The rows of `table` that do not meet every filter, in the order of the
/// table.
pub open spec fn remaining(table: Seq<EntryView>, filters: Seq<DateFilterView>) -> Seq<EntryView> {
    kept(table, filters, false)
}

/// Whether `table` has a row of the date `date`.
pub open spec fn has_date(table: Seq<EntryView>, date: Seq<char>) -> bool {
    exists|i: int| 0 <= i < table.len() && (#[trigger] table[i]).date == date
}

/// Whether a row of the date `date` stands before a new row with the key
/// `key`: its date is a calendar date with a smaller key.
pub open spec fn stands_before(date: Seq<char>, key: int) -> bool {
    is_calendar_date(date) && date_key(date) < key
}

/// The place of a new row with the key `key` among the rows of `table` from
/// `start` on: the first place whose row does not stand before it.
pub open spec fn slot_from(table: Seq<EntryView>, key: int, start: int) -> int
    decreases table.len() - start,
{
    if start < 0 || start >= table.len() {
        table.len() as int
    } else if stands_before(table[start].date, key) {
        slot_from(table, key, start + 1)
    } else {
        start
    }
}

/// `table` with `entry` put in at its place.
pub open spec fn with_entry(table: Seq<EntryView>, entry: EntryView) -> Seq<EntryView> {
    table.insert(slot_from(table, date_key(entry.date), 0), entry)
}

/// What a [`MemoryStore`] holds, as mathematical values.
pub struct MemoryView {
    pub entries: Seq<EntryView>,
    pub calls: usize,
}

/// The answer with the status `status` and no body.
pub open spec fn bare_answer(status: u16) -> OutcomeView {
    OutcomeView::Reply(ResponseView { status, body: BodyView::Empty })
}

/// The answer with the status `status` and the rows of `entries` as body.
pub open spec fn rows_answer(status: u16, entries: Seq<EntryView>) -> OutcomeView {
    OutcomeView::Reply(ResponseView { status, body: BodyView::Array(rows_of_entries(entries)) })
}

/// The answer of a store that holds `table` to `request`.
///
/// An insert of an entry with a calendar date whose date has no row yet is
/// answered with 201 and the new row; one for a date that has a row with
/// 409; one with another date text with 400. A delete or select whose
/// filters all name calendar dates is answered with 200 and the rows that
/// meet the filters (for a delete: the rows it removed); any other with 400.
pub open spec fn answer(table: Seq<EntryView>, request: RequestView) -> OutcomeView {
    match request {
        RequestView::Insert { table: _, entry } => {
            if !is_calendar_date(entry.date) {
                bare_answer(STATUS_BAD_REQUEST)
            } else if has_date(table, entry.date) {
                bare_answer(STATUS_CONFLICT)
            } else {
                rows_answer(STATUS_CREATED, seq![entry])
            }
        },
        RequestView::Delete { table: _, filters } => {
            if filters_are_valid(filters) {
                rows_answer(STATUS_OK, selected(table, filters))
            } else {
                bare_answer(STATUS_BAD_REQUEST)
            }
        },
        RequestView::Select { table: _, filters } => {
            if filters_are_valid(filters) {
                rows_answer(STATUS_OK, selected(table, filters))
            } else {
                bare_answer(STATUS_BAD_REQUEST)
            }
        },
    }
}

/// The rows that a store that held `table` holds after `request`.
pub open spec fn table_after(table: Seq<EntryView>, request: RequestView) -> Seq<EntryView> {
    match request {
        RequestView::Insert { table: _, entry } => {
            if is_calendar_date(entry.date) && !has_date(table, entry.date) {
                with_entry(table, entry)
            } else {
                table
            }
        },
        RequestView::Delete { table: _, filters } => {
            if filters_are_valid(filters) {
                remaining(table, filters)
            } else {
                table
            }
        },
        RequestView::Select { .. } => table,
    }
}

/// The number of calls after one more call.
pub open spec fn one_more(calls: usize) -> usize {
    if calls < usize::MAX {
        (calls + 1) as usize
    } else {
        calls
    }
}

/// A row store in memory: the rows of one table, and the number of calls
/// that it has answered.
#[derive(Debug, PartialEq, Eq)]
pub struct MemoryStore {
    pub entries: Vec<Entry>,
    pub calls: usize,
}

impl View for MemoryStore {
    type V = MemoryView;

    open spec fn view(&self) -> MemoryView {
        MemoryView { entries: self.entries.deep_view(), calls: self.calls }
    }
}

/// The keys of the dates that the filters name, with their comparisons.
struct Bounds {
    items: Vec<(Comparison, u32)>,
}

impl Bounds {
    /// Whether the bounds are those of `filters`.
    spec fn are_of(self, filters: Seq<DateFilterView>) -> bool {
        &&& self.items.len() == filters.len()
        &&& forall|i: int|
            0 <= i < filters.len() ==> (#[trigger] self.items[i]).0 == filters[i].comparison
                && self.items[i].1 as int == date_key(filters[i].date)
    }

    /// Reads the bounds of `filters`, if every filter names a calendar date.
    fn read(filters: &Vec<DateFilter>) -> (bounds: Option<Bounds>)
        ensures
            bounds is Some <==> filters_are_valid(filters.deep_view()),
            bounds matches Some(read) ==> read.are_of(filters.deep_view()),
    {
        let mut items: Vec<(Comparison, u32)> = Vec::new();
        let mut i: usize = 0;
        while i < filters.len()
            invariant
                i <= filters.len(),
                items.len() == i,
                forall|j: int|
                    0 <= j < i ==> is_calendar_date(#[trigger] filters.deep_view()[j].date),
                forall|j: int|
                    0 <= j < i ==> (#[trigger] items[j]).0 == filters.deep_view()[j].comparison
                        && items[j].1 as int == date_key(filters.deep_view()[j].date),
            decreases filters.len() - i,
        {
            match date_key_of(filters[i].date.as_str()) {
                Some(key) => {
                    items.push((filters[i].comparison, key));
                },
                None => {
                    assert(!is_calendar_date(filters.deep_view()[i as int].date));
                    return None;
                },
            }
            i = i + 1;
        }
        Some(Bounds { items })
    }

    /// Whether a row of the date `date` meets every filter.
    fn accepts(&self, date: &str, Ghost(filters): Ghost<Seq<DateFilterView>>) -> (met: bool)
        requires
            self.are_of(filters),
        ensures
            met == meets_all(filters, date@),
    {
        match date_key_of(date) {
            None => false,
            Some(key) => {
                let mut i: usize = 0;
                while i < self.items.len()
                    invariant
                        i <= self.items.len(),
                        self.are_of(filters),
                        is_calendar_date(date@),
                        key as int == date_key(date@),
                        forall|j: int| 0 <= j < i ==> holds(#[trigger] filters[j], key as int),
                    decreases self.items.len() - i,
                {
                    let bound = self.items[i].1;
                    let met = match self.items[i].0 {
                        Comparison::Eq => key == bound,
                        Comparison::Gte => key >= bound,
                        Comparison::Lt => key < bound,
                        Comparison::Lte => key <= bound,
                    };
                    if !met {
                        assert(!holds(filters[i as int], key as int));
                        return false;
                    }
                    i = i + 1;
                }
                true
            },
        }
    }
}

impl MemoryStore {
    /// A store with no rows that has answered no call.
    pub fn new() -> (store: MemoryStore)
        ensures
            store@.entries == Seq::<EntryView>::empty(),
            store@.calls == 0,
    {
        let store = MemoryStore { entries: Vec::new(), calls: 0 };
        assert(store@.entries =~= Seq::<EntryView>::empty());
        store
    }

    /// The rows that meet the filters, as the body of an answer.
    fn pick(&self, bounds: &Bounds, Ghost(filters): Ghost<Seq<DateFilterView>>) -> (picked: Vec<Row>)
        requires
            bounds.are_of(filters),
        ensures
            picked.deep_view() == rows_of_entries(selected(self@.entries, filters)),
    {
        let ghost table = self@.entries;
        let ghost chosen: Seq<EntryView> = Seq::empty();
        let mut rows: Vec<Row> = Vec::new();
        let mut i: usize = 0;
        while i < self.entries.len()
            invariant
                i <= self.entries.len(),
                table == self@.entries,
                bounds.are_of(filters),
                chosen == selected(table.take(i as int), filters),
                rows.len() == chosen.len(),
                forall|j: int|
                    0 <= j < rows.len() ==> (#[trigger] rows[j])@ == row_of_entry(chosen[j]),
            decreases self.entries.len() - i,
        {
            proof {
                assert(table.take(i + 1).drop_last() =~= table.take(i as int));
                assert(table.take(i + 1).last() == self.entries[i as int]@);
            }
            if bounds.accepts(self.entries[i].date.as_str(), Ghost(filters)) {
                rows.push(encode_row(&self.entries[i]));
                proof {
                    chosen = chosen.push(self.entries[i as int]@);
                }
            }
            i = i + 1;
        }
        proof {
            assert(table.take(i as int) =~= table);
            assert(rows.deep_view() =~= rows_of_entries(chosen));
        }
        rows
    }

    /// Removes the rows that meet the filters.
    fn discard(&mut self, bounds: &Bounds, Ghost(filters): Ghost<Seq<DateFilterView>>)
        requires
            bounds.are_of(filters),
        ensures
            final(self)@.entries == remaining(old(self)@.entries, filters),
            final(self).calls == old(self).calls,
    {
        let ghost table = self@.entries;
        let mut kept: Vec<Entry> = Vec::new();
        let mut i: usize = 0;
        while i < self.entries.len()
            invariant
                i <= self.entries.len(),
                table == self@.entries,
                bounds.are_of(filters),
                kept.deep_view() == remaining(table.take(i as int), filters),
            decreases self.entries.len() - i,
        {
            proof {
                assert(table.take(i + 1).drop_last() =~= table.take(i as int));
                assert(table.take(i + 1).last() == self.entries[i as int]@);
            }
            if !bounds.accepts(self.entries[i].date.as_str(), Ghost(filters)) {
                let ghost before = kept.deep_view();
                kept.push(self.entries[i].clone());
                assert(kept.deep_view() =~= before.push(self.entries[i as int]@));
            }
            i = i + 1;
        }
        proof {
            assert(table.take(i as int) =~= table);
        }
        self.entries = kept;
    }

    /// Whether a row of the date `date` is held.
    fn holds_date(&self, date: &String) -> (held: bool)
        ensures
            held == has_date(self@.entries, date@),
    {
        let mut i: usize = 0;
        while i < self.entries.len()
            invariant
                i <= self.entries.len(),
                forall|j: int| 0 <= j < i ==> (#[trigger] self@.entries[j]).date != date@,
            decreases self.entries.len() - i,
        {
            if self.entries[i].date == *date {
                assert(self@.entries[i as int].date == date@);
                return true;
            }
            i = i + 1;
        }
        false
    }

    /// Puts `entry`, whose date has the key `key`, in at its place.
    fn place(&mut self, entry: Entry, key: u32)
        requires
            key as int == date_key(entry.date@),
        ensures
            final(self)@.entries == with_entry(old(self)@.entries, entry@),
            final(self).calls == old(self).calls,
    {
        let ghost table = self@.entries;
        let mut slot: usize = 0;
        let mut found = false;
        while slot < self.entries.len() && !found
            invariant
                slot <= self.entries.len(),
                table == self@.entries,
                slot_from(table, key as int, 0) == slot_from(table, key as int, slot as int),
                found ==> slot < table.len() && !stands_before(table[slot as int].date, key as int),
            decreases self.entries.len() - slot + (if found { 0int } else { 1int }),
        {
            let earlier = match date_key_of(self.entries[slot].date.as_str()) {
                Some(other) => other < key,
                None => false,
            };
            if earlier {
                slot = slot + 1;
            } else {
                found = true;
            }
        }
        assert(slot_from(table, key as int, 0) == slot);
        self.entries.insert(slot, entry);
        assert(self@.entries =~= table.insert(slot as int, entry@));
    }
}

impl RowStore for MemoryStore {
    /// The store answers each request as [`answer`] says, holds afterwards
    /// what [`table_after`] says, and has counted the call.
    open spec fn admits(&self, request: RequestView, after: &Self, outcome: OutcomeView) -> bool {
        &&& outcome == answer(self@.entries, request)
        &&& after@.entries == table_after(self@.entries, request)
        &&& after@.calls == one_more(self@.calls)
    }

    fn execute(&mut self, request: &Request) -> (outcome: Outcome) {
        if self.calls < usize::MAX {
            self.calls = self.calls + 1;
        }
        match request {
            Request::Insert { table: _, entry } => {
                match date_key_of(entry.date.as_str()) {
                    None => Outcome::Reply(Response { status: STATUS_BAD_REQUEST, body: Body::Empty }),
                    Some(key) => {
                        if self.holds_date(&entry.date) {
                            Outcome::Reply(Response { status: STATUS_CONFLICT, body: Body::Empty })
                        } else {
                            let mut rows: Vec<Row> = Vec::new();
                            rows.push(encode_row(entry));
                            assert(rows.deep_view() =~= rows_of_entries(seq![entry@]));
                            self.place(entry.clone(), key);
                            Outcome::Reply(Response { status: STATUS_CREATED, body: Body::Array(rows) })
                        }
                    },
                }
            },
            Request::Delete { table: _, filters } => {
                match Bounds::read(filters) {
                    None => Outcome::Reply(Response { status: STATUS_BAD_REQUEST, body: Body::Empty }),
                    Some(bounds) => {
                        let picked = self.pick(&bounds, Ghost(filters.deep_view()));
                        self.discard(&bounds, Ghost(filters.deep_view()));
                        Outcome::Reply(Response { status: STATUS_OK, body: Body::Array(picked) })
                    },
                }
            },
            Request::Select { table: _, filters } => {
                match Bounds::read(filters) {
                    None => Outcome::Reply(Response { status: STATUS_BAD_REQUEST, body: Body::Empty }),
                    Some(bounds) => {
                        let picked = self.pick(&bounds, Ghost(filters.deep_view()));
                        Outcome::Reply(Response { status: STATUS_OK, body: Body::Array(picked) })
                    },
                }
            },
        }
    }
}

} // verus!
