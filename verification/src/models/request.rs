//! What the entry store asks of the remote store.

use vstd::prelude::*;
use crate::models::interfaces::Entry;
use crate::models::interfaces::EntryView;

verus! {

/// How a filter compares the date of a row with the date that it names.
#[derive(Clone, Copy, Debug, PartialEq, Eq, Structural)]
pub enum Comparison {
    /// The row's date is the filter's date.
    Eq,
    /// The row's date is the filter's date or later.
    Gte,
    /// The row's date is before the filter's date.
    Lt,
    /// The row's date is the filter's date or earlier.
    Lte,
}

/// A condition on the `date` column of a row.
#[derive(Debug, PartialEq, Eq)]
pub struct DateFilter {
    pub comparison: Comparison,
    pub date: String,
}

/// What a [`DateFilter`] holds, as mathematical values.
pub struct DateFilterView {
    pub comparison: Comparison,
    pub date: Seq<char>,
}

impl View for DateFilter {
    type V = DateFilterView;

    open spec fn view(&self) -> DateFilterView {
        DateFilterView { comparison: self.comparison, date: self.date@ }
    }
}

impl DeepView for DateFilter {
    type V = DateFilterView;

    open spec fn deep_view(&self) -> DateFilterView {
        self@
    }
}

/// One request to the remote store.
#[derive(Debug, PartialEq, Eq)]
pub enum Request {
    /// Insert `entry` into `table`, as a batch of one row.
    Insert { table: String, entry: Entry },
    /// Delete from `table` the rows that meet every filter.
    Delete { table: String, filters: Vec<DateFilter> },
    /// Read from `table` the columns `date` and `person` of the rows that
    /// meet every filter, ordered by date, earliest first.
    Select { table: String, filters: Vec<DateFilter> },
}

/// What a [`Request`] holds, as mathematical values.
pub enum RequestView {
    Insert { table: Seq<char>, entry: EntryView },
    Delete { table: Seq<char>, filters: Seq<DateFilterView> },
    Select { table: Seq<char>, filters: Seq<DateFilterView> },
}

impl View for Request {
    type V = RequestView;

    open spec fn view(&self) -> RequestView {
        match self {
            Request::Insert { table, entry } => RequestView::Insert {
                table: table@,
                entry: entry@,
            },
            Request::Delete { table, filters } => RequestView::Delete {
                table: table@,
                filters: filters.deep_view(),
            },
            Request::Select { table, filters } => RequestView::Select {
                table: table@,
                filters: filters.deep_view(),
            },
        }
    }
}

} // verus!
