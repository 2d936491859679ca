//! The values that cross the library's boundary: entries, entry identifiers
//! and horizon requests.

use vstd::prelude::*;

verus! {

/// A calendar date as text, in the form `YYYY-MM-DD`.
pub type DateFormat = String;

/// A booking: one person occupies one calendar date.
#[derive(Debug, PartialEq, Eq)]
pub struct Entry {
    pub date: DateFormat,
    pub person: String,
}

/// What an [`Entry`] holds, as mathematical values.
pub struct EntryView {
    pub date: Seq<char>,
    pub person: Seq<char>,
}

impl View for Entry {
    type V = EntryView;

    open spec fn view(&self) -> EntryView {
        EntryView { date: self.date@, person: self.person@ }
    }
}

impl DeepView for Entry {
    type V = EntryView;

    open spec fn deep_view(&self) -> EntryView {
        self@
    }
}

impl Clone for Entry {
    fn clone(&self) -> (copy: Self)
        ensures
            copy == *self,
    {
        Entry { date: self.date.clone(), person: self.person.clone() }
    }
}

/// Names the entry to delete: the date is the key of an entry.
#[derive(Debug)]
pub struct EntryId {
    pub date: DateFormat,
}

impl Clone for EntryId {
    fn clone(&self) -> (copy: Self)
        ensures
            copy == *self,
    {
        EntryId { date: self.date.clone() }
    }
}

/// How far ahead of now a query looks, in weeks.
#[derive(Clone, Copy, Debug, PartialEq, Eq, Structural)]
pub struct WeekRequest {
    pub weeks: i64,
}

} // verus!
