//! The two capabilities of the library: the remote row store that it
//! speaks to, and the entry store that it offers.

use vstd::prelude::*;
use crate::models::errors::StoreError;
use crate::models::interfaces::DateFormat;
use crate::models::interfaces::Entry;
use crate::models::interfaces::EntryView;
use crate::models::range::DateRange;
use crate::models::request::Request;
use crate::models::request::RequestView;
use crate::models::response::Outcome;
use crate::models::response::OutcomeView;

verus! {

/// The success signal of `add` and `delete`: the status that the remote
/// store reported and, where its body held them, the entries it echoed.
#[derive(Debug, PartialEq, Eq)]
pub struct Ack {
    pub status: u16,
    pub representation: Option<Vec<Entry>>,
}

/// What an [`Ack`] holds, as mathematical values.
pub struct AckView {
    pub status: u16,
    pub representation: Option<Seq<EntryView>>,
}

impl View for Ack {
    type V = AckView;

    open spec fn view(&self) -> AckView {
        AckView { status: self.status, representation: self.representation.deep_view() }
    }
}

/// A remote row store: something that takes one request and reports how the
/// call ended. Every call of [`RowStore::execute`] stands for one network
/// round trip.
pub trait RowStore: Sized {
    /// Whether this store, in the state `self`, may end a call for `request`
    /// with `outcome` and be in the state `after`. A store that promises
    /// nothing admits everything.
    open spec fn admits(&self, request: RequestView, after: &Self, outcome: OutcomeView) -> bool {
        true
    }

    /// Sends `request` and reports the outcome.
    fn execute(&mut self, request: &Request) -> (outcome: Outcome)
        ensures
            old(self).admits(request@, final(self), outcome@),
    ;
}

/// The entry store: create, delete by date, and query by range.
pub trait Database {
    /// Removes the entry of the date `entry_id`.
    fn delete(&mut self, entry_id: DateFormat) -> Result<Ack, StoreError>;

    /// Records `entry`.
    fn add(&mut self, entry: Entry) -> Result<Ack, StoreError>;

    /// Lists the entries whose dates lie in `range`, earliest first.
    fn list_range(&mut self, range: &DateRange) -> Result<Vec<Entry>, StoreError>;

    /// Lists the entries from the date of the instant `from` to the date of
    /// the instant `to`, both covered, earliest first. Instants are counted
    /// in seconds from the Unix epoch.
    fn get_entries(&mut self, from: i64, to: i64) -> Result<Vec<Entry>, StoreError>;
}

} // verus!
