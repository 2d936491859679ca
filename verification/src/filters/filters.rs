//! The three handlers of the facade: create, delete and "next weeks".
//!
//! Each one calls the entry store once and turns what it returns into a
//! reply: a status and a body. A router hands the reply on.

use vstd::prelude::*;
use vstd::string::*;
use crate::models::database::Ack;
use crate::models::database::AckView;
use crate::models::database::Database;
use crate::models::database::RowStore;
use crate::models::errors::StoreError;
use crate::models::interfaces::Entry;
use crate::models::interfaces::EntryId;
use crate::models::interfaces::EntryView;
use crate::models::interfaces::WeekRequest;
use crate::models::range::horizon_range;
use crate::models::time_provider::TimeProvider;
use crate::supabase::codec::ack_result_view;
use crate::supabase::codec::listing_result_view;
use crate::supabase::json::encode_entries;
use crate::supabase::json::entries_json;
use crate::supabase::supabase::SupabaseDb;

verus! {

/// The status of a reply to a query that succeeded.
pub const OK: u16 = 200;

/// The status of a reply to a request that failed.
pub const BAD_REQUEST: u16 = 400;

/// What a handler answers: an HTTP status and the text of the body.
#[derive(Debug, PartialEq, Eq)]
pub struct Reply {
    pub status: u16,
    pub body: String,
}

/// What a [`Reply`] holds, as mathematical values.
pub struct ReplyView {
    pub status: u16,
    pub body: Seq<char>,
}

impl View for Reply {
    type V = ReplyView;

    open spec fn view(&self) -> ReplyView {
        ReplyView { status: self.status, body: self.body@ }
    }
}

/// The body that lists `entries`: their JSON array, or a fixed text where
/// they have none.
pub open spec fn listing_text(entries: Seq<EntryView>) -> Seq<char> {
    match entries_json(entries) {
        Some(text) => text,
        None => "error serialising json"@,
    }
}

/// The reply to a failed request: the status 400 and the text of the error.
pub open spec fn error_reply(error: StoreError) -> ReplyView {
    ReplyView { status: BAD_REQUEST, body: error.message_text() }
}

/// The reply to `add` and `delete`: for an acknowledgement its status and
/// the entries it echoes (an empty body where it echoes none), for an error
/// the status 400 and the text of the error.
pub open spec fn reply_to_ack(result: Result<AckView, StoreError>) -> ReplyView {
    match result {
        Ok(ack) => ReplyView {
            status: ack.status,
            body: match ack.representation {
                Some(entries) => listing_text(entries),
                None => Seq::empty(),
            },
        },
        Err(error) => error_reply(error),
    }
}

/// The reply to a range query: for a list of entries the status 200 and
/// their JSON array, for an error the status 400 and the text of the error.
pub open spec fn reply_to_listing(result: Result<Seq<EntryView>, StoreError>) -> ReplyView {
    match result {
        Ok(entries) => ReplyView { status: OK, body: listing_text(entries) },
        Err(error) => error_reply(error),
    }
}

/// Writes the body that lists `entries`.
fn write_listing(entries: &Vec<Entry>) -> (text: String)
    ensures
        text@ == listing_text(entries.deep_view()),
{
    match encode_entries(entries) {
        Ok(text) => text,
        Err(_) => "error serialising json".to_owned(),
    }
}

/// Turns what `add` or `delete` returned into a reply.
pub fn ack_reply(result: Result<Ack, StoreError>) -> (reply: Reply)
    ensures
        reply@ == reply_to_ack(ack_result_view(result)),
{
    match result {
        Ok(ack) => {
            let body = match &ack.representation {
                Some(entries) => write_listing(entries),
                None => String::new(),
            };
            Reply { status: ack.status, body }
        },
        Err(error) => Reply { status: BAD_REQUEST, body: error.message() },
    }
}

/// Turns what a range query returned into a reply.
pub fn listing_reply(result: Result<Vec<Entry>, StoreError>) -> (reply: Reply)
    ensures
        reply@ == reply_to_listing(listing_result_view(result)),
{
    match result {
        Ok(entries) => Reply { status: OK, body: write_listing(&entries) },
        Err(error) => Reply { status: BAD_REQUEST, body: error.message() },
    }
}

/// Handles a create request: records `entry` and replies.
///
/// The reply is what [`reply_to_ack`] gives for the result of `add`.
pub fn handle_post_entry<C: RowStore>(database: &mut SupabaseDb<C>, entry: Entry) -> (reply: Reply)
    ensures
        exists|result: Result<AckView, StoreError>|
            #[trigger] SupabaseDb::<C>::adds(*old(database), entry@, *final(database), result)
                && reply@ == reply_to_ack(result),
{
    let ghost wanted = entry@;
    let result = database.add(entry);
    assert(SupabaseDb::<C>::adds(*old(database), wanted, *database, ack_result_view(result)));
    ack_reply(result)
}

/// Handles a delete request: removes the entry of the date that `entry_id`
/// names and replies.
///
/// The reply is what [`reply_to_ack`] gives for the result of `delete`.
pub fn handle_delete_entry<C: RowStore>(database: &mut SupabaseDb<C>, entry_id: EntryId) -> (reply:
    Reply)
    ensures
        exists|result: Result<AckView, StoreError>|
            #[trigger] SupabaseDb::<C>::deletes(
                *old(database),
                entry_id.date@,
                *final(database),
                result,
            ) && reply@ == reply_to_ack(result),
{
    let ghost wanted = entry_id.date@;
    let result = database.delete(entry_id.date);
    assert(SupabaseDb::<C>::deletes(*old(database), wanted, *database, ack_result_view(result)));
    ack_reply(result)
}

/// Handles a "next weeks" request: reads the clock `T` once, lists the
/// entries of the horizon that `request` names from that instant on, and
/// replies.
///
/// The reply is what [`reply_to_listing`] gives for the result of the
/// horizon query made at the instant that the clock gave.
pub fn handle_get_next_entry<C: RowStore, T: TimeProvider>(
    database: &mut SupabaseDb<C>,
    request: WeekRequest,
) -> (reply: Reply)
    ensures
        exists|now: i64, result: Result<Seq<EntryView>, StoreError>|
            #[trigger] SupabaseDb::<C>::lists_resolved(
                *old(database),
                horizon_range(now as int, request.weeks as int),
                *final(database),
                result,
            ) && reply@ == reply_to_listing(result),
{
    let today = T::get_current_time();
    let result = database.list_horizon(today, &request);
    assert(SupabaseDb::<C>::lists_resolved(
        *old(database),
        horizon_range(today as int, request.weeks as int),
        *database,
        listing_result_view(result),
    ));
    listing_reply(result)
}

} // verus!
