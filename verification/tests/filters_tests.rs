use handler_lib::filters::filters::{
    ack_reply, handle_delete_entry, handle_get_next_entry, handle_post_entry, listing_reply,
    Reply, BAD_REQUEST, OK,
};
use handler_lib::models::database::{Ack, Database, RowStore};
use handler_lib::models::errors::StoreError;
use handler_lib::models::interfaces::{Entry, EntryId, WeekRequest};
use handler_lib::models::request::Request;
use handler_lib::models::response::Outcome;
use handler_lib::models::time_provider::TimeProvider;
use handler_lib::supabase::memory::MemoryStore;
use handler_lib::supabase::supabase::SupabaseDb;

fn booking(date: &str, person: &str) -> Entry {
    Entry { date: date.to_string(), person: person.to_string() }
}

/// A clock that stands at one past one on the first day of 2100.
struct NewYear2100;

impl TimeProvider for NewYear2100 {
    fn get_current_time() -> i64 {
        4_102_448_461
    }

    fn new() -> Self {
        NewYear2100
    }
}

/// A clock that stands beyond the last instant that has a date.
struct EndOfTime;

impl TimeProvider for EndOfTime {
    fn get_current_time() -> i64 {
        i64::MAX
    }

    fn new() -> Self {
        EndOfTime
    }
}

struct Offline;

impl RowStore for Offline {
    fn execute(&mut self, _request: &Request) -> Outcome {
        Outcome::NoReply
    }
}

#[test]
fn status_constants_are_the_http_ones() {
    assert_eq!(OK, 200);
    assert_eq!(BAD_REQUEST, 400);
}

#[test]
fn create_replies_with_the_status_and_the_echo() {
    let mut database = SupabaseDb::new("Bookings".to_string(), MemoryStore::new());
    assert_eq!(
        handle_post_entry(&mut database, booking("2100-01-01", "test")),
        Reply { status: 201, body: "[{\"date\":\"2100-01-01\",\"person\":\"test\"}]".to_string() }
    );
    assert_eq!(database.client.entries, vec![booking("2100-01-01", "test")]);
}

#[test]
fn create_replies_with_a_client_error_on_failure() {
    let mut database = SupabaseDb::new("Bookings".to_string(), MemoryStore::new());
    database.add(booking("2100-01-01", "first")).unwrap();
    assert_eq!(
        handle_post_entry(&mut database, booking("2100-01-01", "second")),
        Reply { status: 400, body: StoreError::Backend { status: 409 }.message() }
    );
    assert_eq!(
        handle_post_entry(&mut database, booking("first of January", "third")),
        Reply { status: 400, body: StoreError::Validation.message() }
    );
    let mut offline = SupabaseDb::new("Bookings".to_string(), Offline);
    assert_eq!(
        handle_post_entry(&mut offline, booking("2100-01-01", "test")),
        Reply { status: 400, body: StoreError::Transport.message() }
    );
}

#[test]
fn delete_replies_with_success_whether_or_not_a_row_matched() {
    let mut database = SupabaseDb::new("Bookings".to_string(), MemoryStore::new());
    database.add(booking("2100-01-01", "test")).unwrap();
    assert_eq!(
        handle_delete_entry(&mut database, EntryId { date: "2100-01-01".to_string() }),
        Reply { status: 200, body: "[{\"date\":\"2100-01-01\",\"person\":\"test\"}]".to_string() }
    );
    assert_eq!(
        handle_delete_entry(&mut database, EntryId { date: "2100-01-01".to_string() }),
        Reply { status: 200, body: "[]".to_string() }
    );
    assert_eq!(
        handle_delete_entry(&mut database, EntryId { date: "2100-1-1".to_string() }),
        Reply { status: 400, body: StoreError::Validation.message() }
    );
}

#[test]
fn next_weeks_replies_with_the_entries_before_the_horizon() {
    let mut database = SupabaseDb::new("Bookings".to_string(), MemoryStore::new());
    for (date, person) in [
        ("2100-01-08", "horizon"),
        ("2100-01-07", "last"),
        ("2099-12-31", "past"),
        ("2100-01-01", "today"),
    ] {
        database.add(booking(date, person)).unwrap();
    }
    let reply = handle_get_next_entry::<MemoryStore, NewYear2100>(
        &mut database,
        WeekRequest { weeks: 1 },
    );
    assert_eq!(reply.status, 200);
    assert_eq!(
        reply.body,
        "[{\"date\":\"2100-01-01\",\"person\":\"today\"},{\"date\":\"2100-01-07\",\"person\":\"last\"}]"
    );
}

#[test]
fn next_weeks_replies_with_a_client_error_on_failure() {
    let mut database = SupabaseDb::new("Bookings".to_string(), MemoryStore::new());
    assert_eq!(
        handle_get_next_entry::<MemoryStore, NewYear2100>(&mut database, WeekRequest { weeks: -1 }),
        Reply { status: 400, body: StoreError::Validation.message() }
    );
    assert_eq!(
        handle_get_next_entry::<MemoryStore, EndOfTime>(&mut database, WeekRequest { weeks: 0 }),
        Reply { status: 400, body: StoreError::Validation.message() }
    );
    assert_eq!(database.client.calls, 0);
    let mut offline = SupabaseDb::new("Bookings".to_string(), Offline);
    assert_eq!(
        handle_get_next_entry::<Offline, NewYear2100>(&mut offline, WeekRequest { weeks: 1 }),
        Reply { status: 400, body: StoreError::Transport.message() }
    );
}

#[test]
fn replies_are_made_from_results() {
    assert_eq!(
        ack_reply(Ok(Ack { status: 204, representation: None })),
        Reply { status: 204, body: String::new() }
    );
    assert_eq!(
        ack_reply(Ok(Ack { status: 201, representation: Some(vec![]) })),
        Reply { status: 201, body: "[]".to_string() }
    );
    assert_eq!(
        ack_reply(Err(StoreError::Decode)),
        Reply { status: 400, body: StoreError::Decode.message() }
    );
    assert_eq!(listing_reply(Ok(vec![])), Reply { status: 200, body: "[]".to_string() });
    assert_eq!(
        listing_reply(Ok(vec![booking("no date", "x")])),
        Reply { status: 200, body: "error serialising json".to_string() }
    );
    assert_eq!(
        listing_reply(Err(StoreError::Config)),
        Reply { status: 400, body: StoreError::Config.message() }
    );
}

#[test]
fn every_error_has_its_own_message() {
    let errors = [
        StoreError::Validation,
        StoreError::Transport,
        StoreError::Backend { status: 500 },
        StoreError::Decode,
        StoreError::Config,
    ];
    for (i, left) in errors.iter().enumerate() {
        assert!(!left.message().is_empty());
        for right in errors.iter().skip(i + 1) {
            assert_ne!(left.message(), right.message());
        }
    }
    assert_eq!(
        StoreError::Backend { status: 409 }.message(),
        StoreError::Backend { status: 500 }.message()
    );
}

#[test]
fn a_clock_can_be_made() {
    let _clock: NewYear2100 = TimeProvider::new();
    assert_eq!(NewYear2100::get_current_time(), 4_102_448_461);
}
