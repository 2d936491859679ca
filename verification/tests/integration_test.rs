use chrono::{Duration, TimeZone, Utc};
use handler_lib::models::database::Database;
use handler_lib::models::interfaces::Entry;
use handler_lib::supabase::memory::MemoryStore;
use handler_lib::supabase::supabase::SupabaseDb;

#[allow(deprecated)]
#[test]
fn database_test() {
    let mut database = SupabaseDb::new("Bookings".to_string(), MemoryStore::new());

    let from_date = Utc.ymd(2100, 1, 1).and_hms(1, 1, 1);
    let past_date = from_date + Duration::days(-1);
    let future_date = from_date + Duration::days(1);

    let from_entry = Entry {
        date: from_date.format("%Y-%m-%d").to_string(),
        person: "test".to_string(),
    };
    let past_entry = Entry {
        date: past_date.format("%Y-%m-%d").to_string(),
        person: "test".to_string(),
    };
    let future_entry = Entry {
        date: future_date.format("%Y-%m-%d").to_string(),
        person: "test".to_string(),
    };

    _ = database.add(from_entry.clone());
    _ = database.add(past_entry.clone());
    _ = database.add(future_entry.clone());

    let parsed_response = database
        .get_entries(from_date.timestamp(), future_date.timestamp())
        .unwrap();

    _ = database.delete(from_entry.clone().date);
    _ = database.delete(past_entry.clone().date);
    _ = database.delete(future_entry.clone().date);

    assert_eq!(parsed_response.contains(&from_entry), true);
    assert_eq!(parsed_response.contains(&past_entry), false);
    assert_eq!(parsed_response.contains(&future_entry), true);
}

#[test]
fn end_to_end_scenario() {
    let mut database = SupabaseDb::new("Bookings".to_string(), MemoryStore::new());
    let anchor: i64 = 4_102_444_800;
    let day: i64 = 86_400;
    let before = Entry { date: "2099-12-31".to_string(), person: "test".to_string() };
    let on = Entry { date: "2100-01-01".to_string(), person: "test".to_string() };
    let after = Entry { date: "2100-01-02".to_string(), person: "test".to_string() };

    assert_eq!(database.add(after.clone()).unwrap().status, 201);
    assert_eq!(database.add(before.clone()).unwrap().status, 201);
    assert_eq!(database.add(on.clone()).unwrap().status, 201);

    let listed = database.get_entries(anchor, anchor + day).unwrap();
    assert_eq!(listed, vec![on.clone(), after.clone()]);
    assert!(!listed.contains(&before));

    assert!(database.delete(before.date.clone()).is_ok());
    assert!(database.delete(on.date.clone()).is_ok());
    assert!(database.delete(after.date.clone()).is_ok());

    let listed_again = database.get_entries(anchor, anchor + day).unwrap();
    assert_eq!(listed_again, Vec::<Entry>::new());
    assert_eq!(database.client.entries.len(), 0);
}
