use handler_lib::models::errors::StoreError;
use handler_lib::models::interfaces::Entry;
use handler_lib::models::range::DateRange;
use handler_lib::models::request::{Comparison, DateFilter, Request};
use handler_lib::supabase::supabase::{build_delete, build_insert, build_select};
use handler_lib::supabase::wire::to_builder;
use postgrest::Postgrest;

/// What a built request says: method, address without the query, query
/// parameters, body.
fn sent(request: &Request) -> (String, String, Vec<(String, String)>, String) {
    let client = Postgrest::new("http://localhost:3000/rest/v1");
    let built = to_builder(&client, request).unwrap().build().build().unwrap();
    let method = built.method().as_str().to_string();
    let mut address = built.url().clone();
    address.set_query(None);
    let queries = built
        .url()
        .query_pairs()
        .map(|(name, value)| (name.into_owned(), value.into_owned()))
        .collect();
    let body = match built.body().and_then(|body| body.as_bytes()) {
        Some(bytes) => String::from_utf8(bytes.to_vec()).unwrap(),
        None => String::new(),
    };
    (method, address.as_str().to_string(), queries, body)
}

fn pair(name: &str, value: &str) -> (String, String) {
    (name.to_string(), value.to_string())
}

#[test]
fn insert_posts_an_array_of_one_entry() {
    let entry = Entry { date: "2100-01-01".to_string(), person: "test".to_string() };
    let request = build_insert(&"Bookings".to_string(), entry).unwrap();
    let (method, address, queries, body) = sent(&request);
    assert_eq!(method, "POST");
    assert_eq!(address, "http://localhost:3000/rest/v1/Bookings");
    assert_eq!(queries, vec![]);
    assert_eq!(body, "[{\"date\":\"2100-01-01\",\"person\":\"test\"}]");
}

#[test]
fn delete_filters_by_the_date() {
    let request = build_delete(&"Bookings".to_string(), "2100-01-01".to_string()).unwrap();
    let (method, address, queries, body) = sent(&request);
    assert_eq!(method, "DELETE");
    assert_eq!(address, "http://localhost:3000/rest/v1/Bookings");
    assert_eq!(queries, vec![pair("date", "eq.2100-01-01")]);
    assert_eq!(body, "");
}

#[test]
fn horizon_select_stops_before_the_upper_bound() {
    let range = DateRange::horizon("2100-01-01".to_string(), "2100-01-15".to_string()).unwrap();
    let request = build_select(&"Bookings".to_string(), &range).unwrap();
    let (method, address, queries, body) = sent(&request);
    assert_eq!(method, "GET");
    assert_eq!(address, "http://localhost:3000/rest/v1/Bookings");
    assert_eq!(
        queries,
        vec![
            pair("select", "date, person"),
            pair("date", "gte.2100-01-01"),
            pair("date", "lt.2100-01-15"),
            pair("order", "date.asc"),
        ]
    );
    assert_eq!(body, "");
}

#[test]
fn inclusive_select_reaches_the_upper_bound() {
    let range = DateRange::inclusive("2100-01-01".to_string(), "2100-01-02".to_string()).unwrap();
    let request = build_select(&"Rooms".to_string(), &range).unwrap();
    let (method, address, queries, _) = sent(&request);
    assert_eq!(method, "GET");
    assert_eq!(address, "http://localhost:3000/rest/v1/Rooms");
    assert_eq!(
        queries,
        vec![
            pair("select", "date, person"),
            pair("date", "gte.2100-01-01"),
            pair("date", "lte.2100-01-02"),
            pair("order", "date.asc"),
        ]
    );
}

#[test]
fn every_comparison_has_its_word() {
    let filters = vec![
        DateFilter { comparison: Comparison::Lte, date: "2100-01-04".to_string() },
        DateFilter { comparison: Comparison::Lt, date: "2100-01-03".to_string() },
        DateFilter { comparison: Comparison::Gte, date: "2100-01-02".to_string() },
        DateFilter { comparison: Comparison::Eq, date: "2100-01-01".to_string() },
    ];
    let request = Request::Delete { table: "Bookings".to_string(), filters };
    let (_, _, queries, _) = sent(&request);
    assert_eq!(
        queries,
        vec![
            pair("date", "lte.2100-01-04"),
            pair("date", "lt.2100-01-03"),
            pair("date", "gte.2100-01-02"),
            pair("date", "eq.2100-01-01"),
        ]
    );
    let unfiltered = Request::Select { table: "Bookings".to_string(), filters: vec![] };
    let (_, _, queries, _) = sent(&unfiltered);
    assert_eq!(queries, vec![pair("select", "date, person"), pair("order", "date.asc")]);
}

#[test]
fn insert_without_a_calendar_date_has_no_wire_form() {
    let client = Postgrest::new("http://localhost:3000");
    let entry = Entry { date: "someday".to_string(), person: "test".to_string() };
    let request = Request::Insert { table: "Bookings".to_string(), entry };
    assert_eq!(to_builder(&client, &request).err(), Some(StoreError::Validation));
}
