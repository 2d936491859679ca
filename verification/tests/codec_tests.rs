use handler_lib::models::database::Ack;
use handler_lib::models::errors::StoreError;
use handler_lib::models::interfaces::Entry;
use handler_lib::models::response::{Body, Cell, Field, Outcome, Response, Row};
use handler_lib::supabase::codec::{
    decode_entry, decode_rows, encode_row, read_ack, read_listing, read_representation,
};
use handler_lib::supabase::json::{
    encode_batch, encode_entries, encode_entry, read_body, read_response,
};

fn booking(date: &str, person: &str) -> Entry {
    Entry { date: date.to_string(), person: person.to_string() }
}

fn text_cell(column: &str, text: &str) -> Cell {
    Cell { column: column.to_string(), value: Field::Text(text.to_string()) }
}

fn row(date: &str, person: &str) -> Row {
    Row { cells: vec![text_cell("date", date), text_cell("person", person)] }
}

fn reply(status: u16, body: Body) -> Outcome {
    Outcome::Reply(Response { status, body })
}

#[test]
fn an_entry_becomes_a_row_of_date_and_person() {
    assert_eq!(encode_row(&booking("2100-01-01", "test")), row("2100-01-01", "test"));
}

#[test]
fn a_row_is_read_back_as_the_entry() {
    let entry = booking("2100-01-01", "Ada Lovelace");
    assert_eq!(decode_entry(&encode_row(&entry)), Ok(entry));
}

#[test]
fn a_row_may_hold_more_columns_in_any_order() {
    let wide = Row {
        cells: vec![
            Cell { column: "id".to_string(), value: Field::Number },
            text_cell("person", "test"),
            Cell { column: "note".to_string(), value: Field::Null },
            text_cell("date", "2100-01-01"),
            Cell { column: "tags".to_string(), value: Field::Array },
        ],
    };
    assert_eq!(decode_entry(&wide), Ok(booking("2100-01-01", "test")));
}

#[test]
fn the_first_column_of_a_name_counts() {
    let twice = Row {
        cells: vec![
            text_cell("date", "2100-01-01"),
            text_cell("date", "2100-01-02"),
            text_cell("person", "test"),
        ],
    };
    assert_eq!(decode_entry(&twice), Ok(booking("2100-01-01", "test")));
    let shadowed = Row {
        cells: vec![
            Cell { column: "date".to_string(), value: Field::Null },
            text_cell("date", "2100-01-02"),
            text_cell("person", "test"),
        ],
    };
    assert_eq!(decode_entry(&shadowed), Err(StoreError::Decode));
}

#[test]
fn rows_that_are_no_entries_fail_to_decode() {
    assert_eq!(decode_entry(&Row { cells: vec![] }), Err(StoreError::Decode));
    assert_eq!(
        decode_entry(&Row { cells: vec![text_cell("date", "2100-01-01")] }),
        Err(StoreError::Decode)
    );
    assert_eq!(
        decode_entry(&Row { cells: vec![text_cell("person", "test")] }),
        Err(StoreError::Decode)
    );
    assert_eq!(decode_entry(&row("01.01.2100", "test")), Err(StoreError::Decode));
    assert_eq!(decode_entry(&row("2100-02-30", "test")), Err(StoreError::Decode));
    let numbered = Row {
        cells: vec![
            text_cell("date", "2100-01-01"),
            Cell { column: "person".to_string(), value: Field::Number },
        ],
    };
    assert_eq!(decode_entry(&numbered), Err(StoreError::Decode));
    let capital = Row { cells: vec![text_cell("Date", "2100-01-01"), text_cell("person", "x")] };
    assert_eq!(decode_entry(&capital), Err(StoreError::Decode));
}

#[test]
fn rows_decode_in_order_or_not_at_all() {
    let rows = vec![row("2100-01-02", "b"), row("2100-01-01", "a")];
    assert_eq!(
        decode_rows(&rows),
        Ok(vec![booking("2100-01-02", "b"), booking("2100-01-01", "a")])
    );
    assert_eq!(decode_rows(&vec![]), Ok(vec![]));
    let spoiled = vec![row("2100-01-02", "b"), row("soon", "a")];
    assert_eq!(decode_rows(&spoiled), Err(StoreError::Decode));
}

#[test]
fn an_entry_is_written_as_a_json_object() {
    assert_eq!(
        encode_entry(&booking("2100-01-01", "test")),
        Ok("{\"date\":\"2100-01-01\",\"person\":\"test\"}".to_string())
    );
}

#[test]
fn texts_are_escaped_as_json_asks() {
    assert_eq!(
        encode_entry(&booking("2100-01-01", "a \"b\" \\ c\n\u{1}é")),
        Ok("{\"date\":\"2100-01-01\",\"person\":\"a \\\"b\\\" \\\\ c\\n\\u0001é\"}".to_string())
    );
    assert_eq!(
        encode_entry(&booking("2100-01-01", "")),
        Ok("{\"date\":\"2100-01-01\",\"person\":\"\"}".to_string())
    );
}

#[test]
fn an_entry_without_a_calendar_date_is_not_written() {
    assert_eq!(encode_entry(&booking("tomorrow", "test")), Err(StoreError::Validation));
    assert_eq!(encode_batch(&booking("2100-13-01", "test")), Err(StoreError::Validation));
    assert_eq!(
        encode_entries(&vec![booking("2100-01-01", "a"), booking("", "b")]),
        Err(StoreError::Validation)
    );
}

#[test]
fn the_insert_body_is_an_array_of_one_object() {
    assert_eq!(
        encode_batch(&booking("2100-01-01", "test")),
        Ok("[{\"date\":\"2100-01-01\",\"person\":\"test\"}]".to_string())
    );
}

#[test]
fn entries_are_written_as_a_json_array() {
    assert_eq!(encode_entries(&vec![]), Ok("[]".to_string()));
    assert_eq!(
        encode_entries(&vec![booking("2100-01-01", "a")]),
        Ok("[{\"date\":\"2100-01-01\",\"person\":\"a\"}]".to_string())
    );
    assert_eq!(
        encode_entries(&vec![
            booking("2100-01-01", "a"),
            booking("2100-01-02", "b"),
            booking("2100-01-03", "c"),
        ]),
        Ok(concat_all(&[
            "[{\"date\":\"2100-01-01\",\"person\":\"a\"},",
            "{\"date\":\"2100-01-02\",\"person\":\"b\"},",
            "{\"date\":\"2100-01-03\",\"person\":\"c\"}]",
        ]))
    );
}

fn concat_all(parts: &[&str]) -> String {
    let mut text = String::new();
    for part in parts {
        text.push_str(part);
    }
    text
}

#[test]
fn what_is_written_is_read_back() {
    let entries = vec![booking("2100-01-01", "a \"quoted\" name"), booking("2100-01-02", "ß\t")];
    let text = encode_entries(&entries).unwrap();
    match read_body(&text) {
        Body::Array(rows) => assert_eq!(decode_rows(&rows), Ok(entries)),
        other => panic!("unexpected body {:?}", other),
    }
}

#[test]
fn a_body_is_empty_an_array_an_object_or_something_else() {
    assert_eq!(read_body(""), Body::Empty);
    assert_eq!(read_body("[]"), Body::Array(vec![]));
    assert_eq!(
        read_body("[{\"date\":\"2100-01-01\",\"person\":\"test\"}]"),
        Body::Array(vec![row("2100-01-01", "test")])
    );
    assert_eq!(
        read_body(" {\"date\": \"2100-01-01\", \"person\": \"test\"} "),
        Body::Object(row("2100-01-01", "test"))
    );
    assert_eq!(read_body("{}"), Body::Object(Row { cells: vec![] }));
    for text in [
        " ",
        "null",
        "3",
        "\"text\"",
        "[1, 2]",
        "[[]]",
        "{\"a\":\"b\"},{\"c\":\"d\"}",
        "{\"a\":\"b\"}]",
        "],[{\"a\":\"b\"}",
        "{\"date\":",
        "<html>",
    ] {
        assert_eq!(read_body(text), Body::Other, "{:?}", text);
    }
}

#[test]
fn members_that_are_no_texts_keep_their_kind() {
    let text = "[{\"a\":null,\"b\":true,\"c\":1.5,\"d\":\"x\",\"e\":[1],\"f\":{\"g\":2}}]";
    let kinds = match read_body(text) {
        Body::Array(mut rows) => {
            assert_eq!(rows.len(), 1);
            let mut cells = rows.remove(0).cells;
            cells.sort_by(|left, right| left.column.cmp(&right.column));
            cells
        }
        other => panic!("unexpected body {:?}", other),
    };
    assert_eq!(
        kinds,
        vec![
            Cell { column: "a".to_string(), value: Field::Null },
            Cell { column: "b".to_string(), value: Field::Boolean },
            Cell { column: "c".to_string(), value: Field::Number },
            text_cell("d", "x"),
            Cell { column: "e".to_string(), value: Field::Array },
            Cell { column: "f".to_string(), value: Field::Object },
        ]
    );
}

#[test]
fn a_response_is_its_status_and_its_body() {
    assert_eq!(read_response(204, ""), Response { status: 204, body: Body::Empty });
    assert_eq!(
        read_response(200, "[{\"person\":\"test\",\"date\":\"2100-01-01\"}]").status,
        200
    );
}

#[test]
fn an_acknowledgement_tolerates_every_shape_of_body() {
    assert_eq!(
        read_ack(reply(201, Body::Empty)),
        Ok(Ack { status: 201, representation: None })
    );
    assert_eq!(
        read_ack(reply(200, Body::Other)),
        Ok(Ack { status: 200, representation: None })
    );
    assert_eq!(
        read_ack(reply(201, Body::Object(row("2100-01-01", "test")))),
        Ok(Ack { status: 201, representation: Some(vec![booking("2100-01-01", "test")]) })
    );
    assert_eq!(
        read_ack(reply(201, Body::Array(vec![row("2100-01-01", "test")]))),
        Ok(Ack { status: 201, representation: Some(vec![booking("2100-01-01", "test")]) })
    );
    assert_eq!(
        read_ack(reply(200, Body::Array(vec![]))),
        Ok(Ack { status: 200, representation: Some(vec![]) })
    );
    assert_eq!(
        read_ack(reply(201, Body::Object(row("never", "test")))),
        Ok(Ack { status: 201, representation: None })
    );
    assert_eq!(
        read_ack(reply(201, Body::Array(vec![row("2100-01-01", "a"), row("never", "b")]))),
        Ok(Ack { status: 201, representation: None })
    );
}

#[test]
fn an_acknowledgement_needs_a_success_status() {
    assert_eq!(read_ack(Outcome::NoReply), Err(StoreError::Transport));
    for status in [100, 199, 300, 304, 400, 404, 409, 500, 503] {
        assert_eq!(
            read_ack(reply(status, Body::Array(vec![row("2100-01-01", "test")]))),
            Err(StoreError::Backend { status })
        );
    }
    for status in [200, 201, 204, 299] {
        assert_eq!(read_ack(reply(status, Body::Empty)).unwrap().status, status);
    }
}

#[test]
fn a_listing_needs_an_array_of_entries() {
    assert_eq!(read_listing(Outcome::NoReply), Err(StoreError::Transport));
    assert_eq!(
        read_listing(reply(500, Body::Array(vec![]))),
        Err(StoreError::Backend { status: 500 })
    );
    assert_eq!(read_listing(reply(200, Body::Empty)), Err(StoreError::Decode));
    assert_eq!(read_listing(reply(200, Body::Other)), Err(StoreError::Decode));
    assert_eq!(
        read_listing(reply(200, Body::Object(row("2100-01-01", "test")))),
        Err(StoreError::Decode)
    );
    assert_eq!(
        read_listing(reply(200, Body::Array(vec![row("2100-01-01", "a"), row("x", "b")]))),
        Err(StoreError::Decode)
    );
    assert_eq!(read_listing(reply(200, Body::Array(vec![]))), Ok(vec![]));
    assert_eq!(
        read_listing(reply(206, Body::Array(vec![row("2100-01-02", "b"), row("2100-01-01", "a")]))),
        Ok(vec![booking("2100-01-02", "b"), booking("2100-01-01", "a")])
    );
}

#[test]
fn an_echo_is_read_from_objects_and_arrays_only() {
    assert_eq!(read_representation(&Body::Empty), None);
    assert_eq!(read_representation(&Body::Other), None);
    assert_eq!(
        read_representation(&Body::Object(row("2100-01-01", "test"))),
        Some(vec![booking("2100-01-01", "test")])
    );
    assert_eq!(read_representation(&Body::Array(vec![])), Some(vec![]));
}

#[test]
fn an_object_is_framed_from_its_two_literals() {
    assert_eq!(
        handler_lib::supabase::json::frame_object("\"2100-01-01\"", "\"test\""),
        "{\"date\":\"2100-01-01\",\"person\":\"test\"}"
    );
    assert_eq!(handler_lib::supabase::json::frame_object("", ""), "{\"date\":,\"person\":}");
    assert_eq!(handler_lib::supabase::json::frame_object("1", "null"), "{\"date\":1,\"person\":null}");
}

#[test]
fn an_array_is_framed_with_commas_between_its_items() {
    let frame = handler_lib::supabase::json::frame_array;
    assert_eq!(frame(&vec![]), "[]");
    assert_eq!(frame(&vec!["{}".to_string()]), "[{}]");
    assert_eq!(frame(&vec!["1".to_string(), "2".to_string(), "3".to_string()]), "[1,2,3]");
    assert_eq!(frame(&vec!["".to_string(), "".to_string()]), "[,]");
}

#[test]
fn a_single_object_is_one_row_between_brackets() {
    let object_body = handler_lib::supabase::json::object_body;
    assert_eq!(object_body(vec![]), Body::Other);
    assert_eq!(object_body(vec![row("2100-01-01", "a")]), Body::Object(row("2100-01-01", "a")));
    assert_eq!(object_body(vec![row("2100-01-01", "a"), row("2100-01-02", "b")]), Body::Other);
}
