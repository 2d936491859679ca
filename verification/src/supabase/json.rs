//! The wire form of entries and bodies: JSON text.
//!
//! `serde_json` reads and writes the JSON; this module frames what it
//! writes and checks what it reads.

use vstd::prelude::*;
use vstd::string::*;
use crate::models::calendar::is_calendar_date;
use crate::models::calendar::is_valid_date;
use crate::models::errors::StoreError;
use crate::models::interfaces::Entry;
use crate::models::interfaces::EntryView;
use crate::models::response::Body;
use crate::models::response::BodyView;
use crate::models::response::Cell;
use crate::models::response::CellView;
use crate::models::response::Field;
use crate::models::response::Response;
use crate::models::response::ResponseView;
use crate::models::response::Row;

verus! {

/// The error type of `serde_json`. Nothing of it is read.
#[verifier::external_type_specification]
#[verifier::external_body]
pub struct ExJsonError(serde_json::Error);

/// The JSON string literal that `serde_json` writes for `text`, quotes and
/// escapes included; `None` where it refuses.
pub uninterp spec fn quoted(text: Seq<char>) -> Option<Seq<char>>;

/// The rows that `serde_json` reads from `text` as a JSON array of objects,
/// each object as its members in the order in which `serde_json` hands
/// them out; `None` where `text` is no such array.
pub uninterp spec fn json_rows(text: Seq<char>) -> Option<Seq<Seq<CellView>>>;

/// Calls `serde_json::to_string` on a `str`. The contract claims only that
/// what is written is a function of `text`, named [`quoted`].
#[verifier::external_body]
fn quote(text: &str) -> (written: Result<String, serde_json::Error>)
    ensures
        match written {
            Ok(literal) => quoted(text@) == Some(literal@),
            Err(_) => quoted(text@) is None,
        },
{
    serde_json::to_string(text)
}

/// Calls `serde_json::from_str` for a list of JSON objects and hands each
/// object out as a row: a member that is a string with its text, any other
/// member with its kind. The contract claims only that what is read is a
/// function of `text`, named [`json_rows`].
#[verifier::external_body]
fn parse_rows(text: &str) -> (read: Result<Vec<Row>, serde_json::Error>)
    ensures
        match read {
            Ok(rows) => json_rows(text@) == Some(rows.deep_view()),
            Err(_) => json_rows(text@) is None,
        },
{
    let objects = serde_json::from_str::<Vec<serde_json::Map<String, serde_json::Value>>>(text)?;
    Ok(objects.into_iter().map(|object| Row {
        cells: object.into_iter().map(|(column, value)| Cell {
            column,
            value: match value {
                serde_json::Value::String(text) => Field::Text(text),
                serde_json::Value::Null => Field::Null,
                serde_json::Value::Bool(_) => Field::Boolean,
                serde_json::Value::Number(_) => Field::Number,
                serde_json::Value::Array(_) => Field::Array,
                serde_json::Value::Object(_) => Field::Object,
            },
        }).collect(),
    }).collect())
}

/// The text of a JSON object with the members `date` and `person`, in this
/// order, whose values are the JSON literals given.
pub open spec fn object_text(date: Seq<char>, person: Seq<char>) -> Seq<char> {
    "{\"date\":"@ + date + ",\"person\":"@ + person + "}"@
}

/// The texts of `items` with a comma between each two.
pub open spec fn joined(items: Seq<Seq<char>>) -> Seq<char>
    decreases items.len(),
{
    if items.len() == 0 {
        Seq::empty()
    } else if items.len() == 1 {
        items[0]
    } else {
        joined(items.drop_last()) + ","@ + items.last()
    }
}

/// The text of a JSON array whose elements are the JSON texts given.
pub open spec fn array_text(items: Seq<Seq<char>>) -> Seq<char> {
    "["@ + joined(items) + "]"@
}

/// The JSON object that stands for `entry`: its date, then its person.
/// `None` where the date is no calendar date or a text cannot be written.
pub open spec fn entry_json(entry: EntryView) -> Option<Seq<char>> {
    if !is_calendar_date(entry.date) {
        None
    } else {
        match (quoted(entry.date), quoted(entry.person)) {
            (Some(date), Some(person)) => Some(object_text(date, person)),
            _ => None,
        }
    }
}

/// Whether every entry of `entries` has a JSON object.
pub open spec fn all_have_json(entries: Seq<EntryView>) -> bool {
    forall|i: int| 0 <= i < entries.len() ==> (#[trigger] entry_json(entries[i])) is Some
}

/// The JSON array that stands for `entries`: their JSON objects in the same
/// order. `None` where one of them has no JSON object.
pub open spec fn entries_json(entries: Seq<EntryView>) -> Option<Seq<char>> {
    if all_have_json(entries) {
        Some(array_text(Seq::new(entries.len(), |i: int| entry_json(entries[i])->0)))
    } else {
        None
    }
}

/// The body of the insert request for `entry`: a JSON array that holds the
/// JSON object of this one entry.
pub open spec fn batch_json(entry: EntryView) -> Option<Seq<char>> {
    entries_json(seq![entry])
}

/// The text in a result, or nothing for an error.
pub open spec fn text_of(result: Result<String, StoreError>) -> Option<Seq<char>> {
    match result {
        Ok(text) => Some(text@),
        Err(_) => None,
    }
}

/// Writes a JSON object with the members `date` and `person` from the JSON
/// literals of their values.
pub fn frame_object(date: &str, person: &str) -> (text: String)
    ensures
        text@ == object_text(date@, person@),
{
    let mut text = "{\"date\":".to_owned();
    text.append(date);
    text.append(",\"person\":");
    text.append(person);
    text.append("}");
    text
}

/// Writes a JSON array from the JSON texts of its elements.
pub fn frame_array(items: &Vec<String>) -> (text: String)
    ensures
        text@ == array_text(items.deep_view()),
{
    let ghost all = items.deep_view();
    let mut text = "[".to_owned();
    let mut i: usize = 0;
    while i < items.len()
        invariant
            i <= items.len(),
            all == items.deep_view(),
            text@ == "["@ + joined(all.take(i as int)),
        decreases items.len() - i,
    {
        proof {
            assert(all.take(i + 1).drop_last() =~= all.take(i as int));
            assert(all.take(i + 1).last() == items[i as int]@);
            assert(all.take(i + 1)[0] == all[0]);
        }
        if i > 0 {
            text.append(",");
        }
        text.append(items[i].as_str());
        assert(text@ =~= "["@ + joined(all.take(i + 1)));
        i = i + 1;
    }
    proof {
        assert(all.take(i as int) =~= all);
    }
    text.append("]");
    text
}

/// Writes the JSON object that stands for `entry`.
///
/// Fails with [`StoreError::Validation`] exactly when [`entry_json`] has
/// none: the date is no calendar date, or `serde_json` refuses a text.
pub fn encode_entry(entry: &Entry) -> (written: Result<String, StoreError>)
    ensures
        text_of(written) == entry_json(entry@),
        written matches Err(error) ==> error == StoreError::Validation,
{
    if !is_valid_date(entry.date.as_str()) {
        return Err(StoreError::Validation);
    }
    match (quote(entry.date.as_str()), quote(entry.person.as_str())) {
        (Ok(date), Ok(person)) => Ok(frame_object(date.as_str(), person.as_str())),
        _ => Err(StoreError::Validation),
    }
}

/// Writes the JSON array that stands for `entries`.
///
/// Fails with [`StoreError::Validation`] exactly when [`entries_json`] has
/// none: one of the entries has no JSON object.
pub fn encode_entries(entries: &Vec<Entry>) -> (written: Result<String, StoreError>)
    ensures
        text_of(written) == entries_json(entries.deep_view()),
        written matches Err(error) ==> error == StoreError::Validation,
{
    let ghost all = entries.deep_view();
    let mut objects: Vec<String> = Vec::new();
    let mut i: usize = 0;
    while i < entries.len()
        invariant
            i <= entries.len(),
            all == entries.deep_view(),
            objects.len() == i,
            forall|j: int| 0 <= j < i ==> #[trigger] entry_json(all[j]) == Some(objects[j]@),
        decreases entries.len() - i,
    {
        match encode_entry(&entries[i]) {
            Ok(object) => {
                objects.push(object);
            },
            Err(error) => {
                assert(entry_json(all[i as int]) is None);
                return Err(error);
            },
        }
        i = i + 1;
    }
    proof {
        assert(all_have_json(all));
        assert(objects.deep_view() =~= Seq::new(all.len(), |i: int| entry_json(all[i])->0));
    }
    Ok(frame_array(&objects))
}

/// Writes the body of the insert request for `entry`: a JSON array of one
/// object.
///
/// Fails with [`StoreError::Validation`] exactly when [`batch_json`] has
/// none: the date of the entry is no calendar date, or `serde_json` refuses
/// a text.
pub fn encode_batch(entry: &Entry) -> (written: Result<String, StoreError>)
    ensures
        text_of(written) == batch_json(entry@),
        written matches Err(error) ==> error == StoreError::Validation,
{
    let ghost one = seq![entry@];
    match encode_entry(entry) {
        Ok(object) => {
            let mut objects: Vec<String> = Vec::new();
            objects.push(object);
            proof {
                assert(entry_json(one[0]) is Some);
                assert(all_have_json(one));
                assert(objects.deep_view() =~= Seq::new(one.len(), |i: int| entry_json(one[i])->0));
            }
            Ok(frame_array(&objects))
        },
        Err(error) => {
            assert(entry_json(one[0]) is None);
            Err(error)
        },
    }
}

/// The body that a text stands for which, put between brackets, reads as
/// `rows`: the single object where there is exactly one row, and
/// [`BodyView::Other`] else.
pub open spec fn single_object(rows: Seq<Seq<CellView>>) -> BodyView {
    if rows.len() == 1 {
        BodyView::Object(rows[0])
    } else {
        BodyView::Other
    }
}

/// The body that `text` stands for: nothing for an empty text, the rows of a
/// JSON array of objects, the row of a single JSON object, and
/// [`BodyView::Other`] for any other text. A single object is read as the
/// one element of the array that its text makes between brackets.
pub open spec fn body_of_text(text: Seq<char>) -> BodyView {
    if text.len() == 0 {
        BodyView::Empty
    } else {
        match json_rows(text) {
            Some(rows) => BodyView::Array(rows),
            None => match json_rows("["@ + text + "]"@) {
                Some(rows) => single_object(rows),
                None => BodyView::Other,
            },
        }
    }
}

/// Makes the body of a text that is no JSON array by itself from the rows
/// that it reads as between brackets.
pub fn object_body(rows: Vec<Row>) -> (body: Body)
    ensures
        body@ == single_object(rows.deep_view()),
{
    let mut rows = rows;
    if rows.len() == 1 {
        let ghost first = rows.deep_view()[0];
        let row = rows.remove(0);
        assert(row@ == first);
        Body::Object(row)
    } else {
        Body::Other
    }
}

/// Reads the body of a response from its text.
pub fn read_body(text: &str) -> (body: Body)
    ensures
        body@ == body_of_text(text@),
{
    if text.unicode_len() == 0 {
        return Body::Empty;
    }
    match parse_rows(text) {
        Ok(rows) => Body::Array(rows),
        Err(_) => {
            let mut framed = "[".to_owned();
            framed.append(text);
            framed.append("]");
            match parse_rows(framed.as_str()) {
                Ok(rows) => object_body(rows),
                Err(_) => Body::Other,
            }
        },
    }
}

/// Reads a response from the status and the text of its body.
pub fn read_response(status: u16, text: &str) -> (response: Response)
    ensures
        response@ == (ResponseView { status, body: body_of_text(text@) }),
{
    Response { status, body: read_body(text) }
}

} // verus!
