//! The entry codec: entries as rows of the remote store, and back.

use vstd::prelude::*;
use vstd::string::*;
use crate::models::calendar::is_calendar_date;
use crate::models::calendar::is_valid_date;
use crate::models::database::Ack;
use crate::models::database::AckView;
use crate::models::errors::StoreError;
use crate::models::interfaces::Entry;
use crate::models::interfaces::EntryView;
use crate::models::response::Body;
use crate::models::response::BodyView;
use crate::models::response::Cell;
use crate::models::response::CellView;
use crate::models::response::Field;
use crate::models::response::FieldView;
use crate::models::response::Outcome;
use crate::models::response::OutcomeView;
use crate::models::response::Row;
use crate::models::response::is_success;
use crate::models::response::status_is_success;

verus! {

/// The name of the column that holds the date of an entry.
pub open spec fn date_column() -> Seq<char> {
    "date"@
}

/// The name of the column that holds the person of an entry.
pub open spec fn person_column() -> Seq<char> {
    "person"@
}

/// The value of the first cell of `row` at or after `start` that is named
/// `column`, if there is one.
pub open spec fn cell_value_from(row: Seq<CellView>, column: Seq<char>, start: int) -> Option<
    FieldView,
>
    decreases row.len() - start,
{
    if start < 0 || start >= row.len() {
        None
    } else if row[start].column == column {
        Some(row[start].value)
    } else {
        cell_value_from(row, column, start + 1)
    }
}

/// The value of the first cell of `row` that is named `column`.
pub open spec fn cell_value(row: Seq<CellView>, column: Seq<char>) -> Option<FieldView> {
    cell_value_from(row, column, 0)
}

/// The row that stands for `entry` on the wire: its date, then its person.
pub open spec fn row_of_entry(entry: EntryView) -> Seq<CellView> {
    seq![
        CellView { column: date_column(), value: FieldView::Text(entry.date) },
        CellView { column: person_column(), value: FieldView::Text(entry.person) },
    ]
}

/// The entry that `row` stands for: its `date` and `person` columns are
/// texts, and the date is a calendar date. `None` for any other row.
pub open spec fn entry_of_row(row: Seq<CellView>) -> Option<EntryView> {
    match (cell_value(row, date_column()), cell_value(row, person_column())) {
        (Some(FieldView::Text(date)), Some(FieldView::Text(person))) => {
            if is_calendar_date(date) {
                Some(EntryView { date, person })
            } else {
                None
            }
        },
        _ => None,
    }
}

/// Whether every row of `rows` stands for an entry.
pub open spec fn all_rows_decode(rows: Seq<Seq<CellView>>) -> bool {
    forall|i: int| 0 <= i < rows.len() ==> (#[trigger] entry_of_row(rows[i])) is Some
}

/// The entries that `rows` stand for, in the same order, if every row stands
/// for one.
pub open spec fn entries_of_rows(rows: Seq<Seq<CellView>>) -> Option<Seq<EntryView>> {
    if all_rows_decode(rows) {
        Some(Seq::new(rows.len(), |i: int| entry_of_row(rows[i])->0))
    } else {
        None
    }
}

/// The rows that stand for `entries`, in the same order.
pub open spec fn rows_of_entries(entries: Seq<EntryView>) -> Seq<Seq<CellView>> {
    Seq::new(entries.len(), |i: int| row_of_entry(entries[i]))
}

/// The two column names differ, and a date column is never a person column.
pub proof fn lemma_column_names()
    ensures
        date_column() != person_column(),
        date_column().len() == 4,
        person_column().len() == 6,
{
    reveal_strlit("date");
    reveal_strlit("person");
    assert(date_column().len() == 4);
    assert(person_column().len() == 6);
}

/// An entry with a calendar date is read back unchanged from the row that
/// stands for it.
pub proof fn lemma_row_round_trip(entry: EntryView)
    requires
        is_calendar_date(entry.date),
    ensures
        entry_of_row(row_of_entry(entry)) == Some(entry),
{
    lemma_column_names();
    let row = row_of_entry(entry);
    assert(cell_value_from(row, person_column(), 1) == Some(FieldView::Text(entry.person)));
    assert(cell_value_from(row, date_column(), 0) == Some(FieldView::Text(entry.date)));
}

/// Entries with calendar dates are read back unchanged from the rows that
/// stand for them.
pub proof fn lemma_rows_round_trip(entries: Seq<EntryView>)
    requires
        forall|i: int|
            0 <= i < entries.len() ==> is_calendar_date(#[trigger] entries[i].date),
    ensures
        entries_of_rows(rows_of_entries(entries)) == Some(entries),
{
    let rows = rows_of_entries(entries);
    assert forall|i: int| 0 <= i < rows.len() implies (#[trigger] entry_of_row(rows[i])) == Some(
        entries[i],
    ) by {
        lemma_row_round_trip(entries[i]);
    }
    assert(entries_of_rows(rows)->0 =~= entries);
}

/// Finds the first cell of `row` that is named `column`.
fn find_cell<'a>(row: &'a Row, column: &String) -> (found: Option<&'a Field>)
    ensures
        match found {
            Some(value) => cell_value(row@, column@) == Some(value@),
            None => cell_value(row@, column@) is None,
        },
{
    let mut i: usize = 0;
    while i < row.cells.len()
        invariant
            i <= row.cells.len(),
            cell_value(row@, column@) == cell_value_from(row@, column@, i as int),
        decreases row.cells.len() - i,
    {
        if row.cells[i].column == *column {
            return Some(&row.cells[i].value);
        }
        i = i + 1;
    }
    None
}

/// Builds the row that stands for `entry`.
pub fn encode_row(entry: &Entry) -> (row: Row)
    ensures
        row@ == row_of_entry(entry@),
{
    let mut cells: Vec<Cell> = Vec::new();
    cells.push(Cell { column: "date".to_owned(), value: Field::Text(entry.date.clone()) });
    cells.push(Cell { column: "person".to_owned(), value: Field::Text(entry.person.clone()) });
    let row = Row { cells };
    assert(row@ =~= row_of_entry(entry@));
    row
}

/// Reads the entry that `row` stands for.
///
/// Fails with [`StoreError::Decode`] exactly when the row stands for none:
/// a `date` or `person` column is missing or is no text, or the date is no
/// calendar date.
pub fn decode_entry(row: &Row) -> (decoded: Result<Entry, StoreError>)
    ensures
        match decoded {
            Ok(entry) => entry_of_row(row@) == Some(entry@),
            Err(error) => error == StoreError::Decode && entry_of_row(row@) is None,
        },
{
    let date_name = "date".to_owned();
    let person_name = "person".to_owned();
    match (find_cell(row, &date_name), find_cell(row, &person_name)) {
        (Some(Field::Text(date)), Some(Field::Text(person))) => {
            if is_valid_date(date.as_str()) {
                Ok(Entry { date: date.clone(), person: person.clone() })
            } else {
                Err(StoreError::Decode)
            }
        },
        _ => Err(StoreError::Decode),
    }
}

/// Reads the entries that `rows` stand for, in the same order.
///
/// Fails with [`StoreError::Decode`] exactly when some row stands for no
/// entry.
pub fn decode_rows(rows: &Vec<Row>) -> (decoded: Result<Vec<Entry>, StoreError>)
    ensures
        match decoded {
            Ok(entries) => entries_of_rows(rows.deep_view()) == Some(entries.deep_view()),
            Err(error) => error == StoreError::Decode && entries_of_rows(rows.deep_view()) is None,
        },
{
    let mut entries: Vec<Entry> = Vec::new();
    let mut i: usize = 0;
    while i < rows.len()
        invariant
            i <= rows.len(),
            entries.len() == i,
            forall|j: int|
                0 <= j < i ==> entry_of_row(#[trigger] rows.deep_view()[j]) == Some(entries[j]@),
        decreases rows.len() - i,
    {
        match decode_entry(&rows[i]) {
            Ok(entry) => {
                entries.push(entry);
            },
            Err(error) => {
                assert(entry_of_row(rows.deep_view()[i as int]) is None);
                return Err(error);
            },
        }
        i = i + 1;
    }
    assert(all_rows_decode(rows.deep_view()));
    assert(entries_of_rows(rows.deep_view())->0 =~= entries.deep_view());
    Ok(entries)
}

/// The entries that the body of an acknowledgement echoes: those of a single
/// object or of an array, where every row stands for an entry. A body that
/// is empty or has another shape echoes nothing.
pub open spec fn representation_of(body: BodyView) -> Option<Seq<EntryView>> {
    match body {
        BodyView::Object(row) => match entry_of_row(row) {
            Some(entry) => Some(seq![entry]),
            None => None,
        },
        BodyView::Array(rows) => entries_of_rows(rows),
        _ => None,
    }
}

/// What `add` and `delete` return for each outcome of their call: the
/// transport error where no answer came, the backend error for an answer
/// with a status outside 200 to 299, and else the acknowledgement.
pub open spec fn ack_of(outcome: OutcomeView) -> Result<AckView, StoreError> {
    match outcome {
        OutcomeView::NoReply => Err(StoreError::Transport),
        OutcomeView::Reply(response) => if is_success(response.status) {
            Ok(AckView { status: response.status, representation: representation_of(response.body) })
        } else {
            Err(StoreError::Backend { status: response.status })
        },
    }
}

/// What a range query returns for each outcome of its call: the transport
/// error where no answer came, the backend error for an answer with a
/// status outside 200 to 299, the decode error for a body that is no array
/// of entries, and else the entries in the order of the body.
pub open spec fn listing_of(outcome: OutcomeView) -> Result<Seq<EntryView>, StoreError> {
    match outcome {
        OutcomeView::NoReply => Err(StoreError::Transport),
        OutcomeView::Reply(response) => if !is_success(response.status) {
            Err(StoreError::Backend { status: response.status })
        } else {
            match response.body {
                BodyView::Array(rows) => match entries_of_rows(rows) {
                    Some(entries) => Ok(entries),
                    None => Err(StoreError::Decode),
                },
                _ => Err(StoreError::Decode),
            }
        },
    }
}

/// The view of an acknowledgement or the error in its place.
pub open spec fn ack_result_view(result: Result<Ack, StoreError>) -> Result<AckView, StoreError> {
    match result {
        Ok(ack) => Ok(ack@),
        Err(error) => Err(error),
    }
}

/// The view of a list of entries or the error in its place.
pub open spec fn listing_result_view(result: Result<Vec<Entry>, StoreError>) -> Result<
    Seq<EntryView>,
    StoreError,
> {
    match result {
        Ok(entries) => Ok(entries.deep_view()),
        Err(error) => Err(error),
    }
}

/// Reads the entries that the body of an acknowledgement echoes.
pub fn read_representation(body: &Body) -> (echoed: Option<Vec<Entry>>)
    ensures
        echoed.deep_view() == representation_of(body@),
{
    match body {
        Body::Object(row) => match decode_entry(row) {
            Ok(entry) => {
                let mut entries: Vec<Entry> = Vec::new();
                entries.push(entry);
                assert(entries.deep_view() =~= seq![entry@]);
                Some(entries)
            },
            Err(_) => None,
        },
        Body::Array(rows) => match decode_rows(rows) {
            Ok(entries) => Some(entries),
            Err(_) => None,
        },
        _ => None,
    }
}

/// Turns the outcome of an insert or delete call into what `add` and
/// `delete` return.
pub fn read_ack(outcome: Outcome) -> (result: Result<Ack, StoreError>)
    ensures
        ack_result_view(result) == ack_of(outcome@),
{
    match outcome {
        Outcome::NoReply => Err(StoreError::Transport),
        Outcome::Reply(response) => {
            if status_is_success(response.status) {
                let representation = read_representation(&response.body);
                Ok(Ack { status: response.status, representation })
            } else {
                Err(StoreError::Backend { status: response.status })
            }
        },
    }
}

/// Turns the outcome of a select call into what a range query returns.
pub fn read_listing(outcome: Outcome) -> (result: Result<Vec<Entry>, StoreError>)
    ensures
        listing_result_view(result) == listing_of(outcome@),
{
    match outcome {
        Outcome::NoReply => Err(StoreError::Transport),
        Outcome::Reply(response) => {
            if !status_is_success(response.status) {
                return Err(StoreError::Backend { status: response.status });
            }
            match response.body {
                Body::Array(rows) => decode_rows(&rows),
                _ => Err(StoreError::Decode),
            }
        },
    }
}

} // verus!
