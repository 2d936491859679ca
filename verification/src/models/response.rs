//! What the remote store sends back: a status and a body of rows.

use vstd::prelude::*;

verus! {

/// The value of one column of a row, as far as the library reads it: a text
/// is carried whole, of any other JSON value only its kind.
#[derive(Debug, PartialEq, Eq)]
pub enum Field {
    Text(String),
    Null,
    Boolean,
    Number,
    Array,
    Object,
}

/// What a [`Field`] holds, as mathematical values.
pub enum FieldView {
    Text(Seq<char>),
    Null,
    Boolean,
    Number,
    Array,
    Object,
}

impl View for Field {
    type V = FieldView;

    open spec fn view(&self) -> FieldView {
        match self {
            Field::Text(text) => FieldView::Text(text@),
            Field::Null => FieldView::Null,
            Field::Boolean => FieldView::Boolean,
            Field::Number => FieldView::Number,
            Field::Array => FieldView::Array,
            Field::Object => FieldView::Object,
        }
    }
}

/// One named column of a row.
#[derive(Debug, PartialEq, Eq)]
pub struct Cell {
    pub column: String,
    pub value: Field,
}

/// What a [`Cell`] holds, as mathematical values.
pub struct CellView {
    pub column: Seq<char>,
    pub value: FieldView,
}

impl View for Cell {
    type V = CellView;

    open spec fn view(&self) -> CellView {
        CellView { column: self.column@, value: self.value@ }
    }
}

impl DeepView for Cell {
    type V = CellView;

    open spec fn deep_view(&self) -> CellView {
        self@
    }
}

/// One row of a table: its columns in the order in which they were read.
#[derive(Debug, PartialEq, Eq)]
pub struct Row {
    pub cells: Vec<Cell>,
}

impl View for Row {
    type V = Seq<CellView>;

    open spec fn view(&self) -> Seq<CellView> {
        self.cells.deep_view()
    }
}

impl DeepView for Row {
    type V = Seq<CellView>;

    open spec fn deep_view(&self) -> Seq<CellView> {
        self@
    }
}

/// The body of a response, in the shapes that the remote store uses.
#[derive(Debug, PartialEq, Eq)]
pub enum Body {
    /// No body at all.
    Empty,
    /// A single JSON object.
    Object(Row),
    /// A JSON array of objects.
    Array(Vec<Row>),
    /// Anything else.
    Other,
}

/// What a [`Body`] holds, as mathematical values.
pub enum BodyView {
    Empty,
    Object(Seq<CellView>),
    Array(Seq<Seq<CellView>>),
    Other,
}

impl View for Body {
    type V = BodyView;

    open spec fn view(&self) -> BodyView {
        match self {
            Body::Empty => BodyView::Empty,
            Body::Object(row) => BodyView::Object(row@),
            Body::Array(rows) => BodyView::Array(rows.deep_view()),
            Body::Other => BodyView::Other,
        }
    }
}

/// The answer of the remote store to one request.
#[derive(Debug, PartialEq, Eq)]
pub struct Response {
    /// The HTTP status of the answer.
    pub status: u16,
    pub body: Body,
}

/// What a [`Response`] holds, as mathematical values.
pub struct ResponseView {
    pub status: u16,
    pub body: BodyView,
}

impl View for Response {
    type V = ResponseView;

    open spec fn view(&self) -> ResponseView {
        ResponseView { status: self.status, body: self.body@ }
    }
}

/// How one call to the remote store ended.
#[derive(Debug, PartialEq, Eq)]
pub enum Outcome {
    /// The call could not be completed: no answer came back.
    NoReply,
    /// The remote store answered.
    Reply(Response),
}

/// What an [`Outcome`] holds, as mathematical values.
pub enum OutcomeView {
    NoReply,
    Reply(ResponseView),
}

impl View for Outcome {
    type V = OutcomeView;

    open spec fn view(&self) -> OutcomeView {
        match self {
            Outcome::NoReply => OutcomeView::NoReply,
            Outcome::Reply(response) => OutcomeView::Reply(response@),
        }
    }
}

/// Whether `status` is an HTTP success status, 200 to 299.
pub open spec fn is_success(status: u16) -> bool {
    200 <= status <= 299
}

/// Whether `status` is an HTTP success status, 200 to 299.
pub fn status_is_success(status: u16) -> (success: bool)
    ensures
        success == is_success(status),
{
    200 <= status && status <= 299
}

} // verus!
