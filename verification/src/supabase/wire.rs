//! Requests in the form that the remote store takes: the PostgREST filter
//! protocol, built with the `postgrest` client.
//!
//! An insert posts a JSON array that holds one entry. A delete names the
//! rows by `date=eq.<date>`. A select asks for the columns `date, person`
//! of the rows with `date=gte.<from>` and `date=lt.<to>` (or `lte.<to>`),
//! ordered by `date.asc`.

use vstd::prelude::*;
use vstd::string::*;
use crate::models::errors::StoreError;
use crate::models::request::Comparison;
use crate::models::request::DateFilter;
use crate::models::request::DateFilterView;
use crate::models::request::Request;
use crate::models::request::RequestView;
use crate::supabase::json::batch_json;
use crate::supabase::json::encode_batch;

verus! {

/// The client of `postgrest`: it knows where the remote store is. Nothing
/// of it is read but through [`endpoint_of`].
#[verifier::external_type_specification]
#[verifier::external_body]
pub struct ExPostgrest(postgrest::Postgrest);

/// The request builder of `postgrest`. Nothing of it is read but through
/// [`wire_of`].
#[verifier::external_type_specification]
#[verifier::external_body]
pub struct ExBuilder(postgrest::Builder);

/// The HTTP method of a request.
#[derive(Clone, Copy, Debug, PartialEq, Eq, Structural)]
pub enum Method {
    Get,
    Post,
    Delete,
}

/// What a request to the remote store says on the wire.
pub struct WireView {
    pub method: Method,
    /// Where the request goes: the address of the table.
    pub url: Seq<char>,
    /// The query parameters, in order: names and values.
    pub queries: Seq<(Seq<char>, Seq<char>)>,
    /// The body, where there is one.
    pub body: Option<Seq<char>>,
}

/// The base address that a `postgrest` client was made with.
pub uninterp spec fn endpoint_of(client: postgrest::Postgrest) -> Seq<char>;

/// What a `postgrest` builder holds of the request that it will send: its
/// method, address, query parameters and body. Its headers are left out.
pub uninterp spec fn wire_of(builder: postgrest::Builder) -> WireView;

/// The request with one more query parameter at the end.
pub open spec fn with_query(wire: WireView, name: Seq<char>, value: Seq<char>) -> WireView {
    WireView { queries: wire.queries.push((name, value)), ..wire }
}

/// Calls `Postgrest::from`: a new builder for a GET of the table's address,
/// which is the client's base address, a slash and the table's name, with
/// no query parameter and no body.
#[verifier::external_body]
fn begin(client: &postgrest::Postgrest, table: &str) -> (builder: postgrest::Builder)
    ensures
        wire_of(builder) == (WireView {
            method: Method::Get,
            url: endpoint_of(*client) + "/"@ + table@,
            queries: Seq::empty(),
            body: None,
        }),
{
    client.from(table)
}

/// Calls `Builder::select`: adds the query parameter `select` with the
/// columns as its value.
#[verifier::external_body]
fn select(builder: postgrest::Builder, columns: &str) -> (next: postgrest::Builder)
    ensures
        wire_of(next) == with_query(wire_of(builder), "select"@, columns@),
{
    builder.select(columns)
}

/// Calls `Builder::order`: adds the query parameter `order` with the
/// columns as its value.
#[verifier::external_body]
fn order(builder: postgrest::Builder, columns: &str) -> (next: postgrest::Builder)
    ensures
        wire_of(next) == with_query(wire_of(builder), "order"@, columns@),
{
    builder.order(columns)
}

/// Calls `Builder::insert`: the method becomes POST and `body` the body.
#[verifier::external_body]
fn insert(builder: postgrest::Builder, body: String) -> (next: postgrest::Builder)
    ensures
        wire_of(next) == (WireView { method: Method::Post, body: Some(body@), ..wire_of(builder) }),
{
    builder.insert(body)
}

/// Calls `Builder::delete`: the method becomes DELETE.
#[verifier::external_body]
fn delete(builder: postgrest::Builder) -> (next: postgrest::Builder)
    ensures
        wire_of(next) == (WireView { method: Method::Delete, ..wire_of(builder) }),
{
    builder.delete()
}

/// Calls `Builder::eq`: adds the query parameter `column` with the value
/// `eq.` and the filter.
#[verifier::external_body]
fn eq(builder: postgrest::Builder, column: &str, filter: &str) -> (next: postgrest::Builder)
    ensures
        wire_of(next) == with_query(wire_of(builder), column@, "eq."@ + filter@),
{
    builder.eq(column, filter)
}

/// Calls `Builder::gte`: adds the query parameter `column` with the value
/// `gte.` and the filter.
#[verifier::external_body]
fn gte(builder: postgrest::Builder, column: &str, filter: &str) -> (next: postgrest::Builder)
    ensures
        wire_of(next) == with_query(wire_of(builder), column@, "gte."@ + filter@),
{
    builder.gte(column, filter)
}

/// Calls `Builder::lt`: adds the query parameter `column` with the value
/// `lt.` and the filter.
#[verifier::external_body]
fn lt(builder: postgrest::Builder, column: &str, filter: &str) -> (next: postgrest::Builder)
    ensures
        wire_of(next) == with_query(wire_of(builder), column@, "lt."@ + filter@),
{
    builder.lt(column, filter)
}

/// Calls `Builder::lte`: adds the query parameter `column` with the value
/// `lte.` and the filter.
#[verifier::external_body]
fn lte(builder: postgrest::Builder, column: &str, filter: &str) -> (next: postgrest::Builder)
    ensures
        wire_of(next) == with_query(wire_of(builder), column@, "lte."@ + filter@),
{
    builder.lte(column, filter)
}

/// The word of the filter protocol for a comparison, with its dot.
pub open spec fn comparison_prefix(comparison: Comparison) -> Seq<char> {
    match comparison {
        Comparison::Eq => "eq."@,
        Comparison::Gte => "gte."@,
        Comparison::Lt => "lt."@,
        Comparison::Lte => "lte."@,
    }
}

/// The query parameter of a filter: the column `date`, and the word of the
/// comparison followed by the date.
pub open spec fn filter_query(filter: DateFilterView) -> (Seq<char>, Seq<char>) {
    ("date"@, comparison_prefix(filter.comparison) + filter.date)
}

/// The query parameters of `filters`, in the same order.
pub open spec fn filter_queries(filters: Seq<DateFilterView>) -> Seq<(Seq<char>, Seq<char>)> {
    Seq::new(filters.len(), |i: int| filter_query(filters[i]))
}

/// What `request` says on the wire to a remote store at the base address
/// `base`. An insert whose entry has no JSON has no wire form.
pub open spec fn wire_form(base: Seq<char>, request: RequestView) -> Option<WireView> {
    match request {
        RequestView::Insert { table, entry } => match batch_json(entry) {
            Some(body) => Some(
                WireView {
                    method: Method::Post,
                    url: base + "/"@ + table,
                    queries: Seq::empty(),
                    body: Some(body),
                },
            ),
            None => None,
        },
        RequestView::Delete { table, filters } => Some(
            WireView {
                method: Method::Delete,
                url: base + "/"@ + table,
                queries: filter_queries(filters),
                body: None,
            },
        ),
        RequestView::Select { table, filters } => Some(
            WireView {
                method: Method::Get,
                url: base + "/"@ + table,
                queries: seq![("select"@, "date, person"@)] + filter_queries(filters) + seq![
                    ("order"@, "date.asc"@),
                ],
                body: None,
            },
        ),
    }
}

/// Adds the query parameters of `filters` to `builder`, in order.
fn add_filters(builder: postgrest::Builder, filters: &Vec<DateFilter>) -> (next: postgrest::Builder)
    ensures
        wire_of(next) == (WireView {
            queries: wire_of(builder).queries + filter_queries(filters.deep_view()),
            ..wire_of(builder)
        }),
{
    let ghost start = wire_of(builder);
    let ghost all = filter_queries(filters.deep_view());
    let mut current = builder;
    let mut i: usize = 0;
    assert(start.queries + all.take(0) =~= start.queries);
    while i < filters.len()
        invariant
            i <= filters.len(),
            all == filter_queries(filters.deep_view()),
            wire_of(current) == (WireView {
                queries: start.queries + all.take(i as int),
                ..start
            }),
        decreases filters.len() - i,
    {
        let date = filters[i].date.as_str();
        let ghost before = wire_of(current);
        current = match filters[i].comparison {
            Comparison::Eq => eq(current, "date", date),
            Comparison::Gte => gte(current, "date", date),
            Comparison::Lt => lt(current, "date", date),
            Comparison::Lte => lte(current, "date", date),
        };
        proof {
            assert(wire_of(current) == with_query(before, all[i as int].0, all[i as int].1));
            assert(start.queries + all.take(i + 1) =~= (start.queries + all.take(i as int)).push(
                all[i as int],
            ));
        }
        i = i + 1;
    }
    assert(all.take(i as int) =~= all);
    current
}

/// Builds the `postgrest` request that says what `request` says.
///
/// Fails with [`StoreError::Validation`] exactly when `request` has no wire
/// form: it is an insert of an entry that has no JSON.
pub fn to_builder(client: &postgrest::Postgrest, request: &Request) -> (built: Result<
    postgrest::Builder,
    StoreError,
>)
    ensures
        match built {
            Ok(builder) => wire_form(endpoint_of(*client), request@) == Some(wire_of(builder)),
            Err(error) => error == StoreError::Validation && wire_form(
                endpoint_of(*client),
                request@,
            ) is None,
        },
{
    match request {
        Request::Insert { table, entry } => {
            match encode_batch(entry) {
                Ok(body) => Ok(insert(begin(client, table.as_str()), body)),
                Err(_) => Err(StoreError::Validation),
            }
        },
        Request::Delete { table, filters } => {
            let builder = add_filters(delete(begin(client, table.as_str())), filters);
            assert(wire_of(builder).queries =~= filter_queries(filters.deep_view()));
            Ok(builder)
        },
        Request::Select { table, filters } => {
            let chosen = select(begin(client, table.as_str()), "date, person");
            let filtered = add_filters(chosen, filters);
            let builder = order(filtered, "date.asc");
            assert(wire_of(builder).queries =~= seq![("select"@, "date, person"@)]
                + filter_queries(filters.deep_view()) + seq![("order"@, "date.asc"@)]);
            Ok(builder)
        },
    }
}

} // verus!
