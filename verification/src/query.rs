//! Statements and the values bound to them.
//!
//! A request reaches the database as the text of a statement and a list of
//! arguments, one for each numbered placeholder of the text. No value of a
//! request is ever written into the text: the only part of a page statement
//! that depends on the request is the direction keyword behind `ORDER BY`.

use crate::pagination::{PaginationParameters, SortDirection};
use vstd::prelude::*;
use vstd::string::*;

verus! {

/// A value bound to a placeholder. `None` binds SQL's `NULL`.
#[derive(Clone, Debug, PartialEq, Eq)]
pub enum SqlValue {
    Boolean(Option<bool>),
    SmallInt(Option<i16>),
    Integer(Option<i32>),
    BigInt(Option<i64>),
    Text(Option<String>),
}

/// What a [`SqlValue`] holds.
pub enum SqlArgument {
    Boolean(Option<bool>),
    SmallInt(Option<i16>),
    Integer(Option<i32>),
    BigInt(Option<i64>),
    Text(Option<Seq<char>>),
}

/// The characters of an optional text.
pub open spec fn text_of(text: Option<String>) -> Option<Seq<char>> {
    match text {
        Some(text) => Some(text@),
        None => None,
    }
}

impl View for SqlValue {
    type V = SqlArgument;

    open spec fn view(&self) -> SqlArgument {
        match self {
            SqlValue::Boolean(value) => SqlArgument::Boolean(*value),
            SqlValue::SmallInt(value) => SqlArgument::SmallInt(*value),
            SqlValue::Integer(value) => SqlArgument::Integer(*value),
            SqlValue::BigInt(value) => SqlArgument::BigInt(*value),
            SqlValue::Text(value) => SqlArgument::Text(text_of(*value)),
        }
    }
}

/// What a sequence of values holds.
pub open spec fn arguments_of(values: Seq<SqlValue>) -> Seq<SqlArgument> {
    values.map_values(|value: SqlValue| value@)
}

/// A statement ready to be run: its text, and the arguments for the
/// placeholders `$1`, `$2`, ... in this order.
#[derive(Clone, Debug, PartialEq, Eq)]
pub struct Query {
    pub statement: String,
    pub arguments: Vec<SqlValue>,
}

/// The text and the arguments of a [`Query`].
pub struct Statement {
    pub text: Seq<char>,
    pub arguments: Seq<SqlArgument>,
}

impl View for Query {
    type V = Statement;

    open spec fn view(&self) -> Statement {
        Statement { text: self.statement@, arguments: arguments_of(self.arguments@) }
    }
}

/// The arguments of a page statement: the two cursors come first, then the
/// arguments of the filters, and last the number of rows to return, which is
/// one more than the limit.
pub open spec fn page_arguments(parameters: PaginationParameters, filters: Seq<SqlArgument>) -> Seq<
    SqlArgument,
> {
    seq![SqlArgument::Integer(parameters.before), SqlArgument::Integer(parameters.after)] + filters
        + seq![SqlArgument::BigInt(Some(parameters.lookahead() as i64))]
}

/// The text of a page statement: the direction keyword between the two parts
/// of the collection's template.
pub open spec fn page_text(template: (Seq<char>, Seq<char>), direction: SortDirection) -> Seq<
    char,
> {
    template.0 + direction.keyword_text() + template.1
}

/// The page statement of a request, given the template of its collection and
/// the arguments of its filters.
pub open spec fn page_statement(
    template: (Seq<char>, Seq<char>),
    parameters: PaginationParameters,
    filters: Seq<SqlArgument>,
) -> Statement {
    Statement {
        text: page_text(template, parameters.direction()),
        arguments: page_arguments(parameters, filters),
    }
}

/// The text of a page statement depends on the request only through the
/// direction of its scan: neither a cursor, nor the limit, nor the value of a
/// filter is ever part of it.
pub proof fn lemma_text_holds_no_value(
    template: (Seq<char>, Seq<char>),
    one: PaginationParameters,
    filters_of_one: Seq<SqlArgument>,
    other: PaginationParameters,
    filters_of_other: Seq<SqlArgument>,
)
    requires
        one.direction() == other.direction(),
    ensures
        page_statement(template, one, filters_of_one).text == page_statement(
            template,
            other,
            filters_of_other,
        ).text,
{
}

/// Composes the page statement of a request from the two parts of its
/// collection's template and the arguments of its filters.
pub fn compose(
    head: &str,
    tail: &str,
    parameters: &PaginationParameters,
    filters: Vec<SqlValue>,
) -> (query: Query)
    ensures
        query@ == page_statement((head@, tail@), *parameters, arguments_of(filters@)),
{
    let mut statement = String::from_str(head);
    statement.append(parameters.order().keyword());
    statement.append(tail);
    let mut arguments: Vec<SqlValue> = Vec::new();
    arguments.push(SqlValue::Integer(parameters.before));
    arguments.push(SqlValue::Integer(parameters.after));
    let ghost given = filters@;
    let mut filters = filters;
    arguments.append(&mut filters);
    arguments.push(SqlValue::BigInt(Some(parameters.lookahead_limit())));
    assert(arguments_of(arguments@) =~= page_arguments(*parameters, arguments_of(given)));
    Query { statement, arguments }
}

/// Composes a statement whose text does not depend on the request.
pub fn fixed(text: &str, arguments: Vec<SqlValue>) -> (query: Query)
    ensures
        query@ == (Statement { text: text@, arguments: arguments_of(arguments@) }),
{
    Query { statement: String::from_str(text), arguments }
}

/// A copy of an optional text.
pub fn clone_text(text: &Option<String>) -> (copy: Option<String>)
    ensures
        copy == *text,
{
    match text {
        Some(text) => Some(text.clone()),
        None => None,
    }
}

/// A copy of a filter on a nullable text column.
pub fn clone_nullable(filter: &Option<Option<String>>) -> (copy: Option<Option<String>>)
    ensures
        copy == *filter,
{
    match filter {
        Some(text) => Some(clone_text(text)),
        None => None,
    }
}

/// The text to compare a nullable column with: `NULL` where the filter is
/// absent and where it asks for rows without a value.
pub open spec fn nullable_text(filter: Option<Option<String>>) -> Option<Seq<char>> {
    match filter {
        Some(Some(text)) => Some(text@),
        _ => None,
    }
}

/// Whether a filter on a nullable column asks for the rows without a value.
pub open spec fn asks_for_null(filter: Option<Option<String>>) -> bool {
    filter == Some(None::<String>)
}

/// The two arguments that carry a filter on a nullable text column: the text
/// to compare with, and whether rows without a value are asked for.
pub fn nullable_arguments(filter: &Option<Option<String>>) -> (arguments: (SqlValue, SqlValue))
    ensures
        arguments.0@ == SqlArgument::Text(nullable_text(*filter)),
        arguments.1@ == SqlArgument::Boolean(Some(asks_for_null(*filter))),
{
    match filter {
        Some(Some(text)) => (SqlValue::Text(Some(text.clone())), SqlValue::Boolean(Some(false))),
        Some(None) => (SqlValue::Text(None), SqlValue::Boolean(Some(true))),
        None => (SqlValue::Text(None), SqlValue::Boolean(Some(false))),
    }
}

} // verus!
