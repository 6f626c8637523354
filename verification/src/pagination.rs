//! The contract shared by every listable collection: the cursors and the
//! limit of a request, the navigation data of a page, and the engine that
//! turns the rows of one bounded scan into a page.

use crate::error::CoreError;
use crate::query::{page_statement, Query, SqlArgument};
use vstd::prelude::*;

verus! {

/// The direction in which a page statement walks the cursor column.
#[derive(Clone, Copy, Debug, PartialEq, Eq)]
pub enum SortDirection {
    Ascending,
    Descending,
}

impl SortDirection {
    /// The keyword that stands behind `ORDER BY` in a statement.
    pub open spec fn keyword_text(self) -> Seq<char> {
        match self {
            SortDirection::Ascending => "ASC"@,
            SortDirection::Descending => "DESC"@,
        }
    }

    pub fn keyword(self) -> (keyword: &'static str)
        ensures
            keyword@ == self.keyword_text(),
    {
        match self {
            SortDirection::Ascending => "ASC",
            SortDirection::Descending => "DESC",
        }
    }
}

/// The cursors and the page size of one request.
///
/// `before` and `after` are exclusive bounds on the cursor column: a page
/// holds only rows whose cursor is greater than `after` and smaller than
/// `before`.
#[derive(Clone, Copy, Debug, PartialEq, Eq)]
pub struct PaginationParameters {
    pub before: Option<i32>,
    pub after: Option<i32>,
    pub limit: u32,
}

impl PaginationParameters {
    /// A request walks the collection backward when it names the row it
    /// wants to end before, and no row to start after.
    pub open spec fn scans_backward(self) -> bool {
        self.before is Some && self.after is None
    }

    pub open spec fn direction(self) -> SortDirection {
        if self.scans_backward() {
            SortDirection::Descending
        } else {
            SortDirection::Ascending
        }
    }

    /// Whether a row with this cursor lies between the two bounds.
    pub open spec fn admits(self, cursor: i32) -> bool {
        &&& self.after matches Some(after) ==> after < cursor
        &&& self.before matches Some(before) ==> cursor < before
    }

    /// What [`PaginationParameters::validate`] answers.
    pub open spec fn validated(self) -> Result<(), CoreError> {
        if self.limit < 1 || self.limit > 100 {
            Err(CoreError::InvalidPaginationLimit)
        } else if self.after is Some && self.before is Some && self.after->0 > self.before->0 {
            Err(CoreError::AfterSmallerBefore)
        } else {
            Ok(())
        }
    }

    /// The number of rows a page statement asks for: one more than the page
    /// may hold, so that the presence of a further page shows.
    pub open spec fn lookahead(self) -> int {
        self.limit + 1
    }

    /// The direction of the scan: descending when only `before` is given,
    /// ascending in every other case.
    pub fn order(&self) -> (direction: SortDirection)
        ensures
            direction == self.direction(),
    {
        if self.before.is_some() && self.after.is_none() {
            SortDirection::Descending
        } else {
            SortDirection::Ascending
        }
    }

    /// Checks a request before any statement is run. The limit must lie in
    /// `1..=100`; where both cursors are given, `after` must not be greater
    /// than `before`. A limit out of range is reported first.
    pub fn validate(&self) -> (outcome: Result<(), CoreError>)
        ensures
            outcome == self.validated(),
    {
        if self.limit < 1 || self.limit > 100 {
            return Err(CoreError::InvalidPaginationLimit);
        }
        match (self.after, self.before) {
            (Some(after), Some(before)) => {
                if after > before {
                    Err(CoreError::AfterSmallerBefore)
                } else {
                    Ok(())
                }
            },
            _ => Ok(()),
        }
    }

    /// The row count to bind to the `LIMIT` of a page statement.
    pub fn lookahead_limit(&self) -> (rows: i64)
        ensures
            rows == self.lookahead(),
    {
        self.limit as i64 + 1
    }
}

impl Default for PaginationParameters {
    /// The first fifty rows of a collection.
    fn default() -> (parameters: Self)
        ensures
            parameters == (PaginationParameters { before: None, after: None, limit: 50 }),
    {
        PaginationParameters { before: None, after: None, limit: 50 }
    }
}

/// The navigation data that accompanies a page.
///
/// `first_id` and `last_id` are the smallest and the greatest cursor of the
/// whole filtered collection, whatever page was asked for.
#[derive(Clone, Copy, Debug, PartialEq, Eq)]
pub struct PageContext {
    pub has_next: bool,
    pub has_previous: bool,
    pub first_id: Option<i32>,
    pub last_id: Option<i32>,
}

impl PageContext {
    /// The context of every page of an empty collection.
    pub open spec fn nowhere() -> PageContext {
        PageContext { has_next: false, has_previous: false, first_id: None, last_id: None }
    }

    pub fn empty() -> (context: PageContext)
        ensures
            context == PageContext::nowhere(),
    {
        PageContext { has_next: false, has_previous: false, first_id: None, last_id: None }
    }
}

/// The rows of a scan that a page keeps, in ascending order of their
/// cursors.
///
/// A scan returns its rows in the direction it walked. Whatever lies beyond
/// the first `limit` rows only shows that the collection goes on, and is
/// dropped; the rows of a backward scan are then turned round.
pub open spec fn page_rows<T>(parameters: PaginationParameters, fetched: Seq<T>) -> Seq<T> {
    let kept = if fetched.len() > parameters.limit {
        fetched.take(parameters.limit as int)
    } else {
        fetched
    };
    if parameters.scans_backward() {
        kept.reverse()
    } else {
        kept
    }
}

/// The items of the page that [`paginate`] builds from the rows of a scan and
/// from the extremes of the collection. An empty collection has empty pages.
pub open spec fn page_items<T>(
    parameters: PaginationParameters,
    fetched: Seq<T>,
    bounds: Option<(i32, i32)>,
) -> Seq<T> {
    if bounds is Some {
        page_rows(parameters, fetched)
    } else {
        Seq::empty()
    }
}

/// The context of the page that [`paginate`] builds.
///
/// `cursors` are the cursors of the page's items, `more` says whether the
/// scan returned more rows than the page may hold, and `bounds` are the
/// smallest and the greatest cursor of the collection.
///
/// In the direction of the scan the collection goes on exactly if there were
/// more rows. Against it, the collection goes on if the request named a
/// cursor to start from and the page does not begin at the collection's
/// extreme on that side.
pub open spec fn page_context(
    parameters: PaginationParameters,
    cursors: Seq<i32>,
    more: bool,
    bounds: Option<(i32, i32)>,
) -> PageContext {
    match bounds {
        None => PageContext::nowhere(),
        Some((first, last)) => if parameters.scans_backward() {
            PageContext {
                has_next: cursors.len() == 0 || cursors.last() != last,
                has_previous: more,
                first_id: Some(first),
                last_id: Some(last),
            }
        } else {
            PageContext {
                has_next: more,
                has_previous: parameters.after is Some && (cursors.len() == 0 || cursors.first()
                    != first),
                first_id: Some(first),
                last_id: Some(last),
            }
        },
    }
}

/// Whether the rows of a scan leave open what the extremes of the collection
/// are. A scan without cursors that returns no row has seen the whole
/// collection, and found it empty.
pub open spec fn bounds_unknown(parameters: PaginationParameters, fetched_len: nat) -> bool {
    fetched_len > 0 || parameters.before is Some || parameters.after is Some
}

/// A collection that can be listed page by page.
///
/// An implementation names the cursors and the limit of a request, the
/// arguments of its filters, the cursor of an item, and how a row of the page
/// statement becomes an item. The engine is written once against these.
pub trait Pagination: Sized {
    /// What a page holds.
    type Item;

    /// What one row of the page statement's result holds.
    type Row;

    /// The cursors and the limit of this request.
    spec fn pagination(&self) -> PaginationParameters;

    /// The arguments of this request's filters, in the order of their
    /// placeholders.
    spec fn filters(&self) -> Seq<SqlArgument>;

    /// The text of the collection's page statement before and behind the
    /// direction keyword.
    spec fn template() -> (Seq<char>, Seq<char>);

    /// The cursor of an item: the value that `before` and `after` bound.
    spec fn cursor(item: &Self::Item) -> i32;

    /// The item that a row stands for, or the error that it is rejected with.
    spec fn decoded(row: Self::Row) -> Result<Self::Item, CoreError>;

    fn parameters(&self) -> (parameters: PaginationParameters)
        ensures
            parameters == self.pagination(),
    ;

    /// The same filters with other cursors or another limit.
    fn with_parameters(&self, parameters: PaginationParameters) -> (request: Self)
        ensures
            request.pagination() == parameters,
            request.filters() == self.filters(),
    ;

    fn id_of(item: &Self::Item) -> (id: i32)
        ensures
            id == Self::cursor(item),
    ;

    fn decode(row: Self::Row) -> (item: Result<Self::Item, CoreError>)
        ensures
            item == Self::decoded(row),
    ;

    /// The page statement of this request. It binds the two cursors, then the
    /// filters, then one row more than the limit; its text differs between
    /// two requests only in the direction keyword.
    fn query(&self) -> (query: Query)
        ensures
            query@ == page_statement(Self::template(), self.pagination(), self.filters()),
    ;
}

/// The items that a sequence of rows stands for, or the error of the first
/// row that cannot be decoded.
pub open spec fn decoded_all<P: Pagination>(rows: Seq<P::Row>) -> Result<Seq<P::Item>, CoreError>
    decreases rows.len(),
{
    if rows.len() == 0 {
        Ok(Seq::empty())
    } else {
        match decoded_all::<P>(rows.drop_last()) {
            Ok(items) => match P::decoded(rows.last()) {
                Ok(item) => Ok(items.push(item)),
                Err(error) => Err(error),
            },
            Err(error) => Err(error),
        }
    }
}

/// The cursors of a sequence of items.
pub open spec fn cursors_of<P: Pagination>(items: Seq<P::Item>) -> Seq<i32> {
    items.map_values(|item: P::Item| P::cursor(&item))
}

/// Says whether the extremes of the collection have to be looked up after a
/// scan that returned `fetched_len` rows. Where they need not, the collection
/// is empty and [`paginate`] is to be given no bounds.
pub fn boundary_lookup_needed(parameters: &PaginationParameters, fetched_len: usize) -> (needed:
    bool)
    ensures
        needed == bounds_unknown(*parameters, fetched_len as nat),
{
    fetched_len > 0 || parameters.before.is_some() || parameters.after.is_some()
}

/// The extremes of a collection, from the smallest and the greatest cursor
/// that a boundary statement found: both, or none if it found no row.
pub open spec fn extremes_of(smallest: Option<i32>, greatest: Option<i32>) -> Option<(i32, i32)> {
    match (smallest, greatest) {
        (Some(first), Some(last)) => Some((first, last)),
        _ => None,
    }
}

/// Reads the extremes of a collection from the row that its boundary
/// statement returned. Over an empty collection the minimum and the maximum
/// are both `NULL`, and the collection has no extremes.
pub fn first_and_last(smallest: Option<i32>, greatest: Option<i32>) -> (bounds: Option<(i32, i32)>)
    ensures
        bounds == extremes_of(smallest, greatest),
{
    match (smallest, greatest) {
        (Some(first), Some(last)) => Some((first, last)),
        _ => None,
    }
}

/// Decodes the rows of a result in their order, up to the first that cannot
/// be decoded.
pub fn decode_all<P: Pagination>(rows: Vec<P::Row>) -> (items: Result<Vec<P::Item>, CoreError>)
    ensures
        match decoded_all::<P>(rows@) {
            Ok(decoded) => items is Ok && items->Ok_0@ == decoded,
            Err(error) => items == Err::<Vec<P::Item>, CoreError>(error),
        },
{
    let ghost given = rows@;
    let mut items: Vec<P::Item> = Vec::new();
    for row in source: rows
        invariant
            source.seq() == given,
            decoded_all::<P>(given.take(source.index() as int)) == Ok::<
                Seq<P::Item>,
                CoreError,
            >(items@),
    {
        proof {
            let seen = given.take(source.index() + 1);
            assert(seen.drop_last() =~= given.take(source.index() as int));
            assert(seen.last() == row);
            lemma_decoding_stops::<P>(given, source.index() + 1);
        }
        match P::decode(row) {
            Ok(item) => items.push(item),
            Err(error) => {
                return Err(error);
            },
        }
    }
    assert(given.take(given.len() as int) =~= given);
    Ok(items)
}

/// Once a row cannot be decoded, no longer run of the rows can be.
proof fn lemma_decoding_stops<P: Pagination>(rows: Seq<P::Row>, seen: int)
    requires
        0 <= seen <= rows.len(),
    ensures
        decoded_all::<P>(rows.take(seen)) is Err ==> decoded_all::<P>(rows) == decoded_all::<P>(
            rows.take(seen),
        ),
    decreases rows.len() - seen,
{
    if seen < rows.len() {
        lemma_decoding_stops::<P>(rows, seen + 1);
        assert(rows.take(seen + 1).drop_last() =~= rows.take(seen));
    } else {
        assert(rows.take(seen) =~= rows);
    }
}

/// Turns a vector round.
fn reversed<T>(items: Vec<T>) -> (turned: Vec<T>)
    ensures
        turned@ == items@.reverse(),
{
    let ghost given = items@;
    let mut rest = items;
    let mut turned: Vec<T> = Vec::new();
    while rest.len() > 0
        invariant
            rest@.len() + turned@.len() == given.len(),
            rest@ == given.take(rest@.len() as int),
            forall|i: int|
                0 <= i < turned@.len() ==> turned@[i] == #[trigger] given[given.len() - 1 - i],
        decreases rest@.len(),
    {
        let item = rest.pop().unwrap();
        turned.push(item);
    }
    assert(turned@ =~= given.reverse());
    turned
}

/// Builds a page from the rows that one scan returned and from the extremes
/// of the filtered collection.
///
/// `fetched` holds the decoded rows in the order of the scan, at most one
/// more than the limit. `bounds` is the smallest and the greatest cursor of
/// the filtered collection, or `None` if the collection is empty.
///
/// The items of the page are the first `limit` rows, in ascending order of
/// their cursors whatever the direction of the scan was. The context says
/// whether the collection goes on before and behind the page, and names the
/// collection's extremes. A collection without extremes is empty: its page is
/// empty and goes on nowhere.
pub fn paginate<P: Pagination>(
    parameters: &PaginationParameters,
    fetched: Vec<P::Item>,
    bounds: Option<(i32, i32)>,
) -> (page: (Vec<P::Item>, PageContext))
    ensures
        page.0@ == page_items(*parameters, fetched@, bounds),
        page.1 == page_context(
            *parameters,
            cursors_of::<P>(page.0@),
            fetched@.len() > parameters.limit,
            bounds,
        ),
        page.0@.len() <= parameters.limit,
        page.0@.len() <= fetched@.len(),
{
    match bounds {
        None => (Vec::new(), PageContext::empty()),
        Some((first, last)) => {
            let mut rows = fetched;
            let more = rows.len() > parameters.limit as usize;
            if more {
                rows.truncate(parameters.limit as usize);
            }
            let backward = parameters.before.is_some() && parameters.after.is_none();
            let items = if backward {
                reversed(rows)
            } else {
                rows
            };
            let count = items.len();
            let context = if backward {
                PageContext {
                    has_next: count == 0 || P::id_of(&items[count - 1]) != last,
                    has_previous: more,
                    first_id: Some(first),
                    last_id: Some(last),
                }
            } else {
                PageContext {
                    has_next: more,
                    has_previous: parameters.after.is_some() && (count == 0 || P::id_of(&items[0])
                        != first),
                    first_id: Some(first),
                    last_id: Some(last),
                }
            };
            (items, context)
        },
    }
}

/// Builds the page of a request from the rows that its page statement
/// returned, in the order in which they came, and from the extremes of the
/// filtered collection.
///
/// Every row is decoded. If one cannot be, its error is returned and no page
/// is built; of several such rows the first decides. The decoded rows are
/// handed to [`paginate`].
pub fn page<P: Pagination>(request: &P, rows: Vec<P::Row>, bounds: Option<(i32, i32)>) -> (page:
    Result<(Vec<P::Item>, PageContext), CoreError>)
    ensures
        match decoded_all::<P>(rows@) {
            Ok(items) => page is Ok && page->Ok_0.0@ == page_items(
                request.pagination(),
                items,
                bounds,
            ) && page->Ok_0.1 == page_context(
                request.pagination(),
                cursors_of::<P>(page->Ok_0.0@),
                items.len() > request.pagination().limit,
                bounds,
            ),
            Err(error) => page == Err::<(Vec<P::Item>, PageContext), CoreError>(error),
        },
{
    let parameters = request.parameters();
    match decode_all::<P>(rows) {
        Ok(items) => Ok(paginate::<P>(&parameters, items, bounds)),
        Err(error) => Err(error),
    }
}

} // verus!
