//! A filtered collection as the database holds it, and what its statements
//! answer.
//!
//! The rows that match a request's filters are known to the engine only by
//! their cursors. This module describes them as an ascending sequence of
//! cursors, and says which rows a page statement and a boundary statement
//! return for it. The laws of pagination are stated over these definitions.

use crate::pagination::{page_context, page_items, PageContext, PaginationParameters};
use vstd::prelude::*;

verus! {

/// The cursors of a collection: no cursor occurs twice, and a smaller one
/// comes first.
pub open spec fn ascending(rows: Seq<i32>) -> bool {
    forall|i: int, j: int| 0 <= i < j < rows.len() ==> rows[i] < rows[j]
}

/// The rows between the cursors of a request, in ascending order.
pub open spec fn window(rows: Seq<i32>, parameters: PaginationParameters) -> Seq<i32> {
    rows.filter(|cursor: i32| parameters.admits(cursor))
}

/// The rows that the page statement of a request returns: the rows between
/// the cursors, in the direction of the scan, and no more of them than one
/// beyond the limit.
pub open spec fn scan(rows: Seq<i32>, parameters: PaginationParameters) -> Seq<i32> {
    let within = window(rows, parameters);
    let ordered = if parameters.scans_backward() {
        within.reverse()
    } else {
        within
    };
    if ordered.len() > parameters.lookahead() {
        ordered.take(parameters.lookahead())
    } else {
        ordered
    }
}

/// The smallest and the greatest cursor of a collection, as the boundary
/// statement returns them.
pub open spec fn extremes(rows: Seq<i32>) -> Option<(i32, i32)> {
    if rows.len() == 0 {
        None
    } else {
        Some((rows.first(), rows.last()))
    }
}

/// The page of a request: what the engine builds from the answers of the two
/// statements. Each item is given by its cursor.
pub open spec fn page_of(rows: Seq<i32>, parameters: PaginationParameters) -> (Seq<i32>, PageContext) {
    let fetched = scan(rows, parameters);
    let bounds = extremes(rows);
    let items = page_items(parameters, fetched, bounds);
    (items, page_context(parameters, items, fetched.len() > parameters.limit, bounds))
}

/// The request for the page that follows `after`, or for the first page.
pub open spec fn forward(after: Option<i32>, limit: u32) -> PaginationParameters {
    PaginationParameters { before: None, after, limit }
}

/// The request for the page that ends before `before`.
pub open spec fn backward(before: i32, limit: u32) -> PaginationParameters {
    PaginationParameters { before: Some(before), after: None, limit }
}

/// The rows gathered by asking for page after page: each request starts
/// after the last item of the page before it, until a page says that none
/// follows. `pages` bounds the number of requests after the first.
pub open spec fn walk(rows: Seq<i32>, limit: u32, after: Option<i32>, pages: nat) -> Seq<i32>
    decreases pages,
{
    let page = page_of(rows, forward(after, limit));
    if pages == 0 || !page.1.has_next || page.0.len() == 0 {
        page.0
    } else {
        page.0 + walk(rows, limit, Some(page.0.last()), (pages - 1) as nat)
    }
}

/// The number of rows of an ascending collection whose cursor is smaller
/// than `bound`: the rows before the last one that is not.
pub open spec fn below(rows: Seq<i32>, bound: int) -> int
    decreases rows.len(),
{
    if rows.len() == 0 {
        0
    } else if rows.last() < bound {
        rows.len() as int
    } else {
        below(rows.drop_last(), bound)
    }
}

/// The index of the first row between the cursors of a request.
pub open spec fn window_start(rows: Seq<i32>, parameters: PaginationParameters) -> int {
    match parameters.after {
        Some(after) => below(rows, after + 1),
        None => 0,
    }
}

/// The index behind the last row between the cursors of a request.
pub open spec fn window_end(rows: Seq<i32>, parameters: PaginationParameters) -> int {
    let start = window_start(rows, parameters);
    let end = match parameters.before {
        Some(before) => below(rows, before as int),
        None => rows.len() as int,
    };
    if end < start {
        start
    } else {
        end
    }
}

/// `below` splits an ascending collection at the bound.
pub proof fn lemma_below(rows: Seq<i32>, bound: int)
    requires
        ascending(rows),
    ensures
        0 <= below(rows, bound) <= rows.len(),
        forall|i: int| 0 <= i < below(rows, bound) ==> #[trigger] rows[i] < bound,
        forall|i: int| below(rows, bound) <= i < rows.len() ==> #[trigger] rows[i] >= bound,
    decreases rows.len(),
{
    if rows.len() > 0 && rows.last() >= bound {
        let front = rows.drop_last();
        lemma_below(front, bound);
        assert forall|i: int| 0 <= i < below(rows, bound) implies #[trigger] rows[i] < bound by {
            assert(front[i] < bound);
        }
        assert forall|i: int| below(rows, bound) <= i < rows.len() implies #[trigger] rows[i]
            >= bound by {
            if i < rows.len() - 1 {
                assert(front[i] >= bound);
            }
        }
    }
}

/// Filtering by a predicate that holds exactly between two indices cuts the
/// sequence at them.
pub proof fn lemma_filter_between<A>(rows: Seq<A>, keep: spec_fn(A) -> bool, start: int, end: int)
    requires
        0 <= start <= end <= rows.len(),
        forall|i: int| 0 <= i < rows.len() ==> (keep(#[trigger] rows[i]) <==> start <= i < end),
    ensures
        rows.filter(keep) == rows.subrange(start, end),
    decreases rows.len(),
{
    reveal(Seq::filter);
    if rows.len() == 0 {
        assert(rows.filter(keep) =~= rows.subrange(start, end));
    } else {
        let front = rows.drop_last();
        let last = rows.len() - 1;
        assert forall|i: int| 0 <= i < front.len() implies (keep(#[trigger] front[i]) <==> start
            <= i < end) by {
            assert(front[i] == rows[i]);
        }
        if end == rows.len() && start < end {
            assert(keep(rows[last]));
            lemma_filter_between(front, keep, start, last);
            assert(rows.filter(keep) =~= rows.subrange(start, end));
        } else {
            assert(!keep(rows[last]));
            let cut = if end == rows.len() {
                last
            } else {
                end
            };
            let from = if start == rows.len() {
                last
            } else {
                start
            };
            lemma_filter_between(front, keep, from, cut);
            assert(rows.filter(keep) =~= rows.subrange(start, end));
        }
    }
}

/// The rows between the cursors of a request are a run of the collection.
pub proof fn lemma_window(rows: Seq<i32>, parameters: PaginationParameters)
    requires
        ascending(rows),
    ensures
        0 <= window_start(rows, parameters) <= window_end(rows, parameters) <= rows.len(),
        window(rows, parameters) == rows.subrange(
            window_start(rows, parameters),
            window_end(rows, parameters),
        ),
{
    let start = window_start(rows, parameters);
    let end = window_end(rows, parameters);
    if parameters.after is Some {
        lemma_below(rows, parameters.after->0 + 1);
    }
    if parameters.before is Some {
        lemma_below(rows, parameters.before->0 as int);
    }
    let keep = |cursor: i32| parameters.admits(cursor);
    assert forall|i: int| 0 <= i < rows.len() implies (keep(#[trigger] rows[i]) <==> start <= i
        < end) by {}
    lemma_filter_between(rows, keep, start, end);
}

/// The index of the first row of a request's page.
pub open spec fn page_start(rows: Seq<i32>, parameters: PaginationParameters) -> int {
    let start = window_start(rows, parameters);
    let end = window_end(rows, parameters);
    if parameters.scans_backward() && end - start > parameters.limit {
        end - parameters.limit
    } else {
        start
    }
}

/// The index behind the last row of a request's page.
pub open spec fn page_end(rows: Seq<i32>, parameters: PaginationParameters) -> int {
    let start = window_start(rows, parameters);
    let end = window_end(rows, parameters);
    if !parameters.scans_backward() && end - start > parameters.limit {
        start + parameters.limit
    } else {
        end
    }
}

/// The page of a request is a run of the collection: the first rows between
/// the cursors on a forward scan, the last ones on a backward scan. The scan
/// returns more rows than the page holds exactly if more rows lie between
/// the cursors.
pub proof fn lemma_page_run(rows: Seq<i32>, parameters: PaginationParameters)
    requires
        ascending(rows),
    ensures
        0 <= window_start(rows, parameters) <= page_start(rows, parameters) <= page_end(
            rows,
            parameters,
        ) <= window_end(rows, parameters) <= rows.len(),
        scan(rows, parameters).len() > parameters.limit <==> window_end(rows, parameters)
            - window_start(rows, parameters) > parameters.limit,
        rows.len() > 0 ==> page_of(rows, parameters).0 == rows.subrange(
            page_start(rows, parameters),
            page_end(rows, parameters),
        ),
        rows.len() == 0 ==> page_of(rows, parameters).0 == Seq::<i32>::empty(),
{
    lemma_window(rows, parameters);
    let start = window_start(rows, parameters);
    let end = window_end(rows, parameters);
    let within = window(rows, parameters);
    assert(within.len() == end - start);
    let fetched = scan(rows, parameters);
    if rows.len() > 0 {
        let items = page_of(rows, parameters).0;
        let run = rows.subrange(page_start(rows, parameters), page_end(rows, parameters));
        assert(items.len() == run.len());
        assert forall|i: int| 0 <= i < items.len() implies items[i] == run[i] by {}
        assert(items =~= run);
    }
}

} // verus!
