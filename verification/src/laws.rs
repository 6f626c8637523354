//! What holds of pagination over every collection and every request.
//!
//! Each law speaks of [`page_of`]: the page that the engine builds from what
//! the two statements of a request answer for a collection.

use crate::collection::{
    ascending, backward, below, extremes, forward, lemma_below, lemma_filter_between,
    lemma_page_run, lemma_window, page_end, page_of, page_start, scan, walk, window, window_end,
    window_start,
};
use crate::error::CoreError;
use crate::pagination::{
    bounds_unknown, cursors_of, page_context, page_items, Pagination, PaginationParameters,
};
use vstd::prelude::*;

verus! {

/// In an ascending collection, as many rows lie below a row as its index
/// says.
proof fn lemma_below_at(rows: Seq<i32>, i: int)
    requires
        ascending(rows),
        0 <= i < rows.len(),
    ensures
        below(rows, rows[i] as int) == i,
        below(rows, rows[i] + 1) == i + 1,
{
    lemma_below(rows, rows[i] as int);
    lemma_below(rows, rows[i] + 1);
    let under = below(rows, rows[i] as int);
    let upto = below(rows, rows[i] + 1);
    if under < i {
        assert(rows[under] >= rows[i]);
    }
    if under > i {
        assert(rows[i] < rows[i]);
    }
    if upto <= i {
        assert(rows[i] >= rows[i] + 1);
    }
    if upto > i + 1 {
        assert(rows[i + 1] < rows[i] + 1);
    }
}

/// The engine sees of an item only its cursor: the cursors of the page built
/// from a scan's items are the page built from the scan's cursors.
pub proof fn lemma_page_cursors<P: Pagination>(
    parameters: PaginationParameters,
    fetched: Seq<P::Item>,
    bounds: Option<(i32, i32)>,
)
    ensures
        cursors_of::<P>(page_items(parameters, fetched, bounds)) == page_items(
            parameters,
            cursors_of::<P>(fetched),
            bounds,
        ),
{
    assert(cursors_of::<P>(page_items(parameters, fetched, bounds)) =~= page_items(
        parameters,
        cursors_of::<P>(fetched),
        bounds,
    ));
}

/// Given the rows that the page statement returns for a collection and the
/// extremes that the boundary statement returns for it, the engine builds
/// the collection's page of that request.
pub proof fn lemma_engine_builds_page<P: Pagination>(
    rows: Seq<i32>,
    parameters: PaginationParameters,
    fetched: Seq<P::Item>,
)
    requires
        cursors_of::<P>(fetched) == scan(rows, parameters),
    ensures
        cursors_of::<P>(page_items(parameters, fetched, extremes(rows))) == page_of(
            rows,
            parameters,
        ).0,
        page_context(
            parameters,
            cursors_of::<P>(page_items(parameters, fetched, extremes(rows))),
            fetched.len() > parameters.limit,
            extremes(rows),
        ) == page_of(rows, parameters).1,
{
    lemma_page_cursors::<P>(parameters, fetched, extremes(rows));
}

/// Whatever the direction of the scan, the items of a page are rows of the
/// collection that lie between the cursors of the request, each of them
/// once and in ascending order.
pub proof fn lemma_page_is_ascending(rows: Seq<i32>, parameters: PaginationParameters)
    requires
        ascending(rows),
    ensures
        ascending(page_of(rows, parameters).0),
        forall|i: int|
            0 <= i < page_of(rows, parameters).0.len() ==> {
                &&& rows.contains(#[trigger] page_of(rows, parameters).0[i])
                &&& parameters.admits(page_of(rows, parameters).0[i])
            },
{
    lemma_page_run(rows, parameters);
    if parameters.after is Some {
        lemma_below(rows, parameters.after->0 + 1);
    }
    if parameters.before is Some {
        lemma_below(rows, parameters.before->0 as int);
    }
    let page = page_of(rows, parameters).0;
    let start = page_start(rows, parameters);
    assert forall|i: int| 0 <= i < page.len() implies {
        &&& rows.contains(#[trigger] page[i])
        &&& parameters.admits(page[i])
    } by {
        assert(page[i] == rows[start + i]);
    }
}

/// Cursors that a request is rejected for lie so that no row can be between
/// them: whatever the collection, the page of such a request would be empty.
pub proof fn lemma_rejected_cursors_admit_no_row(rows: Seq<i32>, parameters: PaginationParameters)
    requires
        parameters.validated() == Err::<(), CoreError>(CoreError::AfterSmallerBefore),
    ensures
        forall|cursor: i32| !parameters.admits(cursor),
        scan(rows, parameters).len() == 0,
        page_of(rows, parameters).0.len() == 0,
{
    let keep = |cursor: i32| parameters.admits(cursor);
    lemma_filter_between(rows, keep, 0, 0);
    assert(window(rows, parameters) =~= Seq::<i32>::empty());
}

/// A scan without cursors that returns no row shows that the collection is
/// empty: the boundary statement would return no extremes.
pub proof fn lemma_empty_scan_of_empty_collection(
    rows: Seq<i32>,
    parameters: PaginationParameters,
)
    requires
        !bounds_unknown(parameters, scan(rows, parameters).len()),
    ensures
        extremes(rows) is None,
{
    let keep = |cursor: i32| parameters.admits(cursor);
    lemma_filter_between(rows, keep, 0, rows.len() as int);
    assert(window(rows, parameters) =~= rows);
}

/// Walking a collection page by page, each request starting after the last
/// item of the page before it, gathers the rows that follow the first
/// cursor: each of them once, in ascending order.
proof fn lemma_walk_from(rows: Seq<i32>, limit: u32, after: Option<i32>, pages: nat)
    requires
        ascending(rows),
        limit >= 1,
        pages >= rows.len() - window_start(rows, forward(after, limit)),
    ensures
        walk(rows, limit, after, pages) == rows.skip(window_start(rows, forward(after, limit))),
    decreases pages,
{
    let request = forward(after, limit);
    lemma_page_run(rows, request);
    let page = page_of(rows, request);
    let start = window_start(rows, request);
    if rows.len() == 0 {
        assert(walk(rows, limit, after, pages) =~= rows.skip(start));
    } else if !page.1.has_next {
        assert(walk(rows, limit, after, pages) =~= rows.skip(start));
    } else {
        let last = start + limit - 1;
        assert(page.0.last() == rows[last]);
        lemma_below_at(rows, last);
        let rest = walk(rows, limit, Some(rows[last]), (pages - 1) as nat);
        lemma_walk_from(rows, limit, Some(rows[last]), (pages - 1) as nat);
        assert(walk(rows, limit, after, pages) == page.0 + rest);
        assert(page.0 + rest =~= rows.skip(start));
    }
}

/// Asking for page after page from the start of a collection, each request
/// starting after the last item of the page before it, and putting the pages
/// one behind the other gives the whole collection in ascending order, no
/// row twice and none left out. As many requests as the collection has rows
/// are always enough.
pub proof fn lemma_walk_is_complete(rows: Seq<i32>, limit: u32, pages: nat)
    requires
        ascending(rows),
        limit >= 1,
        pages >= rows.len(),
    ensures
        walk(rows, limit, None, pages) == rows,
{
    lemma_walk_from(rows, limit, None, pages);
    assert(rows.skip(0) =~= rows);
}

/// Going backward from the first item of a page and then forward again from
/// the last item of the page found there leads to the page one came from.
/// Where no page lies before, going forward from the start of the collection
/// does.
pub proof fn lemma_backward_then_forward(rows: Seq<i32>, limit: u32, after: Option<i32>)
    requires
        ascending(rows),
        page_of(rows, forward(after, limit)).0.len() > 0,
    ensures
        ({
            let page = page_of(rows, forward(after, limit)).0;
            let previous = page_of(rows, backward(page.first(), limit)).0;
            let turn = if previous.len() > 0 {
                Some(previous.last())
            } else {
                None
            };
            page_of(rows, forward(turn, limit)).0 == page
        }),
{
    let request = forward(after, limit);
    lemma_page_run(rows, request);
    let page = page_of(rows, request).0;
    let start = window_start(rows, request);
    assert(page.first() == rows[start]);
    lemma_below_at(rows, start);
    let back = backward(page.first(), limit);
    lemma_page_run(rows, back);
    let previous = page_of(rows, back).0;
    assert(window_end(rows, back) == start);
    if previous.len() > 0 {
        assert(previous.last() == rows[start - 1]);
        lemma_below_at(rows, start - 1);
    }
    let turn = if previous.len() > 0 {
        Some(previous.last())
    } else {
        None
    };
    lemma_page_run(rows, forward(turn, limit));
    assert(window_start(rows, forward(turn, limit)) == start);
}

/// Whatever the cursors of the request, the context names the smallest and
/// the greatest cursor of the collection, and names none exactly if the
/// collection is empty.
pub proof fn lemma_context_names_extremes(rows: Seq<i32>, parameters: PaginationParameters)
    requires
        ascending(rows),
    ensures
        ({
            let context = page_of(rows, parameters).1;
            &&& context.first_id is None <==> rows.len() == 0
            &&& context.last_id is None <==> rows.len() == 0
            &&& rows.len() > 0 ==> {
                &&& rows.contains(context.first_id->0)
                &&& rows.contains(context.last_id->0)
                &&& forall|i: int|
                    0 <= i < rows.len() ==> context.first_id->0 <= #[trigger] rows[i]
                        <= context.last_id->0
            }
        }),
{
    if rows.len() > 0 {
        assert(rows[0] == rows.first());
        assert(rows[rows.len() - 1] == rows.last());
    }
}

/// The context says that a page has a predecessor exactly if the collection
/// holds a row whose cursor is smaller than that of the page's first item.
pub proof fn lemma_has_previous_is_exact(rows: Seq<i32>, parameters: PaginationParameters)
    requires
        ascending(rows),
        page_of(rows, parameters).0.len() > 0,
    ensures
        page_of(rows, parameters).1.has_previous <==> exists|i: int|
            0 <= i < rows.len() && #[trigger] rows[i] < page_of(rows, parameters).0.first(),
{
    lemma_page_run(rows, parameters);
    let page = page_of(rows, parameters);
    let start = page_start(rows, parameters);
    assert(page.0.first() == rows[start]);
    if start > 0 {
        assert(rows[0] < rows[start]);
    }
    if parameters.after is Some {
        lemma_below(rows, parameters.after->0 + 1);
    }
}

/// The context says that a page has a successor exactly if the collection
/// holds a row whose cursor is greater than that of the page's last item.
///
/// This holds of every request but one that names both cursors: its scan ends
/// at `before`, and does not see what lies behind.
pub proof fn lemma_has_next_is_exact(rows: Seq<i32>, parameters: PaginationParameters)
    requires
        ascending(rows),
        page_of(rows, parameters).0.len() > 0,
        parameters.before is None || parameters.after is None,
    ensures
        page_of(rows, parameters).1.has_next <==> exists|i: int|
            0 <= i < rows.len() && #[trigger] rows[i] > page_of(rows, parameters).0.last(),
{
    lemma_page_run(rows, parameters);
    let page = page_of(rows, parameters);
    let end = page_end(rows, parameters);
    assert(page.0.last() == rows[end - 1]);
    if end < rows.len() {
        assert(rows[rows.len() - 1] > rows[end - 1]);
    }
}

/// A page without items, asked of a collection that is not empty with one
/// cursor at most, lies behind the collection's last row or before its
/// first: the collection goes on against the direction of the scan, and
/// nowhere else.
pub proof fn lemma_empty_page_lies_outside(rows: Seq<i32>, parameters: PaginationParameters)
    requires
        ascending(rows),
        rows.len() > 0,
        parameters.limit >= 1,
        parameters.before is None || parameters.after is None,
        page_of(rows, parameters).0.len() == 0,
    ensures
        ({
            let context = page_of(rows, parameters).1;
            if parameters.scans_backward() {
                &&& context.has_next && !context.has_previous
                &&& forall|i: int| 0 <= i < rows.len() ==> #[trigger] rows[i] >= parameters.before->0
            } else {
                &&& context.has_previous && !context.has_next
                &&& parameters.after is Some
                &&& forall|i: int| 0 <= i < rows.len() ==> #[trigger] rows[i] <= parameters.after->0
            }
        }),
{
    lemma_page_run(rows, parameters);
    if parameters.after is Some {
        lemma_below(rows, parameters.after->0 + 1);
    }
    if parameters.before is Some {
        lemma_below(rows, parameters.before->0 as int);
    }
}

/// A page never holds more items than the limit, and where the scan returned
/// a row beyond the limit, that row is not on the page.
pub proof fn lemma_lookahead_is_dropped(rows: Seq<i32>, parameters: PaginationParameters)
    requires
        ascending(rows),
    ensures
        page_of(rows, parameters).0.len() <= parameters.limit,
        scan(rows, parameters).len() > parameters.limit ==> !page_of(rows, parameters).0.contains(
            scan(rows, parameters)[parameters.limit as int],
        ),
{
    lemma_page_run(rows, parameters);
    lemma_window(rows, parameters);
    let page = page_of(rows, parameters).0;
    let fetched = scan(rows, parameters);
    if fetched.len() > parameters.limit {
        let beyond = fetched[parameters.limit as int];
        let at = if parameters.scans_backward() {
            window_end(rows, parameters) - 1 - parameters.limit
        } else {
            window_start(rows, parameters) + parameters.limit
        };
        assert(beyond == rows[at]);
        if page.contains(beyond) {
            let i = choose|i: int| 0 <= i < page.len() && page[i] == beyond;
            assert(page[i] == rows[page_start(rows, parameters) + i]);
        }
    }
}

} // verus!
