//! The home page request handler: project every stored row, render the
//! page, and translate any failure into the uniform HTTP error contract.

use vstd::prelude::*;

use crate::error::{db_error_response, is_db_error_response, Error, HttpResponse, StoreError};
use crate::model::{project, spec_project, spec_row_valid, PostRow, PostRowModel,
    RenderedView, RenderedViewModel};
use crate::render::{render_index, spec_render_index};
use crate::state::{spec_parse_state, PostState};

verus! {

/// Whether a stored row both carries a recognized state string and is in
/// fact published. The store's query selects published posts only, so any
/// other row is a store-layer inconsistency.
pub open spec fn spec_row_published(row: PostRowModel) -> bool {
    spec_parse_state(row.state) == Some(PostState::Published)
}

/// Whether every row of a store result is a published row.
pub open spec fn spec_rows_published(rows: Seq<PostRowModel>) -> bool {
    forall|i: int| 0 <= i < rows.len() ==> spec_row_published(#[trigger] rows[i])
}

/// The projections of a sequence of rows, in order.
pub open spec fn spec_projected_views(rows: Seq<PostRowModel>) -> Seq<RenderedViewModel> {
    rows.map_values(|row: PostRowModel| spec_project(row))
}

/// Handles the home page request, given the outcome of the store's
/// published-posts query. Either the full page renders or the uniform
/// error response is returned; no partial result exists:
/// - a store failure yields the fixed `500` contract;
/// - any row with an unrecognized state string, and any row whose state is
///   not `published` (a store-layer inconsistency), yields the same `500`
///   — never a silently omitted or misclassified post;
/// - otherwise the response is `200`, `text/html`, and the body is exactly
///   the rendered document for the title `"Home page"` and the projected
///   rows in store order.
pub fn handle_index(store_result: Result<Vec<PostRow>, StoreError>) -> (r: HttpResponse)
    ensures
        store_result matches Err(_) ==> is_db_error_response(r),
        store_result matches Ok(rows) ==> {
            &&& !spec_rows_published(rows.deep_view()) ==> is_db_error_response(r)
            &&& spec_rows_published(rows.deep_view()) ==> {
                &&& r.status == 200u16
                &&& r.content_type@ == "text/html"@
                &&& r.body@ == spec_render_index(
                    "Home page"@,
                    spec_projected_views(rows.deep_view()),
                )
            }
        },
{
    match store_result {
        Err(e) => Error::Database(e).into_response(),
        Ok(rows) => {
            let mut views: Vec<RenderedView> = Vec::new();
            let mut i: usize = 0;
            while i < rows.len()
                invariant
                    store_result == Ok::<Vec<PostRow>, StoreError>(rows),
                    0 <= i <= rows@.len(),
                    rows.deep_view().len() == rows@.len(),
                    views.deep_view().len() == i,
                    forall|j: int|
                        0 <= j < i ==> spec_row_published(#[trigger] rows.deep_view()[j]),
                    forall|j: int|
                        0 <= j < i ==> views.deep_view()[j] == spec_project(
                            #[trigger] rows.deep_view()[j],
                        ),
                decreases rows@.len() - i,
            {
                let row = rows[i].clone();
                match project(row) {
                    Ok(v) => {
                        if let PostState::Published = v.state {
                            views.push(v);
                        } else {
                            // The published-only query handed back an
                            // unpublished row: a data-integrity fault,
                            // reported like every other store failure.
                            proof {
                                assert(!spec_row_published(rows.deep_view()[i as int]));
                            }
                            return db_error_response();
                        }
                    },
                    Err(pe) => {
                        proof {
                            assert(!spec_row_valid(rows.deep_view()[i as int]));
                        }
                        return Error::Projection(pe).into_response();
                    },
                }
                i = i + 1;
            }
            let body = render_index("Home page", &views);
            proof {
                assert(views.deep_view() =~= spec_projected_views(rows.deep_view()));
            }
            HttpResponse { status: 200, content_type: String::from_str("text/html"), body }
        },
    }
}

} // verus!
