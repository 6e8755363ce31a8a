//! The joined store row and its projection into a render-ready view model.

use vstd::prelude::*;

use crate::error::ProjectionError;
use crate::state::{spec_parse_state, parse_state, PostState};

verus! {

/// The mathematical content of a stored row: each text column as a
/// character sequence.
pub struct PostRowModel {
    pub author_tag: Seq<char>,
    pub state: Seq<char>,
    pub title: Seq<char>,
    pub content: Seq<char>,
    pub tags: Seq<char>,
    pub description: Seq<char>,
    pub keywords: Seq<char>,
}

/// One row of the join of `post`, `user` (author tag) and `revision`
/// (current content), as the store hands it over: every column still in its
/// stored text form.
pub struct PostRow {
    pub author_tag: String,
    pub state: String,
    pub title: String,
    pub content: String,
    pub tags: String,
    pub description: String,
    pub keywords: String,
}

impl View for PostRow {
    type V = PostRowModel;

    open spec fn view(&self) -> PostRowModel {
        PostRowModel {
            author_tag: self.author_tag@,
            state: self.state@,
            title: self.title@,
            content: self.content@,
            tags: self.tags@,
            description: self.description@,
            keywords: self.keywords@,
        }
    }
}

impl DeepView for PostRow {
    type V = PostRowModel;

    open spec fn deep_view(&self) -> PostRowModel {
        self.view()
    }
}

impl Clone for PostRow {
    fn clone(&self) -> (r: Self)
        ensures
            r@ == self@,
    {
        PostRow {
            author_tag: self.author_tag.clone(),
            state: self.state.clone(),
            title: self.title.clone(),
            content: self.content.clone(),
            tags: self.tags.clone(),
            description: self.description.clone(),
            keywords: self.keywords.clone(),
        }
    }
}

/// The mathematical content of a render-ready view: the resolved state and
/// each text field as a character sequence.
pub struct RenderedViewModel {
    pub author_tag: Seq<char>,
    pub state: PostState,
    pub title: Seq<char>,
    pub content: Seq<char>,
    pub tags: Seq<char>,
    pub description: Seq<char>,
    pub keywords: Seq<char>,
}

/// The page-rendering data for one post: author tag, resolved lifecycle
/// state, content fields and SEO fields. Built fresh per request; owns no
/// persistent identity.
pub struct RenderedView {
    pub author_tag: String,
    pub state: PostState,
    pub title: String,
    pub content: String,
    pub tags: String,
    pub description: String,
    pub keywords: String,
}

impl View for RenderedView {
    type V = RenderedViewModel;

    open spec fn view(&self) -> RenderedViewModel {
        RenderedViewModel {
            author_tag: self.author_tag@,
            state: self.state,
            title: self.title@,
            content: self.content@,
            tags: self.tags@,
            description: self.description@,
            keywords: self.keywords@,
        }
    }
}

impl DeepView for RenderedView {
    type V = RenderedViewModel;

    open spec fn deep_view(&self) -> RenderedViewModel {
        self.view()
    }
}

/// Whether a stored row carries a recognized state string, and so can be
/// projected at all.
pub open spec fn spec_row_valid(row: PostRowModel) -> bool {
    spec_parse_state(row.state) is Some
}

/// What projection yields on a valid row: the state string resolved, every
/// other field carried over unchanged.
pub open spec fn spec_project(row: PostRowModel) -> RenderedViewModel
    recommends
        spec_row_valid(row),
{
    RenderedViewModel {
        author_tag: row.author_tag,
        state: spec_parse_state(row.state)->0,
        title: row.title,
        content: row.content,
        tags: row.tags,
        description: row.description,
        keywords: row.keywords,
    }
}

/// Projects one stored row into its render-ready view. Pure: deterministic
/// in the row, no side effects. Succeeds exactly on rows whose state string
/// is recognized, preserving every non-state field byte for byte; an
/// unrecognized state string is a data-integrity fault reported as
/// `ProjectionError::InvalidState`, never a silently defaulted state.
pub fn project(row: PostRow) -> (r: Result<RenderedView, ProjectionError>)
    ensures
        spec_row_valid(row@) ==> (r matches Ok(v) && v@ == spec_project(row@)),
        !spec_row_valid(row@) ==> r == Err::<RenderedView, ProjectionError>(
            ProjectionError::InvalidState,
        ),
{
    match parse_state(row.state.as_str()) {
        Ok(st) => Ok(RenderedView {
            author_tag: row.author_tag,
            state: st,
            title: row.title,
            content: row.content,
            tags: row.tags,
            description: row.description,
            keywords: row.keywords,
        }),
        Err(_) => Err(ProjectionError::InvalidState),
    }
}

} // verus!
