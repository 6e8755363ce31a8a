//! The template contract a theme's page types implement. The template's
//! data is the static, typed view model of `crate::render` rather than a
//! stringly-typed key lookup, so a missing key cannot occur at render time.

use vstd::prelude::*;

use crate::render::Index;

verus! {

/// A page template of the theme.
pub trait Template {
    /// Whether this template handles the type of page currently being
    /// requested.
    fn should_handle_page(page_type: String) -> bool;
}

impl Template for Index {
    /// The home page template handles every page type.
    fn should_handle_page(_page_type: String) -> (r: bool)
        ensures
            r,
    {
        true
    }
}

} // verus!
