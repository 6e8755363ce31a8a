//! The core of a minimal server-rendered blog: a closed post lifecycle
//! state model, the projection of stored rows into render-ready view
//! models, an HTML-escaping renderer for the home page, and the request
//! handler that ties them together under a fixed HTTP error contract.

pub mod error;
pub mod handler;
pub mod model;
pub mod render;
pub mod state;
pub mod theme;
