use blog::error::{Error, ProjectionError, StoreError};
use blog::handler::handle_index;
use blog::model::PostRow;

const DB_ERROR_BODY: &str = "an error has occurred while interacting with the database";

fn stored_row(state: &str, title: &str) -> PostRow {
    PostRow {
        author_tag: String::from("alice"),
        state: String::from(state),
        title: String::from(title),
        content: String::from("body text"),
        tags: String::from("tag"),
        description: String::from("desc"),
        keywords: String::from("kw"),
    }
}

#[test]
fn store_failure_yields_fixed_500() {
    let response = handle_index(Err(StoreError {
        detail: String::from("connection refused"),
    }));
    assert_eq!(response.status, 500);
    assert_eq!(response.body, DB_ERROR_BODY);
}

#[test]
fn store_failure_leaks_no_detail() {
    let response = handle_index(Err(StoreError {
        detail: String::from("near \"SELEC\": syntax error"),
    }));
    assert!(!response.body.contains("syntax error"));
    assert_eq!(response.body, DB_ERROR_BODY);
}

#[test]
fn draft_row_from_store_is_no_silent_omission() {
    let rows = vec![stored_row("published", "visible"), stored_row("draft", "leaked")];
    let response = handle_index(Ok(rows));
    assert_eq!(response.status, 500);
    assert_eq!(response.body, DB_ERROR_BODY);
}

#[test]
fn unknown_state_row_yields_fixed_500() {
    let rows = vec![stored_row("published", "ok"), stored_row("limbo", "bad")];
    let response = handle_index(Ok(rows));
    assert_eq!(response.status, 500);
    assert_eq!(response.body, DB_ERROR_BODY);
}

#[test]
fn empty_store_result_yields_full_page() {
    let response = handle_index(Ok(Vec::new()));
    assert_eq!(response.status, 200);
    assert_eq!(response.content_type, "text/html");
    assert_eq!(
        response.body,
        "<!DOCTYPE html><html><head><title>Home page</title></head>\
         <body><h1>Home page</h1></body></html>"
    );
}

#[test]
fn published_rows_render_in_store_order() {
    let rows = vec![stored_row("published", "first-title"), stored_row("published", "second-title")];
    let response = handle_index(Ok(rows));
    assert_eq!(response.status, 200);
    assert_eq!(response.content_type, "text/html");
    let first = response.body.find("first-title").unwrap();
    let second = response.body.find("second-title").unwrap();
    assert!(first < second);
}

#[test]
fn success_body_is_the_rendered_document() {
    let response = handle_index(Ok(vec![stored_row("published", "only-title")]));
    assert_eq!(response.status, 200);
    assert_eq!(
        response.body,
        "<!DOCTYPE html><html><head><title>Home page</title></head>\
         <body><h1>Home page</h1><article><h2>only-title</h2><p>by alice</p>\
         <p>tags: tag</p><div>body text</div></article></body></html>"
    );
}

#[test]
fn database_error_maps_to_fixed_response() {
    let error = Error::Database(StoreError { detail: String::from("timeout") });
    let response = error.into_response();
    assert_eq!(response.status, 500);
    assert_eq!(response.content_type, "text/plain");
    assert_eq!(response.body, DB_ERROR_BODY);
}

#[test]
fn projection_error_maps_to_fixed_response() {
    let error = Error::Projection(ProjectionError::InvalidState);
    let response = error.into_response();
    assert_eq!(response.status, 500);
    assert_eq!(response.content_type, "text/plain");
    assert_eq!(response.body, DB_ERROR_BODY);
}
