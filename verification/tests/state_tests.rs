use blog::state::{parse_state, PostState, UnknownPostState};

#[test]
fn parse_state_draft() {
    assert_eq!(parse_state("draft"), Ok(PostState::Draft));
}

#[test]
fn parse_state_published() {
    assert_eq!(parse_state("published"), Ok(PostState::Published));
}

#[test]
fn parse_state_trashed() {
    assert_eq!(parse_state("trashed"), Ok(PostState::Trashed));
}

#[test]
fn parse_state_unknown_value() {
    assert_eq!(parse_state("archived"), Err(UnknownPostState));
}

#[test]
fn parse_state_empty_string() {
    assert_eq!(parse_state(""), Err(UnknownPostState));
}

#[test]
fn parse_state_is_case_sensitive() {
    assert_eq!(parse_state("Draft"), Err(UnknownPostState));
    assert_eq!(parse_state("PUBLISHED"), Err(UnknownPostState));
}

#[test]
fn parse_state_rejects_padding() {
    assert_eq!(parse_state(" published"), Err(UnknownPostState));
    assert_eq!(parse_state("published "), Err(UnknownPostState));
}
