use blog::error::ProjectionError;
use blog::model::{project, PostRow};
use blog::state::PostState;

fn sample_row(state: &str) -> PostRow {
    PostRow {
        author_tag: String::from("alice"),
        state: String::from(state),
        title: String::from("First post"),
        content: String::from("Hello, world."),
        tags: String::from("intro, meta"),
        description: String::from("The very first post"),
        keywords: String::from("blog, first"),
    }
}

#[test]
fn project_preserves_fields_and_resolves_state() {
    let view = project(sample_row("published")).unwrap();
    assert_eq!(view.author_tag, "alice");
    assert_eq!(view.state, PostState::Published);
    assert_eq!(view.title, "First post");
    assert_eq!(view.content, "Hello, world.");
    assert_eq!(view.tags, "intro, meta");
    assert_eq!(view.description, "The very first post");
    assert_eq!(view.keywords, "blog, first");
}

#[test]
fn project_resolves_each_state() {
    assert_eq!(project(sample_row("draft")).unwrap().state, PostState::Draft);
    assert_eq!(project(sample_row("published")).unwrap().state, PostState::Published);
    assert_eq!(project(sample_row("trashed")).unwrap().state, PostState::Trashed);
}

#[test]
fn project_rejects_unknown_state() {
    match project(sample_row("deleted")) {
        Err(e) => assert_eq!(e, ProjectionError::InvalidState),
        Ok(_) => panic!("projected a row with an unknown state"),
    }
}

#[test]
fn cloned_row_matches_original() {
    let row = sample_row("draft");
    let copy = row.clone();
    assert_eq!(copy.author_tag, row.author_tag);
    assert_eq!(copy.state, row.state);
    assert_eq!(copy.title, row.title);
    assert_eq!(copy.content, row.content);
    assert_eq!(copy.tags, row.tags);
    assert_eq!(copy.description, row.description);
    assert_eq!(copy.keywords, row.keywords);
}
