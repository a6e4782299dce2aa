use blog::Post;

#[test]
fn new_post_is_a_hidden_empty_draft() {
    let p = Post::new();
    assert!(!p.is_published());
    assert_eq!(p.content(), "");
}

#[test]
fn default_is_a_fresh_draft() {
    let p = Post::default();
    assert!(!p.is_published());
    assert_eq!(p.content(), "");
}

#[test]
fn content_stays_hidden_until_published() {
    let mut p = Post::new();
    p.add_text("x");
    assert_eq!(p.content(), "");
    p.request_review();
    assert_eq!(p.content(), "");
    p.approve();
    assert_eq!(p.content(), "");
    assert!(!p.is_published());
    p.approve();
    assert!(p.is_published());
    assert_eq!(p.content(), "x");
}

#[test]
fn draft_appends_in_order() {
    let mut p = Post::new();
    p.add_text("hello");
    p.add_text(", world");
    p.request_review();
    p.approve();
    p.approve();
    assert_eq!(p.content(), "hello, world");
}

#[test]
fn appending_the_empty_string_changes_nothing() {
    let mut p = Post::new();
    p.add_text("");
    p.add_text("a");
    p.add_text("");
    p.request_review();
    p.approve();
    p.approve();
    assert_eq!(p.content(), "a");
}

#[test]
fn append_after_leaving_draft_is_ignored() {
    let mut p = Post::new();
    p.add_text("ab");
    p.request_review();
    p.add_text("cd");
    p.approve();
    p.approve();
    p.add_text("ef");
    assert_eq!(p.content(), "ab");
}

#[test]
fn request_review_twice_equals_once() {
    let mut once = Post::new();
    once.add_text("t");
    once.request_review();
    let mut twice = Post::new();
    twice.add_text("t");
    twice.request_review();
    twice.request_review();
    once.approve();
    twice.approve();
    assert!(!once.is_published());
    assert!(!twice.is_published());
    once.approve();
    twice.approve();
    assert!(once.is_published());
    assert!(twice.is_published());
    assert_eq!(once.content(), "t");
    assert_eq!(twice.content(), "t");
}

#[test]
fn two_approvals_publish_one_does_not() {
    let mut p = Post::new();
    p.add_text("body");
    p.request_review();
    p.approve();
    assert!(!p.is_published());
    assert_eq!(p.content(), "");
    p.approve();
    assert!(p.is_published());
    assert_eq!(p.content(), "body");
}

#[test]
fn reject_returns_to_draft_and_resets_approvals() {
    let mut p = Post::new();
    p.add_text("v1");
    p.request_review();
    p.approve();
    p.reject();
    assert!(!p.is_published());
    assert_eq!(p.content(), "");
    p.request_review();
    p.approve();
    assert!(!p.is_published());
    p.approve();
    assert!(p.is_published());
}

#[test]
fn published_is_terminal() {
    let mut p = Post::new();
    p.add_text("done");
    p.request_review();
    p.approve();
    p.approve();
    assert!(p.is_published());
    p.reject();
    assert!(p.is_published());
    assert_eq!(p.content(), "done");
    p.request_review();
    assert!(p.is_published());
    assert_eq!(p.content(), "done");
    p.approve();
    assert!(p.is_published());
    assert_eq!(p.content(), "done");
}

#[test]
fn approve_and_reject_on_a_draft_are_noops() {
    let mut p = Post::new();
    p.approve();
    p.reject();
    p.add_text("still a draft");
    assert!(!p.is_published());
    p.request_review();
    p.approve();
    p.approve();
    assert_eq!(p.content(), "still a draft");
}

#[test]
fn full_review_cycle_shows_the_text() {
    let mut p = Post::new();
    p.add_text("hi");
    p.request_review();
    p.approve();
    p.approve();
    assert_eq!(p.content(), "hi");
}

#[test]
fn a_rejected_post_keeps_its_body() {
    let mut p = Post::new();
    p.add_text("hi");
    p.request_review();
    p.approve();
    p.reject();
    assert_eq!(p.content(), "");
    p.add_text("x");
    p.request_review();
    p.approve();
    p.approve();
    assert_eq!(p.content(), "hix");
}
