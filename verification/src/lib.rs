//! A content-approval workflow for a single piece of text.
//!
//! A [`Post`] owns a text body and a current workflow [`state::State`]. The
//! body grows only by appending while the post is a draft; the three triggers
//! (`request_review`, `approve`, `reject`) move the post between the states
//! `Draft`, `PendingReview` and `Published`. Every trigger is total: when it
//! does not apply to the current state it leaves the post unchanged rather
//! than failing. The body becomes visible through [`Post::content`] only once
//! the post is published.

pub mod laws;
pub mod post;
pub mod state;

pub use post::Post;
