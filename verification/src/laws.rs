//! The laws the workflow obeys, stated over the model of [`crate::post`] and
//! proved once and for all.

use vstd::prelude::*;

use crate::post::after_add_text;
use crate::post::after_approve;
use crate::post::after_reject;
use crate::post::after_request_review;
use crate::post::visible;
use crate::post::PostView;
use crate::state::State;

verus! {

/// A post shows no text at all unless it is published.
pub proof fn lemma_hidden_unless_published(v: PostView)
    requires
        !(v.state is Published),
    ensures
        visible(v) == Seq::<char>::empty(),
{
}

/// Appending to a draft preserves order: `t1` and then `t2` extend the body
/// by exactly `t1 + t2`, and the post stays a draft.
pub proof fn lemma_append_keeps_order(v: PostView, t1: Seq<char>, t2: Seq<char>)
    requires
        v.state is Draft,
    ensures
        after_add_text(after_add_text(v, t1), t2).body == v.body + t1 + t2,
        after_add_text(after_add_text(v, t1), t2).state is Draft,
{
}

/// Appending once a post has left `Draft` changes nothing at all.
pub proof fn lemma_append_outside_draft(v: PostView, t: Seq<char>)
    requires
        !(v.state is Draft),
    ensures
        after_add_text(v, t) == v,
{
}

/// Requesting a review twice in a row from `Draft` is the same as requesting
/// it once.
pub proof fn lemma_request_review_idempotent(v: PostView)
    requires
        v.state is Draft,
    ensures
        after_request_review(after_request_review(v)) == after_request_review(v),
{
}

/// From a fresh submission, one approval leaves the post pending with a
/// single approval and its text still hidden; [`crate::state::NEEDED_APPROVALS`]
/// approvals publish it.
pub proof fn lemma_approvals_publish(v: PostView)
    requires
        v.state == (State::PendingReview { approvals: 0u8 }),
    ensures
        after_approve(v).state == (State::PendingReview { approvals: 1u8 }),
        visible(after_approve(v)) == Seq::<char>::empty(),
        after_approve(after_approve(v)).state is Published,
{
}

/// A rejection sends a partly approved post back to `Draft` and discards its
/// approvals: a later review request starts counting from zero again.
pub proof fn lemma_reject_restarts_review(v: PostView)
    requires
        v.state == (State::PendingReview { approvals: 1u8 }),
    ensures
        after_reject(v).state is Draft,
        after_request_review(after_reject(v)).state == (State::PendingReview { approvals: 0u8 }),
{
}

/// A published post is terminal: rejecting it or re-requesting review leaves
/// it published with its body unchanged.
pub proof fn lemma_published_is_terminal(v: PostView)
    requires
        v.state is Published,
    ensures
        after_reject(v) == v,
        after_request_review(v) == v,
{
}

} // verus!
