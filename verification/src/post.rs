//! The post itself: a text body under workflow control, together with the
//! model its contracts are stated over.

use vstd::prelude::*;

use crate::state::NEEDED_APPROVALS;
use crate::state::State;

verus! {

/// The mathematical model of a post: the text it has accumulated and the
/// workflow state it is in.
pub struct PostView {
    /// The accumulated body text.
    pub body: Seq<char>,
    /// The current workflow state.
    pub state: State,
}

/// The text a reader is shown: the whole body once the post is published,
/// and nothing at all before that.
pub open spec fn visible(v: PostView) -> Seq<char> {
    if v.state is Published {
        v.body
    } else {
        Seq::<char>::empty()
    }
}

/// What appending `text` does to a post: a draft grows by `text` at the end;
/// a post that has left `Draft` is immutable and stays unchanged.
pub open spec fn after_add_text(v: PostView, text: Seq<char>) -> PostView {
    if v.state is Draft {
        PostView { body: v.body + text, state: v.state }
    } else {
        v
    }
}

/// What requesting a review does: a draft becomes pending with no approvals
/// yet; a pending or published post stays unchanged.
pub open spec fn after_request_review(v: PostView) -> PostView {
    match v.state {
        State::Draft => PostView { body: v.body, state: State::PendingReview { approvals: 0 } },
        _ => v,
    }
}

/// What an approval does: a pending post is published once this approval
/// reaches [`NEEDED_APPROVALS`] and otherwise counts it; a draft or published
/// post stays unchanged.
pub open spec fn after_approve(v: PostView) -> PostView {
    match v.state {
        State::PendingReview { approvals } => if approvals + 1 < NEEDED_APPROVALS {
            PostView { body: v.body, state: State::PendingReview { approvals: (approvals + 1) as u8 } }
        } else {
            PostView { body: v.body, state: State::Published }
        },
        _ => v,
    }
}

/// What a rejection does: a pending post returns to `Draft` with its
/// approvals discarded but its body kept; a draft or published post stays
/// unchanged.
pub open spec fn after_reject(v: PostView) -> PostView {
    match v.state {
        State::PendingReview { .. } => PostView { body: v.body, state: State::Draft },
        _ => v,
    }
}

/// A piece of text content under workflow control.
///
/// A post starts as an empty draft; its body grows only by appending and only
/// while it is a draft. The three triggers are total: when one does not apply
/// to the current state it leaves the post unchanged rather than failing.
pub struct Post {
    state: State,
    body: String,
}

impl View for Post {
    type V = PostView;

    closed spec fn view(&self) -> PostView {
        PostView { body: self.body@, state: self.state }
    }
}

impl Post {
    /// The approval counter exists only while the post is pending and stays
    /// below the publication threshold.
    #[verifier::type_invariant]
    spec fn wf(self) -> bool {
        self.state matches State::PendingReview { approvals } ==> approvals < NEEDED_APPROVALS
    }

    /// Creates a post: a draft with an empty body.
    pub fn new() -> (post: Post)
        ensures
            post@.state is Draft,
            post@.body == Seq::<char>::empty(),
    {
        Post { state: State::Draft, body: String::new() }
    }

    /// Appends `text` to the body while the post is a draft. Once the post
    /// has left `Draft` its content is immutable: the call is a no-op, not an
    /// error.
    pub fn add_text(&mut self, text: &str)
        ensures
            final(self)@ == after_add_text(old(self)@, text@),
    {
        match self.state {
            State::Draft => {
                // The type invariant forbids lending out a field to a call
                // that could unwind, so the body is swapped out and back.
                let mut body = String::new();
                core::mem::swap(&mut body, &mut self.body);
                body.append(text);
                self.body = body;
            },
            _ => {},
        }
    }

    /// The text a reader is shown: the full body once the post is published,
    /// the empty string before that.
    pub fn content(&self) -> (text: &str)
        ensures
            text@ == visible(self@),
    {
        proof {
            reveal_strlit("");
        }
        match self.state {
            State::Published => self.body.as_str(),
            _ => "",
        }
    }

    /// Whether the post is currently published.
    pub fn is_published(&self) -> (published: bool)
        ensures
            published == (self@.state is Published),
    {
        match self.state {
            State::Published => true,
            _ => false,
        }
    }

    /// Submits a draft for review, starting with no approvals. On a pending
    /// or published post the call leaves everything unchanged.
    pub fn request_review(&mut self)
        ensures
            final(self)@ == after_request_review(old(self)@),
    {
        match self.state {
            State::Draft => {
                self.state = State::PendingReview { approvals: 0 };
            },
            _ => {},
        }
    }

    /// Records one approval of a pending post, publishing it once
    /// [`NEEDED_APPROVALS`] approvals have arrived. On a draft or published
    /// post the call leaves everything unchanged.
    pub fn approve(&mut self)
        ensures
            final(self)@ == after_approve(old(self)@),
    {
        proof {
            use_type_invariant(&*self);
        }
        match self.state {
            State::PendingReview { approvals } => {
                if approvals + 1 < NEEDED_APPROVALS {
                    self.state = State::PendingReview { approvals: approvals + 1 };
                } else {
                    self.state = State::Published;
                }
            },
            _ => {},
        }
    }

    /// Rejects a pending post back to `Draft`, discarding its approvals but
    /// keeping its body. On a draft or published post the call leaves
    /// everything unchanged.
    pub fn reject(&mut self)
        ensures
            final(self)@ == after_reject(old(self)@),
    {
        match self.state {
            State::PendingReview { .. } => {
                self.state = State::Draft;
            },
            _ => {},
        }
    }
}

impl Default for Post {
    /// The default post is a fresh one: a draft with an empty body.
    fn default() -> (post: Post)
        ensures
            post@.state is Draft,
            post@.body == Seq::<char>::empty(),
    {
        Post::new()
    }
}

} // verus!
