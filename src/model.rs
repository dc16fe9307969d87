//! The records of the feed: stories, their submitters, and the comments of a
//! story's thread.

use vstd::prelude::*;

verus! {

/// The account that submitted a story or wrote a comment.
#[derive(Debug)]
pub struct User {
    pub username: String,
}

/// A story of the feed's list.
#[derive(Debug)]
pub struct Story {
    pub title: String,
    /// An RFC 3339 timestamp.
    pub created_at: String,
    pub score: i8,
    /// The comment count that the list reports; the thread itself may differ.
    pub comment_count: u8,
    /// The story's key; it names the story's thread document.
    pub short_id: String,
    /// The story's permalink.
    pub short_id_url: String,
    /// The linked page; empty for a story that links to nothing but itself.
    pub url: String,
    pub tags: Vec<String>,
    pub submitter_user: User,
}

/// A story's thread as the feed returns it.
#[derive(Debug)]
pub struct CommentRoot {
    pub short_id: String,
    /// The comments in pre-order of the reply tree.
    pub comments: Vec<Comment>,
}

/// One comment of a thread.
#[derive(Debug)]
pub struct Comment {
    /// The body, which may hold markup.
    pub comment: String,
    /// An RFC 3339 timestamp.
    pub created_at: String,
    pub score: i8,
    /// The nesting level in the reply tree; 0 for a reply to the story.
    pub depth: u8,
    pub commenting_user: User,
}

} // verus!
