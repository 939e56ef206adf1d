//! The post record, the only entity of the blog.

use vstd::prelude::*;

verus! {

/// What a [`Post`] is, as mathematics: its identifier and its three texts.
pub struct PostView {
    pub id: u32,
    pub title: Seq<char>,
    pub post_body: Seq<char>,
    pub created_time: Seq<char>,
}

/// A stored post. The identifier and the creation time are assigned by the
/// storage engine when the row is inserted; nothing in this crate changes a
/// post once it exists, so the fields are only readable.
#[derive(Debug, PartialEq)]
pub struct Post {
    id: u32,
    title: String,
    post_body: String,
    created_time: String,
}

impl View for Post {
    type V = PostView;

    closed spec fn view(&self) -> PostView {
        PostView {
            id: self.id,
            title: self.title@,
            post_body: self.post_body@,
            created_time: self.created_time@,
        }
    }
}

impl DeepView for Post {
    type V = PostView;

    open spec fn deep_view(&self) -> PostView {
        self@
    }
}

impl Post {
    /// Builds a post from the four values of its row.
    pub fn new(id: u32, title: String, post_body: String, created_time: String) -> (post: Post)
        ensures
            post@ == (PostView {
                id,
                title: title@,
                post_body: post_body@,
                created_time: created_time@,
            }),
    {
        Post { id, title, post_body, created_time }
    }

    /// The identifier the storage engine gave the post.
    pub fn id(&self) -> (id: u32)
        ensures
            id == self@.id,
    {
        self.id
    }

    /// The title, as it was submitted.
    pub fn title(&self) -> (title: &str)
        ensures
            title@ == self@.title,
    {
        self.title.as_str()
    }

    /// The body, as it was submitted.
    pub fn post_body(&self) -> (post_body: &str)
        ensures
            post_body@ == self@.post_body,
    {
        self.post_body.as_str()
    }

    /// The creation time, in the text form the storage engine wrote.
    pub fn created_time(&self) -> (created_time: &str)
        ensures
            created_time@ == self@.created_time,
    {
        self.created_time.as_str()
    }
}

impl Clone for Post {
    fn clone(&self) -> (copy: Post)
        ensures
            copy@ == self@,
    {
        Post {
            id: self.id,
            title: self.title.clone(),
            post_body: self.post_body.clone(),
            created_time: self.created_time.clone(),
        }
    }
}

} // verus!
