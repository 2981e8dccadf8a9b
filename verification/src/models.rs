//! The data model: the persisted `Post` entity and the transient
//! `CreatePost` request shape used by both create and update.

use vstd::prelude::*;

verus! {

/// A row of the `posts` table: a server-assigned id together with a
/// title and a content string.  `title` and `content` are always
/// present (the empty string is permitted, absence is not).
pub struct Post {
    pub id: i64,
    pub title: String,
    pub content: String,
}

/// The mathematical value of a [`Post`]: its id as an unbounded
/// integer and its two fields as character sequences.
pub ghost struct PostView {
    pub id: int,
    pub title: Seq<char>,
    pub content: Seq<char>,
}

impl View for Post {
    type V = PostView;

    open spec fn view(&self) -> PostView {
        PostView { id: self.id as int, title: self.title@, content: self.content@ }
    }
}

impl Post {
    /// An explicit deep copy.  (A derived `Clone` would be opaque to the
    /// verifier; this one carries a contract.)
    pub fn duplicate(&self) -> (r: Post)
        ensures
            r@ == self@,
    {
        Post { id: self.id, title: self.title.clone(), content: self.content.clone() }
    }
}

/// The request payload for creating a new post or replacing the fields
/// of an existing one.  It carries no id: on create the storage layer
/// assigns one, on update the id comes from the request path.
pub struct CreatePost {
    pub title: String,
    pub content: String,
}

/// The mathematical value of a [`CreatePost`].
pub ghost struct CreatePostView {
    pub title: Seq<char>,
    pub content: Seq<char>,
}

impl View for CreatePost {
    type V = CreatePostView;

    open spec fn view(&self) -> CreatePostView {
        CreatePostView { title: self.title@, content: self.content@ }
    }
}

} // verus!
