//! The request handlers' decision logic: each of the five routes maps
//! the outcome of its one storage operation to an HTTP status and a
//! JSON body.
//!
//! The storage call itself — the part that talks to the database over
//! a connection pool — stays outside the verified library; it hands in
//! either the fetched rows or an error, and the functions here decide
//! the response.  Storage failures are collapsed into one opaque
//! variant and answered with a generic server error carrying no
//! detail; a missing row is answered distinctly with "not found" where
//! the route can tell the difference.

use vstd::prelude::*;

use crate::json::{post_json, post_json_string, posts_json, posts_json_string};
use crate::models::{CreatePost, Post, PostView};

verus! {

/// 200: the request succeeded.
pub const STATUS_OK: u16 = 200;

/// 201: a new resource was created.
pub const STATUS_CREATED: u16 = 201;

/// 204: the request succeeded and the response carries no body.
pub const STATUS_NO_CONTENT: u16 = 204;

/// 404: no row matches the requested id.
pub const STATUS_NOT_FOUND: u16 = 404;

/// 500: the storage layer failed; no detail is leaked to the client.
pub const STATUS_INTERNAL_ERROR: u16 = 500;

/// What the storage layer reports when a statement does not succeed.
/// Only a failed single-row fetch distinguishes the missing row; every
/// other failure is opaque.
pub enum StorageError {
    /// A single-row fetch matched no row.
    NotFound,
    /// Any other storage failure (connection, constraint, driver).
    Other,
}

/// An HTTP response: a status code and the body text (empty where the
/// route sends no body).
pub struct Response {
    pub status: u16,
    pub body: String,
}

/// List all posts, most recently created first.
///
/// `fetched` is the outcome of `SELECT id, title, content FROM posts
/// ORDER BY id DESC`: on success the response is 200 with the JSON
/// array of the rows in the fetched order; on any storage failure it
/// is 500 with no body.
pub fn get_posts(fetched: Result<Vec<Post>, StorageError>) -> (resp: Response)
    ensures
        match fetched {
            Ok(posts) => resp.status == STATUS_OK && resp.body@ == posts_json(
                posts@.map_values(|p: Post| p@),
            ),
            Err(_) => resp.status == STATUS_INTERNAL_ERROR && resp.body@ == Seq::<char>::empty(),
        },
{
    match fetched {
        Ok(posts) => Response { status: STATUS_OK, body: posts_json_string(&posts) },
        Err(_) => Response { status: STATUS_INTERNAL_ERROR, body: String::new() },
    }
}

/// Create a post from the request body.
///
/// `inserted` is the outcome of `INSERT INTO posts (title, content)
/// VALUES (?, ?)`: on success it carries the id the storage layer
/// assigned, and the response is 201 with the new post — the assigned
/// id together with the unchanged title and content — as its body; on
/// failure it is 500 with no body.  (A malformed request body never
/// reaches this point: it is rejected as a client error before the
/// insert is attempted.)
pub fn create_post(input: CreatePost, inserted: Result<i64, StorageError>) -> (resp: Response)
    ensures
        match inserted {
            Ok(id) => resp.status == STATUS_CREATED && resp.body@ == post_json(
                PostView { id: id as int, title: input@.title, content: input@.content },
            ),
            Err(_) => resp.status == STATUS_INTERNAL_ERROR && resp.body@ == Seq::<char>::empty(),
        },
{
    match inserted {
        Ok(id) => {
            let post = Post { id, title: input.title, content: input.content };
            Response { status: STATUS_CREATED, body: post_json_string(&post) }
        },
        Err(_) => Response { status: STATUS_INTERNAL_ERROR, body: String::new() },
    }
}

/// Fetch one post by id.
///
/// `fetched` is the outcome of `SELECT id, title, content FROM posts
/// WHERE id = ?` expecting exactly one row: a fetched row is answered
/// with 200 and the post as JSON; a missing row with 404; any other
/// storage failure with 500.
pub fn get_post(fetched: Result<Post, StorageError>) -> (resp: Response)
    ensures
        match fetched {
            Ok(p) => resp.status == STATUS_OK && resp.body@ == post_json(p@),
            Err(StorageError::NotFound) => resp.status == STATUS_NOT_FOUND && resp.body@ == Seq::<
                char,
            >::empty(),
            Err(StorageError::Other) => resp.status == STATUS_INTERNAL_ERROR && resp.body@ == Seq::<
                char,
            >::empty(),
        },
{
    match fetched {
        Ok(p) => Response { status: STATUS_OK, body: post_json_string(&p) },
        Err(StorageError::NotFound) => Response {
            status: STATUS_NOT_FOUND,
            body: String::new(),
        },
        Err(StorageError::Other) => Response {
            status: STATUS_INTERNAL_ERROR,
            body: String::new(),
        },
    }
}

/// Replace the title and content of one post.
///
/// `outcome` is the outcome of `UPDATE posts SET title = ?, content =
/// ? WHERE id = ?`: it carries how many rows were modified.  Exactly
/// as many rows match as exist with that id, so zero modified rows
/// means the id does not exist: 404.  At least one modified row is
/// answered with 200; a storage failure with 500.  No body either way.
pub fn update_post(outcome: Result<u64, StorageError>) -> (resp: Response)
    ensures
        resp.body@ == Seq::<char>::empty(),
        match outcome {
            Ok(rows_affected) => resp.status == (if rows_affected == 0 {
                STATUS_NOT_FOUND
            } else {
                STATUS_OK
            }),
            Err(_) => resp.status == STATUS_INTERNAL_ERROR,
        },
{
    match outcome {
        Ok(rows_affected) => {
            if rows_affected == 0 {
                Response { status: STATUS_NOT_FOUND, body: String::new() }
            } else {
                Response { status: STATUS_OK, body: String::new() }
            }
        },
        Err(_) => Response { status: STATUS_INTERNAL_ERROR, body: String::new() },
    }
}

/// Delete one post by id.
///
/// `outcome` is the outcome of `DELETE FROM posts WHERE id = ?`: zero
/// removed rows means the id does not exist: 404.  At least one
/// removed row is answered with 204; a storage failure with 500.  No
/// body either way.
pub fn delete_post(outcome: Result<u64, StorageError>) -> (resp: Response)
    ensures
        resp.body@ == Seq::<char>::empty(),
        match outcome {
            Ok(rows_affected) => resp.status == (if rows_affected == 0 {
                STATUS_NOT_FOUND
            } else {
                STATUS_NO_CONTENT
            }),
            Err(_) => resp.status == STATUS_INTERNAL_ERROR,
        },
{
    match outcome {
        Ok(rows_affected) => {
            if rows_affected == 0 {
                Response { status: STATUS_NOT_FOUND, body: String::new() }
            } else {
                Response { status: STATUS_NO_CONTENT, body: String::new() }
            }
        },
        Err(_) => Response { status: STATUS_INTERNAL_ERROR, body: String::new() },
    }
}

} // verus!
