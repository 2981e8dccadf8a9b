//! A small CRUD service for a single `posts` table, exposed over HTTP as
//! JSON.  This crate holds the verified core: the semantics of the table
//! (insert with server-assigned ids, lookup, wholesale update, delete,
//! listing in descending id order), the mapping from storage outcomes to
//! HTTP responses, and the JSON encoding of the response bodies.  The
//! unverified shell around it (the router, the database driver, the
//! listener) lives outside this crate and hands plain values in and out.

pub mod models;
pub mod handlers;
pub mod json;
pub mod table;

pub use models::{CreatePost, Post};
pub use handlers::{Response, StorageError};
pub use table::PostTable;
