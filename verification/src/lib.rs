//! A verified request-to-persistence mapping layer for a small CRUD service
//! over a single resource: a post with a message, an author, and a day label.
//!
//! The library builds the parameterized statements that the storage backend
//! executes, frames the JSON response envelopes, maps backend results to
//! HTTP status codes and bodies, and models the stored table so that the
//! behaviour of partial updates and deletes can be stated and proved.

pub mod handlers;
pub mod json;
pub mod laws;
pub mod schema;
pub mod statements;
pub mod store;

pub use schema::CreatePostSchema;
pub use schema::Post;
pub use schema::UpdatePostSchema;

use vstd::prelude::*;

verus! {

/// The greatest number of live backend connections the pool may hold.
pub const MAX_POOL_CONNECTIONS: u32 = 64;

/// The longest wait, in seconds, for a pool connection before acquisition
/// fails with a timeout.
pub const ACQUIRE_TIMEOUT_SECS: u64 = 5;

} // verus!
