use vstd::prelude::*;

verus! {

/// Payload shape accepted when creating a post: all three content fields
/// are required.
pub struct CreatePostSchema {
    pub message: String,
    pub username: String,
    pub day: String,
}

/// Payload shape accepted when updating a post: any subset of the three
/// content fields may be present, including none at all.
pub struct UpdatePostSchema {
    pub message: Option<String>,
    pub username: Option<String>,
    pub day: Option<String>,
}

/// A stored post. The identifier is a 128-bit value assigned by the backend
/// (rendered as a hyphenated UUID on the wire); the two timestamps are
/// carried as already-rendered text and may be absent.
#[derive(Debug, PartialEq, Eq)]
pub struct Post {
    pub id: u128,
    pub message: String,
    pub username: String,
    pub day: String,
    pub created_at: Option<String>,
    pub updated_at: Option<String>,
}

impl Clone for Post {
    fn clone(&self) -> (r: Self)
        ensures
            r == *self,
    {
        Post {
            id: self.id,
            message: self.message.clone(),
            username: self.username.clone(),
            day: self.day.clone(),
            created_at: clone_opt_string(&self.created_at),
            updated_at: clone_opt_string(&self.updated_at),
        }
    }
}

fn clone_opt_string(o: &Option<String>) -> (r: Option<String>)
    ensures
        r == *o,
{
    match o {
        Some(s) => Some(s.clone()),
        None => None,
    }
}

} // verus!
