use vstd::prelude::*;

use crate::json::error_body;
use crate::json::list_success_body;
use crate::json::plain_success_body;
use crate::json::post_success_body;
use crate::json::render_error;
use crate::json::render_list_success;
use crate::json::render_plain_success;
use crate::json::render_post_success;
use crate::schema::Post;

verus! {

/// Maps the outcome of the unfiltered read to a response: 200 with every
/// row under `data` on success (an empty table included), 500 with the
/// backend's message on failure.
pub fn get_posts_response(r: Result<Vec<Post>, String>) -> (resp: (u16, String))
    ensures
        r is Ok ==> resp.0 == 200 && resp.1@ == list_success_body(r->Ok_0@),
        r is Err ==> resp.0 == 500 && resp.1@ == error_body(r->Err_0@),
{
    match r {
        Ok(posts) => (200, render_list_success(&posts)),
        Err(e) => (500, render_error(e.as_str())),
    }
}

/// Maps the outcome of the insert to a response: 201 with the stored row
/// under `data` on success, 500 with the backend's message on failure.
pub fn create_post_response(r: Result<Post, String>) -> (resp: (u16, String))
    ensures
        r is Ok ==> resp.0 == 201 && resp.1@ == post_success_body(r->Ok_0),
        r is Err ==> resp.0 == 500 && resp.1@ == error_body(r->Err_0@),
{
    match r {
        Ok(post) => (201, render_post_success(&post)),
        Err(e) => (500, render_error(e.as_str())),
    }
}

/// Maps the outcome of the partial update to a response: 200 with the
/// plain success envelope whether or not a row matched, 500 with the
/// backend's message on failure.
pub fn update_post_response(r: Result<(), String>) -> (resp: (u16, String))
    ensures
        r is Ok ==> resp.0 == 200 && resp.1@ == plain_success_body(),
        r is Err ==> resp.0 == 500 && resp.1@ == error_body(r->Err_0@),
{
    match r {
        Ok(_) => (200, render_plain_success()),
        Err(e) => (500, render_error(e.as_str())),
    }
}

/// Maps the outcome of the delete to a response: 200 with the plain
/// success envelope whether or not a row matched, 500 with the backend's
/// message on failure.
pub fn delete_post_response(r: Result<(), String>) -> (resp: (u16, String))
    ensures
        r is Ok ==> resp.0 == 200 && resp.1@ == plain_success_body(),
        r is Err ==> resp.0 == 500 && resp.1@ == error_body(r->Err_0@),
{
    match r {
        Ok(_) => (200, render_plain_success()),
        Err(e) => (500, render_error(e.as_str())),
    }
}

} // verus!
