use vstd::prelude::*;

use crate::schema::CreatePostSchema;
use crate::schema::UpdatePostSchema;

verus! {

/// The text of the statement that reads every stored row.
pub open spec fn list_query() -> Seq<char> {
    "SELECT * FROM posts"@
}

/// The text of the statement that inserts a row from the three required
/// fields and returns the stored row, identifier and timestamps included.
pub open spec fn insert_query() -> Seq<char> {
    "INSERT INTO posts (message, username, day) VALUES ($1, $2, $3) RETURNING *"@
}

/// The text of the statement that removes the row keyed by the first
/// bound parameter. No existence check is made: the statement succeeds
/// whether or not a row matches.
pub open spec fn delete_query() -> Seq<char> {
    "DELETE FROM posts WHERE id = $1"@
}

/// The values bound to the insert statement, in placeholder order.
pub open spec fn insert_binds(c: CreatePostSchema) -> Seq<Seq<char>> {
    seq![c.message@, c.username@, c.day@]
}

/// The text of the dynamic update statement for a given subset of present
/// fields. Placeholder `$1` is reserved for the id; each present field, in
/// the fixed order message, username, day, takes the next placeholder. With
/// no field present the statement degenerates to the harmless
/// self-assignment `SET id = $1`.
pub open spec fn update_query(m: bool, u: bool, d: bool) -> Seq<char> {
    "UPDATE posts SET id = $1"@ + message_fragment(m) + username_fragment(m, u)
        + day_fragment(m, u, d) + " WHERE id = $1"@
}

pub open spec fn message_fragment(m: bool) -> Seq<char> {
    if m {
        ", message = $2"@
    } else {
        Seq::empty()
    }
}

pub open spec fn username_fragment(m: bool, u: bool) -> Seq<char> {
    if u {
        if m {
            ", username = $3"@
        } else {
            ", username = $2"@
        }
    } else {
        Seq::empty()
    }
}

pub open spec fn day_fragment(m: bool, u: bool, d: bool) -> Seq<char> {
    if d {
        if m && u {
            ", day = $4"@
        } else if m || u {
            ", day = $3"@
        } else {
            ", day = $2"@
        }
    } else {
        Seq::empty()
    }
}

/// The values bound to the update statement after the id, in placeholder
/// order: exactly the present fields, message first, then username, then
/// day.
pub open spec fn update_binds(u: UpdatePostSchema) -> Seq<Seq<char>> {
    opt_bind(u.message) + opt_bind(u.username) + opt_bind(u.day)
}

pub open spec fn opt_bind(o: Option<String>) -> Seq<Seq<char>> {
    match o {
        Some(s) => seq![s@],
        None => Seq::empty(),
    }
}

/// Builds the unfiltered read statement.
pub fn list_statement() -> (q: String)
    ensures
        q@ == list_query(),
{
    String::from_str("SELECT * FROM posts")
}

/// Builds the delete statement; the caller binds the target id as `$1`.
pub fn delete_statement() -> (q: String)
    ensures
        q@ == delete_query(),
{
    String::from_str("DELETE FROM posts WHERE id = $1")
}

/// Builds the insert statement together with its bound values in
/// placeholder order.
pub fn insert_statement(c: &CreatePostSchema) -> (r: (String, Vec<String>))
    ensures
        r.0@ == insert_query(),
        r.1.deep_view() == insert_binds(*c),
{
    let q = String::from_str(
        "INSERT INTO posts (message, username, day) VALUES ($1, $2, $3) RETURNING *",
    );
    let mut binds: Vec<String> = Vec::new();
    binds.push(c.message.clone());
    binds.push(c.username.clone());
    binds.push(c.day.clone());
    proof {
        assert(binds.deep_view() =~= insert_binds(*c));
    }
    (q, binds)
}

/// Builds the dynamic update statement for the present fields of `u`,
/// together with the values to bind after the id, in placeholder order.
/// Only the column/placeholder structure is assembled as text; every
/// user-supplied value travels as a bound parameter.
pub fn update_statement(u: &UpdatePostSchema) -> (r: (String, Vec<String>))
    ensures
        r.0@ == update_query(u.message is Some, u.username is Some, u.day is Some),
        r.1.deep_view() == update_binds(*u),
{
    let mut q = String::from_str("UPDATE posts SET id = $1");
    let mut binds: Vec<String> = Vec::new();
    if let Some(m) = &u.message {
        q.append(", message = $2");
        binds.push(m.clone());
    }
    if let Some(un) = &u.username {
        if u.message.is_some() {
            q.append(", username = $3");
        } else {
            q.append(", username = $2");
        }
        binds.push(un.clone());
    }
    if let Some(d) = &u.day {
        if u.message.is_some() && u.username.is_some() {
            q.append(", day = $4");
        } else if u.message.is_some() || u.username.is_some() {
            q.append(", day = $3");
        } else {
            q.append(", day = $2");
        }
        binds.push(d.clone());
    }
    q.append(" WHERE id = $1");
    proof {
        assert(q@ =~= update_query(u.message is Some, u.username is Some, u.day is Some));
        assert(binds.deep_view() =~= update_binds(*u));
    }
    (q, binds)
}

} // verus!
