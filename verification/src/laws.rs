use vstd::prelude::*;

use crate::json::list_success_body;
use crate::schema::Post;
use crate::schema::UpdatePostSchema;
use crate::store::apply_delete;
use crate::store::apply_fields;
use crate::store::apply_update;

verus! {

/// Listing an empty table yields the success envelope with an empty data
/// array, not an error.
pub proof fn lemma_empty_listing_body()
    ensures
        list_success_body(Seq::<Post>::empty()) == "{\"data\":[],\"success\":true}"@,
{
    reveal_strlit("{\"data\":[");
    reveal_strlit("],\"success\":true}");
    reveal_strlit("{\"data\":[],\"success\":true}");
    assert(list_success_body(Seq::<Post>::empty()) =~= "{\"data\":[],\"success\":true}"@);
}

/// An update whose payload names no field leaves every row of the table
/// exactly as it was: the degenerate self-assignment alters no column.
pub proof fn lemma_empty_update_is_noop(s: Seq<Post>, id: u128, u: UpdatePostSchema)
    requires
        u.message is None,
        u.username is None,
        u.day is None,
    ensures
        apply_update(s, id, u) == s,
{
    assert(apply_update(s, id, u) =~= s);
}

/// A partial update keyed by an id that no stored row carries changes
/// nothing, yet is reported as success.
pub proof fn lemma_update_absent_id_is_noop(s: Seq<Post>, id: u128, u: UpdatePostSchema)
    requires
        forall|i: int| 0 <= i < s.len() ==> (#[trigger] s[i].id) != id,
    ensures
        apply_update(s, id, u) == s,
{
    assert(apply_update(s, id, u) =~= s);
}

/// A delete keyed by an id that no stored row carries changes nothing,
/// yet is reported as success.
pub proof fn lemma_delete_absent_id_is_noop(s: Seq<Post>, id: u128)
    requires
        forall|i: int| 0 <= i < s.len() ==> (#[trigger] s[i].id) != id,
    ensures
        apply_delete(s, id) == s,
    decreases s.len(),
{
    if s.len() == 0 {
        assert(apply_delete(s, id) =~= s);
    } else {
        let st = s.drop_first();
        assert(forall|i: int| 0 <= i < st.len() ==> (#[trigger] st[i].id) != id);
        lemma_delete_absent_id_is_noop(st, id);
        assert(apply_delete(s, id) =~= s);
    }
}

/// A partial update touches exactly the named columns of the row it keys:
/// every other row is untouched, the keyed row keeps its id, timestamps
/// and every column the payload does not name, and each named column
/// takes the supplied value.
pub proof fn lemma_update_touches_only_named_columns(
    s: Seq<Post>,
    id: u128,
    u: UpdatePostSchema,
    i: int,
)
    requires
        0 <= i < s.len(),
    ensures
        apply_update(s, id, u).len() == s.len(),
        s[i].id != id ==> apply_update(s, id, u)[i] == s[i],
        apply_update(s, id, u)[i].id == s[i].id,
        apply_update(s, id, u)[i].created_at == s[i].created_at,
        apply_update(s, id, u)[i].updated_at == s[i].updated_at,
        s[i].id == id && u.message is Some ==> apply_update(s, id, u)[i].message == u.message->0,
        s[i].id == id && u.username is Some ==> apply_update(s, id, u)[i].username == u.username->0,
        s[i].id == id && u.day is Some ==> apply_update(s, id, u)[i].day == u.day->0,
        u.message is None ==> apply_update(s, id, u)[i].message == s[i].message,
        u.username is None ==> apply_update(s, id, u)[i].username == s[i].username,
        u.day is None ==> apply_update(s, id, u)[i].day == s[i].day,
{
}

/// Whether two update payloads name disjoint subsets of the three
/// content columns.
pub open spec fn disjoint_fields(u1: UpdatePostSchema, u2: UpdatePostSchema) -> bool {
    &&& !(u1.message is Some && u2.message is Some)
    &&& !(u1.username is Some && u2.username is Some)
    &&& !(u1.day is Some && u2.day is Some)
}

/// Two updates of one row that name disjoint column subsets do not
/// disturb each other: applied in either order they give the same row,
/// each column named by one of them holds that payload's value
/// afterwards, and a column named by neither keeps its prior value.
pub proof fn lemma_disjoint_updates_commute(p: Post, u1: UpdatePostSchema, u2: UpdatePostSchema)
    requires
        disjoint_fields(u1, u2),
    ensures
        apply_fields(apply_fields(p, u1), u2) == apply_fields(apply_fields(p, u2), u1),
        u1.message is Some ==> apply_fields(apply_fields(p, u1), u2).message == u1.message->0,
        u2.message is Some ==> apply_fields(apply_fields(p, u1), u2).message == u2.message->0,
        u1.username is Some ==> apply_fields(apply_fields(p, u1), u2).username == u1.username->0,
        u2.username is Some ==> apply_fields(apply_fields(p, u1), u2).username == u2.username->0,
        u1.day is Some ==> apply_fields(apply_fields(p, u1), u2).day == u1.day->0,
        u2.day is Some ==> apply_fields(apply_fields(p, u1), u2).day == u2.day->0,
        u1.message is None && u2.message is None ==> apply_fields(apply_fields(p, u1), u2).message
            == p.message,
        u1.username is None && u2.username is None ==> apply_fields(
            apply_fields(p, u1),
            u2,
        ).username == p.username,
        u1.day is None && u2.day is None ==> apply_fields(apply_fields(p, u1), u2).day == p.day,
{
}

/// The table-level form: two partial updates of the same id with disjoint
/// column subsets yield the same table in either order.
pub proof fn lemma_disjoint_table_updates_commute(
    s: Seq<Post>,
    id: u128,
    u1: UpdatePostSchema,
    u2: UpdatePostSchema,
)
    requires
        disjoint_fields(u1, u2),
    ensures
        apply_update(apply_update(s, id, u1), id, u2) == apply_update(
            apply_update(s, id, u2),
            id,
            u1,
        ),
{
    assert forall|i: int| 0 <= i < s.len() implies apply_update(apply_update(s, id, u1), id, u2)[i]
        == apply_update(apply_update(s, id, u2), id, u1)[i] by {
        lemma_disjoint_updates_commute(s[i], u1, u2);
    }
    assert(apply_update(apply_update(s, id, u1), id, u2) =~= apply_update(
        apply_update(s, id, u2),
        id,
        u1,
    ));
}

} // verus!
