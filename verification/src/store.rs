use vstd::prelude::*;

use crate::schema::CreatePostSchema;
use crate::schema::Post;
use crate::schema::UpdatePostSchema;

verus! {

/// The row a stored post becomes when the present fields of an update are
/// applied to it: named columns take the supplied values, every other
/// column keeps its prior value; the id and the timestamps never change.
pub open spec fn apply_fields(p: Post, u: UpdatePostSchema) -> Post {
    Post {
        id: p.id,
        message: if u.message is Some {
            u.message->0
        } else {
            p.message
        },
        username: if u.username is Some {
            u.username->0
        } else {
            p.username
        },
        day: if u.day is Some {
            u.day->0
        } else {
            p.day
        },
        created_at: p.created_at,
        updated_at: p.updated_at,
    }
}

/// The table after a partial update keyed by `id`: every row carrying that
/// id (at most one, under the store invariant) has the present fields
/// applied; every other row is untouched. An id no row carries makes the
/// update a no-op, reported as success all the same.
pub open spec fn apply_update(s: Seq<Post>, id: u128, u: UpdatePostSchema) -> Seq<Post> {
    s.map_values(|p: Post| if p.id == id { apply_fields(p, u) } else { p })
}

/// The table after a delete keyed by `id`: the rows that do not carry that
/// id, in their original order. An id no row carries makes the delete a
/// no-op, reported as success all the same.
pub open spec fn apply_delete(s: Seq<Post>, id: u128) -> Seq<Post>
    decreases s.len(),
{
    if s.len() == 0 {
        Seq::empty()
    } else {
        let rest = apply_delete(s.drop_first(), id);
        if s[0].id == id {
            rest
        } else {
            seq![s[0]] + rest
        }
    }
}

proof fn lemma_apply_delete_snoc(s: Seq<Post>, e: Post, id: u128)
    ensures
        apply_delete(s.push(e), id) == apply_delete(s, id) + (if e.id == id {
            Seq::<Post>::empty()
        } else {
            seq![e]
        }),
    decreases s.len(),
{
    let sp = s.push(e);
    let tail = (if e.id == id {
        Seq::<Post>::empty()
    } else {
        seq![e]
    });
    if s.len() == 0 {
        assert(sp[0] == e);
        assert(sp.drop_first() =~= Seq::<Post>::empty());
        assert(apply_delete(Seq::<Post>::empty(), id) =~= Seq::<Post>::empty());
        assert(apply_delete(sp, id) =~= apply_delete(s, id) + tail);
    } else {
        assert(sp[0] == s[0]);
        assert(sp.drop_first() =~= s.drop_first().push(e));
        lemma_apply_delete_snoc(s.drop_first(), e, id);
        assert(apply_delete(sp, id) =~= apply_delete(s, id) + tail);
    }
}

/// Every row of the table after a delete stood in the table before it.
proof fn lemma_apply_delete_contains(s: Seq<Post>, id: u128, j: int)
    requires
        0 <= j < apply_delete(s, id).len(),
    ensures
        s.contains(apply_delete(s, id)[j]),
    decreases s.len(),
{
    let d = apply_delete(s, id);
    if s.len() == 0 {
    } else {
        let rest = apply_delete(s.drop_first(), id);
        if s[0].id == id {
            lemma_apply_delete_contains(s.drop_first(), id, j);
            assert(s.drop_first()[choose|i: int|
                0 <= i < s.drop_first().len() && s.drop_first()[i] == d[j]] == d[j]);
        } else {
            if j == 0 {
                assert(d[0] == s[0]);
            } else {
                lemma_apply_delete_contains(s.drop_first(), id, j - 1);
            }
        }
    }
}

/// A bounded set of rows with pairwise distinct ids, together with the
/// next id the backend will assign. Stands in for the persistent table so
/// that the mapping layer's behaviour can be exercised without a backend.
pub struct PostStore {
    pub posts: Vec<Post>,
    pub next_id: u128,
}

impl PostStore {
    /// Every stored id was assigned before `next_id`, and no two rows
    /// share an id.
    pub open spec fn wf(&self) -> bool {
        &&& forall|i: int|
            0 <= i < self.posts@.len() ==> (#[trigger] self.posts@[i].id) < self.next_id
        &&& forall|i: int, j: int|
            0 <= i < j < self.posts@.len() ==> self.posts@[i].id != self.posts@[j].id
    }

    /// An empty table; the backend will assign ids starting from one.
    pub fn new() -> (s: Self)
        ensures
            s.wf(),
            s.posts@ == Seq::<Post>::empty(),
            s.next_id == 1,
    {
        PostStore { posts: Vec::new(), next_id: 1 }
    }

    /// Reads every stored row; an empty result is a valid success.
    pub fn list_all(&self) -> (r: Vec<Post>)
        ensures
            r@ == self.posts@,
    {
        let mut out: Vec<Post> = Vec::new();
        let mut i: usize = 0;
        while i < self.posts.len()
            invariant
                i <= self.posts@.len(),
                out@ == self.posts@.subrange(0, i as int),
            decreases self.posts@.len() - i,
        {
            out.push(self.posts[i].clone());
            proof {
                assert(out@ =~= self.posts@.subrange(0, (i + 1) as int));
            }
            i = i + 1;
        }
        proof {
            assert(self.posts@.subrange(0, self.posts@.len() as int) =~= self.posts@);
        }
        out
    }

    /// Inserts a row from the three required fields. The backend assigns
    /// the id, fresh against every stored row, and the full new row is
    /// returned: its content columns equal the submitted values.
    pub fn insert(&mut self, c: &CreatePostSchema) -> (p: Post)
        requires
            old(self).wf(),
            old(self).next_id < u128::MAX,
        ensures
            final(self).wf(),
            p.id == old(self).next_id,
            p.message == c.message,
            p.username == c.username,
            p.day == c.day,
            p.created_at is None,
            p.updated_at is None,
            forall|i: int| 0 <= i < old(self).posts@.len() ==> old(self).posts@[i].id != p.id,
            final(self).posts@ == old(self).posts@.push(p),
            final(self).next_id == old(self).next_id + 1,
    {
        let p = Post {
            id: self.next_id,
            message: c.message.clone(),
            username: c.username.clone(),
            day: c.day.clone(),
            created_at: None,
            updated_at: None,
        };
        let r = p.clone();
        self.posts.push(p);
        self.next_id = self.next_id + 1;
        r
    }

    /// Applies a partial update keyed by `id`. No existence check is made:
    /// the call succeeds whether or not a row matches, and with no field
    /// present it leaves every row as it was.
    pub fn partial_update(&mut self, id: u128, u: &UpdatePostSchema)
        requires
            old(self).wf(),
        ensures
            final(self).wf(),
            final(self).posts@ == apply_update(old(self).posts@, id, *u),
            final(self).next_id == old(self).next_id,
    {
        let mut out: Vec<Post> = Vec::new();
        let mut i: usize = 0;
        while i < self.posts.len()
            invariant
                *self == *old(self),
                i <= self.posts@.len(),
                out@ == apply_update(self.posts@.subrange(0, i as int), id, *u),
            decreases self.posts@.len() - i,
        {
            let p = &self.posts[i];
            if p.id == id {
                out.push(apply_fields_exec(p, u));
            } else {
                out.push(p.clone());
            }
            proof {
                assert(out@ =~= apply_update(self.posts@.subrange(0, (i + 1) as int), id, *u));
            }
            i = i + 1;
        }
        proof {
            assert(self.posts@.subrange(0, self.posts@.len() as int) =~= self.posts@);
        }
        self.posts = out;
        proof {
            let sold = old(self).posts@;
            let snew = self.posts@;
            assert(forall|i: int| 0 <= i < snew.len() ==> (#[trigger] snew[i].id) == sold[i].id);
        }
    }

    /// Deletes the row keyed by `id`, if any. No existence check is made:
    /// the call succeeds whether or not a row matched.
    pub fn delete(&mut self, id: u128)
        requires
            old(self).wf(),
        ensures
            final(self).wf(),
            final(self).posts@ == apply_delete(old(self).posts@, id),
            final(self).next_id == old(self).next_id,
    {
        let mut out: Vec<Post> = Vec::new();
        let mut i: usize = 0;
        while i < self.posts.len()
            invariant
                *self == *old(self),
                i <= self.posts@.len(),
                out@ == apply_delete(self.posts@.subrange(0, i as int), id),
            decreases self.posts@.len() - i,
        {
            let p = &self.posts[i];
            if p.id == id {
            } else {
                out.push(p.clone());
            }
            proof {
                let prefix = self.posts@.subrange(0, i as int);
                assert(self.posts@.subrange(0, (i + 1) as int) =~= prefix.push(self.posts@[i as int]));
                lemma_apply_delete_snoc(prefix, self.posts@[i as int], id);
                assert(out@ =~= apply_delete(self.posts@.subrange(0, (i + 1) as int), id));
            }
            i = i + 1;
        }
        proof {
            assert(self.posts@.subrange(0, self.posts@.len() as int) =~= self.posts@);
        }
        self.posts = out;
        proof {
            let sold = old(self).posts@;
            let snew = self.posts@;
            assert forall|j: int| 0 <= j < snew.len() implies (#[trigger] snew[j].id)
                < self.next_id by {
                lemma_apply_delete_contains(sold, id, j);
            }
            assert forall|j: int, k: int| 0 <= j < k < snew.len() implies snew[j].id
                != snew[k].id by {
                lemma_apply_delete_distinct(sold, id, j, k);
            }
        }
    }
}

fn apply_fields_exec(p: &Post, u: &UpdatePostSchema) -> (r: Post)
    ensures
        r == apply_fields(*p, *u),
{
    let mut r = p.clone();
    if let Some(m) = &u.message {
        r.message = m.clone();
    }
    if let Some(un) = &u.username {
        r.username = un.clone();
    }
    if let Some(d) = &u.day {
        r.day = d.clone();
    }
    r
}

/// Two distinct rows of the table after a delete were distinct rows of the
/// table before it, so their ids still differ.
proof fn lemma_apply_delete_distinct(s: Seq<Post>, id: u128, j: int, k: int)
    requires
        forall|a: int, b: int| 0 <= a < b < s.len() ==> s[a].id != s[b].id,
        0 <= j < k < apply_delete(s, id).len(),
    ensures
        apply_delete(s, id)[j].id != apply_delete(s, id)[k].id,
    decreases s.len(),
{
    let d = apply_delete(s, id);
    if s.len() == 0 {
    } else {
        let st = s.drop_first();
        let rest = apply_delete(st, id);
        assert(forall|a: int, b: int| 0 <= a < b < st.len() ==> st[a].id != st[b].id);
        if s[0].id == id {
            lemma_apply_delete_distinct(st, id, j, k);
        } else {
            if j == 0 {
                assert(d[0] == s[0]);
                lemma_apply_delete_contains(st, id, k - 1);
                let w = choose|i: int| 0 <= i < st.len() && st[i] == rest[k - 1];
                assert(s[w + 1] == rest[k - 1]);
                assert(s[0].id != s[w + 1].id);
            } else {
                lemma_apply_delete_distinct(st, id, j - 1, k - 1);
            }
        }
    }
}

} // verus!
