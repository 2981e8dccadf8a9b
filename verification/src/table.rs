//! A verified model of the `posts` table.
//!
//! The backing store keeps rows in insertion order and assigns each new
//! row an id strictly greater than every id handed out before (the
//! auto-increment discipline of the primary key: ids are monotonically
//! increasing and never reused, not even after a delete).  The five
//! operations below are the five SQL statements of the service: insert,
//! select-by-id, update-by-id, delete-by-id, and select-all ordered by
//! id descending.

use vstd::prelude::*;

use crate::models::{CreatePost, CreatePostView, Post, PostView};

verus! {

/// The first row of `rows` whose id is `id`, if any.  This is the
/// mathematical meaning of `SELECT ... WHERE id = ?`.
pub open spec fn find_post(rows: Seq<PostView>, id: int) -> Option<PostView>
    decreases rows.len(),
{
    if rows.len() == 0 {
        Option::None
    } else if rows[0].id == id {
        Option::Some(rows[0])
    } else {
        find_post(rows.drop_first(), id)
    }
}

/// `rows` with the fields of every row whose id is `id` replaced by
/// `input` (at most one such row exists in a well-formed table).  This
/// is the mathematical meaning of `UPDATE ... SET ... WHERE id = ?`.
pub open spec fn replace_post(rows: Seq<PostView>, id: int, input: CreatePostView) -> Seq<
    PostView,
> {
    Seq::new(
        rows.len(),
        |i: int|
            if rows[i].id == id {
                PostView { id: rows[i].id, title: input.title, content: input.content }
            } else {
                rows[i]
            },
    )
}

/// Ids strictly increase along the row order, so every id occurs at
/// most once and insertion order coincides with ascending id order.
pub open spec fn ids_strictly_increasing(rows: Seq<PostView>) -> bool {
    forall|i: int, j: int| 0 <= i < j < rows.len() ==> rows[i].id < rows[j].id
}

/// The posts table: its rows in insertion order, and the id the next
/// insert will be assigned.
pub struct PostTable {
    rows: Vec<Post>,
    next_id: i64,
}

impl View for PostTable {
    type V = Seq<PostView>;

    closed spec fn view(&self) -> Seq<PostView> {
        self.rows@.map_values(|p: Post| p@)
    }
}

impl PostTable {
    /// The id the next inserted row will receive.
    pub closed spec fn next(&self) -> int {
        self.next_id as int
    }

    /// The table invariant: rows ascend strictly by id, every id is
    /// positive, and every id is below the next id to be assigned.
    pub open spec fn wf(&self) -> bool {
        &&& ids_strictly_increasing(self@)
        &&& forall|i: int| 0 <= i < self@.len() ==> 1 <= #[trigger] self@[i].id < self.next()
        &&& 1 <= self.next() <= i64::MAX
    }

    /// A fresh, empty table; the first row inserted will get id 1.
    pub fn new() -> (t: PostTable)
        ensures
            t.wf(),
            t@ =~= Seq::<PostView>::empty(),
            t.next() == 1,
    {
        PostTable { rows: Vec::new(), next_id: 1 }
    }

    /// Insert a new row with the given title and content; the table
    /// assigns the id.  The new row goes at the end of the row order
    /// and carries an id strictly greater than every existing one.
    pub fn insert(&mut self, input: CreatePost) -> (p: Post)
        requires
            old(self).wf(),
            old(self).next() < i64::MAX,
        ensures
            final(self).wf(),
            p@.id == old(self).next(),
            1 <= p@.id,
            p@.title == input@.title,
            p@.content == input@.content,
            final(self)@ == old(self)@.push(p@),
            final(self).next() == old(self).next() + 1,
    {
        let row = Post {
            id: self.next_id,
            title: input.title,
            content: input.content,
        };
        let returned = row.duplicate();
        self.rows.push(row);
        self.next_id = self.next_id + 1;
        proof {
            assert(self@ =~= old(self)@.push(returned@));
        }
        returned
    }

    /// Fetch the row with the given id, if any.
    pub fn get(&self, id: i64) -> (r: Option<Post>)
        requires
            self.wf(),
        ensures
            match r {
                Option::Some(p) => find_post(self@, id as int) == Option::Some(p@),
                Option::None => find_post(self@, id as int) is None,
            },
    {
        let n = self.rows.len();
        proof {
            assert(self@.skip(0) =~= self@);
        }
        for i in 0..n
            invariant
                n == self.rows.len(),
                find_post(self@, id as int) == find_post(self@.skip(i as int), id as int),
        {
            proof {
                lemma_find_post_skip_step(self@, id as int, i as int);
            }
            if self.rows[i].id == id {
                return Option::Some(self.rows[i].duplicate());
            }
        }
        proof {
            assert(self@.skip(n as int) =~= Seq::<PostView>::empty());
        }
        Option::None
    }

    /// Replace the title and content of the row with the given id, if
    /// it exists; the id itself never changes.  Returns whether a row
    /// was modified.
    pub fn update(&mut self, id: i64, input: &CreatePost) -> (updated: bool)
        requires
            old(self).wf(),
        ensures
            final(self).wf(),
            final(self).next() == old(self).next(),
            updated == (find_post(old(self)@, id as int) is Some),
            final(self)@ == replace_post(old(self)@, id as int, input@),
            !updated ==> final(self)@ == old(self)@,
    {
        let ghost rows0 = self@;
        let n = self.rows.len();
        proof {
            assert(self@.skip(0) =~= self@);
        }
        for i in 0..n
            invariant
                self == old(self),
                old(self).wf(),
                rows0 == self@,
                n == self.rows.len(),
                find_post(self@, id as int) == find_post(self@.skip(i as int), id as int),
        {
            proof {
                lemma_find_post_skip_step(self@, id as int, i as int);
            }
            if self.rows[i].id == id {
                let replacement = Post {
                    id,
                    title: input.title.clone(),
                    content: input.content.clone(),
                };
                self.rows[i] = replacement;
                proof {
                    assert(ids_strictly_increasing(rows0));
                    lemma_unique_id_at(rows0, i as int);
                    assert(self@ =~= replace_post(rows0, id as int, input@));
                    assert(forall|k: int|
                        0 <= k < self@.len() ==> #[trigger] self@[k].id == rows0[k].id);
                }
                return true;
            }
        }
        proof {
            assert(self@.skip(n as int) =~= Seq::<PostView>::empty());
            lemma_find_post_none_no_index(rows0, id as int);
            assert(self@ =~= replace_post(rows0, id as int, input@));
        }
        false
    }

    /// Remove the row with the given id, if it exists.  Returns whether
    /// a row was removed.  The id is never handed out again: the next
    /// id to be assigned is unchanged.
    pub fn delete(&mut self, id: i64) -> (deleted: bool)
        requires
            old(self).wf(),
        ensures
            final(self).wf(),
            final(self).next() == old(self).next(),
            deleted == (find_post(old(self)@, id as int) is Some),
            !deleted ==> final(self)@ == old(self)@,
            deleted ==> exists|i: int|
                0 <= i < old(self)@.len() && old(self)@[i].id == id as int && final(self)@
                    == old(self)@.remove(i),
            find_post(final(self)@, id as int) is None,
    {
        let ghost rows0 = self@;
        let n = self.rows.len();
        proof {
            assert(self@.skip(0) =~= self@);
        }
        for i in 0..n
            invariant
                self == old(self),
                old(self).wf(),
                rows0 == self@,
                n == self.rows.len(),
                find_post(self@, id as int) == find_post(self@.skip(i as int), id as int),
        {
            proof {
                lemma_find_post_skip_step(self@, id as int, i as int);
            }
            if self.rows[i].id == id {
                self.rows.remove(i);
                proof {
                    assert(ids_strictly_increasing(rows0));
                    lemma_unique_id_at(rows0, i as int);
                    assert(self@ =~= rows0.remove(i as int));
                    lemma_find_post_none_no_index(self@, id as int);
                }
                return true;
            }
        }
        proof {
            assert(self@.skip(n as int) =~= Seq::<PostView>::empty());
            lemma_find_post_none_no_index(rows0, id as int);
        }
        false
    }

    /// All rows, most recently created first: since ids ascend along
    /// the row order, this is the row order reversed — exactly
    /// `SELECT ... ORDER BY id DESC`.
    pub fn list_desc(&self) -> (v: Vec<Post>)
        requires
            self.wf(),
        ensures
            v@.len() == self@.len(),
            forall|i: int|
                0 <= i < v@.len() ==> v@[i]@ == self@[self@.len() - 1 - i],
    {
        let n = self.rows.len();
        let mut v: Vec<Post> = Vec::new();
        let mut j = n;
        while j > 0
            invariant
                n == self.rows.len(),
                j <= n,
                v@.len() == n - j,
                forall|i: int| 0 <= i < v@.len() ==> v@[i]@ == self@[n - 1 - i],
            decreases j,
        {
            j = j - 1;
            v.push(self.rows[j].duplicate());
        }
        v
    }
}

/// In a run of rows with strictly increasing ids, the id at one index
/// occurs at no other index.
proof fn lemma_unique_id_at(rows: Seq<PostView>, k: int)
    requires
        ids_strictly_increasing(rows),
        0 <= k < rows.len(),
    ensures
        forall|j: int| 0 <= j < rows.len() && j != k ==> rows[j].id != rows[k].id,
{
}

/// One step of the scan that `find_post` describes: if the row at
/// index `i` does not match, the search over the suffix from `i` and
/// the search over the suffix from `i + 1` agree.
proof fn lemma_find_post_skip_step(rows: Seq<PostView>, id: int, i: int)
    requires
        0 <= i < rows.len(),
    ensures
        rows[i].id == id ==> find_post(rows.skip(i), id) == Option::Some(rows[i]),
        rows[i].id != id ==> find_post(rows.skip(i), id) == find_post(rows.skip(i + 1), id),
{
    assert(rows.skip(i).len() > 0);
    assert(rows.skip(i)[0] == rows[i]);
    assert(rows.skip(i).drop_first() =~= rows.skip(i + 1));
}

/// `find_post` misses exactly when no index matches.
pub proof fn lemma_find_post_none_no_index(rows: Seq<PostView>, id: int)
    ensures
        (find_post(rows, id) is None) <==> (forall|i: int|
            0 <= i < rows.len() ==> rows[i].id != id),
    decreases rows.len(),
{
    if rows.len() > 0 {
        lemma_find_post_none_no_index(rows.drop_first(), id);
        assert forall|i: int| 1 <= i < rows.len() implies rows.drop_first()[i - 1] == rows[i] by {}
    }
}

/// `find_post` hits the row at index `k` when no earlier row carries
/// the same id.
proof fn lemma_find_post_at_index(rows: Seq<PostView>, k: int)
    requires
        0 <= k < rows.len(),
        forall|j: int| 0 <= j < k ==> #[trigger] rows[j].id != rows[k].id,
    ensures
        find_post(rows, rows[k].id) == Option::Some(rows[k]),
    decreases k,
{
    if k > 0 {
        lemma_find_post_at_index(rows.drop_first(), k - 1);
        assert(rows.drop_first()[k - 1] == rows[k]);
        assert(forall|j: int|
            1 <= j < rows.len() ==> #[trigger] rows.drop_first()[j - 1] == rows[j]);
    }
}

/// Round trip: a row appended with an id strictly greater than every
/// existing id — exactly what an insert produces — is found again by
/// that id, with its title and content unchanged.  Fetching a post
/// right after creating it returns the very values that were sent.
pub proof fn lemma_created_post_found(rows: Seq<PostView>, p: PostView)
    requires
        forall|i: int| 0 <= i < rows.len() ==> #[trigger] rows[i].id < p.id,
    ensures
        find_post(rows.push(p), p.id) == Option::Some(p),
{
    let rows2 = rows.push(p);
    let k = rows.len() as int;
    assert(rows2[k] == p);
    assert(forall|j: int| 0 <= j < k ==> #[trigger] rows2[j].id != rows2[k].id);
    lemma_find_post_at_index(rows2, k);
}

/// An update is visible: replacing the fields of an existing id — and
/// ids are unique in a well-formed table — makes a subsequent fetch of
/// that id return the new title and content under the unchanged id.
pub proof fn lemma_updated_post_found(rows: Seq<PostView>, id: int, input: CreatePostView)
    requires
        ids_strictly_increasing(rows),
        find_post(rows, id) is Some,
    ensures
        find_post(replace_post(rows, id, input), id) == Option::Some(
            PostView { id, title: input.title, content: input.content },
        ),
{
    lemma_find_post_some_is_row(rows, id);
    let p = find_post(rows, id)->Some_0;
    let k = choose|i: int| 0 <= i < rows.len() && rows[i] == p && p.id == id;
    let rows2 = replace_post(rows, id, input);
    lemma_unique_id_at(rows, k);
    assert(rows2[k] == PostView { id, title: input.title, content: input.content });
    assert(forall|j: int| 0 <= j < k ==> #[trigger] rows2[j].id != rows2[k].id);
    lemma_find_post_at_index(rows2, k);
}

/// The listing order: reversing rows whose ids strictly ascend — what
/// `list_desc` returns for a well-formed table — yields ids that
/// strictly descend, so the most recently created post comes first.
pub proof fn lemma_listing_descends(rows: Seq<PostView>, listed: Seq<PostView>)
    requires
        ids_strictly_increasing(rows),
        listed.len() == rows.len(),
        forall|i: int| 0 <= i < listed.len() ==> #[trigger] listed[i] == rows[rows.len() - 1 - i],
    ensures
        forall|i: int, j: int| 0 <= i < j < listed.len() ==> listed[i].id > listed[j].id,
{
    assert forall|i: int, j: int| 0 <= i < j < listed.len() implies listed[i].id
        > listed[j].id by {
        assert(listed[i] == rows[rows.len() - 1 - i]);
        assert(listed[j] == rows[rows.len() - 1 - j]);
    }
}

/// What `find_post` returns, it returns from the rows: a hit is a row
/// of the sequence carrying the requested id.
pub proof fn lemma_find_post_some_is_row(rows: Seq<PostView>, id: int)
    ensures
        find_post(rows, id) matches Option::Some(p) ==> exists|i: int|
            0 <= i < rows.len() && rows[i] == p && p.id == id,
    decreases rows.len(),
{
    if rows.len() > 0 && rows[0].id != id {
        lemma_find_post_some_is_row(rows.drop_first(), id);
        if find_post(rows, id) is Some {
            let p = find_post(rows, id)->Some_0;
            let i = choose|i: int|
                0 <= i < rows.drop_first().len() && rows.drop_first()[i] == p && p.id == id;
            assert(rows[i + 1] == rows.drop_first()[i]);
        }
    }
}

} // verus!
