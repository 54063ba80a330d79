//! The post store: an append-only sequence of posts, in the order in which
//! they were added.

use crate::ident::PostId;
use crate::model::{views, Post, PostView};
use vstd::prelude::*;

verus! {

/// The first post at or after `start` that has the given id.
pub open spec fn first_from(posts: Seq<PostView>, id: PostId, start: int) -> Option<PostView>
    decreases posts.len() - start,
{
    if start < 0 || start >= posts.len() {
        None
    } else if posts[start].uuid == id {
        Some(posts[start])
    } else {
        first_from(posts, id, start + 1)
    }
}

/// The first post that has the given id.
pub open spec fn first_with_id(posts: Seq<PostView>, id: PostId) -> Option<PostView> {
    first_from(posts, id, 0)
}

/// The posts after each of `added` has been added in turn.
pub open spec fn after_adds(posts: Seq<PostView>, added: Seq<PostView>) -> Seq<PostView>
    decreases added.len(),
{
    if added.len() == 0 {
        posts
    } else {
        after_adds(posts.push(added[0]), added.drop_first())
    }
}

/// No two posts have the same id.
pub open spec fn distinct_ids(posts: Seq<PostView>) -> bool {
    forall|i: int, j: int|
        0 <= i < posts.len() && 0 <= j < posts.len() && i != j ==> posts[i].uuid != posts[j].uuid
}

/// The store. It only grows: a post that was added stays, unchanged and in
/// its place.
#[derive(Debug)]
pub struct Database {
    posts: Vec<Post>,
}

impl View for Database {
    type V = Seq<PostView>;

    /// The posts of the store, oldest first.
    closed spec fn view(&self) -> Seq<PostView> {
        views(self.posts@)
    }
}

impl Clone for Database {
    /// A copy that holds the same posts in the same order.
    fn clone(&self) -> (copy: Database)
        ensures
            copy@ == self@,
    {
        let mut posts: Vec<Post> = Vec::new();
        let mut index: usize = 0;
        while index < self.posts.len()
            invariant
                index <= self.posts.len(),
                views(posts@) == views(self.posts@).take(index as int),
            decreases self.posts.len() - index,
        {
            let ghost before = posts@;
            let copy = self.posts[index].clone();
            posts.push(copy);
            index += 1;
            assert(views(posts@) =~= views(before).push(copy@));
            assert(views(self.posts@).take(index as int) =~= views(self.posts@).take(
                index - 1,
            ).push(self.posts@[index - 1]@));
        }
        assert(views(self.posts@).take(index as int) =~= views(self.posts@));
        Database { posts }
    }
}

impl Database {
    /// The empty store.
    pub fn new() -> (database: Database)
        ensures
            database@ == Seq::<PostView>::empty(),
    {
        Database { posts: Vec::new() }
    }

    /// Adds a post at the end. Nothing is checked: a second post with an id
    /// that the store already holds is added like any other.
    pub fn add_post(&mut self, post: Post)
        ensures
            final(self)@ == old(self)@.push(post@),
    {
        self.posts.push(post);
        assert(views(self.posts@) =~= views(old(self).posts@).push(post@));
    }

    /// `posts` lists the store: it holds what the store holds, in its order.
    pub open spec fn lists(&self, posts: Seq<Post>) -> bool {
        views(posts) == self@
    }

    /// All posts, oldest first.
    pub fn posts(&self) -> (posts: &Vec<Post>)
        ensures
            self.lists(posts@),
    {
        &self.posts
    }

    /// The first post with the given id, found by a scan from the oldest.
    pub fn find_by_id(&self, id: &PostId) -> (found: Option<&Post>)
        ensures
            match found {
                Some(post) => first_with_id(self@, *id) == Some(post@),
                None => first_with_id(self@, *id).is_none(),
            },
    {
        let mut index: usize = 0;
        while index < self.posts.len()
            invariant
                index <= self.posts.len(),
                first_with_id(self@, *id) == first_from(self@, *id, index as int),
            decreases self.posts.len() - index,
        {
            let post = &self.posts[index];
            if *post.uuid() == *id {
                return Some(post);
            }
            index += 1;
        }
        None
    }
}

/// A store that starts with `posts` and to which each of `added` is added
/// in turn holds `posts` followed by `added`: every post that it held stays
/// in its place, every added post is there once, in the order of the calls,
/// and nothing else is.
pub proof fn lemma_adds_append(posts: Seq<PostView>, added: Seq<PostView>)
    ensures
        after_adds(posts, added) == posts + added,
        after_adds(posts, added).len() == posts.len() + added.len(),
        forall|i: int| 0 <= i < posts.len() ==> after_adds(posts, added)[i] == posts[i],
        forall|i: int|
            0 <= i < added.len() ==> after_adds(posts, added)[posts.len() + i] == added[i],
    decreases added.len(),
{
    if added.len() == 0 {
        assert(posts + added =~= posts);
    } else {
        lemma_adds_append(posts.push(added[0]), added.drop_first());
        assert(posts.push(added[0]) + added.drop_first() =~= posts + added);
    }
}

/// A lookup from `start` finds nothing exactly if no post at or after
/// `start` has the id, and what it finds is the first such post.
pub proof fn lemma_first_from(posts: Seq<PostView>, id: PostId, start: int)
    requires
        0 <= start <= posts.len(),
    ensures
        first_from(posts, id, start).is_none() <==> forall|i: int|
            start <= i < posts.len() ==> posts[i].uuid != id,
        first_from(posts, id, start) matches Some(post) ==> exists|i: int|
            start <= i < posts.len() && posts[i] == post && post.uuid == id && forall|j: int|
                start <= j < i ==> posts[j].uuid != id,
    decreases posts.len() - start,
{
    if start < posts.len() {
        if posts[start].uuid == id {
            assert(start <= start < posts.len() && posts[start] == posts[start] && forall|j: int|
                start <= j < start ==> posts[j].uuid != id);
        } else {
            lemma_first_from(posts, id, start + 1);
            if let Some(post) = first_from(posts, id, start + 1) {
                let i = choose|i: int|
                    start + 1 <= i < posts.len() && posts[i] == post && post.uuid == id
                        && forall|j: int| start + 1 <= j < i ==> posts[j].uuid != id;
                assert(start <= i < posts.len() && posts[i] == post && post.uuid == id
                    && forall|j: int| start <= j < i ==> posts[j].uuid != id);
            }
        }
    }
}

/// A lookup finds nothing exactly if no post of the store has the id; what
/// it finds has the id and is the oldest post that has it.
pub proof fn lemma_lookup(posts: Seq<PostView>, id: PostId)
    ensures
        first_with_id(posts, id).is_none() <==> forall|i: int|
            0 <= i < posts.len() ==> posts[i].uuid != id,
        first_with_id(posts, id) matches Some(post) ==> exists|i: int|
            0 <= i < posts.len() && posts[i] == post && post.uuid == id && forall|j: int|
                0 <= j < i ==> posts[j].uuid != id,
{
    lemma_first_from(posts, id, 0);
}

/// In a store whose ids are distinct, a lookup by the id of any of its
/// posts finds that post.
pub proof fn lemma_lookup_finds_each(posts: Seq<PostView>, index: int)
    requires
        distinct_ids(posts),
        0 <= index < posts.len(),
    ensures
        first_with_id(posts, posts[index].uuid) == Some(posts[index]),
{
    lemma_lookup(posts, posts[index].uuid);
}

/// A post added under an id that the store does not hold yet is found by
/// that id, and the lookups of all other ids are as before.
pub proof fn lemma_lookup_after_add(posts: Seq<PostView>, post: PostView, id: PostId)
    ensures
        first_with_id(posts, post.uuid).is_none() ==> first_with_id(posts.push(post), post.uuid)
            == Some(post),
        first_with_id(posts, id).is_some() ==> first_with_id(posts.push(post), id)
            == first_with_id(posts, id),
        id != post.uuid ==> first_with_id(posts.push(post), id) == first_with_id(posts, id),
{
    lemma_first_after_add(posts, post, id, 0);
    lemma_first_after_add(posts, post, post.uuid, 0);
}

/// How a lookup from `start` changes when a post is added at the end.
proof fn lemma_first_after_add(posts: Seq<PostView>, post: PostView, id: PostId, start: int)
    requires
        0 <= start <= posts.len(),
    ensures
        first_from(posts.push(post), id, start) == match first_from(posts, id, start) {
            Some(found) => Some(found),
            None => if post.uuid == id {
                Some(post)
            } else {
                None
            },
        },
    decreases posts.len() - start,
{
    let longer = posts.push(post);
    if start < posts.len() {
        assert(longer[start] == posts[start]);
        if posts[start].uuid != id {
            lemma_first_after_add(posts, post, id, start + 1);
        }
    } else {
        assert(longer[start] == post);
        assert(first_from(longer, id, start + 1).is_none());
    }
}

/// Posts with distinct ids that are added to an empty store, in whatever
/// order the calls take effect, are all there afterwards: the store holds as
/// many posts as were added, and a lookup by the id of each finds it.
pub proof fn lemma_distinct_adds_are_kept(added: Seq<PostView>)
    requires
        distinct_ids(added),
    ensures
        after_adds(Seq::<PostView>::empty(), added).len() == added.len(),
        forall|i: int|
            0 <= i < added.len() ==> first_with_id(
                after_adds(Seq::<PostView>::empty(), added),
                (#[trigger] added[i]).uuid,
            ) == Some(added[i]),
{
    let store = after_adds(Seq::<PostView>::empty(), added);
    lemma_adds_append(Seq::<PostView>::empty(), added);
    assert(store =~= added);
    assert forall|i: int| 0 <= i < added.len() implies first_with_id(
        store,
        (#[trigger] added[i]).uuid,
    ) == Some(added[i]) by {
        lemma_lookup_finds_each(added, i);
    }
}

/// Two listings of a store to which nothing was added in between hold the
/// same posts in the same order.
pub proof fn lemma_listings_agree(database: Database, first: Seq<Post>, second: Seq<Post>)
    requires
        database.lists(first),
        database.lists(second),
    ensures
        views(first) == views(second),
{
}

} // verus!
