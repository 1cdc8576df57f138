use vstd::prelude::*;
use crate::filter::texts;
use crate::models::{Friendship, User, Wish};

verus! {

/// The status of an accepted friendship.
pub open spec fn accepted() -> Seq<char> {
    "1"@
}

/// The status of a friendship request that awaits an answer.
pub open spec fn pending() -> Seq<char> {
    "0"@
}

/// The access level of a wish that everybody may see.
pub open spec fn public_level() -> Seq<char> {
    "public"@
}

/// The access level of a wish that its owner's friends may see.
pub open spec fn friends_level() -> Seq<char> {
    "friends"@
}

/// `user` is one of the two sides of `f`.
pub open spec fn involves(user: Seq<char>, f: Friendship) -> bool {
    f.user_one@ == user || f.user_two@ == user
}

/// `f` is an accepted friendship of `user`.
pub open spec fn accepted_link(user: Seq<char>, f: Friendship) -> bool {
    f.status@ == accepted() && involves(user, f)
}

/// `f` is a request that `user` has received and not yet answered.
pub open spec fn pending_for(user: Seq<char>, f: Friendship) -> bool {
    f.user_two@ == user && f.status@ == pending()
}

/// `f` was asked for by `user`.
pub open spec fn sent_by(user: Seq<char>, f: Friendship) -> bool {
    f.user_one@ == user
}

/// `f` links `one` (who asked) to `two`.
pub open spec fn links(one: Seq<char>, two: Seq<char>, f: Friendship) -> bool {
    f.user_one@ == one && f.user_two@ == two
}

/// `w` belongs to `user`.
pub open spec fn owned_by(user: Seq<char>, w: Wish) -> bool {
    w.user_id@ == user
}

/// `u` has the id `id`.
pub open spec fn has_id(id: Seq<char>, u: User) -> bool {
    u.user_id@ == id
}

/// `u` has the user name `name`.
pub open spec fn has_username(name: Seq<char>, u: User) -> bool {
    u.username@ == name
}

/// Both sides of each friendship, in order: the ids that a list of
/// friendships names.
pub open spec fn friend_ids_of(fs: Seq<Friendship>) -> Seq<Seq<char>>
    decreases fs.len(),
{
    if fs.len() == 0 {
        Seq::empty()
    } else {
        friend_ids_of(fs.drop_last()).push(fs.last().user_one@).push(fs.last().user_two@)
    }
}

/// `v` is one of the two sides of `f`.
pub open spec fn names(f: Friendship, v: Seq<char>) -> bool {
    f.user_one@ == v || f.user_two@ == v
}

/// Whether `user`, whose accepted friendships name the ids `ids`, may see `w`:
/// it is their own, it is public, or it is for friends and its owner is
/// among `ids`.
pub open spec fn visible_given(user: Seq<char>, ids: Seq<Seq<char>>, w: Wish) -> bool {
    ||| w.user_id@ == user
    ||| w.access_level@ == public_level()
    ||| (ids.contains(w.user_id@) && w.access_level@ == friends_level())
}

/// `a` and `b` are friends: some accepted friendship links them, in either
/// direction.
pub open spec fn are_friends(fs: Seq<Friendship>, a: Seq<char>, b: Seq<char>) -> bool {
    exists|i: int|
        0 <= i < fs.len() && #[trigger] fs[i].status@ == accepted() && (links(a, b, fs[i])
            || links(b, a, fs[i]))
}

/// Whether `user` may see `w`, given all friendships `fs`: it is their own,
/// it is public, or it is for friends and its owner is their friend.
pub open spec fn visible_to(user: Seq<char>, fs: Seq<Friendship>, w: Wish) -> bool {
    ||| w.user_id@ == user
    ||| w.access_level@ == public_level()
    ||| (w.access_level@ == friends_level() && are_friends(fs, user, w.user_id@))
}

/// An id occurs in [`friend_ids_of`] exactly when some friendship of the list
/// names it.
pub proof fn lemma_friend_ids_contains(fs: Seq<Friendship>, v: Seq<char>)
    ensures
        friend_ids_of(fs).contains(v) <==> exists|i: int| 0 <= i < fs.len() && #[trigger] names(fs[i], v),
    decreases fs.len(),
{
    if fs.len() > 0 {
        let rest = fs.drop_last();
        lemma_friend_ids_contains(rest, v);
        let ids = friend_ids_of(fs);
        let prev = friend_ids_of(rest);
        assert(ids == prev.push(fs.last().user_one@).push(fs.last().user_two@));
        if ids.contains(v) {
            let k = choose|k: int| 0 <= k < ids.len() && ids[k] == v;
            if k < prev.len() {
                assert(prev[k] == v);
                assert(prev.contains(v));
                let i = choose|i: int| 0 <= i < rest.len() && #[trigger] names(rest[i], v);
                assert(fs[i] == rest[i]);
                assert(names(fs[i], v));
            } else {
                assert(names(fs[fs.len() - 1], v));
            }
        }
        if exists|i: int| 0 <= i < fs.len() && #[trigger] names(fs[i], v) {
            let i = choose|i: int| 0 <= i < fs.len() && #[trigger] names(fs[i], v);
            if i < fs.len() - 1 {
                assert(rest[i] == fs[i]);
                assert(names(rest[i], v));
                assert(prev.contains(v));
                let k = choose|k: int| 0 <= k < prev.len() && prev[k] == v;
                assert(ids[k] == v);
            } else if fs.last().user_one@ == v {
                assert(ids[prev.len() as int] == v);
            } else {
                assert(ids[prev.len() + 1int] == v);
            }
        }
    }
}

/// The friend-of relation is symmetric.
pub proof fn lemma_are_friends_symmetric(fs: Seq<Friendship>, a: Seq<char>, b: Seq<char>)
    ensures
        are_friends(fs, a, b) == are_friends(fs, b, a),
{
}

/// Law: the ids named by the accepted friendships of `user` pick out, for
/// every wish, exactly the visibility that the policy gives `user`. So the
/// wish query that `get_wishes` issues, once it has read the accepted
/// friendships of `user` from a friendships table `fs`, selects precisely
/// the wishes that `visible_to` allows.
pub proof fn lemma_visible_given_matches_policy(user: Seq<char>, fs: Seq<Friendship>, w: Wish)
    ensures
        visible_given(user, friend_ids_of(fs.filter(|f: Friendship| accepted_link(user, f))), w)
            == visible_to(user, fs, w),
{
    broadcast use Seq::lemma_filter_pred, Seq::lemma_filter_contains, Seq::lemma_filter_contains_rev;

    let p = |f: Friendship| accepted_link(user, f);
    let mine = fs.filter(p);
    let v = w.user_id@;
    lemma_friend_ids_contains(mine, v);
    if v != user {
        if friend_ids_of(mine).contains(v) {
            let i = choose|i: int| 0 <= i < mine.len() && #[trigger] names(mine[i], v);
            assert(p(mine[i]));
            assert(mine.contains(mine[i]));
            assert(fs.contains(mine[i]));
            let j = choose|j: int| 0 <= j < fs.len() && fs[j] == mine[i];
            assert(fs[j].status@ == accepted() && (links(user, v, fs[j]) || links(v, user, fs[j])));
            assert(are_friends(fs, user, v));
        }
        if are_friends(fs, user, v) {
            let j = choose|j: int|
                0 <= j < fs.len() && #[trigger] fs[j].status@ == accepted() && (links(user, v, fs[j])
                    || links(v, user, fs[j]));
            assert(p(fs[j]));
            assert(mine.contains(fs[j]));
            let k = choose|k: int| 0 <= k < mine.len() && mine[k] == fs[j];
            assert(names(mine[k], v));
        }
    }
}

/// The status text of an accepted friendship.
pub fn accepted_status() -> (s: String)
    ensures
        s@ == accepted(),
{
    "1".to_owned()
}

/// The status text of a pending friendship request.
pub fn pending_status() -> (s: String)
    ensures
        s@ == pending(),
{
    "0".to_owned()
}

/// Both sides of each friendship in `friendships`, in order.
pub fn friend_ids(friendships: &Vec<Friendship>) -> (ids: Vec<String>)
    ensures
        texts(ids@) == friend_ids_of(friendships@),
{
    let mut ids: Vec<String> = Vec::new();
    let mut i: usize = 0;
    while i < friendships.len()
        invariant
            i <= friendships.len(),
            texts(ids@) == friend_ids_of(friendships@.take(i as int)),
        decreases friendships.len() - i,
    {
        let f = &friendships[i];
        ids.push(f.user_one.clone());
        ids.push(f.user_two.clone());
        assert(friendships@.take(i + 1).drop_last() == friendships@.take(i as int));
        assert(texts(ids@) == friend_ids_of(friendships@.take(i + 1)));
        i = i + 1;
    }
    assert(friendships@.take(friendships.len() as int) == friendships@);
    ids
}

} // verus!
