use vstd::prelude::*;
use crate::filter::Filter;
use crate::models::{Friendship, FriendshipDto, User, Wish, WishDto};
use crate::policy::{
    accepted, accepted_link, are_friends, friend_ids_of, friends_level, has_id, involves, links,
    owned_by, has_username, pending, pending_for, public_level, sent_by, visible_given, visible_to, lemma_visible_given_matches_policy,
};
use crate::schema::{FriendshipColumn, UserColumn, WishColumn};

verus! {

/// The row that storing `d` creates, once the database has given it `id`.
pub open spec fn stored_friendship(d: FriendshipDto, id: i32) -> Friendship {
    Friendship { friendship_id: id, user_one: d.user_one, user_two: d.user_two, status: d.status }
}

/// The row that storing `d` creates, once the database has given it `id`.
pub open spec fn stored_wish(d: WishDto, id: i32) -> Wish {
    Wish { wish_id: id, description: d.description, access_level: d.access_level, user_id: d.user_id }
}

/// Law: a user always sees what they post. The wish that `create_wish`
/// stores for the signed-in `user` is visible to them, whatever its access
/// level and whatever the friendships; and a public wish is visible to
/// everybody.
pub proof fn lemma_posted_wish_is_visible(user: Seq<char>, d: WishDto, id: i32, fs: Seq<Friendship>, viewer: Seq<char>)
    requires
        d.user_id@ == user,
    ensures
        visible_to(user, fs, stored_wish(d, id)),
        d.access_level@ == public_level() ==> visible_to(viewer, fs, stored_wish(d, id)),
{
}

/// The friendships table after every row that satisfies `f` has been given
/// the status `status`: what `Command::SetFriendshipStatus(f, status)` does.
pub open spec fn with_status(table: Seq<Friendship>, f: Filter<FriendshipColumn>, status: String) -> Seq<Friendship> {
    table.map_values(|r: Friendship| if f.holds(r) { Friendship { status: status, ..r } } else { r })
}

/// Law: what `get_wishes` shows is what the policy allows. When its
/// friendship query (`first`) and its wish query (`second`, built from the
/// rows the first query read) run against the tables `friendships` and
/// `wishes`, the wishes read are exactly those of `wishes`, in table order,
/// that `user` may see.
pub proof fn lemma_get_wishes_shows_visible(
    user: Seq<char>,
    friendships: Seq<Friendship>,
    wishes: Seq<Wish>,
    first: Filter<FriendshipColumn>,
    second: Filter<WishColumn>,
)
    requires
        first.selects(|r: Friendship| accepted_link(user, r)),
        second.selects(|w: Wish| visible_given(user, friend_ids_of(first.select(friendships)), w)),
    ensures
        second.select(wishes) == wishes.filter(|w: Wish| visible_to(user, friendships, w)),
{
    let p1 = |r: Friendship| first.holds(r);
    let q1 = |r: Friendship| accepted_link(user, r);
    assert(p1 =~= q1);
    assert(first.select(friendships) == friendships.filter(q1));
    let p2 = |w: Wish| second.holds(w);
    let q2 = |w: Wish| visible_to(user, friendships, w);
    assert forall|w: Wish| #[trigger] second.holds(w) == visible_to(user, friendships, w) by {
        lemma_visible_given_matches_policy(user, friendships, w);
    }
    assert(p2 =~= q2);
}

/// Law: a friendship request reaches both sides. The row that
/// `create_friendship_request` stores for `sender` is among the friendships
/// that `sender` asked for and among those of either side, and it is among
/// the unanswered requests of the receiver exactly when its status is the
/// pending one.
pub proof fn lemma_request_reaches_both_sides(
    sender: Seq<char>,
    d: FriendshipDto,
    id: i32,
    sent: Filter<FriendshipColumn>,
    of_sender: Filter<FriendshipColumn>,
    of_receiver: Filter<FriendshipColumn>,
    received: Filter<FriendshipColumn>,
)
    requires
        d.user_one@ == sender,
        sent.selects(|r: Friendship| sent_by(sender, r)),
        of_sender.selects(|r: Friendship| involves(sender, r)),
        of_receiver.selects(|r: Friendship| involves(d.user_two@, r)),
        received.selects(|r: Friendship| pending_for(d.user_two@, r)),
    ensures
        sent.holds(stored_friendship(d, id)),
        of_sender.holds(stored_friendship(d, id)),
        of_receiver.holds(stored_friendship(d, id)),
        received.holds(stored_friendship(d, id)) <==> d.status@ == pending(),
{
    let row = stored_friendship(d, id);
    assert(sent.holds(row) == sent_by(sender, row));
    assert(of_sender.holds(row) == involves(sender, row));
    assert(of_receiver.holds(row) == involves(d.user_two@, row));
    assert(received.holds(row) == pending_for(d.user_two@, row));
}

/// Law: accepting a request makes friends. When `change_friendship_status`
/// sets the status of the friendships that `one` asked `two` for to the
/// accepted one, and such a friendship exists, the two are friends
/// afterwards, in both directions, and each may then see the other's wishes
/// for friends.
pub proof fn lemma_accepting_makes_friends(
    table: Seq<Friendship>,
    one: Seq<char>,
    two: Seq<char>,
    f: Filter<FriendshipColumn>,
    status: String,
    i: int,
    w: Wish,
)
    requires
        f.selects(|r: Friendship| links(one, two, r)),
        status@ == accepted(),
        0 <= i < table.len(),
        links(one, two, table[i]),
        w.access_level@ == friends_level(),
    ensures
        are_friends(with_status(table, f, status), one, two),
        are_friends(with_status(table, f, status), two, one),
        w.user_id@ == two ==> visible_to(one, with_status(table, f, status), w),
        w.user_id@ == one ==> visible_to(two, with_status(table, f, status), w),
{
    let after = with_status(table, f, status);
    assert(f.holds(table[i]));
    assert(after[i].status@ == accepted());
    assert(links(one, two, after[i]));
}

/// Law: registering signs the new user in. The session cookie that
/// `create_user` sets holds the id of the user it stores, and the lookup
/// that `UserSession::from_request` makes for that cookie finds that user.
pub proof fn lemma_registered_user_is_found(user: User, token: Seq<char>, lookup: Filter<UserColumn>)
    requires
        token == user.user_id@,
        lookup.selects(|u: User| has_id(token, u)),
    ensures
        lookup.holds(user),
{
    assert(lookup.holds(user) == has_id(token, user));
}

/// Law: `login` reads exactly the submitted user's own wishes. The wish
/// query that `login` issues once the cookie is set accepts a row exactly
/// when the row's owner is the submitted user id, whatever its access level;
/// run against any wishes table it reads those rows, in table order, and no
/// wish of anybody else.
pub proof fn law_login_reads_own_wishes(user: User, f: Filter<WishColumn>, wishes: Seq<Wish>)
    requires
        f.selects(|w: Wish| owned_by(user.user_id@, w)),
    ensures
        forall|w: Wish| #[trigger] f.holds(w) <==> w.user_id@ == user.user_id@,
        f.select(wishes) == wishes.filter(|w: Wish| w.user_id@ == user.user_id@),
        forall|i: int| 0 <= i < f.select(wishes).len() ==> #[trigger] f.select(wishes)[i].user_id@ == user.user_id@,
{
    broadcast use Seq::lemma_filter_pred;

    let p = |w: Wish| f.holds(w);
    let q = |w: Wish| w.user_id@ == user.user_id@;
    assert(p =~= q);
}

/// Law: `login` finds a user by user name, for names of every length. Its
/// user query accepts a row exactly when the row's user name is the
/// submitted one; run against a users table it reads nothing (so `login`
/// shows the home page) exactly when no row has that user name.
pub proof fn law_login_finds_by_username(name: Seq<char>, f: Filter<UserColumn>, users: Seq<User>)
    requires
        f.selects(|u: User| has_username(name, u)),
    ensures
        forall|u: User| #[trigger] f.holds(u) <==> u.username@ == name,
        f.select(users).len() == 0 <==> forall|i: int| 0 <= i < users.len() ==> #[trigger] users[i].username@ != name,
{
    broadcast use Seq::lemma_filter_pred, Seq::lemma_filter_contains, Seq::lemma_filter_contains_rev;

    let p = |u: User| f.holds(u);
    let found = users.filter(p);
    if exists|i: int| 0 <= i < users.len() && #[trigger] users[i].username@ == name {
        let i = choose|i: int| 0 <= i < users.len() && #[trigger] users[i].username@ == name;
        assert(p(users[i]));
        assert(found.contains(users[i]));
    }
    if found.len() > 0 {
        assert(p(found[0]));
        assert(found.contains(found[0]));
        assert(users.contains(found[0]));
        let i = choose|i: int| 0 <= i < users.len() && users[i] == found[0];
        assert(users[i].username@ == name);
    }
}

/// Law: a user lookup by id accepts a row exactly when the row's user id is
/// the given one (the lookups of `UserSession::from_request` and
/// `create_friendship_request`).
pub proof fn law_lookup_by_id(id: Seq<char>, f: Filter<UserColumn>)
    requires
        f.selects(|u: User| has_id(id, u)),
    ensures
        forall|u: User| #[trigger] f.holds(u) <==> u.user_id@ == id,
{
}

/// Law: the friendships that `create_friendship_request` lists afterwards
/// are exactly the rows the signed-in user asked for: a row is read exactly
/// when its `user_one` is that user, whatever its status, in table order.
pub proof fn law_sent_requests_are_own(user: Seq<char>, f: Filter<FriendshipColumn>, fs: Seq<Friendship>)
    requires
        f.selects(|r: Friendship| sent_by(user, r)),
    ensures
        forall|r: Friendship| #[trigger] f.holds(r) <==> r.user_one@ == user,
        f.select(fs) == fs.filter(|r: Friendship| r.user_one@ == user),
{
    let p = |r: Friendship| f.holds(r);
    let q = |r: Friendship| r.user_one@ == user;
    assert(p =~= q);
}

/// Law: `get_friendships` lists every friendship the user is a side of, and
/// as requests only those the user received that are still pending: the
/// first query accepts a row exactly when the user is its `user_one` or its
/// `user_two`; the second exactly when the user is its `user_two` and its
/// status is `"0"`, so a request the user sent is never among them.
pub proof fn law_friendships_and_received_requests(
    user: Seq<char>,
    all: Filter<FriendshipColumn>,
    received: Filter<FriendshipColumn>,
    fs: Seq<Friendship>,
)
    requires
        all.selects(|r: Friendship| involves(user, r)),
        received.selects(|r: Friendship| pending_for(user, r)),
    ensures
        forall|r: Friendship| #[trigger] all.holds(r) <==> (r.user_one@ == user || r.user_two@ == user),
        forall|r: Friendship| #[trigger] received.holds(r) <==> (r.user_two@ == user && r.status@ == "0"@),
        received.select(fs) == fs.filter(|r: Friendship| r.user_two@ == user && r.status@ == "0"@),
        forall|r: Friendship| r.user_two@ != user ==> !(#[trigger] received.holds(r)),
{
    let p = |r: Friendship| received.holds(r);
    let q = |r: Friendship| r.user_two@ == user && r.status@ == "0"@;
    assert(p =~= q);
}

/// Law: `change_friendship_status` touches only the friendships that
/// `one` asked `two` for. Its filter accepts a row exactly when the row's
/// `user_one` is `one` and its `user_two` is `two`, whatever its status; the
/// update gives those rows the new status and leaves every other row,
/// including one linking the two the other way round, as it was.
pub proof fn law_status_change_touches_only_the_pair(
    one: Seq<char>,
    two: Seq<char>,
    f: Filter<FriendshipColumn>,
    status: String,
    fs: Seq<Friendship>,
)
    requires
        f.selects(|r: Friendship| links(one, two, r)),
    ensures
        forall|r: Friendship| #[trigger] f.holds(r) <==> (r.user_one@ == one && r.user_two@ == two),
        with_status(fs, f, status).len() == fs.len(),
        forall|i: int| 0 <= i < fs.len() ==> #[trigger] with_status(fs, f, status)[i] == (
            if fs[i].user_one@ == one && fs[i].user_two@ == two {
                Friendship { status: status, ..fs[i] }
            } else {
                fs[i]
            }),
{
    assert forall|i: int| 0 <= i < fs.len() implies #[trigger] with_status(fs, f, status)[i] == (
        if fs[i].user_one@ == one && fs[i].user_two@ == two {
            Friendship { status: status, ..fs[i] }
        } else {
            fs[i]
        }) by {
        assert(f.holds(fs[i]) == links(one, two, fs[i]));
    }
}

/// Law: the friendship query of `get_wishes` reads exactly the accepted
/// friendships of the user, and its wish query, run against the wishes
/// table, reads exactly the wishes that are the user's own, public, or for
/// friends and owned by somebody linked to the user by an accepted
/// (status `"1"`) friendship in either direction, in table order.
pub proof fn law_get_wishes_reads_visible(
    user: Seq<char>,
    friendships: Seq<Friendship>,
    wishes: Seq<Wish>,
    first: Filter<FriendshipColumn>,
    second: Filter<WishColumn>,
)
    requires
        first.selects(|r: Friendship| accepted_link(user, r)),
        second.selects(|w: Wish| visible_given(user, friend_ids_of(first.select(friendships)), w)),
    ensures
        forall|r: Friendship| #[trigger] first.holds(r)
            <==> (r.status@ == "1"@ && (r.user_one@ == user || r.user_two@ == user)),
        second.select(wishes) == wishes.filter(|w: Wish|
            w.user_id@ == user || w.access_level@ == "public"@ || (w.access_level@ == "friends"@
                && exists|i: int| 0 <= i < friendships.len() && #[trigger] friendships[i].status@ == "1"@
                    && ((friendships[i].user_one@ == user && friendships[i].user_two@ == w.user_id@)
                        || (friendships[i].user_one@ == w.user_id@ && friendships[i].user_two@ == user)))),
{
    lemma_get_wishes_shows_visible(user, friendships, wishes, first, second);
    let q = |w: Wish| visible_to(user, friendships, w);
    let r = |w: Wish|
        w.user_id@ == user || w.access_level@ == "public"@ || (w.access_level@ == "friends"@
            && exists|i: int| 0 <= i < friendships.len() && #[trigger] friendships[i].status@ == "1"@
                && ((friendships[i].user_one@ == user && friendships[i].user_two@ == w.user_id@)
                    || (friendships[i].user_one@ == w.user_id@ && friendships[i].user_two@ == user)));
    assert(q =~= r);
}

} // verus!
