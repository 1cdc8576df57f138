use vstd::prelude::*;
use crate::filter::{texts, Filter};
use crate::models::{Friendship, User, Wish};
use crate::policy::{
    accepted_link, accepted_status, has_id, has_username, involves, links, owned_by, pending_for,
    pending_status, sent_by, visible_given,
};
use crate::schema::{FriendshipColumn, UserColumn, WishColumn};

verus! {

/// The users whose user name is `name`.
pub fn user_with_username(name: &String) -> (f: Filter<UserColumn>)
    ensures
        f.selects(|u: User| has_username(name@, u)),
{
    Filter::Eq(UserColumn::Username, name.clone())
}

/// The user whose id is `id`.
pub fn user_with_id(id: &String) -> (f: Filter<UserColumn>)
    ensures
        f.selects(|u: User| has_id(id@, u)),
{
    Filter::Eq(UserColumn::UserId, id.clone())
}

/// The wishes of `user`.
pub fn wishes_of(user: &String) -> (f: Filter<WishColumn>)
    ensures
        f.selects(|w: Wish| owned_by(user@, w)),
{
    Filter::Eq(WishColumn::UserId, user.clone())
}

/// The friendships that `user` is a side of, whatever their status.
pub fn friendships_of(user: &String) -> (f: Filter<FriendshipColumn>)
    ensures
        f.selects(|r: Friendship| involves(user@, r)),
{
    let f = Filter::Or(
        Box::new(Filter::Eq(FriendshipColumn::UserOne, user.clone())),
        Box::new(Filter::Eq(FriendshipColumn::UserTwo, user.clone())),
    );
    assert forall|r: Friendship| #[trigger] f.holds(r) == involves(user@, r) by {
        reveal_with_fuel(Filter::holds, 2);
    }
    f
}

/// The friendship requests that `user` has received and not answered.
pub fn pending_requests_for(user: &String) -> (f: Filter<FriendshipColumn>)
    ensures
        f.selects(|r: Friendship| pending_for(user@, r)),
{
    let f = Filter::And(
        Box::new(Filter::Eq(FriendshipColumn::UserTwo, user.clone())),
        Box::new(Filter::Eq(FriendshipColumn::Status, pending_status())),
    );
    assert forall|r: Friendship| #[trigger] f.holds(r) == pending_for(user@, r) by {
        reveal_with_fuel(Filter::holds, 2);
    }
    f
}

/// The friendships that `user` asked for.
pub fn requests_sent_by(user: &String) -> (f: Filter<FriendshipColumn>)
    ensures
        f.selects(|r: Friendship| sent_by(user@, r)),
{
    Filter::Eq(FriendshipColumn::UserOne, user.clone())
}

/// The friendships that `one` asked `two` for.
pub fn friendship_between(one: &String, two: &String) -> (f: Filter<FriendshipColumn>)
    ensures
        f.selects(|r: Friendship| links(one@, two@, r)),
{
    let f = Filter::And(
        Box::new(Filter::Eq(FriendshipColumn::UserOne, one.clone())),
        Box::new(Filter::Eq(FriendshipColumn::UserTwo, two.clone())),
    );
    assert forall|r: Friendship| #[trigger] f.holds(r) == links(one@, two@, r) by {
        reveal_with_fuel(Filter::holds, 2);
    }
    f
}

/// The accepted friendships of `user`.
pub fn accepted_friendships_of(user: &String) -> (f: Filter<FriendshipColumn>)
    ensures
        f.selects(|r: Friendship| accepted_link(user@, r)),
{
    let f = Filter::And(
        Box::new(Filter::Eq(FriendshipColumn::Status, accepted_status())),
        Box::new(
            Filter::Or(
                Box::new(Filter::Eq(FriendshipColumn::UserOne, user.clone())),
                Box::new(Filter::Eq(FriendshipColumn::UserTwo, user.clone())),
            ),
        ),
    );
    assert forall|r: Friendship| #[trigger] f.holds(r) == accepted_link(user@, r) by {
        reveal_with_fuel(Filter::holds, 3);
    }
    f
}

/// The wishes that `user` may see when their accepted friendships name the
/// ids `ids`.
pub fn visible_wishes_filter(user: &String, ids: Vec<String>) -> (f: Filter<WishColumn>)
    ensures
        f.selects(|w: Wish| visible_given(user@, texts(ids@), w)),
{
    let ghost id_texts = texts(ids@);
    let f = Filter::Or(
        Box::new(Filter::Eq(WishColumn::UserId, user.clone())),
        Box::new(
            Filter::Or(
                Box::new(Filter::Eq(WishColumn::AccessLevel, "public".to_owned())),
                Box::new(
                    Filter::And(
                        Box::new(Filter::EqAny(WishColumn::UserId, ids)),
                        Box::new(Filter::Eq(WishColumn::AccessLevel, "friends".to_owned())),
                    ),
                ),
            ),
        ),
    );
    assert forall|w: Wish| #[trigger] f.holds(w) == visible_given(user@, id_texts, w) by {
        reveal_with_fuel(Filter::holds, 4);
    }
    f
}

} // verus!
