use vstd::prelude::*;
use crate::models::{Friendship, FriendshipDto, User, UserSession, Wish, WishDto};
use crate::policy::{
    accepted_link, friend_ids, friend_ids_of, has_id, involves, links, pending_for, sent_by,
    visible_given,
};
use crate::protocol::{Command, Failure, Page, Reply};
use crate::queries::{
    accepted_friendships_of, friendship_between, friendships_of, pending_requests_for,
    requests_sent_by, user_with_id, visible_wishes_filter,
};

verus! {

/// Where `create_wish` stands.
#[derive(Debug, PartialEq, Eq, Clone, Copy)]
pub enum CreateWishStage {
    Start,
    Saving,
    Over,
}

/// Posts a wish for the signed-in user: stores the submitted description and
/// access level under the session's user id, whether or not that succeeds,
/// and answers with an empty body.
pub fn create_wish(wish: &WishDto, session: &UserSession, stage: CreateWishStage, reply: Reply) -> (next: (CreateWishStage, Command))
    ensures
        match (stage, reply) {
            (CreateWishStage::Start, Reply::Begin) =>
                next.0 == CreateWishStage::Saving
                    && (next.1 matches Command::AddWish(w)
                        && w.description == wish.description
                        && w.access_level == wish.access_level
                        && w.user_id == session.user.user_id),
            (CreateWishStage::Saving, Reply::Done) => next == (CreateWishStage::Over, Command::Finish),
            (CreateWishStage::Saving, Reply::Failed) => next == (CreateWishStage::Over, Command::Finish),
            _ => next == (CreateWishStage::Over, Command::Abort(Failure::OutOfOrder)),
        },
{
    match (stage, reply) {
        (CreateWishStage::Start, Reply::Begin) => {
            let auth_user = session.auth_user();
            let new_wish = WishDto {
                description: wish.description.clone(),
                access_level: wish.access_level.clone(),
                user_id: auth_user.user_id,
            };
            (CreateWishStage::Saving, Command::AddWish(new_wish))
        },
        (CreateWishStage::Saving, Reply::Done) => (CreateWishStage::Over, Command::Finish),
        (CreateWishStage::Saving, Reply::Failed) => (CreateWishStage::Over, Command::Finish),
        _ => (CreateWishStage::Over, Command::Abort(Failure::OutOfOrder)),
    }
}

/// Where `get_wishes` stands.
#[derive(Debug, PartialEq, Eq, Clone, Copy)]
pub enum GetWishesStage {
    Start,
    LoadingFriendships,
    LoadingWishes,
    Over,
}

/// Shows the signed-in user the wishes they may see: it reads their
/// accepted friendships, then the wishes that are theirs, public, or for
/// friends and owned by a side of one of those friendships.
pub fn get_wishes(session: &UserSession, stage: GetWishesStage, reply: Reply) -> (next: (GetWishesStage, Command))
    ensures
        match (stage, reply) {
            (GetWishesStage::Start, Reply::Begin) =>
                next.0 == GetWishesStage::LoadingFriendships
                    && (next.1 matches Command::LoadFriendships(f)
                        && f.selects(|r: Friendship| accepted_link(session.user.user_id@, r))),
            (GetWishesStage::LoadingFriendships, Reply::Friendships(friendships)) =>
                next.0 == GetWishesStage::LoadingWishes
                    && (next.1 matches Command::LoadWishes(f)
                        && f.selects(|w: Wish| visible_given(session.user.user_id@, friend_ids_of(friendships@), w))),
            (GetWishesStage::LoadingWishes, Reply::Wishes(wishes)) =>
                next == (GetWishesStage::Over, Command::Show(Page::Wishes(Some(wishes)))),
            (GetWishesStage::LoadingFriendships, Reply::Failed) =>
                next == (GetWishesStage::Over, Command::Abort(Failure::MissingResult)),
            (GetWishesStage::LoadingWishes, Reply::Failed) =>
                next == (GetWishesStage::Over, Command::Abort(Failure::MissingResult)),
            _ => next == (GetWishesStage::Over, Command::Abort(Failure::OutOfOrder)),
        },
{
    match (stage, reply) {
        (GetWishesStage::Start, Reply::Begin) => {
            let auth_user = session.auth_user();
            (GetWishesStage::LoadingFriendships, Command::LoadFriendships(accepted_friendships_of(&auth_user.user_id)))
        },
        (GetWishesStage::LoadingFriendships, Reply::Friendships(friendships)) => {
            let auth_user = session.auth_user();
            let ids = friend_ids(&friendships);
            (GetWishesStage::LoadingWishes, Command::LoadWishes(visible_wishes_filter(&auth_user.user_id, ids)))
        },
        (GetWishesStage::LoadingWishes, Reply::Wishes(wishes)) =>
            (GetWishesStage::Over, Command::Show(Page::Wishes(Some(wishes)))),
        (GetWishesStage::LoadingFriendships, Reply::Failed) =>
            (GetWishesStage::Over, Command::Abort(Failure::MissingResult)),
        (GetWishesStage::LoadingWishes, Reply::Failed) =>
            (GetWishesStage::Over, Command::Abort(Failure::MissingResult)),
        _ => (GetWishesStage::Over, Command::Abort(Failure::OutOfOrder)),
    }
}

/// Where `get_friendships` stands; after the first query it holds the
/// friendships it read.
#[derive(Debug, PartialEq, Eq)]
pub enum GetFriendshipsStage {
    Start,
    LoadingFriendships,
    LoadingRequests(Vec<Friendship>),
    Over,
}

/// Shows the signed-in user every friendship they are a side of, and the
/// requests they have received and not answered.
pub fn get_friendships(session: &UserSession, stage: GetFriendshipsStage, reply: Reply) -> (next: (GetFriendshipsStage, Command))
    ensures
        match (stage, reply) {
            (GetFriendshipsStage::Start, Reply::Begin) =>
                next.0 == GetFriendshipsStage::LoadingFriendships
                    && (next.1 matches Command::LoadFriendships(f)
                        && f.selects(|r: Friendship| involves(session.user.user_id@, r))),
            (GetFriendshipsStage::LoadingFriendships, Reply::Friendships(friendships)) =>
                next.0 == GetFriendshipsStage::LoadingRequests(friendships)
                    && (next.1 matches Command::LoadFriendships(f)
                        && f.selects(|r: Friendship| pending_for(session.user.user_id@, r))),
            (GetFriendshipsStage::LoadingRequests(friendships), Reply::Friendships(requests)) =>
                next == (GetFriendshipsStage::Over, Command::Show(Page::Friendships {
                    friendships: Some(friendships),
                    requests: Some(requests),
                })),
            (GetFriendshipsStage::LoadingFriendships, Reply::Failed) =>
                next == (GetFriendshipsStage::Over, Command::Abort(Failure::MissingResult)),
            (GetFriendshipsStage::LoadingRequests(_), Reply::Failed) =>
                next == (GetFriendshipsStage::Over, Command::Abort(Failure::MissingResult)),
            _ => next == (GetFriendshipsStage::Over, Command::Abort(Failure::OutOfOrder)),
        },
{
    match (stage, reply) {
        (GetFriendshipsStage::Start, Reply::Begin) => {
            let auth_user = session.auth_user();
            (GetFriendshipsStage::LoadingFriendships, Command::LoadFriendships(friendships_of(&auth_user.user_id)))
        },
        (GetFriendshipsStage::LoadingFriendships, Reply::Friendships(friendships)) => {
            let auth_user = session.auth_user();
            (
                GetFriendshipsStage::LoadingRequests(friendships),
                Command::LoadFriendships(pending_requests_for(&auth_user.user_id)),
            )
        },
        (GetFriendshipsStage::LoadingRequests(friendships), Reply::Friendships(requests)) =>
            (GetFriendshipsStage::Over, Command::Show(Page::Friendships {
                friendships: Some(friendships),
                requests: Some(requests),
            })),
        (GetFriendshipsStage::LoadingFriendships, Reply::Failed) =>
            (GetFriendshipsStage::Over, Command::Abort(Failure::MissingResult)),
        (GetFriendshipsStage::LoadingRequests(_), Reply::Failed) =>
            (GetFriendshipsStage::Over, Command::Abort(Failure::MissingResult)),
        _ => (GetFriendshipsStage::Over, Command::Abort(Failure::OutOfOrder)),
    }
}

/// Where `create_friendship_request` stands.
#[derive(Debug, PartialEq, Eq, Clone, Copy)]
pub enum FriendshipRequestStage {
    Start,
    CheckingUser,
    Saving,
    LoadingSent,
    Over,
}

/// Sends a friendship request from the signed-in user to
/// `friendship.user_two`, with the submitted status: when no user has that
/// id, the friendships page is shown with an empty context; otherwise the
/// friendship is stored (a failure to store it is ignored) and the
/// friendships the signed-in user asked for are shown.
pub fn create_friendship_request(
    friendship: &FriendshipDto,
    session: &UserSession,
    stage: FriendshipRequestStage,
    reply: Reply,
) -> (next: (FriendshipRequestStage, Command))
    ensures
        match (stage, reply) {
            (FriendshipRequestStage::Start, Reply::Begin) =>
                next.0 == FriendshipRequestStage::CheckingUser
                    && (next.1 matches Command::FindUser(f)
                        && f.selects(|u: User| has_id(friendship.user_two@, u))),
            (FriendshipRequestStage::CheckingUser, Reply::User(None)) =>
                next == (FriendshipRequestStage::Over, Command::Show(Page::Friendships {
                    friendships: None,
                    requests: None,
                })),
            (FriendshipRequestStage::CheckingUser, Reply::User(Some(_))) =>
                next.0 == FriendshipRequestStage::Saving
                    && (next.1 matches Command::AddFriendship(d)
                        && d.user_one == session.user.user_id
                        && d.user_two == friendship.user_two
                        && d.status == friendship.status),
            (FriendshipRequestStage::CheckingUser, Reply::Failed) =>
                next == (FriendshipRequestStage::Over, Command::Abort(Failure::MissingResult)),
            (FriendshipRequestStage::Saving, Reply::Done) =>
                next.0 == FriendshipRequestStage::LoadingSent
                    && (next.1 matches Command::LoadFriendships(f)
                        && f.selects(|r: Friendship| sent_by(session.user.user_id@, r))),
            (FriendshipRequestStage::Saving, Reply::Failed) =>
                next.0 == FriendshipRequestStage::LoadingSent
                    && (next.1 matches Command::LoadFriendships(f)
                        && f.selects(|r: Friendship| sent_by(session.user.user_id@, r))),
            (FriendshipRequestStage::LoadingSent, Reply::Friendships(sent)) =>
                next == (FriendshipRequestStage::Over, Command::Show(Page::Friendships {
                    friendships: Some(sent),
                    requests: None,
                })),
            (FriendshipRequestStage::LoadingSent, Reply::Failed) =>
                next == (FriendshipRequestStage::Over, Command::Abort(Failure::MissingResult)),
            _ => next == (FriendshipRequestStage::Over, Command::Abort(Failure::OutOfOrder)),
        },
{
    match (stage, reply) {
        (FriendshipRequestStage::Start, Reply::Begin) =>
            (FriendshipRequestStage::CheckingUser, Command::FindUser(user_with_id(&friendship.user_two))),
        (FriendshipRequestStage::CheckingUser, Reply::User(None)) =>
            (FriendshipRequestStage::Over, Command::Show(Page::Friendships {
                friendships: None,
                requests: None,
            })),
        (FriendshipRequestStage::CheckingUser, Reply::User(Some(_))) => {
            let auth_user = session.auth_user();
            let new_friendship = FriendshipDto {
                user_one: auth_user.user_id,
                user_two: friendship.user_two.clone(),
                status: friendship.status.clone(),
            };
            (FriendshipRequestStage::Saving, Command::AddFriendship(new_friendship))
        },
        (FriendshipRequestStage::CheckingUser, Reply::Failed) =>
            (FriendshipRequestStage::Over, Command::Abort(Failure::MissingResult)),
        (FriendshipRequestStage::Saving, Reply::Done) | (FriendshipRequestStage::Saving, Reply::Failed) => {
            let auth_user = session.auth_user();
            (FriendshipRequestStage::LoadingSent, Command::LoadFriendships(requests_sent_by(&auth_user.user_id)))
        },
        (FriendshipRequestStage::LoadingSent, Reply::Friendships(sent)) =>
            (FriendshipRequestStage::Over, Command::Show(Page::Friendships {
                friendships: Some(sent),
                requests: None,
            })),
        (FriendshipRequestStage::LoadingSent, Reply::Failed) =>
            (FriendshipRequestStage::Over, Command::Abort(Failure::MissingResult)),
        _ => (FriendshipRequestStage::Over, Command::Abort(Failure::OutOfOrder)),
    }
}

/// Where `change_friendship_status` stands.
#[derive(Debug, PartialEq, Eq, Clone, Copy)]
pub enum StatusChangeStage {
    Start,
    Updating,
    Over,
}

/// Sets the status of the friendships that `friendship.user_one` asked
/// `friendship.user_two` for to the submitted status, whether or not that
/// succeeds, and answers with an empty body. Any signed-in user may do so.
pub fn change_friendship_status(friendship: &FriendshipDto, stage: StatusChangeStage, reply: Reply) -> (next: (StatusChangeStage, Command))
    ensures
        match (stage, reply) {
            (StatusChangeStage::Start, Reply::Begin) =>
                next.0 == StatusChangeStage::Updating
                    && (next.1 matches Command::SetFriendshipStatus(f, status)
                        && f.selects(|r: Friendship| links(friendship.user_one@, friendship.user_two@, r))
                        && status == friendship.status),
            (StatusChangeStage::Updating, Reply::Done) => next == (StatusChangeStage::Over, Command::Finish),
            (StatusChangeStage::Updating, Reply::Failed) => next == (StatusChangeStage::Over, Command::Finish),
            _ => next == (StatusChangeStage::Over, Command::Abort(Failure::OutOfOrder)),
        },
{
    match (stage, reply) {
        (StatusChangeStage::Start, Reply::Begin) => {
            let filter = friendship_between(&friendship.user_one, &friendship.user_two);
            (StatusChangeStage::Updating, Command::SetFriendshipStatus(filter, friendship.status.clone()))
        },
        (StatusChangeStage::Updating, Reply::Done) => (StatusChangeStage::Over, Command::Finish),
        (StatusChangeStage::Updating, Reply::Failed) => (StatusChangeStage::Over, Command::Finish),
        _ => (StatusChangeStage::Over, Command::Abort(Failure::OutOfOrder)),
    }
}

} // verus!
