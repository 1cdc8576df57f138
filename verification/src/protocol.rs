use vstd::prelude::*;
use crate::filter::Filter;
use crate::models::{Friendship, FriendshipDto, User, Wish, WishDto};
use crate::schema::{FriendshipColumn, UserColumn, WishColumn};

verus! {

/// A page to answer a request with: a template and what it is rendered with.
#[derive(Debug, PartialEq, Eq)]
pub enum Page {
    /// The `home` template, with an empty context.
    Home,
    /// The `wishes` template; with `None` its context is empty, otherwise it
    /// holds `wishes`.
    Wishes(Option<Vec<Wish>>),
    /// The `friendships` template; each list that is present is in the
    /// context, under `friendships` and `requests`.
    Friendships { friendships: Option<Vec<Friendship>>, requests: Option<Vec<Friendship>> },
}

/// Why a handler gives up on a request.
#[derive(Debug, PartialEq, Eq, Clone, Copy)]
pub enum Failure {
    /// A new user could not be stored.
    SavingUser,
    /// The users table could not be read.
    RetrievingUser,
    /// The wishes of a user could not be read.
    RetrievingResults,
    /// A query that the handler needs failed, or found no row.
    MissingResult,
    /// The reply does not answer the handler's last command.
    OutOfOrder,
}

/// What a handler asks its driver to do next.
#[derive(Debug, PartialEq, Eq)]
pub enum Command {
    /// Read the users that satisfy the filter; answer with `Reply::Users`.
    LoadUsers(Filter<UserColumn>),
    /// Read the first user that satisfies the filter; answer with `Reply::User`.
    FindUser(Filter<UserColumn>),
    /// Read the wishes that satisfy the filter; answer with `Reply::Wishes`.
    LoadWishes(Filter<WishColumn>),
    /// Read the friendships that satisfy the filter; answer with
    /// `Reply::Friendships`.
    LoadFriendships(Filter<FriendshipColumn>),
    /// Store a user; answer with `Reply::Done` or `Reply::Failed`.
    AddUser(User),
    /// Store a wish; answer with `Reply::Done` or `Reply::Failed`.
    AddWish(WishDto),
    /// Store a friendship; answer with `Reply::Done` or `Reply::Failed`.
    AddFriendship(FriendshipDto),
    /// Set the status of the friendships that satisfy the filter; answer
    /// with `Reply::Done` or `Reply::Failed`.
    SetFriendshipStatus(Filter<FriendshipColumn>, String),
    /// Set the session cookie to this user id; answer with `Reply::Done`.
    SetSessionCookie(String),
    /// Remove the session cookie; answer with `Reply::Done`.
    RemoveSessionCookie,
    /// Answer the request with this page; the handler is finished.
    Show(Page),
    /// Answer the request with an empty body; the handler is finished.
    Finish,
    /// The request is made by this user; the session is established.
    SignIn(User),
    /// The request carries no user; answer it as unauthorized.
    Refuse,
    /// Give up on the request.
    Abort(Failure),
}

/// What the driver reports back about the last command.
#[derive(Debug, PartialEq, Eq)]
pub enum Reply {
    /// Nothing has been done yet: the first call of a handler.
    Begin,
    /// The write or cookie change succeeded.
    Done,
    /// The query or write failed.
    Failed,
    /// The users that a `LoadUsers` read.
    Users(Vec<User>),
    /// The user that a `FindUser` found, if any.
    User(Option<User>),
    /// The wishes that a `LoadWishes` read.
    Wishes(Vec<Wish>),
    /// The friendships that a `LoadFriendships` read.
    Friendships(Vec<Friendship>),
}

/// The name of the cookie that holds the id of the signed-in user.
pub fn session_cookie() -> (name: &'static str)
    ensures
        name@ == "user_id"@,
{
    "user_id"
}

} // verus!
