use vstd::prelude::*;
use crate::models::{User, UserSession, Wish};
use crate::policy::{has_id, has_username, owned_by};
use crate::protocol::{Command, Failure, Page, Reply};
use crate::queries::{user_with_id, user_with_username, wishes_of};

verus! {

/// Where `create_user` stands.
#[derive(Debug, PartialEq, Eq, Clone, Copy)]
pub enum CreateUserStage {
    Start,
    Saving,
    SettingCookie,
    Over,
}

/// Registers `user`: stores it, signs it in, and shows the (empty) wishes
/// page. A failure to store the user ends the request.
pub fn create_user(user: &User, stage: CreateUserStage, reply: Reply) -> (next: (CreateUserStage, Command))
    ensures
        match (stage, reply) {
            (CreateUserStage::Start, Reply::Begin) =>
                next == (CreateUserStage::Saving, Command::AddUser(*user)),
            (CreateUserStage::Saving, Reply::Done) =>
                next.0 == CreateUserStage::SettingCookie
                    && (next.1 matches Command::SetSessionCookie(id) && id@ == user.user_id@),
            (CreateUserStage::Saving, Reply::Failed) =>
                next == (CreateUserStage::Over, Command::Abort(Failure::SavingUser)),
            (CreateUserStage::SettingCookie, Reply::Done) =>
                next == (CreateUserStage::Over, Command::Show(Page::Wishes(None))),
            _ => next == (CreateUserStage::Over, Command::Abort(Failure::OutOfOrder)),
        },
{
    match (stage, reply) {
        (CreateUserStage::Start, Reply::Begin) =>
            (CreateUserStage::Saving, Command::AddUser(user.duplicate())),
        (CreateUserStage::Saving, Reply::Done) =>
            (CreateUserStage::SettingCookie, Command::SetSessionCookie(user.user_id.clone())),
        (CreateUserStage::Saving, Reply::Failed) =>
            (CreateUserStage::Over, Command::Abort(Failure::SavingUser)),
        (CreateUserStage::SettingCookie, Reply::Done) =>
            (CreateUserStage::Over, Command::Show(Page::Wishes(None))),
        _ => (CreateUserStage::Over, Command::Abort(Failure::OutOfOrder)),
    }
}

/// Where `login` stands.
#[derive(Debug, PartialEq, Eq, Clone, Copy)]
pub enum LoginStage {
    Start,
    FindingUser,
    SettingCookie,
    LoadingWishes,
    Over,
}

/// Logs in with the submitted `user`: when some stored user has its user
/// name, the session is set to the submitted user id and the wishes of that
/// id are shown; otherwise the home page is shown.
pub fn login(user: &User, stage: LoginStage, reply: Reply) -> (next: (LoginStage, Command))
    ensures
        match (stage, reply) {
            (LoginStage::Start, Reply::Begin) =>
                next.0 == LoginStage::FindingUser
                    && (next.1 matches Command::LoadUsers(f)
                        && f.selects(|u: User| has_username(user.username@, u))),
            (LoginStage::FindingUser, Reply::Users(found)) =>
                if found.len() == 0 {
                    next == (LoginStage::Over, Command::Show(Page::Home))
                } else {
                    next.0 == LoginStage::SettingCookie
                        && (next.1 matches Command::SetSessionCookie(id) && id@ == user.user_id@)
                },
            (LoginStage::FindingUser, Reply::Failed) =>
                next == (LoginStage::Over, Command::Abort(Failure::RetrievingUser)),
            (LoginStage::SettingCookie, Reply::Done) =>
                next.0 == LoginStage::LoadingWishes
                    && (next.1 matches Command::LoadWishes(f)
                        && f.selects(|w: Wish| owned_by(user.user_id@, w))),
            (LoginStage::LoadingWishes, Reply::Wishes(wishes)) =>
                next == (LoginStage::Over, Command::Show(Page::Wishes(Some(wishes)))),
            (LoginStage::LoadingWishes, Reply::Failed) =>
                next == (LoginStage::Over, Command::Abort(Failure::RetrievingResults)),
            _ => next == (LoginStage::Over, Command::Abort(Failure::OutOfOrder)),
        },
{
    match (stage, reply) {
        (LoginStage::Start, Reply::Begin) =>
            (LoginStage::FindingUser, Command::LoadUsers(user_with_username(&user.username))),
        (LoginStage::FindingUser, Reply::Users(found)) => {
            if found.len() == 0 {
                (LoginStage::Over, Command::Show(Page::Home))
            } else {
                (LoginStage::SettingCookie, Command::SetSessionCookie(user.user_id.clone()))
            }
        },
        (LoginStage::FindingUser, Reply::Failed) =>
            (LoginStage::Over, Command::Abort(Failure::RetrievingUser)),
        (LoginStage::SettingCookie, Reply::Done) =>
            (LoginStage::LoadingWishes, Command::LoadWishes(wishes_of(&user.user_id))),
        (LoginStage::LoadingWishes, Reply::Wishes(wishes)) =>
            (LoginStage::Over, Command::Show(Page::Wishes(Some(wishes)))),
        (LoginStage::LoadingWishes, Reply::Failed) =>
            (LoginStage::Over, Command::Abort(Failure::RetrievingResults)),
        _ => (LoginStage::Over, Command::Abort(Failure::OutOfOrder)),
    }
}

/// Where `logout` stands.
#[derive(Debug, PartialEq, Eq, Clone, Copy)]
pub enum LogoutStage {
    Start,
    RemovingCookie,
    Over,
}

/// Logs out: removes the session cookie and shows the home page.
pub fn logout(stage: LogoutStage, reply: Reply) -> (next: (LogoutStage, Command))
    ensures
        match (stage, reply) {
            (LogoutStage::Start, Reply::Begin) =>
                next == (LogoutStage::RemovingCookie, Command::RemoveSessionCookie),
            (LogoutStage::RemovingCookie, Reply::Done) =>
                next == (LogoutStage::Over, Command::Show(Page::Home)),
            _ => next == (LogoutStage::Over, Command::Abort(Failure::OutOfOrder)),
        },
{
    match (stage, reply) {
        (LogoutStage::Start, Reply::Begin) => (LogoutStage::RemovingCookie, Command::RemoveSessionCookie),
        (LogoutStage::RemovingCookie, Reply::Done) => (LogoutStage::Over, Command::Show(Page::Home)),
        _ => (LogoutStage::Over, Command::Abort(Failure::OutOfOrder)),
    }
}

/// Where `UserSession::from_request` stands.
#[derive(Debug, PartialEq, Eq, Clone, Copy)]
pub enum SessionStage {
    Start,
    FindingUser,
    Over,
}

impl UserSession {
    /// Establishes the session of a request whose session cookie holds
    /// `token`: an empty token is refused; otherwise the user with that id
    /// signs in, and a request whose user cannot be found is given up.
    pub fn from_request(token: &String, stage: SessionStage, reply: Reply) -> (next: (SessionStage, Command))
        ensures
            match (stage, reply) {
                (SessionStage::Start, Reply::Begin) =>
                    if token@.len() == 0 {
                        next == (SessionStage::Over, Command::Refuse)
                    } else {
                        next.0 == SessionStage::FindingUser
                            && (next.1 matches Command::FindUser(f)
                                && f.selects(|u: User| has_id(token@, u)))
                    },
                (SessionStage::FindingUser, Reply::User(Some(found))) =>
                    next == (SessionStage::Over, Command::SignIn(found)),
                (SessionStage::FindingUser, Reply::User(None)) =>
                    next == (SessionStage::Over, Command::Abort(Failure::MissingResult)),
                (SessionStage::FindingUser, Reply::Failed) =>
                    next == (SessionStage::Over, Command::Abort(Failure::MissingResult)),
                _ => next == (SessionStage::Over, Command::Abort(Failure::OutOfOrder)),
            },
    {
        match (stage, reply) {
            (SessionStage::Start, Reply::Begin) => {
                if token.as_str().is_empty() {
                    (SessionStage::Over, Command::Refuse)
                } else {
                    (SessionStage::FindingUser, Command::FindUser(user_with_id(token)))
                }
            },
            (SessionStage::FindingUser, Reply::User(Some(found))) =>
                (SessionStage::Over, Command::SignIn(found)),
            (SessionStage::FindingUser, Reply::User(None)) =>
                (SessionStage::Over, Command::Abort(Failure::MissingResult)),
            (SessionStage::FindingUser, Reply::Failed) =>
                (SessionStage::Over, Command::Abort(Failure::MissingResult)),
            _ => (SessionStage::Over, Command::Abort(Failure::OutOfOrder)),
        }
    }
}

} // verus!
