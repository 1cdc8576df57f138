use vstd::prelude::*;

verus! {

/// A registered user, as stored in the `users` table.
#[derive(Debug, Clone, PartialEq, Eq)]
pub struct User {
    pub user_id: String,
    pub name: String,
    pub username: String,
}

/// The fields of a user as a client submits them.
#[derive(Debug, Clone, PartialEq, Eq)]
pub struct UserDto {
    pub user_id: String,
    pub name: String,
    pub username: String,
}

/// A stored wish. `access_level` is `"public"`, `"friends"`, or anything
/// else, which keeps the wish to its owner.
#[derive(Debug, Clone, PartialEq, Eq)]
pub struct Wish {
    pub wish_id: i32,
    pub description: String,
    pub access_level: String,
    pub user_id: String,
}

/// A wish to be stored; the database assigns its id.
#[derive(Debug, Clone, PartialEq, Eq)]
pub struct WishDto {
    pub description: String,
    pub access_level: String,
    pub user_id: String,
}

/// A stored friendship between `user_one` (who asked) and `user_two`.
/// Its `status` is `"1"` once accepted and `"0"` while pending.
#[derive(Debug, Clone, PartialEq, Eq)]
pub struct Friendship {
    pub friendship_id: i32,
    pub user_one: String,
    pub user_two: String,
    pub status: String,
}

/// A friendship to be stored, or the fields of a friendship form.
#[derive(Debug, Clone, PartialEq, Eq)]
pub struct FriendshipDto {
    pub user_one: String,
    pub user_two: String,
    pub status: String,
}

/// The signed-in user that a request carries.
#[derive(Debug, Clone, PartialEq, Eq)]
pub struct UserSession {
    pub user: User,
}

impl User {
    /// A field-by-field copy.
    pub fn duplicate(&self) -> (u: User)
        ensures
            u == *self,
    {
        User {
            user_id: self.user_id.clone(),
            name: self.name.clone(),
            username: self.username.clone(),
        }
    }
}

impl UserSession {
    /// The user this session belongs to.
    pub fn auth_user(&self) -> (u: User)
        ensures
            u == self.user,
    {
        self.user.duplicate()
    }
}

} // verus!
