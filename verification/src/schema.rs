use vstd::prelude::*;
use crate::filter::Record;
use crate::models::{Friendship, User, Wish};

verus! {

/// The text columns of the `users` table.
#[derive(Debug, Clone, Copy, PartialEq, Eq)]
pub enum UserColumn {
    UserId,
    Name,
    Username,
}

/// The text columns of the `wishes` table.
#[derive(Debug, Clone, Copy, PartialEq, Eq)]
pub enum WishColumn {
    Description,
    AccessLevel,
    UserId,
}

/// The text columns of the `friendships` table.
#[derive(Debug, Clone, Copy, PartialEq, Eq)]
pub enum FriendshipColumn {
    UserOne,
    UserTwo,
    Status,
}

impl Record<UserColumn> for User {
    open spec fn field(&self, column: UserColumn) -> Seq<char> {
        match column {
            UserColumn::UserId => self.user_id@,
            UserColumn::Name => self.name@,
            UserColumn::Username => self.username@,
        }
    }

    fn field_text(&self, column: &UserColumn) -> (text: &String) {
        match column {
            UserColumn::UserId => &self.user_id,
            UserColumn::Name => &self.name,
            UserColumn::Username => &self.username,
        }
    }
}

impl Record<WishColumn> for Wish {
    open spec fn field(&self, column: WishColumn) -> Seq<char> {
        match column {
            WishColumn::Description => self.description@,
            WishColumn::AccessLevel => self.access_level@,
            WishColumn::UserId => self.user_id@,
        }
    }

    fn field_text(&self, column: &WishColumn) -> (text: &String) {
        match column {
            WishColumn::Description => &self.description,
            WishColumn::AccessLevel => &self.access_level,
            WishColumn::UserId => &self.user_id,
        }
    }
}

impl Record<FriendshipColumn> for Friendship {
    open spec fn field(&self, column: FriendshipColumn) -> Seq<char> {
        match column {
            FriendshipColumn::UserOne => self.user_one@,
            FriendshipColumn::UserTwo => self.user_two@,
            FriendshipColumn::Status => self.status@,
        }
    }

    fn field_text(&self, column: &FriendshipColumn) -> (text: &String) {
        match column {
            FriendshipColumn::UserOne => &self.user_one,
            FriendshipColumn::UserTwo => &self.user_two,
            FriendshipColumn::Status => &self.status,
        }
    }
}

} // verus!
