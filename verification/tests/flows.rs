use wishlist::auth::{create_user, login, logout, CreateUserStage, LoginStage, LogoutStage, SessionStage};
use wishlist::models::{Friendship, FriendshipDto, User, UserSession, Wish, WishDto};
use wishlist::protocol::{Command, Failure, Page, Reply};
use wishlist::services::{
    change_friendship_status, create_friendship_request, create_wish, get_friendships, get_wishes,
    CreateWishStage, FriendshipRequestStage, GetFriendshipsStage, GetWishesStage, StatusChangeStage,
};

/// How a request ended.
#[derive(Debug, PartialEq)]
enum Outcome {
    Shown(Page),
    Empty,
    SignedIn(User),
    Refused,
    Aborted(Failure),
}

/// An in-memory stand-in for the database and the cookie jar.
#[derive(Default)]
struct Backend {
    users: Vec<User>,
    wishes: Vec<Wish>,
    friendships: Vec<Friendship>,
    cookie: Option<String>,
    next_id: i32,
    broken: bool,
    log: Vec<String>,
}

impl Backend {
    fn perform(&mut self, command: Command) -> Result<Reply, Outcome> {
        let broken = self.broken;
        let reply = match command {
            Command::LoadUsers(f) => {
                self.log.push("load users".to_string());
                if broken { Reply::Failed } else {
                    Reply::Users(self.users.iter().filter(|u| f.matches(*u)).cloned().collect())
                }
            },
            Command::FindUser(f) => {
                self.log.push("find user".to_string());
                if broken { Reply::Failed } else {
                    Reply::User(self.users.iter().find(|u| f.matches(*u)).cloned())
                }
            },
            Command::LoadWishes(f) => {
                self.log.push("load wishes".to_string());
                if broken { Reply::Failed } else {
                    Reply::Wishes(self.wishes.iter().filter(|w| f.matches(*w)).cloned().collect())
                }
            },
            Command::LoadFriendships(f) => {
                self.log.push("load friendships".to_string());
                if broken { Reply::Failed } else {
                    Reply::Friendships(self.friendships.iter().filter(|r| f.matches(*r)).cloned().collect())
                }
            },
            Command::AddUser(u) => {
                self.log.push("add user".to_string());
                if broken { Reply::Failed } else { self.users.push(u); Reply::Done }
            },
            Command::AddWish(d) => {
                self.log.push("add wish".to_string());
                if broken { Reply::Failed } else {
                    self.next_id += 1;
                    self.wishes.push(Wish {
                        wish_id: self.next_id,
                        description: d.description,
                        access_level: d.access_level,
                        user_id: d.user_id,
                    });
                    Reply::Done
                }
            },
            Command::AddFriendship(d) => {
                self.log.push("add friendship".to_string());
                if broken { Reply::Failed } else {
                    self.next_id += 1;
                    self.friendships.push(Friendship {
                        friendship_id: self.next_id,
                        user_one: d.user_one,
                        user_two: d.user_two,
                        status: d.status,
                    });
                    Reply::Done
                }
            },
            Command::SetFriendshipStatus(f, status) => {
                self.log.push("set status".to_string());
                if broken { Reply::Failed } else {
                    for r in self.friendships.iter_mut() {
                        if f.matches(&*r) {
                            r.status = status.clone();
                        }
                    }
                    Reply::Done
                }
            },
            Command::SetSessionCookie(id) => {
                self.log.push("set cookie".to_string());
                self.cookie = Some(id);
                Reply::Done
            },
            Command::RemoveSessionCookie => {
                self.log.push("remove cookie".to_string());
                self.cookie = None;
                Reply::Done
            },
            Command::Show(page) => return Err(Outcome::Shown(page)),
            Command::Finish => return Err(Outcome::Empty),
            Command::SignIn(u) => return Err(Outcome::SignedIn(u)),
            Command::Refuse => return Err(Outcome::Refused),
            Command::Abort(f) => return Err(Outcome::Aborted(f)),
        };
        Ok(reply)
    }

    fn run<S>(&mut self, mut stage: S, mut step: impl FnMut(S, Reply) -> (S, Command)) -> Outcome {
        let mut reply = Reply::Begin;
        for _ in 0..20 {
            let (next, command) = step(stage, reply);
            stage = next;
            match self.perform(command) {
                Ok(r) => reply = r,
                Err(outcome) => return outcome,
            }
        }
        panic!("handler did not finish");
    }
}

fn user(id: &str, name: &str, username: &str) -> User {
    User { user_id: id.to_string(), name: name.to_string(), username: username.to_string() }
}

fn session(id: &str) -> UserSession {
    UserSession { user: user(id, id, id) }
}

fn wish(id: i32, owner: &str, level: &str) -> Wish {
    Wish {
        wish_id: id,
        description: format!("wish {}", id),
        access_level: level.to_string(),
        user_id: owner.to_string(),
    }
}

fn friendship(id: i32, one: &str, two: &str, status: &str) -> Friendship {
    Friendship {
        friendship_id: id,
        user_one: one.to_string(),
        user_two: two.to_string(),
        status: status.to_string(),
    }
}

fn dto(one: &str, two: &str, status: &str) -> FriendshipDto {
    FriendshipDto { user_one: one.to_string(), user_two: two.to_string(), status: status.to_string() }
}

#[test]
fn create_user_stores_signs_in_and_shows_wishes() {
    let mut db = Backend::default();
    let ann = user("u1", "Ann", "ann");
    let out = db.run(CreateUserStage::Start, |s, r| create_user(&ann, s, r));
    assert_eq!(out, Outcome::Shown(Page::Wishes(None)));
    assert_eq!(db.users, vec![ann.clone()]);
    assert_eq!(db.cookie, Some("u1".to_string()));
    assert_eq!(db.log, vec!["add user", "set cookie"]);
}

#[test]
fn create_user_gives_up_when_saving_fails() {
    let mut db = Backend { broken: true, ..Backend::default() };
    let ann = user("u1", "Ann", "ann");
    let out = db.run(CreateUserStage::Start, |s, r| create_user(&ann, s, r));
    assert_eq!(out, Outcome::Aborted(Failure::SavingUser));
    assert_eq!(db.cookie, None);
}

#[test]
fn login_with_unknown_username_shows_home() {
    let mut db = Backend { users: vec![user("u1", "Ann", "ann")], ..Backend::default() };
    let form = user("u1", "Ann", "nobody");
    let out = db.run(LoginStage::Start, |s, r| login(&form, s, r));
    assert_eq!(out, Outcome::Shown(Page::Home));
    assert_eq!(db.cookie, None);
}

#[test]
fn login_sets_cookie_to_submitted_id_and_shows_its_wishes() {
    let mut db = Backend {
        users: vec![user("u1", "Ann", "ann"), user("u2", "Bob", "bob")],
        wishes: vec![wish(1, "u1", "private"), wish(2, "u2", "public"), wish(3, "u1", "public")],
        ..Backend::default()
    };
    let form = user("u1", "Ann", "ann");
    let out = db.run(LoginStage::Start, |s, r| login(&form, s, r));
    assert_eq!(out, Outcome::Shown(Page::Wishes(Some(vec![wish(1, "u1", "private"), wish(3, "u1", "public")]))));
    assert_eq!(db.cookie, Some("u1".to_string()));
    // The cookie takes the submitted id even when it belongs to another user.
    let mut db2 = Backend { users: vec![user("u1", "Ann", "ann")], ..Backend::default() };
    let other = user("u9", "Ann", "ann");
    let out2 = db2.run(LoginStage::Start, |s, r| login(&other, s, r));
    assert_eq!(out2, Outcome::Shown(Page::Wishes(Some(vec![]))));
    assert_eq!(db2.cookie, Some("u9".to_string()));
}

#[test]
fn login_gives_up_when_users_cannot_be_read() {
    let mut db = Backend { broken: true, ..Backend::default() };
    let form = user("u1", "Ann", "ann");
    let out = db.run(LoginStage::Start, |s, r| login(&form, s, r));
    assert_eq!(out, Outcome::Aborted(Failure::RetrievingUser));
}

#[test]
fn login_gives_up_when_wishes_cannot_be_read() {
    let form = user("u1", "Ann", "ann");
    let (stage, _) = login(&form, LoginStage::SettingCookie, Reply::Done);
    assert_eq!(stage, LoginStage::LoadingWishes);
    let (stage, command) = login(&form, stage, Reply::Failed);
    assert_eq!(stage, LoginStage::Over);
    assert_eq!(command, Command::Abort(Failure::RetrievingResults));
}

#[test]
fn logout_removes_cookie_and_shows_home() {
    let mut db = Backend { cookie: Some("u1".to_string()), ..Backend::default() };
    let out = db.run(LogoutStage::Start, |s, r| logout(s, r));
    assert_eq!(out, Outcome::Shown(Page::Home));
    assert_eq!(db.cookie, None);
}

#[test]
fn session_with_empty_token_is_refused() {
    let mut db = Backend { users: vec![user("", "Nobody", "nobody")], ..Backend::default() };
    let token = String::new();
    let out = db.run(SessionStage::Start, |s, r| UserSession::from_request(&token, s, r));
    assert_eq!(out, Outcome::Refused);
    assert!(db.log.is_empty());
}

#[test]
fn session_signs_in_the_user_with_the_token_id() {
    let mut db = Backend { users: vec![user("u1", "Ann", "ann"), user("u2", "Bob", "bob")], ..Backend::default() };
    let token = "u2".to_string();
    let out = db.run(SessionStage::Start, |s, r| UserSession::from_request(&token, s, r));
    assert_eq!(out, Outcome::SignedIn(user("u2", "Bob", "bob")));
}

#[test]
fn session_for_unknown_user_gives_up() {
    let mut db = Backend { users: vec![user("u1", "Ann", "ann")], ..Backend::default() };
    let token = "u3".to_string();
    let out = db.run(SessionStage::Start, |s, r| UserSession::from_request(&token, s, r));
    assert_eq!(out, Outcome::Aborted(Failure::MissingResult));
}

#[test]
fn create_wish_stores_under_session_user() {
    let mut db = Backend::default();
    let form = WishDto {
        description: "a bike".to_string(),
        access_level: "friends".to_string(),
        user_id: "someone-else".to_string(),
    };
    let me = session("u1");
    let out = db.run(CreateWishStage::Start, |s, r| create_wish(&form, &me, s, r));
    assert_eq!(out, Outcome::Empty);
    assert_eq!(db.wishes.len(), 1);
    assert_eq!(db.wishes[0].user_id, "u1");
    assert_eq!(db.wishes[0].description, "a bike");
    assert_eq!(db.wishes[0].access_level, "friends");
}

#[test]
fn create_wish_ignores_a_failed_write() {
    let mut db = Backend { broken: true, ..Backend::default() };
    let form = WishDto { description: "x".to_string(), access_level: "public".to_string(), user_id: String::new() };
    let me = session("u1");
    let out = db.run(CreateWishStage::Start, |s, r| create_wish(&form, &me, s, r));
    assert_eq!(out, Outcome::Empty);
}

#[test]
fn get_wishes_shows_own_public_and_friends_wishes() {
    let mut db = Backend {
        wishes: vec![
            wish(1, "a", "private"),
            wish(2, "b", "friends"),
            wish(3, "c", "friends"),
            wish(4, "c", "public"),
            wish(5, "d", "friends"),
            wish(6, "b", "private"),
            wish(7, "e", "friends"),
        ],
        friendships: vec![
            friendship(1, "a", "b", "1"),
            friendship(2, "d", "a", "1"),
            friendship(3, "a", "c", "0"),
            friendship(4, "c", "e", "1"),
        ],
        ..Backend::default()
    };
    let me = session("a");
    let out = db.run(GetWishesStage::Start, |s, r| get_wishes(&me, s, r));
    assert_eq!(
        out,
        Outcome::Shown(Page::Wishes(Some(vec![
            wish(1, "a", "private"),
            wish(2, "b", "friends"),
            wish(4, "c", "public"),
            wish(5, "d", "friends"),
        ])))
    );
    assert_eq!(db.log, vec!["load friendships", "load wishes"]);
}

#[test]
fn get_wishes_gives_up_when_a_query_fails() {
    let mut db = Backend { broken: true, ..Backend::default() };
    let me = session("a");
    let out = db.run(GetWishesStage::Start, |s, r| get_wishes(&me, s, r));
    assert_eq!(out, Outcome::Aborted(Failure::MissingResult));
}

#[test]
fn get_friendships_shows_all_and_received_requests() {
    let mut db = Backend {
        friendships: vec![
            friendship(1, "a", "b", "1"),
            friendship(2, "c", "a", "0"),
            friendship(3, "a", "d", "0"),
            friendship(4, "c", "d", "0"),
            friendship(5, "e", "a", "1"),
        ],
        ..Backend::default()
    };
    let me = session("a");
    let out = db.run(GetFriendshipsStage::Start, |s, r| get_friendships(&me, s, r));
    assert_eq!(
        out,
        Outcome::Shown(Page::Friendships {
            friendships: Some(vec![
                friendship(1, "a", "b", "1"),
                friendship(2, "c", "a", "0"),
                friendship(3, "a", "d", "0"),
                friendship(5, "e", "a", "1"),
            ]),
            requests: Some(vec![friendship(2, "c", "a", "0")]),
        })
    );
}

#[test]
fn friendship_request_to_unknown_user_stores_nothing() {
    let mut db = Backend { users: vec![user("a", "A", "a")], ..Backend::default() };
    let me = session("a");
    let form = dto("ignored", "zz", "0");
    let out = db.run(FriendshipRequestStage::Start, |s, r| create_friendship_request(&form, &me, s, r));
    assert_eq!(out, Outcome::Shown(Page::Friendships { friendships: None, requests: None }));
    assert!(db.friendships.is_empty());
}

#[test]
fn friendship_request_is_stored_and_sent_requests_shown() {
    let mut db = Backend {
        users: vec![user("a", "A", "a"), user("b", "B", "b")],
        friendships: vec![friendship(1, "c", "a", "0")],
        next_id: 1,
        ..Backend::default()
    };
    let me = session("a");
    let form = dto("ignored", "b", "0");
    let out = db.run(FriendshipRequestStage::Start, |s, r| create_friendship_request(&form, &me, s, r));
    assert_eq!(
        out,
        Outcome::Shown(Page::Friendships { friendships: Some(vec![friendship(2, "a", "b", "0")]), requests: None })
    );
    assert_eq!(db.log, vec!["find user", "add friendship", "load friendships"]);
}

#[test]
fn friendship_request_check_failure_gives_up() {
    let mut db = Backend { broken: true, ..Backend::default() };
    let me = session("a");
    let form = dto("a", "b", "0");
    let out = db.run(FriendshipRequestStage::Start, |s, r| create_friendship_request(&form, &me, s, r));
    assert_eq!(out, Outcome::Aborted(Failure::MissingResult));
}

#[test]
fn friendship_request_goes_on_after_a_failed_write() {
    let me = session("a");
    let form = dto("a", "b", "0");
    let (stage, command) = create_friendship_request(&form, &me, FriendshipRequestStage::Saving, Reply::Failed);
    assert_eq!(stage, FriendshipRequestStage::LoadingSent);
    assert!(matches!(command, Command::LoadFriendships(_)));
}

#[test]
fn change_status_updates_only_the_named_pair() {
    let mut db = Backend {
        friendships: vec![
            friendship(1, "a", "b", "0"),
            friendship(2, "b", "a", "0"),
            friendship(3, "a", "c", "0"),
        ],
        ..Backend::default()
    };
    let form = dto("a", "b", "1");
    let out = db.run(StatusChangeStage::Start, |s, r| change_friendship_status(&form, s, r));
    assert_eq!(out, Outcome::Empty);
    assert_eq!(
        db.friendships,
        vec![friendship(1, "a", "b", "1"), friendship(2, "b", "a", "0"), friendship(3, "a", "c", "0")]
    );
}

#[test]
fn replies_out_of_order_are_refused() {
    let ann = user("u1", "Ann", "ann");
    let (stage, command) = create_user(&ann, CreateUserStage::Start, Reply::Done);
    assert_eq!(stage, CreateUserStage::Over);
    assert_eq!(command, Command::Abort(Failure::OutOfOrder));
    let me = session("a");
    let (_, command) = get_wishes(&me, GetWishesStage::LoadingWishes, Reply::Users(vec![]));
    assert_eq!(command, Command::Abort(Failure::OutOfOrder));
    let (_, command) = logout(LogoutStage::Over, Reply::Done);
    assert_eq!(command, Command::Abort(Failure::OutOfOrder));
}

#[test]
fn accepting_a_request_opens_friends_wishes() {
    let mut db = Backend {
        users: vec![user("a", "A", "a"), user("b", "B", "b")],
        wishes: vec![wish(1, "b", "friends")],
        ..Backend::default()
    };
    let alice = session("a");
    let bob = session("b");
    let form = dto("", "b", "0");
    db.run(FriendshipRequestStage::Start, |s, r| create_friendship_request(&form, &alice, s, r));
    let before = db.run(GetWishesStage::Start, |s, r| get_wishes(&alice, s, r));
    assert_eq!(before, Outcome::Shown(Page::Wishes(Some(vec![]))));
    let pending = db.run(GetFriendshipsStage::Start, |s, r| get_friendships(&bob, s, r));
    match pending {
        Outcome::Shown(Page::Friendships { requests: Some(reqs), .. }) => assert_eq!(reqs.len(), 1),
        other => panic!("unexpected {:?}", other),
    }
    let accept = dto("a", "b", "1");
    db.run(StatusChangeStage::Start, |s, r| change_friendship_status(&accept, s, r));
    let after = db.run(GetWishesStage::Start, |s, r| get_wishes(&alice, s, r));
    assert_eq!(after, Outcome::Shown(Page::Wishes(Some(vec![wish(1, "b", "friends")]))));
}

#[test]
fn registered_user_is_found_by_session() {
    let mut db = Backend::default();
    let ann = user("u1", "Ann", "ann");
    db.run(CreateUserStage::Start, |s, r| create_user(&ann, s, r));
    let token = db.cookie.clone().unwrap();
    let out = db.run(SessionStage::Start, |s, r| UserSession::from_request(&token, s, r));
    assert_eq!(out, Outcome::SignedIn(ann));
}

#[test]
fn auth_user_is_the_session_user() {
    let me = session("a");
    assert_eq!(me.auth_user(), me.user);
    assert_eq!(me.user.duplicate(), me.user);
}

#[test]
fn posted_wish_is_shown_to_its_owner_and_public_ones_to_all() {
    let mut db = Backend::default();
    let me = session("a");
    let other = session("b");
    let private = WishDto { description: "secret".to_string(), access_level: "private".to_string(), user_id: String::new() };
    let open = WishDto { description: "open".to_string(), access_level: "public".to_string(), user_id: String::new() };
    db.run(CreateWishStage::Start, |s, r| create_wish(&private, &me, s, r));
    db.run(CreateWishStage::Start, |s, r| create_wish(&open, &me, s, r));
    let mine = db.run(GetWishesStage::Start, |s, r| get_wishes(&me, s, r));
    match mine {
        Outcome::Shown(Page::Wishes(Some(ws))) => assert_eq!(ws.len(), 2),
        other => panic!("unexpected {:?}", other),
    }
    let theirs = db.run(GetWishesStage::Start, |s, r| get_wishes(&other, s, r));
    match theirs {
        Outcome::Shown(Page::Wishes(Some(ws))) => {
            assert_eq!(ws.len(), 1);
            assert_eq!(ws[0].description, "open");
        },
        other => panic!("unexpected {:?}", other),
    }
}
