//! The record shapes of the credential store.
//!
//! `User` is the full persisted record, for store-internal callers.
//! `PublicUser` is the safe projection — id and username only — meant for
//! anything outside the trust boundary, so that listings need not reveal
//! password hashes or tokens. `CreateUser` is the transient triple that a
//! registration inserts.

use vstd::prelude::*;

verus! {

/// The mathematical shape of a persisted user record.
pub struct UserView {
    pub id: int,
    pub username: Seq<char>,
    pub password_hash: Seq<char>,
    pub token: Seq<char>,
}

/// The mathematical shape of a row about to be inserted; the store
/// assigns the id on insertion.
pub struct CreateUserView {
    pub username: Seq<char>,
    pub password_hash: Seq<char>,
    pub token: Seq<char>,
}

/// The mathematical shape of the public projection of a record.
pub struct PublicUserView {
    pub id: int,
    pub username: Seq<char>,
}

/// A persisted user record: a store-assigned id, a unique username, the
/// bcrypt hash of the password, and the unique session token issued at
/// registration. Created exactly once per registration, never updated.
#[derive(Debug, Clone, Hash, PartialEq, Eq, PartialOrd, Ord)]
pub struct User {
    pub(crate) id: i32,
    pub(crate) username: String,
    pub(crate) password_hash: String,
    pub(crate) token: String,
}

impl View for User {
    type V = UserView;

    closed spec fn view(&self) -> UserView {
        UserView {
            id: self.id as int,
            username: self.username@,
            password_hash: self.password_hash@,
            token: self.token@,
        }
    }
}

impl User {
    /// The store-assigned id of this record.
    pub fn id(&self) -> (r: i32)
        ensures
            r as int == self@.id,
    {
        self.id
    }

    /// The unique, case-sensitive username of this record.
    pub fn username(&self) -> (r: &String)
        ensures
            r@ == self@.username,
    {
        &self.username
    }

    /// The bcrypt hash stored in place of the plaintext password.
    pub fn password_hash(&self) -> (r: &String)
        ensures
            r@ == self@.password_hash,
    {
        &self.password_hash
    }

    /// The opaque session token bound to this record at registration.
    pub fn token(&self) -> (r: &String)
        ensures
            r@ == self@.token,
    {
        &self.token
    }

    /// The projection of this record that is safe to hand to callers
    /// outside the trust boundary: no hash, no token.
    pub fn to_public(&self) -> (r: PublicUser)
        ensures
            r@.id == self@.id,
            r@.username == self@.username,
    {
        PublicUser { id: self.id, username: self.username.clone() }
    }
}

/// The id and username of a record, without its credentials.
#[derive(Debug, Clone, Hash, PartialEq, Eq, PartialOrd, Ord)]
pub struct PublicUser {
    pub(crate) id: i32,
    pub(crate) username: String,
}

impl View for PublicUser {
    type V = PublicUserView;

    closed spec fn view(&self) -> PublicUserView {
        PublicUserView { id: self.id as int, username: self.username@ }
    }
}

impl PublicUser {
    /// The store-assigned id of the projected record.
    pub fn id(&self) -> (r: i32)
        ensures
            r as int == self@.id,
    {
        self.id
    }

    /// The username of the projected record.
    pub fn username(&self) -> (r: &String)
        ensures
            r@ == self@.username,
    {
        &self.username
    }
}

/// What a registration hands to the store: the username, the already
/// hashed password and the freshly generated token. The plaintext
/// password never reaches this type.
#[derive(Debug, Clone, Hash, PartialEq, Eq, PartialOrd, Ord)]
pub struct CreateUser {
    pub(crate) username: String,
    pub(crate) password_hash: String,
    pub(crate) token: String,
}

impl View for CreateUser {
    type V = CreateUserView;

    closed spec fn view(&self) -> CreateUserView {
        CreateUserView {
            username: self.username@,
            password_hash: self.password_hash@,
            token: self.token@,
        }
    }
}

impl CreateUser {
    /// Package the three values of a new row.
    pub fn new(username: String, password_hash: String, token: String) -> (r: CreateUser)
        ensures
            r@.username == username@,
            r@.password_hash == password_hash@,
            r@.token == token@,
    {
        CreateUser { username, password_hash, token }
    }
}

} // verus!
