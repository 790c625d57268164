//! The credential store: register, verify, list.
//!
//! Persistence is a SQLite `users` table reached through an injected
//! `rusqlite::Connection`. The table is modelled as a sequence of
//! `UserView` rows in id order; the handful of trusted wrappers below
//! state, over that model, exactly what each SQL statement does, and
//! everything above them is verified against those statements.
//!
//! Two deliberate design choices. Verification never tells "unknown
//! username" apart from "wrong token" — both collapse to a plain `false`,
//! so a caller cannot enumerate usernames — while genuine storage faults
//! propagate as `AuthError::Storage`. And there is no password-based
//! login after registration: the token issued once at registration is
//! the only credential a caller can present.

use vstd::prelude::*;

use rusqlite::Connection;

use crate::errors::AuthError;
use crate::hashing::bcrypt_of;
use crate::hashing::hash_password;
use crate::hashing::is_bcrypt_hash;
use crate::hashing::is_salt;
use crate::records::CreateUser;
use crate::records::User;
use crate::records::UserView;
use crate::token::generate_token;
use crate::token::is_token;

verus! {

#[verifier::external_type_specification]
#[verifier::external_body]
pub struct ExConnection(Connection);

#[verifier::external_type_specification]
#[verifier::external_body]
pub struct ExSqlError(rusqlite::Error);

/// Whether the connection's database holds the `users` table this store
/// works against: columns `id` (integer primary key, store-assigned,
/// increasing and never reused), `username`, `password_hash` and `token`
/// (text values, not null), with `username` and `token` each declared
/// UNIQUE, compared exactly.
pub uninterp spec fn users_table(conn: Connection) -> bool;

/// Whether a stored id fits the `i32` field of a decoded record.
pub open spec fn fits_i32(n: int) -> bool {
    -0x8000_0000 <= n <= 0x7fff_ffff
}

/// The rows of the connection's `users` table, in id order. Only
/// meaningful where `users_table` holds; every contract below that reads
/// or changes it says so. The model ties the table to this one handle —
/// the store's single-shared-connection discipline: a second connection
/// to the same database file would change the table behind the value and
/// lies outside the model.
pub uninterp spec fn users_of(conn: Connection) -> Seq<UserView>;

/// Some stored row carries this username.
pub open spec fn username_in(rows: Seq<UserView>, name: Seq<char>) -> bool {
    exists|i: int| 0 <= i < rows.len() && (#[trigger] rows[i]).username == name
}

/// Some stored row carries this token.
pub open spec fn token_in(rows: Seq<UserView>, token: Seq<char>) -> bool {
    exists|i: int| 0 <= i < rows.len() && (#[trigger] rows[i]).token == token
}

/// Some stored row carries this username and this token together.
pub open spec fn pair_in(rows: Seq<UserView>, name: Seq<char>, token: Seq<char>) -> bool {
    exists|i: int|
        0 <= i < rows.len() && (#[trigger] rows[i]).username == name && rows[i].token == token
}

/// Relies on `rusqlite::Connection::execute` running one `INSERT` against
/// the `users` table, whose UNIQUE constraints SQLite enforces within the
/// single, atomic statement: success means neither the username nor the
/// token was stored before and the new row now ends the table, under a
/// store-assigned id that exceeds every stored id (the primary key is
/// AUTOINCREMENT: increasing, never reused); a UNIQUE failure names the
/// violated column in SQLite's message and leaves the table untouched,
/// as does any other failure.
#[verifier::external_body]
fn insert_user(conn: &mut Connection, user: &CreateUser) -> (r: Result<(), AuthError>)
    requires
        users_table(*old(conn)),
    ensures
        users_table(*final(conn)),
        match r {
            Ok(()) => {
                &&& !username_in(users_of(*old(conn)), user@.username)
                &&& !token_in(users_of(*old(conn)), user@.token)
                &&& exists|id: int|
                    (forall|j: int|
                        0 <= j < users_of(*old(conn)).len() ==> (#[trigger] users_of(
                            *old(conn),
                        )[j]).id < id) && users_of(*final(conn)) == #[trigger] users_of(
                        *old(conn),
                    ).push(
                        UserView {
                            id,
                            username: user@.username,
                            password_hash: user@.password_hash,
                            token: user@.token,
                        },
                    )
            },
            Err(e) => {
                &&& users_of(*final(conn)) == users_of(*old(conn))
                &&& (e == AuthError::DuplicateUsername || e == AuthError::DuplicateToken || e
                    == AuthError::Storage)
                &&& (e == AuthError::DuplicateUsername ==> username_in(
                    users_of(*old(conn)),
                    user@.username,
                ))
                &&& (e == AuthError::DuplicateToken ==> token_in(
                    users_of(*old(conn)),
                    user@.token,
                ))
            },
        },
{
    let res = conn.execute(
        "INSERT INTO users (username, password_hash, token) VALUES (?1, ?2, ?3)",
        (&user.username, &user.password_hash, &user.token),
    );
    match res {
        Ok(_) => Ok(()),
        Err(rusqlite::Error::SqliteFailure(e, Some(m)))
            if e.extended_code == rusqlite::ffi::SQLITE_CONSTRAINT_UNIQUE && m.contains("users.username")
            => Err(AuthError::DuplicateUsername),
        Err(rusqlite::Error::SqliteFailure(e, Some(m)))
            if e.extended_code == rusqlite::ffi::SQLITE_CONSTRAINT_UNIQUE && m.contains("users.token")
            => Err(AuthError::DuplicateToken),
        Err(_) => Err(AuthError::Storage),
    }
}

/// Relies on `rusqlite::Connection::query_row` running one
/// `SELECT EXISTS` query: the answer says whether some stored row carries
/// exactly this username and this token.
#[verifier::external_body]
fn pair_exists(conn: &Connection, username: &str, token: &str) -> (r: Result<bool, AuthError>)
    requires
        users_table(*conn),
    ensures
        (r matches Ok(b) ==> (b <==> pair_in(users_of(*conn), username@, token@))),
        (r matches Err(e) ==> e == AuthError::Storage),
{
    let res = conn.query_row(
        "SELECT EXISTS(SELECT 1 FROM users WHERE username = ?1 AND token = ?2)",
        (username, token),
        |row| row.get(0),
    );
    match res {
        Ok(b) => Ok(b),
        Err(_) => Err(AuthError::Storage),
    }
}

/// Relies on `rusqlite::Connection::prepare`, `Statement::query` and the
/// streaming `Rows::next` over `SELECT ... ORDER BY id`: a successful
/// walk yields one entry per stored row, in id order, while a step
/// failure mid-walk — the engine, not a row, failing — aborts the call
/// as a storage fault. The one way a stepped row can fail to read back
/// as a record is an id outside `i32`, reported in place; every other
/// column of the modelled table is text and reads back as it is.
#[verifier::external_body]
fn select_users(conn: &Connection) -> (r: Result<Vec<Result<User, rusqlite::Error>>, AuthError>)
    requires
        users_table(*conn),
    ensures
        (r matches Ok(v) ==> {
            &&& v@.len() == users_of(*conn).len()
            &&& forall|i: int|
                0 <= i < v@.len() ==> ((#[trigger] v@[i]) matches Ok(u) ==> u@ == users_of(
                    *conn,
                )[i])
            &&& forall|i: int|
                0 <= i < v@.len() ==> ((#[trigger] v@[i]) matches Err(_) ==> !fits_i32(
                    users_of(*conn)[i].id,
                ))
        }),
        (r matches Err(e) ==> e == AuthError::Storage),
{
    let sql = "SELECT id, username, password_hash, token FROM users ORDER BY id";
    let mut stmt = match conn.prepare(sql) { Ok(s) => s, Err(_) => return Err(AuthError::Storage) };
    let mut rows = match stmt.query([]) { Ok(r) => r, Err(_) => return Err(AuthError::Storage) };
    let mut out = Vec::new();
    loop {
        match rows.next() {
            Ok(Some(row)) => out.push(row.get(0).and_then(|id| row.get(1).and_then(|username|
                row.get(2).and_then(|password_hash| row.get(3).map(|token|
                User { id, username, password_hash, token }))))),
            Ok(None) => return Ok(out),
            Err(_) => return Err(AuthError::Storage),
        }
    }
}

/// What a decoded listing entry is: a well-read row stays as it is, an
/// unreadable one is reported as a per-row decode failure.
pub open spec fn decoded_row(x: Result<User, rusqlite::Error>) -> Result<User, AuthError> {
    match x {
        Ok(u) => Ok(u),
        Err(_) => Err(AuthError::Decode),
    }
}

/// Register a new user: hash the password, generate a fresh token, and
/// persist the triple as one new row. On success the returned token is
/// the only time the token is ever revealed.
///
/// Success appends exactly one row — the given username, the bcrypt
/// derivation of the given password under some fresh well-formed salt,
/// the returned token, under a store-assigned id that exceeds every
/// stored id — and proves that neither the username nor the token was
/// present before. Every failure leaves the table exactly as it was;
/// `DuplicateUsername` moreover proves the username was already stored,
/// and `DuplicateToken` that the freshly drawn token collided.
pub fn create_user(conn: &mut Connection, username: &str, password: &str) -> (r: Result<
    String,
    AuthError,
>)
    requires
        users_table(*old(conn)),
    ensures
        users_table(*final(conn)),
        match r {
            Ok(token) => {
                &&& is_token(token@)
                &&& !username_in(users_of(*old(conn)), username@)
                &&& !token_in(users_of(*old(conn)), token@)
                &&& exists|id: int, h: Seq<char>|
                    is_bcrypt_hash(h) && (exists|s: Seq<char>|
                        is_salt(s) && h == #[trigger] bcrypt_of(password@, s)) && (forall|j: int|
                        0 <= j < users_of(*old(conn)).len() ==> (#[trigger] users_of(
                            *old(conn),
                        )[j]).id < id) && users_of(*final(conn)) == #[trigger] users_of(
                        *old(conn),
                    ).push(UserView { id, username: username@, password_hash: h, token: token@ })
            },
            Err(e) => {
                &&& users_of(*final(conn)) == users_of(*old(conn))
                &&& (e == AuthError::Hashing || e == AuthError::Entropy || e
                    == AuthError::DuplicateUsername || e == AuthError::DuplicateToken || e
                    == AuthError::Storage)
                &&& (e == AuthError::DuplicateUsername ==> username_in(
                    users_of(*old(conn)),
                    username@,
                ))
            },
        },
{
    let hashed = match hash_password(password) {
        Ok(h) => h,
        Err(e) => {
            return Err(e);
        },
    };
    let token = match generate_token() {
        Ok(t) => t,
        Err(e) => {
            return Err(e);
        },
    };
    let user = CreateUser::new(username.to_owned(), hashed, token.clone());
    match insert_user(conn, &user) {
        Ok(()) => Ok(token),
        Err(e) => Err(e),
    }
}

/// Decide whether some stored record carries exactly this username and
/// this token. Every "no such record" condition — unknown username,
/// wrong token — is the same plain `false`, so a failed lookup never
/// tells a caller which part was wrong; only a storage fault becomes an
/// error.
pub fn verify_user(conn: &Connection, username: &str, token: &str) -> (r: Result<bool, AuthError>)
    requires
        users_table(*conn),
    ensures
        (r matches Ok(b) ==> (b <==> pair_in(users_of(*conn), username@, token@))),
        (r matches Err(e) ==> e == AuthError::Storage),
{
    pair_exists(conn, username, token)
}

/// List every persisted record, in id order. A row that cannot be read
/// back — which the table model leaves possible only for an id outside
/// `i32` — is reported in place as a per-row `Decode` failure rather
/// than aborting the whole listing; every other row comes back as the
/// record it is.
pub fn query_users(conn: &Connection) -> (r: Result<Vec<Result<User, AuthError>>, AuthError>)
    requires
        users_table(*conn),
    ensures
        (r matches Ok(v) ==> {
            &&& v@.len() == users_of(*conn).len()
            &&& forall|i: int|
                0 <= i < v@.len() ==> match #[trigger] v@[i] {
                    Ok(u) => u@ == users_of(*conn)[i],
                    Err(e) => e == AuthError::Decode && !fits_i32(users_of(*conn)[i].id),
                }
        }),
        (r matches Err(e) ==> e == AuthError::Storage),
{
    let mut rows = match select_users(conn) {
        Ok(v) => v,
        Err(e) => {
            return Err(e);
        },
    };
    let ghost all = rows@;
    let mut out: Vec<Result<User, AuthError>> = Vec::new();
    while rows.len() > 0
        invariant
            out@.len() + rows@.len() == all.len(),
            rows@ == all.subrange(out@.len() as int, all.len() as int),
            forall|k: int| 0 <= k < out@.len() ==> #[trigger] out@[k] == decoded_row(all[k]),
        decreases rows@.len(),
    {
        let ghost done = out@.len() as int;
        let x = rows.remove(0);
        proof {
            assert(x == all[done]);
            assert(rows@ =~= all.subrange(done + 1, all.len() as int));
        }
        match x {
            Ok(u) => out.push(Ok(u)),
            Err(_) => out.push(Err(AuthError::Decode)),
        }
    }
    proof {
        assert(forall|i: int|
            0 <= i < all.len() ==> ((#[trigger] all[i]) matches Ok(u) ==> u@ == users_of(
                *conn,
            )[i]));
        assert(forall|i: int|
            0 <= i < all.len() ==> ((#[trigger] all[i]) matches Err(_) ==> !fits_i32(
                users_of(*conn)[i].id,
            )));
    }
    Ok(out)
}

/// A token issued by a successful registration verifies at once: the
/// table that registration leaves behind holds the (username, token)
/// pair that was just stored.
pub proof fn lemma_registered_token_verifies(
    rows: Seq<UserView>,
    id: int,
    username: Seq<char>,
    password_hash: Seq<char>,
    token: Seq<char>,
)
    ensures
        pair_in(rows.push(UserView { id, username, password_hash, token }), username, token),
{
    let grown = rows.push(UserView { id, username, password_hash, token });
    assert(grown[rows.len() as int].username == username);
}

/// After registering a username that was not stored before, no token
/// other than the issued one verifies for that username.
pub proof fn lemma_wrong_token_fails(
    rows: Seq<UserView>,
    id: int,
    username: Seq<char>,
    password_hash: Seq<char>,
    token: Seq<char>,
    other: Seq<char>,
)
    requires
        !username_in(rows, username),
        other != token,
    ensures
        !pair_in(rows.push(UserView { id, username, password_hash, token }), username, other),
{
    let grown = rows.push(UserView { id, username, password_hash, token });
    if pair_in(grown, username, other) {
        let i = choose|i: int|
            0 <= i < grown.len() && (#[trigger] grown[i]).username == username && grown[i].token
                == other;
        if i < rows.len() {
            assert(rows[i].username == username);
        }
    }
}

/// How many stored rows carry this username.
pub open spec fn count_with_username(rows: Seq<UserView>, name: Seq<char>) -> nat
    decreases rows.len(),
{
    if rows.len() == 0 {
        0
    } else {
        count_with_username(rows.drop_last(), name) + if rows.last().username == name {
            1nat
        } else {
            0nat
        }
    }
}

/// A username that no stored row carries is counted zero times.
proof fn lemma_absent_username_counts_zero(rows: Seq<UserView>, name: Seq<char>)
    requires
        !username_in(rows, name),
    ensures
        count_with_username(rows, name) == 0,
    decreases rows.len(),
{
    if rows.len() > 0 {
        assert(rows[rows.len() - 1].username != name);
        assert(!username_in(rows.drop_last(), name)) by {
            if username_in(rows.drop_last(), name) {
                let i = choose|i: int|
                    0 <= i < rows.drop_last().len() && (#[trigger] rows.drop_last()[i]).username
                        == name;
                assert(rows[i].username == name);
            }
        }
        lemma_absent_username_counts_zero(rows.drop_last(), name);
    }
}

/// Registering a username that was not stored before leaves exactly one
/// record carrying that username — the row the registration appended —
/// so a listing shows it once.
pub proof fn lemma_one_record_for_registered_username(
    rows: Seq<UserView>,
    id: int,
    username: Seq<char>,
    password_hash: Seq<char>,
    token: Seq<char>,
)
    requires
        !username_in(rows, username),
    ensures
        count_with_username(
            rows.push(UserView { id, username, password_hash, token }),
            username,
        ) == 1,
{
    let grown = rows.push(UserView { id, username, password_hash, token });
    assert(grown.drop_last() =~= rows);
    assert(grown.last().username == username);
    lemma_absent_username_counts_zero(rows, username);
}

/// Registering one user lets no other username verify with the new
/// token: a (username, token) pair that did not hold before the
/// registration and names a different username still does not hold.
pub proof fn lemma_other_username_fails(
    rows: Seq<UserView>,
    id: int,
    username: Seq<char>,
    password_hash: Seq<char>,
    token: Seq<char>,
    other: Seq<char>,
)
    requires
        other != username,
        !pair_in(rows, other, token),
    ensures
        !pair_in(rows.push(UserView { id, username, password_hash, token }), other, token),
{
    let grown = rows.push(UserView { id, username, password_hash, token });
    if pair_in(grown, other, token) {
        let i = choose|i: int|
            0 <= i < grown.len() && (#[trigger] grown[i]).username == other && grown[i].token
                == token;
        if i < rows.len() {
            assert(rows[i].username == other);
        }
    }
}

} // verus!
