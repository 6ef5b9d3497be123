//! Registration and login.
//!
//! Passwords are never stored: registration hashes them through bcrypt
//! and keeps the hash; login checks the supplied password against the
//! stored hash.  Hashing and checking are the one-way capability of the
//! bcrypt crate, behind trusted wrappers; everything around them — the
//! uniqueness of names and emails, the shape of the stored row, which
//! credentials are accepted — is verified.

use vstd::prelude::*;
use crate::errors::{AppError, AppErrorView};
use crate::model::{
    Player, Store, StoreView, lemma_player_email_index_unique, player_email_taken,
    player_index_by_email, player_name_taken, wf,
};
use crate::players::same_except_players;
use crate::strutil::str_eq;
use crate::clock::now_timestamp;

verus! {

/// The fields a caller supplies to register.
pub struct RegisterInput {
    pub name: String,
    pub email: String,
    pub password: String,
    pub skill_level: Option<String>,
}

/// The credentials a caller supplies to log in.
pub struct LoginInput {
    pub email: String,
    pub password: String,
}

/// Why a login fails: the credentials match no account, or the stored
/// hash could not be checked at all.
#[derive(Clone, Copy, PartialEq, Eq, Structural, Debug)]
pub enum LoginError {
    InvalidCredentials,
    VerifyFailure,
}

/// Whether bcrypt's check accepts `password` against the stored hash
/// `hash`: a pure function of the two strings.
pub uninterp spec fn bcrypt_verifies(password: Seq<char>, hash: Seq<char>) -> bool;

/// Relies on bcrypt::hash: a freshly salted hash of the password, which
/// bcrypt::verify then accepts for that same password (the crate
/// recomputes the hash from the embedded salt and compares).  `None` when
/// hashing fails.
#[verifier::external_body]
fn hash_password(password: &str) -> (r: Option<String>)
    ensures
        r matches Some(h) ==> bcrypt_verifies(password@, h@),
{
    bcrypt::hash(password, bcrypt::DEFAULT_COST).ok()
}

/// Relies on bcrypt::verify: whether the password matches the stored
/// bcrypt hash, a result depending on the two strings alone.  `None` when
/// the stored hash is malformed.
#[verifier::external_body]
fn verify_password(password: &str, hash: &str) -> (r: Option<bool>)
    ensures
        r matches Some(b) ==> b == bcrypt_verifies(password@, hash@),
{
    bcrypt::verify(password, hash).ok()
}

/// What blocks a registration: the name or the email is already taken
/// (both are unique across players).
pub open spec fn register_blocked(s: StoreView, name: Seq<char>, email: Seq<char>) -> bool {
    player_name_taken(s.players, name) || player_email_taken(s.players, email)
}

/// A freshly registered player row: name, email and skill level from the
/// input, the password field holding the given hash, no app-wide role or
/// phone yet.
pub open spec fn new_player_row(
    p: Player,
    input: RegisterInput,
    hashed: String,
    id: i32,
    now: i64,
) -> bool {
    &&& p.player_id == id
    &&& p.name == input.name
    &&& p.email == input.email
    &&& p.password == hashed
    &&& p.skill_level == input.skill_level
    &&& p.role is None
    &&& p.phone is None
    &&& p.created_at == now
}

fn player_name_exists(v: &Vec<Player>, name: &str) -> (r: bool)
    ensures
        r == player_name_taken(v@, name@),
{
    let n = v.len();
    let mut i: usize = 0;
    while i < n
        invariant
            n == v@.len(),
            i <= n,
            forall|j: int| 0 <= j < i ==> #[trigger] v@[j].name@ != name@,
        decreases n - i,
    {
        if str_eq(v[i].name.as_str(), name) {
            return true;
        }
        i += 1;
    }
    false
}

fn player_email_exists(v: &Vec<Player>, email: &str) -> (r: bool)
    ensures
        r == player_email_taken(v@, email@),
{
    let n = v.len();
    let mut i: usize = 0;
    while i < n
        invariant
            n == v@.len(),
            i <= n,
            forall|j: int| 0 <= j < i ==> #[trigger] v@[j].email@ != email@,
        decreases n - i,
    {
        if str_eq(v[i].email.as_str(), email) {
            return true;
        }
        i += 1;
    }
    false
}

/// Store a player row whose password field holds `hashed`, at instant
/// `now`.  Fails opaquely when the name or email is already taken.
pub fn register_hashed(store: &mut Store, input: &RegisterInput, hashed: String, now: i64) -> (r:
    Result<(), AppError>)
    requires
        wf(old(store)@),
        old(store)@.next_player_id < i32::MAX,
    ensures
        wf(final(store)@),
        r is Err <==> register_blocked(old(store)@, input.name@, input.email@),
        r matches Err(e) ==> e@ == AppErrorView::InternalError && final(store)@ == old(store)@,
        r is Ok ==> same_except_players(old(store)@, final(store)@)
            && final(store)@.next_player_id == old(store)@.next_player_id + 1
            && final(store)@.players == old(store)@.players.push(final(store)@.players.last())
            && new_player_row(
            final(store)@.players.last(),
            *input,
            hashed,
            old(store)@.next_player_id,
            now,
        ),
{
    if player_name_exists(&store.players, input.name.as_str()) || player_email_exists(
        &store.players,
        input.email.as_str(),
    ) {
        return Err(AppError::InternalError);
    }
    let id = store.next_player_id;
    let row = Player {
        player_id: id,
        name: input.name.clone(),
        email: input.email.clone(),
        password: hashed,
        skill_level: clone_opt(&input.skill_level),
        role: None,
        phone: None,
        created_at: now,
    };
    store.players.push(row);
    store.next_player_id = id + 1;
    Ok(())
}

fn clone_opt(o: &Option<String>) -> (r: Option<String>)
    ensures
        r == *o,
{
    match o {
        Some(s) => Some(s.clone()),
        None => None,
    }
}

/// Register a player: hash the password, then store the row at the
/// current clock time.  A taken name or email fails opaquely; so does a
/// hashing failure.
pub fn register(store: &mut Store, input: &RegisterInput) -> (r: Result<(), AppError>)
    requires
        wf(old(store)@),
        old(store)@.next_player_id < i32::MAX,
    ensures
        wf(final(store)@),
        register_blocked(old(store)@, input.name@, input.email@) ==> r is Err,
        r matches Err(e) ==> e@ == AppErrorView::InternalError && final(store)@ == old(store)@,
        r is Ok ==> !register_blocked(old(store)@, input.name@, input.email@)
            && same_except_players(old(store)@, final(store)@)
            && final(store)@.next_player_id == old(store)@.next_player_id + 1
            && final(store)@.players == old(store)@.players.push(final(store)@.players.last())
            && registered_player_row(
            final(store)@.players.last(),
            *input,
            old(store)@.next_player_id,
        ),
{
    let hashed = match hash_password(input.password.as_str()) {
        Some(h) => h,
        None => {
            return Err(AppError::InternalError);
        },
    };
    let now = now_timestamp();
    register_hashed(store, input, hashed, now)
}

/// A stored player row as registration leaves it: the password field
/// holds a hash that bcrypt accepts for the supplied password.
pub open spec fn registered_player_row(p: Player, input: RegisterInput, id: i32) -> bool {
    &&& p.player_id == id
    &&& p.name == input.name
    &&& p.email == input.email
    &&& bcrypt_verifies(input.password@, p.password@)
    &&& p.skill_level == input.skill_level
    &&& p.role is None
    &&& p.phone is None
}

/// Log a player in: look the account up by email and check the password
/// against the stored hash.  On success the player's name is returned.
/// An unknown email and a wrong password fail alike, with
/// `InvalidCredentials`; `VerifyFailure` is a stored hash that could not
/// be checked.
pub fn login(store: &Store, input: &LoginInput) -> (r: Result<String, LoginError>)
    requires
        wf(store@),
    ensures
        !player_email_taken(store@.players, input.email@) ==> r == Err::<String, LoginError>(
            LoginError::InvalidCredentials,
        ),
        player_email_taken(store@.players, input.email@) ==> {
            let p = store@.players[player_index_by_email(store@.players, input.email@)];
            &&& (r matches Ok(name) ==> name == p.name && bcrypt_verifies(
                input.password@,
                p.password@,
            ))
            &&& (r == Err::<String, LoginError>(LoginError::InvalidCredentials)
                ==> !bcrypt_verifies(input.password@, p.password@))
        },
{
    let n = store.players.len();
    let mut i: usize = 0;
    while i < n
        invariant
            wf(store@),
            n == store@.players.len(),
            i <= n,
            forall|j: int| 0 <= j < i ==> #[trigger] store@.players[j].email@ != input.email@,
        decreases n - i,
    {
        if str_eq(store.players[i].email.as_str(), input.email.as_str()) {
            proof {
                lemma_player_email_index_unique(store@.players, input.email@, i as int);
            }
            match verify_password(input.password.as_str(), store.players[i].password.as_str()) {
                Some(true) => {
                    return Ok(store.players[i].name.clone());
                },
                Some(false) => {
                    return Err(LoginError::InvalidCredentials);
                },
                None => {
                    return Err(LoginError::VerifyFailure);
                },
            }
        }
        i += 1;
    }
    Err(LoginError::InvalidCredentials)
}

} // verus!
