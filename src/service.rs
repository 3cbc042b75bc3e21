use vstd::prelude::*;
use crate::error::StoreError;
use crate::models::User;
use crate::password::{
    argon2_phc, argon2_verifies, authenticates, check_password, default_phc_prefix, has_salt_field,
    hash_password, max_password_len, password_check, phc_parses, PasswordCheck,
};
use crate::statements::Query;

verus! {

/// What a credential check makes of a user row found by username.
pub open spec fn login_result(user: User, password: Seq<char>) -> Result<User, StoreError> {
    match password_check(password, user.password@) {
        PasswordCheck::Malformed => Err(StoreError::InvalidPasswordHash),
        PasswordCheck::Rejected => Err(StoreError::AuthenticationFailed),
        PasswordCheck::Accepted => Ok(user),
    }
}

/// What authentication makes of the store's answer to the lookup by username:
/// a store error passes unchanged, a row goes through the credential check.
pub open spec fn authentication_result(
    found: Result<User, StoreError>,
    password: Seq<char>,
) -> Result<User, StoreError> {
    match found {
        Err(e) => Err(e),
        Ok(user) => login_result(user, password),
    }
}

/// `query` is a statement that registration may send for these credentials:
/// it inserts the username and role as given, with a salted hash of the
/// password in place of the password.
pub open spec fn registers(username: Seq<char>, password: Seq<char>, role: Seq<char>, query: Query) -> bool {
    match query {
        Query::InsertUser { username: u, password_hash: h, role: r } => {
            &&& u@ == username
            &&& r@ == role
            &&& authenticates(password, h@)
            &&& exists|salt: Seq<char>| argon2_phc(password, salt) == Some(h@) && has_salt_field(h@, salt)
        },
        _ => false,
    }
}

/// `user` is the row the store holds after running `query`, whatever id it gave.
pub open spec fn stored_row(query: Query, user: User) -> bool {
    match query {
        Query::InsertUser { username, password_hash, role } => {
            &&& user.username@ == username@
            &&& user.password@ == password_hash@
            &&& user.role@ == role@
        },
        _ => false,
    }
}

/// Checks `password` against the user row found by username.
pub fn verify_login(user: User, password: &str) -> (r: Result<User, StoreError>)
    ensures
        r == login_result(user, password@),
{
    match check_password(password, user.password.as_str()) {
        PasswordCheck::Malformed => Err(StoreError::InvalidPasswordHash),
        PasswordCheck::Rejected => Err(StoreError::AuthenticationFailed),
        PasswordCheck::Accepted => Ok(user),
    }
}

/// Authenticates against the store's answer to the lookup by username.
pub fn authenticate(found: Result<User, StoreError>, password: &str) -> (r: Result<User, StoreError>)
    ensures
        r == authentication_result(found, password@),
{
    match found {
        Err(e) => Err(e),
        Ok(user) => verify_login(user, password),
    }
}

/// Builds the statement that registers a user: the password is replaced by
/// its salted hash under a fresh random salt.
pub fn prepare_registration(username: &str, password: &str, role: &str) -> (r: Result<Query, StoreError>)
    ensures
        r is Ok ==> registers(username@, password@, role@, r->Ok_0),
        r is Err ==> r->Err_0 == StoreError::HashingFailed,
        password@.len() <= max_password_len() ==> r is Ok,
{
    match hash_password(password) {
        Ok(password_hash) => Ok(Query::InsertUser {
            username: username.to_owned(),
            password_hash,
            role: role.to_owned(),
        }),
        Err(e) => Err(e),
    }
}

/// Whether a delete statement removed a row.
pub fn feedback_deleted(rows_affected: u64) -> (r: bool)
    ensures
        r == (rows_affected > 0),
{
    rows_affected > 0
}

/// `s` begins as every hash made with the default parameters does.
pub open spec fn has_phc_prefix(s: Seq<char>) -> bool {
    s.len() >= default_phc_prefix().len() && s.subrange(0, default_phc_prefix().len() as int)
        == default_phc_prefix()
}

/// A user registered with some credentials authenticates with the same
/// credentials: the row the store holds for them, found by username, passes
/// the credential check and comes back as it is, with its username and role.
/// The password it holds is a hash, unequal to any plaintext that does not
/// itself begin as such a hash does.
pub proof fn lemma_registered_user_authenticates(
    username: Seq<char>,
    password: Seq<char>,
    role: Seq<char>,
    query: Query,
    user: User,
)
    requires
        registers(username, password, role, query),
        stored_row(query, user),
    ensures
        authentication_result(Ok(user), password) == Ok::<User, StoreError>(user),
        user.username@ == username,
        user.role@ == role,
        has_phc_prefix(user.password@),
        !has_phc_prefix(password) ==> user.password@ != password,
{
    let h = user.password@;
    let salt = choose|salt: Seq<char>| argon2_phc(password, salt) == Some(h) && has_salt_field(h, salt);
    let out = choose|out: Seq<char>| h == default_phc_prefix() + salt + seq!['$'] + out;
    assert(h.subrange(0, default_phc_prefix().len() as int) =~= default_phc_prefix());
}

/// A wrong password for an existing user, whose stored hash parses, fails as
/// an authentication failure rather than as a store or hash error.
pub proof fn lemma_wrong_password_rejected(user: User, password: Seq<char>)
    requires
        phc_parses(user.password@),
        !argon2_verifies(password, user.password@),
    ensures
        authentication_result(Ok(user), password) == Err::<User, StoreError>(StoreError::AuthenticationFailed),
{
}

/// A username the store does not hold fails as "not found", whatever the
/// password.
pub proof fn lemma_unknown_user_not_found(password: Seq<char>)
    ensures
        authentication_result(Err(StoreError::NotFound), password) == Err::<User, StoreError>(StoreError::NotFound),
{
}

} // verus!
