use vstd::prelude::*;
use argon2::password_hash::rand_core::OsRng;
use argon2::password_hash::{PasswordHash, PasswordHasher, PasswordVerifier, SaltString};
use argon2::Argon2;
use crate::error::StoreError;

verus! {

#[verifier::external_type_specification]
#[verifier::external_body]
pub struct ExPasswordHashError(argon2::password_hash::Error);

/// The PHC string that Argon2 with its default parameters gives for a
/// password and a B64 salt, or `None` where the salt is refused or hashing
/// fails.
pub uninterp spec fn argon2_phc(password: Seq<char>, salt: Seq<char>) -> Option<Seq<char>>;

/// Whether a string parses as a PHC password hash.
pub uninterp spec fn phc_parses(phc: Seq<char>) -> bool;

/// Whether a password matches a parsed PHC password hash.
pub uninterp spec fn argon2_verifies(password: Seq<char>, phc: Seq<char>) -> bool;

/// A stored value that authenticates `password`: a PHC string, which begins
/// with `$`, parses, and verifies against the password.
pub open spec fn authenticates(password: Seq<char>, phc: Seq<char>) -> bool {
    &&& phc.len() > 0
    &&& phc[0] == '$'
    &&& phc_parses(phc)
    &&& argon2_verifies(password, phc)
}

/// The text that begins every hash made with the default parameters, up to
/// and including the `$` before the salt.
pub open spec fn default_phc_prefix() -> Seq<char> {
    "$argon2id$v=19$m=19456,t=2,p=1$"@
}

/// `phc` carries `salt` as its salt field: the default parameters, the salt
/// (which holds no `$`), then `$` and the hash output.
pub open spec fn has_salt_field(phc: Seq<char>, salt: Seq<char>) -> bool {
    &&& !salt.contains('$')
    &&& exists|out: Seq<char>| phc == default_phc_prefix() + salt + seq!['$'] + out
}

/// The longest password, in characters, whose UTF-8 form surely fits the
/// 2^32 - 1 bytes that Argon2 accepts.
pub open spec fn max_password_len() -> nat {
    0x3fff_ffff
}

/// What a credential check against a stored hash finds.
#[derive(Debug, Clone, Copy, PartialEq, Eq)]
pub enum PasswordCheck {
    /// The stored value is no PHC string.
    Malformed,
    /// The password does not match.
    Rejected,
    /// The password matches.
    Accepted,
}

/// Relies on `SaltString::generate` with `OsRng`: a fresh random salt of 16
/// bytes, written as 22 B64 characters, which `SaltString::from_b64` takes and
/// which decodes to a length that `Argon2::hash_password` accepts; hashing
/// with it then fails only for a password over 2^32 - 1 bytes.
#[verifier::external_body]
fn generate_salt() -> (r: String)
    ensures
        forall|p: Seq<char>| p.len() <= max_password_len() ==> (#[trigger] argon2_phc(p, r@)) is Some,
{
    SaltString::generate(&mut OsRng).as_str().to_owned()
}

/// Relies on `SaltString::from_b64` (to read the salt) and on
/// `Argon2::hash_password` with the default parameters: the outcome depends on
/// the password and salt alone; a hash it gives is written as a PHC string,
/// `$` and the algorithm first, which `PasswordHash::new` parses and against
/// which `verify_password` accepts the same password (the round trip the
/// argon2 crate documents). The string is the algorithm, version and default
/// parameters, then the salt as given (`from_b64` admits no `$` in it), then
/// the output.
#[verifier::external_body]
fn argon2_hash(password: &str, salt: &str) -> (r: Result<String, argon2::password_hash::Error>)
    ensures
        r is Ok <==> argon2_phc(password@, salt@) is Some,
        r is Ok ==> r->Ok_0@ == argon2_phc(password@, salt@)->0,
        r is Ok ==> authenticates(password@, r->Ok_0@),
        r is Ok ==> has_salt_field(r->Ok_0@, salt@),
{
    let salt = SaltString::from_b64(salt)?;
    let hash = Argon2::default().hash_password(password.as_bytes(), &salt)?;
    Ok(hash.to_string())
}

/// Relies on `PasswordHash::new` to parse the stored hash and on
/// `Argon2::verify_password` to check the password against it.
#[verifier::external_body]
fn argon2_check(password: &str, phc: &str) -> (r: PasswordCheck)
    ensures
        r is Malformed <==> !phc_parses(phc@),
        r is Accepted <==> (phc_parses(phc@) && argon2_verifies(password@, phc@)),
{
    match PasswordHash::new(phc) {
        Err(_) => PasswordCheck::Malformed,
        Ok(parsed) => match Argon2::default().verify_password(password.as_bytes(), &parsed) {
            Ok(()) => PasswordCheck::Accepted,
            Err(_) => PasswordCheck::Rejected,
        },
    }
}

/// Hashes `password` with the given B64 salt.
pub fn hash_password_with_salt(password: &str, salt: &str) -> (r: Result<String, StoreError>)
    ensures
        r is Ok <==> argon2_phc(password@, salt@) is Some,
        r is Ok ==> r->Ok_0@ == argon2_phc(password@, salt@)->0,
        r is Ok ==> authenticates(password@, r->Ok_0@),
        r is Ok ==> has_salt_field(r->Ok_0@, salt@),
        r is Err ==> r->Err_0 == StoreError::HashingFailed,
{
    match argon2_hash(password, salt) {
        Ok(h) => Ok(h),
        Err(_) => Err(StoreError::HashingFailed),
    }
}

/// Hashes `password` with a fresh random salt.
pub fn hash_password(password: &str) -> (r: Result<String, StoreError>)
    ensures
        r is Ok ==> authenticates(password@, r->Ok_0@),
        r is Ok ==> exists|salt: Seq<char>|
            argon2_phc(password@, salt) == Some(r->Ok_0@) && has_salt_field(r->Ok_0@, salt),
        r is Err ==> r->Err_0 == StoreError::HashingFailed,
        password@.len() <= max_password_len() ==> r is Ok,
{
    let salt = generate_salt();
    hash_password_with_salt(password, salt.as_str())
}

/// Checks `password` against a stored PHC hash.
pub fn check_password(password: &str, phc: &str) -> (r: PasswordCheck)
    ensures
        r == password_check(password@, phc@),
{
    argon2_check(password, phc)
}

pub open spec fn password_check(password: Seq<char>, phc: Seq<char>) -> PasswordCheck {
    if !phc_parses(phc) {
        PasswordCheck::Malformed
    } else if argon2_verifies(password, phc) {
        PasswordCheck::Accepted
    } else {
        PasswordCheck::Rejected
    }
}

/// Hashes under two different salts differ, whatever the passwords.
pub proof fn lemma_distinct_salts_distinct_hashes(h1: Seq<char>, s1: Seq<char>, h2: Seq<char>, s2: Seq<char>)
    requires
        has_salt_field(h1, s1),
        has_salt_field(h2, s2),
        s1 != s2,
    ensures
        h1 != h2,
{
    let pre = default_phc_prefix();
    let o1 = choose|out: Seq<char>| h1 == pre + s1 + seq!['$'] + out;
    let o2 = choose|out: Seq<char>| h2 == pre + s2 + seq!['$'] + out;
    if h1 == h2 {
        let t1 = s1 + seq!['$'] + o1;
        let t2 = s2 + seq!['$'] + o2;
        assert(t1 =~= h1.subrange(pre.len() as int, h1.len() as int));
        assert(t2 =~= h2.subrange(pre.len() as int, h2.len() as int));
        if s1.len() == s2.len() {
            assert(s1 =~= t1.subrange(0, s1.len() as int));
            assert(s2 =~= t2.subrange(0, s2.len() as int));
        } else if s1.len() < s2.len() {
            assert(t1[s1.len() as int] == '$');
            assert(t2[s1.len() as int] == s2[s1.len() as int]);
            assert(s2.contains('$'));
        } else {
            assert(t2[s2.len() as int] == '$');
            assert(t1[s2.len() as int] == s1[s2.len() as int]);
            assert(s1.contains('$'));
        }
    }
}

} // verus!
