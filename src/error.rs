use vstd::prelude::*;

verus! {

/// The one error channel of the store layer.
///
/// Store failures keep their own kinds (`NotFound` for a lookup that matched
/// no row, `Database` for every other statement failure, with the store's
/// message); hashing and verification failures each get a kind of their own.
#[derive(Debug, Clone, PartialEq, Eq)]
pub enum StoreError {
    /// A lookup that must return one row matched none.
    NotFound,
    /// Any other failure of the store, with its message.
    Database(String),
    /// Computing a password hash failed.
    HashingFailed,
    /// A stored password hash could not be parsed.
    InvalidPasswordHash,
    /// The supplied password does not match the stored hash.
    AuthenticationFailed,
}

impl StoreError {
    /// The fixed message of each kind; the store's own message for `Database`.
    pub fn message(&self) -> (r: String)
        ensures
            r@ == self.message_text(),
    {
        match self {
            StoreError::NotFound => "no rows returned by a query that expected to return at least one row".to_owned(),
            StoreError::Database(m) => m.clone(),
            StoreError::HashingFailed => "Password hashing failed".to_owned(),
            StoreError::InvalidPasswordHash => "Invalid password hash".to_owned(),
            StoreError::AuthenticationFailed => "Authentication failed".to_owned(),
        }
    }

    pub open spec fn message_text(&self) -> Seq<char> {
        match self {
            StoreError::NotFound => "no rows returned by a query that expected to return at least one row"@,
            StoreError::Database(m) => m@,
            StoreError::HashingFailed => "Password hashing failed"@,
            StoreError::InvalidPasswordHash => "Invalid password hash"@,
            StoreError::AuthenticationFailed => "Authentication failed"@,
        }
    }

    /// Whether this error comes from a failed credential check rather than
    /// from the store.
    pub fn is_authentication_failure(&self) -> (r: bool)
        ensures
            r == (*self is AuthenticationFailed),
    {
        match self {
            StoreError::AuthenticationFailed => true,
            _ => false,
        }
    }
}

} // verus!
