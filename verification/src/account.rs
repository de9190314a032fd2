//! Account records and session claims. Authentication itself is out of this
//! core; these are the plain values it stores and passes around. Instants are
//! carried as seconds since the Unix epoch.

use vstd::prelude::*;

verus! {

/// Identity of a stored account.
#[derive(Debug, PartialEq, Eq, Hash, Clone, Copy)]
pub struct AccountId(pub i32);

/// A stored account record.
#[derive(Debug)]
pub struct Account {
    /// Identity assigned by the store; absent on a record not yet persisted.
    pub id: Option<AccountId>,
    /// E-mail address the account is keyed by.
    pub email: String,
    /// Password hash.
    pub password: String,
}

/// An account as a registration request submits it.
#[derive(Debug)]
pub struct NewAccount {
    /// E-mail address the account is keyed by.
    pub email: String,
    /// Password hash.
    pub password: String,
}

/// Claims of an issued session token.
#[derive(Debug, Clone, Copy)]
pub struct Session {
    /// Expiry instant, in seconds since the Unix epoch.
    pub exp: i64,
    /// Account the session belongs to.
    pub account_id: AccountId,
    /// Not-before instant, in seconds since the Unix epoch.
    pub nbf: i64,
}

impl Clone for Account {
    /// The copy carries the same record.
    fn clone(&self) -> (r: Self)
        ensures
            r == *self,
    {
        Account { id: self.id, email: self.email.clone(), password: self.password.clone() }
    }
}

impl Clone for NewAccount {
    /// The copy carries the same record.
    fn clone(&self) -> (r: Self)
        ensures
            r == *self,
    {
        NewAccount { email: self.email.clone(), password: self.password.clone() }
    }
}

} // verus!
