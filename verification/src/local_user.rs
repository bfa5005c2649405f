//! The cached session record: the `(email, auth_token)` pair that says who is
//! currently signed in on this machine, plus the surrogate row id it is
//! stored under.

use vstd::prelude::*;

verus! {

use vstd::string::StringExecFns;

/// The mathematical content of a cached session: what the cache invariants
/// speak about. The surrogate row id is deliberately not part of it.
pub ghost struct SessionSnapshot {
    pub email: Seq<char>,
    pub auth_token: Seq<char>,
}

/// A session row as read back from the store.
#[derive(Debug)]
pub struct LocalUser {
    pub id: i32,
    pub email: String,
    pub auth_token: String,
}

/// The fields of a session about to be written to the store.
pub struct UserData {
    pub email: String,
    pub auth_token: String,
}

impl LocalUser {
    /// The session content of this row.
    pub open spec fn sess(&self) -> SessionSnapshot {
        SessionSnapshot { email: self.email@, auth_token: self.auth_token@ }
    }

    pub fn get_id(&self) -> (r: i32)
        ensures
            r == self.id,
    {
        self.id
    }

    pub fn get_email(&self) -> (r: &str)
        ensures
            r@ == self.email@,
    {
        self.email.as_str()
    }

    pub fn get_auth_token(&self) -> (r: &str)
        ensures
            r@ == self.auth_token@,
    {
        self.auth_token.as_str()
    }

    /// A field-for-field copy of this row.
    pub fn duplicate(&self) -> (r: Self)
        ensures
            r.id == self.id,
            r.sess() == self.sess(),
    {
        LocalUser {
            id: self.id,
            email: self.email.clone(),
            auth_token: self.auth_token.clone(),
        }
    }
}

impl UserData {
    /// The session content this data would store.
    pub open spec fn sess(&self) -> SessionSnapshot {
        SessionSnapshot { email: self.email@, auth_token: self.auth_token@ }
    }
}

} // verus!
