//! Where sign-in credentials come from when a command needs them: an
//! interactive prompt in the real client, fixed values in tests. Each
//! implementation names through its spec functions the credentials it
//! hands out.

use vstd::prelude::*;

use crate::authentication_api::SignInRequest;

verus! {

pub trait ProvidesCredentials: Sized {
    spec fn provided_email(&self) -> Seq<char>;

    spec fn provided_password(&self) -> Seq<char>;

    /// Produce the sign-in credentials, for instance by prompting.
    fn obtain_credentials(&self) -> (r: SignInRequest)
        ensures
            r.email@ == self.provided_email(),
            r.password@ == self.provided_password(),
    ;
}

/// Credentials already held as values; also the test stand-in for the
/// interactive prompt.
pub struct StoredCredentials {
    pub email: String,
    pub password: String,
}

impl ProvidesCredentials for StoredCredentials {
    open spec fn provided_email(&self) -> Seq<char> {
        self.email@
    }

    open spec fn provided_password(&self) -> Seq<char> {
        self.password@
    }

    fn obtain_credentials(&self) -> (r: SignInRequest)
        ensures
            r.email@ == self.provided_email(),
            r.password@ == self.provided_password(),
    {
        SignInRequest { email: self.email.clone(), password: self.password.clone() }
    }
}

} // verus!
