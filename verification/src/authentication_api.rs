//! The remote authentication capability: exchanging credentials for a bearer
//! token, and checking whether a bearer token is still valid. The capability
//! is a trait so a deterministic fake can stand in for the HTTP-backed
//! service; each implementation describes its own behaviour through the
//! trait's spec functions.

use vstd::prelude::*;

use crate::local_user::SessionSnapshot;
use crate::user::SignInResponse;
use crate::user::User;

verus! {

/// Where the sign-in credentials come from: typed in at the prompt, or
/// already held as values.
pub enum SignInStrategy {
    CommandLineInput,
    StoredValues { email: String, password: String },
}

/// Ephemeral sign-in credentials; used once, never persisted.
pub struct SignInRequest {
    pub email: String,
    pub password: String,
}

impl SignInRequest {
    /// Credentials from a strategy that already holds them. Interactive
    /// input cannot be resolved here; a caller that owns the terminal
    /// prompts first and passes the values in.
    pub fn new(strategy: SignInStrategy) -> (r: Self)
        requires
            strategy is StoredValues,
        ensures
            strategy matches SignInStrategy::StoredValues { email, password } ==> r.email@ == email@
                && r.password@ == password@,
    {
        match strategy {
            SignInStrategy::StoredValues { email, password } => SignInRequest { email, password },
            SignInStrategy::CommandLineInput => vstd::pervasive::unreached(),
        }
    }
}

/// The remote sign-in and token-verification operations.
///
/// `sign_in_outcome` is each implementation's own account of what signing in
/// with given credentials yields: the session to cache on success, or the
/// error message on failure. `token_is_valid` says which bearer tokens the
/// service still accepts. A single failed call counts as "not verified";
/// nothing here retries.
pub trait RemoteAuthentication: Sized {
    spec fn sign_in_outcome(&self, email: Seq<char>, password: Seq<char>) -> Result<
        SessionSnapshot,
        Seq<char>,
    >;

    spec fn token_is_valid(&self, auth_token: Seq<char>) -> bool;

    /// Exchange credentials for a bearer token and profile.
    fn sign_in(&self, request: &SignInRequest) -> (r: Result<SignInResponse, String>)
        ensures
            match r {
                Ok(resp) => self.sign_in_outcome(request.email@, request.password@) == Ok::<
                    SessionSnapshot,
                    Seq<char>,
                >(SessionSnapshot { email: resp.user.email@, auth_token: resp.auth_token@ }),
                Err(e) => self.sign_in_outcome(request.email@, request.password@) == Err::<
                    SessionSnapshot,
                    Seq<char>,
                >(e@),
            },
    ;

    /// Fetch the profile belonging to a bearer token; fails when the token
    /// is invalid or expired.
    fn get_user(&self, auth_token: &str) -> (r: Result<User, String>)
        ensures
            r.is_ok() == self.token_is_valid(auth_token@),
    ;
}

} // verus!
