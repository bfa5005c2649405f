//! The sign-in / verification state machine over the local session store and
//! the remote authentication service.
//!
//! Signing in first looks the cached session up and, when its email matches
//! the request, verifies its token remotely — but, by design, that check
//! shapes only what is reported: the flow always proceeds to a fresh remote
//! sign-in, and a success always overwrites the cache. A failed remote
//! sign-in leaves the store untouched.

use vstd::prelude::*;

use crate::authentication_api::RemoteAuthentication;
use crate::authentication_api::SignInRequest;
use crate::local_user::LocalUser;
use crate::local_user::SessionSnapshot;
use crate::local_user::UserData;
use crate::text::str_eq;
use crate::user::SignInResponse;
use crate::user_repository::StoreError;
use crate::user_repository::UserRepository;

verus! {

use vstd::string::StringExecFns;

/// Orchestrates sign-in and verification against the store and the remote
/// service. The remote side is a type parameter so a fake can stand in at
/// test time.
pub struct AuthenticationController<T: RemoteAuthentication> {
    pub remote_repository: T,
}

impl<T: RemoteAuthentication> AuthenticationController<T> {
    pub fn new(remote_repository: T) -> (r: Self)
        ensures
            r.remote_repository == remote_repository,
    {
        AuthenticationController { remote_repository }
    }

    /// Order of operations:
    ///     1. Check the local cache for a session whose email matches.
    ///     2. If one is cached, ask the server whether its token is valid.
    ///     3. Whatever came of that, sign in against the remote service.
    ///     4. On remote failure, propagate the error; the store is untouched.
    ///     5. On success, cache the new session, replacing any prior one.
    pub fn sign_in(&self, local_repository: &mut UserRepository, request: &SignInRequest) -> (r:
        Result<LocalUser, String>)
        requires
            old(local_repository).wf(),
        ensures
            final(local_repository).wf(),
            match r {
                Ok(user) => self.remote_repository.sign_in_outcome(
                    request.email@,
                    request.password@,
                ) == Ok::<SessionSnapshot, Seq<char>>(user.sess()) && final(local_repository)@
                    =~= seq![user.sess()],
                Err(e) => self.remote_repository.sign_in_outcome(request.email@, request.password@)
                    == Err::<SessionSnapshot, Seq<char>>(e@) && final(local_repository)@ == old(
                    local_repository,
                )@,
            },
    {
        let local_user = self.find_local_user_by_email(local_repository, request);
        // The verification result shapes only what could be reported, never
        // the flow: sign-in proceeds against the remote service regardless.
        let _cached_verified = self.verify_local_user(local_user);
        let response = match self.remote_repository.sign_in(request) {
            Ok(resp) => resp,
            Err(e) => {
                return Err(e);
            },
        };
        match self.cache_user(local_repository, &response) {
            Ok(user) => Ok(user),
            Err(e) => Err(String::from_str(e.message())),
        }
    }

    /// The cached session, verified against the remote service. Fails with
    /// "Invalid local user" when no session is cached or the remote service
    /// rejects its token; the cached record is not deleted here.
    pub fn find_and_verify_local_user(&self, local_repository: &UserRepository) -> (r: Result<
        LocalUser,
        String,
    >)
        requires
            local_repository.wf(),
        ensures
            match r {
                Ok(user) => local_repository@.len() == 1 && user.sess() == local_repository@[0]
                    && self.remote_repository.token_is_valid(user.auth_token@),
                Err(e) => e@ == "Invalid local user"@ && (local_repository@.len() == 0
                    || !self.remote_repository.token_is_valid(local_repository@[0].auth_token)),
            },
    {
        let local_user = match local_repository.find_user() {
            Ok(user) => Ok(user),
            Err(e) => Err(String::from_str(e.message())),
        };
        self.verify_local_user(local_user)
    }

    fn cache_user(&self, local_repository: &mut UserRepository, response: &SignInResponse) -> (r:
        Result<LocalUser, StoreError>)
        requires
            old(local_repository).wf(),
        ensures
            final(local_repository).wf(),
            final(local_repository)@ =~= seq![
                SessionSnapshot { email: response.user.email@, auth_token: response.auth_token@ },
            ],
            match r {
                Ok(user) => user.sess() == (SessionSnapshot {
                    email: response.user.email@,
                    auth_token: response.auth_token@,
                }),
                Err(_) => false,
            },
    {
        let data = self.map_user_data(response);
        local_repository.create_user(&data)
    }

    /// The cached session, but only when its email matches the request's.
    fn find_local_user_by_email(
        &self,
        local_repository: &UserRepository,
        request: &SignInRequest,
    ) -> (r: Result<LocalUser, String>)
        requires
            local_repository.wf(),
        ensures
            match r {
                Ok(user) => local_repository@.len() == 1 && user.sess() == local_repository@[0]
                    && user.email@ == request.email@,
                Err(_) => local_repository@.len() == 0 || local_repository@[0].email
                    != request.email@,
            },
    {
        let local_user = match local_repository.find_user() {
            Ok(user) => user,
            Err(e) => {
                return Err(String::from_str(e.message()));
            },
        };
        let email_matches = str_eq(local_user.get_email(), request.email.as_str());
        if email_matches {
            Ok(local_user)
        } else {
            Err(String::from_str("Could not find a cached user with a matching email"))
        }
    }

    /// A candidate session, kept only when the remote service accepts its
    /// token; every other case collapses to "Invalid local user".
    fn verify_local_user(&self, local_user: Result<LocalUser, String>) -> (r: Result<
        LocalUser,
        String,
    >)
        ensures
            match r {
                Ok(user) => local_user matches Ok(u) && u == user
                    && self.remote_repository.token_is_valid(user.auth_token@),
                Err(e) => e@ == "Invalid local user"@ && (local_user matches Ok(u)
                    ==> !self.remote_repository.token_is_valid(u.auth_token@)),
            },
    {
        match local_user {
            Ok(user) => {
                let remote_user = self.remote_repository.get_user(user.get_auth_token());
                if remote_user.is_ok() {
                    Ok(user)
                } else {
                    Err(String::from_str("Invalid local user"))
                }
            },
            Err(_) => Err(String::from_str("Invalid local user")),
        }
    }

    fn map_user_data(&self, response: &SignInResponse) -> (r: UserData)
        ensures
            r.sess() == (SessionSnapshot {
                email: response.user.email@,
                auth_token: response.auth_token@,
            }),
    {
        UserData {
            email: response.user.email.clone(),
            auth_token: response.auth_token.clone(),
        }
    }
}

} // verus!
