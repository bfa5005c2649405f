//! A deterministic stand-in for the remote authentication service, for
//! testing. When `should_error` is set every call fails, as a server that
//! rejects every credential and token would. Otherwise sign-in succeeds,
//! echoes the requested email, and issues a token derived from the
//! password; verification accepts exactly the tokens this fake issues, so
//! a stale token from elsewhere fails verification while sign-in still
//! works.

use vstd::prelude::*;

use crate::authentication_api::RemoteAuthentication;
use crate::authentication_api::SignInRequest;
use crate::local_user::SessionSnapshot;
use crate::text::str_has_prefix;
use crate::user::SignInResponse;
use crate::user::User;

verus! {

use vstd::string::StringExecFns;

pub struct AuthenticationApiFake {
    pub should_error: bool,
}

impl RemoteAuthentication for AuthenticationApiFake {
    open spec fn sign_in_outcome(&self, email: Seq<char>, password: Seq<char>) -> Result<
        SessionSnapshot,
        Seq<char>,
    > {
        if self.should_error {
            Err("Invalid username or password"@)
        } else {
            Ok(SessionSnapshot { email, auth_token: "token:"@ + password })
        }
    }

    open spec fn token_is_valid(&self, auth_token: Seq<char>) -> bool {
        !self.should_error && "token:"@.is_prefix_of(auth_token)
    }

    fn sign_in(&self, request: &SignInRequest) -> (r: Result<SignInResponse, String>)
        ensures
            match r {
                Ok(resp) => self.sign_in_outcome(request.email@, request.password@) == Ok::<
                    SessionSnapshot,
                    Seq<char>,
                >(SessionSnapshot { email: resp.user.email@, auth_token: resp.auth_token@ }),
                Err(e) => self.sign_in_outcome(request.email@, request.password@) == Err::<
                    SessionSnapshot,
                    Seq<char>,
                >(e@),
            },
    {
        if self.should_error {
            return Err(String::from_str("Invalid username or password"));
        }
        let auth_token = String::from_str("token:").concat(request.password.as_str());
        let user = User::with_identity(
            1,
            String::new(),
            request.email.clone(),
            String::new(),
            String::new(),
        );
        Ok(SignInResponse { auth_token, user, user_accounts: Vec::new() })
    }

    fn get_user(&self, auth_token: &str) -> (r: Result<User, String>)
        ensures
            r.is_ok() == self.token_is_valid(auth_token@),
    {
        if self.should_error {
            return Err(String::from_str("User session is not valid"));
        }
        if !str_has_prefix(auth_token, "token:") {
            return Err(String::from_str("User session is not valid"));
        }
        Ok(User::with_identity(1, String::new(), String::new(), String::new(), String::new()))
    }
}

} // verus!
