//! A deterministic stand-in for the user search service, for testing: it
//! answers every search with a canned list of users, or fails every call
//! when `should_error` is set.

use vstd::prelude::*;

use crate::fetch_users_command::FetchesUsers;
use crate::local_user::LocalUser;
use crate::user::User;
use crate::user::UserSummary;

verus! {

use vstd::string::StringExecFns;

pub struct FetchUserApiFake {
    pub should_error: bool,
    pub users: Vec<User>,
}

impl FetchesUsers for FetchUserApiFake {
    open spec fn fetch_outcome(&self, auth_token: Seq<char>, search_term: Seq<char>) -> Result<
        Seq<UserSummary>,
        Seq<char>,
    > {
        if self.should_error {
            Err("Unauthorized"@)
        } else {
            Ok(self.users@.map_values(|u: User| u.summary()))
        }
    }

    fn fetch_users(&self, local_user: &LocalUser, search_term: &str) -> (r: Result<
        Vec<User>,
        String,
    >)
        ensures
            match r {
                Ok(users) => self.fetch_outcome(local_user.auth_token@, search_term@) == Ok::<
                    Seq<UserSummary>,
                    Seq<char>,
                >(users@.map_values(|u: User| u.summary())),
                Err(e) => self.fetch_outcome(local_user.auth_token@, search_term@) == Err::<
                    Seq<UserSummary>,
                    Seq<char>,
                >(e@),
            },
    {
        if self.should_error {
            return Err(String::from_str("Unauthorized"));
        }
        let mut out: Vec<User> = Vec::new();
        let mut i: usize = 0;
        while i < self.users.len()
            invariant
                i <= self.users.len(),
                out@.len() == i,
                forall|j: int| 0 <= j < i ==> (#[trigger] out@[j].summary())
                    == self.users@[j].summary(),
            decreases self.users.len() - i,
        {
            out.push(self.users[i].duplicate());
            i += 1;
        }
        proof {
            assert(out@.map_values(|u: User| u.summary()) =~= self.users@.map_values(
                |u: User| u.summary(),
            ));
        }
        Ok(out)
    }
}

} // verus!
