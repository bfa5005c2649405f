//! Fetching users and showing them as a table. A fetch failure is not
//! fatal: it collapses to the message "no users"; a renderer failure
//! surfaces the renderer's own message.

use vstd::prelude::*;

use crate::fetch_users_ui::user_rows;
use crate::fetch_users_ui::user_titles;
use crate::fetch_users_ui::FetchUsersUi;
use crate::local_user::LocalUser;
use crate::render::TableRenderer;
use crate::user::User;
use crate::user::UserSummary;

verus! {

use vstd::string::StringExecFns;

/// The user search capability: given the session's bearer token and a
/// search term, it yields the matching users or an error message.
pub trait FetchesUsers: Sized {
    spec fn fetch_outcome(&self, auth_token: Seq<char>, search_term: Seq<char>) -> Result<
        Seq<UserSummary>,
        Seq<char>,
    >;

    fn fetch_users(&self, local_user: &LocalUser, search_term: &str) -> (r: Result<
        Vec<User>,
        String,
    >)
        ensures
            match r {
                Ok(users) => self.fetch_outcome(local_user.auth_token@, search_term@) == Ok::<
                    Seq<UserSummary>,
                    Seq<char>,
                >(users@.map_values(|u: User| u.summary())),
                Err(e) => self.fetch_outcome(local_user.auth_token@, search_term@) == Err::<
                    Seq<UserSummary>,
                    Seq<char>,
                >(e@),
            },
    ;
}

pub struct FetchUsersCommand<T: FetchesUsers> {
    pub remote_repository: T,
}

impl<T: FetchesUsers> FetchUsersCommand<T> {
    pub fn new(remote_repository: T) -> (r: Self)
        ensures
            r.remote_repository == remote_repository,
    {
        Self { remote_repository }
    }

    /// Fetch the users matching `search_term` and render them. The returned
    /// string is what there is to tell the user: empty when the table was
    /// rendered, "no users" when the fetch failed, and the renderer's
    /// message when only the rendering failed.
    pub fn fetch_and_show_users<R: TableRenderer>(
        &self,
        renderer: &R,
        local_user: &LocalUser,
        search_term: &str,
    ) -> (msg: String)
        ensures
            match self.remote_repository.fetch_outcome(local_user.auth_token@, search_term@) {
                Ok(users) => match renderer.render_result(user_titles(), user_rows(users)) {
                    Ok(_) => msg@ == Seq::<char>::empty(),
                    Err(e) => msg@ == e,
                },
                Err(_) => msg@ == "no users"@,
            },
    {
        let maybe_users = self.remote_repository.fetch_users(local_user, search_term);
        match maybe_users {
            Ok(users) => {
                let ui = FetchUsersUi::new(users);
                match ui.render(renderer) {
                    Ok(_) => String::new(),
                    Err(err) => err,
                }
            },
            Err(_) => String::from_str("no users"),
        }
    }
}

} // verus!
