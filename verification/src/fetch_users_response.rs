//! The two-list shape the user search returns, and its flattening into the
//! single list the table shows.

use vstd::prelude::*;

use crate::user::User;

verus! {

pub struct FetchUsersResponse {
    pub friends: Vec<User>,
    pub users: Vec<User>,
}

impl FetchUsersResponse {
    /// Performs a move operation so that the response can be handled as a
    /// single list: the users first, then the friends. Both source lists
    /// are left empty.
    pub fn move_to_single_list(&mut self) -> (r: Vec<User>)
        ensures
            r@ == old(self).users@ + old(self).friends@,
            final(self).users@.len() == 0,
            final(self).friends@.len() == 0,
    {
        let mut users: Vec<User> = Vec::new();
        users.append(&mut self.users);
        users.append(&mut self.friends);
        proof {
            assert(users@ =~= old(self).users@ + old(self).friends@);
        }
        users
    }
}

} // verus!
