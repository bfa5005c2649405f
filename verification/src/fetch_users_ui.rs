//! The users table: which columns it has and what each user's row says.

use vstd::prelude::*;

use crate::render::TableRenderer;
use crate::text::dec_str;
use crate::text::u32_to_string;
use crate::user::User;
use crate::user::UserSummary;

verus! {

use vstd::string::StringExecFns;

/// The column titles of the users table.
pub open spec fn user_titles() -> Seq<Seq<char>> {
    seq!["ID"@, "Email"@, "UUID"@, "First Name"@, "Last Name"@]
}

/// One user's row: id in decimal, then email, uuid and name.
pub open spec fn user_row(u: UserSummary) -> Seq<Seq<char>> {
    seq![dec_str(u.id as nat), u.email, u.uuid, u.first_name, u.last_name]
}

/// The rows for a list of users, in order.
pub open spec fn user_rows(users: Seq<UserSummary>) -> Seq<Seq<Seq<char>>> {
    users.map_values(|u: UserSummary| user_row(u))
}

pub struct FetchUsersUi {
    items: Vec<User>,
}

impl View for FetchUsersUi {
    type V = Seq<UserSummary>;

    closed spec fn view(&self) -> Seq<UserSummary> {
        self.items@.map_values(|u: User| u.summary())
    }
}

impl FetchUsersUi {
    pub fn new(users: Vec<User>) -> (r: FetchUsersUi)
        ensures
            r@ == users@.map_values(|u: User| u.summary()),
    {
        FetchUsersUi { items: users }
    }

    pub fn titles(&self) -> (r: Vec<String>)
        ensures
            r.deep_view() == user_titles(),
    {
        let mut titles: Vec<String> = Vec::new();
        titles.push(String::from_str("ID"));
        titles.push(String::from_str("Email"));
        titles.push(String::from_str("UUID"));
        titles.push(String::from_str("First Name"));
        titles.push(String::from_str("Last Name"));
        proof {
            assert(titles.deep_view() =~= user_titles());
        }
        titles
    }

    pub fn rows(&self) -> (r: Vec<Vec<String>>)
        ensures
            r.deep_view() == user_rows(self@),
    {
        let mut rows: Vec<Vec<String>> = Vec::new();
        let mut i: usize = 0;
        while i < self.items.len()
            invariant
                i <= self.items.len(),
                rows@.len() == i,
                forall|j: int| 0 <= j < i ==> (#[trigger] rows@[j]).deep_view() == user_row(
                    self@[j],
                ),
            decreases self.items.len() - i,
        {
            let user = &self.items[i];
            let row = self.user_to_cell(user);
            rows.push(row);
            i += 1;
        }
        proof {
            assert forall|j: int| 0 <= j < rows@.len() implies rows.deep_view()[j] == user_rows(
                self@,
            )[j] by {
                assert(rows@[j].deep_view() == user_row(self@[j]));
            }
            assert(rows.deep_view() =~= user_rows(self@));
        }
        rows
    }

    /// Render this table through the given renderer.
    pub fn render<R: TableRenderer>(&self, renderer: &R) -> (r: Result<(), String>)
        ensures
            match r {
                Ok(_) => renderer.render_result(user_titles(), user_rows(self@)) is Ok,
                Err(e) => renderer.render_result(user_titles(), user_rows(self@)) == Err::<
                    (),
                    Seq<char>,
                >(e@),
            },
    {
        let titles = self.titles();
        let rows = self.rows();
        renderer.render(&titles, &rows)
    }

    fn user_to_cell(&self, user: &User) -> (r: Vec<String>)
        ensures
            r.deep_view() == user_row(user.summary()),
    {
        let mut row: Vec<String> = Vec::new();
        row.push(u32_to_string(user.id));
        row.push(user.email.clone());
        row.push(user.uuid.clone());
        row.push(user.first_name.clone());
        row.push(user.last_name.clone());
        proof {
            assert(row.deep_view() =~= user_row(user.summary()));
        }
        row
    }
}

} // verus!
