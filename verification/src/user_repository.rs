//! The single-row session store: at most one cached session exists at any
//! time. `create_user` clears the store and inserts exactly one row, so a
//! sequence of creates always leaves exactly the most recent session behind.

use vstd::prelude::*;

use crate::local_user::LocalUser;
use crate::local_user::SessionSnapshot;
use crate::local_user::UserData;

verus! {

/// A store operation that could not produce a row.
#[derive(Debug)]
pub enum StoreError {
    /// The store holds no session.
    NotFound,
}

impl StoreError {
    pub fn message(&self) -> (r: &'static str)
        ensures
            r@ == "Record not found"@,
    {
        "Record not found"
    }
}

/// The local session cache. It holds zero or one session row.
pub struct UserRepository {
    rows: Vec<LocalUser>,
    next_id: i32,
}

impl View for UserRepository {
    type V = Seq<SessionSnapshot>;

    closed spec fn view(&self) -> Seq<SessionSnapshot> {
        self.rows@.map_values(|u: LocalUser| u.sess())
    }
}

impl UserRepository {
    /// Zero or one session at all times.
    pub open spec fn wf(&self) -> bool {
        self@.len() <= 1
    }

    /// An empty store.
    pub fn new() -> (r: Self)
        ensures
            r.wf(),
            r@ =~= Seq::<SessionSnapshot>::empty(),
    {
        let r = UserRepository { rows: Vec::new(), next_id: 1 };
        proof {
            assert(r@ =~= Seq::<SessionSnapshot>::empty());
        }
        r
    }

    /// The sole cached session, or `NotFound` when the store is empty.
    pub fn find_user(&self) -> (r: Result<LocalUser, StoreError>)
        requires
            self.wf(),
        ensures
            match r {
                Ok(user) => self@.len() == 1 && user.sess() == self@[0],
                Err(e) => self@.len() == 0 && e == StoreError::NotFound,
            },
    {
        if self.rows.len() == 0 {
            Err(StoreError::NotFound)
        } else {
            Ok(self.rows[0].duplicate())
        }
    }

    /// Clears every existing row, inserts exactly one from `data`, and
    /// returns the freshly read-back row. The store afterwards holds the new
    /// session and nothing else, whatever it held before.
    pub fn create_user(&mut self, data: &UserData) -> (r: Result<LocalUser, StoreError>)
        requires
            old(self).wf(),
        ensures
            final(self).wf(),
            final(self)@ =~= seq![data.sess()],
            match r {
                Ok(user) => user.sess() == data.sess(),
                Err(_) => false,
            },
    {
        let _num_deleted_rows = match self.truncate() {
            Ok(n) => n,
            Err(e) => {
                return Err(e);
            },
        };
        let id = self.next_id;
        self.next_id = if self.next_id == i32::MAX {
            1
        } else {
            self.next_id + 1
        };
        let row = LocalUser {
            id,
            email: data.email.clone(),
            auth_token: data.auth_token.clone(),
        };
        self.rows.push(row);
        proof {
            assert(self@ =~= seq![data.sess()]);
        }
        self.find_user()
    }

    /// Deletes every row and reports how many were deleted. Truncating an
    /// empty store succeeds and reports zero.
    pub fn truncate(&mut self) -> (r: Result<usize, StoreError>)
        ensures
            final(self).wf(),
            final(self)@ =~= Seq::<SessionSnapshot>::empty(),
            match r {
                Ok(n) => n == old(self)@.len(),
                Err(_) => false,
            },
    {
        let n = self.rows.len();
        self.rows.clear();
        proof {
            assert(self@ =~= Seq::<SessionSnapshot>::empty());
        }
        Ok(n)
    }
}

} // verus!
