//! The user store: one record per account, usernames unique.
//!
//! The store is the final authority on username uniqueness.  Ids are handed
//! out from a monotone counter, so every record's id is unique and no id is
//! ever reissued.  A record's credential sits behind [`crate::secret::Secret`]
//! and never appears in a profile view.

use vstd::prelude::*;

use crate::errors::AuthError;
use crate::secret::Secret;

verus! {

/// One account.
pub struct UserRecord {
    /// Stable, opaque identity of the account.
    pub user_id: u64,
    /// Unique login name.
    pub username: String,
    /// Name shown to other users; not unique.
    pub display_name: String,
    /// Contact address, as confirmed during registration.
    pub email: String,
    /// The stored password credential; opaque outside the login check.
    pub credential: Secret,
}

/// No two records share a username.
pub open spec fn usernames_unique(s: Seq<UserRecord>) -> bool {
    forall|i: int, j: int| 0 <= i < j < s.len() ==> s[i].username@ != s[j].username@
}

/// No two records share a user id.
pub open spec fn ids_unique(s: Seq<UserRecord>) -> bool {
    forall|i: int, j: int| 0 <= i < j < s.len() ==> s[i].user_id != s[j].user_id
}

/// Every id already handed out lies below the counter.
pub open spec fn ids_below(s: Seq<UserRecord>, bound: u64) -> bool {
    forall|i: int| 0 <= i < s.len() ==> #[trigger] s[i].user_id < bound
}

/// The user store and its id counter.
pub struct UserStore {
    /// The account records.
    pub users: Vec<UserRecord>,
    /// The id the next created record will get.
    pub next_id: u64,
}

impl UserStore {
    /// Well-formedness: usernames unique, ids unique and below the counter.
    pub open spec fn wf(self) -> bool {
        usernames_unique(self.users@) && ids_unique(self.users@) && ids_below(
            self.users@,
            self.next_id,
        )
    }

    /// Some record carries this username.
    pub open spec fn has_username(self, name: Seq<char>) -> bool {
        exists|i: int| 0 <= i < self.users@.len() && #[trigger] self.users@[i].username@ == name
    }

    /// The position of the record with this username (unique under `wf`).
    pub open spec fn username_index(self, name: Seq<char>) -> int {
        choose|i: int| 0 <= i < self.users@.len() && #[trigger] self.users@[i].username@ == name
    }

    /// The record registered under this username.
    pub open spec fn record_for(self, name: Seq<char>) -> UserRecord {
        self.users@[self.username_index(name)]
    }

    /// A username/password pair matches: the username is registered and the
    /// presented password equals the stored credential.
    pub open spec fn credentials_match(self, name: Seq<char>, password: Seq<char>) -> bool {
        self.has_username(name) && self.record_for(name).credential@ == password
    }

    /// The id bound to a registered username.
    pub open spec fn id_for(self, name: Seq<char>) -> u64 {
        self.record_for(name).user_id
    }

    /// Some record carries this user id.
    pub open spec fn has_user_id(self, id: u64) -> bool {
        exists|i: int| 0 <= i < self.users@.len() && #[trigger] self.users@[i].user_id == id
    }

    /// The position of the record with this user id (unique under `wf`).
    pub open spec fn id_index(self, id: u64) -> int {
        choose|i: int| 0 <= i < self.users@.len() && #[trigger] self.users@[i].user_id == id
    }

    /// The record that owns this user id.
    pub open spec fn record_for_id(self, id: u64) -> UserRecord {
        self.users@[self.id_index(id)]
    }

    /// An empty store, counting ids from zero.
    pub fn new() -> (s: UserStore)
        ensures
            s.wf(),
            s.users@.len() == 0,
            s.next_id == 0,
            forall|n: Seq<char>| !(#[trigger] s.has_username(n)),
    {
        UserStore { users: Vec::new(), next_id: 0 }
    }

    /// The position of the record registered under `username`, if any.
    pub fn find_user_by_username(&self, username: &String) -> (r: Option<usize>)
        requires
            self.wf(),
        ensures
            match r {
                Some(i) => i < self.users@.len() && self.users@[i as int].username@ == username@
                    && self.has_username(username@) && i as int == self.username_index(username@),
                None => !self.has_username(username@),
            },
    {
        let n = self.users.len();
        let mut i: usize = 0;
        while i < n
            invariant
                self.wf(),
                n == self.users@.len(),
                i <= n,
                forall|k: int| 0 <= k < i ==> self.users@[k].username@ != username@,
            decreases n - i,
        {
            if self.users[i].username == *username {
                proof {
                    let idx = self.username_index(username@);
                    assert(0 <= idx < self.users@.len() && self.users@[idx].username@
                        == username@);
                    assert(idx == i as int);
                }
                return Some(i);
            }
            i = i + 1;
        }
        proof {
            if self.has_username(username@) {
                let idx = self.username_index(username@);
                assert(0 <= idx < self.users@.len() && self.users@[idx].username@ == username@);
            }
        }
        None
    }

    /// Writes one new record and returns its id.  The caller has already
    /// ruled the username out as taken; the one failure left is an
    /// exhausted id counter, reported as `StoreUnavailable` with the store
    /// untouched — no partial record becomes observable.
    pub fn create_user(
        &mut self,
        username: String,
        display_name: String,
        email: String,
        credential: Secret,
    ) -> (r: Result<u64, AuthError>)
        requires
            old(self).wf(),
            !old(self).has_username(username@),
        ensures
            final(self).wf(),
            old(self).next_id == u64::MAX ==> r == Result::<u64, AuthError>::Err(
                AuthError::StoreUnavailable,
            ) && *final(self) == *old(self),
            old(self).next_id < u64::MAX ==> r == Result::<u64, AuthError>::Ok(old(self).next_id)
                && final(self).users@ == old(self).users@.push(
                (UserRecord { user_id: old(self).next_id, username, display_name, email, credential }),
            ) && final(self).next_id == old(self).next_id + 1,
    {
        if self.next_id == u64::MAX {
            return Err(AuthError::StoreUnavailable);
        }
        let user_id = self.next_id;
        let ghost s0 = *self;
        self.users.push(UserRecord { user_id, username, display_name, email, credential });
        self.next_id = self.next_id + 1;
        proof {
            let s1 = self.users@;
            let n = s1.len() - 1;
            assert forall|i: int, j: int| 0 <= i < j < s1.len() implies s1[i].username@
                != s1[j].username@ by {
                if j < n {
                    assert(s0.users@[i].username@ != s0.users@[j].username@);
                } else {
                    assert(s1[i] == s0.users@[i]);
                }
            }
            assert forall|i: int, j: int| 0 <= i < j < s1.len() implies s1[i].user_id
                != s1[j].user_id by {
                if j < n {
                    assert(s0.users@[i].user_id != s0.users@[j].user_id);
                } else {
                    assert(s1[i] == s0.users@[i]);
                }
            }
        }
        Ok(user_id)
    }
}

/// What a profile fetch may reveal of a record: everything but the
/// credential.
pub struct UserData {
    /// Stable, opaque identity of the account.
    pub user_id: u64,
    /// Unique login name.
    pub username: String,
    /// Name shown to other users.
    pub display_name: String,
    /// Contact address.
    pub email: String,
}

/// The profile view of the record owning `user_id`, if that id is live.
/// The credential never leaves the store.
pub fn fetch_profile(store: &UserStore, user_id: u64) -> (r: Option<UserData>)
    requires
        store.wf(),
    ensures
        match r {
            Some(d) => store.has_user_id(user_id) && d.user_id == user_id && d.username@
                == store.record_for_id(user_id).username@ && d.display_name@ == store.record_for_id(
                user_id,
            ).display_name@ && d.email@ == store.record_for_id(user_id).email@,
            None => !store.has_user_id(user_id),
        },
{
    let n = store.users.len();
    let mut i: usize = 0;
    while i < n
        invariant
            store.wf(),
            n == store.users@.len(),
            i <= n,
            forall|k: int| 0 <= k < i ==> store.users@[k].user_id != user_id,
        decreases n - i,
    {
        if store.users[i].user_id == user_id {
            proof {
                let idx = store.id_index(user_id);
                assert(0 <= idx < store.users@.len() && store.users@[idx].user_id == user_id);
                assert(idx == i as int);
            }
            let u = &store.users[i];
            return Some(
                UserData {
                    user_id: u.user_id,
                    username: u.username.clone(),
                    display_name: u.display_name.clone(),
                    email: u.email.clone(),
                },
            );
        }
        i = i + 1;
    }
    proof {
        if store.has_user_id(user_id) {
            let idx = store.id_index(user_id);
            assert(0 <= idx < store.users@.len() && store.users@[idx].user_id == user_id);
        }
    }
    None
}

} // verus!
