use vstd::prelude::*;
use crate::models::{AuthError, NewUser, User};

verus! {

/// Whether any record carries this username.
pub open spec fn has_username(recs: Seq<User>, name: Seq<char>) -> bool {
    exists|i: int| 0 <= i < recs.len() && (#[trigger] recs[i]).username@ == name
}

/// Whether any record carries this email.
pub open spec fn has_email(recs: Seq<User>, email: Seq<char>) -> bool {
    exists|i: int| 0 <= i < recs.len() && (#[trigger] recs[i]).email@ == email
}

/// Whether any record carries this id.
pub open spec fn has_id(recs: Seq<User>, id: u128) -> bool {
    exists|i: int| 0 <= i < recs.len() && (#[trigger] recs[i]).id == id
}

/// No two records share an id, a username or an email.
pub open spec fn records_unique(recs: Seq<User>) -> bool {
    forall|i: int, j: int|
        0 <= i < recs.len() && 0 <= j < recs.len() && i != j ==> {
            &&& (#[trigger] recs[i]).id != (#[trigger] recs[j]).id
            &&& recs[i].username@ != recs[j].username@
            &&& recs[i].email@ != recs[j].email@
        }
}

/// Whether `u` is the record that a new-user request becomes under `id`.
pub open spec fn is_record_of(u: User, id: u128, n: NewUser) -> bool {
    &&& u.id == id
    &&& u.username@ == n.username@
    &&& u.email@ == n.email@
    &&& u.password_hash@ == n.password_hash@
    &&& u.otp_secret@ == n.otp_secret@
    &&& u.otp_verified == Some(n.otp_verified)
}

/// The credential store: user records with id, username and email each unique.
/// Every change is a single atomic step on the whole collection.
pub struct UserStore {
    users: Vec<User>,
}

impl UserStore {
    /// The records held, in order of insertion.
    pub closed spec fn records(&self) -> Seq<User> {
        self.users@
    }

    /// The store's invariant.
    pub open spec fn wf(&self) -> bool {
        records_unique(self.records())
    }

    /// An empty store.
    pub fn new() -> (r: UserStore)
        ensures
            r.wf(),
            r.records() == Seq::<User>::empty(),
    {
        UserStore { users: Vec::new() }
    }

    /// Number of records held.
    pub fn len(&self) -> (r: usize)
        ensures
            r == self.records().len(),
    {
        self.users.len()
    }

    /// The record with this username, if any.
    pub fn find_by_username(&self, name: &str) -> (r: Option<User>)
        ensures
            r is None <==> !has_username(self.records(), name@),
            r matches Some(u) ==> u.username@ == name@ && self.records().contains(u),
    {
        let target = name.to_owned();
        let mut i: usize = 0;
        while i < self.users.len()
            invariant
                0 <= i <= self.users@.len(),
                target@ == name@,
                forall|k: int| 0 <= k < i ==> (#[trigger] self.users@[k]).username@ != target@,
            decreases self.users@.len() - i,
        {
            if self.users[i].username == target {
                let u = self.users[i].duplicate();
                assert(self.users@[i as int] == u);
                return Some(u);
            }
            i = i + 1;
        }
        None
    }

    /// The record with this email, if any.
    pub fn find_by_email(&self, email: &str) -> (r: Option<User>)
        ensures
            r is None <==> !has_email(self.records(), email@),
            r matches Some(u) ==> u.email@ == email@ && self.records().contains(u),
    {
        let target = email.to_owned();
        let mut i: usize = 0;
        while i < self.users.len()
            invariant
                0 <= i <= self.users@.len(),
                target@ == email@,
                forall|k: int| 0 <= k < i ==> (#[trigger] self.users@[k]).email@ != target@,
            decreases self.users@.len() - i,
        {
            if self.users[i].email == target {
                let u = self.users[i].duplicate();
                assert(self.users@[i as int] == u);
                return Some(u);
            }
            i = i + 1;
        }
        None
    }

    /// Position of the record with this id, if any.
    fn position_of_id(&self, id: u128) -> (r: Option<usize>)
        ensures
            r is None <==> !has_id(self.records(), id),
            r matches Some(i) ==> i < self.records().len() && self.records()[i as int].id == id,
    {
        let mut i: usize = 0;
        while i < self.users.len()
            invariant
                0 <= i <= self.users@.len(),
                forall|k: int| 0 <= k < i ==> (#[trigger] self.users@[k]).id != id,
            decreases self.users@.len() - i,
        {
            if self.users[i].id == id {
                return Some(i);
            }
            i = i + 1;
        }
        None
    }

    /// Adds a record under `id`. Refused with `AccountExists`, the store
    /// unchanged, when the id, the username or the email is already taken.
    pub fn insert(&mut self, id: u128, new_user: &NewUser) -> (r: Result<User, AuthError>)
        requires
            old(self).wf(),
        ensures
            final(self).wf(),
            ({
                let taken = has_id(old(self).records(), id)
                    || has_username(old(self).records(), new_user.username@)
                    || has_email(old(self).records(), new_user.email@);
                &&& r is Err <==> taken
                &&& r matches Err(e) ==> e == AuthError::AccountExists
                    && final(self).records() == old(self).records()
                &&& r matches Ok(u) ==> is_record_of(u, id, *new_user)
                    && final(self).records() == old(self).records().push(u)
            }),
    {
        if self.position_of_id(id).is_some() || self.find_by_username(new_user.username).is_some()
            || self.find_by_email(new_user.email).is_some() {
            return Err(AuthError::AccountExists);
        }
        let u = User {
            id,
            username: new_user.username.to_string(),
            email: new_user.email.to_string(),
            password_hash: new_user.password_hash.to_string(),
            otp_secret: new_user.otp_secret.to_string(),
            otp_verified: Some(new_user.otp_verified),
        };
        let stored = u.duplicate();
        self.users.push(stored);
        assert(records_unique(self.users@)) by {
            let recs = self.users@;
            assert forall|i: int, j: int|
                0 <= i < recs.len() && 0 <= j < recs.len() && i != j implies {
                    &&& (#[trigger] recs[i]).id != (#[trigger] recs[j]).id
                    &&& recs[i].username@ != recs[j].username@
                    &&& recs[i].email@ != recs[j].email@
                } by {
                if i == recs.len() - 1 {
                    assert(old(self).users@[j] == recs[j]);
                } else if j == recs.len() - 1 {
                    assert(old(self).users@[i] == recs[i]);
                }
            }
        }
        Ok(u)
    }

    /// Marks the record with this id as having confirmed its second factor.
    /// Setting an already set flag succeeds and changes nothing further.
    pub fn set_otp_verified(&mut self, id: u128) -> (r: Result<(), AuthError>)
        requires
            old(self).wf(),
        ensures
            final(self).wf(),
            r is Err <==> !has_id(old(self).records(), id),
            r matches Err(e) ==> e == AuthError::UserNotFound
                && final(self).records() == old(self).records(),
            r is Ok ==> exists|i: int| 0 <= i < old(self).records().len()
                && (#[trigger] old(self).records()[i]).id == id
                && final(self).records() == old(self).records().update(i,
                    verified_record(old(self).records()[i])),
    {
        match self.position_of_id(id) {
            None => Err(AuthError::UserNotFound),
            Some(i) => {
                let mut u = self.users[i].duplicate();
                u.otp_verified = Some(true);
                assert(u == verified_record(self.users@[i as int]));
                let ghost before = self.users@;
                self.users.set(i, u);
                assert(records_unique(self.users@)) by {
                    let recs = self.users@;
                    assert forall|a: int, b: int|
                        0 <= a < recs.len() && 0 <= b < recs.len() && a != b implies {
                            &&& (#[trigger] recs[a]).id != (#[trigger] recs[b]).id
                            &&& recs[a].username@ != recs[b].username@
                            &&& recs[a].email@ != recs[b].email@
                        } by {
                        assert(before[a].id != before[b].id);
                    }
                }
                Ok(())
            }
        }
    }
}

/// A record with its second factor confirmed, all else unchanged.
pub open spec fn verified_record(u: User) -> User {
    User { otp_verified: Some(true), ..u }
}

} // verus!
