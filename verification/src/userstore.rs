//! The user store interface and its in-memory directory: lookup by
//! email or id, creation with a conflict check, whole-record update,
//! and the persistence half of the second-factor lifecycle. The
//! enrollment policy is verify-before-enabled: storing a secret leaves
//! the flag off until the first correct code confirms it.

use vstd::prelude::*;

use crate::errors::UserError;
use crate::user::{user_wf, CreateUserRequest, User, UserView};

verus! {

pub open spec fn email_taken(d: Seq<UserView>, email: Seq<char>) -> bool {
    exists|i: int| 0 <= i < d.len() && #[trigger] d[i].email == email
}

pub open spec fn uuid_taken(d: Seq<UserView>, uuid: Seq<char>) -> bool {
    exists|i: int| 0 <= i < d.len() && #[trigger] d[i].uuid == uuid
}

pub open spec fn spec_email_index(d: Seq<UserView>, email: Seq<char>) -> int {
    choose|i: int| 0 <= i < d.len() && #[trigger] d[i].email == email
}

pub open spec fn spec_uuid_index(d: Seq<UserView>, uuid: Seq<char>) -> int {
    choose|i: int| 0 <= i < d.len() && #[trigger] d[i].uuid == uuid
}

/// The record under an email, where one exists.
pub open spec fn spec_find_by_email(d: Seq<UserView>, email: Seq<char>) -> Option<UserView> {
    if email_taken(d, email) {
        Some(d[spec_email_index(d, email)])
    } else {
        None
    }
}

/// The record under a user id, where one exists.
pub open spec fn spec_find_by_uuid(d: Seq<UserView>, uuid: Seq<char>) -> Option<UserView> {
    if uuid_taken(d, uuid) {
        Some(d[spec_uuid_index(d, uuid)])
    } else {
        None
    }
}

pub open spec fn uuids_unique(d: Seq<UserView>) -> bool {
    forall|i: int, j: int| #![trigger d[i], d[j]] 0 <= i < j < d.len() ==> d[i].uuid != d[j].uuid
}

pub open spec fn emails_unique(d: Seq<UserView>) -> bool {
    forall|i: int, j: int| #![trigger d[i], d[j]] 0 <= i < j < d.len() ==> d[i].email != d[j].email
}

/// Directory invariant: ids unique, emails unique, every record
/// well-formed.
pub open spec fn dir_wf(d: Seq<UserView>) -> bool {
    &&& uuids_unique(d)
    &&& emails_unique(d)
    &&& forall|i: int| 0 <= i < d.len() ==> user_wf(#[trigger] d[i])
}

/// With unique ids, any index holding the id is the canonical one.
pub proof fn lemma_uuid_canonical(d: Seq<UserView>, uuid: Seq<char>, i: int)
    requires
        uuids_unique(d),
        0 <= i < d.len(),
        d[i].uuid == uuid,
    ensures
        uuid_taken(d, uuid),
        spec_uuid_index(d, uuid) == i,
        spec_find_by_uuid(d, uuid) == Some(d[i]),
{
    let j = spec_uuid_index(d, uuid);
    if j != i {
        assert(d[i].uuid != d[j].uuid);
    }
}

/// With unique emails, any index holding the email is the canonical one.
pub proof fn lemma_email_canonical(d: Seq<UserView>, email: Seq<char>, i: int)
    requires
        emails_unique(d),
        0 <= i < d.len(),
        d[i].email == email,
    ensures
        email_taken(d, email),
        spec_email_index(d, email) == i,
        spec_find_by_email(d, email) == Some(d[i]),
{
    let j = spec_email_index(d, email);
    if j != i {
        assert(d[i].email != d[j].email);
    }
}

/// The persistence interface the session flows consume. One concrete
/// store is the in-memory [`UserDirectory`]; every backing store must
/// keep the 2FA fields atomic with the rest of the record.
pub trait UserData: View<V = Seq<UserView>> + Sized {
    spec fn wf(&self) -> bool;

    /// A well-formed store has unique ids, unique emails and
    /// well-formed records.
    proof fn wf_unique(&self)
        requires
            self.wf(),
        ensures
            uuids_unique(self@),
            emails_unique(self@),
            forall|i: int| 0 <= i < self@.len() ==> user_wf(#[trigger] self@[i]),
    ;

    /// Lookup by email.
    fn get_user_by_email(&self, email: &String) -> (r: Result<User, UserError>)
        requires
            self.wf(),
        ensures
            match r {
                Ok(u) => spec_find_by_email(self@, email@) == Some(u@),
                Err(e) => e == UserError::NoSuchUserFound && spec_find_by_email(self@, email@)
                    is None,
            },
    ;

    /// Lookup by user id.
    fn get_user_by_uuid(&self, uuid: &String) -> (r: Result<User, UserError>)
        requires
            self.wf(),
        ensures
            match r {
                Ok(u) => spec_find_by_uuid(self@, uuid@) == Some(u@),
                Err(e) => e == UserError::NoSuchUserFound && spec_find_by_uuid(self@, uuid@)
                    is None,
            },
    ;

    /// Creates a record (the request's password field already holds the
    /// digest), refusing a taken email with the conflict error.
    fn create_user(&mut self, uuid: &String, user: &CreateUserRequest, now_text: &String) -> (r:
        Result<User, UserError>)
        requires
            old(self).wf(),
        ensures
            final(self).wf(),
            match r {
                Ok(u) => !email_taken(old(self)@, user.email@) && !uuid_taken(
                    old(self)@,
                    uuid@,
                ) && u@ == (UserView {
                    uuid: uuid@,
                    email: user.email@,
                    name: user.name@,
                    password: user.password@,
                    created_at: now_text@,
                    updated_at: now_text@,
                    two_factor_enabled: false,
                    two_factor_secret: None,
                    backup_codes: None,
                }) && final(self)@ =~= old(self)@.push(u@),
                Err(e) => final(self)@ == old(self)@ && ((e == UserError::UserAlreadyExists
                    && email_taken(old(self)@, user.email@)) || (e
                    == UserError::UserCreationFailure && !email_taken(old(self)@, user.email@)
                    && uuid_taken(old(self)@, uuid@))),
            },
    ;

    /// Replaces the record with the same id wholesale, stamping the
    /// update instant; an email held by another record is refused as a
    /// store error.
    fn update_user(&mut self, user: &User, now_text: &String) -> (r: Result<User, UserError>)
        requires
            old(self).wf(),
            user_wf(user@),
        ensures
            final(self).wf(),
            match r {
                Ok(u) => uuid_taken(old(self)@, user@.uuid) && u@ == (UserView {
                    updated_at: now_text@,
                    ..user@
                }) && final(self)@ =~= old(self)@.update(
                    spec_uuid_index(old(self)@, user@.uuid),
                    u@,
                ) && forall|j: int|
                    0 <= j < old(self)@.len() && j != spec_uuid_index(old(self)@, user@.uuid)
                        ==> (#[trigger] old(self)@[j]).email != user@.email,
                Err(e) => final(self)@ == old(self)@ && ((e == UserError::NoSuchUserFound
                    && !uuid_taken(old(self)@, user@.uuid)) || (e matches
                    UserError::DatabaseError(_) && uuid_taken(old(self)@, user@.uuid) && exists|
                    j: int,
                |
                    0 <= j < old(self)@.len() && j != spec_uuid_index(old(self)@, user@.uuid)
                        && (#[trigger] old(self)@[j]).email == user@.email)),
            },
    ;

    /// Stores a fresh secret for a pending enrollment; the enabled flag
    /// stays off until the first code verifies.
    fn enable_2fa(&mut self, uuid: &String, secret: &String, now_text: &String) -> (r: Result<
        (),
        UserError,
    >)
        requires
            old(self).wf(),
        ensures
            final(self).wf(),
            match r {
                Ok(()) => uuid_taken(old(self)@, uuid@) && final(self)@ =~= old(self)@.update(
                    spec_uuid_index(old(self)@, uuid@),
                    UserView {
                        two_factor_secret: Some(secret@),
                        two_factor_enabled: false,
                        updated_at: now_text@,
                        ..old(self)@[spec_uuid_index(old(self)@, uuid@)]
                    },
                ),
                Err(e) => final(self)@ == old(self)@ && e == UserError::NoSuchUserFound
                    && !uuid_taken(old(self)@, uuid@),
            },
    ;

    /// Confirms a pending enrollment: turns the enabled flag on. A
    /// record with no stored secret is refused, keeping the record
    /// invariant.
    fn verify_2fa(&mut self, uuid: &String, now_text: &String) -> (r: Result<(), UserError>)
        requires
            old(self).wf(),
        ensures
            final(self).wf(),
            match r {
                Ok(()) => uuid_taken(old(self)@, uuid@) && old(self)@[spec_uuid_index(
                    old(self)@,
                    uuid@,
                )].two_factor_secret is Some && final(self)@ =~= old(self)@.update(
                    spec_uuid_index(old(self)@, uuid@),
                    UserView {
                        two_factor_enabled: true,
                        updated_at: now_text@,
                        ..old(self)@[spec_uuid_index(old(self)@, uuid@)]
                    },
                ),
                Err(e) => final(self)@ == old(self)@ && ((e == UserError::NoSuchUserFound
                    && !uuid_taken(old(self)@, uuid@)) || (e == UserError::TwoFactorNotEnabled
                    && uuid_taken(old(self)@, uuid@) && old(self)@[spec_uuid_index(
                    old(self)@,
                    uuid@,
                )].two_factor_secret is None)),
            },
    ;

    /// Turns the second factor off and discards the secret.
    fn disable_2fa(&mut self, uuid: &String, now_text: &String) -> (r: Result<(), UserError>)
        requires
            old(self).wf(),
        ensures
            final(self).wf(),
            match r {
                Ok(()) => uuid_taken(old(self)@, uuid@) && final(self)@ =~= old(self)@.update(
                    spec_uuid_index(old(self)@, uuid@),
                    UserView {
                        two_factor_enabled: false,
                        two_factor_secret: None,
                        updated_at: now_text@,
                        ..old(self)@[spec_uuid_index(old(self)@, uuid@)]
                    },
                ),
                Err(e) => final(self)@ == old(self)@ && e == UserError::NoSuchUserFound
                    && !uuid_taken(old(self)@, uuid@),
            },
    ;
}

/// The in-memory user store.
pub struct UserDirectory {
    users: Vec<User>,
}

impl View for UserDirectory {
    type V = Seq<UserView>;

    closed spec fn view(&self) -> Seq<UserView> {
        self.users.deep_view()
    }
}

impl UserDirectory {
    pub fn new() -> (d: Self)
        ensures
            d.wf(),
            d@ =~= Seq::<UserView>::empty(),
    {
        let d = UserDirectory { users: Vec::new() };
        proof {
            assert(d@ =~= Seq::<UserView>::empty());
        }
        d
    }

    fn index_by_email(&self, email: &String) -> (r: Option<usize>)
        ensures
            match r {
                Some(i) => i < self@.len() && self@[i as int].email == email@,
                None => !email_taken(self@, email@),
            },
    {
        let n = self.users.len();
        for i in 0..n
            invariant
                n == self.users@.len(),
                self@.len() == n,
                forall|j: int| 0 <= j < i ==> (#[trigger] self@[j]).email != email@,
        {
            proof {
                assert(self@[i as int] == self.users@[i as int]@);
            }
            if self.users[i].email == *email {
                return Some(i);
            }
        }
        None
    }

    fn index_by_uuid(&self, uuid: &String) -> (r: Option<usize>)
        ensures
            match r {
                Some(i) => i < self@.len() && self@[i as int].uuid == uuid@,
                None => !uuid_taken(self@, uuid@),
            },
    {
        let n = self.users.len();
        for i in 0..n
            invariant
                n == self.users@.len(),
                self@.len() == n,
                forall|j: int| 0 <= j < i ==> (#[trigger] self@[j]).uuid != uuid@,
        {
            proof {
                assert(self@[i as int] == self.users@[i as int]@);
            }
            if self.users[i].uuid == *uuid {
                return Some(i);
            }
        }
        None
    }

    /// Swaps the record at `i` for `u`.
    fn replace_at(&mut self, i: usize, u: User)
        requires
            i < old(self).users@.len(),
        ensures
            final(self)@ =~= old(self)@.update(i as int, u@),
    {
        self.users.set(i, u);
        proof {
            assert(final(self)@ =~= old(self)@.update(i as int, u@));
        }
    }
}

impl UserData for UserDirectory {
    open spec fn wf(&self) -> bool {
        dir_wf(self@)
    }

    proof fn wf_unique(&self) {
    }

    fn get_user_by_email(&self, email: &String) -> (r: Result<User, UserError>) {
        match self.index_by_email(email) {
            Some(i) => {
                proof {
                    lemma_email_canonical(self@, email@, i as int);
                    assert(self@[i as int] == self.users@[i as int]@);
                }
                Ok(self.users[i].clone_record())
            },
            None => Err(UserError::NoSuchUserFound),
        }
    }

    fn get_user_by_uuid(&self, uuid: &String) -> (r: Result<User, UserError>) {
        match self.index_by_uuid(uuid) {
            Some(i) => {
                proof {
                    lemma_uuid_canonical(self@, uuid@, i as int);
                    assert(self@[i as int] == self.users@[i as int]@);
                }
                Ok(self.users[i].clone_record())
            },
            None => Err(UserError::NoSuchUserFound),
        }
    }

    fn create_user(&mut self, uuid: &String, user: &CreateUserRequest, now_text: &String) -> (r:
        Result<User, UserError>) {
        if let Some(_) = self.index_by_email(&user.email) {
            return Err(UserError::UserAlreadyExists);
        }
        if let Some(_) = self.index_by_uuid(uuid) {
            return Err(UserError::UserCreationFailure);
        }
        let record = User {
            uuid: uuid.clone(),
            email: user.email.clone(),
            name: user.name.clone(),
            password: user.password.clone(),
            created_at: now_text.clone(),
            updated_at: now_text.clone(),
            two_factor_enabled: false,
            two_factor_secret: None,
            backup_codes: None,
        };
        let copy = record.clone_record();
        let ghost pre = self@;
        self.users.push(record);
        proof {
            assert(self@ =~= pre.push(copy@));
            assert forall|i: int, j: int|
                #![trigger self@[i], self@[j]]
                0 <= i < j < self@.len() implies self@[i].uuid != self@[j].uuid && self@[i].email
                != self@[j].email by {
                if j == self@.len() - 1 {
                    assert(pre[i].email != user.email@);
                    assert(pre[i].uuid != uuid@);
                }
            }
        }
        Ok(copy)
    }

    fn update_user(&mut self, user: &User, now_text: &String) -> (r: Result<User, UserError>) {
        let i = match self.index_by_uuid(&user.uuid) {
            Some(i) => i,
            None => {
                return Err(UserError::NoSuchUserFound);
            },
        };
        proof {
            lemma_uuid_canonical(self@, user.uuid@, i as int);
        }
        match self.index_by_email(&user.email) {
            Some(j) if j != i => {
                proof {
                    lemma_email_canonical(self@, user.email@, j as int);
                }
                return Err(UserError::DatabaseError("email already in use".to_owned()));
            },
            _ => {},
        }
        let mut record = user.clone_record();
        record.updated_at = now_text.clone();
        let copy = record.clone_record();
        let ghost pre = self@;
        self.replace_at(i, record);
        proof {
            assert(copy@ == (UserView { updated_at: now_text@, ..user@ }));
            lemma_update_keeps_wf(pre, i as int, copy@);
        }
        Ok(copy)
    }

    fn enable_2fa(&mut self, uuid: &String, secret: &String, now_text: &String) -> (r: Result<
        (),
        UserError,
    >) {
        let i = match self.index_by_uuid(uuid) {
            Some(i) => i,
            None => {
                return Err(UserError::NoSuchUserFound);
            },
        };
        proof {
            lemma_uuid_canonical(self@, uuid@, i as int);
        }
        let mut record = self.users[i].clone_record();
        record.two_factor_secret = Some(secret.clone());
        record.two_factor_enabled = false;
        record.updated_at = now_text.clone();
        let ghost pre = self@;
        proof {
            assert(pre[i as int] == self.users@[i as int]@);
        }
        self.replace_at(i, record);
        proof {
            lemma_update_keeps_wf(pre, i as int, self@[i as int]);
        }
        Ok(())
    }

    fn verify_2fa(&mut self, uuid: &String, now_text: &String) -> (r: Result<(), UserError>) {
        let i = match self.index_by_uuid(uuid) {
            Some(i) => i,
            None => {
                return Err(UserError::NoSuchUserFound);
            },
        };
        proof {
            lemma_uuid_canonical(self@, uuid@, i as int);
            assert(self@[i as int] == self.users@[i as int]@);
        }
        if self.users[i].two_factor_secret.is_none() {
            return Err(UserError::TwoFactorNotEnabled);
        }
        let mut record = self.users[i].clone_record();
        record.two_factor_enabled = true;
        record.updated_at = now_text.clone();
        let ghost pre = self@;
        self.replace_at(i, record);
        proof {
            lemma_update_keeps_wf(pre, i as int, self@[i as int]);
        }
        Ok(())
    }

    fn disable_2fa(&mut self, uuid: &String, now_text: &String) -> (r: Result<(), UserError>) {
        let i = match self.index_by_uuid(uuid) {
            Some(i) => i,
            None => {
                return Err(UserError::NoSuchUserFound);
            },
        };
        proof {
            lemma_uuid_canonical(self@, uuid@, i as int);
            assert(self@[i as int] == self.users@[i as int]@);
        }
        let mut record = self.users[i].clone_record();
        record.two_factor_enabled = false;
        record.two_factor_secret = None;
        record.updated_at = now_text.clone();
        let ghost pre = self@;
        self.replace_at(i, record);
        proof {
            lemma_update_keeps_wf(pre, i as int, self@[i as int]);
        }
        Ok(())
    }
}

/// Replacing a record in place, with its id kept and its email either
/// kept or free, preserves the directory invariant.
proof fn lemma_update_keeps_wf(d: Seq<UserView>, i: int, u: UserView)
    requires
        dir_wf(d),
        0 <= i < d.len(),
        u.uuid == d[i].uuid,
        user_wf(u),
        forall|j: int| 0 <= j < d.len() && j != i ==> (#[trigger] d[j]).email != u.email,
    ensures
        dir_wf(d.update(i, u)),
{
    let d2 = d.update(i, u);
    assert forall|a: int, b: int|
        #![trigger d2[a], d2[b]]
        0 <= a < b < d2.len() implies d2[a].uuid != d2[b].uuid && d2[a].email != d2[b].email by {
        assert(d[a] == if a == i {
            d[i]
        } else {
            d2[a]
        });
        assert(d[b] == if b == i {
            d[i]
        } else {
            d2[b]
        });
    }
    assert forall|a: int| 0 <= a < d2.len() implies user_wf(#[trigger] d2[a]) by {
        if a != i {
            assert(d2[a] == d[a]);
        }
    }
}

} // verus!
