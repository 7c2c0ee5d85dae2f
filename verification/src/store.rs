//! The user store: its interface contract, the mathematical model a
//! store presents (a sequence of user records with unique ids, unique
//! emails and unique external identities), and a verified in-memory
//! implementation.

use vstd::prelude::*;
use crate::errors::DatabaseError;
use crate::models::{clone_opt_string, CreateUserSchema, User};

verus! {

/// The first record with the given email, if any.
pub open spec fn spec_find_by_email(users: Seq<User>, email: Seq<char>) -> Option<User>
    decreases users.len(),
{
    if users.len() == 0 {
        None
    } else if users[0].email@ == email {
        Some(users[0])
    } else {
        spec_find_by_email(users.drop_first(), email)
    }
}

/// The first record with the given id, if any.
pub open spec fn spec_find_by_id(users: Seq<User>, id: u128) -> Option<User>
    decreases users.len(),
{
    if users.len() == 0 {
        None
    } else if users[0].id == id {
        Some(users[0])
    } else {
        spec_find_by_id(users.drop_first(), id)
    }
}

/// The first record with the given external identity, if any.
pub open spec fn spec_find_by_telegram(users: Seq<User>, telegram_id: Seq<char>) -> Option<User>
    decreases users.len(),
{
    if users.len() == 0 {
        None
    } else if users[0].telegram_user_id matches Some(t) && t@ == telegram_id {
        Some(users[0])
    } else {
        spec_find_by_telegram(users.drop_first(), telegram_id)
    }
}

/// Whether some record carries the given email.
pub open spec fn has_email(users: Seq<User>, email: Seq<char>) -> bool {
    spec_find_by_email(users, email) is Some
}

/// Whether some record carries the given external identity.
pub open spec fn has_telegram(users: Seq<User>, telegram_id: Seq<char>) -> bool {
    spec_find_by_telegram(users, telegram_id) is Some
}

/// Whether a registration input collides with a record already in the
/// store, on the email or on the external identity.
pub open spec fn creation_conflict(
    users: Seq<User>,
    user_data: CreateUserSchema,
    telegram_user_id: Option<String>,
) -> bool {
    ||| has_email(users, user_data.email@)
    ||| (telegram_user_id matches Some(t) && has_telegram(users, t@))
}

/// What every store guarantees of its records: ids, emails and
/// external identities are pairwise distinct, and the store has set
/// both timestamps on every record.
pub open spec fn store_ok(users: Seq<User>) -> bool {
    &&& forall|i: int, j: int|
        0 <= i < j < users.len() ==> #[trigger] users[i].id != #[trigger] users[j].id
    &&& forall|i: int, j: int|
        0 <= i < j < users.len() ==> #[trigger] users[i].email@ != #[trigger] users[j].email@
    &&& forall|i: int, j: int|
        0 <= i < j < users.len() && users[i].telegram_user_id is Some
            && users[j].telegram_user_id is Some ==> (#[trigger] users[i].telegram_user_id)->0@
            != (#[trigger] users[j].telegram_user_id)->0@
    &&& forall|i: int|
        0 <= i < users.len() ==> (#[trigger] users[i].created_at) is Some && users[i].updated_at
            is Some
}

/// A record found by email sits in the store and carries that email;
/// absence means no record carries it.
pub proof fn lemma_find_by_email_props(users: Seq<User>, email: Seq<char>)
    ensures
        spec_find_by_email(users, email) matches Some(u) ==> u.email@ == email && exists|i: int|
            0 <= i < users.len() && users[i] == u,
        spec_find_by_email(users, email) is None <==> (forall|i: int|
            0 <= i < users.len() ==> #[trigger] users[i].email@ != email),
    decreases users.len(),
{
    if users.len() > 0 {
        lemma_find_by_email_props(users.drop_first(), email);
        assert forall|j: int| 0 <= j < users.drop_first().len() implies #[trigger] users.drop_first()[j]
            == users[j + 1] by {}
        assert forall|i: int| 1 <= i < users.len() implies #[trigger] users[i] == users.drop_first()[i
            - 1] by {}
    }
}

/// The same, for lookup by id.
pub proof fn lemma_find_by_id_props(users: Seq<User>, id: u128)
    ensures
        spec_find_by_id(users, id) matches Some(u) ==> u.id == id && exists|i: int|
            0 <= i < users.len() && users[i] == u,
        spec_find_by_id(users, id) is None <==> (forall|i: int|
            0 <= i < users.len() ==> #[trigger] users[i].id != id),
    decreases users.len(),
{
    if users.len() > 0 {
        lemma_find_by_id_props(users.drop_first(), id);
        assert forall|j: int| 0 <= j < users.drop_first().len() implies #[trigger] users.drop_first()[j]
            == users[j + 1] by {}
        assert forall|i: int| 1 <= i < users.len() implies #[trigger] users[i] == users.drop_first()[i
            - 1] by {}
    }
}

/// The same, for lookup by external identity.
pub proof fn lemma_find_by_telegram_props(users: Seq<User>, telegram_id: Seq<char>)
    ensures
        spec_find_by_telegram(users, telegram_id) matches Some(u) ==> (u.telegram_user_id
            matches Some(t) && t@ == telegram_id) && exists|i: int|
            0 <= i < users.len() && users[i] == u,
        spec_find_by_telegram(users, telegram_id) is None <==> (forall|i: int|
            0 <= i < users.len() ==> !((#[trigger] users[i].telegram_user_id) matches Some(t)
                && t@ == telegram_id)),
    decreases users.len(),
{
    if users.len() > 0 {
        lemma_find_by_telegram_props(users.drop_first(), telegram_id);
        assert forall|j: int| 0 <= j < users.drop_first().len() implies #[trigger] users.drop_first()[j]
            == users[j + 1] by {}
        assert forall|i: int| 1 <= i < users.len() implies #[trigger] users[i] == users.drop_first()[i
            - 1] by {}
    }
}

/// A record created under a fresh email is found by that email
/// afterwards: looking the email up in the extended store yields
/// exactly the new record.
pub proof fn lemma_find_created_by_email(users: Seq<User>, u: User)
    requires
        !has_email(users, u.email@),
    ensures
        spec_find_by_email(users.push(u), u.email@) == Some(u),
    decreases users.len(),
{
    let e = u.email@;
    lemma_find_by_email_props(users, e);
    if users.len() == 0 {
        assert(users.push(u)[0] == u);
    } else {
        assert(users.push(u)[0] == users[0]);
        assert(users[0].email@ != e);
        assert(users.push(u).drop_first() =~= users.drop_first().push(u));
        assert(spec_find_by_email(users.drop_first(), e) is None);
        lemma_find_created_by_email(users.drop_first(), u);
    }
}

/// A record created under a fresh id is found by that id afterwards.
pub proof fn lemma_find_created_by_id(users: Seq<User>, u: User)
    requires
        spec_find_by_id(users, u.id) is None,
    ensures
        spec_find_by_id(users.push(u), u.id) == Some(u),
    decreases users.len(),
{
    lemma_find_by_id_props(users, u.id);
    if users.len() == 0 {
        assert(users.push(u)[0] == u);
    } else {
        assert(users.push(u)[0] == users[0]);
        assert(users[0].id != u.id);
        assert(users.push(u).drop_first() =~= users.drop_first().push(u));
        assert(spec_find_by_id(users.drop_first(), u.id) is None);
        lemma_find_created_by_id(users.drop_first(), u);
    }
}

/// A record found in the store satisfies the store guarantees: in
/// particular its timestamps are present.
pub proof fn lemma_found_user_ok(users: Seq<User>, u: User)
    requires
        store_ok(users),
        exists|i: int| 0 <= i < users.len() && users[i] == u,
    ensures
        u.created_at is Some,
        u.updated_at is Some,
{
    let i = choose|i: int| 0 <= i < users.len() && users[i] == u;
    assert(users[i].created_at is Some);
}

/// The interface every user store implements: lookup by id, email or
/// external identity, and insert-or-fail creation. Contracts are
/// stated over the store's model, a sequence of records satisfying
/// [`store_ok`].
pub trait UserRepository: Sized {
    /// The records the store holds, in insertion order.
    spec fn users(&self) -> Seq<User>;

    /// The store's internal well-formedness.
    spec fn inv(&self) -> bool;

    /// Every well-formed store presents a model satisfying
    /// [`store_ok`].
    proof fn inv_store_ok(&self)
        requires
            self.inv(),
        ensures
            store_ok(self.users()),
    ;

    /// Lookup by id: `Ok` exactly when a record with the id exists.
    fn find_user_by_id(&self, user_id: u128) -> (r: Result<User, DatabaseError>)
        requires
            self.inv(),
        ensures
            r matches Ok(u) ==> spec_find_by_id(self.users(), user_id) == Some(u),
            r is Ok <==> spec_find_by_id(self.users(), user_id) is Some,
            r matches Err(e) ==> e is NotFoundError,
    ;

    /// Lookup by email: `Ok` exactly when a record with the email
    /// exists.
    fn find_user_by_email(&self, email: &str) -> (r: Result<User, DatabaseError>)
        requires
            self.inv(),
        ensures
            r matches Ok(u) ==> spec_find_by_email(self.users(), email@) == Some(u),
            r is Ok <==> has_email(self.users(), email@),
            r matches Err(e) ==> e is NotFoundError,
    ;

    /// Lookup by external identity: `Ok` exactly when a record with
    /// that identity exists.
    fn find_by_telegram_user_id(&self, telegram_id: &str) -> (r: Result<User, DatabaseError>)
        requires
            self.inv(),
        ensures
            r matches Ok(u) ==> spec_find_by_telegram(self.users(), telegram_id@) == Some(u),
            r is Ok <==> has_telegram(self.users(), telegram_id@),
            r matches Err(e) ==> e is NotFoundError,
    ;

    /// Insert-or-fail creation: appends a fresh record carrying the
    /// given fields and both timestamps set to `now`, or fails with a
    /// constraint violation exactly when the email or the external
    /// identity is already taken. The store never stores a plaintext
    /// password; it stores the hash it is handed.
    fn create_user(
        &mut self,
        user_data: &CreateUserSchema,
        hashed_password: &str,
        telegram_user_id: Option<String>,
        now: i64,
    ) -> (r: Result<User, DatabaseError>)
        requires
            old(self).inv(),
        ensures
            final(self).inv(),
            r is Ok <==> !creation_conflict(old(self).users(), *user_data, telegram_user_id),
            r matches Ok(u) ==> {
                &&& final(self).users() == old(self).users().push(u)
                &&& u.email == user_data.email
                &&& u.password@ == hashed_password@
                &&& u.name == user_data.name
                &&& u.role == user_data.role
                &&& u.telegram_user_id == telegram_user_id
                &&& spec_find_by_id(old(self).users(), u.id) is None
                &&& u.created_at == Some(now)
                &&& u.updated_at == Some(now)
            },
            r is Err ==> final(self).users() == old(self).users(),
            r matches Err(e) ==> e is ConstraintError,
    ;
}

/// A verified in-memory store: records live in a vector, ids are
/// assigned sequentially from one.
pub struct MemoryUserStore {
    users: Vec<User>,
}

impl MemoryUserStore {
    /// An empty store.
    pub fn new() -> (s: Self)
        ensures
            s.inv(),
            s.users() == Seq::<User>::empty(),
    {
        let s = MemoryUserStore { users: Vec::new() };
        proof {
            assert(s.users() =~= Seq::<User>::empty());
        }
        s
    }
}

impl UserRepository for MemoryUserStore {
    closed spec fn users(&self) -> Seq<User> {
        self.users@
    }

    closed spec fn inv(&self) -> bool {
        &&& store_ok(self.users@)
        &&& forall|i: int| 0 <= i < self.users@.len() ==> (#[trigger] self.users@[i].id) == i + 1
    }

    proof fn inv_store_ok(&self) {
    }

    fn find_user_by_id(&self, user_id: u128) -> (r: Result<User, DatabaseError>) {
        let n = self.users.len();
        let mut i: usize = 0;
        proof {
            assert(self.users@.skip(0) =~= self.users@);
        }
        while i < n
            invariant
                n == self.users@.len(),
                0 <= i <= n,
                spec_find_by_id(self.users@, user_id) == spec_find_by_id(
                    self.users@.skip(i as int),
                    user_id,
                ),
            decreases n - i,
        {
            proof {
                assert(self.users@.skip(i as int).drop_first() =~= self.users@.skip(i + 1));
                assert(self.users@.skip(i as int)[0] == self.users@[i as int]);
            }
            if self.users[i].id == user_id {
                return Ok(self.users[i].clone());
            }
            i = i + 1;
        }
        Err(DatabaseError::NotFoundError(String::from_str("user not found")))
    }

    fn find_user_by_email(&self, email: &str) -> (r: Result<User, DatabaseError>) {
        let key = String::from_str(email);
        let n = self.users.len();
        let mut i: usize = 0;
        proof {
            assert(self.users@.skip(0) =~= self.users@);
        }
        while i < n
            invariant
                n == self.users@.len(),
                0 <= i <= n,
                key@ == email@,
                spec_find_by_email(self.users@, email@) == spec_find_by_email(
                    self.users@.skip(i as int),
                    email@,
                ),
            decreases n - i,
        {
            proof {
                assert(self.users@.skip(i as int).drop_first() =~= self.users@.skip(i + 1));
                assert(self.users@.skip(i as int)[0] == self.users@[i as int]);
            }
            if self.users[i].email == key {
                return Ok(self.users[i].clone());
            }
            i = i + 1;
        }
        Err(DatabaseError::NotFoundError(String::from_str("user not found")))
    }

    fn find_by_telegram_user_id(&self, telegram_id: &str) -> (r: Result<User, DatabaseError>) {
        let key = String::from_str(telegram_id);
        let n = self.users.len();
        let mut i: usize = 0;
        proof {
            assert(self.users@.skip(0) =~= self.users@);
        }
        while i < n
            invariant
                n == self.users@.len(),
                0 <= i <= n,
                key@ == telegram_id@,
                spec_find_by_telegram(self.users@, telegram_id@) == spec_find_by_telegram(
                    self.users@.skip(i as int),
                    telegram_id@,
                ),
            decreases n - i,
        {
            proof {
                assert(self.users@.skip(i as int).drop_first() =~= self.users@.skip(i + 1));
                assert(self.users@.skip(i as int)[0] == self.users@[i as int]);
            }
            let hit = match &self.users[i].telegram_user_id {
                Some(t) => *t == key,
                None => false,
            };
            if hit {
                return Ok(self.users[i].clone());
            }
            i = i + 1;
        }
        Err(DatabaseError::NotFoundError(String::from_str("user not found")))
    }

    fn create_user(
        &mut self,
        user_data: &CreateUserSchema,
        hashed_password: &str,
        telegram_user_id: Option<String>,
        now: i64,
    ) -> (r: Result<User, DatabaseError>) {
        match self.find_user_by_email(user_data.email.as_str()) {
            Ok(_) => {
                return Err(DatabaseError::ConstraintError(String::from_str("email taken")));
            },
            Err(_) => {},
        }
        if let Some(t) = &telegram_user_id {
            match self.find_by_telegram_user_id(t.as_str()) {
                Ok(_) => {
                    return Err(
                        DatabaseError::ConstraintError(
                            String::from_str("external identity taken"),
                        ),
                    );
                },
                Err(_) => {},
            }
        }
        let id: u128 = (self.users.len() as u128) + 1;
        let user = User {
            id,
            email: user_data.email.clone(),
            password: String::from_str(hashed_password),
            telegram_user_id,
            name: clone_opt_string(&user_data.name),
            role: user_data.role.clone(),
            created_at: Some(now),
            updated_at: Some(now),
        };
        let ghost old_users = self.users@;
        proof {
            lemma_find_by_email_props(old_users, user_data.email@);
            if user.telegram_user_id is Some {
                lemma_find_by_telegram_props(old_users, (user.telegram_user_id->0)@);
            }
            lemma_find_by_id_props(old_users, user.id);
        }
        let result = user.clone();
        self.users.push(user);
        proof {
            let us = self.users@;
            assert(us == old_users.push(user));
            assert forall|i: int, j: int|
                0 <= i < j < us.len() implies #[trigger] us[i].email@ != #[trigger] us[j].email@ by {
                if j < old_users.len() {
                    assert(us[i] == old_users[i] && us[j] == old_users[j]);
                } else {
                    assert(us[i] == old_users[i] && us[j] == user);
                }
            }
            assert forall|i: int, j: int|
                0 <= i < j < us.len() implies #[trigger] us[i].id != #[trigger] us[j].id by {
                if j < old_users.len() {
                    assert(us[i] == old_users[i] && us[j] == old_users[j]);
                } else {
                    assert(us[i] == old_users[i] && us[j] == user);
                }
            }
            assert forall|i: int, j: int|
                0 <= i < j < us.len() && us[i].telegram_user_id is Some && us[j].telegram_user_id
                    is Some implies (#[trigger] us[i].telegram_user_id)->0@ != (
            #[trigger] us[j].telegram_user_id)->0@ by {
                if j < old_users.len() {
                    assert(us[i] == old_users[i] && us[j] == old_users[j]);
                } else {
                    assert(us[i] == old_users[i] && us[j] == user);
                }
            }
            assert forall|i: int|
                0 <= i < us.len() implies (#[trigger] us[i].created_at) is Some
                && us[i].updated_at is Some by {
                if i < old_users.len() {
                    assert(us[i] == old_users[i]);
                }
            }
        }
        Ok(result)
    }
}

} // verus!
