use vstd::prelude::*;
use vstd::string::StringExecFns;

use crate::error::AppError;
use crate::users::{
    hash_acceptable, Command, Event, InsertError, Registration, Stage, StoreError, UniqueKey, User,
    UserRecord,
};
use crate::validation::{is_ascii_folding, same_ignoring_ascii_case, lemma_folding_unique};

verus! {

/// Some stored account holds this username.
pub open spec fn username_taken(users: Seq<User>, name: Seq<char>) -> bool {
    exists|i: int| 0 <= i < users.len() && #[trigger] users[i].username@ == name
}

/// Some stored account holds this email.
pub open spec fn email_taken(users: Seq<User>, email: Seq<char>) -> bool {
    exists|i: int| 0 <= i < users.len() && #[trigger] users[i].email@ == email
}

/// No two stored accounts share a username or an email.
pub open spec fn unique_keys(users: Seq<User>) -> bool {
    forall|i: int, j: int|
        0 <= i < users.len() && 0 <= j < users.len() && i != j ==> {
            &&& #[trigger] users[i].username@ != #[trigger] users[j].username@
            &&& users[i].email@ != users[j].email@
        }
}

/// The unique constraint, if any, that inserting `rec` into `users` breaks;
/// the username constraint is checked first.
pub open spec fn insert_verdict(users: Seq<User>, rec: UserRecord) -> Option<UniqueKey> {
    if username_taken(users, rec.username@) {
        Some(UniqueKey::Username)
    } else if email_taken(users, rec.email@) {
        Some(UniqueKey::Email)
    } else {
        None
    }
}

/// The stored row for `rec`, with the identifier and time the store gave it.
pub open spec fn row_of(rec: UserRecord, id: u64, created_at: i64) -> User {
    User {
        id,
        username: rec.username,
        email: rec.email,
        password_hash: rec.password_hash,
        created_at,
    }
}

impl User {
    /// A copy of this account.
    pub fn cloned(&self) -> (r: User)
        ensures
            r == *self,
    {
        User {
            id: self.id,
            username: self.username.clone(),
            email: self.email.clone(),
            password_hash: self.password_hash.clone(),
            created_at: self.created_at,
        }
    }
}

/// The account repository: reads by key, and an insert guarded by the unique
/// constraints on username and email, which are the arbiter of uniqueness.
pub trait ExtUsersService {
    /// The stored accounts.
    spec fn users(&self) -> Seq<User>;

    /// The store is able to take a row that breaks no constraint.
    spec fn accepts_writes(&self) -> bool;

    /// The store's own consistency condition.
    spec fn inv(&self) -> bool;

    /// A consistent store holds no two accounts with the same username or
    /// the same email.
    proof fn lemma_keys_unique(&self)
        requires
            self.inv(),
        ensures
            unique_keys(self.users()),
    ;

    /// Inserts `record`, or reports the unique constraint it breaks.
    fn user_register(&mut self, record: UserRecord, created_at: i64) -> (r: Result<User, InsertError>)
        requires
            old(self).inv(),
        ensures
            final(self).inv(),
            insert_verdict(old(self).users(), record) matches Some(k) ==> r matches Err(
                InsertError::Duplicate(k2),
            ) && k2 == k,
            insert_verdict(old(self).users(), record) is None ==> !(r matches Err(
                InsertError::Duplicate(_),
            )),
            insert_verdict(old(self).users(), record) is None && old(self).accepts_writes()
                ==> r is Ok,
            r matches Ok(u) ==> u.username == record.username && u.email == record.email
                && u.password_hash == record.password_hash && u.created_at == created_at
                && final(self).users() == old(self).users().push(u),
            r is Err ==> final(self).users() == old(self).users(),
    ;

    /// The account holding `username`, if any.
    fn find_by_username(&self, username: &str) -> (r: Option<User>)
        ensures
            r is Some <==> username_taken(self.users(), username@),
            r matches Some(u) ==> self.users().contains(u) && u.username@ == username@,
    ;

    /// The account holding `email`, if any.
    fn find_by_email(&self, email: &str) -> (r: Option<User>)
        ensures
            r is Some <==> email_taken(self.users(), email@),
            r matches Some(u) ==> self.users().contains(u) && u.email@ == email@,
    ;

    /// The account holding `username`, where the caller knows it exists; its
    /// absence is an internal failure.
    fn find_by_username2(&self, username: &str) -> (r: Result<User, AppError>)
        ensures
            r is Ok <==> username_taken(self.users(), username@),
            r matches Ok(u) ==> self.users().contains(u) && u.username@ == username@,
            r matches Err(e) ==> e matches AppError::Internal { .. },
    ;

    /// Whether some account holds `username`.
    fn exists_by_username(&self, username: &str) -> (r: bool)
        ensures
            r == username_taken(self.users(), username@),
    ;

    /// Whether some account holds `email`.
    fn exists_by_email(&self, email: &str) -> (r: bool)
        ensures
            r == email_taken(self.users(), email@),
    ;
}

/// An in-process account store with the same unique constraints as the
/// database; identifiers count up from one.
pub struct UsersService {
    users: Vec<User>,
    next_id: u64,
}

impl UsersService {
    pub closed spec fn view(&self) -> Seq<User> {
        self.users@
    }

    pub closed spec fn next_id_spec(&self) -> u64 {
        self.next_id
    }

    /// An empty store.
    pub fn new() -> (r: UsersService)
        ensures
            r.inv(),
            r@ == Seq::<User>::empty(),
            r.next_id_spec() == 1,
    {
        UsersService { users: Vec::new(), next_id: 1 }
    }

    /// The number of stored accounts.
    pub fn len(&self) -> (r: usize)
        ensures
            r == self@.len(),
    {
        self.users.len()
    }

    fn position_of_username(&self, name: &String) -> (r: Option<usize>)
        ensures
            r is None <==> !username_taken(self@, name@),
            r matches Some(i) ==> i < self@.len() && self@[i as int].username@ == name@,
    {
        let mut i: usize = 0;
        while i < self.users.len()
            invariant
                i <= self.users@.len(),
                forall|j: int| 0 <= j < i ==> #[trigger] self.users@[j].username@ != name@,
            decreases self.users@.len() - i,
        {
            if self.users[i].username == *name {
                return Some(i);
            }
            i = i + 1;
        }
        None
    }

    fn position_of_email(&self, email: &String) -> (r: Option<usize>)
        ensures
            r is None <==> !email_taken(self@, email@),
            r matches Some(i) ==> i < self@.len() && self@[i as int].email@ == email@,
    {
        let mut i: usize = 0;
        while i < self.users.len()
            invariant
                i <= self.users@.len(),
                forall|j: int| 0 <= j < i ==> #[trigger] self.users@[j].email@ != email@,
            decreases self.users@.len() - i,
        {
            if self.users[i].email == *email {
                return Some(i);
            }
            i = i + 1;
        }
        None
    }
}

impl ExtUsersService for UsersService {
    open spec fn users(&self) -> Seq<User> {
        self@
    }

    open spec fn accepts_writes(&self) -> bool {
        self.next_id_spec() < u64::MAX
    }

    closed spec fn inv(&self) -> bool {
        &&& unique_keys(self.users@)
        &&& self.next_id >= 1
    }

    proof fn lemma_keys_unique(&self) {
    }

    fn user_register(&mut self, record: UserRecord, created_at: i64) -> (r: Result<User, InsertError>)
    {
        if self.position_of_username(&record.username).is_some() {
            return Err(InsertError::Duplicate(UniqueKey::Username));
        }
        if self.position_of_email(&record.email).is_some() {
            return Err(InsertError::Duplicate(UniqueKey::Email));
        }
        if self.next_id == u64::MAX {
            return Err(
                InsertError::Store(StoreError { cause: String::from_str("identifier space exhausted") }),
            );
        }
        let user = User {
            id: self.next_id,
            username: record.username,
            email: record.email,
            password_hash: record.password_hash,
            created_at,
        };
        self.users.push(user.cloned());
        self.next_id = self.next_id + 1;
        Ok(user)
    }

    fn find_by_username(&self, username: &str) -> (r: Option<User>) {
        let name = String::from_str(username);
        match self.position_of_username(&name) {
            Some(i) => Some(self.users[i].cloned()),
            None => None,
        }
    }

    fn find_by_email(&self, email: &str) -> (r: Option<User>) {
        let key = String::from_str(email);
        match self.position_of_email(&key) {
            Some(i) => Some(self.users[i].cloned()),
            None => None,
        }
    }

    fn find_by_username2(&self, username: &str) -> (r: Result<User, AppError>) {
        match self.find_by_username(username) {
            Some(u) => Ok(u),
            None => Err(AppError::Internal { cause: String::from_str("user not found") }),
        }
    }

    fn exists_by_username(&self, username: &str) -> (r: bool) {
        let name = String::from_str(username);
        self.position_of_username(&name).is_some()
    }

    fn exists_by_email(&self, email: &str) -> (r: bool) {
        let key = String::from_str(email);
        self.position_of_email(&key).is_some()
    }
}

/// A registration whose normalized username and email are both free, and
/// whose password the crypto service hashes to an acceptable value, passes
/// both checks and the hashing and asks for an insert that breaks no
/// constraint; the stored row ends it with success and keeps a hash that is
/// not the password. The same record inserted once more is refused.
pub proof fn lemma_fresh_registration_succeeds(
    users: Seq<User>,
    reg: Registration,
    hash: String,
    stored: User,
)
    requires
        reg.stage == Stage::CheckUsername,
        !username_taken(users, reg.request.username@),
        !email_taken(users, reg.request.email@),
        hash_acceptable(hash@, reg.request.password@),
        stored.username == reg.request.username,
        stored.email == reg.request.email,
        stored.password_hash == hash,
    ensures
        reg.transition(Event::Exists(Ok(false))) == Some(
            (Stage::CheckEmail, Command::ExistsByEmail(reg.request.email)),
        ),
        (Registration { stage: Stage::CheckEmail, request: reg.request }).transition(
            Event::Exists(Ok(false)),
        ) == Some((Stage::Hash, Command::HashPassword(reg.request.password))),
        (Registration { stage: Stage::Hash, request: reg.request }).transition(
            Event::Hashed(Ok(hash)),
        ) == Some(
            (
                Stage::Insert,
                Command::Insert(
                    UserRecord {
                        username: reg.request.username,
                        email: reg.request.email,
                        password_hash: hash,
                    },
                ),
            ),
        ),
        insert_verdict(
            users,
            UserRecord {
                username: reg.request.username,
                email: reg.request.email,
                password_hash: hash,
            },
        ) is None,
        (Registration { stage: Stage::Insert, request: reg.request }).transition(
            Event::Inserted(Ok(stored)),
        ) == Some((Stage::Done, Command::Finish(Ok(stored)))),
        stored.password_hash@ != reg.request.password@,
        insert_verdict(
            users.push(stored),
            UserRecord {
                username: reg.request.username,
                email: reg.request.email,
                password_hash: hash,
            },
        ) == Some(UniqueKey::Username),
{
    let after = users.push(stored);
    assert(after[users.len() as int] == stored);
}

/// Two registrations with the same normalized username may both pass their
/// existence checks; once the store holds the first one's row, the second
/// insert breaks the username constraint and that registration ends with
/// `UsernameAlreadyExists`, so at most one of them succeeds.
pub proof fn lemma_racing_same_username(
    users: Seq<User>,
    first: UserRecord,
    second: UserRecord,
    stored: User,
    reg: Registration,
)
    requires
        first.username@ == second.username@,
        stored.username == first.username,
        reg.stage == Stage::Insert,
    ensures
        insert_verdict(users.push(stored), second) == Some(UniqueKey::Username),
        reg.transition(Event::Inserted(Err(InsertError::Duplicate(UniqueKey::Username)))) == Some(
            (Stage::Done, Command::Finish(Err(AppError::UsernameAlreadyExists))),
        ),
{
    let after = users.push(stored);
    assert(after[users.len() as int] == stored);
}

/// Two registrations with the same normalized email may both pass their
/// existence checks; once the store holds the first one's row, the second
/// insert is refused, and where its username is free it breaks the email
/// constraint and that registration ends with `EmailAlreadyExists`.
pub proof fn lemma_racing_same_email(
    users: Seq<User>,
    first: UserRecord,
    second: UserRecord,
    stored: User,
    reg: Registration,
)
    requires
        first.email@ == second.email@,
        stored.email == first.email,
        reg.stage == Stage::Insert,
    ensures
        insert_verdict(users.push(stored), second) is Some,
        !username_taken(users.push(stored), second.username@) ==> insert_verdict(
            users.push(stored),
            second,
        ) == Some(UniqueKey::Email),
        reg.transition(Event::Inserted(Err(InsertError::Duplicate(UniqueKey::Email)))) == Some(
            (Stage::Done, Command::Finish(Err(AppError::EmailAlreadyExists))),
        ),
{
    let after = users.push(stored);
    assert(after[users.len() as int] == stored);
}

/// Usernames are compared after case folding: once an account holds the
/// folded form of one spelling, a registration of a spelling that differs
/// only in ASCII case finds its username taken and ends with
/// `UsernameAlreadyExists`.
pub proof fn lemma_case_variant_is_taken(
    users: Seq<User>,
    first: Seq<char>,
    second: Seq<char>,
    stored: User,
    reg: Registration,
)
    requires
        same_ignoring_ascii_case(first, second),
        is_ascii_folding(first, stored.username@),
        users.contains(stored),
        reg.stage == Stage::CheckUsername,
        is_ascii_folding(second, reg.request.username@),
    ensures
        username_taken(users, reg.request.username@),
        reg.transition(Event::Exists(Ok(true))) == Some(
            (Stage::Done, Command::Finish(Err(AppError::UsernameAlreadyExists))),
        ),
{
    lemma_folding_unique(first, second, stored.username@, reg.request.username@);
    let i = choose|i: int| 0 <= i < users.len() && users[i] == stored;
    assert(users[i].username@ == reg.request.username@);
}

} // verus!
