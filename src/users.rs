use vstd::prelude::*;
use vstd::string::StringExecFns;

use crate::error::AppError;
use crate::error::Field;
use crate::validation::{first_invalid, is_ascii_folding, username_ok, validate, NewUser, PasswordPolicy};

verus! {

/// A persisted account. The password hash is never the plaintext.
#[derive(Clone, Debug)]
pub struct User {
    pub id: u64,
    pub username: String,
    pub email: String,
    pub password_hash: String,
    pub created_at: i64,
}

/// The row a registration asks the store to insert.
#[derive(Clone, Debug)]
pub struct UserRecord {
    pub username: String,
    pub email: String,
    pub password_hash: String,
}

/// The store's unique constraints.
#[derive(Clone, Copy, Debug, PartialEq, Eq, Structural)]
pub enum UniqueKey {
    Username,
    Email,
}

/// A failure reported by the store or the crypto service.
#[derive(Clone, Debug)]
pub struct StoreError {
    pub cause: String,
}

/// Why the store refused an insert.
#[derive(Clone, Debug)]
pub enum InsertError {
    /// The row would break the unique constraint on this key.
    Duplicate(UniqueKey),
    /// Any other store failure.
    Store(StoreError),
}

/// Where a registration stands: each stage waits for one collaborator reply.
#[derive(Clone, Copy, Debug, PartialEq, Eq, Structural)]
pub enum Stage {
    CheckUsername,
    CheckEmail,
    Hash,
    Insert,
    Done,
}

/// The work a registration asks its driver to perform next.
#[derive(Debug)]
pub enum Command {
    /// Ask the store whether this username is held.
    ExistsByUsername(String),
    /// Ask the store whether this email is held.
    ExistsByEmail(String),
    /// Ask the crypto service to hash this password.
    HashPassword(String),
    /// Insert this row.
    Insert(UserRecord),
    /// The registration is over with this result.
    Finish(Result<User, AppError>),
}

/// A collaborator's reply to the last command.
#[derive(Debug)]
pub enum Event {
    Exists(Result<bool, StoreError>),
    Hashed(Result<String, StoreError>),
    Inserted(Result<User, InsertError>),
}

/// One registration in progress, over its normalized input.
#[derive(Clone, Debug)]
pub struct Registration {
    pub stage: Stage,
    pub request: NewUser,
}

/// A hash fit to store: non-empty and not the plaintext itself.
pub open spec fn hash_acceptable(hash: Seq<char>, password: Seq<char>) -> bool {
    hash.len() > 0 && hash != password
}

/// The domain result of an insert: a unique-constraint violation becomes the
/// conflict error a pre-check would have given.
pub open spec fn insert_outcome(r: Result<User, InsertError>) -> Result<User, AppError> {
    match r {
        Ok(u) => Ok(u),
        Err(InsertError::Duplicate(UniqueKey::Username)) => Err(AppError::UsernameAlreadyExists),
        Err(InsertError::Duplicate(UniqueKey::Email)) => Err(AppError::EmailAlreadyExists),
        Err(InsertError::Store(e)) => Err(AppError::Internal { cause: e.cause }),
    }
}

pub open spec fn is_internal_failure(cmd: Command) -> bool {
    cmd matches Command::Finish(Err(AppError::Internal { .. }))
}

impl Registration {
    /// The next stage and command for `ev`; `None` where the registration ends
    /// in an internal failure of its own (an unfit hash, or a reply that does
    /// not answer the last command).
    pub open spec fn transition(self, ev: Event) -> Option<(Stage, Command)> {
        let req = self.request;
        match (self.stage, ev) {
            (Stage::CheckUsername, Event::Exists(Ok(true))) => Some(
                (Stage::Done, Command::Finish(Err(AppError::UsernameAlreadyExists))),
            ),
            (Stage::CheckUsername, Event::Exists(Ok(false))) => Some(
                (Stage::CheckEmail, Command::ExistsByEmail(req.email)),
            ),
            (Stage::CheckEmail, Event::Exists(Ok(true))) => Some(
                (Stage::Done, Command::Finish(Err(AppError::EmailAlreadyExists))),
            ),
            (Stage::CheckEmail, Event::Exists(Ok(false))) => Some(
                (Stage::Hash, Command::HashPassword(req.password)),
            ),
            (Stage::CheckUsername, Event::Exists(Err(e))) => Some(
                (Stage::Done, Command::Finish(Err(AppError::Internal { cause: e.cause }))),
            ),
            (Stage::CheckEmail, Event::Exists(Err(e))) => Some(
                (Stage::Done, Command::Finish(Err(AppError::Internal { cause: e.cause }))),
            ),
            (Stage::Hash, Event::Hashed(Ok(h))) => if hash_acceptable(h@, req.password@) {
                Some(
                    (
                        Stage::Insert,
                        Command::Insert(
                            UserRecord { username: req.username, email: req.email, password_hash: h },
                        ),
                    ),
                )
            } else {
                None
            },
            (Stage::Hash, Event::Hashed(Err(e))) => Some(
                (Stage::Done, Command::Finish(Err(AppError::Internal { cause: e.cause }))),
            ),
            (Stage::Insert, Event::Inserted(r)) => Some(
                (Stage::Done, Command::Finish(insert_outcome(r))),
            ),
            _ => None,
        }
    }

    /// Validates and normalizes `input` and opens a registration for it. An
    /// invalid input finishes at once with the validation failure, before any
    /// collaborator is asked anything.
    pub fn start(policy: &PasswordPolicy, input: &NewUser) -> (r: (Registration, Command))
        ensures
            first_invalid(*policy, *input) is Some ==> {
                &&& r.0.stage == Stage::Done
                &&& match r.1 {
                    Command::Finish(Err(AppError::ValidationFailed { field, .. })) => first_invalid(
                        *policy,
                        *input,
                    ) == Some(field),
                    _ => false,
                }
            },
            first_invalid(*policy, *input) is None ==> {
                &&& r.0.stage == Stage::CheckUsername
                &&& is_ascii_folding(input.username@, r.0.request.username@)
                &&& is_ascii_folding(input.email@, r.0.request.email@)
                &&& r.0.request.password == input.password
                &&& r.1 == Command::ExistsByUsername(r.0.request.username)
            },
    {
        let request = input.normalize();
        match validate(policy, input) {
            Err(e) => (Registration { stage: Stage::Done, request }, Command::Finish(Err(e))),
            Ok(()) => {
                let cmd = Command::ExistsByUsername(request.username.clone());
                (Registration { stage: Stage::CheckUsername, request }, cmd)
            },
        }
    }

    /// Advances the registration by the reply `ev` to its last command.
    pub fn step(&mut self, ev: Event) -> (cmd: Command)
        ensures
            final(self).request == old(self).request,
            match old(self).transition(ev) {
                Some((stage, c)) => final(self).stage == stage && cmd == c,
                None => final(self).stage == Stage::Done && is_internal_failure(cmd),
            },
    {
        let stage = self.stage;
        match ev {
            Event::Exists(Ok(taken)) => {
                if stage == Stage::CheckUsername {
                    if taken {
                        self.stage = Stage::Done;
                        return Command::Finish(Err(AppError::UsernameAlreadyExists));
                    }
                    self.stage = Stage::CheckEmail;
                    return Command::ExistsByEmail(self.request.email.clone());
                }
                if stage == Stage::CheckEmail {
                    if taken {
                        self.stage = Stage::Done;
                        return Command::Finish(Err(AppError::EmailAlreadyExists));
                    }
                    self.stage = Stage::Hash;
                    return Command::HashPassword(self.request.password.clone());
                }
            },
            Event::Exists(Err(e)) => {
                if stage == Stage::CheckUsername || stage == Stage::CheckEmail {
                    self.stage = Stage::Done;
                    return Command::Finish(Err(AppError::Internal { cause: e.cause }));
                }
            },
            Event::Hashed(Ok(h)) => {
                if stage == Stage::Hash {
                    let n = h.as_str().unicode_len();
                    if n > 0 && !(h == self.request.password) {
                        self.stage = Stage::Insert;
                        return Command::Insert(
                            UserRecord {
                                username: self.request.username.clone(),
                                email: self.request.email.clone(),
                                password_hash: h,
                            },
                        );
                    }
                    self.stage = Stage::Done;
                    return Command::Finish(
                        Err(
                            AppError::Internal {
                                cause: String::from_str("password hash is empty or equals the password"),
                            },
                        ),
                    );
                }
            },
            Event::Hashed(Err(e)) => {
                if stage == Stage::Hash {
                    self.stage = Stage::Done;
                    return Command::Finish(Err(AppError::Internal { cause: e.cause }));
                }
            },
            Event::Inserted(r) => {
                if stage == Stage::Insert {
                    self.stage = Stage::Done;
                    return Command::Finish(store_result(r));
                }
            },
        }
        self.stage = Stage::Done;
        Command::Finish(
            Err(AppError::Internal { cause: String::from_str("reply does not answer the last command") }),
        )
    }
}

/// Maps the result of an insert onto the domain result.
pub fn store_result(r: Result<User, InsertError>) -> (out: Result<User, AppError>)
    ensures
        out == insert_outcome(r),
{
    match r {
        Ok(u) => Ok(u),
        Err(InsertError::Duplicate(UniqueKey::Username)) => Err(AppError::UsernameAlreadyExists),
        Err(InsertError::Duplicate(UniqueKey::Email)) => Err(AppError::EmailAlreadyExists),
        Err(InsertError::Store(e)) => Err(AppError::Internal { cause: e.cause }),
    }
}

} // verus!
