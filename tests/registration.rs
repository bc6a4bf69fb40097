use server::error::{AppError, Field};
use server::service::{ExtUsersService, UsersService};
use server::users::{Command, Event, InsertError, Registration, Stage, StoreError, UniqueKey, User};
use server::validation::{NewUser, PasswordPolicy};

fn input(username: &str, email: &str, password: &str) -> NewUser {
    NewUser {
        username: username.to_string(),
        email: email.to_string(),
        password: password.to_string(),
    }
}

fn stub_hash(password: &str) -> String {
    format!("stub${}", password.chars().rev().collect::<String>())
}

/// Runs one registration to its end against the in-process store.
fn register(store: &mut UsersService, new_user: &NewUser) -> Result<User, AppError> {
    let policy = PasswordPolicy::standard();
    let (mut reg, mut cmd) = Registration::start(&policy, new_user);
    loop {
        let ev = match cmd {
            Command::ExistsByUsername(name) => Event::Exists(Ok(store.exists_by_username(&name))),
            Command::ExistsByEmail(email) => Event::Exists(Ok(store.exists_by_email(&email))),
            Command::HashPassword(p) => Event::Hashed(Ok(stub_hash(&p))),
            Command::Insert(rec) => Event::Inserted(store.user_register(rec, 1_700_000_000)),
            Command::Finish(r) => return r,
        };
        cmd = reg.step(ev);
    }
}

/// Drives a registration until it asks for its insert.
fn up_to_insert(store: &UsersService, new_user: &NewUser) -> (Registration, Command) {
    let policy = PasswordPolicy::standard();
    let (mut reg, mut cmd) = Registration::start(&policy, new_user);
    loop {
        let ev = match cmd {
            Command::ExistsByUsername(name) => Event::Exists(Ok(store.exists_by_username(&name))),
            Command::ExistsByEmail(email) => Event::Exists(Ok(store.exists_by_email(&email))),
            Command::HashPassword(p) => Event::Hashed(Ok(stub_hash(&p))),
            other => return (reg, other),
        };
        cmd = reg.step(ev);
    }
}

#[test]
fn bob_registers_once() {
    let mut store = UsersService::new();
    let bob = input("bob1", "bob1@example.com", "Str0ngPass!");
    let user = register(&mut store, &bob).expect("first registration succeeds");
    assert!(user.id != 0);
    assert_eq!(user.username, "bob1");
    assert_eq!(user.email, "bob1@example.com");
    assert_ne!(user.password_hash, "Str0ngPass!");
    assert!(!user.password_hash.is_empty());
    let again = register(&mut store, &bob);
    assert!(matches!(again, Err(AppError::UsernameAlreadyExists)));
    assert_eq!(store.len(), 1);
}

#[test]
fn registration_normalizes_case() {
    let mut store = UsersService::new();
    let user = register(&mut store, &input("Bob_Smith", "Bob@Example.COM", "Str0ngPass!")).unwrap();
    assert_eq!(user.username, "bob_smith");
    assert_eq!(user.email, "bob@example.com");
}

#[test]
fn alice_then_lowercase_alice_conflicts() {
    let mut store = UsersService::new();
    register(&mut store, &input("Alice", "alice@example.com", "Str0ngPass!")).unwrap();
    let second = register(&mut store, &input("alice", "other@example.com", "Str0ngPass!"));
    assert!(matches!(second, Err(AppError::UsernameAlreadyExists)));
}

#[test]
fn email_taken_in_other_case_conflicts() {
    let mut store = UsersService::new();
    register(&mut store, &input("carol", "carol@example.com", "Str0ngPass!")).unwrap();
    let second = register(&mut store, &input("carol2", "CAROL@example.com", "Str0ngPass!"));
    assert!(matches!(second, Err(AppError::EmailAlreadyExists)));
}

#[test]
fn distinct_users_all_register() {
    let mut store = UsersService::new();
    let a = register(&mut store, &input("user_a", "a@example.com", "Str0ngPass!")).unwrap();
    let b = register(&mut store, &input("user-b", "b@example.com", "Str0ngPass!")).unwrap();
    assert_ne!(a.id, b.id);
    assert_eq!(store.len(), 2);
}

fn validation_field(new_user: &NewUser) -> Option<Field> {
    let (reg, cmd) = Registration::start(&PasswordPolicy::standard(), new_user);
    match cmd {
        Command::Finish(Err(AppError::ValidationFailed { field, .. })) => {
            assert_eq!(reg.stage, Stage::Done);
            Some(field)
        }
        Command::ExistsByUsername(_) => None,
        other => panic!("unexpected first command {:?}", other),
    }
}

#[test]
fn username_of_three_is_rejected() {
    assert_eq!(validation_field(&input("bob", "bob@example.com", "Str0ngPass!")), Some(Field::Username));
}

#[test]
fn username_of_seventeen_is_rejected() {
    let name = "a".repeat(17);
    assert_eq!(validation_field(&input(&name, "a@example.com", "Str0ngPass!")), Some(Field::Username));
}

#[test]
fn username_bounds_are_accepted() {
    assert_eq!(validation_field(&input("abcd", "a@example.com", "Str0ngPass!")), None);
    let name = "a".repeat(16);
    assert_eq!(validation_field(&input(&name, "a@example.com", "Str0ngPass!")), None);
}

#[test]
fn username_with_bad_character_is_rejected() {
    assert_eq!(validation_field(&input("bob smith", "b@example.com", "Str0ngPass!")), Some(Field::Username));
    assert_eq!(validation_field(&input("böbby", "b@example.com", "Str0ngPass!")), Some(Field::Username));
}

#[test]
fn email_without_at_is_rejected() {
    assert_eq!(validation_field(&input("bob1", "bob1.example.com", "Str0ngPass!")), Some(Field::Email));
}

#[test]
fn malformed_emails_are_rejected() {
    assert_eq!(validation_field(&input("bob1", "bob1@", "Str0ngPass!")), Some(Field::Email));
    assert_eq!(validation_field(&input("bob1", "", "Str0ngPass!")), Some(Field::Email));
}

#[test]
fn weak_passwords_are_rejected() {
    assert_eq!(validation_field(&input("bob1", "b@example.com", "Sh0rt")), Some(Field::Password));
    assert_eq!(validation_field(&input("bob1", "b@example.com", "NoDigitsHere")), Some(Field::Password));
    assert_eq!(validation_field(&input("bob1", "b@example.com", "1234567890")), Some(Field::Password));
}

#[test]
fn username_is_reported_before_email() {
    assert_eq!(validation_field(&input("b", "nope", "x")), Some(Field::Username));
}

#[test]
fn racing_same_username_lets_one_in() {
    let mut store = UsersService::new();
    let first = input("racer", "r1@example.com", "Str0ngPass!");
    let second = input("RACER", "r2@example.com", "Str0ngPass!");
    let (mut reg1, cmd1) = up_to_insert(&store, &first);
    let (mut reg2, cmd2) = up_to_insert(&store, &second);
    let (Command::Insert(rec1), Command::Insert(rec2)) = (cmd1, cmd2) else {
        panic!("both registrations pass their checks");
    };
    let out1 = reg1.step(Event::Inserted(store.user_register(rec1, 1)));
    let out2 = reg2.step(Event::Inserted(store.user_register(rec2, 2)));
    assert!(matches!(out1, Command::Finish(Ok(_))));
    assert!(matches!(out2, Command::Finish(Err(AppError::UsernameAlreadyExists))));
    assert_eq!(store.len(), 1);
}

#[test]
fn racing_same_email_lets_one_in() {
    let mut store = UsersService::new();
    let first = input("racer1", "same@example.com", "Str0ngPass!");
    let second = input("racer2", "Same@Example.com", "Str0ngPass!");
    let (mut reg1, cmd1) = up_to_insert(&store, &first);
    let (mut reg2, cmd2) = up_to_insert(&store, &second);
    let (Command::Insert(rec1), Command::Insert(rec2)) = (cmd1, cmd2) else {
        panic!("both registrations pass their checks");
    };
    let out1 = reg1.step(Event::Inserted(store.user_register(rec1, 1)));
    let out2 = reg2.step(Event::Inserted(store.user_register(rec2, 2)));
    assert!(matches!(out1, Command::Finish(Ok(_))));
    assert!(matches!(out2, Command::Finish(Err(AppError::EmailAlreadyExists))));
}

#[test]
fn duplicate_on_insert_maps_to_conflict() {
    let (mut reg, cmd) = up_to_insert(&UsersService::new(), &input("dave", "d@example.com", "Str0ngPass!"));
    assert!(matches!(cmd, Command::Insert(_)));
    let out = reg.step(Event::Inserted(Err(InsertError::Duplicate(UniqueKey::Email))));
    assert!(matches!(out, Command::Finish(Err(AppError::EmailAlreadyExists))));
}

#[test]
fn store_failure_is_internal() {
    let (mut reg, _) = Registration::start(&PasswordPolicy::standard(), &input("erin", "e@example.com", "Str0ngPass!"));
    let out = reg.step(Event::Exists(Err(StoreError { cause: "connection reset".to_string() })));
    match out {
        Command::Finish(Err(AppError::Internal { cause })) => assert_eq!(cause, "connection reset"),
        other => panic!("unexpected {:?}", other),
    }
    assert_eq!(reg.stage, Stage::Done);
}

#[test]
fn insert_store_failure_is_internal() {
    let (mut reg, _) = up_to_insert(&UsersService::new(), &input("frank", "f@example.com", "Str0ngPass!"));
    let out = reg.step(Event::Inserted(Err(InsertError::Store(StoreError { cause: "disk full".to_string() }))));
    assert!(matches!(out, Command::Finish(Err(AppError::Internal { .. }))));
}

fn at_hash_stage(password: &str) -> Registration {
    let policy = PasswordPolicy::standard();
    let (mut reg, _) = Registration::start(&policy, &input("gina", "g@example.com", password));
    let c = reg.step(Event::Exists(Ok(false)));
    assert!(matches!(c, Command::ExistsByEmail(ref e) if e == "g@example.com"));
    let c = reg.step(Event::Exists(Ok(false)));
    assert!(matches!(c, Command::HashPassword(ref p) if p == password));
    assert_eq!(reg.stage, Stage::Hash);
    reg
}

#[test]
fn hash_equal_to_password_is_refused() {
    let mut reg = at_hash_stage("Str0ngPass!");
    let out = reg.step(Event::Hashed(Ok("Str0ngPass!".to_string())));
    assert!(matches!(out, Command::Finish(Err(AppError::Internal { .. }))));
}

#[test]
fn empty_hash_is_refused() {
    let mut reg = at_hash_stage("Str0ngPass!");
    let out = reg.step(Event::Hashed(Ok(String::new())));
    assert!(matches!(out, Command::Finish(Err(AppError::Internal { .. }))));
}

#[test]
fn accepted_hash_is_inserted() {
    let mut reg = at_hash_stage("Str0ngPass!");
    let out = reg.step(Event::Hashed(Ok("$argon2id$abc".to_string())));
    match out {
        Command::Insert(rec) => {
            assert_eq!(rec.username, "gina");
            assert_eq!(rec.email, "g@example.com");
            assert_eq!(rec.password_hash, "$argon2id$abc");
        }
        other => panic!("unexpected {:?}", other),
    }
    assert_eq!(reg.stage, Stage::Insert);
}

#[test]
fn reply_out_of_turn_is_internal() {
    let (mut reg, _) = Registration::start(&PasswordPolicy::standard(), &input("hank", "h@example.com", "Str0ngPass!"));
    let out = reg.step(Event::Hashed(Ok("x".to_string())));
    assert!(matches!(out, Command::Finish(Err(AppError::Internal { .. }))));
    assert_eq!(reg.stage, Stage::Done);
}
