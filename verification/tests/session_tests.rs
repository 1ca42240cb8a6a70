use blog_server::db_pool::users::{CredentialUniqueness, User as DbUser};
use blog_server::domain::auth::{hash_password, Tokens};
use blog_server::session::{
    login_check, RegisterAction, RegisterError, RegisterEvent, RegisterStage, Registration,
};

fn tokens() -> Tokens {
    Tokens { access: "acc".to_owned(), key: "key".to_owned() }
}

fn issued(reg: Registration) -> Registration {
    let (reg, action) = reg.advance(RegisterEvent::TokensIssued(Ok(tokens())));
    match action {
        RegisterAction::CheckUniqueness { name, email } => {
            assert_eq!(name, reg.name);
            assert_eq!(email, reg.email);
        },
        _ => panic!("expected a uniqueness check"),
    }
    reg
}

#[test]
fn register_error_messages() {
    assert_eq!(RegisterError::NameTaken.message(), "Name is already taken");
    assert_eq!(RegisterError::EmailTaken.message(), "Email is already taken");
    assert_eq!(RegisterError::InvalidData("x".to_owned()).message(), "Invalid Data: x");
    assert_eq!(RegisterError::Internal("y".to_owned()).message(), "Internal Error: y");
}

#[test]
fn invalid_registration_is_refused_at_once() {
    let (reg, action) = Registration::start("a", "a@b.c", "secret12");
    assert!(matches!(reg.stage, RegisterStage::Finished));
    match action {
        RegisterAction::Finish(Err(RegisterError::InvalidData(m))) => {
            assert_eq!(m, "Username length too short or too large")
        },
        _ => panic!(),
    }
}

#[test]
fn registration_succeeds_when_name_and_email_are_free() {
    let (reg, action) = Registration::start("alice", "a@b.c", "secret12");
    match action {
        RegisterAction::IssueTokens(info) => assert_eq!(info.name, "alice"),
        _ => panic!(),
    }
    let reg = issued(reg);
    let (reg, action) =
        reg.advance(RegisterEvent::UniquenessChecked(Ok(CredentialUniqueness { name: true, email: true })));
    match action {
        RegisterAction::CreateUser { name, email, password_hash } => {
            assert_eq!(name, "alice");
            assert_eq!(email, "a@b.c");
            assert!(blog_server::domain::auth::compare_password("secret12", &password_hash));
        },
        _ => panic!(),
    }
    let (reg, action) = reg.advance(RegisterEvent::UserCreated(Ok(())));
    assert!(matches!(reg.stage, RegisterStage::Finished));
    match action {
        RegisterAction::Finish(Ok(t)) => {
            assert_eq!(t.access, "acc");
            assert_eq!(t.key, "key");
        },
        _ => panic!(),
    }
}

#[test]
fn taken_name_is_reported_before_taken_email() {
    let (reg, _) = Registration::start("alice", "a@b.c", "secret12");
    let reg = issued(reg);
    let (_, action) =
        reg.advance(RegisterEvent::UniquenessChecked(Ok(CredentialUniqueness { name: false, email: false })));
    assert!(matches!(action, RegisterAction::Finish(Err(RegisterError::NameTaken))));
}

#[test]
fn taken_email_is_reported() {
    let (reg, _) = Registration::start("alice", "a@b.c", "secret12");
    let reg = issued(reg);
    let (_, action) =
        reg.advance(RegisterEvent::UniquenessChecked(Ok(CredentialUniqueness { name: true, email: false })));
    assert!(matches!(action, RegisterAction::Finish(Err(RegisterError::EmailTaken))));
}

#[test]
fn outside_failures_are_internal_errors() {
    let (reg, _) = Registration::start("alice", "a@b.c", "secret12");
    let (_, action) = reg.advance(RegisterEvent::TokensIssued(Err("no keys".to_owned())));
    match action {
        RegisterAction::Finish(Err(RegisterError::Internal(m))) => assert_eq!(m, "no keys"),
        _ => panic!(),
    }
    let (reg, _) = Registration::start("alice", "a@b.c", "secret12");
    let reg = issued(reg);
    let (_, action) = reg.advance(RegisterEvent::UniquenessChecked(Err("db down".to_owned())));
    match action {
        RegisterAction::Finish(Err(RegisterError::Internal(m))) => assert_eq!(m, "db down"),
        _ => panic!(),
    }
    let (reg, _) = Registration::start("alice", "a@b.c", "secret12");
    let reg = issued(reg);
    let (reg, _) =
        reg.advance(RegisterEvent::UniquenessChecked(Ok(CredentialUniqueness { name: true, email: true })));
    let (_, action) = reg.advance(RegisterEvent::UserCreated(Err("write failed".to_owned())));
    match action {
        RegisterAction::Finish(Err(RegisterError::Internal(m))) => assert_eq!(m, "write failed"),
        _ => panic!(),
    }
}

fn stored_user(password: &str) -> DbUser {
    DbUser {
        id: 1,
        name: "alice".to_owned(),
        email: "a@b.c".to_owned(),
        password_hash: hash_password(password).unwrap(),
    }
}

#[test]
fn login_with_right_password() {
    let info = login_check("alice", "secret12", Ok(stored_user("secret12"))).ok().unwrap();
    assert_eq!(info.name, "alice");
}

#[test]
fn login_with_wrong_password() {
    assert_eq!(
        login_check("alice", "secret13", Ok(stored_user("secret12"))).err(),
        Some("Invalid credentials".to_owned())
    );
}

#[test]
fn login_reports_lookup_failure() {
    assert_eq!(login_check("bob", "x", Err("not found".to_owned())).err(), Some("not found".to_owned()));
}

#[test]
fn registered_user_logs_in_with_the_same_password() {
    let (reg, _) = Registration::start("frank", "f@x.y", "longpass");
    let reg = issued(reg);
    let (_, action) =
        reg.advance(RegisterEvent::UniquenessChecked(Ok(CredentialUniqueness { name: true, email: true })));
    let RegisterAction::CreateUser { name, email, password_hash } = action else { panic!() };
    let stored = DbUser { id: 1, name, email, password_hash };
    let info = login_check("frank", "longpass", Ok(stored)).ok().unwrap();
    assert_eq!(info.name, "frank");
}
