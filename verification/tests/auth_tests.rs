use blog_server::domain::auth::{
    claims_for, compare_password, generate_key, hash_password, issue_claims,
    validate_credentials_data, AccessClaims, Auth, Info, KeyClaims, Object, Tokens, NAME_CHARS,
    TOKEN_KEY_LEN,
};

#[test]
fn valid_credentials_are_accepted() {
    assert_eq!(validate_credentials_data("alice_99", "a@b.c", "secret12"), Ok(()));
}

#[test]
fn name_with_foreign_character_is_refused() {
    assert_eq!(
        validate_credentials_data("ali ce", "a@b.c", "secret12"),
        Err("Invalid characters in username".to_owned())
    );
}

#[test]
fn bad_characters_are_reported_before_length() {
    assert_eq!(
        validate_credentials_data("a!", "x", "1"),
        Err("Invalid characters in username".to_owned())
    );
}

#[test]
fn name_length_bounds() {
    let too_short = Err("Username length too short or too large".to_owned());
    assert_eq!(validate_credentials_data("ab", "", "secret12"), too_short);
    assert_eq!(validate_credentials_data("abc", "", "secret12"), Ok(()));
    assert_eq!(validate_credentials_data("abcdefghijklmnopqrst", "", "secret12"), Ok(()));
    assert_eq!(validate_credentials_data("abcdefghijklmnopqrstu", "", "secret12"), too_short);
    assert_eq!(validate_credentials_data("", "", "secret12"), too_short);
}

#[test]
fn password_length_bounds_count_bytes() {
    let bad = Err("Password length too short or too large".to_owned());
    assert_eq!(validate_credentials_data("alice", "", "123456"), bad);
    assert_eq!(validate_credentials_data("alice", "", "1234567"), Ok(()));
    assert_eq!(validate_credentials_data("alice", "", &"x".repeat(50)), Ok(()));
    assert_eq!(validate_credentials_data("alice", "", &"x".repeat(51)), bad);
    // four characters, eight bytes
    assert_eq!(validate_credentials_data("alice", "", "ééèè"), Ok(()));
    // three characters, six bytes
    assert_eq!(validate_credentials_data("alice", "", "ééè"), bad);
}

#[test]
fn name_chars_are_letters_digits_and_underscore() {
    assert_eq!(NAME_CHARS.len(), 63);
    assert!(NAME_CHARS.chars().all(|c| c.is_ascii_alphanumeric() || c == '_'));
}

#[test]
fn hashed_password_is_accepted() {
    let hash = hash_password("hunter2!").unwrap();
    assert!(hash.starts_with("$2b$10$"));
    assert!(compare_password("hunter2!", &hash));
    assert!(!compare_password("hunter3!", &hash));
}

#[test]
fn two_hashes_of_one_password_differ() {
    let a = hash_password("password").unwrap();
    let b = hash_password("password").unwrap();
    assert_ne!(a, b);
    assert!(compare_password("password", &a));
    assert!(compare_password("password", &b));
}

#[test]
fn known_hash_is_accepted() {
    assert!(compare_password(
        "password",
        "$2y$05$bvIG6Nmid91Mu9RcmmWZfO5HJIMCT8riNW0hEp8f6/FuA2/mHZFpe"
    ));
}

#[test]
fn hash_with_control_character_never_matches() {
    assert!(!compare_password("password", "$2y$05$\u{1}vIG6Nmid91Mu9RcmmWZfO5HJIMCT8riNW0hEp8f6/FuA2/mHZFpe"));
    assert!(!compare_password("password", "garbage"));
}

#[test]
fn generated_key_is_twenty_alphanumerics() {
    let key = generate_key();
    assert_eq!(key.chars().count(), TOKEN_KEY_LEN);
    assert!(key.chars().all(|c| c.is_ascii_alphanumeric()));
}

#[test]
fn claims_carry_name_key_and_expiry() {
    let (access, key) = claims_for(Info { name: "bob".to_owned() }, "k".repeat(20), 42);
    assert_eq!(access.name, "bob");
    assert_eq!(access.key, "k".repeat(20));
    assert_eq!(access.exp, 42);
    assert_eq!(key.key, "k".repeat(20));
    assert_eq!(key.exp, 42);
}

#[test]
fn issued_claims_expire_in_thirty_days() {
    let now = std::time::SystemTime::now()
        .duration_since(std::time::UNIX_EPOCH)
        .unwrap()
        .as_secs() as usize;
    let (access, key) = issue_claims(Info { name: "carol".to_owned() }).unwrap();
    assert_eq!(access.name, "carol");
    assert_eq!(access.key, key.key);
    assert_eq!(access.exp, key.exp);
    assert_eq!(access.key.len(), 20);
    let thirty_days = 30 * 24 * 60 * 60;
    assert!(access.exp >= now + thirty_days - 5 && access.exp <= now + thirty_days + 5);
}

fn access(name: &str, key: &str) -> AccessClaims {
    AccessClaims { name: name.to_owned(), key: key.to_owned(), exp: 1 }
}

fn key_claims(key: &str) -> KeyClaims {
    KeyClaims { key: key.to_owned(), exp: 1 }
}

#[test]
fn matching_keys_authenticate() {
    match Auth::from(Ok(access("dave", "abc")), Ok(key_claims("abc"))) {
        Auth::Valid { info } => assert_eq!(info.name, "dave"),
        Auth::Invalid(m) => panic!("refused: {}", m),
    }
}

#[test]
fn mismatched_keys_are_refused() {
    match Auth::from(Ok(access("dave", "abc")), Ok(key_claims("abd"))) {
        Auth::Valid { .. } => panic!("accepted"),
        Auth::Invalid(m) => assert_eq!(m, "Keys don't match"),
    }
}

#[test]
fn decoding_errors_are_reported_access_first() {
    match Auth::from(Err("bad access".to_owned()), Err("bad key".to_owned())) {
        Auth::Invalid(m) => assert_eq!(m, "bad access"),
        _ => panic!(),
    }
    match Auth::from(Ok(access("dave", "abc")), Err("bad key".to_owned())) {
        Auth::Invalid(m) => assert_eq!(m, "bad key"),
        _ => panic!(),
    }
}

#[test]
fn default_tokens_are_empty() {
    let t = Tokens::default();
    assert!(t.access.is_empty() && t.key.is_empty());
}

#[test]
fn secrets_object_clones() {
    let o = Object { access: "a".to_owned(), key: "k".to_owned() };
    let c = o.clone();
    assert_eq!(c.access, "a");
    assert_eq!(c.key, "k");
}

#[test]
fn issued_claims_authenticate_as_their_name() {
    let (access, key) = issue_claims(Info { name: "erin".to_owned() }).unwrap();
    match Auth::from(Ok(access), Ok(key)) {
        Auth::Valid { info } => assert_eq!(info.name, "erin"),
        Auth::Invalid(m) => panic!("refused: {}", m),
    }
}

#[test]
fn valid_names_are_short_words() {
    for name in ["abc", "A_1", "abcdefghijklmnopqrst"] {
        assert_eq!(validate_credentials_data(name, "", "secret12"), Ok(()));
        assert!(name.chars().count() >= 3 && name.chars().count() <= 20);
        assert!(name.chars().all(|c| c.is_ascii_alphanumeric() || c == '_'));
    }
    assert!(validate_credentials_data("ééé", "", "secret12").is_err());
}

#[test]
fn claims_expire_thirty_days_after_issue() {
    let (access, key) = blog_server::domain::auth::claims_expiring(Info { name: "gina".to_owned() }, 1_700_000_000).unwrap();
    assert_eq!(access.exp, 1_700_000_000 + 30 * 86_400);
    assert_eq!(key.exp, access.exp);
    assert_eq!(access.name, "gina");
    assert_eq!(access.key, key.key);
}

#[test]
fn unrepresentable_expiry_fails() {
    let r = blog_server::domain::auth::claims_expiring(Info { name: "h".to_owned() }, i64::MAX - 10);
    assert_eq!(r.err(), Some("valid timestamp".to_owned()));
}

#[test]
fn key_is_the_concatenation_of_draws() {
    let key = blog_server::domain::auth::key_from_draws(&vec!["a".to_owned(), "Z".to_owned(), "9".to_owned()]);
    assert_eq!(key, "aZ9");
}

#[test]
fn hash_with_non_bcrypt_character_never_matches() {
    assert!(!compare_password("password", "$2y$05$\u{80}vIG6Nmid91Mu9RcmmWZfO5HJIMCT8riNW0hEp8f6/FuA2/mHZFpe"));
    assert!(!compare_password("password", "$2y$05$bvIG6Nmid91Mu9RcmmWZfO5HJIMCT8riNW0hEp8f6/FuA2/mHZFp!"));
}
