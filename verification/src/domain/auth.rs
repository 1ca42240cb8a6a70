use rand::Rng;
use vstd::prelude::*;

verus! {

/// The characters a user name may be made of.
pub const NAME_CHARS: &'static str = "qazwsxedcrfvtgbyhnujmikolpQAZWSXEDCRFVTGBYHNUJMIKOLP1234567890_";

/// Number of bytes in the UTF-8 encoding of a string.
pub open spec fn utf8_len(s: Seq<char>) -> nat {
    vstd::utf8::encode_utf8(s).len()
}

/// Whether `c` is one of the characters allowed in a user name.
pub open spec fn is_name_char(c: char) -> bool {
    NAME_CHARS@.contains(c)
}

/// The error message that credential validation reports, if any.
pub open spec fn credentials_error(name: Seq<char>, password: Seq<char>) -> Option<Seq<char>> {
    if !(forall|i: int| 0 <= i < name.len() ==> is_name_char(#[trigger] name[i])) {
        Some("Invalid characters in username"@)
    } else if utf8_len(name) < 3 || utf8_len(name) > 20 {
        Some("Username length too short or too large"@)
    } else if utf8_len(password) < 7 || utf8_len(password) > 50 {
        Some("Password length too short or too large"@)
    } else {
        None
    }
}

/// Whether `c` is an ASCII letter, an ASCII digit or the underscore.
pub open spec fn is_word_char(c: char) -> bool {
    is_ascii_alphanumeric(c) || c == '_'
}

/// Whether every character of `s` from position `i` on is a word character.
spec fn word_chars_from(s: Seq<char>, i: nat) -> bool
    decreases s.len() - i,
{
    if i >= s.len() {
        true
    } else {
        is_word_char(s[i as int]) && word_chars_from(s, i + 1)
    }
}

proof fn lemma_word_chars_from(s: Seq<char>, i: nat, j: int)
    requires
        word_chars_from(s, i),
        i <= j < s.len(),
    ensures
        is_word_char(s[j]),
    decreases j - i,
{
    if j > i {
        lemma_word_chars_from(s, i + 1, j);
    }
}

/// Every character of `NAME_CHARS` is an ASCII letter, an ASCII digit or the
/// underscore.
pub proof fn lemma_name_chars_are_word_chars(c: char)
    requires
        is_name_char(c),
    ensures
        is_word_char(c),
{
    reveal_strlit("qazwsxedcrfvtgbyhnujmikolpQAZWSXEDCRFVTGBYHNUJMIKOLP1234567890_");
    reveal_with_fuel(word_chars_from, 64);
    assert(word_chars_from(NAME_CHARS@, 0));
    let i: int = choose|i: int| 0 <= i < NAME_CHARS@.len() && NAME_CHARS@[i] == c;
    lemma_word_chars_from(NAME_CHARS@, 0, i);
}

/// Data that pass validation have a user name of 3 to 20 characters, each an
/// ASCII letter, an ASCII digit or the underscore, and a password of 7 to 50
/// bytes.
pub proof fn lemma_valid_credentials_shape(name: Seq<char>, password: Seq<char>)
    requires
        credentials_error(name, password) is None,
    ensures
        3 <= name.len() <= 20,
        forall|i: int| 0 <= i < name.len() ==> is_word_char(#[trigger] name[i]),
        7 <= utf8_len(password) <= 50,
{
    assert forall|i: int| 0 <= i < name.len() implies is_word_char(#[trigger] name[i]) by {
        lemma_name_chars_are_word_chars(name[i]);
    }
    assert(vstd::utf8::is_ascii_chars(name));
    vstd::utf8::is_ascii_chars_encode_utf8(name);
}

/// Every ASCII letter, ASCII digit and the underscore is a character of
/// `NAME_CHARS`.
pub proof fn lemma_word_chars_are_name_chars(c: char)
    requires
        is_word_char(c),
    ensures
        is_name_char(c),
{
    reveal_strlit("qazwsxedcrfvtgbyhnujmikolpQAZWSXEDCRFVTGBYHNUJMIKOLP1234567890_");
    if c == 'q' {
        assert(NAME_CHARS@[0] == c);
    } else if c == 'a' {
        assert(NAME_CHARS@[1] == c);
    } else if c == 'z' {
        assert(NAME_CHARS@[2] == c);
    } else if c == 'w' {
        assert(NAME_CHARS@[3] == c);
    } else if c == 's' {
        assert(NAME_CHARS@[4] == c);
    } else if c == 'x' {
        assert(NAME_CHARS@[5] == c);
    } else if c == 'e' {
        assert(NAME_CHARS@[6] == c);
    } else if c == 'd' {
        assert(NAME_CHARS@[7] == c);
    } else if c == 'c' {
        assert(NAME_CHARS@[8] == c);
    } else if c == 'r' {
        assert(NAME_CHARS@[9] == c);
    } else if c == 'f' {
        assert(NAME_CHARS@[10] == c);
    } else if c == 'v' {
        assert(NAME_CHARS@[11] == c);
    } else if c == 't' {
        assert(NAME_CHARS@[12] == c);
    } else if c == 'g' {
        assert(NAME_CHARS@[13] == c);
    } else if c == 'b' {
        assert(NAME_CHARS@[14] == c);
    } else if c == 'y' {
        assert(NAME_CHARS@[15] == c);
    } else if c == 'h' {
        assert(NAME_CHARS@[16] == c);
    } else if c == 'n' {
        assert(NAME_CHARS@[17] == c);
    } else if c == 'u' {
        assert(NAME_CHARS@[18] == c);
    } else if c == 'j' {
        assert(NAME_CHARS@[19] == c);
    } else if c == 'm' {
        assert(NAME_CHARS@[20] == c);
    } else if c == 'i' {
        assert(NAME_CHARS@[21] == c);
    } else if c == 'k' {
        assert(NAME_CHARS@[22] == c);
    } else if c == 'o' {
        assert(NAME_CHARS@[23] == c);
    } else if c == 'l' {
        assert(NAME_CHARS@[24] == c);
    } else if c == 'p' {
        assert(NAME_CHARS@[25] == c);
    } else if c == 'Q' {
        assert(NAME_CHARS@[26] == c);
    } else if c == 'A' {
        assert(NAME_CHARS@[27] == c);
    } else if c == 'Z' {
        assert(NAME_CHARS@[28] == c);
    } else if c == 'W' {
        assert(NAME_CHARS@[29] == c);
    } else if c == 'S' {
        assert(NAME_CHARS@[30] == c);
    } else if c == 'X' {
        assert(NAME_CHARS@[31] == c);
    } else if c == 'E' {
        assert(NAME_CHARS@[32] == c);
    } else if c == 'D' {
        assert(NAME_CHARS@[33] == c);
    } else if c == 'C' {
        assert(NAME_CHARS@[34] == c);
    } else if c == 'R' {
        assert(NAME_CHARS@[35] == c);
    } else if c == 'F' {
        assert(NAME_CHARS@[36] == c);
    } else if c == 'V' {
        assert(NAME_CHARS@[37] == c);
    } else if c == 'T' {
        assert(NAME_CHARS@[38] == c);
    } else if c == 'G' {
        assert(NAME_CHARS@[39] == c);
    } else if c == 'B' {
        assert(NAME_CHARS@[40] == c);
    } else if c == 'Y' {
        assert(NAME_CHARS@[41] == c);
    } else if c == 'H' {
        assert(NAME_CHARS@[42] == c);
    } else if c == 'N' {
        assert(NAME_CHARS@[43] == c);
    } else if c == 'U' {
        assert(NAME_CHARS@[44] == c);
    } else if c == 'J' {
        assert(NAME_CHARS@[45] == c);
    } else if c == 'M' {
        assert(NAME_CHARS@[46] == c);
    } else if c == 'I' {
        assert(NAME_CHARS@[47] == c);
    } else if c == 'K' {
        assert(NAME_CHARS@[48] == c);
    } else if c == 'O' {
        assert(NAME_CHARS@[49] == c);
    } else if c == 'L' {
        assert(NAME_CHARS@[50] == c);
    } else if c == 'P' {
        assert(NAME_CHARS@[51] == c);
    } else if c == '1' {
        assert(NAME_CHARS@[52] == c);
    } else if c == '2' {
        assert(NAME_CHARS@[53] == c);
    } else if c == '3' {
        assert(NAME_CHARS@[54] == c);
    } else if c == '4' {
        assert(NAME_CHARS@[55] == c);
    } else if c == '5' {
        assert(NAME_CHARS@[56] == c);
    } else if c == '6' {
        assert(NAME_CHARS@[57] == c);
    } else if c == '7' {
        assert(NAME_CHARS@[58] == c);
    } else if c == '8' {
        assert(NAME_CHARS@[59] == c);
    } else if c == '9' {
        assert(NAME_CHARS@[60] == c);
    } else if c == '0' {
        assert(NAME_CHARS@[61] == c);
    } else if c == '_' {
        assert(NAME_CHARS@[62] == c);
    }
}

/// A user name may be made of exactly the ASCII letters, the ASCII digits and
/// the underscore.
pub proof fn lemma_name_chars_are_exactly_word_chars(c: char)
    ensures
        is_name_char(c) <==> is_word_char(c),
{
    if is_name_char(c) {
        lemma_name_chars_are_word_chars(c);
    }
    if is_word_char(c) {
        lemma_word_chars_are_name_chars(c);
    }
}

/// Completeness of validation: a user name of 3 to 20 characters, each an ASCII
/// letter, an ASCII digit or the underscore, with a password of 7 to 50 bytes,
/// is accepted whatever the email.
pub proof fn lemma_well_formed_credentials_accepted(name: Seq<char>, password: Seq<char>)
    requires
        3 <= name.len() <= 20,
        forall|i: int| 0 <= i < name.len() ==> is_word_char(#[trigger] name[i]),
        7 <= utf8_len(password) <= 50,
    ensures
        credentials_error(name, password) is None,
{
    assert forall|i: int| 0 <= i < name.len() implies is_name_char(#[trigger] name[i]) by {
        lemma_word_chars_are_name_chars(name[i]);
    }
    assert(vstd::utf8::is_ascii_chars(name));
    vstd::utf8::is_ascii_chars_encode_utf8(name);
}

/// A user name holding a character outside `NAME_CHARS` is refused for its
/// characters, whatever its length and whatever the password.
pub proof fn lemma_foreign_character_refused(name: Seq<char>, password: Seq<char>, i: int)
    requires
        0 <= i < name.len(),
        !is_name_char(name[i]),
    ensures
        credentials_error(name, password) == Some("Invalid characters in username"@),
{
}

/// A user name of `NAME_CHARS` only but shorter than 3 or longer than 20
/// characters is refused for its length, whatever the password.
pub proof fn lemma_bad_name_length_refused(name: Seq<char>, password: Seq<char>)
    requires
        forall|i: int| 0 <= i < name.len() ==> is_name_char(#[trigger] name[i]),
        name.len() < 3 || name.len() > 20,
    ensures
        credentials_error(name, password) == Some("Username length too short or too large"@),
{
    assert forall|i: int| 0 <= i < name.len() implies is_word_char(#[trigger] name[i]) by {
        lemma_name_chars_are_word_chars(name[i]);
    }
    assert(vstd::utf8::is_ascii_chars(name));
    vstd::utf8::is_ascii_chars_encode_utf8(name);
}

/// A well-formed user name with a password shorter than 7 or longer than 50
/// bytes is refused for the password.
pub proof fn lemma_bad_password_length_refused(name: Seq<char>, password: Seq<char>)
    requires
        3 <= name.len() <= 20,
        forall|i: int| 0 <= i < name.len() ==> is_name_char(#[trigger] name[i]),
        utf8_len(password) < 7 || utf8_len(password) > 50,
    ensures
        credentials_error(name, password) == Some("Password length too short or too large"@),
{
    assert forall|i: int| 0 <= i < name.len() implies is_word_char(#[trigger] name[i]) by {
        lemma_name_chars_are_word_chars(name[i]);
    }
    assert(vstd::utf8::is_ascii_chars(name));
    vstd::utf8::is_ascii_chars_encode_utf8(name);
}

fn is_allowed_name_char(c: char) -> (r: bool)
    ensures
        r == is_name_char(c),
{
    let allowed: &str = NAME_CHARS;
    for d in it: allowed.chars()
        invariant
            it.seq() == allowed@,
            allowed@ == NAME_CHARS@,
            forall|j: int| 0 <= j < it.index() ==> allowed@[j] != c,
    {
        if d == c {
            assert(allowed@[it.index() as int] == c);
            return true;
        }
    }
    false
}

/// Checks the data a user registers with: the name must consist of
/// `NAME_CHARS` only and be 3 to 20 bytes long, the password must be 7 to 50
/// bytes long. The email address is not checked.
pub fn validate_credentials_data(name: &str, email: &str, password: &str) -> (r: Result<(), String>)
    ensures
        match credentials_error(name@, password@) {
            Some(msg) => r matches Err(e) && e@ == msg,
            None => r is Ok,
        },
{
    for c in it: name.chars()
        invariant
            it.seq() == name@,
            forall|j: int| 0 <= j < it.index() ==> is_name_char(#[trigger] name@[j]),
    {
        if !is_allowed_name_char(c) {
            assert(name@[it.index() as int] == c);
            return Err("Invalid characters in username".to_owned());
        }
    }
    let name_len: usize = name.as_bytes().len();
    if name_len < 3 || name_len > 20 {
        return Err("Username length too short or too large".to_owned());
    }
    let password_len: usize = password.as_bytes().len();
    if password_len < 7 || password_len > 50 {
        return Err("Password length too short or too large".to_owned());
    }
    Ok(())
}

/// Number of characters in the random key that ties an access token to its key token.
pub const TOKEN_KEY_LEN: usize = 20;

/// Number of days a token pair stays valid.
pub const TOKEN_LIFETIME_DAYS: i64 = 30;

/// The pair of signed tokens a client holds: the access token (carrying the
/// user name and the random key) and the key token (carrying the key only).
pub struct Tokens {
    pub access: String,
    pub key: String,
}

/// `Tokens` as a mathematical value.
pub struct TokensView {
    pub access: Seq<char>,
    pub key: Seq<char>,
}

impl View for Tokens {
    type V = TokensView;

    open spec fn view(&self) -> TokensView {
        TokensView { access: self.access@, key: self.key@ }
    }
}

impl Default for Tokens {
    fn default() -> (t: Self)
        ensures
            t.access@ == Seq::<char>::empty(),
            t.key@ == Seq::<char>::empty(),
    {
        Tokens { access: String::new(), key: String::new() }
    }
}

/// What the access token carries.
#[derive(Debug)]
pub struct AccessClaims {
    pub name: String,
    pub key: String,
    pub exp: usize,
}

/// What the key token carries.
pub struct KeyClaims {
    pub key: String,
    pub exp: usize,
}

/// The identity a valid token pair stands for.
#[derive(Debug)]
pub struct Info {
    pub name: String,
}

/// The result of checking a token pair.
pub enum Auth {
    Valid { info: Info },
    Invalid(String),
}

/// The two secrets tokens are signed with: one for access tokens, one for key tokens.
#[derive(Clone)]
pub struct Object {
    pub access: String,
    pub key: String,
}

/// `Auth` as a mathematical value.
pub enum AuthView {
    Valid { name: Seq<char> },
    Invalid { message: Seq<char> },
}

impl View for Auth {
    type V = AuthView;

    open spec fn view(&self) -> AuthView {
        match self {
            Auth::Valid { info } => AuthView::Valid { name: info.name@ },
            Auth::Invalid(message) => AuthView::Invalid { message: message@ },
        }
    }
}

/// Whether `c` is an ASCII letter or digit.
pub open spec fn is_ascii_alphanumeric(c: char) -> bool {
    ||| ('A' <= c && c <= 'Z')
    ||| ('a' <= c && c <= 'z')
    ||| ('0' <= c && c <= '9')
}

/// Whether `key` has the shape of a token key.
pub open spec fn is_token_key(key: Seq<char>) -> bool {
    &&& key.len() == TOKEN_KEY_LEN
    &&& forall|i: int| 0 <= i < key.len() ==> is_ascii_alphanumeric(#[trigger] key[i])
}

/// The decision on a token pair, given what decoding each token gave.
pub open spec fn auth_decision(
    access: Result<AccessClaims, String>,
    key: Result<KeyClaims, String>,
) -> AuthView {
    match access {
        Err(e) => AuthView::Invalid { message: e@ },
        Ok(a) => match key {
            Err(e) => AuthView::Invalid { message: e@ },
            Ok(k) => if k.key@ == a.key@ {
                AuthView::Valid { name: a.name@ }
            } else {
                AuthView::Invalid { message: "Keys don't match"@ }
            },
        },
    }
}

/// What `pwhash::bcrypt::verify` answers for a password and a stored hash.
pub uninterp spec fn bcrypt_verifies(password: Seq<char>, hash: Seq<char>) -> bool;

/// Whether `c` can occur in a bcrypt hash: `$`, `.`, `/`, an ASCII letter or
/// an ASCII digit.
pub open spec fn is_bcrypt_char(c: char) -> bool {
    c == '$' || c == '.' || c == '/' || is_ascii_alphanumeric(c)
}

/// Whether every character of `s` can occur in a bcrypt hash.
pub open spec fn is_bcrypt_text(s: Seq<char>) -> bool {
    forall|i: int| 0 <= i < s.len() ==> is_bcrypt_char(#[trigger] s[i])
}

fn bcrypt_char(c: char) -> (r: bool)
    ensures
        r == is_bcrypt_char(c),
{
    c == '$' || c == '.' || c == '/' || ('A' <= c && c <= 'Z') || ('a' <= c && c <= 'z') || (
    '0' <= c && c <= '9')
}

/// Calls `pwhash::bcrypt::hash`, which salts with 16 bytes from the OS random
/// source, uses cost 10 and variant 2b. Claimed of it: the call never returns an
/// error (its source formats the hash unconditionally), and
/// `pwhash::bcrypt::verify` accepts `password` against the hash it returns
/// (verify reads salt, cost and variant back from the hash and runs bcrypt again).
/// The hash consists of `$`, the variant and cost digits, and characters of
/// pwhash's base-64 alphabet `./A-Za-z0-9`. Which hash comes back depends on the
/// random salt and is left open.
#[verifier::external_body]
fn bcrypt_hash(password: &str) -> (r: Result<String, String>)
    ensures
        r is Ok,
        r matches Ok(h) ==> bcrypt_verifies(password@, h@) && is_bcrypt_text(h@),
{
    match pwhash::bcrypt::hash(password) {
        Ok(h) => Ok(h),
        Err(e) => Err(e.to_string()),
    }
}

/// Calls `pwhash::bcrypt::verify`. Its answer is named `bcrypt_verifies`.
/// Restricted to hashes made of the characters a bcrypt hash can hold: the
/// decoder of the source subtracts 0x20 from each salt character, which
/// overflows below the space character, and indexes a 96-entry table, which
/// U+0080 overruns.
#[verifier::external_body]
fn bcrypt_verify(password: &str, hash: &str) -> (r: bool)
    requires
        is_bcrypt_text(hash@),
    ensures
        r == bcrypt_verifies(password@, hash@),
{
    pwhash::bcrypt::verify(password, hash)
}

/// Calls `rand::Rng::sample` with `rand::distributions::Alphanumeric` on the
/// thread-local generator and turns the byte into a one-character string.
/// Claimed: the character is an ASCII letter or digit, as the distribution's
/// documentation and source say. Which one is left to chance.
#[verifier::external_body]
fn random_alphanumeric() -> (s: String)
    ensures
        s@.len() == 1,
        is_ascii_alphanumeric(s@[0]),
{
    (rand::thread_rng().sample(rand::distributions::Alphanumeric) as char).to_string()
}

/// Calls `chrono::Utc::now` and returns its UNIX timestamp in seconds. Nothing
/// is claimed of the value: it is the clock's.
#[verifier::external_body]
fn utc_now_timestamp() -> (now: i64) {
    chrono::Utc::now().timestamp()
}

/// What chrono answers for the UNIX timestamp `days` days after `now`.
pub uninterp spec fn utc_timestamp_after_days(now: i64, days: i64) -> Option<i64>;

/// Calls `chrono::DateTime::from_timestamp(now, 0)`, adds
/// `chrono::Duration::days(days)` with `checked_add_signed` and returns the
/// UNIX timestamp of the sum; `None` where either date lies outside chrono's
/// range. Claimed: a result is `now` plus `days` times 86400 seconds (chrono
/// counts non-leap seconds), and there is one whenever both moments lie within
/// 8 * 10^12 seconds of 1970, well inside chrono's years -262143 to 262142.
/// `Duration::days` panics outside the bounds required here.
#[verifier::external_body]
fn timestamp_after_days(now: i64, days: i64) -> (r: Option<i64>)
    requires
        -106_751_991_167 <= days <= 106_751_991_167,
    ensures
        r == utc_timestamp_after_days(now, days),
        r matches Some(t) ==> t == now + days * 86400,
        (-8_000_000_000_000 <= now <= 8_000_000_000_000 && -8_000_000_000_000 <= now + days * 86400
            <= 8_000_000_000_000) ==> r is Some,
{
    match chrono::DateTime::from_timestamp(now, 0) {
        Some(start) => match start.checked_add_signed(chrono::Duration::days(days)) {
            Some(end) => Some(end.timestamp()),
            None => None,
        },
        None => None,
    }
}

/// Hashes a password for storage, with a fresh random salt.
pub fn hash_password(password: &str) -> (r: Result<String, String>)
    ensures
        r is Ok,
        r matches Ok(h) ==> bcrypt_verifies(password@, h@) && is_bcrypt_text(h@),
{
    bcrypt_hash(password)
}

/// Checks a password against a stored hash. A hash holding a character that no
/// bcrypt hash holds never matches (every hash bcrypt computes is made of such
/// characters only).
pub fn compare_password(password: &str, hash: &str) -> (r: bool)
    ensures
        r == (is_bcrypt_text(hash@) && bcrypt_verifies(password@, hash@)),
{
    for c in it: hash.chars()
        invariant
            it.seq() == hash@,
            forall|j: int| 0 <= j < it.index() ==> is_bcrypt_char(#[trigger] hash@[j]),
    {
        if !bcrypt_char(c) {
            assert(hash@[it.index() as int] == c);
            return false;
        }
    }
    bcrypt_verify(password, hash)
}

/// Draws a fresh random token key: `TOKEN_KEY_LEN` ASCII letters and digits.
pub fn generate_key() -> (key: String)
    ensures
        is_token_key(key@),
{
    let mut draws: Vec<String> = Vec::new();
    let mut n: usize = 0;
    while n < TOKEN_KEY_LEN
        invariant
            n <= TOKEN_KEY_LEN,
            draws@.len() == n,
            draws_view(draws@).flatten().len() == n,
            forall|i: int|
                0 <= i < draws_view(draws@).flatten().len() ==> is_ascii_alphanumeric(
                    #[trigger] draws_view(draws@).flatten()[i],
                ),
        decreases TOKEN_KEY_LEN - n,
    {
        let c = random_alphanumeric();
        let ghost before = draws@;
        draws.push(c);
        proof {
            assert(draws_view(draws@) =~= draws_view(before).push(draws@[n as int]@));
            draws_view(before).lemma_flatten_push(draws@[n as int]@);
        }
        n = n + 1;
    }
    key_from_draws(&draws)
}

/// The drawn strings, each taken by its view.
pub open spec fn draws_view(draws: Seq<String>) -> Seq<Seq<char>> {
    draws.map_values(|d: String| d@)
}

/// Joins drawn strings into a key, in the order they were drawn.
pub fn key_from_draws(draws: &Vec<String>) -> (key: String)
    ensures
        key@ == draws_view(draws@).flatten(),
{
    let mut key = String::new();
    let mut i: usize = 0;
    assert(draws_view(draws@).take(0) =~= Seq::<Seq<char>>::empty());
    while i < draws.len()
        invariant
            i <= draws@.len(),
            key@ == draws_view(draws@).take(i as int).flatten(),
        decreases draws@.len() - i,
    {
        proof {
            assert(draws_view(draws@).take(i + 1) =~= draws_view(draws@).take(i as int).push(
                draws@[i as int]@,
            ));
            draws_view(draws@).take(i as int).lemma_flatten_push(draws@[i as int]@);
        }
        key.append(draws[i].as_str());
        i = i + 1;
    }
    assert(draws_view(draws@).take(draws@.len() as int) =~= draws_view(draws@));
    key
}

/// Builds the claims of a token pair for `info`: both carry `key` and `exp`,
/// the access claims carry the name as well.
pub fn claims_for(info: Info, key: String, exp: usize) -> (r: (AccessClaims, KeyClaims))
    ensures
        r.0.name@ == info.name@,
        r.0.key@ == key@,
        r.0.exp == exp,
        r.1.key@ == key@,
        r.1.exp == exp,
{
    let access = AccessClaims { name: info.name, key: key.clone(), exp };
    let key_claims = KeyClaims { key, exp };
    (access, key_claims)
}

/// The expiry of a token pair issued at `now`: `TOKEN_LIFETIME_DAYS` days
/// later, as a UNIX timestamp.
pub open spec fn expiry_after(now: i64) -> int {
    now + TOKEN_LIFETIME_DAYS * 86400
}

/// Makes the claims of a fresh token pair for `info`, issued at the UNIX
/// timestamp `now`: a freshly drawn key, and an expiry `TOKEN_LIFETIME_DAYS`
/// days after `now` (converted to `usize` as the claims hold it). Fails, with the
/// message "valid timestamp", exactly where the calendar library cannot represent
/// that moment.
pub fn claims_expiring(info: Info, now: i64) -> (r: Result<(AccessClaims, KeyClaims), String>)
    ensures
        r is Ok <==> utc_timestamp_after_days(now, TOKEN_LIFETIME_DAYS) is Some,
        (-8_000_000_000_000 <= now && expiry_after(now) <= 8_000_000_000_000) ==> r is Ok,
        r matches Ok(c) ==> {
            &&& c.0.name@ == info.name@
            &&& c.0.key@ == c.1.key@
            &&& c.0.exp == c.1.exp
            &&& c.0.exp == expiry_after(now) as usize
            &&& is_token_key(c.0.key@)
        },
        r matches Err(e) ==> e@ == "valid timestamp"@,
{
    let exp: usize = match timestamp_after_days(now, TOKEN_LIFETIME_DAYS) {
        Some(t) => t as usize,
        None => {
            return Err("valid timestamp".to_owned());
        },
    };
    let key = generate_key();
    Ok(claims_for(info, key, exp))
}

/// Reads the clock and makes the claims of a fresh token pair for `info`,
/// expiring `TOKEN_LIFETIME_DAYS` days from now.
pub fn issue_claims(info: Info) -> (r: Result<(AccessClaims, KeyClaims), String>)
    ensures
        r matches Ok(c) ==> {
            &&& c.0.name@ == info.name@
            &&& c.0.key@ == c.1.key@
            &&& c.0.exp == c.1.exp
            &&& is_token_key(c.0.key@)
        },
        r matches Err(e) ==> e@ == "valid timestamp"@,
{
    let now: i64 = utc_now_timestamp();
    claims_expiring(info, now)
}

impl Auth {
    /// Decides on a token pair from what decoding its two tokens gave: a
    /// decoding error makes the pair invalid with that error's message; two
    /// decoded tokens whose keys differ are invalid with "Keys don't match";
    /// otherwise the pair is valid for the name in the access token.
    pub fn from(access: Result<AccessClaims, String>, key: Result<KeyClaims, String>) -> (r: Auth)
        ensures
            r@ == auth_decision(access, key),
    {
        let access_claims = match access {
            Ok(claims) => claims,
            Err(error) => {
                return Auth::Invalid(error);
            },
        };
        let key_claims = match key {
            Ok(claims) => claims,
            Err(error) => {
                return Auth::Invalid(error);
            },
        };
        if !(key_claims.key == access_claims.key) {
            return Auth::Invalid("Keys don't match".to_owned());
        }
        Auth::Valid { info: Info { name: access_claims.name } }
    }
}

/// A token pair whose two tokens carry the same key is accepted, for the name
/// in the access token.
pub proof fn lemma_matching_keys_authenticate(access: AccessClaims, key: KeyClaims)
    requires
        access.key@ == key.key@,
    ensures
        auth_decision(Ok(access), Ok(key)) == (AuthView::Valid { name: access.name@ }),
{
}

/// A token pair whose two tokens carry different keys is refused, whatever else
/// they carry.
pub proof fn lemma_mismatched_keys_rejected(access: AccessClaims, key: KeyClaims)
    requires
        access.key@ != key.key@,
    ensures
        auth_decision(Ok(access), Ok(key)) == (AuthView::Invalid { message: "Keys don't match"@ }),
{
}

/// A token that fails to decode makes the pair invalid with that failure's
/// message, the access token's failure first.
pub proof fn lemma_decoding_failures_reported(
    access: Result<AccessClaims, String>,
    key: Result<KeyClaims, String>,
)
    ensures
        access matches Err(e) ==> auth_decision(access, key) == (AuthView::Invalid { message: e@ }),
        (access is Ok && key is Err) ==> auth_decision(access, key) == (AuthView::Invalid {
            message: key->Err_0@,
        }),
{
}

/// The claims made for one identity and one key form a pair that is accepted
/// for that identity's name.
pub proof fn lemma_issued_claims_authenticate(
    info: Info,
    key: Seq<char>,
    exp: usize,
    claims: (AccessClaims, KeyClaims),
)
    requires
        claims.0.name@ == info.name@,
        claims.0.key@ == key,
        claims.0.exp == exp,
        claims.1.key@ == key,
        claims.1.exp == exp,
    ensures
        auth_decision(Ok(claims.0), Ok(claims.1)) == (AuthView::Valid { name: info.name@ }),
{
}

/// Token pairs expire thirty days after issue, and their key has twenty
/// characters.
pub proof fn lemma_token_constants(now: i64)
    ensures
        TOKEN_LIFETIME_DAYS == 30,
        expiry_after(now) == now + 2_592_000,
        TOKEN_KEY_LEN == 20,
{
}

/// The mathematical values of tokens and of a decision carry the strings they
/// hold.
pub proof fn lemma_auth_views(t: Tokens, a: Auth)
    ensures
        t@.access == t.access@ && t@.key == t.key@,
        a matches Auth::Valid { info } ==> a@ == (AuthView::Valid { name: info.name@ }),
        a matches Auth::Invalid(m) ==> a@ == (AuthView::Invalid { message: m@ }),
{
}

} // verus!
