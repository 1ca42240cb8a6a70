use crate::domain::auth::{
    bcrypt_verifies, compare_password, credentials_error, is_bcrypt_text, hash_password,
    validate_credentials_data, Info, Tokens, TokensView,
};
use crate::db_pool::users::{CredentialUniqueness, User as DbUser, UserView};
use vstd::prelude::*;

verus! {

/// Why a registration was refused.
pub enum RegisterError {
    NameTaken,
    EmailTaken,
    InvalidData(String),
    Internal(String),
}

/// `RegisterError` as a mathematical value.
pub enum RegisterErrorView {
    NameTaken,
    EmailTaken,
    InvalidData(Seq<char>),
    Internal(Seq<char>),
}

impl View for RegisterError {
    type V = RegisterErrorView;

    open spec fn view(&self) -> RegisterErrorView {
        match self {
            RegisterError::NameTaken => RegisterErrorView::NameTaken,
            RegisterError::EmailTaken => RegisterErrorView::EmailTaken,
            RegisterError::InvalidData(m) => RegisterErrorView::InvalidData(m@),
            RegisterError::Internal(m) => RegisterErrorView::Internal(m@),
        }
    }
}

/// The text a registration error is shown as.
pub open spec fn register_error_message(e: RegisterErrorView) -> Seq<char> {
    match e {
        RegisterErrorView::EmailTaken => "Email is already taken"@,
        RegisterErrorView::NameTaken => "Name is already taken"@,
        RegisterErrorView::InvalidData(m) => "Invalid Data: "@ + m,
        RegisterErrorView::Internal(m) => "Internal Error: "@ + m,
    }
}

impl RegisterError {
    /// The text this error is shown as.
    pub fn message(&self) -> (s: String)
        ensures
            s@ == register_error_message(self@),
    {
        match self {
            RegisterError::EmailTaken => "Email is already taken".to_owned(),
            RegisterError::NameTaken => "Name is already taken".to_owned(),
            RegisterError::InvalidData(m) => {
                let mut s = "Invalid Data: ".to_owned();
                s.append(m.as_str());
                s
            },
            RegisterError::Internal(m) => {
                let mut s = "Internal Error: ".to_owned();
                s.append(m.as_str());
                s
            },
        }
    }
}

/// Where a registration stands.
pub enum RegisterStage {
    /// Waiting for the token pair of the new user.
    IssuingTokens,
    /// Waiting to learn whether name and email are free.
    CheckingUniqueness { tokens: Tokens },
    /// Waiting for the database to store the new user.
    CreatingUser { tokens: Tokens },
    /// Nothing more to do.
    Finished,
}

/// A registration in progress: what the user sent, and how far it got.
pub struct Registration {
    pub name: String,
    pub email: String,
    pub password: String,
    pub stage: RegisterStage,
}

/// What a registration asks to be done next.
pub enum RegisterAction {
    /// Issue a token pair for this identity.
    IssueTokens(Info),
    /// Ask the database whether name and email are free.
    CheckUniqueness { name: String, email: String },
    /// Store the user with this password hash.
    CreateUser { name: String, email: String, password_hash: String },
    /// Answer the client.
    Finish(Result<Tokens, RegisterError>),
}

/// What was done about the last action.
pub enum RegisterEvent {
    TokensIssued(Result<Tokens, String>),
    UniquenessChecked(Result<CredentialUniqueness, String>),
    UserCreated(Result<(), String>),
}

/// `RegisterStage` as a mathematical value.
pub enum RegisterStageView {
    IssuingTokens,
    CheckingUniqueness(TokensView),
    CreatingUser(TokensView),
    Finished,
}

/// `Registration` as a mathematical value.
pub struct RegistrationView {
    pub name: Seq<char>,
    pub email: Seq<char>,
    pub password: Seq<char>,
    pub stage: RegisterStageView,
}

/// `RegisterAction` as a mathematical value.
pub enum RegisterActionView {
    IssueTokens { name: Seq<char> },
    CheckUniqueness { name: Seq<char>, email: Seq<char> },
    CreateUser { name: Seq<char>, email: Seq<char>, password_hash: Seq<char> },
    Finish(Result<TokensView, RegisterErrorView>),
}

/// `RegisterEvent` as a mathematical value.
pub enum RegisterEventView {
    TokensIssued(Result<TokensView, Seq<char>>),
    UniquenessChecked(Result<CredentialUniqueness, Seq<char>>),
    UserCreated(Result<(), Seq<char>>),
}

impl View for RegisterStage {
    type V = RegisterStageView;

    open spec fn view(&self) -> RegisterStageView {
        match self {
            RegisterStage::IssuingTokens => RegisterStageView::IssuingTokens,
            RegisterStage::CheckingUniqueness { tokens } => RegisterStageView::CheckingUniqueness(tokens@),
            RegisterStage::CreatingUser { tokens } => RegisterStageView::CreatingUser(tokens@),
            RegisterStage::Finished => RegisterStageView::Finished,
        }
    }
}

impl View for Registration {
    type V = RegistrationView;

    open spec fn view(&self) -> RegistrationView {
        RegistrationView {
            name: self.name@,
            email: self.email@,
            password: self.password@,
            stage: self.stage@,
        }
    }
}

impl View for RegisterAction {
    type V = RegisterActionView;

    open spec fn view(&self) -> RegisterActionView {
        match self {
            RegisterAction::IssueTokens(info) => RegisterActionView::IssueTokens { name: info.name@ },
            RegisterAction::CheckUniqueness { name, email } => RegisterActionView::CheckUniqueness {
                name: name@,
                email: email@,
            },
            RegisterAction::CreateUser { name, email, password_hash } => RegisterActionView::CreateUser {
                name: name@,
                email: email@,
                password_hash: password_hash@,
            },
            RegisterAction::Finish(Ok(t)) => RegisterActionView::Finish(Ok(t@)),
            RegisterAction::Finish(Err(e)) => RegisterActionView::Finish(Err(e@)),
        }
    }
}

impl View for RegisterEvent {
    type V = RegisterEventView;

    open spec fn view(&self) -> RegisterEventView {
        match self {
            RegisterEvent::TokensIssued(Ok(t)) => RegisterEventView::TokensIssued(Ok(t@)),
            RegisterEvent::TokensIssued(Err(e)) => RegisterEventView::TokensIssued(Err(e@)),
            RegisterEvent::UniquenessChecked(Ok(u)) => RegisterEventView::UniquenessChecked(Ok(*u)),
            RegisterEvent::UniquenessChecked(Err(e)) => RegisterEventView::UniquenessChecked(Err(e@)),
            RegisterEvent::UserCreated(Ok(())) => RegisterEventView::UserCreated(Ok(())),
            RegisterEvent::UserCreated(Err(e)) => RegisterEventView::UserCreated(Err(e@)),
        }
    }
}

/// Where a registration starts: refused with the validation message when the
/// data are invalid, otherwise waiting for a token pair for the name.
pub open spec fn register_start(name: Seq<char>, email: Seq<char>, password: Seq<char>) -> (
    RegistrationView,
    RegisterActionView,
) {
    match credentials_error(name, password) {
        Some(m) => (
            RegistrationView { name, email, password, stage: RegisterStageView::Finished },
            RegisterActionView::Finish(Err(RegisterErrorView::InvalidData(m))),
        ),
        None => (
            RegistrationView { name, email, password, stage: RegisterStageView::IssuingTokens },
            RegisterActionView::IssueTokens { name },
        ),
    }
}

/// Whether `event` answers the action a registration in `stage` is waiting for.
pub open spec fn event_fits(stage: RegisterStageView, event: RegisterEventView) -> bool {
    match (stage, event) {
        (RegisterStageView::IssuingTokens, RegisterEventView::TokensIssued(_)) => true,
        (RegisterStageView::CheckingUniqueness(_), RegisterEventView::UniquenessChecked(_)) => true,
        (RegisterStageView::CreatingUser(_), RegisterEventView::UserCreated(_)) => true,
        _ => false,
    }
}

/// The step a registration takes on an event. Every failure of an outside step
/// is reported as an internal error with its message; a taken name is reported
/// before a taken email; when both are free the password is hashed and the user
/// stored; once stored, the client gets the token pair issued at the start.
pub open spec fn register_step(
    reg: RegistrationView,
    event: RegisterEventView,
    next: RegistrationView,
    action: RegisterActionView,
) -> bool {
    let finished = RegistrationView { stage: RegisterStageView::Finished, ..reg };
    match (reg.stage, event) {
        (RegisterStageView::IssuingTokens, RegisterEventView::TokensIssued(Err(e))) => next == finished
            && action == RegisterActionView::Finish(Err(RegisterErrorView::Internal(e))),
        (RegisterStageView::IssuingTokens, RegisterEventView::TokensIssued(Ok(t))) => next == (
        RegistrationView { stage: RegisterStageView::CheckingUniqueness(t), ..reg })
            && action == (RegisterActionView::CheckUniqueness { name: reg.name, email: reg.email }),
        (RegisterStageView::CheckingUniqueness(_), RegisterEventView::UniquenessChecked(Err(e))) =>
            next == finished && action == RegisterActionView::Finish(
            Err(RegisterErrorView::Internal(e)),
        ),
        (RegisterStageView::CheckingUniqueness(t), RegisterEventView::UniquenessChecked(Ok(u))) => {
            if !u.name {
                next == finished && action == RegisterActionView::Finish(
                    Err(RegisterErrorView::NameTaken),
                )
            } else if !u.email {
                next == finished && action == RegisterActionView::Finish(
                    Err(RegisterErrorView::EmailTaken),
                )
            } else {
                &&& next == (RegistrationView { stage: RegisterStageView::CreatingUser(t), ..reg })
                &&& action matches RegisterActionView::CreateUser { name, email, password_hash }
                &&& name == reg.name
                &&& email == reg.email
                &&& bcrypt_verifies(reg.password, password_hash)
                &&& is_bcrypt_text(password_hash)
            }
        },
        (RegisterStageView::CreatingUser(_), RegisterEventView::UserCreated(Err(e))) => next == finished
            && action == RegisterActionView::Finish(Err(RegisterErrorView::Internal(e))),
        (RegisterStageView::CreatingUser(t), RegisterEventView::UserCreated(Ok(()))) => next
            == finished && action == RegisterActionView::Finish(Ok(t)),
        _ => false,
    }
}

impl Registration {
    /// Starts registering `name` with `email` and `password`: validates the data
    /// and asks for a token pair, or refuses.
    pub fn start(name: &str, email: &str, password: &str) -> (r: (Registration, RegisterAction))
        ensures
            (r.0@, r.1@) == register_start(name@, email@, password@),
    {
        match validate_credentials_data(name, email, password) {
            Err(message) => (
                Registration {
                    name: name.to_owned(),
                    email: email.to_owned(),
                    password: password.to_owned(),
                    stage: RegisterStage::Finished,
                },
                RegisterAction::Finish(Err(RegisterError::InvalidData(message))),
            ),
            Ok(()) => (
                Registration {
                    name: name.to_owned(),
                    email: email.to_owned(),
                    password: password.to_owned(),
                    stage: RegisterStage::IssuingTokens,
                },
                RegisterAction::IssueTokens(Info { name: name.to_owned() }),
            ),
        }
    }

    /// Takes the step the event calls for.
    pub fn advance(self, event: RegisterEvent) -> (r: (Registration, RegisterAction))
        requires
            event_fits(self@.stage, event@),
        ensures
            register_step(self@, event@, r.0@, r.1@),
    {
        let Registration { name, email, password, stage } = self;
        match (stage, event) {
            (RegisterStage::IssuingTokens, RegisterEvent::TokensIssued(Err(e))) => (
                Registration { name, email, password, stage: RegisterStage::Finished },
                RegisterAction::Finish(Err(RegisterError::Internal(e))),
            ),
            (RegisterStage::IssuingTokens, RegisterEvent::TokensIssued(Ok(tokens))) => {
                let action = RegisterAction::CheckUniqueness { name: name.clone(), email: email.clone() };
                (
                    Registration {
                        name,
                        email,
                        password,
                        stage: RegisterStage::CheckingUniqueness { tokens },
                    },
                    action,
                )
            },
            (RegisterStage::CheckingUniqueness { tokens }, RegisterEvent::UniquenessChecked(Err(e))) => (
                Registration { name, email, password, stage: RegisterStage::Finished },
                RegisterAction::Finish(Err(RegisterError::Internal(e))),
            ),
            (RegisterStage::CheckingUniqueness { tokens }, RegisterEvent::UniquenessChecked(Ok(u))) => {
                if !u.name {
                    return (
                        Registration { name, email, password, stage: RegisterStage::Finished },
                        RegisterAction::Finish(Err(RegisterError::NameTaken)),
                    );
                }
                if !u.email {
                    return (
                        Registration { name, email, password, stage: RegisterStage::Finished },
                        RegisterAction::Finish(Err(RegisterError::EmailTaken)),
                    );
                }
                match hash_password(password.as_str()) {
                    Err(e) => (
                        Registration { name, email, password, stage: RegisterStage::Finished },
                        RegisterAction::Finish(Err(RegisterError::Internal(e))),
                    ),
                    Ok(password_hash) => {
                        let action = RegisterAction::CreateUser {
                            name: name.clone(),
                            email: email.clone(),
                            password_hash,
                        };
                        (
                            Registration {
                                name,
                                email,
                                password,
                                stage: RegisterStage::CreatingUser { tokens },
                            },
                            action,
                        )
                    },
                }
            },
            (RegisterStage::CreatingUser { tokens }, RegisterEvent::UserCreated(Err(e))) => (
                Registration { name, email, password, stage: RegisterStage::Finished },
                RegisterAction::Finish(Err(RegisterError::Internal(e))),
            ),
            (RegisterStage::CreatingUser { tokens }, RegisterEvent::UserCreated(Ok(()))) => (
                Registration { name, email, password, stage: RegisterStage::Finished },
                RegisterAction::Finish(Ok(tokens)),
            ),
            (_, _) => {
                proof {
                    assert(false);
                }
                (
                    Registration { name, email, password, stage: RegisterStage::Finished },
                    RegisterAction::Finish(Err(RegisterError::Internal(String::new()))),
                )
            },
        }
    }
}

/// What every registration that is not finished holds: its data passed
/// validation.
pub open spec fn registration_inv(reg: RegistrationView) -> bool {
    !(reg.stage is Finished) ==> credentials_error(reg.name, reg.password) is None
}

/// A registration starts in a state that holds the invariant.
pub proof fn lemma_start_establishes_inv(name: Seq<char>, email: Seq<char>, password: Seq<char>)
    ensures
        registration_inv(register_start(name, email, password).0),
{
}

/// Every step keeps the invariant: name, email and password never change.
pub proof fn lemma_step_preserves_inv(
    reg: RegistrationView,
    event: RegisterEventView,
    next: RegistrationView,
    action: RegisterActionView,
)
    requires
        registration_inv(reg),
        register_step(reg, event, next, action),
    ensures
        registration_inv(next),
        next.name == reg.name,
        next.email == reg.email,
        next.password == reg.password,
{
}

/// Invalid data are refused at once, with the validation message, and nothing
/// is asked of the database.
pub proof fn lemma_invalid_data_refused(name: Seq<char>, email: Seq<char>, password: Seq<char>)
    requires
        credentials_error(name, password) is Some,
    ensures
        register_start(name, email, password).1 == RegisterActionView::Finish(
            Err(RegisterErrorView::InvalidData(credentials_error(name, password)->0)),
        ),
        register_start(name, email, password).0.stage is Finished,
{
}

/// A user is stored only when the database reported both the name and the email
/// free, only for data that passed validation, and only with a hash that is
/// accepted for the password.
pub proof fn lemma_user_stored_only_when_free(
    reg: RegistrationView,
    event: RegisterEventView,
    next: RegistrationView,
    action: RegisterActionView,
)
    requires
        registration_inv(reg),
        register_step(reg, event, next, action),
        action is CreateUser,
    ensures
        event matches RegisterEventView::UniquenessChecked(Ok(u)) && u.name && u.email,
        credentials_error(reg.name, reg.password) is None,
        action->CreateUser_name == reg.name,
        action->CreateUser_email == reg.email,
        is_bcrypt_text(action->CreateUser_password_hash) && bcrypt_verifies(
            reg.password,
            action->CreateUser_password_hash,
        ),
{
}

/// A registration succeeds only on the database's confirmation that the user was
/// stored, and the client then gets the token pair the registration was waiting
/// with.
pub proof fn lemma_success_only_after_storing(
    reg: RegistrationView,
    event: RegisterEventView,
    next: RegistrationView,
    tokens: TokensView,
)
    requires
        register_step(reg, event, next, RegisterActionView::Finish(Ok(tokens))),
    ensures
        reg.stage == RegisterStageView::CreatingUser(tokens),
        event matches RegisterEventView::UserCreated(Ok(_)),
        next.stage is Finished,
{
}

/// A taken name is reported before a taken email.
pub proof fn lemma_taken_name_reported_first(
    reg: RegistrationView,
    u: CredentialUniqueness,
    next: RegistrationView,
    action: RegisterActionView,
)
    requires
        register_step(reg, RegisterEventView::UniquenessChecked(Ok(u)), next, action),
        !u.name,
    ensures
        action == RegisterActionView::Finish(Err(RegisterErrorView::NameTaken)),
{
}

/// A finished registration waits for nothing.
pub proof fn lemma_finished_takes_no_event(reg: RegistrationView, event: RegisterEventView)
    requires
        reg.stage is Finished,
    ensures
        !event_fits(reg.stage, event),
{
}

/// What a login attempt decides once the user record has been looked up: a
/// failed lookup is reported as is; a password the stored hash does not accept
/// gives "Invalid credentials"; otherwise the identity to issue tokens for, under
/// the name the client logged in with.
pub open spec fn login_outcome(name: Seq<char>, password: Seq<char>, user: Result<UserView, Seq<char>>) -> Result<Seq<char>, Seq<char>> {
    match user {
        Err(e) => Err(e),
        Ok(u) => if is_bcrypt_text(u.password_hash) && bcrypt_verifies(password, u.password_hash) {
            Ok(name)
        } else {
            Err("Invalid credentials"@)
        },
    }
}

/// Decides a login attempt from the looked-up user record.
pub fn login_check(name: &str, password: &str, user: Result<DbUser, String>) -> (r: Result<Info, String>)
    ensures
        match r {
            Ok(info) => login_outcome(name@, password@, crate::db_pool::users::user_result_view(user))
                == Ok::<Seq<char>, Seq<char>>(info.name@),
            Err(e) => login_outcome(name@, password@, crate::db_pool::users::user_result_view(user))
                == Err::<Seq<char>, Seq<char>>(e@),
        },
{
    let user = match user {
        Ok(user) => user,
        Err(e) => {
            return Err(e);
        },
    };
    if !compare_password(password, user.password_hash.as_str()) {
        return Err("Invalid credentials".to_owned());
    }
    Ok(Info { name: name.to_owned() })
}

/// A user whose stored hash is accepted for the password logs in, under the
/// name given.
pub proof fn lemma_accepted_password_logs_in(name: Seq<char>, password: Seq<char>, user: UserView)
    requires
        bcrypt_verifies(password, user.password_hash),
        is_bcrypt_text(user.password_hash),
    ensures
        login_outcome(name, password, Ok(user)) == Ok::<Seq<char>, Seq<char>>(name),
{
}

/// A login succeeds only for a user record whose hash is accepted for the
/// password.
pub proof fn lemma_login_needs_accepted_password(
    name: Seq<char>,
    password: Seq<char>,
    user: Result<UserView, Seq<char>>,
)
    requires
        login_outcome(name, password, user) is Ok,
    ensures
        user matches Ok(u) && bcrypt_verifies(password, u.password_hash),
{
}

/// A user stored by a registration logs in with the registration's password,
/// once the database hands the stored hash back.
pub proof fn lemma_registered_user_logs_in(
    reg: RegistrationView,
    event: RegisterEventView,
    next: RegistrationView,
    action: RegisterActionView,
    stored: UserView,
)
    requires
        registration_inv(reg),
        register_step(reg, event, next, action),
        action is CreateUser,
        stored.password_hash == action->CreateUser_password_hash,
    ensures
        login_outcome(reg.name, reg.password, Ok(stored)) == Ok::<Seq<char>, Seq<char>>(reg.name),
{
    lemma_user_stored_only_when_free(reg, event, next, action);
    lemma_accepted_password_logs_in(reg.name, reg.password, stored);
}

/// Valid data start a registration that keeps exactly the name, email and
/// password given and asks for a token pair for exactly the name given.
pub proof fn lemma_valid_data_ask_tokens_for_the_name(name: Seq<char>, email: Seq<char>, password: Seq<char>)
    requires
        credentials_error(name, password) is None,
    ensures
        register_start(name, email, password).1 == (RegisterActionView::IssueTokens { name }),
        register_start(name, email, password).0 == (RegistrationView {
            name,
            email,
            password,
            stage: RegisterStageView::IssuingTokens,
        }),
{
}

/// Whatever registration starts with, it keeps the data given, and any token
/// pair it asks for is for the name it keeps.
pub proof fn lemma_start_keeps_data(name: Seq<char>, email: Seq<char>, password: Seq<char>)
    ensures
        register_start(name, email, password).0.name == name,
        register_start(name, email, password).0.email == email,
        register_start(name, email, password).0.password == password,
        register_start(name, email, password).1 matches RegisterActionView::IssueTokens { name: n }
            ==> n == name,
{
}

/// Once tokens are issued, the registration keeps them and asks whether its own
/// name and email are free; a failure to issue them is an internal error with
/// its message.
pub proof fn lemma_tokens_issued_step(
    reg: RegistrationView,
    result: Result<TokensView, Seq<char>>,
    next: RegistrationView,
    action: RegisterActionView,
)
    requires
        reg.stage is IssuingTokens,
        register_step(reg, RegisterEventView::TokensIssued(result), next, action),
    ensures
        result matches Ok(t) ==> next.stage == RegisterStageView::CheckingUniqueness(t) && action
            == (RegisterActionView::CheckUniqueness { name: reg.name, email: reg.email }),
        result matches Err(e) ==> next.stage is Finished && action == RegisterActionView::Finish(
            Err(RegisterErrorView::Internal(e)),
        ),
{
}

/// A free name with a taken email is refused with `EmailTaken`.
pub proof fn lemma_taken_email_refused(
    reg: RegistrationView,
    u: CredentialUniqueness,
    next: RegistrationView,
    action: RegisterActionView,
)
    requires
        register_step(reg, RegisterEventView::UniquenessChecked(Ok(u)), next, action),
        u.name,
        !u.email,
    ensures
        action == RegisterActionView::Finish(Err(RegisterErrorView::EmailTaken)),
        next.stage is Finished,
{
}

/// A failed uniqueness check or a failed store ends the registration with an
/// internal error carrying the failure's message.
pub proof fn lemma_outside_failures_are_internal(
    reg: RegistrationView,
    e: Seq<char>,
    next: RegistrationView,
    action: RegisterActionView,
)
    ensures
        register_step(reg, RegisterEventView::UniquenessChecked(Err(e)), next, action) ==> action
            == RegisterActionView::Finish(Err(RegisterErrorView::Internal(e))),
        register_step(reg, RegisterEventView::UserCreated(Err(e)), next, action) ==> action
            == RegisterActionView::Finish(Err(RegisterErrorView::Internal(e))),
{
}

/// Each registration error is shown as its own text.
pub proof fn lemma_error_messages(m: Seq<char>)
    ensures
        register_error_message(RegisterErrorView::NameTaken) == "Name is already taken"@,
        register_error_message(RegisterErrorView::EmailTaken) == "Email is already taken"@,
        register_error_message(RegisterErrorView::InvalidData(m)) == "Invalid Data: "@ + m,
        register_error_message(RegisterErrorView::Internal(m)) == "Internal Error: "@ + m,
{
}

/// When the database reports both the name and the email free, the registration
/// asks to store its own name and email and moves on with its tokens.
pub proof fn lemma_free_credentials_stored(
    reg: RegistrationView,
    t: TokensView,
    u: CredentialUniqueness,
    next: RegistrationView,
    action: RegisterActionView,
)
    requires
        reg.stage == RegisterStageView::CheckingUniqueness(t),
        u.name && u.email,
        register_step(reg, RegisterEventView::UniquenessChecked(Ok(u)), next, action),
    ensures
        next.stage == RegisterStageView::CreatingUser(t),
        action matches RegisterActionView::CreateUser { name, email, password_hash } && name == reg.name
            && email == reg.email && bcrypt_verifies(reg.password, password_hash),
{
}

/// Once the database confirms the store, the client gets the tokens the
/// registration was waiting with.
pub proof fn lemma_stored_user_gets_tokens(
    reg: RegistrationView,
    t: TokensView,
    next: RegistrationView,
    action: RegisterActionView,
)
    requires
        reg.stage == RegisterStageView::CreatingUser(t),
        register_step(reg, RegisterEventView::UserCreated(Ok(())), next, action),
    ensures
        action == RegisterActionView::Finish(Ok(t)),
        next.stage is Finished,
{
}

/// A failed lookup is reported as is; a password the stored hash does not
/// accept gives "Invalid credentials".
pub proof fn lemma_login_failures(name: Seq<char>, password: Seq<char>, user: Result<UserView, Seq<char>>)
    ensures
        user matches Err(e) ==> login_outcome(name, password, user) == Err::<Seq<char>, Seq<char>>(e),
        (user matches Ok(u) && !bcrypt_verifies(password, u.password_hash)) ==> login_outcome(
            name,
            password,
            user,
        ) == Err::<Seq<char>, Seq<char>>("Invalid credentials"@),
{
}

/// The mathematical values of a registration and of its actions carry the
/// strings they hold.
pub proof fn lemma_registration_views(reg: Registration, action: RegisterAction)
    ensures
        reg@.name == reg.name@ && reg@.email == reg.email@ && reg@.password == reg.password@,
        action matches RegisterAction::IssueTokens(info) ==> action@ == (RegisterActionView::IssueTokens {
            name: info.name@,
        }),
        action matches RegisterAction::CreateUser { name, email, password_hash } ==> action@ == (
        RegisterActionView::CreateUser {
            name: name@,
            email: email@,
            password_hash: password_hash@,
        }),
        action matches RegisterAction::CheckUniqueness { name, email } ==> action@ == (
        RegisterActionView::CheckUniqueness { name: name@, email: email@ }),
{
}

} // verus!
