//! Dispatch on the presented credential, and the shape of a rejection.

use crate::credential::{Credential, CredentialView, presentation_of};
use crate::user::{OIDCUser, UserView, machine_user};
use vstd::prelude::*;

verus! {

/// Why a request was refused.
#[derive(Clone, Copy, Debug, PartialEq, Eq, Structural)]
pub enum AuthError {
    MissingAuthHeader,
    TokenInvalidOrExpired,
    InvalidMachineSecret,
}

/// The status code of every rejection: 401 Unauthorized.
pub const UNAUTHORIZED: u16 = 401;

pub open spec fn reason_text(e: AuthError) -> Seq<char> {
    match e {
        AuthError::MissingAuthHeader => "missing auth header"@,
        AuthError::TokenInvalidOrExpired => "token invalid or expired"@,
        AuthError::InvalidMachineSecret => "invalid machine secret"@,
    }
}

/// The JSON text of an object with one member whose value is a string.
pub uninterp spec fn json_member_text(key: Seq<char>, value: Seq<char>) -> Seq<char>;

/// Relies on serde_json: `Value::to_string` on an object holding the one
/// member `key` with the string `value`.
#[verifier::external_body]
fn single_member_json(key: &str, value: &str) -> (r: String)
    ensures
        r@ == json_member_text(key@, value@),
{
    let mut object = serde_json::Map::new();
    object.insert(key.to_owned(), serde_json::Value::String(value.to_owned()));
    serde_json::Value::Object(object).to_string()
}

impl AuthError {
    /// The machine-readable reason sent to the caller.
    pub fn reason(&self) -> (r: &'static str)
        ensures
            r@ == reason_text(*self),
    {
        match self {
            AuthError::MissingAuthHeader => "missing auth header",
            AuthError::TokenInvalidOrExpired => "token invalid or expired",
            AuthError::InvalidMachineSecret => "invalid machine secret",
        }
    }

    /// The HTTP status of the rejection.
    pub fn status_code(&self) -> (r: u16)
        ensures
            r == UNAUTHORIZED,
    {
        UNAUTHORIZED
    }

    /// The JSON body of the rejection: `{"error": <reason>}`.
    pub fn body(&self) -> (r: String)
        ensures
            r@ == json_member_text("error"@, reason_text(*self)),
    {
        single_member_json("error", self.reason())
    }
}

/// The resolver's fixed configuration.
pub struct AuthConfig {
    /// The shared machine secret; `None` where the machine scheme is not
    /// offered, in which case every machine secret is refused.
    pub machine_secret: Option<String>,
}

impl View for AuthConfig {
    type V = Option<Seq<char>>;

    open spec fn view(&self) -> Option<Seq<char>> {
        match self.machine_secret {
            Some(s) => Some(s@),
            None => None,
        }
    }
}

impl AuthConfig {
    pub fn new(machine_secret: Option<String>) -> (r: AuthConfig)
        ensures
            r.machine_secret == machine_secret,
    {
        AuthConfig { machine_secret }
    }
}

/// The identity of an authenticated request.
#[derive(Clone, Debug, PartialEq, Eq)]
pub struct OIDCAuth(pub OIDCUser);

pub open spec fn outcome_view(r: Result<OIDCAuth, AuthError>) -> Result<UserView, AuthError> {
    match r {
        Ok(auth) => Ok(auth.0@),
        Err(e) => Err(e),
    }
}

/// What the resolver does next for a presented credential.
#[derive(Debug, PartialEq, Eq)]
pub enum Step {
    /// Hand this raw header value to the token validator.
    Validate(String),
    /// Resolution is over.
    Finished(Result<OIDCAuth, AuthError>),
}

pub enum StepView {
    Validate(Seq<char>),
    Finished(Result<UserView, AuthError>),
}

impl View for Step {
    type V = StepView;

    open spec fn view(&self) -> StepView {
        match self {
            Step::Validate(t) => StepView::Validate(t@),
            Step::Finished(r) => StepView::Finished(outcome_view(*r)),
        }
    }
}

/// A machine secret is accepted when it equals the configured one exactly.
pub open spec fn secret_outcome(configured: Option<Seq<char>>, presented: Seq<char>) -> Result<
    UserView,
    AuthError,
> {
    if configured == Some(presented) {
        Ok(machine_user())
    } else {
        Err(AuthError::InvalidMachineSecret)
    }
}

pub open spec fn first_step(configured: Option<Seq<char>>, c: CredentialView) -> StepView {
    match c {
        CredentialView::Bearer(t) => StepView::Validate(t),
        CredentialView::MachineSecret(s) => StepView::Finished(secret_outcome(configured, s)),
        CredentialView::Missing => StepView::Finished(Err(AuthError::MissingAuthHeader)),
    }
}

/// The outcome of a bearer credential, given what the validator returned
/// (`None` for any failure).
pub open spec fn bearer_outcome(validated: Option<UserView>) -> Result<UserView, AuthError> {
    match validated {
        Some(u) => Ok(u),
        None => Err(AuthError::TokenInvalidOrExpired),
    }
}

/// What a validator's answer says, as plain values.
pub open spec fn validated_view<E>(validation: Result<OIDCUser, E>) -> Option<UserView> {
    match validation {
        Ok(user) => Some(user@),
        Err(_) => None,
    }
}

/// The whole resolution of a request whose headers hold `values`.
pub open spec fn resolution(
    configured: Option<Seq<char>>,
    values: Map<Seq<char>, Seq<u8>>,
    validated: Option<UserView>,
) -> Result<UserView, AuthError> {
    match first_step(configured, presentation_of(values)) {
        StepView::Validate(_) => bearer_outcome(validated),
        StepView::Finished(r) => r,
    }
}

impl OIDCAuth {
    /// Compares a presented machine secret with the configured one.
    pub fn check_machine_secret(config: &AuthConfig, presented: &String) -> (r: Result<
        OIDCAuth,
        AuthError,
    >)
        ensures
            outcome_view(r) == secret_outcome(config@, presented@),
    {
        let matches = match &config.machine_secret {
            Some(secret) => *secret == *presented,
            None => false,
        };
        if matches {
            Ok(OIDCAuth(OIDCUser::machine()))
        } else {
            Err(AuthError::InvalidMachineSecret)
        }
    }

    /// Starts resolution: a bearer credential goes to the validator, the rest
    /// is decided here.
    pub fn begin(config: &AuthConfig, credential: Credential) -> (r: Step)
        ensures
            r@ == first_step(config@, credential@),
    {
        match credential {
            Credential::Bearer(token) => Step::Validate(token),
            Credential::MachineSecret(secret) => Step::Finished(
                OIDCAuth::check_machine_secret(config, &secret),
            ),
            Credential::Missing => Step::Finished(Err(AuthError::MissingAuthHeader)),
        }
    }

    /// Ends a bearer resolution with what the validator returned: its identity
    /// unchanged, or, for any failure, an invalid token.
    pub fn complete_bearer<E>(validation: Result<OIDCUser, E>) -> (r: Result<OIDCAuth, AuthError>)
        ensures
            match validation {
                Ok(user) => r == Ok::<OIDCAuth, AuthError>(OIDCAuth(user)),
                Err(_) => r == Err::<OIDCAuth, AuthError>(AuthError::TokenInvalidOrExpired),
            },
            outcome_view(r) == bearer_outcome(validated_view(validation)),
    {
        match validation {
            Ok(user) => Ok(OIDCAuth(user)),
            Err(_) => Err(AuthError::TokenInvalidOrExpired),
        }
    }
}

} // verus!
