//! What holds of every resolution.

use crate::auth::{AuthError, StepView, bearer_outcome, first_step, resolution};
use crate::credential::{authorization_name, machine_secret_name, presentation_of, presented};
use crate::headers::{first_header_values, header_text_of};
use crate::user::{UserView, machine_user};
use axum::http::HeaderMap;
use vstd::prelude::*;

verus! {

proof fn lemma_header_names_differ()
    ensures
        authorization_name() != machine_secret_name(),
{
    reveal_strlit("authorization");
    reveal_strlit("x-auth-token");
    assert(authorization_name()[0] != machine_secret_name()[0]);
}

/// A request without either header is refused for a missing header, whatever
/// the configuration and the validator.
pub proof fn lemma_no_headers_rejected(
    configured: Option<Seq<char>>,
    values: Map<Seq<char>, Seq<u8>>,
    validated: Option<UserView>,
)
    requires
        !values.contains_key(authorization_name()),
        !values.contains_key(machine_secret_name()),
    ensures
        resolution(configured, values, validated) == Err::<UserView, AuthError>(
            AuthError::MissingAuthHeader,
        ),
{
}

/// A request with a bearer header hands that header's raw text to the
/// validator, and an identity the validator returns is the result unchanged.
pub proof fn lemma_bearer_identity_forwarded(
    configured: Option<Seq<char>>,
    values: Map<Seq<char>, Seq<u8>>,
    user: UserView,
)
    requires
        presented(header_text_of(values, authorization_name())),
    ensures
        first_step(configured, presentation_of(values)) == StepView::Validate(
            header_text_of(values, authorization_name())->0,
        ),
        resolution(configured, values, Some(user)) == Ok::<UserView, AuthError>(user),
{
}

/// A request with a bearer header that the validator refuses, for whatever
/// cause, is refused as an invalid or expired token.
pub proof fn lemma_bearer_failure_rejected(
    configured: Option<Seq<char>>,
    values: Map<Seq<char>, Seq<u8>>,
)
    requires
        presented(header_text_of(values, authorization_name())),
    ensures
        resolution(configured, values, None) == Err::<UserView, AuthError>(
            AuthError::TokenInvalidOrExpired,
        ),
{
}

/// A request with only a machine-secret header that equals the configured
/// secret resolves to the machine identity: handle `drink_machine`, member of
/// `drink`, balance 0.
pub proof fn lemma_matching_secret_accepted(
    configured: Option<Seq<char>>,
    values: Map<Seq<char>, Seq<u8>>,
    validated: Option<UserView>,
)
    requires
        !values.contains_key(authorization_name()),
        presented(header_text_of(values, machine_secret_name())),
        configured == header_text_of(values, machine_secret_name()),
    ensures
        resolution(configured, values, validated) == Ok::<UserView, AuthError>(machine_user()),
        machine_user().preferred_username == "drink_machine"@,
        machine_user().groups.contains("drink"@),
        machine_user().drink_balance == Some(0i64),
{
    assert(machine_user().groups[0] == "drink"@);
}

/// A request with only a machine-secret header that differs from the
/// configured secret, or where none is configured, is refused.
pub proof fn lemma_wrong_secret_rejected(
    configured: Option<Seq<char>>,
    values: Map<Seq<char>, Seq<u8>>,
    validated: Option<UserView>,
)
    requires
        !values.contains_key(authorization_name()),
        presented(header_text_of(values, machine_secret_name())),
        configured != header_text_of(values, machine_secret_name()),
    ensures
        resolution(configured, values, validated) == Err::<UserView, AuthError>(
            AuthError::InvalidMachineSecret,
        ),
{
}

/// With a bearer header present, the machine-secret header is ignored: the
/// result is the same with it removed or holding anything else, and is the
/// bearer outcome.
pub proof fn lemma_bearer_takes_precedence(
    configured: Option<Seq<char>>,
    values: Map<Seq<char>, Seq<u8>>,
    other_secret: Seq<u8>,
    validated: Option<UserView>,
)
    requires
        presented(header_text_of(values, authorization_name())),
    ensures
        resolution(configured, values, validated) == bearer_outcome(validated),
        resolution(configured, values.remove(machine_secret_name()), validated) == bearer_outcome(
            validated,
        ),
        resolution(configured, values.insert(machine_secret_name(), other_secret), validated)
            == bearer_outcome(validated),
{
    lemma_header_names_differ();
    let removed = values.remove(machine_secret_name());
    let replaced = values.insert(machine_secret_name(), other_secret);
    assert(removed.contains_key(authorization_name()) == values.contains_key(authorization_name()));
    assert(replaced.contains_key(authorization_name()) == values.contains_key(
        authorization_name(),
    ));
    assert(header_text_of(removed, authorization_name()) == header_text_of(
        values,
        authorization_name(),
    ));
    assert(header_text_of(replaced, authorization_name()) == header_text_of(
        values,
        authorization_name(),
    ));
}

/// Two requests with the same headers, resolved with the same configuration
/// and the same validator answer, get the same result.
pub proof fn lemma_resolution_repeatable(
    configured: Option<Seq<char>>,
    first: HeaderMap,
    second: HeaderMap,
    validated: Option<UserView>,
)
    requires
        first_header_values(first) == first_header_values(second),
    ensures
        resolution(configured, first_header_values(first), validated) == resolution(
            configured,
            first_header_values(second),
            validated,
        ),
{
}

} // verus!
