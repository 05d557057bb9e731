//! Which credential a request presents, chosen by a fixed precedence.

use crate::headers::{first_header_values, header_text, header_text_of};
use axum::http::HeaderMap;
use vstd::prelude::*;

verus! {

/// The credential that a request presents.
#[derive(Clone, Debug, PartialEq, Eq)]
pub enum Credential {
    /// The raw value of the authorization header.
    Bearer(String),
    /// The raw value of the machine-secret header.
    MachineSecret(String),
    /// Neither header holds usable text.
    Missing,
}

/// A credential as plain values.
pub enum CredentialView {
    Bearer(Seq<char>),
    MachineSecret(Seq<char>),
    Missing,
}

impl View for Credential {
    type V = CredentialView;

    open spec fn view(&self) -> CredentialView {
        match self {
            Credential::Bearer(t) => CredentialView::Bearer(t@),
            Credential::MachineSecret(s) => CredentialView::MachineSecret(s@),
            Credential::Missing => CredentialView::Missing,
        }
    }
}

pub open spec fn text_view(t: Option<String>) -> Option<Seq<char>> {
    match t {
        Some(s) => Some(s@),
        None => None,
    }
}

/// A header counts as presented when it holds non-empty text.
pub open spec fn presented(t: Option<Seq<char>>) -> bool {
    t is Some && t->0.len() > 0
}

/// The bearer header wins over the machine-secret header; a header that is
/// absent, empty or not text counts as not there.
pub open spec fn presentation(
    authorization: Option<Seq<char>>,
    machine_secret: Option<Seq<char>>,
) -> CredentialView {
    if presented(authorization) {
        CredentialView::Bearer(authorization->0)
    } else if presented(machine_secret) {
        CredentialView::MachineSecret(machine_secret->0)
    } else {
        CredentialView::Missing
    }
}

/// The stored name of the bearer-style authorization header.
pub open spec fn authorization_name() -> Seq<char> {
    "authorization"@
}

/// The stored name of the machine-secret header.
pub open spec fn machine_secret_name() -> Seq<char> {
    "x-auth-token"@
}

/// The credential that a header map presents.
pub open spec fn presentation_of(values: Map<Seq<char>, Seq<u8>>) -> CredentialView {
    presentation(
        header_text_of(values, authorization_name()),
        header_text_of(values, machine_secret_name()),
    )
}

fn is_blank(t: &Option<String>) -> (r: bool)
    ensures
        r == !presented(text_view(*t)),
{
    match t {
        Some(s) => s.as_str().is_empty(),
        None => true,
    }
}

impl Credential {
    /// Classifies the texts of the two headers, where they hold text.
    pub fn classify(authorization: Option<String>, machine_secret: Option<String>) -> (r:
        Credential)
        ensures
            r@ == presentation(text_view(authorization), text_view(machine_secret)),
    {
        if !is_blank(&authorization) {
            match authorization {
                Some(token) => Credential::Bearer(token),
                None => Credential::Missing,
            }
        } else if !is_blank(&machine_secret) {
            match machine_secret {
                Some(secret) => Credential::MachineSecret(secret),
                None => Credential::Missing,
            }
        } else {
            Credential::Missing
        }
    }

    /// Reads the two headers and classifies them.
    pub fn locate(headers: &HeaderMap) -> (r: Credential)
        ensures
            r@ == presentation_of(first_header_values(*headers)),
    {
        proof {
            reveal_strlit("authorization");
            reveal_strlit("x-auth-token");
        }
        let authorization = header_text(headers, "authorization");
        let machine_secret = header_text(headers, "x-auth-token");
        Credential::classify(authorization, machine_secret)
    }
}

} // verus!
