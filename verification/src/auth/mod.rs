//! Passwordless login: signed claims, the split token that carries them to
//! the user in two halves, and the capability guard that reads them back.

pub mod authorizer;
pub mod claims;
pub mod claims_consumer;
pub mod initiate_auth;
pub mod jwt_cookie_handler;
pub mod token;
pub mod verify_auth;

use vstd::prelude::*;

verus! {

/// The step of the login protocol that a token belongs to.
#[derive(Clone, Copy, Debug, PartialEq, Eq, Structural)]
pub enum AuthPhase {
    /// The token proves that a link sent by e-mail was followed.
    Validation,
    /// The token proves that its subject has logged in.
    LoggedIn,
}

/// The claims of a login token.
#[derive(Clone, Debug, PartialEq, Eq)]
pub struct Claims {
    pub phase: AuthPhase,
    pub sub: String,
}

/// What the claims of a login token hold.
pub struct ClaimsView {
    pub phase: AuthPhase,
    pub sub: Seq<char>,
}

impl View for Claims {
    type V = ClaimsView;

    open spec fn view(&self) -> ClaimsView {
        ClaimsView { phase: self.phase, sub: self.sub@ }
    }
}

/// The view of claims that may be absent.
pub open spec fn claims_view(claims: Option<Claims>) -> Option<ClaimsView> {
    match claims {
        Some(c) => Some(c@),
        None => None,
    }
}

} // verus!
