//! Who asks, what the store knows of them, and how a step can fail.

use uuid::Uuid;
use vstd::prelude::*;

verus! {

/// Why a request is turned down as the caller's fault. Safe to show to the
/// caller; an unknown, an expired and a used code share one reason.
#[derive(Clone, Copy, Debug, PartialEq, Eq, Structural)]
pub enum Rejected {
    /// A form-like payload came without the old address.
    MissingOldEmail,
    /// The new address did not pass validation.
    InvalidEmail,
    /// A code was issued for this account less than the rate limit ago.
    IssuedAlready,
    /// The conditional update changed no row.
    FailedToChange,
    /// The redirect target is not on the allow-list.
    InvalidRedirect,
    /// The code does not have the fixed length.
    InvalidCode,
    /// No pending change answers to the code.
    InvalidVerificationCode,
}

/// What went wrong on the server's side.
#[derive(Clone, Copy, Debug, PartialEq, Eq, Structural)]
pub enum Fault {
    /// The stored issuance time is no representable date.
    InvalidTimestamp,
    /// The notification could not be composed or sent.
    Notification,
    /// An event arrived that the current state does not wait for.
    UnexpectedEvent,
}

/// Failure of a step of the workflow.
#[derive(Clone, Copy, Debug, PartialEq, Eq, Structural)]
pub enum AuthError {
    /// Malformed or untimely input.
    BadRequest(Rejected),
    /// The caller is not who the session says, or is unknown to the store.
    Forbidden,
    /// A server-side failure, shown to the caller without detail.
    Internal(Fault),
}

impl Rejected {
    /// The text shown to the caller.
    pub fn message(&self) -> (text: &'static str)
        ensures
            text@ == match *self {
                Rejected::MissingOldEmail => "missing old email address"@,
                Rejected::InvalidEmail => "invalid email address"@,
                Rejected::IssuedAlready => "issued already"@,
                Rejected::FailedToChange => "failed to change"@,
                Rejected::InvalidRedirect => "invalid redirect"@,
                Rejected::InvalidCode => "invalid code"@,
                Rejected::InvalidVerificationCode => "invalid verification code"@,
            },
    {
        match self {
            Rejected::MissingOldEmail => "missing old email address",
            Rejected::InvalidEmail => "invalid email address",
            Rejected::IssuedAlready => "issued already",
            Rejected::FailedToChange => "failed to change",
            Rejected::InvalidRedirect => "invalid redirect",
            Rejected::InvalidCode => "invalid code",
            Rejected::InvalidVerificationCode => "invalid verification code",
        }
    }
}

/// The authenticated principal: the account it speaks for and the anti-forgery
/// token bound to its session.
#[derive(Debug)]
pub struct User {
    pub uuid: Uuid,
    pub csrf_token: String,
}

/// What the store hands out of an account on lookup: the current address and
/// the time the last verification code was issued, if one is outstanding.
#[derive(Debug)]
pub struct DbUser {
    pub email: String,
    pub email_verification_code_sent_at: Option<i64>,
}

/// Where the caller is sent after a confirmed change.
#[derive(Debug, PartialEq, Eq)]
pub enum RedirectTarget {
    /// The destination the caller asked for.
    Uri(String),
    /// The profile page, for a caller with an active session.
    Profile,
    /// The login page, for a caller without one.
    Login,
}

/// The destination after a confirmed change: the hint where one was given,
/// else the profile page with a session and the login page without.
pub open spec fn redirect_target(redirect_uri: Option<String>, authenticated: bool) -> RedirectTarget {
    match redirect_uri {
        Some(uri) => RedirectTarget::Uri(uri),
        None => if authenticated {
            RedirectTarget::Profile
        } else {
            RedirectTarget::Login
        },
    }
}

} // verus!
