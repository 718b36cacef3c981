//! The two handlers of an email change, each a state machine: it is given what
//! happened and says what to do next. Whoever runs it reads and writes the
//! store, sends the notification and answers the caller.

use crate::auth::{redirect_target, AuthError, DbUser, Fault, RedirectTarget, Rejected, User};
use crate::code::{byte_len, generate_verification_code, is_verification_code};
use crate::constants::VERIFICATION_CODE_LENGTH;
use crate::rate_limit::{allowed, is_allowed, is_valid_timestamp, timestamp_in_range, unix_now};
use uuid::Uuid;
use vstd::prelude::*;

verus! {

/// Payload of a request to change the address of the caller's account.
#[derive(Debug, Default)]
pub struct ChangeEmailRequest {
    pub csrf_token: String,
    pub old_email: Option<String>,
    pub new_email: String,
}

/// How far a request has come.
#[derive(Debug)]
pub enum RequestState {
    /// Nothing has been received.
    Start,
    /// The account of the principal is being looked up.
    AwaitingUser { user_id: Uuid, old_email: Option<String>, new_email: String },
    /// The conditional update is with the store.
    AwaitingUpdate { recipient: String, email_verification_code: String },
    /// The notification is with the mailer.
    AwaitingDelivery,
    /// The caller has been answered.
    Done,
}

/// What happened outside the requester.
#[derive(Debug)]
pub enum RequestEvent {
    /// The transport delivered a payload of an authenticated principal. `json`
    /// tells a structured encoding from a form-like one; `new_email_valid` is
    /// the validator's verdict on the new address.
    Request { user: User, request: ChangeEmailRequest, json: bool, new_email_valid: bool },
    /// The store answered the lookup.
    UserRead { db_user: Option<DbUser> },
    /// The store ran the conditional update on this many rows.
    RowsAffected { rows_affected: usize },
    /// The mailer composed and sent the notification, or failed to.
    Delivered { sent: bool },
}

/// What the requester wants done next.
#[derive(Debug)]
pub enum RequestAction {
    /// Read the account with this identifier.
    ReadUser { user_id: Uuid },
    /// In one conditional update, record the new address, the code and the
    /// store's current time on the account with this identifier, provided that
    /// no old address is given or the current address equals it.
    Update {
        user_id: Uuid,
        old_email: Option<String>,
        new_email: String,
        email_verification_code: String,
    },
    /// Send the code to the address that is current before the change.
    SendEmail { recipient: String, email_verification_code: String },
    /// Answer the caller.
    Respond { result: Result<(), AuthError> },
}

/// The step that ends a request with a failure.
pub open spec fn request_refused(error: AuthError) -> (RequestState, RequestAction) {
    (RequestState::Done, RequestAction::Respond { result: Err(error) })
}

/// The requester's transition. `now` and `code` are the time and the fresh
/// code at hand; only the step that follows the lookup reads them.
pub open spec fn request_step(
    state: RequestState,
    event: RequestEvent,
    now: i64,
    code: String,
) -> (RequestState, RequestAction) {
    match (state, event) {
        (
            RequestState::Start,
            RequestEvent::Request { user, request, json, new_email_valid },
        ) => {
            if request.csrf_token@ != user.csrf_token@ {
                request_refused(AuthError::Forbidden)
            } else if !json && request.old_email is None {
                request_refused(AuthError::BadRequest(Rejected::MissingOldEmail))
            } else if !new_email_valid {
                request_refused(AuthError::BadRequest(Rejected::InvalidEmail))
            } else {
                (
                    RequestState::AwaitingUser {
                        user_id: user.uuid,
                        old_email: request.old_email,
                        new_email: request.new_email,
                    },
                    RequestAction::ReadUser { user_id: user.uuid },
                )
            }
        },
        (
            RequestState::AwaitingUser { user_id, old_email, new_email },
            RequestEvent::UserRead { db_user },
        ) => {
            match db_user {
                None => request_refused(AuthError::Forbidden),
                Some(found) => {
                    if found.email_verification_code_sent_at matches Some(issued)
                        && !timestamp_in_range(issued) {
                        request_refused(AuthError::Internal(Fault::InvalidTimestamp))
                    } else if !is_allowed(found.email_verification_code_sent_at, now) {
                        request_refused(AuthError::BadRequest(Rejected::IssuedAlready))
                    } else {
                        (
                            RequestState::AwaitingUpdate {
                                recipient: found.email,
                                email_verification_code: code,
                            },
                            RequestAction::Update {
                                user_id,
                                old_email,
                                new_email,
                                email_verification_code: code,
                            },
                        )
                    }
                },
            }
        },
        (
            RequestState::AwaitingUpdate { recipient, email_verification_code },
            RequestEvent::RowsAffected { rows_affected },
        ) => {
            if rows_affected == 0 {
                request_refused(AuthError::BadRequest(Rejected::FailedToChange))
            } else {
                (
                    RequestState::AwaitingDelivery,
                    RequestAction::SendEmail { recipient, email_verification_code },
                )
            }
        },
        (RequestState::AwaitingDelivery, RequestEvent::Delivered { sent }) => {
            if sent {
                (RequestState::Done, RequestAction::Respond { result: Ok(()) })
            } else {
                request_refused(AuthError::Internal(Fault::Notification))
            }
        },
        _ => request_refused(AuthError::Internal(Fault::UnexpectedEvent)),
    }
}

/// An update of one account changes at most one row. More would mean that
/// identifiers are not unique: the one case in which the requester has no answer.
pub open spec fn request_accepts(state: RequestState, event: RequestEvent) -> bool {
    state is AwaitingUpdate ==> (event matches RequestEvent::RowsAffected { rows_affected }
        ==> rows_affected <= 1)
}

/// One step of the requester with the time and the fresh code given.
pub fn request_transition(state: RequestState, event: RequestEvent, now: i64, code: String) -> (r: (
    RequestState,
    RequestAction,
))
    requires
        request_accepts(state, event),
    ensures
        r == request_step(state, event, now, code),
{
    match (state, event) {
        (
            RequestState::Start,
            RequestEvent::Request { user, request, json, new_email_valid },
        ) => {
            if !(request.csrf_token == user.csrf_token) {
                (RequestState::Done, RequestAction::Respond { result: Err(AuthError::Forbidden) })
            } else if !json && request.old_email.is_none() {
                (
                    RequestState::Done,
                    RequestAction::Respond {
                        result: Err(AuthError::BadRequest(Rejected::MissingOldEmail)),
                    },
                )
            } else if !new_email_valid {
                (
                    RequestState::Done,
                    RequestAction::Respond {
                        result: Err(AuthError::BadRequest(Rejected::InvalidEmail)),
                    },
                )
            } else {
                (
                    RequestState::AwaitingUser {
                        user_id: user.uuid,
                        old_email: request.old_email,
                        new_email: request.new_email,
                    },
                    RequestAction::ReadUser { user_id: user.uuid },
                )
            }
        },
        (
            RequestState::AwaitingUser { user_id, old_email, new_email },
            RequestEvent::UserRead { db_user },
        ) => {
            match db_user {
                None => (
                    RequestState::Done,
                    RequestAction::Respond { result: Err(AuthError::Forbidden) },
                ),
                Some(found) => {
                    let corrupt = match found.email_verification_code_sent_at {
                        Some(issued) => !is_valid_timestamp(issued),
                        None => false,
                    };
                    if corrupt {
                        (
                            RequestState::Done,
                            RequestAction::Respond {
                                result: Err(AuthError::Internal(Fault::InvalidTimestamp)),
                            },
                        )
                    } else if !allowed(found.email_verification_code_sent_at, now) {
                        (
                            RequestState::Done,
                            RequestAction::Respond {
                                result: Err(AuthError::BadRequest(Rejected::IssuedAlready)),
                            },
                        )
                    } else {
                        let kept = code.clone();
                        (
                            RequestState::AwaitingUpdate {
                                recipient: found.email,
                                email_verification_code: kept,
                            },
                            RequestAction::Update {
                                user_id,
                                old_email,
                                new_email,
                                email_verification_code: code,
                            },
                        )
                    }
                },
            }
        },
        (
            RequestState::AwaitingUpdate { recipient, email_verification_code },
            RequestEvent::RowsAffected { rows_affected },
        ) => {
            if rows_affected == 0 {
                (
                    RequestState::Done,
                    RequestAction::Respond {
                        result: Err(AuthError::BadRequest(Rejected::FailedToChange)),
                    },
                )
            } else {
                (
                    RequestState::AwaitingDelivery,
                    RequestAction::SendEmail { recipient, email_verification_code },
                )
            }
        },
        (RequestState::AwaitingDelivery, RequestEvent::Delivered { sent }) => {
            if sent {
                (RequestState::Done, RequestAction::Respond { result: Ok(()) })
            } else {
                (
                    RequestState::Done,
                    RequestAction::Respond {
                        result: Err(AuthError::Internal(Fault::Notification)),
                    },
                )
            }
        },
        _ => (
            RequestState::Done,
            RequestAction::Respond { result: Err(AuthError::Internal(Fault::UnexpectedEvent)) },
        ),
    }
}

/// One step of a request to change the email address.
///
/// The step is the transition for some time and some code. Only the step that
/// follows the lookup depends on them: it reads the clock and draws a fresh
/// code, and the code has the shape of a verification code.
pub fn change_email_request_handler(state: RequestState, event: RequestEvent) -> (r: (
    RequestState,
    RequestAction,
))
    requires
        request_accepts(state, event),
    ensures
        exists|now: i64, code: String|
            (state is AwaitingUser ==> is_verification_code(code@)) && r == #[trigger] request_step(
                state,
                event,
                now,
                code,
            ),
{
    match state {
        RequestState::AwaitingUser { .. } => {
            let now: i64 = unix_now();
            let code = generate_verification_code();
            request_transition(state, event, now, code)
        },
        _ => request_transition(state, event, 0, String::new()),
    }
}

/// How far a confirmation has come.
#[derive(Debug)]
pub enum ConfirmState {
    /// Nothing has been received.
    Start,
    /// The conditional update is with the store.
    AwaitingUpdate { redirect_uri: Option<String>, authenticated: bool },
    /// The caller has been answered.
    Done,
}

/// What happened outside the confirmer.
#[derive(Debug)]
pub enum ConfirmEvent {
    /// The transport delivered a code, perhaps with a redirect hint.
    /// `redirect_allowed` is the redirect validator's verdict on the hint;
    /// `authenticated` says whether the caller has an active session.
    Request {
        email_verification_code: String,
        redirect_uri: Option<String>,
        redirect_allowed: bool,
        authenticated: bool,
    },
    /// The store ran the conditional update on this many rows.
    RowsAffected { rows_affected: usize },
}

/// What the confirmer wants done next.
#[derive(Debug)]
pub enum ConfirmAction {
    /// In one conditional update, on every account that holds this code, issued
    /// less than the time to live ago, and a pending address: make the pending
    /// address the current one, mark it verified, and clear the pending
    /// address, the code and its time.
    Update { email_verification_code: String },
    /// Answer the caller.
    Respond { result: Result<RedirectTarget, AuthError> },
}

/// The step that ends a confirmation with a failure.
pub open spec fn confirm_refused(error: AuthError) -> (ConfirmState, ConfirmAction) {
    (ConfirmState::Done, ConfirmAction::Respond { result: Err(error) })
}

/// The confirmer's transition.
pub open spec fn confirm_step(state: ConfirmState, event: ConfirmEvent) -> (
    ConfirmState,
    ConfirmAction,
) {
    match (state, event) {
        (
            ConfirmState::Start,
            ConfirmEvent::Request {
                email_verification_code,
                redirect_uri,
                redirect_allowed,
                authenticated,
            },
        ) => {
            if !redirect_allowed {
                confirm_refused(AuthError::BadRequest(Rejected::InvalidRedirect))
            } else if byte_len(email_verification_code@) != VERIFICATION_CODE_LENGTH {
                confirm_refused(AuthError::BadRequest(Rejected::InvalidCode))
            } else {
                (
                    ConfirmState::AwaitingUpdate { redirect_uri, authenticated },
                    ConfirmAction::Update { email_verification_code },
                )
            }
        },
        (
            ConfirmState::AwaitingUpdate { redirect_uri, authenticated },
            ConfirmEvent::RowsAffected { rows_affected },
        ) => {
            if rows_affected == 0 {
                confirm_refused(AuthError::BadRequest(Rejected::InvalidVerificationCode))
            } else {
                (
                    ConfirmState::Done,
                    ConfirmAction::Respond {
                        result: Ok(redirect_target(redirect_uri, authenticated)),
                    },
                )
            }
        },
        _ => confirm_refused(AuthError::Internal(Fault::UnexpectedEvent)),
    }
}

/// A code answers to at most one account. More rows would mean that codes are
/// not unique: the one case in which the confirmer has no answer.
pub open spec fn confirm_accepts(state: ConfirmState, event: ConfirmEvent) -> bool {
    state is AwaitingUpdate ==> (event matches ConfirmEvent::RowsAffected { rows_affected }
        ==> rows_affected <= 1)
}

/// One step of a confirmation of a change of email address.
pub fn change_email_confirm_handler(state: ConfirmState, event: ConfirmEvent) -> (r: (
    ConfirmState,
    ConfirmAction,
))
    requires
        confirm_accepts(state, event),
    ensures
        r == confirm_step(state, event),
{
    match (state, event) {
        (
            ConfirmState::Start,
            ConfirmEvent::Request {
                email_verification_code,
                redirect_uri,
                redirect_allowed,
                authenticated,
            },
        ) => {
            if !redirect_allowed {
                (
                    ConfirmState::Done,
                    ConfirmAction::Respond {
                        result: Err(AuthError::BadRequest(Rejected::InvalidRedirect)),
                    },
                )
            } else if email_verification_code.as_str().as_bytes().len() != VERIFICATION_CODE_LENGTH {
                (
                    ConfirmState::Done,
                    ConfirmAction::Respond {
                        result: Err(AuthError::BadRequest(Rejected::InvalidCode)),
                    },
                )
            } else {
                (
                    ConfirmState::AwaitingUpdate { redirect_uri, authenticated },
                    ConfirmAction::Update { email_verification_code },
                )
            }
        },
        (
            ConfirmState::AwaitingUpdate { redirect_uri, authenticated },
            ConfirmEvent::RowsAffected { rows_affected },
        ) => {
            if rows_affected == 0 {
                (
                    ConfirmState::Done,
                    ConfirmAction::Respond {
                        result: Err(AuthError::BadRequest(Rejected::InvalidVerificationCode)),
                    },
                )
            } else {
                let target = match redirect_uri {
                    Some(uri) => RedirectTarget::Uri(uri),
                    None => if authenticated {
                        RedirectTarget::Profile
                    } else {
                        RedirectTarget::Login
                    },
                };
                (ConfirmState::Done, ConfirmAction::Respond { result: Ok(target) })
            }
        },
        _ => (
            ConfirmState::Done,
            ConfirmAction::Respond { result: Err(AuthError::Internal(Fault::UnexpectedEvent)) },
        ),
    }
}

} // verus!
