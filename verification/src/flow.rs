//! The workflow run against the account table: what a whole request and a
//! whole confirmation come to, stated directly and carried out by driving the
//! handlers step by step.

use crate::auth::{redirect_target, AuthError, Fault, RedirectTarget, Rejected, User};
use crate::handler::{
    change_email_confirm_handler, request_transition, ChangeEmailRequest, ConfirmAction,
    ConfirmEvent, ConfirmState, RequestAction, RequestEvent, RequestState,
};
use crate::code::byte_len;
use crate::constants::VERIFICATION_CODE_LENGTH;
use crate::rate_limit::{is_allowed, timestamp_in_range};
use crate::store::{
    confirm_rows, confirm_update, has_id, lemma_confirm_rows_none, lemma_request_rows_none,
    lemma_request_rows_unique, request_rows, request_update, row_of, text_of, unique_ids,
    AccountView, UserTable,
};
use crate::util::uuid_bytes;
use vstd::pervasive::unreached;
use vstd::prelude::*;

verus! {

/// The message handed to the mailer: the code, addressed to the address that
/// is current before the change.
#[derive(Debug)]
pub struct Notification {
    pub recipient: String,
    pub email_verification_code: String,
}

/// The failure that stops a request before anything is written, if there is
/// one: a wrong anti-forgery token, a form-like payload without the old
/// address, an invalid new address, an unknown account, a corrupt issuance
/// time, a code issued too recently, an old address that is not the current one.
pub open spec fn request_refusal(
    rows: Seq<AccountView>,
    user: User,
    request: ChangeEmailRequest,
    json: bool,
    new_email_valid: bool,
    now: i64,
) -> Option<AuthError> {
    if request.csrf_token@ != user.csrf_token@ {
        Some(AuthError::Forbidden)
    } else if !json && request.old_email is None {
        Some(AuthError::BadRequest(Rejected::MissingOldEmail))
    } else if !new_email_valid {
        Some(AuthError::BadRequest(Rejected::InvalidEmail))
    } else if !has_id(rows, uuid_bytes(user.uuid)) {
        Some(AuthError::Forbidden)
    } else {
        let account = row_of(rows, uuid_bytes(user.uuid));
        if account.email_verification_code_sent_at matches Some(issued) && !timestamp_in_range(
            issued,
        ) {
            Some(AuthError::Internal(Fault::InvalidTimestamp))
        } else if !is_allowed(account.email_verification_code_sent_at, now) {
            Some(AuthError::BadRequest(Rejected::IssuedAlready))
        } else if text_of(request.old_email) matches Some(old) && account.email != old {
            Some(AuthError::BadRequest(Rejected::FailedToChange))
        } else {
            None
        }
    }
}

/// The table after a request: unchanged where the request is refused, else
/// with the change pending on the caller's account. A notification that could
/// not be sent takes nothing back.
pub open spec fn request_table(
    rows: Seq<AccountView>,
    user: User,
    request: ChangeEmailRequest,
    json: bool,
    new_email_valid: bool,
    now: i64,
    code: Seq<char>,
) -> Seq<AccountView> {
    if request_refusal(rows, user, request, json, new_email_valid, now) is Some {
        rows
    } else {
        request_update(
            rows,
            uuid_bytes(user.uuid),
            text_of(request.old_email),
            request.new_email@,
            code,
            now,
        )
    }
}

/// The answer to a request: the refusal where there is one, else a server
/// fault where the notification could not be sent, else success.
pub open spec fn request_answer(
    rows: Seq<AccountView>,
    user: User,
    request: ChangeEmailRequest,
    json: bool,
    new_email_valid: bool,
    now: i64,
    sent: bool,
) -> Result<(), AuthError> {
    match request_refusal(rows, user, request, json, new_email_valid, now) {
        Some(error) => Err(error),
        None => if sent {
            Ok(())
        } else {
            Err(AuthError::Internal(Fault::Notification))
        },
    }
}

/// The failure that stops a confirmation, if there is one: a redirect that is
/// not allowed, a code of the wrong length, a code that no row answers to at
/// `now`.
pub open spec fn confirm_refusal(
    rows: Seq<AccountView>,
    code: Seq<char>,
    redirect_allowed: bool,
    now: i64,
) -> Option<AuthError> {
    if !redirect_allowed {
        Some(AuthError::BadRequest(Rejected::InvalidRedirect))
    } else if byte_len(code) != VERIFICATION_CODE_LENGTH {
        Some(AuthError::BadRequest(Rejected::InvalidCode))
    } else if confirm_rows(rows, code, now) == 0 {
        Some(AuthError::BadRequest(Rejected::InvalidVerificationCode))
    } else {
        None
    }
}

/// The table after a confirmation: unchanged where it is refused, else with
/// the pending change applied.
pub open spec fn confirm_table(
    rows: Seq<AccountView>,
    code: Seq<char>,
    redirect_allowed: bool,
    now: i64,
) -> Seq<AccountView> {
    if confirm_refusal(rows, code, redirect_allowed, now) is Some {
        rows
    } else {
        confirm_update(rows, code, now)
    }
}

/// The answer to a confirmation: the refusal where there is one, else where to
/// send the caller.
pub open spec fn confirm_answer(
    rows: Seq<AccountView>,
    code: Seq<char>,
    redirect_uri: Option<String>,
    redirect_allowed: bool,
    authenticated: bool,
    now: i64,
) -> Result<RedirectTarget, AuthError> {
    match confirm_refusal(rows, code, redirect_allowed, now) {
        Some(error) => Err(error),
        None => Ok(redirect_target(redirect_uri, authenticated)),
    }
}

/// Where identifiers are unique, the request update changes no row exactly
/// where the account is missing or its current address is not the old one.
pub proof fn lemma_request_rows_of_account(
    rows: Seq<AccountView>,
    user_id: Seq<u8>,
    old_email: Option<Seq<char>>,
)
    requires
        unique_ids(rows),
        has_id(rows, user_id),
    ensures
        request_rows(rows, user_id, old_email) == if row_of(rows, user_id).answers_request(
            user_id,
            old_email,
        ) {
            1nat
        } else {
            0nat
        },
{
    lemma_request_rows_unique(rows, user_id, old_email);
    lemma_request_rows_none(rows, user_id, old_email);
    let k = choose|i: int| 0 <= i < rows.len() && (#[trigger] rows[i]).id == user_id;
    if request_rows(rows, user_id, old_email) == 1 {
        let i = choose|i: int|
            0 <= i < rows.len() && (#[trigger] rows[i]).answers_request(user_id, old_email);
        assert(i == k);
    }
}

/// A confirm update that changes no row leaves the table as it is.
pub proof fn lemma_confirm_nothing(rows: Seq<AccountView>, code: Seq<char>, now: i64)
    requires
        confirm_rows(rows, code, now) == 0,
    ensures
        confirm_update(rows, code, now) == rows,
{
    lemma_confirm_rows_none(rows, code, now);
    assert(confirm_update(rows, code, now) =~= rows);
}

/// A request update that changes no row leaves the table as it is.
pub proof fn lemma_request_nothing(
    rows: Seq<AccountView>,
    user_id: Seq<u8>,
    old_email: Option<Seq<char>>,
    new_email: Seq<char>,
    code: Seq<char>,
    now: i64,
)
    requires
        request_rows(rows, user_id, old_email) == 0,
    ensures
        request_update(rows, user_id, old_email, new_email, code, now) == rows,
{
    lemma_request_rows_none(rows, user_id, old_email);
    assert(request_update(rows, user_id, old_email, new_email, code, now) =~= rows);
}

impl UserTable {
    /// Carries out a whole request on this table at the time `now`, with the
    /// fresh code `code`; `sent` says whether the mailer delivers. On success
    /// returns the notification that was handed to the mailer.
    pub fn request_email_change(
        &mut self,
        user: User,
        request: ChangeEmailRequest,
        json: bool,
        new_email_valid: bool,
        now: i64,
        code: String,
        sent: bool,
    ) -> (r: Result<Notification, AuthError>)
        requires
            old(self).wf(),
        ensures
            final(self).wf(),
            final(self)@ == request_table(
                old(self)@,
                user,
                request,
                json,
                new_email_valid,
                now,
                code@,
            ),
            match request_answer(old(self)@, user, request, json, new_email_valid, now, sent) {
                Ok(_) => r matches Ok(notification) && notification.email_verification_code@
                    == code@ && notification.recipient@ == row_of(
                    old(self)@,
                    uuid_bytes(user.uuid),
                ).email,
                Err(error) => r == Err::<Notification, AuthError>(error),
            },
    {
        let ghost rows = self@;
        let ghost user_bytes = uuid_bytes(user.uuid);
        let ghost old_text = text_of(request.old_email);
        let first = request_transition(
            RequestState::Start,
            RequestEvent::Request { user, request, json, new_email_valid },
            now,
            code.clone(),
        );
        let (state, user_id) = match first {
            (state, RequestAction::ReadUser { user_id }) => (state, user_id),
            (_, RequestAction::Respond { result: Err(error) }) => {
                return Err(error);
            },
            _ => unreached(),
        };
        let db_user = self.user_by_id(&user_id);
        let second = request_transition(state, RequestEvent::UserRead { db_user }, now, code);
        let (state, rows_affected) = match second {
            (
                state,
                RequestAction::Update { user_id, old_email, new_email, email_verification_code },
            ) => {
                proof {
                    lemma_request_rows_of_account(rows, user_bytes, old_text);
                }
                let rows_affected = self.execute_request(
                    &user_id,
                    &old_email,
                    &new_email,
                    &email_verification_code,
                    now,
                );
                proof {
                    if rows_affected == 0 {
                        lemma_request_nothing(rows, user_bytes, old_text, new_email@, code@, now);
                    }
                }
                (state, rows_affected)
            },
            (_, RequestAction::Respond { result: Err(error) }) => {
                return Err(error);
            },
            _ => unreached(),
        };
        let third = request_transition(
            state,
            RequestEvent::RowsAffected { rows_affected },
            now,
            String::new(),
        );
        let (state, notification) = match third {
            (state, RequestAction::SendEmail { recipient, email_verification_code }) => (
                state,
                Notification { recipient, email_verification_code },
            ),
            (_, RequestAction::Respond { result: Err(error) }) => {
                return Err(error);
            },
            _ => unreached(),
        };
        let fourth = request_transition(
            state,
            RequestEvent::Delivered { sent },
            now,
            String::new(),
        );
        match fourth {
            (_, RequestAction::Respond { result: Ok(_) }) => Ok(notification),
            (_, RequestAction::Respond { result: Err(error) }) => Err(error),
            _ => unreached(),
        }
    }

    /// Carries out a whole confirmation on this table at the time `now`.
    ///
    /// A code answers to at most one account: a table on which the update
    /// would change more rows than one is left out.
    pub fn confirm_email_change(
        &mut self,
        email_verification_code: String,
        redirect_uri: Option<String>,
        redirect_allowed: bool,
        authenticated: bool,
        now: i64,
    ) -> (r: Result<RedirectTarget, AuthError>)
        requires
            old(self).wf(),
            confirm_rows(old(self)@, email_verification_code@, now) <= 1,
        ensures
            final(self).wf(),
            final(self)@ == confirm_table(
                old(self)@,
                email_verification_code@,
                redirect_allowed,
                now,
            ),
            r == confirm_answer(
                old(self)@,
                email_verification_code@,
                redirect_uri,
                redirect_allowed,
                authenticated,
                now,
            ),
    {
        let ghost rows = self@;
        let first = change_email_confirm_handler(
            ConfirmState::Start,
            ConfirmEvent::Request {
                email_verification_code,
                redirect_uri,
                redirect_allowed,
                authenticated,
            },
        );
        let (state, rows_affected) = match first {
            (state, ConfirmAction::Update { email_verification_code }) => {
                let rows_affected = self.execute_confirm(&email_verification_code, now);
                proof {
                    if rows_affected == 0 {
                        lemma_confirm_nothing(rows, email_verification_code@, now);
                    }
                }
                (state, rows_affected)
            },
            (_, ConfirmAction::Respond { result }) => {
                return result;
            },
        };
        let second = change_email_confirm_handler(
            state,
            ConfirmEvent::RowsAffected { rows_affected },
        );
        match second {
            (_, ConfirmAction::Respond { result }) => result,
            _ => unreached(),
        }
    }
}

} // verus!
