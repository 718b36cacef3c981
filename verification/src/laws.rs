//! What holds of every run of the workflow against the account table.

use crate::auth::{redirect_target, AuthError, RedirectTarget, User};
use crate::handler::ChangeEmailRequest;
use crate::code::{is_verification_code, lemma_code_has_required_length};
use crate::constants::{RATE_LIMIT_SEC, TTL_SEC};
use crate::flow::{
    confirm_answer, confirm_refusal, confirm_table, lemma_confirm_nothing, lemma_request_nothing,
    lemma_request_rows_of_account, request_answer, request_refusal, request_table,
};
use crate::rate_limit::timestamp_in_range;
use crate::store::{
    confirm_rows, confirm_update, has_id, holds_code, lemma_confirm_rows_none,
    lemma_confirm_rows_single, lemma_confirm_rows_unique, request_rows, request_update, row_of,
    rows_wf, text_of, unique_codes, unique_ids, AccountView,
};
use crate::util::uuid_bytes;
use vstd::prelude::*;

verus! {

/// Both updates keep identifiers unique and rows well-formed.
pub proof fn law_updates_keep_table_valid(
    rows: Seq<AccountView>,
    user_id: Seq<u8>,
    old_email: Option<Seq<char>>,
    new_email: Seq<char>,
    code: Seq<char>,
    now: i64,
)
    requires
        unique_ids(rows),
        rows_wf(rows),
    ensures
        unique_ids(request_update(rows, user_id, old_email, new_email, code, now)),
        rows_wf(request_update(rows, user_id, old_email, new_email, code, now)),
        unique_ids(confirm_update(rows, code, now)),
        rows_wf(confirm_update(rows, code, now)),
{
    let requested = request_update(rows, user_id, old_email, new_email, code, now);
    assert forall|i: int| 0 <= i < requested.len() implies (#[trigger] requested[i]).wf() by {
        assert(rows[i].wf());
    }
    let confirmed = confirm_update(rows, code, now);
    assert forall|i: int| 0 <= i < confirmed.len() implies (#[trigger] confirmed[i]).wf() by {
        assert(rows[i].wf());
    }
}

/// Codes stay unique: while every request comes with a code that no row
/// holds, no two rows ever hold the same code, and so no confirmation changes
/// more rows than one.
pub proof fn law_codes_stay_unique(
    rows: Seq<AccountView>,
    user_id: Seq<u8>,
    old_email: Option<Seq<char>>,
    new_email: Seq<char>,
    fresh_code: Seq<char>,
    code: Seq<char>,
    now: i64,
)
    requires
        unique_ids(rows),
        unique_codes(rows),
        !holds_code(rows, fresh_code),
    ensures
        unique_codes(request_update(rows, user_id, old_email, new_email, fresh_code, now)),
        unique_codes(confirm_update(rows, code, now)),
        confirm_rows(rows, code, now) <= 1,
{
    let requested = request_update(rows, user_id, old_email, new_email, fresh_code, now);
    assert forall|i: int, j: int|
        0 <= i < requested.len() && 0 <= j < requested.len() && i != j
            && requested[i].email_verification_code
            is Some implies requested[i].email_verification_code
        != requested[j].email_verification_code by {
        assert(rows[i].id != rows[j].id);
        assert(rows[i].email_verification_code != Some(fresh_code));
        assert(rows[j].email_verification_code != Some(fresh_code));
    }
    let confirmed = confirm_update(rows, code, now);
    assert forall|i: int, j: int|
        0 <= i < confirmed.len() && 0 <= j < confirmed.len() && i != j
            && confirmed[i].email_verification_code
            is Some implies confirmed[i].email_verification_code
        != confirmed[j].email_verification_code by {
        assert(confirmed[i] == rows[i]);
        if rows[j].answers_confirm(code, now) {
            assert(confirmed[j].email_verification_code is None);
        } else {
            assert(confirmed[j] == rows[j]);
        }
    }
    lemma_confirm_rows_unique(rows, code, now);
}

/// A code confirms at most once: after a confirmation that succeeded, every
/// confirmation with the same code at that time or later is refused as a bad
/// request and changes nothing.
pub proof fn law_confirm_at_most_once(
    rows: Seq<AccountView>,
    code: Seq<char>,
    first_redirect_uri: Option<String>,
    first_redirect_allowed: bool,
    first_authenticated: bool,
    first_now: i64,
    second_redirect_uri: Option<String>,
    second_redirect_allowed: bool,
    second_authenticated: bool,
    second_now: i64,
)
    requires
        confirm_answer(
            rows,
            code,
            first_redirect_uri,
            first_redirect_allowed,
            first_authenticated,
            first_now,
        ) is Ok,
        first_now <= second_now,
    ensures
        ({
            let after = confirm_table(rows, code, first_redirect_allowed, first_now);
            &&& confirm_rows(after, code, second_now) == 0
            &&& confirm_answer(
                after,
                code,
                second_redirect_uri,
                second_redirect_allowed,
                second_authenticated,
                second_now,
            ) matches Err(AuthError::BadRequest(_))
            &&& confirm_table(after, code, second_redirect_allowed, second_now) == after
        }),
{
    let after = confirm_update(rows, code, first_now);
    assert(after == confirm_table(rows, code, first_redirect_allowed, first_now));
    assert forall|i: int| 0 <= i < after.len() implies !(#[trigger] after[i]).answers_confirm(
        code,
        second_now,
    ) by {
        if rows[i].answers_confirm(code, first_now) {
            assert(after[i] == rows[i].confirmed());
        } else {
            assert(after[i] == rows[i]);
        }
    }
    lemma_confirm_rows_none(after, code, second_now);
    lemma_confirm_nothing(after, code, second_now);
}

/// A code expires: once the time to live has passed since `code` was issued,
/// wherever the table holds it, a confirmation with it is refused as a bad
/// request, and the table, the stored code included, stays as it is.
pub proof fn law_expired_code_is_refused(
    rows: Seq<AccountView>,
    code: Seq<char>,
    redirect_uri: Option<String>,
    redirect_allowed: bool,
    authenticated: bool,
    now: i64,
)
    requires
        forall|i: int|
            0 <= i < rows.len() && (#[trigger] rows[i]).email_verification_code == Some(code)
                ==> (rows[i].email_verification_code_sent_at matches Some(issued) && now - issued
                >= TTL_SEC),
    ensures
        confirm_rows(rows, code, now) == 0,
        confirm_answer(rows, code, redirect_uri, redirect_allowed, authenticated, now) matches Err(
            AuthError::BadRequest(_),
        ),
        confirm_table(rows, code, redirect_allowed, now) == rows,
{
    assert forall|i: int| 0 <= i < rows.len() implies !(#[trigger] rows[i]).answers_confirm(
        code,
        now,
    ) by {}
    lemma_confirm_rows_none(rows, code, now);
    lemma_confirm_nothing(rows, code, now);
}

/// The code of an accepted request expires: issued at `issued_at` under a code
/// that no row held before, it is stored on the account, and a confirmation
/// with it once the time to live has passed is refused as a bad request and
/// changes nothing.
pub proof fn law_issued_code_expires(
    rows: Seq<AccountView>,
    user: User,
    request: ChangeEmailRequest,
    json: bool,
    new_email_valid: bool,
    issued_at: i64,
    code: Seq<char>,
    redirect_uri: Option<String>,
    redirect_allowed: bool,
    authenticated: bool,
    now: i64,
)
    requires
        unique_ids(rows),
        request_refusal(rows, user, request, json, new_email_valid, issued_at) is None,
        forall|i: int|
            0 <= i < rows.len() ==> (#[trigger] rows[i]).email_verification_code != Some(code),
        now - issued_at >= TTL_SEC,
    ensures
        ({
            let after = request_table(rows, user, request, json, new_email_valid, issued_at, code);
            &&& has_id(after, uuid_bytes(user.uuid))
            &&& row_of(after, uuid_bytes(user.uuid)).email_verification_code == Some(code)
            &&& confirm_answer(
                after,
                code,
                redirect_uri,
                redirect_allowed,
                authenticated,
                now,
            ) matches Err(AuthError::BadRequest(_))
            &&& confirm_table(after, code, redirect_allowed, now) == after
        }),
{
    let user_id = uuid_bytes(user.uuid);
    let after = request_table(rows, user, request, json, new_email_valid, issued_at, code);
    lemma_requested_row(rows, user, request, json, new_email_valid, issued_at, code);
    assert forall|i: int|
        0 <= i < after.len() && (#[trigger] after[i]).email_verification_code == Some(
            code,
        ) implies (after[i].email_verification_code_sent_at matches Some(issued) && now - issued
        >= TTL_SEC) by {
        if !rows[i].answers_request(user_id, text_of(request.old_email)) {
            assert(after[i] == rows[i]);
        }
    }
    law_expired_code_is_refused(after, code, redirect_uri, redirect_allowed, authenticated, now);
}

/// After an accepted request the caller's account is the row it was, with the
/// change pending under the fresh code and the time of the request.
pub proof fn lemma_requested_row(
    rows: Seq<AccountView>,
    user: User,
    request: ChangeEmailRequest,
    json: bool,
    new_email_valid: bool,
    now: i64,
    code: Seq<char>,
)
    requires
        unique_ids(rows),
        request_refusal(rows, user, request, json, new_email_valid, now) is None,
    ensures
        ({
            let after = request_table(rows, user, request, json, new_email_valid, now, code);
            &&& unique_ids(after)
            &&& has_id(after, uuid_bytes(user.uuid))
            &&& row_of(after, uuid_bytes(user.uuid)) == row_of(
                rows,
                uuid_bytes(user.uuid),
            ).requested(request.new_email@, code, now)
        }),
{
    let user_id = uuid_bytes(user.uuid);
    let after = request_table(rows, user, request, json, new_email_valid, now, code);
    let k = choose|i: int| 0 <= i < rows.len() && (#[trigger] rows[i]).id == user_id;
    assert(rows[k].answers_request(user_id, text_of(request.old_email)));
    assert(after[k] == rows[k].requested(request.new_email@, code, now));
    assert(after[k].id == user_id);
    let j = choose|i: int| 0 <= i < after.len() && (#[trigger] after[i]).id == user_id;
    assert(rows[j].id == after[j].id);
    assert(j == k);
}

/// The workflow as a whole: the code of an accepted request, drawn afresh and
/// presented before the time to live has passed, with a redirect that is
/// allowed, confirms. The caller is sent on, and the account is what it was
/// with the new address current and verified and nothing pending.
pub proof fn law_issued_code_confirms(
    rows: Seq<AccountView>,
    user: User,
    request: ChangeEmailRequest,
    json: bool,
    new_email_valid: bool,
    issued_at: i64,
    code: Seq<char>,
    redirect_uri: Option<String>,
    authenticated: bool,
    now: i64,
)
    requires
        unique_ids(rows),
        request_refusal(rows, user, request, json, new_email_valid, issued_at) is None,
        is_verification_code(code),
        !holds_code(rows, code),
        now - issued_at < TTL_SEC,
    ensures
        ({
            let before = row_of(rows, uuid_bytes(user.uuid));
            let after = request_table(rows, user, request, json, new_email_valid, issued_at, code);
            let last = confirm_table(after, code, true, now);
            &&& confirm_rows(after, code, now) == 1
            &&& confirm_answer(after, code, redirect_uri, true, authenticated, now) == Ok::<
                RedirectTarget,
                AuthError,
            >(redirect_target(redirect_uri, authenticated))
            &&& has_id(last, uuid_bytes(user.uuid))
            &&& row_of(last, uuid_bytes(user.uuid)) == AccountView {
                email: request.new_email@,
                verified: true,
                pending_email: None,
                email_verification_code: None,
                email_verification_code_sent_at: None,
                ..before
            }
        }),
{
    let user_id = uuid_bytes(user.uuid);
    let after = request_table(rows, user, request, json, new_email_valid, issued_at, code);
    lemma_requested_row(rows, user, request, json, new_email_valid, issued_at, code);
    lemma_code_has_required_length(code);
    let k = choose|i: int| 0 <= i < after.len() && (#[trigger] after[i]).id == user_id;
    assert(after[k].answers_confirm(code, now));
    lemma_confirm_rows_none(after, code, now);
    assert forall|i: int, j: int|
        0 <= i < after.len() && 0 <= j < after.len() && i != j && after[i].answers_confirm(
            code,
            now,
        ) implies !after[j].answers_confirm(code, now) by {
        assert(rows[i].id != rows[j].id);
        assert(rows[i].email_verification_code != Some(code));
        assert(rows[j].email_verification_code != Some(code));
    }
    lemma_confirm_rows_single(after, code, now, k);
    assert(confirm_refusal(after, code, true, now) is None);
    let last = confirm_update(after, code, now);
    assert(last[k] == after[k].confirmed());
    assert(last[k].id == user_id);
    let j = choose|i: int| 0 <= i < last.len() && (#[trigger] last[i]).id == user_id;
    assert(after[j].id == last[j].id);
    assert(j == k);
}

/// Rate limiting: after an accepted request at `first_now`, a second request
/// for the same account less than the rate limit later is refused as a bad
/// request and changes nothing. Once the rate limit has passed, a second
/// request that passes the checks on the payload is accepted and puts its own
/// address, code and time in place of the pending ones.
///
/// The time of the first request is taken to be a representable date, as
/// every time that a clock gives is; and the principal of the second request
/// to have sent the anti-forgery token of its session.
pub proof fn law_rate_limit(
    rows: Seq<AccountView>,
    first_user: User,
    first_request: ChangeEmailRequest,
    first_json: bool,
    first_email_valid: bool,
    first_now: i64,
    first_code: Seq<char>,
    second_user: User,
    second_request: ChangeEmailRequest,
    second_json: bool,
    second_email_valid: bool,
    second_now: i64,
    second_code: Seq<char>,
    sent: bool,
)
    requires
        unique_ids(rows),
        request_refusal(rows, first_user, first_request, first_json, first_email_valid, first_now)
            is None,
        timestamp_in_range(first_now),
        uuid_bytes(second_user.uuid) == uuid_bytes(first_user.uuid),
        second_request.csrf_token@ == second_user.csrf_token@,
    ensures
        ({
            let after = request_table(
                rows,
                first_user,
                first_request,
                first_json,
                first_email_valid,
                first_now,
                first_code,
            );
            let account = row_of(after, uuid_bytes(first_user.uuid));
            let last = request_table(
                after,
                second_user,
                second_request,
                second_json,
                second_email_valid,
                second_now,
                second_code,
            );
            let answer = request_answer(
                after,
                second_user,
                second_request,
                second_json,
                second_email_valid,
                second_now,
                sent,
            );
            &&& second_now - first_now < RATE_LIMIT_SEC ==> {
                &&& answer matches Err(AuthError::BadRequest(_))
                &&& last == after
            }
            &&& (second_now - first_now >= RATE_LIMIT_SEC && (second_json
                || second_request.old_email is Some) && second_email_valid && (text_of(
                second_request.old_email,
            ) matches Some(old) ==> account.email == old)) ==> {
                &&& request_refusal(
                    after,
                    second_user,
                    second_request,
                    second_json,
                    second_email_valid,
                    second_now,
                ) is None
                &&& sent ==> answer is Ok
                &&& row_of(last, uuid_bytes(first_user.uuid)) == account.requested(
                    second_request.new_email@,
                    second_code,
                    second_now,
                )
            }
        }),
{
    lemma_requested_row(
        rows,
        first_user,
        first_request,
        first_json,
        first_email_valid,
        first_now,
        first_code,
    );
    let after = request_table(
        rows,
        first_user,
        first_request,
        first_json,
        first_email_valid,
        first_now,
        first_code,
    );
    if request_refusal(
        after,
        second_user,
        second_request,
        second_json,
        second_email_valid,
        second_now,
    ) is None {
        lemma_requested_row(
            after,
            second_user,
            second_request,
            second_json,
            second_email_valid,
            second_now,
            second_code,
        );
    }
}

/// The old-value guard: a request that names an old address which is not the
/// current one changes no row and is refused as a bad request; the table, and
/// with it whatever was pending, stays as it is.
///
/// The account is taken to exist, its stored issuance time, if any, to be a
/// representable date, and the principal to have sent the anti-forgery token
/// of its session: without these the request is refused on other grounds.
pub proof fn law_old_value_guard(
    rows: Seq<AccountView>,
    user: User,
    request: ChangeEmailRequest,
    json: bool,
    new_email_valid: bool,
    now: i64,
    code: Seq<char>,
    sent: bool,
)
    requires
        unique_ids(rows),
        has_id(rows, uuid_bytes(user.uuid)),
        text_of(request.old_email) matches Some(old) && row_of(rows, uuid_bytes(user.uuid)).email
            != old,
        request.csrf_token@ == user.csrf_token@,
        row_of(rows, uuid_bytes(user.uuid)).email_verification_code_sent_at matches Some(issued)
            ==> timestamp_in_range(issued),
    ensures
        request_rows(rows, uuid_bytes(user.uuid), text_of(request.old_email)) == 0,
        request_update(
            rows,
            uuid_bytes(user.uuid),
            text_of(request.old_email),
            request.new_email@,
            code,
            now,
        ) == rows,
        request_answer(rows, user, request, json, new_email_valid, now, sent) matches Err(
            AuthError::BadRequest(_),
        ),
        request_table(rows, user, request, json, new_email_valid, now, code) == rows,
{
    let user_id = uuid_bytes(user.uuid);
    lemma_request_rows_of_account(rows, user_id, text_of(request.old_email));
    lemma_request_nothing(rows, user_id, text_of(request.old_email), request.new_email@, code, now);
}

} // verus!
