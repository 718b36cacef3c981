use change_email::auth::{AuthError, Fault, RedirectTarget, Rejected, User};
use change_email::handler::ChangeEmailRequest;
use change_email::code::generate_verification_code;
use change_email::store::{same_id, Account, UserTable};
use uuid::Uuid;

const ALICE: [u8; 16] = [1; 16];
const BOB: [u8; 16] = [2; 16];
const CODE: &str = "abcdefghijklmnopqrstuvwx";
const OTHER_CODE: &str = "ABCDEFGHIJKLMNOPQRSTUVWX";

fn account(id: [u8; 16], email: &str) -> Account {
    Account {
        id,
        email: email.to_string(),
        verified: false,
        pending_email: None,
        email_verification_code: None,
        email_verification_code_sent_at: None,
    }
}

fn table() -> UserTable {
    let mut table = UserTable::new();
    assert!(table.insert(account(ALICE, "a@x.com")));
    assert!(table.insert(account(BOB, "bob@x.com")));
    table
}

fn alice() -> User {
    User {
        uuid: Uuid::from_bytes(ALICE),
        csrf_token: "token".to_string(),
    }
}

fn payload(old_email: Option<&str>, new_email: &str) -> ChangeEmailRequest {
    ChangeEmailRequest {
        csrf_token: "token".to_string(),
        old_email: old_email.map(|s| s.to_string()),
        new_email: new_email.to_string(),
    }
}

fn request(
    table: &mut UserTable,
    old_email: Option<&str>,
    new_email: &str,
    now: i64,
    code: &str,
) -> Result<(), AuthError> {
    table
        .request_email_change(
            alice(),
            payload(old_email, new_email),
            true,
            true,
            now,
            code.to_string(),
            true,
        )
        .map(|_| ())
}

fn confirm(table: &mut UserTable, code: &str, now: i64) -> Result<RedirectTarget, AuthError> {
    table.confirm_email_change(code.to_string(), None, true, false, now)
}

fn pending(table: &UserTable, id: &[u8; 16]) -> (Option<String>, Option<String>, Option<i64>) {
    let row = table.get(id).unwrap();
    (
        row.pending_email.clone(),
        row.email_verification_code.clone(),
        row.email_verification_code_sent_at,
    )
}

#[test]
fn same_id_compares_all_bytes() {
    assert!(same_id(&ALICE, &ALICE));
    assert!(!same_id(&ALICE, &BOB));
    let mut other = ALICE;
    other[15] = 0;
    assert!(!same_id(&ALICE, &other));
}

#[test]
fn table_starts_empty() {
    let table = UserTable::new();
    assert_eq!(table.len(), 0);
    assert!(table.get(&ALICE).is_none());
}

#[test]
fn insert_refuses_a_taken_identifier() {
    let mut table = table();
    assert_eq!(table.len(), 2);
    assert!(!table.insert(account(ALICE, "again@x.com")));
    assert_eq!(table.len(), 2);
    assert_eq!(table.get(&ALICE).unwrap().email, "a@x.com");
}

#[test]
fn insert_refuses_a_row_with_half_a_pending_change() {
    let mut table = UserTable::new();
    let mut row = account(ALICE, "a@x.com");
    row.pending_email = Some("b@x.com".to_string());
    assert!(!table.insert(row));
    let mut row = account(ALICE, "a@x.com");
    row.email_verification_code = Some(CODE.to_string());
    row.email_verification_code_sent_at = Some(5);
    assert!(!table.insert(row));
    let mut row = account(ALICE, "a@x.com");
    row.pending_email = Some("b@x.com".to_string());
    row.email_verification_code = Some(CODE.to_string());
    row.email_verification_code_sent_at = Some(5);
    assert!(table.insert(row));
    assert_eq!(table.len(), 1);
}

#[test]
fn user_by_id_projects_the_account() {
    let mut table = table();
    let found = table.user_by_id(&Uuid::from_bytes(ALICE)).unwrap();
    assert_eq!(found.email, "a@x.com");
    assert_eq!(found.email_verification_code_sent_at, None);
    request(&mut table, None, "b@x.com", 77, CODE).unwrap();
    let found = table.user_by_id(&Uuid::from_bytes(ALICE)).unwrap();
    assert_eq!(found.email, "a@x.com");
    assert_eq!(found.email_verification_code_sent_at, Some(77));
    assert!(table.user_by_id(&Uuid::from_bytes([9; 16])).is_none());
}

#[test]
fn execute_request_reports_the_rows_it_changed() {
    let mut table = table();
    let alice_id = Uuid::from_bytes(ALICE);
    let new_email = "b@x.com".to_string();
    let code = CODE.to_string();
    assert_eq!(
        table.execute_request(&alice_id, &Some("wrong@x.com".to_string()), &new_email, &code, 5),
        0
    );
    assert_eq!(pending(&table, &ALICE), (None, None, None));
    assert_eq!(
        table.execute_request(&Uuid::from_bytes([9; 16]), &None, &new_email, &code, 5),
        0
    );
    assert_eq!(
        table.execute_request(&alice_id, &Some("a@x.com".to_string()), &new_email, &code, 5),
        1
    );
    assert_eq!(
        pending(&table, &ALICE),
        (Some("b@x.com".to_string()), Some(CODE.to_string()), Some(5))
    );
    assert_eq!(pending(&table, &BOB), (None, None, None));
    assert_eq!(table.execute_request(&alice_id, &None, &new_email, &code, 6), 1);
}

#[test]
fn execute_confirm_reports_the_rows_it_changed() {
    let mut table = table();
    request(&mut table, None, "b@x.com", 100, CODE).unwrap();
    assert_eq!(table.execute_confirm(&OTHER_CODE.to_string(), 200), 0);
    assert_eq!(table.execute_confirm(&CODE.to_string(), 100 + 3600), 0);
    assert_eq!(table.get(&ALICE).unwrap().email, "a@x.com");
    assert_eq!(table.execute_confirm(&CODE.to_string(), 200), 1);
    let row = table.get(&ALICE).unwrap();
    assert_eq!(row.email, "b@x.com");
    assert!(row.verified);
    assert_eq!(pending(&table, &ALICE), (None, None, None));
    assert_eq!(table.execute_confirm(&CODE.to_string(), 200), 0);
}

#[test]
fn scenario_request_then_confirm() {
    let mut table = UserTable::new();
    assert!(table.insert(account(ALICE, "a@x.com")));
    let code = generate_verification_code();
    let notification = table
        .request_email_change(
            alice(),
            payload(Some("a@x.com"), "b@x.com"),
            false,
            true,
            1_700_000_000,
            code.clone(),
            true,
        )
        .unwrap();
    assert_eq!(notification.recipient, "a@x.com");
    assert_eq!(notification.email_verification_code, code);
    let row = table.get(&ALICE).unwrap();
    assert_eq!(row.email, "a@x.com");
    assert!(!row.verified);
    assert_eq!(row.pending_email.as_deref(), Some("b@x.com"));
    assert_eq!(row.email_verification_code.as_deref(), Some(code.as_str()));
    assert_eq!(row.email_verification_code_sent_at, Some(1_700_000_000));

    let target = table
        .confirm_email_change(code, None, true, false, 1_700_000_060)
        .unwrap();
    assert_eq!(target, RedirectTarget::Login);
    let row = table.get(&ALICE).unwrap();
    assert_eq!(row.id, ALICE);
    assert_eq!(row.email, "b@x.com");
    assert!(row.verified);
    assert_eq!(row.pending_email, None);
    assert_eq!(row.email_verification_code, None);
    assert_eq!(row.email_verification_code_sent_at, None);
}

#[test]
fn scenario_confirm_with_unknown_code() {
    let mut table = table();
    request(&mut table, None, "b@x.com", 100, CODE).unwrap();
    let error = confirm(&mut table, OTHER_CODE, 200).unwrap_err();
    assert_eq!(error, AuthError::BadRequest(Rejected::InvalidVerificationCode));
    match error {
        AuthError::BadRequest(reason) => assert_eq!(reason.message(), "invalid verification code"),
        other => panic!("{other:?}"),
    }
    let row = table.get(&ALICE).unwrap();
    assert_eq!(row.email, "a@x.com");
    assert!(!row.verified);
    assert_eq!(
        pending(&table, &ALICE),
        (Some("b@x.com".to_string()), Some(CODE.to_string()), Some(100))
    );
    assert_eq!(pending(&table, &BOB), (None, None, None));
    assert_eq!(table.get(&BOB).unwrap().email, "bob@x.com");
}

#[test]
fn confirm_succeeds_at_most_once() {
    let mut table = table();
    request(&mut table, None, "b@x.com", 100, CODE).unwrap();
    assert_eq!(confirm(&mut table, CODE, 200), Ok(RedirectTarget::Login));
    assert_eq!(
        confirm(&mut table, CODE, 200),
        Err(AuthError::BadRequest(Rejected::InvalidVerificationCode))
    );
    assert_eq!(
        confirm(&mut table, CODE, 5_000),
        Err(AuthError::BadRequest(Rejected::InvalidVerificationCode))
    );
    assert_eq!(table.get(&ALICE).unwrap().email, "b@x.com");
}

#[test]
fn confirm_fails_once_the_code_has_expired() {
    let mut table = table();
    request(&mut table, None, "b@x.com", 1_000, CODE).unwrap();
    assert_eq!(
        confirm(&mut table, CODE, 1_000 + 3_600),
        Err(AuthError::BadRequest(Rejected::InvalidVerificationCode))
    );
    assert_eq!(
        confirm(&mut table, CODE, 1_000_000),
        Err(AuthError::BadRequest(Rejected::InvalidVerificationCode))
    );
    assert_eq!(
        pending(&table, &ALICE),
        (Some("b@x.com".to_string()), Some(CODE.to_string()), Some(1_000))
    );
    assert_eq!(table.get(&ALICE).unwrap().email, "a@x.com");
}

#[test]
fn confirm_succeeds_in_the_last_second() {
    let mut table = table();
    request(&mut table, None, "b@x.com", 1_000, CODE).unwrap();
    assert_eq!(
        confirm(&mut table, CODE, 1_000 + 3_599),
        Ok(RedirectTarget::Login)
    );
    assert_eq!(table.get(&ALICE).unwrap().email, "b@x.com");
}

#[test]
fn confirm_honours_hint_and_session() {
    let mut table = table();
    request(&mut table, None, "b@x.com", 0, CODE).unwrap();
    assert_eq!(
        table.confirm_email_change(CODE.to_string(), Some("/next".to_string()), true, true, 1),
        Ok(RedirectTarget::Uri("/next".to_string()))
    );
    request(&mut table, None, "c@x.com", 100, OTHER_CODE).unwrap();
    assert_eq!(
        table.confirm_email_change(OTHER_CODE.to_string(), None, true, true, 101),
        Ok(RedirectTarget::Profile)
    );
    assert_eq!(table.get(&ALICE).unwrap().email, "c@x.com");
}

#[test]
fn refused_confirm_leaves_the_table_alone() {
    let mut table = table();
    request(&mut table, None, "b@x.com", 0, CODE).unwrap();
    assert_eq!(
        table.confirm_email_change(CODE.to_string(), Some("/bad".to_string()), false, true, 1),
        Err(AuthError::BadRequest(Rejected::InvalidRedirect))
    );
    assert_eq!(
        table.confirm_email_change("short".to_string(), None, true, true, 1),
        Err(AuthError::BadRequest(Rejected::InvalidCode))
    );
    assert_eq!(table.get(&ALICE).unwrap().email, "a@x.com");
    assert_eq!(
        pending(&table, &ALICE),
        (Some("b@x.com".to_string()), Some(CODE.to_string()), Some(0))
    );
}

#[test]
fn second_request_within_the_rate_limit_fails() {
    let mut table = table();
    request(&mut table, None, "b@x.com", 1_000, CODE).unwrap();
    assert_eq!(
        request(&mut table, None, "c@x.com", 1_009, OTHER_CODE),
        Err(AuthError::BadRequest(Rejected::IssuedAlready))
    );
    assert_eq!(
        pending(&table, &ALICE),
        (Some("b@x.com".to_string()), Some(CODE.to_string()), Some(1_000))
    );
}

#[test]
fn second_request_after_the_rate_limit_overwrites() {
    let mut table = table();
    request(&mut table, None, "b@x.com", 1_000, CODE).unwrap();
    assert_eq!(request(&mut table, None, "c@x.com", 1_010, OTHER_CODE), Ok(()));
    assert_eq!(
        pending(&table, &ALICE),
        (
            Some("c@x.com".to_string()),
            Some(OTHER_CODE.to_string()),
            Some(1_010)
        )
    );
    assert_eq!(
        confirm(&mut table, CODE, 1_020),
        Err(AuthError::BadRequest(Rejected::InvalidVerificationCode))
    );
    assert_eq!(confirm(&mut table, OTHER_CODE, 1_020), Ok(RedirectTarget::Login));
    assert_eq!(table.get(&ALICE).unwrap().email, "c@x.com");
}

#[test]
fn request_with_wrong_old_email_changes_nothing() {
    let mut table = table();
    request(&mut table, None, "b@x.com", 1_000, CODE).unwrap();
    assert_eq!(
        request(&mut table, Some("wrong@x.com"), "c@x.com", 2_000, OTHER_CODE),
        Err(AuthError::BadRequest(Rejected::FailedToChange))
    );
    assert_eq!(
        pending(&table, &ALICE),
        (Some("b@x.com".to_string()), Some(CODE.to_string()), Some(1_000))
    );
    assert_eq!(table.get(&ALICE).unwrap().email, "a@x.com");
}

#[test]
fn request_for_an_unknown_account_is_forbidden() {
    let mut table = UserTable::new();
    assert!(table.insert(account(BOB, "bob@x.com")));
    assert_eq!(
        request(&mut table, None, "b@x.com", 1_000, CODE),
        Err(AuthError::Forbidden)
    );
    assert_eq!(pending(&table, &BOB), (None, None, None));
}

#[test]
fn request_with_corrupt_issuance_time_is_an_internal_fault() {
    let mut table = UserTable::new();
    let mut row = account(ALICE, "a@x.com");
    row.pending_email = Some("b@x.com".to_string());
    row.email_verification_code = Some(CODE.to_string());
    row.email_verification_code_sent_at = Some(i64::MAX);
    assert!(table.insert(row));
    assert_eq!(
        request(&mut table, None, "c@x.com", 1_000, OTHER_CODE),
        Err(AuthError::Internal(Fault::InvalidTimestamp))
    );
    assert_eq!(
        pending(&table, &ALICE),
        (Some("b@x.com".to_string()), Some(CODE.to_string()), Some(i64::MAX))
    );
}

#[test]
fn failed_notification_keeps_the_pending_change() {
    let mut table = table();
    let result = table.request_email_change(
        alice(),
        payload(Some("a@x.com"), "b@x.com"),
        true,
        true,
        1_000,
        CODE.to_string(),
        false,
    );
    assert_eq!(result.unwrap_err(), AuthError::Internal(Fault::Notification));
    assert_eq!(
        pending(&table, &ALICE),
        (Some("b@x.com".to_string()), Some(CODE.to_string()), Some(1_000))
    );
    assert_eq!(confirm(&mut table, CODE, 1_001), Ok(RedirectTarget::Login));
}

#[test]
fn request_touches_only_the_callers_account() {
    let mut table = table();
    request(&mut table, Some("a@x.com"), "b@x.com", 1_000, CODE).unwrap();
    assert_eq!(pending(&table, &BOB), (None, None, None));
    assert_eq!(table.get(&BOB).unwrap().email, "bob@x.com");
    assert_eq!(confirm(&mut table, CODE, 1_001), Ok(RedirectTarget::Login));
    assert_eq!(table.get(&BOB).unwrap().email, "bob@x.com");
    assert!(!table.get(&BOB).unwrap().verified);
}

#[test]
fn each_code_answers_to_one_account() {
    let mut table = table();
    request(&mut table, None, "b@x.com", 1_000, CODE).unwrap();
    let result = table.request_email_change(
        User {
            uuid: Uuid::from_bytes(BOB),
            csrf_token: "bobs".to_string(),
        },
        ChangeEmailRequest {
            csrf_token: "bobs".to_string(),
            old_email: Some("bob@x.com".to_string()),
            new_email: "robert@x.com".to_string(),
        },
        false,
        true,
        1_001,
        OTHER_CODE.to_string(),
        true,
    );
    assert_eq!(result.unwrap().recipient, "bob@x.com");
    assert_eq!(table.execute_confirm(&OTHER_CODE.to_string(), 1_002), 1);
    assert_eq!(table.get(&BOB).unwrap().email, "robert@x.com");
    assert_eq!(table.get(&ALICE).unwrap().email, "a@x.com");
    assert_eq!(table.execute_confirm(&CODE.to_string(), 1_002), 1);
    assert_eq!(table.get(&ALICE).unwrap().email, "b@x.com");
    assert_eq!(table.len(), 2);
}
