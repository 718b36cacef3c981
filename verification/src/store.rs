//! The account table as the workflow sees it: rows with a current and a
//! pending address, and the two conditional updates, each of which reports how
//! many rows it changed.

use crate::auth::DbUser;
use crate::constants::TTL_SEC;
use crate::util::uuid_bytes;
use uuid::Uuid;
use vstd::prelude::*;

verus! {

/// One row of the account table.
#[derive(Debug)]
pub struct Account {
    /// The identifier; it never changes.
    pub id: [u8; 16],
    /// The current address.
    pub email: String,
    /// Whether the current address has been confirmed by its owner.
    pub verified: bool,
    /// The address asked for, while a change is outstanding.
    pub pending_email: Option<String>,
    /// The code that confirms the outstanding change.
    pub email_verification_code: Option<String>,
    /// When that code was issued, in seconds since the Unix epoch.
    pub email_verification_code_sent_at: Option<i64>,
}

/// An account as a value: its texts as sequences of characters.
pub struct AccountView {
    pub id: Seq<u8>,
    pub email: Seq<char>,
    pub verified: bool,
    pub pending_email: Option<Seq<char>>,
    pub email_verification_code: Option<Seq<char>>,
    pub email_verification_code_sent_at: Option<i64>,
}

/// The characters of a text that may be absent.
pub open spec fn text_of(field: Option<String>) -> Option<Seq<char>> {
    match field {
        Some(text) => Some(text@),
        None => None,
    }
}

impl View for Account {
    type V = AccountView;

    open spec fn view(&self) -> AccountView {
        AccountView {
            id: self.id@,
            email: self.email@,
            verified: self.verified,
            pending_email: text_of(self.pending_email),
            email_verification_code: text_of(self.email_verification_code),
            email_verification_code_sent_at: self.email_verification_code_sent_at,
        }
    }
}

impl AccountView {
    /// A pending address, a code and its time are there together or not at all.
    pub open spec fn wf(self) -> bool {
        &&& self.pending_email is Some <==> self.email_verification_code is Some
        &&& self.pending_email is Some <==> self.email_verification_code_sent_at is Some
    }

    /// The guard of the request update: this is the account, and its current
    /// address is the old one where an old one is given.
    pub open spec fn answers_request(self, user_id: Seq<u8>, old_email: Option<Seq<char>>) -> bool {
        self.id == user_id && (old_email matches Some(old) ==> self.email == old)
    }

    /// The row after the request update: the change is pending under `code`,
    /// issued at `now`. A change that was pending before is gone.
    pub open spec fn requested(self, new_email: Seq<char>, code: Seq<char>, now: i64) -> AccountView {
        AccountView {
            pending_email: Some(new_email),
            email_verification_code: Some(code),
            email_verification_code_sent_at: Some(now),
            ..self
        }
    }

    /// The guard of the confirm update: the row holds `code`, issued less than
    /// the time to live before `now`, and a pending address.
    pub open spec fn answers_confirm(self, code: Seq<char>, now: i64) -> bool {
        &&& self.email_verification_code == Some(code)
        &&& self.email_verification_code_sent_at matches Some(issued) && issued > now - TTL_SEC
        &&& self.pending_email is Some
    }

    /// The row after the confirm update: the pending address is the current
    /// one and verified, and nothing is pending.
    pub open spec fn confirmed(self) -> AccountView {
        AccountView {
            email: self.pending_email->0,
            verified: true,
            pending_email: None,
            email_verification_code: None,
            email_verification_code_sent_at: None,
            ..self
        }
    }
}

/// No two rows have the same identifier.
pub open spec fn unique_ids(rows: Seq<AccountView>) -> bool {
    forall|i: int, j: int|
        0 <= i < rows.len() && 0 <= j < rows.len() && i != j ==> rows[i].id != rows[j].id
}

/// No two rows hold the same verification code.
pub open spec fn unique_codes(rows: Seq<AccountView>) -> bool {
    forall|i: int, j: int|
        0 <= i < rows.len() && 0 <= j < rows.len() && i != j && rows[i].email_verification_code
            is Some ==> rows[i].email_verification_code != rows[j].email_verification_code
}

/// Whether some row holds the verification code `code`.
pub open spec fn holds_code(rows: Seq<AccountView>, code: Seq<char>) -> bool {
    exists|i: int| 0 <= i < rows.len() && (#[trigger] rows[i]).email_verification_code == Some(code)
}

/// Every row is well-formed.
pub open spec fn rows_wf(rows: Seq<AccountView>) -> bool {
    forall|i: int| 0 <= i < rows.len() ==> (#[trigger] rows[i]).wf()
}

/// Whether some row has the identifier `id`.
pub open spec fn has_id(rows: Seq<AccountView>, id: Seq<u8>) -> bool {
    exists|i: int| 0 <= i < rows.len() && (#[trigger] rows[i]).id == id
}

/// The row with the identifier `id`, where there is one.
pub open spec fn row_of(rows: Seq<AccountView>, id: Seq<u8>) -> AccountView {
    rows[choose|i: int| 0 <= i < rows.len() && (#[trigger] rows[i]).id == id]
}

/// How many rows the request update changes.
pub open spec fn request_rows(
    rows: Seq<AccountView>,
    user_id: Seq<u8>,
    old_email: Option<Seq<char>>,
) -> nat
    decreases rows.len(),
{
    if rows.len() == 0 {
        0
    } else {
        request_rows(rows.drop_last(), user_id, old_email) + if rows.last().answers_request(
            user_id,
            old_email,
        ) {
            1nat
        } else {
            0nat
        }
    }
}

/// The table after the request update: every row that answers it is changed,
/// every other row is as before.
pub open spec fn request_update(
    rows: Seq<AccountView>,
    user_id: Seq<u8>,
    old_email: Option<Seq<char>>,
    new_email: Seq<char>,
    code: Seq<char>,
    now: i64,
) -> Seq<AccountView> {
    Seq::new(
        rows.len(),
        |i: int|
            if rows[i].answers_request(user_id, old_email) {
                rows[i].requested(new_email, code, now)
            } else {
                rows[i]
            },
    )
}

/// How many rows the confirm update changes.
pub open spec fn confirm_rows(rows: Seq<AccountView>, code: Seq<char>, now: i64) -> nat
    decreases rows.len(),
{
    if rows.len() == 0 {
        0
    } else {
        confirm_rows(rows.drop_last(), code, now) + if rows.last().answers_confirm(code, now) {
            1nat
        } else {
            0nat
        }
    }
}

/// The table after the confirm update: every row that answers it is changed,
/// every other row is as before.
pub open spec fn confirm_update(rows: Seq<AccountView>, code: Seq<char>, now: i64) -> Seq<
    AccountView,
> {
    Seq::new(
        rows.len(),
        |i: int|
            if rows[i].answers_confirm(code, now) {
                rows[i].confirmed()
            } else {
                rows[i]
            },
    )
}

/// Whether two identifiers are the same sixteen bytes.
pub fn same_id(a: &[u8; 16], b: &[u8; 16]) -> (same: bool)
    ensures
        same == (a@ == b@),
{
    let mut i: usize = 0;
    while i < 16
        invariant
            i <= 16,
            forall|j: int| 0 <= j < i ==> a@[j] == b@[j],
        decreases 16 - i,
    {
        if a[i] != b[i] {
            return false;
        }
        i += 1;
    }
    assert(a@ =~= b@);
    true
}

/// Whether a field holds exactly the text `text`.
fn holds_text(field: &Option<String>, text: &String) -> (holds: bool)
    ensures
        holds == (text_of(*field) == Some(text@)),
{
    match field {
        Some(held) => *held == *text,
        None => false,
    }
}

/// A copy of a text that may be absent.
fn copy_text(field: &Option<String>) -> (copy: Option<String>)
    ensures
        text_of(copy) == text_of(*field),
{
    match field {
        Some(text) => Some(text.clone()),
        None => None,
    }
}

/// The account table.
#[derive(Debug)]
pub struct UserTable {
    rows: Vec<Account>,
}

impl View for UserTable {
    type V = Seq<AccountView>;

    closed spec fn view(&self) -> Seq<AccountView> {
        Seq::new(self.rows@.len(), |i: int| self.rows@[i]@)
    }
}

impl UserTable {
    /// Identifiers are unique, and in every row a pending address, a code and
    /// its time are there together or not at all.
    pub open spec fn wf(&self) -> bool {
        unique_ids(self@) && rows_wf(self@)
    }

    /// An empty table.
    pub fn new() -> (table: Self)
        ensures
            table.wf(),
            table@.len() == 0,
    {
        UserTable { rows: Vec::new() }
    }

    /// The number of rows.
    pub fn len(&self) -> (n: usize)
        ensures
            n == self@.len(),
    {
        self.rows.len()
    }

    /// The position of the row with the identifier `id`.
    fn position(&self, id: &[u8; 16]) -> (found: Option<usize>)
        ensures
            match found {
                Some(i) => i < self@.len() && self@[i as int].id == id@,
                None => !has_id(self@, id@),
            },
    {
        let mut i: usize = 0;
        while i < self.rows.len()
            invariant
                i <= self.rows.len(),
                forall|j: int| 0 <= j < i ==> (#[trigger] self@[j]).id != id@,
            decreases self.rows.len() - i,
        {
            if same_id(&self.rows[i].id, id) {
                return Some(i);
            }
            i += 1;
        }
        None
    }

    /// Adds a row. Refused, with the table unchanged, where the row is not
    /// well-formed or its identifier is taken.
    pub fn insert(&mut self, account: Account) -> (added: bool)
        requires
            old(self).wf(),
        ensures
            final(self).wf(),
            added == (account@.wf() && !has_id(old(self)@, account@.id)),
            added ==> final(self)@ == old(self)@.push(account@),
            !added ==> final(self)@ == old(self)@,
    {
        let pending = account.pending_email.is_some();
        if pending != account.email_verification_code.is_some() || pending
            != account.email_verification_code_sent_at.is_some() {
            return false;
        }
        if self.position(&account.id).is_some() {
            return false;
        }
        let ghost before = self@;
        self.rows.push(account);
        assert(self@ =~= before.push(account@));
        true
    }

    /// The row with the identifier `id`.
    pub fn get(&self, id: &[u8; 16]) -> (found: Option<&Account>)
        requires
            self.wf(),
        ensures
            found is Some == has_id(self@, id@),
            found matches Some(account) ==> account@ == row_of(self@, id@),
    {
        match self.position(id) {
            Some(i) => {
                Some(&self.rows[i])
            },
            None => None,
        }
    }

    /// The lookup of the request step: the current address of the account and
    /// the time its outstanding code was issued.
    pub fn user_by_id(&self, user_id: &Uuid) -> (found: Option<DbUser>)
        requires
            self.wf(),
        ensures
            found is Some == has_id(self@, uuid_bytes(*user_id)),
            found matches Some(user) ==> {
                &&& user.email@ == row_of(self@, uuid_bytes(*user_id)).email
                &&& user.email_verification_code_sent_at == row_of(
                    self@,
                    uuid_bytes(*user_id),
                ).email_verification_code_sent_at
            },
    {
        let id: [u8; 16] = (*user_id).into_bytes();
        match self.get(&id) {
            Some(account) => Some(
                DbUser {
                    email: account.email.clone(),
                    email_verification_code_sent_at: account.email_verification_code_sent_at,
                },
            ),
            None => None,
        }
    }

    /// The request update: on the account `user_id`, provided that no old
    /// address is given or the current address equals it, the new address
    /// becomes pending under `code`, issued at `now`. Returns the number of rows
    /// changed, which is at most one.
    pub fn execute_request(
        &mut self,
        user_id: &Uuid,
        old_email: &Option<String>,
        new_email: &String,
        code: &String,
        now: i64,
    ) -> (rows_affected: usize)
        requires
            old(self).wf(),
        ensures
            final(self).wf(),
            rows_affected == request_rows(old(self)@, uuid_bytes(*user_id), text_of(*old_email)),
            rows_affected <= 1,
            final(self)@ == request_update(
                old(self)@,
                uuid_bytes(*user_id),
                text_of(*old_email),
                new_email@,
                code@,
                now,
            ),
    {
        let id: [u8; 16] = (*user_id).into_bytes();
        let ghost before = self@;
        let ghost old_text = text_of(*old_email);
        let mut rows_affected: usize = 0;
        let mut i: usize = 0;
        while i < self.rows.len()
            invariant
                i <= self.rows.len(),
                self@.len() == before.len(),
                id@ == uuid_bytes(*user_id),
                old_text == text_of(*old_email),
                rows_affected == request_rows(before.take(i as int), id@, old_text),
                rows_affected <= i,
                forall|j: int|
                    0 <= j < i ==> self@[j] == if (#[trigger] before[j]).answers_request(
                        id@,
                        old_text,
                    ) {
                        before[j].requested(new_email@, code@, now)
                    } else {
                        before[j]
                    },
                forall|j: int| i <= j < before.len() ==> self@[j] == #[trigger] before[j],
            decreases self.rows.len() - i,
        {
            assert(before.take(i as int + 1).drop_last() =~= before.take(i as int));
            let matches_old = match old_email {
                Some(old) => self.rows[i].email == *old,
                None => true,
            };
            if same_id(&self.rows[i].id, &id) && matches_old {
                let updated = Account {
                    id: self.rows[i].id,
                    email: self.rows[i].email.clone(),
                    verified: self.rows[i].verified,
                    pending_email: Some(new_email.clone()),
                    email_verification_code: Some(code.clone()),
                    email_verification_code_sent_at: Some(now),
                };
                self.rows[i] = updated;
                rows_affected += 1;
            }
            i += 1;
        }
        assert(before.take(i as int) =~= before);
        assert(self@ =~= request_update(before, id@, old_text, new_email@, code@, now));
        proof {
            lemma_request_rows_unique(before, id@, old_text);
        }
        rows_affected
    }

    /// The confirm update: on every account that holds `code`, issued less
    /// than the time to live before `now`, and a pending address, that address
    /// becomes the current one, verified, and nothing stays pending. Returns the
    /// number of rows changed.
    pub fn execute_confirm(&mut self, code: &String, now: i64) -> (rows_affected: usize)
        requires
            old(self).wf(),
        ensures
            final(self).wf(),
            rows_affected == confirm_rows(old(self)@, code@, now),
            final(self)@ == confirm_update(old(self)@, code@, now),
    {
        let ghost before = self@;
        let mut rows_affected: usize = 0;
        let mut i: usize = 0;
        while i < self.rows.len()
            invariant
                i <= self.rows.len(),
                self@.len() == before.len(),
                rows_affected == confirm_rows(before.take(i as int), code@, now),
                rows_affected <= i,
                forall|j: int|
                    0 <= j < i ==> self@[j] == if (#[trigger] before[j]).answers_confirm(
                        code@,
                        now,
                    ) {
                        before[j].confirmed()
                    } else {
                        before[j]
                    },
                forall|j: int| i <= j < before.len() ==> self@[j] == #[trigger] before[j],
            decreases self.rows.len() - i,
        {
            assert(before.take(i as int + 1).drop_last() =~= before.take(i as int));
            let fresh = match self.rows[i].email_verification_code_sent_at {
                Some(issued) => issued as i128 > now as i128 - TTL_SEC as i128,
                None => false,
            };
            if fresh && holds_text(&self.rows[i].email_verification_code, code) {
                let pending = copy_text(&self.rows[i].pending_email);
                match pending {
                    Some(address) => {
                        let updated = Account {
                            id: self.rows[i].id,
                            email: address,
                            verified: true,
                            pending_email: None,
                            email_verification_code: None,
                            email_verification_code_sent_at: None,
                        };
                        self.rows[i] = updated;
                        rows_affected += 1;
                    },
                    None => {},
                }
            }
            i += 1;
        }
        assert(before.take(i as int) =~= before);
        assert(self@ =~= confirm_update(before, code@, now));
        rows_affected
    }
}

/// With unique identifiers the request update changes at most one row, and
/// it changes one exactly where some row answers it.
pub proof fn lemma_request_rows_unique(
    rows: Seq<AccountView>,
    user_id: Seq<u8>,
    old_email: Option<Seq<char>>,
)
    requires
        unique_ids(rows),
    ensures
        request_rows(rows, user_id, old_email) <= 1,
        request_rows(rows, user_id, old_email) == 1 <==> exists|i: int|
            0 <= i < rows.len() && (#[trigger] rows[i]).answers_request(user_id, old_email),
    decreases rows.len(),
{
    if rows.len() > 0 {
        let front = rows.drop_last();
        lemma_request_rows_unique(front, user_id, old_email);
        lemma_request_rows_none(front, user_id, old_email);
        if rows.last().answers_request(user_id, old_email) {
            assert forall|i: int| 0 <= i < front.len() implies !(#[trigger] front[i]).answers_request(
                user_id,
                old_email,
            ) by {
                assert(front[i].id == rows[i].id);
            }
        } else {
            if request_rows(front, user_id, old_email) == 1 {
                let i = choose|i: int|
                    0 <= i < front.len() && (#[trigger] front[i]).answers_request(user_id, old_email);
                assert(rows[i] == front[i]);
            }
            if exists|i: int|
                0 <= i < rows.len() && (#[trigger] rows[i]).answers_request(user_id, old_email) {
                let i = choose|i: int|
                    0 <= i < rows.len() && (#[trigger] rows[i]).answers_request(user_id, old_email);
                assert(front[i] == rows[i]);
            }
        }
    }
}

/// The request update changes no row exactly where no row answers it.
pub proof fn lemma_request_rows_none(
    rows: Seq<AccountView>,
    user_id: Seq<u8>,
    old_email: Option<Seq<char>>,
)
    ensures
        request_rows(rows, user_id, old_email) == 0 <==> forall|i: int|
            0 <= i < rows.len() ==> !(#[trigger] rows[i]).answers_request(user_id, old_email),
    decreases rows.len(),
{
    if rows.len() > 0 {
        let front = rows.drop_last();
        lemma_request_rows_none(front, user_id, old_email);
        assert forall|i: int| 0 <= i < front.len() implies front[i] == rows[i] by {}
    }
}

/// Where the row at `k` answers the confirm update and no other row does, the
/// update changes exactly one row.
pub proof fn lemma_confirm_rows_single(rows: Seq<AccountView>, code: Seq<char>, now: i64, k: int)
    requires
        0 <= k < rows.len(),
        rows[k].answers_confirm(code, now),
        forall|i: int, j: int|
            0 <= i < rows.len() && 0 <= j < rows.len() && i != j && rows[i].answers_confirm(
                code,
                now,
            ) ==> !rows[j].answers_confirm(code, now),
    ensures
        confirm_rows(rows, code, now) == 1,
    decreases rows.len(),
{
    let front = rows.drop_last();
    assert forall|i: int| 0 <= i < front.len() implies front[i] == rows[i] by {}
    if k == rows.len() - 1 {
        lemma_confirm_rows_none(front, code, now);
    } else {
        lemma_confirm_rows_single(front, code, now, k);
    }
}

/// With unique codes the confirm update changes at most one row.
pub proof fn lemma_confirm_rows_unique(rows: Seq<AccountView>, code: Seq<char>, now: i64)
    requires
        unique_codes(rows),
    ensures
        confirm_rows(rows, code, now) <= 1,
    decreases rows.len(),
{
    if rows.len() > 0 {
        let front = rows.drop_last();
        assert forall|i: int| 0 <= i < front.len() implies front[i] == rows[i] by {}
        lemma_confirm_rows_unique(front, code, now);
        lemma_confirm_rows_none(front, code, now);
        if rows.last().answers_confirm(code, now) {
            assert forall|i: int| 0 <= i < front.len() implies !(#[trigger] front[i]).answers_confirm(
                code,
                now,
            ) by {
                assert(rows[rows.len() - 1].email_verification_code
                    != rows[i].email_verification_code);
            }
        }
    }
}

/// The confirm update changes no row exactly where no row answers it.
pub proof fn lemma_confirm_rows_none(rows: Seq<AccountView>, code: Seq<char>, now: i64)
    ensures
        confirm_rows(rows, code, now) == 0 <==> forall|i: int|
            0 <= i < rows.len() ==> !(#[trigger] rows[i]).answers_confirm(code, now),
    decreases rows.len(),
{
    if rows.len() > 0 {
        let front = rows.drop_last();
        lemma_confirm_rows_none(front, code, now);
        assert forall|i: int| 0 <= i < front.len() implies front[i] == rows[i] by {}
    }
}

} // verus!
