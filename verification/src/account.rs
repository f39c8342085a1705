//! Accounts and the table that holds them.

use vstd::prelude::*;
use crate::stamp::fresh_id;

verus! {

/// One end user bound to one conversation.
#[derive(Debug, PartialEq, Eq)]
pub struct Account {
    pub id: String,
    pub chat_id: i64,
    pub first_name: String,
    pub last_name: String,
    pub verified: bool,
    pub did_onboarding: bool,
}

/// The mathematical value of an [`Account`].
pub struct AccountView {
    pub id: Seq<char>,
    pub chat_id: i64,
    pub first_name: Seq<char>,
    pub last_name: Seq<char>,
    pub verified: bool,
    pub did_onboarding: bool,
}

impl View for Account {
    type V = AccountView;

    open spec fn view(&self) -> AccountView {
        AccountView {
            id: self.id@,
            chat_id: self.chat_id,
            first_name: self.first_name@,
            last_name: self.last_name@,
            verified: self.verified,
            did_onboarding: self.did_onboarding,
        }
    }
}

/// The view of an account that may be absent.
pub open spec fn account_opt_view(a: Option<Account>) -> Option<AccountView> {
    match a {
        Some(a) => Some(a@),
        None => None,
    }
}

/// Why a table operation was refused.
#[derive(Debug, Clone, Copy, PartialEq, Eq, Structural)]
pub enum StoreError {
    /// The conversation already has an account.
    DuplicateConversation,
    /// No account has the given id.
    NotFound,
    /// Another constraint of the table would be broken.
    StoreFailure,
}

impl Clone for Account {
    fn clone(&self) -> (r: Self)
        ensures
            r@ == self@,
    {
        Account {
            id: self.id.clone(),
            chat_id: self.chat_id,
            first_name: self.first_name.clone(),
            last_name: self.last_name.clone(),
            verified: self.verified,
            did_onboarding: self.did_onboarding,
        }
    }
}

impl Default for Account {
    /// A blank, unverified account under a fresh id.
    fn default() -> (r: Self)
        ensures
            r@ == blank_account(r@.id),
            r@.id.len() == 36,
    {
        Account {
            id: fresh_id(),
            chat_id: 0,
            first_name: String::new(),
            last_name: String::new(),
            verified: false,
            did_onboarding: false,
        }
    }
}

/// The blank account with the given id: conversation 0, empty names, neither
/// verified nor onboarded.
pub open spec fn blank_account(id: Seq<char>) -> AccountView {
    AccountView {
        id,
        chat_id: 0,
        first_name: Seq::empty(),
        last_name: Seq::empty(),
        verified: false,
        did_onboarding: false,
    }
}

/// Some row belongs to conversation `chat_id`.
pub open spec fn has_chat(rows: Seq<AccountView>, chat_id: i64) -> bool {
    exists|i: int| 0 <= i < rows.len() && (#[trigger] rows[i]).chat_id == chat_id
}

/// Some row has the id `id`.
pub open spec fn has_id(rows: Seq<AccountView>, id: Seq<char>) -> bool {
    exists|i: int| 0 <= i < rows.len() && (#[trigger] rows[i]).id == id
}

/// Some row other than the one with id `id` belongs to conversation `chat_id`.
pub open spec fn chat_taken_by_other(rows: Seq<AccountView>, id: Seq<char>, chat_id: i64) -> bool {
    exists|i: int|
        0 <= i < rows.len() && (#[trigger] rows[i]).chat_id == chat_id && rows[i].id != id
}

/// No two rows share an id, and no two rows share a conversation.
pub open spec fn unique_rows(rows: Seq<AccountView>) -> bool {
    forall|i: int, j: int|
        0 <= i < j < rows.len() ==> (#[trigger] rows[i]).id != (#[trigger] rows[j]).id
            && rows[i].chat_id != rows[j].chat_id
}

/// What inserting `a` into `rows` answers.
pub open spec fn create_outcome(rows: Seq<AccountView>, a: AccountView) -> Result<(), StoreError> {
    if has_chat(rows, a.chat_id) {
        Err(StoreError::DuplicateConversation)
    } else if has_id(rows, a.id) {
        Err(StoreError::StoreFailure)
    } else {
        Ok(())
    }
}

/// The rows after inserting `a`: one more row at the end when the insert is
/// accepted, the same rows when it is refused.
pub open spec fn rows_after_create(rows: Seq<AccountView>, a: AccountView) -> Seq<AccountView> {
    if create_outcome(rows, a) is Ok {
        rows.push(a)
    } else {
        rows
    }
}

/// What replacing the row with `a`'s id by `a` answers.
pub open spec fn update_outcome(rows: Seq<AccountView>, a: AccountView) -> Result<(), StoreError> {
    if !has_id(rows, a.id) {
        Err(StoreError::NotFound)
    } else if chat_taken_by_other(rows, a.id, a.chat_id) {
        Err(StoreError::StoreFailure)
    } else {
        Ok(())
    }
}

/// The rows after the update: the row with `a`'s id now reads `a` when the
/// update is accepted, the same rows when it is refused.
pub open spec fn rows_after_update(rows: Seq<AccountView>, a: AccountView) -> Seq<AccountView> {
    if update_outcome(rows, a) is Ok {
        Seq::new(rows.len(), |k: int| if rows[k].id == a.id { a } else { rows[k] })
    } else {
        rows
    }
}

/// The rows without any row of id `id`, in their old order.
pub open spec fn rows_after_delete(rows: Seq<AccountView>, id: Seq<char>) -> Seq<AccountView> {
    rows.filter(|r: AccountView| r.id != id)
}

/// The row of conversation `chat_id`, if there is one.
pub open spec fn lookup(rows: Seq<AccountView>, chat_id: i64) -> Option<AccountView> {
    if has_chat(rows, chat_id) {
        Some(rows[choose|i: int| 0 <= i < rows.len() && (#[trigger] rows[i]).chat_id == chat_id])
    } else {
        None
    }
}

/// The accounts relation: rows in insertion order, unique by id and by
/// conversation.
pub struct AccountTable {
    rows: Vec<Account>,
}

impl View for AccountTable {
    type V = Seq<AccountView>;

    closed spec fn view(&self) -> Seq<AccountView> {
        Seq::new(self.rows@.len(), |i: int| self.rows@[i]@)
    }
}

impl AccountTable {
    /// The table's invariant.
    pub open spec fn wf(&self) -> bool {
        unique_rows(self@)
    }

    /// An empty table.
    pub fn new() -> (t: AccountTable)
        ensures
            t.wf(),
            t@ == Seq::<AccountView>::empty(),
    {
        let t = AccountTable { rows: Vec::new() };
        assert(t@ =~= Seq::<AccountView>::empty());
        t
    }

    /// The number of accounts.
    pub fn len(&self) -> (n: usize)
        ensures
            n == self@.len(),
    {
        self.rows.len()
    }

    /// Index of the row of conversation `chat_id`.
    fn position_of_chat(&self, chat_id: i64) -> (r: Option<usize>)
        ensures
            match r {
                Some(i) => i < self@.len() && self@[i as int].chat_id == chat_id,
                None => !has_chat(self@, chat_id),
            },
    {
        let mut i: usize = 0;
        while i < self.rows.len()
            invariant
                i <= self.rows@.len(),
                forall|k: int| 0 <= k < i ==> (#[trigger] self@[k]).chat_id != chat_id,
            decreases self.rows@.len() - i,
        {
            if self.rows[i].chat_id == chat_id {
                return Some(i);
            }
            i += 1;
        }
        None
    }

    /// Index of the row with id `id`.
    fn position_of_id(&self, id: &String) -> (r: Option<usize>)
        ensures
            match r {
                Some(i) => i < self@.len() && self@[i as int].id == id@,
                None => !has_id(self@, id@),
            },
    {
        let mut i: usize = 0;
        while i < self.rows.len()
            invariant
                i <= self.rows@.len(),
                forall|k: int| 0 <= k < i ==> (#[trigger] self@[k]).id != id@,
            decreases self.rows@.len() - i,
        {
            if self.rows[i].id == *id {
                return Some(i);
            }
            i += 1;
        }
        None
    }

    /// Whether a row other than the one with id `id` belongs to `chat_id`.
    fn other_holds_chat(&self, id: &String, chat_id: i64) -> (r: bool)
        ensures
            r == chat_taken_by_other(self@, id@, chat_id),
    {
        let mut i: usize = 0;
        while i < self.rows.len()
            invariant
                i <= self.rows@.len(),
                forall|k: int|
                    0 <= k < i ==> !((#[trigger] self@[k]).chat_id == chat_id && self@[k].id
                        != id@),
            decreases self.rows@.len() - i,
        {
            if self.rows[i].chat_id == chat_id && self.rows[i].id != *id {
                assert(self@[i as int].chat_id == chat_id && self@[i as int].id != id@);
                return true;
            }
            i += 1;
        }
        false
    }
}

impl Account {
    /// A new account for conversation `chat_id`: unverified, not onboarded.
    pub fn new(id: String, chat_id: i64, first_name: String, last_name: String) -> (a: Account)
        ensures
            a@ == (AccountView {
                id: id@,
                chat_id,
                first_name: first_name@,
                last_name: last_name@,
                verified: false,
                did_onboarding: false,
            }),
    {
        Account { id, chat_id, first_name, last_name, verified: false, did_onboarding: false }
    }

    /// Inserts this account. Refused with `DuplicateConversation` when the
    /// conversation already has an account, with `StoreFailure` when the id
    /// is taken; the table is then unchanged.
    pub fn create(&self, table: &mut AccountTable) -> (r: Result<(), StoreError>)
        requires
            old(table).wf(),
        ensures
            final(table).wf(),
            r == create_outcome(old(table)@, self@),
            final(table)@ == rows_after_create(old(table)@, self@),
    {
        if table.position_of_chat(self.chat_id).is_some() {
            return Err(StoreError::DuplicateConversation);
        }
        if table.position_of_id(&self.id).is_some() {
            return Err(StoreError::StoreFailure);
        }
        table.rows.push(self.clone());
        assert(table@ =~= old(table)@.push(self@));
        Ok(())
    }

    /// Replaces the whole row that has this account's id. Refused with
    /// `NotFound` when no row has the id, with `StoreFailure` when the new
    /// conversation belongs to another row; the table is then unchanged.
    pub fn update(&self, table: &mut AccountTable) -> (r: Result<(), StoreError>)
        requires
            old(table).wf(),
        ensures
            final(table).wf(),
            r == update_outcome(old(table)@, self@),
            final(table)@ == rows_after_update(old(table)@, self@),
    {
        let at = match table.position_of_id(&self.id) {
            Some(i) => i,
            None => {
                return Err(StoreError::NotFound);
            },
        };
        if table.other_holds_chat(&self.id, self.chat_id) {
            return Err(StoreError::StoreFailure);
        }
        table.rows.set(at, self.clone());
        assert(table@ =~= rows_after_update(old(table)@, self@));
        Ok(())
    }

    /// Removes the row that has this account's id, if there is one. Removing
    /// an absent account is no error.
    pub fn delete(&self, table: &mut AccountTable) -> (r: Result<(), StoreError>)
        requires
            old(table).wf(),
        ensures
            final(table).wf(),
            r is Ok,
            final(table)@ == rows_after_delete(old(table)@, self@.id),
    {
        let ghost id = self@.id;
        match table.position_of_id(&self.id) {
            Some(i) => {
                table.rows.remove(i);
                proof {
                    let before = old(table)@;
                    assert(table@ =~= before.remove(i as int));
                    lemma_filter_drops_one(before, i as int, id);
                }
            },
            None => {
                proof {
                    lemma_filter_keeps_all(table@, id);
                }
            },
        }
        Ok(())
    }

    /// The account of conversation `chat_id`, if it has one. Absence is no
    /// error, and a lookup in the table never fails.
    pub fn find_by_chat_id(chat_id: &i64, table: &AccountTable) -> (r: Result<
        Option<Account>,
        StoreError,
    >)
        requires
            table.wf(),
        ensures
            r is Ok,
            account_opt_view(r->Ok_0) == lookup(table@, *chat_id),
    {
        match table.position_of_chat(*chat_id) {
            Some(i) => {
                let found = table.rows[i].clone();
                assert(table@[i as int] == found@);
                Ok(Some(found))
            },
            None => Ok(None),
        }
    }
}

/// With unique ids, dropping the rows of id `id` removes exactly the row at
/// `i` when that row has the id.
proof fn lemma_filter_drops_one(rows: Seq<AccountView>, i: int, id: Seq<char>)
    requires
        unique_rows(rows),
        0 <= i < rows.len(),
        rows[i].id == id,
    ensures
        rows_after_delete(rows, id) == rows.remove(i),
    decreases rows.len(),
{
    let last = rows.len() - 1;
    let front = rows.drop_last();
    reveal(Seq::filter);
    if i == last {
        lemma_filter_keeps_all(front, id);
        assert(rows.remove(i) =~= front);
    } else {
        lemma_filter_drops_one(front, i, id);
        assert(rows[last].id != id);
        assert(rows.remove(i) =~= front.remove(i).push(rows[last]));
    }
}

/// Dropping the rows of an id that no row has changes nothing.
proof fn lemma_filter_keeps_all(rows: Seq<AccountView>, id: Seq<char>)
    requires
        forall|k: int| 0 <= k < rows.len() ==> (#[trigger] rows[k]).id != id,
    ensures
        rows_after_delete(rows, id) == rows,
    decreases rows.len(),
{
    reveal(Seq::filter);
    if rows.len() > 0 {
        lemma_filter_keeps_all(rows.drop_last(), id);
        assert(rows.drop_last().push(rows.last()) =~= rows);
    }
}

} // verus!
