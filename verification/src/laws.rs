//! What holds of the state machine and the stores together.

use vstd::prelude::*;
use crate::account::{
    AccountView, StoreError, chat_taken_by_other, create_outcome, has_chat, has_id, lookup,
    rows_after_create, rows_after_update, unique_rows, update_outcome,
};
use crate::agent::{context_of, lemma_context_bounded, lemma_context_chronological};
use crate::dialogue::{
    AccountWriteView, PayloadView, StateView, ask_location_text, authentication_plan, code_plan,
    first_contact_account, greeting_text, location_plan, name_or_empty, onboarded_account,
    verified_account, wrong_code_text,
};
use crate::engine::{HandledView, OutboundView, commit_outcome, rows_after_write, write_outcome};
use crate::phases::phase_of;
use crate::message::{
    MessageView, lemma_recent_bounded, lemma_recent_newest_first, oldest_first, ordered_log,
    recent_turns,
};

verus! {

/// In a table with unique rows, looking up the conversation of any row finds
/// that row.
pub proof fn lemma_lookup_finds_row(rows: Seq<AccountView>, i: int)
    requires
        unique_rows(rows),
        0 <= i < rows.len(),
    ensures
        lookup(rows, rows[i].chat_id) == Some(rows[i]),
{
    let chat_id = rows[i].chat_id;
    assert(has_chat(rows, chat_id));
    let j = choose|j: int| 0 <= j < rows.len() && (#[trigger] rows[j]).chat_id == chat_id;
    if j < i {
        assert(rows[j].chat_id != rows[i].chat_id);
    } else if i < j {
        assert(rows[i].chat_id != rows[j].chat_id);
    }
}

/// An account that was just created is found under its conversation, equal
/// in every field, and the table stays unique.
pub proof fn lemma_create_then_find(rows: Seq<AccountView>, a: AccountView)
    requires
        unique_rows(rows),
        create_outcome(rows, a) is Ok,
    ensures
        unique_rows(rows_after_create(rows, a)),
        lookup(rows_after_create(rows, a), a.chat_id) == Some(a),
{
    let after = rows.push(a);
    assert forall|i: int, j: int| 0 <= i < j < after.len() implies (#[trigger] after[i]).id != (
    #[trigger] after[j]).id && after[i].chat_id != after[j].chat_id by {
        if j == rows.len() {
            assert(after[i] == rows[i]);
            assert(!has_chat(rows, a.chat_id));
            assert(!has_id(rows, a.id));
        } else {
            assert(after[i] == rows[i] && after[j] == rows[j]);
        }
    }
    assert(after[rows.len() as int] == a);
    lemma_lookup_finds_row(after, rows.len() as int);
}

/// An account that was just updated is found under its conversation, equal
/// in every field, and the table stays unique.
pub proof fn lemma_update_then_find(rows: Seq<AccountView>, a: AccountView)
    requires
        unique_rows(rows),
        update_outcome(rows, a) is Ok,
    ensures
        rows_after_update(rows, a).len() == rows.len(),
        unique_rows(rows_after_update(rows, a)),
        lookup(rows_after_update(rows, a), a.chat_id) == Some(a),
{
    let after = rows_after_update(rows, a);
    assert(!chat_taken_by_other(rows, a.id, a.chat_id));
    assert forall|i: int, j: int| 0 <= i < j < after.len() implies (#[trigger] after[i]).id != (
    #[trigger] after[j]).id && after[i].chat_id != after[j].chat_id by {
        assert(after[i].id == rows[i].id && after[j].id == rows[j].id);
        assert(rows[i].id != rows[j].id && rows[i].chat_id != rows[j].chat_id);
        if rows[i].id == a.id {
            assert(!(rows[j].chat_id == a.chat_id && rows[j].id != a.id));
        } else if rows[j].id == a.id {
            assert(!(rows[i].chat_id == a.chat_id && rows[i].id != a.id));
        }
    }
    let k = choose|k: int| 0 <= k < rows.len() && (#[trigger] rows[k]).id == a.id;
    assert(after[k] == a);
    lemma_lookup_finds_row(after, k);
}

/// Whenever an accepted code or a shared location moves a conversation on,
/// and the table takes the write, the snapshot in the next phase is the
/// account that the table now holds for the conversation.
pub proof fn lemma_snapshot_matches_table(
    rows: Seq<AccountView>,
    account: AccountView,
    code: Seq<char>,
)
    requires
        unique_rows(rows),
    ensures
        ({
            let t = code_plan(account, PayloadView::Text(code), true);
            write_outcome(rows, t.write) is Ok ==> {
                &&& t.next == StateView::ReceiveLocation(verified_account(account))
                &&& lookup(rows_after_write(rows, t.write), account.chat_id) == Some(
                    verified_account(account),
                )
            }
        }),
        ({
            let t = location_plan(account, PayloadView::Location);
            write_outcome(rows, t.write) is Ok ==> {
                &&& t.next == StateView::Chat(onboarded_account(account))
                &&& lookup(rows_after_write(rows, t.write), account.chat_id) == Some(
                    onboarded_account(account),
                )
            }
        }),
{
    if update_outcome(rows, verified_account(account)) is Ok {
        lemma_update_then_find(rows, verified_account(account));
    }
    if update_outcome(rows, onboarded_account(account)) is Ok {
        lemma_update_then_find(rows, onboarded_account(account));
    }
}

/// First contact: for a conversation that has no account, and a fresh id
/// that no account has, the authenticating phase adds exactly one account to
/// the table, unverified and not onboarded, asks for the code and moves on
/// to await it.
pub proof fn lemma_first_contact_creates_one_account(
    rows: Seq<AccountView>,
    chat_id: i64,
    first_name: Option<Seq<char>>,
    last_name: Option<Seq<char>>,
    id: Seq<char>,
)
    requires
        unique_rows(rows),
        !has_chat(rows, chat_id),
        !has_id(rows, id),
    ensures
        ({
            let t = authentication_plan(lookup(rows, chat_id), chat_id, first_name, last_name, id);
            let a = first_contact_account(
                chat_id,
                name_or_empty(first_name),
                name_or_empty(last_name),
                id,
            );
            &&& !a.verified && !a.did_onboarding && a.chat_id == chat_id
            &&& rows_after_write(rows, t.write) == rows.push(a)
            &&& unique_rows(rows_after_write(rows, t.write))
            &&& commit_outcome(rows, t, chat_id) == Ok::<HandledView, StoreError>(
                HandledView {
                    next: StateView::ReceiveCode(a),
                    outbound: Some(OutboundView { chat_id, text: greeting_text(a.first_name) }),
                },
            )
        }),
{
    let a = first_contact_account(chat_id, name_or_empty(first_name), name_or_empty(last_name), id);
    lemma_create_then_find(rows, a);
}

/// After first contact, a second authenticating event of the same
/// conversation finds the account and creates nothing: the table keeps the
/// one account, whatever names and id the second event comes with.
pub proof fn lemma_second_contact_creates_nothing(
    rows: Seq<AccountView>,
    chat_id: i64,
    first_name: Option<Seq<char>>,
    last_name: Option<Seq<char>>,
    id: Seq<char>,
    again_first_name: Option<Seq<char>>,
    again_last_name: Option<Seq<char>>,
    again_id: Seq<char>,
)
    requires
        unique_rows(rows),
        !has_chat(rows, chat_id),
        !has_id(rows, id),
    ensures
        ({
            let t = authentication_plan(lookup(rows, chat_id), chat_id, first_name, last_name, id);
            let once = rows_after_write(rows, t.write);
            let again = authentication_plan(
                lookup(once, chat_id),
                chat_id,
                again_first_name,
                again_last_name,
                again_id,
            );
            &&& once.len() == rows.len() + 1
            &&& again.write == AccountWriteView::Nothing
            &&& rows_after_write(once, again.write) == once
            &&& again.next == t.next
        }),
{
    let a = first_contact_account(chat_id, name_or_empty(first_name), name_or_empty(last_name), id);
    lemma_create_then_find(rows, a);
}

/// A conversation whose account is verified and onboarded goes from the
/// authenticating phase straight to chat: no account is created or changed
/// and nothing is sent.
pub proof fn lemma_onboarded_account_goes_to_chat(
    rows: Seq<AccountView>,
    i: int,
    first_name: Option<Seq<char>>,
    last_name: Option<Seq<char>>,
    id: Seq<char>,
)
    requires
        unique_rows(rows),
        0 <= i < rows.len(),
        rows[i].verified,
        rows[i].did_onboarding,
    ensures
        ({
            let a = rows[i];
            let t = authentication_plan(
                lookup(rows, a.chat_id),
                a.chat_id,
                first_name,
                last_name,
                id,
            );
            &&& t.write == AccountWriteView::Nothing
            &&& rows_after_write(rows, t.write) == rows
            &&& commit_outcome(rows, t, a.chat_id) == Ok::<HandledView, StoreError>(
                HandledView { next: StateView::Chat(a), outbound: None },
            )
        }),
{
    lemma_lookup_finds_row(rows, i);
}

/// A code that the verifier does not accept leaves the phase and its account
/// as they were, writes nothing, and is answered with exactly one message.
pub proof fn lemma_wrong_code_changes_nothing(
    rows: Seq<AccountView>,
    account: AccountView,
    code: Seq<char>,
)
    ensures
        ({
            let t = code_plan(account, PayloadView::Text(code), false);
            &&& t.next == StateView::ReceiveCode(account)
            &&& t.write == AccountWriteView::Nothing
            &&& rows_after_write(rows, t.write) == rows
            &&& t.reply == Some(wrong_code_text())
        }),
{
}

/// An event without a location leaves the phase that awaits one and its
/// account as they were, writes nothing, and is answered with exactly one
/// message.
pub proof fn lemma_missing_location_changes_nothing(
    rows: Seq<AccountView>,
    account: AccountView,
    payload: PayloadView,
)
    requires
        payload != PayloadView::Location,
    ensures
        ({
            let t = location_plan(account, payload);
            &&& t.next == StateView::ReceiveLocation(account)
            &&& t.write == AccountWriteView::Nothing
            &&& rows_after_write(rows, t.write) == rows
            &&& t.reply == Some(ask_location_text())
        }),
{
}

/// Whenever the phase that awaits the code or the one that awaits the
/// location stays as it is, the user gets a message.
pub proof fn lemma_unchanged_phase_replies(
    account: AccountView,
    payload: PayloadView,
    accepted: bool,
)
    ensures
        code_plan(account, payload, accepted).next == StateView::ReceiveCode(account)
            ==> code_plan(account, payload, accepted).reply is Some,
        location_plan(account, payload).next == StateView::ReceiveLocation(account)
            ==> location_plan(account, payload).reply is Some,
{
}

/// A conversation of which the book holds nothing is authenticating; after
/// a phase is recorded for a conversation, that phase is what the book
/// shows for it, and every other conversation stands where it stood.
pub proof fn lemma_book_keeps_one_phase_each(
    book: Map<i64, StateView>,
    chat_id: i64,
    phase: StateView,
    other: i64,
)
    requires
        other != chat_id,
    ensures
        phase_of(Map::<i64, StateView>::empty(), chat_id) == StateView::Authentication,
        phase_of(book.insert(chat_id, phase), chat_id) == phase,
        phase_of(book.insert(chat_id, phase), other) == phase_of(book, other),
{
}

/// A refused write leaves the table as it was, and the event's answer is the
/// error: no phase and no message come out of it.
pub proof fn lemma_refused_write_changes_nothing(
    rows: Seq<AccountView>,
    w: AccountWriteView,
    next: StateView,
    reply: Option<Seq<char>>,
    chat_id: i64,
)
    requires
        write_outcome(rows, w) is Err,
    ensures
        rows_after_write(rows, w) == rows,
        commit_outcome(rows, crate::dialogue::TransitionView { next, write: w, reply }, chat_id)
            is Err,
{
}

/// The agent's input built from the window of a well-ordered log holds at
/// most as many turns as the window's depth, and lays the window out oldest
/// first.
pub proof fn lemma_window_context(turns: Seq<MessageView>, chat_id: i64, depth: nat)
    requires
        ordered_log(turns),
    ensures
        context_of(recent_turns(turns, chat_id, depth)).len() <= depth,
        oldest_first(recent_turns(turns, chat_id, depth).reverse()),
{
    let window = recent_turns(turns, chat_id, depth);
    lemma_recent_bounded(turns, chat_id, depth);
    lemma_recent_newest_first(turns, chat_id, depth);
    lemma_context_bounded(window);
    lemma_context_chronological(window);
}

} // verus!
