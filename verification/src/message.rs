//! Turns of a conversation and the append-only log that keeps them.

use vstd::prelude::*;
use crate::account::StoreError;
use crate::stamp::{fresh_id, now_micros};

verus! {

/// Who spoke a turn.
#[derive(Debug, Clone, Copy, PartialEq, Eq, Structural)]
pub enum Role {
    User,
    Assistant,
    System,
}

/// The stored name of a role.
pub open spec fn role_name(role: Role) -> Seq<char> {
    match role {
        Role::User => "user"@,
        Role::Assistant => "assistant"@,
        Role::System => "system"@,
    }
}

/// The role that a stored name stands for, if any.
pub open spec fn role_named(name: Seq<char>) -> Option<Role> {
    if name == "user"@ {
        Some(Role::User)
    } else if name == "assistant"@ {
        Some(Role::Assistant)
    } else if name == "system"@ {
        Some(Role::System)
    } else {
        None
    }
}

impl Default for Role {
    fn default() -> (r: Self)
        ensures
            r == Role::User,
    {
        Role::User
    }
}

impl Role {
    /// The name under which the role is stored.
    pub fn as_str(&self) -> (name: &'static str)
        ensures
            name@ == role_name(*self),
    {
        match self {
            Role::User => "user",
            Role::Assistant => "assistant",
            Role::System => "system",
        }
    }

    /// Reads a stored name back; `None` for a name that is no role.
    pub fn parse(name: &str) -> (r: Option<Role>)
        ensures
            r == role_named(name@),
    {
        let owned = name.to_owned();
        if owned == "user".to_owned() {
            Some(Role::User)
        } else if owned == "assistant".to_owned() {
            Some(Role::Assistant)
        } else if owned == "system".to_owned() {
            Some(Role::System)
        } else {
            None
        }
    }
}

/// Every role is read back from its own stored name.
pub proof fn lemma_role_name_round_trip(role: Role)
    ensures
        role_named(role_name(role)) == Some(role),
{
    reveal_strlit("user");
    reveal_strlit("assistant");
    reveal_strlit("system");
    assert("user"@.len() == 4);
    assert("assistant"@.len() == 9);
    assert("system"@.len() == 6);
}

/// One utterance of a conversation. `created_at` counts microseconds since
/// the Unix epoch.
#[derive(Debug, PartialEq, Eq)]
pub struct Message {
    pub id: String,
    pub chat_id: i64,
    pub content: String,
    pub role: Role,
    pub created_at: i64,
}

/// The mathematical value of a [`Message`].
pub struct MessageView {
    pub id: Seq<char>,
    pub chat_id: i64,
    pub content: Seq<char>,
    pub role: Role,
    pub created_at: i64,
}

impl View for Message {
    type V = MessageView;

    open spec fn view(&self) -> MessageView {
        MessageView {
            id: self.id@,
            chat_id: self.chat_id,
            content: self.content@,
            role: self.role,
            created_at: self.created_at,
        }
    }
}

impl Clone for Message {
    fn clone(&self) -> (r: Self)
        ensures
            r@ == self@,
    {
        Message {
            id: self.id.clone(),
            chat_id: self.chat_id,
            content: self.content.clone(),
            role: self.role,
            created_at: self.created_at,
        }
    }
}

impl Default for Message {
    /// An empty user turn of conversation 0, under a fresh id, stamped now.
    fn default() -> (r: Self)
        ensures
            r@.chat_id == 0,
            r@.content == Seq::<char>::empty(),
            r@.role == Role::User,
            r@.id.len() == 36,
            r@.created_at >= 0,
    {
        Message {
            id: fresh_id(),
            chat_id: 0,
            content: String::new(),
            role: Role::User,
            created_at: now_micros(),
        }
    }
}

/// The views of a vector of messages, element by element.
pub open spec fn message_views(v: Seq<Message>) -> Seq<MessageView> {
    Seq::new(v.len(), |i: int| v[i]@)
}

/// An existing turn `t` forbids appending `m`: it has `m`'s id, or it belongs
/// to `m`'s conversation and is stamped later than `m`.
pub open spec fn blocks(t: MessageView, m: MessageView) -> bool {
    t.id == m.id || (t.chat_id == m.chat_id && t.created_at > m.created_at)
}

/// Some turn of the log forbids appending `m`.
pub open spec fn blocked(turns: Seq<MessageView>, m: MessageView) -> bool {
    exists|i: int| 0 <= i < turns.len() && blocks(#[trigger] turns[i], m)
}

/// Ids are unique, and within one conversation the stamps never go back in
/// insertion order.
pub open spec fn ordered_log(turns: Seq<MessageView>) -> bool {
    forall|i: int, j: int|
        0 <= i < j < turns.len() ==> !blocks(#[trigger] turns[i], #[trigger] turns[j])
}

/// The turns after appending `m`: one more at the end unless `m` is blocked.
pub open spec fn turns_after_append(turns: Seq<MessageView>, m: MessageView) -> Seq<MessageView> {
    if blocked(turns, m) {
        turns
    } else {
        turns.push(m)
    }
}

/// The newest `limit` turns of conversation `chat_id`, newest first.
pub open spec fn recent_turns(turns: Seq<MessageView>, chat_id: i64, limit: nat) -> Seq<
    MessageView,
>
    decreases turns.len(),
{
    if limit == 0 || turns.len() == 0 {
        Seq::empty()
    } else if turns.last().chat_id == chat_id {
        seq![turns.last()] + recent_turns(turns.drop_last(), chat_id, (limit - 1) as nat)
    } else {
        recent_turns(turns.drop_last(), chat_id, limit)
    }
}

/// Stamps never rise from one element to the next.
pub open spec fn newest_first(window: Seq<MessageView>) -> bool {
    forall|i: int, j: int|
        0 <= i < j < window.len() ==> (#[trigger] window[i]).created_at >= (
        #[trigger] window[j]).created_at
}

/// Stamps never fall from one element to the next.
pub open spec fn oldest_first(window: Seq<MessageView>) -> bool {
    forall|i: int, j: int|
        0 <= i < j < window.len() ==> (#[trigger] window[i]).created_at <= (
        #[trigger] window[j]).created_at
}

/// The append-only log of turns, in insertion order.
pub struct MessageLog {
    turns: Vec<Message>,
}

impl View for MessageLog {
    type V = Seq<MessageView>;

    closed spec fn view(&self) -> Seq<MessageView> {
        message_views(self.turns@)
    }
}

impl MessageLog {
    /// The log's invariant.
    pub open spec fn wf(&self) -> bool {
        ordered_log(self@)
    }

    /// An empty log.
    pub fn new() -> (log: MessageLog)
        ensures
            log.wf(),
            log@ == Seq::<MessageView>::empty(),
    {
        let log = MessageLog { turns: Vec::new() };
        assert(log@ =~= Seq::<MessageView>::empty());
        log
    }

    /// The number of turns, over all conversations.
    pub fn len(&self) -> (n: usize)
        ensures
            n == self@.len(),
    {
        self.turns.len()
    }

    /// Whether some turn of the log forbids appending `m`.
    fn is_blocked(&self, m: &Message) -> (r: bool)
        ensures
            r == blocked(self@, m@),
    {
        let mut i: usize = 0;
        while i < self.turns.len()
            invariant
                i <= self.turns@.len(),
                forall|k: int| 0 <= k < i ==> !blocks(#[trigger] self@[k], m@),
            decreases self.turns@.len() - i,
        {
            let t = &self.turns[i];
            if t.id == m.id || (t.chat_id == m.chat_id && t.created_at > m.created_at) {
                assert(blocks(self@[i as int], m@));
                return true;
            }
            i += 1;
        }
        false
    }
}

impl Message {
    /// A user turn of conversation `chat_id`.
    pub fn user(id: String, chat_id: i64, content: String, created_at: i64) -> (m: Message)
        ensures
            m@ == (MessageView { id: id@, chat_id, content: content@, role: Role::User, created_at }),
    {
        Message { id, chat_id, content, role: Role::User, created_at }
    }

    /// An assistant turn of conversation `chat_id`.
    pub fn assistant(id: String, chat_id: i64, content: String, created_at: i64) -> (m: Message)
        ensures
            m@ == (MessageView {
                id: id@,
                chat_id,
                content: content@,
                role: Role::Assistant,
                created_at,
            }),
    {
        Message { id, chat_id, content, role: Role::Assistant, created_at }
    }

    /// Appends this turn. Refused with `StoreFailure` when its id is taken or
    /// when its conversation already holds a later stamp; the log is then
    /// unchanged.
    pub fn create(&self, log: &mut MessageLog) -> (r: Result<(), StoreError>)
        requires
            old(log).wf(),
        ensures
            final(log).wf(),
            r == if blocked(old(log)@, self@) {
                Err::<(), StoreError>(StoreError::StoreFailure)
            } else {
                Ok::<(), StoreError>(())
            },
            final(log)@ == turns_after_append(old(log)@, self@),
    {
        if log.is_blocked(self) {
            return Err(StoreError::StoreFailure);
        }
        log.turns.push(self.clone());
        assert(log@ =~= old(log)@.push(self@));
        Ok(())
    }

    /// The newest `size` turns of conversation `chat_id`, newest first.
    /// Refused with `StoreFailure` when `size` is negative.
    pub fn find_by_chat_id(chat_id: i64, size: i32, log: &MessageLog) -> (r: Result<
        Vec<Message>,
        StoreError,
    >)
        ensures
            size < 0 ==> r == Err::<Vec<Message>, StoreError>(StoreError::StoreFailure),
            size >= 0 ==> r is Ok && message_views(r->Ok_0@) == recent_turns(
                log@,
                chat_id,
                size as nat,
            ),
    {
        if size < 0 {
            return Err(StoreError::StoreFailure);
        }
        let mut out: Vec<Message> = Vec::new();
        let mut i: usize = log.turns.len();
        let mut room: i32 = size;
        assert(log@.take(i as int) =~= log@);
        assert(message_views(out@) =~= Seq::<MessageView>::empty());
        while i > 0 && room > 0
            invariant
                i <= log.turns@.len(),
                0 <= room <= size,
                message_views(out@) + recent_turns(log@.take(i as int), chat_id, room as nat)
                    == recent_turns(log@, chat_id, size as nat),
            decreases i,
        {
            let ghost before = message_views(out@);
            let ghost prefix = log@.take(i as int);
            i -= 1;
            assert(prefix.drop_last() =~= log@.take(i as int));
            assert(prefix.last() == log@[i as int]);
            if log.turns[i].chat_id == chat_id {
                out.push(log.turns[i].clone());
                room -= 1;
                assert(message_views(out@) =~= before + seq![prefix.last()]);
                assert(message_views(out@) + recent_turns(
                    log@.take(i as int),
                    chat_id,
                    room as nat,
                ) =~= before + (seq![prefix.last()] + recent_turns(
                    prefix.drop_last(),
                    chat_id,
                    room as nat,
                )));
            }
        }
        assert(recent_turns(log@.take(i as int), chat_id, room as nat) =~= Seq::<
            MessageView,
        >::empty());
        assert(message_views(out@) + Seq::<MessageView>::empty() =~= message_views(out@));
        Ok(out)
    }
}

/// Appending never changes or reorders the turns that the log already
/// holds, and adds at most the one new turn, at the end.
pub proof fn lemma_append_keeps_turns(turns: Seq<MessageView>, m: MessageView)
    ensures
        turns_after_append(turns, m) == turns || turns_after_append(turns, m) == turns.push(m),
        turns_after_append(turns, m).take(turns.len() as int) == turns,
        ordered_log(turns) ==> ordered_log(turns_after_append(turns, m)),
{
    let after = turns_after_append(turns, m);
    assert(after.take(turns.len() as int) =~= turns);
    if ordered_log(turns) && !blocked(turns, m) {
        assert forall|i: int, j: int| 0 <= i < j < after.len() implies !blocks(
            #[trigger] after[i],
            #[trigger] after[j],
        ) by {
            if j == turns.len() {
                assert(!blocks(turns[i], m));
            } else {
                assert(!blocks(turns[i], turns[j]));
            }
        }
    }
}

/// A window holds at most `limit` turns, all of the conversation asked for
/// and all taken from the log.
pub proof fn lemma_recent_bounded(turns: Seq<MessageView>, chat_id: i64, limit: nat)
    ensures
        recent_turns(turns, chat_id, limit).len() <= limit,
        recent_turns(turns, chat_id, limit).len() <= turns.len(),
        forall|k: int|
            0 <= k < recent_turns(turns, chat_id, limit).len() ==> {
                &&& (#[trigger] recent_turns(turns, chat_id, limit)[k]).chat_id == chat_id
                &&& turns.contains(recent_turns(turns, chat_id, limit)[k])
            },
    decreases turns.len(),
{
    if limit == 0 || turns.len() == 0 {
    } else {
        let front = turns.drop_last();
        let rest_limit = if turns.last().chat_id == chat_id {
            (limit - 1) as nat
        } else {
            limit
        };
        lemma_recent_bounded(front, chat_id, rest_limit);
        let rest = recent_turns(front, chat_id, rest_limit);
        let win = recent_turns(turns, chat_id, limit);
        assert forall|k: int| 0 <= k < win.len() implies {
            &&& (#[trigger] win[k]).chat_id == chat_id
            &&& turns.contains(win[k])
        } by {
            if turns.last().chat_id == chat_id && k == 0 {
                assert(turns[turns.len() - 1] == win[k]);
            } else {
                let r = if turns.last().chat_id == chat_id {
                    rest[k - 1]
                } else {
                    rest[k]
                };
                assert(win[k] == r);
                assert(front.contains(r));
                let w = choose|w: int| 0 <= w < front.len() && front[w] == r;
                assert(turns[w] == r);
            }
        }
    }
}

/// A window taken from a well-ordered log comes newest first.
pub proof fn lemma_recent_newest_first(turns: Seq<MessageView>, chat_id: i64, limit: nat)
    requires
        ordered_log(turns),
    ensures
        newest_first(recent_turns(turns, chat_id, limit)),
    decreases turns.len(),
{
    if limit == 0 || turns.len() == 0 {
    } else {
        let front = turns.drop_last();
        assert(ordered_log(front)) by {
            assert forall|i: int, j: int| 0 <= i < j < front.len() implies !blocks(
                #[trigger] front[i],
                #[trigger] front[j],
            ) by {
                assert(!blocks(turns[i], turns[j]));
            }
        }
        if turns.last().chat_id == chat_id {
            let rest = recent_turns(front, chat_id, (limit - 1) as nat);
            lemma_recent_newest_first(front, chat_id, (limit - 1) as nat);
            lemma_recent_bounded(front, chat_id, (limit - 1) as nat);
            let win = recent_turns(turns, chat_id, limit);
            assert forall|i: int, j: int| 0 <= i < j < win.len() implies (#[trigger] win[i]).created_at
                >= (#[trigger] win[j]).created_at by {
                if i == 0 {
                    let r = rest[j - 1];
                    assert(win[j] == r);
                    assert(front.contains(r));
                    let w = choose|w: int| 0 <= w < front.len() && front[w] == r;
                    assert(!blocks(turns[w], turns[turns.len() - 1]));
                } else {
                    assert(win[i] == rest[i - 1]);
                    assert(win[j] == rest[j - 1]);
                }
            }
        } else {
            lemma_recent_newest_first(front, chat_id, limit);
        }
    }
}

} // verus!
