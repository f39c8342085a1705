//! The context window handed to the chat agent.

use vstd::prelude::*;
use crate::message::{Message, MessageView, Role, message_views, newest_first, oldest_first};

verus! {

/// The depth of the window of recent turns that feeds the agent.
pub const WINDOW_DEPTH: i32 = 10;

/// Who speaks a turn that the agent sees.
#[derive(Debug, Clone, Copy, PartialEq, Eq, Structural)]
pub enum ChatRole {
    User,
    Assistant,
}

/// One role-tagged turn of the agent's input.
#[derive(Debug, PartialEq, Eq)]
pub struct ChatTurn {
    pub role: ChatRole,
    pub content: String,
}

/// The mathematical value of a [`ChatTurn`].
pub struct ChatTurnView {
    pub role: ChatRole,
    pub content: Seq<char>,
}

impl View for ChatTurn {
    type V = ChatTurnView;

    open spec fn view(&self) -> ChatTurnView {
        ChatTurnView { role: self.role, content: self.content@ }
    }
}

/// Why the agent gave no reply.
#[derive(Debug, Clone, Copy, PartialEq, Eq, Structural)]
pub enum AgentError {
    /// The agent answered with a failure, or with something that is no text.
    Failure,
    /// The agent did not answer in time.
    Timeout,
}

/// The views of a vector of agent turns, element by element.
pub open spec fn chat_turn_views(v: Seq<ChatTurn>) -> Seq<ChatTurnView> {
    Seq::new(v.len(), |i: int| v[i]@)
}

/// The role under which the agent sees a logged turn; system turns are not
/// shown to it as history.
pub open spec fn agent_role(role: Role) -> Option<ChatRole> {
    match role {
        Role::User => Some(ChatRole::User),
        Role::Assistant => Some(ChatRole::Assistant),
        Role::System => None,
    }
}

/// The agent-visible turns of `turns`, in the same order.
pub open spec fn visible_turns(turns: Seq<MessageView>) -> Seq<ChatTurnView>
    decreases turns.len(),
{
    if turns.len() == 0 {
        Seq::empty()
    } else {
        let rest = visible_turns(turns.drop_last());
        match agent_role(turns.last().role) {
            Some(role) => rest.push(ChatTurnView { role, content: turns.last().content }),
            None => rest,
        }
    }
}

/// The agent's input for a window that comes newest first: the window in
/// chronological order, without its system turns.
pub open spec fn context_of(window: Seq<MessageView>) -> Seq<ChatTurnView> {
    visible_turns(window.reverse())
}

/// The fixed instruction that accompanies every request to the agent.
pub fn system_instruction() -> (s: String)
    ensures
        s@ == "Responda em português Brasil"@,
{
    "Responda em português Brasil".to_owned()
}

/// Turns a window of recent turns, newest first, into the agent's input,
/// oldest first.
pub fn build_context(window: &Vec<Message>) -> (ctx: Vec<ChatTurn>)
    ensures
        chat_turn_views(ctx@) == context_of(message_views(window@)),
        ctx@.len() <= window@.len(),
{
    let ghost chrono = message_views(window@).reverse();
    let mut ctx: Vec<ChatTurn> = Vec::new();
    let mut i: usize = window.len();
    assert(chat_turn_views(ctx@) =~= visible_turns(chrono.take(0)));
    while i > 0
        invariant
            i <= window@.len(),
            chrono == message_views(window@).reverse(),
            chat_turn_views(ctx@) == visible_turns(chrono.take(window@.len() - i)),
            ctx@.len() <= window@.len() - i,
        decreases i,
    {
        let ghost done = window@.len() - i;
        let ghost before = chat_turn_views(ctx@);
        i -= 1;
        let turn = &window[i];
        proof {
            assert(chrono.take(done + 1).drop_last() =~= chrono.take(done));
            assert(chrono.take(done + 1).last() == turn@);
        }
        match turn.role {
            Role::User => {
                ctx.push(ChatTurn { role: ChatRole::User, content: turn.content.clone() });
                assert(chat_turn_views(ctx@) =~= before.push(
                    ChatTurnView { role: ChatRole::User, content: turn@.content },
                ));
            },
            Role::Assistant => {
                ctx.push(ChatTurn { role: ChatRole::Assistant, content: turn.content.clone() });
                assert(chat_turn_views(ctx@) =~= before.push(
                    ChatTurnView { role: ChatRole::Assistant, content: turn@.content },
                ));
            },
            Role::System => {},
        }
    }
    assert(chrono.take(window@.len() as int) =~= chrono);
    ctx
}

/// The agent's input is never longer than the window it was built from.
pub proof fn lemma_context_bounded(window: Seq<MessageView>)
    ensures
        context_of(window).len() <= window.len(),
{
    lemma_visible_bounded(window.reverse());
}

/// Dropping system turns never lengthens a sequence of turns.
pub proof fn lemma_visible_bounded(turns: Seq<MessageView>)
    ensures
        visible_turns(turns).len() <= turns.len(),
    decreases turns.len(),
{
    if turns.len() > 0 {
        lemma_visible_bounded(turns.drop_last());
    }
}

/// The agent-visible turns depend on nothing but the roles and the contents,
/// in their order.
pub proof fn lemma_visible_reads_role_and_content(a: Seq<MessageView>, b: Seq<MessageView>)
    requires
        a.len() == b.len(),
        forall|i: int|
            0 <= i < a.len() ==> (#[trigger] a[i]).role == (#[trigger] b[i]).role && a[i].content
                == b[i].content,
    ensures
        visible_turns(a) == visible_turns(b),
    decreases a.len(),
{
    if a.len() > 0 {
        assert(a.last().role == b.last().role && a.last().content == b.last().content) by {
            assert(a[a.len() - 1].role == b[a.len() - 1].role);
        }
        assert forall|i: int| 0 <= i < a.drop_last().len() implies (#[trigger] a.drop_last()[i]).role
            == (#[trigger] b.drop_last()[i]).role && a.drop_last()[i].content
            == b.drop_last()[i].content by {
            assert(a[i].role == b[i].role);
        }
        lemma_visible_reads_role_and_content(a.drop_last(), b.drop_last());
    }
}

/// The agent's input is a function of the window's roles and contents alone:
/// two windows that agree on them, turn by turn, give the same input,
/// whatever their ids and stamps.
pub proof fn lemma_context_reads_role_and_content(a: Seq<MessageView>, b: Seq<MessageView>)
    requires
        a.len() == b.len(),
        forall|i: int|
            0 <= i < a.len() ==> (#[trigger] a[i]).role == (#[trigger] b[i]).role && a[i].content
                == b[i].content,
    ensures
        context_of(a) == context_of(b),
{
    let ra = a.reverse();
    let rb = b.reverse();
    assert forall|i: int| 0 <= i < ra.len() implies (#[trigger] ra[i]).role == (#[trigger] rb[i]).role
        && ra[i].content == rb[i].content by {
        assert(ra[i] == a[a.len() - 1 - i]);
        assert(rb[i] == b[b.len() - 1 - i]);
        assert(a[a.len() - 1 - i].role == b[a.len() - 1 - i].role);
    }
    lemma_visible_reads_role_and_content(ra, rb);
}

/// A window that comes newest first is laid before the agent oldest first.
pub proof fn lemma_context_chronological(window: Seq<MessageView>)
    requires
        newest_first(window),
    ensures
        oldest_first(window.reverse()),
{
    let r = window.reverse();
    assert forall|i: int, j: int| 0 <= i < j < r.len() implies (#[trigger] r[i]).created_at <= (
    #[trigger] r[j]).created_at by {
        assert(r[i] == window[window.len() - 1 - i]);
        assert(r[j] == window[window.len() - 1 - j]);
    }
}

} // verus!
