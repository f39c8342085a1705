//! The dialogue controller over an account table and a message log held in
//! memory: it looks up, decides, writes, and answers with the next phase and
//! the message to send.

use vstd::prelude::*;
use crate::account::{
    Account, AccountTable, AccountView, StoreError, create_outcome, lookup, rows_after_create,
    rows_after_update, update_outcome,
};
use crate::agent::{AgentError, ChatTurn, ChatTurnView, WINDOW_DEPTH, build_context, chat_turn_views, context_of};
use crate::dialogue::{
    AccountWrite, AccountWriteView, ChatClosing, ChatClosingView, ChatOpening, ChatOpeningView,
    CodeVerifier, Inbound, InboundView, Outbound, Payload, PayloadView, StateMachine, StateView,
    Transition, TransitionView, accepted_by, authentication_plan, chat_closing, chat_opening,
    code_plan, location_plan, receive_code, receive_location, reply_view,
    resolve_authentication, resolve_chat, resolve_reply,
};
use crate::phases::{PhaseBook, phase_of};
use crate::message::{Message, MessageLog, MessageView, blocked, recent_turns, turns_after_append};
use crate::stamp::{fresh_id, now_micros};

verus! {

/// The mathematical value of an [`Outbound`].
pub struct OutboundView {
    pub chat_id: i64,
    pub text: Seq<char>,
}

impl View for Outbound {
    type V = OutboundView;

    open spec fn view(&self) -> OutboundView {
        OutboundView { chat_id: self.chat_id, text: self.text@ }
    }
}

/// What handling one event gave: the phase to store and the message to send.
#[derive(Debug, PartialEq, Eq)]
pub struct Handled {
    pub next: StateMachine,
    pub outbound: Option<Outbound>,
}

/// The mathematical value of a [`Handled`].
pub struct HandledView {
    pub next: StateView,
    pub outbound: Option<OutboundView>,
}

impl View for Handled {
    type V = HandledView;

    open spec fn view(&self) -> HandledView {
        HandledView {
            next: self.next@,
            outbound: match self.outbound {
                Some(o) => Some(o@),
                None => None,
            },
        }
    }
}

/// The view of the answer to one event.
pub open spec fn handled_result_view(r: Result<Handled, StoreError>) -> Result<
    HandledView,
    StoreError,
> {
    match r {
        Ok(h) => Ok(h@),
        Err(e) => Err(e),
    }
}

/// What the agent is asked, or what is sent in place of asking.
#[derive(Debug, PartialEq, Eq)]
pub enum ChatRequest {
    Ask(Vec<ChatTurn>),
    Reprompt(Outbound),
}

/// The mathematical value of a [`ChatRequest`].
pub enum ChatRequestView {
    Ask(Seq<ChatTurnView>),
    Reprompt(OutboundView),
}

impl View for ChatRequest {
    type V = ChatRequestView;

    open spec fn view(&self) -> ChatRequestView {
        match self {
            ChatRequest::Ask(ctx) => ChatRequestView::Ask(chat_turn_views(ctx@)),
            ChatRequest::Reprompt(o) => ChatRequestView::Reprompt(o@),
        }
    }
}

/// What the table answers to a write.
pub open spec fn write_outcome(rows: Seq<AccountView>, w: AccountWriteView) -> Result<
    (),
    StoreError,
> {
    match w {
        AccountWriteView::Nothing => Ok(()),
        AccountWriteView::Create(a) => create_outcome(rows, a),
        AccountWriteView::Update(a) => update_outcome(rows, a),
    }
}

/// The rows after a write; a refused write leaves them as they were.
pub open spec fn rows_after_write(rows: Seq<AccountView>, w: AccountWriteView) -> Seq<
    AccountView,
> {
    match w {
        AccountWriteView::Nothing => rows,
        AccountWriteView::Create(a) => rows_after_create(rows, a),
        AccountWriteView::Update(a) => rows_after_update(rows, a),
    }
}

/// The answer to an event whose decision is `t`: the write's error, or the
/// decided phase and reply.
pub open spec fn commit_outcome(rows: Seq<AccountView>, t: TransitionView, chat_id: i64) -> Result<
    HandledView,
    StoreError,
> {
    match write_outcome(rows, t.write) {
        Err(e) => Err(e),
        Ok(_) => Ok(
            HandledView {
                next: t.next,
                outbound: match t.reply {
                    Some(text) => Some(OutboundView { chat_id, text }),
                    None => None,
                },
            },
        ),
    }
}

/// The log after a round of chat was opened.
pub open spec fn log_after_opening(log: Seq<MessageView>, opening: ChatOpeningView) -> Seq<
    MessageView,
> {
    match opening {
        ChatOpeningView::Ask(m) => turns_after_append(log, m),
        ChatOpeningView::Reprompt(_) => log,
    }
}

/// What opening a round of chat gives: the agent's input, built from the
/// window that already holds the new user turn; or the text to send in place
/// of asking; or the log's refusal of the user turn.
pub open spec fn opening_outcome(log: Seq<MessageView>, opening: ChatOpeningView, chat_id: i64) -> Result<
    ChatRequestView,
    StoreError,
> {
    match opening {
        ChatOpeningView::Ask(m) => if blocked(log, m) {
            Err(StoreError::StoreFailure)
        } else {
            Ok(
                ChatRequestView::Ask(
                    context_of(recent_turns(log.push(m), chat_id, WINDOW_DEPTH as nat)),
                ),
            )
        },
        ChatOpeningView::Reprompt(text) => Ok(
            ChatRequestView::Reprompt(OutboundView { chat_id, text }),
        ),
    }
}

/// The log after a round of chat was closed.
pub open spec fn log_after_closing(log: Seq<MessageView>, closing: ChatClosingView) -> Seq<
    MessageView,
> {
    match closing.turn {
        Some(m) => turns_after_append(log, m),
        None => log,
    }
}

/// What closing a round of chat gives: the message to send, or the log's
/// refusal of the assistant turn.
pub open spec fn closing_outcome(log: Seq<MessageView>, closing: ChatClosingView, chat_id: i64) -> Result<
    OutboundView,
    StoreError,
> {
    match closing.turn {
        Some(m) if blocked(log, m) => Err(StoreError::StoreFailure),
        _ => Ok(OutboundView { chat_id, text: closing.reply }),
    }
}

/// The view of what opening a round of chat gave.
pub open spec fn request_result_view(r: Result<ChatRequest, StoreError>) -> Result<
    ChatRequestView,
    StoreError,
> {
    match r {
        Ok(q) => Ok(q@),
        Err(e) => Err(e),
    }
}

/// The view of what closing a round of chat gave.
pub open spec fn outbound_result_view(r: Result<Outbound, StoreError>) -> Result<
    OutboundView,
    StoreError,
> {
    match r {
        Ok(o) => Ok(o@),
        Err(e) => Err(e),
    }
}

/// The answer of the chat phase once the round is closed: the phase stays,
/// and the message is sent unless the log refused the assistant turn.
pub open spec fn chat_answer(account: AccountView, closed: Result<OutboundView, StoreError>) -> Result<
    HandledView,
    StoreError,
> {
    match closed {
        Ok(o) => Ok(HandledView { next: StateView::Chat(account), outbound: Some(o) }),
        Err(e) => Err(e),
    }
}

/// One round of the chat phase on the log `before`, with the agent `agent`,
/// leaves the log `after` and answers `answer`, for some ids and stamps of
/// the turns it logs and some reply that the agent may give to the input
/// built.
pub open spec fn chat_handled<F: FnOnce(Vec<ChatTurn>) -> Result<String, AgentError>>(
    agent: F,
    before: Seq<MessageView>,
    after: Seq<MessageView>,
    answer: Result<HandledView, StoreError>,
    account: AccountView,
    chat_id: i64,
    payload: PayloadView,
) -> bool {
    exists|user_id: Seq<char>, user_at: i64|
        {
            let opening = #[trigger] chat_opening(chat_id, payload, user_id, user_at);
            let opened = log_after_opening(before, opening);
            user_id.len() == 36 && user_at >= 0 && match opening_outcome(before, opening, chat_id) {
                Err(e) => after == before && answer == Err::<HandledView, StoreError>(e),
                Ok(ChatRequestView::Reprompt(o)) => after == before && answer == Ok::<
                    HandledView,
                    StoreError,
                >(HandledView { next: StateView::Chat(account), outbound: Some(o) }),
                Ok(ChatRequestView::Ask(input)) => exists|
                    ctx: Vec<ChatTurn>,
                    reply: Result<String, AgentError>,
                    reply_id: Seq<char>,
                    reply_at: i64,
                |
                    {
                        let closing = #[trigger] chat_closing(
                            chat_id,
                            reply_view(reply),
                            reply_id,
                            reply_at,
                        );
                        &&& reply_id.len() == 36
                        &&& reply_at >= 0
                        &&& chat_turn_views(ctx@) == input
                        &&& #[trigger] agent.ensures((ctx,), reply)
                        &&& after == log_after_closing(opened, closing)
                        &&& answer == chat_answer(
                            account,
                            closing_outcome(opened, closing, chat_id),
                        )
                    },
            }
        }
}

/// Carrying out the decision `t` on the table `rows` leaves the table
/// `rows_after`, answers `answer`, and does not touch the log.
pub open spec fn committed(
    rows: Seq<AccountView>,
    log: Seq<MessageView>,
    rows_after: Seq<AccountView>,
    log_after: Seq<MessageView>,
    answer: Result<HandledView, StoreError>,
    t: TransitionView,
    chat_id: i64,
) -> bool {
    &&& answer == commit_outcome(rows, t, chat_id)
    &&& rows_after == rows_after_write(rows, t.write)
    &&& log_after == log
}

/// Handling `event` in `phase`, over the table `rows` and the log `log`,
/// leaves `rows_after` and `log_after` and answers `answer`.
///
/// The authenticating phase looks the conversation up and carries out what
/// it decides, for some id of the account it may create. The phases that
/// await the code and the location carry out what they decide. The
/// onboarding phase has no handler: the event changes nothing and is not
/// answered. The chat phase runs one round of chat and touches no account.
pub open spec fn handled<V: CodeVerifier, F: FnOnce(Vec<ChatTurn>) -> Result<String, AgentError>>(
    verifier: &V,
    agent: F,
    phase: StateView,
    event: InboundView,
    rows: Seq<AccountView>,
    log: Seq<MessageView>,
    rows_after: Seq<AccountView>,
    log_after: Seq<MessageView>,
    answer: Result<HandledView, StoreError>,
) -> bool {
    match phase {
        StateView::Authentication => exists|id: Seq<char>|
            id.len() == 36 && committed(
                rows,
                log,
                rows_after,
                log_after,
                answer,
                #[trigger] authentication_plan(
                    lookup(rows, event.chat_id),
                    event.chat_id,
                    event.first_name,
                    event.last_name,
                    id,
                ),
                event.chat_id,
            ),
        StateView::ReceiveCode(a) => committed(
            rows,
            log,
            rows_after,
            log_after,
            answer,
            code_plan(a, event.payload, accepted_by(verifier, event.payload)),
            event.chat_id,
        ),
        StateView::ReceiveLocation(a) => committed(
            rows,
            log,
            rows_after,
            log_after,
            answer,
            location_plan(a, event.payload),
            event.chat_id,
        ),
        StateView::Onboarding(a) => {
            &&& answer == Ok::<HandledView, StoreError>(
                HandledView { next: StateView::Onboarding(a), outbound: None },
            )
            &&& rows_after == rows
            &&& log_after == log
        },
        StateView::Chat(a) => {
            &&& rows_after == rows
            &&& chat_handled(agent, log, log_after, answer, a, event.chat_id, event.payload)
        },
    }
}

/// The view of what is handed to the transport for one event.
pub open spec fn sent_view(r: Result<Option<Outbound>, StoreError>) -> Result<
    Option<OutboundView>,
    StoreError,
> {
    match r {
        Ok(Some(o)) => Ok(Some(o@)),
        Ok(None) => Ok(None),
        Err(e) => Err(e),
    }
}

/// The controller's stores.
pub struct Engine {
    pub accounts: AccountTable,
    pub log: MessageLog,
    pub phases: PhaseBook,
}

impl Engine {
    /// Both stores are well formed.
    pub open spec fn wf(&self) -> bool {
        self.accounts.wf() && self.log.wf() && self.phases.wf()
    }

    /// A controller over an empty table, an empty log and an empty book.
    pub fn new() -> (e: Engine)
        ensures
            e.wf(),
            e.accounts@ == Seq::<AccountView>::empty(),
            e.log@ == Seq::<MessageView>::empty(),
            e.phases@ == Map::<i64, StateView>::empty(),
    {
        Engine { accounts: AccountTable::new(), log: MessageLog::new(), phases: PhaseBook::new() }
    }

    /// Carries out a decision: the account write first; if the table refuses
    /// it, the error is the answer and nothing else happens.
    pub fn commit(&mut self, t: Transition, chat_id: i64) -> (r: Result<Handled, StoreError>)
        requires
            old(self).wf(),
        ensures
            final(self).wf(),
            handled_result_view(r) == commit_outcome(old(self).accounts@, t@, chat_id),
            final(self).accounts@ == rows_after_write(old(self).accounts@, t@.write),
            final(self).log@ == old(self).log@,
            final(self).phases@ == old(self).phases@,
    {
        let Transition { next, write, reply } = t;
        let written = match write {
            AccountWrite::Nothing => Ok(()),
            AccountWrite::Create(a) => a.create(&mut self.accounts),
            AccountWrite::Update(a) => a.update(&mut self.accounts),
        };
        match written {
            Err(e) => Err(e),
            Ok(_) => {
                let outbound = match reply {
                    Some(text) => Some(Outbound { chat_id, text }),
                    None => None,
                };
                Ok(Handled { next, outbound })
            },
        }
    }

    /// Opens a round of chat: logs the user turn, reads the window of recent
    /// turns and builds the agent's input from it.
    pub fn begin_chat(&mut self, opening: ChatOpening, chat_id: i64) -> (r: Result<
        ChatRequest,
        StoreError,
    >)
        requires
            old(self).wf(),
        ensures
            final(self).wf(),
            request_result_view(r) == opening_outcome(old(self).log@, opening@, chat_id),
            final(self).log@ == log_after_opening(old(self).log@, opening@),
            final(self).accounts@ == old(self).accounts@,
            final(self).phases@ == old(self).phases@,
    {
        match opening {
            ChatOpening::Reprompt(text) => Ok(ChatRequest::Reprompt(Outbound { chat_id, text })),
            ChatOpening::Ask(turn) => {
                match turn.create(&mut self.log) {
                    Err(e) => Err(e),
                    Ok(_) => {
                        match Message::find_by_chat_id(chat_id, WINDOW_DEPTH, &self.log) {
                            Err(e) => Err(e),
                            Ok(window) => Ok(ChatRequest::Ask(build_context(&window))),
                        }
                    },
                }
            },
        }
    }

    /// Closes a round of chat: logs the assistant turn, if there is one, and
    /// hands out the message to send.
    pub fn end_chat(&mut self, closing: ChatClosing, chat_id: i64) -> (r: Result<
        Outbound,
        StoreError,
    >)
        requires
            old(self).wf(),
        ensures
            final(self).wf(),
            outbound_result_view(r) == closing_outcome(old(self).log@, closing@, chat_id),
            final(self).log@ == log_after_closing(old(self).log@, closing@),
            final(self).accounts@ == old(self).accounts@,
            final(self).phases@ == old(self).phases@,
    {
        let ChatClosing { turn, reply } = closing;
        match turn {
            Some(m) => {
                match m.create(&mut self.log) {
                    Err(e) => Err(e),
                    Ok(_) => Ok(Outbound { chat_id, text: reply }),
                }
            },
            None => Ok(Outbound { chat_id, text: reply }),
        }
    }

    /// One round of the chat phase: a text is logged, the agent is asked with
    /// the window built from the log, and its reply is logged and sent; if
    /// the agent fails, the apology is sent and no assistant turn is logged.
    /// An event without text is answered with a request for text. The phase
    /// stays as it is, and no account is touched. The agent is asked only
    /// for a text, so only then must it take every input.
    pub fn converse<F: FnOnce(Vec<ChatTurn>) -> Result<String, AgentError>>(
        &mut self,
        account: Account,
        chat_id: i64,
        payload: &Payload,
        agent: F,
    ) -> (r: Result<Handled, StoreError>)
        requires
            old(self).wf(),
            payload@ is Text ==> forall|ctx: Vec<ChatTurn>| agent.requires((ctx,)),
        ensures
            final(self).wf(),
            final(self).accounts@ == old(self).accounts@,
            final(self).phases@ == old(self).phases@,
            chat_handled(
                agent,
                old(self).log@,
                final(self).log@,
                handled_result_view(r),
                account@,
                chat_id,
                payload@,
            ),
    {
        let user_id = fresh_id();
        let user_at = now_micros();
        let opening = resolve_chat(chat_id, payload, user_id, user_at);
        let ghost opening_view = opening@;
        assert(opening_view == chat_opening(chat_id, payload@, user_id@, user_at));
        let ctx = match self.begin_chat(opening, chat_id) {
            Err(e) => {
                return Err(e);
            },
            Ok(ChatRequest::Reprompt(o)) => {
                return Ok(Handled { next: StateMachine::Chat(account), outbound: Some(o) });
            },
            Ok(ChatRequest::Ask(ctx)) => ctx,
        };
        let ghost asked = ctx;
        let reply = agent(ctx);
        let ghost replied = reply;
        let reply_id = fresh_id();
        let reply_at = now_micros();
        let closing = resolve_reply(chat_id, reply, reply_id, reply_at);
        let ghost closing_view = closing@;
        assert(closing_view == chat_closing(chat_id, reply_view(replied), reply_id@, reply_at));
        let ghost opened = self.log@;
        let r = match self.end_chat(closing, chat_id) {
            Err(e) => Err(e),
            Ok(o) => Ok(Handled { next: StateMachine::Chat(account), outbound: Some(o) }),
        };
        proof {
            assert(agent.ensures((asked,), replied));
            assert(handled_result_view(r) == chat_answer(
                account@,
                closing_outcome(opened, closing_view, chat_id),
            ));
        }
        r
    }

    /// Handles one event of a conversation that stands in `phase`, and
    /// answers with the phase to record and the message to send. The book
    /// is not touched.
    pub fn handle<V: CodeVerifier, F: FnOnce(Vec<ChatTurn>) -> Result<String, AgentError>>(
        &mut self,
        verifier: &V,
        phase: StateMachine,
        event: Inbound,
        agent: F,
    ) -> (r: Result<Handled, StoreError>)
        requires
            old(self).wf(),
            phase@ is Chat && event@.payload is Text ==> forall|ctx: Vec<ChatTurn>|
                agent.requires((ctx,)),
        ensures
            final(self).wf(),
            final(self).phases@ == old(self).phases@,
            handled(
                verifier,
                agent,
                phase@,
                event@,
                old(self).accounts@,
                old(self).log@,
                final(self).accounts@,
                final(self).log@,
                handled_result_view(r),
            ),
    {
        let Inbound { chat_id, first_name, last_name, payload } = event;
        match phase {
            StateMachine::Authentication => {
                let found = match Account::find_by_chat_id(&chat_id, &self.accounts) {
                    Ok(found) => found,
                    Err(e) => {
                        return Err(e);
                    },
                };
                let id = fresh_id();
                let t = resolve_authentication(found, chat_id, first_name, last_name, id);
                self.commit(t, chat_id)
            },
            StateMachine::ReceiveCode(account) => {
                let t = receive_code(verifier, account, &payload);
                self.commit(t, chat_id)
            },
            StateMachine::ReceiveLocation(account) => {
                let t = receive_location(account, &payload);
                self.commit(t, chat_id)
            },
            StateMachine::Onboarding(account) => Ok(
                Handled { next: StateMachine::Onboarding(account), outbound: None },
            ),
            StateMachine::Chat(account) => self.converse(account, chat_id, &payload, agent),
        }
    }

    /// Takes one event from the transport: reads the conversation's phase
    /// from the book, handles the event in it, records the next phase and
    /// hands out the message to send. On a store error the event counts as
    /// unhandled and the book keeps the old phase.
    pub fn receive<V: CodeVerifier, F: FnOnce(Vec<ChatTurn>) -> Result<String, AgentError>>(
        &mut self,
        verifier: &V,
        event: Inbound,
        agent: F,
    ) -> (r: Result<Option<Outbound>, StoreError>)
        requires
            old(self).wf(),
            phase_of(old(self).phases@, event.chat_id) is Chat && event@.payload is Text
                ==> forall|ctx: Vec<ChatTurn>| agent.requires((ctx,)),
        ensures
            final(self).wf(),
            exists|answer: Result<HandledView, StoreError>|
                {
                    &&& #[trigger] handled(
                        verifier,
                        agent,
                        phase_of(old(self).phases@, event.chat_id),
                        event@,
                        old(self).accounts@,
                        old(self).log@,
                        final(self).accounts@,
                        final(self).log@,
                        answer,
                    )
                    &&& match answer {
                        Ok(h) => {
                            &&& sent_view(r) == Ok::<Option<OutboundView>, StoreError>(h.outbound)
                            &&& final(self).phases@ == old(self).phases@.insert(
                                event.chat_id,
                                h.next,
                            )
                        },
                        Err(e) => {
                            &&& sent_view(r) == Err::<Option<OutboundView>, StoreError>(e)
                            &&& final(self).phases@ == old(self).phases@
                        },
                    }
                },
    {
        let chat_id = event.chat_id;
        let phase = self.phases.get(chat_id);
        let outcome = self.handle(verifier, phase, event, agent);
        let ghost answer = handled_result_view(outcome);
        let r = match outcome {
            Err(e) => Err(e),
            Ok(h) => {
                let Handled { next, outbound } = h;
                self.phases.set(chat_id, next);
                Ok(outbound)
            },
        };
        proof {
            assert(handled(
                verifier,
                agent,
                phase_of(old(self).phases@, event.chat_id),
                event@,
                old(self).accounts@,
                old(self).log@,
                self.accounts@,
                self.log@,
                answer,
            ));
        }
        r
    }
}

} // verus!
