//! The dialogue state machine: what each phase decides on an inbound event.
//!
//! Every function here goes from plain values to plain values. The caller
//! looks the account up before, carries the account write out after, and only
//! then sends the reply and stores the next phase.

use vstd::prelude::*;
use vstd::string::*;
use crate::account::{Account, AccountView, account_opt_view};
use crate::agent::AgentError;
use crate::message::{Message, MessageView, Role};
use crate::stamp::{fresh_id, now_micros};

verus! {

/// Where a conversation stands. Every phase but the first carries a snapshot
/// of the conversation's account.
#[derive(Debug, PartialEq, Eq)]
pub enum StateMachine {
    Authentication,
    ReceiveCode(Account),
    Onboarding(Account),
    ReceiveLocation(Account),
    Chat(Account),
}

/// The mathematical value of a [`StateMachine`].
pub enum StateView {
    Authentication,
    ReceiveCode(AccountView),
    Onboarding(AccountView),
    ReceiveLocation(AccountView),
    Chat(AccountView),
}

impl View for StateMachine {
    type V = StateView;

    open spec fn view(&self) -> StateView {
        match self {
            StateMachine::Authentication => StateView::Authentication,
            StateMachine::ReceiveCode(a) => StateView::ReceiveCode(a@),
            StateMachine::Onboarding(a) => StateView::Onboarding(a@),
            StateMachine::ReceiveLocation(a) => StateView::ReceiveLocation(a@),
            StateMachine::Chat(a) => StateView::Chat(a@),
        }
    }
}

impl Default for StateMachine {
    /// A conversation never seen before is authenticating.
    fn default() -> (s: Self)
        ensures
            s@ == StateView::Authentication,
    {
        StateMachine::Authentication
    }
}

impl Clone for StateMachine {
    fn clone(&self) -> (r: Self)
        ensures
            r@ == self@,
    {
        match self {
            StateMachine::Authentication => StateMachine::Authentication,
            StateMachine::ReceiveCode(a) => StateMachine::ReceiveCode(a.clone()),
            StateMachine::Onboarding(a) => StateMachine::Onboarding(a.clone()),
            StateMachine::ReceiveLocation(a) => StateMachine::ReceiveLocation(a.clone()),
            StateMachine::Chat(a) => StateMachine::Chat(a.clone()),
        }
    }
}

/// What an inbound event carries. The coordinates of a shared location stay
/// with the transport: the state machine only asks whether one was shared.
#[derive(Debug, PartialEq, Eq)]
pub enum Payload {
    Text(String),
    Location,
    Other,
}

/// The mathematical value of a [`Payload`].
pub enum PayloadView {
    Text(Seq<char>),
    Location,
    Other,
}

impl View for Payload {
    type V = PayloadView;

    open spec fn view(&self) -> PayloadView {
        match self {
            Payload::Text(s) => PayloadView::Text(s@),
            Payload::Location => PayloadView::Location,
            Payload::Other => PayloadView::Other,
        }
    }
}

/// One event from the transport.
#[derive(Debug, PartialEq, Eq)]
pub struct Inbound {
    pub chat_id: i64,
    pub first_name: Option<String>,
    pub last_name: Option<String>,
    pub payload: Payload,
}

/// The mathematical value of an [`Inbound`].
pub struct InboundView {
    pub chat_id: i64,
    pub first_name: Option<Seq<char>>,
    pub last_name: Option<Seq<char>>,
    pub payload: PayloadView,
}

impl View for Inbound {
    type V = InboundView;

    open spec fn view(&self) -> InboundView {
        InboundView {
            chat_id: self.chat_id,
            first_name: text_opt_view(self.first_name),
            last_name: text_opt_view(self.last_name),
            payload: self.payload@,
        }
    }
}

/// One message for the transport to deliver.
#[derive(Debug, PartialEq, Eq)]
pub struct Outbound {
    pub chat_id: i64,
    pub text: String,
}

/// What a decision asks the account table to do.
#[derive(Debug, PartialEq, Eq)]
pub enum AccountWrite {
    Nothing,
    Create(Account),
    Update(Account),
}

/// The mathematical value of an [`AccountWrite`].
pub enum AccountWriteView {
    Nothing,
    Create(AccountView),
    Update(AccountView),
}

impl View for AccountWrite {
    type V = AccountWriteView;

    open spec fn view(&self) -> AccountWriteView {
        match self {
            AccountWrite::Nothing => AccountWriteView::Nothing,
            AccountWrite::Create(a) => AccountWriteView::Create(a@),
            AccountWrite::Update(a) => AccountWriteView::Update(a@),
        }
    }
}

/// What a phase decides on one event: the write to carry out first, the text
/// to send if the write went through, and the phase to store last.
#[derive(Debug, PartialEq, Eq)]
pub struct Transition {
    pub next: StateMachine,
    pub write: AccountWrite,
    pub reply: Option<String>,
}

/// The mathematical value of a [`Transition`].
pub struct TransitionView {
    pub next: StateView,
    pub write: AccountWriteView,
    pub reply: Option<Seq<char>>,
}

/// The text of a string that may be absent.
pub open spec fn text_opt_view(s: Option<String>) -> Option<Seq<char>> {
    match s {
        Some(s) => Some(s@),
        None => None,
    }
}

impl View for Transition {
    type V = TransitionView;

    open spec fn view(&self) -> TransitionView {
        TransitionView {
            next: self.next@,
            write: self.write@,
            reply: text_opt_view(self.reply),
        }
    }
}

/// A display name, empty where the transport gave none.
pub open spec fn name_or_empty(name: Option<Seq<char>>) -> Seq<char> {
    match name {
        Some(s) => s,
        None => Seq::empty(),
    }
}

/// The request for the verification code, sent on first contact.
pub open spec fn greeting_text(first_name: Seq<char>) -> Seq<char> {
    "Olá, "@ + first_name
        + "! Para continuar, precisamos verificar sua identidade. Por favor, digite o código que você recebeu."@
}

/// The request for the location, sent once the code was accepted.
pub open spec fn welcome_text(first_name: Seq<char>) -> Seq<char> {
    "\n                    Olá, "@ + first_name
        + "! Seja bem-vindo ao nosso bot. Para continuar, precisamos de sua localização.\n                "@
}

/// Sent when the code entered is not the expected one.
pub open spec fn wrong_code_text() -> Seq<char> {
    "Código incorreto!"@
}

/// Sent when a code was expected and the event carried no text.
pub open spec fn ask_code_text() -> Seq<char> {
    "Por favor, digite o código que você recebeu."@
}

/// Sent when a location was expected and the event carried none.
pub open spec fn ask_location_text() -> Seq<char> {
    "Por favor, compartilhe sua localização."@
}

/// Sent in open chat when the event carried no text.
pub open spec fn ask_text_text() -> Seq<char> {
    "Por favor, digite uma mensagem."@
}

/// Sent when the agent gave no reply.
pub open spec fn fallback_text() -> Seq<char> {
    "Desculpe, não entendi."@
}

/// The account `a`, now verified.
pub open spec fn verified_account(a: AccountView) -> AccountView {
    AccountView { verified: true, ..a }
}

/// The account `a`, now onboarded.
pub open spec fn onboarded_account(a: AccountView) -> AccountView {
    AccountView { did_onboarding: true, ..a }
}

/// The account made on first contact.
pub open spec fn first_contact_account(
    chat_id: i64,
    first_name: Seq<char>,
    last_name: Seq<char>,
    id: Seq<char>,
) -> AccountView {
    AccountView { id, chat_id, first_name, last_name, verified: false, did_onboarding: false }
}

/// What the authenticating phase decides, given what the lookup found and
/// the id that a new account would get.
pub open spec fn authentication_plan(
    found: Option<AccountView>,
    chat_id: i64,
    first_name: Option<Seq<char>>,
    last_name: Option<Seq<char>>,
    id: Seq<char>,
) -> TransitionView {
    match found {
        Some(a) => TransitionView {
            next: if !a.verified {
                StateView::ReceiveCode(a)
            } else if !a.did_onboarding {
                StateView::ReceiveLocation(a)
            } else {
                StateView::Chat(a)
            },
            write: AccountWriteView::Nothing,
            reply: None,
        },
        None => {
            let a = first_contact_account(
                chat_id,
                name_or_empty(first_name),
                name_or_empty(last_name),
                id,
            );
            TransitionView {
                next: StateView::ReceiveCode(a),
                write: AccountWriteView::Create(a),
                reply: Some(greeting_text(a.first_name)),
            }
        },
    }
}

/// What the phase that awaits the code decides; `accepted` says whether the
/// verifier accepts the text, and counts only where the event carries text.
pub open spec fn code_plan(account: AccountView, payload: PayloadView, accepted: bool) -> TransitionView {
    match payload {
        PayloadView::Text(_) => if accepted {
            TransitionView {
                next: StateView::ReceiveLocation(verified_account(account)),
                write: AccountWriteView::Update(verified_account(account)),
                reply: Some(welcome_text(account.first_name)),
            }
        } else {
            TransitionView {
                next: StateView::ReceiveCode(account),
                write: AccountWriteView::Nothing,
                reply: Some(wrong_code_text()),
            }
        },
        _ => TransitionView {
            next: StateView::ReceiveCode(account),
            write: AccountWriteView::Nothing,
            reply: Some(ask_code_text()),
        },
    }
}

/// What the phase that awaits the location decides.
pub open spec fn location_plan(account: AccountView, payload: PayloadView) -> TransitionView {
    match payload {
        PayloadView::Location => TransitionView {
            next: StateView::Chat(onboarded_account(account)),
            write: AccountWriteView::Update(onboarded_account(account)),
            reply: None,
        },
        _ => TransitionView {
            next: StateView::ReceiveLocation(account),
            write: AccountWriteView::Nothing,
            reply: Some(ask_location_text()),
        },
    }
}

/// The check of a verification code: a capability handed to the state
/// machine, so that the machine holds no secret of its own.
pub trait CodeVerifier {
    /// Whether `code` is accepted.
    spec fn accepts(&self, code: Seq<char>) -> bool;

    /// Decides whether `code` is accepted.
    fn check(&self, code: &String) -> (ok: bool)
        ensures
            ok == self.accepts(code@),
    ;
}

/// Whether the verifier accepts what the event carries: only a text can be
/// accepted.
pub open spec fn accepted_by<V: CodeVerifier>(verifier: &V, payload: PayloadView) -> bool {
    match payload {
        PayloadView::Text(code) => verifier.accepts(code),
        _ => false,
    }
}

/// The verifier that accepts one fixed code for everybody.
#[derive(Debug, PartialEq, Eq)]
pub struct FixedCode {
    pub code: String,
}

impl FixedCode {
    /// The verifier that accepts `code` and nothing else.
    pub fn new(code: String) -> (v: FixedCode)
        ensures
            v.code@ == code@,
    {
        FixedCode { code }
    }
}

impl CodeVerifier for FixedCode {
    open spec fn accepts(&self, code: Seq<char>) -> bool {
        code == self.code@
    }

    fn check(&self, code: &String) -> (ok: bool) {
        *code == self.code
    }
}

/// The display name to store: the one given, or the empty string.
pub fn display_name(name: Option<String>) -> (s: String)
    ensures
        s@ == name_or_empty(text_opt_view(name)),
{
    match name {
        Some(s) => s,
        None => String::new(),
    }
}

/// The authenticating phase, for a new account id already drawn. A known
/// account goes straight to the phase that its flags call for and nothing is
/// written; an unknown conversation gets a new unverified account and is
/// asked for the code.
pub fn resolve_authentication(
    found: Option<Account>,
    chat_id: i64,
    first_name: Option<String>,
    last_name: Option<String>,
    id: String,
) -> (t: Transition)
    ensures
        t@ == authentication_plan(
            account_opt_view(found),
            chat_id,
            text_opt_view(first_name),
            text_opt_view(last_name),
            id@,
        ),
{
    match found {
        Some(a) => {
            let next = if !a.verified {
                StateMachine::ReceiveCode(a)
            } else if !a.did_onboarding {
                StateMachine::ReceiveLocation(a)
            } else {
                StateMachine::Chat(a)
            };
            Transition { next, write: AccountWrite::Nothing, reply: None }
        },
        None => {
            let a = Account::new(id, chat_id, display_name(first_name), display_name(last_name));
            let greeting = "Olá, ".to_owned().concat(a.first_name.as_str()).concat(
                "! Para continuar, precisamos verificar sua identidade. Por favor, digite o código que você recebeu.",
            );
            Transition {
                next: StateMachine::ReceiveCode(a.clone()),
                write: AccountWrite::Create(a),
                reply: Some(greeting),
            }
        },
    }
}

/// The authenticating phase. It draws the id that a new account would get,
/// so the contract holds for some id.
pub fn authentication(
    found: Option<Account>,
    chat_id: i64,
    first_name: Option<String>,
    last_name: Option<String>,
) -> (t: Transition)
    ensures
        exists|id: Seq<char>|
            id.len() == 36 && t@ == #[trigger] authentication_plan(
                account_opt_view(found),
                chat_id,
                text_opt_view(first_name),
                text_opt_view(last_name),
                id,
            ),
{
    let id = fresh_id();
    resolve_authentication(found, chat_id, first_name, last_name, id)
}

/// The phase that awaits the code. An accepted code verifies the account and
/// asks for the location; anything else leaves the phase as it is and says
/// why.
pub fn receive_code<V: CodeVerifier>(verifier: &V, account: Account, payload: &Payload) -> (t:
    Transition)
    ensures
        t@ == code_plan(account@, payload@, accepted_by(verifier, payload@)),
{
    match payload {
        Payload::Text(code) => {
            if verifier.check(code) {
                let welcome = "\n                    Olá, ".to_owned().concat(
                    account.first_name.as_str(),
                ).concat(
                    "! Seja bem-vindo ao nosso bot. Para continuar, precisamos de sua localização.\n                ",
                );
                let mut account = account;
                account.verified = true;
                Transition {
                    next: StateMachine::ReceiveLocation(account.clone()),
                    write: AccountWrite::Update(account),
                    reply: Some(welcome),
                }
            } else {
                Transition {
                    next: StateMachine::ReceiveCode(account),
                    write: AccountWrite::Nothing,
                    reply: Some("Código incorreto!".to_owned()),
                }
            }
        },
        _ => Transition {
            next: StateMachine::ReceiveCode(account),
            write: AccountWrite::Nothing,
            reply: Some("Por favor, digite o código que você recebeu.".to_owned()),
        },
    }
}

/// The phase that awaits the location. A shared location marks the account
/// as onboarded and opens the chat; anything else leaves the phase as it is
/// and asks again.
pub fn receive_location(account: Account, payload: &Payload) -> (t: Transition)
    ensures
        t@ == location_plan(account@, payload@),
{
    match payload {
        Payload::Location => {
            let mut account = account;
            account.did_onboarding = true;
            Transition {
                next: StateMachine::Chat(account.clone()),
                write: AccountWrite::Update(account),
                reply: None,
            }
        },
        _ => Transition {
            next: StateMachine::ReceiveLocation(account),
            write: AccountWrite::Nothing,
            reply: Some("Por favor, compartilhe sua localização.".to_owned()),
        },
    }
}

/// How an event opens a round of chat.
#[derive(Debug, PartialEq, Eq)]
pub enum ChatOpening {
    /// Log this user turn, then ask the agent.
    Ask(Message),
    /// Send this text and do nothing else.
    Reprompt(String),
}

/// The mathematical value of a [`ChatOpening`].
pub enum ChatOpeningView {
    Ask(MessageView),
    Reprompt(Seq<char>),
}

impl View for ChatOpening {
    type V = ChatOpeningView;

    open spec fn view(&self) -> ChatOpeningView {
        match self {
            ChatOpening::Ask(m) => ChatOpeningView::Ask(m@),
            ChatOpening::Reprompt(s) => ChatOpeningView::Reprompt(s@),
        }
    }
}

/// How a round of chat ends: the assistant turn to log, if the agent gave
/// one, and the text to send.
#[derive(Debug, PartialEq, Eq)]
pub struct ChatClosing {
    pub turn: Option<Message>,
    pub reply: String,
}

/// The mathematical value of a [`ChatClosing`].
pub struct ChatClosingView {
    pub turn: Option<MessageView>,
    pub reply: Seq<char>,
}

impl View for ChatClosing {
    type V = ChatClosingView;

    open spec fn view(&self) -> ChatClosingView {
        ChatClosingView {
            turn: match self.turn {
                Some(m) => Some(m@),
                None => None,
            },
            reply: self.reply@,
        }
    }
}

/// How the chat phase opens on an event, for a turn id and a stamp already
/// drawn.
pub open spec fn chat_opening(chat_id: i64, payload: PayloadView, id: Seq<char>, now: i64) -> ChatOpeningView {
    match payload {
        PayloadView::Text(text) => ChatOpeningView::Ask(
            MessageView { id, chat_id, content: text, role: Role::User, created_at: now },
        ),
        _ => ChatOpeningView::Reprompt(ask_text_text()),
    }
}

/// The text of an agent's reply, or why there is none.
pub open spec fn reply_view(reply: Result<String, AgentError>) -> Result<Seq<char>, AgentError> {
    match reply {
        Ok(s) => Ok(s@),
        Err(e) => Err(e),
    }
}

/// How the chat phase closes on the agent's answer, for a turn id and a
/// stamp already drawn.
pub open spec fn chat_closing(
    chat_id: i64,
    reply: Result<Seq<char>, AgentError>,
    id: Seq<char>,
    now: i64,
) -> ChatClosingView {
    match reply {
        Ok(text) => ChatClosingView {
            turn: Some(
                MessageView { id, chat_id, content: text, role: Role::Assistant, created_at: now },
            ),
            reply: text,
        },
        Err(_) => ChatClosingView { turn: None, reply: fallback_text() },
    }
}

/// Opens a round of chat, for a turn id and a stamp already drawn: a text
/// becomes the user turn to log, anything else is answered with a request
/// for text.
pub fn resolve_chat(chat_id: i64, payload: &Payload, id: String, now: i64) -> (o: ChatOpening)
    ensures
        o@ == chat_opening(chat_id, payload@, id@, now),
{
    match payload {
        Payload::Text(text) => ChatOpening::Ask(Message::user(id, chat_id, text.clone(), now)),
        _ => ChatOpening::Reprompt("Por favor, digite uma mensagem.".to_owned()),
    }
}

/// Opens a round of chat. It draws the turn's id and stamp, so the contract
/// holds for some id and some stamp.
pub fn chat(chat_id: i64, payload: &Payload) -> (o: ChatOpening)
    ensures
        exists|id: Seq<char>, now: i64|
            id.len() == 36 && now >= 0 && o@ == #[trigger] chat_opening(chat_id, payload@, id, now),
{
    let id = fresh_id();
    let now = now_micros();
    resolve_chat(chat_id, payload, id, now)
}

/// Closes a round of chat, for a turn id and a stamp already drawn: a reply
/// is sent and becomes the assistant turn to log; a failure or a timeout is
/// answered with the apology and nothing is logged.
pub fn resolve_reply(chat_id: i64, reply: Result<String, AgentError>, id: String, now: i64) -> (c:
    ChatClosing)
    ensures
        c@ == chat_closing(chat_id, reply_view(reply), id@, now),
{
    match reply {
        Ok(text) => {
            let turn = Message::assistant(id, chat_id, text.clone(), now);
            ChatClosing { turn: Some(turn), reply: text }
        },
        Err(_) => ChatClosing { turn: None, reply: "Desculpe, não entendi.".to_owned() },
    }
}

/// Closes a round of chat. It draws the turn's id and stamp, so the contract
/// holds for some id and some stamp.
pub fn conclude_chat(chat_id: i64, reply: Result<String, AgentError>) -> (c: ChatClosing)
    ensures
        exists|id: Seq<char>, now: i64|
            id.len() == 36 && now >= 0 && c@ == #[trigger] chat_closing(
                chat_id,
                reply_view(reply),
                id,
                now,
            ),
{
    let id = fresh_id();
    let now = now_micros();
    resolve_reply(chat_id, reply, id, now)
}

} // verus!
