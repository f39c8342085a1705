use dialogue_engine::account::{Account, StoreError};
use dialogue_engine::agent::{AgentError, ChatRole, ChatTurn};
use dialogue_engine::dialogue::{FixedCode, Inbound, Outbound, Payload, StateMachine, Transition, AccountWrite};
use dialogue_engine::engine::{ChatRequest, Engine, Handled};
use dialogue_engine::dialogue::{ChatClosing, ChatOpening};
use dialogue_engine::message::{Message, Role};
use dialogue_engine::phases::PhaseBook;

fn event(chat_id: i64, payload: Payload) -> Inbound {
    Inbound { chat_id, first_name: Some("Ana".to_string()), last_name: Some("Lima".to_string()), payload }
}

fn text(s: &str) -> Payload {
    Payload::Text(s.to_string())
}

fn code() -> FixedCode {
    FixedCode::new("1234".to_string())
}

fn silent(_: Vec<ChatTurn>) -> Result<String, AgentError> {
    panic!("the agent must not be asked")
}

fn stored(engine: &Engine, chat_id: i64) -> Account {
    Account::find_by_chat_id(&chat_id, &engine.accounts).unwrap().unwrap()
}

fn onboarded_engine() -> Engine {
    let mut engine = Engine::new();
    engine.receive(&code(), event(555, text("hello")), silent).unwrap();
    engine.receive(&code(), event(555, text("1234")), silent).unwrap();
    engine.receive(&code(), event(555, Payload::Location), silent).unwrap();
    engine
}

#[test]
fn book_starts_every_conversation_in_authentication() {
    let mut book = PhaseBook::new();
    assert_eq!(book.get(555), StateMachine::Authentication);
    let a = Account::new("a-1".to_string(), 555, "Ana".to_string(), "".to_string());
    book.set(555, StateMachine::ReceiveCode(a.clone()));
    assert_eq!(book.get(555), StateMachine::ReceiveCode(a.clone()));
    assert_eq!(book.get(556), StateMachine::Authentication);
    book.set(555, StateMachine::Chat(a.clone()));
    book.set(556, StateMachine::Onboarding(a.clone()));
    assert_eq!(book.get(555), StateMachine::Chat(a.clone()));
    assert_eq!(book.get(556), StateMachine::Onboarding(a));
}

#[test]
fn unknown_conversation_is_asked_for_the_code() {
    let mut engine = Engine::new();
    let out = engine.receive(&code(), event(555, text("hello")), silent);
    assert_eq!(
        out,
        Ok(Some(Outbound {
            chat_id: 555,
            text: "Olá, Ana! Para continuar, precisamos verificar sua identidade. Por favor, digite o código que você recebeu."
                .to_string(),
        }))
    );
    assert_eq!(engine.accounts.len(), 1);
    let a = stored(&engine, 555);
    assert_eq!(a.chat_id, 555);
    assert_eq!((a.first_name.as_str(), a.last_name.as_str()), ("Ana", "Lima"));
    assert!(!a.verified && !a.did_onboarding);
    assert_eq!(engine.phases.get(555), StateMachine::ReceiveCode(a));
    assert_eq!(engine.log.len(), 0);
}

#[test]
fn matching_code_verifies_and_asks_for_the_location() {
    let mut engine = Engine::new();
    engine.receive(&code(), event(555, text("hello")), silent).unwrap();
    let out = engine.receive(&code(), event(555, text("1234")), silent);
    assert_eq!(
        out,
        Ok(Some(Outbound {
            chat_id: 555,
            text: "\n                    Olá, Ana! Seja bem-vindo ao nosso bot. Para continuar, precisamos de sua localização.\n                "
                .to_string(),
        }))
    );
    let a = stored(&engine, 555);
    assert!(a.verified && !a.did_onboarding);
    assert_eq!(engine.phases.get(555), StateMachine::ReceiveLocation(a));
}

#[test]
fn shared_location_opens_the_chat() {
    let mut engine = Engine::new();
    engine.receive(&code(), event(555, text("hello")), silent).unwrap();
    engine.receive(&code(), event(555, text("1234")), silent).unwrap();
    let out = engine.receive(&code(), event(555, Payload::Location), silent);
    assert_eq!(out, Ok(None));
    let a = stored(&engine, 555);
    assert!(a.verified && a.did_onboarding);
    assert_eq!(engine.accounts.len(), 1);
    assert_eq!(engine.phases.get(555), StateMachine::Chat(a));
}

#[test]
fn failing_agent_is_answered_with_the_apology() {
    for failure in [AgentError::Failure, AgentError::Timeout] {
        let mut engine = onboarded_engine();
        let out = engine.receive(&code(), event(555, text("oi")), |_| Err(failure));
        assert_eq!(
            out,
            Ok(Some(Outbound { chat_id: 555, text: "Desculpe, não entendi.".to_string() }))
        );
        let window = Message::find_by_chat_id(555, 10, &engine.log).unwrap();
        assert_eq!(window.len(), 1);
        assert_eq!((window[0].content.as_str(), window[0].role), ("oi", Role::User));
        assert_eq!(engine.log.len(), 1);
        assert_eq!(engine.phases.get(555), StateMachine::Chat(stored(&engine, 555)));
    }
}

#[test]
fn agent_sees_the_history_and_its_reply_is_logged() {
    let mut engine = onboarded_engine();
    let mut seen: Vec<ChatTurn> = Vec::new();
    let out = engine.receive(&code(), event(555, text("oi")), |ctx| {
        seen = ctx;
        Ok("olá!".to_string())
    });
    assert_eq!(out, Ok(Some(Outbound { chat_id: 555, text: "olá!".to_string() })));
    assert_eq!(seen, vec![ChatTurn { role: ChatRole::User, content: "oi".to_string() }]);

    let mut seen: Vec<ChatTurn> = Vec::new();
    let out = engine.receive(&code(), event(555, text("tudo bem?")), |ctx| {
        seen = ctx;
        Ok("tudo!".to_string())
    });
    assert_eq!(out, Ok(Some(Outbound { chat_id: 555, text: "tudo!".to_string() })));
    assert_eq!(
        seen,
        vec![
            ChatTurn { role: ChatRole::User, content: "oi".to_string() },
            ChatTurn { role: ChatRole::Assistant, content: "olá!".to_string() },
            ChatTurn { role: ChatRole::User, content: "tudo bem?".to_string() },
        ]
    );
    let window = Message::find_by_chat_id(555, 10, &engine.log).unwrap();
    let got: Vec<(&str, Role)> = window.iter().map(|m| (m.content.as_str(), m.role)).collect();
    assert_eq!(
        got,
        vec![
            ("tudo!", Role::Assistant),
            ("tudo bem?", Role::User),
            ("olá!", Role::Assistant),
            ("oi", Role::User),
        ]
    );
    assert_eq!(engine.phases.get(555), StateMachine::Chat(stored(&engine, 555)));
}

#[test]
fn chat_without_text_asks_for_a_text_message() {
    let mut engine = onboarded_engine();
    let out = engine.receive(&code(), event(555, Payload::Location), silent);
    assert_eq!(
        out,
        Ok(Some(Outbound { chat_id: 555, text: "Por favor, digite uma mensagem.".to_string() }))
    );
    assert_eq!(engine.log.len(), 0);
    assert_eq!(engine.phases.get(555), StateMachine::Chat(stored(&engine, 555)));
}

#[test]
fn second_contact_creates_no_second_account() {
    let mut engine = Engine::new();
    let first = engine.handle(&code(), StateMachine::Authentication, event(555, text("a")), silent);
    let again = engine.handle(&code(), StateMachine::Authentication, event(555, text("b")), silent);
    assert_eq!(engine.accounts.len(), 1);
    let a = stored(&engine, 555);
    assert_eq!(first.unwrap().next, StateMachine::ReceiveCode(a.clone()));
    assert_eq!(again, Ok(Handled { next: StateMachine::ReceiveCode(a), outbound: None }));
}

#[test]
fn onboarded_account_reenters_chat_without_a_write() {
    let mut engine = onboarded_engine();
    let before = stored(&engine, 555);
    let h = engine.handle(&code(), StateMachine::Authentication, event(555, text("oi")), silent);
    assert_eq!(h, Ok(Handled { next: StateMachine::Chat(before.clone()), outbound: None }));
    assert_eq!(engine.accounts.len(), 1);
    assert_eq!(stored(&engine, 555), before);
    assert_eq!(engine.log.len(), 0);
}

#[test]
fn wrong_code_changes_neither_phase_nor_account() {
    let mut engine = Engine::new();
    engine.receive(&code(), event(555, text("hello")), silent).unwrap();
    let before = stored(&engine, 555);
    let out = engine.receive(&code(), event(555, text("4321")), silent);
    assert_eq!(out, Ok(Some(Outbound { chat_id: 555, text: "Código incorreto!".to_string() })));
    assert_eq!(stored(&engine, 555), before);
    assert!(!stored(&engine, 555).verified);
    assert_eq!(engine.phases.get(555), StateMachine::ReceiveCode(before));
}

#[test]
fn missing_code_is_prompted_for() {
    let mut engine = Engine::new();
    engine.receive(&code(), event(555, text("hello")), silent).unwrap();
    let out = engine.receive(&code(), event(555, Payload::Other), silent);
    assert_eq!(
        out,
        Ok(Some(Outbound {
            chat_id: 555,
            text: "Por favor, digite o código que você recebeu.".to_string()
        }))
    );
    assert!(!stored(&engine, 555).verified);
}

#[test]
fn missing_location_changes_neither_phase_nor_account() {
    let mut engine = Engine::new();
    engine.receive(&code(), event(555, text("hello")), silent).unwrap();
    engine.receive(&code(), event(555, text("1234")), silent).unwrap();
    let before = stored(&engine, 555);
    let out = engine.receive(&code(), event(555, text("rua A")), silent);
    assert_eq!(
        out,
        Ok(Some(Outbound { chat_id: 555, text: "Por favor, compartilhe sua localização.".to_string() }))
    );
    assert_eq!(stored(&engine, 555), before);
    assert!(!stored(&engine, 555).did_onboarding);
    assert_eq!(engine.phases.get(555), StateMachine::ReceiveLocation(before));
}

#[test]
fn onboarding_phase_ignores_events() {
    let mut engine = Engine::new();
    let a = Account::new("a-1".to_string(), 555, "Ana".to_string(), "".to_string());
    let h = engine.handle(&code(), StateMachine::Onboarding(a.clone()), event(555, text("oi")), silent);
    assert_eq!(h, Ok(Handled { next: StateMachine::Onboarding(a), outbound: None }));
    assert_eq!(engine.accounts.len(), 0);
    assert_eq!(engine.log.len(), 0);
}

#[test]
fn refused_write_keeps_the_old_phase() {
    let mut engine = Engine::new();
    let ghost = Account::new("a-1".to_string(), 555, "Ana".to_string(), "".to_string());
    engine.phases.set(555, StateMachine::ReceiveCode(ghost.clone()));
    let out = engine.receive(&code(), event(555, text("1234")), silent);
    assert_eq!(out, Err(StoreError::NotFound));
    assert_eq!(engine.phases.get(555), StateMachine::ReceiveCode(ghost));
    assert_eq!(engine.accounts.len(), 0);
}

#[test]
fn commit_of_a_duplicate_create_is_refused() {
    let mut engine = Engine::new();
    let a = Account::new("a-1".to_string(), 555, "Ana".to_string(), "".to_string());
    assert_eq!(a.create(&mut engine.accounts), Ok(()));
    let b = Account::new("a-2".to_string(), 555, "Bia".to_string(), "".to_string());
    let t = Transition {
        next: StateMachine::ReceiveCode(b.clone()),
        write: AccountWrite::Create(b),
        reply: Some("x".to_string()),
    };
    assert_eq!(engine.commit(t, 555), Err(StoreError::DuplicateConversation));
    assert_eq!(stored(&engine, 555), a);
}

#[test]
fn begin_and_end_chat_log_both_turns() {
    let mut engine = Engine::new();
    let user = Message::user("m-1".to_string(), 555, "oi".to_string(), 10);
    let asked = engine.begin_chat(ChatOpening::Ask(user.clone()), 555);
    assert_eq!(
        asked,
        Ok(ChatRequest::Ask(vec![ChatTurn { role: ChatRole::User, content: "oi".to_string() }]))
    );
    let reply = Message::assistant("m-2".to_string(), 555, "olá".to_string(), 11);
    let sent = engine.end_chat(ChatClosing { turn: Some(reply.clone()), reply: "olá".to_string() }, 555);
    assert_eq!(sent, Ok(Outbound { chat_id: 555, text: "olá".to_string() }));
    assert_eq!(Message::find_by_chat_id(555, 10, &engine.log), Ok(vec![reply, user.clone()]));
    let again = engine.begin_chat(ChatOpening::Ask(user), 555);
    assert_eq!(again, Err(StoreError::StoreFailure));
    let prompt = engine.begin_chat(ChatOpening::Reprompt("?".to_string()), 555);
    assert_eq!(prompt, Ok(ChatRequest::Reprompt(Outbound { chat_id: 555, text: "?".to_string() })));
    assert_eq!(engine.log.len(), 2);
}
