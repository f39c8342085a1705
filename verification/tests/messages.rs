use dialogue_engine::account::StoreError;
use dialogue_engine::message::{Message, MessageLog, Role};

fn turn(id: &str, chat_id: i64, content: &str, role: Role, at: i64) -> Message {
    Message { id: id.to_string(), chat_id, content: content.to_string(), role, created_at: at }
}

#[test]
fn role_names() {
    assert_eq!(Role::User.as_str(), "user");
    assert_eq!(Role::Assistant.as_str(), "assistant");
    assert_eq!(Role::System.as_str(), "system");
}

#[test]
fn role_is_read_back_from_its_name() {
    for role in [Role::User, Role::Assistant, Role::System] {
        assert_eq!(Role::parse(role.as_str()), Some(role));
    }
}

#[test]
fn unknown_role_name_is_no_role() {
    assert_eq!(Role::parse("User"), None);
    assert_eq!(Role::parse(""), None);
    assert_eq!(Role::parse("admin"), None);
}

#[test]
fn default_role_is_user() {
    assert_eq!(Role::default(), Role::User);
}

#[test]
fn default_message_is_an_empty_user_turn_stamped_now() {
    let m = Message::default();
    assert_eq!(m.chat_id, 0);
    assert_eq!(m.content, "");
    assert_eq!(m.role, Role::User);
    assert_eq!(m.id.chars().count(), 36);
    assert!(m.created_at > 1_600_000_000_000_000);
    let n = Message::default();
    assert_ne!(m.id, n.id);
    assert!(n.created_at >= m.created_at);
}

#[test]
fn user_and_assistant_turns() {
    let u = Message::user("m-1".to_string(), 5, "oi".to_string(), 10);
    assert_eq!(u, turn("m-1", 5, "oi", Role::User, 10));
    let a = Message::assistant("m-2".to_string(), 5, "olá".to_string(), 11);
    assert_eq!(a, turn("m-2", 5, "olá", Role::Assistant, 11));
}

#[test]
fn recent_comes_newest_first() {
    let mut log = MessageLog::new();
    for (i, text) in ["a", "b", "c"].iter().enumerate() {
        let m = turn(&format!("m-{}", i), 5, text, Role::User, 100 + i as i64);
        assert_eq!(m.create(&mut log), Ok(()));
    }
    let window = Message::find_by_chat_id(5, 10, &log).unwrap();
    let texts: Vec<&str> = window.iter().map(|m| m.content.as_str()).collect();
    assert_eq!(texts, vec!["c", "b", "a"]);
    assert!(window.windows(2).all(|w| w[0].created_at >= w[1].created_at));
}

#[test]
fn recent_holds_at_most_the_limit() {
    let mut log = MessageLog::new();
    for i in 0..5 {
        let m = turn(&format!("m-{}", i), 5, &format!("t{}", i), Role::User, i);
        assert_eq!(m.create(&mut log), Ok(()));
    }
    let window = Message::find_by_chat_id(5, 2, &log).unwrap();
    let texts: Vec<&str> = window.iter().map(|m| m.content.as_str()).collect();
    assert_eq!(texts, vec!["t4", "t3"]);
    assert_eq!(Message::find_by_chat_id(5, 0, &log), Ok(vec![]));
}

#[test]
fn recent_keeps_to_one_conversation() {
    let mut log = MessageLog::new();
    assert_eq!(turn("m-1", 5, "a", Role::User, 1).create(&mut log), Ok(()));
    assert_eq!(turn("m-2", 6, "x", Role::User, 2).create(&mut log), Ok(()));
    assert_eq!(turn("m-3", 5, "b", Role::Assistant, 3).create(&mut log), Ok(()));
    assert_eq!(log.len(), 3);
    let window = Message::find_by_chat_id(5, 10, &log).unwrap();
    assert_eq!(window, vec![turn("m-3", 5, "b", Role::Assistant, 3), turn("m-1", 5, "a", Role::User, 1)]);
    assert_eq!(Message::find_by_chat_id(7, 10, &log), Ok(vec![]));
}

#[test]
fn recent_refuses_a_negative_limit() {
    let log = MessageLog::new();
    assert_eq!(Message::find_by_chat_id(5, -1, &log), Err(StoreError::StoreFailure));
}

#[test]
fn append_refuses_a_taken_id() {
    let mut log = MessageLog::new();
    assert_eq!(turn("m-1", 5, "a", Role::User, 1).create(&mut log), Ok(()));
    assert_eq!(turn("m-1", 6, "b", Role::User, 2).create(&mut log), Err(StoreError::StoreFailure));
    assert_eq!(log.len(), 1);
}

#[test]
fn append_refuses_a_stamp_that_goes_back() {
    let mut log = MessageLog::new();
    assert_eq!(turn("m-1", 5, "a", Role::User, 10).create(&mut log), Ok(()));
    assert_eq!(turn("m-2", 5, "b", Role::User, 9).create(&mut log), Err(StoreError::StoreFailure));
    assert_eq!(turn("m-3", 6, "c", Role::User, 9).create(&mut log), Ok(()));
    assert_eq!(turn("m-4", 5, "d", Role::User, 10).create(&mut log), Ok(()));
    assert_eq!(log.len(), 3);
}
