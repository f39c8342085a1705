use dialogue_engine::account::{Account, AccountTable, StoreError};

fn account(id: &str, chat_id: i64, first: &str, last: &str) -> Account {
    Account::new(id.to_string(), chat_id, first.to_string(), last.to_string())
}

#[test]
fn default_account_is_blank_under_a_fresh_id() {
    let a = Account::default();
    let b = Account::default();
    assert_eq!(a.chat_id, 0);
    assert_eq!(a.first_name, "");
    assert_eq!(a.last_name, "");
    assert!(!a.verified);
    assert!(!a.did_onboarding);
    assert_eq!(a.id.chars().count(), 36);
    assert_ne!(a.id, b.id);
}

#[test]
fn new_account_is_unverified() {
    let a = account("a-1", 7, "Ana", "Lima");
    assert_eq!(a.id, "a-1");
    assert_eq!(a.chat_id, 7);
    assert_eq!(a.first_name, "Ana");
    assert_eq!(a.last_name, "Lima");
    assert!(!a.verified);
    assert!(!a.did_onboarding);
}

#[test]
fn clone_keeps_every_field() {
    let mut a = account("a-1", 7, "Ana", "Lima");
    a.verified = true;
    assert_eq!(a.clone(), a);
}

#[test]
fn create_then_find_gives_the_same_record() {
    let mut table = AccountTable::new();
    let mut a = account("a-1", 7, "Ana", "Lima");
    a.verified = true;
    assert_eq!(a.create(&mut table), Ok(()));
    assert_eq!(table.len(), 1);
    assert_eq!(Account::find_by_chat_id(&7, &table), Ok(Some(a)));
}

#[test]
fn find_of_an_unknown_conversation_is_none() {
    let mut table = AccountTable::new();
    assert_eq!(Account::find_by_chat_id(&7, &table), Ok(None));
    assert_eq!(account("a-1", 7, "Ana", "Lima").create(&mut table), Ok(()));
    assert_eq!(Account::find_by_chat_id(&8, &table), Ok(None));
}

#[test]
fn create_refuses_a_second_account_for_a_conversation() {
    let mut table = AccountTable::new();
    let a = account("a-1", 7, "Ana", "Lima");
    assert_eq!(a.create(&mut table), Ok(()));
    let b = account("a-2", 7, "Bia", "");
    assert_eq!(b.create(&mut table), Err(StoreError::DuplicateConversation));
    assert_eq!(table.len(), 1);
    assert_eq!(Account::find_by_chat_id(&7, &table), Ok(Some(a)));
}

#[test]
fn create_refuses_a_taken_id() {
    let mut table = AccountTable::new();
    assert_eq!(account("a-1", 7, "Ana", "Lima").create(&mut table), Ok(()));
    let b = account("a-1", 8, "Bia", "");
    assert_eq!(b.create(&mut table), Err(StoreError::StoreFailure));
    assert_eq!(table.len(), 1);
    assert_eq!(Account::find_by_chat_id(&8, &table), Ok(None));
}

#[test]
fn update_replaces_the_whole_record() {
    let mut table = AccountTable::new();
    assert_eq!(account("a-1", 7, "Ana", "Lima").create(&mut table), Ok(()));
    assert_eq!(account("a-2", 8, "Bia", "").create(&mut table), Ok(()));
    let mut changed = account("a-1", 9, "Anna", "L.");
    changed.verified = true;
    changed.did_onboarding = true;
    assert_eq!(changed.update(&mut table), Ok(()));
    assert_eq!(table.len(), 2);
    assert_eq!(Account::find_by_chat_id(&7, &table), Ok(None));
    assert_eq!(Account::find_by_chat_id(&9, &table), Ok(Some(changed)));
    assert_eq!(Account::find_by_chat_id(&8, &table), Ok(Some(account("a-2", 8, "Bia", ""))));
}

#[test]
fn update_of_an_unknown_id_is_not_found() {
    let mut table = AccountTable::new();
    assert_eq!(account("a-1", 7, "Ana", "Lima").create(&mut table), Ok(()));
    assert_eq!(account("a-9", 7, "Ana", "Lima").update(&mut table), Err(StoreError::NotFound));
    assert_eq!(Account::find_by_chat_id(&7, &table), Ok(Some(account("a-1", 7, "Ana", "Lima"))));
}

#[test]
fn update_refuses_the_conversation_of_another_account() {
    let mut table = AccountTable::new();
    assert_eq!(account("a-1", 7, "Ana", "Lima").create(&mut table), Ok(()));
    assert_eq!(account("a-2", 8, "Bia", "").create(&mut table), Ok(()));
    assert_eq!(account("a-2", 7, "Bia", "").update(&mut table), Err(StoreError::StoreFailure));
    assert_eq!(Account::find_by_chat_id(&8, &table), Ok(Some(account("a-2", 8, "Bia", ""))));
}

#[test]
fn delete_removes_the_record_and_only_it() {
    let mut table = AccountTable::new();
    assert_eq!(account("a-1", 7, "Ana", "Lima").create(&mut table), Ok(()));
    assert_eq!(account("a-2", 8, "Bia", "").create(&mut table), Ok(()));
    assert_eq!(account("a-1", 0, "", "").delete(&mut table), Ok(()));
    assert_eq!(table.len(), 1);
    assert_eq!(Account::find_by_chat_id(&7, &table), Ok(None));
    assert_eq!(Account::find_by_chat_id(&8, &table), Ok(Some(account("a-2", 8, "Bia", ""))));
}

#[test]
fn delete_of_an_absent_record_is_no_error() {
    let mut table = AccountTable::new();
    assert_eq!(account("a-1", 7, "Ana", "Lima").create(&mut table), Ok(()));
    assert_eq!(account("a-9", 7, "", "").delete(&mut table), Ok(()));
    assert_eq!(table.len(), 1);
}
