use relay_bot::relay::{
    apply_relay, relay_message, relay_nickname, relay_now, relay_outcome, save_notice, RelayAction, RelayFailure,
};
use relay_bot::sanitize::clean_ai_response;
use relay_bot::store::{new_user, Conversation, StoreError, User, UserStore};

#[test]
fn reachable_backend_reply_is_cleaned_sent_and_stored() {
    let mut store = UserStore::new();
    store.insert(new_user(7, "Fox".to_string())).unwrap();
    let raw = "[Bot] Sure!! *nods* Yes.";
    let action = relay_outcome(true, Ok(raw.to_string()), "hello".to_string(), 1234);
    let (reply, saved) = apply_relay(&mut store, 7, action);
    assert_eq!(reply, Some(clean_ai_response(raw)));
    assert_eq!(reply, Some("Sure.".to_string()));
    assert!(saved.is_ok());
    let rec = store.find_by_external_id(7).unwrap();
    assert_eq!(rec.conversations.len(), 1);
    assert_eq!(rec.conversations[0].prompt, "hello");
    assert_eq!(rec.conversations[0].response, "Sure.");
    assert_eq!(rec.conversations[0].timestamp, 1234);
}

#[test]
fn failures_are_reported_and_not_stored() {
    let mut store = UserStore::new();
    store.insert(new_user(7, "Fox".to_string())).unwrap();
    let a = relay_outcome(true, Err(RelayFailure::CallFailed), "x".to_string(), 1);
    let (reply, _) = apply_relay(&mut store, 7, a);
    assert_eq!(reply, Some("Failed to reach chatbot server.".to_string()));
    let a = relay_outcome(true, Err(RelayFailure::ReadFailed), "x".to_string(), 1);
    let (reply, _) = apply_relay(&mut store, 7, a);
    assert_eq!(reply, Some("Failed to read chatbot response.".to_string()));
    assert!(store.find_by_external_id(7).unwrap().conversations.is_empty());
}

#[test]
fn failed_write_still_replies() {
    let mut store = UserStore::new();
    let a = relay_outcome(true, Ok("fine".to_string()), "x".to_string(), 1);
    let (reply, saved) = apply_relay(&mut store, 8, a);
    assert_eq!(reply, Some("fine".to_string()));
    assert_eq!(saved, Err(StoreError::NotFound));
}

#[test]
fn empty_reply_becomes_placeholder() {
    match relay_now(true, Ok("  ".to_string()), "x".to_string()) {
        RelayAction::Deliver { reply, entry } => {
            assert_eq!(reply, "The chatbot returned nothing.");
            assert_eq!(entry.response, reply);
            assert_eq!(entry.prompt, "x");
            assert!(entry.timestamp > 0);
        }
        other => panic!("{:?}", other),
    }
}

#[test]
fn history_is_appended_in_order() {
    let mut store = UserStore::new();
    store.insert(new_user(1, "A".to_string())).unwrap();
    store.insert(new_user(2, "B".to_string())).unwrap();
    for (i, p) in ["one", "two"].iter().enumerate() {
        let a = relay_outcome(true, Ok(format!("r{}", i)), p.to_string(), i as i64);
        apply_relay(&mut store, 1, a);
    }
    let rec = store.find_by_external_id(1).unwrap();
    assert_eq!(rec.conversations.len(), 2);
    assert_eq!(rec.conversations[0].prompt, "one");
    assert_eq!(rec.conversations[1].response, "r1");
    assert!(store.find_by_external_id(2).unwrap().conversations.is_empty());
}

#[test]
fn older_entry_is_refused() {
    let mut store = UserStore::new();
    store.insert(new_user(1, "A".to_string())).unwrap();
    let a = relay_outcome(true, Ok("late".to_string()), "p".to_string(), 50);
    let (_, saved) = apply_relay(&mut store, 1, a);
    assert!(saved.is_ok());
    let a = relay_outcome(true, Ok("early".to_string()), "q".to_string(), 40);
    let (reply, saved) = apply_relay(&mut store, 1, a);
    assert_eq!(reply, Some("early".to_string()));
    assert_eq!(saved, Err(StoreError::OutOfOrder));
    let a = relay_outcome(true, Ok("same".to_string()), "r".to_string(), 50);
    assert!(apply_relay(&mut store, 1, a).1.is_ok());
    assert_eq!(store.find_by_external_id(1).unwrap().conversations.len(), 2);
}

#[test]
fn unordered_history_is_refused_on_insert() {
    let mut store = UserStore::new();
    let c = |t: i64| Conversation { prompt: "p".to_string(), response: "r".to_string(), timestamp: t };
    let user = User { discord_id: 4, nickname: "D".to_string(), conversations: vec![c(5), c(3)] };
    assert_eq!(store.insert(user), Err(StoreError::OutOfOrder));
    assert!(!store.is_registered(4));
    let user = User { discord_id: 4, nickname: "D".to_string(), conversations: vec![c(3), c(3), c(5)] };
    assert!(store.insert(user).is_ok());
}

#[test]
fn notices() {
    assert_eq!(save_notice(true), None);
    assert_eq!(save_notice(false), Some("Your message was answered but could not be saved.".to_string()));
    assert_eq!(relay_nickname(Some("Fox".to_string())), Ok("Fox".to_string()));
    assert_eq!(relay_nickname(None), Err("Error: Could not fetch your nickname from DB.".to_string()));
}

#[test]
fn relay_message_sends_and_records_cleaned_reply() {
    let mut store = UserStore::new();
    store.insert(new_user(7, "Fox".to_string())).unwrap();
    let raw = "[Bot] Sure!! *nods* Yes.".to_string();
    let (sent, saved) = relay_message(&mut store, 7, true, Ok(raw), "hi".to_string(), 99);
    assert_eq!(sent, Some("Sure.".to_string()));
    assert!(saved.is_ok());
    let rec = store.find_by_external_id(7).unwrap();
    assert_eq!(rec.conversations.len(), 1);
    assert_eq!(rec.conversations[0].prompt, "hi");
    assert_eq!(rec.conversations[0].response, "Sure.");
    let (sent, _) = relay_message(&mut store, 7, false, Ok("x".to_string()), "again".to_string(), 100);
    assert_eq!(sent, None);
    assert_eq!(store.find_by_external_id(7).unwrap().conversations.len(), 1);
}
