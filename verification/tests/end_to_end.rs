use chat_engine::ChatSession;
use chat_engine::ConnectionHandle;
use chat_engine::ConnectionRegistry;
use chat_engine::ErrorReason;
use chat_engine::HistoryStore;
use chat_engine::Message;

fn joined(username: &str, id: u64, reg: &mut ConnectionRegistry) -> ChatSession {
    let mut s = ChatSession::new(username.to_string(), ConnectionHandle { id });
    let _ = s.started(reg);
    s
}

#[test]
fn public_chat_scenario() {
    // alice joins, then bob; bob sends a public "hi" as a raw wire frame.
    let mut reg = ConnectionRegistry::new();
    let mut hist = HistoryStore::new();
    let _alice = joined("alice", 1, &mut reg);
    let bob = joined("bob", 2, &mut reg);
    let dir = vec!["alice".to_string(), "bob".to_string()];

    let out = bob.handle(
        "{\"type\":\"message\",\"recipient\":\"public\",\"content\":\"hi\"}",
        &String::new(),
        &reg,
        &mut hist,
        &dir,
    );

    assert!(hist.get("alice").contains(&"bob: hi".to_string()));
    assert!(hist.get("bob").contains(&"bob: hi".to_string()));
    assert_eq!(out.deliveries.len(), 2);
    let mut handles: Vec<u64> = out.deliveries.iter().map(|d| d.handle.id).collect();
    handles.sort();
    assert_eq!(handles, vec![1, 2]);
    for d in &out.deliveries {
        assert!(matches!(&d.message, Message::Public { from, content }
            if from.as_str() == "bob" && content.as_str() == "hi"));
    }
}

#[test]
fn private_to_nonexistent_user_scenario() {
    // alice writes to "carol", who has never connected: alice gets exactly
    // one "user not found" error and no transcript changes anywhere.
    let mut reg = ConnectionRegistry::new();
    let mut hist = HistoryStore::new();
    let alice = joined("alice", 1, &mut reg);
    let _bob = joined("bob", 2, &mut reg);
    let dir = vec!["alice".to_string(), "bob".to_string()];

    let out = alice.handle(
        "{\"type\":\"message\",\"recipient\":\"carol\",\"content\":\"hello?\"}",
        &String::new(),
        &reg,
        &mut hist,
        &dir,
    );

    assert_eq!(out.deliveries.len(), 0);
    assert_eq!(out.to_sender.len(), 1);
    match &out.to_sender[0] {
        Message::Error { reason } => {
            assert_eq!(*reason, ErrorReason::RecipientNotFound);
            assert_eq!(reason.text(), "user not found");
        },
        _ => panic!("expected an error frame"),
    }
    assert_eq!(hist.get("alice"), Vec::<String>::new());
    assert_eq!(hist.get("bob"), Vec::<String>::new());
    assert_eq!(hist.get("carol"), Vec::<String>::new());
}

#[test]
fn malformed_frame_changes_nothing() {
    let mut reg = ConnectionRegistry::new();
    let mut hist = HistoryStore::new();
    let alice = joined("alice", 1, &mut reg);
    hist.append("alice", "earlier".to_string());
    let dir = vec!["alice".to_string()];

    let out = alice.handle("this is not json", &String::new(), &reg, &mut hist, &dir);

    assert_eq!(out.deliveries.len(), 0);
    assert_eq!(out.to_sender.len(), 1);
    assert!(matches!(&out.to_sender[0],
        Message::Error { reason: ErrorReason::DecodeError }));
    assert_eq!(hist.get("alice"), vec!["earlier".to_string()]);
    assert_eq!(reg.lookup("alice"), Some(ConnectionHandle { id: 1 }));
    assert_eq!(reg.len(), 1);
}

#[test]
fn unknown_kind_is_rejected() {
    let mut reg = ConnectionRegistry::new();
    let mut hist = HistoryStore::new();
    let alice = joined("alice", 1, &mut reg);
    let dir = vec!["alice".to_string()];

    let out = alice.handle(
        "{\"type\":\"bogus\",\"recipient\":\"public\"}",
        &String::new(),
        &reg,
        &mut hist,
        &dir,
    );

    assert_eq!(out.deliveries.len(), 0);
    assert_eq!(out.to_sender.len(), 1);
    assert!(matches!(&out.to_sender[0],
        Message::Error { reason: ErrorReason::UnknownMessageKind }));
    assert_eq!(hist.get("alice"), Vec::<String>::new());
}

#[test]
fn file_frame_end_to_end() {
    let mut reg = ConnectionRegistry::new();
    let mut hist = HistoryStore::new();
    let alice = joined("alice", 1, &mut reg);
    let _bob = joined("bob", 2, &mut reg);
    let dir = vec!["alice".to_string(), "bob".to_string()];

    // The transport stored the payload with the blob store and passes the
    // identifier it was handed back.
    let out = alice.handle(
        "{\"type\":\"file\",\"recipient\":\"bob\",\"filename\":\"a.txt\",\"data\":[104,105]}",
        &"blob-9".to_string(),
        &reg,
        &mut hist,
        &dir,
    );

    assert_eq!(out.deliveries.len(), 1);
    assert!(matches!(&out.deliveries[0].message,
        Message::FileOffer { from, recipient, file_id, filename }
            if from.as_str() == "alice" && recipient.as_str() == "bob"
                && file_id.as_str() == "blob-9" && filename.as_str() == "a.txt"));
    assert_eq!(hist.get("alice"), vec!["To bob: sent file 'a.txt'".to_string()]);
    assert_eq!(hist.get("bob"), vec!["From alice: received file 'a.txt'".to_string()]);
}
