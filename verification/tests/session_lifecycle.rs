use chat_engine::ChatSession;
use chat_engine::ConnectionHandle;
use chat_engine::ConnectionRegistry;
use chat_engine::Delivery;
use chat_engine::Message;
use chat_engine::SessionState;

fn is_connected_notice(d: &Delivery, handle: u64, username: &str) -> bool {
    d.handle == ConnectionHandle { id: handle }
        && matches!(&d.message, Message::UserConnected { username: u } if u.as_str() == username)
}

fn is_disconnected_notice(d: &Delivery, handle: u64, username: &str) -> bool {
    d.handle == ConnectionHandle { id: handle }
        && matches!(&d.message, Message::UserDisconnected { username: u } if u.as_str() == username)
}

#[test]
fn started_registers_and_announces_to_others_only() {
    let mut reg = ConnectionRegistry::new();

    let mut alice = ChatSession::new("alice".to_string(), ConnectionHandle { id: 1 });
    assert_eq!(alice.state, SessionState::Connecting);
    let notices = alice.started(&mut reg);
    assert_eq!(alice.state, SessionState::Joined);
    // Nobody else is connected yet: no join notice at all.
    assert_eq!(notices.len(), 0);

    let mut bob = ChatSession::new("bob".to_string(), ConnectionHandle { id: 2 });
    let notices = bob.started(&mut reg);
    // Only alice is told; the newly joined bob is excluded.
    assert_eq!(notices.len(), 1);
    assert!(is_connected_notice(&notices[0], 1, "bob"));
    assert_eq!(reg.lookup("bob"), Some(ConnectionHandle { id: 2 }));
}

#[test]
fn stopped_deregisters_announces_and_is_idempotent() {
    let mut reg = ConnectionRegistry::new();
    let mut alice = ChatSession::new("alice".to_string(), ConnectionHandle { id: 1 });
    let mut bob = ChatSession::new("bob".to_string(), ConnectionHandle { id: 2 });
    let _ = alice.started(&mut reg);
    let _ = bob.started(&mut reg);

    let notices = bob.stopped(&mut reg);
    assert_eq!(bob.state, SessionState::Closed);
    assert_eq!(reg.lookup("bob"), None);
    // Everyone still registered is told, which is alice alone.
    assert_eq!(notices.len(), 1);
    assert!(is_disconnected_notice(&notices[0], 1, "bob"));

    // A second close, as when two transport-close paths race, does nothing.
    let notices = bob.stopped(&mut reg);
    assert_eq!(notices.len(), 0);
    assert_eq!(bob.state, SessionState::Closed);
    assert_eq!(reg.lookup("alice"), Some(ConnectionHandle { id: 1 }));
}

#[test]
fn stopped_before_joining_leaves_no_trace() {
    let mut reg = ConnectionRegistry::new();
    let mut alice = ChatSession::new("alice".to_string(), ConnectionHandle { id: 1 });
    let notices = alice.stopped(&mut reg);
    assert_eq!(notices.len(), 0);
    assert_eq!(alice.state, SessionState::Closed);
    assert_eq!(reg.len(), 0);
}

#[test]
fn second_connection_supersedes_the_first() {
    // The configured policy: a second connection for the same identity
    // silently supersedes the first, orphaning its transport.
    let mut reg = ConnectionRegistry::new();
    let mut first = ChatSession::new("alice".to_string(), ConnectionHandle { id: 1 });
    let mut second = ChatSession::new("alice".to_string(), ConnectionHandle { id: 5 });
    let _ = first.started(&mut reg);
    let _ = second.started(&mut reg);
    assert_eq!(reg.len(), 1);
    assert_eq!(reg.lookup("alice"), Some(ConnectionHandle { id: 5 }));
}
