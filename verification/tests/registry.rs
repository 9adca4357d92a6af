use chat_engine::ConnectionHandle;
use chat_engine::ConnectionRegistry;

fn names(reg: &ConnectionRegistry) -> Vec<String> {
    reg.enumerate().into_iter().map(|e| e.identity).collect()
}

#[test]
fn join_lookup_enumerate() {
    let mut reg = ConnectionRegistry::new();
    assert_eq!(reg.len(), 0);
    reg.join("alice".to_string(), ConnectionHandle { id: 1 });
    reg.join("bob".to_string(), ConnectionHandle { id: 2 });
    assert_eq!(reg.len(), 2);
    assert_eq!(reg.lookup("alice"), Some(ConnectionHandle { id: 1 }));
    assert_eq!(reg.lookup("bob"), Some(ConnectionHandle { id: 2 }));
    assert_eq!(reg.lookup("carol"), None);
    assert_eq!(names(&reg), vec!["alice".to_string(), "bob".to_string()]);
}

#[test]
fn join_supersedes_previous_handle() {
    let mut reg = ConnectionRegistry::new();
    reg.join("alice".to_string(), ConnectionHandle { id: 1 });
    reg.join("alice".to_string(), ConnectionHandle { id: 7 });
    assert_eq!(reg.len(), 1);
    assert_eq!(reg.lookup("alice"), Some(ConnectionHandle { id: 7 }));
}

#[test]
fn leave_removes_and_is_idempotent() {
    let mut reg = ConnectionRegistry::new();
    reg.join("alice".to_string(), ConnectionHandle { id: 1 });
    reg.join("bob".to_string(), ConnectionHandle { id: 2 });
    reg.leave("bob");
    assert_eq!(names(&reg), vec!["alice".to_string()]);
    // A duplicate leave, as when two transport-close paths race, changes
    // nothing.
    reg.leave("bob");
    assert_eq!(names(&reg), vec!["alice".to_string()]);
    assert_eq!(reg.lookup("bob"), None);
}

#[test]
fn leave_absent_is_a_noop() {
    let mut reg = ConnectionRegistry::new();
    reg.leave("ghost");
    assert_eq!(reg.len(), 0);
}

#[test]
fn registered_set_is_last_join_not_left() {
    // join a, join b, leave a, join c, leave c, join a: the identities whose
    // last operation is a join are exactly b and a.
    let mut reg = ConnectionRegistry::new();
    reg.join("a".to_string(), ConnectionHandle { id: 1 });
    reg.join("b".to_string(), ConnectionHandle { id: 2 });
    reg.leave("a");
    reg.join("c".to_string(), ConnectionHandle { id: 3 });
    reg.leave("c");
    reg.join("a".to_string(), ConnectionHandle { id: 4 });
    let mut got = names(&reg);
    got.sort();
    assert_eq!(got, vec!["a".to_string(), "b".to_string()]);
    assert_eq!(reg.lookup("a"), Some(ConnectionHandle { id: 4 }));
}
