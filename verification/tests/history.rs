use chat_engine::HistoryStore;

#[test]
fn append_keeps_order() {
    let mut hist = HistoryStore::new();
    hist.append("alice", "one".to_string());
    hist.append("alice", "two".to_string());
    hist.append("alice", "three".to_string());
    assert_eq!(
        hist.get("alice"),
        vec!["one".to_string(), "two".to_string(), "three".to_string()]
    );
}

#[test]
fn get_of_unknown_identity_is_empty() {
    let hist = HistoryStore::new();
    assert_eq!(hist.get("nobody"), Vec::<String>::new());
}

#[test]
fn appends_do_not_touch_other_transcripts() {
    let mut hist = HistoryStore::new();
    hist.append("alice", "for alice".to_string());
    hist.append("bob", "for bob".to_string());
    hist.append("alice", "more for alice".to_string());
    assert_eq!(
        hist.get("alice"),
        vec!["for alice".to_string(), "more for alice".to_string()]
    );
    assert_eq!(hist.get("bob"), vec!["for bob".to_string()]);
    assert_eq!(hist.get("carol"), Vec::<String>::new());
}
