use terminai_core::{SessionError, SessionRegistry};

#[test]
fn registry_insert_get_remove() {
    let mut r: SessionRegistry<u32> = SessionRegistry::new();
    assert_eq!(r.len(), 0);
    assert!(r.insert("a".to_string(), 1).is_ok());
    assert!(r.insert("b".to_string(), 2).is_ok());
    assert_eq!(r.len(), 2);
    assert!(r.contains(&"a".to_string()));
    assert_eq!(r.get(&"b".to_string()), Ok(&2));
    assert_eq!(r.remove(&"a".to_string()), Ok(1));
    assert!(!r.contains(&"a".to_string()));
    assert_eq!(r.len(), 1);
}

#[test]
fn registry_rejects_duplicate_id() {
    let mut r: SessionRegistry<u32> = SessionRegistry::new();
    assert!(r.insert("a".to_string(), 1).is_ok());
    assert_eq!(r.insert("a".to_string(), 9), Err((SessionError::DuplicateSession, 9)));
    assert_eq!(r.get(&"a".to_string()), Ok(&1));
}

#[test]
fn registry_reports_missing_session() {
    let mut r: SessionRegistry<u32> = SessionRegistry::new();
    assert_eq!(r.get(&"x".to_string()), Err(SessionError::SessionNotFound));
    assert_eq!(r.remove(&"x".to_string()), Err(SessionError::SessionNotFound));
}
