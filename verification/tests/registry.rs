use botcore::errors::BotError;
use botcore::registry::Registry;

#[test]
fn insert_then_lookup_finds_record() {
    let mut reg = Registry::new();
    assert!(reg.insert(7, "alice".to_string()).is_ok());
    let found = reg.lookup(7).expect("record must be present after insert");
    assert_eq!(found.id, 7);
    assert_eq!(found.name, "alice");
}

#[test]
fn lookup_absent_is_none() {
    let reg = Registry::new();
    assert!(reg.lookup(7).is_none());
}

#[test]
fn delete_never_inserted_is_not_found() {
    let mut reg = Registry::new();
    assert_eq!(reg.delete(42), Err(BotError::NotFound(42)));
}

#[test]
fn duplicate_insert_reports_already_exists() {
    let mut reg = Registry::new();
    assert!(reg.insert(7, "alice".to_string()).is_ok());
    assert_eq!(reg.insert(7, "impostor".to_string()), Err(BotError::AlreadyExists(7)));
    // The one existing record is untouched ...
    let found = reg.lookup(7).expect("record must still be present");
    assert_eq!(found.name, "alice");
    // ... and it is exactly one record: one delete empties the binding.
    assert_eq!(reg.delete(7), Ok(()));
    assert_eq!(reg.delete(7), Err(BotError::NotFound(7)));
}

#[test]
fn delete_then_lookup_is_none() {
    let mut reg = Registry::new();
    assert!(reg.insert(3, "bob".to_string()).is_ok());
    assert!(reg.insert(4, "carol".to_string()).is_ok());
    assert_eq!(reg.delete(3), Ok(()));
    assert!(reg.lookup(3).is_none());
    // Unrelated records survive a delete.
    assert_eq!(reg.lookup(4).expect("other record must survive").name, "carol");
}

#[test]
fn names_need_not_be_unique() {
    let mut reg = Registry::new();
    assert!(reg.insert(1, "same".to_string()).is_ok());
    assert!(reg.insert(2, "same".to_string()).is_ok());
    assert_eq!(reg.lookup(1).unwrap().name, "same");
    assert_eq!(reg.lookup(2).unwrap().name, "same");
}
