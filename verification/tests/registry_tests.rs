use backend_dispatch::{ClientRegistry, Error, RegisterError};

#[test]
fn new_registry_is_empty_and_open() {
    let registry: ClientRegistry<u32> = ClientRegistry::new();
    assert_eq!(registry.len(), 0);
    assert!(!registry.is_sealed());
    assert!(!registry.contains("nlp", "x"));
}

#[test]
fn registered_client_is_found_twice_with_same_identity() {
    let mut registry: ClientRegistry<String> = ClientRegistry::new();
    assert_eq!(registry.register("nlp", "x", "client-x".to_string()), Ok(()));
    let first = registry.lookup("nlp", "x").unwrap();
    let second = registry.lookup("nlp", "x").unwrap();
    assert_eq!(first, "client-x");
    assert!(std::ptr::eq(first, second));
}

#[test]
fn unregistered_pair_is_not_found() {
    let mut registry: ClientRegistry<u32> = ClientRegistry::new();
    registry.register("nlp", "x", 1).unwrap();
    assert_eq!(
        registry.lookup("nlp", "y"),
        Err(Error::NotFound { kind: "nlp".to_string(), name: "y".to_string() })
    );
    assert_eq!(
        registry.lookup("chat", "x"),
        Err(Error::NotFound { kind: "chat".to_string(), name: "x".to_string() })
    );
    assert_eq!(
        registry.lookup("", ""),
        Err(Error::NotFound { kind: String::new(), name: String::new() })
    );
}

#[test]
fn lookup_in_empty_registry_is_not_found() {
    let registry: ClientRegistry<u32> = ClientRegistry::new();
    assert_eq!(
        registry.lookup("nlp", "x"),
        Err(Error::NotFound { kind: "nlp".to_string(), name: "x".to_string() })
    );
}

#[test]
fn duplicate_registration_is_refused() {
    let mut registry: ClientRegistry<u32> = ClientRegistry::new();
    assert_eq!(registry.register("nlp", "x", 1), Ok(()));
    assert_eq!(registry.register("nlp", "x", 2), Err(RegisterError::Duplicate));
    assert_eq!(registry.lookup("nlp", "x"), Ok(&1));
    assert_eq!(registry.len(), 1);
}

#[test]
fn same_name_under_another_kind_is_a_different_pair() {
    let mut registry: ClientRegistry<u32> = ClientRegistry::new();
    assert_eq!(registry.register("nlp", "x", 1), Ok(()));
    assert_eq!(registry.register("chat", "x", 2), Ok(()));
    assert_eq!(registry.register("nlp", "y", 3), Ok(()));
    assert_eq!(registry.lookup("nlp", "x"), Ok(&1));
    assert_eq!(registry.lookup("chat", "x"), Ok(&2));
    assert_eq!(registry.lookup("nlp", "y"), Ok(&3));
    assert_eq!(registry.len(), 3);
}

#[test]
fn sealed_registry_refuses_registration() {
    let mut registry: ClientRegistry<u32> = ClientRegistry::new();
    registry.register("nlp", "x", 1).unwrap();
    registry.seal();
    assert!(registry.is_sealed());
    assert_eq!(registry.register("nlp", "y", 2), Err(RegisterError::Sealed));
    assert_eq!(registry.register("nlp", "x", 2), Err(RegisterError::Sealed));
    assert!(!registry.contains("nlp", "y"));
    assert_eq!(registry.lookup("nlp", "x"), Ok(&1));
}

#[test]
fn contains_tells_registered_pairs() {
    let mut registry: ClientRegistry<u32> = ClientRegistry::new();
    registry.register("nlp", "x", 1).unwrap();
    assert!(registry.contains("nlp", "x"));
    assert!(!registry.contains("nlp", "X"));
    assert!(!registry.contains("x", "nlp"));
}
