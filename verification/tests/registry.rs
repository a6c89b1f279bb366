use balansol::{ProgramRegistry, Pubkey};

fn program(tag: u8) -> Pubkey {
    Pubkey::new_from_array([tag; 32])
}

#[test]
fn empty_registry_knows_nothing() {
    let registry = ProgramRegistry::new();
    assert_eq!(registry.label(program(1)), None);
}

#[test]
fn inserted_program_is_named() {
    let mut registry = ProgramRegistry::new();
    assert!(!registry.insert(program(1), "Balansol".to_string()));
    assert!(!registry.insert(program(2), "Other".to_string()));
    assert_eq!(registry.label(program(1)), Some("Balansol".to_string()));
    assert_eq!(registry.label(program(2)), Some("Other".to_string()));
    assert_eq!(registry.label(program(3)), None);
}

#[test]
fn insert_replaces_an_earlier_name() {
    let mut registry = ProgramRegistry::new();
    registry.insert(program(1), "Old".to_string());
    registry.insert(program(2), "Other".to_string());
    assert!(registry.insert(program(1), "New".to_string()));
    assert_eq!(registry.label(program(1)), Some("New".to_string()));
    assert_eq!(registry.label(program(2)), Some("Other".to_string()));
}
