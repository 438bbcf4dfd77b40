use enigmata::router::{CommandId, CommandRouter, DuplicateBindingError};

#[test]
fn quit_bound_by_two_chords_succeeds_conflict_fails() {
    let mut r = CommandRouter::new();
    assert!(r.register(CommandId::Quit, 7).is_ok());
    assert!(r.register(CommandId::Quit, 7).is_ok());
    assert_eq!(r.register(CommandId::Quit, 9), Err(DuplicateBindingError { id: CommandId::Quit }));
    assert_eq!(r.lookup(CommandId::Quit), Some(7));
}

#[test]
fn lookup_unbound_identifier_is_none() {
    let r = CommandRouter::new();
    assert_eq!(r.lookup(CommandId::Open), None);
}

#[test]
fn registrations_are_independent_per_identifier() {
    let mut r = CommandRouter::new();
    assert!(r.register(CommandId::Open, 1).is_ok());
    assert!(r.register(CommandId::Save, 2).is_ok());
    assert!(r.register(CommandId::Find, 3).is_ok());
    assert_eq!(r.lookup(CommandId::Open), Some(1));
    assert_eq!(r.lookup(CommandId::Save), Some(2));
    assert_eq!(r.lookup(CommandId::Find), Some(3));
    assert_eq!(r.lookup(CommandId::SaveAs), None);
    assert!(r.register(CommandId::Save, 4).is_err());
    assert_eq!(r.lookup(CommandId::Save), Some(2));
}
