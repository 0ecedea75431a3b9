use rails_client::connection::state::ConnectionState;
use rails_client::messages::register::recognize_permissions;
use rails_client::wire::{Envelope, Payload, RegisterBody};
use rails_client::{Message, Permission, RegisterResponse};

fn register_response(id: Option<u64>, names: Option<Vec<&str>>) -> Envelope {
    let permissions = names.map(|v| v.into_iter().map(|s| s.to_string()).collect());
    Envelope::ok(Payload::RegisterResponse(Some(RegisterBody { id, permissions })))
}

#[test]
fn admin_name_parses_in_any_case() {
    assert_eq!(Permission::try_from("admin"), Ok(Permission::AdminPermission));
    assert_eq!(Permission::try_from("ADMIN"), Ok(Permission::AdminPermission));
    assert_eq!(Permission::try_from("aDmIn"), Ok(Permission::AdminPermission));
}

#[test]
fn unknown_permission_is_refused_with_its_name() {
    assert_eq!(Permission::try_from("user"), Err("unknown permission: user".to_string()));
    assert_eq!(Permission::try_from(""), Err("unknown permission: ".to_string()));
    assert_eq!(Permission::try_from(" admin"), Err("unknown permission:  admin".to_string()));
}

#[test]
fn unknown_names_are_skipped_in_order() {
    let names = vec!["admin".to_string(), "reader".to_string(), "Admin".to_string()];
    let perms = recognize_permissions(&names);
    assert_eq!(perms, vec![Permission::AdminPermission, Permission::AdminPermission]);
    let none: Vec<String> = vec!["reader".to_string()];
    assert!(recognize_permissions(&none).is_empty());
}

#[test]
fn message_reads_a_registration_response() {
    let m = Message::try_from(register_response(Some(7), Some(vec!["ADMIN", "x"]))).unwrap();
    assert_eq!(m.permissions, vec![Permission::AdminPermission]);
    assert_eq!(m.id, Some(7));
    let m = Message::try_from(register_response(None, None)).unwrap();
    assert!(m.permissions.is_empty());
    assert_eq!(m.id, None);
}

#[test]
fn message_of_another_kind_grants_nothing() {
    let m = Message::try_from(Envelope::ok(Payload::DeletePlanResponse)).unwrap();
    assert!(m.permissions.is_empty());
    assert_eq!(m.id, None);
    let m = Message::new(vec![Permission::AdminPermission], Some(3));
    assert_eq!(m.permissions.len(), 1);
    assert_eq!(m.id, Some(3));
}

#[test]
fn register_response_decoding() {
    let r = RegisterResponse::try_from(register_response(Some(9), Some(vec!["admin"]))).unwrap();
    assert_eq!(r.id(), 9);
    assert_eq!(r.permissions(), &vec![Permission::AdminPermission]);
    let r = RegisterResponse::try_from(register_response(None, Some(vec!["admin"])));
    assert_eq!(r.err(), Some("Could not get id".to_string()));
    let r = RegisterResponse::try_from(Envelope::ok(Payload::Train(None)));
    assert_eq!(r.err(), Some("Could not transform".to_string()));
}

#[test]
fn admin_access_follows_the_granted_permissions() {
    let mut state = ConnectionState::new();
    assert_eq!(state.id(), None);
    assert!(!state.has_admin());
    assert_eq!(state.admin(), Err("No admin permission".to_string()));
    let r = RegisterResponse::try_from(register_response(Some(4), Some(vec!["Admin"]))).unwrap();
    state.register(r);
    assert!(state.has_admin());
    assert_eq!(state.admin(), Ok(()));
    assert_eq!(state.id(), None);
}

#[test]
fn registration_without_admin_name_refuses_admin() {
    let mut state = ConnectionState::new();
    let r = RegisterResponse::try_from(register_response(Some(4), Some(vec!["reader"]))).unwrap();
    state.register(r);
    assert!(state.permissions().is_empty());
    assert_eq!(state.admin(), Err("No admin permission".to_string()));
}

#[test]
fn disconnect_uses_zero_without_identifier() {
    let state = ConnectionState::new();
    let m = state.disconnect_message();
    assert!(matches!(m.payload, Payload::Disconnect(Some(0))));
}

#[test]
fn registration_does_not_record_the_identifier() {
    let mut state = ConnectionState::new();
    let r = RegisterResponse::try_from(register_response(Some(11), Some(vec!["admin"]))).unwrap();
    assert_eq!(r.id(), 11);
    state.register(r);
    assert_eq!(state.id(), None);
    assert!(matches!(state.disconnect_message().payload, Payload::Disconnect(Some(0))));
}

#[test]
fn ascii_names_lower_character_by_character() {
    assert_eq!(Permission::try_from("AdMiN"), Ok(Permission::AdminPermission));
    assert_eq!(Permission::try_from("ADMINS"), Err("unknown permission: ADMINS".to_string()));
}
