//! The six records: construction, the builders, validation and copies.

use identity_graph::authenticator::{Authenticator, AuthenticatorError, AuthenticatorType};
use identity_graph::authenticator_store::AuthenticatorStore;
use identity_graph::entity::{Entity, EntityError, EntityRoot};
use identity_graph::error::{ErrorKind, StoreError};
use identity_graph::identifier::{Identifier, IdentifierError, IdentifierType};
use identity_graph::namespace::{Namespace, NamespaceError};
use identity_graph::scope::{Scope, ScopeError, ScopeType};
use identity_graph::system::{System, SystemError};

fn url_safe(c: char) -> bool {
    c == '_' || c == '-' || c.is_ascii_alphanumeric()
}

#[test]
fn new_entity_has_a_guid_and_its_type() {
    let e = Entity::new();
    let guid = e.guid.unwrap();
    assert_eq!(guid.chars().count(), 21);
    assert!(guid.chars().all(url_safe));
    assert_eq!(e.dtype, Some(vec![String::from("Entity")]));
    assert!(e.uid.is_none() && e.sid.is_none() && e.display_name.is_none());
    assert!(e.identifiers.is_none() && e.authenticators.is_none());
    assert!(e.systems.is_none() && e.scopes.is_none());
}

#[test]
fn new_records_draw_different_guids() {
    let a = System::new().guid.unwrap();
    let b = System::new().guid.unwrap();
    assert_ne!(a, b);
}

#[test]
fn new_records_carry_their_type() {
    assert_eq!(Identifier::new().dtype, Some(vec![String::from("Identifier")]));
    assert_eq!(Authenticator::new().dtype, Some(vec![String::from("Authenticator")]));
    assert_eq!(System::new().dtype, Some(vec![String::from("System")]));
    assert_eq!(Namespace::new().dtype, Some(vec![String::from("Namespace")]));
    assert_eq!(Scope::new().dtype, Some(vec![String::from("Scope")]));
    assert!(Identifier::new().uid.is_none());
    assert!(Authenticator::new().value.is_none());
    assert_eq!(Namespace::new().guid.unwrap().len(), 21);
    assert_eq!(Scope::new().guid.unwrap().len(), 21);
}

#[test]
fn default_records_are_empty() {
    let e = Entity::default();
    assert!(e.guid.is_none() && e.dtype.is_none() && e.uid.is_none());
    let a = Authenticator::default();
    assert!(a.dtype.is_none() && a.authenticator_type.is_none());
    assert!(Identifier::default().dtype.is_none());
    assert!(System::default().guid.is_none());
    assert!(Namespace::default().guid.is_none());
    assert!(Scope::default().scope_type.is_none());
}

#[test]
fn scalar_builders_set_one_field() {
    let e = Entity::new()
        .uid(String::from("0x1"))
        .sid(String::from("testy"))
        .display_name(String::from("Test Testy"));
    assert_eq!(e.uid.as_deref(), Some("0x1"));
    assert_eq!(e.sid.as_deref(), Some("testy"));
    assert_eq!(e.display_name.as_deref(), Some("Test Testy"));
    assert_eq!(e.guid.unwrap().len(), 21);

    let s = System::new().guid(String::from("S1")).name(String::from("Enterprise"));
    assert_eq!(s.guid.as_deref(), Some("S1"));
    assert_eq!(s.name.as_deref(), Some("Enterprise"));

    let i = Identifier::new().identifier_type(IdentifierType::phone).value(String::from("555"));
    assert_eq!(i.identifier_type, Some(IdentifierType::phone));
    assert_eq!(i.value.as_deref(), Some("555"));

    let sc = Scope::new().scope_type(ScopeType::group).name(String::from("admins"));
    assert_eq!(sc.scope_type, Some(ScopeType::group));
    assert_eq!(sc.name.as_deref(), Some("admins"));
}

#[test]
fn edge_builders_append_in_order() {
    let e = Entity::new()
        .add_identifier(Identifier::new().uid(String::from("0x1")))
        .add_identifier(Identifier::new().uid(String::from("0x2")))
        .add_identifier(Identifier::new().uid(String::from("0x1")));
    let edges = e.identifiers.unwrap();
    assert_eq!(edges.len(), 3);
    assert_eq!(edges[0].uid.as_deref(), Some("0x1"));
    assert_eq!(edges[1].uid.as_deref(), Some("0x2"));
    assert_eq!(edges[2].uid.as_deref(), Some("0x1"));
    assert!(e.authenticators.is_none());
}

#[test]
fn every_edge_builder_fills_its_own_list() {
    let e = Entity::new()
        .add_authenticator(Authenticator::new())
        .add_system(System::new())
        .add_scope(Scope::new());
    assert_eq!(e.authenticators.unwrap().len(), 1);
    assert_eq!(e.systems.unwrap().len(), 1);
    assert_eq!(e.scopes.unwrap().len(), 1);
    assert!(e.identifiers.is_none());

    let i = Identifier::new().add_entity(Entity::new()).add_authenticator(Authenticator::new());
    assert_eq!(i.entities.unwrap().len(), 1);
    assert_eq!(i.authenticators.unwrap().len(), 1);

    let a = Authenticator::new()
        .add_identifier(Identifier::new())
        .add_entity(Entity::new())
        .add_system(System::new());
    assert_eq!(a.identifiers.unwrap().len(), 1);
    assert_eq!(a.entities.unwrap().len(), 1);
    assert_eq!(a.systems.unwrap().len(), 1);

    let s = System::new()
        .add_authenticator(Authenticator::new())
        .add_entity(Entity::new())
        .add_namespace(Namespace::new());
    assert_eq!(s.authenticators.unwrap().len(), 1);
    assert_eq!(s.entities.unwrap().len(), 1);
    assert_eq!(s.namespaces.unwrap().len(), 1);

    let n = Namespace::new().add_system(System::new()).add_scope(Scope::new());
    assert_eq!(n.systems.unwrap().len(), 1);
    assert_eq!(n.scopes.unwrap().len(), 1);

    let sc = Scope::new().add_namespace(Namespace::new()).add_entity(Entity::new());
    assert_eq!(sc.namespaces.unwrap().len(), 1);
    assert_eq!(sc.entities.unwrap().len(), 1);
}

#[test]
fn entity_is_valid_with_sid_display_name_and_guid() {
    assert!(!Entity::new().validate());
    assert!(!Entity::new().sid(String::from("s")).validate());
    assert!(Entity::new().sid(String::from("s")).display_name(String::from("d")).validate());
    let mut e = Entity::new().sid(String::from("s")).display_name(String::from("d"));
    e.guid = None;
    assert!(!e.validate());
}

#[test]
fn identifier_is_valid_with_type_value_and_an_entity() {
    let i = Identifier::new().identifier_type(IdentifierType::email).value(String::from("a@b"));
    assert!(!i.validate());
    let mut empty = i.clone();
    empty.entities = Some(vec![]);
    assert!(!empty.validate());
    assert!(i.clone().add_entity(Entity::new()).validate());
    assert!(!Identifier::new().value(String::from("a@b")).add_entity(Entity::new()).validate());
    assert!(!Identifier::new()
        .identifier_type(IdentifierType::email)
        .add_entity(Entity::new())
        .validate());
}

#[test]
fn authenticator_is_valid_with_type_value_and_both_lists() {
    let a = Authenticator::new()
        .authenticator_type(AuthenticatorType::email_password)
        .value(String::from("h"));
    assert!(!a.validate());
    assert!(!a.clone().add_entity(Entity::new()).validate());
    assert!(!a.clone().add_identifier(Identifier::new()).validate());
    let both = a.clone().add_identifier(Identifier::new()).add_entity(Entity::new());
    assert!(both.validate());
    let mut no_value = both.clone();
    no_value.value = None;
    assert!(!no_value.validate());
    let mut no_type = both.clone();
    no_type.authenticator_type = None;
    assert!(!no_type.validate());
}

#[test]
fn system_is_valid_with_name_and_guid() {
    assert!(!System::new().validate());
    assert!(System::new().name(String::from("Enterprise")).validate());
    assert!(System::new().name(String::new()).validate());
    let mut s = System::new().name(String::from("Enterprise"));
    s.guid = None;
    assert!(!s.validate());
}

#[test]
fn namespace_is_valid_with_a_name_and_systems_that_have_uids() {
    let home = System::new().uid(String::from("0x1"));
    let n = Namespace::new().name(String::from("billing"));
    assert!(!n.validate());
    assert!(n.clone().add_system(home.clone()).validate());
    assert!(!n.clone().add_system(home.clone()).add_system(System::new()).validate());
    assert!(!Namespace::new().name(String::new()).add_system(home.clone()).validate());
    assert!(!Namespace::new().add_system(home.clone()).validate());
    let mut empty = n.clone();
    empty.systems = Some(vec![]);
    assert!(!empty.validate());
    let mut no_guid = n.clone().add_system(home);
    no_guid.guid = None;
    assert!(!no_guid.validate());
}

#[test]
fn scope_is_valid_with_name_type_and_namespaces_that_have_uids() {
    let home = Namespace::new().uid(String::from("0x1"));
    let sc = Scope::new().name(String::from("read")).scope_type(ScopeType::action);
    assert!(!sc.validate());
    assert!(sc.clone().add_namespace(home.clone()).validate());
    assert!(!sc.clone().add_namespace(Namespace::new()).validate());
    assert!(!Scope::new().name(String::from("read")).add_namespace(home.clone()).validate());
    assert!(!Scope::new()
        .name(String::new())
        .scope_type(ScopeType::action)
        .add_namespace(home.clone())
        .validate());
    let mut no_guid = sc.clone().add_namespace(home);
    no_guid.guid = None;
    assert!(!no_guid.validate());
}

#[test]
fn a_copy_holds_what_the_record_holds() {
    let e = Entity::new()
        .uid(String::from("0x1"))
        .sid(String::from("testy"))
        .add_identifier(
            Identifier::new()
                .uid(String::from("0x2"))
                .identifier_type(IdentifierType::username)
                .add_authenticator(Authenticator::new().uid(String::from("0x3"))),
        )
        .add_system(System::new().guid(String::from("S1")));
    let c = e.clone();
    assert_eq!(c.uid, e.uid);
    assert_eq!(c.guid, e.guid);
    assert_eq!(c.sid, e.sid);
    assert_eq!(c.dtype, e.dtype);
    let edge = &c.identifiers.as_ref().unwrap()[0];
    assert_eq!(edge.uid.as_deref(), Some("0x2"));
    assert_eq!(edge.identifier_type, Some(IdentifierType::username));
    assert_eq!(edge.authenticators.as_ref().unwrap()[0].uid.as_deref(), Some("0x3"));
    assert_eq!(c.systems.as_ref().unwrap()[0].guid.as_deref(), Some("S1"));
    assert!(c.scopes.is_none());
    let all = Entity::clone_all(&vec![e.clone(), Entity::new()]);
    assert_eq!(all.len(), 2);
    assert_eq!(all[0].sid.as_deref(), Some("testy"));
}

#[test]
fn first_row_is_the_first_or_none() {
    assert!(EntityRoot { entity: vec![] }.first().is_none());
    let rows = EntityRoot {
        entity: vec![Entity::new().uid(String::from("0x1")), Entity::new().uid(String::from("0x2"))],
    };
    assert_eq!(rows.first().unwrap().uid.as_deref(), Some("0x1"));
    assert_eq!(rows.clone().entity.len(), 2);
}

#[test]
fn types_are_written_as_the_store_holds_them() {
    assert_eq!(IdentifierType::email.to_string(), "email");
    assert_eq!(IdentifierType::phone.to_string(), "phone");
    assert_eq!(IdentifierType::username.to_string(), "username");
    assert_eq!(IdentifierType::public_key.to_string(), "public_key");
    assert_eq!(AuthenticatorType::username_password.to_string(), "username_password");
    assert_eq!(AuthenticatorType::phone_password.to_string(), "phone_password");
    assert_eq!(AuthenticatorType::email_password.to_string(), "email_password");
    assert_eq!(
        AuthenticatorType::public_key_authentication.to_string(),
        "public_key_authentication"
    );
    assert_eq!(ScopeType::group.to_string(), "group");
    assert_eq!(ScopeType::action.to_string(), "action");
}

#[test]
fn policy_pairs_each_credential_with_one_claim() {
    let credentials = [
        AuthenticatorType::username_password,
        AuthenticatorType::phone_password,
        AuthenticatorType::email_password,
        AuthenticatorType::public_key_authentication,
    ];
    let claims = [
        IdentifierType::username,
        IdentifierType::phone,
        IdentifierType::email,
        IdentifierType::public_key,
    ];
    for (x, a) in credentials.iter().enumerate() {
        for (y, i) in claims.iter().enumerate() {
            assert_eq!(AuthenticatorStore::_validate_authenticator_type(a, i), x == y);
        }
    }
}

#[test]
fn errors_say_what_went_wrong() {
    assert_eq!(EntityError::SidExistsError.message(), "An entity with this sid already exists");
    assert_eq!(EntityError::missing("sid").message(), "Field sid cannot be empty");
    assert_eq!(
        EntityError::from(String::from("display_name")).message(),
        "Field display_name cannot be empty"
    );
    assert!(matches!(IdentifierError::from(String::from("x")), IdentifierError::EmptyField(_)));
    assert!(matches!(AuthenticatorError::from(String::from("x")), AuthenticatorError::EmptyField(_)));
    assert_eq!(
        AuthenticatorError::AuthTypeIdentTypeMisMatch.message(),
        "Authenticator type does not match the identifier type being associated"
    );
    assert_eq!(SystemError::DoesNotExist.message(), "System with guid does not exist");
    assert_eq!(
        StoreError::Namespace(NamespaceError::AlreadyExists).message(),
        "Namespace with this name already exists on the system"
    );
    assert_eq!(StoreError::Transport.message(), "The graph store could not carry out the request");
}

#[test]
fn every_error_has_its_class() {
    let classes = [
        (StoreError::Entity(EntityError::SidExistsError), ErrorKind::AlreadyExists),
        (StoreError::Entity(EntityError::missing("sid")), ErrorKind::ValidationFailed),
        (StoreError::Entity(EntityError::DoesNotExist), ErrorKind::NotFound),
        (StoreError::Entity(EntityError::Empty), ErrorKind::EmptyResult),
        (StoreError::Identifier(IdentifierError::IdentifierExists), ErrorKind::AlreadyExists),
        (StoreError::Identifier(IdentifierError::missing("value")), ErrorKind::ValidationFailed),
        (StoreError::Identifier(IdentifierError::DoesNotExist), ErrorKind::NotFound),
        (StoreError::Identifier(IdentifierError::Empty), ErrorKind::EmptyResult),
        (
            StoreError::Authenticator(AuthenticatorError::AuthenticatorExists),
            ErrorKind::AlreadyExists,
        ),
        (
            StoreError::Authenticator(AuthenticatorError::missing("value")),
            ErrorKind::ValidationFailed,
        ),
        (
            StoreError::Authenticator(AuthenticatorError::AuthTypeIdentTypeMisMatch),
            ErrorKind::TypeMismatch,
        ),
        (StoreError::Authenticator(AuthenticatorError::Empty), ErrorKind::EmptyResult),
        (StoreError::Authenticator(AuthenticatorError::DoesNotExist), ErrorKind::NotFound),
        (StoreError::System(SystemError::ValidationFailed), ErrorKind::ValidationFailed),
        (StoreError::System(SystemError::Empty), ErrorKind::EmptyResult),
        (StoreError::System(SystemError::DoesNotExist), ErrorKind::NotFound),
        (StoreError::Namespace(NamespaceError::ValidationFailed), ErrorKind::ValidationFailed),
        (StoreError::Namespace(NamespaceError::Empty), ErrorKind::EmptyResult),
        (StoreError::Namespace(NamespaceError::DoesNotExist), ErrorKind::NotFound),
        (StoreError::Namespace(NamespaceError::AlreadyExists), ErrorKind::AlreadyExists),
        (StoreError::Scope(ScopeError::ValidationFailed), ErrorKind::ValidationFailed),
        (StoreError::Scope(ScopeError::Empty), ErrorKind::EmptyResult),
        (StoreError::Scope(ScopeError::DoesNotExist), ErrorKind::NotFound),
        (StoreError::Scope(ScopeError::AlreadyExists), ErrorKind::AlreadyExists),
        (StoreError::Projection, ErrorKind::ValidationFailed),
        (StoreError::Template, ErrorKind::TransportError),
        (StoreError::Transport, ErrorKind::TransportError),
        (StoreError::Decode, ErrorKind::CorruptData),
        (StoreError::CorruptData, ErrorKind::CorruptData),
    ];
    for (error, class) in classes.iter() {
        assert_eq!(error.kind(), *class);
    }
}
