//! The schema and the projections it admits.

use identity_graph::projection::{
    check_all, render_all, select_keys_with, select_uid, select_uid_with, Field, Kind, Scalar,
};

const KINDS: [Kind; 6] =
    [Kind::Entity, Kind::Identifier, Kind::Authenticator, Kind::System, Kind::Namespace, Kind::Scope];

#[test]
fn names_are_the_predicates_of_the_schema() {
    assert_eq!(Scalar::Uid.name(), "uid");
    assert_eq!(Scalar::Guid.name(), "guid");
    assert_eq!(Scalar::Sid.name(), "sid");
    assert_eq!(Scalar::DisplayName.name(), "display_name");
    assert_eq!(Scalar::IdentifierType.name(), "identifier_type");
    assert_eq!(Scalar::AuthenticatorType.name(), "authenticator_type");
    assert_eq!(Scalar::Value.name(), "value");
    assert_eq!(Scalar::Name.name(), "name");
    assert_eq!(Scalar::ScopeType.name(), "scope_type");
    assert_eq!(Scalar::Dtype.name(), "dgraph.type");
    assert_eq!(Kind::Entity.name(), "entity");
    assert_eq!(Kind::Identifier.name(), "identifier");
    assert_eq!(Kind::Authenticator.name(), "authenticator");
    assert_eq!(Kind::System.name(), "system");
    assert_eq!(Kind::Namespace.name(), "namespace");
    assert_eq!(Kind::Scope.name(), "scope");
}

#[test]
fn every_kind_has_a_uid_and_a_type() {
    for kind in KINDS.iter() {
        assert!(kind.has_scalar(Scalar::Uid));
        assert!(kind.has_scalar(Scalar::Dtype));
    }
}

#[test]
fn scalars_belong_to_their_kinds() {
    assert!(Kind::Entity.has_scalar(Scalar::Sid));
    assert!(Kind::Entity.has_scalar(Scalar::DisplayName));
    assert!(Kind::Entity.has_scalar(Scalar::Guid));
    assert!(!Kind::Entity.has_scalar(Scalar::Name));
    assert!(!Kind::Entity.has_scalar(Scalar::Value));
    assert!(Kind::Identifier.has_scalar(Scalar::IdentifierType));
    assert!(Kind::Identifier.has_scalar(Scalar::Value));
    assert!(!Kind::Identifier.has_scalar(Scalar::Guid));
    assert!(Kind::Authenticator.has_scalar(Scalar::AuthenticatorType));
    assert!(!Kind::Authenticator.has_scalar(Scalar::IdentifierType));
    assert!(Kind::System.has_scalar(Scalar::Name));
    assert!(!Kind::System.has_scalar(Scalar::Sid));
    assert!(Kind::Namespace.has_scalar(Scalar::Guid));
    assert!(!Kind::Namespace.has_scalar(Scalar::ScopeType));
    assert!(Kind::Scope.has_scalar(Scalar::ScopeType));
    assert!(!Kind::Scope.has_scalar(Scalar::DisplayName));
}

#[test]
fn edges_run_both_ways() {
    let edges = [
        (Kind::Entity, Kind::Identifier),
        (Kind::Entity, Kind::Authenticator),
        (Kind::Entity, Kind::System),
        (Kind::Entity, Kind::Scope),
        (Kind::Identifier, Kind::Authenticator),
        (Kind::Authenticator, Kind::System),
        (Kind::System, Kind::Namespace),
        (Kind::Namespace, Kind::Scope),
    ];
    for from in KINDS.iter() {
        for to in KINDS.iter() {
            let linked = edges.iter().any(|(a, b)| (a == from && b == to) || (a == to && b == from));
            assert_eq!(from.has_edge(*to), linked);
        }
    }
}

#[test]
fn a_field_is_written_as_the_query_holds_it() {
    assert_eq!(Field::scalar(Scalar::DisplayName).text(), "display_name");
    assert_eq!(Field::uid_of(Kind::Identifier).text(), "identifier { uid }");
    assert_eq!(
        Field::Edge(Kind::System, vec![Scalar::Uid, Scalar::Guid, Scalar::Name]).text(),
        "system { uid guid name }"
    );
    assert_eq!(Field::Edge(Kind::Scope, vec![]).text(), "scope { }");
}

#[test]
fn a_field_is_admitted_by_the_schema_only() {
    assert!(Field::scalar(Scalar::Sid).check(Kind::Entity));
    assert!(!Field::scalar(Scalar::Sid).check(Kind::System));
    assert!(Field::uid_of(Kind::Identifier).check(Kind::Entity));
    assert!(!Field::uid_of(Kind::Namespace).check(Kind::Entity));
    assert!(!Field::Edge(Kind::Identifier, vec![]).check(Kind::Entity));
    assert!(Field::Edge(Kind::Identifier, vec![Scalar::Uid, Scalar::Value]).check(Kind::Entity));
    assert!(!Field::Edge(Kind::Identifier, vec![Scalar::Uid, Scalar::Guid]).check(Kind::Entity));
}

#[test]
fn a_projection_is_admitted_when_each_field_is() {
    assert!(check_all(Kind::Entity, &vec![]));
    assert!(check_all(Kind::Entity, &select_uid()));
    assert!(check_all(Kind::Entity, &select_uid_with(Kind::Scope)));
    assert!(!check_all(Kind::Identifier, &select_uid_with(Kind::Scope)));
    assert!(check_all(Kind::System, &select_keys_with(Kind::Namespace)));
    assert!(!check_all(Kind::Identifier, &select_keys_with(Kind::Authenticator)));
    assert!(!check_all(
        Kind::Entity,
        &vec![Field::scalar(Scalar::Uid), Field::scalar(Scalar::Name)]
    ));
}

#[test]
fn a_projection_is_written_field_by_field() {
    assert_eq!(render_all(&vec![]), Vec::<String>::new());
    assert_eq!(render_all(&select_uid()), vec![String::from("uid")]);
    assert_eq!(
        render_all(&select_keys_with(Kind::Entity)),
        vec![String::from("uid"), String::from("guid"), String::from("entity { uid }")]
    );
}
