//! The stores run against replies that are written down in advance.

use identity_graph::authenticator::{
    Authenticator, AuthenticatorError, AuthenticatorRoot, AuthenticatorType,
};
use identity_graph::authenticator_store::AuthenticatorStore;
use identity_graph::db::{
    bind, bind2, drop_all, migrate_schema, query, save, save_record, Failure, Record, Replay,
    Reply, Request, Step,
};
use identity_graph::entity::{Entity, EntityError, EntityRoot};
use identity_graph::entity_store::EntityStore;
use identity_graph::error::{ErrorKind, StoreError};
use identity_graph::identifier::{Identifier, IdentifierError, IdentifierRoot, IdentifierType};
use identity_graph::identifier_store::IdentifierStore;
use identity_graph::namespace::{Namespace, NamespaceError, NamespaceRoot};
use identity_graph::namespace_store::NamespaceStore;
use identity_graph::projection::{Field, Kind, Scalar};
use identity_graph::scope::{Scope, ScopeError, ScopeRoot, ScopeType};
use identity_graph::scope_store::ScopeStore;
use identity_graph::system::{System, SystemError, SystemRoot};
use identity_graph::system_store::SystemStore;
use identity_graph::template::select;
use identity_graph::{authenticator_store, system_store};

fn s(text: &str) -> String {
    String::from(text)
}

fn uid() -> Vec<Field> {
    vec![Field::Scalar(Scalar::Uid)]
}

fn replay(replies: Vec<Reply>) -> Replay {
    let mut io = Replay::new();
    for reply in replies {
        io.record(reply);
    }
    io
}

fn entities(rows: Vec<Entity>) -> Reply {
    Reply::Entity(EntityRoot { entity: rows })
}

fn identifiers(rows: Vec<Identifier>) -> Reply {
    Reply::Identifier(IdentifierRoot { identifier: rows })
}

fn authenticators(rows: Vec<Authenticator>) -> Reply {
    Reply::Authenticator(AuthenticatorRoot { authenticator: rows })
}

fn systems(rows: Vec<System>) -> Reply {
    Reply::System(SystemRoot { system: rows })
}

fn saved(uid: &str) -> Reply {
    Reply::Saved(vec![(s("blank-0"), s(uid))])
}

fn asked<T>(step: Step<T>) -> Request {
    match step {
        Step::Ask(request) => request,
        Step::Done(_) => panic!("the operation is done"),
    }
}

fn done<T>(step: Step<T>) -> T {
    match step {
        Step::Done(out) => out,
        Step::Ask(_) => panic!("the operation asks"),
    }
}

fn query_of(request: Request) -> (String, Vec<(String, String)>, Kind) {
    match request {
        Request::Query { text, vars, root } => (text, vars, root),
        _ => panic!("not a query"),
    }
}

fn testy() -> Entity {
    Entity::new().sid(s("testy")).display_name(s("Test Testy"))
}

#[test]
fn a_lookup_asks_its_query_first() {
    let mut io = Replay::new();
    let fields = vec![
        Field::Scalar(Scalar::Uid),
        Field::Scalar(Scalar::DisplayName),
        Field::Edge(Kind::Identifier, vec![Scalar::Uid, Scalar::Value]),
    ];
    let (text, vars, root) = query_of(asked(EntityStore::find_by_uid("0x1", &fields, &mut io)));
    assert!(text.contains("query entity($uid: string)"));
    assert!(text.contains("entity(func: uid($uid)) @filter(eq(dgraph.type, \"Entity\"))"));
    assert!(text.contains("uid\n"));
    assert!(text.contains("display_name\n"));
    assert!(text.contains("identifier { uid value }\n"));
    assert!(!text.contains("{{"));
    assert!(!text.contains("each"));
    assert_eq!(vars, vec![(s("$uid"), s("0x1"))]);
    assert_eq!(root, Kind::Entity);
}

#[test]
fn a_query_holds_the_fields_in_order_and_nothing_else() {
    let head = "\nquery system($guid: string) {\n    system(func: eq(guid, $guid)) \
                @filter(eq(dgraph.type, \"System\")) {\n";
    let fields = vec![
        Field::Scalar(Scalar::Guid),
        Field::Scalar(Scalar::Uid),
        Field::Edge(Kind::Entity, vec![Scalar::Uid, Scalar::Sid]),
    ];
    assert_eq!(
        select(system_store::BY_GUID, Kind::System, &fields).unwrap(),
        format!("{}        guid\n        uid\n        entity {{ uid sid }}\n    }}\n}}\n", head)
    );
    assert_eq!(
        select(system_store::BY_GUID, Kind::System, &vec![]).unwrap(),
        format!("{}    }}\n}}\n", head)
    );
    assert_eq!(
        select(authenticator_store::LOGIN, Kind::Authenticator, &vec![]).unwrap(),
        authenticator_store::LOGIN
    );
    assert!(matches!(
        select(system_store::BY_GUID, Kind::System, &vec![Field::Scalar(Scalar::Sid)]),
        Err(StoreError::Projection)
    ));
}

#[test]
fn every_lookup_binds_its_variables() {
    let mut io = Replay::new();
    let (text, vars, root) = query_of(asked(EntityStore::find_by_sid("testy", &uid(), &mut io)));
    assert!(text.contains("entity(func: eq(sid, $id))"));
    assert_eq!(vars, vec![(s("$id"), s("testy"))]);
    assert_eq!(root, Kind::Entity);

    let step = EntityStore::find_by_identifier(IdentifierType::email, "test", &uid(), &mut io);
    let (text, vars, root) = query_of(asked(step));
    assert!(text.contains("identifier(func: regexp(value, $value))"));
    assert!(text.contains("entity {"));
    assert!(text.contains("identifier_type\n        value\n"));
    assert_eq!(vars, vec![(s("$type"), s("email")), (s("$value"), s("/^test$/"))]);
    assert_eq!(root, Kind::Identifier);

    let step = IdentifierStore::find_by_type_value(IdentifierType::phone, "5", &uid(), &mut io);
    let (_, vars, root) = query_of(asked(step));
    assert_eq!(vars, vec![(s("$type"), s("phone")), (s("$value"), s("/^5$/"))]);
    assert_eq!(root, Kind::Identifier);

    let (text, vars, _) = query_of(asked(IdentifierStore::find_by_uid("0x2", &uid(), &mut io)));
    assert!(text.contains("@filter(eq(dgraph.type, \"Identifier\"))"));
    assert_eq!(vars, vec![(s("$uid"), s("0x2"))]);

    let claim = Identifier::new().uid(s("0x2"));
    let step = AuthenticatorStore::find_by_type_identifier(
        &AuthenticatorType::email_password,
        &claim,
        &uid(),
        &mut io,
    );
    let (text, vars, root) = query_of(asked(step));
    assert!(text.contains("identifier @filter(uid($uid))"));
    assert_eq!(vars, vec![(s("$type"), s("email_password")), (s("$uid"), s("0x2"))]);
    assert_eq!(root, Kind::Authenticator);

    let (_, vars, root) = query_of(asked(SystemStore::find_by_guid("S1", &uid(), &mut io)));
    assert_eq!(vars, vec![(s("$guid"), s("S1"))]);
    assert_eq!(root, Kind::System);

    let step = NamespaceStore::find_by_system_name("billing", "0x4", &uid(), &mut io);
    let (text, vars, root) = query_of(asked(step));
    assert!(text.contains("ns_uid as uid"));
    assert_eq!(vars, vec![(s("$sys_uid"), s("0x4")), (s("$name"), s("billing"))]);
    assert_eq!(root, Kind::Namespace);

    let step = ScopeStore::find_by_namespace_type_name("read", "0x5", &uid(), &mut io);
    let (text, vars, root) = query_of(asked(step));
    assert!(text.contains("scope_uid as uid"));
    assert_eq!(vars, vec![(s("$ns_uid"), s("0x5")), (s("$name"), s("read"))]);
    assert_eq!(root, Kind::Scope);

    let (_, _, root) = query_of(asked(NamespaceStore::find_by_guid("N1", &uid(), &mut io)));
    assert_eq!(root, Kind::Namespace);
    let (_, _, root) = query_of(asked(ScopeStore::find_by_guid("C1", &uid(), &mut io)));
    assert_eq!(root, Kind::Scope);
    let (_, _, root) = query_of(asked(AuthenticatorStore::find_by_uid("0x3", &uid(), &mut io)));
    assert_eq!(root, Kind::Authenticator);
}

#[test]
fn a_lookup_returns_the_first_row() {
    let rows = vec![Entity::new().uid(s("0x1")), Entity::new().uid(s("0x2"))];
    let mut io = replay(vec![entities(rows)]);
    let found = done(EntityStore::find_by_uid("0x1", &uid(), &mut io)).unwrap().unwrap();
    assert_eq!(found.uid.as_deref(), Some("0x1"));
    assert!(matches!(io.peek(), None));
}

#[test]
fn a_lookup_without_rows_finds_nothing() {
    let mut io = replay(vec![entities(vec![])]);
    assert!(done(EntityStore::find_by_uid("0x1", &uid(), &mut io)).unwrap().is_none());
    let mut io = replay(vec![entities(vec![])]);
    assert!(done(EntityStore::find_by_sid("nobody", &uid(), &mut io)).unwrap().is_none());
    let mut io = replay(vec![identifiers(vec![])]);
    let step = EntityStore::find_by_identifier(IdentifierType::email, "x", &uid(), &mut io);
    assert!(done(step).unwrap().is_none());
    let mut io = replay(vec![identifiers(vec![])]);
    assert!(done(IdentifierStore::find_by_uid("0x1", &uid(), &mut io)).unwrap().is_none());
    let mut io = replay(vec![authenticators(vec![])]);
    assert!(done(AuthenticatorStore::find_by_uid("0x1", &uid(), &mut io)).unwrap().is_none());
    let mut io = replay(vec![systems(vec![])]);
    assert!(done(SystemStore::find_by_guid("S1", &uid(), &mut io)).unwrap().is_none());
    let mut io = replay(vec![Reply::Namespace(NamespaceRoot { namespace: vec![] })]);
    assert!(done(NamespaceStore::find_by_guid("N1", &uid(), &mut io)).unwrap().is_none());
    let mut io = replay(vec![Reply::Scope(ScopeRoot { scope: vec![] })]);
    assert!(done(ScopeStore::find_by_guid("C1", &uid(), &mut io)).unwrap().is_none());
}

#[test]
fn a_lookup_reports_a_fault_of_the_store() {
    let mut io = replay(vec![Reply::Failed(Failure::Transport)]);
    let err = done(EntityStore::find_by_uid("0x1", &uid(), &mut io)).err().unwrap();
    assert!(matches!(err, StoreError::Transport));
    assert_eq!(err.kind(), ErrorKind::TransportError);

    let mut io = replay(vec![Reply::Failed(Failure::Decode)]);
    let err = done(EntityStore::find_by_uid("0x1", &uid(), &mut io)).err().unwrap();
    assert!(matches!(err, StoreError::Decode));

    let mut io = replay(vec![systems(vec![])]);
    let err = done(EntityStore::find_by_uid("0x1", &uid(), &mut io)).err().unwrap();
    assert!(matches!(err, StoreError::Decode));
    assert_eq!(err.kind(), ErrorKind::CorruptData);
}

#[test]
fn a_lookup_refuses_a_field_that_the_record_does_not_have() {
    let mut io = Replay::new();
    let fields = vec![Field::Scalar(Scalar::Uid), Field::Scalar(Scalar::Name)];
    let err = done(EntityStore::find_by_uid("0x1", &fields, &mut io)).err().unwrap();
    assert!(matches!(err, StoreError::Projection));
    assert_eq!(err.kind(), ErrorKind::ValidationFailed);
    let fields = vec![Field::Edge(Kind::Namespace, vec![Scalar::Uid])];
    assert!(matches!(
        done(IdentifierStore::find_by_uid("0x1", &fields, &mut io)),
        Err(StoreError::Projection)
    ));
}

#[test]
fn an_identifier_row_without_an_entity_yields_no_owner() {
    let row = Identifier::new().uid(s("0x2"));
    let mut io = replay(vec![identifiers(vec![row])]);
    let step = EntityStore::find_by_identifier(IdentifierType::email, "x", &uid(), &mut io);
    let err = done(step).err().unwrap();
    assert!(matches!(err, StoreError::Entity(EntityError::Empty)));
    assert_eq!(err.kind(), ErrorKind::EmptyResult);

    let mut row = Identifier::new();
    row.entities = Some(vec![]);
    assert!(matches!(EntityStore::owner(&Some(row)), Err(StoreError::Entity(EntityError::Empty))));
    assert!(EntityStore::owner(&None).unwrap().is_none());

    let row = Identifier::new().add_entity(Entity::new().uid(s("0x1")));
    assert_eq!(EntityStore::owner(&Some(row)).unwrap().unwrap().uid.as_deref(), Some("0x1"));
}

#[test]
fn a_value_is_asked_for_letter_by_letter() {
    assert_eq!(IdentifierStore::pattern(""), "/^$/");
    assert_eq!(IdentifierStore::pattern("testy"), "/^testy$/");
    assert_eq!(IdentifierStore::pattern("test@test.com"), "/^test@test\\.com$/");
    assert_eq!(IdentifierStore::pattern("a/b"), "/^a\\/b$/");
    assert_eq!(IdentifierStore::pattern("^.*$"), "/^\\^\\.\\*\\$$/");
    assert_eq!(
        IdentifierStore::pattern("\\+?()|[]{}"),
        "/^\\\\\\+\\?\\(\\)\\|\\[\\]\\{\\}$/"
    );
    assert_eq!(IdentifierStore::pattern("gr\u{fc}\u{df}e"), "/^gr\u{fc}\u{df}e$/");
}

#[test]
fn a_row_of_another_key_is_passed_over() {
    let near = Identifier::new()
        .uid(s("0x8"))
        .identifier_type(IdentifierType::email)
        .value(s("test@testxcom"));
    let phone = Identifier::new()
        .uid(s("0x9"))
        .identifier_type(IdentifierType::phone)
        .value(s("test@test.com"));
    let hit = Identifier::new()
        .uid(s("0x2"))
        .identifier_type(IdentifierType::email)
        .value(s("test@test.com"))
        .add_entity(Entity::new().uid(s("0x1")));
    let rows = || IdentifierRoot { identifier: vec![near.clone(), phone.clone(), hit.clone()] };
    let found = IdentifierStore::matching(&rows(), IdentifierType::email, "test@test.com");
    assert_eq!(found.unwrap().uid.as_deref(), Some("0x2"));
    let none = IdentifierStore::matching(&rows(), IdentifierType::username, "test@test.com");
    assert!(none.is_none());
    let bare = IdentifierRoot { identifier: vec![Identifier::new().uid(s("0x7"))] };
    assert!(IdentifierStore::matching(&bare, IdentifierType::email, "x").is_some());

    let mut io = replay(vec![Reply::Identifier(rows())]);
    let step =
        IdentifierStore::find_by_type_value(IdentifierType::email, "test@test.com", &uid(), &mut io);
    assert_eq!(done(step).unwrap().unwrap().uid.as_deref(), Some("0x2"));
    let mut io = replay(vec![Reply::Identifier(rows())]);
    let step =
        EntityStore::find_by_identifier(IdentifierType::email, "test@test.com", &uid(), &mut io);
    assert_eq!(done(step).unwrap().unwrap().uid.as_deref(), Some("0x1"));
    let mut io = replay(vec![identifiers(vec![near.clone()])]);
    let step =
        IdentifierStore::find_by_type_value(IdentifierType::email, "test@test.com", &uid(), &mut io);
    assert!(done(step).unwrap().is_none());
}

#[test]
fn an_authenticator_of_another_identifier_is_passed_over() {
    let other = Authenticator::new()
        .uid(s("0x30"))
        .add_identifier(Identifier::default().uid(s("0x20")));
    let unlinked = Authenticator::new().uid(s("0x31"));
    let hit = Authenticator::new()
        .uid(s("0x3"))
        .add_identifier(Identifier::default().uid(s("0x2")));
    let rows = AuthenticatorRoot {
        authenticator: vec![other.clone(), unlinked.clone(), hit.clone()],
    };
    let kind = AuthenticatorType::email_password;
    assert_eq!(AuthenticatorStore::proving(&rows, kind, "0x2").unwrap().uid.as_deref(), Some("0x3"));
    assert!(AuthenticatorStore::proving(&rows, kind, "0x21").is_none());
    let typed = AuthenticatorRoot {
        authenticator: vec![hit.clone().authenticator_type(AuthenticatorType::phone_password)],
    };
    assert!(AuthenticatorStore::proving(&typed, kind, "0x2").is_none());
    assert!(AuthenticatorStore::names(&vec![Identifier::default().uid(s("0x2"))], "0x2"));
    assert!(!AuthenticatorStore::names(&vec![Identifier::default().uid(s("0x2"))], "0x"));
    assert!(!AuthenticatorStore::names(&vec![Identifier::default()], "0x2"));

    let claim = Identifier::new().uid(s("0x2"));
    let mut io = replay(vec![authenticators(vec![other, unlinked])]);
    let step = AuthenticatorStore::find_by_type_identifier(&kind, &claim, &uid(), &mut io);
    assert!(done(step).unwrap().is_none());
    let mut io = Replay::new();
    let fields = vec![Field::Edge(Kind::Identifier, vec![Scalar::Uid])];
    let step = AuthenticatorStore::find_by_type_identifier(&kind, &claim, &fields, &mut io);
    assert!(matches!(done(step), Err(StoreError::Projection)));
}

#[test]
fn the_existence_check_fails_closed() {
    let mut io = replay(vec![entities(vec![Entity::new().uid(s("0x1"))])]);
    assert!(done(EntityStore::is_known("0x1", &mut io)));
    let mut io = replay(vec![entities(vec![])]);
    assert!(!done(EntityStore::is_known("0x1", &mut io)));
    let mut io = replay(vec![Reply::Failed(Failure::Transport)]);
    assert!(!done(EntityStore::is_known("0x1", &mut io)));
    let mut io = replay(vec![Reply::Failed(Failure::Transport)]);
    assert!(!done(IdentifierStore::is_known("0x1", &mut io)));
    let mut io = replay(vec![identifiers(vec![Identifier::new()])]);
    assert!(done(IdentifierStore::is_known("0x1", &mut io)));
    let mut io = Replay::new();
    let (_, vars, root) = query_of(asked(IdentifierStore::is_known("0x7", &mut io)));
    assert_eq!(vars, vec![(s("$uid"), s("0x7"))]);
    assert_eq!(root, Kind::Identifier);
}

#[test]
fn an_entity_without_a_sid_is_refused_at_once() {
    let mut io = Replay::new();
    let err = done(EntityStore::create(&Entity::new(), &uid(), &mut io)).err().unwrap();
    assert!(matches!(&err, StoreError::Entity(EntityError::EmptyField(name)) if name == "sid"));
    assert_eq!(err.message(), "Field sid cannot be empty");
    assert_eq!(err.kind(), ErrorKind::ValidationFailed);
}

#[test]
fn an_entity_is_created_in_three_exchanges() {
    let e = testy()
        .add_identifier(Identifier::new())
        .add_authenticator(Authenticator::new())
        .add_system(System::new().guid(s("S1")));
    let mut io = Replay::new();
    let (_, vars, _) = query_of(asked(EntityStore::create(&e, &uid(), &mut io)));
    assert_eq!(vars, vec![(s("$id"), s("testy"))]);

    io.record(entities(vec![]));
    io.rewind();
    match asked(EntityStore::create(&e, &uid(), &mut io)) {
        Request::Save(Record::Entity(kept)) => {
            assert_eq!(kept.sid.as_deref(), Some("testy"));
            assert_eq!(kept.display_name.as_deref(), Some("Test Testy"));
            assert_eq!(kept.guid, e.guid);
            assert!(kept.identifiers.is_none());
            assert!(kept.authenticators.is_none());
            assert_eq!(kept.systems.unwrap().len(), 1);
        }
        _ => panic!("not a save of an entity"),
    }

    io.record(saved("0x1"));
    io.rewind();
    let fields = vec![Field::Scalar(Scalar::Uid), Field::Scalar(Scalar::Sid)];
    let (text, vars, _) = query_of(asked(EntityStore::create(&e, &fields, &mut io)));
    assert!(text.contains("sid\n"));
    assert_eq!(vars, vec![(s("$id"), s("testy"))]);

    io.record(entities(vec![Entity::new().uid(s("0x1")).sid(s("testy"))]));
    io.rewind();
    let made = done(EntityStore::create(&e, &fields, &mut io)).unwrap().unwrap();
    assert_eq!(made.uid.as_deref(), Some("0x1"));
}

#[test]
fn an_entity_with_a_taken_sid_is_not_saved() {
    let mut io = replay(vec![entities(vec![Entity::new().uid(s("0x1"))]), saved("0x2")]);
    let err = done(EntityStore::create(&testy(), &uid(), &mut io)).err().unwrap();
    assert!(matches!(err, StoreError::Entity(EntityError::SidExistsError)));
    assert_eq!(err.kind(), ErrorKind::AlreadyExists);
    assert!(matches!(io.peek(), Some(Reply::Saved(_))));
}

#[test]
fn an_entity_that_lacks_a_field_is_not_saved() {
    let mut io = replay(vec![entities(vec![])]);
    let e = Entity::new().sid(s("testy"));
    let err = done(EntityStore::create(&e, &uid(), &mut io)).err().unwrap();
    assert!(
        matches!(&err, StoreError::Entity(EntityError::EmptyField(name)) if name == "display_name")
    );
    let mut e = testy();
    e.guid = None;
    let mut io = replay(vec![entities(vec![])]);
    let err = done(EntityStore::create(&e, &uid(), &mut io)).err().unwrap();
    assert!(matches!(&err, StoreError::Entity(EntityError::EmptyField(name)) if name == "guid"));
}

#[test]
fn a_failed_lookup_or_save_ends_a_create() {
    let mut io = replay(vec![Reply::Failed(Failure::Transport)]);
    assert!(matches!(
        done(EntityStore::create(&testy(), &uid(), &mut io)),
        Err(StoreError::Transport)
    ));
    let mut io = replay(vec![entities(vec![]), Reply::Failed(Failure::Transport)]);
    assert!(matches!(
        done(EntityStore::create(&testy(), &uid(), &mut io)),
        Err(StoreError::Transport)
    ));
    let mut io = replay(vec![entities(vec![]), Reply::Altered]);
    assert!(matches!(
        done(EntityStore::create(&testy(), &uid(), &mut io)),
        Err(StoreError::Decode)
    ));
}

#[test]
fn a_save_hands_on_the_first_uid() {
    let mut io = replay(vec![Reply::Saved(vec![(s("b"), s("0x9")), (s("c"), s("0xa"))])]);
    let out = done(save_record(Record::Entity(Entity::new()), &mut io)).unwrap();
    assert_eq!(out.as_deref(), Some("0x9"));
    let mut io = replay(vec![Reply::Saved(vec![])]);
    assert!(done(save_record(Record::System(System::new()), &mut io)).unwrap().is_none());
    let mut io = Replay::new();
    let step = save_record(Record::Scope(Scope::new().name(s("read"))), &mut io);
    assert!(matches!(asked(step), Request::Save(Record::Scope(sc)) if sc.name.as_deref() == Some("read")));
}

#[test]
fn requests_are_made_of_their_parts() {
    let q = query(s("text"), bind("$uid", "0x1"), Kind::Scope);
    assert!(matches!(&q, Request::Query { text, root: Kind::Scope, .. } if text == "text"));
    assert_eq!(query_of(q).1, vec![(s("$uid"), s("0x1"))]);
    assert_eq!(bind2("$a", "1", "$b", "2"), vec![(s("$a"), s("1")), (s("$b"), s("2"))]);
    assert!(matches!(save(Record::Entity(Entity::new())), Request::Save(Record::Entity(_))));
    assert!(matches!(drop_all(), Request::DropAll));
    assert!(matches!(migrate_schema("sid: string ."), Request::Alter(t) if t == "sid: string ."));
}

#[test]
fn a_replay_hands_out_its_replies_in_order() {
    let mut io = Replay::new();
    assert!(io.peek().is_none());
    io.record(Reply::Altered);
    io.record(Reply::Failed(Failure::Decode));
    assert!(matches!(io.peek(), Some(Reply::Altered)));
    io.advance();
    assert!(matches!(io.peek(), Some(Reply::Failed(Failure::Decode))));
    io.advance();
    assert!(io.peek().is_none());
    io.rewind();
    assert!(matches!(io.peek(), Some(Reply::Altered)));
}

#[test]
fn an_edge_is_appended_to_what_the_store_holds() {
    let i = Identifier::new().uid(s("0x50"));
    let held = Entity::new().uid(s("0x1")).add_identifier(Identifier::new().uid(s("0x40")));
    let mut io = Replay::new();
    let (text, vars, _) =
        query_of(asked(EntityStore::associate_identity("0x1", &i, &uid(), &mut io)));
    assert!(text.contains("identifier { uid }"));
    assert_eq!(vars, vec![(s("$uid"), s("0x1"))]);

    io.record(entities(vec![held]));
    io.rewind();
    match asked(EntityStore::associate_identity("0x1", &i, &uid(), &mut io)) {
        Request::Save(Record::Entity(e)) => {
            let edges = e.identifiers.unwrap();
            assert_eq!(edges.len(), 2);
            assert_eq!(edges[0].uid.as_deref(), Some("0x40"));
            assert_eq!(edges[1].uid.as_deref(), Some("0x50"));
            assert_eq!(e.uid.as_deref(), Some("0x1"));
        }
        _ => panic!("not a save of an entity"),
    }

    io.record(Reply::Saved(vec![]));
    io.record(entities(vec![Entity::new().uid(s("0x1"))]));
    io.rewind();
    let out = done(EntityStore::associate_identity("0x1", &i, &uid(), &mut io));
    assert_eq!(out.unwrap().unwrap().uid.as_deref(), Some("0x1"));
}

#[test]
fn an_edge_that_is_there_is_appended_again() {
    let i = Identifier::new().uid(s("0x50"));
    let held = Entity::new().uid(s("0x1")).add_identifier(i.clone());
    let mut io = replay(vec![entities(vec![held])]);
    match asked(EntityStore::associate_identity("0x1", &i, &uid(), &mut io)) {
        Request::Save(Record::Entity(e)) => {
            let edges = e.identifiers.unwrap();
            assert_eq!(edges.len(), 2);
            assert_eq!(edges[0].uid.as_deref(), Some("0x50"));
            assert_eq!(edges[1].uid.as_deref(), Some("0x50"));
        }
        _ => panic!("not a save of an entity"),
    }
}

#[test]
fn every_entity_edge_has_its_operation() {
    let held = || entities(vec![Entity::new().uid(s("0x1"))]);
    let mut io = replay(vec![held()]);
    let a = Authenticator::new().uid(s("0x3"));
    let step = EntityStore::associate_authenticator("0x1", &a, &uid(), &mut io);
    assert!(matches!(asked(step), Request::Save(Record::Entity(e))
        if e.authenticators.as_ref().unwrap()[0].uid.as_deref() == Some("0x3")));
    let mut io = replay(vec![held()]);
    let sys = System::new().guid(s("S1"));
    let step = EntityStore::associate_system("0x1", &sys, &uid(), &mut io);
    assert!(matches!(asked(step), Request::Save(Record::Entity(e))
        if e.systems.as_ref().unwrap()[0].guid.as_deref() == Some("S1")));
    let mut io = replay(vec![held()]);
    let sc = Scope::new().name(s("read"));
    let step = EntityStore::associate_scope("0x1", &sc, &uid(), &mut io);
    assert!(matches!(asked(step), Request::Save(Record::Entity(e))
        if e.scopes.as_ref().unwrap()[0].name.as_deref() == Some("read")));
}

#[test]
fn an_edge_needs_a_record_to_hang_on() {
    let mut io = replay(vec![entities(vec![])]);
    let i = Identifier::new();
    let err = done(EntityStore::associate_identity("0x1", &i, &uid(), &mut io)).err().unwrap();
    assert!(matches!(err, StoreError::Entity(EntityError::DoesNotExist)));
    assert_eq!(err.kind(), ErrorKind::NotFound);

    let mut io = replay(vec![identifiers(vec![])]);
    let a = Authenticator::new();
    let step = IdentifierStore::associate_authenticator("0x2", &a, &uid(), &mut io);
    assert!(matches!(done(step), Err(StoreError::Identifier(IdentifierError::DoesNotExist))));

    let mut io = replay(vec![authenticators(vec![])]);
    let step = AuthenticatorStore::associate_system("0x3", &System::new(), &uid(), &mut io);
    assert!(matches!(done(step), Err(StoreError::Authenticator(AuthenticatorError::DoesNotExist))));
    let mut io = replay(vec![authenticators(vec![])]);
    let step = AuthenticatorStore::associate_identifier("0x3", &i, &uid(), &mut io);
    assert!(matches!(done(step), Err(StoreError::Authenticator(AuthenticatorError::DoesNotExist))));

    let mut io = replay(vec![systems(vec![])]);
    let step = SystemStore::associate_namespace("S1", &Namespace::new(), &uid(), &mut io);
    assert!(matches!(done(step), Err(StoreError::System(SystemError::DoesNotExist))));

    let mut io = replay(vec![Reply::Namespace(NamespaceRoot { namespace: vec![] })]);
    let step = NamespaceStore::associate_scope("N1", &Scope::new(), &uid(), &mut io);
    assert!(matches!(done(step), Err(StoreError::Namespace(NamespaceError::DoesNotExist))));

    let mut io = replay(vec![Reply::Scope(ScopeRoot { scope: vec![] })]);
    let step = ScopeStore::associate_entity("C1", &Entity::new(), &uid(), &mut io);
    assert!(matches!(done(step), Err(StoreError::Scope(ScopeError::DoesNotExist))));
}

#[test]
fn a_system_links_an_entity_back() {
    let e = Entity::new().uid(s("0x1"));
    let held = System::new().uid(s("0x4")).guid(s("S1"));
    let mut io = replay(vec![systems(vec![held]), Reply::Saved(vec![])]);
    let (text, vars, root) =
        query_of(asked(SystemStore::associate_entity("S1", &e, &uid(), &mut io)));
    assert!(text.contains("system { uid }"));
    assert_eq!(vars, vec![(s("$uid"), s("0x1"))]);
    assert_eq!(root, Kind::Entity);

    io.record(entities(vec![Entity::new().uid(s("0x1"))]));
    io.rewind();
    match asked(SystemStore::associate_entity("S1", &e, &uid(), &mut io)) {
        Request::Save(Record::Entity(back)) => {
            let edge = &back.systems.as_ref().unwrap()[0];
            assert_eq!(edge.guid.as_deref(), Some("S1"));
            assert_eq!(edge.entities.as_ref().unwrap()[0].uid.as_deref(), Some("0x1"));
        }
        _ => panic!("not a save of an entity"),
    }
}

#[test]
fn a_related_record_without_a_uid_is_linked_on_one_side_only() {
    let held = System::new().uid(s("0x4")).guid(s("S1"));
    let mut io = replay(vec![systems(vec![held]), Reply::Saved(vec![])]);
    let step = SystemStore::associate_entity("S1", &Entity::new(), &uid(), &mut io);
    let err = done(step).err().unwrap();
    assert!(matches!(&err, StoreError::Entity(EntityError::EmptyField(name)) if name == "uid"));

    let held = Identifier::new().uid(s("0x2"));
    let mut io = replay(vec![identifiers(vec![held]), Reply::Saved(vec![])]);
    let step = IdentifierStore::associate_authenticator("0x2", &Authenticator::new(), &uid(), &mut io);
    let err = done(step).err().unwrap();
    assert!(
        matches!(&err, StoreError::Authenticator(AuthenticatorError::EmptyField(name)) if name == "uid")
    );
}

#[test]
fn an_identifier_is_looked_up_by_its_whole_value() {
    let owner = Entity::new().uid(s("0x1"));
    let i = Identifier::new()
        .identifier_type(IdentifierType::email)
        .value(s("test@test.com"))
        .add_entity(owner.clone());
    let mut io = replay(vec![entities(vec![owner])]);
    let (_, vars, _) = query_of(asked(IdentifierStore::create(&i, &uid(), &mut io)));
    assert_eq!(vars, vec![(s("$type"), s("email")), (s("$value"), s("/^test@test\\.com$/"))]);
}

#[test]
fn an_identifier_is_linked_under_the_uid_it_was_given() {
    let owner = Entity::new().uid(s("0x1"));
    let i = Identifier::new()
        .identifier_type(IdentifierType::email)
        .value(s("test@test.com"))
        .add_entity(owner.clone());
    let mut io = replay(vec![
        entities(vec![owner.clone()]),
        identifiers(vec![]),
        saved("0x2"),
        entities(vec![owner.clone()]),
    ]);
    match asked(IdentifierStore::create(&i, &uid(), &mut io)) {
        Request::Save(Record::Entity(e)) => {
            let edge = &e.identifiers.as_ref().unwrap()[0];
            assert_eq!(edge.uid.as_deref(), Some("0x2"));
            assert_eq!(edge.value.as_deref(), Some("test@test.com"));
        }
        _ => panic!("not a save of an entity"),
    }
}

#[test]
fn a_link_that_fails_does_not_fail_the_create() {
    let owner = Entity::new().uid(s("0x1"));
    let i = Identifier::new()
        .identifier_type(IdentifierType::email)
        .value(s("test@test.com"))
        .add_entity(owner.clone());
    let mut io = replay(vec![
        entities(vec![owner.clone()]),
        identifiers(vec![]),
        saved("0x2"),
        Reply::Failed(Failure::Transport),
        identifiers(vec![Identifier::new().uid(s("0x2"))]),
    ]);
    let made = done(IdentifierStore::create(&i, &uid(), &mut io)).unwrap().unwrap();
    assert_eq!(made.uid.as_deref(), Some("0x2"));
}

#[test]
fn an_identifier_that_lacks_a_field_is_refused_at_once() {
    let mut io = Replay::new();
    let field = |step: Step<Result<Option<Identifier>, StoreError>>| match done(step) {
        Err(StoreError::Identifier(IdentifierError::EmptyField(name))) => name,
        _ => panic!("not a missing field"),
    };
    let i = Identifier::new();
    assert_eq!(field(IdentifierStore::create(&i, &uid(), &mut io)), "identifier_type");
    let i = i.identifier_type(IdentifierType::email);
    assert_eq!(field(IdentifierStore::create(&i, &uid(), &mut io)), "value");
    let i = i.value(s("a@b"));
    assert_eq!(field(IdentifierStore::create(&i, &uid(), &mut io)), "entities");
    let mut empty = i.clone();
    empty.entities = Some(vec![]);
    assert_eq!(field(IdentifierStore::create(&empty, &uid(), &mut io)), "entities");
    let i = i.add_entity(Entity::new());
    let err = done(IdentifierStore::create(&i, &uid(), &mut io)).err().unwrap();
    assert!(matches!(err, StoreError::Identifier(IdentifierError::Empty)));
    assert_eq!(err.kind(), ErrorKind::EmptyResult);
}

#[test]
fn an_authenticator_of_the_wrong_type_is_refused_at_once() {
    let credentials = [
        AuthenticatorType::username_password,
        AuthenticatorType::phone_password,
        AuthenticatorType::email_password,
        AuthenticatorType::public_key_authentication,
    ];
    let claims = [
        IdentifierType::username,
        IdentifierType::phone,
        IdentifierType::email,
        IdentifierType::public_key,
    ];
    for (x, kind) in credentials.iter().enumerate() {
        for (y, claim) in claims.iter().enumerate() {
            let a = Authenticator::new()
                .authenticator_type(*kind)
                .value(s("hash"))
                .add_identifier(Identifier::new().uid(s("0x2")).identifier_type(*claim))
                .add_entity(Entity::new().uid(s("0x1")))
                .add_system(System::new().guid(s("S1")));
            let mut io = Replay::new();
            let step = AuthenticatorStore::create(&a, &uid(), &mut io);
            if x == y {
                let (_, vars, root) = query_of(asked(step));
                assert_eq!(vars, vec![(s("$uid"), s("0x1"))]);
                assert_eq!(root, Kind::Entity);
            } else {
                let err = done(step).err().unwrap();
                assert!(matches!(
                    err,
                    StoreError::Authenticator(AuthenticatorError::AuthTypeIdentTypeMisMatch)
                ));
                assert_eq!(err.kind(), ErrorKind::TypeMismatch);
            }
        }
    }
}

#[test]
fn an_authenticator_that_lacks_a_field_is_refused() {
    let field = |a: &Authenticator, replies: Vec<Reply>| {
        let mut io = replay(replies);
        match done(AuthenticatorStore::create(a, &uid(), &mut io)) {
            Err(StoreError::Authenticator(AuthenticatorError::EmptyField(name))) => name,
            Err(StoreError::Authenticator(AuthenticatorError::Empty)) => s("a key or a type"),
            _ => panic!("not a missing field"),
        }
    };
    let a = Authenticator::new();
    assert_eq!(field(&a, vec![]), "authenticator_type");
    let a = a.authenticator_type(AuthenticatorType::email_password);
    assert_eq!(field(&a, vec![]), "identifiers");
    assert_eq!(field(&a.clone().add_identifier(Identifier::new()), vec![]), "a key or a type");
    let claim = Identifier::new().identifier_type(IdentifierType::email);
    let unkeyed = a.clone().add_identifier(claim.clone());
    assert_eq!(field(&unkeyed, vec![]), "entities");
    assert_eq!(field(&unkeyed.clone().add_entity(Entity::new()), vec![]), "a key or a type");

    let owner = Entity::new().uid(s("0x1"));
    let found = || entities(vec![owner.clone()]);
    assert_eq!(field(&unkeyed.add_entity(owner.clone()), vec![found()]), "a key or a type");

    let claim = claim.uid(s("0x2"));
    let held = || identifiers(vec![claim.clone()]);
    let free = || authenticators(vec![]);
    let a = a.add_identifier(claim.clone()).add_entity(owner.clone());
    assert_eq!(field(&a, vec![found(), held(), free()]), "value");
    let a = a.value(s("hash"));
    assert_eq!(field(&a, vec![found(), held(), free()]), "systems");
    let unnamed = a.clone().add_system(System::default().uid(s("0x4")));
    assert_eq!(field(&unnamed, vec![found(), held(), free()]), "a key or a type");
    let a = a.add_system(System::new().guid(s("S1")));
    let mut io = replay(vec![found(), held(), free()]);
    let (_, vars, root) = query_of(asked(AuthenticatorStore::create(&a, &uid(), &mut io)));
    assert_eq!(vars, vec![(s("$guid"), s("S1"))]);
    assert_eq!(root, Kind::System);
}

#[test]
fn what_the_lookups_find_is_reported_before_what_the_record_lacks() {
    let owner = Entity::new().uid(s("0x1"));
    let claim = Identifier::new().uid(s("0x2")).identifier_type(IdentifierType::email);
    let a = Authenticator::new()
        .authenticator_type(AuthenticatorType::email_password)
        .add_identifier(claim.clone())
        .add_entity(owner.clone());
    let mut io = replay(vec![entities(vec![])]);
    let err = done(AuthenticatorStore::create(&a, &uid(), &mut io)).err().unwrap();
    assert!(matches!(err, StoreError::Authenticator(AuthenticatorError::DoesNotExist)));
    let mut io = replay(vec![entities(vec![owner.clone()]), identifiers(vec![])]);
    let err = done(AuthenticatorStore::create(&a, &uid(), &mut io)).err().unwrap();
    assert!(matches!(err, StoreError::Authenticator(AuthenticatorError::DoesNotExist)));
    let taken = Authenticator::new().uid(s("0x3")).add_identifier(claim.clone());
    let mut io = replay(vec![
        entities(vec![owner.clone()]),
        identifiers(vec![claim.clone()]),
        authenticators(vec![taken]),
    ]);
    let err = done(AuthenticatorStore::create(&a, &uid(), &mut io)).err().unwrap();
    assert!(matches!(err, StoreError::Authenticator(AuthenticatorError::AuthenticatorExists)));

    let home = System::default().uid(s("0x4"));
    let n = Namespace::new().name(s("billing")).add_system(home.clone());
    let twin = Namespace::default().uid(s("0x6")).name(s("billing")).add_system(home);
    let mut io = replay(vec![Reply::Namespace(NamespaceRoot { namespace: vec![twin.clone()] })]);
    let err = done(NamespaceStore::create(&n, &uid(), &mut io)).err().unwrap();
    assert!(matches!(err, StoreError::Namespace(NamespaceError::AlreadyExists)));

    let sc = Scope::new()
        .name(s("read"))
        .scope_type(ScopeType::action)
        .add_namespace(Namespace::default().uid(s("0x6")));
    let twin = Scope::default().uid(s("0x7")).name(s("read"));
    let mut io = replay(vec![Reply::Scope(ScopeRoot { scope: vec![twin] })]);
    let err = done(ScopeStore::create(&sc, &uid(), &mut io)).err().unwrap();
    assert!(matches!(err, StoreError::Scope(ScopeError::AlreadyExists)));
}

#[test]
fn an_authenticator_needs_an_entity_and_an_identifier_that_exist() {
    let owner = Entity::new().uid(s("0x1"));
    let claim = Identifier::new().uid(s("0x2")).identifier_type(IdentifierType::email);
    let home = System::new().guid(s("S1"));
    let a = Authenticator::new()
        .authenticator_type(AuthenticatorType::email_password)
        .value(s("hash"))
        .add_identifier(claim.clone())
        .add_entity(owner.clone())
        .add_system(home.clone());
    let missing = |replies: Vec<Reply>| {
        let mut io = replay(replies);
        let err = done(AuthenticatorStore::create(&a, &uid(), &mut io)).err().unwrap();
        assert!(matches!(err, StoreError::Authenticator(AuthenticatorError::DoesNotExist)));
        assert_eq!(err.kind(), ErrorKind::NotFound);
    };
    let found = || entities(vec![owner.clone()]);
    let held = || identifiers(vec![claim.clone()]);
    let free = || authenticators(vec![]);
    missing(vec![entities(vec![])]);
    missing(vec![found(), identifiers(vec![])]);
    missing(vec![found(), Reply::Failed(Failure::Transport)]);
    missing(vec![found(), held(), free(), systems(vec![])]);
    missing(vec![found(), held(), free(), Reply::Failed(Failure::Transport)]);

    let mut io = replay(vec![found()]);
    let (text, vars, root) = query_of(asked(AuthenticatorStore::create(&a, &uid(), &mut io)));
    assert!(text.contains("identifier_type\n"));
    assert_eq!(vars, vec![(s("$uid"), s("0x2"))]);
    assert_eq!(root, Kind::Identifier);
    let mut io = replay(vec![found(), held()]);
    let (_, vars, root) = query_of(asked(AuthenticatorStore::create(&a, &uid(), &mut io)));
    assert_eq!(vars, vec![(s("$type"), s("email_password")), (s("$uid"), s("0x2"))]);
    assert_eq!(root, Kind::Authenticator);
    let mut io = replay(vec![found(), held(), free()]);
    let (_, vars, root) = query_of(asked(AuthenticatorStore::create(&a, &uid(), &mut io)));
    assert_eq!(vars, vec![(s("$guid"), s("S1"))]);
    assert_eq!(root, Kind::System);

    let taken = Authenticator::new().uid(s("0x3")).add_identifier(claim.clone());
    let mut io = replay(vec![found(), held(), authenticators(vec![taken])]);
    let err = done(AuthenticatorStore::create(&a, &uid(), &mut io)).err().unwrap();
    assert!(matches!(err, StoreError::Authenticator(AuthenticatorError::AuthenticatorExists)));
    let other = Authenticator::new()
        .uid(s("0x3"))
        .add_identifier(Identifier::default().uid(s("0x20")));
    let mut io =
        replay(vec![found(), held(), authenticators(vec![other]), systems(vec![home.clone()])]);
    match asked(AuthenticatorStore::create(&a, &uid(), &mut io)) {
        Request::Save(Record::Authenticator(kept)) => {
            assert_eq!(kept.value.as_deref(), Some("hash"));
            assert!(kept.uid.is_none());
            assert_eq!(kept.systems.unwrap()[0].guid.as_deref(), Some("S1"));
        }
        _ => panic!("not a save of an authenticator"),
    }
}

#[test]
fn an_authenticator_is_paired_with_the_type_that_the_store_holds() {
    let owner = Entity::new().uid(s("0x1"));
    let claim = Identifier::new().uid(s("0x2")).identifier_type(IdentifierType::email);
    let a = Authenticator::new()
        .authenticator_type(AuthenticatorType::email_password)
        .value(s("hash"))
        .add_identifier(claim.clone())
        .add_entity(owner.clone())
        .add_system(System::new().guid(s("S1")));
    let held = |kind: Option<IdentifierType>| {
        let mut row = Identifier::default().uid(s("0x2"));
        row.identifier_type = kind;
        let mut io = replay(vec![entities(vec![owner.clone()]), identifiers(vec![row])]);
        AuthenticatorStore::create(&a, &uid(), &mut io)
    };
    for kind in [None, Some(IdentifierType::phone), Some(IdentifierType::username)] {
        let err = done(held(kind)).err().unwrap();
        assert!(matches!(
            err,
            StoreError::Authenticator(AuthenticatorError::AuthTypeIdentTypeMisMatch)
        ));
        assert_eq!(err.kind(), ErrorKind::TypeMismatch);
    }
    assert!(matches!(asked(held(Some(IdentifierType::email))), Request::Query { .. }));
}

#[test]
fn links_that_fail_do_not_fail_the_create() {
    let owner = Entity::new().uid(s("0x1"));
    let claim = Identifier::new().uid(s("0x2")).identifier_type(IdentifierType::email);
    let home = System::new().guid(s("S1"));
    let a = Authenticator::new()
        .authenticator_type(AuthenticatorType::email_password)
        .value(s("hash"))
        .add_identifier(claim.clone())
        .add_entity(owner.clone())
        .add_system(home.clone());
    let made = Authenticator::new().uid(s("0x3")).add_identifier(claim.clone());
    let mut io = replay(vec![
        entities(vec![owner.clone()]),
        identifiers(vec![claim.clone()]),
        authenticators(vec![]),
        systems(vec![home.clone()]),
        saved("0x3"),
        entities(vec![]),
        systems(vec![]),
        identifiers(vec![]),
        authenticators(vec![made]),
    ]);
    let out = done(AuthenticatorStore::create(&a, &uid(), &mut io)).unwrap().unwrap();
    assert_eq!(out.uid.as_deref(), Some("0x3"));
    assert!(io.peek().is_none());
}

#[test]
fn a_lookup_by_identifier_needs_the_uid_of_the_identifier() {
    let mut io = Replay::new();
    let step = AuthenticatorStore::find_by_type_identifier(
        &AuthenticatorType::email_password,
        &Identifier::new(),
        &uid(),
        &mut io,
    );
    let err = done(step).err().unwrap();
    assert!(
        matches!(&err, StoreError::Authenticator(AuthenticatorError::EmptyField(name)) if name == "uid")
    );
}

#[test]
fn a_system_is_saved_and_read_back_by_its_guid() {
    let sys = System::new().guid(s("S1")).name(s("Enterprise"));
    let mut io = Replay::new();
    assert!(matches!(
        asked(SystemStore::create(&sys, &uid(), &mut io)),
        Request::Save(Record::System(kept)) if kept.name.as_deref() == Some("Enterprise")
    ));
    io.record(saved("0x4"));
    io.rewind();
    let (_, vars, _) = query_of(asked(SystemStore::create(&sys, &uid(), &mut io)));
    assert_eq!(vars, vec![(s("$guid"), s("S1"))]);
    io.record(systems(vec![System::new().uid(s("0x4"))]));
    io.rewind();
    let made = done(SystemStore::create(&sys, &uid(), &mut io)).unwrap().unwrap();
    assert_eq!(made.uid.as_deref(), Some("0x4"));
}

#[test]
fn a_record_that_fails_validation_is_refused_at_once() {
    let mut io = Replay::new();
    let err = done(SystemStore::create(&System::new(), &uid(), &mut io)).err().unwrap();
    assert!(matches!(err, StoreError::System(SystemError::ValidationFailed)));
    assert_eq!(err.kind(), ErrorKind::ValidationFailed);
    let n = Namespace::new().name(s("billing"));
    let err = done(NamespaceStore::create(&n, &uid(), &mut io)).err().unwrap();
    assert!(matches!(err, StoreError::Namespace(NamespaceError::ValidationFailed)));
    let sc = Scope::new().name(s("read")).add_namespace(Namespace::new().uid(s("0x5")));
    let err = done(ScopeStore::create(&sc, &uid(), &mut io)).err().unwrap();
    assert!(matches!(err, StoreError::Scope(ScopeError::ValidationFailed)));
}

#[test]
fn a_namespace_is_checked_saved_linked_and_read_back() {
    let home = System::new().uid(s("0x4")).guid(s("S1"));
    let n = Namespace::new().name(s("billing")).add_system(home.clone());
    let mut io = Replay::new();
    let (_, vars, _) = query_of(asked(NamespaceStore::create(&n, &uid(), &mut io)));
    assert_eq!(vars, vec![(s("$sys_uid"), s("0x4")), (s("$name"), s("billing"))]);

    io.record(Reply::Namespace(NamespaceRoot { namespace: vec![] }));
    io.rewind();
    let (_, vars, root) = query_of(asked(NamespaceStore::create(&n, &uid(), &mut io)));
    assert_eq!(vars, vec![(s("$guid"), s("S1"))]);
    assert_eq!(root, Kind::System);

    io.record(systems(vec![home.clone()]));
    io.rewind();
    assert!(matches!(
        asked(NamespaceStore::create(&n, &uid(), &mut io)),
        Request::Save(Record::Namespace(kept)) if kept.uid.is_none()
    ));

    io.record(saved("0x6"));
    io.rewind();
    let (_, vars, root) = query_of(asked(NamespaceStore::create(&n, &uid(), &mut io)));
    assert_eq!(vars, vec![(s("$guid"), s("S1"))]);
    assert_eq!(root, Kind::System);

    io.record(systems(vec![home.clone()]));
    io.rewind();
    match asked(NamespaceStore::create(&n, &uid(), &mut io)) {
        Request::Save(Record::System(sys)) => {
            assert_eq!(sys.namespaces.unwrap()[0].uid.as_deref(), Some("0x6"));
        }
        _ => panic!("not a save of a system"),
    }

    io.record(Reply::Saved(vec![]));
    io.record(systems(vec![home.clone()]));
    io.rewind();
    let (_, vars, root) = query_of(asked(NamespaceStore::create(&n, &uid(), &mut io)));
    assert_eq!(vars, vec![(s("$guid"), n.guid.clone().unwrap())]);
    assert_eq!(root, Kind::Namespace);

    io.record(Reply::Namespace(NamespaceRoot { namespace: vec![n.clone().uid(s("0x6"))] }));
    io.rewind();
    let made = done(NamespaceStore::create(&n, &uid(), &mut io)).unwrap().unwrap();
    assert_eq!(made.uid.as_deref(), Some("0x6"));
}

#[test]
fn a_scope_with_a_taken_name_is_not_saved() {
    let home = Namespace::new().uid(s("0x6"));
    let held = || Reply::Namespace(NamespaceRoot { namespace: vec![home.clone()] });
    let free = || Reply::Scope(ScopeRoot { scope: vec![] });
    let sc = Scope::new().name(s("read")).scope_type(ScopeType::action).add_namespace(home.clone());
    let mut io = replay(vec![Reply::Scope(ScopeRoot { scope: vec![Scope::new()] })]);
    let err = done(ScopeStore::create(&sc, &uid(), &mut io)).err().unwrap();
    assert!(matches!(err, StoreError::Scope(ScopeError::AlreadyExists)));
    assert_eq!(err.kind(), ErrorKind::AlreadyExists);

    let mut io = replay(vec![free(), held()]);
    assert!(matches!(
        asked(ScopeStore::create(&sc, &uid(), &mut io)),
        Request::Save(Record::Scope(_))
    ));

    let mut io = replay(vec![free(), Reply::Namespace(NamespaceRoot { namespace: vec![] })]);
    let err = done(ScopeStore::create(&sc, &uid(), &mut io)).err().unwrap();
    assert!(matches!(err, StoreError::Namespace(NamespaceError::DoesNotExist)));
    assert_eq!(err.kind(), ErrorKind::NotFound);

    let lost = Namespace::default().uid(s("0x6"));
    let sc = Scope::new().name(s("read")).scope_type(ScopeType::action).add_namespace(lost);
    let mut io = replay(vec![free()]);
    let err = done(ScopeStore::create(&sc, &uid(), &mut io)).err().unwrap();
    assert!(matches!(err, StoreError::Scope(ScopeError::Empty)));
    assert_eq!(err.kind(), ErrorKind::EmptyResult);
}

#[test]
fn a_namespace_needs_a_system_that_exists() {
    let free = || Reply::Namespace(NamespaceRoot { namespace: vec![] });
    let home = System::default().uid(s("0x4"));
    let n = Namespace::new().name(s("billing")).add_system(home);
    let mut io = replay(vec![free()]);
    let err = done(NamespaceStore::create(&n, &uid(), &mut io)).err().unwrap();
    assert!(matches!(err, StoreError::System(SystemError::Empty)));
    assert_eq!(err.kind(), ErrorKind::EmptyResult);

    let home = System::new().uid(s("0x4")).guid(s("S1"));
    let n = Namespace::new().name(s("billing")).add_system(home);
    let mut io = replay(vec![free(), systems(vec![])]);
    let err = done(NamespaceStore::create(&n, &uid(), &mut io)).err().unwrap();
    assert!(matches!(err, StoreError::System(SystemError::DoesNotExist)));
    assert_eq!(err.kind(), ErrorKind::NotFound);
    let mut io = replay(vec![free(), Reply::Failed(Failure::Transport)]);
    let err = done(NamespaceStore::create(&n, &uid(), &mut io)).err().unwrap();
    assert!(matches!(err, StoreError::System(SystemError::DoesNotExist)));
}

#[test]
fn a_namespace_or_scope_of_another_key_is_passed_over() {
    let home = System::default().uid(s("0x4"));
    let elsewhere = System::default().uid(s("0x40"));
    let hit = Namespace::default().uid(s("0x6")).name(s("billing")).add_system(home.clone());
    let rows = NamespaceRoot {
        namespace: vec![
            Namespace::default().uid(s("0x60")).name(s("billing2")).add_system(home.clone()),
            Namespace::default().uid(s("0x61")).name(s("billing")).add_system(elsewhere),
            hit.clone(),
        ],
    };
    assert_eq!(NamespaceStore::matching(&rows, "billing", "0x4").unwrap().uid.as_deref(), Some("0x6"));
    assert!(NamespaceStore::matching(&rows, "billing", "0x5").is_none());
    assert!(NamespaceStore::matching(&rows, "bill", "0x4").is_none());
    assert!(NamespaceStore::homed(&vec![home.clone()], "0x4"));
    assert!(!NamespaceStore::homed(&vec![home.clone()], "0x"));
    let mut io = replay(vec![Reply::Namespace(rows)]);
    let step = NamespaceStore::find_by_system_name("billing", "0x4", &uid(), &mut io);
    assert_eq!(done(step).unwrap().unwrap().uid.as_deref(), Some("0x6"));

    let rows = ScopeRoot {
        scope: vec![
            Scope::default().uid(s("0x70")).name(s("write")).add_namespace(hit.clone()),
            Scope::default().uid(s("0x7")).name(s("read")).add_namespace(hit.clone()),
        ],
    };
    assert_eq!(ScopeStore::matching(&rows, "read", "0x6").unwrap().uid.as_deref(), Some("0x7"));
    assert!(ScopeStore::matching(&rows, "read", "0x60").is_none());
    assert!(ScopeStore::homed(&vec![hit.clone()], "0x6"));
    let mut io = replay(vec![Reply::Scope(rows)]);
    let step = ScopeStore::find_by_namespace_type_name("admin", "0x6", &uid(), &mut io);
    assert!(done(step).unwrap().is_none());
    let mut io = Replay::new();
    let step = NamespaceStore::find_by_system_name("billing", "0x4", &NamespaceStore::key_fields(), &mut io);
    let (text, _, _) = query_of(asked(step));
    assert!(text.contains("name\n"));
    assert!(text.contains("system { uid }\n"));
}

#[test]
fn an_entity_of_another_sid_is_passed_over() {
    let rows = EntityRoot {
        entity: vec![
            Entity::default().uid(s("0x10")).sid(s("testy2")),
            Entity::default().uid(s("0x1")).sid(s("testy")),
        ],
    };
    assert_eq!(EntityStore::matching(&rows, "testy").unwrap().uid.as_deref(), Some("0x1"));
    assert!(EntityStore::matching(&rows, "test").is_none());
    let bare = EntityRoot { entity: vec![Entity::default().uid(s("0x5"))] };
    assert!(EntityStore::matching(&bare, "testy").is_some());
    let mut io = replay(vec![Reply::Entity(rows)]);
    let fields = EntityStore::key_fields();
    let found = done(EntityStore::find_by_sid("testy", &fields, &mut io)).unwrap().unwrap();
    assert_eq!(found.uid.as_deref(), Some("0x1"));

    let near = Entity::default().uid(s("0x10")).sid(s("testy2"));
    let mut io = replay(vec![entities(vec![near])]);
    match asked(EntityStore::create(&testy(), &uid(), &mut io)) {
        Request::Save(Record::Entity(kept)) => assert_eq!(kept.sid.as_deref(), Some("testy")),
        _ => panic!("not a save of an entity"),
    }
    let mut io = Replay::new();
    let (text, _, _) = query_of(asked(EntityStore::create(&testy(), &uid(), &mut io)));
    assert!(text.contains("uid\n        sid\n"));
}
