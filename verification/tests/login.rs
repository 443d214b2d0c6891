//! The check of a login against what the store holds.

use identity_graph::authenticator::{
    Authenticator, AuthenticatorError, AuthenticatorRoot, AuthenticatorType,
};
use identity_graph::authenticator_store::AuthenticatorStore;
use identity_graph::db::{Failure, Replay, Reply, Request, Step};
use identity_graph::error::{ErrorKind, StoreError};
use identity_graph::identifier::{Identifier, IdentifierType};
use identity_graph::projection::Kind;
use identity_graph::system::{System, SystemRoot};

fn s(text: &str) -> String {
    String::from(text)
}

fn hash(secret: &str) -> String {
    let config = argon2::Config { mem_cost: 64, time_cost: 1, ..argon2::Config::default() };
    argon2::hash_encoded(secret.as_bytes(), b"some-salt", &config).unwrap()
}

fn candidate(secret: &str) -> (Authenticator, Identifier, System) {
    (
        Authenticator::new().authenticator_type(AuthenticatorType::email_password).value(s(secret)),
        Identifier::new().identifier_type(IdentifierType::email).value(s("test@test.com")),
        System::new().guid(s("S1")),
    )
}

fn row(value: Option<String>, scoped: bool) -> Authenticator {
    let mut a = Authenticator::default().authenticator_type(AuthenticatorType::email_password);
    a.value = value;
    a.identifiers = Some(vec![Identifier::default()
        .uid(s("0x2"))
        .identifier_type(IdentifierType::email)
        .value(s("test@test.com"))]);
    if scoped {
        a.systems = Some(vec![System::default().uid(s("0x4")).guid(s("S1"))]);
    }
    a
}

fn rows(list: Vec<Authenticator>) -> AuthenticatorRoot {
    AuthenticatorRoot { authenticator: list }
}

fn answer(secret: &str, reply: Reply) -> Result<bool, StoreError> {
    let (a, i, sys) = candidate(secret);
    let mut io = Replay::new();
    io.record(reply);
    match AuthenticatorStore::login(&a, &i, &sys, &mut io) {
        Step::Done(out) => out,
        Step::Ask(_) => panic!("the login asks again"),
    }
}

#[test]
fn a_login_asks_one_query() {
    let (a, i, sys) = candidate("test123");
    let mut io = Replay::new();
    match AuthenticatorStore::login(&a, &i, &sys, &mut io) {
        Step::Ask(Request::Query { text, vars, root }) => {
            assert!(text.contains("A as authenticator @filter(eq(authenticator_type, $auth_type))"));
            assert!(text.contains("system @filter(eq(guid, $sys_guid))"));
            assert!(text.contains("guid\n"));
            assert!(text.contains("authenticator_type\n        value\n"));
            assert!(text.contains("identifier @filter(eq(identifier_type, $ident_type)"));
            assert!(!text.contains("{{"));
            assert_eq!(
                vars,
                vec![
                    (s("$auth_type"), s("email_password")),
                    (s("$ident_type"), s("email")),
                    (s("$ident_value"), s("test@test.com")),
                    (s("$sys_guid"), s("S1")),
                ]
            );
            assert_eq!(root, Kind::Authenticator);
        }
        _ => panic!("the login does not ask its query"),
    }
}

#[test]
fn the_right_secret_is_accepted() {
    let reply = Reply::Authenticator(rows(vec![row(Some(hash("test123")), true)]));
    assert_eq!(answer("test123", reply).ok(), Some(true));
}

#[test]
fn a_wrong_secret_is_rejected() {
    let reply = Reply::Authenticator(rows(vec![row(Some(hash("test123")), true)]));
    assert_eq!(answer("wrongpass", reply).ok(), Some(false));
    let reply = Reply::Authenticator(rows(vec![row(Some(hash("test123")), true)]));
    assert_eq!(answer("", reply).ok(), Some(false));
}

#[test]
fn no_authenticator_is_a_rejection() {
    assert_eq!(answer("test123", Reply::Authenticator(rows(vec![]))).ok(), Some(false));
}

#[test]
fn an_authenticator_of_another_system_is_a_rejection() {
    let reply = Reply::Authenticator(rows(vec![row(Some(hash("test123")), false)]));
    assert_eq!(answer("test123", reply).ok(), Some(false));
    let mut unscoped = row(Some(hash("test123")), false);
    unscoped.systems = Some(vec![]);
    assert_eq!(answer("test123", Reply::Authenticator(rows(vec![unscoped]))).ok(), Some(false));
    let mut other = row(Some(hash("test123")), false);
    other.systems = Some(vec![System::default().uid(s("0x5")).guid(s("S2"))]);
    assert_eq!(answer("test123", Reply::Authenticator(rows(vec![other]))).ok(), Some(false));
    let mut unnamed = row(Some(hash("test123")), false);
    unnamed.systems = Some(vec![System::default().uid(s("0x4"))]);
    assert_eq!(answer("test123", Reply::Authenticator(rows(vec![unnamed]))).ok(), Some(false));
    let mut both = row(Some(hash("test123")), false);
    both.systems = Some(vec![
        System::default().uid(s("0x5")).guid(s("S2")),
        System::default().uid(s("0x4")).guid(s("S1")),
    ]);
    assert_eq!(answer("test123", Reply::Authenticator(rows(vec![both]))).ok(), Some(true));
}

#[test]
fn an_authenticator_of_another_type_or_identifier_is_a_rejection() {
    let mut typed = row(Some(hash("test123")), true);
    typed.authenticator_type = Some(AuthenticatorType::username_password);
    assert_eq!(answer("test123", Reply::Authenticator(rows(vec![typed]))).ok(), Some(false));
    let mut untyped = row(Some(hash("test123")), true);
    untyped.authenticator_type = None;
    assert_eq!(answer("test123", Reply::Authenticator(rows(vec![untyped]))).ok(), Some(false));
    let mut other = row(Some(hash("test123")), true);
    other.identifiers = Some(vec![Identifier::default()
        .identifier_type(IdentifierType::email)
        .value(s("other@test.com"))]);
    assert_eq!(answer("test123", Reply::Authenticator(rows(vec![other]))).ok(), Some(false));
    let mut unnamed = row(Some(hash("test123")), true);
    unnamed.identifiers = None;
    assert_eq!(answer("test123", Reply::Authenticator(rows(vec![unnamed]))).ok(), Some(false));
}

#[test]
fn only_the_first_row_is_checked() {
    let reply = Reply::Authenticator(rows(vec![
        row(Some(hash("other")), true),
        row(Some(hash("test123")), true),
    ]));
    assert_eq!(answer("test123", reply).ok(), Some(false));
}

#[test]
fn a_stored_value_that_is_no_hash_is_corrupt() {
    let reply = Reply::Authenticator(rows(vec![row(Some(s("test123")), true)]));
    let err = answer("test123", reply).err().unwrap();
    assert!(matches!(err, StoreError::CorruptData));
    assert_eq!(err.kind(), ErrorKind::CorruptData);
    let reply = Reply::Authenticator(rows(vec![row(Some(s("$argon2i$v=19$m=4096")), true)]));
    assert!(matches!(answer("test123", reply), Err(StoreError::CorruptData)));
    let reply = Reply::Authenticator(rows(vec![row(None, true)]));
    assert!(matches!(answer("test123", reply), Err(StoreError::CorruptData)));
}

#[test]
fn a_fault_of_the_store_is_no_rejection() {
    assert!(matches!(
        answer("test123", Reply::Failed(Failure::Transport)),
        Err(StoreError::Transport)
    ));
    assert!(matches!(answer("test123", Reply::Failed(Failure::Decode)), Err(StoreError::Decode)));
    let reply = Reply::System(SystemRoot { system: vec![] });
    assert!(matches!(answer("test123", reply), Err(StoreError::Decode)));
}

#[test]
fn a_candidate_that_lacks_a_field_is_refused_at_once() {
    let refused = |a: &Authenticator, i: &Identifier, sys: &System| {
        let mut io = Replay::new();
        matches!(
            AuthenticatorStore::login(a, i, sys, &mut io),
            Step::Done(Err(StoreError::Authenticator(AuthenticatorError::Empty)))
        )
    };
    let (a, i, sys) = candidate("test123");
    assert!(refused(&Authenticator::new(), &i, &sys));
    assert!(refused(&a, &Identifier::new(), &sys));
    let typed = Identifier::new().identifier_type(IdentifierType::email);
    assert!(refused(&a, &typed, &sys));
    assert!(refused(&a, &i, &System::default()));
    assert_eq!(StoreError::Authenticator(AuthenticatorError::Empty).kind(), ErrorKind::EmptyResult);
}

#[test]
fn a_candidate_without_a_secret_is_refused_where_it_is_needed() {
    let (_, i, sys) = candidate("test123");
    let a = Authenticator::new().authenticator_type(AuthenticatorType::email_password);
    let mut io = Replay::new();
    io.record(Reply::Authenticator(rows(vec![])));
    assert!(matches!(AuthenticatorStore::login(&a, &i, &sys, &mut io), Step::Done(Ok(false))));
    let mut io = Replay::new();
    io.record(Reply::Authenticator(rows(vec![row(Some(hash("test123")), true)])));
    assert!(matches!(
        AuthenticatorStore::login(&a, &i, &sys, &mut io),
        Step::Done(Err(StoreError::Authenticator(AuthenticatorError::Empty)))
    ));
}

#[test]
fn the_stored_hash_is_that_of_the_first_scoped_row() {
    let kind = AuthenticatorType::email_password;
    let mail = IdentifierType::email;
    let hash_of = |rows: &AuthenticatorRoot, guid: &str| {
        AuthenticatorStore::stored_hash(rows, kind, mail, "test@test.com", guid)
    };
    assert!(hash_of(&rows(vec![]), "S1").unwrap().is_none());
    assert!(hash_of(&rows(vec![row(Some(s("h")), false)]), "S1").unwrap().is_none());
    let held = rows(vec![row(Some(s("h")), true)]);
    assert_eq!(hash_of(&held, "S1").unwrap().as_deref(), Some("h"));
    assert!(hash_of(&held, "S2").unwrap().is_none());
    assert!(hash_of(&held, "").unwrap().is_none());
    assert!(matches!(hash_of(&rows(vec![row(None, true)]), "S1"), Err(StoreError::CorruptData)));
    let of = |kind, claim, value: &str| {
        AuthenticatorStore::stored_hash(&held, kind, claim, value, "S1").unwrap().is_some()
    };
    assert!(of(kind, mail, "test@test.com"));
    assert!(!of(AuthenticatorType::phone_password, mail, "test@test.com"));
    assert!(!of(kind, IdentifierType::phone, "test@test.com"));
    assert!(!of(kind, mail, "test@testxcom"));
    assert!(!of(kind, mail, "test@test.co"));
    assert!(AuthenticatorStore::answers(&row(None, true), kind, mail, "test@test.com", "S1"));
    assert!(!AuthenticatorStore::answers(&Authenticator::new(), kind, mail, "test@test.com", "S1"));
    let list = vec![Identifier::default().identifier_type(mail).value(s("a@b"))];
    assert!(AuthenticatorStore::claimed(&list, mail, "a@b"));
    assert!(!AuthenticatorStore::claimed(&list, mail, "a@"));
    assert!(!AuthenticatorStore::claimed(&list, IdentifierType::username, "a@b"));
    assert!(!AuthenticatorStore::claimed(&vec![Identifier::default()], mail, "a@b"));
    assert!(AuthenticatorStore::scoped(&vec![System::default().guid(s("S1"))], "S1"));
    assert!(!AuthenticatorStore::scoped(&vec![System::default().guid(s("S1"))], "S"));
    assert!(!AuthenticatorStore::scoped(&vec![], "S1"));
}

#[test]
fn the_answer_of_the_primitive_is_the_verdict() {
    assert_eq!(AuthenticatorStore::judged(Ok(true)).ok(), Some(true));
    assert_eq!(AuthenticatorStore::judged(Ok(false)).ok(), Some(false));
    assert!(matches!(
        AuthenticatorStore::judged(Err(argon2::Error::DecodingFail)),
        Err(StoreError::CorruptData)
    ));
    let held = rows(vec![row(Some(hash("test123")), true)]);
    let check = |guid: &str, secret: Option<&str>| {
        AuthenticatorStore::check(
            &held,
            AuthenticatorType::email_password,
            IdentifierType::email,
            "test@test.com",
            guid,
            &secret.map(String::from),
        )
    };
    assert_eq!(check("S1", Some("test123")).ok(), Some(true));
    assert_eq!(check("S1", Some("test124")).ok(), Some(false));
    assert_eq!(check("S2", Some("test123")).ok(), Some(false));
    assert!(check("S1", None).is_err());
}
