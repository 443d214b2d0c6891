//! The store of authenticators, and the check of a login.

use vstd::prelude::*;
use vstd::string::*;
use crate::authenticator::{
    Authenticator, AuthenticatorError, AuthenticatorErrorView, AuthenticatorRoot,
    AuthenticatorType, AuthenticatorView,
};
use crate::db::{
    bind, bind2, query, save_record, saved, Found, Record, RecordView, Replay, Reply, ReplyView,
    Request, RequestView, Script, Step, StepView,
};
use crate::entity_store::EntityStore;
use crate::error::{ErrorKind, StoreError, StoreErrorView};
use crate::identifier::{Identifier, IdentifierType, IdentifierView};
use crate::identifier_store::IdentifierStore;
use crate::projection::{
    keys_with, select_uid, select_uid_with, selects, selects_edge, uid_only, uid_with, Field,
    FieldView, Kind, Scalar,
};
use crate::record::{edges, first_of};
use crate::system::{System, SystemView};
use crate::system_store::SystemStore;
use crate::template::{query_text, renders, select};

verus! {

/// The operations on authenticators.
pub struct AuthenticatorStore {}

/// The authenticator with a given uid.
pub const BY_UID: &'static str = r#"
query authenticator($uid: string) {
    authenticator(func: uid($uid)) @filter(eq(dgraph.type, "Authenticator")) {
        {{#each fields}}
        {{this}}
        {{/each}}
    }
}
"#;

/// The authenticators of a given type, each with the identifier of a given
/// uid where it proves that identifier.
pub const BY_TYPE_IDENTIFIER: &'static str = r#"
query authenticator($type: string, $uid: string) {
    authenticator(func: eq(authenticator_type, $type)) @filter(eq(dgraph.type, "Authenticator")) {
        {{#each fields}}
        {{this}}
        {{/each}}
        identifier @filter(uid($uid)) {
            uid
        }
    }
}
"#;

/// The authenticators of a given type of the identifier of a given type and
/// value, each with its type, its stored hash, that identifier and the
/// system of a given guid where it is scoped to that system.
pub const LOGIN: &'static str = r#"
query authenticator($auth_type: string, $ident_type: string, $ident_value: string, $sys_guid: string) {
    identifier(func: eq(identifier_type, $ident_type)) @filter(eq(value, $ident_value)) {
        A as authenticator @filter(eq(authenticator_type, $auth_type))
    }

    authenticator(func: uid(A)) {
        authenticator_type
        value
        identifier @filter(eq(identifier_type, $ident_type) AND eq(value, $ident_value)) {
            uid
            identifier_type
            value
        }
        system @filter(eq(guid, $sys_guid)) {
            uid
            guid
        }
    }
}
"#;

/// The policy that pairs each type of credential with the one type of claim
/// that it can prove.
pub open spec fn pairs(a: AuthenticatorType, i: IdentifierType) -> bool {
    match a {
        AuthenticatorType::phone_password => i == IdentifierType::phone,
        AuthenticatorType::public_key_authentication => i == IdentifierType::public_key,
        AuthenticatorType::email_password => i == IdentifierType::email,
        AuthenticatorType::username_password => i == IdentifierType::username,
    }
}

/// The first authenticator of the answer to `request`: the request, while
/// it is unanswered; then the first row, or none where there is no row.
/// Any reply other than rows of authenticators is a fault.
pub open spec fn first(request: RequestView, s: Script) -> (Found<AuthenticatorView>, Script) {
    if !s.answered() {
        (StepView::Ask(request), s)
    } else {
        (
            StepView::Done(
                match s.reply() {
                    ReplyView::Authenticator(rows) => Ok(first_of(rows)),
                    ReplyView::Failed(failure) => Err(failure.fault()),
                    _ => Err(StoreErrorView::Decode),
                },
            ),
            s.next(),
        )
    }
}

/// What [`AuthenticatorStore::find_by_uid`] comes to in a script: an error
/// where the projection is not admitted or the query does not render; else
/// the first authenticator of the answer to the query, asked with `$uid`
/// bound to the uid.
pub open spec fn find_by_uid(uid: Seq<char>, fields: Seq<FieldView>, s: Script) -> (
    Found<AuthenticatorView>,
    Script,
) {
    match query_text(BY_UID@, Kind::Authenticator, fields) {
        Err(e) => (StepView::Done(Err(e)), s),
        Ok(text) => first(
            RequestView::Query { text, vars: seq![("$uid"@, uid)], root: Kind::Authenticator },
            s,
        ),
    }
}

/// Whether a list of identifiers holds the one with the uid.
pub open spec fn names(list: Seq<IdentifierView>, uid: Seq<char>) -> bool {
    exists|k: int| 0 <= k < list.len() && (#[trigger] list[k]).uid == Some(uid)
}

/// Whether a row is an authenticator of the type that proves the identifier
/// with the uid: the identifier is among its identifiers, and its type,
/// where the row has one, is the type.
pub open spec fn fits(row: AuthenticatorView, kind: AuthenticatorType, uid: Seq<char>) -> bool {
    &&& row.authenticator_type matches Some(t) ==> t == kind
    &&& names(edges(row.identifiers), uid)
}

/// The first row from `from` on that fits the type and the identifier.
pub open spec fn proving_from(
    rows: Seq<AuthenticatorView>,
    kind: AuthenticatorType,
    uid: Seq<char>,
    from: int,
) -> Option<AuthenticatorView>
    decreases rows.len() - from,
{
    if from < 0 || from >= rows.len() {
        None
    } else if fits(rows[from], kind, uid) {
        Some(rows[from])
    } else {
        proving_from(rows, kind, uid, from + 1)
    }
}

/// The first row that fits the type and the identifier.
pub open spec fn proving(
    rows: Seq<AuthenticatorView>,
    kind: AuthenticatorType,
    uid: Seq<char>,
) -> Option<AuthenticatorView> {
    proving_from(rows, kind, uid, 0)
}

/// What [`AuthenticatorStore::find_by_type_identifier`] comes to in a script.
/// The identifier must have a uid. The projection must not select the edge
/// to identifiers, which the query selects itself. The query is asked with
/// `$type` bound to the type and `$uid` to the uid of the identifier; the
/// result is the first authenticator of the answer that carries the
/// identifier. A row of another identifier is passed over.
pub open spec fn find_by_type_identifier(
    authenticator_type: AuthenticatorType,
    i: IdentifierView,
    fields: Seq<FieldView>,
    s: Script,
) -> (Found<AuthenticatorView>, Script) {
    match i.uid {
        None => (
            StepView::Done(
                Err(StoreErrorView::Authenticator(AuthenticatorErrorView::EmptyField("uid"@))),
            ),
            s,
        ),
        Some(uid) => if selects(fields, Kind::Identifier) {
            (StepView::Done(Err(StoreErrorView::Projection)), s)
        } else {
            match query_text(BY_TYPE_IDENTIFIER@, Kind::Authenticator, fields) {
                Err(e) => (StepView::Done(Err(e)), s),
                Ok(text) => {
                    let request = RequestView::Query {
                        text,
                        vars: seq![("$type"@, authenticator_type.text()), ("$uid"@, uid)],
                        root: Kind::Authenticator,
                    };
                    if !s.answered() {
                        (StepView::Ask(request), s)
                    } else {
                        (
                            StepView::Done(
                                match s.reply() {
                                    ReplyView::Authenticator(rows) => Ok(
                                        proving(rows, authenticator_type, uid),
                                    ),
                                    ReplyView::Failed(failure) => Err(failure.fault()),
                                    _ => Err(StoreErrorView::Decode),
                                },
                            ),
                            s.next(),
                        )
                    }
                },
            }
        },
    }
}

/// What an `associate` operation does once it knows what to look for and
/// what to save: reads the authenticator with the given uid under `probe`;
/// fails where there is none; else saves what `link` makes of it, and reads
/// the authenticator again under `fields`.
pub open spec fn associate(
    uid: Seq<char>,
    probe: Seq<FieldView>,
    link: spec_fn(AuthenticatorView) -> AuthenticatorView,
    fields: Seq<FieldView>,
    s: Script,
) -> (Found<AuthenticatorView>, Script) {
    let (current, s1) = find_by_uid(uid, probe, s);
    match current {
        StepView::Ask(request) => (StepView::Ask(request), s1),
        StepView::Done(Err(e)) => (StepView::Done(Err(e)), s1),
        StepView::Done(Ok(None)) => (
            StepView::Done(Err(StoreErrorView::Authenticator(AuthenticatorErrorView::DoesNotExist))),
            s1,
        ),
        StepView::Done(Ok(Some(a))) => {
            let (kept, s2) = saved(RecordView::Authenticator(link(a)), s1);
            match kept {
                StepView::Ask(request) => (StepView::Ask(request), s2),
                StepView::Done(Err(e)) => (StepView::Done(Err(e)), s2),
                StepView::Done(Ok(_)) => find_by_uid(uid, fields, s2),
            }
        },
    }
}

/// What [`AuthenticatorStore::associate_system`] comes to in a script: the
/// system is appended to the systems of the authenticator, as [`associate`]
/// says.
pub open spec fn associate_system(
    uid: Seq<char>,
    sys: SystemView,
    fields: Seq<FieldView>,
    s: Script,
) -> (Found<AuthenticatorView>, Script) {
    associate(
        uid,
        uid_with(Kind::System),
        |a: AuthenticatorView| AuthenticatorView { systems: Some(edges(a.systems).push(sys)), ..a },
        fields,
        s,
    )
}

/// What [`AuthenticatorStore::associate_identifier`] comes to in a script:
/// the identifier is appended to the identifiers of the authenticator, as
/// [`associate`] says.
pub open spec fn associate_identifier(
    uid: Seq<char>,
    i: IdentifierView,
    fields: Seq<FieldView>,
    s: Script,
) -> (Found<AuthenticatorView>, Script) {
    associate(
        uid,
        uid_with(Kind::Identifier),
        |a: AuthenticatorView|
            AuthenticatorView { identifiers: Some(edges(a.identifiers).push(i)), ..a },
        fields,
        s,
    )
}

/// The type of the record and its first identifier, whose type as the
/// record gives it is the one that the policy pairs with the record's. A
/// field that the record lacks is reported by its name; that its
/// identifier has no type, as `Empty`.
pub open spec fn required(a: AuthenticatorView) -> Result<
    (AuthenticatorType, IdentifierView),
    StoreErrorView,
> {
    match (a.authenticator_type, a.identifiers) {
        (None, _) => Err(
            StoreErrorView::Authenticator(AuthenticatorErrorView::EmptyField("authenticator_type"@)),
        ),
        (Some(kind), Some(list)) if list.len() > 0 => match list[0].identifier_type {
            None => Err(StoreErrorView::Authenticator(AuthenticatorErrorView::Empty)),
            Some(claim) => if pairs(kind, claim) {
                Ok((kind, list[0]))
            } else {
                Err(StoreErrorView::Authenticator(AuthenticatorErrorView::AuthTypeIdentTypeMisMatch))
            },
        },
        _ => Err(StoreErrorView::Authenticator(AuthenticatorErrorView::EmptyField("identifiers"@))),
    }
}

/// The uid of the first entity of the record. That the record has no
/// entity is reported by the name of the field; that the entity has no uid,
/// as `Empty`.
pub open spec fn owner(a: AuthenticatorView) -> Result<Seq<char>, StoreErrorView> {
    match a.entities {
        Some(list) if list.len() > 0 => match list[0].uid {
            Some(uid) => Ok(uid),
            None => Err(StoreErrorView::Authenticator(AuthenticatorErrorView::Empty)),
        },
        _ => Err(StoreErrorView::Authenticator(AuthenticatorErrorView::EmptyField("entities"@))),
    }
}

/// The guid of the first system of the record. That the record has no
/// system is reported by the name of the field; that the system has no
/// guid, as `Empty`.
pub open spec fn tenant(a: AuthenticatorView) -> Result<Seq<char>, StoreErrorView> {
    match a.systems {
        Some(list) if list.len() > 0 => match list[0].guid {
            Some(guid) => Ok(guid),
            None => Err(StoreErrorView::Authenticator(AuthenticatorErrorView::Empty)),
        },
        _ => Err(StoreErrorView::Authenticator(AuthenticatorErrorView::EmptyField("systems"@))),
    }
}

/// What a record that can be created refers to.
pub struct References {
    /// The type of the record.
    pub kind: AuthenticatorType,
    /// The first identifier of the record, as the record gives it.
    pub claim: IdentifierView,
    /// The uid of the first entity of the record.
    pub entity: Seq<char>,
    /// The uid of the first identifier of the record.
    pub identifier: Seq<char>,
    /// The guid of the first system of the record.
    pub guid: Seq<char>,
}

/// What a record that can be created refers to, or what it lacks: it must
/// hold what [`required`], [`owner`] and [`tenant`] need, a uid on its
/// first identifier, and a value. `create` tests these in turn with its
/// lookups, in the order that its own text gives.
pub open spec fn checked(a: AuthenticatorView) -> Result<References, StoreErrorView> {
    match required(a) {
        Err(e) => Err(e),
        Ok((kind, claim)) => match (owner(a), claim.uid, tenant(a)) {
            (Err(e), _, _) => Err(e),
            (Ok(_), None, _) => Err(StoreErrorView::Authenticator(AuthenticatorErrorView::Empty)),
            (Ok(_), Some(_), Err(e)) => Err(e),
            (Ok(entity), Some(identifier), Ok(guid)) => if a.value.is_none() {
                Err(StoreErrorView::Authenticator(AuthenticatorErrorView::EmptyField("value"@)))
            } else {
                Ok(References { kind, claim, entity, identifier, guid })
            },
        },
    }
}

/// The record as it is linked after a save: under the uid that the store
/// assigned, if it assigned one.
pub open spec fn assigned(a: AuthenticatorView, uid: Option<Seq<char>>) -> AuthenticatorView {
    match uid {
        Some(uid) => AuthenticatorView { uid: Some(uid), ..a },
        None => a,
    }
}

/// Whether the identifier as the store holds it has a type, and that type
/// is the one that the policy pairs with `kind`.
pub open spec fn holds_pair(kind: AuthenticatorType, stored: IdentifierView) -> bool {
    stored.identifier_type matches Some(t) && pairs(kind, t)
}

/// The projection under which the stored identifier is read: its uid and
/// its type.
pub open spec fn typed_fields() -> Seq<FieldView> {
    seq![FieldView::Scalar(Scalar::Uid), FieldView::Scalar(Scalar::IdentifierType)]
}

/// The cascade that follows the save of a new authenticator: it is appended
/// to its entity, to its system and to its identifier, in this order, each
/// in an exchange of its own; then it is read back under `fields`. A link
/// that fails does not stop the ones after it and is not reported.
pub open spec fn link(
    linked: AuthenticatorView,
    to: References,
    fields: Seq<FieldView>,
    s: Script,
) -> (Found<AuthenticatorView>, Script) {
    let (first, s1) = crate::entity_store::associate_authenticator(
        to.entity,
        linked,
        uid_only(),
        s,
    );
    match first {
        StepView::Ask(request) => (StepView::Ask(request), s1),
        StepView::Done(_) => {
            let (second, s2) = crate::system_store::associate_authenticator(
                to.guid,
                linked,
                uid_only(),
                s1,
            );
            match second {
                StepView::Ask(request) => (StepView::Ask(request), s2),
                StepView::Done(_) => {
                    let (third, s3) = crate::identifier_store::associate_authenticator(
                        to.identifier,
                        linked,
                        uid_only(),
                        s2,
                    );
                    match third {
                        StepView::Ask(request) => (StepView::Ask(request), s3),
                        StepView::Done(_) => find_by_type_identifier(
                            to.kind,
                            to.claim,
                            fields,
                            s3,
                        ),
                    }
                },
            }
        },
    }
}

/// The second half of a creation, once the entity and the identifier are
/// found. The identifier must have no authenticator of the type, or the
/// creation fails with `AuthenticatorExists`. Only then the record must
/// have a value, or it fails with `EmptyField`, and a first system with a
/// guid, as [`tenant`] says. The system must exist, or the creation fails
/// with `DoesNotExist`. The record is then saved, and linked as [`link`]
/// says under the uid that the store gave it. A lookup or a save that fails
/// ends the creation with that error.
pub open spec fn enrol(
    a: AuthenticatorView,
    kind: AuthenticatorType,
    claim: IdentifierView,
    entity: Seq<char>,
    identifier: Seq<char>,
    fields: Seq<FieldView>,
    s: Script,
) -> (Found<AuthenticatorView>, Script) {
    let (taken, s1) = find_by_type_identifier(kind, claim, uid_only(), s);
    match taken {
        StepView::Ask(request) => (StepView::Ask(request), s1),
        StepView::Done(Err(e)) => (StepView::Done(Err(e)), s1),
        StepView::Done(Ok(Some(_))) => (
            StepView::Done(
                Err(StoreErrorView::Authenticator(AuthenticatorErrorView::AuthenticatorExists)),
            ),
            s1,
        ),
        StepView::Done(Ok(None)) => match (a.value, tenant(a)) {
            (None, _) => (
                StepView::Done(
                    Err(StoreErrorView::Authenticator(AuthenticatorErrorView::EmptyField("value"@))),
                ),
                s1,
            ),
            (Some(_), Err(e)) => (StepView::Done(Err(e)), s1),
            (Some(_), Ok(guid)) => {
                let (scoped, s2) = crate::system_store::is_known(guid, s1);
                match scoped {
                    StepView::Ask(request) => (StepView::Ask(request), s2),
                    StepView::Done(false) => (missing(), s2),
                    StepView::Done(true) => {
                        let (kept, s3) = saved(RecordView::Authenticator(a), s2);
                        match kept {
                            StepView::Ask(request) => (StepView::Ask(request), s3),
                            StepView::Done(Err(e)) => (StepView::Done(Err(e)), s3),
                            StepView::Done(Ok(uid)) => link(
                                assigned(a, uid),
                                References { kind, claim, entity, identifier, guid },
                                fields,
                                s3,
                            ),
                        }
                    },
                }
            },
        },
    }
}

/// The step that ends a creation with `DoesNotExist`.
pub open spec fn missing() -> Found<AuthenticatorView> {
    StepView::Done(Err(StoreErrorView::Authenticator(AuthenticatorErrorView::DoesNotExist)))
}

/// What [`AuthenticatorStore::create`] comes to in a script. Before it asks
/// anything the record must pass [`required`] and name an entity by its
/// uid, as [`owner`] says. The entity must exist, or the creation fails
/// with `DoesNotExist`. The first identifier must then have a uid, or it
/// fails with `Empty`. The identifier is read with its type: it must exist,
/// or the creation fails with `DoesNotExist`, and the type that the store
/// holds for it must be the one that the policy pairs with the record's, or
/// it fails with `AuthTypeIdentTypeMisMatch`. A lookup of the identifier
/// that fails counts as "does not exist". The creation then goes on as
/// [`enrol`] says. Nothing is saved before every test has passed.
pub open spec fn create(a: AuthenticatorView, fields: Seq<FieldView>, s: Script) -> (
    Found<AuthenticatorView>,
    Script,
) {
    match (required(a), owner(a)) {
        (Err(e), _) => (StepView::Done(Err(e)), s),
        (Ok(_), Err(e)) => (StepView::Done(Err(e)), s),
        (Ok((kind, claim)), Ok(entity)) => {
            let (known, s1) = crate::entity_store::is_known(entity, s);
            match (known, claim.uid) {
                (StepView::Ask(request), _) => (StepView::Ask(request), s1),
                (StepView::Done(false), _) => (missing(), s1),
                (StepView::Done(true), None) => (
                    StepView::Done(Err(StoreErrorView::Authenticator(AuthenticatorErrorView::Empty))),
                    s1,
                ),
                (StepView::Done(true), Some(identifier)) => {
                    let (stored, s2) = crate::identifier_store::find_by_uid(
                        identifier,
                        typed_fields(),
                        s1,
                    );
                    match stored {
                        StepView::Ask(request) => (StepView::Ask(request), s2),
                        StepView::Done(Ok(Some(i))) => if holds_pair(kind, i) {
                            enrol(a, kind, claim, entity, identifier, fields, s2)
                        } else {
                            (
                                StepView::Done(
                                    Err(
                                        StoreErrorView::Authenticator(
                                            AuthenticatorErrorView::AuthTypeIdentTypeMisMatch,
                                        ),
                                    ),
                                ),
                                s2,
                            )
                        },
                        StepView::Done(_) => (missing(), s2),
                    }
                },
            }
        },
    }
}

/// Whether the password primitive finds that `secret` is the secret that
/// `encoded` was made of; none where `encoded` is not a hash it can read.
pub uninterp spec fn hash_matches(encoded: Seq<char>, secret: Seq<char>) -> Option<bool>;

/// The error of the password primitive, carried through as it is.
#[verifier::external_type_specification]
#[verifier::external_body]
pub struct ExHashError(argon2::Error);

/// Verifies with `argon2::verify_encoded`, on the bytes of `secret`. The
/// contract gives the call's result its name, [`hash_matches`]: what comes
/// back depends on the two strings alone. The crate is built without its
/// threads, so the call runs in the caller's thread; it takes the memory
/// that the stored hash asks for.
#[verifier::external_body]
fn verify_encoded(encoded: &str, secret: &str) -> (r: Result<bool, argon2::Error>)
    ensures
        match r {
            Ok(same) => hash_matches(encoded@, secret@) == Some(same),
            Err(_) => hash_matches(encoded@, secret@).is_none(),
        },
{
    argon2::verify_encoded(encoded, secret.as_bytes())
}

/// What a login asks: whether a credential of a type proves the identifier
/// of a type and value to the system of a guid.
pub struct Asked {
    /// The type of the candidate authenticator.
    pub kind: AuthenticatorType,
    /// The type of the candidate identifier.
    pub claim: IdentifierType,
    /// The value of the candidate identifier.
    pub value: Seq<char>,
    /// The guid of the system.
    pub guid: Seq<char>,
}

/// Whether a list of systems holds the one with the guid.
pub open spec fn scoped(list: Seq<SystemView>, guid: Seq<char>) -> bool {
    exists|k: int| 0 <= k < list.len() && (#[trigger] list[k]).guid == Some(guid)
}

/// Whether a list of identifiers holds one of the type and the value.
pub open spec fn claimed(list: Seq<IdentifierView>, claim: IdentifierType, value: Seq<char>) -> bool {
    exists|k: int|
        0 <= k < list.len() && (#[trigger] list[k]).identifier_type == Some(claim) && list[k].value
            == Some(value)
}

/// Whether a row answers what a login asks: it is an authenticator of the
/// type, it carries the identifier of the type and value, and it carries
/// the system of the guid.
pub open spec fn answers(row: AuthenticatorView, q: Asked) -> bool {
    &&& row.authenticator_type == Some(q.kind)
    &&& claimed(edges(row.identifiers), q.claim, q.value)
    &&& scoped(edges(row.systems), q.guid)
}

/// The stored hash that a login is checked against: that of the first row,
/// where that row answers what the login asks. None where there is no row
/// or the row is of another type, another identifier or another system,
/// whatever the store made of the filters: the login is rejected. A row
/// without a value is corrupt.
pub open spec fn stored_hash(rows: Seq<AuthenticatorView>, q: Asked) -> Result<
    Option<Seq<char>>,
    StoreErrorView,
> {
    if rows.len() == 0 || !answers(rows[0], q) {
        Ok(None)
    } else {
        match rows[0].value {
            Some(hash) => Ok(Some(hash)),
            None => Err(StoreErrorView::CorruptData),
        }
    }
}

/// The verdict on a login, given what the password primitive says of each
/// pair of hash and secret: rejected where there is no stored hash to check
/// against; else what the primitive says of the stored hash and the
/// candidate's secret. A candidate without a secret is reported as `Empty`.
/// A stored hash that the primitive cannot read is corrupt, which is an
/// error and not a rejection.
pub open spec fn verdict(
    rows: Seq<AuthenticatorView>,
    q: Asked,
    secret: Option<Seq<char>>,
    matches: spec_fn(Seq<char>, Seq<char>) -> Option<bool>,
) -> Result<bool, StoreErrorView> {
    match stored_hash(rows, q) {
        Err(e) => Err(e),
        Ok(None) => Ok(false),
        Ok(Some(hash)) => match secret {
            None => Err(StoreErrorView::Authenticator(AuthenticatorErrorView::Empty)),
            Some(secret) => match matches(hash, secret) {
                Some(same) => Ok(same),
                None => Err(StoreErrorView::CorruptData),
            },
        },
    }
}

/// What the candidates of a login ask: the type of the candidate
/// authenticator, the type and the value of the candidate identifier and
/// the guid of the system. Where one of them is missing there is nothing to
/// ask, which is reported as `Empty`.
pub open spec fn candidates(a: AuthenticatorView, i: IdentifierView, sys: SystemView) -> Result<
    Asked,
    StoreErrorView,
> {
    match (a.authenticator_type, i.identifier_type, i.value, sys.guid) {
        (Some(kind), Some(claim), Some(value), Some(guid)) => Ok(
            Asked { kind, claim, value, guid },
        ),
        _ => Err(StoreErrorView::Authenticator(AuthenticatorErrorView::Empty)),
    }
}

/// The variables of the login query.
pub open spec fn bindings(q: Asked) -> crate::db::Vars {
    seq![
        ("$auth_type"@, q.kind.text()),
        ("$ident_type"@, q.claim.text()),
        ("$ident_value"@, q.value),
        ("$sys_guid"@, q.guid),
    ]
}

/// What [`AuthenticatorStore::login`] comes to in a script. The candidates
/// must pass [`candidates`]. One query is asked, for rows of authenticators;
/// the result is the [`verdict`] on those rows, on what was asked and on
/// the secret of the candidate. A fault of the store is an error, not a
/// rejection.
pub open spec fn login(a: AuthenticatorView, i: IdentifierView, sys: SystemView, s: Script) -> (
    StepView<Result<bool, StoreErrorView>>,
    Script,
) {
    match candidates(a, i, sys) {
        Err(e) => (StepView::Done(Err(e)), s),
        Ok(q) => match query_text(LOGIN@, Kind::Authenticator, Seq::empty()) {
            Err(e) => (StepView::Done(Err(e)), s),
            Ok(text) => if !s.answered() {
                (
                    StepView::Ask(
                        RequestView::Query { text, vars: bindings(q), root: Kind::Authenticator },
                    ),
                    s,
                )
            } else {
                (
                    StepView::Done(
                        match s.reply() {
                            ReplyView::Authenticator(rows) => verdict(
                                rows,
                                q,
                                a.value,
                                |hash: Seq<char>, secret: Seq<char>| hash_matches(hash, secret),
                            ),
                            ReplyView::Failed(failure) => Err(failure.fault()),
                            _ => Err(StoreErrorView::Decode),
                        },
                    ),
                    s.next(),
                )
            },
        },
    }
}

impl AuthenticatorStore {
    /// Whether the policy pairs the type of credential with the type of
    /// claim.
    pub fn _validate_authenticator_type(
        auth_type: &AuthenticatorType,
        ident_type: &IdentifierType,
    ) -> (r: bool)
        ensures
            r == pairs(*auth_type, *ident_type),
    {
        match auth_type {
            AuthenticatorType::phone_password => *ident_type == IdentifierType::phone,
            AuthenticatorType::public_key_authentication => *ident_type
                == IdentifierType::public_key,
            AuthenticatorType::email_password => *ident_type == IdentifierType::email,
            AuthenticatorType::username_password => *ident_type == IdentifierType::username,
        }
    }

    /// Sends `request` and takes the first authenticator of the answer.
    pub fn first(request: Request, io: &mut Replay) -> (r: Step<
        Result<Option<Authenticator>, StoreError>,
    >)
        ensures
            (r@, final(io)@) == first(request@, old(io)@),
    {
        let out = match io.peek() {
            None => {
                return Step::Ask(request);
            },
            Some(reply) => match reply {
                Reply::Authenticator(rows) => Ok(rows.first()),
                Reply::Failed(failure) => Err(failure.error()),
                _ => Err(StoreError::Decode),
            },
        };
        io.advance();
        Step::Done(out)
    }

    /// The authenticator with the uid `uid`, or none.
    pub fn find_by_uid(uid: &str, fields: &Vec<Field>, io: &mut Replay) -> (r: Step<
        Result<Option<Authenticator>, StoreError>,
    >)
        ensures
            (r@, final(io)@) == find_by_uid(uid@, fields.deep_view(), old(io)@),
    {
        match select(BY_UID, Kind::Authenticator, fields) {
            Err(e) => Step::Done(Err(e)),
            Ok(text) => Self::first(query(text, bind("$uid", uid), Kind::Authenticator), io),
        }
    }

    /// Whether `list` holds the identifier with the uid `uid`.
    pub fn names(list: &Vec<Identifier>, uid: &str) -> (r: bool)
        ensures
            r == names(crate::identifier::views_of(list@), uid@),
    {
        let key = uid.to_string();
        let mut k: usize = 0;
        while k < list.len()
            invariant
                k <= list.len(),
                key@ == uid@,
                forall|j: int|
                    0 <= j < k ==> (#[trigger] crate::identifier::views_of(list@)[j]).uid != Some(
                        uid@,
                    ),
            decreases list.len() - k,
        {
            let hit = match &list[k].uid {
                Some(u) => *u == key,
                None => false,
            };
            proof {
                assert(crate::identifier::views_of(list@)[k as int] == list@[k as int]@);
            }
            if hit {
                return true;
            }
            k += 1;
        }
        false
    }

    /// The first row of `rows` that fits the type and the identifier with
    /// the uid `uid`.
    pub fn proving(rows: &AuthenticatorRoot, kind: AuthenticatorType, uid: &str) -> (r: Option<
        Authenticator,
    >)
        ensures
            r.deep_view() == proving(rows@, kind, uid@),
    {
        let mut k: usize = 0;
        while k < rows.authenticator.len()
            invariant
                k <= rows.authenticator.len(),
                proving(rows@, kind, uid@) == proving_from(rows@, kind, uid@, k as int),
            decreases rows.authenticator.len() - k,
        {
            let row = &rows.authenticator[k];
            let typed = match row.authenticator_type {
                Some(t) => t == kind,
                None => true,
            };
            let linked = match &row.identifiers {
                Some(list) => Self::names(list, uid),
                None => false,
            };
            if typed && linked {
                return Some(row.clone());
            }
            k += 1;
        }
        None
    }

    /// The first authenticator of type `authenticator_type` that proves
    /// the identifier `i`, or none.
    pub fn find_by_type_identifier(
        authenticator_type: &AuthenticatorType,
        i: &Identifier,
        fields: &Vec<Field>,
        io: &mut Replay,
    ) -> (r: Step<Result<Option<Authenticator>, StoreError>>)
        ensures
            (r@, final(io)@) == find_by_type_identifier(
                *authenticator_type,
                i@,
                fields.deep_view(),
                old(io)@,
            ),
    {
        let uid = match &i.uid {
            None => {
                return Step::Done(Err(StoreError::Authenticator(AuthenticatorError::missing("uid"))));
            },
            Some(uid) => uid,
        };
        if selects_edge(fields, Kind::Identifier) {
            return Step::Done(Err(StoreError::Projection));
        }
        let text = match select(BY_TYPE_IDENTIFIER, Kind::Authenticator, fields) {
            Err(e) => {
                return Step::Done(Err(e));
            },
            Ok(text) => text,
        };
        let kind = authenticator_type.to_string();
        let request = query(
            text,
            bind2("$type", kind.as_str(), "$uid", uid.as_str()),
            Kind::Authenticator,
        );
        let out = match io.peek() {
            None => {
                return Step::Ask(request);
            },
            Some(reply) => match reply {
                Reply::Authenticator(rows) => Ok(
                    Self::proving(rows, *authenticator_type, uid.as_str()),
                ),
                Reply::Failed(failure) => Err(failure.error()),
                _ => Err(StoreError::Decode),
            },
        };
        io.advance();
        Step::Done(out)
    }

    /// Appends the system `s` to the systems of the authenticator with the
    /// uid `uid`.
    pub fn associate_system(uid: &str, s: &System, fields: &Vec<Field>, io: &mut Replay) -> (r:
        Step<Result<Option<Authenticator>, StoreError>>)
        ensures
            (r@, final(io)@) == associate_system(uid@, s@, fields.deep_view(), old(io)@),
    {
        let probe = select_uid_with(Kind::System);
        let current = match Self::find_by_uid(uid, &probe, io) {
            Step::Ask(request) => {
                return Step::Ask(request);
            },
            Step::Done(Err(e)) => {
                return Step::Done(Err(e));
            },
            Step::Done(Ok(None)) => {
                return Step::Done(Err(StoreError::Authenticator(AuthenticatorError::DoesNotExist)));
            },
            Step::Done(Ok(Some(a))) => a,
        };
        let update = current.add_system(s.clone());
        match save_record(Record::Authenticator(update), io) {
            Step::Ask(request) => {
                return Step::Ask(request);
            },
            Step::Done(Err(e)) => {
                return Step::Done(Err(e));
            },
            Step::Done(Ok(_)) => {},
        }
        Self::find_by_uid(uid, fields, io)
    }

    /// Appends the identifier `i` to the identifiers of the authenticator
    /// with the uid `uid`.
    pub fn associate_identifier(
        uid: &str,
        i: &Identifier,
        fields: &Vec<Field>,
        io: &mut Replay,
    ) -> (r: Step<Result<Option<Authenticator>, StoreError>>)
        ensures
            (r@, final(io)@) == associate_identifier(uid@, i@, fields.deep_view(), old(io)@),
    {
        let probe = select_uid_with(Kind::Identifier);
        let current = match Self::find_by_uid(uid, &probe, io) {
            Step::Ask(request) => {
                return Step::Ask(request);
            },
            Step::Done(Err(e)) => {
                return Step::Done(Err(e));
            },
            Step::Done(Ok(None)) => {
                return Step::Done(Err(StoreError::Authenticator(AuthenticatorError::DoesNotExist)));
            },
            Step::Done(Ok(Some(a))) => a,
        };
        let update = current.add_identifier(i.clone());
        match save_record(Record::Authenticator(update), io) {
            Step::Ask(request) => {
                return Step::Ask(request);
            },
            Step::Done(Err(e)) => {
                return Step::Done(Err(e));
            },
            Step::Done(Ok(_)) => {},
        }
        Self::find_by_uid(uid, fields, io)
    }

    /// Links the saved authenticator `linked` to its entity, its system and
    /// its identifier, and reads it back under `fields`.
    pub fn link(
        linked: &Authenticator,
        kind: AuthenticatorType,
        claim: &Identifier,
        entity: &str,
        identifier: &str,
        guid: &str,
        fields: &Vec<Field>,
        io: &mut Replay,
    ) -> (r: Step<Result<Option<Authenticator>, StoreError>>)
        ensures
            (r@, final(io)@) == link(
                linked@,
                (References {
                    kind,
                    claim: claim@,
                    entity: entity@,
                    identifier: identifier@,
                    guid: guid@,
                }),
                fields.deep_view(),
                old(io)@,
            ),
    {
        let probe = select_uid();
        match EntityStore::associate_authenticator(entity, linked, &probe, io) {
            Step::Ask(request) => {
                return Step::Ask(request);
            },
            Step::Done(_) => {},
        }
        match SystemStore::associate_authenticator(guid, linked, &probe, io) {
            Step::Ask(request) => {
                return Step::Ask(request);
            },
            Step::Done(_) => {},
        }
        match IdentifierStore::associate_authenticator(identifier, linked, &probe, io) {
            Step::Ask(request) => {
                return Step::Ask(request);
            },
            Step::Done(_) => {},
        }
        Self::find_by_type_identifier(&kind, claim, fields, io)
    }

    /// Creates the authenticator `a`, whose entity and identifier are
    /// found, once the identifier has no authenticator of the type, the
    /// record has a value and its system is found too.
    pub fn enrol(
        a: &Authenticator,
        kind: AuthenticatorType,
        claim: &Identifier,
        entity: &str,
        identifier: &str,
        fields: &Vec<Field>,
        io: &mut Replay,
    ) -> (r: Step<Result<Option<Authenticator>, StoreError>>)
        ensures
            (r@, final(io)@) == enrol(
                a@,
                kind,
                claim@,
                entity@,
                identifier@,
                fields.deep_view(),
                old(io)@,
            ),
    {
        let probe = select_uid();
        match Self::find_by_type_identifier(&kind, claim, &probe, io) {
            Step::Ask(request) => {
                return Step::Ask(request);
            },
            Step::Done(Err(e)) => {
                return Step::Done(Err(e));
            },
            Step::Done(Ok(Some(_))) => {
                return Step::Done(
                    Err(StoreError::Authenticator(AuthenticatorError::AuthenticatorExists)),
                );
            },
            Step::Done(Ok(None)) => {},
        }
        if a.value.is_none() {
            return Step::Done(Err(StoreError::Authenticator(AuthenticatorError::missing("value"))));
        }
        let guid = match &a.systems {
            None => {
                return Step::Done(
                    Err(StoreError::Authenticator(AuthenticatorError::missing("systems"))),
                );
            },
            Some(list) => {
                if list.len() == 0 {
                    return Step::Done(
                        Err(StoreError::Authenticator(AuthenticatorError::missing("systems"))),
                    );
                }
                match &list[0].guid {
                    None => {
                        return Step::Done(
                            Err(StoreError::Authenticator(AuthenticatorError::Empty)),
                        );
                    },
                    Some(guid) => guid,
                }
            },
        };
        match SystemStore::is_known(guid.as_str(), io) {
            Step::Ask(request) => {
                return Step::Ask(request);
            },
            Step::Done(false) => {
                return Step::Done(
                    Err(StoreError::Authenticator(AuthenticatorError::DoesNotExist)),
                );
            },
            Step::Done(true) => {},
        }
        let uid = match save_record(Record::Authenticator(a.clone()), io) {
            Step::Ask(request) => {
                return Step::Ask(request);
            },
            Step::Done(Err(e)) => {
                return Step::Done(Err(e));
            },
            Step::Done(Ok(uid)) => uid,
        };
        let linked = match uid {
            Some(uid) => a.clone().uid(uid),
            None => a.clone(),
        };
        Self::link(&linked, kind, claim, entity, identifier, guid.as_str(), fields, io)
    }

    /// The projection under which the stored identifier is read.
    pub fn typed_fields() -> (r: Vec<Field>)
        ensures
            r.deep_view() == typed_fields(),
    {
        let mut fields: Vec<Field> = Vec::new();
        fields.push(Field::scalar(Scalar::Uid));
        fields.push(Field::scalar(Scalar::IdentifierType));
        fields
    }

    /// Creates the authenticator `a` of an entity, an identifier and a
    /// system that exist, links it to them, and reads it back under
    /// `fields`. Its type must be the one that the policy pairs with the
    /// type that the store holds for the identifier, and the identifier
    /// must have no authenticator of that type yet.
    pub fn create(a: &Authenticator, fields: &Vec<Field>, io: &mut Replay) -> (r: Step<
        Result<Option<Authenticator>, StoreError>,
    >)
        ensures
            (r@, final(io)@) == create(a@, fields.deep_view(), old(io)@),
    {
        let kind = match a.authenticator_type {
            None => {
                return Step::Done(
                    Err(StoreError::Authenticator(AuthenticatorError::missing("authenticator_type"))),
                );
            },
            Some(kind) => kind,
        };
        let claim = match &a.identifiers {
            None => {
                return Step::Done(
                    Err(StoreError::Authenticator(AuthenticatorError::missing("identifiers"))),
                );
            },
            Some(list) => {
                if list.len() == 0 {
                    return Step::Done(
                        Err(StoreError::Authenticator(AuthenticatorError::missing("identifiers"))),
                    );
                }
                &list[0]
            },
        };
        match claim.identifier_type {
            None => {
                return Step::Done(Err(StoreError::Authenticator(AuthenticatorError::Empty)));
            },
            Some(claimed) => {
                if !Self::_validate_authenticator_type(&kind, &claimed) {
                    return Step::Done(
                        Err(StoreError::Authenticator(AuthenticatorError::AuthTypeIdentTypeMisMatch)),
                    );
                }
            },
        }
        let entity = match &a.entities {
            None => {
                return Step::Done(
                    Err(StoreError::Authenticator(AuthenticatorError::missing("entities"))),
                );
            },
            Some(list) => {
                if list.len() == 0 {
                    return Step::Done(
                        Err(StoreError::Authenticator(AuthenticatorError::missing("entities"))),
                    );
                }
                match &list[0].uid {
                    None => {
                        return Step::Done(
                            Err(StoreError::Authenticator(AuthenticatorError::Empty)),
                        );
                    },
                    Some(uid) => uid,
                }
            },
        };
        match EntityStore::is_known(entity.as_str(), io) {
            Step::Ask(request) => {
                return Step::Ask(request);
            },
            Step::Done(false) => {
                return Step::Done(
                    Err(StoreError::Authenticator(AuthenticatorError::DoesNotExist)),
                );
            },
            Step::Done(true) => {},
        }
        let identifier = match &claim.uid {
            None => {
                return Step::Done(Err(StoreError::Authenticator(AuthenticatorError::Empty)));
            },
            Some(uid) => uid,
        };
        let typed = Self::typed_fields();
        let stored = match IdentifierStore::find_by_uid(identifier.as_str(), &typed, io) {
            Step::Ask(request) => {
                return Step::Ask(request);
            },
            Step::Done(Ok(Some(i))) => i,
            Step::Done(_) => {
                return Step::Done(
                    Err(StoreError::Authenticator(AuthenticatorError::DoesNotExist)),
                );
            },
        };
        let paired = match stored.identifier_type {
            Some(t) => Self::_validate_authenticator_type(&kind, &t),
            None => false,
        };
        if !paired {
            return Step::Done(
                Err(StoreError::Authenticator(AuthenticatorError::AuthTypeIdentTypeMisMatch)),
            );
        }
        Self::enrol(a, kind, claim, entity.as_str(), identifier.as_str(), fields, io)
    }

    /// Whether `list` holds the system with the guid `guid`.
    pub fn scoped(list: &Vec<System>, guid: &str) -> (r: bool)
        ensures
            r == scoped(crate::system::views_of(list@), guid@),
    {
        let key = guid.to_string();
        let mut k: usize = 0;
        while k < list.len()
            invariant
                k <= list.len(),
                key@ == guid@,
                forall|j: int|
                    0 <= j < k ==> (#[trigger] crate::system::views_of(list@)[j]).guid != Some(
                        guid@,
                    ),
            decreases list.len() - k,
        {
            let hit = match &list[k].guid {
                Some(g) => *g == key,
                None => false,
            };
            proof {
                assert(crate::system::views_of(list@)[k as int] == list@[k as int]@);
            }
            if hit {
                return true;
            }
            k += 1;
        }
        false
    }

    /// Whether `list` holds an identifier of the type `claim` and the value
    /// `value`.
    pub fn claimed(list: &Vec<Identifier>, claim: IdentifierType, value: &str) -> (r: bool)
        ensures
            r == claimed(crate::identifier::views_of(list@), claim, value@),
    {
        let key = value.to_string();
        let mut k: usize = 0;
        while k < list.len()
            invariant
                k <= list.len(),
                key@ == value@,
                forall|j: int|
                    0 <= j < k ==> !((#[trigger] crate::identifier::views_of(
                        list@,
                    )[j]).identifier_type == Some(claim) && crate::identifier::views_of(
                        list@,
                    )[j].value == Some(value@)),
            decreases list.len() - k,
        {
            let typed = match list[k].identifier_type {
                Some(t) => t == claim,
                None => false,
            };
            let valued = match &list[k].value {
                Some(v) => *v == key,
                None => false,
            };
            proof {
                assert(crate::identifier::views_of(list@)[k as int] == list@[k as int]@);
            }
            if typed && valued {
                return true;
            }
            k += 1;
        }
        false
    }

    /// Whether `row` answers what a login asks.
    pub fn answers(
        row: &Authenticator,
        kind: AuthenticatorType,
        claim: IdentifierType,
        value: &str,
        guid: &str,
    ) -> (r: bool)
        ensures
            r == answers(row@, (Asked { kind, claim, value: value@, guid: guid@ })),
    {
        let typed = match row.authenticator_type {
            Some(t) => t == kind,
            None => false,
        };
        let claimed = match &row.identifiers {
            None => false,
            Some(list) => Self::claimed(list, claim, value),
        };
        let scoped = match &row.systems {
            None => false,
            Some(list) => Self::scoped(list, guid),
        };
        typed && claimed && scoped
    }

    /// The stored hash that a login is checked against.
    pub fn stored_hash(
        rows: &AuthenticatorRoot,
        kind: AuthenticatorType,
        claim: IdentifierType,
        value: &str,
        guid: &str,
    ) -> (r: Result<Option<String>, StoreError>)
        ensures
            match stored_hash(rows@, (Asked { kind, claim, value: value@, guid: guid@ })) {
                Ok(hash) => r matches Ok(x) && x.deep_view() == hash,
                Err(e) => r matches Err(x) && x@ == e,
            },
    {
        if rows.authenticator.len() == 0 {
            return Ok(None);
        }
        let row = &rows.authenticator[0];
        if !Self::answers(row, kind, claim, value, guid) {
            return Ok(None);
        }
        match &row.value {
            Some(hash) => Ok(Some(hash.clone())),
            None => Err(StoreError::CorruptData),
        }
    }

    /// The verdict that the password primitive's answer comes to: the
    /// answer itself, or the error [`StoreError::CorruptData`] where the
    /// primitive could not read the stored hash.
    pub fn judged(outcome: Result<bool, argon2::Error>) -> (r: Result<bool, StoreError>)
        ensures
            match outcome {
                Ok(same) => r matches Ok(x) && x == same,
                Err(_) => r matches Err(e) && e@ == StoreErrorView::CorruptData,
            },
    {
        match outcome {
            Ok(same) => Ok(same),
            Err(_) => Err(StoreError::CorruptData),
        }
    }

    /// Checks the secret of the candidate against the rows that the login
    /// query returned.
    pub fn check(
        rows: &AuthenticatorRoot,
        kind: AuthenticatorType,
        claim: IdentifierType,
        value: &str,
        guid: &str,
        secret: &Option<String>,
    ) -> (r: Result<bool, StoreError>)
        ensures
            match verdict(
                rows@,
                (Asked { kind, claim, value: value@, guid: guid@ }),
                secret.deep_view(),
                |hash: Seq<char>, secret: Seq<char>| hash_matches(hash, secret),
            ) {
                Ok(same) => r matches Ok(x) && x == same,
                Err(e) => r matches Err(x) && x@ == e,
            },
    {
        match Self::stored_hash(rows, kind, claim, value, guid) {
            Err(e) => Err(e),
            Ok(None) => Ok(false),
            Ok(Some(hash)) => match secret {
                None => Err(StoreError::Authenticator(AuthenticatorError::Empty)),
                Some(secret) => Self::judged(verify_encoded(hash.as_str(), secret.as_str())),
            },
        }
    }

    /// Whether the candidate authenticator `a`, which carries a type and a
    /// secret in the clear, proves the identifier of the type and value of
    /// `i` to the system with the guid of `s`.
    pub fn login(a: &Authenticator, i: &Identifier, s: &System, io: &mut Replay) -> (r: Step<
        Result<bool, StoreError>,
    >)
        ensures
            (r@, final(io)@) == login(a@, i@, s@, old(io)@),
    {
        let kind = match a.authenticator_type {
            None => {
                return Step::Done(
                    Err(StoreError::Authenticator(AuthenticatorError::Empty)),
                );
            },
            Some(kind) => kind,
        };
        let claim = match i.identifier_type {
            None => {
                return Step::Done(
                    Err(StoreError::Authenticator(AuthenticatorError::Empty)),
                );
            },
            Some(claim) => claim,
        };
        let value = match &i.value {
            None => {
                return Step::Done(
                    Err(StoreError::Authenticator(AuthenticatorError::Empty)),
                );
            },
            Some(value) => value,
        };
        let guid = match &s.guid {
            None => {
                return Step::Done(Err(StoreError::Authenticator(AuthenticatorError::Empty)));
            },
            Some(guid) => guid,
        };
        let none: Vec<Field> = Vec::new();
        assert(none.deep_view() =~= Seq::empty());
        let text = match select(LOGIN, Kind::Authenticator, &none) {
            Err(e) => {
                return Step::Done(Err(e));
            },
            Ok(text) => text,
        };
        let mut vars: Vec<(String, String)> = Vec::new();
        vars.push((String::from_str("$auth_type"), kind.to_string()));
        vars.push((String::from_str("$ident_type"), claim.to_string()));
        vars.push((String::from_str("$ident_value"), value.clone()));
        vars.push((String::from_str("$sys_guid"), guid.clone()));
        assert(vars.deep_view() =~= seq![
            ("$auth_type"@, kind.text()),
            ("$ident_type"@, claim.text()),
            ("$ident_value"@, value@),
            ("$sys_guid"@, guid@),
        ]);
        let request = query(text, vars, Kind::Authenticator);
        let out = match io.peek() {
            None => {
                return Step::Ask(request);
            },
            Some(reply) => match reply {
                Reply::Authenticator(rows) => Self::check(
                    rows,
                    kind,
                    claim,
                    value.as_str(),
                    guid.as_str(),
                    &a.value,
                ),
                Reply::Failed(failure) => Err(failure.error()),
                _ => Err(StoreError::Decode),
            },
        };
        io.advance();
        Step::Done(out)
    }
}

/// The script in which the store has found the authenticator `a` and
/// nothing else has been asked.
pub open spec fn found(a: AuthenticatorView) -> Script {
    Script { log: seq![ReplyView::Authenticator(seq![a])], at: 0 }
}

/// The step that asks to save the authenticator `a`.
pub open spec fn save_of(a: AuthenticatorView) -> Found<AuthenticatorView> {
    StepView::Ask(RequestView::Save(RecordView::Authenticator(a)))
}

/// The type of claim that a type of credential proves.
pub open spec fn claim_of(a: AuthenticatorType) -> IdentifierType {
    match a {
        AuthenticatorType::phone_password => IdentifierType::phone,
        AuthenticatorType::public_key_authentication => IdentifierType::public_key,
        AuthenticatorType::email_password => IdentifierType::email,
        AuthenticatorType::username_password => IdentifierType::username,
    }
}

/// The type of credential that proves a type of claim.
pub open spec fn credential_of(i: IdentifierType) -> AuthenticatorType {
    match i {
        IdentifierType::phone => AuthenticatorType::phone_password,
        IdentifierType::public_key => AuthenticatorType::public_key_authentication,
        IdentifierType::email => AuthenticatorType::email_password,
        IdentifierType::username => AuthenticatorType::username_password,
    }
}

/// The policy is one to one: it pairs each type of credential with exactly
/// one type of claim, and each type of claim with exactly one type of
/// credential.
pub proof fn policy_is_one_to_one()
    ensures
        forall|a: AuthenticatorType| pairs(a, #[trigger] claim_of(a)),
        forall|i: IdentifierType| pairs(#[trigger] credential_of(i), i),
        forall|a: AuthenticatorType, i: IdentifierType| #[trigger]
            pairs(a, i) ==> i == claim_of(a) && a == credential_of(i),
{
}

/// No authenticator is created for an identifier whose type the policy
/// does not pair with its own: whatever the store would answer, `create`
/// fails with `AuthTypeIdentTypeMisMatch`, whose class is `TypeMismatch`,
/// and asks for nothing.
pub proof fn create_fails_on_mismatched_types(
    a: AuthenticatorView,
    fields: Seq<FieldView>,
    s: Script,
)
    requires
        a.authenticator_type.is_some(),
        a.identifiers.is_some(),
        a.identifiers.unwrap().len() > 0,
        a.identifiers.unwrap()[0].identifier_type.is_some(),
        !pairs(a.authenticator_type.unwrap(), a.identifiers.unwrap()[0].identifier_type.unwrap()),
    ensures
        create(a, fields, s) == (
            StepView::<Result<Option<AuthenticatorView>, StoreErrorView>>::Done(
                Err(
                    StoreErrorView::Authenticator(
                        AuthenticatorErrorView::AuthTypeIdentTypeMisMatch,
                    ),
                ),
            ),
            s,
        ),
        StoreErrorView::Authenticator(AuthenticatorErrorView::AuthTypeIdentTypeMisMatch).kind()
            == ErrorKind::TypeMismatch,
{
}

/// An authenticator is created for an entity, an identifier and a system
/// that exist only. When the store finds no entity with the uid that the
/// record names, or finds the entity and no identifier with the uid that
/// the record names, `create` fails with `DoesNotExist`, whose class is
/// `NotFound`, whether or not the record has a value and a system. When
/// the store finds both and no authenticator of the type on the
/// identifier, and no system with the guid that the record names, `create`
/// fails with `DoesNotExist` too. In each case it has asked to save
/// nothing.
pub proof fn create_fails_on_unknown_references(
    a: AuthenticatorView,
    fields: Seq<FieldView>,
    owners: Seq<crate::entity::EntityView>,
    claims: Seq<IdentifierView>,
    others: Seq<AuthenticatorView>,
    rest: Seq<ReplyView>,
)
    requires
        required(a) is Ok,
        owner(a) is Ok,
        owners.len() > 0,
        claims.len() > 0,
        holds_pair(required(a)->Ok_0.0, claims[0]),
    ensures
        ({
            let log = seq![ReplyView::Entity(Seq::empty())] + rest;
            renders(crate::entity_store::BY_UID@, Kind::Entity, uid_only()) ==> create(
                a,
                fields,
                Script { log, at: 0 },
            ) == (missing(), Script { log, at: 1 })
        }),
        ({
            let log = seq![ReplyView::Entity(owners), ReplyView::Identifier(Seq::empty())] + rest;
            required(a)->Ok_0.1.uid.is_some() && renders(
                crate::entity_store::BY_UID@,
                Kind::Entity,
                uid_only(),
            ) && renders(crate::identifier_store::BY_UID@, Kind::Identifier, typed_fields())
                ==> create(a, fields, Script { log, at: 0 }) == (missing(), Script { log, at: 2 })
        }),
        ({
            let log = seq![
                ReplyView::Entity(owners),
                ReplyView::Identifier(claims),
                ReplyView::Authenticator(others),
                ReplyView::System(Seq::empty()),
            ] + rest;
            checked(a) is Ok && (forall|k: int|
                0 <= k < others.len() ==> !fits(
                    #[trigger] others[k],
                    checked(a)->Ok_0.kind,
                    checked(a)->Ok_0.identifier,
                )) && renders(crate::entity_store::BY_UID@, Kind::Entity, uid_only()) && renders(
                crate::identifier_store::BY_UID@,
                Kind::Identifier,
                typed_fields(),
            ) && renders(BY_TYPE_IDENTIFIER@, Kind::Authenticator, uid_only()) && renders(
                crate::system_store::BY_GUID@,
                Kind::System,
                uid_only(),
            ) ==> create(a, fields, Script { log, at: 0 }) == (missing(), Script { log, at: 4 })
        }),
        StoreErrorView::Authenticator(AuthenticatorErrorView::DoesNotExist).kind()
            == ErrorKind::NotFound,
{
    if checked(a) is Ok {
        let to = checked(a)->Ok_0;
        proving_finds_the_first(others, to.kind, to.identifier, 0);
    }
}

/// The policy is tested on the type that the store holds for the
/// identifier, not only on the type that the record gives. When the store
/// finds the entity, and the identifier with a type that the policy does
/// not pair with the record's, or with no type, `create` fails with
/// `AuthTypeIdentTypeMisMatch`, whose class is `TypeMismatch`, whatever type
/// the record gives for the identifier, and has asked to save nothing.
pub proof fn create_fails_on_mismatched_stored_type(
    a: AuthenticatorView,
    fields: Seq<FieldView>,
    owners: Seq<crate::entity::EntityView>,
    claims: Seq<IdentifierView>,
    rest: Seq<ReplyView>,
)
    requires
        required(a) is Ok,
        owner(a) is Ok,
        required(a)->Ok_0.1.uid.is_some(),
        claims.len() > 0,
        !holds_pair(required(a)->Ok_0.0, claims[0]),
        owners.len() > 0,
    ensures
        ({
            let log = seq![ReplyView::Entity(owners), ReplyView::Identifier(claims)] + rest;
            renders(crate::entity_store::BY_UID@, Kind::Entity, uid_only()) && renders(
                crate::identifier_store::BY_UID@,
                Kind::Identifier,
                typed_fields(),
            ) ==> create(a, fields, Script { log, at: 0 }) == (
                StepView::<Result<Option<AuthenticatorView>, StoreErrorView>>::Done(
                    Err(
                        StoreErrorView::Authenticator(
                            AuthenticatorErrorView::AuthTypeIdentTypeMisMatch,
                        ),
                    ),
                ),
                Script { log, at: 2 },
            )
        }),
{
}

/// A lookup by type and identifier returns a row of that identifier or
/// none: the row that `proving_from` gives fits the type and carries the
/// identifier, and there is none exactly when no row from `from` on does.
pub proof fn proving_finds_the_first(
    rows: Seq<AuthenticatorView>,
    kind: AuthenticatorType,
    uid: Seq<char>,
    from: int,
)
    requires
        0 <= from,
    ensures
        proving_from(rows, kind, uid, from) matches Some(row) ==> fits(row, kind, uid),
        proving_from(rows, kind, uid, from).is_none() <==> forall|k: int|
            from <= k < rows.len() ==> !fits(#[trigger] rows[k], kind, uid),
    decreases rows.len() - from,
{
    if from < rows.len() && !fits(rows[from], kind, uid) {
        proving_finds_the_first(rows, kind, uid, from + 1);
    }
}

/// What a lookup by type and identifier finds is an authenticator of that
/// identifier: when the lookup ends with a record, the identifier is among
/// the identifiers of the record, and the record's type, if it has one, is
/// the type asked for.
pub proof fn lookup_returns_the_key(
    kind: AuthenticatorType,
    i: IdentifierView,
    fields: Seq<FieldView>,
    s: Script,
)
    ensures
        find_by_type_identifier(kind, i, fields, s).0 matches StepView::Done(Ok(Some(row)))
            ==> i.uid.is_some() && fits(row, kind, i.uid.unwrap()),
{
    if i.uid.is_some() && s.answered() {
        if let ReplyView::Authenticator(rows) = s.reply() {
            proving_finds_the_first(rows, kind, i.uid.unwrap(), 0);
        }
    }
}

/// An identifier has one authenticator of a type. When the store finds the
/// entity and the identifier, and an authenticator of the record's type
/// that carries the identifier, `create` fails with `AuthenticatorExists`,
/// whose class is `AlreadyExists`, whether or not the record has a value
/// and a system, and has asked to save nothing.
pub proof fn create_fails_on_taken_type(
    a: AuthenticatorView,
    fields: Seq<FieldView>,
    owners: Seq<crate::entity::EntityView>,
    claims: Seq<IdentifierView>,
    rows: Seq<AuthenticatorView>,
    rest: Seq<ReplyView>,
)
    requires
        required(a) is Ok,
        owner(a) is Ok,
        required(a)->Ok_0.1.uid.is_some(),
        owners.len() > 0,
        claims.len() > 0,
        holds_pair(required(a)->Ok_0.0, claims[0]),
        exists|k: int|
            0 <= k < rows.len() && fits(
                #[trigger] rows[k],
                required(a)->Ok_0.0,
                required(a)->Ok_0.1.uid.unwrap(),
            ),
    ensures
        ({
            let log = seq![
                ReplyView::Entity(owners),
                ReplyView::Identifier(claims),
                ReplyView::Authenticator(rows),
            ] + rest;
            renders(crate::entity_store::BY_UID@, Kind::Entity, uid_only()) && renders(
                crate::identifier_store::BY_UID@,
                Kind::Identifier,
                typed_fields(),
            ) && renders(BY_TYPE_IDENTIFIER@, Kind::Authenticator, uid_only()) ==> create(
                a,
                fields,
                Script { log, at: 0 },
            ) == (
                StepView::<Result<Option<AuthenticatorView>, StoreErrorView>>::Done(
                    Err(StoreErrorView::Authenticator(AuthenticatorErrorView::AuthenticatorExists)),
                ),
                Script { log, at: 3 },
            )
        }),
        StoreErrorView::Authenticator(AuthenticatorErrorView::AuthenticatorExists).kind()
            == ErrorKind::AlreadyExists,
{
    proving_finds_the_first(rows, required(a)->Ok_0.0, required(a)->Ok_0.1.uid.unwrap(), 0);
}

/// A record that lacks its value or its system is refused only after the
/// lookups have found nothing against it, and before anything is saved.
/// When the store finds the entity and the identifier, and no
/// authenticator of the type on the identifier, `create` fails with
/// `EmptyField` for a record without a value, and with what [`tenant`]
/// reports for a record with a value and without a system or its guid.
pub proof fn create_fails_on_incomplete_record(
    a: AuthenticatorView,
    fields: Seq<FieldView>,
    owners: Seq<crate::entity::EntityView>,
    claims: Seq<IdentifierView>,
    others: Seq<AuthenticatorView>,
    rest: Seq<ReplyView>,
)
    requires
        required(a) is Ok,
        owner(a) is Ok,
        required(a)->Ok_0.1.uid.is_some(),
        owners.len() > 0,
        claims.len() > 0,
        holds_pair(required(a)->Ok_0.0, claims[0]),
        forall|k: int|
            0 <= k < others.len() ==> !fits(
                #[trigger] others[k],
                required(a)->Ok_0.0,
                required(a)->Ok_0.1.uid.unwrap(),
            ),
        a.value.is_none() || tenant(a) is Err,
    ensures
        ({
            let log = seq![
                ReplyView::Entity(owners),
                ReplyView::Identifier(claims),
                ReplyView::Authenticator(others),
            ] + rest;
            let lack = if a.value.is_none() {
                StoreErrorView::Authenticator(AuthenticatorErrorView::EmptyField("value"@))
            } else {
                tenant(a)->Err_0
            };
            renders(crate::entity_store::BY_UID@, Kind::Entity, uid_only()) && renders(
                crate::identifier_store::BY_UID@,
                Kind::Identifier,
                typed_fields(),
            ) && renders(BY_TYPE_IDENTIFIER@, Kind::Authenticator, uid_only()) ==> create(
                a,
                fields,
                Script { log, at: 0 },
            ) == (
                StepView::<Result<Option<AuthenticatorView>, StoreErrorView>>::Done(Err(lack)),
                Script { log, at: 3 },
            )
        }),
{
    proving_finds_the_first(others, required(a)->Ok_0.0, required(a)->Ok_0.1.uid.unwrap(), 0);
}

/// Whether every query of a creation that is read back under `fields`
/// can be made.
pub open spec fn queries_render(fields: Seq<FieldView>) -> bool {
    &&& renders(crate::entity_store::BY_UID@, Kind::Entity, uid_only())
    &&& renders(crate::entity_store::BY_UID@, Kind::Entity, uid_with(Kind::Authenticator))
    &&& renders(crate::identifier_store::BY_UID@, Kind::Identifier, typed_fields())
    &&& renders(crate::identifier_store::BY_UID@, Kind::Identifier, uid_only())
    &&& renders(crate::identifier_store::BY_UID@, Kind::Identifier, uid_with(Kind::Authenticator))
    &&& renders(crate::system_store::BY_GUID@, Kind::System, uid_only())
    &&& renders(crate::system_store::BY_GUID@, Kind::System, keys_with(Kind::Authenticator))
    &&& renders(BY_UID@, Kind::Authenticator, uid_only())
    &&& renders(BY_UID@, Kind::Authenticator, uid_with(Kind::System))
    &&& renders(BY_UID@, Kind::Authenticator, uid_with(Kind::Identifier))
    &&& renders(BY_TYPE_IDENTIFIER@, Kind::Authenticator, uid_only())
    &&& renders(BY_TYPE_IDENTIFIER@, Kind::Authenticator, fields)
    &&& !selects(fields, Kind::Identifier)
}

/// An authenticator that is new to its identifier is created. When the
/// store finds the entity, the identifier with the type that the policy
/// asks for, no authenticator of the type on the identifier, and the
/// system; saves the record under a uid; finds and saves each record of
/// the three links; and then finds an authenticator of the type on the
/// identifier, `create` returns that authenticator.
pub proof fn create_succeeds_on_new_credential(
    a: AuthenticatorView,
    fields: Seq<FieldView>,
    owners: Seq<crate::entity::EntityView>,
    claims: Seq<IdentifierView>,
    tenants: Seq<SystemView>,
    others: Seq<AuthenticatorView>,
    uids: crate::db::Vars,
    held: Seq<AuthenticatorView>,
    rows: Seq<AuthenticatorView>,
)
    requires
        checked(a) is Ok,
        owners.len() > 0,
        claims.len() > 0,
        holds_pair(checked(a)->Ok_0.kind, claims[0]),
        tenants.len() > 0,
        forall|k: int|
            0 <= k < others.len() ==> !fits(
                #[trigger] others[k],
                checked(a)->Ok_0.kind,
                checked(a)->Ok_0.identifier,
            ),
        uids.len() > 0,
        held.len() > 0,
        proving(rows, checked(a)->Ok_0.kind, checked(a)->Ok_0.identifier).is_some(),
    ensures
        ({
            let log = seq![
                ReplyView::Entity(owners),
                ReplyView::Identifier(claims),
                ReplyView::Authenticator(others),
                ReplyView::System(tenants),
                ReplyView::Saved(uids),
                ReplyView::Entity(owners),
                ReplyView::Saved(Seq::empty()),
                ReplyView::Entity(owners),
                ReplyView::System(tenants),
                ReplyView::Saved(Seq::empty()),
                ReplyView::Authenticator(held),
                ReplyView::Saved(Seq::empty()),
                ReplyView::Authenticator(held),
                ReplyView::System(tenants),
                ReplyView::Identifier(claims),
                ReplyView::Saved(Seq::empty()),
                ReplyView::Authenticator(held),
                ReplyView::Saved(Seq::empty()),
                ReplyView::Authenticator(held),
                ReplyView::Identifier(claims),
                ReplyView::Authenticator(rows),
            ];
            queries_render(fields) ==> create(a, fields, Script { log, at: 0 }) == (
                StepView::<Result<Option<AuthenticatorView>, StoreErrorView>>::Done(
                    Ok(proving(rows, checked(a)->Ok_0.kind, checked(a)->Ok_0.identifier)),
                ),
                Script { log, at: 21 },
            ) && create(
                a,
                fields,
                Script { log: log.take(4), at: 0 },
            ).0 == save_of(a)
        }),
{
    let to = checked(a)->Ok_0;
    proving_finds_the_first(others, to.kind, to.identifier, 0);
}

/// A lookup that matches nothing finds nothing, and that is no error: when
/// the store answers with no rows, each lookup ends with none.
pub proof fn lookups_report_absence(
    key: Seq<char>,
    authenticator_type: AuthenticatorType,
    i: IdentifierView,
    fields: Seq<FieldView>,
    s: Script,
)
    requires
        s.answered(),
        s.reply() == ReplyView::Authenticator(Seq::empty()),
        i.uid.is_some(),
        !selects(fields, Kind::Identifier),
    ensures
        renders(BY_UID@, Kind::Authenticator, fields) ==> find_by_uid(key, fields, s) == (
            StepView::<Result<Option<AuthenticatorView>, StoreErrorView>>::Done(Ok(None)),
            s.next(),
        ),
        renders(BY_TYPE_IDENTIFIER@, Kind::Authenticator, fields) ==> find_by_type_identifier(
            authenticator_type,
            i,
            fields,
            s,
        ) == (
            StepView::<Result<Option<AuthenticatorView>, StoreErrorView>>::Done(Ok(None)),
            s.next(),
        ),
{
}

/// An edge is appended, whether or not it is there already. When the store
/// finds the authenticator `a`, each `associate` asks to save `a` with the
/// related record after the edges it had; so when the store finds what was
/// saved and the operation runs again, the edge stands twice at the end.
pub proof fn associate_appends(
    uid: Seq<char>,
    a: AuthenticatorView,
    i: IdentifierView,
    sys: SystemView,
    fields: Seq<FieldView>,
)
    ensures
        ({
            let once = AuthenticatorView { systems: Some(edges(a.systems).push(sys)), ..a };
            let twice = AuthenticatorView {
                systems: Some(edges(a.systems).push(sys).push(sys)),
                ..a
            };
            renders(BY_UID@, Kind::Authenticator, uid_with(Kind::System)) ==> {
                &&& associate_system(uid, sys, fields, found(a)).0 == save_of(once)
                &&& associate_system(uid, sys, fields, found(once)).0 == save_of(twice)
            }
        }),
        ({
            let once = AuthenticatorView { identifiers: Some(edges(a.identifiers).push(i)), ..a };
            let twice = AuthenticatorView {
                identifiers: Some(edges(a.identifiers).push(i).push(i)),
                ..a
            };
            renders(BY_UID@, Kind::Authenticator, uid_with(Kind::Identifier)) ==> {
                &&& associate_identifier(uid, i, fields, found(a)).0 == save_of(once)
                &&& associate_identifier(uid, i, fields, found(once)).0 == save_of(twice)
            }
        }),
{
}

/// Whether the rows that the login query returned hold a stored hash that
/// the candidate's secret can be checked against: there is a row, it
/// answers what the login asks, and it has a value.
pub open spec fn checkable(rows: Seq<AuthenticatorView>, q: Asked) -> bool {
    rows.len() > 0 && answers(rows[0], q) && rows[0].value.is_some()
}

/// The verdict is `true` exactly when there is a stored hash to check
/// against and the password primitive finds the secret to match it. It is
/// `false` exactly when no authenticator was found, or the one found is of
/// another type, another identifier or another system than asked for, or
/// the primitive finds that the secret does not match. Everything else is
/// an error, never a rejection.
pub proof fn verdict_accepts_exactly(
    rows: Seq<AuthenticatorView>,
    q: Asked,
    secret: Option<Seq<char>>,
    matches: spec_fn(Seq<char>, Seq<char>) -> Option<bool>,
)
    ensures
        verdict(rows, q, secret, matches) == Ok::<bool, StoreErrorView>(true) <==> checkable(
            rows,
            q,
        ) && secret.is_some() && matches(rows[0].value.unwrap(), secret.unwrap()) == Some(true),
        verdict(rows, q, secret, matches) == Ok::<bool, StoreErrorView>(false) <==> rows.len()
            == 0 || !answers(rows[0], q) || (checkable(rows, q) && secret.is_some() && matches(
            rows[0].value.unwrap(),
            secret.unwrap(),
        ) == Some(false)),
        verdict(rows, q, secret, matches) is Err <==> rows.len() > 0 && answers(rows[0], q) && (
        rows[0].value.is_none() || secret.is_none() || matches(
            rows[0].value.unwrap(),
            secret.unwrap(),
        ).is_none()),
{
}

/// A login ends with the first answer of the store, and is accepted
/// exactly when the store returned an authenticator of the candidate's
/// type, that authenticator carries the identifier of the candidate's type
/// and value and the system with the guid asked for, and the stored hash
/// was made of the candidate's secret. Without such an authenticator, or
/// with another secret, the login is rejected; that is no error.
pub proof fn login_accepts_exactly(
    a: AuthenticatorView,
    i: IdentifierView,
    sys: SystemView,
    rows: Seq<AuthenticatorView>,
    rest: Seq<ReplyView>,
)
    requires
        candidates(a, i, sys) is Ok,
        a.value.is_some(),
    ensures
        ({
            let s = Script { log: seq![ReplyView::Authenticator(rows)] + rest, at: 0 };
            let q = candidates(a, i, sys)->Ok_0;
            let accepted = StepView::<Result<bool, StoreErrorView>>::Done(Ok(true));
            let rejected = StepView::<Result<bool, StoreErrorView>>::Done(Ok(false));
            renders(LOGIN@, Kind::Authenticator, Seq::empty()) ==> {
                &&& login(a, i, sys, s).0 is Done
                &&& login(a, i, sys, s).1 == s.next()
                &&& login(a, i, sys, s).0 == accepted <==> checkable(rows, q) && hash_matches(
                    rows[0].value.unwrap(),
                    a.value.unwrap(),
                ) == Some(true)
                &&& login(a, i, sys, s).0 == rejected <==> rows.len() == 0 || !answers(
                    rows[0],
                    q,
                ) || (checkable(rows, q) && hash_matches(
                    rows[0].value.unwrap(),
                    a.value.unwrap(),
                ) == Some(false))
            }
        }),
{
}

} // verus!
