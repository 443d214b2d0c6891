//! The store of entities.

use vstd::prelude::*;
use vstd::string::*;
use crate::authenticator::{Authenticator, AuthenticatorView};
use crate::db::{
    bind, bind2, query, save_record, saved, Found, Record, RecordView, Replay, Reply, ReplyView,
    Request, RequestView, Script, Step, StepView, Vars,
};
use crate::entity::{Entity, EntityError, EntityErrorView, EntityRoot, EntityView};
use crate::error::{ErrorKind, StoreError, StoreErrorView};
use crate::identifier::{Identifier, IdentifierType, IdentifierView};
use crate::identifier_store::IdentifierStore;
use crate::projection::{
    select_uid, select_uid_with, uid_only, uid_with, Field, FieldView, Kind, Scalar,
};
use crate::record::{edges, first_of};
use crate::scope::{Scope, ScopeView};
use crate::system::{System, SystemView};
use crate::template::{query_text, renders, select};

verus! {

/// The operations on entities.
pub struct EntityStore {}

/// The entity with a given uid.
pub const BY_UID: &'static str = r#"
query entity($uid: string) {
    entity(func: uid($uid)) @filter(eq(dgraph.type, "Entity")) {
        {{#each fields}}
        {{this}}
        {{/each}}
    }
}
"#;

/// The entity with a given sid.
pub const BY_SID: &'static str = r#"
query entity($id: string) {
    entity(func: eq(sid, $id)) {
        {{#each fields}}
        {{this}}
        {{/each}}
    }
}
"#;

/// The identifiers of a given type whose value matches a regular
/// expression, each with its type, its value and its entities.
pub const BY_IDENTIFIER: &'static str = r#"
query identifier($type: string, $value: string) {
    identifier(func: regexp(value, $value)) @filter(eq(identifier_type, $type) AND eq(dgraph.type, "Identifier")) {
        identifier_type
        value
        entity {
            {{#each fields}}
            {{this}}
            {{/each}}
        }
    }
}
"#;

/// The first entity of the answer to `request`: the request, while it is
/// unanswered; then the first row, or none where there is no row. Any reply
/// other than rows of entities is a fault.
pub open spec fn first(request: RequestView, s: Script) -> (Found<EntityView>, Script) {
    if !s.answered() {
        (StepView::Ask(request), s)
    } else {
        (
            StepView::Done(
                match s.reply() {
                    ReplyView::Entity(rows) => Ok(first_of(rows)),
                    ReplyView::Failed(failure) => Err(failure.fault()),
                    _ => Err(StoreErrorView::Decode),
                },
            ),
            s.next(),
        )
    }
}

/// What [`EntityStore::find_by_uid`] comes to in a script: an error where the
/// projection is not admitted or the query does not render; else the first
/// entity of the answer to the query, asked with `$uid` bound to the uid.
pub open spec fn find_by_uid(uid: Seq<char>, fields: Seq<FieldView>, s: Script) -> (
    Found<EntityView>,
    Script,
) {
    match query_text(BY_UID@, Kind::Entity, fields) {
        Err(e) => (StepView::Done(Err(e)), s),
        Ok(text) => first(
            RequestView::Query { text, vars: seq![("$uid"@, uid)], root: Kind::Entity },
            s,
        ),
    }
}

/// Whether a row does not contradict a sid: its sid, where the row has one,
/// is the sid asked for.
pub open spec fn agrees(row: EntityView, sid: Seq<char>) -> bool {
    row.sid matches Some(x) ==> x == sid
}

/// The first row from `from` on that agrees with the sid.
pub open spec fn matching_from(rows: Seq<EntityView>, sid: Seq<char>, from: int) -> Option<
    EntityView,
>
    decreases rows.len() - from,
{
    if from < 0 || from >= rows.len() {
        None
    } else if agrees(rows[from], sid) {
        Some(rows[from])
    } else {
        matching_from(rows, sid, from + 1)
    }
}

/// The first row that agrees with the sid.
pub open spec fn matching(rows: Seq<EntityView>, sid: Seq<char>) -> Option<EntityView> {
    matching_from(rows, sid, 0)
}

/// The projection that a lookup by sid is checked on: the uid and the sid.
pub open spec fn key_fields() -> Seq<FieldView> {
    seq![FieldView::Scalar(Scalar::Uid), FieldView::Scalar(Scalar::Sid)]
}

/// What [`EntityStore::find_by_sid`] comes to in a script: an error where the
/// projection is not admitted or the query does not render; else the query
/// is asked with `$id` bound to the sid, and the result is the first entity
/// of the answer that agrees with the sid. A row of another sid is passed
/// over.
pub open spec fn find_by_sid(sid: Seq<char>, fields: Seq<FieldView>, s: Script) -> (
    Found<EntityView>,
    Script,
) {
    match query_text(BY_SID@, Kind::Entity, fields) {
        Err(e) => (StepView::Done(Err(e)), s),
        Ok(text) => {
            let request = RequestView::Query {
                text,
                vars: seq![("$id"@, sid)],
                root: Kind::Entity,
            };
            if !s.answered() {
                (StepView::Ask(request), s)
            } else {
                (
                    StepView::Done(
                        match s.reply() {
                            ReplyView::Entity(rows) => Ok(matching(rows, sid)),
                            ReplyView::Failed(failure) => Err(failure.fault()),
                            _ => Err(StoreErrorView::Decode),
                        },
                    ),
                    s.next(),
                )
            }
        },
    }
}

/// The first entity of the identifier `row`: none where there is no
/// identifier, an error where the identifier names no entity.
pub open spec fn owner(row: Option<IdentifierView>) -> Result<Option<EntityView>, StoreErrorView> {
    match row {
        None => Ok(None),
        Some(i) => match i.entities {
            Some(list) if list.len() > 0 => Ok(Some(list[0])),
            _ => Err(StoreErrorView::Entity(EntityErrorView::Empty)),
        },
    }
}

/// What [`EntityStore::find_by_identifier`] comes to in a script. The query
/// is asked for rows of identifiers, with `$type` bound to the type and
/// `$value` to the pattern that matches the value and nothing else; the
/// projection selects from the entities of those rows. The result is the
/// [`owner`] of the first row that agrees with the type and the value; a
/// row of another type or value is passed over.
pub open spec fn find_by_identifier(
    identifier_type: IdentifierType,
    value: Seq<char>,
    fields: Seq<FieldView>,
    s: Script,
) -> (Found<EntityView>, Script) {
    match query_text(BY_IDENTIFIER@, Kind::Entity, fields) {
        Err(e) => (StepView::Done(Err(e)), s),
        Ok(text) => {
            let request = RequestView::Query {
                text,
                vars: seq![
                    ("$type"@, identifier_type.text()),
                    ("$value"@, crate::identifier_store::pattern(value)),
                ],
                root: Kind::Identifier,
            };
            if !s.answered() {
                (StepView::Ask(request), s)
            } else {
                (
                    StepView::Done(
                        match s.reply() {
                            ReplyView::Identifier(rows) => owner(
                                crate::identifier_store::matching(rows, identifier_type, value),
                            ),
                            ReplyView::Failed(failure) => Err(failure.fault()),
                            _ => Err(StoreErrorView::Decode),
                        },
                    ),
                    s.next(),
                )
            }
        },
    }
}

/// Whether an entity with the uid exists. A lookup that fails counts as
/// "does not exist": the check fails closed.
pub open spec fn is_known(uid: Seq<char>, s: Script) -> (StepView<bool>, Script) {
    let (step, s1) = find_by_uid(uid, uid_only(), s);
    match step {
        StepView::Ask(request) => (StepView::Ask(request), s1),
        StepView::Done(Ok(found)) => (StepView::Done(found.is_some()), s1),
        StepView::Done(Err(_)) => (StepView::Done(false), s1),
    }
}

/// The entity as `create` saves it: without its identifiers and
/// authenticators, which are linked when they are created themselves.
pub open spec fn bare(e: EntityView) -> EntityView {
    EntityView { identifiers: None, authenticators: None, ..e }
}

/// What [`EntityStore::create`] comes to in a script. The record must have a
/// sid. The sid is looked up, and the creation fails with `SidExistsError`
/// where an entity has it. The record must then have a display name and a
/// guid. It is saved [`bare`] and read back by its sid under `fields`. A
/// lookup or a save that fails ends the creation with that error.
pub open spec fn create(e: EntityView, fields: Seq<FieldView>, s: Script) -> (
    Found<EntityView>,
    Script,
) {
    match e.sid {
        None => (
            StepView::Done(Err(StoreErrorView::Entity(EntityErrorView::EmptyField("sid"@)))),
            s,
        ),
        Some(sid) => {
            let (taken, s1) = find_by_sid(sid, key_fields(), s);
            match taken {
                StepView::Ask(request) => (StepView::Ask(request), s1),
                StepView::Done(Err(e)) => (StepView::Done(Err(e)), s1),
                StepView::Done(Ok(Some(_))) => (
                    StepView::Done(Err(StoreErrorView::Entity(EntityErrorView::SidExistsError))),
                    s1,
                ),
                StepView::Done(Ok(None)) => {
                    if e.display_name.is_none() {
                        (
                            StepView::Done(
                                Err(
                                    StoreErrorView::Entity(
                                        EntityErrorView::EmptyField("display_name"@),
                                    ),
                                ),
                            ),
                            s1,
                        )
                    } else if e.guid.is_none() {
                        (
                            StepView::Done(
                                Err(StoreErrorView::Entity(EntityErrorView::EmptyField("guid"@))),
                            ),
                            s1,
                        )
                    } else {
                        let (kept, s2) = saved(RecordView::Entity(bare(e)), s1);
                        match kept {
                            StepView::Ask(request) => (StepView::Ask(request), s2),
                            StepView::Done(Err(e)) => (StepView::Done(Err(e)), s2),
                            StepView::Done(Ok(_)) => find_by_sid(sid, fields, s2),
                        }
                    }
                },
            }
        },
    }
}

/// What an `associate` operation does once it knows what to look for and
/// what to save: reads the entity with the given uid under `probe`; fails
/// where there is none; else saves what `link` makes of it, and reads the
/// entity again under `fields`.
pub open spec fn associate(
    uid: Seq<char>,
    probe: Seq<FieldView>,
    link: spec_fn(EntityView) -> EntityView,
    fields: Seq<FieldView>,
    s: Script,
) -> (Found<EntityView>, Script) {
    let (current, s1) = find_by_uid(uid, probe, s);
    match current {
        StepView::Ask(request) => (StepView::Ask(request), s1),
        StepView::Done(Err(e)) => (StepView::Done(Err(e)), s1),
        StepView::Done(Ok(None)) => (
            StepView::Done(Err(StoreErrorView::Entity(EntityErrorView::DoesNotExist))),
            s1,
        ),
        StepView::Done(Ok(Some(e))) => {
            let (kept, s2) = saved(RecordView::Entity(link(e)), s1);
            match kept {
                StepView::Ask(request) => (StepView::Ask(request), s2),
                StepView::Done(Err(e)) => (StepView::Done(Err(e)), s2),
                StepView::Done(Ok(_)) => find_by_uid(uid, fields, s2),
            }
        },
    }
}

/// What [`EntityStore::associate_identity`] comes to in a script: the
/// identifier is appended to the identifiers of the entity, as [`associate`]
/// says.
pub open spec fn associate_identity(
    uid: Seq<char>,
    i: IdentifierView,
    fields: Seq<FieldView>,
    s: Script,
) -> (Found<EntityView>, Script) {
    associate(
        uid,
        uid_with(Kind::Identifier),
        |e: EntityView| EntityView { identifiers: Some(edges(e.identifiers).push(i)), ..e },
        fields,
        s,
    )
}

/// What [`EntityStore::associate_authenticator`] comes to in a script: the
/// authenticator is appended to the authenticators of the entity, as
/// [`associate`] says.
pub open spec fn associate_authenticator(
    uid: Seq<char>,
    a: AuthenticatorView,
    fields: Seq<FieldView>,
    s: Script,
) -> (Found<EntityView>, Script) {
    associate(
        uid,
        uid_with(Kind::Authenticator),
        |e: EntityView| EntityView { authenticators: Some(edges(e.authenticators).push(a)), ..e },
        fields,
        s,
    )
}

/// What [`EntityStore::associate_system`] comes to in a script: the system is
/// appended to the systems of the entity, as [`associate`] says.
pub open spec fn associate_system(
    uid: Seq<char>,
    sys: SystemView,
    fields: Seq<FieldView>,
    s: Script,
) -> (Found<EntityView>, Script) {
    associate(
        uid,
        uid_with(Kind::System),
        |e: EntityView| EntityView { systems: Some(edges(e.systems).push(sys)), ..e },
        fields,
        s,
    )
}

/// What [`EntityStore::associate_scope`] comes to in a script: the scope is
/// appended to the scopes of the entity, as [`associate`] says.
pub open spec fn associate_scope(
    uid: Seq<char>,
    scope: ScopeView,
    fields: Seq<FieldView>,
    s: Script,
) -> (Found<EntityView>, Script) {
    associate(
        uid,
        uid_with(Kind::Scope),
        |e: EntityView| EntityView { scopes: Some(edges(e.scopes).push(scope)), ..e },
        fields,
        s,
    )
}

impl EntityStore {
    /// Sends `request` and takes the first entity of the answer.
    pub fn first(request: Request, io: &mut Replay) -> (r: Step<Result<Option<Entity>, StoreError>>)
        ensures
            (r@, final(io)@) == first(request@, old(io)@),
    {
        let out = match io.peek() {
            None => {
                return Step::Ask(request);
            },
            Some(reply) => match reply {
                Reply::Entity(rows) => Ok(rows.first()),
                Reply::Failed(failure) => Err(failure.error()),
                _ => Err(StoreError::Decode),
            },
        };
        io.advance();
        Step::Done(out)
    }

    /// The entity with the uid `uid`, or none.
    pub fn find_by_uid(uid: &str, fields: &Vec<Field>, io: &mut Replay) -> (r: Step<
        Result<Option<Entity>, StoreError>,
    >)
        ensures
            (r@, final(io)@) == find_by_uid(uid@, fields.deep_view(), old(io)@),
    {
        match select(BY_UID, Kind::Entity, fields) {
            Err(e) => Step::Done(Err(e)),
            Ok(text) => Self::first(query(text, bind("$uid", uid), Kind::Entity), io),
        }
    }

    /// The entity with the sid `sid`, or none.
    pub fn find_by_sid(sid: &str, fields: &Vec<Field>, io: &mut Replay) -> (r: Step<
        Result<Option<Entity>, StoreError>,
    >)
        ensures
            (r@, final(io)@) == find_by_sid(sid@, fields.deep_view(), old(io)@),
    {
        let text = match select(BY_SID, Kind::Entity, fields) {
            Err(e) => {
                return Step::Done(Err(e));
            },
            Ok(text) => text,
        };
        let request = query(text, bind("$id", sid), Kind::Entity);
        let out = match io.peek() {
            None => {
                return Step::Ask(request);
            },
            Some(reply) => match reply {
                Reply::Entity(rows) => Ok(Self::matching(rows, sid)),
                Reply::Failed(failure) => Err(failure.error()),
                _ => Err(StoreError::Decode),
            },
        };
        io.advance();
        Step::Done(out)
    }

    /// The first row of `rows` that agrees with the sid `sid`.
    pub fn matching(rows: &EntityRoot, sid: &str) -> (r: Option<Entity>)
        ensures
            r.deep_view() == matching(rows@, sid@),
    {
        let key = sid.to_string();
        let mut k: usize = 0;
        while k < rows.entity.len()
            invariant
                k <= rows.entity.len(),
                key@ == sid@,
                matching(rows@, sid@) == matching_from(rows@, sid@, k as int),
            decreases rows.entity.len() - k,
        {
            let row = &rows.entity[k];
            let named = match &row.sid {
                Some(x) => *x == key,
                None => true,
            };
            if named {
                return Some(row.clone());
            }
            k += 1;
        }
        None
    }

    /// The projection that a lookup by sid is checked on.
    pub fn key_fields() -> (r: Vec<Field>)
        ensures
            r.deep_view() == key_fields(),
    {
        let mut fields: Vec<Field> = Vec::new();
        fields.push(Field::scalar(Scalar::Uid));
        fields.push(Field::scalar(Scalar::Sid));
        fields
    }

    /// The first entity of the identifier `row`.
    pub fn owner(row: &Option<Identifier>) -> (r: Result<Option<Entity>, StoreError>)
        ensures
            match owner(row.deep_view()) {
                Ok(found) => r matches Ok(x) && x.deep_view() == found,
                Err(e) => r matches Err(x) && x@ == e,
            },
    {
        match row {
            None => Ok(None),
            Some(i) => match &i.entities {
                Some(list) => {
                    if list.len() > 0 {
                        Ok(Some(list[0].clone()))
                    } else {
                        Err(StoreError::Entity(EntityError::Empty))
                    }
                },
                None => Err(StoreError::Entity(EntityError::Empty)),
            },
        }
    }

    /// The entity of the identifier of type `identifier_type` and value
    /// `value`, or none.
    pub fn find_by_identifier(
        identifier_type: IdentifierType,
        value: &str,
        fields: &Vec<Field>,
        io: &mut Replay,
    ) -> (r: Step<Result<Option<Entity>, StoreError>>)
        ensures
            (r@, final(io)@) == find_by_identifier(
                identifier_type,
                value@,
                fields.deep_view(),
                old(io)@,
            ),
    {
        let text = match select(BY_IDENTIFIER, Kind::Entity, fields) {
            Err(e) => {
                return Step::Done(Err(e));
            },
            Ok(text) => text,
        };
        let pattern = IdentifierStore::pattern(value);
        let kind = identifier_type.to_string();
        let request = query(
            text,
            bind2("$type", kind.as_str(), "$value", pattern.as_str()),
            Kind::Identifier,
        );
        let out = match io.peek() {
            None => {
                return Step::Ask(request);
            },
            Some(reply) => match reply {
                Reply::Identifier(rows) => Self::owner(
                    &IdentifierStore::matching(rows, identifier_type, value),
                ),
                Reply::Failed(failure) => Err(failure.error()),
                _ => Err(StoreError::Decode),
            },
        };
        io.advance();
        Step::Done(out)
    }

    /// Whether an entity with the uid `uid` exists.
    pub fn is_known(uid: &str, io: &mut Replay) -> (r: Step<bool>)
        ensures
            (r@, final(io)@) == is_known(uid@, old(io)@),
    {
        let probe = select_uid();
        match Self::find_by_uid(uid, &probe, io) {
            Step::Ask(request) => Step::Ask(request),
            Step::Done(Ok(found)) => Step::Done(found.is_some()),
            Step::Done(Err(_)) => Step::Done(false),
        }
    }

    /// Creates the entity `e`, whose sid must not be taken, and reads it back
    /// under `fields`.
    pub fn create(e: &Entity, fields: &Vec<Field>, io: &mut Replay) -> (r: Step<
        Result<Option<Entity>, StoreError>,
    >)
        ensures
            (r@, final(io)@) == create(e@, fields.deep_view(), old(io)@),
    {
        let sid = match &e.sid {
            None => {
                return Step::Done(Err(StoreError::Entity(EntityError::missing("sid"))));
            },
            Some(sid) => sid,
        };
        let probe = Self::key_fields();
        let taken = match Self::find_by_sid(sid.as_str(), &probe, io) {
            Step::Ask(request) => {
                return Step::Ask(request);
            },
            Step::Done(Err(e)) => {
                return Step::Done(Err(e));
            },
            Step::Done(Ok(found)) => found,
        };
        if taken.is_some() {
            return Step::Done(Err(StoreError::Entity(EntityError::SidExistsError)));
        }
        if e.display_name.is_none() {
            return Step::Done(Err(StoreError::Entity(EntityError::missing("display_name"))));
        }
        if e.guid.is_none() {
            return Step::Done(Err(StoreError::Entity(EntityError::missing("guid"))));
        }
        let mut kept = e.clone();
        kept.identifiers = None;
        kept.authenticators = None;
        match save_record(Record::Entity(kept), io) {
            Step::Ask(request) => {
                return Step::Ask(request);
            },
            Step::Done(Err(e)) => {
                return Step::Done(Err(e));
            },
            Step::Done(Ok(_)) => {},
        }
        Self::find_by_sid(sid.as_str(), fields, io)
    }

    /// Appends the identifier `i` to the identifiers of the entity with the
    /// uid `uid`.
    pub fn associate_identity(
        uid: &str,
        i: &Identifier,
        fields: &Vec<Field>,
        io: &mut Replay,
    ) -> (r: Step<Result<Option<Entity>, StoreError>>)
        ensures
            (r@, final(io)@) == associate_identity(uid@, i@, fields.deep_view(), old(io)@),
    {
        let probe = select_uid_with(Kind::Identifier);
        let current = match Self::find_by_uid(uid, &probe, io) {
            Step::Ask(request) => {
                return Step::Ask(request);
            },
            Step::Done(Err(e)) => {
                return Step::Done(Err(e));
            },
            Step::Done(Ok(None)) => {
                return Step::Done(Err(StoreError::Entity(EntityError::DoesNotExist)));
            },
            Step::Done(Ok(Some(e))) => e,
        };
        let update = current.add_identifier(i.clone());
        match save_record(Record::Entity(update), io) {
            Step::Ask(request) => {
                return Step::Ask(request);
            },
            Step::Done(Err(e)) => {
                return Step::Done(Err(e));
            },
            Step::Done(Ok(_)) => {},
        }
        Self::find_by_uid(uid, fields, io)
    }

    /// Appends the authenticator `a` to the authenticators of the entity
    /// with the uid `uid`.
    pub fn associate_authenticator(
        uid: &str,
        a: &Authenticator,
        fields: &Vec<Field>,
        io: &mut Replay,
    ) -> (r: Step<Result<Option<Entity>, StoreError>>)
        ensures
            (r@, final(io)@) == associate_authenticator(uid@, a@, fields.deep_view(), old(io)@),
    {
        let probe = select_uid_with(Kind::Authenticator);
        let current = match Self::find_by_uid(uid, &probe, io) {
            Step::Ask(request) => {
                return Step::Ask(request);
            },
            Step::Done(Err(e)) => {
                return Step::Done(Err(e));
            },
            Step::Done(Ok(None)) => {
                return Step::Done(Err(StoreError::Entity(EntityError::DoesNotExist)));
            },
            Step::Done(Ok(Some(e))) => e,
        };
        let update = current.add_authenticator(a.clone());
        match save_record(Record::Entity(update), io) {
            Step::Ask(request) => {
                return Step::Ask(request);
            },
            Step::Done(Err(e)) => {
                return Step::Done(Err(e));
            },
            Step::Done(Ok(_)) => {},
        }
        Self::find_by_uid(uid, fields, io)
    }

    /// Appends the system `s` to the systems of the entity with the uid
    /// `uid`.
    pub fn associate_system(uid: &str, s: &System, fields: &Vec<Field>, io: &mut Replay) -> (r:
        Step<Result<Option<Entity>, StoreError>>)
        ensures
            (r@, final(io)@) == associate_system(uid@, s@, fields.deep_view(), old(io)@),
    {
        let probe = select_uid_with(Kind::System);
        let current = match Self::find_by_uid(uid, &probe, io) {
            Step::Ask(request) => {
                return Step::Ask(request);
            },
            Step::Done(Err(e)) => {
                return Step::Done(Err(e));
            },
            Step::Done(Ok(None)) => {
                return Step::Done(Err(StoreError::Entity(EntityError::DoesNotExist)));
            },
            Step::Done(Ok(Some(e))) => e,
        };
        let update = current.add_system(s.clone());
        match save_record(Record::Entity(update), io) {
            Step::Ask(request) => {
                return Step::Ask(request);
            },
            Step::Done(Err(e)) => {
                return Step::Done(Err(e));
            },
            Step::Done(Ok(_)) => {},
        }
        Self::find_by_uid(uid, fields, io)
    }

    /// Appends the scope `s` to the scopes of the entity with the uid `uid`.
    pub fn associate_scope(uid: &str, s: &Scope, fields: &Vec<Field>, io: &mut Replay) -> (r:
        Step<Result<Option<Entity>, StoreError>>)
        ensures
            (r@, final(io)@) == associate_scope(uid@, s@, fields.deep_view(), old(io)@),
    {
        let probe = select_uid_with(Kind::Scope);
        let current = match Self::find_by_uid(uid, &probe, io) {
            Step::Ask(request) => {
                return Step::Ask(request);
            },
            Step::Done(Err(e)) => {
                return Step::Done(Err(e));
            },
            Step::Done(Ok(None)) => {
                return Step::Done(Err(StoreError::Entity(EntityError::DoesNotExist)));
            },
            Step::Done(Ok(Some(e))) => e,
        };
        let update = current.add_scope(s.clone());
        match save_record(Record::Entity(update), io) {
            Step::Ask(request) => {
                return Step::Ask(request);
            },
            Step::Done(Err(e)) => {
                return Step::Done(Err(e));
            },
            Step::Done(Ok(_)) => {},
        }
        Self::find_by_uid(uid, fields, io)
    }
}

/// A lookup by sid returns a row of that sid or none: the row that
/// `matching_from` gives agrees with the sid, and there is none exactly
/// when no row from `from` on agrees with it.
pub proof fn matching_finds_the_first(rows: Seq<EntityView>, sid: Seq<char>, from: int)
    requires
        0 <= from,
    ensures
        matching_from(rows, sid, from) matches Some(row) ==> agrees(row, sid),
        matching_from(rows, sid, from).is_none() <==> forall|k: int|
            from <= k < rows.len() ==> !agrees(#[trigger] rows[k], sid),
    decreases rows.len() - from,
{
    if from < rows.len() && !agrees(rows[from], sid) {
        matching_finds_the_first(rows, sid, from + 1);
    }
}

/// An entity with a fresh sid is created. When the store finds no entity
/// with the sid, `create` asks to save the record, without its identifiers
/// and authenticators; when the store has saved it and then finds it,
/// `create` returns the row of that sid that the store found.
pub proof fn create_succeeds_on_fresh_sid(
    e: EntityView,
    fields: Seq<FieldView>,
    others: Seq<EntityView>,
    uids: Vars,
    rows: Seq<EntityView>,
)
    requires
        e.valid(),
        forall|k: int| 0 <= k < others.len() ==> !agrees(#[trigger] others[k], e.sid.unwrap()),
        matching(rows, e.sid.unwrap()).is_some(),
    ensures
        renders(BY_SID@, Kind::Entity, key_fields()) ==> create(
            e,
            fields,
            Script { log: seq![ReplyView::Entity(others)], at: 0 },
        ).0 == StepView::<Result<Option<EntityView>, StoreErrorView>>::Ask(
            RequestView::Save(RecordView::Entity(bare(e))),
        ),
        renders(BY_SID@, Kind::Entity, key_fields()) && renders(BY_SID@, Kind::Entity, fields)
            ==> create(
            e,
            fields,
            Script {
                log: seq![
                    ReplyView::Entity(others),
                    ReplyView::Saved(uids),
                    ReplyView::Entity(rows),
                ],
                at: 0,
            },
        ).0 == StepView::<Result<Option<EntityView>, StoreErrorView>>::Done(
            Ok(matching(rows, e.sid.unwrap())),
        ),
{
    matching_finds_the_first(others, e.sid.unwrap(), 0);
}

/// An entity whose sid is taken is not created again. When the store finds
/// an entity with the sid, `create` fails with `SidExistsError`, whose class
/// is `AlreadyExists`, and has asked for nothing but that lookup.
pub proof fn create_fails_on_taken_sid(
    e: EntityView,
    fields: Seq<FieldView>,
    rows: Seq<EntityView>,
    rest: Seq<ReplyView>,
)
    requires
        e.sid.is_some(),
        exists|k: int| 0 <= k < rows.len() && agrees(#[trigger] rows[k], e.sid.unwrap()),
    ensures
        ({
            let log = seq![ReplyView::Entity(rows)] + rest;
            renders(BY_SID@, Kind::Entity, key_fields()) ==> create(
                e,
                fields,
                Script { log, at: 0 },
            ) == (
                StepView::<Result<Option<EntityView>, StoreErrorView>>::Done(
                    Err(StoreErrorView::Entity(EntityErrorView::SidExistsError)),
                ),
                Script { log, at: 1 },
            )
        }),
        StoreErrorView::Entity(EntityErrorView::SidExistsError).kind() == ErrorKind::AlreadyExists,
{
    matching_finds_the_first(rows, e.sid.unwrap(), 0);
}

/// A lookup that matches nothing finds nothing, and that is no error: when
/// the store answers with no rows, each lookup ends with none.
pub proof fn lookups_report_absence(
    key: Seq<char>,
    identifier_type: IdentifierType,
    fields: Seq<FieldView>,
    s: Script,
)
    requires
        s.answered(),
    ensures
        renders(BY_UID@, Kind::Entity, fields) && s.reply() == ReplyView::Entity(Seq::empty())
            ==> find_by_uid(key, fields, s) == (
            StepView::<Result<Option<EntityView>, StoreErrorView>>::Done(Ok(None)),
            s.next(),
        ),
        renders(BY_SID@, Kind::Entity, fields) && s.reply() == ReplyView::Entity(Seq::empty())
            ==> find_by_sid(key, fields, s) == (
            StepView::<Result<Option<EntityView>, StoreErrorView>>::Done(Ok(None)),
            s.next(),
        ),
        renders(BY_IDENTIFIER@, Kind::Entity, fields) && s.reply() == ReplyView::Identifier(
            Seq::empty(),
        ) ==> find_by_identifier(identifier_type, key, fields, s) == (
            StepView::<Result<Option<EntityView>, StoreErrorView>>::Done(Ok(None)),
            s.next(),
        ),
        renders(BY_UID@, Kind::Entity, uid_only()) && s.reply() == ReplyView::Entity(Seq::empty())
            ==> is_known(key, s) == (StepView::<bool>::Done(false), s.next()),
{
}

/// An edge is appended, whether or not it is there already. When the store
/// finds the entity `e`, each `associate` asks to save `e` with the related
/// record after the edges it had; so when the store finds what was saved
/// and the operation runs again, the edge stands twice at the end.
pub proof fn associate_appends(
    uid: Seq<char>,
    e: EntityView,
    i: IdentifierView,
    a: AuthenticatorView,
    sys: SystemView,
    scope: ScopeView,
    fields: Seq<FieldView>,
)
    ensures
        ({
            let once = EntityView { identifiers: Some(edges(e.identifiers).push(i)), ..e };
            let twice = EntityView { identifiers: Some(edges(e.identifiers).push(i).push(i)), ..e };
            renders(BY_UID@, Kind::Entity, uid_with(Kind::Identifier)) ==> {
                &&& associate_identity(uid, i, fields, found(e)).0 == save_of(once)
                &&& associate_identity(uid, i, fields, found(once)).0 == save_of(twice)
            }
        }),
        ({
            let once = EntityView { authenticators: Some(edges(e.authenticators).push(a)), ..e };
            let twice = EntityView {
                authenticators: Some(edges(e.authenticators).push(a).push(a)),
                ..e
            };
            renders(BY_UID@, Kind::Entity, uid_with(Kind::Authenticator)) ==> {
                &&& associate_authenticator(uid, a, fields, found(e)).0 == save_of(once)
                &&& associate_authenticator(uid, a, fields, found(once)).0 == save_of(twice)
            }
        }),
        ({
            let once = EntityView { systems: Some(edges(e.systems).push(sys)), ..e };
            let twice = EntityView { systems: Some(edges(e.systems).push(sys).push(sys)), ..e };
            renders(BY_UID@, Kind::Entity, uid_with(Kind::System)) ==> {
                &&& associate_system(uid, sys, fields, found(e)).0 == save_of(once)
                &&& associate_system(uid, sys, fields, found(once)).0 == save_of(twice)
            }
        }),
        ({
            let once = EntityView { scopes: Some(edges(e.scopes).push(scope)), ..e };
            let twice = EntityView { scopes: Some(edges(e.scopes).push(scope).push(scope)), ..e };
            renders(BY_UID@, Kind::Entity, uid_with(Kind::Scope)) ==> {
                &&& associate_scope(uid, scope, fields, found(e)).0 == save_of(once)
                &&& associate_scope(uid, scope, fields, found(once)).0 == save_of(twice)
            }
        }),
{
}

/// The script in which the store has found the entity `e` and nothing else
/// has been asked.
pub open spec fn found(e: EntityView) -> Script {
    Script { log: seq![ReplyView::Entity(seq![e])], at: 0 }
}

/// The step that asks to save the entity `e`.
pub open spec fn save_of(e: EntityView) -> Found<EntityView> {
    StepView::Ask(RequestView::Save(RecordView::Entity(e)))
}

} // verus!
