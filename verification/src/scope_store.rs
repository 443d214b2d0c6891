//! The store of scopes.

use vstd::prelude::*;
use crate::db::{
    bind, bind2, query, save_record, saved, Found, Record, RecordView, Replay, Reply, ReplyView,
    Request, RequestView, Script, Step, StepView,
};
use crate::entity::{Entity, EntityError, EntityErrorView, EntityView};
use crate::entity_store::EntityStore;
use crate::error::{ErrorKind, StoreError, StoreErrorView};
use crate::namespace::{Namespace, NamespaceError, NamespaceView};
use crate::namespace_store::NamespaceStore;
use crate::projection::{
    keys_with, select_keys_with, select_uid, uid_only, Field, FieldView, Kind, Scalar,
};
use crate::record::{edges, first_of};
use crate::scope::{Scope, ScopeError, ScopeRoot, ScopeView};
use crate::template::{query_text, renders, select};

verus! {

/// The operations on scopes.
pub struct ScopeStore {}

/// The scope with a given guid.
pub const BY_GUID: &'static str = r#"
query scope($guid: string) {
    scope(func: eq(guid, $guid)) @filter(eq(dgraph.type, "Scope")) {
        {{#each fields}}
        {{this}}
        {{/each}}
    }
}
"#;

/// The scopes of a given name among those of the namespace with a given
/// uid.
pub const BY_NAMESPACE_NAME: &'static str = r#"
query scope($ns_uid: string, $name: string) {
    namespace(func: uid($ns_uid)) @filter(eq(dgraph.type, "Namespace")) {
        scope {
            scope_uid as uid
        }
    }

    scope(func: uid(scope_uid)) @filter(eq(name, $name) AND eq(dgraph.type, "Scope")) {
        {{#each fields}}
        {{this}}
        {{/each}}
    }
}
"#;

/// The first scope of the answer to `request`: the request, while it is
/// unanswered; then the first row, or none where there is no row. Any reply
/// other than rows of scopes is a fault.
pub open spec fn first(request: RequestView, s: Script) -> (Found<ScopeView>, Script) {
    if !s.answered() {
        (StepView::Ask(request), s)
    } else {
        (
            StepView::Done(
                match s.reply() {
                    ReplyView::Scope(rows) => Ok(first_of(rows)),
                    ReplyView::Failed(failure) => Err(failure.fault()),
                    _ => Err(StoreErrorView::Decode),
                },
            ),
            s.next(),
        )
    }
}

/// What [`ScopeStore::find_by_guid`] comes to in a script: an error where the
/// projection is not admitted or the query does not render; else the first
/// scope of the answer to the query, asked with `$guid` bound to the guid.
pub open spec fn find_by_guid(guid: Seq<char>, fields: Seq<FieldView>, s: Script) -> (
    Found<ScopeView>,
    Script,
) {
    match query_text(BY_GUID@, Kind::Scope, fields) {
        Err(e) => (StepView::Done(Err(e)), s),
        Ok(text) => first(
            RequestView::Query { text, vars: seq![("$guid"@, guid)], root: Kind::Scope },
            s,
        ),
    }
}

/// Whether a list of namespaces holds the one with the uid.
pub open spec fn homed(list: Seq<NamespaceView>, uid: Seq<char>) -> bool {
    exists|k: int| 0 <= k < list.len() && (#[trigger] list[k]).uid == Some(uid)
}

/// Whether a row does not contradict a key: its name, where the row has
/// one, is the name of the key, and its namespaces, where the row has them,
/// hold the namespace of the key.
pub open spec fn agrees(row: ScopeView, name: Seq<char>, home: Seq<char>) -> bool {
    &&& row.name matches Some(n) ==> n == name
    &&& row.namespaces matches Some(list) ==> homed(list, home)
}

/// The first row from `from` on that agrees with the key.
pub open spec fn matching_from(
    rows: Seq<ScopeView>,
    name: Seq<char>,
    home: Seq<char>,
    from: int,
) -> Option<ScopeView>
    decreases rows.len() - from,
{
    if from < 0 || from >= rows.len() {
        None
    } else if agrees(rows[from], name, home) {
        Some(rows[from])
    } else {
        matching_from(rows, name, home, from + 1)
    }
}

/// The first row that agrees with the key.
pub open spec fn matching(rows: Seq<ScopeView>, name: Seq<char>, home: Seq<char>) -> Option<
    ScopeView,
> {
    matching_from(rows, name, home, 0)
}

/// The projection that a lookup by key is checked on: the uid, the name
/// and the uids of the namespaces.
pub open spec fn key_fields() -> Seq<FieldView> {
    seq![
        FieldView::Scalar(Scalar::Uid),
        FieldView::Scalar(Scalar::Name),
        FieldView::Edge(Kind::Namespace, seq![Scalar::Uid]),
    ]
}

/// What [`ScopeStore::find_by_namespace_type_name`] comes to in a script: an error where the
/// projection is not admitted or the query does not render; else the
/// query is asked with `$ns_uid` bound to the uid of the namespace and
/// `$name` to the name, and the result is the first scope of the answer
/// that agrees with the key. A row of another name or another namespace is
/// passed over.
pub open spec fn find_by_namespace_type_name(
    name: Seq<char>,
    namespace_uid: Seq<char>,
    fields: Seq<FieldView>,
    s: Script,
) -> (Found<ScopeView>, Script) {
    match query_text(BY_NAMESPACE_NAME@, Kind::Scope, fields) {
        Err(e) => (StepView::Done(Err(e)), s),
        Ok(text) => {
            let request = RequestView::Query {
                text,
                vars: seq![("$ns_uid"@, namespace_uid), ("$name"@, name)],
                root: Kind::Scope,
            };
            if !s.answered() {
                (StepView::Ask(request), s)
            } else {
                (
                    StepView::Done(
                        match s.reply() {
                            ReplyView::Scope(rows) => Ok(matching(rows, name, namespace_uid)),
                            ReplyView::Failed(failure) => Err(failure.fault()),
                            _ => Err(StoreErrorView::Decode),
                        },
                    ),
                    s.next(),
                )
            }
        },
    }
}

/// The record as it is linked after a save: under the uid that the store
/// assigned, if it assigned one.
pub open spec fn assigned(scope: ScopeView, uid: Option<Seq<char>>) -> ScopeView {
    match uid {
        Some(uid) => ScopeView { uid: Some(uid), ..scope },
        None => scope,
    }
}

/// What [`ScopeStore::create`] comes to in a script. The record must be
/// valid, or the creation fails with `ValidationFailed`. Its first namespace
/// must have no scope of the record's name, or the creation fails with
/// `AlreadyExists`. Only then the first namespace must have a guid, or the
/// creation fails with `Empty`, and must exist, or it fails with the
/// `DoesNotExist` of the namespace store. The record is then saved,
/// appended to the scopes of the namespace under the uid that the store
/// gave it, and read back by its guid under `fields`. A lookup, a save or
/// the link that fails ends the creation with that error. Nothing is saved
/// before every test has passed.
pub open spec fn create(scope: ScopeView, fields: Seq<FieldView>, s: Script) -> (
    Found<ScopeView>,
    Script,
) {
    if !scope.valid() {
        (StepView::Done(Err(StoreErrorView::Scope(ScopeError::ValidationFailed))), s)
    } else {
        let home = scope.namespaces.unwrap()[0];
        let (taken, s1) = find_by_namespace_type_name(scope.name.unwrap(), home.uid.unwrap(), key_fields(), s);
        match (taken, home.guid) {
            (StepView::Ask(request), _) => (StepView::Ask(request), s1),
            (StepView::Done(Err(e)), _) => (StepView::Done(Err(e)), s1),
            (StepView::Done(Ok(Some(_))), _) => (
                StepView::Done(Err(StoreErrorView::Scope(ScopeError::AlreadyExists))),
                s1,
            ),
            (StepView::Done(Ok(None)), None) => (StepView::Done(Err(StoreErrorView::Scope(ScopeError::Empty))), s1),
            (StepView::Done(Ok(None)), Some(guid)) => {
                let (known, s2) = crate::namespace_store::is_known(guid, s1);
                match known {
                    StepView::Ask(request) => (StepView::Ask(request), s2),
                    StepView::Done(false) => (
                        StepView::Done(
                            Err(StoreErrorView::Namespace(NamespaceError::DoesNotExist)),
                        ),
                        s2,
                    ),
                    StepView::Done(true) => store(scope, guid, fields, s2),
                }
            },
        }
    }
}

/// The second half of a creation, once the name is free and the namespace is
/// found: the record is saved, linked and read back.
pub open spec fn store(scope: ScopeView, guid: Seq<char>, fields: Seq<FieldView>, s: Script) -> (
    Found<ScopeView>,
    Script,
) {
    let (kept, s1) = saved(RecordView::Scope(scope), s);
    match kept {
        StepView::Ask(request) => (StepView::Ask(request), s1),
        StepView::Done(Err(e)) => (StepView::Done(Err(e)), s1),
        StepView::Done(Ok(uid)) => {
            let (linked, s2) = crate::namespace_store::associate_scope(
                guid,
                assigned(scope, uid),
                uid_only(),
                s1,
            );
            match linked {
                StepView::Ask(request) => (StepView::Ask(request), s2),
                StepView::Done(Err(e)) => (StepView::Done(Err(e)), s2),
                StepView::Done(Ok(_)) => find_by_guid(scope.guid.unwrap(), fields, s2),
            }
        },
    }
}

/// What [`ScopeStore::associate_entity`] comes to in a script. The scope is
/// read with its entities, and the operation fails with `DoesNotExist` where
/// there is none. It is saved with the entity appended. The entity must then
/// have a uid: the scope as it was saved is appended to the scopes of that
/// entity. At last the scope is read again under `fields`. A lookup or a save
/// that fails ends the operation with that error.
pub open spec fn associate_entity(
    guid: Seq<char>,
    e: EntityView,
    fields: Seq<FieldView>,
    s: Script,
) -> (Found<ScopeView>, Script) {
    let (current, s1) = find_by_guid(guid, keys_with(Kind::Entity), s);
    match current {
        StepView::Ask(request) => (StepView::Ask(request), s1),
        StepView::Done(Err(x)) => (StepView::Done(Err(x)), s1),
        StepView::Done(Ok(None)) => (
            StepView::Done(Err(StoreErrorView::Scope(ScopeError::DoesNotExist))),
            s1,
        ),
        StepView::Done(Ok(Some(scope))) => {
            let update = ScopeView { entities: Some(edges(scope.entities).push(e)), ..scope };
            let (kept, s2) = saved(RecordView::Scope(update), s1);
            match (kept, e.uid) {
                (StepView::Ask(request), _) => (StepView::Ask(request), s2),
                (StepView::Done(Err(x)), _) => (StepView::Done(Err(x)), s2),
                (StepView::Done(Ok(_)), None) => (
                    StepView::Done(
                        Err(StoreErrorView::Entity(EntityErrorView::EmptyField("uid"@))),
                    ),
                    s2,
                ),
                (StepView::Done(Ok(_)), Some(key)) => {
                    let (back, s3) = crate::entity_store::associate_scope(
                        key,
                        update,
                        uid_only(),
                        s2,
                    );
                    match back {
                        StepView::Ask(request) => (StepView::Ask(request), s3),
                        StepView::Done(Err(x)) => (StepView::Done(Err(x)), s3),
                        StepView::Done(Ok(_)) => find_by_guid(guid, fields, s3),
                    }
                },
            }
        },
    }
}

impl ScopeStore {
    /// Sends `request` and takes the first scope of the answer.
    pub fn first(request: Request, io: &mut Replay) -> (r: Step<
        Result<Option<Scope>, StoreError>,
    >)
        ensures
            (r@, final(io)@) == first(request@, old(io)@),
    {
        let out = match io.peek() {
            None => {
                return Step::Ask(request);
            },
            Some(reply) => match reply {
                Reply::Scope(rows) => Ok(rows.first()),
                Reply::Failed(failure) => Err(failure.error()),
                _ => Err(StoreError::Decode),
            },
        };
        io.advance();
        Step::Done(out)
    }

    /// The scope with the guid `guid`, or none.
    pub fn find_by_guid(guid: &str, fields: &Vec<Field>, io: &mut Replay) -> (r: Step<
        Result<Option<Scope>, StoreError>,
    >)
        ensures
            (r@, final(io)@) == find_by_guid(guid@, fields.deep_view(), old(io)@),
    {
        match select(BY_GUID, Kind::Scope, fields) {
            Err(e) => Step::Done(Err(e)),
            Ok(text) => Self::first(query(text, bind("$guid", guid), Kind::Scope), io),
        }
    }

    /// The scope of the name `name` of the namespace with the uid
    /// `namespace_uid`, or none.
    pub fn find_by_namespace_type_name(
        name: &str,
        namespace_uid: &str,
        fields: &Vec<Field>,
        io: &mut Replay,
    ) -> (r: Step<Result<Option<Scope>, StoreError>>)
        ensures
            (r@, final(io)@) == find_by_namespace_type_name(
                name@,
                namespace_uid@,
                fields.deep_view(),
                old(io)@,
            ),
    {
        let text = match select(BY_NAMESPACE_NAME, Kind::Scope, fields) {
            Err(e) => {
                return Step::Done(Err(e));
            },
            Ok(text) => text,
        };
        let request = query(text, bind2("$ns_uid", namespace_uid, "$name", name), Kind::Scope);
        let out = match io.peek() {
            None => {
                return Step::Ask(request);
            },
            Some(reply) => match reply {
                Reply::Scope(rows) => Ok(Self::matching(rows, name, namespace_uid)),
                Reply::Failed(failure) => Err(failure.error()),
                _ => Err(StoreError::Decode),
            },
        };
        io.advance();
        Step::Done(out)
    }

    /// Whether `list` holds the namespace with the uid `uid`.
    pub fn homed(list: &Vec<Namespace>, uid: &str) -> (r: bool)
        ensures
            r == homed(crate::namespace::views_of(list@), uid@),
    {
        let key = uid.to_string();
        let mut k: usize = 0;
        while k < list.len()
            invariant
                k <= list.len(),
                key@ == uid@,
                forall|j: int|
                    0 <= j < k ==> (#[trigger] crate::namespace::views_of(list@)[j]).uid != Some(
                        uid@,
                    ),
            decreases list.len() - k,
        {
            let hit = match &list[k].uid {
                Some(u) => *u == key,
                None => false,
            };
            proof {
                assert(crate::namespace::views_of(list@)[k as int] == list@[k as int]@);
            }
            if hit {
                return true;
            }
            k += 1;
        }
        false
    }

    /// The first row of `rows` that agrees with the key.
    pub fn matching(rows: &ScopeRoot, name: &str, home: &str) -> (r: Option<Scope>)
        ensures
            r.deep_view() == matching(rows@, name@, home@),
    {
        let key = name.to_string();
        let mut k: usize = 0;
        while k < rows.scope.len()
            invariant
                k <= rows.scope.len(),
                key@ == name@,
                matching(rows@, name@, home@) == matching_from(rows@, name@, home@, k as int),
            decreases rows.scope.len() - k,
        {
            let row = &rows.scope[k];
            let named = match &row.name {
                Some(n) => *n == key,
                None => true,
            };
            let placed = match &row.namespaces {
                Some(list) => Self::homed(list, home),
                None => true,
            };
            if named && placed {
                return Some(row.clone());
            }
            k += 1;
        }
        None
    }

    /// The projection that a lookup by key is checked on.
    pub fn key_fields() -> (r: Vec<Field>)
        ensures
            r.deep_view() == key_fields(),
    {
        let mut inner: Vec<Scalar> = Vec::new();
        inner.push(Scalar::Uid);
        let mut fields: Vec<Field> = Vec::new();
        fields.push(Field::scalar(Scalar::Uid));
        fields.push(Field::scalar(Scalar::Name));
        fields.push(Field::Edge(Kind::Namespace, inner));
        fields
    }

    /// Creates the scope `s` of a namespace, links it to that namespace, and
    /// reads it back under `fields`. The namespace must have no scope of
    /// that name yet.
    pub fn create(s: &Scope, fields: &Vec<Field>, io: &mut Replay) -> (r: Step<
        Result<Option<Scope>, StoreError>,
    >)
        ensures
            (r@, final(io)@) == create(s@, fields.deep_view(), old(io)@),
    {
        if !s.validate() {
            return Step::Done(Err(StoreError::Scope(ScopeError::ValidationFailed)));
        }
        let (name, home, own) = match (&s.name, &s.namespaces, &s.guid) {
            (Some(name), Some(list), Some(own)) => {
                (name, &list[0], own)
            },
            _ => {
                return Step::Done(Err(StoreError::Scope(ScopeError::ValidationFailed)));
            },
        };
        let namespace_uid = match &home.uid {
            Some(uid) => uid,
            None => {
                return Step::Done(Err(StoreError::Scope(ScopeError::ValidationFailed)));
            },
        };
        let probe = Self::key_fields();
        match Self::find_by_namespace_type_name(
            name.as_str(),
            namespace_uid.as_str(),
            &probe,
            io,
        ) {
            Step::Ask(request) => {
                return Step::Ask(request);
            },
            Step::Done(Err(e)) => {
                return Step::Done(Err(e));
            },
            Step::Done(Ok(Some(_))) => {
                return Step::Done(Err(StoreError::Scope(ScopeError::AlreadyExists)));
            },
            Step::Done(Ok(None)) => {},
        }
        let guid = match &home.guid {
            None => {
                return Step::Done(Err(StoreError::Scope(ScopeError::Empty)));
            },
            Some(guid) => guid,
        };
        match NamespaceStore::is_known(guid.as_str(), io) {
            Step::Ask(request) => {
                return Step::Ask(request);
            },
            Step::Done(false) => {
                return Step::Done(Err(StoreError::Namespace(NamespaceError::DoesNotExist)));
            },
            Step::Done(true) => {},
        }
        let uid = match save_record(Record::Scope(s.clone()), io) {
            Step::Ask(request) => {
                return Step::Ask(request);
            },
            Step::Done(Err(e)) => {
                return Step::Done(Err(e));
            },
            Step::Done(Ok(uid)) => uid,
        };
        let linked = match uid {
            Some(uid) => s.clone().uid(uid),
            None => s.clone(),
        };
        let back = select_uid();
        match NamespaceStore::associate_scope(guid.as_str(), &linked, &back, io) {
            Step::Ask(request) => {
                return Step::Ask(request);
            },
            Step::Done(Err(e)) => {
                return Step::Done(Err(e));
            },
            Step::Done(Ok(_)) => {},
        }
        Self::find_by_guid(own.as_str(), fields, io)
    }

    /// Appends the entity `e` to the entities of the scope with the guid
    /// `guid`, and the scope to the scopes of `e`.
    pub fn associate_entity(guid: &str, e: &Entity, fields: &Vec<Field>, io: &mut Replay) -> (r:
        Step<Result<Option<Scope>, StoreError>>)
        ensures
            (r@, final(io)@) == associate_entity(guid@, e@, fields.deep_view(), old(io)@),
    {
        let probe = select_keys_with(Kind::Entity);
        let current = match Self::find_by_guid(guid, &probe, io) {
            Step::Ask(request) => {
                return Step::Ask(request);
            },
            Step::Done(Err(x)) => {
                return Step::Done(Err(x));
            },
            Step::Done(Ok(None)) => {
                return Step::Done(Err(StoreError::Scope(ScopeError::DoesNotExist)));
            },
            Step::Done(Ok(Some(s))) => s,
        };
        let update = current.add_entity(e.clone());
        match save_record(Record::Scope(update.clone()), io) {
            Step::Ask(request) => {
                return Step::Ask(request);
            },
            Step::Done(Err(x)) => {
                return Step::Done(Err(x));
            },
            Step::Done(Ok(_)) => {},
        }
        let key = match &e.uid {
            None => {
                return Step::Done(Err(StoreError::Entity(EntityError::missing("uid"))));
            },
            Some(key) => key,
        };
        let back = select_uid();
        match EntityStore::associate_scope(key.as_str(), &update, &back, io) {
            Step::Ask(request) => {
                return Step::Ask(request);
            },
            Step::Done(Err(x)) => {
                return Step::Done(Err(x));
            },
            Step::Done(Ok(_)) => {},
        }
        Self::find_by_guid(guid, fields, io)
    }
}

/// The script in which the store has found the scope `scope` and nothing
/// else has been asked.
pub open spec fn found(scope: ScopeView) -> Script {
    Script { log: seq![ReplyView::Scope(seq![scope])], at: 0 }
}

/// The step that asks to save the scope `scope`.
pub open spec fn save_of(scope: ScopeView) -> Found<ScopeView> {
    StepView::Ask(RequestView::Save(RecordView::Scope(scope)))
}

/// A lookup that matches nothing finds nothing, and that is no error: when
/// the store answers with no rows, each lookup ends with none.
pub proof fn lookups_report_absence(
    key: Seq<char>,
    name: Seq<char>,
    fields: Seq<FieldView>,
    s: Script,
)
    requires
        s.answered(),
        s.reply() == ReplyView::Scope(Seq::empty()),
    ensures
        renders(BY_GUID@, Kind::Scope, fields) ==> find_by_guid(key, fields, s) == (
            StepView::<Result<Option<ScopeView>, StoreErrorView>>::Done(Ok(None)),
            s.next(),
        ),
        renders(BY_NAMESPACE_NAME@, Kind::Scope, fields) ==> find_by_namespace_type_name(
            name,
            key,
            fields,
            s,
        ) == (
            StepView::<Result<Option<ScopeView>, StoreErrorView>>::Done(Ok(None)),
            s.next(),
        ),
{
}

/// A lookup by key returns a row of that key or none: the row that
/// `matching_from` gives agrees with the key, and there is none exactly
/// when no row from `from` on agrees with it.
pub proof fn matching_finds_the_first(
    rows: Seq<ScopeView>,
    name: Seq<char>,
    home: Seq<char>,
    from: int,
)
    requires
        0 <= from,
    ensures
        matching_from(rows, name, home, from) matches Some(row) ==> agrees(row, name, home),
        matching_from(rows, name, home, from).is_none() <==> forall|k: int|
            from <= k < rows.len() ==> !agrees(#[trigger] rows[k], name, home),
    decreases rows.len() - from,
{
    if from < rows.len() && !agrees(rows[from], name, home) {
        matching_finds_the_first(rows, name, home, from + 1);
    }
}

/// A namespace has one scope of a name. When the store finds a row of the
/// record's name on the record's namespace, `create` fails with
/// `AlreadyExists`, whether or not the namespace has a guid, and has asked
/// for nothing but that lookup. When it finds only rows of another name or
/// another namespace, `create` goes on.
pub proof fn create_fails_on_taken_name(
    scope: ScopeView,
    fields: Seq<FieldView>,
    rows: Seq<ScopeView>,
    rest: Seq<ReplyView>,
)
    requires
        scope.valid(),
        exists|k: int|
            0 <= k < rows.len() && agrees(
                #[trigger] rows[k],
                scope.name.unwrap(),
                scope.namespaces.unwrap()[0].uid.unwrap(),
            ),
    ensures
        ({
            let log = seq![ReplyView::Scope(rows)] + rest;
            renders(BY_NAMESPACE_NAME@, Kind::Scope, key_fields()) ==> create(
                scope,
                fields,
                Script { log, at: 0 },
            ) == (
                StepView::<Result<Option<ScopeView>, StoreErrorView>>::Done(
                    Err(StoreErrorView::Scope(ScopeError::AlreadyExists)),
                ),
                Script { log, at: 1 },
            )
        }),
        StoreErrorView::Scope(ScopeError::AlreadyExists).kind() == ErrorKind::AlreadyExists,
{
    matching_finds_the_first(
        rows,
        scope.name.unwrap(),
        scope.namespaces.unwrap()[0].uid.unwrap(),
        0,
    );
}

/// A scope is created for a namespace that exists only. When the name is
/// free on the namespace and the store finds no namespace with the guid
/// that the record names, `create` fails with `DoesNotExist`, whose class
/// is `NotFound`; when the namespace of the record has no guid, with
/// `Empty`. When the store finds the namespace, `create` asks to save the
/// record; before that it has asked to save nothing.
pub proof fn create_fails_on_unknown_namespace(
    scope: ScopeView,
    fields: Seq<FieldView>,
    others: Seq<ScopeView>,
    homes: Seq<NamespaceView>,
    rest: Seq<ReplyView>,
)
    requires
        scope.valid(),
        forall|k: int|
            0 <= k < others.len() ==> !agrees(
                #[trigger] others[k],
                scope.name.unwrap(),
                scope.namespaces.unwrap()[0].uid.unwrap(),
            ),
        homes.len() > 0,
    ensures
        ({
            let named = scope.namespaces.unwrap()[0].guid.is_some();
            let absent = seq![ReplyView::Scope(others), ReplyView::Namespace(Seq::empty())] + rest;
            let nameless = seq![ReplyView::Scope(others)] + rest;
            let present = seq![ReplyView::Scope(others), ReplyView::Namespace(homes)];
            renders(BY_NAMESPACE_NAME@, Kind::Scope, key_fields()) && renders(
                crate::namespace_store::BY_GUID@,
                Kind::Namespace,
                uid_only(),
            ) ==> {
                &&& named ==> create(scope, fields, Script { log: absent, at: 0 }) == (
                    StepView::<Result<Option<ScopeView>, StoreErrorView>>::Done(
                        Err(StoreErrorView::Namespace(NamespaceError::DoesNotExist)),
                    ),
                    Script { log: absent, at: 2 },
                )
                &&& !named ==> create(scope, fields, Script { log: nameless, at: 0 }) == (
                    StepView::<Result<Option<ScopeView>, StoreErrorView>>::Done(
                        Err(StoreErrorView::Scope(ScopeError::Empty)),
                    ),
                    Script { log: nameless, at: 1 },
                )
                &&& named ==> create(scope, fields, Script { log: present, at: 0 }).0 == save_of(
                    scope,
                )
            }
        }),
        StoreErrorView::Namespace(NamespaceError::DoesNotExist).kind() == ErrorKind::NotFound,
{
    matching_finds_the_first(
        others,
        scope.name.unwrap(),
        scope.namespaces.unwrap()[0].uid.unwrap(),
        0,
    );
}

/// An edge is appended, whether or not it is there already. When the store
/// finds the scope `scope`, `associate_entity` asks to save it with the
/// entity after the edges it had; so when the store finds what was saved
/// and the operation runs again, the edge stands twice at the end.
pub proof fn associate_appends(
    guid: Seq<char>,
    scope: ScopeView,
    e: EntityView,
    fields: Seq<FieldView>,
)
    ensures
        ({
            let once = ScopeView { entities: Some(edges(scope.entities).push(e)), ..scope };
            let twice = ScopeView { entities: Some(edges(scope.entities).push(e).push(e)), ..scope };
            renders(BY_GUID@, Kind::Scope, keys_with(Kind::Entity)) ==> {
                &&& associate_entity(guid, e, fields, found(scope)).0 == save_of(once)
                &&& associate_entity(guid, e, fields, found(once)).0 == save_of(twice)
            }
        }),
{
}

} // verus!
