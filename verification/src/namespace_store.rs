//! The store of namespaces.

use vstd::prelude::*;
use crate::db::{
    bind, bind2, query, save_record, saved, Found, Record, RecordView, Replay, Reply, ReplyView,
    Request, RequestView, Script, Step, StepView,
};
use crate::error::{ErrorKind, StoreError, StoreErrorView};
use crate::namespace::{Namespace, NamespaceError, NamespaceRoot, NamespaceView};
use crate::projection::{
    keys_with, select_keys_with, select_uid, uid_only, Field, FieldView, Kind, Scalar,
};
use crate::system::{System, SystemView};
use crate::record::{edges, first_of};
use crate::scope::{Scope, ScopeView};
use crate::system::SystemError;
use crate::system_store::SystemStore;
use crate::template::{query_text, renders, select};

verus! {

/// The operations on namespaces.
pub struct NamespaceStore {}

/// The namespace with a given guid.
pub const BY_GUID: &'static str = r#"
query namespace($guid: string) {
    namespace(func: eq(guid, $guid)) @filter(eq(dgraph.type, "Namespace")) {
        {{#each fields}}
        {{this}}
        {{/each}}
    }
}
"#;

/// The namespaces of a given name among those of the system with a given
/// uid.
pub const BY_SYSTEM_NAME: &'static str = r#"
query namespace($sys_uid: string, $name: string) {
    system(func: uid($sys_uid)) @filter(eq(dgraph.type, "System")) {
        namespace {
            ns_uid as uid
        }
    }

    namespace(func: uid(ns_uid)) @filter(eq(name, $name) AND eq(dgraph.type, "Namespace")) {
        {{#each fields}}
        {{this}}
        {{/each}}
    }
}
"#;

/// The first namespace of the answer to `request`: the request, while it is
/// unanswered; then the first row, or none where there is no row. Any reply
/// other than rows of namespaces is a fault.
pub open spec fn first(request: RequestView, s: Script) -> (Found<NamespaceView>, Script) {
    if !s.answered() {
        (StepView::Ask(request), s)
    } else {
        (
            StepView::Done(
                match s.reply() {
                    ReplyView::Namespace(rows) => Ok(first_of(rows)),
                    ReplyView::Failed(failure) => Err(failure.fault()),
                    _ => Err(StoreErrorView::Decode),
                },
            ),
            s.next(),
        )
    }
}

/// What [`NamespaceStore::find_by_guid`] comes to in a script: an error where
/// the projection is not admitted or the query does not render; else the
/// first namespace of the answer to the query, asked with `$guid` bound to
/// the guid.
pub open spec fn find_by_guid(guid: Seq<char>, fields: Seq<FieldView>, s: Script) -> (
    Found<NamespaceView>,
    Script,
) {
    match query_text(BY_GUID@, Kind::Namespace, fields) {
        Err(e) => (StepView::Done(Err(e)), s),
        Ok(text) => first(
            RequestView::Query { text, vars: seq![("$guid"@, guid)], root: Kind::Namespace },
            s,
        ),
    }
}

/// Whether a list of systems holds the one with the uid.
pub open spec fn homed(list: Seq<SystemView>, uid: Seq<char>) -> bool {
    exists|k: int| 0 <= k < list.len() && (#[trigger] list[k]).uid == Some(uid)
}

/// Whether a row does not contradict a key: its name, where the row has
/// one, is the name of the key, and its systems, where the row has them,
/// hold the system of the key.
pub open spec fn agrees(row: NamespaceView, name: Seq<char>, home: Seq<char>) -> bool {
    &&& row.name matches Some(n) ==> n == name
    &&& row.systems matches Some(list) ==> homed(list, home)
}

/// The first row from `from` on that agrees with the key.
pub open spec fn matching_from(
    rows: Seq<NamespaceView>,
    name: Seq<char>,
    home: Seq<char>,
    from: int,
) -> Option<NamespaceView>
    decreases rows.len() - from,
{
    if from < 0 || from >= rows.len() {
        None
    } else if agrees(rows[from], name, home) {
        Some(rows[from])
    } else {
        matching_from(rows, name, home, from + 1)
    }
}

/// The first row that agrees with the key.
pub open spec fn matching(rows: Seq<NamespaceView>, name: Seq<char>, home: Seq<char>) -> Option<
    NamespaceView,
> {
    matching_from(rows, name, home, 0)
}

/// The projection that a lookup by key is checked on: the uid, the name
/// and the uids of the systems.
pub open spec fn key_fields() -> Seq<FieldView> {
    seq![
        FieldView::Scalar(Scalar::Uid),
        FieldView::Scalar(Scalar::Name),
        FieldView::Edge(Kind::System, seq![Scalar::Uid]),
    ]
}

/// What [`NamespaceStore::find_by_system_name`] comes to in a script: an error where the
/// projection is not admitted or the query does not render; else the
/// query is asked with `$sys_uid` bound to the uid of the system and
/// `$name` to the name, and the result is the first namespace of the answer
/// that agrees with the key. A row of another name or another system is
/// passed over.
pub open spec fn find_by_system_name(
    name: Seq<char>,
    system_uid: Seq<char>,
    fields: Seq<FieldView>,
    s: Script,
) -> (Found<NamespaceView>, Script) {
    match query_text(BY_SYSTEM_NAME@, Kind::Namespace, fields) {
        Err(e) => (StepView::Done(Err(e)), s),
        Ok(text) => {
            let request = RequestView::Query {
                text,
                vars: seq![("$sys_uid"@, system_uid), ("$name"@, name)],
                root: Kind::Namespace,
            };
            if !s.answered() {
                (StepView::Ask(request), s)
            } else {
                (
                    StepView::Done(
                        match s.reply() {
                            ReplyView::Namespace(rows) => Ok(matching(rows, name, system_uid)),
                            ReplyView::Failed(failure) => Err(failure.fault()),
                            _ => Err(StoreErrorView::Decode),
                        },
                    ),
                    s.next(),
                )
            }
        },
    }
}

/// The record as it is linked after a save: under the uid that the store
/// assigned, if it assigned one.
pub open spec fn assigned(n: NamespaceView, uid: Option<Seq<char>>) -> NamespaceView {
    match uid {
        Some(uid) => NamespaceView { uid: Some(uid), ..n },
        None => n,
    }
}

/// Whether a namespace with the guid exists. A lookup that fails counts as
/// "does not exist": the check fails closed.
pub open spec fn is_known(guid: Seq<char>, s: Script) -> (StepView<bool>, Script) {
    let (step, s1) = find_by_guid(guid, uid_only(), s);
    match step {
        StepView::Ask(request) => (StepView::Ask(request), s1),
        StepView::Done(Ok(found)) => (StepView::Done(found.is_some()), s1),
        StepView::Done(Err(_)) => (StepView::Done(false), s1),
    }
}

/// What [`NamespaceStore::create`] comes to in a script. The record must be
/// valid, or the creation fails with `ValidationFailed`. Its first system
/// must have no namespace of the record's name, or the creation fails with
/// `AlreadyExists`. Only then the first system must have a guid, or the
/// creation fails with the `Empty` of the system store, and must exist, or it fails with the
/// `DoesNotExist` of the system store. The record is then saved,
/// appended to the namespaces of the system under the uid that the store
/// gave it, and read back by its guid under `fields`. A lookup, a save or
/// the link that fails ends the creation with that error. Nothing is saved
/// before every test has passed.
pub open spec fn create(n: NamespaceView, fields: Seq<FieldView>, s: Script) -> (
    Found<NamespaceView>,
    Script,
) {
    if !n.valid() {
        (StepView::Done(Err(StoreErrorView::Namespace(NamespaceError::ValidationFailed))), s)
    } else {
        let home = n.systems.unwrap()[0];
        let (taken, s1) = find_by_system_name(n.name.unwrap(), home.uid.unwrap(), key_fields(), s);
        match (taken, home.guid) {
            (StepView::Ask(request), _) => (StepView::Ask(request), s1),
            (StepView::Done(Err(e)), _) => (StepView::Done(Err(e)), s1),
            (StepView::Done(Ok(Some(_))), _) => (
                StepView::Done(Err(StoreErrorView::Namespace(NamespaceError::AlreadyExists))),
                s1,
            ),
            (StepView::Done(Ok(None)), None) => (StepView::Done(Err(StoreErrorView::System(SystemError::Empty))), s1),
            (StepView::Done(Ok(None)), Some(guid)) => {
                let (known, s2) = crate::system_store::is_known(guid, s1);
                match known {
                    StepView::Ask(request) => (StepView::Ask(request), s2),
                    StepView::Done(false) => (
                        StepView::Done(
                            Err(StoreErrorView::System(SystemError::DoesNotExist)),
                        ),
                        s2,
                    ),
                    StepView::Done(true) => store(n, guid, fields, s2),
                }
            },
        }
    }
}

/// The second half of a creation, once the name is free and the system is
/// found: the record is saved, linked and read back.
pub open spec fn store(n: NamespaceView, guid: Seq<char>, fields: Seq<FieldView>, s: Script) -> (
    Found<NamespaceView>,
    Script,
) {
    let (kept, s1) = saved(RecordView::Namespace(n), s);
    match kept {
        StepView::Ask(request) => (StepView::Ask(request), s1),
        StepView::Done(Err(e)) => (StepView::Done(Err(e)), s1),
        StepView::Done(Ok(uid)) => {
            let (linked, s2) = crate::system_store::associate_namespace(
                guid,
                assigned(n, uid),
                uid_only(),
                s1,
            );
            match linked {
                StepView::Ask(request) => (StepView::Ask(request), s2),
                StepView::Done(Err(e)) => (StepView::Done(Err(e)), s2),
                StepView::Done(Ok(_)) => find_by_guid(n.guid.unwrap(), fields, s2),
            }
        },
    }
}

/// What [`NamespaceStore::associate_scope`] comes to in a script. The
/// namespace is read with its scopes, and the operation fails with
/// `DoesNotExist` where there is none. It is saved with the scope appended
/// and read again under `fields`. A lookup or a save that fails ends the
/// operation with that error.
pub open spec fn associate_scope(
    guid: Seq<char>,
    scope: ScopeView,
    fields: Seq<FieldView>,
    s: Script,
) -> (Found<NamespaceView>, Script) {
    let (current, s1) = find_by_guid(guid, keys_with(Kind::Scope), s);
    match current {
        StepView::Ask(request) => (StepView::Ask(request), s1),
        StepView::Done(Err(e)) => (StepView::Done(Err(e)), s1),
        StepView::Done(Ok(None)) => (
            StepView::Done(Err(StoreErrorView::Namespace(NamespaceError::DoesNotExist))),
            s1,
        ),
        StepView::Done(Ok(Some(n))) => {
            let update = NamespaceView { scopes: Some(edges(n.scopes).push(scope)), ..n };
            let (kept, s2) = saved(RecordView::Namespace(update), s1);
            match kept {
                StepView::Ask(request) => (StepView::Ask(request), s2),
                StepView::Done(Err(e)) => (StepView::Done(Err(e)), s2),
                StepView::Done(Ok(_)) => find_by_guid(guid, fields, s2),
            }
        },
    }
}

impl NamespaceStore {
    /// Sends `request` and takes the first namespace of the answer.
    pub fn first(request: Request, io: &mut Replay) -> (r: Step<
        Result<Option<Namespace>, StoreError>,
    >)
        ensures
            (r@, final(io)@) == first(request@, old(io)@),
    {
        let out = match io.peek() {
            None => {
                return Step::Ask(request);
            },
            Some(reply) => match reply {
                Reply::Namespace(rows) => Ok(rows.first()),
                Reply::Failed(failure) => Err(failure.error()),
                _ => Err(StoreError::Decode),
            },
        };
        io.advance();
        Step::Done(out)
    }

    /// The namespace with the guid `guid`, or none.
    pub fn find_by_guid(guid: &str, fields: &Vec<Field>, io: &mut Replay) -> (r: Step<
        Result<Option<Namespace>, StoreError>,
    >)
        ensures
            (r@, final(io)@) == find_by_guid(guid@, fields.deep_view(), old(io)@),
    {
        match select(BY_GUID, Kind::Namespace, fields) {
            Err(e) => Step::Done(Err(e)),
            Ok(text) => Self::first(query(text, bind("$guid", guid), Kind::Namespace), io),
        }
    }

    /// The namespace of the name `name` of the system with the uid
    /// `system_uid`, or none.
    pub fn find_by_system_name(
        name: &str,
        system_uid: &str,
        fields: &Vec<Field>,
        io: &mut Replay,
    ) -> (r: Step<Result<Option<Namespace>, StoreError>>)
        ensures
            (r@, final(io)@) == find_by_system_name(
                name@,
                system_uid@,
                fields.deep_view(),
                old(io)@,
            ),
    {
        let text = match select(BY_SYSTEM_NAME, Kind::Namespace, fields) {
            Err(e) => {
                return Step::Done(Err(e));
            },
            Ok(text) => text,
        };
        let request = query(text, bind2("$sys_uid", system_uid, "$name", name), Kind::Namespace);
        let out = match io.peek() {
            None => {
                return Step::Ask(request);
            },
            Some(reply) => match reply {
                Reply::Namespace(rows) => Ok(Self::matching(rows, name, system_uid)),
                Reply::Failed(failure) => Err(failure.error()),
                _ => Err(StoreError::Decode),
            },
        };
        io.advance();
        Step::Done(out)
    }

    /// Whether `list` holds the system with the uid `uid`.
    pub fn homed(list: &Vec<System>, uid: &str) -> (r: bool)
        ensures
            r == homed(crate::system::views_of(list@), uid@),
    {
        let key = uid.to_string();
        let mut k: usize = 0;
        while k < list.len()
            invariant
                k <= list.len(),
                key@ == uid@,
                forall|j: int|
                    0 <= j < k ==> (#[trigger] crate::system::views_of(list@)[j]).uid != Some(
                        uid@,
                    ),
            decreases list.len() - k,
        {
            let hit = match &list[k].uid {
                Some(u) => *u == key,
                None => false,
            };
            proof {
                assert(crate::system::views_of(list@)[k as int] == list@[k as int]@);
            }
            if hit {
                return true;
            }
            k += 1;
        }
        false
    }

    /// The first row of `rows` that agrees with the key.
    pub fn matching(rows: &NamespaceRoot, name: &str, home: &str) -> (r: Option<Namespace>)
        ensures
            r.deep_view() == matching(rows@, name@, home@),
    {
        let key = name.to_string();
        let mut k: usize = 0;
        while k < rows.namespace.len()
            invariant
                k <= rows.namespace.len(),
                key@ == name@,
                matching(rows@, name@, home@) == matching_from(rows@, name@, home@, k as int),
            decreases rows.namespace.len() - k,
        {
            let row = &rows.namespace[k];
            let named = match &row.name {
                Some(n) => *n == key,
                None => true,
            };
            let placed = match &row.systems {
                Some(list) => Self::homed(list, home),
                None => true,
            };
            if named && placed {
                return Some(row.clone());
            }
            k += 1;
        }
        None
    }

    /// The projection that a lookup by key is checked on.
    pub fn key_fields() -> (r: Vec<Field>)
        ensures
            r.deep_view() == key_fields(),
    {
        let mut inner: Vec<Scalar> = Vec::new();
        inner.push(Scalar::Uid);
        let mut fields: Vec<Field> = Vec::new();
        fields.push(Field::scalar(Scalar::Uid));
        fields.push(Field::scalar(Scalar::Name));
        fields.push(Field::Edge(Kind::System, inner));
        fields
    }

    /// Whether a namespace with the guid `guid` exists.
    pub fn is_known(guid: &str, io: &mut Replay) -> (r: Step<bool>)
        ensures
            (r@, final(io)@) == is_known(guid@, old(io)@),
    {
        let probe = select_uid();
        match Self::find_by_guid(guid, &probe, io) {
            Step::Ask(request) => Step::Ask(request),
            Step::Done(Ok(found)) => Step::Done(found.is_some()),
            Step::Done(Err(_)) => Step::Done(false),
        }
    }

    /// Creates the namespace `n` of a system, links it to that system, and
    /// reads it back under `fields`. The system must have no namespace of
    /// that name yet.
    pub fn create(n: &Namespace, fields: &Vec<Field>, io: &mut Replay) -> (r: Step<
        Result<Option<Namespace>, StoreError>,
    >)
        ensures
            (r@, final(io)@) == create(n@, fields.deep_view(), old(io)@),
    {
        if !n.validate() {
            return Step::Done(Err(StoreError::Namespace(NamespaceError::ValidationFailed)));
        }
        let (name, home, own) = match (&n.name, &n.systems, &n.guid) {
            (Some(name), Some(list), Some(own)) => {
                (name, &list[0], own)
            },
            _ => {
                return Step::Done(Err(StoreError::Namespace(NamespaceError::ValidationFailed)));
            },
        };
        let system_uid = match &home.uid {
            Some(uid) => uid,
            None => {
                return Step::Done(Err(StoreError::Namespace(NamespaceError::ValidationFailed)));
            },
        };
        let probe = Self::key_fields();
        match Self::find_by_system_name(name.as_str(), system_uid.as_str(), &probe, io) {
            Step::Ask(request) => {
                return Step::Ask(request);
            },
            Step::Done(Err(e)) => {
                return Step::Done(Err(e));
            },
            Step::Done(Ok(Some(_))) => {
                return Step::Done(Err(StoreError::Namespace(NamespaceError::AlreadyExists)));
            },
            Step::Done(Ok(None)) => {},
        }
        let guid = match &home.guid {
            None => {
                return Step::Done(Err(StoreError::System(SystemError::Empty)));
            },
            Some(guid) => guid,
        };
        match SystemStore::is_known(guid.as_str(), io) {
            Step::Ask(request) => {
                return Step::Ask(request);
            },
            Step::Done(false) => {
                return Step::Done(Err(StoreError::System(SystemError::DoesNotExist)));
            },
            Step::Done(true) => {},
        }
        let uid = match save_record(Record::Namespace(n.clone()), io) {
            Step::Ask(request) => {
                return Step::Ask(request);
            },
            Step::Done(Err(e)) => {
                return Step::Done(Err(e));
            },
            Step::Done(Ok(uid)) => uid,
        };
        let linked = match uid {
            Some(uid) => n.clone().uid(uid),
            None => n.clone(),
        };
        let back = select_uid();
        match SystemStore::associate_namespace(guid.as_str(), &linked, &back, io) {
            Step::Ask(request) => {
                return Step::Ask(request);
            },
            Step::Done(Err(e)) => {
                return Step::Done(Err(e));
            },
            Step::Done(Ok(_)) => {},
        }
        Self::find_by_guid(own.as_str(), fields, io)
    }

    /// Appends the scope `s` to the scopes of the namespace with the guid
    /// `guid`.
    pub fn associate_scope(guid: &str, s: &Scope, fields: &Vec<Field>, io: &mut Replay) -> (r:
        Step<Result<Option<Namespace>, StoreError>>)
        ensures
            (r@, final(io)@) == associate_scope(guid@, s@, fields.deep_view(), old(io)@),
    {
        let probe = select_keys_with(Kind::Scope);
        let current = match Self::find_by_guid(guid, &probe, io) {
            Step::Ask(request) => {
                return Step::Ask(request);
            },
            Step::Done(Err(e)) => {
                return Step::Done(Err(e));
            },
            Step::Done(Ok(None)) => {
                return Step::Done(Err(StoreError::Namespace(NamespaceError::DoesNotExist)));
            },
            Step::Done(Ok(Some(n))) => n,
        };
        let update = current.add_scope(s.clone());
        match save_record(Record::Namespace(update), io) {
            Step::Ask(request) => {
                return Step::Ask(request);
            },
            Step::Done(Err(e)) => {
                return Step::Done(Err(e));
            },
            Step::Done(Ok(_)) => {},
        }
        Self::find_by_guid(guid, fields, io)
    }
}

/// The script in which the store has found the namespace `n` and nothing
/// else has been asked.
pub open spec fn found(n: NamespaceView) -> Script {
    Script { log: seq![ReplyView::Namespace(seq![n])], at: 0 }
}

/// The step that asks to save the namespace `n`.
pub open spec fn save_of(n: NamespaceView) -> Found<NamespaceView> {
    StepView::Ask(RequestView::Save(RecordView::Namespace(n)))
}

/// A lookup that matches nothing finds nothing, and that is no error: when
/// the store answers with no rows, each lookup ends with none.
pub proof fn lookups_report_absence(
    key: Seq<char>,
    name: Seq<char>,
    fields: Seq<FieldView>,
    s: Script,
)
    requires
        s.answered(),
        s.reply() == ReplyView::Namespace(Seq::empty()),
    ensures
        renders(BY_GUID@, Kind::Namespace, fields) ==> find_by_guid(key, fields, s) == (
            StepView::<Result<Option<NamespaceView>, StoreErrorView>>::Done(Ok(None)),
            s.next(),
        ),
        renders(BY_SYSTEM_NAME@, Kind::Namespace, fields) ==> find_by_system_name(
            name,
            key,
            fields,
            s,
        ) == (
            StepView::<Result<Option<NamespaceView>, StoreErrorView>>::Done(Ok(None)),
            s.next(),
        ),
        renders(BY_GUID@, Kind::Namespace, uid_only()) ==> is_known(key, s) == (
            StepView::<bool>::Done(false),
            s.next(),
        ),
{
}

/// A lookup by key returns a row of that key or none: the row that
/// `matching_from` gives agrees with the key, and there is none exactly
/// when no row from `from` on agrees with it.
pub proof fn matching_finds_the_first(
    rows: Seq<NamespaceView>,
    name: Seq<char>,
    home: Seq<char>,
    from: int,
)
    requires
        0 <= from,
    ensures
        matching_from(rows, name, home, from) matches Some(row) ==> agrees(row, name, home),
        matching_from(rows, name, home, from).is_none() <==> forall|k: int|
            from <= k < rows.len() ==> !agrees(#[trigger] rows[k], name, home),
    decreases rows.len() - from,
{
    if from < rows.len() && !agrees(rows[from], name, home) {
        matching_finds_the_first(rows, name, home, from + 1);
    }
}

/// A system has one namespace of a name. When the store finds a row of the
/// record's name on the record's system, `create` fails with
/// `AlreadyExists`, whether or not the system has a guid, and has asked
/// for nothing but that lookup. When it finds only rows of another name or
/// another system, `create` goes on.
pub proof fn create_fails_on_taken_name(
    n: NamespaceView,
    fields: Seq<FieldView>,
    rows: Seq<NamespaceView>,
    rest: Seq<ReplyView>,
)
    requires
        n.valid(),
        exists|k: int|
            0 <= k < rows.len() && agrees(
                #[trigger] rows[k],
                n.name.unwrap(),
                n.systems.unwrap()[0].uid.unwrap(),
            ),
    ensures
        ({
            let log = seq![ReplyView::Namespace(rows)] + rest;
            renders(BY_SYSTEM_NAME@, Kind::Namespace, key_fields()) ==> create(
                n,
                fields,
                Script { log, at: 0 },
            ) == (
                StepView::<Result<Option<NamespaceView>, StoreErrorView>>::Done(
                    Err(StoreErrorView::Namespace(NamespaceError::AlreadyExists)),
                ),
                Script { log, at: 1 },
            )
        }),
        StoreErrorView::Namespace(NamespaceError::AlreadyExists).kind()
            == ErrorKind::AlreadyExists,
{
    matching_finds_the_first(rows, n.name.unwrap(), n.systems.unwrap()[0].uid.unwrap(), 0);
}

/// A namespace is created for a system that exists only. When the name is
/// free on the system and the store finds no system with the guid that the
/// record names, `create` fails with `DoesNotExist`, whose class is
/// `NotFound`; when the system of the record has no guid, with the `Empty`
/// of the system store. When the store finds the system, `create` asks to
/// save the record; before that it has asked to save nothing.
pub proof fn create_fails_on_unknown_system(
    n: NamespaceView,
    fields: Seq<FieldView>,
    others: Seq<NamespaceView>,
    tenants: Seq<SystemView>,
    rest: Seq<ReplyView>,
)
    requires
        n.valid(),
        forall|k: int|
            0 <= k < others.len() ==> !agrees(
                #[trigger] others[k],
                n.name.unwrap(),
                n.systems.unwrap()[0].uid.unwrap(),
            ),
        tenants.len() > 0,
    ensures
        ({
            let named = n.systems.unwrap()[0].guid.is_some();
            let absent = seq![ReplyView::Namespace(others), ReplyView::System(Seq::empty())]
                + rest;
            let nameless = seq![ReplyView::Namespace(others)] + rest;
            let present = seq![ReplyView::Namespace(others), ReplyView::System(tenants)];
            renders(BY_SYSTEM_NAME@, Kind::Namespace, key_fields()) && renders(
                crate::system_store::BY_GUID@,
                Kind::System,
                uid_only(),
            ) ==> {
                &&& named ==> create(n, fields, Script { log: absent, at: 0 }) == (
                    StepView::<Result<Option<NamespaceView>, StoreErrorView>>::Done(
                        Err(StoreErrorView::System(SystemError::DoesNotExist)),
                    ),
                    Script { log: absent, at: 2 },
                )
                &&& !named ==> create(n, fields, Script { log: nameless, at: 0 }) == (
                    StepView::<Result<Option<NamespaceView>, StoreErrorView>>::Done(
                        Err(StoreErrorView::System(SystemError::Empty)),
                    ),
                    Script { log: nameless, at: 1 },
                )
                &&& named ==> create(n, fields, Script { log: present, at: 0 }).0 == save_of(n)
            }
        }),
        StoreErrorView::System(SystemError::DoesNotExist).kind() == ErrorKind::NotFound,
{
    matching_finds_the_first(others, n.name.unwrap(), n.systems.unwrap()[0].uid.unwrap(), 0);
}

/// An edge is appended, whether or not it is there already. When the store
/// finds the namespace `n`, `associate_scope` asks to save `n` with the
/// scope after the edges it had; so when the store finds what was saved
/// and the operation runs again, the edge stands twice at the end.
pub proof fn associate_appends(
    guid: Seq<char>,
    n: NamespaceView,
    scope: ScopeView,
    fields: Seq<FieldView>,
)
    ensures
        ({
            let once = NamespaceView { scopes: Some(edges(n.scopes).push(scope)), ..n };
            let twice = NamespaceView { scopes: Some(edges(n.scopes).push(scope).push(scope)), ..n };
            renders(BY_GUID@, Kind::Namespace, keys_with(Kind::Scope)) ==> {
                &&& associate_scope(guid, scope, fields, found(n)).0 == save_of(once)
                &&& associate_scope(guid, scope, fields, found(once)).0 == save_of(twice)
            }
        }),
{
}

} // verus!
