//! The store of systems.

use vstd::prelude::*;
use crate::authenticator::{Authenticator, AuthenticatorError, AuthenticatorErrorView, AuthenticatorView};
use crate::authenticator_store::AuthenticatorStore;
use crate::db::{
    bind, query, save_record, saved, Found, Record, RecordView, Replay, Reply, ReplyView,
    Request, RequestView, Script, Step, StepView,
};
use crate::entity::{Entity, EntityError, EntityErrorView, EntityView};
use crate::entity_store::EntityStore;
use crate::error::{StoreError, StoreErrorView};
use crate::namespace::{Namespace, NamespaceView};
use crate::projection::{keys_with, select_keys_with, select_uid, uid_only, Field, FieldView, Kind};
use crate::record::{edges, first_of};
use crate::system::{System, SystemError, SystemView};
use crate::template::{query_text, renders, select};

verus! {

/// The operations on systems.
pub struct SystemStore {}

/// The system with a given guid.
pub const BY_GUID: &'static str = r#"
query system($guid: string) {
    system(func: eq(guid, $guid)) @filter(eq(dgraph.type, "System")) {
        {{#each fields}}
        {{this}}
        {{/each}}
    }
}
"#;

/// The first system of the answer to `request`: the request, while it is
/// unanswered; then the first row, or none where there is no row. Any reply
/// other than rows of systems is a fault.
pub open spec fn first(request: RequestView, s: Script) -> (Found<SystemView>, Script) {
    if !s.answered() {
        (StepView::Ask(request), s)
    } else {
        (
            StepView::Done(
                match s.reply() {
                    ReplyView::System(rows) => Ok(first_of(rows)),
                    ReplyView::Failed(failure) => Err(failure.fault()),
                    _ => Err(StoreErrorView::Decode),
                },
            ),
            s.next(),
        )
    }
}

/// What [`SystemStore::find_by_guid`] comes to in a script: an error where
/// the projection is not admitted or the query does not render; else the
/// first system of the answer to the query, asked with `$guid` bound to the
/// guid.
pub open spec fn find_by_guid(guid: Seq<char>, fields: Seq<FieldView>, s: Script) -> (
    Found<SystemView>,
    Script,
) {
    match query_text(BY_GUID@, Kind::System, fields) {
        Err(e) => (StepView::Done(Err(e)), s),
        Ok(text) => first(
            RequestView::Query { text, vars: seq![("$guid"@, guid)], root: Kind::System },
            s,
        ),
    }
}

/// Whether a system with the guid exists. A lookup that fails counts as
/// "does not exist": the check fails closed.
pub open spec fn is_known(guid: Seq<char>, s: Script) -> (StepView<bool>, Script) {
    let (step, s1) = find_by_guid(guid, uid_only(), s);
    match step {
        StepView::Ask(request) => (StepView::Ask(request), s1),
        StepView::Done(Ok(found)) => (StepView::Done(found.is_some()), s1),
        StepView::Done(Err(_)) => (StepView::Done(false), s1),
    }
}

/// What [`SystemStore::create`] comes to in a script. The record must be
/// valid. It is saved and read back by its guid under `fields`. A save that
/// fails ends the creation with that error.
pub open spec fn create(sys: SystemView, fields: Seq<FieldView>, s: Script) -> (
    Found<SystemView>,
    Script,
) {
    if !sys.valid() {
        (StepView::Done(Err(StoreErrorView::System(SystemError::ValidationFailed))), s)
    } else {
        let (kept, s1) = saved(RecordView::System(sys), s);
        match kept {
            StepView::Ask(request) => (StepView::Ask(request), s1),
            StepView::Done(Err(e)) => (StepView::Done(Err(e)), s1),
            StepView::Done(Ok(_)) => find_by_guid(sys.guid.unwrap(), fields, s1),
        }
    }
}

/// The first half of an `associate` operation: reads the system with the
/// given guid under `probe`; fails where there is none; else saves what
/// `link` makes of it and hands that on.
pub open spec fn extend(
    guid: Seq<char>,
    probe: Seq<FieldView>,
    link: spec_fn(SystemView) -> SystemView,
    s: Script,
) -> (StepView<Result<SystemView, StoreErrorView>>, Script) {
    let (current, s1) = find_by_guid(guid, probe, s);
    match current {
        StepView::Ask(request) => (StepView::Ask(request), s1),
        StepView::Done(Err(e)) => (StepView::Done(Err(e)), s1),
        StepView::Done(Ok(None)) => (
            StepView::Done(Err(StoreErrorView::System(SystemError::DoesNotExist))),
            s1,
        ),
        StepView::Done(Ok(Some(sys))) => {
            let (kept, s2) = saved(RecordView::System(link(sys)), s1);
            match kept {
                StepView::Ask(request) => (StepView::Ask(request), s2),
                StepView::Done(Err(e)) => (StepView::Done(Err(e)), s2),
                StepView::Done(Ok(_)) => (StepView::Done(Ok(link(sys))), s2),
            }
        },
    }
}

/// What [`SystemStore::associate_entity`] comes to in a script. The system is
/// saved with the entity appended, as [`extend`] says. The entity must then
/// have a uid: the system as it was saved is appended to the systems of that
/// entity. At last the system is read again under `fields`.
pub open spec fn associate_entity(
    guid: Seq<char>,
    e: EntityView,
    fields: Seq<FieldView>,
    s: Script,
) -> (Found<SystemView>, Script) {
    let (extended, s1) = extend(
        guid,
        keys_with(Kind::Entity),
        |sys: SystemView| SystemView { entities: Some(edges(sys.entities).push(e)), ..sys },
        s,
    );
    match (extended, e.uid) {
        (StepView::Ask(request), _) => (StepView::Ask(request), s1),
        (StepView::Done(Err(x)), _) => (StepView::Done(Err(x)), s1),
        (StepView::Done(Ok(_)), None) => (
            StepView::Done(Err(StoreErrorView::Entity(EntityErrorView::EmptyField("uid"@)))),
            s1,
        ),
        (StepView::Done(Ok(update)), Some(key)) => {
            let (back, s2) = crate::entity_store::associate_system(key, update, uid_only(), s1);
            match back {
                StepView::Ask(request) => (StepView::Ask(request), s2),
                StepView::Done(Err(x)) => (StepView::Done(Err(x)), s2),
                StepView::Done(Ok(_)) => find_by_guid(guid, fields, s2),
            }
        },
    }
}

/// What [`SystemStore::associate_authenticator`] comes to in a script. The
/// system is saved with the authenticator appended, as [`extend`] says. The
/// authenticator must then have a uid: the system as it was saved is appended
/// to the systems of that authenticator. At last the system is read again
/// under `fields`.
pub open spec fn associate_authenticator(
    guid: Seq<char>,
    a: AuthenticatorView,
    fields: Seq<FieldView>,
    s: Script,
) -> (Found<SystemView>, Script) {
    let (extended, s1) = extend(
        guid,
        keys_with(Kind::Authenticator),
        |sys: SystemView|
            SystemView { authenticators: Some(edges(sys.authenticators).push(a)), ..sys },
        s,
    );
    match (extended, a.uid) {
        (StepView::Ask(request), _) => (StepView::Ask(request), s1),
        (StepView::Done(Err(x)), _) => (StepView::Done(Err(x)), s1),
        (StepView::Done(Ok(_)), None) => (
            StepView::Done(
                Err(StoreErrorView::Authenticator(AuthenticatorErrorView::EmptyField("uid"@))),
            ),
            s1,
        ),
        (StepView::Done(Ok(update)), Some(key)) => {
            let (back, s2) = crate::authenticator_store::associate_system(
                key,
                update,
                uid_only(),
                s1,
            );
            match back {
                StepView::Ask(request) => (StepView::Ask(request), s2),
                StepView::Done(Err(x)) => (StepView::Done(Err(x)), s2),
                StepView::Done(Ok(_)) => find_by_guid(guid, fields, s2),
            }
        },
    }
}

/// What [`SystemStore::associate_namespace`] comes to in a script. The system
/// is saved with the namespace appended, as [`extend`] says, and read again
/// under `fields`.
pub open spec fn associate_namespace(
    guid: Seq<char>,
    n: NamespaceView,
    fields: Seq<FieldView>,
    s: Script,
) -> (Found<SystemView>, Script) {
    let (extended, s1) = extend(
        guid,
        keys_with(Kind::Namespace),
        |sys: SystemView| SystemView { namespaces: Some(edges(sys.namespaces).push(n)), ..sys },
        s,
    );
    match extended {
        StepView::Ask(request) => (StepView::Ask(request), s1),
        StepView::Done(Err(x)) => (StepView::Done(Err(x)), s1),
        StepView::Done(Ok(_)) => find_by_guid(guid, fields, s1),
    }
}

impl SystemStore {
    /// Sends `request` and takes the first system of the answer.
    pub fn first(request: Request, io: &mut Replay) -> (r: Step<Result<Option<System>, StoreError>>)
        ensures
            (r@, final(io)@) == first(request@, old(io)@),
    {
        let out = match io.peek() {
            None => {
                return Step::Ask(request);
            },
            Some(reply) => match reply {
                Reply::System(rows) => Ok(rows.first()),
                Reply::Failed(failure) => Err(failure.error()),
                _ => Err(StoreError::Decode),
            },
        };
        io.advance();
        Step::Done(out)
    }

    /// The system with the guid `guid`, or none.
    pub fn find_by_guid(guid: &str, fields: &Vec<Field>, io: &mut Replay) -> (r: Step<
        Result<Option<System>, StoreError>,
    >)
        ensures
            (r@, final(io)@) == find_by_guid(guid@, fields.deep_view(), old(io)@),
    {
        match select(BY_GUID, Kind::System, fields) {
            Err(e) => Step::Done(Err(e)),
            Ok(text) => Self::first(query(text, bind("$guid", guid), Kind::System), io),
        }
    }

    /// Whether a system with the guid `guid` exists.
    pub fn is_known(guid: &str, io: &mut Replay) -> (r: Step<bool>)
        ensures
            (r@, final(io)@) == is_known(guid@, old(io)@),
    {
        let probe = select_uid();
        match Self::find_by_guid(guid, &probe, io) {
            Step::Ask(request) => Step::Ask(request),
            Step::Done(Ok(found)) => Step::Done(found.is_some()),
            Step::Done(Err(_)) => Step::Done(false),
        }
    }

    /// Creates the system `s` and reads it back under `fields`.
    pub fn create(s: &System, fields: &Vec<Field>, io: &mut Replay) -> (r: Step<
        Result<Option<System>, StoreError>,
    >)
        ensures
            (r@, final(io)@) == create(s@, fields.deep_view(), old(io)@),
    {
        if !s.validate() {
            return Step::Done(Err(StoreError::System(SystemError::ValidationFailed)));
        }
        match save_record(Record::System(s.clone()), io) {
            Step::Ask(request) => {
                return Step::Ask(request);
            },
            Step::Done(Err(e)) => {
                return Step::Done(Err(e));
            },
            Step::Done(Ok(_)) => {},
        }
        match &s.guid {
            Some(guid) => Self::find_by_guid(guid.as_str(), fields, io),
            None => Step::Done(Err(StoreError::System(SystemError::ValidationFailed))),
        }
    }

    /// Appends the entity `e` to the entities of the system with the guid
    /// `guid`, and the system to the systems of `e`.
    pub fn associate_entity(guid: &str, e: &Entity, fields: &Vec<Field>, io: &mut Replay) -> (r:
        Step<Result<Option<System>, StoreError>>)
        ensures
            (r@, final(io)@) == associate_entity(guid@, e@, fields.deep_view(), old(io)@),
    {
        let probe = select_keys_with(Kind::Entity);
        let current = match Self::find_by_guid(guid, &probe, io) {
            Step::Ask(request) => {
                return Step::Ask(request);
            },
            Step::Done(Err(x)) => {
                return Step::Done(Err(x));
            },
            Step::Done(Ok(None)) => {
                return Step::Done(Err(StoreError::System(SystemError::DoesNotExist)));
            },
            Step::Done(Ok(Some(s))) => s,
        };
        let update = current.add_entity(e.clone());
        match save_record(Record::System(update.clone()), io) {
            Step::Ask(request) => {
                return Step::Ask(request);
            },
            Step::Done(Err(x)) => {
                return Step::Done(Err(x));
            },
            Step::Done(Ok(_)) => {},
        }
        let key = match &e.uid {
            None => {
                return Step::Done(Err(StoreError::Entity(EntityError::missing("uid"))));
            },
            Some(key) => key,
        };
        let back = select_uid();
        match EntityStore::associate_system(key.as_str(), &update, &back, io) {
            Step::Ask(request) => {
                return Step::Ask(request);
            },
            Step::Done(Err(x)) => {
                return Step::Done(Err(x));
            },
            Step::Done(Ok(_)) => {},
        }
        Self::find_by_guid(guid, fields, io)
    }

    /// Appends the authenticator `a` to the authenticators of the system
    /// with the guid `guid`, and the system to the systems of `a`.
    pub fn associate_authenticator(
        guid: &str,
        a: &Authenticator,
        fields: &Vec<Field>,
        io: &mut Replay,
    ) -> (r: Step<Result<Option<System>, StoreError>>)
        ensures
            (r@, final(io)@) == associate_authenticator(guid@, a@, fields.deep_view(), old(io)@),
    {
        let probe = select_keys_with(Kind::Authenticator);
        let current = match Self::find_by_guid(guid, &probe, io) {
            Step::Ask(request) => {
                return Step::Ask(request);
            },
            Step::Done(Err(x)) => {
                return Step::Done(Err(x));
            },
            Step::Done(Ok(None)) => {
                return Step::Done(Err(StoreError::System(SystemError::DoesNotExist)));
            },
            Step::Done(Ok(Some(s))) => s,
        };
        let update = current.add_authenticator(a.clone());
        match save_record(Record::System(update.clone()), io) {
            Step::Ask(request) => {
                return Step::Ask(request);
            },
            Step::Done(Err(x)) => {
                return Step::Done(Err(x));
            },
            Step::Done(Ok(_)) => {},
        }
        let key = match &a.uid {
            None => {
                return Step::Done(Err(StoreError::Authenticator(AuthenticatorError::missing("uid"))));
            },
            Some(key) => key,
        };
        let back = select_uid();
        match AuthenticatorStore::associate_system(key.as_str(), &update, &back, io) {
            Step::Ask(request) => {
                return Step::Ask(request);
            },
            Step::Done(Err(x)) => {
                return Step::Done(Err(x));
            },
            Step::Done(Ok(_)) => {},
        }
        Self::find_by_guid(guid, fields, io)
    }

    /// Appends the namespace `n` to the namespaces of the system with the
    /// guid `guid`.
    pub fn associate_namespace(
        guid: &str,
        n: &Namespace,
        fields: &Vec<Field>,
        io: &mut Replay,
    ) -> (r: Step<Result<Option<System>, StoreError>>)
        ensures
            (r@, final(io)@) == associate_namespace(guid@, n@, fields.deep_view(), old(io)@),
    {
        let probe = select_keys_with(Kind::Namespace);
        let current = match Self::find_by_guid(guid, &probe, io) {
            Step::Ask(request) => {
                return Step::Ask(request);
            },
            Step::Done(Err(x)) => {
                return Step::Done(Err(x));
            },
            Step::Done(Ok(None)) => {
                return Step::Done(Err(StoreError::System(SystemError::DoesNotExist)));
            },
            Step::Done(Ok(Some(s))) => s,
        };
        let update = current.add_namespace(n.clone());
        match save_record(Record::System(update), io) {
            Step::Ask(request) => {
                return Step::Ask(request);
            },
            Step::Done(Err(x)) => {
                return Step::Done(Err(x));
            },
            Step::Done(Ok(_)) => {},
        }
        Self::find_by_guid(guid, fields, io)
    }
}

/// The script in which the store has found the system `sys` and nothing
/// else has been asked.
pub open spec fn found(sys: SystemView) -> Script {
    Script { log: seq![ReplyView::System(seq![sys])], at: 0 }
}

/// The step that asks to save the system `sys`.
pub open spec fn save_of(sys: SystemView) -> Found<SystemView> {
    StepView::Ask(RequestView::Save(RecordView::System(sys)))
}

/// A lookup that matches nothing finds nothing, and that is no error: when
/// the store answers with no rows, the lookup ends with none.
pub proof fn lookups_report_absence(guid: Seq<char>, fields: Seq<FieldView>, s: Script)
    requires
        s.answered(),
        s.reply() == ReplyView::System(Seq::empty()),
    ensures
        renders(BY_GUID@, Kind::System, fields) ==> find_by_guid(guid, fields, s) == (
            StepView::<Result<Option<SystemView>, StoreErrorView>>::Done(Ok(None)),
            s.next(),
        ),
        renders(BY_GUID@, Kind::System, uid_only()) ==> is_known(guid, s) == (
            StepView::<bool>::Done(false),
            s.next(),
        ),
{
}

/// An edge is appended, whether or not it is there already. When the store
/// finds the system `sys`, each `associate` asks to save `sys` with the
/// related record after the edges it had; so when the store finds what was
/// saved and the operation runs again, the edge stands twice at the end.
pub proof fn associate_appends(
    guid: Seq<char>,
    sys: SystemView,
    e: EntityView,
    a: AuthenticatorView,
    n: NamespaceView,
    fields: Seq<FieldView>,
)
    ensures
        ({
            let once = SystemView { entities: Some(edges(sys.entities).push(e)), ..sys };
            let twice = SystemView { entities: Some(edges(sys.entities).push(e).push(e)), ..sys };
            renders(BY_GUID@, Kind::System, keys_with(Kind::Entity)) ==> {
                &&& associate_entity(guid, e, fields, found(sys)).0 == save_of(once)
                &&& associate_entity(guid, e, fields, found(once)).0 == save_of(twice)
            }
        }),
        ({
            let once = SystemView { authenticators: Some(edges(sys.authenticators).push(a)), ..sys };
            let twice = SystemView {
                authenticators: Some(edges(sys.authenticators).push(a).push(a)),
                ..sys
            };
            renders(BY_GUID@, Kind::System, keys_with(Kind::Authenticator)) ==> {
                &&& associate_authenticator(guid, a, fields, found(sys)).0 == save_of(once)
                &&& associate_authenticator(guid, a, fields, found(once)).0 == save_of(twice)
            }
        }),
        ({
            let once = SystemView { namespaces: Some(edges(sys.namespaces).push(n)), ..sys };
            let twice = SystemView {
                namespaces: Some(edges(sys.namespaces).push(n).push(n)),
                ..sys
            };
            renders(BY_GUID@, Kind::System, keys_with(Kind::Namespace)) ==> {
                &&& associate_namespace(guid, n, fields, found(sys)).0 == save_of(once)
                &&& associate_namespace(guid, n, fields, found(once)).0 == save_of(twice)
            }
        }),
{
}

} // verus!
