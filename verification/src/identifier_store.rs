//! The store of identifiers.

use vstd::prelude::*;
use vstd::string::*;
use crate::authenticator::{Authenticator, AuthenticatorError, AuthenticatorErrorView, AuthenticatorView};
use crate::authenticator_store::AuthenticatorStore;
use crate::db::{
    bind, bind2, query, save_record, saved, Found, Record, RecordView, Replay, Reply, ReplyView,
    Request, RequestView, Script, Step, StepView, Vars,
};
use crate::entity_store::EntityStore;
use crate::error::{ErrorKind, StoreError, StoreErrorView};
use crate::identifier::{
    Identifier, IdentifierError, IdentifierErrorView, IdentifierRoot, IdentifierType,
    IdentifierView,
};
use crate::projection::{
    select_uid, select_uid_with, uid_only, uid_with, Field, FieldView, Kind, Scalar,
};
use crate::record::{edges, first_of};
use crate::template::{query_text, renders, select};

verus! {

/// The operations on identifiers.
pub struct IdentifierStore {}

/// The identifier with a given uid.
pub const BY_UID: &'static str = r#"
query identifier($uid: string) {
    identifier(func: uid($uid)) @filter(eq(dgraph.type, "Identifier")) {
        {{#each fields}}
        {{this}}
        {{/each}}
    }
}
"#;

/// The identifiers of a given type whose value matches a regular expression.
pub const BY_TYPE_VALUE: &'static str = r#"
query identifier($type: string, $value: string) {
    identifier(func: regexp(value, $value)) @filter(eq(identifier_type, $type) AND eq(dgraph.type, "Identifier")) {
        {{#each fields}}
        {{this}}
        {{/each}}
    }
}
"#;

/// The first identifier of the answer to `request`: the request, while it
/// is unanswered; then the first row, or none where there is no row. Any
/// reply other than rows of identifiers is a fault.
pub open spec fn first(request: RequestView, s: Script) -> (Found<IdentifierView>, Script) {
    if !s.answered() {
        (StepView::Ask(request), s)
    } else {
        (
            StepView::Done(
                match s.reply() {
                    ReplyView::Identifier(rows) => Ok(first_of(rows)),
                    ReplyView::Failed(failure) => Err(failure.fault()),
                    _ => Err(StoreErrorView::Decode),
                },
            ),
            s.next(),
        )
    }
}

/// What [`IdentifierStore::find_by_uid`] comes to in a script: an error where
/// the projection is not admitted or the query does not render; else the
/// first identifier of the answer to the query, asked with `$uid` bound to
/// the uid.
pub open spec fn find_by_uid(uid: Seq<char>, fields: Seq<FieldView>, s: Script) -> (
    Found<IdentifierView>,
    Script,
) {
    match query_text(BY_UID@, Kind::Identifier, fields) {
        Err(e) => (StepView::Done(Err(e)), s),
        Ok(text) => first(
            RequestView::Query { text, vars: seq![("$uid"@, uid)], root: Kind::Identifier },
            s,
        ),
    }
}

/// The characters that a regular expression reads as an instruction, and
/// the slash that ends it.
pub open spec fn special(c: char) -> bool {
    c == '\\' || c == '.' || c == '+' || c == '*' || c == '?' || c == '(' || c == ')' || c == '|'
        || c == '[' || c == ']' || c == '{' || c == '}' || c == '^' || c == '$' || c == '/'
}

/// `value` with a backslash before each special character: the regular
/// expression that matches the characters of `value` and nothing else.
pub open spec fn escaped(value: Seq<char>) -> Seq<char>
    decreases value.len(),
{
    if value.len() == 0 {
        value
    } else if special(value.last()) {
        escaped(value.drop_last()) + seq!['\\', value.last()]
    } else {
        escaped(value.drop_last()) + seq![value.last()]
    }
}

/// The regular expression, between its slashes, that matches `value` from
/// its first character to its last and nothing else.
pub open spec fn pattern(value: Seq<char>) -> Seq<char> {
    "/^"@ + escaped(value) + "$/"@
}

/// Whether a row does not contradict a key: its type, where the row has
/// one, is the type of the key, and its value, where it has one, is the
/// value of the key.
pub open spec fn agrees(row: IdentifierView, identifier_type: IdentifierType, value: Seq<char>) -> bool {
    &&& row.identifier_type matches Some(t) ==> t == identifier_type
    &&& row.value matches Some(v) ==> v == value
}

/// The first row from `from` on that agrees with the key.
pub open spec fn matching_from(
    rows: Seq<IdentifierView>,
    identifier_type: IdentifierType,
    value: Seq<char>,
    from: int,
) -> Option<IdentifierView>
    decreases rows.len() - from,
{
    if from < 0 || from >= rows.len() {
        None
    } else if agrees(rows[from], identifier_type, value) {
        Some(rows[from])
    } else {
        matching_from(rows, identifier_type, value, from + 1)
    }
}

/// The first row that agrees with the key.
pub open spec fn matching(
    rows: Seq<IdentifierView>,
    identifier_type: IdentifierType,
    value: Seq<char>,
) -> Option<IdentifierView> {
    matching_from(rows, identifier_type, value, 0)
}

/// The projection that a lookup by key is checked on: the uid, the type
/// and the value.
pub open spec fn key_fields() -> Seq<FieldView> {
    seq![
        FieldView::Scalar(Scalar::Uid),
        FieldView::Scalar(Scalar::IdentifierType),
        FieldView::Scalar(Scalar::Value),
    ]
}

/// What [`IdentifierStore::find_by_type_value`] comes to in a script: an
/// error where the projection is not admitted or the query does not render;
/// else the query is asked with `$type` bound to the type and `$value` to
/// the [`pattern`] of the value, and the result is the first identifier of
/// the answer that agrees with the key. A row of another type or value is
/// passed over, whatever the store made of the expression.
pub open spec fn find_by_type_value(
    identifier_type: IdentifierType,
    value: Seq<char>,
    fields: Seq<FieldView>,
    s: Script,
) -> (Found<IdentifierView>, Script) {
    match query_text(BY_TYPE_VALUE@, Kind::Identifier, fields) {
        Err(e) => (StepView::Done(Err(e)), s),
        Ok(text) => {
            let request = RequestView::Query {
                text,
                vars: seq![("$type"@, identifier_type.text()), ("$value"@, pattern(value))],
                root: Kind::Identifier,
            };
            if !s.answered() {
                (StepView::Ask(request), s)
            } else {
                (
                    StepView::Done(
                        match s.reply() {
                            ReplyView::Identifier(rows) => Ok(
                                matching(rows, identifier_type, value),
                            ),
                            ReplyView::Failed(failure) => Err(failure.fault()),
                            _ => Err(StoreErrorView::Decode),
                        },
                    ),
                    s.next(),
                )
            }
        },
    }
}

/// Whether an identifier with the uid exists. A lookup that fails counts
/// as "does not exist": the check fails closed.
pub open spec fn is_known(uid: Seq<char>, s: Script) -> (StepView<bool>, Script) {
    let (step, s1) = find_by_uid(uid, uid_only(), s);
    match step {
        StepView::Ask(request) => (StepView::Ask(request), s1),
        StepView::Done(Ok(found)) => (StepView::Done(found.is_some()), s1),
        StepView::Done(Err(_)) => (StepView::Done(false), s1),
    }
}

/// What `create` needs of the record before it asks anything: its type, its
/// value and the uid of its first entity. A field that the record lacks is
/// reported by its name; that its entity has no uid, as `Empty`.
pub open spec fn required(i: IdentifierView) -> Result<
    (IdentifierType, Seq<char>, Seq<char>),
    StoreErrorView,
> {
    match (i.identifier_type, i.value, i.entities) {
        (None, _, _) => Err(
            StoreErrorView::Identifier(IdentifierErrorView::EmptyField("identifier_type"@)),
        ),
        (Some(_), None, _) => Err(StoreErrorView::Identifier(IdentifierErrorView::EmptyField("value"@))),
        (Some(kind), Some(value), Some(list)) if list.len() > 0 => match list[0].uid {
            Some(owner) => Ok((kind, value, owner)),
            None => Err(StoreErrorView::Identifier(IdentifierErrorView::Empty)),
        },
        _ => Err(StoreErrorView::Identifier(IdentifierErrorView::EmptyField("entities"@))),
    }
}

/// The record as it is linked after a save: under the uid that the store
/// assigned, if it assigned one.
pub open spec fn assigned(i: IdentifierView, uid: Option<Seq<char>>) -> IdentifierView {
    match uid {
        Some(uid) => IdentifierView { uid: Some(uid), ..i },
        None => i,
    }
}

/// What [`IdentifierStore::create`] comes to in a script. The record must
/// pass [`required`]. Its entity must exist, or the creation fails with
/// `DoesNotExist`. No identifier may have its type and its whole value, or it
/// fails with `IdentifierExists`. It is then saved, and appended to the
/// identifiers of its entity under the uid that the store gave it; whether
/// that link succeeds or fails, the record is read back by its type and its
/// whole value under `fields`. A lookup or a save that fails ends the
/// creation with that error.
pub open spec fn create(i: IdentifierView, fields: Seq<FieldView>, s: Script) -> (
    Found<IdentifierView>,
    Script,
) {
    match required(i) {
        Err(e) => (StepView::Done(Err(e)), s),
        Ok((kind, value, owner)) => {
            let (known, s1) = crate::entity_store::is_known(owner, s);
            match known {
                StepView::Ask(request) => (StepView::Ask(request), s1),
                StepView::Done(false) => (
                    StepView::Done(Err(StoreErrorView::Identifier(IdentifierErrorView::DoesNotExist))),
                    s1,
                ),
                StepView::Done(true) => {
                    let (taken, s2) = find_by_type_value(kind, value, key_fields(), s1);
                    match taken {
                        StepView::Ask(request) => (StepView::Ask(request), s2),
                        StepView::Done(Err(e)) => (StepView::Done(Err(e)), s2),
                        StepView::Done(Ok(Some(_))) => (
                            StepView::Done(
                                Err(StoreErrorView::Identifier(IdentifierErrorView::IdentifierExists)),
                            ),
                            s2,
                        ),
                        StepView::Done(Ok(None)) => {
                            let (kept, s3) = saved(RecordView::Identifier(i), s2);
                            match kept {
                                StepView::Ask(request) => (StepView::Ask(request), s3),
                                StepView::Done(Err(e)) => (StepView::Done(Err(e)), s3),
                                StepView::Done(Ok(uid)) => {
                                    let (linked, s4) = crate::entity_store::associate_identity(
                                        owner,
                                        assigned(i, uid),
                                        uid_only(),
                                        s3,
                                    );
                                    match linked {
                                        StepView::Ask(request) => (StepView::Ask(request), s4),
                                        StepView::Done(_) => find_by_type_value(
                                            kind,
                                            value,
                                            fields,
                                            s4,
                                        ),
                                    }
                                },
                            }
                        },
                    }
                },
            }
        },
    }
}

/// What [`IdentifierStore::associate_authenticator`] comes to in a script.
/// The identifier is read with its authenticators, and the operation fails
/// with `DoesNotExist` where there is none. It is saved with the
/// authenticator appended. The authenticator must then have a uid: the
/// identifier as it was saved is appended to the identifiers of that
/// authenticator. At last the identifier is read again under `fields`. A
/// lookup or a save that fails ends the operation with that error.
pub open spec fn associate_authenticator(
    uid: Seq<char>,
    a: AuthenticatorView,
    fields: Seq<FieldView>,
    s: Script,
) -> (Found<IdentifierView>, Script) {
    let (current, s1) = find_by_uid(uid, uid_with(Kind::Authenticator), s);
    match current {
        StepView::Ask(request) => (StepView::Ask(request), s1),
        StepView::Done(Err(e)) => (StepView::Done(Err(e)), s1),
        StepView::Done(Ok(None)) => (
            StepView::Done(Err(StoreErrorView::Identifier(IdentifierErrorView::DoesNotExist))),
            s1,
        ),
        StepView::Done(Ok(Some(i))) => {
            let update = IdentifierView {
                authenticators: Some(edges(i.authenticators).push(a)),
                ..i
            };
            let (kept, s2) = saved(RecordView::Identifier(update), s1);
            match kept {
                StepView::Ask(request) => (StepView::Ask(request), s2),
                StepView::Done(Err(e)) => (StepView::Done(Err(e)), s2),
                StepView::Done(Ok(_)) => match a.uid {
                    None => (
                        StepView::Done(
                            Err(
                                StoreErrorView::Authenticator(
                                    AuthenticatorErrorView::EmptyField("uid"@),
                                ),
                            ),
                        ),
                        s2,
                    ),
                    Some(key) => {
                        let (back, s3) = crate::authenticator_store::associate_identifier(
                            key,
                            update,
                            uid_only(),
                            s2,
                        );
                        match back {
                            StepView::Ask(request) => (StepView::Ask(request), s3),
                            StepView::Done(Err(e)) => (StepView::Done(Err(e)), s3),
                            StepView::Done(Ok(_)) => find_by_uid(uid, fields, s3),
                        }
                    },
                },
            }
        },
    }
}

impl IdentifierStore {
    /// Sends `request` and takes the first identifier of the answer.
    pub fn first(request: Request, io: &mut Replay) -> (r: Step<
        Result<Option<Identifier>, StoreError>,
    >)
        ensures
            (r@, final(io)@) == first(request@, old(io)@),
    {
        let out = match io.peek() {
            None => {
                return Step::Ask(request);
            },
            Some(reply) => match reply {
                Reply::Identifier(rows) => Ok(rows.first()),
                Reply::Failed(failure) => Err(failure.error()),
                _ => Err(StoreError::Decode),
            },
        };
        io.advance();
        Step::Done(out)
    }

    /// The identifier with the uid `uid`, or none.
    pub fn find_by_uid(uid: &str, fields: &Vec<Field>, io: &mut Replay) -> (r: Step<
        Result<Option<Identifier>, StoreError>,
    >)
        ensures
            (r@, final(io)@) == find_by_uid(uid@, fields.deep_view(), old(io)@),
    {
        match select(BY_UID, Kind::Identifier, fields) {
            Err(e) => Step::Done(Err(e)),
            Ok(text) => Self::first(query(text, bind("$uid", uid), Kind::Identifier), io),
        }
    }

    /// The identifier of type `identifier_type` and value `value`, or none.
    pub fn find_by_type_value(
        identifier_type: IdentifierType,
        value: &str,
        fields: &Vec<Field>,
        io: &mut Replay,
    ) -> (r: Step<Result<Option<Identifier>, StoreError>>)
        ensures
            (r@, final(io)@) == find_by_type_value(
                identifier_type,
                value@,
                fields.deep_view(),
                old(io)@,
            ),
    {
        let text = match select(BY_TYPE_VALUE, Kind::Identifier, fields) {
            Err(e) => {
                return Step::Done(Err(e));
            },
            Ok(text) => text,
        };
        let exact = Self::pattern(value);
        let kind = identifier_type.to_string();
        let request = query(
            text,
            bind2("$type", kind.as_str(), "$value", exact.as_str()),
            Kind::Identifier,
        );
        let out = match io.peek() {
            None => {
                return Step::Ask(request);
            },
            Some(reply) => match reply {
                Reply::Identifier(rows) => Ok(Self::matching(rows, identifier_type, value)),
                Reply::Failed(failure) => Err(failure.error()),
                _ => Err(StoreError::Decode),
            },
        };
        io.advance();
        Step::Done(out)
    }

    /// The regular expression, between its slashes, that matches `value`
    /// and nothing else.
    pub fn pattern(value: &str) -> (r: String)
        ensures
            r@ == pattern(value@),
    {
        let n = value.unicode_len();
        let mut out = String::from_str("/^");
        let mut k: usize = 0;
        while k < n
            invariant
                n == value@.len(),
                k <= n,
                out@ == "/^"@ + escaped(value@.take(k as int)),
            decreases n - k,
        {
            let c = value.get_char(k);
            let marked = c == '\\' || c == '.' || c == '+' || c == '*' || c == '?' || c == '('
                || c == ')' || c == '|' || c == '[' || c == ']' || c == '{' || c == '}' || c == '^'
                || c == '$' || c == '/';
            if marked {
                out.append("\\");
            }
            out.append(value.substring_char(k, k + 1));
            proof {
                reveal_strlit("\\");
                let next = value@.take(k + 1);
                assert(next.drop_last() =~= value@.take(k as int));
            }
            k += 1;
        }
        proof {
            assert(value@.take(k as int) =~= value@);
        }
        out.append("$/");
        out
    }

    /// The first row of `rows` that agrees with the key.
    pub fn matching(rows: &IdentifierRoot, identifier_type: IdentifierType, value: &str) -> (r:
        Option<Identifier>)
        ensures
            r.deep_view() == matching(rows@, identifier_type, value@),
    {
        let key = value.to_string();
        let mut k: usize = 0;
        while k < rows.identifier.len()
            invariant
                k <= rows.identifier.len(),
                key@ == value@,
                matching(rows@, identifier_type, value@) == matching_from(
                    rows@,
                    identifier_type,
                    value@,
                    k as int,
                ),
            decreases rows.identifier.len() - k,
        {
            let row = &rows.identifier[k];
            let typed = match row.identifier_type {
                Some(t) => t == identifier_type,
                None => true,
            };
            let valued = match &row.value {
                Some(v) => *v == key,
                None => true,
            };
            if typed && valued {
                return Some(row.clone());
            }
            k += 1;
        }
        None
    }

    /// Whether an identifier with the uid `uid` exists.
    pub fn is_known(uid: &str, io: &mut Replay) -> (r: Step<bool>)
        ensures
            (r@, final(io)@) == is_known(uid@, old(io)@),
    {
        let probe = select_uid();
        match Self::find_by_uid(uid, &probe, io) {
            Step::Ask(request) => Step::Ask(request),
            Step::Done(Ok(found)) => Step::Done(found.is_some()),
            Step::Done(Err(_)) => Step::Done(false),
        }
    }

    /// Creates the identifier `i` of an entity that exists, links it to that
    /// entity, and reads it back under `fields`. The pair of type and value
    /// must not be taken.
    pub fn create(i: &Identifier, fields: &Vec<Field>, io: &mut Replay) -> (r: Step<
        Result<Option<Identifier>, StoreError>,
    >)
        ensures
            (r@, final(io)@) == create(i@, fields.deep_view(), old(io)@),
    {
        let kind = match i.identifier_type {
            None => {
                return Step::Done(
                    Err(StoreError::Identifier(IdentifierError::missing("identifier_type"))),
                );
            },
            Some(kind) => kind,
        };
        let value = match &i.value {
            None => {
                return Step::Done(Err(StoreError::Identifier(IdentifierError::missing("value"))));
            },
            Some(value) => value,
        };
        let owner = match &i.entities {
            None => {
                return Step::Done(Err(StoreError::Identifier(IdentifierError::missing("entities"))));
            },
            Some(list) => {
                if list.len() == 0 {
                    return Step::Done(
                        Err(StoreError::Identifier(IdentifierError::missing("entities"))),
                    );
                }
                match &list[0].uid {
                    None => {
                        return Step::Done(Err(StoreError::Identifier(IdentifierError::Empty)));
                    },
                    Some(owner) => owner,
                }
            },
        };
        match EntityStore::is_known(owner.as_str(), io) {
            Step::Ask(request) => {
                return Step::Ask(request);
            },
            Step::Done(false) => {
                return Step::Done(Err(StoreError::Identifier(IdentifierError::DoesNotExist)));
            },
            Step::Done(true) => {},
        }
        let probe = Self::key_fields();
        match Self::find_by_type_value(kind, value.as_str(), &probe, io) {
            Step::Ask(request) => {
                return Step::Ask(request);
            },
            Step::Done(Err(e)) => {
                return Step::Done(Err(e));
            },
            Step::Done(Ok(Some(_))) => {
                return Step::Done(Err(StoreError::Identifier(IdentifierError::IdentifierExists)));
            },
            Step::Done(Ok(None)) => {},
        }
        let uid = match save_record(Record::Identifier(i.clone()), io) {
            Step::Ask(request) => {
                return Step::Ask(request);
            },
            Step::Done(Err(e)) => {
                return Step::Done(Err(e));
            },
            Step::Done(Ok(uid)) => uid,
        };
        let linked = match uid {
            Some(uid) => i.clone().uid(uid),
            None => i.clone(),
        };
        let back = select_uid();
        match EntityStore::associate_identity(owner.as_str(), &linked, &back, io) {
            Step::Ask(request) => {
                return Step::Ask(request);
            },
            Step::Done(_) => {},
        }
        Self::find_by_type_value(kind, value.as_str(), fields, io)
    }

    /// The projection that a lookup by key is checked on.
    pub fn key_fields() -> (r: Vec<Field>)
        ensures
            r.deep_view() == key_fields(),
    {
        let mut fields: Vec<Field> = Vec::new();
        fields.push(Field::scalar(Scalar::Uid));
        fields.push(Field::scalar(Scalar::IdentifierType));
        fields.push(Field::scalar(Scalar::Value));
        fields
    }

    /// Appends the authenticator `a` to the authenticators of the identifier
    /// with the uid `uid`, and the identifier to the identifiers of `a`.
    pub fn associate_authenticator(
        uid: &str,
        a: &Authenticator,
        fields: &Vec<Field>,
        io: &mut Replay,
    ) -> (r: Step<Result<Option<Identifier>, StoreError>>)
        ensures
            (r@, final(io)@) == associate_authenticator(uid@, a@, fields.deep_view(), old(io)@),
    {
        let probe = select_uid_with(Kind::Authenticator);
        let current = match Self::find_by_uid(uid, &probe, io) {
            Step::Ask(request) => {
                return Step::Ask(request);
            },
            Step::Done(Err(e)) => {
                return Step::Done(Err(e));
            },
            Step::Done(Ok(None)) => {
                return Step::Done(Err(StoreError::Identifier(IdentifierError::DoesNotExist)));
            },
            Step::Done(Ok(Some(i))) => i,
        };
        let update = current.add_authenticator(a.clone());
        match save_record(Record::Identifier(update.clone()), io) {
            Step::Ask(request) => {
                return Step::Ask(request);
            },
            Step::Done(Err(e)) => {
                return Step::Done(Err(e));
            },
            Step::Done(Ok(_)) => {},
        }
        let key = match &a.uid {
            None => {
                return Step::Done(Err(StoreError::Authenticator(AuthenticatorError::missing("uid"))));
            },
            Some(key) => key,
        };
        let back = select_uid();
        match AuthenticatorStore::associate_identifier(key.as_str(), &update, &back, io) {
            Step::Ask(request) => {
                return Step::Ask(request);
            },
            Step::Done(Err(e)) => {
                return Step::Done(Err(e));
            },
            Step::Done(Ok(_)) => {},
        }
        Self::find_by_uid(uid, fields, io)
    }
}

/// The script in which the store has found the identifier `i` and nothing
/// else has been asked.
pub open spec fn found(i: IdentifierView) -> Script {
    Script { log: seq![ReplyView::Identifier(seq![i])], at: 0 }
}

/// The step that asks to save the identifier `i`.
pub open spec fn save_of(i: IdentifierView) -> Found<IdentifierView> {
    StepView::Ask(RequestView::Save(RecordView::Identifier(i)))
}

/// A lookup that matches nothing finds nothing, and that is no error: when
/// the store answers with no rows, each lookup ends with none.
pub proof fn lookups_report_absence(
    key: Seq<char>,
    identifier_type: IdentifierType,
    fields: Seq<FieldView>,
    s: Script,
)
    requires
        s.answered(),
        s.reply() == ReplyView::Identifier(Seq::empty()),
    ensures
        renders(BY_UID@, Kind::Identifier, fields) ==> find_by_uid(key, fields, s) == (
            StepView::<Result<Option<IdentifierView>, StoreErrorView>>::Done(Ok(None)),
            s.next(),
        ),
        renders(BY_TYPE_VALUE@, Kind::Identifier, fields) ==> find_by_type_value(
            identifier_type,
            key,
            fields,
            s,
        ) == (
            StepView::<Result<Option<IdentifierView>, StoreErrorView>>::Done(Ok(None)),
            s.next(),
        ),
        renders(BY_UID@, Kind::Identifier, uid_only()) ==> is_known(key, s) == (
            StepView::<bool>::Done(false),
            s.next(),
        ),
{
}

/// An identifier is created for an entity that exists only. When the store
/// finds no entity with the uid that the record names, `create` fails with
/// `DoesNotExist`, whose class is `NotFound`.
pub proof fn create_fails_on_unknown_entity(
    i: IdentifierView,
    fields: Seq<FieldView>,
    rest: Seq<ReplyView>,
)
    requires
        required(i) is Ok,
    ensures
        ({
            let log = seq![ReplyView::Entity(Seq::empty())] + rest;
            renders(crate::entity_store::BY_UID@, Kind::Entity, uid_only()) ==> create(
                i,
                fields,
                Script { log, at: 0 },
            ) == (
                StepView::<Result<Option<IdentifierView>, StoreErrorView>>::Done(
                    Err(StoreErrorView::Identifier(IdentifierErrorView::DoesNotExist)),
                ),
                Script { log, at: 1 },
            )
        }),
        StoreErrorView::Identifier(IdentifierErrorView::DoesNotExist).kind() == ErrorKind::NotFound,
{
}

/// A pair of type and value names one identifier. When the store finds the
/// entity, and a row with the record's type and value, `create` fails with
/// `IdentifierExists`, whose class is `AlreadyExists`, and has asked to save
/// nothing. When the store finds the entity and only rows of another type
/// or value, whatever it made of the expression, `create` goes on to save
/// the record.
pub proof fn create_fails_on_taken_value(
    i: IdentifierView,
    fields: Seq<FieldView>,
    owners: Seq<crate::entity::EntityView>,
    rows: Seq<IdentifierView>,
    rest: Seq<ReplyView>,
)
    requires
        required(i) is Ok,
        owners.len() > 0,
    ensures
        ({
            let log = seq![ReplyView::Entity(owners), ReplyView::Identifier(rows)] + rest;
            let taken = exists|k: int|
                0 <= k < rows.len() && agrees(
                    #[trigger] rows[k],
                    i.identifier_type.unwrap(),
                    i.value.unwrap(),
                );
            renders(crate::entity_store::BY_UID@, Kind::Entity, uid_only()) && renders(
                BY_TYPE_VALUE@,
                Kind::Identifier,
                key_fields(),
            ) ==> {
                &&& taken ==> create(i, fields, Script { log, at: 0 }) == (
                    StepView::<Result<Option<IdentifierView>, StoreErrorView>>::Done(
                        Err(StoreErrorView::Identifier(IdentifierErrorView::IdentifierExists)),
                    ),
                    Script { log, at: 2 },
                )
                &&& !taken && rest.len() == 0 ==> create(i, fields, Script { log, at: 0 }).0
                    == save_of(i)
            }
        }),
        StoreErrorView::Identifier(IdentifierErrorView::IdentifierExists).kind()
            == ErrorKind::AlreadyExists,
{
    matching_finds_the_first(rows, i.identifier_type.unwrap(), i.value.unwrap(), 0);
}

/// An identifier with a fresh type and value is created. When the store
/// finds the entity and no identifier of the record's type and value,
/// saves the record, links it to the entity and then finds it, `create`
/// returns the row of that type and value that the store found.
pub proof fn create_succeeds_on_fresh_value(
    i: IdentifierView,
    fields: Seq<FieldView>,
    owners: Seq<crate::entity::EntityView>,
    others: Seq<IdentifierView>,
    uids: Vars,
    after: Seq<crate::entity::EntityView>,
    rows: Seq<IdentifierView>,
)
    requires
        required(i) is Ok,
        owners.len() > 0,
        forall|k: int|
            0 <= k < others.len() ==> !agrees(
                #[trigger] others[k],
                i.identifier_type.unwrap(),
                i.value.unwrap(),
            ),
        matching(rows, i.identifier_type.unwrap(), i.value.unwrap()).is_some(),
    ensures
        ({
            let log = seq![
                ReplyView::Entity(owners),
                ReplyView::Identifier(others),
                ReplyView::Saved(uids),
                ReplyView::Entity(owners),
                ReplyView::Saved(Seq::empty()),
                ReplyView::Entity(after),
                ReplyView::Identifier(rows),
            ];
            renders(crate::entity_store::BY_UID@, Kind::Entity, uid_only()) && renders(
                crate::entity_store::BY_UID@,
                Kind::Entity,
                uid_with(Kind::Identifier),
            ) && renders(BY_TYPE_VALUE@, Kind::Identifier, key_fields()) && renders(
                BY_TYPE_VALUE@,
                Kind::Identifier,
                fields,
            ) ==> create(i, fields, Script { log, at: 0 }) == (
                StepView::<Result<Option<IdentifierView>, StoreErrorView>>::Done(
                    Ok(matching(rows, i.identifier_type.unwrap(), i.value.unwrap())),
                ),
                Script { log, at: 7 },
            )
        }),
{
    matching_finds_the_first(others, i.identifier_type.unwrap(), i.value.unwrap(), 0);
}

/// A lookup by key returns a row of that key or none: the row that
/// `matching_from` gives agrees with the key, and there is none exactly
/// when no row from `from` on agrees with it.
pub proof fn matching_finds_the_first(
    rows: Seq<IdentifierView>,
    identifier_type: IdentifierType,
    value: Seq<char>,
    from: int,
)
    requires
        0 <= from,
    ensures
        matching_from(rows, identifier_type, value, from) matches Some(row) ==> agrees(
            row,
            identifier_type,
            value,
        ),
        matching_from(rows, identifier_type, value, from).is_none() <==> forall|k: int|
            from <= k < rows.len() ==> !agrees(#[trigger] rows[k], identifier_type, value),
    decreases rows.len() - from,
{
    if from < rows.len() && !agrees(rows[from], identifier_type, value) {
        matching_finds_the_first(rows, identifier_type, value, from + 1);
    }
}

/// What a lookup by type and value finds has that type and that value,
/// wherever the projection asks for them: when the store has answered and
/// the lookup ends with a record, the record's type, if it has one, is the
/// type asked for, and its value, if it has one, is the value asked for.
pub proof fn lookup_returns_the_key(
    identifier_type: IdentifierType,
    value: Seq<char>,
    fields: Seq<FieldView>,
    s: Script,
)
    ensures
        find_by_type_value(identifier_type, value, fields, s).0 matches StepView::Done(
            Ok(Some(row)),
        ) ==> agrees(row, identifier_type, value),
{
    if s.answered() {
        if let ReplyView::Identifier(rows) = s.reply() {
            matching_finds_the_first(rows, identifier_type, value, 0);
        }
    }
}

/// An edge is appended, whether or not it is there already. When the store
/// finds the identifier `i`, `associate_authenticator` asks to save `i`
/// with the authenticator after the edges it had; so when the store finds
/// what was saved and the operation runs again, the edge stands twice at
/// the end.
pub proof fn associate_appends(
    uid: Seq<char>,
    i: IdentifierView,
    a: AuthenticatorView,
    fields: Seq<FieldView>,
)
    ensures
        ({
            let once = IdentifierView { authenticators: Some(edges(i.authenticators).push(a)), ..i };
            let twice = IdentifierView {
                authenticators: Some(edges(i.authenticators).push(a).push(a)),
                ..i
            };
            renders(BY_UID@, Kind::Identifier, uid_with(Kind::Authenticator)) ==> {
                &&& associate_authenticator(uid, a, fields, found(i)).0 == save_of(once)
                &&& associate_authenticator(uid, a, fields, found(once)).0 == save_of(twice)
            }
        }),
{
}

} // verus!
