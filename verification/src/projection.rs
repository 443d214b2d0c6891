//! The schema of the graph and the typed projections that queries may ask for.

use vstd::prelude::*;
use vstd::string::*;

verus! {

/// The six kinds of record. An edge is named after the kind it leads to.
#[derive(Clone, Copy, Debug, PartialEq, Eq, Structural)]
pub enum Kind {
    Entity,
    Identifier,
    Authenticator,
    System,
    Namespace,
    Scope,
}

/// The scalar predicates of the schema.
#[derive(Clone, Copy, Debug, PartialEq, Eq, Structural)]
pub enum Scalar {
    Uid,
    Guid,
    Sid,
    DisplayName,
    IdentifierType,
    AuthenticatorType,
    Value,
    Name,
    ScopeType,
    Dtype,
}

impl Scalar {
    /// The predicate's name in the graph store.
    pub open spec fn predicate(self) -> Seq<char> {
        match self {
            Scalar::Uid => "uid"@,
            Scalar::Guid => "guid"@,
            Scalar::Sid => "sid"@,
            Scalar::DisplayName => "display_name"@,
            Scalar::IdentifierType => "identifier_type"@,
            Scalar::AuthenticatorType => "authenticator_type"@,
            Scalar::Value => "value"@,
            Scalar::Name => "name"@,
            Scalar::ScopeType => "scope_type"@,
            Scalar::Dtype => "dgraph.type"@,
        }
    }

    /// The predicate's name in the graph store.
    pub fn name(self) -> (r: &'static str)
        ensures
            r@ == self.predicate(),
    {
        match self {
            Scalar::Uid => "uid",
            Scalar::Guid => "guid",
            Scalar::Sid => "sid",
            Scalar::DisplayName => "display_name",
            Scalar::IdentifierType => "identifier_type",
            Scalar::AuthenticatorType => "authenticator_type",
            Scalar::Value => "value",
            Scalar::Name => "name",
            Scalar::ScopeType => "scope_type",
            Scalar::Dtype => "dgraph.type",
        }
    }
}

impl Kind {
    /// The name of the edge that leads to a record of this kind, which is also
    /// the key under which a query returns records of this kind.
    pub open spec fn predicate(self) -> Seq<char> {
        match self {
            Kind::Entity => "entity"@,
            Kind::Identifier => "identifier"@,
            Kind::Authenticator => "authenticator"@,
            Kind::System => "system"@,
            Kind::Namespace => "namespace"@,
            Kind::Scope => "scope"@,
        }
    }

    /// The value of `dgraph.type` on a record of this kind.
    pub open spec fn label(self) -> Seq<char> {
        match self {
            Kind::Entity => "Entity"@,
            Kind::Identifier => "Identifier"@,
            Kind::Authenticator => "Authenticator"@,
            Kind::System => "System"@,
            Kind::Namespace => "Namespace"@,
            Kind::Scope => "Scope"@,
        }
    }

    /// Whether records of this kind carry the scalar `s`.
    pub open spec fn holds(self, s: Scalar) -> bool {
        match self {
            Kind::Entity => s == Scalar::Uid || s == Scalar::Guid || s == Scalar::Sid || s
                == Scalar::DisplayName || s == Scalar::Dtype,
            Kind::Identifier => s == Scalar::Uid || s == Scalar::IdentifierType || s
                == Scalar::Value || s == Scalar::Dtype,
            Kind::Authenticator => s == Scalar::Uid || s == Scalar::AuthenticatorType || s
                == Scalar::Value || s == Scalar::Dtype,
            Kind::System => s == Scalar::Uid || s == Scalar::Guid || s == Scalar::Name || s
                == Scalar::Dtype,
            Kind::Namespace => s == Scalar::Uid || s == Scalar::Guid || s == Scalar::Name || s
                == Scalar::Dtype,
            Kind::Scope => s == Scalar::Uid || s == Scalar::Guid || s == Scalar::Name || s
                == Scalar::ScopeType || s == Scalar::Dtype,
        }
    }

    /// Whether records of this kind have an edge to records of kind `other`.
    pub open spec fn links(self, other: Kind) -> bool {
        match self {
            Kind::Entity => other == Kind::Identifier || other == Kind::Authenticator || other
                == Kind::System || other == Kind::Scope,
            Kind::Identifier => other == Kind::Entity || other == Kind::Authenticator,
            Kind::Authenticator => other == Kind::Identifier || other == Kind::Entity || other
                == Kind::System,
            Kind::System => other == Kind::Authenticator || other == Kind::Entity || other
                == Kind::Namespace,
            Kind::Namespace => other == Kind::System || other == Kind::Scope,
            Kind::Scope => other == Kind::Namespace || other == Kind::Entity,
        }
    }

    /// The name of the edge that leads to a record of this kind.
    pub fn name(self) -> (r: &'static str)
        ensures
            r@ == self.predicate(),
    {
        match self {
            Kind::Entity => "entity",
            Kind::Identifier => "identifier",
            Kind::Authenticator => "authenticator",
            Kind::System => "system",
            Kind::Namespace => "namespace",
            Kind::Scope => "scope",
        }
    }

    /// Whether records of this kind carry the scalar `s`.
    pub fn has_scalar(self, s: Scalar) -> (r: bool)
        ensures
            r == self.holds(s),
    {
        match self {
            Kind::Entity => s == Scalar::Uid || s == Scalar::Guid || s == Scalar::Sid || s
                == Scalar::DisplayName || s == Scalar::Dtype,
            Kind::Identifier => s == Scalar::Uid || s == Scalar::IdentifierType || s
                == Scalar::Value || s == Scalar::Dtype,
            Kind::Authenticator => s == Scalar::Uid || s == Scalar::AuthenticatorType || s
                == Scalar::Value || s == Scalar::Dtype,
            Kind::System => s == Scalar::Uid || s == Scalar::Guid || s == Scalar::Name || s
                == Scalar::Dtype,
            Kind::Namespace => s == Scalar::Uid || s == Scalar::Guid || s == Scalar::Name || s
                == Scalar::Dtype,
            Kind::Scope => s == Scalar::Uid || s == Scalar::Guid || s == Scalar::Name || s
                == Scalar::ScopeType || s == Scalar::Dtype,
        }
    }

    /// Whether records of this kind have an edge to records of kind `other`.
    pub fn has_edge(self, other: Kind) -> (r: bool)
        ensures
            r == self.links(other),
    {
        match self {
            Kind::Entity => other == Kind::Identifier || other == Kind::Authenticator || other
                == Kind::System || other == Kind::Scope,
            Kind::Identifier => other == Kind::Entity || other == Kind::Authenticator,
            Kind::Authenticator => other == Kind::Identifier || other == Kind::Entity || other
                == Kind::System,
            Kind::System => other == Kind::Authenticator || other == Kind::Entity || other
                == Kind::Namespace,
            Kind::Namespace => other == Kind::System || other == Kind::Scope,
            Kind::Scope => other == Kind::Namespace || other == Kind::Entity,
        }
    }
}

/// One element of a projection: a scalar of the record itself, or an edge
/// together with the scalars wanted from the records it leads to.
#[derive(Debug)]
pub enum Field {
    Scalar(Scalar),
    Edge(Kind, Vec<Scalar>),
}

/// A field, as plain values.
pub enum FieldView {
    Scalar(Scalar),
    Edge(Kind, Seq<Scalar>),
}

impl View for Field {
    type V = FieldView;

    open spec fn view(&self) -> FieldView {
        match self {
            Field::Scalar(s) => FieldView::Scalar(*s),
            Field::Edge(k, inner) => FieldView::Edge(*k, inner@),
        }
    }
}

impl DeepView for Field {
    type V = FieldView;

    open spec fn deep_view(&self) -> FieldView {
        self@
    }
}

/// The scalars of a nested selection, each preceded by one space.
pub open spec fn inner_text(inner: Seq<Scalar>) -> Seq<char>
    decreases inner.len(),
{
    if inner.len() == 0 {
        Seq::empty()
    } else {
        inner_text(inner.drop_last()) + " "@ + inner.last().predicate()
    }
}

impl FieldView {
    /// Whether a record of kind `kind` may be asked for this field: a scalar
    /// must be one the kind carries; an edge must exist in the schema and
    /// select at least one scalar, all of them carried by the kind it leads to.
    pub open spec fn admitted(self, kind: Kind) -> bool {
        match self {
            FieldView::Scalar(s) => kind.holds(s),
            FieldView::Edge(to, inner) => {
                &&& kind.links(to)
                &&& inner.len() > 0
                &&& forall|k: int| 0 <= k < inner.len() ==> to.holds(#[trigger] inner[k])
            },
        }
    }

    /// Whether the field is the edge to records of kind `to`.
    pub open spec fn leads(self, to: Kind) -> bool {
        self matches FieldView::Edge(kind, _) && kind == to
    }

    /// The field as it stands in the selection of a query.
    pub open spec fn text(self) -> Seq<char> {
        match self {
            FieldView::Scalar(s) => s.predicate(),
            FieldView::Edge(to, inner) => to.predicate() + " {"@ + inner_text(inner) + " }"@,
        }
    }
}

/// Whether a projection selects the edge to records of kind `to`.
pub open spec fn selects(fields: Seq<FieldView>, to: Kind) -> bool {
    exists|k: int| 0 <= k < fields.len() && (#[trigger] fields[k]).leads(to)
}

/// Whether every field of a projection is admitted for `kind`.
pub open spec fn admits_all(kind: Kind, fields: Seq<FieldView>) -> bool {
    forall|k: int| 0 <= k < fields.len() ==> (#[trigger] fields[k]).admitted(kind)
}

/// The texts of the fields of a projection, in order.
pub open spec fn texts(fields: Seq<FieldView>) -> Seq<Seq<char>> {
    Seq::new(fields.len(), |k: int| fields[k].text())
}

impl Field {
    /// The projection of one scalar.
    pub fn scalar(s: Scalar) -> (r: Field)
        ensures
            r@ == FieldView::Scalar(s),
    {
        Field::Scalar(s)
    }

    /// The projection `edge { uid }`.
    pub fn uid_of(to: Kind) -> (r: Field)
        ensures
            r@ == FieldView::Edge(to, seq![Scalar::Uid]),
            forall|kind: Kind| kind.links(to) ==> r@.admitted(kind),
    {
        let mut inner: Vec<Scalar> = Vec::new();
        inner.push(Scalar::Uid);
        Field::Edge(to, inner)
    }

    /// Whether a record of kind `kind` may be asked for this field.
    pub fn check(&self, kind: Kind) -> (r: bool)
        ensures
            r == self@.admitted(kind),
    {
        match self {
            Field::Scalar(s) => kind.has_scalar(*s),
            Field::Edge(to, inner) => {
                if !kind.has_edge(*to) || inner.len() == 0 {
                    return false;
                }
                let mut k: usize = 0;
                while k < inner.len()
                    invariant
                        k <= inner.len(),
                        self@ == FieldView::Edge(*to, inner@),
                        kind.links(*to),
                        inner.len() > 0,
                        forall|j: int| 0 <= j < k ==> to.holds(#[trigger] inner@[j]),
                    decreases inner.len() - k,
                {
                    if !to.has_scalar(inner[k]) {
                        return false;
                    }
                    k += 1;
                }
                true
            },
        }
    }

    /// The field as it stands in the selection of a query.
    pub fn text(&self) -> (r: String)
        ensures
            r@ == self@.text(),
    {
        match self {
            Field::Scalar(s) => String::from_str(s.name()),
            Field::Edge(to, inner) => {
                let mut out = String::from_str(to.name());
                out.append(" {");
                let mut k: usize = 0;
                while k < inner.len()
                    invariant
                        k <= inner.len(),
                        out@ == to.predicate() + " {"@ + inner_text(inner@.take(k as int)),
                    decreases inner.len() - k,
                {
                    out.append(" ");
                    out.append(inner[k].name());
                    proof {
                        let next = inner@.take(k + 1);
                        assert(next.drop_last() =~= inner@.take(k as int));
                    }
                    k += 1;
                }
                proof {
                    assert(inner@.take(k as int) =~= inner@);
                }
                out.append(" }");
                out
            },
        }
    }
}

/// The projection `uid`.
pub open spec fn uid_only() -> Seq<FieldView> {
    seq![FieldView::Scalar(Scalar::Uid)]
}

/// The projection `uid`, `edge { uid }`.
pub open spec fn uid_with(to: Kind) -> Seq<FieldView> {
    seq![FieldView::Scalar(Scalar::Uid), FieldView::Edge(to, seq![Scalar::Uid])]
}

/// The projection `uid`, `guid`, `edge { uid }`.
pub open spec fn keys_with(to: Kind) -> Seq<FieldView> {
    seq![
        FieldView::Scalar(Scalar::Uid),
        FieldView::Scalar(Scalar::Guid),
        FieldView::Edge(to, seq![Scalar::Uid]),
    ]
}

/// The projection that asks for the uid alone.
pub fn select_uid() -> (r: Vec<Field>)
    ensures
        r.deep_view() == uid_only(),
{
    let mut fields: Vec<Field> = Vec::new();
    fields.push(Field::scalar(Scalar::Uid));
    fields
}

/// The projection that asks for the uid and for the uids on one edge.
pub fn select_uid_with(to: Kind) -> (r: Vec<Field>)
    ensures
        r.deep_view() == uid_with(to),
{
    let mut fields: Vec<Field> = Vec::new();
    fields.push(Field::scalar(Scalar::Uid));
    fields.push(Field::uid_of(to));
    fields
}

/// The projection that asks for the uid, the guid and the uids on one edge.
pub fn select_keys_with(to: Kind) -> (r: Vec<Field>)
    ensures
        r.deep_view() == keys_with(to),
{
    let mut fields: Vec<Field> = Vec::new();
    fields.push(Field::scalar(Scalar::Uid));
    fields.push(Field::scalar(Scalar::Guid));
    fields.push(Field::uid_of(to));
    fields
}

/// Whether every field of `fields` is admitted for `kind`.
pub fn check_all(kind: Kind, fields: &Vec<Field>) -> (r: bool)
    ensures
        r == admits_all(kind, fields.deep_view()),
{
    let mut k: usize = 0;
    while k < fields.len()
        invariant
            k <= fields.len(),
            forall|j: int| 0 <= j < k ==> (#[trigger] fields@[j])@.admitted(kind),
        decreases fields.len() - k,
    {
        if !fields[k].check(kind) {
            assert(fields.deep_view()[k as int] == fields@[k as int]@);
            return false;
        }
        k += 1;
    }
    assert forall|j: int| 0 <= j < fields.deep_view().len() implies (
    #[trigger] fields.deep_view()[j]).admitted(kind) by {
    }
    true
}

/// Whether `fields` selects the edge to records of kind `to`.
pub fn selects_edge(fields: &Vec<Field>, to: Kind) -> (r: bool)
    ensures
        r == selects(fields.deep_view(), to),
{
    let mut k: usize = 0;
    while k < fields.len()
        invariant
            k <= fields.len(),
            forall|j: int| 0 <= j < k ==> !(#[trigger] fields.deep_view()[j]).leads(to),
        decreases fields.len() - k,
    {
        let hit = match &fields[k] {
            Field::Edge(kind, _) => *kind == to,
            Field::Scalar(_) => false,
        };
        proof {
            assert(fields.deep_view()[k as int] == fields@[k as int]@);
        }
        if hit {
            return true;
        }
        k += 1;
    }
    false
}

/// The texts of `fields`, in order.
pub fn render_all(fields: &Vec<Field>) -> (r: Vec<String>)
    ensures
        r.deep_view() == texts(fields.deep_view()),
{
    let mut out: Vec<String> = Vec::new();
    let mut k: usize = 0;
    while k < fields.len()
        invariant
            k <= fields.len(),
            out.len() == k,
            forall|j: int| 0 <= j < k ==> (#[trigger] out@[j])@ == fields@[j]@.text(),
        decreases fields.len() - k,
    {
        out.push(fields[k].text());
        k += 1;
    }
    out
}

/// The characters that a projection is written in: small letters, the
/// underscore, the full stop, the space and the two braces.
pub open spec fn plain(c: char) -> bool {
    ('a' <= c && c <= 'z') || c == '_' || c == '.' || c == ' ' || c == '{' || c == '}'
}

/// Whether a text is written in plain characters only.
pub open spec fn all_plain(text: Seq<char>) -> bool {
    forall|k: int| 0 <= k < text.len() ==> plain(#[trigger] text[k])
}

proof fn names_are_plain(s: Scalar, kind: Kind)
    ensures
        all_plain(s.predicate()),
        all_plain(kind.predicate()),
        all_plain(" "@),
        all_plain(" {"@),
        all_plain(" }"@),
{
    reveal_strlit("uid");
    reveal_strlit("guid");
    reveal_strlit("sid");
    reveal_strlit("display_name");
    reveal_strlit("identifier_type");
    reveal_strlit("authenticator_type");
    reveal_strlit("value");
    reveal_strlit("name");
    reveal_strlit("scope_type");
    reveal_strlit("dgraph.type");
    reveal_strlit("entity");
    reveal_strlit("identifier");
    reveal_strlit("authenticator");
    reveal_strlit("system");
    reveal_strlit("namespace");
    reveal_strlit("scope");
    reveal_strlit(" ");
    reveal_strlit(" {");
    reveal_strlit(" }");
}

proof fn selections_are_plain(inner: Seq<Scalar>)
    ensures
        all_plain(inner_text(inner)),
    decreases inner.len(),
{
    if inner.len() > 0 {
        selections_are_plain(inner.drop_last());
        names_are_plain(inner.last(), Kind::Entity);
    }
}

/// No field can carry anything into a query but names of the schema: the
/// text of a field, admitted or not, is written in small letters,
/// underscores, full stops, spaces and braces. It holds no quote, no
/// parenthesis and no sign that the query language or the template reads
/// as an instruction.
pub proof fn fields_are_plain(field: FieldView)
    ensures
        all_plain(field.text()),
{
    match field {
        FieldView::Scalar(s) => {
            names_are_plain(s, Kind::Entity);
        },
        FieldView::Edge(to, inner) => {
            names_are_plain(Scalar::Uid, to);
            selections_are_plain(inner);
        },
    }
}

/// The same of a whole projection: each of its texts is plain.
pub proof fn projections_are_plain(fields: Seq<FieldView>)
    ensures
        forall|k: int| 0 <= k < fields.len() ==> all_plain(#[trigger] texts(fields)[k]),
{
    assert forall|k: int| 0 <= k < fields.len() implies all_plain(#[trigger] texts(fields)[k]) by {
        fields_are_plain(fields[k]);
    }
}

} // verus!
