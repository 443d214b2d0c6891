//! Claims that name an account.

use vstd::prelude::*;
use vstd::string::*;
use crate::authenticator::{Authenticator, AuthenticatorView};
use crate::entity::{Entity, EntityView};
use crate::projection::Kind;
use crate::record::{clone_texts, edges, first_of};

verus! {

/// What can go wrong in the identifier store.
#[derive(Debug)]
pub enum IdentifierError {
    /// An identifier of the type and value exists already.
    IdentifierExists,
    /// A required field, named here, is missing.
    EmptyField(String),
    /// No identifier has the uid.
    DoesNotExist,
    /// An identifier was to be taken from an empty result.
    Empty,
}

/// The error as plain values.
pub enum IdentifierErrorView {
    IdentifierExists,
    EmptyField(Seq<char>),
    DoesNotExist,
    Empty,
}

impl View for IdentifierError {
    type V = IdentifierErrorView;

    open spec fn view(&self) -> IdentifierErrorView {
        match self {
            IdentifierError::IdentifierExists => IdentifierErrorView::IdentifierExists,
            IdentifierError::EmptyField(name) => IdentifierErrorView::EmptyField(name@),
            IdentifierError::DoesNotExist => IdentifierErrorView::DoesNotExist,
            IdentifierError::Empty => IdentifierErrorView::Empty,
        }
    }
}

impl IdentifierErrorView {
    /// The error in words.
    pub open spec fn text(self) -> Seq<char> {
        match self {
            IdentifierErrorView::IdentifierExists => "An identifier of this type and value already exists"@,
            IdentifierErrorView::EmptyField(name) => "Field "@ + name + " cannot be empty"@,
            IdentifierErrorView::DoesNotExist => "Identifier with uid does not exist"@,
            IdentifierErrorView::Empty => "Cannot extract an identifier from an empty result"@,
        }
    }
}

impl IdentifierError {
    /// The error in words.
    pub fn message(&self) -> (r: String)
        ensures
            r@ == self@.text(),
    {
        match self {
            IdentifierError::IdentifierExists => String::from_str("An identifier of this type and value already exists"),
            IdentifierError::EmptyField(name) => {
                let mut out = String::from_str("Field ");
                out.append(name.as_str());
                out.append(" cannot be empty");
                out
            },
            IdentifierError::DoesNotExist => String::from_str("Identifier with uid does not exist"),
            IdentifierError::Empty => String::from_str("Cannot extract an identifier from an empty result"),
        }
    }

    /// The error for a required field that is missing.
    pub fn missing(field: &str) -> (r: IdentifierError)
        ensures
            r@ == IdentifierErrorView::EmptyField(field@),
    {
        IdentifierError::EmptyField(String::from_str(field))
    }
}

impl From<String> for IdentifierError {
    fn from(e: String) -> (r: IdentifierError) {
        IdentifierError::EmptyField(e)
    }
}

impl vstd::std_specs::convert::FromSpecImpl<String> for IdentifierError {
    open spec fn obeys_from_spec() -> bool {
        true
    }

    open spec fn from_spec(e: String) -> IdentifierError {
        IdentifierError::EmptyField(e)
    }
}

/// The kinds of claim.
#[allow(non_camel_case_types)]
#[derive(Clone, Copy, Debug, PartialEq, Eq, Structural)]
pub enum IdentifierType {
    email,
    phone,
    username,
    public_key,
}

impl IdentifierType {
    /// The type as the graph store holds it.
    pub open spec fn text(self) -> Seq<char> {
        match self {
            IdentifierType::email => "email"@,
            IdentifierType::phone => "phone"@,
            IdentifierType::username => "username"@,
            IdentifierType::public_key => "public_key"@,
        }
    }

    /// The type's name as the graph store holds it.
    pub fn to_string(&self) -> (r: String)
        ensures
            r@ == self.text(),
    {
        match self {
            IdentifierType::email => String::from_str("email"),
            IdentifierType::phone => String::from_str("phone"),
            IdentifierType::username => String::from_str("username"),
            IdentifierType::public_key => String::from_str("public_key"),
        }
    }
}

/// A claim that names an entity.
#[derive(Debug)]
pub struct Identifier {
    pub uid: Option<String>,
    pub identifier_type: Option<IdentifierType>,
    pub value: Option<String>,
    pub entities: Option<Vec<Entity>>,
    pub authenticators: Option<Vec<Authenticator>>,
    pub dtype: Option<Vec<String>>,
}

/// What an identifier holds, as plain values.
pub struct IdentifierView {
    pub uid: Option<Seq<char>>,
    pub identifier_type: Option<IdentifierType>,
    pub value: Option<Seq<char>>,
    pub entities: Option<Seq<EntityView>>,
    pub authenticators: Option<Seq<AuthenticatorView>>,
    pub dtype: Option<Seq<Seq<char>>>,
}

/// What the record holds, as plain values: each scalar by its characters,
/// each edge by the views of the records on it.
pub open spec fn view_of(r: Identifier) -> IdentifierView
    decreases r,
{
    IdentifierView {
        uid: r.uid.deep_view(),
        identifier_type: r.identifier_type,
        value: r.value.deep_view(),
        entities: match r.entities {
            Some(list) => Some(crate::entity::views_of(list@)),
            None => None,
        },
        authenticators: match r.authenticators {
            Some(list) => Some(crate::authenticator::views_of(list@)),
            None => None,
        },
        dtype: r.dtype.deep_view(),
    }
}

/// The views of the records of a list, in order.
pub open spec fn views_of(list: Seq<Identifier>) -> Seq<IdentifierView>
    decreases list,
{
    Seq::new(
        list.len(),
        |k: int|
            if 0 <= k < list.len() {
                view_of(list[k])
            } else {
                arbitrary()
            },
    )
}

impl View for Identifier {
    type V = IdentifierView;

    open spec fn view(&self) -> IdentifierView {
        view_of(*self)
    }
}

impl DeepView for Identifier {
    type V = IdentifierView;

    open spec fn deep_view(&self) -> IdentifierView {
        view_of(*self)
    }
}

impl IdentifierView {
    /// The record with no field set.
    pub open spec fn empty() -> IdentifierView {
        IdentifierView {
            uid: None,
            identifier_type: None,
            value: None,
            entities: None,
            authenticators: None,
            dtype: None,
        }
    }

    /// Whether the record can be created: it has a type, a value and at least
    /// one entity.
    pub open spec fn valid(self) -> bool {
        &&& self.entities matches Some(list)
        &&& list.len() > 0
        &&& self.identifier_type.is_some()
        &&& self.value.is_some()
    }
}

impl Identifier {
    /// A record of this kind with nothing set.
    pub fn new() -> (r: Identifier)
        ensures
            r@ == (IdentifierView { dtype: Some(seq![Kind::Identifier.label()]), ..IdentifierView::empty() }),
    {
        let mut dtype: Vec<String> = Vec::new();
        dtype.push(String::from_str("Identifier"));
        let r = Identifier {
            uid: None,
            identifier_type: None,
            value: None,
            entities: None,
            authenticators: None,
            dtype: Some(dtype),
        };
        assert(r@.dtype.unwrap() =~= seq![Kind::Identifier.label()]);
        r
    }

    /// The record with its uid set to the given one.
    pub fn uid(self, uid: String) -> (r: Self)
        ensures
            r@ == (IdentifierView { uid: Some(uid@), ..self@ }),
    {
        let mut r = self;
        r.uid = Some(uid);
        r
    }

    /// The record with its identifier type set to the given one.
    pub fn identifier_type(self, identifier_type: IdentifierType) -> (r: Self)
        ensures
            r@ == (IdentifierView { identifier_type: Some(identifier_type), ..self@ }),
    {
        let mut r = self;
        r.identifier_type = Some(identifier_type);
        r
    }

    /// The record with its value set to the given one.
    pub fn value(self, value: String) -> (r: Self)
        ensures
            r@ == (IdentifierView { value: Some(value@), ..self@ }),
    {
        let mut r = self;
        r.value = Some(value);
        r
    }

    /// The record with `entity` appended to its entities; what was there
    /// before stays, in order.
    pub fn add_entity(self, entity: Entity) -> (r: Self)
        ensures
            r@ == (IdentifierView { entities: Some(edges(self@.entities).push(entity@)), ..self@ }),
    {
        let mut r = self;
        let mut list = match r.entities {
            Some(list) => list,
            None => Vec::new(),
        };
        list.push(entity);
        r.entities = Some(list);
        assert(r@.entities.unwrap() =~= edges(self@.entities).push(entity@));
        r
    }

    /// The record with `authenticator` appended to its authenticators; what was there
    /// before stays, in order.
    pub fn add_authenticator(self, authenticator: Authenticator) -> (r: Self)
        ensures
            r@ == (IdentifierView { authenticators: Some(edges(self@.authenticators).push(authenticator@)), ..self@ }),
    {
        let mut r = self;
        let mut list = match r.authenticators {
            Some(list) => list,
            None => Vec::new(),
        };
        list.push(authenticator);
        r.authenticators = Some(list);
        assert(r@.authenticators.unwrap() =~= edges(self@.authenticators).push(authenticator@));
        r
    }

    /// Whether the record can be created.
    pub fn validate(&self) -> (r: bool)
        ensures
            r == self@.valid(),
    {
        match &self.entities {
            None => false,
            Some(list) => self.identifier_type.is_some() && self.value.is_some() && list.len() > 0,
        }
    }

    /// A copy of each record of `list`, in order.
    pub fn clone_all(list: &Vec<Identifier>) -> (r: Vec<Identifier>)
        ensures
            views_of(r@) == views_of(list@),
        decreases list,
    {
        let mut out: Vec<Identifier> = Vec::new();
        let mut k: usize = 0;
        while k < list.len()
            invariant
                k <= list.len(),
                out.len() == k,
                forall|j: int| 0 <= j < k ==> out@[j]@ == list@[j]@,
            decreases list.len() - k,
        {
            out.push(list[k].clone());
            k += 1;
        }
        out
    }
}

impl Default for Identifier {
    fn default() -> (r: Identifier)
        ensures
            r@ == IdentifierView::empty(),
    {
        Identifier {
            uid: None,
            identifier_type: None,
            value: None,
            entities: None,
            authenticators: None,
            dtype: None,
        }
    }
}

impl Clone for Identifier {
    fn clone(&self) -> (r: Self)
        ensures
            r@ == self@,
        decreases self,
    {
        let entities = match &self.entities {
            Some(list) => Some(Entity::clone_all(list)),
            None => None,
        };
        let authenticators = match &self.authenticators {
            Some(list) => Some(Authenticator::clone_all(list)),
            None => None,
        };
        let dtype = match &self.dtype {
            Some(list) => Some(clone_texts(list)),
            None => None,
        };
        Identifier {
            uid: self.uid.clone(),
            identifier_type: self.identifier_type,
            value: self.value.clone(),
            entities,
            authenticators,
            dtype,
        }
    }
}

/// The rows that a query for identifiers returns.
#[derive(Debug)]
pub struct IdentifierRoot {
    pub identifier: Vec<Identifier>,
}

impl View for IdentifierRoot {
    type V = Seq<IdentifierView>;

    open spec fn view(&self) -> Seq<IdentifierView> {
        views_of(self.identifier@)
    }
}

impl IdentifierRoot {
    /// A copy of the first row, if there is one.
    pub fn first(&self) -> (r: Option<Identifier>)
        ensures
            r.deep_view() == first_of(self@),
    {
        if self.identifier.len() == 0 {
            None
        } else {
            Some(self.identifier[0].clone())
        }
    }
}

impl Clone for IdentifierRoot {
    fn clone(&self) -> (r: Self)
        ensures
            r@ == self@,
    {
        IdentifierRoot { identifier: Identifier::clone_all(&self.identifier) }
    }
}

} // verus!
