//! Credentials, and the check of a supplied secret against a stored one.

use vstd::prelude::*;
use vstd::string::*;
use crate::entity::{Entity, EntityView};
use crate::identifier::{Identifier, IdentifierView};
use crate::projection::Kind;
use crate::record::{clone_texts, edges, first_of};
use crate::system::{System, SystemView};

verus! {

/// What can go wrong in the authenticator store.
#[derive(Debug)]
pub enum AuthenticatorError {
    /// The identifier has an authenticator of the type already.
    AuthenticatorExists,
    /// A required field, named here, is missing.
    EmptyField(String),
    /// The policy does not pair the authenticator's type with the identifier's.
    AuthTypeIdentTypeMisMatch,
    /// An authenticator was to be taken from an empty result.
    Empty,
    /// No authenticator has the uid.
    DoesNotExist,
}

/// The error as plain values.
pub enum AuthenticatorErrorView {
    AuthenticatorExists,
    EmptyField(Seq<char>),
    AuthTypeIdentTypeMisMatch,
    Empty,
    DoesNotExist,
}

impl View for AuthenticatorError {
    type V = AuthenticatorErrorView;

    open spec fn view(&self) -> AuthenticatorErrorView {
        match self {
            AuthenticatorError::AuthenticatorExists => AuthenticatorErrorView::AuthenticatorExists,
            AuthenticatorError::EmptyField(name) => AuthenticatorErrorView::EmptyField(name@),
            AuthenticatorError::AuthTypeIdentTypeMisMatch => AuthenticatorErrorView::AuthTypeIdentTypeMisMatch,
            AuthenticatorError::Empty => AuthenticatorErrorView::Empty,
            AuthenticatorError::DoesNotExist => AuthenticatorErrorView::DoesNotExist,
        }
    }
}

impl AuthenticatorErrorView {
    /// The error in words.
    pub open spec fn text(self) -> Seq<char> {
        match self {
            AuthenticatorErrorView::AuthenticatorExists => "An authenticator of this type exists and is associated to this identifier"@,
            AuthenticatorErrorView::EmptyField(name) => "Field "@ + name + " cannot be empty"@,
            AuthenticatorErrorView::AuthTypeIdentTypeMisMatch => "Authenticator type does not match the identifier type being associated"@,
            AuthenticatorErrorView::Empty => "Cannot extract an authenticator from an empty result"@,
            AuthenticatorErrorView::DoesNotExist => "Authenticator with uid does not exist"@,
        }
    }
}

impl AuthenticatorError {
    /// The error in words.
    pub fn message(&self) -> (r: String)
        ensures
            r@ == self@.text(),
    {
        match self {
            AuthenticatorError::AuthenticatorExists => String::from_str("An authenticator of this type exists and is associated to this identifier"),
            AuthenticatorError::EmptyField(name) => {
                let mut out = String::from_str("Field ");
                out.append(name.as_str());
                out.append(" cannot be empty");
                out
            },
            AuthenticatorError::AuthTypeIdentTypeMisMatch => String::from_str("Authenticator type does not match the identifier type being associated"),
            AuthenticatorError::Empty => String::from_str("Cannot extract an authenticator from an empty result"),
            AuthenticatorError::DoesNotExist => String::from_str("Authenticator with uid does not exist"),
        }
    }

    /// The error for a required field that is missing.
    pub fn missing(field: &str) -> (r: AuthenticatorError)
        ensures
            r@ == AuthenticatorErrorView::EmptyField(field@),
    {
        AuthenticatorError::EmptyField(String::from_str(field))
    }
}

impl From<String> for AuthenticatorError {
    fn from(e: String) -> (r: AuthenticatorError) {
        AuthenticatorError::EmptyField(e)
    }
}

impl vstd::std_specs::convert::FromSpecImpl<String> for AuthenticatorError {
    open spec fn obeys_from_spec() -> bool {
        true
    }

    open spec fn from_spec(e: String) -> AuthenticatorError {
        AuthenticatorError::EmptyField(e)
    }
}

/// The kinds of credential.
#[allow(non_camel_case_types)]
#[derive(Clone, Copy, Debug, PartialEq, Eq, Structural)]
pub enum AuthenticatorType {
    username_password,
    phone_password,
    email_password,
    public_key_authentication,
}

impl AuthenticatorType {
    /// The type as the graph store holds it.
    pub open spec fn text(self) -> Seq<char> {
        match self {
            AuthenticatorType::username_password => "username_password"@,
            AuthenticatorType::phone_password => "phone_password"@,
            AuthenticatorType::email_password => "email_password"@,
            AuthenticatorType::public_key_authentication => "public_key_authentication"@,
        }
    }

    /// The type's name as the graph store holds it.
    pub fn to_string(&self) -> (r: String)
        ensures
            r@ == self.text(),
    {
        match self {
            AuthenticatorType::username_password => String::from_str("username_password"),
            AuthenticatorType::phone_password => String::from_str("phone_password"),
            AuthenticatorType::email_password => String::from_str("email_password"),
            AuthenticatorType::public_key_authentication => String::from_str("public_key_authentication"),
        }
    }
}

/// A credential that proves control of an identifier.
#[derive(Debug)]
pub struct Authenticator {
    pub uid: Option<String>,
    pub identifiers: Option<Vec<Identifier>>,
    pub entities: Option<Vec<Entity>>,
    pub systems: Option<Vec<System>>,
    pub authenticator_type: Option<AuthenticatorType>,
    pub value: Option<String>,
    pub dtype: Option<Vec<String>>,
}

/// What an authenticator holds, as plain values.
pub struct AuthenticatorView {
    pub uid: Option<Seq<char>>,
    pub identifiers: Option<Seq<IdentifierView>>,
    pub entities: Option<Seq<EntityView>>,
    pub systems: Option<Seq<SystemView>>,
    pub authenticator_type: Option<AuthenticatorType>,
    pub value: Option<Seq<char>>,
    pub dtype: Option<Seq<Seq<char>>>,
}

/// What the record holds, as plain values: each scalar by its characters,
/// each edge by the views of the records on it.
pub open spec fn view_of(r: Authenticator) -> AuthenticatorView
    decreases r,
{
    AuthenticatorView {
        uid: r.uid.deep_view(),
        identifiers: match r.identifiers {
            Some(list) => Some(crate::identifier::views_of(list@)),
            None => None,
        },
        entities: match r.entities {
            Some(list) => Some(crate::entity::views_of(list@)),
            None => None,
        },
        systems: match r.systems {
            Some(list) => Some(crate::system::views_of(list@)),
            None => None,
        },
        authenticator_type: r.authenticator_type,
        value: r.value.deep_view(),
        dtype: r.dtype.deep_view(),
    }
}

/// The views of the records of a list, in order.
pub open spec fn views_of(list: Seq<Authenticator>) -> Seq<AuthenticatorView>
    decreases list,
{
    Seq::new(
        list.len(),
        |k: int|
            if 0 <= k < list.len() {
                view_of(list[k])
            } else {
                arbitrary()
            },
    )
}

impl View for Authenticator {
    type V = AuthenticatorView;

    open spec fn view(&self) -> AuthenticatorView {
        view_of(*self)
    }
}

impl DeepView for Authenticator {
    type V = AuthenticatorView;

    open spec fn deep_view(&self) -> AuthenticatorView {
        view_of(*self)
    }
}

impl AuthenticatorView {
    /// The record with no field set.
    pub open spec fn empty() -> AuthenticatorView {
        AuthenticatorView {
            uid: None,
            identifiers: None,
            entities: None,
            systems: None,
            authenticator_type: None,
            value: None,
            dtype: None,
        }
    }

    /// Whether the record can be created: it has a type, a value, and lists of
    /// entities and of identifiers.
    pub open spec fn valid(self) -> bool {
        &&& self.entities.is_some()
        &&& self.identifiers.is_some()
        &&& self.authenticator_type.is_some()
        &&& self.value.is_some()
    }
}

impl Authenticator {
    /// A record of this kind with nothing set.
    pub fn new() -> (r: Authenticator)
        ensures
            r@ == (AuthenticatorView { dtype: Some(seq![Kind::Authenticator.label()]), ..AuthenticatorView::empty() }),
    {
        let mut dtype: Vec<String> = Vec::new();
        dtype.push(String::from_str("Authenticator"));
        let r = Authenticator {
            uid: None,
            identifiers: None,
            entities: None,
            systems: None,
            authenticator_type: None,
            value: None,
            dtype: Some(dtype),
        };
        assert(r@.dtype.unwrap() =~= seq![Kind::Authenticator.label()]);
        r
    }

    /// The record with its uid set to the given one.
    pub fn uid(self, uid: String) -> (r: Self)
        ensures
            r@ == (AuthenticatorView { uid: Some(uid@), ..self@ }),
    {
        let mut r = self;
        r.uid = Some(uid);
        r
    }

    /// The record with its authenticator type set to the given one.
    pub fn authenticator_type(self, authenticator_type: AuthenticatorType) -> (r: Self)
        ensures
            r@ == (AuthenticatorView { authenticator_type: Some(authenticator_type), ..self@ }),
    {
        let mut r = self;
        r.authenticator_type = Some(authenticator_type);
        r
    }

    /// The record with `identifier` appended to its identifiers; what was there
    /// before stays, in order.
    pub fn add_identifier(self, identifier: Identifier) -> (r: Self)
        ensures
            r@ == (AuthenticatorView { identifiers: Some(edges(self@.identifiers).push(identifier@)), ..self@ }),
    {
        let mut r = self;
        let mut list = match r.identifiers {
            Some(list) => list,
            None => Vec::new(),
        };
        list.push(identifier);
        r.identifiers = Some(list);
        assert(r@.identifiers.unwrap() =~= edges(self@.identifiers).push(identifier@));
        r
    }

    /// The record with `entity` appended to its entities; what was there
    /// before stays, in order.
    pub fn add_entity(self, entity: Entity) -> (r: Self)
        ensures
            r@ == (AuthenticatorView { entities: Some(edges(self@.entities).push(entity@)), ..self@ }),
    {
        let mut r = self;
        let mut list = match r.entities {
            Some(list) => list,
            None => Vec::new(),
        };
        list.push(entity);
        r.entities = Some(list);
        assert(r@.entities.unwrap() =~= edges(self@.entities).push(entity@));
        r
    }

    /// The record with `system` appended to its systems; what was there
    /// before stays, in order.
    pub fn add_system(self, system: System) -> (r: Self)
        ensures
            r@ == (AuthenticatorView { systems: Some(edges(self@.systems).push(system@)), ..self@ }),
    {
        let mut r = self;
        let mut list = match r.systems {
            Some(list) => list,
            None => Vec::new(),
        };
        list.push(system);
        r.systems = Some(list);
        assert(r@.systems.unwrap() =~= edges(self@.systems).push(system@));
        r
    }

    /// The record with its value set to the given one.
    pub fn value(self, value: String) -> (r: Self)
        ensures
            r@ == (AuthenticatorView { value: Some(value@), ..self@ }),
    {
        let mut r = self;
        r.value = Some(value);
        r
    }

    /// Whether the record can be created.
    pub fn validate(&self) -> (r: bool)
        ensures
            r == self@.valid(),
    {
        if self.entities.is_none() || self.identifiers.is_none() {
            return false;
        }
        self.authenticator_type.is_some() && self.value.is_some()
    }

    /// A copy of each record of `list`, in order.
    pub fn clone_all(list: &Vec<Authenticator>) -> (r: Vec<Authenticator>)
        ensures
            views_of(r@) == views_of(list@),
        decreases list,
    {
        let mut out: Vec<Authenticator> = Vec::new();
        let mut k: usize = 0;
        while k < list.len()
            invariant
                k <= list.len(),
                out.len() == k,
                forall|j: int| 0 <= j < k ==> out@[j]@ == list@[j]@,
            decreases list.len() - k,
        {
            out.push(list[k].clone());
            k += 1;
        }
        out
    }
}

impl Default for Authenticator {
    fn default() -> (r: Authenticator)
        ensures
            r@ == AuthenticatorView::empty(),
    {
        Authenticator {
            uid: None,
            identifiers: None,
            entities: None,
            systems: None,
            authenticator_type: None,
            value: None,
            dtype: None,
        }
    }
}

impl Clone for Authenticator {
    fn clone(&self) -> (r: Self)
        ensures
            r@ == self@,
        decreases self,
    {
        let identifiers = match &self.identifiers {
            Some(list) => Some(Identifier::clone_all(list)),
            None => None,
        };
        let entities = match &self.entities {
            Some(list) => Some(Entity::clone_all(list)),
            None => None,
        };
        let systems = match &self.systems {
            Some(list) => Some(System::clone_all(list)),
            None => None,
        };
        let dtype = match &self.dtype {
            Some(list) => Some(clone_texts(list)),
            None => None,
        };
        Authenticator {
            uid: self.uid.clone(),
            identifiers,
            entities,
            systems,
            authenticator_type: self.authenticator_type,
            value: self.value.clone(),
            dtype,
        }
    }
}

/// The rows that a query for authenticators returns.
#[derive(Debug)]
pub struct AuthenticatorRoot {
    pub authenticator: Vec<Authenticator>,
}

impl View for AuthenticatorRoot {
    type V = Seq<AuthenticatorView>;

    open spec fn view(&self) -> Seq<AuthenticatorView> {
        views_of(self.authenticator@)
    }
}

impl AuthenticatorRoot {
    /// A copy of the first row, if there is one.
    pub fn first(&self) -> (r: Option<Authenticator>)
        ensures
            r.deep_view() == first_of(self@),
    {
        if self.authenticator.len() == 0 {
            None
        } else {
            Some(self.authenticator[0].clone())
        }
    }
}

impl Clone for AuthenticatorRoot {
    fn clone(&self) -> (r: Self)
        ensures
            r@ == self@,
    {
        AuthenticatorRoot { authenticator: Authenticator::clone_all(&self.authenticator) }
    }
}

} // verus!
