//! Accounts.

use vstd::prelude::*;
use vstd::string::*;
use crate::authenticator::{Authenticator, AuthenticatorView};
use crate::identifier::{Identifier, IdentifierView};
use crate::projection::Kind;
use crate::record::{clone_texts, edges, first_of, fresh_guid, guid_shaped};
use crate::scope::{Scope, ScopeView};
use crate::system::{System, SystemView};

verus! {

/// What can go wrong in the entity store.
#[derive(Debug)]
pub enum EntityError {
    /// An entity with the sid exists already.
    SidExistsError,
    /// A required field, named here, is missing.
    EmptyField(String),
    /// No entity has the uid.
    DoesNotExist,
    /// An entity was to be taken from an empty result.
    Empty,
}

/// The error as plain values.
pub enum EntityErrorView {
    SidExistsError,
    EmptyField(Seq<char>),
    DoesNotExist,
    Empty,
}

impl View for EntityError {
    type V = EntityErrorView;

    open spec fn view(&self) -> EntityErrorView {
        match self {
            EntityError::SidExistsError => EntityErrorView::SidExistsError,
            EntityError::EmptyField(name) => EntityErrorView::EmptyField(name@),
            EntityError::DoesNotExist => EntityErrorView::DoesNotExist,
            EntityError::Empty => EntityErrorView::Empty,
        }
    }
}

impl EntityErrorView {
    /// The error in words.
    pub open spec fn text(self) -> Seq<char> {
        match self {
            EntityErrorView::SidExistsError => "An entity with this sid already exists"@,
            EntityErrorView::EmptyField(name) => "Field "@ + name + " cannot be empty"@,
            EntityErrorView::DoesNotExist => "Entity with uid does not exist"@,
            EntityErrorView::Empty => "Cannot extract an entity from an empty result"@,
        }
    }
}

impl EntityError {
    /// The error in words.
    pub fn message(&self) -> (r: String)
        ensures
            r@ == self@.text(),
    {
        match self {
            EntityError::SidExistsError => String::from_str("An entity with this sid already exists"),
            EntityError::EmptyField(name) => {
                let mut out = String::from_str("Field ");
                out.append(name.as_str());
                out.append(" cannot be empty");
                out
            },
            EntityError::DoesNotExist => String::from_str("Entity with uid does not exist"),
            EntityError::Empty => String::from_str("Cannot extract an entity from an empty result"),
        }
    }

    /// The error for a required field that is missing.
    pub fn missing(field: &str) -> (r: EntityError)
        ensures
            r@ == EntityErrorView::EmptyField(field@),
    {
        EntityError::EmptyField(String::from_str(field))
    }
}

impl From<String> for EntityError {
    fn from(e: String) -> (r: EntityError) {
        EntityError::EmptyField(e)
    }
}

impl vstd::std_specs::convert::FromSpecImpl<String> for EntityError {
    open spec fn obeys_from_spec() -> bool {
        true
    }

    open spec fn from_spec(e: String) -> EntityError {
        EntityError::EmptyField(e)
    }
}

/// An account.
#[derive(Debug)]
pub struct Entity {
    pub uid: Option<String>,
    pub guid: Option<String>,
    pub sid: Option<String>,
    pub display_name: Option<String>,
    pub identifiers: Option<Vec<Identifier>>,
    pub authenticators: Option<Vec<Authenticator>>,
    pub systems: Option<Vec<System>>,
    pub scopes: Option<Vec<Scope>>,
    pub dtype: Option<Vec<String>>,
}

/// What an entity holds, as plain values.
pub struct EntityView {
    pub uid: Option<Seq<char>>,
    pub guid: Option<Seq<char>>,
    pub sid: Option<Seq<char>>,
    pub display_name: Option<Seq<char>>,
    pub identifiers: Option<Seq<IdentifierView>>,
    pub authenticators: Option<Seq<AuthenticatorView>>,
    pub systems: Option<Seq<SystemView>>,
    pub scopes: Option<Seq<ScopeView>>,
    pub dtype: Option<Seq<Seq<char>>>,
}

/// What the record holds, as plain values: each scalar by its characters,
/// each edge by the views of the records on it.
pub open spec fn view_of(r: Entity) -> EntityView
    decreases r,
{
    EntityView {
        uid: r.uid.deep_view(),
        guid: r.guid.deep_view(),
        sid: r.sid.deep_view(),
        display_name: r.display_name.deep_view(),
        identifiers: match r.identifiers {
            Some(list) => Some(crate::identifier::views_of(list@)),
            None => None,
        },
        authenticators: match r.authenticators {
            Some(list) => Some(crate::authenticator::views_of(list@)),
            None => None,
        },
        systems: match r.systems {
            Some(list) => Some(crate::system::views_of(list@)),
            None => None,
        },
        scopes: match r.scopes {
            Some(list) => Some(crate::scope::views_of(list@)),
            None => None,
        },
        dtype: r.dtype.deep_view(),
    }
}

/// The views of the records of a list, in order.
pub open spec fn views_of(list: Seq<Entity>) -> Seq<EntityView>
    decreases list,
{
    Seq::new(
        list.len(),
        |k: int|
            if 0 <= k < list.len() {
                view_of(list[k])
            } else {
                arbitrary()
            },
    )
}

impl View for Entity {
    type V = EntityView;

    open spec fn view(&self) -> EntityView {
        view_of(*self)
    }
}

impl DeepView for Entity {
    type V = EntityView;

    open spec fn deep_view(&self) -> EntityView {
        view_of(*self)
    }
}

impl EntityView {
    /// The record with no field set.
    pub open spec fn empty() -> EntityView {
        EntityView {
            uid: None,
            guid: None,
            sid: None,
            display_name: None,
            identifiers: None,
            authenticators: None,
            systems: None,
            scopes: None,
            dtype: None,
        }
    }

    /// Whether the record can be created: it has a display name, a sid and a guid.
    pub open spec fn valid(self) -> bool {
        self.display_name.is_some() && self.sid.is_some() && self.guid.is_some()
    }
}

impl Entity {
    /// A record of this kind with a freshly drawn guid and nothing else.
    pub fn new() -> (r: Entity)
        ensures
            r@.guid matches Some(g) && guid_shaped(g),
            r@ == (EntityView { guid: r@.guid, dtype: Some(seq![Kind::Entity.label()]), ..EntityView::empty() }),
    {
        let mut dtype: Vec<String> = Vec::new();
        dtype.push(String::from_str("Entity"));
        let r = Entity {
            uid: None,
            guid: Some(fresh_guid()),
            sid: None,
            display_name: None,
            identifiers: None,
            authenticators: None,
            systems: None,
            scopes: None,
            dtype: Some(dtype),
        };
        assert(r@.dtype.unwrap() =~= seq![Kind::Entity.label()]);
        r
    }

    /// The record with its uid set to the given one.
    pub fn uid(self, uid: String) -> (r: Self)
        ensures
            r@ == (EntityView { uid: Some(uid@), ..self@ }),
    {
        let mut r = self;
        r.uid = Some(uid);
        r
    }

    /// The record with its display name set to the given one.
    pub fn display_name(self, display_name: String) -> (r: Self)
        ensures
            r@ == (EntityView { display_name: Some(display_name@), ..self@ }),
    {
        let mut r = self;
        r.display_name = Some(display_name);
        r
    }

    /// The record with its sid set to the given one.
    pub fn sid(self, sid: String) -> (r: Self)
        ensures
            r@ == (EntityView { sid: Some(sid@), ..self@ }),
    {
        let mut r = self;
        r.sid = Some(sid);
        r
    }

    /// The record with `identifier` appended to its identifiers; what was there
    /// before stays, in order.
    pub fn add_identifier(self, identifier: Identifier) -> (r: Self)
        ensures
            r@ == (EntityView { identifiers: Some(edges(self@.identifiers).push(identifier@)), ..self@ }),
    {
        let mut r = self;
        let mut list = match r.identifiers {
            Some(list) => list,
            None => Vec::new(),
        };
        list.push(identifier);
        r.identifiers = Some(list);
        assert(r@.identifiers.unwrap() =~= edges(self@.identifiers).push(identifier@));
        r
    }

    /// The record with `authenticator` appended to its authenticators; what was there
    /// before stays, in order.
    pub fn add_authenticator(self, authenticator: Authenticator) -> (r: Self)
        ensures
            r@ == (EntityView { authenticators: Some(edges(self@.authenticators).push(authenticator@)), ..self@ }),
    {
        let mut r = self;
        let mut list = match r.authenticators {
            Some(list) => list,
            None => Vec::new(),
        };
        list.push(authenticator);
        r.authenticators = Some(list);
        assert(r@.authenticators.unwrap() =~= edges(self@.authenticators).push(authenticator@));
        r
    }

    /// The record with `system` appended to its systems; what was there
    /// before stays, in order.
    pub fn add_system(self, system: System) -> (r: Self)
        ensures
            r@ == (EntityView { systems: Some(edges(self@.systems).push(system@)), ..self@ }),
    {
        let mut r = self;
        let mut list = match r.systems {
            Some(list) => list,
            None => Vec::new(),
        };
        list.push(system);
        r.systems = Some(list);
        assert(r@.systems.unwrap() =~= edges(self@.systems).push(system@));
        r
    }

    /// The record with `scope` appended to its scopes; what was there
    /// before stays, in order.
    pub fn add_scope(self, scope: Scope) -> (r: Self)
        ensures
            r@ == (EntityView { scopes: Some(edges(self@.scopes).push(scope@)), ..self@ }),
    {
        let mut r = self;
        let mut list = match r.scopes {
            Some(list) => list,
            None => Vec::new(),
        };
        list.push(scope);
        r.scopes = Some(list);
        assert(r@.scopes.unwrap() =~= edges(self@.scopes).push(scope@));
        r
    }

    /// Whether the record can be created.
    pub fn validate(&self) -> (r: bool)
        ensures
            r == self@.valid(),
    {
        self.display_name.is_some() && self.sid.is_some() && self.guid.is_some()
    }

    /// A copy of each record of `list`, in order.
    pub fn clone_all(list: &Vec<Entity>) -> (r: Vec<Entity>)
        ensures
            views_of(r@) == views_of(list@),
        decreases list,
    {
        let mut out: Vec<Entity> = Vec::new();
        let mut k: usize = 0;
        while k < list.len()
            invariant
                k <= list.len(),
                out.len() == k,
                forall|j: int| 0 <= j < k ==> out@[j]@ == list@[j]@,
            decreases list.len() - k,
        {
            out.push(list[k].clone());
            k += 1;
        }
        out
    }
}

impl Default for Entity {
    fn default() -> (r: Entity)
        ensures
            r@ == EntityView::empty(),
    {
        Entity {
            uid: None,
            guid: None,
            sid: None,
            display_name: None,
            identifiers: None,
            authenticators: None,
            systems: None,
            scopes: None,
            dtype: None,
        }
    }
}

impl Clone for Entity {
    fn clone(&self) -> (r: Self)
        ensures
            r@ == self@,
        decreases self,
    {
        let identifiers = match &self.identifiers {
            Some(list) => Some(Identifier::clone_all(list)),
            None => None,
        };
        let authenticators = match &self.authenticators {
            Some(list) => Some(Authenticator::clone_all(list)),
            None => None,
        };
        let systems = match &self.systems {
            Some(list) => Some(System::clone_all(list)),
            None => None,
        };
        let scopes = match &self.scopes {
            Some(list) => Some(Scope::clone_all(list)),
            None => None,
        };
        let dtype = match &self.dtype {
            Some(list) => Some(clone_texts(list)),
            None => None,
        };
        Entity {
            uid: self.uid.clone(),
            guid: self.guid.clone(),
            sid: self.sid.clone(),
            display_name: self.display_name.clone(),
            identifiers,
            authenticators,
            systems,
            scopes,
            dtype,
        }
    }
}

/// The rows that a query for entities returns.
#[derive(Debug)]
pub struct EntityRoot {
    pub entity: Vec<Entity>,
}

impl View for EntityRoot {
    type V = Seq<EntityView>;

    open spec fn view(&self) -> Seq<EntityView> {
        views_of(self.entity@)
    }
}

impl EntityRoot {
    /// A copy of the first row, if there is one.
    pub fn first(&self) -> (r: Option<Entity>)
        ensures
            r.deep_view() == first_of(self@),
    {
        if self.entity.len() == 0 {
            None
        } else {
            Some(self.entity[0].clone())
        }
    }
}

impl Clone for EntityRoot {
    fn clone(&self) -> (r: Self)
        ensures
            r@ == self@,
    {
        EntityRoot { entity: Entity::clone_all(&self.entity) }
    }
}

} // verus!
