//! Tenants.

use vstd::prelude::*;
use vstd::string::*;
use crate::authenticator::{Authenticator, AuthenticatorView};
use crate::entity::{Entity, EntityView};
use crate::namespace::{Namespace, NamespaceView};
use crate::projection::Kind;
use crate::record::{clone_texts, edges, first_of, fresh_guid, guid_shaped};

verus! {

/// What can go wrong in the system store.
#[derive(Debug)]
pub enum SystemError {
    /// The record lacks what a system needs to be saved.
    ValidationFailed,
    /// A system was to be taken from an empty result.
    Empty,
    /// No system has the guid.
    DoesNotExist,
}

impl SystemError {
    /// The error in words.
    pub open spec fn text(self) -> Seq<char> {
        match self {
            SystemError::ValidationFailed => "Cannot save a system that fails validation"@,
            SystemError::Empty => "Cannot extract a system from an empty result"@,
            SystemError::DoesNotExist => "System with guid does not exist"@,
        }
    }

    /// The error in words.
    pub fn message(&self) -> (r: String)
        ensures
            r@ == self.text(),
    {
        match self {
            SystemError::ValidationFailed => String::from_str("Cannot save a system that fails validation"),
            SystemError::Empty => String::from_str("Cannot extract a system from an empty result"),
            SystemError::DoesNotExist => String::from_str("System with guid does not exist"),
        }
    }
}

/// A tenant that credentials are scoped to.
#[derive(Debug)]
pub struct System {
    pub uid: Option<String>,
    pub guid: Option<String>,
    pub authenticators: Option<Vec<Authenticator>>,
    pub entities: Option<Vec<Entity>>,
    pub namespaces: Option<Vec<Namespace>>,
    pub name: Option<String>,
    pub dtype: Option<Vec<String>>,
}

/// What a system holds, as plain values.
pub struct SystemView {
    pub uid: Option<Seq<char>>,
    pub guid: Option<Seq<char>>,
    pub authenticators: Option<Seq<AuthenticatorView>>,
    pub entities: Option<Seq<EntityView>>,
    pub namespaces: Option<Seq<NamespaceView>>,
    pub name: Option<Seq<char>>,
    pub dtype: Option<Seq<Seq<char>>>,
}

/// What the record holds, as plain values: each scalar by its characters,
/// each edge by the views of the records on it.
pub open spec fn view_of(r: System) -> SystemView
    decreases r,
{
    SystemView {
        uid: r.uid.deep_view(),
        guid: r.guid.deep_view(),
        authenticators: match r.authenticators {
            Some(list) => Some(crate::authenticator::views_of(list@)),
            None => None,
        },
        entities: match r.entities {
            Some(list) => Some(crate::entity::views_of(list@)),
            None => None,
        },
        namespaces: match r.namespaces {
            Some(list) => Some(crate::namespace::views_of(list@)),
            None => None,
        },
        name: r.name.deep_view(),
        dtype: r.dtype.deep_view(),
    }
}

/// The views of the records of a list, in order.
pub open spec fn views_of(list: Seq<System>) -> Seq<SystemView>
    decreases list,
{
    Seq::new(
        list.len(),
        |k: int|
            if 0 <= k < list.len() {
                view_of(list[k])
            } else {
                arbitrary()
            },
    )
}

impl View for System {
    type V = SystemView;

    open spec fn view(&self) -> SystemView {
        view_of(*self)
    }
}

impl DeepView for System {
    type V = SystemView;

    open spec fn deep_view(&self) -> SystemView {
        view_of(*self)
    }
}

impl SystemView {
    /// The record with no field set.
    pub open spec fn empty() -> SystemView {
        SystemView {
            uid: None,
            guid: None,
            authenticators: None,
            entities: None,
            namespaces: None,
            name: None,
            dtype: None,
        }
    }

    /// Whether the record can be created: it has a name and a guid.
    pub open spec fn valid(self) -> bool {
        self.name.is_some() && self.guid.is_some()
    }
}

impl System {
    /// A record of this kind with a freshly drawn guid and nothing else.
    pub fn new() -> (r: System)
        ensures
            r@.guid matches Some(g) && guid_shaped(g),
            r@ == (SystemView { guid: r@.guid, dtype: Some(seq![Kind::System.label()]), ..SystemView::empty() }),
    {
        let mut dtype: Vec<String> = Vec::new();
        dtype.push(String::from_str("System"));
        let r = System {
            uid: None,
            guid: Some(fresh_guid()),
            authenticators: None,
            entities: None,
            namespaces: None,
            name: None,
            dtype: Some(dtype),
        };
        assert(r@.dtype.unwrap() =~= seq![Kind::System.label()]);
        r
    }

    /// The record with its guid set to the given one.
    pub fn guid(self, guid: String) -> (r: Self)
        ensures
            r@ == (SystemView { guid: Some(guid@), ..self@ }),
    {
        let mut r = self;
        r.guid = Some(guid);
        r
    }

    /// The record with its uid set to the given one.
    pub fn uid(self, uid: String) -> (r: Self)
        ensures
            r@ == (SystemView { uid: Some(uid@), ..self@ }),
    {
        let mut r = self;
        r.uid = Some(uid);
        r
    }

    /// The record with its name set to the given one.
    pub fn name(self, name: String) -> (r: Self)
        ensures
            r@ == (SystemView { name: Some(name@), ..self@ }),
    {
        let mut r = self;
        r.name = Some(name);
        r
    }

    /// The record with `authenticator` appended to its authenticators; what was there
    /// before stays, in order.
    pub fn add_authenticator(self, authenticator: Authenticator) -> (r: Self)
        ensures
            r@ == (SystemView { authenticators: Some(edges(self@.authenticators).push(authenticator@)), ..self@ }),
    {
        let mut r = self;
        let mut list = match r.authenticators {
            Some(list) => list,
            None => Vec::new(),
        };
        list.push(authenticator);
        r.authenticators = Some(list);
        assert(r@.authenticators.unwrap() =~= edges(self@.authenticators).push(authenticator@));
        r
    }

    /// The record with `entity` appended to its entities; what was there
    /// before stays, in order.
    pub fn add_entity(self, entity: Entity) -> (r: Self)
        ensures
            r@ == (SystemView { entities: Some(edges(self@.entities).push(entity@)), ..self@ }),
    {
        let mut r = self;
        let mut list = match r.entities {
            Some(list) => list,
            None => Vec::new(),
        };
        list.push(entity);
        r.entities = Some(list);
        assert(r@.entities.unwrap() =~= edges(self@.entities).push(entity@));
        r
    }

    /// The record with `namespace` appended to its namespaces; what was there
    /// before stays, in order.
    pub fn add_namespace(self, namespace: Namespace) -> (r: Self)
        ensures
            r@ == (SystemView { namespaces: Some(edges(self@.namespaces).push(namespace@)), ..self@ }),
    {
        let mut r = self;
        let mut list = match r.namespaces {
            Some(list) => list,
            None => Vec::new(),
        };
        list.push(namespace);
        r.namespaces = Some(list);
        assert(r@.namespaces.unwrap() =~= edges(self@.namespaces).push(namespace@));
        r
    }

    /// Whether the record can be created.
    pub fn validate(&self) -> (r: bool)
        ensures
            r == self@.valid(),
    {
        self.name.is_some() && self.guid.is_some()
    }

    /// A copy of each record of `list`, in order.
    pub fn clone_all(list: &Vec<System>) -> (r: Vec<System>)
        ensures
            views_of(r@) == views_of(list@),
        decreases list,
    {
        let mut out: Vec<System> = Vec::new();
        let mut k: usize = 0;
        while k < list.len()
            invariant
                k <= list.len(),
                out.len() == k,
                forall|j: int| 0 <= j < k ==> out@[j]@ == list@[j]@,
            decreases list.len() - k,
        {
            out.push(list[k].clone());
            k += 1;
        }
        out
    }
}

impl Default for System {
    fn default() -> (r: System)
        ensures
            r@ == SystemView::empty(),
    {
        System {
            uid: None,
            guid: None,
            authenticators: None,
            entities: None,
            namespaces: None,
            name: None,
            dtype: None,
        }
    }
}

impl Clone for System {
    fn clone(&self) -> (r: Self)
        ensures
            r@ == self@,
        decreases self,
    {
        let authenticators = match &self.authenticators {
            Some(list) => Some(Authenticator::clone_all(list)),
            None => None,
        };
        let entities = match &self.entities {
            Some(list) => Some(Entity::clone_all(list)),
            None => None,
        };
        let namespaces = match &self.namespaces {
            Some(list) => Some(Namespace::clone_all(list)),
            None => None,
        };
        let dtype = match &self.dtype {
            Some(list) => Some(clone_texts(list)),
            None => None,
        };
        System {
            uid: self.uid.clone(),
            guid: self.guid.clone(),
            authenticators,
            entities,
            namespaces,
            name: self.name.clone(),
            dtype,
        }
    }
}

/// The rows that a query for systems returns.
#[derive(Debug)]
pub struct SystemRoot {
    pub system: Vec<System>,
}

impl View for SystemRoot {
    type V = Seq<SystemView>;

    open spec fn view(&self) -> Seq<SystemView> {
        views_of(self.system@)
    }
}

impl SystemRoot {
    /// A copy of the first row, if there is one.
    pub fn first(&self) -> (r: Option<System>)
        ensures
            r.deep_view() == first_of(self@),
    {
        if self.system.len() == 0 {
            None
        } else {
            Some(self.system[0].clone())
        }
    }
}

impl Clone for SystemRoot {
    fn clone(&self) -> (r: Self)
        ensures
            r@ == self@,
    {
        SystemRoot { system: System::clone_all(&self.system) }
    }
}

} // verus!
