//! Permission groupings.

use vstd::prelude::*;
use vstd::string::*;
use crate::entity::{Entity, EntityView};
use crate::namespace::{Namespace, NamespaceView};
use crate::projection::Kind;
use crate::record::{clone_texts, edges, first_of, fresh_guid, guid_shaped};

verus! {

/// What can go wrong in the scope store.
#[derive(Debug)]
pub enum ScopeError {
    /// The record lacks what a scope needs to be saved.
    ValidationFailed,
    /// A scope was to be taken from an empty result.
    Empty,
    /// No scope has the guid.
    DoesNotExist,
    /// The namespace has a scope of the name already.
    AlreadyExists,
}

impl ScopeError {
    /// The error in words.
    pub open spec fn text(self) -> Seq<char> {
        match self {
            ScopeError::ValidationFailed => "Cannot save a scope that fails validation"@,
            ScopeError::Empty => "Cannot extract a scope from an empty result"@,
            ScopeError::DoesNotExist => "Scope with guid does not exist"@,
            ScopeError::AlreadyExists => "Scope with this name already exists on the namespace"@,
        }
    }

    /// The error in words.
    pub fn message(&self) -> (r: String)
        ensures
            r@ == self.text(),
    {
        match self {
            ScopeError::ValidationFailed => String::from_str("Cannot save a scope that fails validation"),
            ScopeError::Empty => String::from_str("Cannot extract a scope from an empty result"),
            ScopeError::DoesNotExist => String::from_str("Scope with guid does not exist"),
            ScopeError::AlreadyExists => String::from_str("Scope with this name already exists on the namespace"),
        }
    }
}

/// The kinds of permission grouping.
#[allow(non_camel_case_types)]
#[derive(Clone, Copy, Debug, PartialEq, Eq, Structural)]
pub enum ScopeType {
    group,
    action,
}

impl ScopeType {
    /// The type as the graph store holds it.
    pub open spec fn text(self) -> Seq<char> {
        match self {
            ScopeType::group => "group"@,
            ScopeType::action => "action"@,
        }
    }

    /// The type's name as the graph store holds it.
    pub fn to_string(&self) -> (r: String)
        ensures
            r@ == self.text(),
    {
        match self {
            ScopeType::group => String::from_str("group"),
            ScopeType::action => String::from_str("action"),
        }
    }
}

/// A permission grouping attached to namespaces and entities.
#[derive(Debug)]
pub struct Scope {
    pub uid: Option<String>,
    pub guid: Option<String>,
    pub namespaces: Option<Vec<Namespace>>,
    pub name: Option<String>,
    pub entities: Option<Vec<Entity>>,
    pub scope_type: Option<ScopeType>,
    pub dtype: Option<Vec<String>>,
}

/// What a scope holds, as plain values.
pub struct ScopeView {
    pub uid: Option<Seq<char>>,
    pub guid: Option<Seq<char>>,
    pub namespaces: Option<Seq<NamespaceView>>,
    pub name: Option<Seq<char>>,
    pub entities: Option<Seq<EntityView>>,
    pub scope_type: Option<ScopeType>,
    pub dtype: Option<Seq<Seq<char>>>,
}

/// What the record holds, as plain values: each scalar by its characters,
/// each edge by the views of the records on it.
pub open spec fn view_of(r: Scope) -> ScopeView
    decreases r,
{
    ScopeView {
        uid: r.uid.deep_view(),
        guid: r.guid.deep_view(),
        namespaces: match r.namespaces {
            Some(list) => Some(crate::namespace::views_of(list@)),
            None => None,
        },
        name: r.name.deep_view(),
        entities: match r.entities {
            Some(list) => Some(crate::entity::views_of(list@)),
            None => None,
        },
        scope_type: r.scope_type,
        dtype: r.dtype.deep_view(),
    }
}

/// The views of the records of a list, in order.
pub open spec fn views_of(list: Seq<Scope>) -> Seq<ScopeView>
    decreases list,
{
    Seq::new(
        list.len(),
        |k: int|
            if 0 <= k < list.len() {
                view_of(list[k])
            } else {
                arbitrary()
            },
    )
}

impl View for Scope {
    type V = ScopeView;

    open spec fn view(&self) -> ScopeView {
        view_of(*self)
    }
}

impl DeepView for Scope {
    type V = ScopeView;

    open spec fn deep_view(&self) -> ScopeView {
        view_of(*self)
    }
}

impl ScopeView {
    /// The record with no field set.
    pub open spec fn empty() -> ScopeView {
        ScopeView {
            uid: None,
            guid: None,
            namespaces: None,
            name: None,
            entities: None,
            scope_type: None,
            dtype: None,
        }
    }

    /// Whether the record can be created: it has a guid, a type and a name that
    /// is not empty, and at least one namespace, each namespace with a uid.
    pub open spec fn valid(self) -> bool {
        &&& self.name matches Some(name)
        &&& name.len() > 0
        &&& self.namespaces matches Some(list)
        &&& list.len() > 0
        &&& forall|k: int| 0 <= k < list.len() ==> (#[trigger] list[k]).uid.is_some()
        &&& self.guid.is_some()
        &&& self.scope_type.is_some()
    }
}

impl Scope {
    /// A record of this kind with a freshly drawn guid and nothing else.
    pub fn new() -> (r: Scope)
        ensures
            r@.guid matches Some(g) && guid_shaped(g),
            r@ == (ScopeView { guid: r@.guid, dtype: Some(seq![Kind::Scope.label()]), ..ScopeView::empty() }),
    {
        let mut dtype: Vec<String> = Vec::new();
        dtype.push(String::from_str("Scope"));
        let r = Scope {
            uid: None,
            guid: Some(fresh_guid()),
            namespaces: None,
            name: None,
            entities: None,
            scope_type: None,
            dtype: Some(dtype),
        };
        assert(r@.dtype.unwrap() =~= seq![Kind::Scope.label()]);
        r
    }

    /// The record with its uid set to the given one.
    pub fn uid(self, uid: String) -> (r: Self)
        ensures
            r@ == (ScopeView { uid: Some(uid@), ..self@ }),
    {
        let mut r = self;
        r.uid = Some(uid);
        r
    }

    /// The record with `namespace` appended to its namespaces; what was there
    /// before stays, in order.
    pub fn add_namespace(self, namespace: Namespace) -> (r: Self)
        ensures
            r@ == (ScopeView { namespaces: Some(edges(self@.namespaces).push(namespace@)), ..self@ }),
    {
        let mut r = self;
        let mut list = match r.namespaces {
            Some(list) => list,
            None => Vec::new(),
        };
        list.push(namespace);
        r.namespaces = Some(list);
        assert(r@.namespaces.unwrap() =~= edges(self@.namespaces).push(namespace@));
        r
    }

    /// The record with its name set to the given one.
    pub fn name(self, name: String) -> (r: Self)
        ensures
            r@ == (ScopeView { name: Some(name@), ..self@ }),
    {
        let mut r = self;
        r.name = Some(name);
        r
    }

    /// The record with `entity` appended to its entities; what was there
    /// before stays, in order.
    pub fn add_entity(self, entity: Entity) -> (r: Self)
        ensures
            r@ == (ScopeView { entities: Some(edges(self@.entities).push(entity@)), ..self@ }),
    {
        let mut r = self;
        let mut list = match r.entities {
            Some(list) => list,
            None => Vec::new(),
        };
        list.push(entity);
        r.entities = Some(list);
        assert(r@.entities.unwrap() =~= edges(self@.entities).push(entity@));
        r
    }

    /// The record with its scope type set to the given one.
    pub fn scope_type(self, scope_type: ScopeType) -> (r: Self)
        ensures
            r@ == (ScopeView { scope_type: Some(scope_type), ..self@ }),
    {
        let mut r = self;
        r.scope_type = Some(scope_type);
        r
    }

    /// Whether the record can be created.
    #[verifier::loop_isolation(false)]
    pub fn validate(&self) -> (r: bool)
        ensures
            r == self@.valid(),
    {
        match &self.name {
            None => { return false; },
            Some(name) => {
                if name.as_str().is_empty() {
                    return false;
                }
            },
        }
        match &self.namespaces {
            None => false,
            Some(list) => {
                if list.len() < 1 {
                    return false;
                }
                let mut k: usize = 0;
                while k < list.len()
                    invariant
                        k <= list.len(),
                        forall|j: int| 0 <= j < k ==> (#[trigger] list@[j]).uid.is_some(),
                    decreases list.len() - k,
                {
                    if list[k].uid.is_none() {
                        proof {
                            assert(crate::namespace::views_of(list@)[k as int].uid.is_none());
                        }
                        return false;
                    }
                    k += 1;
                }
                self.guid.is_some() && self.scope_type.is_some()
            },
        }
    }

    /// A copy of each record of `list`, in order.
    pub fn clone_all(list: &Vec<Scope>) -> (r: Vec<Scope>)
        ensures
            views_of(r@) == views_of(list@),
        decreases list,
    {
        let mut out: Vec<Scope> = Vec::new();
        let mut k: usize = 0;
        while k < list.len()
            invariant
                k <= list.len(),
                out.len() == k,
                forall|j: int| 0 <= j < k ==> out@[j]@ == list@[j]@,
            decreases list.len() - k,
        {
            out.push(list[k].clone());
            k += 1;
        }
        out
    }
}

impl Default for Scope {
    fn default() -> (r: Scope)
        ensures
            r@ == ScopeView::empty(),
    {
        Scope {
            uid: None,
            guid: None,
            namespaces: None,
            name: None,
            entities: None,
            scope_type: None,
            dtype: None,
        }
    }
}

impl Clone for Scope {
    fn clone(&self) -> (r: Self)
        ensures
            r@ == self@,
        decreases self,
    {
        let namespaces = match &self.namespaces {
            Some(list) => Some(Namespace::clone_all(list)),
            None => None,
        };
        let entities = match &self.entities {
            Some(list) => Some(Entity::clone_all(list)),
            None => None,
        };
        let dtype = match &self.dtype {
            Some(list) => Some(clone_texts(list)),
            None => None,
        };
        Scope {
            uid: self.uid.clone(),
            guid: self.guid.clone(),
            namespaces,
            name: self.name.clone(),
            entities,
            scope_type: self.scope_type,
            dtype,
        }
    }
}

/// The rows that a query for scopes returns.
#[derive(Debug)]
pub struct ScopeRoot {
    pub scope: Vec<Scope>,
}

impl View for ScopeRoot {
    type V = Seq<ScopeView>;

    open spec fn view(&self) -> Seq<ScopeView> {
        views_of(self.scope@)
    }
}

impl ScopeRoot {
    /// A copy of the first row, if there is one.
    pub fn first(&self) -> (r: Option<Scope>)
        ensures
            r.deep_view() == first_of(self@),
    {
        if self.scope.len() == 0 {
            None
        } else {
            Some(self.scope[0].clone())
        }
    }
}

impl Clone for ScopeRoot {
    fn clone(&self) -> (r: Self)
        ensures
            r@ == self@,
    {
        ScopeRoot { scope: Scope::clone_all(&self.scope) }
    }
}

} // verus!
