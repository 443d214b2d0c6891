//! Namespaces of a tenant.

use vstd::prelude::*;
use vstd::string::*;
use crate::projection::Kind;
use crate::record::{clone_texts, edges, first_of, fresh_guid, guid_shaped};
use crate::scope::{Scope, ScopeView};
use crate::system::{System, SystemView};

verus! {

/// What can go wrong in the namespace store.
#[derive(Debug)]
pub enum NamespaceError {
    /// The record lacks what a namespace needs to be saved.
    ValidationFailed,
    /// A namespace was to be taken from an empty result.
    Empty,
    /// No namespace has the guid.
    DoesNotExist,
    /// The system has a namespace of the name already.
    AlreadyExists,
}

impl NamespaceError {
    /// The error in words.
    pub open spec fn text(self) -> Seq<char> {
        match self {
            NamespaceError::ValidationFailed => "Cannot save a namespace that fails validation"@,
            NamespaceError::Empty => "Cannot extract a namespace from an empty result"@,
            NamespaceError::DoesNotExist => "Namespace with guid does not exist"@,
            NamespaceError::AlreadyExists => "Namespace with this name already exists on the system"@,
        }
    }

    /// The error in words.
    pub fn message(&self) -> (r: String)
        ensures
            r@ == self.text(),
    {
        match self {
            NamespaceError::ValidationFailed => String::from_str("Cannot save a namespace that fails validation"),
            NamespaceError::Empty => String::from_str("Cannot extract a namespace from an empty result"),
            NamespaceError::DoesNotExist => String::from_str("Namespace with guid does not exist"),
            NamespaceError::AlreadyExists => String::from_str("Namespace with this name already exists on the system"),
        }
    }
}

/// A subdivision of a system that groups scopes.
#[derive(Debug)]
pub struct Namespace {
    pub uid: Option<String>,
    pub guid: Option<String>,
    pub systems: Option<Vec<System>>,
    pub scopes: Option<Vec<Scope>>,
    pub name: Option<String>,
    pub dtype: Option<Vec<String>>,
}

/// What a namespace holds, as plain values.
pub struct NamespaceView {
    pub uid: Option<Seq<char>>,
    pub guid: Option<Seq<char>>,
    pub systems: Option<Seq<SystemView>>,
    pub scopes: Option<Seq<ScopeView>>,
    pub name: Option<Seq<char>>,
    pub dtype: Option<Seq<Seq<char>>>,
}

/// What the record holds, as plain values: each scalar by its characters,
/// each edge by the views of the records on it.
pub open spec fn view_of(r: Namespace) -> NamespaceView
    decreases r,
{
    NamespaceView {
        uid: r.uid.deep_view(),
        guid: r.guid.deep_view(),
        systems: match r.systems {
            Some(list) => Some(crate::system::views_of(list@)),
            None => None,
        },
        scopes: match r.scopes {
            Some(list) => Some(crate::scope::views_of(list@)),
            None => None,
        },
        name: r.name.deep_view(),
        dtype: r.dtype.deep_view(),
    }
}

/// The views of the records of a list, in order.
pub open spec fn views_of(list: Seq<Namespace>) -> Seq<NamespaceView>
    decreases list,
{
    Seq::new(
        list.len(),
        |k: int|
            if 0 <= k < list.len() {
                view_of(list[k])
            } else {
                arbitrary()
            },
    )
}

impl View for Namespace {
    type V = NamespaceView;

    open spec fn view(&self) -> NamespaceView {
        view_of(*self)
    }
}

impl DeepView for Namespace {
    type V = NamespaceView;

    open spec fn deep_view(&self) -> NamespaceView {
        view_of(*self)
    }
}

impl NamespaceView {
    /// The record with no field set.
    pub open spec fn empty() -> NamespaceView {
        NamespaceView {
            uid: None,
            guid: None,
            systems: None,
            scopes: None,
            name: None,
            dtype: None,
        }
    }

    /// Whether the record can be created: it has a guid and a name that is not
    /// empty, and at least one system, each system with a uid.
    pub open spec fn valid(self) -> bool {
        &&& self.name matches Some(name)
        &&& name.len() > 0
        &&& self.systems matches Some(list)
        &&& list.len() > 0
        &&& forall|k: int| 0 <= k < list.len() ==> (#[trigger] list[k]).uid.is_some()
        &&& self.guid.is_some()
    }
}

impl Namespace {
    /// A record of this kind with a freshly drawn guid and nothing else.
    pub fn new() -> (r: Namespace)
        ensures
            r@.guid matches Some(g) && guid_shaped(g),
            r@ == (NamespaceView { guid: r@.guid, dtype: Some(seq![Kind::Namespace.label()]), ..NamespaceView::empty() }),
    {
        let mut dtype: Vec<String> = Vec::new();
        dtype.push(String::from_str("Namespace"));
        let r = Namespace {
            uid: None,
            guid: Some(fresh_guid()),
            systems: None,
            scopes: None,
            name: None,
            dtype: Some(dtype),
        };
        assert(r@.dtype.unwrap() =~= seq![Kind::Namespace.label()]);
        r
    }

    /// The record with its uid set to the given one.
    pub fn uid(self, uid: String) -> (r: Self)
        ensures
            r@ == (NamespaceView { uid: Some(uid@), ..self@ }),
    {
        let mut r = self;
        r.uid = Some(uid);
        r
    }

    /// The record with its name set to the given one.
    pub fn name(self, name: String) -> (r: Self)
        ensures
            r@ == (NamespaceView { name: Some(name@), ..self@ }),
    {
        let mut r = self;
        r.name = Some(name);
        r
    }

    /// The record with `system` appended to its systems; what was there
    /// before stays, in order.
    pub fn add_system(self, system: System) -> (r: Self)
        ensures
            r@ == (NamespaceView { systems: Some(edges(self@.systems).push(system@)), ..self@ }),
    {
        let mut r = self;
        let mut list = match r.systems {
            Some(list) => list,
            None => Vec::new(),
        };
        list.push(system);
        r.systems = Some(list);
        assert(r@.systems.unwrap() =~= edges(self@.systems).push(system@));
        r
    }

    /// The record with `scope` appended to its scopes; what was there
    /// before stays, in order.
    pub fn add_scope(self, scope: Scope) -> (r: Self)
        ensures
            r@ == (NamespaceView { scopes: Some(edges(self@.scopes).push(scope@)), ..self@ }),
    {
        let mut r = self;
        let mut list = match r.scopes {
            Some(list) => list,
            None => Vec::new(),
        };
        list.push(scope);
        r.scopes = Some(list);
        assert(r@.scopes.unwrap() =~= edges(self@.scopes).push(scope@));
        r
    }

    /// Whether the record can be created.
    #[verifier::loop_isolation(false)]
    pub fn validate(&self) -> (r: bool)
        ensures
            r == self@.valid(),
    {
        match &self.name {
            None => { return false; },
            Some(name) => {
                if name.as_str().is_empty() {
                    return false;
                }
            },
        }
        match &self.systems {
            None => false,
            Some(list) => {
                if list.len() < 1 {
                    return false;
                }
                let mut k: usize = 0;
                while k < list.len()
                    invariant
                        k <= list.len(),
                        forall|j: int| 0 <= j < k ==> (#[trigger] list@[j]).uid.is_some(),
                    decreases list.len() - k,
                {
                    if list[k].uid.is_none() {
                        proof {
                            assert(crate::system::views_of(list@)[k as int].uid.is_none());
                        }
                        return false;
                    }
                    k += 1;
                }
                self.guid.is_some()
            },
        }
    }

    /// A copy of each record of `list`, in order.
    pub fn clone_all(list: &Vec<Namespace>) -> (r: Vec<Namespace>)
        ensures
            views_of(r@) == views_of(list@),
        decreases list,
    {
        let mut out: Vec<Namespace> = Vec::new();
        let mut k: usize = 0;
        while k < list.len()
            invariant
                k <= list.len(),
                out.len() == k,
                forall|j: int| 0 <= j < k ==> out@[j]@ == list@[j]@,
            decreases list.len() - k,
        {
            out.push(list[k].clone());
            k += 1;
        }
        out
    }
}

impl Default for Namespace {
    fn default() -> (r: Namespace)
        ensures
            r@ == NamespaceView::empty(),
    {
        Namespace {
            uid: None,
            guid: None,
            systems: None,
            scopes: None,
            name: None,
            dtype: None,
        }
    }
}

impl Clone for Namespace {
    fn clone(&self) -> (r: Self)
        ensures
            r@ == self@,
        decreases self,
    {
        let systems = match &self.systems {
            Some(list) => Some(System::clone_all(list)),
            None => None,
        };
        let scopes = match &self.scopes {
            Some(list) => Some(Scope::clone_all(list)),
            None => None,
        };
        let dtype = match &self.dtype {
            Some(list) => Some(clone_texts(list)),
            None => None,
        };
        Namespace {
            uid: self.uid.clone(),
            guid: self.guid.clone(),
            systems,
            scopes,
            name: self.name.clone(),
            dtype,
        }
    }
}

/// The rows that a query for namespaces returns.
#[derive(Debug)]
pub struct NamespaceRoot {
    pub namespace: Vec<Namespace>,
}

impl View for NamespaceRoot {
    type V = Seq<NamespaceView>;

    open spec fn view(&self) -> Seq<NamespaceView> {
        views_of(self.namespace@)
    }
}

impl NamespaceRoot {
    /// A copy of the first row, if there is one.
    pub fn first(&self) -> (r: Option<Namespace>)
        ensures
            r.deep_view() == first_of(self@),
    {
        if self.namespace.len() == 0 {
            None
        } else {
            Some(self.namespace[0].clone())
        }
    }
}

impl Clone for NamespaceRoot {
    fn clone(&self) -> (r: Self)
        ensures
            r@ == self@,
    {
        NamespaceRoot { namespace: Namespace::clone_all(&self.namespace) }
    }
}

} // verus!
