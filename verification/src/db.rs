//! The exchange with the graph store, without the store.
//!
//! A store operation never reaches the graph store itself. It is given a
//! [`Replay`]: the replies that the graph store has made so far to the
//! requests that the operation made, in order. Run from the start against
//! that log, the operation either finishes ([`Step::Done`]) or comes to a
//! request that the log does not answer yet ([`Step::Ask`]). The caller
//! performs that request, records the reply and runs the operation again.

use vstd::prelude::*;
use crate::authenticator::{Authenticator, AuthenticatorRoot, AuthenticatorView};
use crate::entity::{Entity, EntityRoot, EntityView};
use crate::error::{StoreError, StoreErrorView};
use crate::identifier::{Identifier, IdentifierRoot, IdentifierView};
use crate::namespace::{Namespace, NamespaceRoot, NamespaceView};
use crate::projection::Kind;
use crate::scope::{Scope, ScopeRoot, ScopeView};
use crate::system::{System, SystemRoot, SystemView};

verus! {

/// A record of any kind.
#[derive(Debug)]
pub enum Record {
    Entity(Entity),
    Identifier(Identifier),
    Authenticator(Authenticator),
    System(System),
    Namespace(Namespace),
    Scope(Scope),
}

/// A record of any kind, as plain values.
pub enum RecordView {
    Entity(EntityView),
    Identifier(IdentifierView),
    Authenticator(AuthenticatorView),
    System(SystemView),
    Namespace(NamespaceView),
    Scope(ScopeView),
}

impl View for Record {
    type V = RecordView;

    open spec fn view(&self) -> RecordView {
        match self {
            Record::Entity(r) => RecordView::Entity(r@),
            Record::Identifier(r) => RecordView::Identifier(r@),
            Record::Authenticator(r) => RecordView::Authenticator(r@),
            Record::System(r) => RecordView::System(r@),
            Record::Namespace(r) => RecordView::Namespace(r@),
            Record::Scope(r) => RecordView::Scope(r@),
        }
    }
}

/// The bindings of the variables of a query, in order.
pub type Vars = Seq<(Seq<char>, Seq<char>)>;

/// What the graph store is asked to do.
#[derive(Debug)]
pub enum Request {
    /// Run the query `text` with its variables bound by `vars`, and read the
    /// answer as rows of kind `root`.
    Query { text: String, vars: Vec<(String, String)>, root: Kind },
    /// Merge the record into the graph; a record without a uid is new.
    Save(Record),
    /// Replace the schema.
    Alter(String),
    /// Drop all data and the schema.
    DropAll,
}

/// A request, as plain values.
pub enum RequestView {
    Query { text: Seq<char>, vars: Vars, root: Kind },
    Save(RecordView),
    Alter(Seq<char>),
    DropAll,
}

impl View for Request {
    type V = RequestView;

    open spec fn view(&self) -> RequestView {
        match self {
            Request::Query { text, vars, root } => RequestView::Query {
                text: text@,
                vars: vars.deep_view(),
                root: *root,
            },
            Request::Save(record) => RequestView::Save(record@),
            Request::Alter(schema) => RequestView::Alter(schema@),
            Request::DropAll => RequestView::DropAll,
        }
    }
}

/// Why the graph store gave no answer.
#[derive(Clone, Copy, Debug, PartialEq, Eq, Structural)]
pub enum Failure {
    /// The request did not reach the store, or the store refused it.
    Transport,
    /// The answer could not be read as what was asked for.
    Decode,
}

impl Failure {
    /// The error that the failure is reported as.
    pub open spec fn fault(self) -> StoreErrorView {
        match self {
            Failure::Transport => StoreErrorView::Transport,
            Failure::Decode => StoreErrorView::Decode,
        }
    }

    /// The error that the failure is reported as.
    pub fn error(self) -> (r: StoreError)
        ensures
            r@ == self.fault(),
    {
        match self {
            Failure::Transport => StoreError::Transport,
            Failure::Decode => StoreError::Decode,
        }
    }
}

/// What the graph store answered.
#[derive(Debug)]
pub enum Reply {
    Entity(EntityRoot),
    Identifier(IdentifierRoot),
    Authenticator(AuthenticatorRoot),
    System(SystemRoot),
    Namespace(NamespaceRoot),
    Scope(ScopeRoot),
    /// The uids that a save assigned, each with the name of its blank node,
    /// in the order in which the store's answer was walked.
    Saved(Vec<(String, String)>),
    /// The schema was altered, or the data dropped.
    Altered,
    Failed(Failure),
}

/// A reply, as plain values.
pub enum ReplyView {
    Entity(Seq<EntityView>),
    Identifier(Seq<IdentifierView>),
    Authenticator(Seq<AuthenticatorView>),
    System(Seq<SystemView>),
    Namespace(Seq<NamespaceView>),
    Scope(Seq<ScopeView>),
    Saved(Vars),
    Altered,
    Failed(Failure),
}

impl View for Reply {
    type V = ReplyView;

    open spec fn view(&self) -> ReplyView {
        match self {
            Reply::Entity(rows) => ReplyView::Entity(rows@),
            Reply::Identifier(rows) => ReplyView::Identifier(rows@),
            Reply::Authenticator(rows) => ReplyView::Authenticator(rows@),
            Reply::System(rows) => ReplyView::System(rows@),
            Reply::Namespace(rows) => ReplyView::Namespace(rows@),
            Reply::Scope(rows) => ReplyView::Scope(rows@),
            Reply::Saved(uids) => ReplyView::Saved(uids.deep_view()),
            Reply::Altered => ReplyView::Altered,
            Reply::Failed(failure) => ReplyView::Failed(*failure),
        }
    }
}

/// The replies to an operation's requests so far, and how many of them the
/// run in progress has consumed.
pub struct Script {
    pub log: Seq<ReplyView>,
    pub at: nat,
}

impl Script {
    /// Whether the log holds a reply to the next request.
    pub open spec fn answered(self) -> bool {
        self.at < self.log.len()
    }

    /// The reply to the next request.
    pub open spec fn reply(self) -> ReplyView
        recommends
            self.answered(),
    {
        self.log[self.at as int]
    }

    /// The script after the next reply was consumed.
    pub open spec fn next(self) -> Script {
        Script { log: self.log, at: self.at + 1 }
    }
}

/// The replies of the graph store to one operation, replayed to it from
/// the start on each run.
#[derive(Debug)]
pub struct Replay {
    log: Vec<Reply>,
    at: usize,
}

impl View for Replay {
    type V = Script;

    closed spec fn view(&self) -> Script {
        Script { log: Seq::new(self.log@.len(), |k: int| self.log@[k]@), at: self.at as nat }
    }
}

impl Replay {
    /// A replay without replies: the operation has asked nothing yet.
    pub fn new() -> (r: Replay)
        ensures
            r@ == (Script { log: Seq::empty(), at: 0 }),
    {
        let r = Replay { log: Vec::new(), at: 0 };
        assert(r@.log =~= Seq::empty());
        r
    }

    /// Appends the reply to the request that the last run ended on.
    pub fn record(&mut self, reply: Reply)
        ensures
            final(self)@ == (Script { log: old(self)@.log.push(reply@), at: old(self)@.at }),
    {
        self.log.push(reply);
        assert(self@.log =~= old(self)@.log.push(reply@));
    }

    /// Goes back to the first reply, for another run.
    pub fn rewind(&mut self)
        ensures
            final(self)@ == (Script { log: old(self)@.log, at: 0 }),
    {
        self.at = 0;
    }

    /// The reply to the next request, if the log holds one.
    pub fn peek(&self) -> (r: Option<&Reply>)
        ensures
            match r {
                Some(reply) => self@.answered() && reply@ == self@.reply(),
                None => !self@.answered(),
            },
    {
        if self.at < self.log.len() {
            Some(&self.log[self.at])
        } else {
            None
        }
    }

    /// Consumes the reply to the next request, if the log holds one.
    pub fn advance(&mut self)
        ensures
            final(self)@ == if old(self)@.answered() {
                old(self)@.next()
            } else {
                old(self)@
            },
    {
        if self.at < self.log.len() {
            self.at = self.at + 1;
        }
    }
}

/// How a run of an operation ended: with its result, or on a request that
/// the graph store has not answered yet.
#[derive(Debug)]
pub enum Step<T> {
    Done(T),
    Ask(Request),
}

/// How a run ended, as plain values.
pub enum StepView<V> {
    Done(V),
    Ask(RequestView),
}

/// The outcome of a lookup: the record, or none, or an error.
pub type Found<V> = StepView<Result<Option<V>, StoreErrorView>>;

impl<X: DeepView> View for Step<Result<Option<X>, StoreError>> {
    type V = StepView<Result<Option<X::V>, StoreErrorView>>;

    open spec fn view(&self) -> StepView<Result<Option<X::V>, StoreErrorView>> {
        match self {
            Step::Done(Ok(found)) => StepView::Done(Ok(found.deep_view())),
            Step::Done(Err(e)) => StepView::Done(Err(e@)),
            Step::Ask(request) => StepView::Ask(request@),
        }
    }
}

impl View for Step<Result<bool, StoreError>> {
    type V = StepView<Result<bool, StoreErrorView>>;

    open spec fn view(&self) -> StepView<Result<bool, StoreErrorView>> {
        match self {
            Step::Done(Ok(b)) => StepView::Done(Ok(*b)),
            Step::Done(Err(e)) => StepView::Done(Err(e@)),
            Step::Ask(request) => StepView::Ask(request@),
        }
    }
}

impl View for Step<bool> {
    type V = StepView<bool>;

    open spec fn view(&self) -> StepView<bool> {
        match self {
            Step::Done(b) => StepView::Done(*b),
            Step::Ask(request) => StepView::Ask(request@),
        }
    }
}

/// The request to run a query.
pub fn query(text: String, vars: Vec<(String, String)>, root: Kind) -> (r: Request)
    ensures
        r@ == (RequestView::Query { text: text@, vars: vars.deep_view(), root }),
{
    Request::Query { text, vars, root }
}

/// The request to save a record.
pub fn save(record: Record) -> (r: Request)
    ensures
        r@ == RequestView::Save(record@),
{
    Request::Save(record)
}

/// The request to drop all data and the schema.
pub fn drop_all() -> (r: Request)
    ensures
        r@ == RequestView::DropAll,
{
    Request::DropAll
}

/// The request to replace the schema by `schema`.
pub fn migrate_schema(schema: &str) -> (r: Request)
    ensures
        r@ == RequestView::Alter(schema@),
{
    Request::Alter(schema.to_string())
}

/// The variables of a query with one variable.
pub fn bind(name: &str, value: &str) -> (r: Vec<(String, String)>)
    ensures
        r.deep_view() == seq![(name@, value@)],
{
    let mut vars: Vec<(String, String)> = Vec::new();
    vars.push((name.to_string(), value.to_string()));
    vars
}

/// The variables of a query with two variables.
pub fn bind2(first: &str, a: &str, second: &str, b: &str) -> (r: Vec<(String, String)>)
    ensures
        r.deep_view() == seq![(first@, a@), (second@, b@)],
{
    let mut vars: Vec<(String, String)> = Vec::new();
    vars.push((first.to_string(), a.to_string()));
    vars.push((second.to_string(), b.to_string()));
    vars
}

/// What a save comes to in a script: the request, while it is unanswered;
/// then the first uid that the store assigned, if it assigned any. Any
/// other reply is a fault.
pub open spec fn saved(record: RecordView, s: Script) -> (StepView<Result<Option<Seq<char>>, StoreErrorView>>, Script) {
    if !s.answered() {
        (StepView::Ask(RequestView::Save(record)), s)
    } else {
        (
            StepView::Done(
                match s.reply() {
                    ReplyView::Saved(uids) => Ok(
                        if uids.len() == 0 {
                            None
                        } else {
                            Some(uids[0].1)
                        },
                    ),
                    ReplyView::Failed(failure) => Err(failure.fault()),
                    _ => Err(StoreErrorView::Decode),
                },
            ),
            s.next(),
        )
    }
}

/// Saves `record`: see [`saved`].
pub fn save_record(record: Record, io: &mut Replay) -> (r: Step<Result<Option<String>, StoreError>>)
    ensures
        (r@, final(io)@) == saved(record@, old(io)@),
{
    let out = match io.peek() {
        None => {
            return Step::Ask(Request::Save(record));
        },
        Some(reply) => match reply {
            Reply::Saved(uids) => {
                if uids.len() == 0 {
                    Ok(None)
                } else {
                    Ok(Some(uids[0].1.clone()))
                }
            },
            Reply::Failed(failure) => Err(failure.error()),
            _ => Err(StoreError::Decode),
        },
    };
    io.advance();
    Step::Done(out)
}

} // verus!
