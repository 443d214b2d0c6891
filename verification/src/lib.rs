//! Identity graph core: accounts, the claims that name them, the credentials
//! that authenticate them, tenants and permission groupings, kept as a
//! bidirectionally linked graph in an external graph store.
//!
//! The crate performs no I/O. Every store operation is a function of its
//! arguments and of the replies the graph store has given so far
//! ([`db::Replay`]); it either finishes or names the next request to perform
//! ([`db::Step`]). The caller runs the operation, performs the request that
//! the run ended on, records the reply, rewinds and runs the operation
//! again; it does so until the operation is done.
//!
//! Each operation of a store has a model beside it, a specification
//! function of the same name: what the operation comes to for each log of
//! replies. The operation's contract is that it computes its model. What
//! holds of the stores as a whole is proved of the models.
//!
//! No transaction spans the exchanges of an operation. Two creations of one
//! key that run at the same time can both find the key free and both save;
//! two operations that append to one adjacency list at the same time can
//! lose one of the edges; and an operation that fails between two of its
//! saves leaves the edges of the saves before it in place. An operation
//! holds nothing between its runs, so it can be given up at any request.
//!
//! Five things are decided here and not left to the graph store:
//! - A projection is a list of typed fields ([`projection::Field`]) and is
//!   checked against the schema before a query is made of it.
//! - A lookup by a key other than a uid or guid keeps only a row that
//!   carries the key: the sid of an entity, the type and the value of an
//!   identifier, the identifier of an authenticator, the name and the home
//!   of a namespace or scope, and the type, the identifier and the system
//!   of a login. A row that does not hold a part of the key at all is
//!   taken as it comes, but for a login, where every part must be there.
//!   What the store makes of the filter in the query narrows the answer;
//!   it decides nothing.
//! - A creation reports what its lookups find before what the record
//!   lacks beyond the keys of those lookups, and saves nothing before
//!   every test has passed.
//! - A check for existence that fails counts as "does not exist".
//! - An edge is appended to an adjacency list whether or not it is there
//!   already; nothing is removed.

pub mod authenticator;
pub mod authenticator_store;
pub mod db;
pub mod entity;
pub mod entity_store;
pub mod error;
pub mod hydra;
pub mod identifier;
pub mod identifier_store;
pub mod namespace;
pub mod namespace_store;
pub mod projection;
pub mod record;
pub mod scope;
pub mod scope_store;
pub mod system;
pub mod system_store;
pub mod template;
