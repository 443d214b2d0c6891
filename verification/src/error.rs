//! The error of every store operation, and the classes that callers tell apart.

use vstd::prelude::*;
use vstd::string::*;
use crate::authenticator::{AuthenticatorError, AuthenticatorErrorView};
use crate::entity::{EntityError, EntityErrorView};
use crate::identifier::{IdentifierError, IdentifierErrorView};
use crate::namespace::NamespaceError;
use crate::scope::ScopeError;
use crate::system::SystemError;

verus! {

/// What a store operation can fail with: an error of one of the six stores,
/// or a fault that is not tied to a kind of record.
#[derive(Debug)]
pub enum StoreError {
    Entity(EntityError),
    Identifier(IdentifierError),
    Authenticator(AuthenticatorError),
    System(SystemError),
    Namespace(NamespaceError),
    Scope(ScopeError),
    /// A projection asks for a field that the schema does not give the record.
    Projection,
    /// The text of a query could not be rendered.
    Template,
    /// The graph store could not be reached or refused the request.
    Transport,
    /// The graph store answered with something other than what was asked for.
    Decode,
    /// A stored credential is missing or is not a well-formed hash.
    CorruptData,
}

/// The error as plain values.
pub enum StoreErrorView {
    Entity(EntityErrorView),
    Identifier(IdentifierErrorView),
    Authenticator(AuthenticatorErrorView),
    System(SystemError),
    Namespace(NamespaceError),
    Scope(ScopeError),
    Projection,
    Template,
    Transport,
    Decode,
    CorruptData,
}

/// The classes of error that a caller can tell apart.
#[derive(Clone, Copy, Debug, PartialEq, Eq, Structural)]
pub enum ErrorKind {
    /// A required field is missing, or a projection is not admitted.
    ValidationFailed,
    /// A referenced record does not exist.
    NotFound,
    /// The uniqueness key is taken.
    AlreadyExists,
    /// The authenticator's type does not go with the identifier's type.
    TypeMismatch,
    /// A record was to be taken from an empty result.
    EmptyResult,
    /// The request could not be rendered, sent or carried out.
    TransportError,
    /// Stored data violates what the core expects of it.
    CorruptData,
}

impl View for StoreError {
    type V = StoreErrorView;

    open spec fn view(&self) -> StoreErrorView {
        match self {
            StoreError::Entity(e) => StoreErrorView::Entity(e@),
            StoreError::Identifier(e) => StoreErrorView::Identifier(e@),
            StoreError::Authenticator(e) => StoreErrorView::Authenticator(e@),
            StoreError::System(e) => StoreErrorView::System(*e),
            StoreError::Namespace(e) => StoreErrorView::Namespace(*e),
            StoreError::Scope(e) => StoreErrorView::Scope(*e),
            StoreError::Projection => StoreErrorView::Projection,
            StoreError::Template => StoreErrorView::Template,
            StoreError::Transport => StoreErrorView::Transport,
            StoreError::Decode => StoreErrorView::Decode,
            StoreError::CorruptData => StoreErrorView::CorruptData,
        }
    }
}

impl DeepView for StoreError {
    type V = StoreErrorView;

    open spec fn deep_view(&self) -> StoreErrorView {
        self@
    }
}

impl StoreErrorView {
    /// The class of the error.
    pub open spec fn kind(self) -> ErrorKind {
        match self {
            StoreErrorView::Entity(e) => match e {
                EntityErrorView::SidExistsError => ErrorKind::AlreadyExists,
                EntityErrorView::EmptyField(_) => ErrorKind::ValidationFailed,
                EntityErrorView::DoesNotExist => ErrorKind::NotFound,
                EntityErrorView::Empty => ErrorKind::EmptyResult,
            },
            StoreErrorView::Identifier(e) => match e {
                IdentifierErrorView::IdentifierExists => ErrorKind::AlreadyExists,
                IdentifierErrorView::EmptyField(_) => ErrorKind::ValidationFailed,
                IdentifierErrorView::DoesNotExist => ErrorKind::NotFound,
                IdentifierErrorView::Empty => ErrorKind::EmptyResult,
            },
            StoreErrorView::Authenticator(e) => match e {
                AuthenticatorErrorView::AuthenticatorExists => ErrorKind::AlreadyExists,
                AuthenticatorErrorView::EmptyField(_) => ErrorKind::ValidationFailed,
                AuthenticatorErrorView::AuthTypeIdentTypeMisMatch => ErrorKind::TypeMismatch,
                AuthenticatorErrorView::Empty => ErrorKind::EmptyResult,
                AuthenticatorErrorView::DoesNotExist => ErrorKind::NotFound,
            },
            StoreErrorView::System(e) => match e {
                SystemError::ValidationFailed => ErrorKind::ValidationFailed,
                SystemError::Empty => ErrorKind::EmptyResult,
                SystemError::DoesNotExist => ErrorKind::NotFound,
            },
            StoreErrorView::Namespace(e) => match e {
                NamespaceError::ValidationFailed => ErrorKind::ValidationFailed,
                NamespaceError::Empty => ErrorKind::EmptyResult,
                NamespaceError::DoesNotExist => ErrorKind::NotFound,
                NamespaceError::AlreadyExists => ErrorKind::AlreadyExists,
            },
            StoreErrorView::Scope(e) => match e {
                ScopeError::ValidationFailed => ErrorKind::ValidationFailed,
                ScopeError::Empty => ErrorKind::EmptyResult,
                ScopeError::DoesNotExist => ErrorKind::NotFound,
                ScopeError::AlreadyExists => ErrorKind::AlreadyExists,
            },
            StoreErrorView::Projection => ErrorKind::ValidationFailed,
            StoreErrorView::Template => ErrorKind::TransportError,
            StoreErrorView::Transport => ErrorKind::TransportError,
            StoreErrorView::Decode => ErrorKind::CorruptData,
            StoreErrorView::CorruptData => ErrorKind::CorruptData,
        }
    }

    /// The error in words.
    pub open spec fn text(self) -> Seq<char> {
        match self {
            StoreErrorView::Entity(e) => e.text(),
            StoreErrorView::Identifier(e) => e.text(),
            StoreErrorView::Authenticator(e) => e.text(),
            StoreErrorView::System(e) => e.text(),
            StoreErrorView::Namespace(e) => e.text(),
            StoreErrorView::Scope(e) => e.text(),
            StoreErrorView::Projection => "The projection asks for a field that the record does not have"@,
            StoreErrorView::Template => "The query could not be rendered"@,
            StoreErrorView::Transport => "The graph store could not carry out the request"@,
            StoreErrorView::Decode => "The graph store answered with something that was not asked for"@,
            StoreErrorView::CorruptData => "The stored credential is missing or is not a well-formed hash"@,
        }
    }
}

impl StoreError {
    /// The class of the error.
    pub fn kind(&self) -> (r: ErrorKind)
        ensures
            r == self@.kind(),
    {
        match self {
            StoreError::Entity(e) => match e {
                EntityError::SidExistsError => ErrorKind::AlreadyExists,
                EntityError::EmptyField(_) => ErrorKind::ValidationFailed,
                EntityError::DoesNotExist => ErrorKind::NotFound,
                EntityError::Empty => ErrorKind::EmptyResult,
            },
            StoreError::Identifier(e) => match e {
                IdentifierError::IdentifierExists => ErrorKind::AlreadyExists,
                IdentifierError::EmptyField(_) => ErrorKind::ValidationFailed,
                IdentifierError::DoesNotExist => ErrorKind::NotFound,
                IdentifierError::Empty => ErrorKind::EmptyResult,
            },
            StoreError::Authenticator(e) => match e {
                AuthenticatorError::AuthenticatorExists => ErrorKind::AlreadyExists,
                AuthenticatorError::EmptyField(_) => ErrorKind::ValidationFailed,
                AuthenticatorError::AuthTypeIdentTypeMisMatch => ErrorKind::TypeMismatch,
                AuthenticatorError::Empty => ErrorKind::EmptyResult,
                AuthenticatorError::DoesNotExist => ErrorKind::NotFound,
            },
            StoreError::System(e) => match e {
                SystemError::ValidationFailed => ErrorKind::ValidationFailed,
                SystemError::Empty => ErrorKind::EmptyResult,
                SystemError::DoesNotExist => ErrorKind::NotFound,
            },
            StoreError::Namespace(e) => match e {
                NamespaceError::ValidationFailed => ErrorKind::ValidationFailed,
                NamespaceError::Empty => ErrorKind::EmptyResult,
                NamespaceError::DoesNotExist => ErrorKind::NotFound,
                NamespaceError::AlreadyExists => ErrorKind::AlreadyExists,
            },
            StoreError::Scope(e) => match e {
                ScopeError::ValidationFailed => ErrorKind::ValidationFailed,
                ScopeError::Empty => ErrorKind::EmptyResult,
                ScopeError::DoesNotExist => ErrorKind::NotFound,
                ScopeError::AlreadyExists => ErrorKind::AlreadyExists,
            },
            StoreError::Projection => ErrorKind::ValidationFailed,
            StoreError::Template => ErrorKind::TransportError,
            StoreError::Transport => ErrorKind::TransportError,
            StoreError::Decode => ErrorKind::CorruptData,
            StoreError::CorruptData => ErrorKind::CorruptData,
        }
    }

    /// The error in words.
    pub fn message(&self) -> (r: String)
        ensures
            r@ == self@.text(),
    {
        match self {
            StoreError::Entity(e) => e.message(),
            StoreError::Identifier(e) => e.message(),
            StoreError::Authenticator(e) => e.message(),
            StoreError::System(e) => e.message(),
            StoreError::Namespace(e) => e.message(),
            StoreError::Scope(e) => e.message(),
            StoreError::Projection => String::from_str(
                "The projection asks for a field that the record does not have",
            ),
            StoreError::Template => String::from_str("The query could not be rendered"),
            StoreError::Transport => String::from_str(
                "The graph store could not carry out the request",
            ),
            StoreError::Decode => String::from_str(
                "The graph store answered with something that was not asked for",
            ),
            StoreError::CorruptData => String::from_str(
                "The stored credential is missing or is not a well-formed hash",
            ),
        }
    }
}

} // verus!
