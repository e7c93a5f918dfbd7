//! Error types of the library.
use vstd::prelude::*;

verus! {

/// Errors of the domain rules.
#[derive(Debug, Clone, PartialEq, Eq)]
pub enum DomainError {
    Validation(String),
    NotFound(String),
    Concurrency(String),
}

/// Errors of the infrastructure around the domain.
#[derive(Debug, Clone, PartialEq, Eq)]
pub enum InfrastructureError {
    Database(String),
    EventStore(String),
    Io(String),
    Messaging(String),
    WebSocket(String),
    Kafka(String),
    Serialization(String),
}

pub type DomainResult<T> = Result<T, DomainError>;

pub type InfraResult<T> = Result<T, InfrastructureError>;

} // verus!
