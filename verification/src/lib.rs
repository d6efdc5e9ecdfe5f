//! The core of a blog-creation backend, laid out as ports and adapters.
//!
//! The domain owns the use case: a request to create a blog goes to a
//! repository, and what the repository answers decides which hooks run. The
//! inbound side turns a request body into a domain request and the domain's
//! answer into a response. The outbound side holds the adapters: the steps of
//! the storage transaction, and the two stubs for publishing and notifying.
//!
//! Nothing here performs I/O. The storage transaction is a state machine whose
//! driver lives with the database connection, outside this library.

pub mod domain;
pub mod inbound;
pub mod outbound;
