//! A generic document-repository layer over a document store.
//!
//! The library maps an application payload type onto a database collection:
//! it derives the collection name from the payload's type identifier,
//! wraps each payload in an envelope carrying identity and timestamps, and
//! offers typed create/save/load/list/count/delete/aggregate operations
//! together with a conjunctive filter builder. Every operation is specified
//! by the single store request it issues and by how it folds the store's
//! answer back; the one network round trip itself is carried out by the
//! surrounding application against the shared connection handle.

pub mod doc;
pub mod error;
pub mod filter;
pub mod name;
pub mod oid;
pub mod store;
mod strutil;
