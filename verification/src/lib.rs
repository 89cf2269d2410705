//! Decoding of Active Directory records into a graph of typed nodes, and the
//! passes that complete the graph: every reference resolved to an identifier
//! and annotated with the type of its target.
//!
//! The decoders fill a cross-reference index as a side effect; the resolver
//! reads the index once every record is decoded. Contracts are stated over
//! the views of the nodes: texts as `Seq<char>`, lists as `Seq`.

pub mod api;
pub mod binary;
pub mod enums;
pub mod ingest;
pub mod json;
pub mod ldap;
pub mod mappings;
pub mod objects;
pub mod storage;
pub mod text;
pub mod utils;

pub use api::{prepare_results_from_source, ADResults, DomainMappings};
pub use ldap::LdapSearchEntry;
pub use storage::buffer::{BincodeObjectBuffer, Storage};
pub use storage::iter::BincodeIterator;
pub use storage::EntrySource;
