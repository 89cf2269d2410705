//! The typed nodes of the graph and the parts they share.

pub mod aiaca;
pub mod certtemplate;
pub mod common;
pub mod computer;
pub mod container;
pub mod decode;
pub mod domain;
pub mod enterpriseca;
pub mod fsp;
pub mod gpo;
pub mod group;
pub mod inssuancepolicie;
pub mod ntauthstore;
pub mod ou;
pub mod rootca;
pub mod trust;
pub mod user;

use vstd::prelude::*;

verus! {

/// The identifier that marks a node as not yet resolvable: a node that holds
/// it stays out of the index.
pub const UNRESOLVED: &'static str = "SID";

} // verus!
