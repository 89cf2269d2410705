//! Binary attribute decoders, attribute flags and the object classifier.

pub mod acl;
pub mod forestlevel;
pub mod gplink;
pub mod ldaptype;
pub mod pkiflags;
pub mod secdesc;
pub mod sid;
pub mod trusts;
pub mod uacflags;
