//! The bits of the `userAccountControl` attribute that the decoders read.

use vstd::prelude::*;

verus! {

pub const ACCOUNT_DISABLE: u32 = 0x0000_0002;

pub const PASSWORD_NOT_REQUIRED: u32 = 0x0000_0020;

pub const SERVER_TRUST_ACCOUNT: u32 = 0x0000_2000;

pub const DONT_EXPIRE_PASSWORD: u32 = 0x0001_0000;

pub const TRUSTED_FOR_DELEGATION: u32 = 0x0008_0000;

pub const NOT_DELEGATED: u32 = 0x0010_0000;

pub const DONT_REQUIRE_PREAUTH: u32 = 0x0040_0000;

pub const TRUSTED_TO_AUTH_FOR_DELEGATION: u32 = 0x0100_0000;

/// Whether `flag` is set in an account control value.
pub open spec fn has_flag(uac: u32, flag: u32) -> bool {
    uac & flag != 0
}

/// Whether `flag` is set in an account control value.
pub fn flag_set(uac: u32, flag: u32) -> (r: bool)
    ensures
        r == has_flag(uac, flag),
{
    uac & flag != 0
}

} // verus!
