//! The bits of the `trustAttributes` attribute.

use crate::objects::trust::{Trust, TrustView};
use vstd::prelude::*;
use vstd::string::*;

verus! {

pub const NON_TRANSITIVE: u32 = 0x1;

pub const QUARANTINED_DOMAIN: u32 = 0x4;

pub const FOREST_TRANSITIVE: u32 = 0x8;

pub const CROSS_ORGANIZATION: u32 = 0x10;

pub const WITHIN_FOREST: u32 = 0x20;

pub const TREAT_AS_EXTERNAL: u32 = 0x40;

/// The kind of trust that the attribute bits describe.
pub open spec fn spec_trust_type(flags: u32) -> Seq<char> {
    if flags & WITHIN_FOREST != 0 {
        "ParentChild"@
    } else if flags & FOREST_TRANSITIVE != 0 {
        "Forest"@
    } else if flags & TREAT_AS_EXTERNAL != 0 || flags & CROSS_ORGANIZATION != 0 {
        "External"@
    } else {
        "Unknown"@
    }
}

/// A trust with what its attribute bits say: its kind, whether it is
/// transitive, and whether identifiers from the other side are filtered.
pub open spec fn spec_trust_flag(flags: u32, t: TrustView) -> TrustView {
    TrustView {
        trust_type: spec_trust_type(flags),
        is_transitive: flags & NON_TRANSITIVE == 0,
        sid_filtering_enabled: flags & QUARANTINED_DOMAIN != 0,
        ..t
    }
}

/// Reads the attribute bits of a trust into the trust.
pub fn get_trust_flag(trustflag: u32, trust: &mut Trust)
    ensures
        final(trust)@ == spec_trust_flag(trustflag, old(trust)@),
{
    let kind = if trustflag & WITHIN_FOREST != 0 {
        "ParentChild"
    } else if trustflag & FOREST_TRANSITIVE != 0 {
        "Forest"
    } else if trustflag & TREAT_AS_EXTERNAL != 0 || trustflag & CROSS_ORGANIZATION != 0 {
        "External"
    } else {
        "Unknown"
    };
    trust.trust_type = String::from_str(kind);
    trust.is_transitive = trustflag & NON_TRANSITIVE == 0;
    trust.sid_filtering_enabled = trustflag & QUARANTINED_DOMAIN != 0;
}

} // verus!
