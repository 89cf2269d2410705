//! The flags of certificate templates, by name.

use crate::text::{push_str, string_of};
use vstd::prelude::*;

verus! {

/// A list of names with `name` added when `flag` is set in `bits`. Names are
/// separated by a comma and a space.
pub open spec fn with_flag(names: Seq<char>, bits: u64, flag: u64, name: Seq<char>) -> Seq<char> {
    if bits & flag != 0 {
        if names.len() == 0 {
            name
        } else {
            names + ", "@ + name
        }
    } else {
        names
    }
}

fn add_flag(names: &mut Vec<char>, bits: u64, flag: u64, name: &str)
    ensures
        final(names)@ == with_flag(old(names)@, bits, flag, name@),
{
    if bits & flag != 0 {
        if names.len() > 0 {
            push_str(names, ", ");
        }
        push_str(names, name);
        assert(names@ =~= with_flag(old(names)@, bits, flag, name@));
    }
}

/// The names of the flags set in `msPKI-Certificate-Name-Flag`, in bit order.
pub open spec fn spec_pki_cert_name_flags(bits: u64) -> Seq<char> {
    let n0 = with_flag(Seq::empty(), bits, 0x1, "ENROLLEE_SUPPLIES_SUBJECT"@);
    let n1 = with_flag(n0, bits, 0x2, "ADD_EMAIL"@);
    let n2 = with_flag(n1, bits, 0x4, "ADD_OBJ_GUID"@);
    let n3 = with_flag(n2, bits, 0x8, "OLD_CERT_SUPPLIES_SUBJECT_AND_ALT_NAME"@);
    let n4 = with_flag(n3, bits, 0x100, "ADD_DIRECTORY_PATH"@);
    let n5 = with_flag(n4, bits, 0x1_0000, "ENROLLEE_SUPPLIES_SUBJECT_ALT_NAME"@);
    let n6 = with_flag(n5, bits, 0x40_0000, "SUBJECT_ALT_REQUIRE_DOMAIN_DNS"@);
    let n7 = with_flag(n6, bits, 0x80_0000, "SUBJECT_ALT_REQUIRE_SPN"@);
    let n8 = with_flag(n7, bits, 0x100_0000, "SUBJECT_ALT_REQUIRE_DIRECTORY_GUID"@);
    let n9 = with_flag(n8, bits, 0x200_0000, "SUBJECT_ALT_REQUIRE_UPN"@);
    let n10 = with_flag(n9, bits, 0x400_0000, "SUBJECT_ALT_REQUIRE_EMAIL"@);
    let n11 = with_flag(n10, bits, 0x800_0000, "SUBJECT_ALT_REQUIRE_DNS"@);
    let n12 = with_flag(n11, bits, 0x1000_0000, "SUBJECT_REQUIRE_DNS_AS_CN"@);
    let n13 = with_flag(n12, bits, 0x2000_0000, "SUBJECT_REQUIRE_EMAIL"@);
    let n14 = with_flag(n13, bits, 0x4000_0000, "SUBJECT_REQUIRE_COMMON_NAME"@);
    with_flag(n14, bits, 0x8000_0000, "SUBJECT_REQUIRE_DIRECTORY_PATH"@)
}

/// Names the flags set in an `msPKI-Certificate-Name-Flag` value.
pub fn get_pki_cert_name_flags(bits: u64) -> (names: String)
    ensures
        names@ == spec_pki_cert_name_flags(bits),
{
    let mut n: Vec<char> = Vec::new();
    assert(n@ =~= Seq::<char>::empty());
    add_flag(&mut n, bits, 0x1, "ENROLLEE_SUPPLIES_SUBJECT");
    add_flag(&mut n, bits, 0x2, "ADD_EMAIL");
    add_flag(&mut n, bits, 0x4, "ADD_OBJ_GUID");
    add_flag(&mut n, bits, 0x8, "OLD_CERT_SUPPLIES_SUBJECT_AND_ALT_NAME");
    add_flag(&mut n, bits, 0x100, "ADD_DIRECTORY_PATH");
    add_flag(&mut n, bits, 0x1_0000, "ENROLLEE_SUPPLIES_SUBJECT_ALT_NAME");
    add_flag(&mut n, bits, 0x40_0000, "SUBJECT_ALT_REQUIRE_DOMAIN_DNS");
    add_flag(&mut n, bits, 0x80_0000, "SUBJECT_ALT_REQUIRE_SPN");
    add_flag(&mut n, bits, 0x100_0000, "SUBJECT_ALT_REQUIRE_DIRECTORY_GUID");
    add_flag(&mut n, bits, 0x200_0000, "SUBJECT_ALT_REQUIRE_UPN");
    add_flag(&mut n, bits, 0x400_0000, "SUBJECT_ALT_REQUIRE_EMAIL");
    add_flag(&mut n, bits, 0x800_0000, "SUBJECT_ALT_REQUIRE_DNS");
    add_flag(&mut n, bits, 0x1000_0000, "SUBJECT_REQUIRE_DNS_AS_CN");
    add_flag(&mut n, bits, 0x2000_0000, "SUBJECT_REQUIRE_EMAIL");
    add_flag(&mut n, bits, 0x4000_0000, "SUBJECT_REQUIRE_COMMON_NAME");
    add_flag(&mut n, bits, 0x8000_0000, "SUBJECT_REQUIRE_DIRECTORY_PATH");
    string_of(&n)
}

/// The names of the flags set in `msPKI-Enrollment-Flag`, in bit order.
pub open spec fn spec_pki_enrollment_flags(bits: u64) -> Seq<char> {
    let n0 = with_flag(Seq::empty(), bits, 0x1, "INCLUDE_SYMMETRIC_ALGORITHMS"@);
    let n1 = with_flag(n0, bits, 0x2, "PEND_ALL_REQUESTS"@);
    let n2 = with_flag(n1, bits, 0x4, "PUBLISH_TO_KRA_CONTAINER"@);
    let n3 = with_flag(n2, bits, 0x8, "PUBLISH_TO_DS"@);
    let n4 = with_flag(n3, bits, 0x10, "AUTO_ENROLLMENT_CHECK_USER_DS_CERTIFICATE"@);
    let n5 = with_flag(n4, bits, 0x20, "AUTO_ENROLLMENT"@);
    let n6 = with_flag(n5, bits, 0x40, "PREVIOUS_APPROVAL_VALIDATE_REENROLLMENT"@);
    let n7 = with_flag(n6, bits, 0x80, "DOMAIN_AUTHENTICATION_NOT_REQUIRED"@);
    let n8 = with_flag(n7, bits, 0x100, "USER_INTERACTION_REQUIRED"@);
    let n9 = with_flag(n8, bits, 0x200, "ADD_TEMPLATE_NAME"@);
    let n10 = with_flag(n9, bits, 0x400, "REMOVE_INVALID_CERTIFICATE_FROM_PERSONAL_STORE"@);
    let n11 = with_flag(n10, bits, 0x800, "ALLOW_ENROLL_ON_BEHALF_OF"@);
    let n12 = with_flag(n11, bits, 0x1000, "ADD_OCSP_NOCHECK"@);
    let n13 = with_flag(n12, bits, 0x2000, "ENABLE_KEY_REUSE_ON_NT_TOKEN_KEYSET_STORAGE_FULL"@);
    let n14 = with_flag(n13, bits, 0x4000, "NOREVOCATIONINFOINISSUEDCERTS"@);
    let n15 = with_flag(n14, bits, 0x8000, "INCLUDE_BASIC_CONSTRAINTS_FOR_EE_CERTS"@);
    let n16 = with_flag(
        n15,
        bits,
        0x1_0000,
        "ALLOW_PREVIOUS_APPROVAL_KEYBASEDRENEWAL_VALIDATE_REENROLLMENT"@,
    );
    let n17 = with_flag(n16, bits, 0x2_0000, "ISSUANCE_POLICIES_FROM_REQUEST"@);
    let n18 = with_flag(n17, bits, 0x4_0000, "SKIP_AUTO_RENEWAL"@);
    with_flag(n18, bits, 0x8_0000, "NO_SECURITY_EXTENSION"@)
}

/// Names the flags set in an `msPKI-Enrollment-Flag` value.
pub fn get_pki_enrollment_flags(bits: u64) -> (names: String)
    ensures
        names@ == spec_pki_enrollment_flags(bits),
{
    let mut n: Vec<char> = Vec::new();
    assert(n@ =~= Seq::<char>::empty());
    add_flag(&mut n, bits, 0x1, "INCLUDE_SYMMETRIC_ALGORITHMS");
    add_flag(&mut n, bits, 0x2, "PEND_ALL_REQUESTS");
    add_flag(&mut n, bits, 0x4, "PUBLISH_TO_KRA_CONTAINER");
    add_flag(&mut n, bits, 0x8, "PUBLISH_TO_DS");
    add_flag(&mut n, bits, 0x10, "AUTO_ENROLLMENT_CHECK_USER_DS_CERTIFICATE");
    add_flag(&mut n, bits, 0x20, "AUTO_ENROLLMENT");
    add_flag(&mut n, bits, 0x40, "PREVIOUS_APPROVAL_VALIDATE_REENROLLMENT");
    add_flag(&mut n, bits, 0x80, "DOMAIN_AUTHENTICATION_NOT_REQUIRED");
    add_flag(&mut n, bits, 0x100, "USER_INTERACTION_REQUIRED");
    add_flag(&mut n, bits, 0x200, "ADD_TEMPLATE_NAME");
    add_flag(&mut n, bits, 0x400, "REMOVE_INVALID_CERTIFICATE_FROM_PERSONAL_STORE");
    add_flag(&mut n, bits, 0x800, "ALLOW_ENROLL_ON_BEHALF_OF");
    add_flag(&mut n, bits, 0x1000, "ADD_OCSP_NOCHECK");
    add_flag(&mut n, bits, 0x2000, "ENABLE_KEY_REUSE_ON_NT_TOKEN_KEYSET_STORAGE_FULL");
    add_flag(&mut n, bits, 0x4000, "NOREVOCATIONINFOINISSUEDCERTS");
    add_flag(&mut n, bits, 0x8000, "INCLUDE_BASIC_CONSTRAINTS_FOR_EE_CERTS");
    add_flag(
        &mut n,
        bits,
        0x1_0000,
        "ALLOW_PREVIOUS_APPROVAL_KEYBASEDRENEWAL_VALIDATE_REENROLLMENT",
    );
    add_flag(&mut n, bits, 0x2_0000, "ISSUANCE_POLICIES_FROM_REQUEST");
    add_flag(&mut n, bits, 0x4_0000, "SKIP_AUTO_RENEWAL");
    add_flag(&mut n, bits, 0x8_0000, "NO_SECURITY_EXTENSION");
    string_of(&n)
}

} // verus!
