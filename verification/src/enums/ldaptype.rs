//! The classification of directory records.

use crate::ldap::{EntryView, LdapSearchEntry, TextAttrs};
use crate::text::{contains, contains_seq, str_eq, texts};
use vstd::prelude::*;

verus! {

/// The kinds of record that the collector knows.
#[derive(Debug, Clone, Copy, PartialEq, Eq, Structural)]
pub enum Type {
    User,
    Computer,
    Group,
    Ou,
    Domain,
    Gpo,
    ForeignSecurityPrincipal,
    Container,
    Trust,
    RootCA,
    NtAutStore,
    EnterpriseCA,
    AIACA,
    CertTemplate,
    IssuancePolicie,
    Unknown,
}

/// The places of the configuration partition that tell certificate service
/// objects apart.
pub struct DirectoryPaths;

impl DirectoryPaths {
    pub const ENTERPRISE_CA_LOCATION: &'static str =
        "CN=Enrollment Services,CN=Public Key Services,CN=Services,CN=Configuration";

    pub const ROOT_CA_LOCATION: &'static str =
        "CN=Certification Authorities,CN=Public Key Services,CN=Services,CN=Configuration";

    pub const AIA_CA_LOCATION: &'static str =
        "CN=AIA,CN=Public Key Services,CN=Services,CN=Configuration";

    pub const CERT_TEMPLATE_LOCATION: &'static str =
        "CN=Certificate Templates,CN=Public Key Services,CN=Services,CN=Configuration";

    pub const NT_AUTH_STORE_LOCATION: &'static str =
        "CN=NTAuthCertificates,CN=Public Key Services,CN=Services,CN=Configuration";

    pub const PKI_LOCATION: &'static str = "CN=Public Key Services,CN=Services,CN=Configuration";

    pub const CONFIG_LOCATION: &'static str = "CN=Configuration";

    pub const ISSUANCE_LOCATION: &'static str =
        "CN=OID,CN=Public Key Services,CN=Services,CN=Configuration";
}

/// The position of the first attribute at or after `from` named `key`, or
/// `attrs.len()` when there is none.
pub open spec fn attr_index(attrs: TextAttrs, key: Seq<char>, from: int) -> int
    decreases attrs.len() - from,
{
    if from < 0 || from >= attrs.len() {
        attrs.len() as int
    } else if attrs[from].0 == key {
        from
    } else {
        attr_index(attrs, key, from + 1)
    }
}

/// The values of the first attribute named `key`; none when the record lacks
/// the attribute.
pub open spec fn attr_values(attrs: TextAttrs, key: Seq<char>) -> Seq<Seq<char>> {
    if attr_index(attrs, key, 0) < attrs.len() {
        attrs[attr_index(attrs, key, 0)].1
    } else {
        Seq::empty()
    }
}

/// Whether the record has an attribute named `key`.
pub open spec fn has_attr(attrs: TextAttrs, key: Seq<char>) -> bool {
    attr_index(attrs, key, 0) < attrs.len()
}

/// The type of a record. The rules are tried in this order and the first that
/// holds decides; certificate service objects are told apart by the place of
/// the record in the directory tree.
pub open spec fn spec_get_type(entry: EntryView) -> Result<Type, Type> {
    let classes = attr_values(entry.attrs, "objectClass"@);
    let flags = attr_values(entry.attrs, "flags"@);
    let dn = entry.dn;
    if !has_attr(entry.attrs, "objectClass"@) {
        Err(Type::Unknown)
    } else if classes.contains("person"@) && classes.contains("user"@) && !classes.contains(
        "computer"@,
    ) && !classes.contains("group"@) {
        Ok(Type::User)
    } else if classes.contains("msDS-GroupManagedServiceAccount"@) {
        Ok(Type::User)
    } else if classes.contains("group"@) {
        Ok(Type::Group)
    } else if classes.contains("computer"@) {
        Ok(Type::Computer)
    } else if classes.contains("organizationalUnit"@) {
        Ok(Type::Ou)
    } else if classes.contains("domain"@) {
        Ok(Type::Domain)
    } else if classes.contains("groupPolicyContainer"@) {
        Ok(Type::Gpo)
    } else if classes.contains("top"@) && classes.contains("foreignSecurityPrincipal"@) {
        Ok(Type::ForeignSecurityPrincipal)
    } else if classes.contains("top"@) && classes.contains("container"@) {
        Ok(Type::Container)
    } else if classes.contains("trustedDomain"@) {
        Ok(Type::Trust)
    } else if classes.contains("certificationAuthority"@) && contains_seq(
        dn,
        DirectoryPaths::ROOT_CA_LOCATION@,
    ) {
        Ok(Type::RootCA)
    } else if classes.contains("pKIEnrollmentService"@) && contains_seq(
        dn,
        DirectoryPaths::ENTERPRISE_CA_LOCATION@,
    ) {
        Ok(Type::EnterpriseCA)
    } else if classes.contains("pKICertificateTemplate"@) && contains_seq(
        dn,
        DirectoryPaths::CERT_TEMPLATE_LOCATION@,
    ) {
        Ok(Type::CertTemplate)
    } else if classes.contains("certificationAuthority"@) && contains_seq(
        dn,
        DirectoryPaths::AIA_CA_LOCATION@,
    ) {
        Ok(Type::AIACA)
    } else if classes.contains("certificationAuthority"@) && contains_seq(
        dn,
        DirectoryPaths::NT_AUTH_STORE_LOCATION@,
    ) {
        Ok(Type::NtAutStore)
    } else if classes.contains("msPKI-Enterprise-Oid"@) && contains_seq(
        dn,
        DirectoryPaths::ISSUANCE_LOCATION@,
    ) && flags.contains("2"@) {
        Ok(Type::IssuancePolicie)
    } else {
        Err(Type::Unknown)
    }
}

/// Whether one of `values` is the text `wanted`.
pub fn has_value(values: &Vec<String>, wanted: &str) -> (r: bool)
    ensures
        r == texts(values@).contains(wanted@),
{
    let mut i: usize = 0;
    while i < values.len()
        invariant
            i <= values.len(),
            forall|j: int| 0 <= j < i ==> texts(values@)[j] != wanted@,
        decreases values.len() - i,
    {
        if str_eq(values[i].as_str(), wanted) {
            assert(texts(values@)[i as int] == wanted@);
            return true;
        }
        i += 1;
    }
    false
}

/// The position of the first attribute named `key`.
pub fn find_attr(attrs: &Vec<(String, Vec<String>)>, key: &str) -> (r: Option<usize>)
    ensures
        match r {
            Some(i) => i < attrs@.len() && i == attr_index(
                crate::ldap::text_attrs_view(attrs@),
                key@,
                0,
            ),
            None => !has_attr(crate::ldap::text_attrs_view(attrs@), key@),
        },
{
    let ghost view = crate::ldap::text_attrs_view(attrs@);
    let mut i: usize = 0;
    while i < attrs.len()
        invariant
            i <= attrs.len(),
            view == crate::ldap::text_attrs_view(attrs@),
            attr_index(view, key@, 0) == attr_index(view, key@, i as int),
        decreases attrs.len() - i,
    {
        if str_eq(attrs[i].0.as_str(), key) {
            return Some(i);
        }
        i += 1;
    }
    None
}

/// Classifies a record. `Err(Type::Unknown)` stands for a record that no rule
/// claims.
pub fn get_type(result: &LdapSearchEntry) -> (r: Result<Type, Type>)
    ensures
        r == spec_get_type(result@),
{
    let classes = match find_attr(&result.attrs, "objectClass") {
        Some(i) => &result.attrs[i].1,
        None => {
            return Err(Type::Unknown);
        },
    };
    let no_flags: Vec<String> = Vec::new();
    let flags = match find_attr(&result.attrs, "flags") {
        Some(i) => &result.attrs[i].1,
        None => &no_flags,
    };
    assert(texts(classes@) == attr_values(result@.attrs, "objectClass"@));
    assert(texts(flags@) =~= attr_values(result@.attrs, "flags"@));
    let dn = result.dn.as_str();
    if has_value(classes, "person") && has_value(classes, "user") && !has_value(
        classes,
        "computer",
    ) && !has_value(classes, "group") {
        Ok(Type::User)
    } else if has_value(classes, "msDS-GroupManagedServiceAccount") {
        Ok(Type::User)
    } else if has_value(classes, "group") {
        Ok(Type::Group)
    } else if has_value(classes, "computer") {
        Ok(Type::Computer)
    } else if has_value(classes, "organizationalUnit") {
        Ok(Type::Ou)
    } else if has_value(classes, "domain") {
        Ok(Type::Domain)
    } else if has_value(classes, "groupPolicyContainer") {
        Ok(Type::Gpo)
    } else if has_value(classes, "top") && has_value(classes, "foreignSecurityPrincipal") {
        Ok(Type::ForeignSecurityPrincipal)
    } else if has_value(classes, "top") && has_value(classes, "container") {
        Ok(Type::Container)
    } else if has_value(classes, "trustedDomain") {
        Ok(Type::Trust)
    } else if has_value(classes, "certificationAuthority") && contains(
        dn,
        DirectoryPaths::ROOT_CA_LOCATION,
    ) {
        Ok(Type::RootCA)
    } else if has_value(classes, "pKIEnrollmentService") && contains(
        dn,
        DirectoryPaths::ENTERPRISE_CA_LOCATION,
    ) {
        Ok(Type::EnterpriseCA)
    } else if has_value(classes, "pKICertificateTemplate") && contains(
        dn,
        DirectoryPaths::CERT_TEMPLATE_LOCATION,
    ) {
        Ok(Type::CertTemplate)
    } else if has_value(classes, "certificationAuthority") && contains(
        dn,
        DirectoryPaths::AIA_CA_LOCATION,
    ) {
        Ok(Type::AIACA)
    } else if has_value(classes, "certificationAuthority") && contains(
        dn,
        DirectoryPaths::NT_AUTH_STORE_LOCATION,
    ) {
        Ok(Type::NtAutStore)
    } else if has_value(classes, "msPKI-Enterprise-Oid") && contains(
        dn,
        DirectoryPaths::ISSUANCE_LOCATION,
    ) && has_value(flags, "2") {
        Ok(Type::IssuancePolicie)
    } else {
        Err(Type::Unknown)
    }
}

} // verus!
