//! Issuance policies.

use crate::enums::acl::spec_is_protected;
use crate::ldap::{blobs, EntryView, LdapSearchEntry};
use crate::mappings::StringMap;
use crate::objects::common::{bare_node, LdapObject, NodeCommon, NodeCommonView};
use crate::objects::decode::{
    created, decode_attrs, decoded, qualified, register, registered_dn, registered_type,
    set_descriptor, set_guid, spec_created, spec_guid_identifier, spec_qualified, with_descriptor,
    AttributeSink, Context, ContextView,
};
use crate::text::{opt_text, spec_to_uppercase, str_eq, texts, upper};
use vstd::prelude::*;
use vstd::string::*;

verus! {

/// The group that holders of a certificate issued under a policy are taken to
/// belong to.
#[derive(Debug)]
pub struct GroupLink {
    pub object_identifier: Option<String>,
    pub object_type: String,
}

/// A `GroupLink` as plain values.
pub struct GroupLinkView {
    pub object_identifier: Option<Seq<char>>,
    pub object_type: Seq<char>,
}

impl View for GroupLink {
    type V = GroupLinkView;

    open spec fn view(&self) -> GroupLinkView {
        GroupLinkView {
            object_identifier: opt_text(self.object_identifier),
            object_type: self.object_type@,
        }
    }
}

impl GroupLink {
    pub fn new(object_identifier: Option<String>, object_type: String) -> (l: Self)
        ensures
            l == (GroupLink { object_identifier, object_type }),
    {
        GroupLink { object_identifier, object_type }
    }

    /// A link to no group: no identifier, type `Base`.
    pub open spec fn spec_base() -> GroupLinkView {
        GroupLinkView { object_identifier: None, object_type: "Base"@ }
    }

    /// A link to no group.
    pub fn base() -> (l: Self)
        ensures
            l@ == Self::spec_base(),
    {
        GroupLink { object_identifier: None, object_type: String::from_str("Base") }
    }

    pub fn object_identifier(&self) -> (r: &Option<String>)
        ensures
            *r == self.object_identifier,
    {
        &self.object_identifier
    }

    pub fn object_type(&self) -> (r: &String)
        ensures
            *r == self.object_type,
    {
        &self.object_type
    }

    pub fn object_identifier_mut(&mut self) -> (r: &mut Option<String>)
        ensures
            *r == old(self).object_identifier,
            *final(self) == (GroupLink { object_identifier: *final(r), ..*old(self) }),
    {
        &mut self.object_identifier
    }

    pub fn object_type_mut(&mut self) -> (r: &mut String)
        ensures
            *r == old(self).object_type,
            *final(self) == (GroupLink { object_type: *final(r), ..*old(self) }),
    {
        &mut self.object_type
    }
}

/// The attributes of an issuance policy.
#[derive(Debug)]
pub struct IssuancePolicieProperties {
    pub domain: String,
    pub name: String,
    pub distinguishedname: String,
    pub domainsid: String,
    pub isaclprotected: bool,
    pub description: Option<String>,
    pub whencreated: i64,
    pub displayname: String,
    pub certtemplateoid: String,
}

/// A `IssuancePolicieProperties` as plain values.
pub struct IssuancePoliciePropertiesView {
    pub domain: Seq<char>,
    pub name: Seq<char>,
    pub distinguishedname: Seq<char>,
    pub domainsid: Seq<char>,
    pub isaclprotected: bool,
    pub description: Option<Seq<char>>,
    pub whencreated: i64,
    pub displayname: Seq<char>,
    pub certtemplateoid: Seq<char>,
}

impl View for IssuancePolicieProperties {
    type V = IssuancePoliciePropertiesView;

    open spec fn view(&self) -> IssuancePoliciePropertiesView {
        IssuancePoliciePropertiesView {
            domain: self.domain@,
            name: self.name@,
            distinguishedname: self.distinguishedname@,
            domainsid: self.domainsid@,
            isaclprotected: self.isaclprotected,
            description: opt_text(self.description),
            whencreated: self.whencreated,
            displayname: self.displayname@,
            certtemplateoid: self.certtemplateoid@,
        }
    }
}

impl IssuancePolicieProperties {
    /// The attributes of a policy of which nothing is known yet.
    pub open spec fn spec_new() -> IssuancePoliciePropertiesView {
        IssuancePoliciePropertiesView {
            domain: Seq::empty(),
            name: Seq::empty(),
            distinguishedname: Seq::empty(),
            domainsid: Seq::empty(),
            isaclprotected: false,
            description: None,
            whencreated: -1i64,
            displayname: Seq::empty(),
            certtemplateoid: Seq::empty(),
        }
    }

    pub fn new() -> (r: Self)
        ensures
            r@ == Self::spec_new(),
    {
        let r = IssuancePolicieProperties {
            domain: String::new(),
            name: String::new(),
            distinguishedname: String::new(),
            domainsid: String::new(),
            isaclprotected: false,
            description: None,
            whencreated: -1,
            displayname: String::new(),
            certtemplateoid: String::new(),
        };
        r
    }
}
/// An issuance policy and the group it is linked to.
#[derive(Debug)]
pub struct IssuancePolicie {
    pub properties: IssuancePolicieProperties,
    pub group_link: GroupLink,
    pub common: NodeCommon,
}

/// A `IssuancePolicie` as plain values.
pub struct IssuancePolicieView {
    pub properties: IssuancePoliciePropertiesView,
    pub group_link: GroupLinkView,
    pub common: NodeCommonView,
}

impl View for IssuancePolicie {
    type V = IssuancePolicieView;

    open spec fn view(&self) -> IssuancePolicieView {
        IssuancePolicieView {
            properties: self.properties@,
            group_link: self.group_link@,
            common: self.common@,
        }
    }
}

impl IssuancePolicie {
    /// A policy that no record has described yet.
    pub open spec fn spec_new() -> IssuancePolicieView {
        IssuancePolicieView {
            properties: IssuancePolicieProperties::spec_new(),
            group_link: GroupLink::spec_base(),
            common: bare_node(),
        }
    }

    pub fn new() -> (r: Self)
        ensures
            r@ == Self::spec_new(),
    {
        let r = IssuancePolicie {
            properties: IssuancePolicieProperties::new(),
            group_link: GroupLink::base(),
            common: NodeCommon::new(),
        };
        r
    }
}

impl LdapObject for IssuancePolicie {
    type Rest = (IssuancePolicieProperties, GroupLink);

    open spec fn rest(&self) -> Self::Rest {
        (self.properties, self.group_link)
    }

    open spec fn common_spec(&self) -> NodeCommon {
        self.common
    }

    fn common(&self) -> (r: &NodeCommon) {
        &self.common
    }

    fn common_mut(&mut self) -> (r: &mut NodeCommon) {
        &mut self.common
    }
}

/// The name of the type in the index.
pub const ISSUANCE_POLICIE_TYPE: &'static str = "IssuancePolicie";

impl IssuancePolicie {
    /// What the attribute `description` says of an issuance policy.
    pub open spec fn spec_on_description(
        v: IssuancePolicieView,
        values: Seq<Seq<char>>,
        ctx: ContextView,
    ) -> IssuancePolicieView {
        IssuancePolicieView {
            properties: IssuancePoliciePropertiesView {
                description: Some(values[0]),
                ..v.properties
            },
            ..v
        }
    }

    fn on_description(&mut self, values: &Vec<String>, ctx: &Context)
        requires
            values@.len() > 0,
        ensures
            final(self)@ == Self::spec_on_description(
                old(self)@,
                texts(values@),
                ctx@,
            ),
    {
        assert(texts(values@)[0] == values@[0]@);
        self.properties.description = Some(values[0].clone());
    }

    /// What the attribute `whenCreated` says of an issuance policy.
    pub open spec fn spec_on_when_created(
        v: IssuancePolicieView,
        values: Seq<Seq<char>>,
        ctx: ContextView,
    ) -> IssuancePolicieView {
        IssuancePolicieView {
            properties: IssuancePoliciePropertiesView {
                whencreated: spec_created(values[0], v.properties.whencreated),
                ..v.properties
            },
            ..v
        }
    }

    fn on_when_created(&mut self, values: &Vec<String>, ctx: &Context)
        requires
            values@.len() > 0,
        ensures
            final(self)@ == Self::spec_on_when_created(
                old(self)@,
                texts(values@),
                ctx@,
            ),
    {
        let first = values[0].as_str();
        assert(texts(values@)[0] == values@[0]@);
        self.properties.whencreated = created(first, self.properties.whencreated);
    }

    /// What the attribute `IsDeleted` says of an issuance policy.
    pub open spec fn spec_on_is_deleted(
        v: IssuancePolicieView,
        values: Seq<Seq<char>>,
        ctx: ContextView,
    ) -> IssuancePolicieView {
        IssuancePolicieView {
            common: NodeCommonView {
                is_deleted: true,
                ..v.common
            },
            ..v
        }
    }

    fn on_is_deleted(&mut self, values: &Vec<String>, ctx: &Context)
        requires
            values@.len() > 0,
        ensures
            final(self)@ == Self::spec_on_is_deleted(
                old(self)@,
                texts(values@),
                ctx@,
            ),
    {
        self.common.is_deleted = true;
    }

    /// What the attribute `displayName` says of an issuance policy.
    pub open spec fn spec_on_display_name(
        v: IssuancePolicieView,
        values: Seq<Seq<char>>,
        ctx: ContextView,
    ) -> IssuancePolicieView {
        IssuancePolicieView {
            properties: IssuancePoliciePropertiesView {
                name: spec_qualified(values[0], "@"@, ctx.domain),
                displayname: values[0],
                ..v.properties
            },
            ..v
        }
    }

    fn on_display_name(&mut self, values: &Vec<String>, ctx: &Context)
        requires
            values@.len() > 0,
        ensures
            final(self)@ == Self::spec_on_display_name(
                old(self)@,
                texts(values@),
                ctx@,
            ),
    {
        let first = values[0].as_str();
        assert(texts(values@)[0] == values@[0]@);
        self.properties.name = qualified(first, "@", ctx.domain.as_str());
        self.properties.displayname = values[0].clone();
    }

    /// What the attribute `msPKI-Cert-Template-OID` says of an issuance policy.
    pub open spec fn spec_on_ms_pki_cert_template_oid(
        v: IssuancePolicieView,
        values: Seq<Seq<char>>,
        ctx: ContextView,
    ) -> IssuancePolicieView {
        IssuancePolicieView {
            properties: IssuancePoliciePropertiesView {
                certtemplateoid: values[0],
                ..v.properties
            },
            ..v
        }
    }

    fn on_ms_pki_cert_template_oid(&mut self, values: &Vec<String>, ctx: &Context)
        requires
            values@.len() > 0,
        ensures
            final(self)@ == Self::spec_on_ms_pki_cert_template_oid(
                old(self)@,
                texts(values@),
                ctx@,
            ),
    {
        assert(texts(values@)[0] == values@[0]@);
        self.properties.certtemplateoid = values[0].clone();
    }

    /// What the attribute `objectGUID` says of an issuance policy.
    pub open spec fn spec_on_object_guid(
        v: IssuancePolicieView,
        values: Seq<Seq<u8>>,
        ctx: ContextView,
    ) -> IssuancePolicieView {
        IssuancePolicieView {
            common: NodeCommonView {
                object_identifier: spec_guid_identifier(values[0], v.common.object_identifier),
                ..v.common
            },
            ..v
        }
    }

    fn on_object_guid(&mut self, values: &Vec<Vec<u8>>, ctx: &Context)
        requires
            values@.len() > 0,
        ensures
            final(self)@ == Self::spec_on_object_guid(
                old(self)@,
                blobs(values@),
                ctx@,
            ),
    {
        assert(blobs(values@)[0] == values@[0]@);
        set_guid(&mut self.common, &values[0]);
    }

    /// What the attribute `nTSecurityDescriptor` says of an issuance policy.
    pub open spec fn spec_on_nt_security_descriptor(
        v: IssuancePolicieView,
        values: Seq<Seq<u8>>,
        ctx: ContextView,
    ) -> IssuancePolicieView {
        IssuancePolicieView {
            common: with_descriptor(v.common, values[0], ISSUANCE_POLICIE_TYPE@, ctx.domain),
            properties: IssuancePoliciePropertiesView {
                isaclprotected: spec_is_protected(values[0]),
                ..v.properties
            },
            ..v
        }
    }

    fn on_nt_security_descriptor(&mut self, values: &Vec<Vec<u8>>, ctx: &Context)
        requires
            values@.len() > 0,
        ensures
            final(self)@ == Self::spec_on_nt_security_descriptor(
                old(self)@,
                blobs(values@),
                ctx@,
            ),
    {
        assert(blobs(values@)[0] == values@[0]@);
        set_descriptor(&mut self.common, &values[0], ISSUANCE_POLICIE_TYPE, ctx.domain.as_str());
        self.properties.isaclprotected = self.common.is_acl_protected;
    }
}

impl AttributeSink for IssuancePolicie {
    /// What one text attribute does to an issuance policy. An attribute without values
    /// or one that the type does not know changes nothing.
    open spec fn text_attr(
        v: IssuancePolicieView,
        key: Seq<char>,
        values: Seq<Seq<char>>,
        ctx: ContextView,
    ) -> IssuancePolicieView {
        if values.len() == 0 {
            v
        } else if key == "description"@ {
            Self::spec_on_description(v, values, ctx)
        } else if key == "whenCreated"@ {
            Self::spec_on_when_created(v, values, ctx)
        } else if key == "IsDeleted"@ {
            Self::spec_on_is_deleted(v, values, ctx)
        } else if key == "displayName"@ {
            Self::spec_on_display_name(v, values, ctx)
        } else if key == "msPKI-Cert-Template-OID"@ {
            Self::spec_on_ms_pki_cert_template_oid(v, values, ctx)
        } else {
            v
        }
    }

    /// What one binary attribute does to an issuance policy.
    open spec fn bin_attr(
        v: IssuancePolicieView,
        key: Seq<char>,
        values: Seq<Seq<u8>>,
        ctx: ContextView,
    ) -> IssuancePolicieView {
        if values.len() == 0 {
            v
        } else if key == "objectGUID"@ {
            Self::spec_on_object_guid(v, values, ctx)
        } else if key == "nTSecurityDescriptor"@ {
            Self::spec_on_nt_security_descriptor(v, values, ctx)
        } else {
            v
        }
    }

    fn apply_text(&mut self, key: &str, values: &Vec<String>, ctx: &Context) {
        if values.len() == 0 {
            return ;
        }
        if str_eq(key, "description") {
            self.on_description(values, ctx);
        } else if str_eq(key, "whenCreated") {
            self.on_when_created(values, ctx);
        } else if str_eq(key, "IsDeleted") {
            self.on_is_deleted(values, ctx);
        } else if str_eq(key, "displayName") {
            self.on_display_name(values, ctx);
        } else if str_eq(key, "msPKI-Cert-Template-OID") {
            self.on_ms_pki_cert_template_oid(values, ctx);
        }
    }

    fn apply_bin(&mut self, key: &str, values: &Vec<Vec<u8>>, ctx: &Context) {
        if values.len() == 0 {
            return ;
        }
        if str_eq(key, "objectGUID") {
            self.on_object_guid(values, ctx);
        } else if str_eq(key, "nTSecurityDescriptor") {
            self.on_nt_security_descriptor(values, ctx);
        }
    }
}

impl IssuancePolicie {
    /// The policy before the attributes of its record are read: what
    /// the record's name and the collected domain say of it.
    pub open spec fn spec_begin(
        v: IssuancePolicieView,
        entry: EntryView,
        domain: Seq<char>,
        domain_sid: Seq<char>,
    ) -> IssuancePolicieView {
        IssuancePolicieView {
            properties: IssuancePoliciePropertiesView {
                domain: spec_to_uppercase(domain),
                distinguishedname: spec_to_uppercase(entry.dn),
                domainsid: domain_sid,
                ..v.properties
            },
            ..v
        }
    }

    /// The policy that a record describes.
    pub open spec fn spec_parse(
        v: IssuancePolicieView,
        entry: EntryView,
        domain: Seq<char>,
        domain_sid: Seq<char>,
    ) -> IssuancePolicieView {
        decoded::<IssuancePolicie>(
            Self::spec_begin(v, entry, domain, domain_sid),
            entry,
            ContextView { domain, domain_sid },
        )
    }

    /// Decodes the record of an issuance policy and enters the policy in the index.
    pub fn parse(
        &mut self,
        result: &LdapSearchEntry,
        domain: &str,
        dn_sid: &mut StringMap,
        sid_type: &mut StringMap,
        domain_sid: &str,
    )
        ensures
            final(self)@ == Self::spec_parse(
                old(self)@,
                result@,
                domain@,
                domain_sid@,
            ),
            final(dn_sid)@ == registered_dn(
                old(dn_sid)@,
                final(self)@.properties.distinguishedname,
                final(self)@.common.object_identifier,
            ),
            final(sid_type)@ == registered_type(
                old(sid_type)@,
                final(self)@.common.object_identifier,
                ISSUANCE_POLICIE_TYPE@,
            ),
    {
        self.properties.domain = upper(domain);
        self.properties.distinguishedname = upper(result.dn.as_str());
        self.properties.domainsid = String::from_str(domain_sid);
        let ctx = Context::new(domain, domain_sid);
        decode_attrs(self, result, &ctx);
        register(
            dn_sid,
            sid_type,
            self.properties.distinguishedname.as_str(),
            self.common.object_identifier.as_str(),
            ISSUANCE_POLICIE_TYPE,
        );
    }
}
} // verus!
