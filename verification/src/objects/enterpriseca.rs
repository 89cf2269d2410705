//! Enterprise certificate authorities.

use crate::enums::acl::spec_is_protected;
use crate::ldap::{blobs, EntryView, LdapSearchEntry};
use crate::mappings::StringMap;
use crate::objects::common::{
    bare_node, member_views, LdapObject, Member, MemberView, NodeCommon, NodeCommonView,
};
use crate::objects::decode::{
    created, decode_attrs, decoded, qualified, register, registered_dn, registered_type,
    set_descriptor, set_guid, spec_created, spec_guid_identifier, spec_qualified, with_descriptor,
    AttributeSink, Context, ContextView,
};
use crate::text::{clone_texts, opt_text, spec_to_uppercase, str_eq, texts, upper};
use crate::utils::crypto::{
    calculate_sha1, certificate_path_length, spec_certificate_path_length, spec_sha1, PathLength,
};
use crate::utils::format::hex_padded;
use vstd::prelude::*;
use vstd::string::*;

verus! {

/// The attributes of an enterprise authority.
#[derive(Debug)]
pub struct EnterpriseCAProperties {
    pub domain: String,
    pub name: String,
    pub distinguishedname: String,
    pub domainsid: String,
    pub isaclprotected: bool,
    pub description: Option<String>,
    pub whencreated: i64,
    pub certthumbprint: String,
    pub certname: String,
    pub certchain: Vec<String>,
    pub hasbasicconstraints: bool,
    pub basicconstraintpathlength: u32,
    pub caname: String,
    pub dnshostname: String,
    pub flags: String,
}

/// A `EnterpriseCAProperties` as plain values.
pub struct EnterpriseCAPropertiesView {
    pub domain: Seq<char>,
    pub name: Seq<char>,
    pub distinguishedname: Seq<char>,
    pub domainsid: Seq<char>,
    pub isaclprotected: bool,
    pub description: Option<Seq<char>>,
    pub whencreated: i64,
    pub certthumbprint: Seq<char>,
    pub certname: Seq<char>,
    pub certchain: Seq<Seq<char>>,
    pub hasbasicconstraints: bool,
    pub basicconstraintpathlength: u32,
    pub caname: Seq<char>,
    pub dnshostname: Seq<char>,
    pub flags: Seq<char>,
}

impl View for EnterpriseCAProperties {
    type V = EnterpriseCAPropertiesView;

    open spec fn view(&self) -> EnterpriseCAPropertiesView {
        EnterpriseCAPropertiesView {
            domain: self.domain@,
            name: self.name@,
            distinguishedname: self.distinguishedname@,
            domainsid: self.domainsid@,
            isaclprotected: self.isaclprotected,
            description: opt_text(self.description),
            whencreated: self.whencreated,
            certthumbprint: self.certthumbprint@,
            certname: self.certname@,
            certchain: texts(self.certchain@),
            hasbasicconstraints: self.hasbasicconstraints,
            basicconstraintpathlength: self.basicconstraintpathlength,
            caname: self.caname@,
            dnshostname: self.dnshostname@,
            flags: self.flags@,
        }
    }
}

impl EnterpriseCAProperties {
    /// The attributes of an authority of which nothing is known yet.
    pub open spec fn spec_new() -> EnterpriseCAPropertiesView {
        EnterpriseCAPropertiesView {
            domain: Seq::empty(),
            name: Seq::empty(),
            distinguishedname: Seq::empty(),
            domainsid: Seq::empty(),
            isaclprotected: false,
            description: None,
            whencreated: -1i64,
            certthumbprint: Seq::empty(),
            certname: Seq::empty(),
            certchain: Seq::empty(),
            hasbasicconstraints: false,
            basicconstraintpathlength: 0u32,
            caname: Seq::empty(),
            dnshostname: Seq::empty(),
            flags: Seq::empty(),
        }
    }

    pub fn new() -> (r: Self)
        ensures
            r@ == Self::spec_new(),
    {
        let r = EnterpriseCAProperties {
            domain: String::new(),
            name: String::new(),
            distinguishedname: String::new(),
            domainsid: String::new(),
            isaclprotected: false,
            description: None,
            whencreated: -1,
            certthumbprint: String::new(),
            certname: String::new(),
            certchain: Vec::new(),
            hasbasicconstraints: false,
            basicconstraintpathlength: 0,
            caname: String::new(),
            dnshostname: String::new(),
            flags: String::new(),
        };
        assert(r@.certchain =~= Seq::empty());
        r
    }

    pub fn name(&self) -> (r: &String)
        ensures
            *r == self.name,
    {
        &self.name
    }
}
/// An enterprise certificate authority and the templates it offers.
#[derive(Debug)]
pub struct EnterpriseCA {
    pub properties: EnterpriseCAProperties,
    pub common: NodeCommon,
    pub hosting_computer: String,
    /// The names of the templates the authority publishes.
    pub certificate_templates: Vec<String>,
    /// The published templates, resolved to nodes.
    pub enabled_cert_templates: Vec<Member>,
    pub domain_sid: String,
}

/// A `EnterpriseCA` as plain values.
pub struct EnterpriseCAView {
    pub properties: EnterpriseCAPropertiesView,
    pub common: NodeCommonView,
    pub hosting_computer: Seq<char>,
    pub certificate_templates: Seq<Seq<char>>,
    pub enabled_cert_templates: Seq<MemberView>,
    pub domain_sid: Seq<char>,
}

impl View for EnterpriseCA {
    type V = EnterpriseCAView;

    open spec fn view(&self) -> EnterpriseCAView {
        EnterpriseCAView {
            properties: self.properties@,
            common: self.common@,
            hosting_computer: self.hosting_computer@,
            certificate_templates: texts(self.certificate_templates@),
            enabled_cert_templates: member_views(self.enabled_cert_templates@),
            domain_sid: self.domain_sid@,
        }
    }
}

impl EnterpriseCA {
    /// An authority that no record has described yet.
    pub open spec fn spec_new() -> EnterpriseCAView {
        EnterpriseCAView {
            properties: EnterpriseCAProperties::spec_new(),
            common: bare_node(),
            hosting_computer: Seq::empty(),
            certificate_templates: Seq::empty(),
            enabled_cert_templates: Seq::empty(),
            domain_sid: Seq::empty(),
        }
    }

    pub fn new() -> (r: Self)
        ensures
            r@ == Self::spec_new(),
    {
        let r = EnterpriseCA {
            properties: EnterpriseCAProperties::new(),
            common: NodeCommon::new(),
            hosting_computer: String::new(),
            certificate_templates: Vec::new(),
            enabled_cert_templates: Vec::new(),
            domain_sid: String::new(),
        };
        assert(r@.certificate_templates =~= Seq::empty());
        assert(r@.enabled_cert_templates =~= Seq::empty());
        r
    }

    pub fn properties(&self) -> (r: &EnterpriseCAProperties)
        ensures
            *r == self.properties,
    {
        &self.properties
    }

    pub fn enabled_cert_templates(&self) -> (r: &Vec<Member>)
        ensures
            *r == self.enabled_cert_templates,
    {
        &self.enabled_cert_templates
    }

    pub fn enabled_cert_templates_mut(&mut self) -> (r: &mut Vec<Member>)
        ensures
            *r == old(self).enabled_cert_templates,
            *final(self) == (EnterpriseCA { enabled_cert_templates: *final(r), ..*old(self) }),
    {
        &mut self.enabled_cert_templates
    }
}

impl LdapObject for EnterpriseCA {
    type Rest = (EnterpriseCAProperties, String, Vec<String>, Vec<Member>, String);

    open spec fn rest(&self) -> Self::Rest {
        (
            self.properties,
            self.hosting_computer,
            self.certificate_templates,
            self.enabled_cert_templates,
            self.domain_sid,
        )
    }

    open spec fn common_spec(&self) -> NodeCommon {
        self.common
    }

    fn common(&self) -> (r: &NodeCommon) {
        &self.common
    }

    fn common_mut(&mut self) -> (r: &mut NodeCommon) {
        &mut self.common
    }
}

/// The name of the type in the index.
pub const ENTERPRISE_CA_TYPE: &'static str = "EnterpriseCA";

impl EnterpriseCA {
    /// What the attribute `name` says of an enterprise certificate authority.
    pub open spec fn spec_on_name(
        v: EnterpriseCAView,
        values: Seq<Seq<char>>,
        ctx: ContextView,
    ) -> EnterpriseCAView {
        EnterpriseCAView {
            properties: EnterpriseCAPropertiesView {
                name: spec_qualified(values[0], "@"@, ctx.domain),
                caname: values[0],
                ..v.properties
            },
            ..v
        }
    }

    fn on_name(&mut self, values: &Vec<String>, ctx: &Context)
        requires
            values@.len() > 0,
        ensures
            final(self)@ == Self::spec_on_name(
                old(self)@,
                texts(values@),
                ctx@,
            ),
    {
        let first = values[0].as_str();
        assert(texts(values@)[0] == values@[0]@);
        self.properties.name = qualified(first, "@", ctx.domain.as_str());
        self.properties.caname = values[0].clone();
    }

    /// What the attribute `description` says of an enterprise certificate authority.
    pub open spec fn spec_on_description(
        v: EnterpriseCAView,
        values: Seq<Seq<char>>,
        ctx: ContextView,
    ) -> EnterpriseCAView {
        EnterpriseCAView {
            properties: EnterpriseCAPropertiesView {
                description: Some(values[0]),
                ..v.properties
            },
            ..v
        }
    }

    fn on_description(&mut self, values: &Vec<String>, ctx: &Context)
        requires
            values@.len() > 0,
        ensures
            final(self)@ == Self::spec_on_description(
                old(self)@,
                texts(values@),
                ctx@,
            ),
    {
        assert(texts(values@)[0] == values@[0]@);
        self.properties.description = Some(values[0].clone());
    }

    /// What the attribute `whenCreated` says of an enterprise certificate authority.
    pub open spec fn spec_on_when_created(
        v: EnterpriseCAView,
        values: Seq<Seq<char>>,
        ctx: ContextView,
    ) -> EnterpriseCAView {
        EnterpriseCAView {
            properties: EnterpriseCAPropertiesView {
                whencreated: spec_created(values[0], v.properties.whencreated),
                ..v.properties
            },
            ..v
        }
    }

    fn on_when_created(&mut self, values: &Vec<String>, ctx: &Context)
        requires
            values@.len() > 0,
        ensures
            final(self)@ == Self::spec_on_when_created(
                old(self)@,
                texts(values@),
                ctx@,
            ),
    {
        let first = values[0].as_str();
        assert(texts(values@)[0] == values@[0]@);
        self.properties.whencreated = created(first, self.properties.whencreated);
    }

    /// What the attribute `IsDeleted` says of an enterprise certificate authority.
    pub open spec fn spec_on_is_deleted(
        v: EnterpriseCAView,
        values: Seq<Seq<char>>,
        ctx: ContextView,
    ) -> EnterpriseCAView {
        EnterpriseCAView {
            common: NodeCommonView {
                is_deleted: true,
                ..v.common
            },
            ..v
        }
    }

    fn on_is_deleted(&mut self, values: &Vec<String>, ctx: &Context)
        requires
            values@.len() > 0,
        ensures
            final(self)@ == Self::spec_on_is_deleted(
                old(self)@,
                texts(values@),
                ctx@,
            ),
    {
        self.common.is_deleted = true;
    }

    /// What the attribute `dNSHostName` says of an enterprise certificate authority.
    pub open spec fn spec_on_dns_host_name(
        v: EnterpriseCAView,
        values: Seq<Seq<char>>,
        ctx: ContextView,
    ) -> EnterpriseCAView {
        EnterpriseCAView {
            properties: EnterpriseCAPropertiesView {
                dnshostname: values[0],
                ..v.properties
            },
            ..v
        }
    }

    fn on_dns_host_name(&mut self, values: &Vec<String>, ctx: &Context)
        requires
            values@.len() > 0,
        ensures
            final(self)@ == Self::spec_on_dns_host_name(
                old(self)@,
                texts(values@),
                ctx@,
            ),
    {
        assert(texts(values@)[0] == values@[0]@);
        self.properties.dnshostname = values[0].clone();
    }

    /// What the attribute `flags` says of an enterprise certificate authority.
    pub open spec fn spec_on_flags(
        v: EnterpriseCAView,
        values: Seq<Seq<char>>,
        ctx: ContextView,
    ) -> EnterpriseCAView {
        EnterpriseCAView {
            properties: EnterpriseCAPropertiesView {
                flags: values[0],
                ..v.properties
            },
            ..v
        }
    }

    fn on_flags(&mut self, values: &Vec<String>, ctx: &Context)
        requires
            values@.len() > 0,
        ensures
            final(self)@ == Self::spec_on_flags(
                old(self)@,
                texts(values@),
                ctx@,
            ),
    {
        assert(texts(values@)[0] == values@[0]@);
        self.properties.flags = values[0].clone();
    }

    /// What the attribute `certificateTemplates` says of an enterprise certificate authority.
    pub open spec fn spec_on_certificate_templates(
        v: EnterpriseCAView,
        values: Seq<Seq<char>>,
        ctx: ContextView,
    ) -> EnterpriseCAView {
        EnterpriseCAView {
            certificate_templates: values,
            ..v
        }
    }

    fn on_certificate_templates(&mut self, values: &Vec<String>, ctx: &Context)
        requires
            values@.len() > 0,
        ensures
            final(self)@ == Self::spec_on_certificate_templates(
                old(self)@,
                texts(values@),
                ctx@,
            ),
    {
        self.certificate_templates = clone_texts(values);
    }

    /// What the attribute `objectGUID` says of an enterprise certificate authority.
    pub open spec fn spec_on_object_guid(
        v: EnterpriseCAView,
        values: Seq<Seq<u8>>,
        ctx: ContextView,
    ) -> EnterpriseCAView {
        EnterpriseCAView {
            common: NodeCommonView {
                object_identifier: spec_guid_identifier(values[0], v.common.object_identifier),
                ..v.common
            },
            ..v
        }
    }

    fn on_object_guid(&mut self, values: &Vec<Vec<u8>>, ctx: &Context)
        requires
            values@.len() > 0,
        ensures
            final(self)@ == Self::spec_on_object_guid(
                old(self)@,
                blobs(values@),
                ctx@,
            ),
    {
        assert(blobs(values@)[0] == values@[0]@);
        set_guid(&mut self.common, &values[0]);
    }

    /// What the attribute `nTSecurityDescriptor` says of an enterprise certificate authority.
    pub open spec fn spec_on_nt_security_descriptor(
        v: EnterpriseCAView,
        values: Seq<Seq<u8>>,
        ctx: ContextView,
    ) -> EnterpriseCAView {
        EnterpriseCAView {
            common: with_descriptor(v.common, values[0], ENTERPRISE_CA_TYPE@, ctx.domain),
            properties: EnterpriseCAPropertiesView {
                isaclprotected: spec_is_protected(values[0]),
                ..v.properties
            },
            ..v
        }
    }

    fn on_nt_security_descriptor(&mut self, values: &Vec<Vec<u8>>, ctx: &Context)
        requires
            values@.len() > 0,
        ensures
            final(self)@ == Self::spec_on_nt_security_descriptor(
                old(self)@,
                blobs(values@),
                ctx@,
            ),
    {
        assert(blobs(values@)[0] == values@[0]@);
        set_descriptor(&mut self.common, &values[0], ENTERPRISE_CA_TYPE, ctx.domain.as_str());
        self.properties.isaclprotected = self.common.is_acl_protected;
    }

    /// What the attribute `cACertificate` says of an enterprise certificate authority.
    pub open spec fn spec_on_ca_certificate(
        v: EnterpriseCAView,
        values: Seq<Seq<u8>>,
        ctx: ContextView,
    ) -> EnterpriseCAView {
        {
            let thumbprint = hex_padded(spec_sha1(values[0]));
            let length = spec_certificate_path_length(
                values[0],
                PathLength {
                    constrained: v.properties.hasbasicconstraints,
                    length: v.properties.basicconstraintpathlength,
                },
            );
            EnterpriseCAView {
                properties: EnterpriseCAPropertiesView {
                    certthumbprint: thumbprint,
                    certname: thumbprint,
                    certchain: seq![thumbprint],
                    hasbasicconstraints: length.constrained,
                    basicconstraintpathlength: length.length,
                    ..v.properties
                },
                ..v
            }
        }
    }

    fn on_ca_certificate(&mut self, values: &Vec<Vec<u8>>, ctx: &Context)
        requires
            values@.len() > 0,
        ensures
            final(self)@ == Self::spec_on_ca_certificate(
                old(self)@,
                blobs(values@),
                ctx@,
            ),
    {
        assert(blobs(values@)[0] == values@[0]@);
        let thumbprint = calculate_sha1(values[0].as_slice());
        let mut chain: Vec<String> = Vec::new();
        chain.push(thumbprint.clone());
        assert(texts(chain@) =~= seq![thumbprint@]);
        self.properties.certname = thumbprint.clone();
        self.properties.certthumbprint = thumbprint;
        self.properties.certchain = chain;
        let length = certificate_path_length(
            values[0].as_slice(),
            PathLength {
                constrained: self.properties.hasbasicconstraints,
                length: self.properties.basicconstraintpathlength,
            },
        );
        self.properties.hasbasicconstraints = length.constrained;
        self.properties.basicconstraintpathlength = length.length;
    }
}

impl AttributeSink for EnterpriseCA {
    /// What one text attribute does to an enterprise certificate authority. An
    /// attribute without values
    /// or one that the type does not know changes nothing.
    open spec fn text_attr(
        v: EnterpriseCAView,
        key: Seq<char>,
        values: Seq<Seq<char>>,
        ctx: ContextView,
    ) -> EnterpriseCAView {
        if values.len() == 0 {
            v
        } else if key == "name"@ {
            Self::spec_on_name(v, values, ctx)
        } else if key == "description"@ {
            Self::spec_on_description(v, values, ctx)
        } else if key == "whenCreated"@ {
            Self::spec_on_when_created(v, values, ctx)
        } else if key == "IsDeleted"@ {
            Self::spec_on_is_deleted(v, values, ctx)
        } else if key == "dNSHostName"@ {
            Self::spec_on_dns_host_name(v, values, ctx)
        } else if key == "flags"@ {
            Self::spec_on_flags(v, values, ctx)
        } else if key == "certificateTemplates"@ {
            Self::spec_on_certificate_templates(v, values, ctx)
        } else {
            v
        }
    }

    /// What one binary attribute does to an enterprise certificate authority.
    open spec fn bin_attr(
        v: EnterpriseCAView,
        key: Seq<char>,
        values: Seq<Seq<u8>>,
        ctx: ContextView,
    ) -> EnterpriseCAView {
        if values.len() == 0 {
            v
        } else if key == "objectGUID"@ {
            Self::spec_on_object_guid(v, values, ctx)
        } else if key == "nTSecurityDescriptor"@ {
            Self::spec_on_nt_security_descriptor(v, values, ctx)
        } else if key == "cACertificate"@ {
            Self::spec_on_ca_certificate(v, values, ctx)
        } else {
            v
        }
    }

    fn apply_text(&mut self, key: &str, values: &Vec<String>, ctx: &Context) {
        if values.len() == 0 {
            return ;
        }
        if str_eq(key, "name") {
            self.on_name(values, ctx);
        } else if str_eq(key, "description") {
            self.on_description(values, ctx);
        } else if str_eq(key, "whenCreated") {
            self.on_when_created(values, ctx);
        } else if str_eq(key, "IsDeleted") {
            self.on_is_deleted(values, ctx);
        } else if str_eq(key, "dNSHostName") {
            self.on_dns_host_name(values, ctx);
        } else if str_eq(key, "flags") {
            self.on_flags(values, ctx);
        } else if str_eq(key, "certificateTemplates") {
            self.on_certificate_templates(values, ctx);
        }
    }

    fn apply_bin(&mut self, key: &str, values: &Vec<Vec<u8>>, ctx: &Context) {
        if values.len() == 0 {
            return ;
        }
        if str_eq(key, "objectGUID") {
            self.on_object_guid(values, ctx);
        } else if str_eq(key, "nTSecurityDescriptor") {
            self.on_nt_security_descriptor(values, ctx);
        } else if str_eq(key, "cACertificate") {
            self.on_ca_certificate(values, ctx);
        }
    }
}

impl EnterpriseCA {
    /// The authority before the attributes of its record are read: what
    /// the record's name and the collected domain say of it.
    pub open spec fn spec_begin(
        v: EnterpriseCAView,
        entry: EntryView,
        domain: Seq<char>,
        domain_sid: Seq<char>,
    ) -> EnterpriseCAView {
        EnterpriseCAView {
            properties: EnterpriseCAPropertiesView {
                domain: spec_to_uppercase(domain),
                distinguishedname: spec_to_uppercase(entry.dn),
                domainsid: domain_sid,
                ..v.properties
            },
            domain_sid: domain_sid,
            ..v
        }
    }

    /// The authority that a record describes.
    pub open spec fn spec_parse(
        v: EnterpriseCAView,
        entry: EntryView,
        domain: Seq<char>,
        domain_sid: Seq<char>,
    ) -> EnterpriseCAView {
        decoded::<EnterpriseCA>(
            Self::spec_begin(v, entry, domain, domain_sid),
            entry,
            ContextView { domain, domain_sid },
        )
    }

    /// Decodes the record of an enterprise certificate authority and enters the
    /// authority in the index.
    pub fn parse(
        &mut self,
        result: &LdapSearchEntry,
        domain: &str,
        dn_sid: &mut StringMap,
        sid_type: &mut StringMap,
        domain_sid: &str,
    )
        ensures
            final(self)@ == Self::spec_parse(
                old(self)@,
                result@,
                domain@,
                domain_sid@,
            ),
            final(dn_sid)@ == registered_dn(
                old(dn_sid)@,
                final(self)@.properties.distinguishedname,
                final(self)@.common.object_identifier,
            ),
            final(sid_type)@ == registered_type(
                old(sid_type)@,
                final(self)@.common.object_identifier,
                ENTERPRISE_CA_TYPE@,
            ),
    {
        self.properties.domain = upper(domain);
        self.properties.distinguishedname = upper(result.dn.as_str());
        self.properties.domainsid = String::from_str(domain_sid);
        self.domain_sid = String::from_str(domain_sid);
        let ctx = Context::new(domain, domain_sid);
        decode_attrs(self, result, &ctx);
        register(
            dn_sid,
            sid_type,
            self.properties.distinguishedname.as_str(),
            self.common.object_identifier.as_str(),
            ENTERPRISE_CA_TYPE,
        );
    }
}
} // verus!
