//! Root certificate authorities.

use crate::enums::acl::spec_is_protected;
use crate::ldap::{blobs, EntryView, LdapSearchEntry};
use crate::mappings::StringMap;
use crate::objects::common::{bare_node, LdapObject, NodeCommon, NodeCommonView};
use crate::objects::decode::{
    created, decode_attrs, decoded, qualified, register, registered_dn, registered_type,
    set_descriptor, set_guid, spec_created, spec_guid_identifier, spec_qualified, with_descriptor,
    AttributeSink, Context, ContextView,
};
use crate::text::{opt_text, spec_to_uppercase, str_eq, texts, upper};
use crate::utils::crypto::{
    calculate_sha1, certificate_path_length, spec_certificate_path_length, spec_sha1, PathLength,
};
use crate::utils::format::hex_padded;
use vstd::prelude::*;
use vstd::string::*;

verus! {

/// The attributes of a root authority.
#[derive(Debug)]
pub struct RootCAProperties {
    pub domain: String,
    pub name: String,
    pub distinguishedname: String,
    pub domainsid: String,
    pub isaclprotected: bool,
    pub description: Option<String>,
    pub whencreated: i64,
    pub certthumbprint: String,
    pub certname: String,
    pub certchain: Vec<String>,
    pub hasbasicconstraints: bool,
    pub basicconstraintpathlength: u32,
}

/// A `RootCAProperties` as plain values.
pub struct RootCAPropertiesView {
    pub domain: Seq<char>,
    pub name: Seq<char>,
    pub distinguishedname: Seq<char>,
    pub domainsid: Seq<char>,
    pub isaclprotected: bool,
    pub description: Option<Seq<char>>,
    pub whencreated: i64,
    pub certthumbprint: Seq<char>,
    pub certname: Seq<char>,
    pub certchain: Seq<Seq<char>>,
    pub hasbasicconstraints: bool,
    pub basicconstraintpathlength: u32,
}

impl View for RootCAProperties {
    type V = RootCAPropertiesView;

    open spec fn view(&self) -> RootCAPropertiesView {
        RootCAPropertiesView {
            domain: self.domain@,
            name: self.name@,
            distinguishedname: self.distinguishedname@,
            domainsid: self.domainsid@,
            isaclprotected: self.isaclprotected,
            description: opt_text(self.description),
            whencreated: self.whencreated,
            certthumbprint: self.certthumbprint@,
            certname: self.certname@,
            certchain: texts(self.certchain@),
            hasbasicconstraints: self.hasbasicconstraints,
            basicconstraintpathlength: self.basicconstraintpathlength,
        }
    }
}

impl RootCAProperties {
    /// The attributes of an authority of which nothing is known yet.
    pub open spec fn spec_new() -> RootCAPropertiesView {
        RootCAPropertiesView {
            domain: Seq::empty(),
            name: Seq::empty(),
            distinguishedname: Seq::empty(),
            domainsid: Seq::empty(),
            isaclprotected: false,
            description: None,
            whencreated: -1i64,
            certthumbprint: Seq::empty(),
            certname: Seq::empty(),
            certchain: Seq::empty(),
            hasbasicconstraints: false,
            basicconstraintpathlength: 0u32,
        }
    }

    pub fn new() -> (r: Self)
        ensures
            r@ == Self::spec_new(),
    {
        let r = RootCAProperties {
            domain: String::new(),
            name: String::new(),
            distinguishedname: String::new(),
            domainsid: String::new(),
            isaclprotected: false,
            description: None,
            whencreated: -1,
            certthumbprint: String::new(),
            certname: String::new(),
            certchain: Vec::new(),
            hasbasicconstraints: false,
            basicconstraintpathlength: 0,
        };
        assert(r@.certchain =~= Seq::empty());
        r
    }
}
/// A root certificate authority.
#[derive(Debug)]
pub struct RootCA {
    pub properties: RootCAProperties,
    pub domain_sid: String,
    pub common: NodeCommon,
}

/// A `RootCA` as plain values.
pub struct RootCAView {
    pub properties: RootCAPropertiesView,
    pub domain_sid: Seq<char>,
    pub common: NodeCommonView,
}

impl View for RootCA {
    type V = RootCAView;

    open spec fn view(&self) -> RootCAView {
        RootCAView {
            properties: self.properties@,
            domain_sid: self.domain_sid@,
            common: self.common@,
        }
    }
}

impl RootCA {
    /// An authority that no record has described yet.
    pub open spec fn spec_new() -> RootCAView {
        RootCAView {
            properties: RootCAProperties::spec_new(),
            domain_sid: Seq::empty(),
            common: bare_node(),
        }
    }

    pub fn new() -> (r: Self)
        ensures
            r@ == Self::spec_new(),
    {
        let r = RootCA {
            properties: RootCAProperties::new(),
            domain_sid: String::new(),
            common: NodeCommon::new(),
        };
        r
    }
}

impl LdapObject for RootCA {
    type Rest = (RootCAProperties, String);

    open spec fn rest(&self) -> Self::Rest {
        (self.properties, self.domain_sid)
    }

    open spec fn common_spec(&self) -> NodeCommon {
        self.common
    }

    fn common(&self) -> (r: &NodeCommon) {
        &self.common
    }

    fn common_mut(&mut self) -> (r: &mut NodeCommon) {
        &mut self.common
    }
}

/// The name of the type in the index.
pub const ROOT_CA_TYPE: &'static str = "RootCA";

impl RootCA {
    /// What the attribute `name` says of a root certificate authority.
    pub open spec fn spec_on_name(
        v: RootCAView,
        values: Seq<Seq<char>>,
        ctx: ContextView,
    ) -> RootCAView {
        RootCAView {
            properties: RootCAPropertiesView {
                name: spec_qualified(values[0], "@"@, ctx.domain),
                ..v.properties
            },
            ..v
        }
    }

    fn on_name(&mut self, values: &Vec<String>, ctx: &Context)
        requires
            values@.len() > 0,
        ensures
            final(self)@ == Self::spec_on_name(
                old(self)@,
                texts(values@),
                ctx@,
            ),
    {
        let first = values[0].as_str();
        assert(texts(values@)[0] == values@[0]@);
        self.properties.name = qualified(first, "@", ctx.domain.as_str());
    }

    /// What the attribute `description` says of a root certificate authority.
    pub open spec fn spec_on_description(
        v: RootCAView,
        values: Seq<Seq<char>>,
        ctx: ContextView,
    ) -> RootCAView {
        RootCAView {
            properties: RootCAPropertiesView {
                description: Some(values[0]),
                ..v.properties
            },
            ..v
        }
    }

    fn on_description(&mut self, values: &Vec<String>, ctx: &Context)
        requires
            values@.len() > 0,
        ensures
            final(self)@ == Self::spec_on_description(
                old(self)@,
                texts(values@),
                ctx@,
            ),
    {
        assert(texts(values@)[0] == values@[0]@);
        self.properties.description = Some(values[0].clone());
    }

    /// What the attribute `whenCreated` says of a root certificate authority.
    pub open spec fn spec_on_when_created(
        v: RootCAView,
        values: Seq<Seq<char>>,
        ctx: ContextView,
    ) -> RootCAView {
        RootCAView {
            properties: RootCAPropertiesView {
                whencreated: spec_created(values[0], v.properties.whencreated),
                ..v.properties
            },
            ..v
        }
    }

    fn on_when_created(&mut self, values: &Vec<String>, ctx: &Context)
        requires
            values@.len() > 0,
        ensures
            final(self)@ == Self::spec_on_when_created(
                old(self)@,
                texts(values@),
                ctx@,
            ),
    {
        let first = values[0].as_str();
        assert(texts(values@)[0] == values@[0]@);
        self.properties.whencreated = created(first, self.properties.whencreated);
    }

    /// What the attribute `IsDeleted` says of a root certificate authority.
    pub open spec fn spec_on_is_deleted(
        v: RootCAView,
        values: Seq<Seq<char>>,
        ctx: ContextView,
    ) -> RootCAView {
        RootCAView {
            common: NodeCommonView {
                is_deleted: true,
                ..v.common
            },
            ..v
        }
    }

    fn on_is_deleted(&mut self, values: &Vec<String>, ctx: &Context)
        requires
            values@.len() > 0,
        ensures
            final(self)@ == Self::spec_on_is_deleted(
                old(self)@,
                texts(values@),
                ctx@,
            ),
    {
        self.common.is_deleted = true;
    }

    /// What the attribute `objectGUID` says of a root certificate authority.
    pub open spec fn spec_on_object_guid(
        v: RootCAView,
        values: Seq<Seq<u8>>,
        ctx: ContextView,
    ) -> RootCAView {
        RootCAView {
            common: NodeCommonView {
                object_identifier: spec_guid_identifier(values[0], v.common.object_identifier),
                ..v.common
            },
            ..v
        }
    }

    fn on_object_guid(&mut self, values: &Vec<Vec<u8>>, ctx: &Context)
        requires
            values@.len() > 0,
        ensures
            final(self)@ == Self::spec_on_object_guid(
                old(self)@,
                blobs(values@),
                ctx@,
            ),
    {
        assert(blobs(values@)[0] == values@[0]@);
        set_guid(&mut self.common, &values[0]);
    }

    /// What the attribute `nTSecurityDescriptor` says of a root certificate authority.
    pub open spec fn spec_on_nt_security_descriptor(
        v: RootCAView,
        values: Seq<Seq<u8>>,
        ctx: ContextView,
    ) -> RootCAView {
        RootCAView {
            common: with_descriptor(v.common, values[0], ROOT_CA_TYPE@, ctx.domain),
            properties: RootCAPropertiesView {
                isaclprotected: spec_is_protected(values[0]),
                ..v.properties
            },
            ..v
        }
    }

    fn on_nt_security_descriptor(&mut self, values: &Vec<Vec<u8>>, ctx: &Context)
        requires
            values@.len() > 0,
        ensures
            final(self)@ == Self::spec_on_nt_security_descriptor(
                old(self)@,
                blobs(values@),
                ctx@,
            ),
    {
        assert(blobs(values@)[0] == values@[0]@);
        set_descriptor(&mut self.common, &values[0], ROOT_CA_TYPE, ctx.domain.as_str());
        self.properties.isaclprotected = self.common.is_acl_protected;
    }

    /// What the attribute `cACertificate` says of a root certificate authority.
    pub open spec fn spec_on_ca_certificate(
        v: RootCAView,
        values: Seq<Seq<u8>>,
        ctx: ContextView,
    ) -> RootCAView {
        {
            let thumbprint = hex_padded(spec_sha1(values[0]));
            let length = spec_certificate_path_length(
                values[0],
                PathLength {
                    constrained: v.properties.hasbasicconstraints,
                    length: v.properties.basicconstraintpathlength,
                },
            );
            RootCAView {
                properties: RootCAPropertiesView {
                    certthumbprint: thumbprint,
                    certname: thumbprint,
                    certchain: seq![thumbprint],
                    hasbasicconstraints: length.constrained,
                    basicconstraintpathlength: length.length,
                    ..v.properties
                },
                ..v
            }
        }
    }

    fn on_ca_certificate(&mut self, values: &Vec<Vec<u8>>, ctx: &Context)
        requires
            values@.len() > 0,
        ensures
            final(self)@ == Self::spec_on_ca_certificate(
                old(self)@,
                blobs(values@),
                ctx@,
            ),
    {
        assert(blobs(values@)[0] == values@[0]@);
        let thumbprint = calculate_sha1(values[0].as_slice());
        let mut chain: Vec<String> = Vec::new();
        chain.push(thumbprint.clone());
        assert(texts(chain@) =~= seq![thumbprint@]);
        self.properties.certname = thumbprint.clone();
        self.properties.certthumbprint = thumbprint;
        self.properties.certchain = chain;
        let length = certificate_path_length(
            values[0].as_slice(),
            PathLength {
                constrained: self.properties.hasbasicconstraints,
                length: self.properties.basicconstraintpathlength,
            },
        );
        self.properties.hasbasicconstraints = length.constrained;
        self.properties.basicconstraintpathlength = length.length;
    }
}

impl AttributeSink for RootCA {
    /// What one text attribute does to a root certificate authority. An attribute without values
    /// or one that the type does not know changes nothing.
    open spec fn text_attr(
        v: RootCAView,
        key: Seq<char>,
        values: Seq<Seq<char>>,
        ctx: ContextView,
    ) -> RootCAView {
        if values.len() == 0 {
            v
        } else if key == "name"@ {
            Self::spec_on_name(v, values, ctx)
        } else if key == "description"@ {
            Self::spec_on_description(v, values, ctx)
        } else if key == "whenCreated"@ {
            Self::spec_on_when_created(v, values, ctx)
        } else if key == "IsDeleted"@ {
            Self::spec_on_is_deleted(v, values, ctx)
        } else {
            v
        }
    }

    /// What one binary attribute does to a root certificate authority.
    open spec fn bin_attr(
        v: RootCAView,
        key: Seq<char>,
        values: Seq<Seq<u8>>,
        ctx: ContextView,
    ) -> RootCAView {
        if values.len() == 0 {
            v
        } else if key == "objectGUID"@ {
            Self::spec_on_object_guid(v, values, ctx)
        } else if key == "nTSecurityDescriptor"@ {
            Self::spec_on_nt_security_descriptor(v, values, ctx)
        } else if key == "cACertificate"@ {
            Self::spec_on_ca_certificate(v, values, ctx)
        } else {
            v
        }
    }

    fn apply_text(&mut self, key: &str, values: &Vec<String>, ctx: &Context) {
        if values.len() == 0 {
            return ;
        }
        if str_eq(key, "name") {
            self.on_name(values, ctx);
        } else if str_eq(key, "description") {
            self.on_description(values, ctx);
        } else if str_eq(key, "whenCreated") {
            self.on_when_created(values, ctx);
        } else if str_eq(key, "IsDeleted") {
            self.on_is_deleted(values, ctx);
        }
    }

    fn apply_bin(&mut self, key: &str, values: &Vec<Vec<u8>>, ctx: &Context) {
        if values.len() == 0 {
            return ;
        }
        if str_eq(key, "objectGUID") {
            self.on_object_guid(values, ctx);
        } else if str_eq(key, "nTSecurityDescriptor") {
            self.on_nt_security_descriptor(values, ctx);
        } else if str_eq(key, "cACertificate") {
            self.on_ca_certificate(values, ctx);
        }
    }
}

impl RootCA {
    /// The authority before the attributes of its record are read: what
    /// the record's name and the collected domain say of it.
    pub open spec fn spec_begin(
        v: RootCAView,
        entry: EntryView,
        domain: Seq<char>,
        domain_sid: Seq<char>,
    ) -> RootCAView {
        RootCAView {
            properties: RootCAPropertiesView {
                domain: spec_to_uppercase(domain),
                distinguishedname: spec_to_uppercase(entry.dn),
                domainsid: domain_sid,
                ..v.properties
            },
            domain_sid: domain_sid,
            ..v
        }
    }

    /// The authority that a record describes.
    pub open spec fn spec_parse(
        v: RootCAView,
        entry: EntryView,
        domain: Seq<char>,
        domain_sid: Seq<char>,
    ) -> RootCAView {
        decoded::<RootCA>(
            Self::spec_begin(v, entry, domain, domain_sid),
            entry,
            ContextView { domain, domain_sid },
        )
    }

    /// Decodes the record of a root certificate authority and enters the authority in the index.
    pub fn parse(
        &mut self,
        result: &LdapSearchEntry,
        domain: &str,
        dn_sid: &mut StringMap,
        sid_type: &mut StringMap,
        domain_sid: &str,
    )
        ensures
            final(self)@ == Self::spec_parse(
                old(self)@,
                result@,
                domain@,
                domain_sid@,
            ),
            final(dn_sid)@ == registered_dn(
                old(dn_sid)@,
                final(self)@.properties.distinguishedname,
                final(self)@.common.object_identifier,
            ),
            final(sid_type)@ == registered_type(
                old(sid_type)@,
                final(self)@.common.object_identifier,
                ROOT_CA_TYPE@,
            ),
    {
        self.properties.domain = upper(domain);
        self.properties.distinguishedname = upper(result.dn.as_str());
        self.properties.domainsid = String::from_str(domain_sid);
        self.domain_sid = String::from_str(domain_sid);
        let ctx = Context::new(domain, domain_sid);
        decode_attrs(self, result, &ctx);
        register(
            dn_sid,
            sid_type,
            self.properties.distinguishedname.as_str(),
            self.common.object_identifier.as_str(),
            ROOT_CA_TYPE,
        );
    }
}
} // verus!
