//! Certificate authorities published for chain building.

use crate::enums::acl::spec_is_protected;
use crate::ldap::{blobs, EntryView, LdapSearchEntry};
use crate::mappings::StringMap;
use crate::objects::common::{bare_node, LdapObject, NodeCommon, NodeCommonView};
use crate::objects::decode::{
    created, decode_attrs, decoded, qualified, register, registered_dn, registered_type,
    set_descriptor, set_guid, spec_created, spec_guid_identifier, spec_qualified, with_descriptor,
    AttributeSink, Context, ContextView,
};
use crate::text::{opt_text, spec_to_uppercase, str_eq, texts, upper};
use crate::utils::crypto::{
    calculate_sha1, certificate_path_length, spec_certificate_path_length, spec_sha1, PathLength,
};
use crate::utils::format::hex_padded;
use vstd::prelude::*;
use vstd::string::*;

verus! {

/// The attributes of a published authority.
#[derive(Debug)]
pub struct AIACAProperties {
    pub domain: String,
    pub name: String,
    pub distinguishedname: String,
    pub domainsid: String,
    pub isaclprotected: bool,
    pub description: Option<String>,
    pub whencreated: i64,
    pub crosscertificatepair: Vec<String>,
    pub hascrosscertificatepair: bool,
    pub certthumbprint: String,
    pub certname: String,
    pub certchain: Vec<String>,
    pub hasbasicconstraints: bool,
    pub basicconstraintpathlength: u32,
}

/// A `AIACAProperties` as plain values.
pub struct AIACAPropertiesView {
    pub domain: Seq<char>,
    pub name: Seq<char>,
    pub distinguishedname: Seq<char>,
    pub domainsid: Seq<char>,
    pub isaclprotected: bool,
    pub description: Option<Seq<char>>,
    pub whencreated: i64,
    pub crosscertificatepair: Seq<Seq<char>>,
    pub hascrosscertificatepair: bool,
    pub certthumbprint: Seq<char>,
    pub certname: Seq<char>,
    pub certchain: Seq<Seq<char>>,
    pub hasbasicconstraints: bool,
    pub basicconstraintpathlength: u32,
}

impl View for AIACAProperties {
    type V = AIACAPropertiesView;

    open spec fn view(&self) -> AIACAPropertiesView {
        AIACAPropertiesView {
            domain: self.domain@,
            name: self.name@,
            distinguishedname: self.distinguishedname@,
            domainsid: self.domainsid@,
            isaclprotected: self.isaclprotected,
            description: opt_text(self.description),
            whencreated: self.whencreated,
            crosscertificatepair: texts(self.crosscertificatepair@),
            hascrosscertificatepair: self.hascrosscertificatepair,
            certthumbprint: self.certthumbprint@,
            certname: self.certname@,
            certchain: texts(self.certchain@),
            hasbasicconstraints: self.hasbasicconstraints,
            basicconstraintpathlength: self.basicconstraintpathlength,
        }
    }
}

impl AIACAProperties {
    /// The attributes of an authority of which nothing is known yet.
    pub open spec fn spec_new() -> AIACAPropertiesView {
        AIACAPropertiesView {
            domain: Seq::empty(),
            name: Seq::empty(),
            distinguishedname: Seq::empty(),
            domainsid: Seq::empty(),
            isaclprotected: false,
            description: None,
            whencreated: -1i64,
            crosscertificatepair: Seq::empty(),
            hascrosscertificatepair: false,
            certthumbprint: Seq::empty(),
            certname: Seq::empty(),
            certchain: Seq::empty(),
            hasbasicconstraints: false,
            basicconstraintpathlength: 0u32,
        }
    }

    pub fn new() -> (r: Self)
        ensures
            r@ == Self::spec_new(),
    {
        let r = AIACAProperties {
            domain: String::new(),
            name: String::new(),
            distinguishedname: String::new(),
            domainsid: String::new(),
            isaclprotected: false,
            description: None,
            whencreated: -1,
            crosscertificatepair: Vec::new(),
            hascrosscertificatepair: false,
            certthumbprint: String::new(),
            certname: String::new(),
            certchain: Vec::new(),
            hasbasicconstraints: false,
            basicconstraintpathlength: 0,
        };
        assert(r@.crosscertificatepair =~= Seq::empty());
        assert(r@.certchain =~= Seq::empty());
        r
    }
}
/// A certificate authority published for chain building.
#[derive(Debug)]
pub struct AIACA {
    pub properties: AIACAProperties,
    pub domain_sid: String,
    pub common: NodeCommon,
}

/// A `AIACA` as plain values.
pub struct AIACAView {
    pub properties: AIACAPropertiesView,
    pub domain_sid: Seq<char>,
    pub common: NodeCommonView,
}

impl View for AIACA {
    type V = AIACAView;

    open spec fn view(&self) -> AIACAView {
        AIACAView {
            properties: self.properties@,
            domain_sid: self.domain_sid@,
            common: self.common@,
        }
    }
}

impl AIACA {
    /// An authority that no record has described yet.
    pub open spec fn spec_new() -> AIACAView {
        AIACAView {
            properties: AIACAProperties::spec_new(),
            domain_sid: Seq::empty(),
            common: bare_node(),
        }
    }

    pub fn new() -> (r: Self)
        ensures
            r@ == Self::spec_new(),
    {
        let r = AIACA {
            properties: AIACAProperties::new(),
            domain_sid: String::new(),
            common: NodeCommon::new(),
        };
        r
    }
}

impl LdapObject for AIACA {
    type Rest = (AIACAProperties, String);

    open spec fn rest(&self) -> Self::Rest {
        (self.properties, self.domain_sid)
    }

    open spec fn common_spec(&self) -> NodeCommon {
        self.common
    }

    fn common(&self) -> (r: &NodeCommon) {
        &self.common
    }

    fn common_mut(&mut self) -> (r: &mut NodeCommon) {
        &mut self.common
    }
}

/// The name of the type in the index.
pub const AIACA_TYPE: &'static str = "AIACA";

impl AIACA {
    /// What the attribute `name` says of a certificate authority published for chain building.
    pub open spec fn spec_on_name(
        v: AIACAView,
        values: Seq<Seq<char>>,
        ctx: ContextView,
    ) -> AIACAView {
        AIACAView {
            properties: AIACAPropertiesView {
                name: spec_qualified(values[0], "@"@, ctx.domain),
                ..v.properties
            },
            ..v
        }
    }

    fn on_name(&mut self, values: &Vec<String>, ctx: &Context)
        requires
            values@.len() > 0,
        ensures
            final(self)@ == Self::spec_on_name(
                old(self)@,
                texts(values@),
                ctx@,
            ),
    {
        let first = values[0].as_str();
        assert(texts(values@)[0] == values@[0]@);
        self.properties.name = qualified(first, "@", ctx.domain.as_str());
    }

    /// What the attribute `description` says of a certificate authority
    /// published for chain building.
    pub open spec fn spec_on_description(
        v: AIACAView,
        values: Seq<Seq<char>>,
        ctx: ContextView,
    ) -> AIACAView {
        AIACAView {
            properties: AIACAPropertiesView {
                description: Some(values[0]),
                ..v.properties
            },
            ..v
        }
    }

    fn on_description(&mut self, values: &Vec<String>, ctx: &Context)
        requires
            values@.len() > 0,
        ensures
            final(self)@ == Self::spec_on_description(
                old(self)@,
                texts(values@),
                ctx@,
            ),
    {
        assert(texts(values@)[0] == values@[0]@);
        self.properties.description = Some(values[0].clone());
    }

    /// What the attribute `whenCreated` says of a certificate authority
    /// published for chain building.
    pub open spec fn spec_on_when_created(
        v: AIACAView,
        values: Seq<Seq<char>>,
        ctx: ContextView,
    ) -> AIACAView {
        AIACAView {
            properties: AIACAPropertiesView {
                whencreated: spec_created(values[0], v.properties.whencreated),
                ..v.properties
            },
            ..v
        }
    }

    fn on_when_created(&mut self, values: &Vec<String>, ctx: &Context)
        requires
            values@.len() > 0,
        ensures
            final(self)@ == Self::spec_on_when_created(
                old(self)@,
                texts(values@),
                ctx@,
            ),
    {
        let first = values[0].as_str();
        assert(texts(values@)[0] == values@[0]@);
        self.properties.whencreated = created(first, self.properties.whencreated);
    }

    /// What the attribute `IsDeleted` says of a certificate authority published for chain building.
    pub open spec fn spec_on_is_deleted(
        v: AIACAView,
        values: Seq<Seq<char>>,
        ctx: ContextView,
    ) -> AIACAView {
        AIACAView {
            common: NodeCommonView {
                is_deleted: true,
                ..v.common
            },
            ..v
        }
    }

    fn on_is_deleted(&mut self, values: &Vec<String>, ctx: &Context)
        requires
            values@.len() > 0,
        ensures
            final(self)@ == Self::spec_on_is_deleted(
                old(self)@,
                texts(values@),
                ctx@,
            ),
    {
        self.common.is_deleted = true;
    }

    /// What the attribute `crossCertificatePair` says of a certificate
    /// authority published for chain building.
    pub open spec fn spec_on_cross_certificate_pair(
        v: AIACAView,
        values: Seq<Seq<char>>,
        ctx: ContextView,
    ) -> AIACAView {
        AIACAView {
            properties: AIACAPropertiesView {
                hascrosscertificatepair: true,
                ..v.properties
            },
            ..v
        }
    }

    fn on_cross_certificate_pair(&mut self, values: &Vec<String>, ctx: &Context)
        requires
            values@.len() > 0,
        ensures
            final(self)@ == Self::spec_on_cross_certificate_pair(
                old(self)@,
                texts(values@),
                ctx@,
            ),
    {
        self.properties.hascrosscertificatepair = true;
    }

    /// What the attribute `objectGUID` says of a certificate authority
    /// published for chain building.
    pub open spec fn spec_on_object_guid(
        v: AIACAView,
        values: Seq<Seq<u8>>,
        ctx: ContextView,
    ) -> AIACAView {
        AIACAView {
            common: NodeCommonView {
                object_identifier: spec_guid_identifier(values[0], v.common.object_identifier),
                ..v.common
            },
            ..v
        }
    }

    fn on_object_guid(&mut self, values: &Vec<Vec<u8>>, ctx: &Context)
        requires
            values@.len() > 0,
        ensures
            final(self)@ == Self::spec_on_object_guid(
                old(self)@,
                blobs(values@),
                ctx@,
            ),
    {
        assert(blobs(values@)[0] == values@[0]@);
        set_guid(&mut self.common, &values[0]);
    }

    /// What the attribute `nTSecurityDescriptor` says of a certificate
    /// authority published for chain building.
    pub open spec fn spec_on_nt_security_descriptor(
        v: AIACAView,
        values: Seq<Seq<u8>>,
        ctx: ContextView,
    ) -> AIACAView {
        AIACAView {
            common: with_descriptor(v.common, values[0], AIACA_TYPE@, ctx.domain),
            properties: AIACAPropertiesView {
                isaclprotected: spec_is_protected(values[0]),
                ..v.properties
            },
            ..v
        }
    }

    fn on_nt_security_descriptor(&mut self, values: &Vec<Vec<u8>>, ctx: &Context)
        requires
            values@.len() > 0,
        ensures
            final(self)@ == Self::spec_on_nt_security_descriptor(
                old(self)@,
                blobs(values@),
                ctx@,
            ),
    {
        assert(blobs(values@)[0] == values@[0]@);
        set_descriptor(&mut self.common, &values[0], AIACA_TYPE, ctx.domain.as_str());
        self.properties.isaclprotected = self.common.is_acl_protected;
    }

    /// What the attribute `cACertificate` says of a certificate authority
    /// published for chain building.
    pub open spec fn spec_on_ca_certificate(
        v: AIACAView,
        values: Seq<Seq<u8>>,
        ctx: ContextView,
    ) -> AIACAView {
        {
            let thumbprint = hex_padded(spec_sha1(values[0]));
            let length = spec_certificate_path_length(
                values[0],
                PathLength {
                    constrained: v.properties.hasbasicconstraints,
                    length: v.properties.basicconstraintpathlength,
                },
            );
            AIACAView {
                properties: AIACAPropertiesView {
                    certthumbprint: thumbprint,
                    certname: thumbprint,
                    certchain: seq![thumbprint],
                    hasbasicconstraints: length.constrained,
                    basicconstraintpathlength: length.length,
                    ..v.properties
                },
                ..v
            }
        }
    }

    fn on_ca_certificate(&mut self, values: &Vec<Vec<u8>>, ctx: &Context)
        requires
            values@.len() > 0,
        ensures
            final(self)@ == Self::spec_on_ca_certificate(
                old(self)@,
                blobs(values@),
                ctx@,
            ),
    {
        assert(blobs(values@)[0] == values@[0]@);
        let thumbprint = calculate_sha1(values[0].as_slice());
        let mut chain: Vec<String> = Vec::new();
        chain.push(thumbprint.clone());
        assert(texts(chain@) =~= seq![thumbprint@]);
        self.properties.certname = thumbprint.clone();
        self.properties.certthumbprint = thumbprint;
        self.properties.certchain = chain;
        let length = certificate_path_length(
            values[0].as_slice(),
            PathLength {
                constrained: self.properties.hasbasicconstraints,
                length: self.properties.basicconstraintpathlength,
            },
        );
        self.properties.hasbasicconstraints = length.constrained;
        self.properties.basicconstraintpathlength = length.length;
    }
}

impl AttributeSink for AIACA {
    /// What one text attribute does to a certificate authority published for
    /// chain building. An attribute without values
    /// or one that the type does not know changes nothing.
    open spec fn text_attr(
        v: AIACAView,
        key: Seq<char>,
        values: Seq<Seq<char>>,
        ctx: ContextView,
    ) -> AIACAView {
        if values.len() == 0 {
            v
        } else if key == "name"@ {
            Self::spec_on_name(v, values, ctx)
        } else if key == "description"@ {
            Self::spec_on_description(v, values, ctx)
        } else if key == "whenCreated"@ {
            Self::spec_on_when_created(v, values, ctx)
        } else if key == "IsDeleted"@ {
            Self::spec_on_is_deleted(v, values, ctx)
        } else if key == "crossCertificatePair"@ {
            Self::spec_on_cross_certificate_pair(v, values, ctx)
        } else {
            v
        }
    }

    /// What one binary attribute does to a certificate authority published for chain building.
    open spec fn bin_attr(
        v: AIACAView,
        key: Seq<char>,
        values: Seq<Seq<u8>>,
        ctx: ContextView,
    ) -> AIACAView {
        if values.len() == 0 {
            v
        } else if key == "objectGUID"@ {
            Self::spec_on_object_guid(v, values, ctx)
        } else if key == "nTSecurityDescriptor"@ {
            Self::spec_on_nt_security_descriptor(v, values, ctx)
        } else if key == "cACertificate"@ {
            Self::spec_on_ca_certificate(v, values, ctx)
        } else {
            v
        }
    }

    fn apply_text(&mut self, key: &str, values: &Vec<String>, ctx: &Context) {
        if values.len() == 0 {
            return ;
        }
        if str_eq(key, "name") {
            self.on_name(values, ctx);
        } else if str_eq(key, "description") {
            self.on_description(values, ctx);
        } else if str_eq(key, "whenCreated") {
            self.on_when_created(values, ctx);
        } else if str_eq(key, "IsDeleted") {
            self.on_is_deleted(values, ctx);
        } else if str_eq(key, "crossCertificatePair") {
            self.on_cross_certificate_pair(values, ctx);
        }
    }

    fn apply_bin(&mut self, key: &str, values: &Vec<Vec<u8>>, ctx: &Context) {
        if values.len() == 0 {
            return ;
        }
        if str_eq(key, "objectGUID") {
            self.on_object_guid(values, ctx);
        } else if str_eq(key, "nTSecurityDescriptor") {
            self.on_nt_security_descriptor(values, ctx);
        } else if str_eq(key, "cACertificate") {
            self.on_ca_certificate(values, ctx);
        }
    }
}

impl AIACA {
    /// The authority before the attributes of its record are read: what
    /// the record's name and the collected domain say of it.
    pub open spec fn spec_begin(
        v: AIACAView,
        entry: EntryView,
        domain: Seq<char>,
        domain_sid: Seq<char>,
    ) -> AIACAView {
        AIACAView {
            properties: AIACAPropertiesView {
                domain: spec_to_uppercase(domain),
                distinguishedname: spec_to_uppercase(entry.dn),
                domainsid: domain_sid,
                ..v.properties
            },
            domain_sid: domain_sid,
            ..v
        }
    }

    /// The authority that a record describes.
    pub open spec fn spec_parse(
        v: AIACAView,
        entry: EntryView,
        domain: Seq<char>,
        domain_sid: Seq<char>,
    ) -> AIACAView {
        decoded::<AIACA>(
            Self::spec_begin(v, entry, domain, domain_sid),
            entry,
            ContextView { domain, domain_sid },
        )
    }

    /// Decodes the record of a certificate authority published for chain
    /// building and enters the authority in the index.
    pub fn parse(
        &mut self,
        result: &LdapSearchEntry,
        domain: &str,
        dn_sid: &mut StringMap,
        sid_type: &mut StringMap,
        domain_sid: &str,
    )
        ensures
            final(self)@ == Self::spec_parse(
                old(self)@,
                result@,
                domain@,
                domain_sid@,
            ),
            final(dn_sid)@ == registered_dn(
                old(dn_sid)@,
                final(self)@.properties.distinguishedname,
                final(self)@.common.object_identifier,
            ),
            final(sid_type)@ == registered_type(
                old(sid_type)@,
                final(self)@.common.object_identifier,
                AIACA_TYPE@,
            ),
    {
        self.properties.domain = upper(domain);
        self.properties.distinguishedname = upper(result.dn.as_str());
        self.properties.domainsid = String::from_str(domain_sid);
        self.domain_sid = String::from_str(domain_sid);
        let ctx = Context::new(domain, domain_sid);
        decode_attrs(self, result, &ctx);
        register(
            dn_sid,
            sid_type,
            self.properties.distinguishedname.as_str(),
            self.common.object_identifier.as_str(),
            AIACA_TYPE,
        );
    }
}
} // verus!
