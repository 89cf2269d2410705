//! Foreign security principals.

use crate::enums::sid::spec_decode_sid;
use crate::ldap::{blobs, EntryView, LdapSearchEntry};
use crate::mappings::StringMap;
use crate::objects::common::{bare_node, LdapObject, NodeCommon, NodeCommonView};
use crate::objects::decode::{
    decode_attrs, decoded, issuing_domain, qualified, register, registered_dn, registered_type,
    set_descriptor, set_sid, spec_qualified, with_descriptor, with_sid, AttributeSink, Context,
    ContextView,
};
use crate::text::{spec_to_uppercase, str_eq, texts, upper};
use vstd::prelude::*;
use vstd::string::*;

verus! {

/// The attributes of a foreign security principal.
#[derive(Debug)]
pub struct FspProperties {
    pub domain: String,
    pub name: String,
    pub distinguishedname: String,
    pub domainsid: String,
    pub highvalue: bool,
}

/// A `FspProperties` as plain values.
pub struct FspPropertiesView {
    pub domain: Seq<char>,
    pub name: Seq<char>,
    pub distinguishedname: Seq<char>,
    pub domainsid: Seq<char>,
    pub highvalue: bool,
}

impl View for FspProperties {
    type V = FspPropertiesView;

    open spec fn view(&self) -> FspPropertiesView {
        FspPropertiesView {
            domain: self.domain@,
            name: self.name@,
            distinguishedname: self.distinguishedname@,
            domainsid: self.domainsid@,
            highvalue: self.highvalue,
        }
    }
}

impl FspProperties {
    /// The attributes of a principal of which nothing is known yet.
    pub open spec fn spec_new() -> FspPropertiesView {
        FspPropertiesView {
            domain: Seq::empty(),
            name: Seq::empty(),
            distinguishedname: Seq::empty(),
            domainsid: Seq::empty(),
            highvalue: false,
        }
    }

    pub fn new() -> (r: Self)
        ensures
            r@ == Self::spec_new(),
    {
        let r = FspProperties {
            domain: String::new(),
            name: String::new(),
            distinguishedname: String::new(),
            domainsid: String::new(),
            highvalue: false,
        };
        r
    }
}
/// A principal of another domain that this domain refers to.
#[derive(Debug)]
pub struct Fsp {
    pub properties: FspProperties,
    pub common: NodeCommon,
}

/// A `Fsp` as plain values.
pub struct FspView {
    pub properties: FspPropertiesView,
    pub common: NodeCommonView,
}

impl View for Fsp {
    type V = FspView;

    open spec fn view(&self) -> FspView {
        FspView {
            properties: self.properties@,
            common: self.common@,
        }
    }
}

impl Fsp {
    /// A principal that no record has described yet.
    pub open spec fn spec_new() -> FspView {
        FspView {
            properties: FspProperties::spec_new(),
            common: bare_node(),
        }
    }

    pub fn new() -> (r: Self)
        ensures
            r@ == Self::spec_new(),
    {
        let r = Fsp {
            properties: FspProperties::new(),
            common: NodeCommon::new(),
        };
        r
    }
}

impl LdapObject for Fsp {
    type Rest = FspProperties;

    open spec fn rest(&self) -> Self::Rest {
        self.properties
    }

    open spec fn common_spec(&self) -> NodeCommon {
        self.common
    }

    fn common(&self) -> (r: &NodeCommon) {
        &self.common
    }

    fn common_mut(&mut self) -> (r: &mut NodeCommon) {
        &mut self.common
    }
}

/// The name of the type in the index.
pub const FSP_TYPE: &'static str = "Base";

impl Fsp {
    /// What the attribute `name` says of a foreign security principal.
    pub open spec fn spec_on_name(
        v: FspView,
        values: Seq<Seq<char>>,
        ctx: ContextView,
    ) -> FspView {
        FspView {
            properties: FspPropertiesView {
                name: spec_qualified(ctx.domain, "-"@, values[0]),
                ..v.properties
            },
            ..v
        }
    }

    fn on_name(&mut self, values: &Vec<String>, ctx: &Context)
        requires
            values@.len() > 0,
        ensures
            final(self)@ == Self::spec_on_name(
                old(self)@,
                texts(values@),
                ctx@,
            ),
    {
        let first = values[0].as_str();
        assert(texts(values@)[0] == values@[0]@);
        self.properties.name = qualified(ctx.domain.as_str(), "-", first);
    }

    /// What the attribute `IsDeleted` says of a foreign security principal.
    pub open spec fn spec_on_is_deleted(
        v: FspView,
        values: Seq<Seq<char>>,
        ctx: ContextView,
    ) -> FspView {
        FspView {
            common: NodeCommonView {
                is_deleted: true,
                ..v.common
            },
            ..v
        }
    }

    fn on_is_deleted(&mut self, values: &Vec<String>, ctx: &Context)
        requires
            values@.len() > 0,
        ensures
            final(self)@ == Self::spec_on_is_deleted(
                old(self)@,
                texts(values@),
                ctx@,
            ),
    {
        self.common.is_deleted = true;
    }

    /// What the attribute `objectSid` says of a foreign security principal.
    pub open spec fn spec_on_object_sid(
        v: FspView,
        values: Seq<Seq<u8>>,
        ctx: ContextView,
    ) -> FspView {
        FspView {
            common: with_sid(v.common, values[0], ctx.domain),
            properties: FspPropertiesView {
                domainsid: issuing_domain(
                    spec_decode_sid(values[0], ctx.domain),
                    v.properties.domainsid,
                ),
                ..v.properties
            },
            ..v
        }
    }

    fn on_object_sid(&mut self, values: &Vec<Vec<u8>>, ctx: &Context)
        requires
            values@.len() > 0,
        ensures
            final(self)@ == Self::spec_on_object_sid(
                old(self)@,
                blobs(values@),
                ctx@,
            ),
    {
        assert(blobs(values@)[0] == values@[0]@);
        match set_sid(&mut self.common, &values[0], ctx.domain.as_str()) {
            Some(issuer) => {
                self.properties.domainsid = issuer;
            },
            None => {},
        }
    }

    /// What the attribute `nTSecurityDescriptor` says of a foreign security principal.
    pub open spec fn spec_on_nt_security_descriptor(
        v: FspView,
        values: Seq<Seq<u8>>,
        ctx: ContextView,
    ) -> FspView {
        FspView {
            common: with_descriptor(v.common, values[0], FSP_TYPE@, ctx.domain),
            ..v
        }
    }

    fn on_nt_security_descriptor(&mut self, values: &Vec<Vec<u8>>, ctx: &Context)
        requires
            values@.len() > 0,
        ensures
            final(self)@ == Self::spec_on_nt_security_descriptor(
                old(self)@,
                blobs(values@),
                ctx@,
            ),
    {
        assert(blobs(values@)[0] == values@[0]@);
        set_descriptor(&mut self.common, &values[0], FSP_TYPE, ctx.domain.as_str());
    }
}

impl AttributeSink for Fsp {
    /// What one text attribute does to a foreign security principal. An attribute without values
    /// or one that the type does not know changes nothing.
    open spec fn text_attr(
        v: FspView,
        key: Seq<char>,
        values: Seq<Seq<char>>,
        ctx: ContextView,
    ) -> FspView {
        if values.len() == 0 {
            v
        } else if key == "name"@ {
            Self::spec_on_name(v, values, ctx)
        } else if key == "IsDeleted"@ {
            Self::spec_on_is_deleted(v, values, ctx)
        } else {
            v
        }
    }

    /// What one binary attribute does to a foreign security principal.
    open spec fn bin_attr(
        v: FspView,
        key: Seq<char>,
        values: Seq<Seq<u8>>,
        ctx: ContextView,
    ) -> FspView {
        if values.len() == 0 {
            v
        } else if key == "objectSid"@ {
            Self::spec_on_object_sid(v, values, ctx)
        } else if key == "nTSecurityDescriptor"@ {
            Self::spec_on_nt_security_descriptor(v, values, ctx)
        } else {
            v
        }
    }

    fn apply_text(&mut self, key: &str, values: &Vec<String>, ctx: &Context) {
        if values.len() == 0 {
            return ;
        }
        if str_eq(key, "name") {
            self.on_name(values, ctx);
        } else if str_eq(key, "IsDeleted") {
            self.on_is_deleted(values, ctx);
        }
    }

    fn apply_bin(&mut self, key: &str, values: &Vec<Vec<u8>>, ctx: &Context) {
        if values.len() == 0 {
            return ;
        }
        if str_eq(key, "objectSid") {
            self.on_object_sid(values, ctx);
        } else if str_eq(key, "nTSecurityDescriptor") {
            self.on_nt_security_descriptor(values, ctx);
        }
    }
}

impl Fsp {
    /// The principal before the attributes of its record are read: what
    /// the record's name and the collected domain say of it.
    pub open spec fn spec_begin(
        v: FspView,
        entry: EntryView,
        domain: Seq<char>,
        domain_sid: Seq<char>,
    ) -> FspView {
        FspView {
            properties: FspPropertiesView {
                domain: spec_to_uppercase(domain),
                distinguishedname: spec_to_uppercase(entry.dn),
                domainsid: domain_sid,
                ..v.properties
            },
            ..v
        }
    }

    /// The principal that a record describes.
    pub open spec fn spec_parse(
        v: FspView,
        entry: EntryView,
        domain: Seq<char>,
        domain_sid: Seq<char>,
    ) -> FspView {
        decoded::<Fsp>(
            Self::spec_begin(v, entry, domain, domain_sid),
            entry,
            ContextView { domain, domain_sid },
        )
    }

    /// Decodes the record of a foreign security principal and enters the principal in the index.
    pub fn parse(
        &mut self,
        result: &LdapSearchEntry,
        domain: &str,
        dn_sid: &mut StringMap,
        sid_type: &mut StringMap,
        domain_sid: &str,
    )
        ensures
            final(self)@ == Self::spec_parse(
                old(self)@,
                result@,
                domain@,
                domain_sid@,
            ),
            final(dn_sid)@ == registered_dn(
                old(dn_sid)@,
                final(self)@.properties.distinguishedname,
                final(self)@.common.object_identifier,
            ),
            final(sid_type)@ == registered_type(
                old(sid_type)@,
                final(self)@.common.object_identifier,
                FSP_TYPE@,
            ),
    {
        self.properties.domain = upper(domain);
        self.properties.distinguishedname = upper(result.dn.as_str());
        self.properties.domainsid = String::from_str(domain_sid);
        let ctx = Context::new(domain, domain_sid);
        decode_attrs(self, result, &ctx);
        register(
            dn_sid,
            sid_type,
            self.properties.distinguishedname.as_str(),
            self.common.object_identifier.as_str(),
            FSP_TYPE,
        );
    }
}
} // verus!
