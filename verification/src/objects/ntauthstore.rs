//! The store of certificates trusted for authentication.

use crate::enums::acl::spec_is_protected;
use crate::ldap::{blobs, EntryView, LdapSearchEntry};
use crate::mappings::StringMap;
use crate::objects::common::{bare_node, LdapObject, NodeCommon, NodeCommonView};
use crate::objects::decode::{
    created, decode_attrs, decoded, qualified, register, registered_dn, registered_type,
    set_descriptor, set_guid, spec_created, spec_guid_identifier, spec_qualified, with_descriptor,
    AttributeSink, Context, ContextView,
};
use crate::text::{opt_text, spec_to_uppercase, str_eq, texts, upper};
use crate::utils::crypto::{calculate_sha1, spec_sha1};
use crate::utils::format::hex_padded;
use vstd::prelude::*;
use vstd::string::*;

verus! {

/// The attributes of the store.
#[derive(Debug)]
pub struct NtAuthStoreProperties {
    pub domain: String,
    pub name: String,
    pub distinguishedname: String,
    pub domainsid: String,
    pub isaclprotected: bool,
    pub certthumbprints: Vec<String>,
    pub description: Option<String>,
    pub whencreated: i64,
}

/// A `NtAuthStoreProperties` as plain values.
pub struct NtAuthStorePropertiesView {
    pub domain: Seq<char>,
    pub name: Seq<char>,
    pub distinguishedname: Seq<char>,
    pub domainsid: Seq<char>,
    pub isaclprotected: bool,
    pub certthumbprints: Seq<Seq<char>>,
    pub description: Option<Seq<char>>,
    pub whencreated: i64,
}

impl View for NtAuthStoreProperties {
    type V = NtAuthStorePropertiesView;

    open spec fn view(&self) -> NtAuthStorePropertiesView {
        NtAuthStorePropertiesView {
            domain: self.domain@,
            name: self.name@,
            distinguishedname: self.distinguishedname@,
            domainsid: self.domainsid@,
            isaclprotected: self.isaclprotected,
            certthumbprints: texts(self.certthumbprints@),
            description: opt_text(self.description),
            whencreated: self.whencreated,
        }
    }
}

impl NtAuthStoreProperties {
    /// The attributes of a store of which nothing is known yet.
    pub open spec fn spec_new() -> NtAuthStorePropertiesView {
        NtAuthStorePropertiesView {
            domain: Seq::empty(),
            name: Seq::empty(),
            distinguishedname: Seq::empty(),
            domainsid: Seq::empty(),
            isaclprotected: false,
            certthumbprints: Seq::empty(),
            description: None,
            whencreated: 0i64,
        }
    }

    pub fn new() -> (r: Self)
        ensures
            r@ == Self::spec_new(),
    {
        let r = NtAuthStoreProperties {
            domain: String::new(),
            name: String::new(),
            distinguishedname: String::new(),
            domainsid: String::new(),
            isaclprotected: false,
            certthumbprints: Vec::new(),
            description: None,
            whencreated: 0,
        };
        assert(r@.certthumbprints =~= Seq::empty());
        r
    }
}
/// The store of certificates trusted for authentication.
#[derive(Debug)]
pub struct NtAuthStore {
    pub properties: NtAuthStoreProperties,
    pub domain_sid: String,
    pub common: NodeCommon,
}

/// A `NtAuthStore` as plain values.
pub struct NtAuthStoreView {
    pub properties: NtAuthStorePropertiesView,
    pub domain_sid: Seq<char>,
    pub common: NodeCommonView,
}

impl View for NtAuthStore {
    type V = NtAuthStoreView;

    open spec fn view(&self) -> NtAuthStoreView {
        NtAuthStoreView {
            properties: self.properties@,
            domain_sid: self.domain_sid@,
            common: self.common@,
        }
    }
}

impl NtAuthStore {
    /// A store that no record has described yet.
    pub open spec fn spec_new() -> NtAuthStoreView {
        NtAuthStoreView {
            properties: NtAuthStoreProperties::spec_new(),
            domain_sid: Seq::empty(),
            common: bare_node(),
        }
    }

    pub fn new() -> (r: Self)
        ensures
            r@ == Self::spec_new(),
    {
        let r = NtAuthStore {
            properties: NtAuthStoreProperties::new(),
            domain_sid: String::new(),
            common: NodeCommon::new(),
        };
        r
    }
}

impl LdapObject for NtAuthStore {
    type Rest = (NtAuthStoreProperties, String);

    open spec fn rest(&self) -> Self::Rest {
        (self.properties, self.domain_sid)
    }

    open spec fn common_spec(&self) -> NodeCommon {
        self.common
    }

    fn common(&self) -> (r: &NodeCommon) {
        &self.common
    }

    fn common_mut(&mut self) -> (r: &mut NodeCommon) {
        &mut self.common
    }
}

/// The name of the type in the index.
pub const NT_AUTH_STORE_TYPE: &'static str = "NtAuthStore";

impl NtAuthStore {
    /// What the attribute `name` says of the store of certificates trusted for authentication.
    pub open spec fn spec_on_name(
        v: NtAuthStoreView,
        values: Seq<Seq<char>>,
        ctx: ContextView,
    ) -> NtAuthStoreView {
        NtAuthStoreView {
            properties: NtAuthStorePropertiesView {
                name: spec_qualified(values[0], "@"@, ctx.domain),
                ..v.properties
            },
            ..v
        }
    }

    fn on_name(&mut self, values: &Vec<String>, ctx: &Context)
        requires
            values@.len() > 0,
        ensures
            final(self)@ == Self::spec_on_name(
                old(self)@,
                texts(values@),
                ctx@,
            ),
    {
        let first = values[0].as_str();
        assert(texts(values@)[0] == values@[0]@);
        self.properties.name = qualified(first, "@", ctx.domain.as_str());
    }

    /// What the attribute `description` says of the store of certificates
    /// trusted for authentication.
    pub open spec fn spec_on_description(
        v: NtAuthStoreView,
        values: Seq<Seq<char>>,
        ctx: ContextView,
    ) -> NtAuthStoreView {
        NtAuthStoreView {
            properties: NtAuthStorePropertiesView {
                description: Some(values[0]),
                ..v.properties
            },
            ..v
        }
    }

    fn on_description(&mut self, values: &Vec<String>, ctx: &Context)
        requires
            values@.len() > 0,
        ensures
            final(self)@ == Self::spec_on_description(
                old(self)@,
                texts(values@),
                ctx@,
            ),
    {
        assert(texts(values@)[0] == values@[0]@);
        self.properties.description = Some(values[0].clone());
    }

    /// What the attribute `whenCreated` says of the store of certificates
    /// trusted for authentication.
    pub open spec fn spec_on_when_created(
        v: NtAuthStoreView,
        values: Seq<Seq<char>>,
        ctx: ContextView,
    ) -> NtAuthStoreView {
        NtAuthStoreView {
            properties: NtAuthStorePropertiesView {
                whencreated: spec_created(values[0], v.properties.whencreated),
                ..v.properties
            },
            ..v
        }
    }

    fn on_when_created(&mut self, values: &Vec<String>, ctx: &Context)
        requires
            values@.len() > 0,
        ensures
            final(self)@ == Self::spec_on_when_created(
                old(self)@,
                texts(values@),
                ctx@,
            ),
    {
        let first = values[0].as_str();
        assert(texts(values@)[0] == values@[0]@);
        self.properties.whencreated = created(first, self.properties.whencreated);
    }

    /// What the attribute `IsDeleted` says of the store of certificates trusted for authentication.
    pub open spec fn spec_on_is_deleted(
        v: NtAuthStoreView,
        values: Seq<Seq<char>>,
        ctx: ContextView,
    ) -> NtAuthStoreView {
        NtAuthStoreView {
            common: NodeCommonView {
                is_deleted: true,
                ..v.common
            },
            ..v
        }
    }

    fn on_is_deleted(&mut self, values: &Vec<String>, ctx: &Context)
        requires
            values@.len() > 0,
        ensures
            final(self)@ == Self::spec_on_is_deleted(
                old(self)@,
                texts(values@),
                ctx@,
            ),
    {
        self.common.is_deleted = true;
    }

    /// What the attribute `objectGUID` says of the store of certificates
    /// trusted for authentication.
    pub open spec fn spec_on_object_guid(
        v: NtAuthStoreView,
        values: Seq<Seq<u8>>,
        ctx: ContextView,
    ) -> NtAuthStoreView {
        NtAuthStoreView {
            common: NodeCommonView {
                object_identifier: spec_guid_identifier(values[0], v.common.object_identifier),
                ..v.common
            },
            ..v
        }
    }

    fn on_object_guid(&mut self, values: &Vec<Vec<u8>>, ctx: &Context)
        requires
            values@.len() > 0,
        ensures
            final(self)@ == Self::spec_on_object_guid(
                old(self)@,
                blobs(values@),
                ctx@,
            ),
    {
        assert(blobs(values@)[0] == values@[0]@);
        set_guid(&mut self.common, &values[0]);
    }

    /// What the attribute `nTSecurityDescriptor` says of the store of
    /// certificates trusted for authentication.
    pub open spec fn spec_on_nt_security_descriptor(
        v: NtAuthStoreView,
        values: Seq<Seq<u8>>,
        ctx: ContextView,
    ) -> NtAuthStoreView {
        NtAuthStoreView {
            common: with_descriptor(v.common, values[0], NT_AUTH_STORE_TYPE@, ctx.domain),
            properties: NtAuthStorePropertiesView {
                isaclprotected: spec_is_protected(values[0]),
                ..v.properties
            },
            ..v
        }
    }

    fn on_nt_security_descriptor(&mut self, values: &Vec<Vec<u8>>, ctx: &Context)
        requires
            values@.len() > 0,
        ensures
            final(self)@ == Self::spec_on_nt_security_descriptor(
                old(self)@,
                blobs(values@),
                ctx@,
            ),
    {
        assert(blobs(values@)[0] == values@[0]@);
        set_descriptor(&mut self.common, &values[0], NT_AUTH_STORE_TYPE, ctx.domain.as_str());
        self.properties.isaclprotected = self.common.is_acl_protected;
    }

    /// What the attribute `cACertificate` says of the store of certificates
    /// trusted for authentication.
    pub open spec fn spec_on_ca_certificate(
        v: NtAuthStoreView,
        values: Seq<Seq<u8>>,
        ctx: ContextView,
    ) -> NtAuthStoreView {
        NtAuthStoreView {
            properties: NtAuthStorePropertiesView {
                certthumbprints: seq![hex_padded(spec_sha1(values[0]))],
                ..v.properties
            },
            ..v
        }
    }

    fn on_ca_certificate(&mut self, values: &Vec<Vec<u8>>, ctx: &Context)
        requires
            values@.len() > 0,
        ensures
            final(self)@ == Self::spec_on_ca_certificate(
                old(self)@,
                blobs(values@),
                ctx@,
            ),
    {
        assert(blobs(values@)[0] == values@[0]@);
        let thumbprint = calculate_sha1(values[0].as_slice());
        let mut thumbprints: Vec<String> = Vec::new();
        thumbprints.push(thumbprint);
        assert(texts(thumbprints@) =~= seq![hex_padded(spec_sha1(values@[0]@))]);
        self.properties.certthumbprints = thumbprints;
    }
}

impl AttributeSink for NtAuthStore {
    /// What one text attribute does to the store of certificates trusted for
    /// authentication. An attribute without values
    /// or one that the type does not know changes nothing.
    open spec fn text_attr(
        v: NtAuthStoreView,
        key: Seq<char>,
        values: Seq<Seq<char>>,
        ctx: ContextView,
    ) -> NtAuthStoreView {
        if values.len() == 0 {
            v
        } else if key == "name"@ {
            Self::spec_on_name(v, values, ctx)
        } else if key == "description"@ {
            Self::spec_on_description(v, values, ctx)
        } else if key == "whenCreated"@ {
            Self::spec_on_when_created(v, values, ctx)
        } else if key == "IsDeleted"@ {
            Self::spec_on_is_deleted(v, values, ctx)
        } else {
            v
        }
    }

    /// What one binary attribute does to the store of certificates trusted for authentication.
    open spec fn bin_attr(
        v: NtAuthStoreView,
        key: Seq<char>,
        values: Seq<Seq<u8>>,
        ctx: ContextView,
    ) -> NtAuthStoreView {
        if values.len() == 0 {
            v
        } else if key == "objectGUID"@ {
            Self::spec_on_object_guid(v, values, ctx)
        } else if key == "nTSecurityDescriptor"@ {
            Self::spec_on_nt_security_descriptor(v, values, ctx)
        } else if key == "cACertificate"@ {
            Self::spec_on_ca_certificate(v, values, ctx)
        } else {
            v
        }
    }

    fn apply_text(&mut self, key: &str, values: &Vec<String>, ctx: &Context) {
        if values.len() == 0 {
            return ;
        }
        if str_eq(key, "name") {
            self.on_name(values, ctx);
        } else if str_eq(key, "description") {
            self.on_description(values, ctx);
        } else if str_eq(key, "whenCreated") {
            self.on_when_created(values, ctx);
        } else if str_eq(key, "IsDeleted") {
            self.on_is_deleted(values, ctx);
        }
    }

    fn apply_bin(&mut self, key: &str, values: &Vec<Vec<u8>>, ctx: &Context) {
        if values.len() == 0 {
            return ;
        }
        if str_eq(key, "objectGUID") {
            self.on_object_guid(values, ctx);
        } else if str_eq(key, "nTSecurityDescriptor") {
            self.on_nt_security_descriptor(values, ctx);
        } else if str_eq(key, "cACertificate") {
            self.on_ca_certificate(values, ctx);
        }
    }
}

impl NtAuthStore {
    /// The store before the attributes of its record are read: what
    /// the record's name and the collected domain say of it.
    pub open spec fn spec_begin(
        v: NtAuthStoreView,
        entry: EntryView,
        domain: Seq<char>,
        domain_sid: Seq<char>,
    ) -> NtAuthStoreView {
        NtAuthStoreView {
            properties: NtAuthStorePropertiesView {
                domain: spec_to_uppercase(domain),
                distinguishedname: spec_to_uppercase(entry.dn),
                domainsid: domain_sid,
                ..v.properties
            },
            domain_sid: domain_sid,
            ..v
        }
    }

    /// The store that a record describes.
    pub open spec fn spec_parse(
        v: NtAuthStoreView,
        entry: EntryView,
        domain: Seq<char>,
        domain_sid: Seq<char>,
    ) -> NtAuthStoreView {
        decoded::<NtAuthStore>(
            Self::spec_begin(v, entry, domain, domain_sid),
            entry,
            ContextView { domain, domain_sid },
        )
    }

    /// Decodes the record of the store of certificates trusted for
    /// authentication and enters the store in the index.
    pub fn parse(
        &mut self,
        result: &LdapSearchEntry,
        domain: &str,
        dn_sid: &mut StringMap,
        sid_type: &mut StringMap,
        domain_sid: &str,
    )
        ensures
            final(self)@ == Self::spec_parse(
                old(self)@,
                result@,
                domain@,
                domain_sid@,
            ),
            final(dn_sid)@ == registered_dn(
                old(dn_sid)@,
                final(self)@.properties.distinguishedname,
                final(self)@.common.object_identifier,
            ),
            final(sid_type)@ == registered_type(
                old(sid_type)@,
                final(self)@.common.object_identifier,
                NT_AUTH_STORE_TYPE@,
            ),
    {
        self.properties.domain = upper(domain);
        self.properties.distinguishedname = upper(result.dn.as_str());
        self.properties.domainsid = String::from_str(domain_sid);
        self.domain_sid = String::from_str(domain_sid);
        let ctx = Context::new(domain, domain_sid);
        decode_attrs(self, result, &ctx);
        register(
            dn_sid,
            sid_type,
            self.properties.distinguishedname.as_str(),
            self.common.object_identifier.as_str(),
            NT_AUTH_STORE_TYPE,
        );
    }
}
} // verus!
