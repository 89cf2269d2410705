//! Group policy objects.

use crate::enums::acl::spec_is_protected;
use crate::ldap::{blobs, EntryView, LdapSearchEntry};
use crate::mappings::StringMap;
use crate::objects::common::{bare_node, LdapObject, NodeCommon, NodeCommonView};
use crate::objects::decode::{
    created, decode_attrs, decoded, qualified, register, registered_dn, registered_type,
    set_descriptor, set_guid, spec_created, spec_guid_identifier, spec_qualified, with_descriptor,
    AttributeSink, Context, ContextView,
};
use crate::text::{opt_text, spec_to_uppercase, str_eq, texts, upper};
use vstd::prelude::*;
use vstd::string::*;

verus! {

/// The attributes of a group policy object.
#[derive(Debug)]
pub struct GpoProperties {
    pub domain: String,
    pub name: String,
    pub distinguishedname: String,
    pub domainsid: String,
    pub isaclprotected: bool,
    pub highvalue: bool,
    pub description: Option<String>,
    pub whencreated: i64,
    pub gpcpath: String,
}

/// A `GpoProperties` as plain values.
pub struct GpoPropertiesView {
    pub domain: Seq<char>,
    pub name: Seq<char>,
    pub distinguishedname: Seq<char>,
    pub domainsid: Seq<char>,
    pub isaclprotected: bool,
    pub highvalue: bool,
    pub description: Option<Seq<char>>,
    pub whencreated: i64,
    pub gpcpath: Seq<char>,
}

impl View for GpoProperties {
    type V = GpoPropertiesView;

    open spec fn view(&self) -> GpoPropertiesView {
        GpoPropertiesView {
            domain: self.domain@,
            name: self.name@,
            distinguishedname: self.distinguishedname@,
            domainsid: self.domainsid@,
            isaclprotected: self.isaclprotected,
            highvalue: self.highvalue,
            description: opt_text(self.description),
            whencreated: self.whencreated,
            gpcpath: self.gpcpath@,
        }
    }
}

impl GpoProperties {
    /// The attributes of a policy of which nothing is known yet.
    pub open spec fn spec_new() -> GpoPropertiesView {
        GpoPropertiesView {
            domain: Seq::empty(),
            name: Seq::empty(),
            distinguishedname: Seq::empty(),
            domainsid: Seq::empty(),
            isaclprotected: false,
            highvalue: false,
            description: None,
            whencreated: 0i64,
            gpcpath: Seq::empty(),
        }
    }

    pub fn new() -> (r: Self)
        ensures
            r@ == Self::spec_new(),
    {
        let r = GpoProperties {
            domain: String::new(),
            name: String::new(),
            distinguishedname: String::new(),
            domainsid: String::new(),
            isaclprotected: false,
            highvalue: false,
            description: None,
            whencreated: 0,
            gpcpath: String::new(),
        };
        r
    }
}
/// A group policy object.
#[derive(Debug)]
pub struct Gpo {
    pub properties: GpoProperties,
    pub common: NodeCommon,
}

/// A `Gpo` as plain values.
pub struct GpoView {
    pub properties: GpoPropertiesView,
    pub common: NodeCommonView,
}

impl View for Gpo {
    type V = GpoView;

    open spec fn view(&self) -> GpoView {
        GpoView {
            properties: self.properties@,
            common: self.common@,
        }
    }
}

impl Gpo {
    /// A policy that no record has described yet.
    pub open spec fn spec_new() -> GpoView {
        GpoView {
            properties: GpoProperties::spec_new(),
            common: bare_node(),
        }
    }

    pub fn new() -> (r: Self)
        ensures
            r@ == Self::spec_new(),
    {
        let r = Gpo {
            properties: GpoProperties::new(),
            common: NodeCommon::new(),
        };
        r
    }
}

impl LdapObject for Gpo {
    type Rest = GpoProperties;

    open spec fn rest(&self) -> Self::Rest {
        self.properties
    }

    open spec fn common_spec(&self) -> NodeCommon {
        self.common
    }

    fn common(&self) -> (r: &NodeCommon) {
        &self.common
    }

    fn common_mut(&mut self) -> (r: &mut NodeCommon) {
        &mut self.common
    }
}

/// The name of the type in the index.
pub const GPO_TYPE: &'static str = "Gpo";

impl Gpo {
    /// What the attribute `displayName` says of a group policy object.
    pub open spec fn spec_on_display_name(
        v: GpoView,
        values: Seq<Seq<char>>,
        ctx: ContextView,
    ) -> GpoView {
        GpoView {
            properties: GpoPropertiesView {
                name: spec_qualified(values[0], "@"@, ctx.domain),
                ..v.properties
            },
            ..v
        }
    }

    fn on_display_name(&mut self, values: &Vec<String>, ctx: &Context)
        requires
            values@.len() > 0,
        ensures
            final(self)@ == Self::spec_on_display_name(
                old(self)@,
                texts(values@),
                ctx@,
            ),
    {
        let first = values[0].as_str();
        assert(texts(values@)[0] == values@[0]@);
        self.properties.name = qualified(first, "@", ctx.domain.as_str());
    }

    /// What the attribute `description` says of a group policy object.
    pub open spec fn spec_on_description(
        v: GpoView,
        values: Seq<Seq<char>>,
        ctx: ContextView,
    ) -> GpoView {
        GpoView {
            properties: GpoPropertiesView {
                description: Some(values[0]),
                ..v.properties
            },
            ..v
        }
    }

    fn on_description(&mut self, values: &Vec<String>, ctx: &Context)
        requires
            values@.len() > 0,
        ensures
            final(self)@ == Self::spec_on_description(
                old(self)@,
                texts(values@),
                ctx@,
            ),
    {
        assert(texts(values@)[0] == values@[0]@);
        self.properties.description = Some(values[0].clone());
    }

    /// What the attribute `whenCreated` says of a group policy object.
    pub open spec fn spec_on_when_created(
        v: GpoView,
        values: Seq<Seq<char>>,
        ctx: ContextView,
    ) -> GpoView {
        GpoView {
            properties: GpoPropertiesView {
                whencreated: spec_created(values[0], v.properties.whencreated),
                ..v.properties
            },
            ..v
        }
    }

    fn on_when_created(&mut self, values: &Vec<String>, ctx: &Context)
        requires
            values@.len() > 0,
        ensures
            final(self)@ == Self::spec_on_when_created(
                old(self)@,
                texts(values@),
                ctx@,
            ),
    {
        let first = values[0].as_str();
        assert(texts(values@)[0] == values@[0]@);
        self.properties.whencreated = created(first, self.properties.whencreated);
    }

    /// What the attribute `gPCFileSysPath` says of a group policy object.
    pub open spec fn spec_on_gpc_file_sys_path(
        v: GpoView,
        values: Seq<Seq<char>>,
        ctx: ContextView,
    ) -> GpoView {
        GpoView {
            properties: GpoPropertiesView {
                gpcpath: values[0],
                ..v.properties
            },
            ..v
        }
    }

    fn on_gpc_file_sys_path(&mut self, values: &Vec<String>, ctx: &Context)
        requires
            values@.len() > 0,
        ensures
            final(self)@ == Self::spec_on_gpc_file_sys_path(
                old(self)@,
                texts(values@),
                ctx@,
            ),
    {
        assert(texts(values@)[0] == values@[0]@);
        self.properties.gpcpath = values[0].clone();
    }

    /// What the attribute `IsDeleted` says of a group policy object.
    pub open spec fn spec_on_is_deleted(
        v: GpoView,
        values: Seq<Seq<char>>,
        ctx: ContextView,
    ) -> GpoView {
        GpoView {
            common: NodeCommonView {
                is_deleted: true,
                ..v.common
            },
            ..v
        }
    }

    fn on_is_deleted(&mut self, values: &Vec<String>, ctx: &Context)
        requires
            values@.len() > 0,
        ensures
            final(self)@ == Self::spec_on_is_deleted(
                old(self)@,
                texts(values@),
                ctx@,
            ),
    {
        self.common.is_deleted = true;
    }

    /// What the attribute `objectGUID` says of a group policy object.
    pub open spec fn spec_on_object_guid(
        v: GpoView,
        values: Seq<Seq<u8>>,
        ctx: ContextView,
    ) -> GpoView {
        GpoView {
            common: NodeCommonView {
                object_identifier: spec_guid_identifier(values[0], v.common.object_identifier),
                ..v.common
            },
            ..v
        }
    }

    fn on_object_guid(&mut self, values: &Vec<Vec<u8>>, ctx: &Context)
        requires
            values@.len() > 0,
        ensures
            final(self)@ == Self::spec_on_object_guid(
                old(self)@,
                blobs(values@),
                ctx@,
            ),
    {
        assert(blobs(values@)[0] == values@[0]@);
        set_guid(&mut self.common, &values[0]);
    }

    /// What the attribute `nTSecurityDescriptor` says of a group policy object.
    pub open spec fn spec_on_nt_security_descriptor(
        v: GpoView,
        values: Seq<Seq<u8>>,
        ctx: ContextView,
    ) -> GpoView {
        GpoView {
            common: with_descriptor(v.common, values[0], GPO_TYPE@, ctx.domain),
            properties: GpoPropertiesView {
                isaclprotected: spec_is_protected(values[0]),
                ..v.properties
            },
            ..v
        }
    }

    fn on_nt_security_descriptor(&mut self, values: &Vec<Vec<u8>>, ctx: &Context)
        requires
            values@.len() > 0,
        ensures
            final(self)@ == Self::spec_on_nt_security_descriptor(
                old(self)@,
                blobs(values@),
                ctx@,
            ),
    {
        assert(blobs(values@)[0] == values@[0]@);
        set_descriptor(&mut self.common, &values[0], GPO_TYPE, ctx.domain.as_str());
        self.properties.isaclprotected = self.common.is_acl_protected;
    }
}

impl AttributeSink for Gpo {
    /// What one text attribute does to a group policy object. An attribute without values
    /// or one that the type does not know changes nothing.
    open spec fn text_attr(
        v: GpoView,
        key: Seq<char>,
        values: Seq<Seq<char>>,
        ctx: ContextView,
    ) -> GpoView {
        if values.len() == 0 {
            v
        } else if key == "displayName"@ {
            Self::spec_on_display_name(v, values, ctx)
        } else if key == "description"@ {
            Self::spec_on_description(v, values, ctx)
        } else if key == "whenCreated"@ {
            Self::spec_on_when_created(v, values, ctx)
        } else if key == "gPCFileSysPath"@ {
            Self::spec_on_gpc_file_sys_path(v, values, ctx)
        } else if key == "IsDeleted"@ {
            Self::spec_on_is_deleted(v, values, ctx)
        } else {
            v
        }
    }

    /// What one binary attribute does to a group policy object.
    open spec fn bin_attr(
        v: GpoView,
        key: Seq<char>,
        values: Seq<Seq<u8>>,
        ctx: ContextView,
    ) -> GpoView {
        if values.len() == 0 {
            v
        } else if key == "objectGUID"@ {
            Self::spec_on_object_guid(v, values, ctx)
        } else if key == "nTSecurityDescriptor"@ {
            Self::spec_on_nt_security_descriptor(v, values, ctx)
        } else {
            v
        }
    }

    fn apply_text(&mut self, key: &str, values: &Vec<String>, ctx: &Context) {
        if values.len() == 0 {
            return ;
        }
        if str_eq(key, "displayName") {
            self.on_display_name(values, ctx);
        } else if str_eq(key, "description") {
            self.on_description(values, ctx);
        } else if str_eq(key, "whenCreated") {
            self.on_when_created(values, ctx);
        } else if str_eq(key, "gPCFileSysPath") {
            self.on_gpc_file_sys_path(values, ctx);
        } else if str_eq(key, "IsDeleted") {
            self.on_is_deleted(values, ctx);
        }
    }

    fn apply_bin(&mut self, key: &str, values: &Vec<Vec<u8>>, ctx: &Context) {
        if values.len() == 0 {
            return ;
        }
        if str_eq(key, "objectGUID") {
            self.on_object_guid(values, ctx);
        } else if str_eq(key, "nTSecurityDescriptor") {
            self.on_nt_security_descriptor(values, ctx);
        }
    }
}

impl Gpo {
    /// The policy before the attributes of its record are read: what
    /// the record's name and the collected domain say of it.
    pub open spec fn spec_begin(
        v: GpoView,
        entry: EntryView,
        domain: Seq<char>,
        domain_sid: Seq<char>,
    ) -> GpoView {
        GpoView {
            properties: GpoPropertiesView {
                domain: spec_to_uppercase(domain),
                distinguishedname: spec_to_uppercase(entry.dn),
                domainsid: domain_sid,
                ..v.properties
            },
            ..v
        }
    }

    /// The policy that a record describes.
    pub open spec fn spec_parse(
        v: GpoView,
        entry: EntryView,
        domain: Seq<char>,
        domain_sid: Seq<char>,
    ) -> GpoView {
        decoded::<Gpo>(
            Self::spec_begin(v, entry, domain, domain_sid),
            entry,
            ContextView { domain, domain_sid },
        )
    }

    /// Decodes the record of a group policy object and enters the policy in the index.
    pub fn parse(
        &mut self,
        result: &LdapSearchEntry,
        domain: &str,
        dn_sid: &mut StringMap,
        sid_type: &mut StringMap,
        domain_sid: &str,
    )
        ensures
            final(self)@ == Self::spec_parse(
                old(self)@,
                result@,
                domain@,
                domain_sid@,
            ),
            final(dn_sid)@ == registered_dn(
                old(dn_sid)@,
                final(self)@.properties.distinguishedname,
                final(self)@.common.object_identifier,
            ),
            final(sid_type)@ == registered_type(
                old(sid_type)@,
                final(self)@.common.object_identifier,
                GPO_TYPE@,
            ),
    {
        self.properties.domain = upper(domain);
        self.properties.distinguishedname = upper(result.dn.as_str());
        self.properties.domainsid = String::from_str(domain_sid);
        let ctx = Context::new(domain, domain_sid);
        decode_attrs(self, result, &ctx);
        register(
            dn_sid,
            sid_type,
            self.properties.distinguishedname.as_str(),
            self.common.object_identifier.as_str(),
            GPO_TYPE,
        );
    }
}
} // verus!
