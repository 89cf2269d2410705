//! Organizational units.

use crate::enums::acl::spec_is_protected;
use crate::enums::gplink::{parse_gplink, spec_parse_gplink};
use crate::ldap::{blobs, EntryView, LdapSearchEntry};
use crate::mappings::StringMap;
use crate::objects::common::{
    bare_node, empty_gpo_change, GPOChange, GPOChangeView, LdapObject, Member, NodeCommon,
    NodeCommonView,
};
use crate::objects::decode::{
    created, decode_attrs, decoded, qualified, register, registered_dn, registered_type,
    set_descriptor, set_guid, spec_created, spec_guid_identifier, spec_qualified, with_descriptor,
    AttributeSink, Context, ContextView,
};
use crate::text::{opt_text, spec_to_uppercase, str_eq, texts, upper};
use crate::utils::format::{parse_i64, spec_parse_i64};
use vstd::prelude::*;
use vstd::string::*;

verus! {

/// The attributes of an organizational unit.
#[derive(Debug)]
pub struct OuProperties {
    pub domain: String,
    pub name: String,
    pub distinguishedname: String,
    pub domainsid: String,
    pub isaclprotected: bool,
    pub highvalue: bool,
    pub description: Option<String>,
    pub whencreated: i64,
    pub blocksinheritance: bool,
}

/// A `OuProperties` as plain values.
pub struct OuPropertiesView {
    pub domain: Seq<char>,
    pub name: Seq<char>,
    pub distinguishedname: Seq<char>,
    pub domainsid: Seq<char>,
    pub isaclprotected: bool,
    pub highvalue: bool,
    pub description: Option<Seq<char>>,
    pub whencreated: i64,
    pub blocksinheritance: bool,
}

impl View for OuProperties {
    type V = OuPropertiesView;

    open spec fn view(&self) -> OuPropertiesView {
        OuPropertiesView {
            domain: self.domain@,
            name: self.name@,
            distinguishedname: self.distinguishedname@,
            domainsid: self.domainsid@,
            isaclprotected: self.isaclprotected,
            highvalue: self.highvalue,
            description: opt_text(self.description),
            whencreated: self.whencreated,
            blocksinheritance: self.blocksinheritance,
        }
    }
}

impl OuProperties {
    /// The attributes of a unit of which nothing is known yet.
    pub open spec fn spec_new() -> OuPropertiesView {
        OuPropertiesView {
            domain: Seq::empty(),
            name: Seq::empty(),
            distinguishedname: Seq::empty(),
            domainsid: Seq::empty(),
            isaclprotected: false,
            highvalue: false,
            description: None,
            whencreated: 0i64,
            blocksinheritance: false,
        }
    }

    pub fn new() -> (r: Self)
        ensures
            r@ == Self::spec_new(),
    {
        let r = OuProperties {
            domain: String::new(),
            name: String::new(),
            distinguishedname: String::new(),
            domainsid: String::new(),
            isaclprotected: false,
            highvalue: false,
            description: None,
            whencreated: 0,
            blocksinheritance: false,
        };
        r
    }

    pub fn name(&self) -> (r: &String)
        ensures
            *r == self.name,
    {
        &self.name
    }

    pub fn distinguishedname(&self) -> (r: &String)
        ensures
            *r == self.distinguishedname,
    {
        &self.distinguishedname
    }

    pub fn isaclprotected_mut(&mut self) -> (r: &mut bool)
        ensures
            *r == old(self).isaclprotected,
            *final(self) == (OuProperties { isaclprotected: *final(r), ..*old(self) }),
    {
        &mut self.isaclprotected
    }
}
/// An organizational unit.
#[derive(Debug)]
pub struct Ou {
    pub gpo_changes: GPOChange,
    pub properties: OuProperties,
    pub common: NodeCommon,
}

/// A `Ou` as plain values.
pub struct OuView {
    pub gpo_changes: GPOChangeView,
    pub properties: OuPropertiesView,
    pub common: NodeCommonView,
}

impl View for Ou {
    type V = OuView;

    open spec fn view(&self) -> OuView {
        OuView {
            gpo_changes: self.gpo_changes@,
            properties: self.properties@,
            common: self.common@,
        }
    }
}

impl Ou {
    /// A unit that no record has described yet.
    pub open spec fn spec_new() -> OuView {
        OuView {
            gpo_changes: empty_gpo_change(),
            properties: OuProperties::spec_new(),
            common: bare_node(),
        }
    }

    pub fn new() -> (r: Self)
        ensures
            r@ == Self::spec_new(),
    {
        let r = Ou {
            gpo_changes: GPOChange::new(),
            properties: OuProperties::new(),
            common: NodeCommon::new(),
        };
        r
    }

    pub fn properties(&self) -> (r: &OuProperties)
        ensures
            *r == self.properties,
    {
        &self.properties
    }

    pub fn gpo_changes_mut(&mut self) -> (r: &mut GPOChange)
        ensures
            *r == old(self).gpo_changes,
            *final(self) == (Ou { gpo_changes: *final(r), ..*old(self) }),
    {
        &mut self.gpo_changes
    }

    pub fn child_objects_mut(&mut self) -> (r: &mut Vec<Member>)
        ensures
            *r == old(self).common.child_objects,
            *final(self) == (Ou {
                common: NodeCommon { child_objects: *final(r), ..old(self).common },
                ..*old(self)
            }),
    {
        &mut self.common.child_objects
    }
}

impl LdapObject for Ou {
    type Rest = (GPOChange, OuProperties);

    open spec fn rest(&self) -> Self::Rest {
        (self.gpo_changes, self.properties)
    }

    open spec fn common_spec(&self) -> NodeCommon {
        self.common
    }

    fn common(&self) -> (r: &NodeCommon) {
        &self.common
    }

    fn common_mut(&mut self) -> (r: &mut NodeCommon) {
        &mut self.common
    }
}

/// The name of the type in the index.
pub const OU_TYPE: &'static str = "OU";

impl Ou {
    /// What the attribute `name` says of an organizational unit.
    pub open spec fn spec_on_name(
        v: OuView,
        values: Seq<Seq<char>>,
        ctx: ContextView,
    ) -> OuView {
        OuView {
            properties: OuPropertiesView {
                name: spec_qualified(values[0], "@"@, ctx.domain),
                ..v.properties
            },
            ..v
        }
    }

    fn on_name(&mut self, values: &Vec<String>, ctx: &Context)
        requires
            values@.len() > 0,
        ensures
            final(self)@ == Self::spec_on_name(
                old(self)@,
                texts(values@),
                ctx@,
            ),
    {
        let first = values[0].as_str();
        assert(texts(values@)[0] == values@[0]@);
        self.properties.name = qualified(first, "@", ctx.domain.as_str());
    }

    /// What the attribute `description` says of an organizational unit.
    pub open spec fn spec_on_description(
        v: OuView,
        values: Seq<Seq<char>>,
        ctx: ContextView,
    ) -> OuView {
        OuView {
            properties: OuPropertiesView {
                description: Some(values[0]),
                ..v.properties
            },
            ..v
        }
    }

    fn on_description(&mut self, values: &Vec<String>, ctx: &Context)
        requires
            values@.len() > 0,
        ensures
            final(self)@ == Self::spec_on_description(
                old(self)@,
                texts(values@),
                ctx@,
            ),
    {
        assert(texts(values@)[0] == values@[0]@);
        self.properties.description = Some(values[0].clone());
    }

    /// What the attribute `whenCreated` says of an organizational unit.
    pub open spec fn spec_on_when_created(
        v: OuView,
        values: Seq<Seq<char>>,
        ctx: ContextView,
    ) -> OuView {
        OuView {
            properties: OuPropertiesView {
                whencreated: spec_created(values[0], v.properties.whencreated),
                ..v.properties
            },
            ..v
        }
    }

    fn on_when_created(&mut self, values: &Vec<String>, ctx: &Context)
        requires
            values@.len() > 0,
        ensures
            final(self)@ == Self::spec_on_when_created(
                old(self)@,
                texts(values@),
                ctx@,
            ),
    {
        let first = values[0].as_str();
        assert(texts(values@)[0] == values@[0]@);
        self.properties.whencreated = created(first, self.properties.whencreated);
    }

    /// What the attribute `gPLink` says of an organizational unit.
    pub open spec fn spec_on_gp_link(
        v: OuView,
        values: Seq<Seq<char>>,
        ctx: ContextView,
    ) -> OuView {
        OuView {
            common: NodeCommonView {
                links: spec_parse_gplink(values[0]),
                ..v.common
            },
            ..v
        }
    }

    fn on_gp_link(&mut self, values: &Vec<String>, ctx: &Context)
        requires
            values@.len() > 0,
        ensures
            final(self)@ == Self::spec_on_gp_link(
                old(self)@,
                texts(values@),
                ctx@,
            ),
    {
        assert(texts(values@)[0] == values@[0]@);
        self.common.links = parse_gplink(values[0].clone());
    }

    /// What the attribute `gPOtions` says of an organizational unit.
    pub open spec fn spec_on_gp_options(
        v: OuView,
        values: Seq<Seq<char>>,
        ctx: ContextView,
    ) -> OuView {
        OuView {
            properties: OuPropertiesView {
                blocksinheritance: spec_parse_i64(values[0]) == Some(1i64),
                ..v.properties
            },
            ..v
        }
    }

    fn on_gp_options(&mut self, values: &Vec<String>, ctx: &Context)
        requires
            values@.len() > 0,
        ensures
            final(self)@ == Self::spec_on_gp_options(
                old(self)@,
                texts(values@),
                ctx@,
            ),
    {
        let first = values[0].as_str();
        assert(texts(values@)[0] == values@[0]@);
        self.properties.blocksinheritance = match parse_i64(first) {
            Some(n) => n == 1,
            None => false,
        };
    }

    /// What the attribute `IsDeleted` says of an organizational unit.
    pub open spec fn spec_on_is_deleted(
        v: OuView,
        values: Seq<Seq<char>>,
        ctx: ContextView,
    ) -> OuView {
        OuView {
            common: NodeCommonView {
                is_deleted: true,
                ..v.common
            },
            ..v
        }
    }

    fn on_is_deleted(&mut self, values: &Vec<String>, ctx: &Context)
        requires
            values@.len() > 0,
        ensures
            final(self)@ == Self::spec_on_is_deleted(
                old(self)@,
                texts(values@),
                ctx@,
            ),
    {
        self.common.is_deleted = true;
    }

    /// What the attribute `objectGUID` says of an organizational unit.
    pub open spec fn spec_on_object_guid(
        v: OuView,
        values: Seq<Seq<u8>>,
        ctx: ContextView,
    ) -> OuView {
        OuView {
            common: NodeCommonView {
                object_identifier: spec_guid_identifier(values[0], v.common.object_identifier),
                ..v.common
            },
            ..v
        }
    }

    fn on_object_guid(&mut self, values: &Vec<Vec<u8>>, ctx: &Context)
        requires
            values@.len() > 0,
        ensures
            final(self)@ == Self::spec_on_object_guid(
                old(self)@,
                blobs(values@),
                ctx@,
            ),
    {
        assert(blobs(values@)[0] == values@[0]@);
        set_guid(&mut self.common, &values[0]);
    }

    /// What the attribute `nTSecurityDescriptor` says of an organizational unit.
    pub open spec fn spec_on_nt_security_descriptor(
        v: OuView,
        values: Seq<Seq<u8>>,
        ctx: ContextView,
    ) -> OuView {
        OuView {
            common: with_descriptor(v.common, values[0], OU_TYPE@, ctx.domain),
            properties: OuPropertiesView {
                isaclprotected: spec_is_protected(values[0]),
                ..v.properties
            },
            ..v
        }
    }

    fn on_nt_security_descriptor(&mut self, values: &Vec<Vec<u8>>, ctx: &Context)
        requires
            values@.len() > 0,
        ensures
            final(self)@ == Self::spec_on_nt_security_descriptor(
                old(self)@,
                blobs(values@),
                ctx@,
            ),
    {
        assert(blobs(values@)[0] == values@[0]@);
        set_descriptor(&mut self.common, &values[0], OU_TYPE, ctx.domain.as_str());
        self.properties.isaclprotected = self.common.is_acl_protected;
    }
}

impl AttributeSink for Ou {
    /// What one text attribute does to an organizational unit. An attribute without values
    /// or one that the type does not know changes nothing.
    open spec fn text_attr(
        v: OuView,
        key: Seq<char>,
        values: Seq<Seq<char>>,
        ctx: ContextView,
    ) -> OuView {
        if values.len() == 0 {
            v
        } else if key == "name"@ {
            Self::spec_on_name(v, values, ctx)
        } else if key == "description"@ {
            Self::spec_on_description(v, values, ctx)
        } else if key == "whenCreated"@ {
            Self::spec_on_when_created(v, values, ctx)
        } else if key == "gPLink"@ {
            Self::spec_on_gp_link(v, values, ctx)
        } else if key == "gPOtions"@ {
            Self::spec_on_gp_options(v, values, ctx)
        } else if key == "IsDeleted"@ {
            Self::spec_on_is_deleted(v, values, ctx)
        } else {
            v
        }
    }

    /// What one binary attribute does to an organizational unit.
    open spec fn bin_attr(
        v: OuView,
        key: Seq<char>,
        values: Seq<Seq<u8>>,
        ctx: ContextView,
    ) -> OuView {
        if values.len() == 0 {
            v
        } else if key == "objectGUID"@ {
            Self::spec_on_object_guid(v, values, ctx)
        } else if key == "nTSecurityDescriptor"@ {
            Self::spec_on_nt_security_descriptor(v, values, ctx)
        } else {
            v
        }
    }

    fn apply_text(&mut self, key: &str, values: &Vec<String>, ctx: &Context) {
        if values.len() == 0 {
            return ;
        }
        if str_eq(key, "name") {
            self.on_name(values, ctx);
        } else if str_eq(key, "description") {
            self.on_description(values, ctx);
        } else if str_eq(key, "whenCreated") {
            self.on_when_created(values, ctx);
        } else if str_eq(key, "gPLink") {
            self.on_gp_link(values, ctx);
        } else if str_eq(key, "gPOtions") {
            self.on_gp_options(values, ctx);
        } else if str_eq(key, "IsDeleted") {
            self.on_is_deleted(values, ctx);
        }
    }

    fn apply_bin(&mut self, key: &str, values: &Vec<Vec<u8>>, ctx: &Context) {
        if values.len() == 0 {
            return ;
        }
        if str_eq(key, "objectGUID") {
            self.on_object_guid(values, ctx);
        } else if str_eq(key, "nTSecurityDescriptor") {
            self.on_nt_security_descriptor(values, ctx);
        }
    }
}

impl Ou {
    /// The unit before the attributes of its record are read: what
    /// the record's name and the collected domain say of it.
    pub open spec fn spec_begin(
        v: OuView,
        entry: EntryView,
        domain: Seq<char>,
        domain_sid: Seq<char>,
    ) -> OuView {
        OuView {
            properties: OuPropertiesView {
                domain: spec_to_uppercase(domain),
                distinguishedname: spec_to_uppercase(entry.dn),
                domainsid: domain_sid,
                ..v.properties
            },
            ..v
        }
    }

    /// The unit that a record describes.
    pub open spec fn spec_parse(
        v: OuView,
        entry: EntryView,
        domain: Seq<char>,
        domain_sid: Seq<char>,
    ) -> OuView {
        decoded::<Ou>(
            Self::spec_begin(v, entry, domain, domain_sid),
            entry,
            ContextView { domain, domain_sid },
        )
    }

    /// Decodes the record of an organizational unit and enters the unit in the index.
    pub fn parse(
        &mut self,
        result: &LdapSearchEntry,
        domain: &str,
        dn_sid: &mut StringMap,
        sid_type: &mut StringMap,
        domain_sid: &str,
    )
        ensures
            final(self)@ == Self::spec_parse(
                old(self)@,
                result@,
                domain@,
                domain_sid@,
            ),
            final(dn_sid)@ == registered_dn(
                old(dn_sid)@,
                final(self)@.properties.distinguishedname,
                final(self)@.common.object_identifier,
            ),
            final(sid_type)@ == registered_type(
                old(sid_type)@,
                final(self)@.common.object_identifier,
                OU_TYPE@,
            ),
    {
        self.properties.domain = upper(domain);
        self.properties.distinguishedname = upper(result.dn.as_str());
        self.properties.domainsid = String::from_str(domain_sid);
        let ctx = Context::new(domain, domain_sid);
        decode_attrs(self, result, &ctx);
        register(
            dn_sid,
            sid_type,
            self.properties.distinguishedname.as_str(),
            self.common.object_identifier.as_str(),
            OU_TYPE,
        );
    }
}
} // verus!
