//! Containers.

use crate::enums::acl::spec_is_protected;
use crate::ldap::{blobs, EntryView, LdapSearchEntry};
use crate::mappings::StringMap;
use crate::objects::common::{bare_node, LdapObject, NodeCommon, NodeCommonView};
use crate::objects::decode::{
    decode_attrs, decoded, qualified, register, registered_dn, registered_type, set_descriptor,
    set_guid, spec_guid_identifier, spec_qualified, with_descriptor, AttributeSink, Context,
    ContextView,
};
use crate::text::{spec_to_uppercase, str_eq, texts, upper};
use vstd::prelude::*;
use vstd::string::*;

verus! {

/// The attributes of a container.
#[derive(Debug)]
pub struct ContainerProperties {
    pub domain: String,
    pub name: String,
    pub distinguishedname: String,
    pub domainsid: String,
    pub isaclprotected: bool,
    pub highvalue: bool,
}

/// A `ContainerProperties` as plain values.
pub struct ContainerPropertiesView {
    pub domain: Seq<char>,
    pub name: Seq<char>,
    pub distinguishedname: Seq<char>,
    pub domainsid: Seq<char>,
    pub isaclprotected: bool,
    pub highvalue: bool,
}

impl View for ContainerProperties {
    type V = ContainerPropertiesView;

    open spec fn view(&self) -> ContainerPropertiesView {
        ContainerPropertiesView {
            domain: self.domain@,
            name: self.name@,
            distinguishedname: self.distinguishedname@,
            domainsid: self.domainsid@,
            isaclprotected: self.isaclprotected,
            highvalue: self.highvalue,
        }
    }
}

impl ContainerProperties {
    /// The attributes of a container of which nothing is known yet.
    pub open spec fn spec_new() -> ContainerPropertiesView {
        ContainerPropertiesView {
            domain: Seq::empty(),
            name: Seq::empty(),
            distinguishedname: Seq::empty(),
            domainsid: Seq::empty(),
            isaclprotected: false,
            highvalue: false,
        }
    }

    pub fn new() -> (r: Self)
        ensures
            r@ == Self::spec_new(),
    {
        let r = ContainerProperties {
            domain: String::new(),
            name: String::new(),
            distinguishedname: String::new(),
            domainsid: String::new(),
            isaclprotected: false,
            highvalue: false,
        };
        r
    }
}
/// A container.
#[derive(Debug)]
pub struct Container {
    pub properties: ContainerProperties,
    pub common: NodeCommon,
}

/// A `Container` as plain values.
pub struct ContainerView {
    pub properties: ContainerPropertiesView,
    pub common: NodeCommonView,
}

impl View for Container {
    type V = ContainerView;

    open spec fn view(&self) -> ContainerView {
        ContainerView {
            properties: self.properties@,
            common: self.common@,
        }
    }
}

impl Container {
    /// A container that no record has described yet.
    pub open spec fn spec_new() -> ContainerView {
        ContainerView {
            properties: ContainerProperties::spec_new(),
            common: bare_node(),
        }
    }

    pub fn new() -> (r: Self)
        ensures
            r@ == Self::spec_new(),
    {
        let r = Container {
            properties: ContainerProperties::new(),
            common: NodeCommon::new(),
        };
        r
    }
}

impl LdapObject for Container {
    type Rest = ContainerProperties;

    open spec fn rest(&self) -> Self::Rest {
        self.properties
    }

    open spec fn common_spec(&self) -> NodeCommon {
        self.common
    }

    fn common(&self) -> (r: &NodeCommon) {
        &self.common
    }

    fn common_mut(&mut self) -> (r: &mut NodeCommon) {
        &mut self.common
    }
}

/// The name of the type in the index.
pub const CONTAINER_TYPE: &'static str = "Container";

impl Container {
    /// What the attribute `name` says of a container.
    pub open spec fn spec_on_name(
        v: ContainerView,
        values: Seq<Seq<char>>,
        ctx: ContextView,
    ) -> ContainerView {
        ContainerView {
            properties: ContainerPropertiesView {
                name: spec_qualified(values[0], "@"@, ctx.domain),
                ..v.properties
            },
            ..v
        }
    }

    fn on_name(&mut self, values: &Vec<String>, ctx: &Context)
        requires
            values@.len() > 0,
        ensures
            final(self)@ == Self::spec_on_name(
                old(self)@,
                texts(values@),
                ctx@,
            ),
    {
        let first = values[0].as_str();
        assert(texts(values@)[0] == values@[0]@);
        self.properties.name = qualified(first, "@", ctx.domain.as_str());
    }

    /// What the attribute `IsDeleted` says of a container.
    pub open spec fn spec_on_is_deleted(
        v: ContainerView,
        values: Seq<Seq<char>>,
        ctx: ContextView,
    ) -> ContainerView {
        ContainerView {
            common: NodeCommonView {
                is_deleted: true,
                ..v.common
            },
            ..v
        }
    }

    fn on_is_deleted(&mut self, values: &Vec<String>, ctx: &Context)
        requires
            values@.len() > 0,
        ensures
            final(self)@ == Self::spec_on_is_deleted(
                old(self)@,
                texts(values@),
                ctx@,
            ),
    {
        self.common.is_deleted = true;
    }

    /// What the attribute `objectGUID` says of a container.
    pub open spec fn spec_on_object_guid(
        v: ContainerView,
        values: Seq<Seq<u8>>,
        ctx: ContextView,
    ) -> ContainerView {
        ContainerView {
            common: NodeCommonView {
                object_identifier: spec_guid_identifier(values[0], v.common.object_identifier),
                ..v.common
            },
            ..v
        }
    }

    fn on_object_guid(&mut self, values: &Vec<Vec<u8>>, ctx: &Context)
        requires
            values@.len() > 0,
        ensures
            final(self)@ == Self::spec_on_object_guid(
                old(self)@,
                blobs(values@),
                ctx@,
            ),
    {
        assert(blobs(values@)[0] == values@[0]@);
        set_guid(&mut self.common, &values[0]);
    }

    /// What the attribute `nTSecurityDescriptor` says of a container.
    pub open spec fn spec_on_nt_security_descriptor(
        v: ContainerView,
        values: Seq<Seq<u8>>,
        ctx: ContextView,
    ) -> ContainerView {
        ContainerView {
            common: with_descriptor(v.common, values[0], CONTAINER_TYPE@, ctx.domain),
            properties: ContainerPropertiesView {
                isaclprotected: spec_is_protected(values[0]),
                ..v.properties
            },
            ..v
        }
    }

    fn on_nt_security_descriptor(&mut self, values: &Vec<Vec<u8>>, ctx: &Context)
        requires
            values@.len() > 0,
        ensures
            final(self)@ == Self::spec_on_nt_security_descriptor(
                old(self)@,
                blobs(values@),
                ctx@,
            ),
    {
        assert(blobs(values@)[0] == values@[0]@);
        set_descriptor(&mut self.common, &values[0], CONTAINER_TYPE, ctx.domain.as_str());
        self.properties.isaclprotected = self.common.is_acl_protected;
    }
}

impl AttributeSink for Container {
    /// What one text attribute does to a container. An attribute without values
    /// or one that the type does not know changes nothing.
    open spec fn text_attr(
        v: ContainerView,
        key: Seq<char>,
        values: Seq<Seq<char>>,
        ctx: ContextView,
    ) -> ContainerView {
        if values.len() == 0 {
            v
        } else if key == "name"@ {
            Self::spec_on_name(v, values, ctx)
        } else if key == "IsDeleted"@ {
            Self::spec_on_is_deleted(v, values, ctx)
        } else {
            v
        }
    }

    /// What one binary attribute does to a container.
    open spec fn bin_attr(
        v: ContainerView,
        key: Seq<char>,
        values: Seq<Seq<u8>>,
        ctx: ContextView,
    ) -> ContainerView {
        if values.len() == 0 {
            v
        } else if key == "objectGUID"@ {
            Self::spec_on_object_guid(v, values, ctx)
        } else if key == "nTSecurityDescriptor"@ {
            Self::spec_on_nt_security_descriptor(v, values, ctx)
        } else {
            v
        }
    }

    fn apply_text(&mut self, key: &str, values: &Vec<String>, ctx: &Context) {
        if values.len() == 0 {
            return ;
        }
        if str_eq(key, "name") {
            self.on_name(values, ctx);
        } else if str_eq(key, "IsDeleted") {
            self.on_is_deleted(values, ctx);
        }
    }

    fn apply_bin(&mut self, key: &str, values: &Vec<Vec<u8>>, ctx: &Context) {
        if values.len() == 0 {
            return ;
        }
        if str_eq(key, "objectGUID") {
            self.on_object_guid(values, ctx);
        } else if str_eq(key, "nTSecurityDescriptor") {
            self.on_nt_security_descriptor(values, ctx);
        }
    }
}

impl Container {
    /// The container before the attributes of its record are read: what
    /// the record's name and the collected domain say of it.
    pub open spec fn spec_begin(
        v: ContainerView,
        entry: EntryView,
        domain: Seq<char>,
        domain_sid: Seq<char>,
    ) -> ContainerView {
        ContainerView {
            properties: ContainerPropertiesView {
                domain: spec_to_uppercase(domain),
                distinguishedname: spec_to_uppercase(entry.dn),
                domainsid: domain_sid,
                ..v.properties
            },
            ..v
        }
    }

    /// The container that a record describes.
    pub open spec fn spec_parse(
        v: ContainerView,
        entry: EntryView,
        domain: Seq<char>,
        domain_sid: Seq<char>,
    ) -> ContainerView {
        decoded::<Container>(
            Self::spec_begin(v, entry, domain, domain_sid),
            entry,
            ContextView { domain, domain_sid },
        )
    }

    /// Decodes the record of a container and enters the container in the index.
    pub fn parse(
        &mut self,
        result: &LdapSearchEntry,
        domain: &str,
        dn_sid: &mut StringMap,
        sid_type: &mut StringMap,
        domain_sid: &str,
    )
        ensures
            final(self)@ == Self::spec_parse(
                old(self)@,
                result@,
                domain@,
                domain_sid@,
            ),
            final(dn_sid)@ == registered_dn(
                old(dn_sid)@,
                final(self)@.properties.distinguishedname,
                final(self)@.common.object_identifier,
            ),
            final(sid_type)@ == registered_type(
                old(sid_type)@,
                final(self)@.common.object_identifier,
                CONTAINER_TYPE@,
            ),
    {
        self.properties.domain = upper(domain);
        self.properties.distinguishedname = upper(result.dn.as_str());
        self.properties.domainsid = String::from_str(domain_sid);
        let ctx = Context::new(domain, domain_sid);
        decode_attrs(self, result, &ctx);
        register(
            dn_sid,
            sid_type,
            self.properties.distinguishedname.as_str(),
            self.common.object_identifier.as_str(),
            CONTAINER_TYPE,
        );
    }
}
} // verus!
