//! Security and distribution groups.

use crate::enums::acl::spec_is_protected;
use crate::enums::sid::spec_decode_sid;
use crate::ldap::{blobs, EntryView, LdapSearchEntry};
use crate::mappings::StringMap;
use crate::objects::common::{
    bare_node, member_views, LdapObject, Member, MemberView, NodeCommon, NodeCommonView,
};
use crate::objects::decode::{
    created, decode_attrs, decoded, issuing_domain, members_from_names, named_members, qualified,
    register, registered_dn, registered_type, set_descriptor, set_sid, spec_created,
    spec_qualified, with_descriptor, with_sid, AttributeSink, Context, ContextView,
};
use crate::text::{opt_text, spec_to_uppercase, str_eq, texts, upper};
use vstd::prelude::*;
use vstd::string::*;

verus! {

/// The attributes of a group.
#[derive(Debug)]
pub struct GroupProperties {
    pub domain: String,
    pub name: String,
    pub distinguishedname: String,
    pub domainsid: String,
    pub isaclprotected: bool,
    pub highvalue: bool,
    pub samaccountname: String,
    pub description: Option<String>,
    pub whencreated: i64,
    pub admincount: bool,
}

/// A `GroupProperties` as plain values.
pub struct GroupPropertiesView {
    pub domain: Seq<char>,
    pub name: Seq<char>,
    pub distinguishedname: Seq<char>,
    pub domainsid: Seq<char>,
    pub isaclprotected: bool,
    pub highvalue: bool,
    pub samaccountname: Seq<char>,
    pub description: Option<Seq<char>>,
    pub whencreated: i64,
    pub admincount: bool,
}

impl View for GroupProperties {
    type V = GroupPropertiesView;

    open spec fn view(&self) -> GroupPropertiesView {
        GroupPropertiesView {
            domain: self.domain@,
            name: self.name@,
            distinguishedname: self.distinguishedname@,
            domainsid: self.domainsid@,
            isaclprotected: self.isaclprotected,
            highvalue: self.highvalue,
            samaccountname: self.samaccountname@,
            description: opt_text(self.description),
            whencreated: self.whencreated,
            admincount: self.admincount,
        }
    }
}

impl GroupProperties {
    /// The attributes of a group of which nothing is known yet.
    pub open spec fn spec_new() -> GroupPropertiesView {
        GroupPropertiesView {
            domain: Seq::empty(),
            name: Seq::empty(),
            distinguishedname: Seq::empty(),
            domainsid: Seq::empty(),
            isaclprotected: false,
            highvalue: false,
            samaccountname: Seq::empty(),
            description: None,
            whencreated: 0i64,
            admincount: false,
        }
    }

    pub fn new() -> (r: Self)
        ensures
            r@ == Self::spec_new(),
    {
        let r = GroupProperties {
            domain: String::new(),
            name: String::new(),
            distinguishedname: String::new(),
            domainsid: String::new(),
            isaclprotected: false,
            highvalue: false,
            samaccountname: String::new(),
            description: None,
            whencreated: 0,
            admincount: false,
        };
        r
    }

    pub fn name(&self) -> (r: &String)
        ensures
            *r == self.name,
    {
        &self.name
    }

    pub fn name_mut(&mut self) -> (r: &mut String)
        ensures
            *r == old(self).name,
            *final(self) == (GroupProperties { name: *final(r), ..*old(self) }),
    {
        &mut self.name
    }

    pub fn highvalue_mut(&mut self) -> (r: &mut bool)
        ensures
            *r == old(self).highvalue,
            *final(self) == (GroupProperties { highvalue: *final(r), ..*old(self) }),
    {
        &mut self.highvalue
    }
}
/// A group and its members.
#[derive(Debug)]
pub struct Group {
    pub properties: GroupProperties,
    pub common: NodeCommon,
    /// First keyed by distinguished name, later by identifier.
    pub members: Vec<Member>,
}

/// A `Group` as plain values.
pub struct GroupView {
    pub properties: GroupPropertiesView,
    pub common: NodeCommonView,
    pub members: Seq<MemberView>,
}

impl View for Group {
    type V = GroupView;

    open spec fn view(&self) -> GroupView {
        GroupView {
            properties: self.properties@,
            common: self.common@,
            members: member_views(self.members@),
        }
    }
}

impl Group {
    /// A group that no record has described yet.
    pub open spec fn spec_new() -> GroupView {
        GroupView {
            properties: GroupProperties::spec_new(),
            common: bare_node(),
            members: Seq::empty(),
        }
    }

    pub fn new() -> (r: Self)
        ensures
            r@ == Self::spec_new(),
    {
        let r = Group {
            properties: GroupProperties::new(),
            common: NodeCommon::new(),
            members: Vec::new(),
        };
        assert(r@.members =~= Seq::empty());
        r
    }

    pub fn properties(&self) -> (r: &GroupProperties)
        ensures
            *r == self.properties,
    {
        &self.properties
    }

    pub fn object_identifier(&self) -> (r: &String)
        ensures
            *r == self.common.object_identifier,
    {
        &self.common.object_identifier
    }

    pub fn members(&self) -> (r: &Vec<Member>)
        ensures
            *r == self.members,
    {
        &self.members
    }

    pub fn properties_mut(&mut self) -> (r: &mut GroupProperties)
        ensures
            *r == old(self).properties,
            *final(self) == (Group { properties: *final(r), ..*old(self) }),
    {
        &mut self.properties
    }

    pub fn object_identifier_mut(&mut self) -> (r: &mut String)
        ensures
            *r == old(self).common.object_identifier,
            *final(self) == (Group {
                common: NodeCommon { object_identifier: *final(r), ..old(self).common },
                ..*old(self)
            }),
    {
        &mut self.common.object_identifier
    }

    pub fn members_mut(&mut self) -> (r: &mut Vec<Member>)
        ensures
            *r == old(self).members,
            *final(self) == (Group { members: *final(r), ..*old(self) }),
    {
        &mut self.members
    }
}

impl LdapObject for Group {
    type Rest = (GroupProperties, Vec<Member>);

    open spec fn rest(&self) -> Self::Rest {
        (self.properties, self.members)
    }

    open spec fn common_spec(&self) -> NodeCommon {
        self.common
    }

    fn common(&self) -> (r: &NodeCommon) {
        &self.common
    }

    fn common_mut(&mut self) -> (r: &mut NodeCommon) {
        &mut self.common
    }
}

/// The name of the type in the index.
pub const GROUP_TYPE: &'static str = "Group";

impl Group {
    /// What the attribute `name` says of a group.
    pub open spec fn spec_on_name(
        v: GroupView,
        values: Seq<Seq<char>>,
        ctx: ContextView,
    ) -> GroupView {
        GroupView {
            properties: GroupPropertiesView {
                name: spec_qualified(values[0], "@"@, ctx.domain),
                ..v.properties
            },
            ..v
        }
    }

    fn on_name(&mut self, values: &Vec<String>, ctx: &Context)
        requires
            values@.len() > 0,
        ensures
            final(self)@ == Self::spec_on_name(
                old(self)@,
                texts(values@),
                ctx@,
            ),
    {
        let first = values[0].as_str();
        assert(texts(values@)[0] == values@[0]@);
        self.properties.name = qualified(first, "@", ctx.domain.as_str());
    }

    /// What the attribute `sAMAccountName` says of a group.
    pub open spec fn spec_on_sam_account_name(
        v: GroupView,
        values: Seq<Seq<char>>,
        ctx: ContextView,
    ) -> GroupView {
        GroupView {
            properties: GroupPropertiesView {
                samaccountname: values[0],
                ..v.properties
            },
            ..v
        }
    }

    fn on_sam_account_name(&mut self, values: &Vec<String>, ctx: &Context)
        requires
            values@.len() > 0,
        ensures
            final(self)@ == Self::spec_on_sam_account_name(
                old(self)@,
                texts(values@),
                ctx@,
            ),
    {
        assert(texts(values@)[0] == values@[0]@);
        self.properties.samaccountname = values[0].clone();
    }

    /// What the attribute `description` says of a group.
    pub open spec fn spec_on_description(
        v: GroupView,
        values: Seq<Seq<char>>,
        ctx: ContextView,
    ) -> GroupView {
        GroupView {
            properties: GroupPropertiesView {
                description: Some(values[0]),
                ..v.properties
            },
            ..v
        }
    }

    fn on_description(&mut self, values: &Vec<String>, ctx: &Context)
        requires
            values@.len() > 0,
        ensures
            final(self)@ == Self::spec_on_description(
                old(self)@,
                texts(values@),
                ctx@,
            ),
    {
        assert(texts(values@)[0] == values@[0]@);
        self.properties.description = Some(values[0].clone());
    }

    /// What the attribute `adminCount` says of a group.
    pub open spec fn spec_on_admin_count(
        v: GroupView,
        values: Seq<Seq<char>>,
        ctx: ContextView,
    ) -> GroupView {
        GroupView {
            properties: GroupPropertiesView {
                admincount: values[0] == "1"@,
                ..v.properties
            },
            ..v
        }
    }

    fn on_admin_count(&mut self, values: &Vec<String>, ctx: &Context)
        requires
            values@.len() > 0,
        ensures
            final(self)@ == Self::spec_on_admin_count(
                old(self)@,
                texts(values@),
                ctx@,
            ),
    {
        let first = values[0].as_str();
        assert(texts(values@)[0] == values@[0]@);
        self.properties.admincount = str_eq(first, "1");
    }

    /// What the attribute `whenCreated` says of a group.
    pub open spec fn spec_on_when_created(
        v: GroupView,
        values: Seq<Seq<char>>,
        ctx: ContextView,
    ) -> GroupView {
        GroupView {
            properties: GroupPropertiesView {
                whencreated: spec_created(values[0], v.properties.whencreated),
                ..v.properties
            },
            ..v
        }
    }

    fn on_when_created(&mut self, values: &Vec<String>, ctx: &Context)
        requires
            values@.len() > 0,
        ensures
            final(self)@ == Self::spec_on_when_created(
                old(self)@,
                texts(values@),
                ctx@,
            ),
    {
        let first = values[0].as_str();
        assert(texts(values@)[0] == values@[0]@);
        self.properties.whencreated = created(first, self.properties.whencreated);
    }

    /// What the attribute `member` says of a group.
    pub open spec fn spec_on_member(
        v: GroupView,
        values: Seq<Seq<char>>,
        ctx: ContextView,
    ) -> GroupView {
        GroupView {
            members: named_members(values, GROUP_TYPE@),
            ..v
        }
    }

    fn on_member(&mut self, values: &Vec<String>, ctx: &Context)
        requires
            values@.len() > 0,
        ensures
            final(self)@ == Self::spec_on_member(
                old(self)@,
                texts(values@),
                ctx@,
            ),
    {
        self.members = members_from_names(values, GROUP_TYPE);
    }

    /// What the attribute `IsDeleted` says of a group.
    pub open spec fn spec_on_is_deleted(
        v: GroupView,
        values: Seq<Seq<char>>,
        ctx: ContextView,
    ) -> GroupView {
        GroupView {
            common: NodeCommonView {
                is_deleted: true,
                ..v.common
            },
            ..v
        }
    }

    fn on_is_deleted(&mut self, values: &Vec<String>, ctx: &Context)
        requires
            values@.len() > 0,
        ensures
            final(self)@ == Self::spec_on_is_deleted(
                old(self)@,
                texts(values@),
                ctx@,
            ),
    {
        self.common.is_deleted = true;
    }

    /// What the attribute `objectSid` says of a group.
    pub open spec fn spec_on_object_sid(
        v: GroupView,
        values: Seq<Seq<u8>>,
        ctx: ContextView,
    ) -> GroupView {
        GroupView {
            common: with_sid(v.common, values[0], ctx.domain),
            properties: GroupPropertiesView {
                domainsid: issuing_domain(
                    spec_decode_sid(values[0], ctx.domain),
                    v.properties.domainsid,
                ),
                ..v.properties
            },
            ..v
        }
    }

    fn on_object_sid(&mut self, values: &Vec<Vec<u8>>, ctx: &Context)
        requires
            values@.len() > 0,
        ensures
            final(self)@ == Self::spec_on_object_sid(
                old(self)@,
                blobs(values@),
                ctx@,
            ),
    {
        assert(blobs(values@)[0] == values@[0]@);
        match set_sid(&mut self.common, &values[0], ctx.domain.as_str()) {
            Some(issuer) => {
                self.properties.domainsid = issuer;
            },
            None => {},
        }
    }

    /// What the attribute `nTSecurityDescriptor` says of a group.
    pub open spec fn spec_on_nt_security_descriptor(
        v: GroupView,
        values: Seq<Seq<u8>>,
        ctx: ContextView,
    ) -> GroupView {
        GroupView {
            common: with_descriptor(v.common, values[0], GROUP_TYPE@, ctx.domain),
            properties: GroupPropertiesView {
                isaclprotected: spec_is_protected(values[0]),
                ..v.properties
            },
            ..v
        }
    }

    fn on_nt_security_descriptor(&mut self, values: &Vec<Vec<u8>>, ctx: &Context)
        requires
            values@.len() > 0,
        ensures
            final(self)@ == Self::spec_on_nt_security_descriptor(
                old(self)@,
                blobs(values@),
                ctx@,
            ),
    {
        assert(blobs(values@)[0] == values@[0]@);
        set_descriptor(&mut self.common, &values[0], GROUP_TYPE, ctx.domain.as_str());
        self.properties.isaclprotected = self.common.is_acl_protected;
    }
}

impl AttributeSink for Group {
    /// What one text attribute does to a group. An attribute without values
    /// or one that the type does not know changes nothing.
    open spec fn text_attr(
        v: GroupView,
        key: Seq<char>,
        values: Seq<Seq<char>>,
        ctx: ContextView,
    ) -> GroupView {
        if values.len() == 0 {
            v
        } else if key == "name"@ {
            Self::spec_on_name(v, values, ctx)
        } else if key == "sAMAccountName"@ {
            Self::spec_on_sam_account_name(v, values, ctx)
        } else if key == "description"@ {
            Self::spec_on_description(v, values, ctx)
        } else if key == "adminCount"@ {
            Self::spec_on_admin_count(v, values, ctx)
        } else if key == "whenCreated"@ {
            Self::spec_on_when_created(v, values, ctx)
        } else if key == "member"@ {
            Self::spec_on_member(v, values, ctx)
        } else if key == "IsDeleted"@ {
            Self::spec_on_is_deleted(v, values, ctx)
        } else {
            v
        }
    }

    /// What one binary attribute does to a group.
    open spec fn bin_attr(
        v: GroupView,
        key: Seq<char>,
        values: Seq<Seq<u8>>,
        ctx: ContextView,
    ) -> GroupView {
        if values.len() == 0 {
            v
        } else if key == "objectSid"@ {
            Self::spec_on_object_sid(v, values, ctx)
        } else if key == "nTSecurityDescriptor"@ {
            Self::spec_on_nt_security_descriptor(v, values, ctx)
        } else {
            v
        }
    }

    fn apply_text(&mut self, key: &str, values: &Vec<String>, ctx: &Context) {
        if values.len() == 0 {
            return ;
        }
        if str_eq(key, "name") {
            self.on_name(values, ctx);
        } else if str_eq(key, "sAMAccountName") {
            self.on_sam_account_name(values, ctx);
        } else if str_eq(key, "description") {
            self.on_description(values, ctx);
        } else if str_eq(key, "adminCount") {
            self.on_admin_count(values, ctx);
        } else if str_eq(key, "whenCreated") {
            self.on_when_created(values, ctx);
        } else if str_eq(key, "member") {
            self.on_member(values, ctx);
        } else if str_eq(key, "IsDeleted") {
            self.on_is_deleted(values, ctx);
        }
    }

    fn apply_bin(&mut self, key: &str, values: &Vec<Vec<u8>>, ctx: &Context) {
        if values.len() == 0 {
            return ;
        }
        if str_eq(key, "objectSid") {
            self.on_object_sid(values, ctx);
        } else if str_eq(key, "nTSecurityDescriptor") {
            self.on_nt_security_descriptor(values, ctx);
        }
    }
}

impl Group {
    /// The group before the attributes of its record are read: what
    /// the record's name and the collected domain say of it.
    pub open spec fn spec_begin(
        v: GroupView,
        entry: EntryView,
        domain: Seq<char>,
        domain_sid: Seq<char>,
    ) -> GroupView {
        GroupView {
            properties: GroupPropertiesView {
                domain: spec_to_uppercase(domain),
                distinguishedname: spec_to_uppercase(entry.dn),
                domainsid: domain_sid,
                ..v.properties
            },
            ..v
        }
    }

    /// The group that a record describes.
    pub open spec fn spec_parse(
        v: GroupView,
        entry: EntryView,
        domain: Seq<char>,
        domain_sid: Seq<char>,
    ) -> GroupView {
        decoded::<Group>(
            Self::spec_begin(v, entry, domain, domain_sid),
            entry,
            ContextView { domain, domain_sid },
        )
    }

    /// Decodes the record of a group and enters the group in the index.
    pub fn parse(
        &mut self,
        result: &LdapSearchEntry,
        domain: &str,
        dn_sid: &mut StringMap,
        sid_type: &mut StringMap,
        domain_sid: &str,
    )
        ensures
            final(self)@ == Self::spec_parse(
                old(self)@,
                result@,
                domain@,
                domain_sid@,
            ),
            final(dn_sid)@ == registered_dn(
                old(dn_sid)@,
                final(self)@.properties.distinguishedname,
                final(self)@.common.object_identifier,
            ),
            final(sid_type)@ == registered_type(
                old(sid_type)@,
                final(self)@.common.object_identifier,
                GROUP_TYPE@,
            ),
    {
        self.properties.domain = upper(domain);
        self.properties.distinguishedname = upper(result.dn.as_str());
        self.properties.domainsid = String::from_str(domain_sid);
        let ctx = Context::new(domain, domain_sid);
        decode_attrs(self, result, &ctx);
        register(
            dn_sid,
            sid_type,
            self.properties.distinguishedname.as_str(),
            self.common.object_identifier.as_str(),
            GROUP_TYPE,
        );
    }
}
} // verus!
