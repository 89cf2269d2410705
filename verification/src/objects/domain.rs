//! Domains.

use crate::enums::acl::spec_is_protected;
use crate::enums::forestlevel::{get_forest_level, spec_forest_level};
use crate::enums::gplink::{parse_gplink, spec_parse_gplink};
use crate::enums::sid::spec_decode_sid;
use crate::ldap::{blobs, EntryView, LdapSearchEntry};
use crate::mappings::StringMap;
use crate::objects::common::{
    bare_node, empty_gpo_change, GPOChange, GPOChangeView, LdapObject, NodeCommon, NodeCommonView,
};
use crate::objects::decode::{
    created, decode_attrs, decoded, domain_of_dn, i32_or_zero, i64_or_zero, issuing_domain,
    register, registered_dn, registered_type, set_descriptor, set_sid, span, spec_created,
    spec_domain_of_dn, spec_i32_or_zero, spec_i64_or_zero, spec_span, with_descriptor, with_sid,
    AttributeSink, Context, ContextView,
};
use crate::objects::trust::{trust_views, Trust, TrustView};
use crate::text::{contains, contains_seq, opt_text, spec_to_uppercase, str_eq, texts, upper};
use vstd::prelude::*;
use vstd::string::*;

verus! {

/// The attributes of a domain.
#[derive(Debug)]
pub struct DomainProperties {
    pub domain: String,
    pub name: String,
    pub distinguishedname: String,
    pub domainsid: String,
    pub isaclprotected: bool,
    pub highvalue: bool,
    pub description: Option<String>,
    pub whencreated: i64,
    pub machineaccountquota: i32,
    pub expirepasswordsonsmartcardonlyaccounts: bool,
    pub minpwdlength: i32,
    pub pwdproperties: i32,
    pub pwdhistorylength: i32,
    pub lockoutthreshold: i32,
    pub minpwdage: String,
    pub maxpwdage: String,
    pub lockoutduration: String,
    pub lockoutobservationwindow: i64,
    pub functionallevel: String,
    pub collected: bool,
}

/// A `DomainProperties` as plain values.
pub struct DomainPropertiesView {
    pub domain: Seq<char>,
    pub name: Seq<char>,
    pub distinguishedname: Seq<char>,
    pub domainsid: Seq<char>,
    pub isaclprotected: bool,
    pub highvalue: bool,
    pub description: Option<Seq<char>>,
    pub whencreated: i64,
    pub machineaccountquota: i32,
    pub expirepasswordsonsmartcardonlyaccounts: bool,
    pub minpwdlength: i32,
    pub pwdproperties: i32,
    pub pwdhistorylength: i32,
    pub lockoutthreshold: i32,
    pub minpwdage: Seq<char>,
    pub maxpwdage: Seq<char>,
    pub lockoutduration: Seq<char>,
    pub lockoutobservationwindow: i64,
    pub functionallevel: Seq<char>,
    pub collected: bool,
}

impl View for DomainProperties {
    type V = DomainPropertiesView;

    open spec fn view(&self) -> DomainPropertiesView {
        DomainPropertiesView {
            domain: self.domain@,
            name: self.name@,
            distinguishedname: self.distinguishedname@,
            domainsid: self.domainsid@,
            isaclprotected: self.isaclprotected,
            highvalue: self.highvalue,
            description: opt_text(self.description),
            whencreated: self.whencreated,
            machineaccountquota: self.machineaccountquota,
            expirepasswordsonsmartcardonlyaccounts: self.expirepasswordsonsmartcardonlyaccounts,
            minpwdlength: self.minpwdlength,
            pwdproperties: self.pwdproperties,
            pwdhistorylength: self.pwdhistorylength,
            lockoutthreshold: self.lockoutthreshold,
            minpwdage: self.minpwdage@,
            maxpwdage: self.maxpwdage@,
            lockoutduration: self.lockoutduration@,
            lockoutobservationwindow: self.lockoutobservationwindow,
            functionallevel: self.functionallevel@,
            collected: self.collected,
        }
    }
}

impl DomainProperties {
    /// The attributes of a domain of which nothing is known yet.
    pub open spec fn spec_new() -> DomainPropertiesView {
        DomainPropertiesView {
            domain: Seq::empty(),
            name: Seq::empty(),
            distinguishedname: Seq::empty(),
            domainsid: Seq::empty(),
            isaclprotected: false,
            highvalue: false,
            description: None,
            whencreated: 0i64,
            machineaccountquota: 0i32,
            expirepasswordsonsmartcardonlyaccounts: false,
            minpwdlength: 0i32,
            pwdproperties: 0i32,
            pwdhistorylength: 0i32,
            lockoutthreshold: 0i32,
            minpwdage: Seq::empty(),
            maxpwdage: Seq::empty(),
            lockoutduration: Seq::empty(),
            lockoutobservationwindow: 0i64,
            functionallevel: Seq::empty(),
            collected: false,
        }
    }

    pub fn new() -> (r: Self)
        ensures
            r@ == Self::spec_new(),
    {
        let r = DomainProperties {
            domain: String::new(),
            name: String::new(),
            distinguishedname: String::new(),
            domainsid: String::new(),
            isaclprotected: false,
            highvalue: false,
            description: None,
            whencreated: 0,
            machineaccountquota: 0,
            expirepasswordsonsmartcardonlyaccounts: false,
            minpwdlength: 0,
            pwdproperties: 0,
            pwdhistorylength: 0,
            lockoutthreshold: 0,
            minpwdage: String::new(),
            maxpwdage: String::new(),
            lockoutduration: String::new(),
            lockoutobservationwindow: 0,
            functionallevel: String::new(),
            collected: false,
        };
        r
    }

    pub fn domain_mut(&mut self) -> (r: &mut String)
        ensures
            *r == old(self).domain,
            *final(self) == (DomainProperties { domain: *final(r), ..*old(self) }),
    {
        &mut self.domain
    }

    pub fn name_mut(&mut self) -> (r: &mut String)
        ensures
            *r == old(self).name,
            *final(self) == (DomainProperties { name: *final(r), ..*old(self) }),
    {
        &mut self.name
    }

    pub fn highvalue_mut(&mut self) -> (r: &mut bool)
        ensures
            *r == old(self).highvalue,
            *final(self) == (DomainProperties { highvalue: *final(r), ..*old(self) }),
    {
        &mut self.highvalue
    }

    pub fn distinguishedname_mut(&mut self) -> (r: &mut String)
        ensures
            *r == old(self).distinguishedname,
            *final(self) == (DomainProperties { distinguishedname: *final(r), ..*old(self) }),
    {
        &mut self.distinguishedname
    }
}
/// A domain, with its trusts and the scope of its policies.
#[derive(Debug)]
pub struct Domain {
    pub properties: DomainProperties,
    pub gpo_changes: GPOChange,
    pub trusts: Vec<Trust>,
    pub common: NodeCommon,
}

/// A `Domain` as plain values.
pub struct DomainView {
    pub properties: DomainPropertiesView,
    pub gpo_changes: GPOChangeView,
    pub trusts: Seq<TrustView>,
    pub common: NodeCommonView,
}

impl View for Domain {
    type V = DomainView;

    open spec fn view(&self) -> DomainView {
        DomainView {
            properties: self.properties@,
            gpo_changes: self.gpo_changes@,
            trusts: trust_views(self.trusts@),
            common: self.common@,
        }
    }
}

impl Domain {
    /// A domain that no record has described yet.
    pub open spec fn spec_new() -> DomainView {
        DomainView {
            properties: DomainProperties::spec_new(),
            gpo_changes: empty_gpo_change(),
            trusts: Seq::empty(),
            common: bare_node(),
        }
    }

    pub fn new() -> (r: Self)
        ensures
            r@ == Self::spec_new(),
    {
        let r = Domain {
            properties: DomainProperties::new(),
            gpo_changes: GPOChange::new(),
            trusts: Vec::new(),
            common: NodeCommon::new(),
        };
        assert(r@.trusts =~= Seq::empty());
        r
    }

    pub fn properties_mut(&mut self) -> (r: &mut DomainProperties)
        ensures
            *r == old(self).properties,
            *final(self) == (Domain { properties: *final(r), ..*old(self) }),
    {
        &mut self.properties
    }

    pub fn object_identifier_mut(&mut self) -> (r: &mut String)
        ensures
            *r == old(self).common.object_identifier,
            *final(self) == (Domain {
                common: NodeCommon { object_identifier: *final(r), ..old(self).common },
                ..*old(self)
            }),
    {
        &mut self.common.object_identifier
    }

    pub fn gpo_changes_mut(&mut self) -> (r: &mut GPOChange)
        ensures
            *r == old(self).gpo_changes,
            *final(self) == (Domain { gpo_changes: *final(r), ..*old(self) }),
    {
        &mut self.gpo_changes
    }

    pub fn trusts_mut(&mut self) -> (r: &mut Vec<Trust>)
        ensures
            *r == old(self).trusts,
            *final(self) == (Domain { trusts: *final(r), ..*old(self) }),
    {
        &mut self.trusts
    }
}

impl LdapObject for Domain {
    type Rest = (DomainProperties, GPOChange, Vec<Trust>);

    open spec fn rest(&self) -> Self::Rest {
        (self.properties, self.gpo_changes, self.trusts)
    }

    open spec fn common_spec(&self) -> NodeCommon {
        self.common
    }

    fn common(&self) -> (r: &NodeCommon) {
        &self.common
    }

    fn common_mut(&mut self) -> (r: &mut NodeCommon) {
        &mut self.common
    }
}

/// The name of the type in the index.
pub const DOMAIN_TYPE: &'static str = "Domain";

impl Domain {
    /// What the attribute `distinguishedName` says of a domain.
    pub open spec fn spec_on_distinguished_name(
        v: DomainView,
        values: Seq<Seq<char>>,
        ctx: ContextView,
    ) -> DomainView {
        DomainView {
            properties: DomainPropertiesView {
                distinguishedname: spec_to_uppercase(values[0]),
                name: spec_to_uppercase(spec_domain_of_dn(values[0])),
                domain: spec_to_uppercase(spec_domain_of_dn(values[0])),
                ..v.properties
            },
            ..v
        }
    }

    fn on_distinguished_name(&mut self, values: &Vec<String>, ctx: &Context)
        requires
            values@.len() > 0,
        ensures
            final(self)@ == Self::spec_on_distinguished_name(
                old(self)@,
                texts(values@),
                ctx@,
            ),
    {
        let first = values[0].as_str();
        assert(texts(values@)[0] == values@[0]@);
        self.properties.distinguishedname = upper(first);
        let name = domain_of_dn(first);
        self.properties.name = upper(name.as_str());
        self.properties.domain = upper(name.as_str());
    }

    /// What the attribute `msDS-Behavior-Version` says of a domain.
    pub open spec fn spec_on_ms_ds_behavior_version(
        v: DomainView,
        values: Seq<Seq<char>>,
        ctx: ContextView,
    ) -> DomainView {
        DomainView {
            properties: DomainPropertiesView {
                functionallevel: spec_forest_level(values[0]),
                ..v.properties
            },
            ..v
        }
    }

    fn on_ms_ds_behavior_version(&mut self, values: &Vec<String>, ctx: &Context)
        requires
            values@.len() > 0,
        ensures
            final(self)@ == Self::spec_on_ms_ds_behavior_version(
                old(self)@,
                texts(values@),
                ctx@,
            ),
    {
        assert(texts(values@)[0] == values@[0]@);
        self.properties.functionallevel = get_forest_level(values[0].clone());
    }

    /// What the attribute `whenCreated` says of a domain.
    pub open spec fn spec_on_when_created(
        v: DomainView,
        values: Seq<Seq<char>>,
        ctx: ContextView,
    ) -> DomainView {
        DomainView {
            properties: DomainPropertiesView {
                whencreated: spec_created(values[0], v.properties.whencreated),
                ..v.properties
            },
            ..v
        }
    }

    fn on_when_created(&mut self, values: &Vec<String>, ctx: &Context)
        requires
            values@.len() > 0,
        ensures
            final(self)@ == Self::spec_on_when_created(
                old(self)@,
                texts(values@),
                ctx@,
            ),
    {
        let first = values[0].as_str();
        assert(texts(values@)[0] == values@[0]@);
        self.properties.whencreated = created(first, self.properties.whencreated);
    }

    /// What the attribute `gPLink` says of a domain.
    pub open spec fn spec_on_gp_link(
        v: DomainView,
        values: Seq<Seq<char>>,
        ctx: ContextView,
    ) -> DomainView {
        DomainView {
            common: NodeCommonView {
                links: spec_parse_gplink(values[0]),
                ..v.common
            },
            ..v
        }
    }

    fn on_gp_link(&mut self, values: &Vec<String>, ctx: &Context)
        requires
            values@.len() > 0,
        ensures
            final(self)@ == Self::spec_on_gp_link(
                old(self)@,
                texts(values@),
                ctx@,
            ),
    {
        assert(texts(values@)[0] == values@[0]@);
        self.common.links = parse_gplink(values[0].clone());
    }

    /// What the attribute `isCriticalSystemObject` says of a domain.
    pub open spec fn spec_on_is_critical_system_object(
        v: DomainView,
        values: Seq<Seq<char>>,
        ctx: ContextView,
    ) -> DomainView {
        DomainView {
            properties: DomainPropertiesView {
                highvalue: contains_seq(values[0], "TRUE"@),
                ..v.properties
            },
            ..v
        }
    }

    fn on_is_critical_system_object(&mut self, values: &Vec<String>, ctx: &Context)
        requires
            values@.len() > 0,
        ensures
            final(self)@ == Self::spec_on_is_critical_system_object(
                old(self)@,
                texts(values@),
                ctx@,
            ),
    {
        let first = values[0].as_str();
        assert(texts(values@)[0] == values@[0]@);
        self.properties.highvalue = contains(first, "TRUE");
    }

    /// What the attribute `ms-DS-MachineAccountQuota` says of a domain.
    pub open spec fn spec_on_ms_ds_machine_account_quota(
        v: DomainView,
        values: Seq<Seq<char>>,
        ctx: ContextView,
    ) -> DomainView {
        DomainView {
            properties: DomainPropertiesView {
                machineaccountquota: spec_i32_or_zero(values[0]),
                ..v.properties
            },
            ..v
        }
    }

    fn on_ms_ds_machine_account_quota(&mut self, values: &Vec<String>, ctx: &Context)
        requires
            values@.len() > 0,
        ensures
            final(self)@ == Self::spec_on_ms_ds_machine_account_quota(
                old(self)@,
                texts(values@),
                ctx@,
            ),
    {
        let first = values[0].as_str();
        assert(texts(values@)[0] == values@[0]@);
        self.properties.machineaccountquota = i32_or_zero(first);
    }

    /// What the attribute `IsDeleted` says of a domain.
    pub open spec fn spec_on_is_deleted(
        v: DomainView,
        values: Seq<Seq<char>>,
        ctx: ContextView,
    ) -> DomainView {
        DomainView {
            common: NodeCommonView {
                is_deleted: true,
                ..v.common
            },
            ..v
        }
    }

    fn on_is_deleted(&mut self, values: &Vec<String>, ctx: &Context)
        requires
            values@.len() > 0,
        ensures
            final(self)@ == Self::spec_on_is_deleted(
                old(self)@,
                texts(values@),
                ctx@,
            ),
    {
        self.common.is_deleted = true;
    }

    /// What the attribute `msDS-ExpirePasswordsOnSmartCardOnlyAccounts` says of a domain.
    pub open spec fn spec_on_ms_ds_expire_passwords_on_smart_card_only_accounts(
        v: DomainView,
        values: Seq<Seq<char>>,
        ctx: ContextView,
    ) -> DomainView {
        DomainView {
            properties: DomainPropertiesView {
                expirepasswordsonsmartcardonlyaccounts: true,
                ..v.properties
            },
            ..v
        }
    }

    fn on_ms_ds_expire_passwords_on_smart_card_only_accounts(
        &mut self,
        values: &Vec<String>,
        ctx: &Context,
    )
        requires
            values@.len() > 0,
        ensures
            final(self)@ == Self::spec_on_ms_ds_expire_passwords_on_smart_card_only_accounts(
                old(self)@,
                texts(values@),
                ctx@,
            ),
    {
        self.properties.expirepasswordsonsmartcardonlyaccounts = true;
    }

    /// What the attribute `minPwdLength` says of a domain.
    pub open spec fn spec_on_min_pwd_length(
        v: DomainView,
        values: Seq<Seq<char>>,
        ctx: ContextView,
    ) -> DomainView {
        DomainView {
            properties: DomainPropertiesView {
                minpwdlength: spec_i32_or_zero(values[0]),
                ..v.properties
            },
            ..v
        }
    }

    fn on_min_pwd_length(&mut self, values: &Vec<String>, ctx: &Context)
        requires
            values@.len() > 0,
        ensures
            final(self)@ == Self::spec_on_min_pwd_length(
                old(self)@,
                texts(values@),
                ctx@,
            ),
    {
        let first = values[0].as_str();
        assert(texts(values@)[0] == values@[0]@);
        self.properties.minpwdlength = i32_or_zero(first);
    }

    /// What the attribute `pwdProperties` says of a domain.
    pub open spec fn spec_on_pwd_properties(
        v: DomainView,
        values: Seq<Seq<char>>,
        ctx: ContextView,
    ) -> DomainView {
        DomainView {
            properties: DomainPropertiesView {
                pwdproperties: spec_i32_or_zero(values[0]),
                ..v.properties
            },
            ..v
        }
    }

    fn on_pwd_properties(&mut self, values: &Vec<String>, ctx: &Context)
        requires
            values@.len() > 0,
        ensures
            final(self)@ == Self::spec_on_pwd_properties(
                old(self)@,
                texts(values@),
                ctx@,
            ),
    {
        let first = values[0].as_str();
        assert(texts(values@)[0] == values@[0]@);
        self.properties.pwdproperties = i32_or_zero(first);
    }

    /// What the attribute `pwdHistoryLength` says of a domain.
    pub open spec fn spec_on_pwd_history_length(
        v: DomainView,
        values: Seq<Seq<char>>,
        ctx: ContextView,
    ) -> DomainView {
        DomainView {
            properties: DomainPropertiesView {
                pwdhistorylength: spec_i32_or_zero(values[0]),
                ..v.properties
            },
            ..v
        }
    }

    fn on_pwd_history_length(&mut self, values: &Vec<String>, ctx: &Context)
        requires
            values@.len() > 0,
        ensures
            final(self)@ == Self::spec_on_pwd_history_length(
                old(self)@,
                texts(values@),
                ctx@,
            ),
    {
        let first = values[0].as_str();
        assert(texts(values@)[0] == values@[0]@);
        self.properties.pwdhistorylength = i32_or_zero(first);
    }

    /// What the attribute `lockoutThreshold` says of a domain.
    pub open spec fn spec_on_lockout_threshold(
        v: DomainView,
        values: Seq<Seq<char>>,
        ctx: ContextView,
    ) -> DomainView {
        DomainView {
            properties: DomainPropertiesView {
                lockoutthreshold: spec_i32_or_zero(values[0]),
                ..v.properties
            },
            ..v
        }
    }

    fn on_lockout_threshold(&mut self, values: &Vec<String>, ctx: &Context)
        requires
            values@.len() > 0,
        ensures
            final(self)@ == Self::spec_on_lockout_threshold(
                old(self)@,
                texts(values@),
                ctx@,
            ),
    {
        let first = values[0].as_str();
        assert(texts(values@)[0] == values@[0]@);
        self.properties.lockoutthreshold = i32_or_zero(first);
    }

    /// What the attribute `minPwdAge` says of a domain.
    pub open spec fn spec_on_min_pwd_age(
        v: DomainView,
        values: Seq<Seq<char>>,
        ctx: ContextView,
    ) -> DomainView {
        DomainView {
            properties: DomainPropertiesView {
                minpwdage: spec_span(values[0]),
                ..v.properties
            },
            ..v
        }
    }

    fn on_min_pwd_age(&mut self, values: &Vec<String>, ctx: &Context)
        requires
            values@.len() > 0,
        ensures
            final(self)@ == Self::spec_on_min_pwd_age(
                old(self)@,
                texts(values@),
                ctx@,
            ),
    {
        let first = values[0].as_str();
        assert(texts(values@)[0] == values@[0]@);
        self.properties.minpwdage = span(first);
    }

    /// What the attribute `maxPwdAge` says of a domain.
    pub open spec fn spec_on_max_pwd_age(
        v: DomainView,
        values: Seq<Seq<char>>,
        ctx: ContextView,
    ) -> DomainView {
        DomainView {
            properties: DomainPropertiesView {
                maxpwdage: spec_span(values[0]),
                ..v.properties
            },
            ..v
        }
    }

    fn on_max_pwd_age(&mut self, values: &Vec<String>, ctx: &Context)
        requires
            values@.len() > 0,
        ensures
            final(self)@ == Self::spec_on_max_pwd_age(
                old(self)@,
                texts(values@),
                ctx@,
            ),
    {
        let first = values[0].as_str();
        assert(texts(values@)[0] == values@[0]@);
        self.properties.maxpwdage = span(first);
    }

    /// What the attribute `lockoutDuration` says of a domain.
    pub open spec fn spec_on_lockout_duration(
        v: DomainView,
        values: Seq<Seq<char>>,
        ctx: ContextView,
    ) -> DomainView {
        DomainView {
            properties: DomainPropertiesView {
                lockoutduration: spec_span(values[0]),
                ..v.properties
            },
            ..v
        }
    }

    fn on_lockout_duration(&mut self, values: &Vec<String>, ctx: &Context)
        requires
            values@.len() > 0,
        ensures
            final(self)@ == Self::spec_on_lockout_duration(
                old(self)@,
                texts(values@),
                ctx@,
            ),
    {
        let first = values[0].as_str();
        assert(texts(values@)[0] == values@[0]@);
        self.properties.lockoutduration = span(first);
    }

    /// What the attribute `lockOutObservationWindow` says of a domain.
    pub open spec fn spec_on_lock_out_observation_window(
        v: DomainView,
        values: Seq<Seq<char>>,
        ctx: ContextView,
    ) -> DomainView {
        DomainView {
            properties: DomainPropertiesView {
                lockoutobservationwindow: spec_i64_or_zero(values[0]),
                ..v.properties
            },
            ..v
        }
    }

    fn on_lock_out_observation_window(&mut self, values: &Vec<String>, ctx: &Context)
        requires
            values@.len() > 0,
        ensures
            final(self)@ == Self::spec_on_lock_out_observation_window(
                old(self)@,
                texts(values@),
                ctx@,
            ),
    {
        let first = values[0].as_str();
        assert(texts(values@)[0] == values@[0]@);
        self.properties.lockoutobservationwindow = i64_or_zero(first);
    }

    /// What the attribute `objectSid` says of a domain.
    pub open spec fn spec_on_object_sid(
        v: DomainView,
        values: Seq<Seq<u8>>,
        ctx: ContextView,
    ) -> DomainView {
        DomainView {
            common: with_sid(v.common, values[0], ctx.domain),
            properties: DomainPropertiesView {
                domainsid: issuing_domain(
                    spec_decode_sid(values[0], ctx.domain),
                    v.properties.domainsid,
                ),
                collected: true,
                ..v.properties
            },
            ..v
        }
    }

    fn on_object_sid(&mut self, values: &Vec<Vec<u8>>, ctx: &Context)
        requires
            values@.len() > 0,
        ensures
            final(self)@ == Self::spec_on_object_sid(
                old(self)@,
                blobs(values@),
                ctx@,
            ),
    {
        assert(blobs(values@)[0] == values@[0]@);
        match set_sid(&mut self.common, &values[0], ctx.domain.as_str()) {
            Some(issuer) => {
                self.properties.domainsid = issuer;
            },
            None => {},
        }
        self.properties.collected = true;
    }

    /// What the attribute `nTSecurityDescriptor` says of a domain.
    pub open spec fn spec_on_nt_security_descriptor(
        v: DomainView,
        values: Seq<Seq<u8>>,
        ctx: ContextView,
    ) -> DomainView {
        DomainView {
            common: with_descriptor(v.common, values[0], DOMAIN_TYPE@, ctx.domain),
            properties: DomainPropertiesView {
                isaclprotected: spec_is_protected(values[0]),
                ..v.properties
            },
            ..v
        }
    }

    fn on_nt_security_descriptor(&mut self, values: &Vec<Vec<u8>>, ctx: &Context)
        requires
            values@.len() > 0,
        ensures
            final(self)@ == Self::spec_on_nt_security_descriptor(
                old(self)@,
                blobs(values@),
                ctx@,
            ),
    {
        assert(blobs(values@)[0] == values@[0]@);
        set_descriptor(&mut self.common, &values[0], DOMAIN_TYPE, ctx.domain.as_str());
        self.properties.isaclprotected = self.common.is_acl_protected;
    }
}

impl AttributeSink for Domain {
    /// What one text attribute does to a domain. An attribute without values
    /// or one that the type does not know changes nothing.
    open spec fn text_attr(
        v: DomainView,
        key: Seq<char>,
        values: Seq<Seq<char>>,
        ctx: ContextView,
    ) -> DomainView {
        if values.len() == 0 {
            v
        } else if key == "distinguishedName"@ {
            Self::spec_on_distinguished_name(v, values, ctx)
        } else if key == "msDS-Behavior-Version"@ {
            Self::spec_on_ms_ds_behavior_version(v, values, ctx)
        } else if key == "whenCreated"@ {
            Self::spec_on_when_created(v, values, ctx)
        } else if key == "gPLink"@ {
            Self::spec_on_gp_link(v, values, ctx)
        } else if key == "isCriticalSystemObject"@ {
            Self::spec_on_is_critical_system_object(v, values, ctx)
        } else if key == "ms-DS-MachineAccountQuota"@ {
            Self::spec_on_ms_ds_machine_account_quota(v, values, ctx)
        } else if key == "IsDeleted"@ {
            Self::spec_on_is_deleted(v, values, ctx)
        } else if key == "msDS-ExpirePasswordsOnSmartCardOnlyAccounts"@ {
            Self::spec_on_ms_ds_expire_passwords_on_smart_card_only_accounts(v, values, ctx)
        } else if key == "minPwdLength"@ {
            Self::spec_on_min_pwd_length(v, values, ctx)
        } else if key == "pwdProperties"@ {
            Self::spec_on_pwd_properties(v, values, ctx)
        } else if key == "pwdHistoryLength"@ {
            Self::spec_on_pwd_history_length(v, values, ctx)
        } else if key == "lockoutThreshold"@ {
            Self::spec_on_lockout_threshold(v, values, ctx)
        } else if key == "minPwdAge"@ {
            Self::spec_on_min_pwd_age(v, values, ctx)
        } else if key == "maxPwdAge"@ {
            Self::spec_on_max_pwd_age(v, values, ctx)
        } else if key == "lockoutDuration"@ {
            Self::spec_on_lockout_duration(v, values, ctx)
        } else if key == "lockOutObservationWindow"@ {
            Self::spec_on_lock_out_observation_window(v, values, ctx)
        } else {
            v
        }
    }

    /// What one binary attribute does to a domain.
    open spec fn bin_attr(
        v: DomainView,
        key: Seq<char>,
        values: Seq<Seq<u8>>,
        ctx: ContextView,
    ) -> DomainView {
        if values.len() == 0 {
            v
        } else if key == "objectSid"@ {
            Self::spec_on_object_sid(v, values, ctx)
        } else if key == "nTSecurityDescriptor"@ {
            Self::spec_on_nt_security_descriptor(v, values, ctx)
        } else {
            v
        }
    }

    fn apply_text(&mut self, key: &str, values: &Vec<String>, ctx: &Context) {
        if values.len() == 0 {
            return ;
        }
        if str_eq(key, "distinguishedName") {
            self.on_distinguished_name(values, ctx);
        } else if str_eq(key, "msDS-Behavior-Version") {
            self.on_ms_ds_behavior_version(values, ctx);
        } else if str_eq(key, "whenCreated") {
            self.on_when_created(values, ctx);
        } else if str_eq(key, "gPLink") {
            self.on_gp_link(values, ctx);
        } else if str_eq(key, "isCriticalSystemObject") {
            self.on_is_critical_system_object(values, ctx);
        } else if str_eq(key, "ms-DS-MachineAccountQuota") {
            self.on_ms_ds_machine_account_quota(values, ctx);
        } else if str_eq(key, "IsDeleted") {
            self.on_is_deleted(values, ctx);
        } else if str_eq(key, "msDS-ExpirePasswordsOnSmartCardOnlyAccounts") {
            self.on_ms_ds_expire_passwords_on_smart_card_only_accounts(values, ctx);
        } else if str_eq(key, "minPwdLength") {
            self.on_min_pwd_length(values, ctx);
        } else if str_eq(key, "pwdProperties") {
            self.on_pwd_properties(values, ctx);
        } else if str_eq(key, "pwdHistoryLength") {
            self.on_pwd_history_length(values, ctx);
        } else if str_eq(key, "lockoutThreshold") {
            self.on_lockout_threshold(values, ctx);
        } else if str_eq(key, "minPwdAge") {
            self.on_min_pwd_age(values, ctx);
        } else if str_eq(key, "maxPwdAge") {
            self.on_max_pwd_age(values, ctx);
        } else if str_eq(key, "lockoutDuration") {
            self.on_lockout_duration(values, ctx);
        } else if str_eq(key, "lockOutObservationWindow") {
            self.on_lock_out_observation_window(values, ctx);
        }
    }

    fn apply_bin(&mut self, key: &str, values: &Vec<Vec<u8>>, ctx: &Context) {
        if values.len() == 0 {
            return ;
        }
        if str_eq(key, "objectSid") {
            self.on_object_sid(values, ctx);
        } else if str_eq(key, "nTSecurityDescriptor") {
            self.on_nt_security_descriptor(values, ctx);
        }
    }
}

impl Domain {
    /// The domain before the attributes of its record are read: what
    /// the record's name and the collected domain say of it.
    pub open spec fn spec_begin(
        v: DomainView,
        entry: EntryView,
        domain: Seq<char>,
        domain_sid: Seq<char>,
    ) -> DomainView {
        DomainView {
            properties: DomainPropertiesView {
                domain: spec_to_uppercase(domain),
                distinguishedname: spec_to_uppercase(entry.dn),
                ..v.properties
            },
            ..v
        }
    }

    /// The domain that a record describes.
    pub open spec fn spec_parse(
        v: DomainView,
        entry: EntryView,
        domain: Seq<char>,
        domain_sid: Seq<char>,
    ) -> DomainView {
        decoded::<Domain>(
            Self::spec_begin(v, entry, domain, domain_sid),
            entry,
            ContextView { domain, domain_sid },
        )
    }

    /// The identifier of the domain as the record gives it, or the
    /// placeholder `DOMAIN_SID` when the record gives none.
    pub open spec fn spec_domain_sid_of(v: DomainView) -> Seq<char> {
        if v.properties.domainsid.len() > 0 {
            v.properties.domainsid
        } else {
            UNKNOWN_DOMAIN_SID@
        }
    }

    /// Decodes the record of a domain and enters the domain in the index.
    /// Returns the identifier of the domain for the decoders of the records
    /// that follow.
    pub fn parse(
        &mut self,
        result: &LdapSearchEntry,
        domain: &str,
        dn_sid: &mut StringMap,
        sid_type: &mut StringMap,
    ) -> (found: String)
        ensures
            final(self)@ == Self::spec_parse(
                old(self)@,
                result@,
                domain@,
                old(self)@.properties.domainsid,
            ),
            final(dn_sid)@ == registered_dn(
                old(dn_sid)@,
                final(self)@.properties.distinguishedname,
                final(self)@.common.object_identifier,
            ),
            final(sid_type)@ == registered_type(
                old(sid_type)@,
                final(self)@.common.object_identifier,
                DOMAIN_TYPE@,
            ),
            found@ == Self::spec_domain_sid_of(final(self)@),
    {
        self.properties.domain = upper(domain);
        self.properties.distinguishedname = upper(result.dn.as_str());
        let ctx = Context::new(domain, self.properties.domainsid.as_str());
        decode_attrs(self, result, &ctx);
        register(
            dn_sid,
            sid_type,
            self.properties.distinguishedname.as_str(),
            self.common.object_identifier.as_str(),
            DOMAIN_TYPE,
        );
        if self.properties.domainsid.as_str().is_empty() {
            String::from_str(UNKNOWN_DOMAIN_SID)
        } else {
            self.properties.domainsid.clone()
        }
    }
}
/// What stands for the identifier of the domain while no domain record has
/// given it.
pub const UNKNOWN_DOMAIN_SID: &'static str = "DOMAIN_SID";

} // verus!
