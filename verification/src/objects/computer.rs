//! Computer accounts.

use crate::enums::acl::spec_is_protected;
use crate::enums::sid::spec_decode_sid;
use crate::enums::uacflags::{
    flag_set, has_flag, ACCOUNT_DISABLE, DONT_EXPIRE_PASSWORD, PASSWORD_NOT_REQUIRED,
    SERVER_TRUST_ACCOUNT, TRUSTED_FOR_DELEGATION, TRUSTED_TO_AUTH_FOR_DELEGATION,
};
use crate::ldap::{blobs, EntryView, LdapSearchEntry};
use crate::mappings::StringMap;
use crate::objects::common::{
    bare_node, member_views, LdapObject, Member, MemberView, NodeCommon, NodeCommonView,
};
use crate::objects::decode::{
    acting_principals, created, decode_attrs, decoded, delegation_hosts, encryption_types,
    get_acting_principals, hosts_from_targets, issuing_domain, primary_group, qualified, register,
    register_host, registered_dn, registered_type, seeded_address, set_descriptor, set_sid,
    spec_created, spec_encryption_types, spec_primary_group, spec_qualified, spec_timestamp,
    timestamp, with_descriptor, with_sid, AttributeSink, Context, ContextView,
};
use crate::text::{clone_texts, opt_text, spec_to_uppercase, str_eq, texts, upper};
use crate::utils::format::{parse_u32, spec_parse_u32};
use vstd::prelude::*;
use vstd::string::*;

verus! {

/// The attributes of a computer account.
#[derive(Debug)]
pub struct ComputerProperties {
    pub domain: String,
    pub name: String,
    pub distinguishedname: String,
    pub domainsid: String,
    pub isaclprotected: bool,
    pub highvalue: bool,
    pub samaccountname: String,
    pub haslaps: bool,
    pub description: Option<String>,
    pub whencreated: i64,
    pub enabled: bool,
    pub unconstraineddelegation: bool,
    pub trustedtoauth: bool,
    pub lastlogon: i64,
    pub lastlogontimestamp: i64,
    pub pwdlastset: i64,
    pub passwordnotreqd: bool,
    pub pwdneverexpires: bool,
    pub serviceprincipalnames: Vec<String>,
    pub operatingsystem: String,
    pub sidhistory: Vec<String>,
    pub supportedencryptiontypes: Vec<String>,
    pub is_dc: bool,
}

/// A `ComputerProperties` as plain values.
pub struct ComputerPropertiesView {
    pub domain: Seq<char>,
    pub name: Seq<char>,
    pub distinguishedname: Seq<char>,
    pub domainsid: Seq<char>,
    pub isaclprotected: bool,
    pub highvalue: bool,
    pub samaccountname: Seq<char>,
    pub haslaps: bool,
    pub description: Option<Seq<char>>,
    pub whencreated: i64,
    pub enabled: bool,
    pub unconstraineddelegation: bool,
    pub trustedtoauth: bool,
    pub lastlogon: i64,
    pub lastlogontimestamp: i64,
    pub pwdlastset: i64,
    pub passwordnotreqd: bool,
    pub pwdneverexpires: bool,
    pub serviceprincipalnames: Seq<Seq<char>>,
    pub operatingsystem: Seq<char>,
    pub sidhistory: Seq<Seq<char>>,
    pub supportedencryptiontypes: Seq<Seq<char>>,
    pub is_dc: bool,
}

impl View for ComputerProperties {
    type V = ComputerPropertiesView;

    open spec fn view(&self) -> ComputerPropertiesView {
        ComputerPropertiesView {
            domain: self.domain@,
            name: self.name@,
            distinguishedname: self.distinguishedname@,
            domainsid: self.domainsid@,
            isaclprotected: self.isaclprotected,
            highvalue: self.highvalue,
            samaccountname: self.samaccountname@,
            haslaps: self.haslaps,
            description: opt_text(self.description),
            whencreated: self.whencreated,
            enabled: self.enabled,
            unconstraineddelegation: self.unconstraineddelegation,
            trustedtoauth: self.trustedtoauth,
            lastlogon: self.lastlogon,
            lastlogontimestamp: self.lastlogontimestamp,
            pwdlastset: self.pwdlastset,
            passwordnotreqd: self.passwordnotreqd,
            pwdneverexpires: self.pwdneverexpires,
            serviceprincipalnames: texts(self.serviceprincipalnames@),
            operatingsystem: self.operatingsystem@,
            sidhistory: texts(self.sidhistory@),
            supportedencryptiontypes: texts(self.supportedencryptiontypes@),
            is_dc: self.is_dc,
        }
    }
}

impl ComputerProperties {
    /// The attributes of a computer of which nothing is known yet.
    pub open spec fn spec_new() -> ComputerPropertiesView {
        ComputerPropertiesView {
            domain: Seq::empty(),
            name: Seq::empty(),
            distinguishedname: Seq::empty(),
            domainsid: Seq::empty(),
            isaclprotected: false,
            highvalue: false,
            samaccountname: Seq::empty(),
            haslaps: false,
            description: None,
            whencreated: 0i64,
            enabled: false,
            unconstraineddelegation: false,
            trustedtoauth: false,
            lastlogon: 0i64,
            lastlogontimestamp: 0i64,
            pwdlastset: 0i64,
            passwordnotreqd: false,
            pwdneverexpires: false,
            serviceprincipalnames: Seq::empty(),
            operatingsystem: Seq::empty(),
            sidhistory: Seq::empty(),
            supportedencryptiontypes: Seq::empty(),
            is_dc: false,
        }
    }

    pub fn new() -> (r: Self)
        ensures
            r@ == Self::spec_new(),
    {
        let r = ComputerProperties {
            domain: String::new(),
            name: String::new(),
            distinguishedname: String::new(),
            domainsid: String::new(),
            isaclprotected: false,
            highvalue: false,
            samaccountname: String::new(),
            haslaps: false,
            description: None,
            whencreated: 0,
            enabled: false,
            unconstraineddelegation: false,
            trustedtoauth: false,
            lastlogon: 0,
            lastlogontimestamp: 0,
            pwdlastset: 0,
            passwordnotreqd: false,
            pwdneverexpires: false,
            serviceprincipalnames: Vec::new(),
            operatingsystem: String::new(),
            sidhistory: Vec::new(),
            supportedencryptiontypes: Vec::new(),
            is_dc: false,
        };
        assert(r@.serviceprincipalnames =~= Seq::empty());
        assert(r@.sidhistory =~= Seq::empty());
        assert(r@.supportedencryptiontypes =~= Seq::empty());
        r
    }

    pub fn name(&self) -> (r: &String)
        ensures
            *r == self.name,
    {
        &self.name
    }

    pub fn unconstraineddelegation(&self) -> (r: &bool)
        ensures
            *r == self.unconstraineddelegation,
    {
        &self.unconstraineddelegation
    }

    pub fn enabled(&self) -> (r: &bool)
        ensures
            *r == self.enabled,
    {
        &self.enabled
    }

    pub fn get_is_dc(&self) -> (r: &bool)
        ensures
            *r == self.is_dc,
    {
        &self.is_dc
    }
}
/// A computer account and its delegation edges.
#[derive(Debug)]
pub struct Computer {
    pub properties: ComputerProperties,
    pub common: NodeCommon,
    pub primary_group_sid: String,
    /// Principals that may act on behalf of others towards this computer.
    pub allowed_to_act: Vec<Member>,
    pub has_sid_history: Vec<String>,
    pub dump_smsa_password: Vec<Member>,
    pub is_dc: bool,
    pub unconstrained_delegation: bool,
    pub domain_sid: String,
    pub status: Option<String>,
}

/// A `Computer` as plain values.
pub struct ComputerView {
    pub properties: ComputerPropertiesView,
    pub common: NodeCommonView,
    pub primary_group_sid: Seq<char>,
    pub allowed_to_act: Seq<MemberView>,
    pub has_sid_history: Seq<Seq<char>>,
    pub dump_smsa_password: Seq<MemberView>,
    pub is_dc: bool,
    pub unconstrained_delegation: bool,
    pub domain_sid: Seq<char>,
    pub status: Option<Seq<char>>,
}

impl View for Computer {
    type V = ComputerView;

    open spec fn view(&self) -> ComputerView {
        ComputerView {
            properties: self.properties@,
            common: self.common@,
            primary_group_sid: self.primary_group_sid@,
            allowed_to_act: member_views(self.allowed_to_act@),
            has_sid_history: texts(self.has_sid_history@),
            dump_smsa_password: member_views(self.dump_smsa_password@),
            is_dc: self.is_dc,
            unconstrained_delegation: self.unconstrained_delegation,
            domain_sid: self.domain_sid@,
            status: opt_text(self.status),
        }
    }
}

impl Computer {
    /// A computer that no record has described yet.
    pub open spec fn spec_new() -> ComputerView {
        ComputerView {
            properties: ComputerProperties::spec_new(),
            common: bare_node(),
            primary_group_sid: Seq::empty(),
            allowed_to_act: Seq::empty(),
            has_sid_history: Seq::empty(),
            dump_smsa_password: Seq::empty(),
            is_dc: false,
            unconstrained_delegation: false,
            domain_sid: Seq::empty(),
            status: None,
        }
    }

    pub fn new() -> (r: Self)
        ensures
            r@ == Self::spec_new(),
    {
        let r = Computer {
            properties: ComputerProperties::new(),
            common: NodeCommon::new(),
            primary_group_sid: String::new(),
            allowed_to_act: Vec::new(),
            has_sid_history: Vec::new(),
            dump_smsa_password: Vec::new(),
            is_dc: false,
            unconstrained_delegation: false,
            domain_sid: String::new(),
            status: None,
        };
        assert(r@.allowed_to_act =~= Seq::empty());
        assert(r@.has_sid_history =~= Seq::empty());
        assert(r@.dump_smsa_password =~= Seq::empty());
        r
    }

    pub fn properties(&self) -> (r: &ComputerProperties)
        ensures
            *r == self.properties,
    {
        &self.properties
    }

    pub fn object_identifier(&self) -> (r: &String)
        ensures
            *r == self.common.object_identifier,
    {
        &self.common.object_identifier
    }

    pub fn allowed_to_act(&self) -> (r: &Vec<Member>)
        ensures
            *r == self.allowed_to_act,
    {
        &self.allowed_to_act
    }

    pub fn allowed_to_act_mut(&mut self) -> (r: &mut Vec<Member>)
        ensures
            *r == old(self).allowed_to_act,
            *final(self) == (Computer { allowed_to_act: *final(r), ..*old(self) }),
    {
        &mut self.allowed_to_act
    }
}

impl LdapObject for Computer {
    type Rest = (
        ComputerProperties,
        String,
        Vec<Member>,
        Vec<String>,
        Vec<Member>,
        bool,
        bool,
        String,
        Option<String>,
    );

    open spec fn rest(&self) -> Self::Rest {
        (
            self.properties,
            self.primary_group_sid,
            self.allowed_to_act,
            self.has_sid_history,
            self.dump_smsa_password,
            self.is_dc,
            self.unconstrained_delegation,
            self.domain_sid,
            self.status,
        )
    }

    open spec fn common_spec(&self) -> NodeCommon {
        self.common
    }

    fn common(&self) -> (r: &NodeCommon) {
        &self.common
    }

    fn common_mut(&mut self) -> (r: &mut NodeCommon) {
        &mut self.common
    }
}

/// The name of the type in the index.
pub const COMPUTER_TYPE: &'static str = "Computer";

impl Computer {
    /// What the attribute `name` says of a computer account.
    pub open spec fn spec_on_name(
        v: ComputerView,
        values: Seq<Seq<char>>,
        ctx: ContextView,
    ) -> ComputerView {
        ComputerView {
            properties: ComputerPropertiesView {
                name: spec_qualified(values[0], "."@, ctx.domain),
                ..v.properties
            },
            ..v
        }
    }

    fn on_name(&mut self, values: &Vec<String>, ctx: &Context)
        requires
            values@.len() > 0,
        ensures
            final(self)@ == Self::spec_on_name(
                old(self)@,
                texts(values@),
                ctx@,
            ),
    {
        let first = values[0].as_str();
        assert(texts(values@)[0] == values@[0]@);
        self.properties.name = qualified(first, ".", ctx.domain.as_str());
    }

    /// What the attribute `sAMAccountName` says of a computer account.
    pub open spec fn spec_on_sam_account_name(
        v: ComputerView,
        values: Seq<Seq<char>>,
        ctx: ContextView,
    ) -> ComputerView {
        ComputerView {
            properties: ComputerPropertiesView {
                samaccountname: values[0],
                ..v.properties
            },
            ..v
        }
    }

    fn on_sam_account_name(&mut self, values: &Vec<String>, ctx: &Context)
        requires
            values@.len() > 0,
        ensures
            final(self)@ == Self::spec_on_sam_account_name(
                old(self)@,
                texts(values@),
                ctx@,
            ),
    {
        assert(texts(values@)[0] == values@[0]@);
        self.properties.samaccountname = values[0].clone();
    }

    /// What the attribute `dNSHostName` says of a computer account.
    pub open spec fn spec_on_dns_host_name(
        v: ComputerView,
        values: Seq<Seq<char>>,
        ctx: ContextView,
    ) -> ComputerView {
        ComputerView {
            properties: ComputerPropertiesView {
                name: spec_to_uppercase(values[0]),
                ..v.properties
            },
            ..v
        }
    }

    fn on_dns_host_name(&mut self, values: &Vec<String>, ctx: &Context)
        requires
            values@.len() > 0,
        ensures
            final(self)@ == Self::spec_on_dns_host_name(
                old(self)@,
                texts(values@),
                ctx@,
            ),
    {
        let first = values[0].as_str();
        assert(texts(values@)[0] == values@[0]@);
        self.properties.name = upper(first);
    }

    /// What the attribute `description` says of a computer account.
    pub open spec fn spec_on_description(
        v: ComputerView,
        values: Seq<Seq<char>>,
        ctx: ContextView,
    ) -> ComputerView {
        ComputerView {
            properties: ComputerPropertiesView {
                description: Some(values[0]),
                ..v.properties
            },
            ..v
        }
    }

    fn on_description(&mut self, values: &Vec<String>, ctx: &Context)
        requires
            values@.len() > 0,
        ensures
            final(self)@ == Self::spec_on_description(
                old(self)@,
                texts(values@),
                ctx@,
            ),
    {
        assert(texts(values@)[0] == values@[0]@);
        self.properties.description = Some(values[0].clone());
    }

    /// What the attribute `operatingSystem` says of a computer account.
    pub open spec fn spec_on_operating_system(
        v: ComputerView,
        values: Seq<Seq<char>>,
        ctx: ContextView,
    ) -> ComputerView {
        ComputerView {
            properties: ComputerPropertiesView {
                operatingsystem: values[0],
                ..v.properties
            },
            ..v
        }
    }

    fn on_operating_system(&mut self, values: &Vec<String>, ctx: &Context)
        requires
            values@.len() > 0,
        ensures
            final(self)@ == Self::spec_on_operating_system(
                old(self)@,
                texts(values@),
                ctx@,
            ),
    {
        assert(texts(values@)[0] == values@[0]@);
        self.properties.operatingsystem = values[0].clone();
    }

    /// What the attribute `lastLogon` says of a computer account.
    pub open spec fn spec_on_last_logon(
        v: ComputerView,
        values: Seq<Seq<char>>,
        ctx: ContextView,
    ) -> ComputerView {
        ComputerView {
            properties: ComputerPropertiesView {
                lastlogon: spec_timestamp(values[0], v.properties.lastlogon),
                ..v.properties
            },
            ..v
        }
    }

    fn on_last_logon(&mut self, values: &Vec<String>, ctx: &Context)
        requires
            values@.len() > 0,
        ensures
            final(self)@ == Self::spec_on_last_logon(
                old(self)@,
                texts(values@),
                ctx@,
            ),
    {
        let first = values[0].as_str();
        assert(texts(values@)[0] == values@[0]@);
        self.properties.lastlogon = timestamp(first, self.properties.lastlogon);
    }

    /// What the attribute `lastLogonTimestamp` says of a computer account.
    pub open spec fn spec_on_last_logon_timestamp(
        v: ComputerView,
        values: Seq<Seq<char>>,
        ctx: ContextView,
    ) -> ComputerView {
        ComputerView {
            properties: ComputerPropertiesView {
                lastlogontimestamp: spec_timestamp(values[0], v.properties.lastlogontimestamp),
                ..v.properties
            },
            ..v
        }
    }

    fn on_last_logon_timestamp(&mut self, values: &Vec<String>, ctx: &Context)
        requires
            values@.len() > 0,
        ensures
            final(self)@ == Self::spec_on_last_logon_timestamp(
                old(self)@,
                texts(values@),
                ctx@,
            ),
    {
        let first = values[0].as_str();
        assert(texts(values@)[0] == values@[0]@);
        self.properties.lastlogontimestamp = timestamp(first, self.properties.lastlogontimestamp);
    }

    /// What the attribute `pwdLastSet` says of a computer account.
    pub open spec fn spec_on_pwd_last_set(
        v: ComputerView,
        values: Seq<Seq<char>>,
        ctx: ContextView,
    ) -> ComputerView {
        ComputerView {
            properties: ComputerPropertiesView {
                pwdlastset: spec_timestamp(values[0], v.properties.pwdlastset),
                ..v.properties
            },
            ..v
        }
    }

    fn on_pwd_last_set(&mut self, values: &Vec<String>, ctx: &Context)
        requires
            values@.len() > 0,
        ensures
            final(self)@ == Self::spec_on_pwd_last_set(
                old(self)@,
                texts(values@),
                ctx@,
            ),
    {
        let first = values[0].as_str();
        assert(texts(values@)[0] == values@[0]@);
        self.properties.pwdlastset = timestamp(first, self.properties.pwdlastset);
    }

    /// What the attribute `whenCreated` says of a computer account.
    pub open spec fn spec_on_when_created(
        v: ComputerView,
        values: Seq<Seq<char>>,
        ctx: ContextView,
    ) -> ComputerView {
        ComputerView {
            properties: ComputerPropertiesView {
                whencreated: spec_created(values[0], v.properties.whencreated),
                ..v.properties
            },
            ..v
        }
    }

    fn on_when_created(&mut self, values: &Vec<String>, ctx: &Context)
        requires
            values@.len() > 0,
        ensures
            final(self)@ == Self::spec_on_when_created(
                old(self)@,
                texts(values@),
                ctx@,
            ),
    {
        let first = values[0].as_str();
        assert(texts(values@)[0] == values@[0]@);
        self.properties.whencreated = created(first, self.properties.whencreated);
    }

    /// What the attribute `servicePrincipalName` says of a computer account.
    pub open spec fn spec_on_service_principal_name(
        v: ComputerView,
        values: Seq<Seq<char>>,
        ctx: ContextView,
    ) -> ComputerView {
        ComputerView {
            properties: ComputerPropertiesView {
                serviceprincipalnames: values,
                ..v.properties
            },
            ..v
        }
    }

    fn on_service_principal_name(&mut self, values: &Vec<String>, ctx: &Context)
        requires
            values@.len() > 0,
        ensures
            final(self)@ == Self::spec_on_service_principal_name(
                old(self)@,
                texts(values@),
                ctx@,
            ),
    {
        self.properties.serviceprincipalnames = clone_texts(values);
    }

    /// What the attribute `userAccountControl` says of a computer account.
    pub open spec fn spec_on_user_account_control(
        v: ComputerView,
        values: Seq<Seq<char>>,
        ctx: ContextView,
    ) -> ComputerView {
        match spec_parse_u32(values[0]) {
                Some(uac) => ComputerView {
                    properties: ComputerPropertiesView {
                        enabled: v.properties.enabled && !has_flag(uac, ACCOUNT_DISABLE),
                        unconstraineddelegation: v.properties.unconstraineddelegation || has_flag(
                            uac,
                            TRUSTED_FOR_DELEGATION,
                        ),
                        trustedtoauth: v.properties.trustedtoauth || has_flag(
                            uac,
                            TRUSTED_TO_AUTH_FOR_DELEGATION,
                        ),
                        passwordnotreqd: v.properties.passwordnotreqd || has_flag(
                            uac,
                            PASSWORD_NOT_REQUIRED,
                        ),
                        pwdneverexpires: v.properties.pwdneverexpires || has_flag(
                            uac,
                            DONT_EXPIRE_PASSWORD,
                        ),
                        is_dc: v.properties.is_dc || has_flag(uac, SERVER_TRUST_ACCOUNT),
                        ..v.properties
                    },
                    unconstrained_delegation: v.unconstrained_delegation || has_flag(
                        uac,
                        TRUSTED_FOR_DELEGATION,
                    ),
                    is_dc: v.is_dc || has_flag(uac, SERVER_TRUST_ACCOUNT),
                    ..v
                },
                None => v,
            }
    }

    fn on_user_account_control(&mut self, values: &Vec<String>, ctx: &Context)
        requires
            values@.len() > 0,
        ensures
            final(self)@ == Self::spec_on_user_account_control(
                old(self)@,
                texts(values@),
                ctx@,
            ),
    {
        let first = values[0].as_str();
        assert(texts(values@)[0] == values@[0]@);
        match parse_u32(first) {
            Some(uac) => {
                let delegation = flag_set(uac, TRUSTED_FOR_DELEGATION);
                let controller = flag_set(uac, SERVER_TRUST_ACCOUNT);
                let disabled = flag_set(uac, ACCOUNT_DISABLE);
                self.properties.enabled = self.properties.enabled && !disabled;
                self.properties.unconstraineddelegation = self.properties.unconstraineddelegation
                    || delegation;
                self.properties.trustedtoauth = self.properties.trustedtoauth || flag_set(
                    uac,
                    TRUSTED_TO_AUTH_FOR_DELEGATION,
                );
                self.properties.passwordnotreqd = self.properties.passwordnotreqd || flag_set(
                    uac,
                    PASSWORD_NOT_REQUIRED,
                );
                self.properties.pwdneverexpires = self.properties.pwdneverexpires || flag_set(
                    uac,
                    DONT_EXPIRE_PASSWORD,
                );
                self.properties.is_dc = self.properties.is_dc || controller;
                self.unconstrained_delegation = self.unconstrained_delegation || delegation;
                self.is_dc = self.is_dc || controller;
            },
            None => {},
        }
    }

    /// What the attribute `msDS-AllowedToDelegateTo` says of a computer account.
    pub open spec fn spec_on_ms_ds_allowed_to_delegate_to(
        v: ComputerView,
        values: Seq<Seq<char>>,
        ctx: ContextView,
    ) -> ComputerView {
        ComputerView {
            common: NodeCommonView {
                allowed_to_delegate: delegation_hosts(values, values.len()),
                ..v.common
            },
            ..v
        }
    }

    fn on_ms_ds_allowed_to_delegate_to(&mut self, values: &Vec<String>, ctx: &Context)
        requires
            values@.len() > 0,
        ensures
            final(self)@ == Self::spec_on_ms_ds_allowed_to_delegate_to(
                old(self)@,
                texts(values@),
                ctx@,
            ),
    {
        self.common.allowed_to_delegate = hosts_from_targets(values);
    }

    /// What the attribute `ms-Mcs-AdmPwd` or another attribute of the password
    /// solution, `msLAPS-Password` says of a computer account.
    pub open spec fn spec_on_laps(
        v: ComputerView,
        values: Seq<Seq<char>>,
        ctx: ContextView,
    ) -> ComputerView {
        ComputerView {
            properties: ComputerPropertiesView {
                haslaps: true,
                ..v.properties
            },
            ..v
        }
    }

    fn on_laps(&mut self, values: &Vec<String>, ctx: &Context)
        requires
            values@.len() > 0,
        ensures
            final(self)@ == Self::spec_on_laps(
                old(self)@,
                texts(values@),
                ctx@,
            ),
    {
        self.properties.haslaps = true;
    }

    /// What the attribute `primaryGroupID` says of a computer account.
    pub open spec fn spec_on_primary_group_id(
        v: ComputerView,
        values: Seq<Seq<char>>,
        ctx: ContextView,
    ) -> ComputerView {
        ComputerView {
            primary_group_sid: values[0],
            ..v
        }
    }

    fn on_primary_group_id(&mut self, values: &Vec<String>, ctx: &Context)
        requires
            values@.len() > 0,
        ensures
            final(self)@ == Self::spec_on_primary_group_id(
                old(self)@,
                texts(values@),
                ctx@,
            ),
    {
        assert(texts(values@)[0] == values@[0]@);
        self.primary_group_sid = values[0].clone();
    }

    /// What the attribute `IsDeleted` says of a computer account.
    pub open spec fn spec_on_is_deleted(
        v: ComputerView,
        values: Seq<Seq<char>>,
        ctx: ContextView,
    ) -> ComputerView {
        ComputerView {
            common: NodeCommonView {
                is_deleted: true,
                ..v.common
            },
            ..v
        }
    }

    fn on_is_deleted(&mut self, values: &Vec<String>, ctx: &Context)
        requires
            values@.len() > 0,
        ensures
            final(self)@ == Self::spec_on_is_deleted(
                old(self)@,
                texts(values@),
                ctx@,
            ),
    {
        self.common.is_deleted = true;
    }

    /// What the attribute `msDS-SupportedEncryptionTypes` says of a computer account.
    pub open spec fn spec_on_ms_ds_supported_encryption_types(
        v: ComputerView,
        values: Seq<Seq<char>>,
        ctx: ContextView,
    ) -> ComputerView {
        ComputerView {
            properties: ComputerPropertiesView {
                supportedencryptiontypes: spec_encryption_types(values[0]),
                ..v.properties
            },
            ..v
        }
    }

    fn on_ms_ds_supported_encryption_types(&mut self, values: &Vec<String>, ctx: &Context)
        requires
            values@.len() > 0,
        ensures
            final(self)@ == Self::spec_on_ms_ds_supported_encryption_types(
                old(self)@,
                texts(values@),
                ctx@,
            ),
    {
        let first = values[0].as_str();
        assert(texts(values@)[0] == values@[0]@);
        self.properties.supportedencryptiontypes = encryption_types(first);
    }

    /// What the attribute `objectSid` says of a computer account.
    pub open spec fn spec_on_object_sid(
        v: ComputerView,
        values: Seq<Seq<u8>>,
        ctx: ContextView,
    ) -> ComputerView {
        ComputerView {
            common: with_sid(v.common, values[0], ctx.domain),
            properties: ComputerPropertiesView {
                domainsid: issuing_domain(
                    spec_decode_sid(values[0], ctx.domain),
                    v.properties.domainsid,
                ),
                ..v.properties
            },
            ..v
        }
    }

    fn on_object_sid(&mut self, values: &Vec<Vec<u8>>, ctx: &Context)
        requires
            values@.len() > 0,
        ensures
            final(self)@ == Self::spec_on_object_sid(
                old(self)@,
                blobs(values@),
                ctx@,
            ),
    {
        assert(blobs(values@)[0] == values@[0]@);
        match set_sid(&mut self.common, &values[0], ctx.domain.as_str()) {
            Some(issuer) => {
                self.properties.domainsid = issuer;
            },
            None => {},
        }
    }

    /// What the attribute `nTSecurityDescriptor` says of a computer account.
    pub open spec fn spec_on_nt_security_descriptor(
        v: ComputerView,
        values: Seq<Seq<u8>>,
        ctx: ContextView,
    ) -> ComputerView {
        ComputerView {
            common: with_descriptor(v.common, values[0], COMPUTER_TYPE@, ctx.domain),
            properties: ComputerPropertiesView {
                isaclprotected: spec_is_protected(values[0]),
                ..v.properties
            },
            ..v
        }
    }

    fn on_nt_security_descriptor(&mut self, values: &Vec<Vec<u8>>, ctx: &Context)
        requires
            values@.len() > 0,
        ensures
            final(self)@ == Self::spec_on_nt_security_descriptor(
                old(self)@,
                blobs(values@),
                ctx@,
            ),
    {
        assert(blobs(values@)[0] == values@[0]@);
        set_descriptor(&mut self.common, &values[0], COMPUTER_TYPE, ctx.domain.as_str());
        self.properties.isaclprotected = self.common.is_acl_protected;
    }

    /// What the attribute `msDS-AllowedToActOnBehalfOfOtherIdentity` says of a computer account.
    pub open spec fn spec_on_ms_ds_allowed_to_act_on_behalf_of_other_identity(
        v: ComputerView,
        values: Seq<Seq<u8>>,
        ctx: ContextView,
    ) -> ComputerView {
        ComputerView {
            allowed_to_act: acting_principals(values[0], ctx.domain),
            ..v
        }
    }

    fn on_ms_ds_allowed_to_act_on_behalf_of_other_identity(
        &mut self,
        values: &Vec<Vec<u8>>,
        ctx: &Context,
    )
        requires
            values@.len() > 0,
        ensures
            final(self)@ == Self::spec_on_ms_ds_allowed_to_act_on_behalf_of_other_identity(
                old(self)@,
                blobs(values@),
                ctx@,
            ),
    {
        assert(blobs(values@)[0] == values@[0]@);
        self.allowed_to_act = get_acting_principals(&values[0], ctx.domain.as_str());
    }
}

impl AttributeSink for Computer {
    /// What one text attribute does to a computer account. An attribute without values
    /// or one that the type does not know changes nothing.
    open spec fn text_attr(
        v: ComputerView,
        key: Seq<char>,
        values: Seq<Seq<char>>,
        ctx: ContextView,
    ) -> ComputerView {
        if values.len() == 0 {
            v
        } else if key == "name"@ {
            Self::spec_on_name(v, values, ctx)
        } else if key == "sAMAccountName"@ {
            Self::spec_on_sam_account_name(v, values, ctx)
        } else if key == "dNSHostName"@ {
            Self::spec_on_dns_host_name(v, values, ctx)
        } else if key == "description"@ {
            Self::spec_on_description(v, values, ctx)
        } else if key == "operatingSystem"@ {
            Self::spec_on_operating_system(v, values, ctx)
        } else if key == "lastLogon"@ {
            Self::spec_on_last_logon(v, values, ctx)
        } else if key == "lastLogonTimestamp"@ {
            Self::spec_on_last_logon_timestamp(v, values, ctx)
        } else if key == "pwdLastSet"@ {
            Self::spec_on_pwd_last_set(v, values, ctx)
        } else if key == "whenCreated"@ {
            Self::spec_on_when_created(v, values, ctx)
        } else if key == "servicePrincipalName"@ {
            Self::spec_on_service_principal_name(v, values, ctx)
        } else if key == "userAccountControl"@ {
            Self::spec_on_user_account_control(v, values, ctx)
        } else if key == "msDS-AllowedToDelegateTo"@ {
            Self::spec_on_ms_ds_allowed_to_delegate_to(v, values, ctx)
        } else if key == "ms-Mcs-AdmPwd"@ {
            Self::spec_on_laps(v, values, ctx)
        } else if key == "ms-Mcs-AdmPwdExpirationTime"@ {
            Self::spec_on_laps(v, values, ctx)
        } else if key == "msLAPS-Password"@ {
            Self::spec_on_laps(v, values, ctx)
        } else if key == "msLAPS-EncryptedPassword"@ {
            Self::spec_on_laps(v, values, ctx)
        } else if key == "msLAPS-PasswordExpirationTime"@ {
            Self::spec_on_laps(v, values, ctx)
        } else if key == "primaryGroupID"@ {
            Self::spec_on_primary_group_id(v, values, ctx)
        } else if key == "IsDeleted"@ {
            Self::spec_on_is_deleted(v, values, ctx)
        } else if key == "msDS-SupportedEncryptionTypes"@ {
            Self::spec_on_ms_ds_supported_encryption_types(v, values, ctx)
        } else {
            v
        }
    }

    /// What one binary attribute does to a computer account.
    open spec fn bin_attr(
        v: ComputerView,
        key: Seq<char>,
        values: Seq<Seq<u8>>,
        ctx: ContextView,
    ) -> ComputerView {
        if values.len() == 0 {
            v
        } else if key == "objectSid"@ {
            Self::spec_on_object_sid(v, values, ctx)
        } else if key == "nTSecurityDescriptor"@ {
            Self::spec_on_nt_security_descriptor(v, values, ctx)
        } else if key == "msDS-AllowedToActOnBehalfOfOtherIdentity"@ {
            Self::spec_on_ms_ds_allowed_to_act_on_behalf_of_other_identity(v, values, ctx)
        } else {
            v
        }
    }

    fn apply_text(&mut self, key: &str, values: &Vec<String>, ctx: &Context) {
        if values.len() == 0 {
            return ;
        }
        if str_eq(key, "name") {
            self.on_name(values, ctx);
        } else if str_eq(key, "sAMAccountName") {
            self.on_sam_account_name(values, ctx);
        } else if str_eq(key, "dNSHostName") {
            self.on_dns_host_name(values, ctx);
        } else if str_eq(key, "description") {
            self.on_description(values, ctx);
        } else if str_eq(key, "operatingSystem") {
            self.on_operating_system(values, ctx);
        } else if str_eq(key, "lastLogon") {
            self.on_last_logon(values, ctx);
        } else if str_eq(key, "lastLogonTimestamp") {
            self.on_last_logon_timestamp(values, ctx);
        } else if str_eq(key, "pwdLastSet") {
            self.on_pwd_last_set(values, ctx);
        } else if str_eq(key, "whenCreated") {
            self.on_when_created(values, ctx);
        } else if str_eq(key, "servicePrincipalName") {
            self.on_service_principal_name(values, ctx);
        } else if str_eq(key, "userAccountControl") {
            self.on_user_account_control(values, ctx);
        } else if str_eq(key, "msDS-AllowedToDelegateTo") {
            self.on_ms_ds_allowed_to_delegate_to(values, ctx);
        } else if str_eq(key, "ms-Mcs-AdmPwd") {
            self.on_laps(values, ctx);
        } else if str_eq(key, "ms-Mcs-AdmPwdExpirationTime") {
            self.on_laps(values, ctx);
        } else if str_eq(key, "msLAPS-Password") {
            self.on_laps(values, ctx);
        } else if str_eq(key, "msLAPS-EncryptedPassword") {
            self.on_laps(values, ctx);
        } else if str_eq(key, "msLAPS-PasswordExpirationTime") {
            self.on_laps(values, ctx);
        } else if str_eq(key, "primaryGroupID") {
            self.on_primary_group_id(values, ctx);
        } else if str_eq(key, "IsDeleted") {
            self.on_is_deleted(values, ctx);
        } else if str_eq(key, "msDS-SupportedEncryptionTypes") {
            self.on_ms_ds_supported_encryption_types(values, ctx);
        }
    }

    fn apply_bin(&mut self, key: &str, values: &Vec<Vec<u8>>, ctx: &Context) {
        if values.len() == 0 {
            return ;
        }
        if str_eq(key, "objectSid") {
            self.on_object_sid(values, ctx);
        } else if str_eq(key, "nTSecurityDescriptor") {
            self.on_nt_security_descriptor(values, ctx);
        } else if str_eq(key, "msDS-AllowedToActOnBehalfOfOtherIdentity") {
            self.on_ms_ds_allowed_to_act_on_behalf_of_other_identity(values, ctx);
        }
    }
}

impl Computer {
    /// The computer before the attributes of its record are read: what
    /// the record's name and the collected domain say of it.
    pub open spec fn spec_begin(
        v: ComputerView,
        entry: EntryView,
        domain: Seq<char>,
        domain_sid: Seq<char>,
    ) -> ComputerView {
        ComputerView {
            properties: ComputerPropertiesView {
                domain: spec_to_uppercase(domain),
                distinguishedname: spec_to_uppercase(entry.dn),
                enabled: true,
                ..v.properties
            },
            domain_sid: domain_sid,
            ..v
        }
    }

    /// What is worked out once all the attributes are read. 
    /// The primary group is the computer's identifier with the number of the
    /// group in place of its last number.
    pub open spec fn spec_finish(v: ComputerView) -> ComputerView {
        ComputerView {
            primary_group_sid: spec_primary_group(
                v.common.object_identifier,
                v.primary_group_sid,
            ),
            ..v
        }
    }

    /// The computer that a record describes.
    pub open spec fn spec_parse(
        v: ComputerView,
        entry: EntryView,
        domain: Seq<char>,
        domain_sid: Seq<char>,
    ) -> ComputerView {
        Self::spec_finish(
            decoded::<Computer>(
                Self::spec_begin(v, entry, domain, domain_sid),
                entry,
                ContextView { domain, domain_sid },
            ),
        )
    }

    /// Decodes the record of a computer account and enters the computer in the index.
    pub fn parse(
        &mut self,
        result: &LdapSearchEntry,
        domain: &str,
        dn_sid: &mut StringMap,
        sid_type: &mut StringMap,
        fqdn_sid: &mut StringMap,
        fqdn_ip: &mut StringMap,
        domain_sid: &str,
    )
        ensures
            final(self)@ == Self::spec_parse(
                old(self)@,
                result@,
                domain@,
                domain_sid@,
            ),
            final(dn_sid)@ == registered_dn(
                old(dn_sid)@,
                final(self)@.properties.distinguishedname,
                final(self)@.common.object_identifier,
            ),
            final(sid_type)@ == registered_type(
                old(sid_type)@,
                final(self)@.common.object_identifier,
                COMPUTER_TYPE@,
            ),
            final(fqdn_sid)@ == registered_dn(
                old(fqdn_sid)@,
                final(self)@.properties.name,
                final(self)@.common.object_identifier,
            ),
            final(fqdn_ip)@ == seeded_address(
                old(fqdn_ip)@,
                final(self)@.properties.name,
                final(self)@.common.object_identifier,
            ),
    {
        self.properties.domain = upper(domain);
        self.properties.distinguishedname = upper(result.dn.as_str());
        self.properties.enabled = true;
        self.domain_sid = String::from_str(domain_sid);
        let ctx = Context::new(domain, domain_sid);
        decode_attrs(self, result, &ctx);
        self.primary_group_sid = primary_group(
            self.common.object_identifier.as_str(),
            self.primary_group_sid.as_str(),
        );
        register(
            dn_sid,
            sid_type,
            self.properties.distinguishedname.as_str(),
            self.common.object_identifier.as_str(),
            COMPUTER_TYPE,
        );
        register_host(
            fqdn_sid,
            fqdn_ip,
            self.properties.name.as_str(),
            self.common.object_identifier.as_str(),
        );
    }
}
} // verus!
