//! User accounts.

use crate::enums::acl::spec_is_protected;
use crate::enums::sid::spec_decode_sid;
use crate::enums::uacflags::{
    flag_set, has_flag, ACCOUNT_DISABLE, DONT_EXPIRE_PASSWORD, DONT_REQUIRE_PREAUTH, NOT_DELEGATED,
    PASSWORD_NOT_REQUIRED, TRUSTED_FOR_DELEGATION, TRUSTED_TO_AUTH_FOR_DELEGATION,
};
use crate::ldap::{blobs, EntryView, LdapSearchEntry};
use crate::mappings::StringMap;
use crate::objects::common::{bare_node, LdapObject, NodeCommon, NodeCommonView};
use crate::objects::decode::{
    created, decode_attrs, decoded, delegation_hosts, encryption_types, get_sql_targets,
    hosts_from_targets, issuing_domain, primary_group, qualified, register, registered_dn,
    registered_type, set_descriptor, set_sid, spec_created, spec_encryption_types,
    spec_primary_group, spec_qualified, spec_timestamp, sql_targets, timestamp, with_descriptor,
    with_sid, AttributeSink, Context, ContextView,
};
use crate::text::{clone_texts, opt_text, spec_to_uppercase, str_eq, texts, upper};
use crate::utils::format::{parse_u32, spec_parse_u32};
use vstd::prelude::*;
use vstd::string::*;

verus! {

/// The attributes of a user account.
#[derive(Debug)]
pub struct UserProperties {
    pub domain: String,
    pub name: String,
    pub distinguishedname: String,
    pub domainsid: String,
    pub isaclprotected: bool,
    pub highvalue: bool,
    pub samaccountname: String,
    pub description: Option<String>,
    pub whencreated: i64,
    pub sensitive: bool,
    pub dontreqpreauth: bool,
    pub passwordnotreqd: bool,
    pub unconstraineddelegation: bool,
    pub pwdneverexpires: bool,
    pub enabled: bool,
    pub trustedtoauth: bool,
    pub lastlogon: i64,
    pub lastlogontimestamp: i64,
    pub pwdlastset: i64,
    pub serviceprincipalnames: Vec<String>,
    pub hasspn: bool,
    pub displayname: String,
    pub email: String,
    pub title: String,
    pub homedirectory: String,
    pub logonscript: String,
    pub useraccountcontrol: u32,
    pub admincount: bool,
    pub sidhistory: Vec<String>,
    pub supportedencryptiontypes: Vec<String>,
}

/// A `UserProperties` as plain values.
pub struct UserPropertiesView {
    pub domain: Seq<char>,
    pub name: Seq<char>,
    pub distinguishedname: Seq<char>,
    pub domainsid: Seq<char>,
    pub isaclprotected: bool,
    pub highvalue: bool,
    pub samaccountname: Seq<char>,
    pub description: Option<Seq<char>>,
    pub whencreated: i64,
    pub sensitive: bool,
    pub dontreqpreauth: bool,
    pub passwordnotreqd: bool,
    pub unconstraineddelegation: bool,
    pub pwdneverexpires: bool,
    pub enabled: bool,
    pub trustedtoauth: bool,
    pub lastlogon: i64,
    pub lastlogontimestamp: i64,
    pub pwdlastset: i64,
    pub serviceprincipalnames: Seq<Seq<char>>,
    pub hasspn: bool,
    pub displayname: Seq<char>,
    pub email: Seq<char>,
    pub title: Seq<char>,
    pub homedirectory: Seq<char>,
    pub logonscript: Seq<char>,
    pub useraccountcontrol: u32,
    pub admincount: bool,
    pub sidhistory: Seq<Seq<char>>,
    pub supportedencryptiontypes: Seq<Seq<char>>,
}

impl View for UserProperties {
    type V = UserPropertiesView;

    open spec fn view(&self) -> UserPropertiesView {
        UserPropertiesView {
            domain: self.domain@,
            name: self.name@,
            distinguishedname: self.distinguishedname@,
            domainsid: self.domainsid@,
            isaclprotected: self.isaclprotected,
            highvalue: self.highvalue,
            samaccountname: self.samaccountname@,
            description: opt_text(self.description),
            whencreated: self.whencreated,
            sensitive: self.sensitive,
            dontreqpreauth: self.dontreqpreauth,
            passwordnotreqd: self.passwordnotreqd,
            unconstraineddelegation: self.unconstraineddelegation,
            pwdneverexpires: self.pwdneverexpires,
            enabled: self.enabled,
            trustedtoauth: self.trustedtoauth,
            lastlogon: self.lastlogon,
            lastlogontimestamp: self.lastlogontimestamp,
            pwdlastset: self.pwdlastset,
            serviceprincipalnames: texts(self.serviceprincipalnames@),
            hasspn: self.hasspn,
            displayname: self.displayname@,
            email: self.email@,
            title: self.title@,
            homedirectory: self.homedirectory@,
            logonscript: self.logonscript@,
            useraccountcontrol: self.useraccountcontrol,
            admincount: self.admincount,
            sidhistory: texts(self.sidhistory@),
            supportedencryptiontypes: texts(self.supportedencryptiontypes@),
        }
    }
}

impl UserProperties {
    /// The attributes of an account of which nothing is known yet.
    pub open spec fn spec_new() -> UserPropertiesView {
        UserPropertiesView {
            domain: Seq::empty(),
            name: Seq::empty(),
            distinguishedname: Seq::empty(),
            domainsid: Seq::empty(),
            isaclprotected: false,
            highvalue: false,
            samaccountname: Seq::empty(),
            description: None,
            whencreated: 0i64,
            sensitive: false,
            dontreqpreauth: false,
            passwordnotreqd: false,
            unconstraineddelegation: false,
            pwdneverexpires: false,
            enabled: true,
            trustedtoauth: false,
            lastlogon: 0i64,
            lastlogontimestamp: 0i64,
            pwdlastset: 0i64,
            serviceprincipalnames: Seq::empty(),
            hasspn: false,
            displayname: Seq::empty(),
            email: Seq::empty(),
            title: Seq::empty(),
            homedirectory: Seq::empty(),
            logonscript: Seq::empty(),
            useraccountcontrol: 0u32,
            admincount: false,
            sidhistory: Seq::empty(),
            supportedencryptiontypes: Seq::empty(),
        }
    }

    pub fn new() -> (r: Self)
        ensures
            r@ == Self::spec_new(),
    {
        let r = UserProperties {
            domain: String::new(),
            name: String::new(),
            distinguishedname: String::new(),
            domainsid: String::new(),
            isaclprotected: false,
            highvalue: false,
            samaccountname: String::new(),
            description: None,
            whencreated: 0,
            sensitive: false,
            dontreqpreauth: false,
            passwordnotreqd: false,
            unconstraineddelegation: false,
            pwdneverexpires: false,
            enabled: true,
            trustedtoauth: false,
            lastlogon: 0,
            lastlogontimestamp: 0,
            pwdlastset: 0,
            serviceprincipalnames: Vec::new(),
            hasspn: false,
            displayname: String::new(),
            email: String::new(),
            title: String::new(),
            homedirectory: String::new(),
            logonscript: String::new(),
            useraccountcontrol: 0,
            admincount: false,
            sidhistory: Vec::new(),
            supportedencryptiontypes: Vec::new(),
        };
        assert(r@.serviceprincipalnames =~= Seq::empty());
        assert(r@.sidhistory =~= Seq::empty());
        assert(r@.supportedencryptiontypes =~= Seq::empty());
        r
    }

    pub fn name(&self) -> (r: &String)
        ensures
            *r == self.name,
    {
        &self.name
    }

    pub fn domainsid(&self) -> (r: &String)
        ensures
            *r == self.domainsid,
    {
        &self.domainsid
    }

    pub fn name_mut(&mut self) -> (r: &mut String)
        ensures
            *r == old(self).name,
            *final(self) == (UserProperties { name: *final(r), ..*old(self) }),
    {
        &mut self.name
    }

    pub fn domainsid_mut(&mut self) -> (r: &mut String)
        ensures
            *r == old(self).domainsid,
            *final(self) == (UserProperties { domainsid: *final(r), ..*old(self) }),
    {
        &mut self.domainsid
    }
}
/// A user account.
#[derive(Debug)]
pub struct User {
    pub properties: UserProperties,
    pub common: NodeCommon,
    pub primary_group_sid: String,
    pub has_sid_history: Vec<String>,
}

/// A `User` as plain values.
pub struct UserView {
    pub properties: UserPropertiesView,
    pub common: NodeCommonView,
    pub primary_group_sid: Seq<char>,
    pub has_sid_history: Seq<Seq<char>>,
}

impl View for User {
    type V = UserView;

    open spec fn view(&self) -> UserView {
        UserView {
            properties: self.properties@,
            common: self.common@,
            primary_group_sid: self.primary_group_sid@,
            has_sid_history: texts(self.has_sid_history@),
        }
    }
}

impl User {
    /// An account that no record has described yet.
    pub open spec fn spec_new() -> UserView {
        UserView {
            properties: UserProperties::spec_new(),
            common: bare_node(),
            primary_group_sid: Seq::empty(),
            has_sid_history: Seq::empty(),
        }
    }

    pub fn new() -> (r: Self)
        ensures
            r@ == Self::spec_new(),
    {
        let r = User {
            properties: UserProperties::new(),
            common: NodeCommon::new(),
            primary_group_sid: String::new(),
            has_sid_history: Vec::new(),
        };
        assert(r@.has_sid_history =~= Seq::empty());
        r
    }

    pub fn properties(&self) -> (r: &UserProperties)
        ensures
            *r == self.properties,
    {
        &self.properties
    }

    pub fn object_identifier(&self) -> (r: &String)
        ensures
            *r == self.common.object_identifier,
    {
        &self.common.object_identifier
    }

    pub fn properties_mut(&mut self) -> (r: &mut UserProperties)
        ensures
            *r == old(self).properties,
            *final(self) == (User { properties: *final(r), ..*old(self) }),
    {
        &mut self.properties
    }

    pub fn object_identifier_mut(&mut self) -> (r: &mut String)
        ensures
            *r == old(self).common.object_identifier,
            *final(self) == (User {
                common: NodeCommon { object_identifier: *final(r), ..old(self).common },
                ..*old(self)
            }),
    {
        &mut self.common.object_identifier
    }
}

impl LdapObject for User {
    type Rest = (UserProperties, String, Vec<String>);

    open spec fn rest(&self) -> Self::Rest {
        (self.properties, self.primary_group_sid, self.has_sid_history)
    }

    open spec fn common_spec(&self) -> NodeCommon {
        self.common
    }

    fn common(&self) -> (r: &NodeCommon) {
        &self.common
    }

    fn common_mut(&mut self) -> (r: &mut NodeCommon) {
        &mut self.common
    }
}

/// The name of the type in the index.
pub const USER_TYPE: &'static str = "User";

impl User {
    /// What the attribute `sAMAccountName` says of a user account.
    pub open spec fn spec_on_sam_account_name(
        v: UserView,
        values: Seq<Seq<char>>,
        ctx: ContextView,
    ) -> UserView {
        UserView {
            properties: UserPropertiesView {
                samaccountname: values[0],
                name: spec_qualified(values[0], "@"@, ctx.domain),
                ..v.properties
            },
            ..v
        }
    }

    fn on_sam_account_name(&mut self, values: &Vec<String>, ctx: &Context)
        requires
            values@.len() > 0,
        ensures
            final(self)@ == Self::spec_on_sam_account_name(
                old(self)@,
                texts(values@),
                ctx@,
            ),
    {
        let first = values[0].as_str();
        assert(texts(values@)[0] == values@[0]@);
        self.properties.samaccountname = values[0].clone();
        self.properties.name = qualified(first, "@", ctx.domain.as_str());
    }

    /// What the attribute `description` says of a user account.
    pub open spec fn spec_on_description(
        v: UserView,
        values: Seq<Seq<char>>,
        ctx: ContextView,
    ) -> UserView {
        UserView {
            properties: UserPropertiesView {
                description: Some(values[0]),
                ..v.properties
            },
            ..v
        }
    }

    fn on_description(&mut self, values: &Vec<String>, ctx: &Context)
        requires
            values@.len() > 0,
        ensures
            final(self)@ == Self::spec_on_description(
                old(self)@,
                texts(values@),
                ctx@,
            ),
    {
        assert(texts(values@)[0] == values@[0]@);
        self.properties.description = Some(values[0].clone());
    }

    /// What the attribute `displayName` says of a user account.
    pub open spec fn spec_on_display_name(
        v: UserView,
        values: Seq<Seq<char>>,
        ctx: ContextView,
    ) -> UserView {
        UserView {
            properties: UserPropertiesView {
                displayname: values[0],
                ..v.properties
            },
            ..v
        }
    }

    fn on_display_name(&mut self, values: &Vec<String>, ctx: &Context)
        requires
            values@.len() > 0,
        ensures
            final(self)@ == Self::spec_on_display_name(
                old(self)@,
                texts(values@),
                ctx@,
            ),
    {
        assert(texts(values@)[0] == values@[0]@);
        self.properties.displayname = values[0].clone();
    }

    /// What the attribute `mail` says of a user account.
    pub open spec fn spec_on_mail(
        v: UserView,
        values: Seq<Seq<char>>,
        ctx: ContextView,
    ) -> UserView {
        UserView {
            properties: UserPropertiesView {
                email: values[0],
                ..v.properties
            },
            ..v
        }
    }

    fn on_mail(&mut self, values: &Vec<String>, ctx: &Context)
        requires
            values@.len() > 0,
        ensures
            final(self)@ == Self::spec_on_mail(
                old(self)@,
                texts(values@),
                ctx@,
            ),
    {
        assert(texts(values@)[0] == values@[0]@);
        self.properties.email = values[0].clone();
    }

    /// What the attribute `title` says of a user account.
    pub open spec fn spec_on_title(
        v: UserView,
        values: Seq<Seq<char>>,
        ctx: ContextView,
    ) -> UserView {
        UserView {
            properties: UserPropertiesView {
                title: values[0],
                ..v.properties
            },
            ..v
        }
    }

    fn on_title(&mut self, values: &Vec<String>, ctx: &Context)
        requires
            values@.len() > 0,
        ensures
            final(self)@ == Self::spec_on_title(
                old(self)@,
                texts(values@),
                ctx@,
            ),
    {
        assert(texts(values@)[0] == values@[0]@);
        self.properties.title = values[0].clone();
    }

    /// What the attribute `homeDirectory` says of a user account.
    pub open spec fn spec_on_home_directory(
        v: UserView,
        values: Seq<Seq<char>>,
        ctx: ContextView,
    ) -> UserView {
        UserView {
            properties: UserPropertiesView {
                homedirectory: values[0],
                ..v.properties
            },
            ..v
        }
    }

    fn on_home_directory(&mut self, values: &Vec<String>, ctx: &Context)
        requires
            values@.len() > 0,
        ensures
            final(self)@ == Self::spec_on_home_directory(
                old(self)@,
                texts(values@),
                ctx@,
            ),
    {
        assert(texts(values@)[0] == values@[0]@);
        self.properties.homedirectory = values[0].clone();
    }

    /// What the attribute `scriptPath` says of a user account.
    pub open spec fn spec_on_script_path(
        v: UserView,
        values: Seq<Seq<char>>,
        ctx: ContextView,
    ) -> UserView {
        UserView {
            properties: UserPropertiesView {
                logonscript: values[0],
                ..v.properties
            },
            ..v
        }
    }

    fn on_script_path(&mut self, values: &Vec<String>, ctx: &Context)
        requires
            values@.len() > 0,
        ensures
            final(self)@ == Self::spec_on_script_path(
                old(self)@,
                texts(values@),
                ctx@,
            ),
    {
        assert(texts(values@)[0] == values@[0]@);
        self.properties.logonscript = values[0].clone();
    }

    /// What the attribute `lastLogon` says of a user account.
    pub open spec fn spec_on_last_logon(
        v: UserView,
        values: Seq<Seq<char>>,
        ctx: ContextView,
    ) -> UserView {
        UserView {
            properties: UserPropertiesView {
                lastlogon: spec_timestamp(values[0], v.properties.lastlogon),
                ..v.properties
            },
            ..v
        }
    }

    fn on_last_logon(&mut self, values: &Vec<String>, ctx: &Context)
        requires
            values@.len() > 0,
        ensures
            final(self)@ == Self::spec_on_last_logon(
                old(self)@,
                texts(values@),
                ctx@,
            ),
    {
        let first = values[0].as_str();
        assert(texts(values@)[0] == values@[0]@);
        self.properties.lastlogon = timestamp(first, self.properties.lastlogon);
    }

    /// What the attribute `lastLogonTimestamp` says of a user account.
    pub open spec fn spec_on_last_logon_timestamp(
        v: UserView,
        values: Seq<Seq<char>>,
        ctx: ContextView,
    ) -> UserView {
        UserView {
            properties: UserPropertiesView {
                lastlogontimestamp: spec_timestamp(values[0], v.properties.lastlogontimestamp),
                ..v.properties
            },
            ..v
        }
    }

    fn on_last_logon_timestamp(&mut self, values: &Vec<String>, ctx: &Context)
        requires
            values@.len() > 0,
        ensures
            final(self)@ == Self::spec_on_last_logon_timestamp(
                old(self)@,
                texts(values@),
                ctx@,
            ),
    {
        let first = values[0].as_str();
        assert(texts(values@)[0] == values@[0]@);
        self.properties.lastlogontimestamp = timestamp(first, self.properties.lastlogontimestamp);
    }

    /// What the attribute `pwdLastSet` says of a user account.
    pub open spec fn spec_on_pwd_last_set(
        v: UserView,
        values: Seq<Seq<char>>,
        ctx: ContextView,
    ) -> UserView {
        UserView {
            properties: UserPropertiesView {
                pwdlastset: spec_timestamp(values[0], v.properties.pwdlastset),
                ..v.properties
            },
            ..v
        }
    }

    fn on_pwd_last_set(&mut self, values: &Vec<String>, ctx: &Context)
        requires
            values@.len() > 0,
        ensures
            final(self)@ == Self::spec_on_pwd_last_set(
                old(self)@,
                texts(values@),
                ctx@,
            ),
    {
        let first = values[0].as_str();
        assert(texts(values@)[0] == values@[0]@);
        self.properties.pwdlastset = timestamp(first, self.properties.pwdlastset);
    }

    /// What the attribute `whenCreated` says of a user account.
    pub open spec fn spec_on_when_created(
        v: UserView,
        values: Seq<Seq<char>>,
        ctx: ContextView,
    ) -> UserView {
        UserView {
            properties: UserPropertiesView {
                whencreated: spec_created(values[0], v.properties.whencreated),
                ..v.properties
            },
            ..v
        }
    }

    fn on_when_created(&mut self, values: &Vec<String>, ctx: &Context)
        requires
            values@.len() > 0,
        ensures
            final(self)@ == Self::spec_on_when_created(
                old(self)@,
                texts(values@),
                ctx@,
            ),
    {
        let first = values[0].as_str();
        assert(texts(values@)[0] == values@[0]@);
        self.properties.whencreated = created(first, self.properties.whencreated);
    }

    /// What the attribute `servicePrincipalName` says of a user account.
    pub open spec fn spec_on_service_principal_name(
        v: UserView,
        values: Seq<Seq<char>>,
        ctx: ContextView,
    ) -> UserView {
        UserView {
            common: NodeCommonView {
                spn_targets: sql_targets(values, values.len()),
                ..v.common
            },
            properties: UserPropertiesView {
                serviceprincipalnames: values,
                hasspn: true,
                ..v.properties
            },
            ..v
        }
    }

    fn on_service_principal_name(&mut self, values: &Vec<String>, ctx: &Context)
        requires
            values@.len() > 0,
        ensures
            final(self)@ == Self::spec_on_service_principal_name(
                old(self)@,
                texts(values@),
                ctx@,
            ),
    {
        self.properties.serviceprincipalnames = clone_texts(values);
        self.properties.hasspn = true;
        self.common.spn_targets = get_sql_targets(values);
    }

    /// What the attribute `userAccountControl` says of a user account.
    pub open spec fn spec_on_user_account_control(
        v: UserView,
        values: Seq<Seq<char>>,
        ctx: ContextView,
    ) -> UserView {
        match spec_parse_u32(values[0]) {
                Some(uac) => UserView {
                    properties: UserPropertiesView {
                        useraccountcontrol: uac,
                        enabled: !has_flag(uac, ACCOUNT_DISABLE),
                        passwordnotreqd: has_flag(uac, PASSWORD_NOT_REQUIRED),
                        pwdneverexpires: has_flag(uac, DONT_EXPIRE_PASSWORD),
                        unconstraineddelegation: has_flag(uac, TRUSTED_FOR_DELEGATION),
                        sensitive: has_flag(uac, NOT_DELEGATED),
                        dontreqpreauth: has_flag(uac, DONT_REQUIRE_PREAUTH),
                        trustedtoauth: has_flag(uac, TRUSTED_TO_AUTH_FOR_DELEGATION),
                        ..v.properties
                    },
                    ..v
                },
                None => v,
            }
    }

    fn on_user_account_control(&mut self, values: &Vec<String>, ctx: &Context)
        requires
            values@.len() > 0,
        ensures
            final(self)@ == Self::spec_on_user_account_control(
                old(self)@,
                texts(values@),
                ctx@,
            ),
    {
        let first = values[0].as_str();
        assert(texts(values@)[0] == values@[0]@);
        match parse_u32(first) {
            Some(uac) => {
                self.properties.useraccountcontrol = uac;
                self.properties.enabled = !flag_set(uac, ACCOUNT_DISABLE);
                self.properties.passwordnotreqd = flag_set(uac, PASSWORD_NOT_REQUIRED);
                self.properties.pwdneverexpires = flag_set(uac, DONT_EXPIRE_PASSWORD);
                self.properties.unconstraineddelegation = flag_set(uac, TRUSTED_FOR_DELEGATION);
                self.properties.sensitive = flag_set(uac, NOT_DELEGATED);
                self.properties.dontreqpreauth = flag_set(uac, DONT_REQUIRE_PREAUTH);
                self.properties.trustedtoauth = flag_set(uac, TRUSTED_TO_AUTH_FOR_DELEGATION);
            },
            None => {},
        }
    }

    /// What the attribute `adminCount` says of a user account.
    pub open spec fn spec_on_admin_count(
        v: UserView,
        values: Seq<Seq<char>>,
        ctx: ContextView,
    ) -> UserView {
        UserView {
            properties: UserPropertiesView {
                admincount: values[0] == "1"@,
                ..v.properties
            },
            ..v
        }
    }

    fn on_admin_count(&mut self, values: &Vec<String>, ctx: &Context)
        requires
            values@.len() > 0,
        ensures
            final(self)@ == Self::spec_on_admin_count(
                old(self)@,
                texts(values@),
                ctx@,
            ),
    {
        let first = values[0].as_str();
        assert(texts(values@)[0] == values@[0]@);
        self.properties.admincount = str_eq(first, "1");
    }

    /// What the attribute `msDS-AllowedToDelegateTo` says of a user account.
    pub open spec fn spec_on_ms_ds_allowed_to_delegate_to(
        v: UserView,
        values: Seq<Seq<char>>,
        ctx: ContextView,
    ) -> UserView {
        UserView {
            common: NodeCommonView {
                allowed_to_delegate: delegation_hosts(values, values.len()),
                ..v.common
            },
            ..v
        }
    }

    fn on_ms_ds_allowed_to_delegate_to(&mut self, values: &Vec<String>, ctx: &Context)
        requires
            values@.len() > 0,
        ensures
            final(self)@ == Self::spec_on_ms_ds_allowed_to_delegate_to(
                old(self)@,
                texts(values@),
                ctx@,
            ),
    {
        self.common.allowed_to_delegate = hosts_from_targets(values);
    }

    /// What the attribute `primaryGroupID` says of a user account.
    pub open spec fn spec_on_primary_group_id(
        v: UserView,
        values: Seq<Seq<char>>,
        ctx: ContextView,
    ) -> UserView {
        UserView {
            primary_group_sid: values[0],
            ..v
        }
    }

    fn on_primary_group_id(&mut self, values: &Vec<String>, ctx: &Context)
        requires
            values@.len() > 0,
        ensures
            final(self)@ == Self::spec_on_primary_group_id(
                old(self)@,
                texts(values@),
                ctx@,
            ),
    {
        assert(texts(values@)[0] == values@[0]@);
        self.primary_group_sid = values[0].clone();
    }

    /// What the attribute `msDS-SupportedEncryptionTypes` says of a user account.
    pub open spec fn spec_on_ms_ds_supported_encryption_types(
        v: UserView,
        values: Seq<Seq<char>>,
        ctx: ContextView,
    ) -> UserView {
        UserView {
            properties: UserPropertiesView {
                supportedencryptiontypes: spec_encryption_types(values[0]),
                ..v.properties
            },
            ..v
        }
    }

    fn on_ms_ds_supported_encryption_types(&mut self, values: &Vec<String>, ctx: &Context)
        requires
            values@.len() > 0,
        ensures
            final(self)@ == Self::spec_on_ms_ds_supported_encryption_types(
                old(self)@,
                texts(values@),
                ctx@,
            ),
    {
        let first = values[0].as_str();
        assert(texts(values@)[0] == values@[0]@);
        self.properties.supportedencryptiontypes = encryption_types(first);
    }

    /// What the attribute `IsDeleted` says of a user account.
    pub open spec fn spec_on_is_deleted(
        v: UserView,
        values: Seq<Seq<char>>,
        ctx: ContextView,
    ) -> UserView {
        UserView {
            common: NodeCommonView {
                is_deleted: true,
                ..v.common
            },
            ..v
        }
    }

    fn on_is_deleted(&mut self, values: &Vec<String>, ctx: &Context)
        requires
            values@.len() > 0,
        ensures
            final(self)@ == Self::spec_on_is_deleted(
                old(self)@,
                texts(values@),
                ctx@,
            ),
    {
        self.common.is_deleted = true;
    }

    /// What the attribute `objectSid` says of a user account.
    pub open spec fn spec_on_object_sid(
        v: UserView,
        values: Seq<Seq<u8>>,
        ctx: ContextView,
    ) -> UserView {
        UserView {
            common: with_sid(v.common, values[0], ctx.domain),
            properties: UserPropertiesView {
                domainsid: issuing_domain(
                    spec_decode_sid(values[0], ctx.domain),
                    v.properties.domainsid,
                ),
                ..v.properties
            },
            ..v
        }
    }

    fn on_object_sid(&mut self, values: &Vec<Vec<u8>>, ctx: &Context)
        requires
            values@.len() > 0,
        ensures
            final(self)@ == Self::spec_on_object_sid(
                old(self)@,
                blobs(values@),
                ctx@,
            ),
    {
        assert(blobs(values@)[0] == values@[0]@);
        match set_sid(&mut self.common, &values[0], ctx.domain.as_str()) {
            Some(issuer) => {
                self.properties.domainsid = issuer;
            },
            None => {},
        }
    }

    /// What the attribute `nTSecurityDescriptor` says of a user account.
    pub open spec fn spec_on_nt_security_descriptor(
        v: UserView,
        values: Seq<Seq<u8>>,
        ctx: ContextView,
    ) -> UserView {
        UserView {
            common: with_descriptor(v.common, values[0], USER_TYPE@, ctx.domain),
            properties: UserPropertiesView {
                isaclprotected: spec_is_protected(values[0]),
                ..v.properties
            },
            ..v
        }
    }

    fn on_nt_security_descriptor(&mut self, values: &Vec<Vec<u8>>, ctx: &Context)
        requires
            values@.len() > 0,
        ensures
            final(self)@ == Self::spec_on_nt_security_descriptor(
                old(self)@,
                blobs(values@),
                ctx@,
            ),
    {
        assert(blobs(values@)[0] == values@[0]@);
        set_descriptor(&mut self.common, &values[0], USER_TYPE, ctx.domain.as_str());
        self.properties.isaclprotected = self.common.is_acl_protected;
    }
}

impl AttributeSink for User {
    /// What one text attribute does to a user account. An attribute without values
    /// or one that the type does not know changes nothing.
    open spec fn text_attr(
        v: UserView,
        key: Seq<char>,
        values: Seq<Seq<char>>,
        ctx: ContextView,
    ) -> UserView {
        if values.len() == 0 {
            v
        } else if key == "sAMAccountName"@ {
            Self::spec_on_sam_account_name(v, values, ctx)
        } else if key == "description"@ {
            Self::spec_on_description(v, values, ctx)
        } else if key == "displayName"@ {
            Self::spec_on_display_name(v, values, ctx)
        } else if key == "mail"@ {
            Self::spec_on_mail(v, values, ctx)
        } else if key == "title"@ {
            Self::spec_on_title(v, values, ctx)
        } else if key == "homeDirectory"@ {
            Self::spec_on_home_directory(v, values, ctx)
        } else if key == "scriptPath"@ {
            Self::spec_on_script_path(v, values, ctx)
        } else if key == "lastLogon"@ {
            Self::spec_on_last_logon(v, values, ctx)
        } else if key == "lastLogonTimestamp"@ {
            Self::spec_on_last_logon_timestamp(v, values, ctx)
        } else if key == "pwdLastSet"@ {
            Self::spec_on_pwd_last_set(v, values, ctx)
        } else if key == "whenCreated"@ {
            Self::spec_on_when_created(v, values, ctx)
        } else if key == "servicePrincipalName"@ {
            Self::spec_on_service_principal_name(v, values, ctx)
        } else if key == "userAccountControl"@ {
            Self::spec_on_user_account_control(v, values, ctx)
        } else if key == "adminCount"@ {
            Self::spec_on_admin_count(v, values, ctx)
        } else if key == "msDS-AllowedToDelegateTo"@ {
            Self::spec_on_ms_ds_allowed_to_delegate_to(v, values, ctx)
        } else if key == "primaryGroupID"@ {
            Self::spec_on_primary_group_id(v, values, ctx)
        } else if key == "msDS-SupportedEncryptionTypes"@ {
            Self::spec_on_ms_ds_supported_encryption_types(v, values, ctx)
        } else if key == "IsDeleted"@ {
            Self::spec_on_is_deleted(v, values, ctx)
        } else {
            v
        }
    }

    /// What one binary attribute does to a user account.
    open spec fn bin_attr(
        v: UserView,
        key: Seq<char>,
        values: Seq<Seq<u8>>,
        ctx: ContextView,
    ) -> UserView {
        if values.len() == 0 {
            v
        } else if key == "objectSid"@ {
            Self::spec_on_object_sid(v, values, ctx)
        } else if key == "nTSecurityDescriptor"@ {
            Self::spec_on_nt_security_descriptor(v, values, ctx)
        } else {
            v
        }
    }

    fn apply_text(&mut self, key: &str, values: &Vec<String>, ctx: &Context) {
        if values.len() == 0 {
            return ;
        }
        if str_eq(key, "sAMAccountName") {
            self.on_sam_account_name(values, ctx);
        } else if str_eq(key, "description") {
            self.on_description(values, ctx);
        } else if str_eq(key, "displayName") {
            self.on_display_name(values, ctx);
        } else if str_eq(key, "mail") {
            self.on_mail(values, ctx);
        } else if str_eq(key, "title") {
            self.on_title(values, ctx);
        } else if str_eq(key, "homeDirectory") {
            self.on_home_directory(values, ctx);
        } else if str_eq(key, "scriptPath") {
            self.on_script_path(values, ctx);
        } else if str_eq(key, "lastLogon") {
            self.on_last_logon(values, ctx);
        } else if str_eq(key, "lastLogonTimestamp") {
            self.on_last_logon_timestamp(values, ctx);
        } else if str_eq(key, "pwdLastSet") {
            self.on_pwd_last_set(values, ctx);
        } else if str_eq(key, "whenCreated") {
            self.on_when_created(values, ctx);
        } else if str_eq(key, "servicePrincipalName") {
            self.on_service_principal_name(values, ctx);
        } else if str_eq(key, "userAccountControl") {
            self.on_user_account_control(values, ctx);
        } else if str_eq(key, "adminCount") {
            self.on_admin_count(values, ctx);
        } else if str_eq(key, "msDS-AllowedToDelegateTo") {
            self.on_ms_ds_allowed_to_delegate_to(values, ctx);
        } else if str_eq(key, "primaryGroupID") {
            self.on_primary_group_id(values, ctx);
        } else if str_eq(key, "msDS-SupportedEncryptionTypes") {
            self.on_ms_ds_supported_encryption_types(values, ctx);
        } else if str_eq(key, "IsDeleted") {
            self.on_is_deleted(values, ctx);
        }
    }

    fn apply_bin(&mut self, key: &str, values: &Vec<Vec<u8>>, ctx: &Context) {
        if values.len() == 0 {
            return ;
        }
        if str_eq(key, "objectSid") {
            self.on_object_sid(values, ctx);
        } else if str_eq(key, "nTSecurityDescriptor") {
            self.on_nt_security_descriptor(values, ctx);
        }
    }
}

impl User {
    /// The account before the attributes of its record are read: what
    /// the record's name and the collected domain say of it.
    pub open spec fn spec_begin(
        v: UserView,
        entry: EntryView,
        domain: Seq<char>,
        domain_sid: Seq<char>,
    ) -> UserView {
        UserView {
            properties: UserPropertiesView {
                domain: spec_to_uppercase(domain),
                distinguishedname: spec_to_uppercase(entry.dn),
                domainsid: domain_sid,
                ..v.properties
            },
            ..v
        }
    }

    /// What is worked out once all the attributes are read. 
    /// The primary group is the account's identifier with the number of the
    /// group in place of its last number.
    pub open spec fn spec_finish(v: UserView) -> UserView {
        UserView {
            primary_group_sid: spec_primary_group(
                v.common.object_identifier,
                v.primary_group_sid,
            ),
            ..v
        }
    }

    /// The account that a record describes.
    pub open spec fn spec_parse(
        v: UserView,
        entry: EntryView,
        domain: Seq<char>,
        domain_sid: Seq<char>,
    ) -> UserView {
        Self::spec_finish(
            decoded::<User>(
                Self::spec_begin(v, entry, domain, domain_sid),
                entry,
                ContextView { domain, domain_sid },
            ),
        )
    }

    /// Decodes the record of a user account and enters the account in the index.
    pub fn parse(
        &mut self,
        result: &LdapSearchEntry,
        domain: &str,
        dn_sid: &mut StringMap,
        sid_type: &mut StringMap,
        domain_sid: &str,
    )
        ensures
            final(self)@ == Self::spec_parse(
                old(self)@,
                result@,
                domain@,
                domain_sid@,
            ),
            final(dn_sid)@ == registered_dn(
                old(dn_sid)@,
                final(self)@.properties.distinguishedname,
                final(self)@.common.object_identifier,
            ),
            final(sid_type)@ == registered_type(
                old(sid_type)@,
                final(self)@.common.object_identifier,
                USER_TYPE@,
            ),
    {
        self.properties.domain = upper(domain);
        self.properties.distinguishedname = upper(result.dn.as_str());
        self.properties.domainsid = String::from_str(domain_sid);
        let ctx = Context::new(domain, domain_sid);
        decode_attrs(self, result, &ctx);
        self.primary_group_sid = primary_group(
            self.common.object_identifier.as_str(),
            self.primary_group_sid.as_str(),
        );
        register(
            dn_sid,
            sid_type,
            self.properties.distinguishedname.as_str(),
            self.common.object_identifier.as_str(),
            USER_TYPE,
        );
    }
}
} // verus!
