//! Certificate templates.

use crate::enums::acl::spec_is_protected;
use crate::enums::pkiflags::{
    get_pki_cert_name_flags, get_pki_enrollment_flags, spec_pki_cert_name_flags,
    spec_pki_enrollment_flags,
};
use crate::ldap::{blobs, EntryView, LdapSearchEntry};
use crate::mappings::StringMap;
use crate::objects::common::{bare_node, LdapObject, NodeCommon, NodeCommonView};
use crate::objects::decode::{
    created, decode_attrs, decoded, i64_or_zero, qualified, register, registered_dn,
    registered_type, set_descriptor, set_guid, spec_created, spec_guid_identifier,
    spec_i64_or_zero, spec_qualified, with_descriptor, AttributeSink, Context, ContextView,
};
use crate::text::{
    clone_texts, contains, contains_seq, opt_text, spec_to_uppercase, str_eq, texts, upper,
};
use crate::utils::date::{
    filetime_to_span, span_to_string, spec_filetime_to_span, spec_span_to_string,
};
use vstd::prelude::*;
use vstd::string::*;

verus! {

/// The attributes of a certificate template.
#[derive(Debug)]
pub struct CertTemplateProperties {
    pub domain: String,
    pub name: String,
    pub distinguishedname: String,
    pub domainsid: String,
    pub isaclprotected: bool,
    pub description: Option<String>,
    pub whencreated: i64,
    pub validityperiod: String,
    pub renewalperiod: String,
    pub schemaversion: i64,
    pub displayname: String,
    pub oid: String,
    pub enrollmentflag: String,
    pub requiresmanagerapproval: bool,
    pub nosecurityextension: bool,
    pub certificatenameflag: String,
    pub enrolleesuppliessubject: bool,
    pub subjectaltrequireupn: bool,
    pub ekus: Vec<String>,
    pub certificateapplicationpolicy: Vec<String>,
    pub authorizedsignatures: i64,
    pub applicationpolicies: Vec<String>,
    pub issuancepolicies: Vec<String>,
    pub effectiveekus: Vec<String>,
    pub authenticationenabled: bool,
}

/// A `CertTemplateProperties` as plain values.
pub struct CertTemplatePropertiesView {
    pub domain: Seq<char>,
    pub name: Seq<char>,
    pub distinguishedname: Seq<char>,
    pub domainsid: Seq<char>,
    pub isaclprotected: bool,
    pub description: Option<Seq<char>>,
    pub whencreated: i64,
    pub validityperiod: Seq<char>,
    pub renewalperiod: Seq<char>,
    pub schemaversion: i64,
    pub displayname: Seq<char>,
    pub oid: Seq<char>,
    pub enrollmentflag: Seq<char>,
    pub requiresmanagerapproval: bool,
    pub nosecurityextension: bool,
    pub certificatenameflag: Seq<char>,
    pub enrolleesuppliessubject: bool,
    pub subjectaltrequireupn: bool,
    pub ekus: Seq<Seq<char>>,
    pub certificateapplicationpolicy: Seq<Seq<char>>,
    pub authorizedsignatures: i64,
    pub applicationpolicies: Seq<Seq<char>>,
    pub issuancepolicies: Seq<Seq<char>>,
    pub effectiveekus: Seq<Seq<char>>,
    pub authenticationenabled: bool,
}

impl View for CertTemplateProperties {
    type V = CertTemplatePropertiesView;

    open spec fn view(&self) -> CertTemplatePropertiesView {
        CertTemplatePropertiesView {
            domain: self.domain@,
            name: self.name@,
            distinguishedname: self.distinguishedname@,
            domainsid: self.domainsid@,
            isaclprotected: self.isaclprotected,
            description: opt_text(self.description),
            whencreated: self.whencreated,
            validityperiod: self.validityperiod@,
            renewalperiod: self.renewalperiod@,
            schemaversion: self.schemaversion,
            displayname: self.displayname@,
            oid: self.oid@,
            enrollmentflag: self.enrollmentflag@,
            requiresmanagerapproval: self.requiresmanagerapproval,
            nosecurityextension: self.nosecurityextension,
            certificatenameflag: self.certificatenameflag@,
            enrolleesuppliessubject: self.enrolleesuppliessubject,
            subjectaltrequireupn: self.subjectaltrequireupn,
            ekus: texts(self.ekus@),
            certificateapplicationpolicy: texts(self.certificateapplicationpolicy@),
            authorizedsignatures: self.authorizedsignatures,
            applicationpolicies: texts(self.applicationpolicies@),
            issuancepolicies: texts(self.issuancepolicies@),
            effectiveekus: texts(self.effectiveekus@),
            authenticationenabled: self.authenticationenabled,
        }
    }
}

impl CertTemplateProperties {
    /// The attributes of a template of which nothing is known yet.
    pub open spec fn spec_new() -> CertTemplatePropertiesView {
        CertTemplatePropertiesView {
            domain: Seq::empty(),
            name: Seq::empty(),
            distinguishedname: Seq::empty(),
            domainsid: Seq::empty(),
            isaclprotected: false,
            description: None,
            whencreated: -1i64,
            validityperiod: Seq::empty(),
            renewalperiod: Seq::empty(),
            schemaversion: 1i64,
            displayname: Seq::empty(),
            oid: Seq::empty(),
            enrollmentflag: Seq::empty(),
            requiresmanagerapproval: false,
            nosecurityextension: false,
            certificatenameflag: Seq::empty(),
            enrolleesuppliessubject: false,
            subjectaltrequireupn: true,
            ekus: Seq::empty(),
            certificateapplicationpolicy: Seq::empty(),
            authorizedsignatures: 0i64,
            applicationpolicies: Seq::empty(),
            issuancepolicies: Seq::empty(),
            effectiveekus: Seq::empty(),
            authenticationenabled: false,
        }
    }

    pub fn new() -> (r: Self)
        ensures
            r@ == Self::spec_new(),
    {
        let r = CertTemplateProperties {
            domain: String::new(),
            name: String::new(),
            distinguishedname: String::new(),
            domainsid: String::new(),
            isaclprotected: false,
            description: None,
            whencreated: -1,
            validityperiod: String::new(),
            renewalperiod: String::new(),
            schemaversion: 1,
            displayname: String::new(),
            oid: String::new(),
            enrollmentflag: String::new(),
            requiresmanagerapproval: false,
            nosecurityextension: false,
            certificatenameflag: String::new(),
            enrolleesuppliessubject: false,
            subjectaltrequireupn: true,
            ekus: Vec::new(),
            certificateapplicationpolicy: Vec::new(),
            authorizedsignatures: 0,
            applicationpolicies: Vec::new(),
            issuancepolicies: Vec::new(),
            effectiveekus: Vec::new(),
            authenticationenabled: false,
        };
        assert(r@.ekus =~= Seq::empty());
        assert(r@.certificateapplicationpolicy =~= Seq::empty());
        assert(r@.applicationpolicies =~= Seq::empty());
        assert(r@.issuancepolicies =~= Seq::empty());
        assert(r@.effectiveekus =~= Seq::empty());
        r
    }

    pub fn name(&self) -> (r: &String)
        ensures
            *r == self.name,
    {
        &self.name
    }
}
/// A certificate template.
#[derive(Debug)]
pub struct CertTemplate {
    pub properties: CertTemplateProperties,
    pub common: NodeCommon,
}

/// A `CertTemplate` as plain values.
pub struct CertTemplateView {
    pub properties: CertTemplatePropertiesView,
    pub common: NodeCommonView,
}

impl View for CertTemplate {
    type V = CertTemplateView;

    open spec fn view(&self) -> CertTemplateView {
        CertTemplateView {
            properties: self.properties@,
            common: self.common@,
        }
    }
}

impl CertTemplate {
    /// A template that no record has described yet.
    pub open spec fn spec_new() -> CertTemplateView {
        CertTemplateView {
            properties: CertTemplateProperties::spec_new(),
            common: bare_node(),
        }
    }

    pub fn new() -> (r: Self)
        ensures
            r@ == Self::spec_new(),
    {
        let r = CertTemplate {
            properties: CertTemplateProperties::new(),
            common: NodeCommon::new(),
        };
        r
    }

    pub fn properties(&self) -> (r: &CertTemplateProperties)
        ensures
            *r == self.properties,
    {
        &self.properties
    }

    pub fn object_identifier(&self) -> (r: &String)
        ensures
            *r == self.common.object_identifier,
    {
        &self.common.object_identifier
    }
}

impl LdapObject for CertTemplate {
    type Rest = CertTemplateProperties;

    open spec fn rest(&self) -> Self::Rest {
        self.properties
    }

    open spec fn common_spec(&self) -> NodeCommon {
        self.common
    }

    fn common(&self) -> (r: &NodeCommon) {
        &self.common
    }

    fn common_mut(&mut self) -> (r: &mut NodeCommon) {
        &mut self.common
    }
}

/// The name of the type in the index.
pub const CERT_TEMPLATE_TYPE: &'static str = "CertTemplate";

impl CertTemplate {
    /// What the attribute `name` says of a certificate template.
    pub open spec fn spec_on_name(
        v: CertTemplateView,
        values: Seq<Seq<char>>,
        ctx: ContextView,
    ) -> CertTemplateView {
        CertTemplateView {
            properties: CertTemplatePropertiesView {
                name: spec_qualified(values[0], "@"@, ctx.domain),
                ..v.properties
            },
            ..v
        }
    }

    fn on_name(&mut self, values: &Vec<String>, ctx: &Context)
        requires
            values@.len() > 0,
        ensures
            final(self)@ == Self::spec_on_name(
                old(self)@,
                texts(values@),
                ctx@,
            ),
    {
        let first = values[0].as_str();
        assert(texts(values@)[0] == values@[0]@);
        self.properties.name = qualified(first, "@", ctx.domain.as_str());
    }

    /// What the attribute `description` says of a certificate template.
    pub open spec fn spec_on_description(
        v: CertTemplateView,
        values: Seq<Seq<char>>,
        ctx: ContextView,
    ) -> CertTemplateView {
        CertTemplateView {
            properties: CertTemplatePropertiesView {
                description: Some(values[0]),
                ..v.properties
            },
            ..v
        }
    }

    fn on_description(&mut self, values: &Vec<String>, ctx: &Context)
        requires
            values@.len() > 0,
        ensures
            final(self)@ == Self::spec_on_description(
                old(self)@,
                texts(values@),
                ctx@,
            ),
    {
        assert(texts(values@)[0] == values@[0]@);
        self.properties.description = Some(values[0].clone());
    }

    /// What the attribute `displayName` says of a certificate template.
    pub open spec fn spec_on_display_name(
        v: CertTemplateView,
        values: Seq<Seq<char>>,
        ctx: ContextView,
    ) -> CertTemplateView {
        CertTemplateView {
            properties: CertTemplatePropertiesView {
                displayname: values[0],
                ..v.properties
            },
            ..v
        }
    }

    fn on_display_name(&mut self, values: &Vec<String>, ctx: &Context)
        requires
            values@.len() > 0,
        ensures
            final(self)@ == Self::spec_on_display_name(
                old(self)@,
                texts(values@),
                ctx@,
            ),
    {
        assert(texts(values@)[0] == values@[0]@);
        self.properties.displayname = values[0].clone();
    }

    /// What the attribute `msPKI-Certificate-Name-Flag` says of a certificate template.
    pub open spec fn spec_on_ms_pki_certificate_name_flag(
        v: CertTemplateView,
        values: Seq<Seq<char>>,
        ctx: ContextView,
    ) -> CertTemplateView {
        {
            let flags = spec_pki_cert_name_flags(spec_i64_or_zero(values[0]) as u64);
            CertTemplateView {
                properties: CertTemplatePropertiesView {
                    certificatenameflag: flags,
                    enrolleesuppliessubject: contains_seq(flags, "ENROLLEE_SUPPLIES_SUBJECT"@),
                    subjectaltrequireupn: contains_seq(flags, "SUBJECT_ALT_REQUIRE_UPN"@),
                    ..v.properties
                },
                ..v
            }
        }
    }

    fn on_ms_pki_certificate_name_flag(&mut self, values: &Vec<String>, ctx: &Context)
        requires
            values@.len() > 0,
        ensures
            final(self)@ == Self::spec_on_ms_pki_certificate_name_flag(
                old(self)@,
                texts(values@),
                ctx@,
            ),
    {
        let first = values[0].as_str();
        assert(texts(values@)[0] == values@[0]@);
        let flags = get_pki_cert_name_flags(i64_or_zero(first) as u64);
        self.properties.enrolleesuppliessubject = contains(
            flags.as_str(),
            "ENROLLEE_SUPPLIES_SUBJECT",
        );
        self.properties.subjectaltrequireupn = contains(flags.as_str(), "SUBJECT_ALT_REQUIRE_UPN");
        self.properties.certificatenameflag = flags;
    }

    /// What the attribute `msPKI-Enrollment-Flag` says of a certificate template.
    pub open spec fn spec_on_ms_pki_enrollment_flag(
        v: CertTemplateView,
        values: Seq<Seq<char>>,
        ctx: ContextView,
    ) -> CertTemplateView {
        {
            let flags = spec_pki_enrollment_flags(spec_i64_or_zero(values[0]) as u64);
            CertTemplateView {
                properties: CertTemplatePropertiesView {
                    enrollmentflag: flags,
                    requiresmanagerapproval: contains_seq(flags, "PEND_ALL_REQUESTS"@),
                    nosecurityextension: contains_seq(flags, "NO_SECURITY_EXTENSION"@),
                    ..v.properties
                },
                ..v
            }
        }
    }

    fn on_ms_pki_enrollment_flag(&mut self, values: &Vec<String>, ctx: &Context)
        requires
            values@.len() > 0,
        ensures
            final(self)@ == Self::spec_on_ms_pki_enrollment_flag(
                old(self)@,
                texts(values@),
                ctx@,
            ),
    {
        let first = values[0].as_str();
        assert(texts(values@)[0] == values@[0]@);
        let flags = get_pki_enrollment_flags(i64_or_zero(first) as u64);
        self.properties.requiresmanagerapproval = contains(flags.as_str(), "PEND_ALL_REQUESTS");
        self.properties.nosecurityextension = contains(flags.as_str(), "NO_SECURITY_EXTENSION");
        self.properties.enrollmentflag = flags;
    }

    /// What the attribute `msPKI-RA-Signature` says of a certificate template.
    pub open spec fn spec_on_ms_pki_ra_signature(
        v: CertTemplateView,
        values: Seq<Seq<char>>,
        ctx: ContextView,
    ) -> CertTemplateView {
        CertTemplateView {
            properties: CertTemplatePropertiesView {
                authorizedsignatures: spec_i64_or_zero(values[0]),
                ..v.properties
            },
            ..v
        }
    }

    fn on_ms_pki_ra_signature(&mut self, values: &Vec<String>, ctx: &Context)
        requires
            values@.len() > 0,
        ensures
            final(self)@ == Self::spec_on_ms_pki_ra_signature(
                old(self)@,
                texts(values@),
                ctx@,
            ),
    {
        let first = values[0].as_str();
        assert(texts(values@)[0] == values@[0]@);
        self.properties.authorizedsignatures = i64_or_zero(first);
    }

    /// What the attribute `msPKI-RA-Application-Policies` says of a certificate template.
    pub open spec fn spec_on_ms_pki_ra_application_policies(
        v: CertTemplateView,
        values: Seq<Seq<char>>,
        ctx: ContextView,
    ) -> CertTemplateView {
        CertTemplateView {
            properties: CertTemplatePropertiesView {
                applicationpolicies: values,
                ..v.properties
            },
            ..v
        }
    }

    fn on_ms_pki_ra_application_policies(&mut self, values: &Vec<String>, ctx: &Context)
        requires
            values@.len() > 0,
        ensures
            final(self)@ == Self::spec_on_ms_pki_ra_application_policies(
                old(self)@,
                texts(values@),
                ctx@,
            ),
    {
        self.properties.applicationpolicies = clone_texts(values);
    }

    /// What the attribute `msPKI-Certificate-Application-Policy` says of a certificate template.
    pub open spec fn spec_on_ms_pki_certificate_application_policy(
        v: CertTemplateView,
        values: Seq<Seq<char>>,
        ctx: ContextView,
    ) -> CertTemplateView {
        CertTemplateView {
            properties: CertTemplatePropertiesView {
                certificateapplicationpolicy: values,
                ..v.properties
            },
            ..v
        }
    }

    fn on_ms_pki_certificate_application_policy(&mut self, values: &Vec<String>, ctx: &Context)
        requires
            values@.len() > 0,
        ensures
            final(self)@ == Self::spec_on_ms_pki_certificate_application_policy(
                old(self)@,
                texts(values@),
                ctx@,
            ),
    {
        self.properties.certificateapplicationpolicy = clone_texts(values);
    }

    /// What the attribute `msPKI-RA-Policies` says of a certificate template.
    pub open spec fn spec_on_ms_pki_ra_policies(
        v: CertTemplateView,
        values: Seq<Seq<char>>,
        ctx: ContextView,
    ) -> CertTemplateView {
        CertTemplateView {
            properties: CertTemplatePropertiesView {
                issuancepolicies: values,
                ..v.properties
            },
            ..v
        }
    }

    fn on_ms_pki_ra_policies(&mut self, values: &Vec<String>, ctx: &Context)
        requires
            values@.len() > 0,
        ensures
            final(self)@ == Self::spec_on_ms_pki_ra_policies(
                old(self)@,
                texts(values@),
                ctx@,
            ),
    {
        self.properties.issuancepolicies = clone_texts(values);
    }

    /// What the attribute `msPKI-Cert-Template-OID` says of a certificate template.
    pub open spec fn spec_on_ms_pki_cert_template_oid(
        v: CertTemplateView,
        values: Seq<Seq<char>>,
        ctx: ContextView,
    ) -> CertTemplateView {
        CertTemplateView {
            properties: CertTemplatePropertiesView {
                oid: values[0],
                ..v.properties
            },
            ..v
        }
    }

    fn on_ms_pki_cert_template_oid(&mut self, values: &Vec<String>, ctx: &Context)
        requires
            values@.len() > 0,
        ensures
            final(self)@ == Self::spec_on_ms_pki_cert_template_oid(
                old(self)@,
                texts(values@),
                ctx@,
            ),
    {
        assert(texts(values@)[0] == values@[0]@);
        self.properties.oid = values[0].clone();
    }

    /// What the attribute `pKIExtendedKeyUsage` says of a certificate template.
    pub open spec fn spec_on_pki_extended_key_usage(
        v: CertTemplateView,
        values: Seq<Seq<char>>,
        ctx: ContextView,
    ) -> CertTemplateView {
        CertTemplateView {
            properties: CertTemplatePropertiesView {
                ekus: values,
                ..v.properties
            },
            ..v
        }
    }

    fn on_pki_extended_key_usage(&mut self, values: &Vec<String>, ctx: &Context)
        requires
            values@.len() > 0,
        ensures
            final(self)@ == Self::spec_on_pki_extended_key_usage(
                old(self)@,
                texts(values@),
                ctx@,
            ),
    {
        self.properties.ekus = clone_texts(values);
    }

    /// What the attribute `msPKI-Template-Schema-Version` says of a certificate template.
    pub open spec fn spec_on_ms_pki_template_schema_version(
        v: CertTemplateView,
        values: Seq<Seq<char>>,
        ctx: ContextView,
    ) -> CertTemplateView {
        CertTemplateView {
            properties: CertTemplatePropertiesView {
                schemaversion: spec_i64_or_zero(values[0]),
                ..v.properties
            },
            ..v
        }
    }

    fn on_ms_pki_template_schema_version(&mut self, values: &Vec<String>, ctx: &Context)
        requires
            values@.len() > 0,
        ensures
            final(self)@ == Self::spec_on_ms_pki_template_schema_version(
                old(self)@,
                texts(values@),
                ctx@,
            ),
    {
        let first = values[0].as_str();
        assert(texts(values@)[0] == values@[0]@);
        self.properties.schemaversion = i64_or_zero(first);
    }

    /// What the attribute `whenCreated` says of a certificate template.
    pub open spec fn spec_on_when_created(
        v: CertTemplateView,
        values: Seq<Seq<char>>,
        ctx: ContextView,
    ) -> CertTemplateView {
        CertTemplateView {
            properties: CertTemplatePropertiesView {
                whencreated: spec_created(values[0], v.properties.whencreated),
                ..v.properties
            },
            ..v
        }
    }

    fn on_when_created(&mut self, values: &Vec<String>, ctx: &Context)
        requires
            values@.len() > 0,
        ensures
            final(self)@ == Self::spec_on_when_created(
                old(self)@,
                texts(values@),
                ctx@,
            ),
    {
        let first = values[0].as_str();
        assert(texts(values@)[0] == values@[0]@);
        self.properties.whencreated = created(first, self.properties.whencreated);
    }

    /// What the attribute `IsDeleted` says of a certificate template.
    pub open spec fn spec_on_is_deleted(
        v: CertTemplateView,
        values: Seq<Seq<char>>,
        ctx: ContextView,
    ) -> CertTemplateView {
        CertTemplateView {
            common: NodeCommonView {
                is_deleted: true,
                ..v.common
            },
            ..v
        }
    }

    fn on_is_deleted(&mut self, values: &Vec<String>, ctx: &Context)
        requires
            values@.len() > 0,
        ensures
            final(self)@ == Self::spec_on_is_deleted(
                old(self)@,
                texts(values@),
                ctx@,
            ),
    {
        self.common.is_deleted = true;
    }

    /// What the attribute `objectGUID` says of a certificate template.
    pub open spec fn spec_on_object_guid(
        v: CertTemplateView,
        values: Seq<Seq<u8>>,
        ctx: ContextView,
    ) -> CertTemplateView {
        CertTemplateView {
            common: NodeCommonView {
                object_identifier: spec_guid_identifier(values[0], v.common.object_identifier),
                ..v.common
            },
            ..v
        }
    }

    fn on_object_guid(&mut self, values: &Vec<Vec<u8>>, ctx: &Context)
        requires
            values@.len() > 0,
        ensures
            final(self)@ == Self::spec_on_object_guid(
                old(self)@,
                blobs(values@),
                ctx@,
            ),
    {
        assert(blobs(values@)[0] == values@[0]@);
        set_guid(&mut self.common, &values[0]);
    }

    /// What the attribute `nTSecurityDescriptor` says of a certificate template.
    pub open spec fn spec_on_nt_security_descriptor(
        v: CertTemplateView,
        values: Seq<Seq<u8>>,
        ctx: ContextView,
    ) -> CertTemplateView {
        CertTemplateView {
            common: with_descriptor(v.common, values[0], CERT_TEMPLATE_TYPE@, ctx.domain),
            properties: CertTemplatePropertiesView {
                isaclprotected: spec_is_protected(values[0]),
                ..v.properties
            },
            ..v
        }
    }

    fn on_nt_security_descriptor(&mut self, values: &Vec<Vec<u8>>, ctx: &Context)
        requires
            values@.len() > 0,
        ensures
            final(self)@ == Self::spec_on_nt_security_descriptor(
                old(self)@,
                blobs(values@),
                ctx@,
            ),
    {
        assert(blobs(values@)[0] == values@[0]@);
        set_descriptor(&mut self.common, &values[0], CERT_TEMPLATE_TYPE, ctx.domain.as_str());
        self.properties.isaclprotected = self.common.is_acl_protected;
    }

    /// What the attribute `pKIExpirationPeriod` says of a certificate template.
    pub open spec fn spec_on_pki_expiration_period(
        v: CertTemplateView,
        values: Seq<Seq<u8>>,
        ctx: ContextView,
    ) -> CertTemplateView {
        CertTemplateView {
            properties: CertTemplatePropertiesView {
                validityperiod: spec_span_to_string(spec_filetime_to_span(values[0])),
                ..v.properties
            },
            ..v
        }
    }

    fn on_pki_expiration_period(&mut self, values: &Vec<Vec<u8>>, ctx: &Context)
        requires
            values@.len() > 0,
        ensures
            final(self)@ == Self::spec_on_pki_expiration_period(
                old(self)@,
                blobs(values@),
                ctx@,
            ),
    {
        assert(blobs(values@)[0] == values@[0]@);
        self.properties.validityperiod = span_to_string(filetime_to_span(values[0].clone()));
    }

    /// What the attribute `pKIOverlapPeriod` says of a certificate template.
    pub open spec fn spec_on_pki_overlap_period(
        v: CertTemplateView,
        values: Seq<Seq<u8>>,
        ctx: ContextView,
    ) -> CertTemplateView {
        CertTemplateView {
            properties: CertTemplatePropertiesView {
                renewalperiod: spec_span_to_string(spec_filetime_to_span(values[0])),
                ..v.properties
            },
            ..v
        }
    }

    fn on_pki_overlap_period(&mut self, values: &Vec<Vec<u8>>, ctx: &Context)
        requires
            values@.len() > 0,
        ensures
            final(self)@ == Self::spec_on_pki_overlap_period(
                old(self)@,
                blobs(values@),
                ctx@,
            ),
    {
        assert(blobs(values@)[0] == values@[0]@);
        self.properties.renewalperiod = span_to_string(filetime_to_span(values[0].clone()));
    }
}

impl AttributeSink for CertTemplate {
    /// What one text attribute does to a certificate template. An attribute without values
    /// or one that the type does not know changes nothing.
    open spec fn text_attr(
        v: CertTemplateView,
        key: Seq<char>,
        values: Seq<Seq<char>>,
        ctx: ContextView,
    ) -> CertTemplateView {
        if values.len() == 0 {
            v
        } else if key == "name"@ {
            Self::spec_on_name(v, values, ctx)
        } else if key == "description"@ {
            Self::spec_on_description(v, values, ctx)
        } else if key == "displayName"@ {
            Self::spec_on_display_name(v, values, ctx)
        } else if key == "msPKI-Certificate-Name-Flag"@ {
            Self::spec_on_ms_pki_certificate_name_flag(v, values, ctx)
        } else if key == "msPKI-Enrollment-Flag"@ {
            Self::spec_on_ms_pki_enrollment_flag(v, values, ctx)
        } else if key == "msPKI-RA-Signature"@ {
            Self::spec_on_ms_pki_ra_signature(v, values, ctx)
        } else if key == "msPKI-RA-Application-Policies"@ {
            Self::spec_on_ms_pki_ra_application_policies(v, values, ctx)
        } else if key == "msPKI-Certificate-Application-Policy"@ {
            Self::spec_on_ms_pki_certificate_application_policy(v, values, ctx)
        } else if key == "msPKI-RA-Policies"@ {
            Self::spec_on_ms_pki_ra_policies(v, values, ctx)
        } else if key == "msPKI-Cert-Template-OID"@ {
            Self::spec_on_ms_pki_cert_template_oid(v, values, ctx)
        } else if key == "pKIExtendedKeyUsage"@ {
            Self::spec_on_pki_extended_key_usage(v, values, ctx)
        } else if key == "msPKI-Template-Schema-Version"@ {
            Self::spec_on_ms_pki_template_schema_version(v, values, ctx)
        } else if key == "whenCreated"@ {
            Self::spec_on_when_created(v, values, ctx)
        } else if key == "IsDeleted"@ {
            Self::spec_on_is_deleted(v, values, ctx)
        } else {
            v
        }
    }

    /// What one binary attribute does to a certificate template.
    open spec fn bin_attr(
        v: CertTemplateView,
        key: Seq<char>,
        values: Seq<Seq<u8>>,
        ctx: ContextView,
    ) -> CertTemplateView {
        if values.len() == 0 {
            v
        } else if key == "objectGUID"@ {
            Self::spec_on_object_guid(v, values, ctx)
        } else if key == "nTSecurityDescriptor"@ {
            Self::spec_on_nt_security_descriptor(v, values, ctx)
        } else if key == "pKIExpirationPeriod"@ {
            Self::spec_on_pki_expiration_period(v, values, ctx)
        } else if key == "pKIOverlapPeriod"@ {
            Self::spec_on_pki_overlap_period(v, values, ctx)
        } else {
            v
        }
    }

    fn apply_text(&mut self, key: &str, values: &Vec<String>, ctx: &Context) {
        if values.len() == 0 {
            return ;
        }
        if str_eq(key, "name") {
            self.on_name(values, ctx);
        } else if str_eq(key, "description") {
            self.on_description(values, ctx);
        } else if str_eq(key, "displayName") {
            self.on_display_name(values, ctx);
        } else if str_eq(key, "msPKI-Certificate-Name-Flag") {
            self.on_ms_pki_certificate_name_flag(values, ctx);
        } else if str_eq(key, "msPKI-Enrollment-Flag") {
            self.on_ms_pki_enrollment_flag(values, ctx);
        } else if str_eq(key, "msPKI-RA-Signature") {
            self.on_ms_pki_ra_signature(values, ctx);
        } else if str_eq(key, "msPKI-RA-Application-Policies") {
            self.on_ms_pki_ra_application_policies(values, ctx);
        } else if str_eq(key, "msPKI-Certificate-Application-Policy") {
            self.on_ms_pki_certificate_application_policy(values, ctx);
        } else if str_eq(key, "msPKI-RA-Policies") {
            self.on_ms_pki_ra_policies(values, ctx);
        } else if str_eq(key, "msPKI-Cert-Template-OID") {
            self.on_ms_pki_cert_template_oid(values, ctx);
        } else if str_eq(key, "pKIExtendedKeyUsage") {
            self.on_pki_extended_key_usage(values, ctx);
        } else if str_eq(key, "msPKI-Template-Schema-Version") {
            self.on_ms_pki_template_schema_version(values, ctx);
        } else if str_eq(key, "whenCreated") {
            self.on_when_created(values, ctx);
        } else if str_eq(key, "IsDeleted") {
            self.on_is_deleted(values, ctx);
        }
    }

    fn apply_bin(&mut self, key: &str, values: &Vec<Vec<u8>>, ctx: &Context) {
        if values.len() == 0 {
            return ;
        }
        if str_eq(key, "objectGUID") {
            self.on_object_guid(values, ctx);
        } else if str_eq(key, "nTSecurityDescriptor") {
            self.on_nt_security_descriptor(values, ctx);
        } else if str_eq(key, "pKIExpirationPeriod") {
            self.on_pki_expiration_period(values, ctx);
        } else if str_eq(key, "pKIOverlapPeriod") {
            self.on_pki_overlap_period(values, ctx);
        }
    }
}

impl CertTemplate {
    /// The template before the attributes of its record are read: what
    /// the record's name and the collected domain say of it.
    pub open spec fn spec_begin(
        v: CertTemplateView,
        entry: EntryView,
        domain: Seq<char>,
        domain_sid: Seq<char>,
    ) -> CertTemplateView {
        CertTemplateView {
            properties: CertTemplatePropertiesView {
                domain: spec_to_uppercase(domain),
                distinguishedname: spec_to_uppercase(entry.dn),
                domainsid: domain_sid,
                ..v.properties
            },
            ..v
        }
    }

    /// What is worked out once all the attributes are read. 
    /// The usages in force and whether the template serves authentication
    /// follow from the attributes.
    pub open spec fn spec_finish(v: CertTemplateView) -> CertTemplateView {
        CertTemplateView {
            properties: CertTemplatePropertiesView {
                effectiveekus: spec_effective_ekus(
                    v.properties.schemaversion,
                    v.properties.ekus,
                    v.properties.certificateapplicationpolicy,
                ),
                authenticationenabled: spec_authentication_enabled(
                    spec_effective_ekus(
                        v.properties.schemaversion,
                        v.properties.ekus,
                        v.properties.certificateapplicationpolicy,
                    ),
                ),
                ..v.properties
            },
            ..v
        }
    }

    /// The template that a record describes.
    pub open spec fn spec_parse(
        v: CertTemplateView,
        entry: EntryView,
        domain: Seq<char>,
        domain_sid: Seq<char>,
    ) -> CertTemplateView {
        Self::spec_finish(
            decoded::<CertTemplate>(
                Self::spec_begin(v, entry, domain, domain_sid),
                entry,
                ContextView { domain, domain_sid },
            ),
        )
    }

    /// Decodes the record of a certificate template and enters the template in the index.
    pub fn parse(
        &mut self,
        result: &LdapSearchEntry,
        domain: &str,
        dn_sid: &mut StringMap,
        sid_type: &mut StringMap,
        domain_sid: &str,
    )
        ensures
            final(self)@ == Self::spec_parse(
                old(self)@,
                result@,
                domain@,
                domain_sid@,
            ),
            final(dn_sid)@ == registered_dn(
                old(dn_sid)@,
                final(self)@.properties.distinguishedname,
                final(self)@.common.object_identifier,
            ),
            final(sid_type)@ == registered_type(
                old(sid_type)@,
                final(self)@.common.object_identifier,
                CERT_TEMPLATE_TYPE@,
            ),
    {
        self.properties.domain = upper(domain);
        self.properties.distinguishedname = upper(result.dn.as_str());
        self.properties.domainsid = String::from_str(domain_sid);
        let ctx = Context::new(domain, domain_sid);
        decode_attrs(self, result, &ctx);
        self.properties.effectiveekus = Self::get_effectiveekus(
            &self.properties.schemaversion,
            &self.properties.ekus,
            &self.properties.certificateapplicationpolicy,
        );
        self.properties.authenticationenabled = self.authentication_is_enabled();
        register(
            dn_sid,
            sid_type,
            self.properties.distinguishedname.as_str(),
            self.common.object_identifier.as_str(),
            CERT_TEMPLATE_TYPE,
        );
    }
}
/// The key usages in force: the extended key usages for a template of schema
/// version 1 that lists some, the application policies otherwise.
pub open spec fn spec_effective_ekus(
    schema_version: i64,
    ekus: Seq<Seq<char>>,
    application_policies: Seq<Seq<char>>,
) -> Seq<Seq<char>> {
    if schema_version == 1 && ekus.len() > 0 {
        ekus
    } else {
        application_policies
    }
}

/// A key usage that lets a certificate authenticate its holder: client
/// authentication, PKINIT client authentication, smart card logon, or any
/// purpose.
pub open spec fn is_authentication_usage(eku: Seq<char>) -> bool {
    eku == "1.3.6.1.5.5.7.3.2"@ || eku == "1.3.6.1.5.2.3.4"@ || eku == "1.3.6.1.4.1.311.20.2.2"@
        || eku == "2.5.29.37.0"@
}

/// Whether certificates of a template can authenticate their holder: one of
/// the usages in force does, or no usage is named at all.
pub open spec fn spec_authentication_enabled(effective: Seq<Seq<char>>) -> bool {
    effective.len() == 0 || exists|i: int|
        0 <= i < effective.len() && is_authentication_usage(#[trigger] effective[i])
}

impl CertTemplate {
    /// Picks the key usages in force.
    pub fn get_effectiveekus(
        schema_version: &i64,
        ekus: &Vec<String>,
        certificateapplicationpolicy: &Vec<String>,
    ) -> (effective: Vec<String>)
        ensures
            texts(effective@) == spec_effective_ekus(
                *schema_version,
                texts(ekus@),
                texts(certificateapplicationpolicy@),
            ),
    {
        if *schema_version == 1 && ekus.len() > 0 {
            clone_texts(ekus)
        } else {
            clone_texts(certificateapplicationpolicy)
        }
    }

    /// Whether the usages in force let certificates authenticate their
    /// holder.
    pub fn authentication_is_enabled(&mut self) -> (enabled: bool)
        ensures
            *final(self) == *old(self),
            enabled == spec_authentication_enabled(old(self)@.properties.effectiveekus),
    {
        serves_authentication(&self.properties.effectiveekus)
    }
}

/// Whether the given usages let certificates authenticate their holder.
pub fn serves_authentication(ekus: &Vec<String>) -> (enabled: bool)
    ensures
        enabled == spec_authentication_enabled(texts(ekus@)),
{
    if ekus.len() == 0 {
        return true;
    }
    let mut i: usize = 0;
    while i < ekus.len()
        invariant
            i <= ekus.len(),
            forall|j: int| 0 <= j < i ==> !is_authentication_usage(#[trigger] texts(ekus@)[j]),
        decreases ekus.len() - i,
    {
        let eku = ekus[i].as_str();
        assert(texts(ekus@)[i as int] == eku@);
        if str_eq(eku, "1.3.6.1.5.5.7.3.2") || str_eq(eku, "1.3.6.1.5.2.3.4") || str_eq(
            eku,
            "1.3.6.1.4.1.311.20.2.2",
        ) || str_eq(eku, "2.5.29.37.0") {
            assert(is_authentication_usage(texts(ekus@)[i as int]));
            return true;
        }
        i += 1;
    }
    false
}

} // verus!
