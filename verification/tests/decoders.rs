use rusthound_ce::api::{skip_container, ADResults};
use rusthound_ce::enums::ldaptype::{get_type, Type};
use rusthound_ce::mappings::StringMap;
use rusthound_ce::objects::aiaca::AIACA;
use rusthound_ce::objects::certtemplate::{serves_authentication, CertTemplate};
use rusthound_ce::objects::common::Member;
use rusthound_ce::objects::computer::Computer;
use rusthound_ce::objects::container::Container;
use rusthound_ce::objects::enterpriseca::EnterpriseCA;
use rusthound_ce::objects::fsp::Fsp;
use rusthound_ce::objects::gpo::Gpo;
use rusthound_ce::objects::inssuancepolicie::IssuancePolicie;
use rusthound_ce::objects::rootca::RootCA;
use rusthound_ce::objects::decode::{
    domain_of_dn, hosts_from_targets, primary_group, register,
};
use rusthound_ce::objects::domain::Domain;
use rusthound_ce::objects::group::Group;
use rusthound_ce::objects::inssuancepolicie::GroupLink;
use rusthound_ce::objects::ntauthstore::NtAuthStore;
use rusthound_ce::objects::ou::Ou;
use rusthound_ce::objects::trust::Trust;
use rusthound_ce::objects::user::User;
use rusthound_ce::api::parse_result_type_from_source;
use rusthound_ce::LdapSearchEntry;

fn record(dn: &str, attrs: &[(&str, &[&str])], bin: &[(&str, Vec<u8>)]) -> LdapSearchEntry {
    LdapSearchEntry {
        dn: dn.to_string(),
        attrs: attrs
            .iter()
            .map(|(k, v)| (k.to_string(), v.iter().map(|s| s.to_string()).collect()))
            .collect(),
        bin_attrs: bin.iter().map(|(k, v)| (k.to_string(), vec![v.clone()])).collect(),
    }
}

fn classes(dn: &str, values: &[&str]) -> LdapSearchEntry {
    record(dn, &[("objectClass", values)], &[])
}

fn sid(subs: &[u32]) -> Vec<u8> {
    let mut out = vec![1u8, subs.len() as u8, 0, 0, 0, 0, 0, 5];
    for s in subs {
        out.extend_from_slice(&s.to_le_bytes());
    }
    out
}

const GUID: [u8; 16] = [
    0xE2, 0x49, 0x30, 0x00, 0xAA, 0x00, 0x85, 0xA2, 0x11, 0xD0, 0x0D, 0xE6, 0xBF, 0x96, 0x7A, 0xBA,
];

#[test]
fn records_are_classified_by_their_classes() {
    let top = "top";
    assert_eq!(get_type(&classes("CN=a", &[top, "person", "organizationalPerson", "user"])), Ok(Type::User));
    assert_eq!(
        get_type(&classes("CN=a", &[top, "person", "organizationalPerson", "user", "computer"])),
        Ok(Type::Computer)
    );
    assert_eq!(
        get_type(&classes("CN=a", &[top, "person", "user", "computer", "msDS-GroupManagedServiceAccount"])),
        Ok(Type::User)
    );
    assert_eq!(get_type(&classes("CN=a", &[top, "group"])), Ok(Type::Group));
    assert_eq!(get_type(&classes("OU=a", &[top, "organizationalUnit"])), Ok(Type::Ou));
    assert_eq!(get_type(&classes("DC=a", &[top, "domain", "domainDNS"])), Ok(Type::Domain));
    assert_eq!(
        get_type(&classes("CN=a", &[top, "container", "groupPolicyContainer"])),
        Ok(Type::Gpo)
    );
    assert_eq!(
        get_type(&classes("CN=a", &[top, "foreignSecurityPrincipal"])),
        Ok(Type::ForeignSecurityPrincipal)
    );
    assert_eq!(get_type(&classes("CN=a", &[top, "container"])), Ok(Type::Container));
    assert_eq!(get_type(&classes("CN=a", &["container"])), Err(Type::Unknown));
    assert_eq!(get_type(&classes("CN=a", &[top, "leaf", "trustedDomain"])), Ok(Type::Trust));
    assert_eq!(get_type(&classes("CN=a", &[top, "dnsNode"])), Err(Type::Unknown));
    assert_eq!(get_type(&record("CN=a", &[("name", &["a"])], &[])), Err(Type::Unknown));
    assert_eq!(get_type(&record("CN=a", &[], &[])), Err(Type::Unknown));
}

#[test]
fn certificate_objects_are_told_apart_by_their_place() {
    let ca = ["top", "certificationAuthority"];
    let pki = "CN=Public Key Services,CN=Services,CN=Configuration,DC=essos,DC=local";
    assert_eq!(
        get_type(&classes(&format!("CN=ESSOS-CA,CN=Certification Authorities,{pki}"), &ca)),
        Ok(Type::RootCA)
    );
    assert_eq!(get_type(&classes(&format!("CN=ESSOS-CA,CN=AIA,{pki}"), &ca)), Ok(Type::AIACA));
    assert_eq!(
        get_type(&classes(&format!("CN=NTAuthCertificates,{pki}"), &ca)),
        Ok(Type::NtAutStore)
    );
    assert_eq!(get_type(&classes(&format!("CN=ESSOS-CA,CN=KRA,{pki}"), &ca)), Err(Type::Unknown));
    assert_eq!(
        get_type(&classes(
            &format!("CN=ESSOS-CA,CN=Enrollment Services,{pki}"),
            &["top", "pKIEnrollmentService"]
        )),
        Ok(Type::EnterpriseCA)
    );
    assert_eq!(
        get_type(&classes(
            &format!("CN=User,CN=Certificate Templates,{pki}"),
            &["top", "pKICertificateTemplate"]
        )),
        Ok(Type::CertTemplate)
    );
    // case matters in the place
    assert_eq!(
        get_type(&classes(
            &format!("CN=User,CN=CERTIFICATE TEMPLATES,{pki}"),
            &["top", "pKICertificateTemplate"]
        )),
        Err(Type::Unknown)
    );
    let oid = format!("CN=1.2.3,CN=OID,{pki}");
    assert_eq!(
        get_type(&record(&oid, &[("objectClass", &["top", "msPKI-Enterprise-Oid"]), ("flags", &["2"])], &[])),
        Ok(Type::IssuancePolicie)
    );
    assert_eq!(
        get_type(&record(&oid, &[("objectClass", &["top", "msPKI-Enterprise-Oid"]), ("flags", &["1"])], &[])),
        Err(Type::Unknown)
    );
    assert_eq!(
        get_type(&record(&oid, &[("objectClass", &["top", "msPKI-Enterprise-Oid"])], &[])),
        Err(Type::Unknown)
    );
}

#[test]
fn containers_named_by_a_guid_are_left_out() {
    assert!(skip_container("CN={31B2F340-016D-11D2-945F-00C04FB984F9},CN=Policies,CN=System,DC=essos,DC=local"));
    assert!(skip_container("CN=Operations,CN=DomainUpdates,CN=System,DC=essos,DC=local"));
    assert!(skip_container("CN=a-b-c-d,DC=x"));
    assert!(!skip_container("CN=a-b-c,DC=x"));
    assert!(!skip_container("CN=Users,DC=essos,DC=local"));
    assert!(!skip_container("CN=a-b-c-,DC=x"));
    assert!(skip_container("CN=------x"));
    assert!(!skip_container("CN=-----x"));
    assert!(!skip_container(""));
}

#[test]
fn index_takes_a_node_unless_it_is_unresolved() {
    let mut dn_sid = StringMap::new();
    let mut sid_type = StringMap::new();
    register(&mut dn_sid, &mut sid_type, "CN=A,DC=X", "S-1-5-21-1-2-3-1104", "User");
    register(&mut dn_sid, &mut sid_type, "CN=B,DC=X", "SID", "User");
    assert_eq!(dn_sid.len(), 1);
    assert_eq!(sid_type.len(), 1);
    assert_eq!(dn_sid.get("CN=A,DC=X").map(|s| s.as_str()), Some("S-1-5-21-1-2-3-1104"));
    assert_eq!(sid_type.get("S-1-5-21-1-2-3-1104").map(|s| s.as_str()), Some("User"));
    assert_eq!(dn_sid.get("CN=B,DC=X"), None);
    assert_eq!(sid_type.get("SID"), None);
    // the same name again replaces the identifier and keeps one entry
    register(&mut dn_sid, &mut sid_type, "CN=A,DC=X", "S-1-5-21-1-2-3-1105", "Computer");
    assert_eq!(dn_sid.len(), 1);
    assert_eq!(dn_sid.get("CN=A,DC=X").map(|s| s.as_str()), Some("S-1-5-21-1-2-3-1105"));
    assert_eq!(dn_sid.position_of_value("S-1-5-21-1-2-3-1104"), None);
    assert_eq!(dn_sid.position_of_value("S-1-5-21-1-2-3-1105"), Some(0));
}

#[test]
fn text_map_keeps_insertion_order() {
    let mut m = StringMap::new();
    assert_eq!(m.len(), 0);
    m.insert("b".to_string(), "1".to_string());
    m.insert("a".to_string(), "2".to_string());
    m.insert("b".to_string(), "3".to_string());
    assert_eq!(m.len(), 2);
    assert_eq!(m.key(0), "b");
    assert_eq!(m.value(0), "3");
    assert_eq!(m.key(1), "a");
    assert!(m.contains_key("a"));
    assert!(!m.contains_key("c"));
    assert_eq!(m.position("a"), Some(1));
    assert_eq!(m.position_of_value("2"), Some(1));
}

#[test]
fn computer_record_is_decoded_and_indexed() {
    let entry = record(
        "CN=MEEREEN,OU=Domain Controllers,DC=essos,DC=local",
        &[
            ("objectClass", &["top", "person", "organizationalPerson", "user", "computer"]),
            ("name", &["meereen"]),
            ("sAMAccountName", &["MEEREEN$"]),
            ("dNSHostName", &["meereen.essos.local"]),
            ("operatingSystem", &["Windows Server 2016"]),
            ("userAccountControl", &["532480"]),
            ("lastLogon", &["132539328000000000"]),
            ("pwdLastSet", &["0"]),
            ("whenCreated", &["20210101000000.0Z"]),
            ("primaryGroupID", &["516"]),
            ("servicePrincipalName", &["HOST/meereen", "HOST/meereen.essos.local"]),
            ("msDS-AllowedToDelegateTo", &["cifs/braavos.essos.local", "cifs/BRAAVOS", "nohost", "http/winterfell.north.local"]),
            ("msDS-SupportedEncryptionTypes", &["28"]),
            ("ms-Mcs-AdmPwdExpirationTime", &["1"]),
            ("description", &["first"]),
        ],
        &[("objectSid", sid(&[21, 1, 2, 3, 1001]))],
    );
    let mut results = ADResults::new();
    let mut computer = Computer::new();
    let m = &mut results.mappings;
    computer.parse(&entry, "essos.local", &mut m.dn_sid, &mut m.sid_type, &mut m.fqdn_sid, &mut m.fqdn_ip, "S-1-5-21-9");
    let p = computer.properties();
    assert_eq!(p.domain, "ESSOS.LOCAL");
    assert_eq!(p.distinguishedname, "CN=MEEREEN,OU=DOMAIN CONTROLLERS,DC=ESSOS,DC=LOCAL");
    assert_eq!(p.name(), "MEEREEN.ESSOS.LOCAL");
    assert_eq!(p.samaccountname, "MEEREEN$");
    assert_eq!(p.operatingsystem, "Windows Server 2016");
    assert!(*p.enabled());
    assert!(*p.get_is_dc());
    assert!(*p.unconstraineddelegation());
    assert!(computer.is_dc);
    assert!(computer.unconstrained_delegation);
    assert!(!p.trustedtoauth);
    assert_eq!(p.lastlogon, 1609459200);
    assert_eq!(p.pwdlastset, 0);
    assert_eq!(p.whencreated, 1609459200);
    assert_eq!(p.description.as_deref(), Some("first"));
    assert!(p.haslaps);
    assert_eq!(p.serviceprincipalnames, vec!["HOST/meereen", "HOST/meereen.essos.local"]);
    assert_eq!(
        p.supportedencryptiontypes,
        vec!["RC4-HMAC-MD5", "AES128-CTS-HMAC-SHA1-96", "AES256-CTS-HMAC-SHA1-96"]
    );
    assert_eq!(p.domainsid, "S-1-5-21-1-2-3");
    assert_eq!(computer.domain_sid, "S-1-5-21-9");
    assert_eq!(computer.object_identifier(), "S-1-5-21-1-2-3-1001");
    assert_eq!(computer.primary_group_sid, "S-1-5-21-1-2-3-516");
    let hosts: Vec<(&str, &str)> = computer
        .common
        .allowed_to_delegate
        .iter()
        .map(|m| (m.object_identifier.as_str(), m.object_type.as_str()))
        .collect();
    // BRAAVOS is held by BRAAVOS.ESSOS.LOCAL, which came first
    assert_eq!(hosts, vec![("BRAAVOS.ESSOS.LOCAL", "Computer"), ("WINTERFELL.NORTH.LOCAL", "Computer")]);
    assert!(computer.allowed_to_act().is_empty());
    let m = &results.mappings;
    assert_eq!(
        m.dn_sid.get("CN=MEEREEN,OU=DOMAIN CONTROLLERS,DC=ESSOS,DC=LOCAL").map(|s| s.as_str()),
        Some("S-1-5-21-1-2-3-1001")
    );
    assert_eq!(m.sid_type.get("S-1-5-21-1-2-3-1001").map(|s| s.as_str()), Some("Computer"));
    assert_eq!(m.fqdn_sid.get("MEEREEN.ESSOS.LOCAL").map(|s| s.as_str()), Some("S-1-5-21-1-2-3-1001"));
    assert_eq!(m.fqdn_ip.get("MEEREEN.ESSOS.LOCAL").map(|s| s.as_str()), Some(""));
}

#[test]
fn computer_that_is_disabled_and_has_no_identifier_is_indexed_under_the_empty_text() {
    let entry = record(
        "CN=OLD,DC=essos,DC=local",
        &[("name", &["old"]), ("userAccountControl", &["4098"]), ("whenCreated", &["garbage"]), ("lastLogon", &["x"]), ("description", &[])],
        &[],
    );
    let mut results = ADResults::new();
    let mut computer = Computer::new();
    let m = &mut results.mappings;
    computer.parse(&entry, "essos.local", &mut m.dn_sid, &mut m.sid_type, &mut m.fqdn_sid, &mut m.fqdn_ip, "DOMAIN_SID");
    assert!(!computer.properties.enabled);
    assert!(!computer.is_dc);
    assert_eq!(computer.properties.name, "OLD.ESSOS.LOCAL");
    assert_eq!(computer.properties.whencreated, 0);
    assert_eq!(computer.properties.lastlogon, 0);
    assert_eq!(computer.properties.description, None);
    assert_eq!(computer.object_identifier(), "");
    assert_eq!(computer.primary_group_sid, "");
    let m = &results.mappings;
    assert_eq!(m.dn_sid.len(), 1);
    assert_eq!(m.dn_sid.get("CN=OLD,DC=ESSOS,DC=LOCAL").map(|s| s.as_str()), Some(""));
    assert_eq!(m.sid_type.len(), 1);
    assert_eq!(m.sid_type.get("").map(|s| s.as_str()), Some("Computer"));
    assert_eq!(m.fqdn_sid.len(), 1);
    assert_eq!(m.fqdn_sid.get("OLD.ESSOS.LOCAL").map(|s| s.as_str()), Some(""));
    assert_eq!(m.fqdn_ip.len(), 1);
    assert_eq!(m.fqdn_ip.get("OLD.ESSOS.LOCAL").map(|s| s.as_str()), Some(""));
}

#[test]
fn account_control_that_is_no_number_changes_nothing() {
    let entry = record("CN=X,DC=a", &[("userAccountControl", &["-2"])], &[]);
    let mut computer = Computer::new();
    let mut a = StringMap::new();
    let mut b = StringMap::new();
    let mut c = StringMap::new();
    let mut d = StringMap::new();
    computer.parse(&entry, "a", &mut a, &mut b, &mut c, &mut d, "");
    assert!(computer.properties.enabled);
    assert!(!computer.properties.passwordnotreqd);
}

#[test]
fn domain_record_gives_the_identifier_of_the_domain() {
    let entry = record(
        "DC=essos,DC=local",
        &[
            ("objectClass", &["top", "domain", "domainDNS"]),
            ("distinguishedName", &["DC=essos,DC=local"]),
            ("msDS-Behavior-Version", &["7"]),
            ("isCriticalSystemObject", &["TRUE"]),
            ("ms-DS-MachineAccountQuota", &["10"]),
            ("minPwdLength", &["7"]),
            ("pwdProperties", &["1"]),
            ("pwdHistoryLength", &["24"]),
            ("lockoutThreshold", &["abc"]),
            ("minPwdAge", &["-864000000000"]),
            ("maxPwdAge", &["-36288000000000"]),
            ("lockoutDuration", &["-18000000000"]),
            ("lockOutObservationWindow", &["-18000000000"]),
            ("gPLink", &["[LDAP://CN={31B2F340-016D-11D2-945F-00C04FB984F9},CN=Policies,CN=System,DC=essos,DC=local;0]"]),
            ("msDS-ExpirePasswordsOnSmartCardOnlyAccounts", &["TRUE"]),
        ],
        &[("objectSid", sid(&[21, 1111111111, 2222222222, 3333333333]))],
    );
    let mut dn_sid = StringMap::new();
    let mut sid_type = StringMap::new();
    let mut domain = Domain::new();
    let found = domain.parse(&entry, "essos.local", &mut dn_sid, &mut sid_type);
    assert_eq!(found, "S-1-5-21-1111111111-2222222222-3333333333");
    let p = &domain.properties;
    assert_eq!(p.name, "ESSOS.LOCAL");
    assert_eq!(p.domain, "ESSOS.LOCAL");
    assert_eq!(p.distinguishedname, "DC=ESSOS,DC=LOCAL");
    assert_eq!(p.functionallevel, "2016");
    assert!(p.highvalue);
    assert!(p.collected);
    assert!(p.expirepasswordsonsmartcardonlyaccounts);
    assert_eq!(p.machineaccountquota, 10);
    assert_eq!(p.minpwdlength, 7);
    assert_eq!(p.pwdproperties, 1);
    assert_eq!(p.pwdhistorylength, 24);
    assert_eq!(p.lockoutthreshold, 0);
    assert_eq!(p.minpwdage, "1 day");
    assert_eq!(p.maxpwdage, "6 weeks");
    assert_eq!(p.lockoutduration, "30 minutes");
    assert_eq!(p.lockoutobservationwindow, -18000000000);
    assert_eq!(p.domainsid, "S-1-5-21-1111111111-2222222222-3333333333");
    assert_eq!(domain.common.links.len(), 1);
    assert_eq!(domain.common.links[0].guid, "31B2F340-016D-11D2-945F-00C04FB984F9");
    assert_eq!(sid_type.get(&found).map(|s| s.as_str()), Some("Domain"));
    assert_eq!(dn_sid.get("DC=ESSOS,DC=LOCAL").map(|s| s.as_str()), Some(found.as_str()));
}

#[test]
fn domain_record_without_identifier_gives_the_placeholder() {
    let entry = record("DC=essos,DC=local", &[("objectClass", &["domain"])], &[]);
    let mut dn_sid = StringMap::new();
    let mut sid_type = StringMap::new();
    let mut domain = Domain::new();
    assert_eq!(domain.parse(&entry, "essos.local", &mut dn_sid, &mut sid_type), "DOMAIN_SID");
    assert_eq!(domain.common.object_identifier, "");
    assert_eq!(dn_sid.len(), 1);
    assert_eq!(dn_sid.get("DC=ESSOS,DC=LOCAL").map(|s| s.as_str()), Some(""));
    assert_eq!(sid_type.get("").map(|s| s.as_str()), Some("Domain"));
}

#[test]
fn domain_name_comes_from_the_dc_components() {
    assert_eq!(domain_of_dn("CN=X,DC=essos,DC=local"), "essos.local");
    assert_eq!(domain_of_dn("DC=local"), "local");
    assert_eq!(domain_of_dn("CN=X,OU=Y"), "");
    assert_eq!(domain_of_dn("DC=,DC=a"), ".a");
    assert_eq!(domain_of_dn("dc=a,DC=b"), "b");
}

#[test]
fn unit_record_is_decoded_and_indexed_by_guid() {
    let entry = record(
        "OU=Dragons,DC=essos,DC=local",
        &[
            ("objectClass", &["top", "organizationalUnit"]),
            ("name", &["Dragons"]),
            ("description", &["three of them"]),
            ("gPOtions", &["1"]),
            ("IsDeleted", &["TRUE"]),
        ],
        &[("objectGUID", GUID.to_vec())],
    );
    let mut dn_sid = StringMap::new();
    let mut sid_type = StringMap::new();
    let mut ou = Ou::new();
    ou.parse(&entry, "essos.local", &mut dn_sid, &mut sid_type, "S-1-5-21-1-2-3");
    assert_eq!(ou.properties().name(), "DRAGONS@ESSOS.LOCAL");
    assert_eq!(ou.properties().distinguishedname(), "OU=DRAGONS,DC=ESSOS,DC=LOCAL");
    assert_eq!(ou.properties.domainsid, "S-1-5-21-1-2-3");
    assert!(ou.properties.blocksinheritance);
    assert!(ou.common.is_deleted);
    assert_eq!(ou.common.object_identifier, "003049E2-00AA-A285-11D0-0DE6BF967ABA");
    assert_eq!(sid_type.get("003049E2-00AA-A285-11D0-0DE6BF967ABA").map(|s| s.as_str()), Some("OU"));
    assert_eq!(
        dn_sid.get("OU=DRAGONS,DC=ESSOS,DC=LOCAL").map(|s| s.as_str()),
        Some("003049E2-00AA-A285-11D0-0DE6BF967ABA")
    );
}

#[test]
fn short_guid_leaves_the_identifier_empty() {
    let entry = record("OU=X,DC=a", &[], &[("objectGUID", vec![1, 2, 3])]);
    let mut dn_sid = StringMap::new();
    let mut sid_type = StringMap::new();
    let mut ou = Ou::new();
    ou.parse(&entry, "a", &mut dn_sid, &mut sid_type, "");
    assert_eq!(ou.common.object_identifier, "");
    assert_eq!(dn_sid.len(), 1);
    assert_eq!(dn_sid.get("OU=X,DC=A").map(|s| s.as_str()), Some(""));
}

#[test]
fn later_attribute_wins() {
    let entry = record("CN=c,DC=a", &[("dNSHostName", &["one.a"]), ("name", &["two"])], &[]);
    let mut computer = Computer::new();
    let (mut a, mut b, mut c, mut d) = (StringMap::new(), StringMap::new(), StringMap::new(), StringMap::new());
    computer.parse(&entry, "a", &mut a, &mut b, &mut c, &mut d, "");
    assert_eq!(computer.properties.name, "TWO.A");
    let entry = record("CN=c,DC=a", &[("name", &["two"]), ("dNSHostName", &["one.a"])], &[]);
    let mut computer = Computer::new();
    computer.parse(&entry, "a", &mut a, &mut b, &mut c, &mut d, "");
    assert_eq!(computer.properties.name, "ONE.A");
}

#[test]
fn group_members_are_kept_by_name_until_resolved() {
    let entry = record(
        "CN=Dothraki,CN=Users,DC=essos,DC=local",
        &[
            ("name", &["Dothraki"]),
            ("sAMAccountName", &["Dothraki"]),
            ("adminCount", &["1"]),
            ("member", &["CN=khal.drogo,CN=Users,DC=essos,DC=local", "CN=jorah,CN=Users,DC=essos,DC=local"]),
        ],
        &[("objectSid", sid(&[21, 1, 2, 3, 1107]))],
    );
    let mut dn_sid = StringMap::new();
    let mut sid_type = StringMap::new();
    let mut group = Group::new();
    group.parse(&entry, "essos.local", &mut dn_sid, &mut sid_type, "DOMAIN_SID");
    assert_eq!(group.properties().name(), "DOTHRAKI@ESSOS.LOCAL");
    assert!(group.properties.admincount);
    assert_eq!(group.properties.domainsid, "S-1-5-21-1-2-3");
    let members: Vec<&str> = group.members().iter().map(|m| m.object_identifier.as_str()).collect();
    assert_eq!(members, vec!["CN=KHAL.DROGO,CN=USERS,DC=ESSOS,DC=LOCAL", "CN=JORAH,CN=USERS,DC=ESSOS,DC=LOCAL"]);
    assert_eq!(sid_type.get("S-1-5-21-1-2-3-1107").map(|s| s.as_str()), Some("Group"));
}

#[test]
fn user_record_is_decoded() {
    let entry = record(
        "CN=daenerys,CN=Users,DC=essos,DC=local",
        &[
            ("sAMAccountName", &["daenerys.targaryen"]),
            ("displayName", &["Daenerys"]),
            ("mail", &["d@essos.local"]),
            ("userAccountControl", &["4260384"]),
            ("adminCount", &["1"]),
            ("primaryGroupID", &["513"]),
            ("servicePrincipalName", &["MSSQLSvc/braavos.essos.local:1433"]),
        ],
        &[("objectSid", sid(&[21, 1, 2, 3, 1112]))],
    );
    let mut dn_sid = StringMap::new();
    let mut sid_type = StringMap::new();
    let mut user = User::new();
    user.parse(&entry, "essos.local", &mut dn_sid, &mut sid_type, "DOMAIN_SID");
    let p = user.properties();
    assert_eq!(p.name(), "DAENERYS.TARGARYEN@ESSOS.LOCAL");
    assert_eq!(p.samaccountname, "daenerys.targaryen");
    assert_eq!(p.displayname, "Daenerys");
    assert_eq!(p.email, "d@essos.local");
    assert_eq!(p.useraccountcontrol, 4260384);
    assert!(p.enabled);
    assert!(p.passwordnotreqd);
    assert!(p.pwdneverexpires);
    assert!(p.dontreqpreauth);
    assert!(!p.sensitive);
    assert!(p.admincount);
    assert!(p.hasspn);
    assert_eq!(user.primary_group_sid, "S-1-5-21-1-2-3-513");
    assert_eq!(user.object_identifier(), "S-1-5-21-1-2-3-1112");
    assert_eq!(p.domainsid(), "S-1-5-21-1-2-3");
}

#[test]
fn trust_record_is_decoded() {
    let entry = record(
        "CN=north.local,CN=System,DC=essos,DC=local",
        &[("name", &["north.local"]), ("trustDirection", &["3"]), ("trustAttributes", &["8"])],
        &[("securityIdentifier", sid(&[21, 7, 8, 9]))],
    );
    let mut trust = Trust::new();
    assert_eq!(trust.target_domain_sid(), "");
    trust.parse(&entry, "essos.local");
    assert_eq!(trust.target_domain_name(), "NORTH.LOCAL");
    assert_eq!(trust.trust_direction, "Bidirectional");
    assert_eq!(trust.trust_type, "Forest");
    assert_eq!(trust.trust_attributes, 8);
    assert!(trust.is_transitive);
    assert_eq!(trust.target_domain_sid(), "ESSOS.LOCAL-S-1-5-21-7-8-9");
    let mut other = Trust::new();
    other.parse(&record("CN=x", &[("trustDirection", &["7"]), ("trustAttributes", &["x"])], &[]), "d");
    assert_eq!(other.trust_direction, "Disabled");
    assert_eq!(other.trust_type, "Unknown");
    *other.is_transitive_mut() = false;
    *other.sid_filtering_enabled_mut() = true;
    *other.trust_type_mut() = "External".to_string();
    assert!(!other.is_transitive && other.sid_filtering_enabled);
    assert_eq!(other.trust_type, "External");
}

#[test]
fn certificate_template_works_out_its_usages() {
    let entry = record(
        "CN=User,CN=Certificate Templates,CN=Public Key Services,CN=Services,CN=Configuration,DC=essos,DC=local",
        &[
            ("name", &["User"]),
            ("displayName", &["User"]),
            ("msPKI-Certificate-Name-Flag", &["-1509949440"]),
            ("msPKI-Enrollment-Flag", &["41"]),
            ("msPKI-RA-Signature", &["0"]),
            ("pKIExtendedKeyUsage", &["1.3.6.1.4.1.311.10.3.4", "1.3.6.1.5.5.7.3.2"]),
            ("msPKI-Certificate-Application-Policy", &["1.3.6.1.5.5.7.3.4"]),
            ("msPKI-Template-Schema-Version", &["1"]),
            ("msPKI-Cert-Template-OID", &["1.3.6.1.4.1.311.21.8.1"]),
        ],
        &[
            ("objectGUID", GUID.to_vec()),
            ("pKIExpirationPeriod", vec![0x00, 0x40, 0x39, 0x87, 0x2e, 0xe1, 0xfe, 0xff]),
            ("pKIOverlapPeriod", vec![0x00, 0x80, 0xa6, 0x0a, 0xff, 0xde, 0xff, 0xff]),
        ],
    );
    let mut dn_sid = StringMap::new();
    let mut sid_type = StringMap::new();
    let mut template = CertTemplate::new();
    template.parse(&entry, "essos.local", &mut dn_sid, &mut sid_type, "S-1-5-21-1-2-3");
    let p = template.properties();
    assert_eq!(p.name(), "USER@ESSOS.LOCAL");
    assert_eq!(p.validityperiod, "1 year");
    assert_eq!(p.renewalperiod, "6 weeks");
    assert_eq!(p.schemaversion, 1);
    assert_eq!(p.oid, "1.3.6.1.4.1.311.21.8.1");
    assert_eq!(p.effectiveekus, vec!["1.3.6.1.4.1.311.10.3.4", "1.3.6.1.5.5.7.3.2"]);
    assert!(p.authenticationenabled);
    assert!(p.subjectaltrequireupn);
    assert!(!p.enrolleesuppliessubject);
    assert!(!p.requiresmanagerapproval);
    assert_eq!(p.enrollmentflag, "INCLUDE_SYMMETRIC_ALGORITHMS, PUBLISH_TO_DS, AUTO_ENROLLMENT");
    assert_eq!(template.object_identifier(), "003049E2-00AA-A285-11D0-0DE6BF967ABA");
    assert_eq!(sid_type.get(template.object_identifier()).map(|s| s.as_str()), Some("CertTemplate"));
}

#[test]
fn usages_in_force_and_authentication() {
    let ekus = vec!["1.1".to_string()];
    let policies = vec!["2.2".to_string(), "2.5.29.37.0".to_string()];
    assert_eq!(CertTemplate::get_effectiveekus(&1, &ekus, &policies), ekus);
    assert_eq!(CertTemplate::get_effectiveekus(&2, &ekus, &policies), policies);
    assert_eq!(CertTemplate::get_effectiveekus(&1, &vec![], &policies), policies);
    assert!(serves_authentication(&vec![]));
    assert!(!serves_authentication(&ekus));
    assert!(serves_authentication(&policies));
    assert!(serves_authentication(&vec!["1.3.6.1.5.2.3.4".to_string()]));
    assert!(serves_authentication(&vec!["1.3.6.1.4.1.311.20.2.2".to_string()]));
    let mut template = CertTemplate::new();
    assert!(template.authentication_is_enabled());
    assert!(!template.properties.authenticationenabled);
    assert_eq!(template.properties.whencreated, -1);
    assert!(template.properties.subjectaltrequireupn);
}

#[test]
fn store_of_trusted_certificates_keeps_the_thumbprint() {
    let entry = record(
        "CN=NTAuthCertificates,CN=Public Key Services,CN=Services,CN=Configuration,DC=essos,DC=local",
        &[("name", &["NTAuthCertificates"])],
        &[("cACertificate", b"abc".to_vec()), ("objectGUID", GUID.to_vec())],
    );
    let mut dn_sid = StringMap::new();
    let mut sid_type = StringMap::new();
    let mut store = NtAuthStore::new();
    store.parse(&entry, "essos.local", &mut dn_sid, &mut sid_type, "S-1-5-21-1-2-3");
    assert_eq!(store.properties.certthumbprints, vec!["A9993E364706816ABA3E25717850C26C9CD0D89D"]);
    assert_eq!(store.domain_sid, "S-1-5-21-1-2-3");
    assert_eq!(store.properties.name, "NTAUTHCERTIFICATES@ESSOS.LOCAL");
}

#[test]
fn helpers_of_the_decoders() {
    assert_eq!(primary_group("S-1-5-21-1-2-3-1001", "516"), "S-1-5-21-1-2-3-516");
    assert_eq!(primary_group("", "516"), "");
    let hosts = hosts_from_targets(&vec!["a/x".to_string(), "b/X".to_string(), "c/y/z".to_string()]);
    let ids: Vec<&str> = hosts.iter().map(|m| m.object_identifier.as_str()).collect();
    assert_eq!(ids, vec!["X", "Y"]);
    let link = GroupLink::new(Some("S-1".to_string()), "Group".to_string());
    assert_eq!(link.object_identifier(), &Some("S-1".to_string()));
    assert_eq!(link.object_type(), "Group");
    let mut link = GroupLink::base();
    assert_eq!(link.object_type(), "Base");
    *link.object_identifier_mut() = Some("x".to_string());
    *link.object_type_mut() = "Group".to_string();
    assert_eq!(link.object_identifier, Some("x".to_string()));
}

#[test]
fn run_of_records_fills_the_collections_in_order() {
    let entries = vec![
        record("CN=early,CN=Users,DC=essos,DC=local", &[("objectClass", &["top", "person", "user"]), ("sAMAccountName", &["early"])], &[("objectSid", sid(&[21, 1, 2, 3, 1000]))]),
        record("DC=essos,DC=local", &[("objectClass", &["top", "domain"])], &[("objectSid", sid(&[21, 1000000, 2000000, 3000000]))]),
        record("CN=late,CN=Users,DC=essos,DC=local", &[("objectClass", &["top", "person", "user"]), ("sAMAccountName", &["late"])], &[("objectSid", sid(&[21, 1, 2, 3, 1001]))]),
        record("CN={31B2F340-016D-11D2-945F-00C04FB984F9},CN=Policies,DC=essos,DC=local", &[("objectClass", &["top", "container"])], &[("objectGUID", GUID.to_vec())]),
        record("CN=Users,DC=essos,DC=local", &[("objectClass", &["top", "container"]), ("name", &["Users"])], &[("objectGUID", GUID.to_vec())]),
        record("CN=nothing", &[("objectClass", &["top", "dnsNode"])], &[]),
        record("CN=north,CN=System,DC=essos,DC=local", &[("objectClass", &["top", "trustedDomain"]), ("name", &["north.local"])], &[]),
    ];
    let results = parse_result_type_from_source("essos.local", entries);
    assert_eq!(results.users.len(), 2);
    assert_eq!(results.domains.len(), 1);
    assert_eq!(results.containers.len(), 1);
    assert_eq!(results.trusts.len(), 1);
    assert_eq!(results.groups.len(), 0);
    // decoded before the domain record: the placeholder
    assert_eq!(results.users[0].common.object_identifier, "S-1-5-21-1-2-3-1000");
    assert_eq!(results.containers[0].properties.domainsid, "S-1-5-21-1000000-2000000-3000000");
    assert_eq!(results.containers[0].properties.name, "USERS@ESSOS.LOCAL");
    assert_eq!(results.mappings.dn_sid.len(), 4);
    assert_eq!(results.mappings.sid_type.len(), 4);
    assert_eq!(
        results.mappings.sid_type.get("003049E2-00AA-A285-11D0-0DE6BF967ABA").map(|s| s.as_str()),
        Some("Container")
    );
    for user in &results.users {
        assert_eq!(
            results.mappings.sid_type.get(&user.common.object_identifier).map(|s| s.as_str()),
            Some("User")
        );
        assert_eq!(
            results.mappings.dn_sid.get(&user.properties.distinguishedname),
            Some(&user.common.object_identifier)
        );
        let names = (0..results.mappings.dn_sid.len())
            .filter(|i| results.mappings.dn_sid.value(*i) == &user.common.object_identifier)
            .count();
        assert_eq!(names, 1);
    }
}

#[test]
fn fresh_nodes_hold_an_empty_identifier() {
    let c = Computer::new();
    assert_eq!(c.object_identifier(), "");
    assert!(c.allowed_to_act().is_empty());
    assert!(c.common.allowed_to_delegate.is_empty());
    assert!(c.common.aces.is_empty());
    assert!(c.common.contained_by.is_none());
    assert!(!c.common.is_acl_protected);
    let t = CertTemplate::new();
    assert_eq!(t.object_identifier(), "");
    assert!(t.common.aces.is_empty());
    assert!(t.common.contained_by.is_none());
    let d = Domain::new();
    assert_eq!(d.common.object_identifier, "");
    assert!(d.common.links.is_empty());
    assert!(d.common.child_objects.is_empty());
    assert!(d.trusts.is_empty());
    assert_eq!(AIACA::new().common.object_identifier, "");
    assert_eq!(Container::new().common.object_identifier, "");
    assert_eq!(EnterpriseCA::new().common.object_identifier, "");
    assert_eq!(Fsp::new().common.object_identifier, "");
    assert_eq!(Gpo::new().common.object_identifier, "");
    assert_eq!(Group::new().common.object_identifier, "");
    assert_eq!(IssuancePolicie::new().common.object_identifier, "");
    assert_eq!(NtAuthStore::new().common.object_identifier, "");
    assert_eq!(RootCA::new().common.object_identifier, "");
    assert_eq!(User::new().common.object_identifier, "");
}

#[test]
fn fresh_trust_names_no_target() {
    let t = Trust::new();
    assert_eq!(t.target_domain_sid(), "");
    assert_eq!(t.target_domain_name(), "");
    assert!(!t.is_transitive);
    assert!(!t.sid_filtering_enabled);
    assert_eq!(t.trust_attributes, 0);
}

#[test]
fn child_pushed_on_a_fresh_unit_is_its_only_child() {
    let mut ou = Ou::new();
    ou.child_objects_mut().push(Member::of("B-GUID", "OU"));
    assert_eq!(ou.common.child_objects.len(), 1);
    assert_eq!(ou.common.child_objects[0].object_identifier, "B-GUID");
    assert_eq!(ou.common.child_objects[0].object_type, "OU");
    assert_eq!(ou.common.object_identifier, "");
    assert_eq!(ou.properties().name(), "");
    assert_eq!(ou.properties().distinguishedname(), "");
    assert!(ou.common.links.is_empty());
}
