use rusthound_ce::api::{parse_result_type_from_source, prepare_results_from_source, ADResults};
use rusthound_ce::enums::ldaptype::Type;
use rusthound_ce::json::checker::check_ad_result;
use rusthound_ce::json::checker::common::{
    add_affected_computers, add_affected_computers_for_ou, add_childobjects_members,
    add_childobjects_members_for_ou, add_contained_by_for, add_default_groups, add_default_users,
    add_trustdomain, add_type_for_ace, add_type_for_allowtedtoact, get_id_from_objectidentifier,
    replace_fqdn_by_sid, replace_guid_gplink, replace_sid_members, sid_maker_from_another_domain,
    templates_enabled_change_displayname_to_sid,
};
use rusthound_ce::mappings::StringMap;
use rusthound_ce::objects::certtemplate::CertTemplate;
use rusthound_ce::objects::common::{AceTemplate, GPOChange, Link, Member, SPNTarget};
use rusthound_ce::objects::computer::Computer;
use rusthound_ce::objects::container::Container;
use rusthound_ce::objects::domain::Domain;
use rusthound_ce::objects::enterpriseca::EnterpriseCA;
use rusthound_ce::objects::gpo::Gpo;
use rusthound_ce::objects::group::Group;
use rusthound_ce::objects::ou::Ou;
use rusthound_ce::objects::trust::Trust;
use rusthound_ce::objects::user::User;
use rusthound_ce::LdapSearchEntry;

fn map(entries: &[(&str, &str)]) -> StringMap {
    let mut m = StringMap::new();
    for (k, v) in entries {
        m.insert(k.to_string(), v.to_string());
    }
    m
}

fn members(v: &[Member]) -> Vec<(&str, &str)> {
    v.iter().map(|m| (m.object_identifier.as_str(), m.object_type.as_str())).collect()
}

fn ace(principal: &str, right: &str) -> AceTemplate {
    AceTemplate::new(principal.to_string(), String::new(), right.to_string(), false, String::new())
}

fn trust(name: &str, sid: &str) -> Trust {
    let mut t = Trust::new();
    t.target_domain_name = name.to_string();
    t.target_domain_sid = sid.to_string();
    t
}

#[test]
fn ace_types_come_from_the_index_and_default_to_group() {
    let sid_type = map(&[("S-1-5-21-1-2-3-1104", "User"), ("S-1-5-21-1-2-3-1001", "Computer")]);
    let mut gpo = Gpo::new();
    gpo.common.aces = vec![
        ace("S-1-5-21-1-2-3-1104", "GenericAll"),
        ace("S-1-5-21-1-2-3-9999", "WriteDacl"),
        ace("S-1-5-21-1-2-3-1001", "Owns"),
    ];
    gpo.common.aces[1].principal_type = "Stale".to_string();
    let mut gpos = vec![gpo, Gpo::new()];
    add_type_for_ace(&mut gpos, &sid_type);
    let types: Vec<&str> = gpos[0].common.aces.iter().map(|a| a.principal_type.as_str()).collect();
    assert_eq!(types, vec!["User", "Group", "Computer"]);
    assert_eq!(gpos[0].common.aces[1].right_name, "WriteDacl");
    assert!(gpos[1].common.aces.is_empty());
}

#[test]
fn ace_typing_twice_is_ace_typing_once() {
    let sid_type = map(&[("A", "User"), ("Group", "Computer"), ("User", "Domain")]);
    let mut gpo = Gpo::new();
    gpo.common.aces = vec![ace("A", "x"), ace("B", "y"), ace("Group", "z"), ace("User", "w")];
    let mut once = vec![gpo];
    add_type_for_ace(&mut once, &sid_type);
    let first: Vec<(String, String, String)> = once[0]
        .common
        .aces
        .iter()
        .map(|a| (a.principal_sid.clone(), a.principal_type.clone(), a.right_name.clone()))
        .collect();
    add_type_for_ace(&mut once, &sid_type);
    let second: Vec<(String, String, String)> = once[0]
        .common
        .aces
        .iter()
        .map(|a| (a.principal_sid.clone(), a.principal_type.clone(), a.right_name.clone()))
        .collect();
    assert_eq!(first, second);
    assert_eq!(first[1].1, "Group");
    assert_eq!(first[2].1, "Computer");
}

#[test]
fn allowed_to_act_types_default_to_computer() {
    let sid_type = map(&[("S-1", "User")]);
    let mut c = Computer::new();
    *c.allowed_to_act_mut() = vec![Member::of("S-1", ""), Member::of("S-2", "x")];
    let mut computers = vec![c];
    add_type_for_allowtedtoact(&mut computers, &sid_type);
    assert_eq!(members(computers[0].allowed_to_act()), vec![("S-1", "User"), ("S-2", "Computer")]);
}

#[test]
fn host_names_in_delegation_targets_become_identifiers() {
    let fqdn_sid = map(&[("BRAAVOS.ESSOS.LOCAL", "S-1-5-21-1-2-3-1002")]);
    let mut user = User::new();
    user.common.allowed_to_delegate =
        vec![Member::of("BRAAVOS.ESSOS.LOCAL", "Computer"), Member::of("ELSEWHERE", "Computer")];
    let mut target = SPNTarget::new();
    *target.computer_sid_mut() = "BRAAVOS.ESSOS.LOCAL".to_string();
    target.port = 1433;
    let mut other = SPNTarget::new();
    other.computer_sid = "UNKNOWN".to_string();
    user.common.spn_targets = vec![target, other];
    let mut users = vec![user];
    replace_fqdn_by_sid(Type::User, &mut users, &fqdn_sid);
    assert_eq!(
        members(&users[0].common.allowed_to_delegate),
        vec![("S-1-5-21-1-2-3-1002", "Computer"), ("ELSEWHERE", "Computer")]
    );
    assert_eq!(users[0].common.spn_targets[0].computer_sid(), "S-1-5-21-1-2-3-1002");
    assert_eq!(users[0].common.spn_targets[0].port, 1433);
    assert_eq!(users[0].common.spn_targets[1].computer_sid, "UNKNOWN");

    let mut computer = Computer::new();
    computer.common.allowed_to_delegate = vec![Member::of("BRAAVOS.ESSOS.LOCAL", "Computer")];
    let mut t = SPNTarget::new();
    t.computer_sid = "BRAAVOS.ESSOS.LOCAL".to_string();
    computer.common.spn_targets = vec![t];
    let mut computers = vec![computer];
    replace_fqdn_by_sid(Type::Computer, &mut computers, &fqdn_sid);
    assert_eq!(members(&computers[0].common.allowed_to_delegate), vec![("S-1-5-21-1-2-3-1002", "Computer")]);
    assert_eq!(computers[0].common.spn_targets[0].computer_sid, "BRAAVOS.ESSOS.LOCAL");
    replace_fqdn_by_sid(Type::Group, &mut computers, &map(&[("S-1-5-21-1-2-3-1002", "x")]));
    assert_eq!(members(&computers[0].common.allowed_to_delegate), vec![("S-1-5-21-1-2-3-1002", "Computer")]);
}

#[test]
fn well_known_group_names_map_to_relative_identifiers() {
    assert_eq!(get_id_from_objectidentifier("CN=DOMAIN ADMINS,CN=USERS,DC=NORTH,DC=LOCAL"), "-512");
    assert_eq!(get_id_from_objectidentifier("CN=ADMINISTRATEURS DU DOMAINE,DC=X"), "-512");
    assert_eq!(get_id_from_objectidentifier("CN=DOMAIN USERS"), "-513");
    assert_eq!(get_id_from_objectidentifier("CN=INVITES DE DOMAINE"), "-514");
    assert_eq!(get_id_from_objectidentifier("CN=DOMAIN COMPUTERS"), "-515");
    assert_eq!(get_id_from_objectidentifier("CN=CONTRÔLEURS DE DOMAINE"), "-516");
    assert_eq!(get_id_from_objectidentifier("CN=CERT PUBLISHERS"), "-517");
    assert_eq!(get_id_from_objectidentifier("CN=SCHEMA ADMINS"), "-518");
    assert_eq!(get_id_from_objectidentifier("CN=ADMINISTRATEURS DE L'ENTREPRISE"), "-519");
    assert_eq!(get_id_from_objectidentifier("CN=ENTERPRISE ADMINS,CN=DOMAIN ADMINS"), "-512");
    assert_eq!(get_id_from_objectidentifier("CN=Domain Admins"), "NULL_ID1");
    assert_eq!(get_id_from_objectidentifier(""), "NULL_ID1");
}

#[test]
fn member_of_a_trusted_domain_resolves_through_the_trust() {
    let trusts = vec![trust("SOUTH.LOCAL", "S-1-5-21-4-5-6"), trust("NORTH.LOCAL", "S-1-5-21-7-8-9")];
    let dn = "CN=DOMAIN ADMINS,CN=USERS,DC=NORTH,DC=LOCAL".to_string();
    assert_eq!(sid_maker_from_another_domain(&trusts, &dn), "NORTH.LOCAL-512");
    let dn = "CN=STRANGERS,CN=USERS,DC=SOUTH,DC=LOCAL".to_string();
    assert_eq!(sid_maker_from_another_domain(&trusts, &dn), "SOUTH.LOCALNULL_ID1");
    let dn = "CN=S-1-5-21-9-8-7-1104,CN=FOREIGNSECURITYPRINCIPALS,DC=ESSOS,DC=LOCAL".to_string();
    assert_eq!(sid_maker_from_another_domain(&trusts, &dn), "S-1-5-21-9-8-7-1104");
    let dn = "CN=S-1-5-11,CN=FOREIGNSECURITYPRINCIPALS,DC=ESSOS,DC=LOCAL".to_string();
    assert_eq!(sid_maker_from_another_domain(&trusts, &dn), dn);
    let dn = "CN=SOMEONE,DC=ESSOS,DC=LOCAL".to_string();
    assert_eq!(sid_maker_from_another_domain(&vec![], &dn), dn);
}

#[test]
fn group_members_resolve_through_the_index_then_the_trusts() {
    let dn_sid = map(&[
        ("CN=JORAH,CN=USERS,DC=ESSOS,DC=LOCAL", "S-1-5-21-1-2-3-1105"),
        ("CN=GHOST,DC=ESSOS,DC=LOCAL", "S-1-5-21-1-2-3-1199"),
        ("CN=VOID,DC=ESSOS,DC=LOCAL", "NULL"),
    ]);
    let sid_type = map(&[("S-1-5-21-1-2-3-1105", "User")]);
    let trusts = vec![trust("NORTH.LOCAL", "S-1-5-21-7-8-9")];
    let mut group = Group::new();
    *group.members_mut() = vec![
        Member::of("CN=JORAH,CN=USERS,DC=ESSOS,DC=LOCAL", "x"),
        Member::of("CN=GHOST,DC=ESSOS,DC=LOCAL", "x"),
        Member::of("CN=DOMAIN ADMINS,CN=USERS,DC=NORTH,DC=LOCAL", "x"),
        Member::of("CN=NOBODY,DC=ESSOS,DC=LOCAL", "x"),
        Member::of("CN=VOID,DC=ESSOS,DC=LOCAL", "x"),
    ];
    let mut groups = vec![group];
    replace_sid_members(&mut groups, &dn_sid, &sid_type, &trusts);
    assert_eq!(
        members(groups[0].members()),
        vec![
            ("S-1-5-21-1-2-3-1105", "User"),
            ("S-1-5-21-1-2-3-1199", "Group"),
            ("NORTH.LOCAL-512", "Group"),
            ("CN=NOBODY,DC=ESSOS,DC=LOCAL", "Group"),
            ("CN=VOID,DC=ESSOS,DC=LOCAL", "Group"),
        ]
    );
}

fn dc(id: &str, is_dc: bool) -> Computer {
    let mut c = Computer::new();
    c.common.object_identifier = id.to_string();
    c.is_dc = is_dc;
    c.properties.is_dc = is_dc;
    c
}

#[test]
fn well_known_groups_are_added_with_the_controllers_as_members() {
    let computers = vec![
        dc("S-1-5-21-1-2-3-1001", true),
        dc("S-1-5-21-1-2-3-1002", false),
        dc("S-1-5-21-1-2-3-1003", true),
        dc("NOT-A-SID", true),
    ];
    let mut groups = vec![Group::new()];
    add_default_groups(&mut groups, &computers, "essos.local".to_string());
    assert_eq!(groups.len(), 13);
    let names: Vec<&str> = groups[1..].iter().map(|g| g.properties.name.as_str()).collect();
    assert_eq!(
        names,
        vec![
            "ENTERPRISE DOMAIN CONTROLLERS@ESSOS.LOCAL",
            "ACCOUNT OPERATORS@ESSOS.LOCAL",
            "WINDOWS AUTHORIZATION ACCESS GROUP@ESSOS.LOCAL",
            "EVERYONE@ESSOS.LOCAL",
            "AUTHENTICATED USERS@ESSOS.LOCAL",
            "ADMINISTRATORS@ESSOS.LOCAL",
            "PRE-WINDOWS 2000 COMPATIBLE ACCESS@ESSOS.LOCAL",
            "INTERACTIVE@ESSOS.LOCAL",
            "PRINT OPERATORS@ESSOS.LOCAL",
            "TERMINAL SERVER LICENSE SERVERS@ESSOS.LOCAL",
            "INCOMING FOREST TRUST BUILDERS@ESSOS.LOCAL",
            "THIS ORGANIZATION@ESSOS.LOCAL",
        ]
    );
    let ids: Vec<&str> = groups[1..].iter().map(|g| g.common.object_identifier.as_str()).collect();
    assert_eq!(
        ids,
        vec![
            "ESSOS.LOCAL-S-1-5-9",
            "ESSOS.LOCAL-S-1-5-32-548",
            "ESSOS.LOCAL-S-1-5-32-560",
            "ESSOS.LOCAL-S-1-1-0",
            "ESSOS.LOCAL-S-1-5-11",
            "ESSOS.LOCAL-S-1-5-32-544",
            "ESSOS.LOCAL-S-1-5-32-554",
            "ESSOS.LOCAL-S-1-5-4",
            "ESSOS.LOCAL-S-1-5-32-550",
            "ESSOS.LOCAL-S-1-5-32-561",
            "ESSOS.LOCAL-S-1-5-32-557",
            "ESSOS.LOCAL-S-1-5-15",
        ]
    );
    let high: Vec<bool> = groups[1..].iter().map(|g| g.properties.highvalue).collect();
    assert_eq!(high, vec![false, true, false, false, false, true, false, false, true, false, false, false]);
    assert_eq!(
        members(groups[1].members()),
        vec![
            ("S-1-5-21-1-2-3-1001", "Computer"),
            ("S-1-5-21-1-2-3-1003", "Computer"),
            ("NOT-A-SID", "Computer")
        ]
    );
    // the domain's computers group and users group
    let everyone = vec![("S-1-5-21-1-2-3-515", "Group"), ("S-1-5-21-1-2-3-513", "Group")];
    assert_eq!(members(groups[4].members()), everyone);
    assert_eq!(members(groups[5].members()), everyone);
    assert!(groups[2].members().is_empty());
}

#[test]
fn well_known_groups_without_any_controller() {
    let mut groups: Vec<Group> = Vec::new();
    add_default_groups(&mut groups, &vec![dc("S-1-5-21-1-2-3-1002", false)], "d".to_string());
    assert_eq!(groups.len(), 12);
    assert!(groups[0].members().is_empty());
    assert_eq!(members(groups[3].members()), vec![("-515", "Group"), ("-513", "Group")]);
}

#[test]
fn nt_authority_is_added_only_when_there_is_a_user() {
    let mut users: Vec<User> = Vec::new();
    add_default_users(&mut users, "essos.local".to_string());
    assert!(users.is_empty());
    let mut first = User::new();
    *first.properties_mut().domainsid_mut() = "S-1-5-21-1-2-3".to_string();
    *first.properties_mut().name_mut() = "A@ESSOS.LOCAL".to_string();
    *first.object_identifier_mut() = "S-1-5-21-1-2-3-1104".to_string();
    let mut users = vec![first, User::new()];
    add_default_users(&mut users, "essos.local".to_string());
    assert_eq!(users.len(), 3);
    assert_eq!(users[2].properties().name(), "NT AUTHORITY@ESSOS.LOCAL");
    assert_eq!(users[2].object_identifier(), "ESSOS.LOCAL-S-1-5-20");
    assert_eq!(users[2].properties().domainsid(), "S-1-5-21-1-2-3");
    assert_eq!(users[0].properties().name(), "A@ESSOS.LOCAL");
}

fn essos_index() -> (StringMap, StringMap) {
    let dn_sid = map(&[
        ("DC=ESSOS,DC=LOCAL", "S-1-5-21-1-2-3"),
        ("OU=A,DC=ESSOS,DC=LOCAL", "GUID-A"),
        ("OU=B,OU=A,DC=ESSOS,DC=LOCAL", "GUID-B"),
        ("CN=MEEREEN,OU=B,OU=A,DC=ESSOS,DC=LOCAL", "S-1-5-21-1-2-3-1001"),
        ("CN=BRAAVOS,OU=A,DC=ESSOS,DC=LOCAL", "S-1-5-21-1-2-3-1002"),
        ("CN=JORAH,OU=A,DC=ESSOS,DC=LOCAL", "S-1-5-21-1-2-3-1105"),
        ("CN=EMPTY,OU=A,DC=ESSOS,DC=LOCAL", ""),
        ("CN=USERS,DC=ESSOS,DC=LOCAL", "GUID-USERS"),
    ]);
    let sid_type = map(&[
        ("S-1-5-21-1-2-3", "Domain"),
        ("GUID-A", "OU"),
        ("GUID-B", "OU"),
        ("S-1-5-21-1-2-3-1001", "Computer"),
        ("S-1-5-21-1-2-3-1002", "Computer"),
        ("S-1-5-21-1-2-3-1105", "User"),
        ("GUID-USERS", "Container"),
    ]);
    (dn_sid, sid_type)
}

fn ou(id: &str, dn: &str, name: &str) -> Ou {
    let mut o = Ou::new();
    o.common.object_identifier = id.to_string();
    o.properties.distinguishedname = dn.to_string();
    o.properties.name = name.to_string();
    o
}

#[test]
fn containment_goes_both_ways() {
    let (dn_sid, sid_type) = essos_index();
    let mut ous = vec![
        ou("GUID-A", "OU=A,DC=ESSOS,DC=LOCAL", "A@ESSOS.LOCAL"),
        ou("GUID-B", "OU=B,OU=A,DC=ESSOS,DC=LOCAL", "B@ESSOS.LOCAL"),
    ];
    add_childobjects_members(&mut ous, &dn_sid, &sid_type);
    add_contained_by_for(&mut ous, &dn_sid, &sid_type);
    // OU B directly under OU A
    let parent = ous[1].common.contained_by.as_ref().expect("B has a parent");
    assert_eq!(parent.object_identifier, ous[0].common.object_identifier);
    assert_eq!(parent.object_type, "OU");
    assert!(ous[0].common.child_objects.iter().any(|m| m.object_identifier == "GUID-B"));
    assert_eq!(
        members(&ous[0].common.child_objects),
        vec![("GUID-B", "OU"), ("S-1-5-21-1-2-3-1002", "Computer"), ("S-1-5-21-1-2-3-1105", "User")]
    );
    assert_eq!(members(&ous[1].common.child_objects), vec![("S-1-5-21-1-2-3-1001", "Computer")]);
    let grand = ous[0].common.contained_by.as_ref().expect("A has a parent");
    assert_eq!((grand.object_identifier.as_str(), grand.object_type.as_str()), ("S-1-5-21-1-2-3", "Domain"));
}

#[test]
fn only_the_direct_child_is_listed() {
    let dn_sid = map(&[
        ("OU=A,DC=ESSOS,DC=LOCAL", "A-GUID"),
        ("OU=B,OU=A,DC=ESSOS,DC=LOCAL", "B-GUID"),
        ("CN=PC1,OU=B,OU=A,DC=ESSOS,DC=LOCAL", "S-1-5-21-1-2-3-1104"),
    ]);
    let sid_type =
        map(&[("A-GUID", "OU"), ("B-GUID", "OU"), ("S-1-5-21-1-2-3-1104", "Computer")]);
    let mut ous = vec![ou("A-GUID", "OU=A,DC=ESSOS,DC=LOCAL", "A@ESSOS.LOCAL")];
    add_childobjects_members(&mut ous, &dn_sid, &sid_type);
    assert_eq!(members(&ous[0].common.child_objects), vec![("B-GUID", "OU")]);
}

#[test]
fn domains_and_unknown_nodes_get_no_parent() {
    let (dn_sid, sid_type) = essos_index();
    let mut domain = Domain::new();
    *domain.object_identifier_mut() = "S-1-5-21-1-2-3".to_string();
    let mut stranger = Domain::new();
    stranger.common.object_identifier = "GUID-NOWHERE".to_string();
    stranger.common.contained_by = Some(Member::of("kept", "as-is"));
    let mut domains = vec![domain, stranger];
    add_contained_by_for(&mut domains, &dn_sid, &sid_type);
    assert!(domains[0].common.contained_by.is_none());
    assert_eq!(members(&[domains[1].common.contained_by.clone().unwrap()]), vec![("kept", "as-is")]);
    let mut top = Container::new();
    top.common.object_identifier = "GUID-USERS".to_string();
    let mut containers = vec![top];
    add_contained_by_for(&mut containers, &dn_sid, &sid_type);
    assert_eq!(
        members(&[containers[0].common.contained_by.clone().unwrap()]),
        vec![("S-1-5-21-1-2-3", "Domain")]
    );
}

#[test]
fn children_of_a_node_that_the_index_does_not_hold() {
    let (dn_sid, sid_type) = essos_index();
    let mut lost = Container::new();
    lost.common.object_identifier = "GUID-LOST".to_string();
    lost.common.child_objects = vec![Member::of("stale", "stale")];
    let mut containers = vec![lost];
    add_childobjects_members(&mut containers, &dn_sid, &sid_type);
    assert!(containers[0].common.child_objects.is_empty());
}

#[test]
fn unit_children_with_computers_in_scope() {
    let (dn_sid, sid_type) = essos_index();
    let mut ous = vec![
        ou("GUID-A", "OU=A,DC=ESSOS,DC=LOCAL", "A@ESSOS.LOCAL"),
        ou("GUID-X", "OU=X,DC=ESSOS,DC=LOCAL", "X@ESSOS.LOCAL"),
    ];
    ous[1].gpo_changes = GPOChange::affecting(vec![Member::of("kept", "Computer")]);
    add_childobjects_members_for_ou(&mut ous, &dn_sid, &sid_type);
    assert_eq!(
        members(&ous[0].common.child_objects),
        vec![
            ("GUID-B", "OU"),
            ("S-1-5-21-1-2-3-1002", "Computer"),
            ("S-1-5-21-1-2-3-1105", "User"),
            ("", "NULL")
        ]
    );
    assert_eq!(members(ous[0].gpo_changes.affected_computers()), vec![("S-1-5-21-1-2-3-1002", "Computer")]);
    assert!(ous[1].common.child_objects.is_empty());
    assert_eq!(members(ous[1].gpo_changes.affected_computers()), vec![("kept", "Computer")]);
}

#[test]
fn computers_in_the_scope_of_policies() {
    let (dn_sid, sid_type) = essos_index();
    let mut domains = vec![Domain::new(), Domain::new()];
    domains[1].gpo_changes = GPOChange::affecting(vec![Member::of("kept", "Computer")]);
    add_affected_computers(&mut domains, &sid_type);
    assert_eq!(
        members(&domains[0].gpo_changes.affected_computers),
        vec![("S-1-5-21-1-2-3-1001", "Computer"), ("S-1-5-21-1-2-3-1002", "Computer")]
    );
    assert_eq!(members(&domains[1].gpo_changes.affected_computers), vec![("kept", "Computer")]);
    let mut none: Vec<Domain> = Vec::new();
    add_affected_computers(&mut none, &sid_type);
    assert!(none.is_empty());

    let mut ous = vec![
        ou("GUID-A", "OU=A,DC=ESSOS,DC=LOCAL", "A@ESSOS.LOCAL"),
        ou("GUID-B", "OU=B,OU=A,DC=ESSOS,DC=LOCAL", "B@ESSOS.LOCAL"),
        ou("GUID-X", "OU=X,DC=ESSOS,DC=LOCAL", "X@ESSOS.LOCAL"),
    ];
    ous[2].gpo_changes = GPOChange::affecting(vec![Member::of("kept", "Computer")]);
    *ous[0].gpo_changes_mut().affected_computers_mut() = vec![Member::of("stale", "Computer")];
    add_affected_computers_for_ou(&mut ous, &dn_sid, &sid_type);
    assert_eq!(members(&ous[0].gpo_changes.affected_computers), vec![("S-1-5-21-1-2-3-1002", "Computer")]);
    assert_eq!(members(&ous[1].gpo_changes.affected_computers), vec![("S-1-5-21-1-2-3-1001", "Computer")]);
    assert_eq!(members(&ous[2].gpo_changes.affected_computers), vec![("kept", "Computer")]);
}

#[test]
fn policy_links_resolve_to_the_identifier_of_the_policy() {
    let dn_sid = map(&[
        ("CN=USERS,DC=ESSOS,DC=LOCAL", "GUID-USERS"),
        ("CN={31B2F340-016D-11D2-945F-00C04FB984F9},CN=POLICIES,CN=SYSTEM,DC=ESSOS,DC=LOCAL", "GPO-1"),
    ]);
    let mut o = Ou::new();
    o.common.links = vec![
        Link::new(true, "31B2F340-016D-11D2-945F-00C04FB984F9".to_string()),
        Link::new(false, "6AC1786C-016F-11D2-945F-00C04FB984F9".to_string()),
    ];
    let mut ous = vec![o, Ou::new()];
    replace_guid_gplink(&mut ous, &dn_sid);
    assert_eq!(ous[0].common.links[0].guid(), "GPO-1");
    assert!(*ous[0].common.links[0].is_enforced());
    assert_eq!(ous[0].common.links[1].guid, "6AC1786C-016F-11D2-945F-00C04FB984F9");
    assert!(ous[1].common.links.is_empty());
    *ous[0].common.links[1].guid_mut() = "USERS".to_string();
    *ous[0].common.links[1].is_enforced_mut() = true;
    replace_guid_gplink(&mut ous, &dn_sid);
    assert_eq!(ous[0].common.links[1].guid, "GUID-USERS");
}

#[test]
fn trusted_domains_are_materialized_when_the_first_looks_unresolved() {
    let trusts = vec![trust("NORTH.LOCAL", "SID"), trust("SOUTH.LOCAL", "S-1-5-21-4-5-6")];
    let mut home = Domain::new();
    *home.properties_mut().name_mut() = "ESSOS.LOCAL".to_string();
    *home.properties_mut().domain_mut() = "ESSOS.LOCAL".to_string();
    *home.properties_mut().distinguishedname_mut() = "DC=ESSOS,DC=LOCAL".to_string();
    *home.properties_mut().highvalue_mut() = true;
    let mut domains = vec![home];
    add_trustdomain(&mut domains, &trusts);
    assert_eq!(domains.len(), 3);
    assert_eq!(domains[0].trusts.len(), 2);
    assert_eq!(domains[0].trusts[1].target_domain_name, "SOUTH.LOCAL");
    assert_eq!(domains[1].properties.name, "NORTH.LOCAL");
    assert_eq!(domains[1].properties.domain, "NORTH.LOCAL");
    assert_eq!(domains[1].properties.distinguishedname, "DC=NORTH,DC=LOCAL");
    assert!(domains[1].properties.highvalue);
    assert_eq!(domains[1].common.object_identifier, "SID");
    assert_eq!(domains[2].common.object_identifier, "S-1-5-21-4-5-6");
    assert!(domains[1].trusts.is_empty());

    let resolved = vec![trust("NORTH.LOCAL", "S-1-5-21-7-8-9")];
    let mut domains = vec![Domain::new()];
    add_trustdomain(&mut domains, &resolved);
    assert_eq!(domains.len(), 1);
    assert!(domains[0].trusts.is_empty());
    add_trustdomain(&mut domains, &vec![]);
    assert_eq!(domains.len(), 1);
    *domains[0].trusts_mut() = vec![Trust::new()];
    *domains[0].gpo_changes_mut() = GPOChange::new();
    assert_eq!(domains[0].trusts.len(), 1);
    // with no domain collected, the first materialized one takes the trusts
    let mut empty: Vec<Domain> = Vec::new();
    add_trustdomain(&mut empty, &trusts);
    assert_eq!(empty.len(), 2);
    assert_eq!(empty[0].trusts.len(), 2);
}

#[test]
fn published_templates_become_references_to_templates() {
    let mut user_template = CertTemplate::new();
    user_template.properties.name = "USER@ESSOS.LOCAL".to_string();
    user_template.common.object_identifier = "GUID-USER".to_string();
    let mut machine = CertTemplate::new();
    machine.properties.name = "MACHINE@ESSOS.LOCAL".to_string();
    machine.common.object_identifier = "GUID-MACHINE".to_string();
    let templates = vec![user_template, machine];
    let mut ca = EnterpriseCA::new();
    ca.certificate_templates = vec!["Machine".to_string(), "Missing".to_string(), "User".to_string()];
    *ca.enabled_cert_templates_mut() = vec![Member::of("stale", "x")];
    let mut cas = vec![ca];
    templates_enabled_change_displayname_to_sid(&templates, &mut cas);
    assert_eq!(
        members(cas[0].enabled_cert_templates()),
        vec![("GUID-MACHINE", "CertTemplate"), ("Missing", "CertTemplate"), ("GUID-USER", "CertTemplate")]
    );
}

fn record(dn: &str, attrs: &[(&str, &[&str])], bin: &[(&str, Vec<u8>)]) -> LdapSearchEntry {
    LdapSearchEntry {
        dn: dn.to_string(),
        attrs: attrs
            .iter()
            .map(|(k, v)| (k.to_string(), v.iter().map(|s| s.to_string()).collect()))
            .collect(),
        bin_attrs: bin.iter().map(|(k, v)| (k.to_string(), vec![v.clone()])).collect(),
    }
}

fn sid(subs: &[u32]) -> Vec<u8> {
    let mut out = vec![1u8, subs.len() as u8, 0, 0, 0, 0, 0, 5];
    for s in subs {
        out.extend_from_slice(&s.to_le_bytes());
    }
    out
}

#[test]
fn one_domain_and_one_controller_end_to_end() {
    let entries = vec![
        record(
            "DC=essos,DC=local",
            &[("objectClass", &["top", "domain", "domainDNS"]), ("distinguishedName", &["DC=essos,DC=local"])],
            &[("objectSid", sid(&[21, 1, 2, 3]))],
        ),
        record(
            "CN=MEEREEN,OU=Domain Controllers,DC=essos,DC=local",
            &[
                ("objectClass", &["top", "person", "organizationalPerson", "user", "computer"]),
                ("name", &["meereen"]),
                ("userAccountControl", &["532480"]),
            ],
            &[("objectSid", sid(&[21, 1, 2, 3, 1001]))],
        ),
    ];
    let results = prepare_results_from_source(entries, "essos.local");
    assert_eq!(results.computers.len(), 1);
    assert!(results.computers[0].properties.enabled);
    assert!(results.computers[0].is_dc);
    let edc: Vec<&Group> = results
        .groups
        .iter()
        .filter(|g| g.properties.name == "ENTERPRISE DOMAIN CONTROLLERS@ESSOS.LOCAL")
        .collect();
    assert_eq!(edc.len(), 1);
    assert_eq!(edc[0].common.object_identifier, "ESSOS.LOCAL-S-1-5-9");
    assert_eq!(members(edc[0].members()), vec![("S-1-5-21-1-2-3-1001", "Computer")]);
    assert_eq!(results.groups.len(), 12);
    assert!(results.users.is_empty());
    assert_eq!(results.domains.len(), 1);
    assert_eq!(
        members(&results.domains[0].gpo_changes.affected_computers),
        vec![("S-1-5-21-1-2-3-1001", "Computer")]
    );
    let parent = results.computers[0].common.contained_by.as_ref();
    assert!(parent.is_none());
}

#[test]
fn whole_run_in_two_steps_is_the_whole_run_in_one() {
    let entries = || {
        vec![
            record("DC=essos,DC=local", &[("objectClass", &["domain"])], &[("objectSid", sid(&[21, 1000000, 2, 3]))]),
            record(
                "CN=jorah,CN=Users,DC=essos,DC=local",
                &[("objectClass", &["top", "person", "user"]), ("sAMAccountName", &["jorah"])],
                &[("objectSid", sid(&[21, 1000000, 2, 3, 1105]))],
            ),
            record(
                "CN=Users,DC=essos,DC=local",
                &[("objectClass", &["top", "container"]), ("name", &["Users"])],
                &[("objectGUID", vec![7u8; 16])],
            ),
        ]
    };
    let mut two: ADResults = parse_result_type_from_source("essos.local", entries());
    check_ad_result("essos.local", &mut two);
    let one = prepare_results_from_source(entries(), "essos.local");
    assert_eq!(one.users.len(), 2);
    assert_eq!(two.users.len(), 2);
    assert_eq!(one.users[1].properties.name, "NT AUTHORITY@ESSOS.LOCAL");
    let parent = one.users[0].common.contained_by.as_ref().unwrap();
    assert_eq!(parent.object_identifier, "07070707-0707-0707-0707-070707070707");
    assert_eq!(parent.object_type, "Container");
    assert_eq!(
        members(&one.containers[0].common.child_objects),
        vec![("S-1-5-21-1000000-2-3-1105", "User")]
    );
    assert_eq!(members(&two.containers[0].common.child_objects), members(&one.containers[0].common.child_objects));
    assert_eq!(one.groups.len(), two.groups.len());
}
