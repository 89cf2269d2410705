use rusthound_ce::json::checker::common::{
    get_cn_object_name_from_full_distinguishedname, get_contained_by_name_from_distinguishedname,
    get_name_from_full_distinguishedname, get_parent_name,
};
use rusthound_ce::ldap::{bind_name, prepare_ldap_dc, prepare_ldap_url};
use rusthound_ce::utils::format::domain_to_dc;

#[test]
fn test_get_name_from_full_distinguishedname() {
    // Example:
    // dn_object = CN=G0H4N,CN=USERS,DC=ESSOS,DC=LOCAL
    let dn_object = "CN=G0H4N,CN=USERS,DC=ESSOS,DC=LOCAL".to_string();
    let cn_name = get_name_from_full_distinguishedname(&dn_object);
    println!("dn_object: {dn_object:?}");
    println!("cn_name: {cn_name:?}");
    assert_eq!(cn_name, "G0H4N".to_string());
}

#[test]
fn test_get_cn_object_name_from_full_distinguishedname() {
    // Example:
    // dn_object = CN=G0H4N,CN=USERS,DC=ESSOS,DC=LOCAL
    let dn_object = "CN=G0H4N,CN=USERS,DC=ESSOS,DC=LOCAL".to_string();
    let cn_name = get_cn_object_name_from_full_distinguishedname(&dn_object);
    println!("dn_object: {dn_object:?}");
    println!("cn_name: {cn_name:?}");
    assert_eq!(cn_name, "CN=G0H4N".to_string());
}

#[test]
fn test_get_contained_by_name_from_name() {
    // Example:
    // dn_object = CN=G0H4N,CN=USERS,DC=ESSOS,DC=LOCAL
    let dn_object = "CN=G0H4N,CN=USERS,DC=ESSOS,DC=LOCAL".to_string();
    let cn_name = "CN=G0H4N".to_string();
    let contained_by_dn = get_contained_by_name_from_distinguishedname(&cn_name, &dn_object);
    println!("dn_object: {dn_object:?}");
    println!("contained_by_dn: {contained_by_dn:?}");
    assert_eq!(contained_by_dn, "CN=USERS,DC=ESSOS,DC=LOCAL".to_string());
}

#[test]
fn name_of_a_component_without_value_is_empty() {
    assert_eq!(get_name_from_full_distinguishedname("NULL"), "");
    assert_eq!(get_name_from_full_distinguishedname(""), "");
    assert_eq!(get_name_from_full_distinguishedname("CN=,DC=X"), "");
    assert_eq!(get_name_from_full_distinguishedname("CN=A=B,DC=X"), "A");
}

#[test]
fn parent_of_a_name_repeated_below_itself_is_the_whole_remainder() {
    assert_eq!(
        get_contained_by_name_from_distinguishedname("OU=X", "OU=X,OU=X,DC=ESSOS,DC=LOCAL"),
        "OU=X,DC=ESSOS,DC=LOCAL"
    );
}

#[test]
fn parent_of_a_name_that_does_not_occur_is_empty() {
    assert_eq!(get_contained_by_name_from_distinguishedname("CN=A", "CN=B,DC=X"), "");
    assert_eq!(get_contained_by_name_from_distinguishedname("CN=A", "CN=A"), "");
}

#[test]
fn parent_name_is_the_value_of_the_second_component() {
    assert_eq!(get_parent_name("CN=G0H4N,CN=USERS,DC=ESSOS,DC=LOCAL"), Some("USERS".to_string()));
    assert_eq!(get_parent_name("CN=G0H4N"), None);
    assert_eq!(get_parent_name("CN=G0H4N,USERS"), None);
}

#[test]
fn domain_to_dc_joins_the_labels() {
    assert_eq!(domain_to_dc("DOMAIN.LOCAL"), "DC=DOMAIN,DC=LOCAL");
    assert_eq!(domain_to_dc("a.b.c"), "DC=a,DC=b,DC=c");
    assert_eq!(domain_to_dc("LOCAL"), "DC=LOCAL");
    assert_eq!(domain_to_dc(""), "DC=");
    assert_eq!(domain_to_dc("a..b"), "DC=a,DC=,DC=b");
}

#[test]
fn ldap_url_takes_the_address_before_the_domain() {
    assert_eq!(prepare_ldap_url(false, None, None, "essos.local"), "ldap://essos.local");
    assert_eq!(
        prepare_ldap_url(false, Some("192.168.1.10"), Some(389), "essos.local"),
        "ldap://192.168.1.10:389"
    );
    assert_eq!(prepare_ldap_url(true, None, Some(3269), "essos.local"), "ldaps://essos.local:3269");
    assert_eq!(prepare_ldap_url(false, None, Some(636), "essos.local"), "ldaps://essos.local:636");
    assert_eq!(prepare_ldap_url(false, None, Some(0), "d"), "ldap://d:0");
    assert_eq!(prepare_ldap_url(false, None, Some(65535), "d"), "ldap://d:65535");
}

#[test]
fn ldap_dc_of_a_single_label_and_of_a_dotted_name() {
    assert_eq!(
        prepare_ldap_dc("ESSOS"),
        vec!["DC=ESSOS".to_string(), "CN=Configuration,DC=ESSOS".to_string()]
    );
    assert_eq!(
        prepare_ldap_dc("ESSOS.LOCAL"),
        vec!["DC=ESSOS,DC=LOCAL".to_string(), "CN=Configuration,".to_string()]
    );
}

#[test]
fn bind_name_adds_the_domain_to_a_bare_user() {
    assert_eq!(bind_name("Daenerys", "ESSOS.LOCAL"), "daenerys@essos.local");
    assert_eq!(bind_name("Jon.Snow@NORTH.local", "ESSOS.LOCAL"), "jon.snow@north.local");
}
