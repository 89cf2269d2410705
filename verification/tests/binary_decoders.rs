use rusthound_ce::enums::acl::parse_ntsecuritydescriptor;
use rusthound_ce::enums::gplink::parse_gplink;
use rusthound_ce::enums::secdesc::LdapSid;
use rusthound_ce::enums::sid::{
    _decode_guid, bin_to_string, decode_guid_le, decode_sid, domain_sid_of, find_first_sid,
    has_null_authority, hex_push, is_sid, objectsid_to_vec8, sid_maker, sid_prefix,
};

fn sid_bytes(revision: u8, authority: u8, subs: &[u32]) -> Vec<u8> {
    let mut out = vec![revision, subs.len() as u8, 0, 0, 0, 0, 0, authority];
    for s in subs {
        out.extend_from_slice(&s.to_le_bytes());
    }
    out
}

#[test]
fn sid_decodes_to_canonical_text() {
    // {revision=1, subAuthorityCount=2, authority=5, subs=[21, 12345]}
    let raw = sid_bytes(1, 5, &[21, 12345]);
    let (used, sid) = LdapSid::parse(&raw).expect("a whole identifier");
    assert_eq!(used, 16);
    assert_eq!(sid.revision, 1);
    assert_eq!(sid.identifier_authority, [0, 0, 0, 0, 0, 5]);
    assert_eq!(sid.sub_authority, vec![21, 12345]);
    // 14 characters: at most 16, so the domain name goes in front.
    assert_eq!(sid_maker(sid, "essos.local"), "ESSOS.LOCAL-S-1-5-21-12345");
    assert!(decode_sid(&raw, "essos.local").ends_with("S-1-5-21-12345"));
}

#[test]
fn sid_longer_than_sixteen_characters_has_no_prefix() {
    let raw = sid_bytes(1, 5, &[21, 1, 2, 3, 1000]);
    assert_eq!(decode_sid(&raw, "essos.local"), "S-1-5-21-1-2-3-1000");
    // exactly 16 characters get the prefix, 17 do not
    assert_eq!(decode_sid(&sid_bytes(1, 5, &[21, 1234567]), "d"), "D-S-1-5-21-1234567");
    assert_eq!(decode_sid(&sid_bytes(1, 5, &[21, 12345678]), "d"), "S-1-5-21-12345678");
}

#[test]
fn sid_round_trips_through_its_bytes() {
    let raw = sid_bytes(1, 5, &[21, 4294967295, 0, 7]);
    let (_, sid) = LdapSid::parse(&raw).unwrap();
    assert_eq!(sid.to_bytes(), raw);
    let (_, again) = LdapSid::parse(&sid.to_bytes()).unwrap();
    assert_eq!(again.sub_authority, sid.sub_authority);
    assert_eq!(again.revision, sid.revision);
    assert_eq!(again.identifier_authority, sid.identifier_authority);
}

#[test]
fn malformed_sid_decodes_to_the_empty_text() {
    assert_eq!(decode_sid(&[], "essos.local"), "");
    assert_eq!(decode_sid(&[1, 2, 0, 0, 0, 0, 0, 5, 21, 0, 0, 0], "essos.local"), "");
    assert!(LdapSid::parse(&[1, 1, 0, 0, 0, 0, 0]).is_none());
    // no sub-authority at all is a whole identifier
    assert_eq!(decode_sid(&[1, 0, 0, 0, 0, 0, 0, 5], "d"), "D-S-1-5-");
}

#[test]
fn sid_parse_reports_the_bytes_used() {
    let mut raw = sid_bytes(1, 5, &[32, 544]);
    raw.extend_from_slice(&[9, 9, 9]);
    let (used, sid) = LdapSid::parse(&raw).unwrap();
    assert_eq!(used, 16);
    assert_eq!(sid.sub_authority, vec![32, 544]);
}

#[test]
fn sid_text_is_recognised() {
    assert!(is_sid("S-1-5-21-1-2-3"));
    assert!(is_sid("CN=S-1-5-11,CN=ForeignSecurityPrincipals"));
    assert!(!is_sid("S-1-1-0"));
    assert!(!is_sid(""));
    assert!(has_null_authority("S-0-0-1"));
    assert!(!has_null_authority("S-1-5-21"));
    assert_eq!(objectsid_to_vec8(&"S-1".to_string()), vec![b'S', b'-', b'1']);
}

#[test]
fn guid_decodes_with_the_first_three_fields_reversed() {
    let raw = [
        0xE2, 0x49, 0x30, 0x00, 0xAA, 0x00, 0x85, 0xA2, 0x11, 0xD0, 0x0D, 0xE6, 0xBF, 0x96, 0x7A,
        0xBA,
    ];
    assert_eq!(decode_guid_le(&raw), "003049E2-00AA-A285-11D0-0DE6BF967ABA");
}

#[test]
fn guid_of_zero_bytes_keeps_its_padding() {
    assert_eq!(decode_guid_le(&[0u8; 16]), "00000000-0000-0000-0000-000000000000");
    let mut raw = [0u8; 16];
    raw[0] = 0x0f;
    raw[15] = 0xa0;
    assert_eq!(decode_guid_le(&raw), "0000000F-0000-0000-0000-0000000000A0");
}

#[test]
fn unpadded_guid_forms() {
    let raw = [
        0xE2, 0x49, 0x30, 0x00, 0xAA, 0x00, 0x85, 0xA2, 0x11, 0xD0, 0x0D, 0xE6, 0xBF, 0x96, 0x7A,
        0xBA,
    ];
    assert_eq!(hex_push(&[0x00, 0x0a, 0xff]), "0AFF");
    assert_eq!(hex_push(&[]), "");
    assert_eq!(_decode_guid(&raw), "E249300-0AA-A285-11D0-DE6BF967ABA");
    assert_eq!(bin_to_string(&raw), "BF967ABA-DE6-11D0-85A2-E249300AA0");
}

#[test]
fn sid_patterns_in_text() {
    assert_eq!(find_first_sid("S-1-5-21-1-2-3-1000"), Some("S-1-5-21-1-2-3-1000".to_string()));
    assert_eq!(find_first_sid("S-1-5-21"), None);
    assert_eq!(find_first_sid("S-1-5-21-7-,x"), Some("S-1-5-21-7".to_string()));
    assert_eq!(
        find_first_sid("CN=S-1-5-21-9-8-7-1104,CN=ForeignSecurityPrincipals,DC=X"),
        Some("S-1-5-21-9-8-7-1104".to_string())
    );
    assert_eq!(find_first_sid("CN=USERS,DC=X"), None);
    assert_eq!(domain_sid_of("S-1-5-21-1-2-3-1000"), Some("S-1-5-21-1-2-3".to_string()));
    assert_eq!(domain_sid_of("S-1-5-21-1-2-3"), Some("S-1-5-21-1-2-3".to_string()));
    assert_eq!(domain_sid_of("S-1-5-32-544"), None);
    assert_eq!(domain_sid_of("S-10-5-21-1-2-3"), None);
    assert_eq!(sid_prefix("S-1-5-21-1-2-3-1000"), Some("S-1-5-21-1-2-3-".to_string()));
    assert_eq!(sid_prefix("ESSOS.LOCAL-S-1-5-32"), Some("S-1-5-".to_string()));
    assert_eq!(sid_prefix("S-"), None);
    assert_eq!(sid_prefix("nothing"), None);
}

#[test]
fn gplink_gives_one_link_for_each_reference() {
    let value = "[LDAP://cn={31B2F340-016D-11D2-945F-00C04FB984F9},cn=policies,cn=system,DC=essos,DC=local;0][LDAP://cn={6AC1786C-016F-11D2-945F-00C04FB984F9},cn=policies,cn=system,DC=essos,DC=local;2]";
    let links = parse_gplink(value.to_string());
    assert_eq!(links.len(), 2);
    assert_eq!(links[0].guid, "31B2F340-016D-11D2-945F-00C04FB984F9");
    assert!(!links[0].is_enforced);
    assert_eq!(links[1].guid, "6AC1786C-016F-11D2-945F-00C04FB984F9");
    assert!(links[1].is_enforced);
}

#[test]
fn gplink_without_option_is_not_enforced() {
    let links = parse_gplink("{31B2F340-016D-11D2-945F-00C04FB984F9}".to_string());
    assert_eq!(links.len(), 1);
    assert!(!links[0].is_enforced);
    assert!(parse_gplink(String::new()).is_empty());
    assert!(parse_gplink("31B2F340-016D-11D2-945F-00C04FB984F".to_string()).is_empty());
    let enforced = parse_gplink("31B2F340-016D-11D2-945F-00C04FB984F9;3".to_string());
    assert!(enforced[0].is_enforced);
    let disabled = parse_gplink("31B2F340-016D-11D2-945F-00C04FB984F9;1".to_string());
    assert!(!disabled[0].is_enforced);
}

fn descriptor(control: u16, aces: &[(u8, u8, u32, Option<[u8; 16]>, Vec<u8>)]) -> Vec<u8> {
    let owner = sid_bytes(1, 5, &[32, 544]);
    let mut body: Vec<u8> = Vec::new();
    for (ace_type, flags, mask, object, sid) in aces {
        let mut ace = vec![*ace_type, *flags, 0, 0];
        ace.extend_from_slice(&mask.to_le_bytes());
        if *ace_type == 5 {
            match object {
                Some(g) => {
                    ace.extend_from_slice(&1u32.to_le_bytes());
                    ace.extend_from_slice(g);
                }
                None => ace.extend_from_slice(&0u32.to_le_bytes()),
            }
        }
        ace.extend_from_slice(sid);
        let size = ace.len() as u16;
        ace[2..4].copy_from_slice(&size.to_le_bytes());
        body.extend_from_slice(&ace);
    }
    let mut out = vec![1u8, 0];
    out.extend_from_slice(&control.to_le_bytes());
    out.extend_from_slice(&20u32.to_le_bytes());
    out.extend_from_slice(&0u32.to_le_bytes());
    out.extend_from_slice(&0u32.to_le_bytes());
    out.extend_from_slice(&((20 + owner.len()) as u32).to_le_bytes());
    out.extend_from_slice(&owner);
    out.extend_from_slice(&[2, 0]);
    out.extend_from_slice(&((8 + body.len()) as u16).to_le_bytes());
    out.extend_from_slice(&(aces.len() as u16).to_le_bytes());
    out.extend_from_slice(&[0, 0]);
    out.extend_from_slice(&body);
    out
}

#[test]
fn descriptor_gives_owner_and_rights_in_order() {
    let admins = sid_bytes(1, 5, &[21, 1, 2, 3, 512]);
    let users = sid_bytes(1, 5, &[21, 1, 2, 3, 513]);
    let raw = descriptor(
        0x9004,
        &[
            (0, 0x10, 0x1000_0000, None, admins.clone()),
            (0, 0x00, 0x000c_0000, None, users.clone()),
            (1, 0x00, 0x1000_0000, None, users.clone()),
        ],
    );
    let decoded = parse_ntsecuritydescriptor(&raw, "User", "essos.local");
    assert!(decoded.is_acl_protected);
    let got: Vec<(String, String, bool)> = decoded
        .aces
        .iter()
        .map(|a| (a.principal_sid.clone(), a.right_name.clone(), a.is_inherited))
        .collect();
    assert_eq!(
        got,
        vec![
            ("ESSOS.LOCAL-S-1-5-32-544".to_string(), "Owns".to_string(), false),
            ("S-1-5-21-1-2-3-512".to_string(), "GenericAll".to_string(), true),
            ("S-1-5-21-1-2-3-513".to_string(), "WriteOwner".to_string(), false),
            ("S-1-5-21-1-2-3-513".to_string(), "WriteDacl".to_string(), false),
        ]
    );
    assert!(decoded.aces.iter().all(|a| a.principal_type.is_empty()));
}

#[test]
fn descriptor_scoped_rights_depend_on_the_type_of_the_node() {
    let member: [u8; 16] = [
        0xc0, 0x79, 0x96, 0xbf, 0xe6, 0x0d, 0xd0, 0x11, 0xa2, 0x85, 0x00, 0xaa, 0x00, 0x30, 0x49,
        0xe2,
    ];
    let who = sid_bytes(1, 5, &[21, 1, 2, 3, 1105]);
    let raw = descriptor(0x8004, &[(5, 0, 0x28, Some(member), who.clone())]);
    let on_group = parse_ntsecuritydescriptor(&raw, "Group", "essos.local");
    assert!(!on_group.is_acl_protected);
    let rights: Vec<String> = on_group.aces.iter().map(|a| a.right_name.clone()).collect();
    assert_eq!(rights, vec!["Owns", "AddMember", "AddSelf"]);
    let on_user = parse_ntsecuritydescriptor(&raw, "User", "essos.local");
    let rights: Vec<String> = on_user.aces.iter().map(|a| a.right_name.clone()).collect();
    assert_eq!(rights, vec!["Owns"]);
}

#[test]
fn descriptor_that_breaks_off_gives_what_was_read() {
    let admins = sid_bytes(1, 5, &[21, 1, 2, 3, 512]);
    let raw = descriptor(0x8004, &[(0, 0, 0x1000_0000, None, admins.clone()), (0, 0, 0x40000, None, admins)]);
    let cut = &raw[..raw.len() - 5];
    let decoded = parse_ntsecuritydescriptor(cut, "User", "essos.local");
    let rights: Vec<String> = decoded.aces.iter().map(|a| a.right_name.clone()).collect();
    assert_eq!(rights, vec!["Owns", "GenericAll"]);
    let nothing = parse_ntsecuritydescriptor(&raw[..10], "User", "essos.local");
    assert!(nothing.aces.is_empty());
    assert!(!nothing.is_acl_protected);
}
