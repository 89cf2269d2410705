use rusthound_ce::enums::forestlevel::get_forest_level;
use rusthound_ce::enums::pkiflags::{get_pki_cert_name_flags, get_pki_enrollment_flags};
use rusthound_ce::enums::trusts::get_trust_flag;
use rusthound_ce::objects::trust::Trust;
use rusthound_ce::text::{contains, str_eq};
use rusthound_ce::utils::crypto::{
    calculate_sha1, certificate_path_length, convert_encryption_types, digest_to_hex,
    path_length_from, PathLength,
};
use rusthound_ce::utils::date::{
    convert_timestamp, filetime_to_span, span_to_string, string_to_epoch,
};
use rusthound_ce::utils::format::{parse_i32, parse_i64, parse_u32};

#[test]
fn timestamp_converts_from_1601_to_1970() {
    // 2021-01-01T00:00:00Z
    assert_eq!(convert_timestamp(132539328000000000), 1609459200);
    assert_eq!(convert_timestamp(0), -11644473600);
    assert_eq!(convert_timestamp(116444736000000000), 0);
    assert_eq!(convert_timestamp(9999999), -11644473600);
    assert_eq!(convert_timestamp(-1), -11644473600);
    assert_eq!(convert_timestamp(-10000000), -11644473601);
    assert_eq!(convert_timestamp(i64::MAX), 922337203685 - 11644473600);
    assert_eq!(convert_timestamp(i64::MIN), -922337203685 - 11644473600);
}

#[test]
fn generalized_time_reads_up_to_the_dot() {
    assert_eq!(string_to_epoch("20210101000000.0Z"), Some(1609459200));
    assert_eq!(string_to_epoch("19700101000001.0Z"), Some(1));
    assert_eq!(string_to_epoch("20210101000000"), Some(1609459200));
    assert_eq!(string_to_epoch("not a date"), None);
    assert_eq!(string_to_epoch(""), None);
    assert_eq!(string_to_epoch(".0Z"), None);
}

#[test]
fn filetime_reads_eight_little_endian_bytes() {
    assert_eq!(filetime_to_span(vec![1, 0, 0, 0, 0, 0, 0, 0]), 1);
    assert_eq!(filetime_to_span(vec![0, 1, 0, 0, 0, 0, 0, 0, 9, 9]), 256);
    assert_eq!(filetime_to_span(vec![0xff; 8]), -1);
    assert_eq!(filetime_to_span(vec![0, 0, 0, 0, 0, 0, 0, 0x80]), i64::MIN);
    assert_eq!(filetime_to_span(vec![0xff, 0xff, 0xff, 0xff, 0xff, 0xff, 0xff, 0x7f]), i64::MAX);
    assert_eq!(filetime_to_span(vec![1, 2, 3]), 0);
    assert_eq!(filetime_to_span(vec![]), 0);
    // one year, negative as the directory stores periods
    assert_eq!(
        filetime_to_span(vec![0x00, 0x40, 0x39, 0x87, 0x2e, 0xe1, 0xfe, 0xff]),
        -315360000000000
    );
}

#[test]
fn span_is_worded_in_its_largest_unit() {
    assert_eq!(span_to_string(-315360000000000), "1 year");
    assert_eq!(span_to_string(2 * 315360000000000), "2 years");
    assert_eq!(span_to_string(25920000000000), "1 month");
    assert_eq!(span_to_string(-3 * 25920000000000), "3 months");
    assert_eq!(span_to_string(6048000000000), "1 week");
    assert_eq!(span_to_string(6 * 6048000000000), "6 weeks");
    assert_eq!(span_to_string(864000000000), "1 day");
    assert_eq!(span_to_string(42 * 864000000000), "6 weeks");
    assert_eq!(span_to_string(41 * 864000000000), "41 days");
    assert_eq!(span_to_string(36000000000), "1 hour");
    assert_eq!(span_to_string(-2 * 36000000000), "2 hours");
    assert_eq!(span_to_string(600000000), "1 minute");
    assert_eq!(span_to_string(18000000000), "30 minutes");
    assert_eq!(span_to_string(590000000), "less than a minute");
    assert_eq!(span_to_string(610000000), "less than a minute");
    assert_eq!(span_to_string(0), "less than a minute");
    assert_eq!(span_to_string(i64::MIN), "less than a minute");
}

#[test]
fn sha1_of_known_inputs() {
    assert_eq!(calculate_sha1(b"abc"), "A9993E364706816ABA3E25717850C26C9CD0D89D");
    assert_eq!(calculate_sha1(b""), "DA39A3EE5E6B4B0D3255BFEF95601890AFD80709");
    assert_eq!(digest_to_hex(&[0x00, 0x0f, 0xa0]), "000FA0");
}

#[test]
fn encryption_types_are_named_in_bit_order() {
    assert_eq!(convert_encryption_types(0), vec!["Not defined"]);
    assert_eq!(convert_encryption_types(1), vec!["DES-CBC-CRC"]);
    assert_eq!(
        convert_encryption_types(0x1c),
        vec!["RC4-HMAC-MD5", "AES128-CTS-HMAC-SHA1-96", "AES256-CTS-HMAC-SHA1-96"]
    );
    assert_eq!(
        convert_encryption_types(31),
        vec![
            "DES-CBC-CRC",
            "DES-CBC-MD5",
            "RC4-HMAC-MD5",
            "AES128-CTS-HMAC-SHA1-96",
            "AES256-CTS-HMAC-SHA1-96"
        ]
    );
    assert!(convert_encryption_types(0x20).is_empty());
    assert_eq!(convert_encryption_types(-1).len(), 5);
}

#[test]
fn integers_parse_as_the_standard_library_does() {
    for text in ["0", "7", "+7", "-7", "007", "-0", "9223372036854775807", "-9223372036854775808",
        "9223372036854775808", "-9223372036854775809", "", "+", "-", "1a", " 1", "1 ", "--1",
        "99999999999999999999999999999999999999999"]
    {
        assert_eq!(parse_i64(text), text.parse::<i64>().ok(), "i64 of {text:?}");
        assert_eq!(parse_i32(text), text.parse::<i32>().ok(), "i32 of {text:?}");
        assert_eq!(parse_u32(text), text.parse::<u32>().ok(), "u32 of {text:?}");
    }
    assert_eq!(parse_i32("2147483647"), Some(i32::MAX));
    assert_eq!(parse_i32("2147483648"), None);
    assert_eq!(parse_i32("-2147483648"), Some(i32::MIN));
    assert_eq!(parse_u32("4294967295"), Some(u32::MAX));
    assert_eq!(parse_u32("4294967296"), None);
}

#[test]
fn text_comparisons() {
    assert!(contains("CN=USERS,DC=ESSOS", "DC=ESSOS"));
    assert!(contains("abc", ""));
    assert!(contains("", ""));
    assert!(!contains("", "a"));
    assert!(!contains("abc", "abcd"));
    assert!(contains("CONTRÔLEURS DE DOMAINE", "ÔLEURS"));
    assert!(str_eq("a", "a"));
    assert!(!str_eq("a", "A"));
}

#[test]
fn path_length_follows_the_last_basic_constraints() {
    let start = PathLength { constrained: false, length: 0 };
    let got = path_length_from(start, &vec![None, Some(Some(3)), None]);
    assert!(got.constrained);
    assert_eq!(got.length, 3);
    let got = path_length_from(PathLength { constrained: true, length: 2 }, &vec![Some(Some(0))]);
    assert!(!got.constrained);
    assert_eq!(got.length, 0);
    let got = path_length_from(PathLength { constrained: true, length: 2 }, &vec![Some(None)]);
    assert!(!got.constrained);
    let got = path_length_from(PathLength { constrained: true, length: 2 }, &vec![None, None]);
    assert!(got.constrained);
    assert_eq!(got.length, 2);
    // bytes that are no certificate leave the path length as it is
    let got = certificate_path_length(&[1, 2, 3], PathLength { constrained: true, length: 9 });
    assert!(got.constrained);
    assert_eq!(got.length, 9);
}

#[test]
fn forest_levels_by_number() {
    assert_eq!(get_forest_level("7".to_string()), "2016");
    assert_eq!(get_forest_level("6".to_string()), "2012 R2");
    assert_eq!(get_forest_level("0".to_string()), "2000 Mixed/Native");
    assert_eq!(get_forest_level("8".to_string()), "Unknown");
    assert_eq!(get_forest_level("".to_string()), "Unknown");
}

#[test]
fn template_flags_by_name() {
    assert_eq!(get_pki_cert_name_flags(0), "");
    assert_eq!(get_pki_cert_name_flags(1), "ENROLLEE_SUPPLIES_SUBJECT");
    assert_eq!(
        get_pki_cert_name_flags(0x0200_0000 | 0x8000_0000),
        "SUBJECT_ALT_REQUIRE_UPN, SUBJECT_REQUIRE_DIRECTORY_PATH"
    );
    assert_eq!(get_pki_enrollment_flags(0x2 | 0x8_0000), "PEND_ALL_REQUESTS, NO_SECURITY_EXTENSION");
    assert_eq!(get_pki_enrollment_flags(0x29), "INCLUDE_SYMMETRIC_ALGORITHMS, PUBLISH_TO_DS, AUTO_ENROLLMENT");
}

#[test]
fn trust_flags_give_kind_and_transitivity() {
    let mut t = Trust::new();
    get_trust_flag(0x20, &mut t);
    assert_eq!(t.trust_type, "ParentChild");
    assert!(t.is_transitive);
    assert!(!t.sid_filtering_enabled);
    get_trust_flag(0x8 | 0x4 | 0x1, &mut t);
    assert_eq!(t.trust_type, "Forest");
    assert!(!t.is_transitive);
    assert!(t.sid_filtering_enabled);
    get_trust_flag(0x40, &mut t);
    assert_eq!(t.trust_type, "External");
    get_trust_flag(0, &mut t);
    assert_eq!(t.trust_type, "Unknown");
    assert!(t.is_transitive);
}
