use rusthound_ce::mappings::StringMap;
use rusthound_ce::objects::aiaca::AIACA;
use rusthound_ce::objects::enterpriseca::EnterpriseCA;
use rusthound_ce::objects::rootca::RootCA;
use rusthound_ce::utils::crypto::{calculate_sha1, certificate_path_length, PathLength};
use rusthound_ce::LdapSearchEntry;

/// A self-signed authority certificate whose path length is 3.
const PATH_LENGTH_THREE: [u8; 321] = [
    0x30, 0x82, 0x01, 0x3d, 0x30, 0x81, 0xf0, 0xa0, 0x03, 0x02, 0x01, 0x02, 0x02, 0x14, 0x0e, 0x59,
    0x47, 0x73, 0xcc, 0x46, 0x9a, 0xd8, 0xf1, 0xb9, 0xc4, 0x81, 0xaf, 0xd1, 0x9d, 0x8f, 0xa3, 0xeb,
    0x34, 0xb5, 0x30, 0x05, 0x06, 0x03, 0x2b, 0x65, 0x70, 0x30, 0x13, 0x31, 0x11, 0x30, 0x0f, 0x06,
    0x03, 0x55, 0x04, 0x03, 0x0c, 0x08, 0x45, 0x53, 0x53, 0x4f, 0x53, 0x2d, 0x43, 0x41, 0x30, 0x1e,
    0x17, 0x0d, 0x32, 0x36, 0x31, 0x30, 0x32, 0x39, 0x30, 0x30, 0x30, 0x35, 0x33, 0x31, 0x5a, 0x17,
    0x0d, 0x33, 0x36, 0x31, 0x30, 0x32, 0x36, 0x30, 0x30, 0x30, 0x35, 0x33, 0x31, 0x5a, 0x30, 0x13,
    0x31, 0x11, 0x30, 0x0f, 0x06, 0x03, 0x55, 0x04, 0x03, 0x0c, 0x08, 0x45, 0x53, 0x53, 0x4f, 0x53,
    0x2d, 0x43, 0x41, 0x30, 0x2a, 0x30, 0x05, 0x06, 0x03, 0x2b, 0x65, 0x70, 0x03, 0x21, 0x00, 0x83,
    0xf0, 0x85, 0x42, 0x0e, 0x70, 0x4c, 0xe7, 0x7a, 0x80, 0x88, 0xcf, 0x91, 0x75, 0xc9, 0x15, 0x9c,
    0xab, 0xda, 0x81, 0xdf, 0x63, 0x31, 0xca, 0x1c, 0x11, 0x6b, 0x0e, 0x44, 0x6a, 0x26, 0x80, 0xa3,
    0x56, 0x30, 0x54, 0x30, 0x1d, 0x06, 0x03, 0x55, 0x1d, 0x0e, 0x04, 0x16, 0x04, 0x14, 0x2c, 0x72,
    0xf1, 0x0a, 0xa2, 0x51, 0x57, 0xed, 0x02, 0x9f, 0x7f, 0x7e, 0x8d, 0xe7, 0x7b, 0xde, 0xae, 0x0e,
    0x2e, 0x43, 0x30, 0x1f, 0x06, 0x03, 0x55, 0x1d, 0x23, 0x04, 0x18, 0x30, 0x16, 0x80, 0x14, 0x2c,
    0x72, 0xf1, 0x0a, 0xa2, 0x51, 0x57, 0xed, 0x02, 0x9f, 0x7f, 0x7e, 0x8d, 0xe7, 0x7b, 0xde, 0xae,
    0x0e, 0x2e, 0x43, 0x30, 0x12, 0x06, 0x03, 0x55, 0x1d, 0x13, 0x01, 0x01, 0xff, 0x04, 0x08, 0x30,
    0x06, 0x01, 0x01, 0xff, 0x02, 0x01, 0x03, 0x30, 0x05, 0x06, 0x03, 0x2b, 0x65, 0x70, 0x03, 0x41,
    0x00, 0x73, 0xfb, 0xab, 0x34, 0x09, 0x8b, 0x95, 0xbd, 0x06, 0x1d, 0x02, 0xd5, 0x88, 0x34, 0x5b,
    0x45, 0x54, 0x7a, 0x10, 0x14, 0x2b, 0x6b, 0x89, 0x99, 0xfa, 0x22, 0xea, 0x07, 0x37, 0x94, 0xd6,
    0xc0, 0x46, 0x36, 0xa2, 0xc2, 0x72, 0x49, 0xda, 0xa6, 0xa3, 0xc6, 0x5f, 0x29, 0xa4, 0xdf, 0x3c,
    0x6f, 0x23, 0xc4, 0x10, 0x9f, 0x0e, 0xa1, 0x2c, 0x21, 0xc5, 0x60, 0x78, 0xf0, 0xb1, 0x04, 0x47,
    0x05,
];

/// A self-signed authority certificate whose path length is 0.
const PATH_LENGTH_ZERO: [u8; 321] = [
    0x30, 0x82, 0x01, 0x3d, 0x30, 0x81, 0xf0, 0xa0, 0x03, 0x02, 0x01, 0x02, 0x02, 0x14, 0x52, 0xf3,
    0x8a, 0x57, 0xd8, 0xac, 0xa3, 0x9e, 0xbd, 0x61, 0x1e, 0x1a, 0x26, 0x6a, 0x89, 0x6c, 0x70, 0x4f,
    0x39, 0x92, 0x30, 0x05, 0x06, 0x03, 0x2b, 0x65, 0x70, 0x30, 0x13, 0x31, 0x11, 0x30, 0x0f, 0x06,
    0x03, 0x55, 0x04, 0x03, 0x0c, 0x08, 0x45, 0x53, 0x53, 0x4f, 0x53, 0x2d, 0x43, 0x41, 0x30, 0x1e,
    0x17, 0x0d, 0x32, 0x36, 0x31, 0x30, 0x32, 0x39, 0x30, 0x30, 0x30, 0x35, 0x33, 0x31, 0x5a, 0x17,
    0x0d, 0x33, 0x36, 0x31, 0x30, 0x32, 0x36, 0x30, 0x30, 0x30, 0x35, 0x33, 0x31, 0x5a, 0x30, 0x13,
    0x31, 0x11, 0x30, 0x0f, 0x06, 0x03, 0x55, 0x04, 0x03, 0x0c, 0x08, 0x45, 0x53, 0x53, 0x4f, 0x53,
    0x2d, 0x43, 0x41, 0x30, 0x2a, 0x30, 0x05, 0x06, 0x03, 0x2b, 0x65, 0x70, 0x03, 0x21, 0x00, 0x52,
    0x90, 0x7f, 0x7d, 0x15, 0xd6, 0xcd, 0x59, 0x23, 0x6e, 0x7c, 0xf6, 0x1d, 0xf0, 0xd3, 0xfd, 0xae,
    0x2b, 0x2e, 0x0b, 0xe9, 0x9f, 0x0a, 0x86, 0x02, 0xd9, 0x23, 0xc0, 0x40, 0xdb, 0x3a, 0x0c, 0xa3,
    0x56, 0x30, 0x54, 0x30, 0x1d, 0x06, 0x03, 0x55, 0x1d, 0x0e, 0x04, 0x16, 0x04, 0x14, 0xf3, 0x53,
    0x88, 0x5c, 0x7f, 0xb5, 0x93, 0xd2, 0x6d, 0x27, 0xe6, 0xf8, 0xa2, 0x40, 0x9a, 0xe1, 0xb0, 0xfe,
    0xa2, 0x5a, 0x30, 0x1f, 0x06, 0x03, 0x55, 0x1d, 0x23, 0x04, 0x18, 0x30, 0x16, 0x80, 0x14, 0xf3,
    0x53, 0x88, 0x5c, 0x7f, 0xb5, 0x93, 0xd2, 0x6d, 0x27, 0xe6, 0xf8, 0xa2, 0x40, 0x9a, 0xe1, 0xb0,
    0xfe, 0xa2, 0x5a, 0x30, 0x12, 0x06, 0x03, 0x55, 0x1d, 0x13, 0x01, 0x01, 0xff, 0x04, 0x08, 0x30,
    0x06, 0x01, 0x01, 0xff, 0x02, 0x01, 0x00, 0x30, 0x05, 0x06, 0x03, 0x2b, 0x65, 0x70, 0x03, 0x41,
    0x00, 0xa1, 0x40, 0x14, 0x12, 0x11, 0x1a, 0x8d, 0x36, 0x3c, 0xbc, 0x2c, 0x90, 0x3c, 0x0f, 0x03,
    0xd6, 0xde, 0x1d, 0x61, 0xea, 0x75, 0xef, 0xc3, 0xa8, 0x61, 0xc6, 0x2c, 0x33, 0x1f, 0x1c, 0xec,
    0x60, 0x66, 0xb9, 0x36, 0xb7, 0x15, 0xef, 0x08, 0x6c, 0x96, 0x67, 0x9b, 0x86, 0xa0, 0xe5, 0x96,
    0xa1, 0x33, 0x37, 0xb5, 0x23, 0xb0, 0x3b, 0xe4, 0x4c, 0x29, 0xb8, 0x62, 0x5b, 0x97, 0x1e, 0x73,
    0x0d,
];

/// A self-signed authority certificate without path length.
const NO_PATH_LENGTH: [u8; 315] = [
    0x30, 0x82, 0x01, 0x37, 0x30, 0x81, 0xea, 0xa0, 0x03, 0x02, 0x01, 0x02, 0x02, 0x14, 0x42, 0x6b,
    0x04, 0x12, 0x4d, 0xeb, 0xc5, 0x32, 0x83, 0x39, 0x51, 0x93, 0xee, 0xb6, 0x0e, 0xce, 0x71, 0x1b,
    0x86, 0x30, 0x30, 0x05, 0x06, 0x03, 0x2b, 0x65, 0x70, 0x30, 0x13, 0x31, 0x11, 0x30, 0x0f, 0x06,
    0x03, 0x55, 0x04, 0x03, 0x0c, 0x08, 0x45, 0x53, 0x53, 0x4f, 0x53, 0x2d, 0x43, 0x41, 0x30, 0x1e,
    0x17, 0x0d, 0x32, 0x36, 0x31, 0x30, 0x32, 0x39, 0x30, 0x30, 0x30, 0x35, 0x33, 0x31, 0x5a, 0x17,
    0x0d, 0x33, 0x36, 0x31, 0x30, 0x32, 0x36, 0x30, 0x30, 0x30, 0x35, 0x33, 0x31, 0x5a, 0x30, 0x13,
    0x31, 0x11, 0x30, 0x0f, 0x06, 0x03, 0x55, 0x04, 0x03, 0x0c, 0x08, 0x45, 0x53, 0x53, 0x4f, 0x53,
    0x2d, 0x43, 0x41, 0x30, 0x2a, 0x30, 0x05, 0x06, 0x03, 0x2b, 0x65, 0x70, 0x03, 0x21, 0x00, 0x70,
    0xd7, 0xc5, 0x8e, 0x71, 0x1e, 0xea, 0xcb, 0x4f, 0x45, 0xe9, 0xf9, 0x6e, 0xbe, 0x2c, 0xc1, 0xb9,
    0x8a, 0x1a, 0x6e, 0xfd, 0xf7, 0xf1, 0x15, 0x60, 0x8f, 0x0a, 0x09, 0x97, 0x9f, 0x64, 0x6a, 0xa3,
    0x50, 0x30, 0x4e, 0x30, 0x1d, 0x06, 0x03, 0x55, 0x1d, 0x0e, 0x04, 0x16, 0x04, 0x14, 0x8d, 0x9d,
    0xff, 0xd0, 0x3e, 0x5f, 0xb9, 0x31, 0xe1, 0x75, 0xfc, 0xd7, 0xa4, 0x37, 0x4d, 0x80, 0x75, 0x8c,
    0x03, 0xa3, 0x30, 0x1f, 0x06, 0x03, 0x55, 0x1d, 0x23, 0x04, 0x18, 0x30, 0x16, 0x80, 0x14, 0x8d,
    0x9d, 0xff, 0xd0, 0x3e, 0x5f, 0xb9, 0x31, 0xe1, 0x75, 0xfc, 0xd7, 0xa4, 0x37, 0x4d, 0x80, 0x75,
    0x8c, 0x03, 0xa3, 0x30, 0x0c, 0x06, 0x03, 0x55, 0x1d, 0x13, 0x04, 0x05, 0x30, 0x03, 0x01, 0x01,
    0xff, 0x30, 0x05, 0x06, 0x03, 0x2b, 0x65, 0x70, 0x03, 0x41, 0x00, 0xf5, 0x34, 0x00, 0xd3, 0xb1,
    0x7c, 0x1d, 0x20, 0x72, 0x92, 0xc2, 0x47, 0x0f, 0x5e, 0x89, 0xe9, 0xc4, 0xf4, 0x33, 0xf0, 0x3a,
    0x7c, 0xbc, 0x4d, 0x17, 0x5f, 0x6b, 0xda, 0x45, 0xf4, 0x77, 0x14, 0x9f, 0xc0, 0xa0, 0xa0, 0x27,
    0x16, 0xb7, 0xe4, 0x8d, 0x72, 0xc7, 0xbd, 0x31, 0x67, 0x89, 0x63, 0x8c, 0xdd, 0x92, 0x9a, 0x65,
    0x46, 0xb8, 0xdc, 0xe7, 0x22, 0x96, 0x4b, 0x3d, 0x12, 0x06, 0x07,
];

fn unconstrained() -> PathLength {
    PathLength { constrained: false, length: 0 }
}

#[test]
fn path_length_is_read_from_the_certificate() {
    let got = certificate_path_length(&PATH_LENGTH_THREE, unconstrained());
    assert!(got.constrained);
    assert_eq!(got.length, 3);
    let got = certificate_path_length(&PATH_LENGTH_ZERO, PathLength { constrained: true, length: 7 });
    assert!(!got.constrained);
    assert_eq!(got.length, 0);
    let got = certificate_path_length(&NO_PATH_LENGTH, PathLength { constrained: true, length: 7 });
    assert!(!got.constrained);
    assert_eq!(got.length, 0);
    // a certificate that breaks off is no certificate
    let got = certificate_path_length(&PATH_LENGTH_THREE[..100], PathLength { constrained: true, length: 7 });
    assert!(got.constrained);
    assert_eq!(got.length, 7);
}

fn authority_record(certificate: &[u8]) -> LdapSearchEntry {
    LdapSearchEntry {
        dn: "CN=ESSOS-CA,CN=AIA,CN=Public Key Services,CN=Services,CN=Configuration,DC=essos,DC=local"
            .to_string(),
        attrs: vec![
            ("name".to_string(), vec!["ESSOS-CA".to_string()]),
            ("crossCertificatePair".to_string(), vec!["x".to_string()]),
            ("dNSHostName".to_string(), vec!["braavos.essos.local".to_string()]),
            ("certificateTemplates".to_string(), vec!["User".to_string(), "Machine".to_string()]),
        ],
        bin_attrs: vec![
            ("objectGUID".to_string(), vec![vec![0x11; 16]]),
            ("cACertificate".to_string(), vec![certificate.to_vec()]),
        ],
    }
}

#[test]
fn published_authority_keeps_thumbprint_and_path_length() {
    let mut dn_sid = StringMap::new();
    let mut sid_type = StringMap::new();
    let mut ca = AIACA::new();
    ca.parse(&authority_record(&PATH_LENGTH_THREE), "essos.local", &mut dn_sid, &mut sid_type, "S-1-5-21-1-2-3");
    let thumbprint = calculate_sha1(&PATH_LENGTH_THREE);
    assert_eq!(thumbprint.len(), 40);
    assert_eq!(ca.properties.certthumbprint, thumbprint);
    assert_eq!(ca.properties.certname, thumbprint);
    assert_eq!(ca.properties.certchain, vec![thumbprint]);
    assert!(ca.properties.hasbasicconstraints);
    assert_eq!(ca.properties.basicconstraintpathlength, 3);
    assert!(ca.properties.hascrosscertificatepair);
    assert_eq!(ca.properties.name, "ESSOS-CA@ESSOS.LOCAL");
    assert_eq!(ca.properties.whencreated, -1);
    assert_eq!(ca.domain_sid, "S-1-5-21-1-2-3");
    assert_eq!(ca.common.object_identifier, "11111111-1111-1111-1111-111111111111");
    assert_eq!(sid_type.get("11111111-1111-1111-1111-111111111111").map(|s| s.as_str()), Some("AIACA"));
}

#[test]
fn root_and_enterprise_authorities_read_the_same_certificate() {
    let mut dn_sid = StringMap::new();
    let mut sid_type = StringMap::new();
    let mut root = RootCA::new();
    root.parse(&authority_record(&PATH_LENGTH_ZERO), "essos.local", &mut dn_sid, &mut sid_type, "");
    assert!(!root.properties.hasbasicconstraints);
    assert_eq!(root.properties.basicconstraintpathlength, 0);
    assert_eq!(root.properties.certthumbprint, calculate_sha1(&PATH_LENGTH_ZERO));
    assert_eq!(sid_type.get(&root.common.object_identifier).map(|s| s.as_str()), Some("RootCA"));
    let mut enterprise = EnterpriseCA::new();
    enterprise.parse(&authority_record(&PATH_LENGTH_THREE), "essos.local", &mut dn_sid, &mut sid_type, "");
    assert_eq!(enterprise.properties().basicconstraintpathlength, 3);
    assert_eq!(enterprise.properties().name(), "ESSOS-CA@ESSOS.LOCAL");
    assert_eq!(enterprise.properties.caname, "ESSOS-CA");
    assert_eq!(enterprise.properties.dnshostname, "braavos.essos.local");
    assert_eq!(enterprise.certificate_templates, vec!["User", "Machine"]);
    assert!(enterprise.enabled_cert_templates().is_empty());
    assert_eq!(sid_type.get(&enterprise.common.object_identifier).map(|s| s.as_str()), Some("EnterpriseCA"));
    // the second authority under the same name replaced the first in the index
    assert_eq!(dn_sid.len(), 1);
}
