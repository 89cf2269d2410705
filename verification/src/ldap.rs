//! Directory records as the decoders take them, and the texts that a
//! connection to the directory is made with.

use crate::text::{
    chars_of, concat2, concat3, contains, contains_seq, index_of, lower, position_of, push_str,
    spec_to_lowercase, string_of, texts,
};
use crate::utils::format::{decimal, domain_to_dc, push_decimal, spec_domain_to_dc};
use vstd::prelude::*;
use vstd::string::*;

verus! {

/// Text attributes in the order the record lists them.
pub type TextAttrs = Seq<(Seq<char>, Seq<Seq<char>>)>;

/// Binary attributes in the order the record lists them.
pub type BinAttrs = Seq<(Seq<char>, Seq<Seq<u8>>)>;

/// One record of the directory: its distinguished name and its attributes,
/// each with all its values.
#[derive(Debug)]
pub struct LdapSearchEntry {
    /// Entry DN.
    pub dn: String,
    /// Attributes.
    pub attrs: Vec<(String, Vec<String>)>,
    /// Binary-valued attributes.
    pub bin_attrs: Vec<(String, Vec<Vec<u8>>)>,
}

/// A record as plain values.
pub struct EntryView {
    pub dn: Seq<char>,
    pub attrs: TextAttrs,
    pub bin_attrs: BinAttrs,
}

/// The byte strings of a list.
pub open spec fn blobs(v: Seq<Vec<u8>>) -> Seq<Seq<u8>> {
    v.map_values(|b: Vec<u8>| b@)
}

/// Text attributes as plain values.
pub open spec fn text_attrs_view(s: Seq<(String, Vec<String>)>) -> TextAttrs {
    Seq::new(s.len(), |i: int| (s[i].0@, texts(s[i].1@)))
}

/// Binary attributes as plain values.
pub open spec fn bin_attrs_view(s: Seq<(String, Vec<Vec<u8>>)>) -> BinAttrs {
    Seq::new(s.len(), |i: int| (s[i].0@, blobs(s[i].1@)))
}

impl View for LdapSearchEntry {
    type V = EntryView;

    open spec fn view(&self) -> EntryView {
        EntryView {
            dn: self.dn@,
            attrs: text_attrs_view(self.attrs@),
            bin_attrs: bin_attrs_view(self.bin_attrs@),
        }
    }
}

/// The records of a list as plain values.
pub open spec fn entry_views(s: Seq<LdapSearchEntry>) -> Seq<EntryView> {
    s.map_values(|e: LdapSearchEntry| e@)
}

/// The port on which the directory is served over TLS.
pub const LDAPS_PORT: u16 = 636;

/// The scheme of the connection: TLS when asked for or when the port is 636.
pub open spec fn spec_scheme(ldaps: bool, port: Option<u16>) -> Seq<char> {
    if ldaps || port == Some(LDAPS_PORT) {
        "ldaps"@
    } else {
        "ldap"@
    }
}

/// The URL of the directory server: the address when one is given, the
/// domain name otherwise, and the port when one is given.
pub open spec fn spec_ldap_url(
    ldaps: bool,
    ip: Option<Seq<char>>,
    port: Option<u16>,
    domain: Seq<char>,
) -> Seq<char> {
    let target = match ip {
        Some(ip) => ip,
        None => domain,
    };
    match port {
        Some(p) => spec_scheme(ldaps, port) + "://"@ + target + ":"@ + decimal(p as nat),
        None => spec_scheme(ldaps, port) + "://"@ + target,
    }
}

/// Builds the URL of the directory server.
pub fn prepare_ldap_url(ldaps: bool, ip: Option<&str>, port: Option<u16>, domain: &str) -> (url:
    String)
    ensures
        url@ == spec_ldap_url(
            ldaps,
            match ip {
                Some(ip) => Some(ip@),
                None => None,
            },
            port,
            domain@,
        ),
{
    let tls = ldaps || match port {
        Some(p) => p == LDAPS_PORT,
        None => false,
    };
    let mut out: Vec<char> = Vec::new();
    if tls {
        push_str(&mut out, "ldaps");
    } else {
        push_str(&mut out, "ldap");
    }
    assert(out@ =~= spec_scheme(ldaps, port));
    push_str(&mut out, "://");
    match ip {
        Some(ip) => push_str(&mut out, ip),
        None => push_str(&mut out, domain),
    }
    match port {
        Some(p) => {
            push_str(&mut out, ":");
            push_decimal(&mut out, p as u64);
        },
        None => {},
    }
    string_of(&out)
}

/// The naming contexts derived from a domain name: the domain's own and the
/// configuration partition's. A single-label name gives `DC=name` and
/// `CN=Configuration,DC=name`; a dotted name gives its `DC=` components and a
/// configuration prefix without domain part.
pub open spec fn spec_ldap_dc(domain: Seq<char>) -> Seq<Seq<char>> {
    if index_of(domain, '.', 0) < domain.len() {
        seq![spec_domain_to_dc(domain), "CN=Configuration,"@]
    } else {
        seq!["DC="@ + domain, "CN=Configuration,"@ + ("DC="@ + domain)]
    }
}

/// Derives the naming contexts of a domain from its name.
pub fn prepare_ldap_dc(domain: &str) -> (contexts: Vec<String>)
    ensures
        texts(contexts@) == spec_ldap_dc(domain@),
{
    let d = chars_of(domain);
    let dotted = position_of(&d, '.', 0) < d.len();
    let mut contexts: Vec<String> = Vec::new();
    if dotted {
        contexts.push(domain_to_dc(domain));
        contexts.push(String::from_str("CN=Configuration,"));
    } else {
        let dc = concat2("DC=", domain);
        let configuration = concat2("CN=Configuration,", dc.as_str());
        contexts.push(dc);
        contexts.push(configuration);
    }
    assert(texts(contexts@) =~= spec_ldap_dc(domain@));
    contexts
}

/// The name an account binds with: `user@domain` built from a bare user
/// name, or the given name when it already holds an `@`, in lower case.
pub open spec fn spec_bind_name(username: Seq<char>, domain: Seq<char>) -> Seq<char> {
    if contains_seq(username, "@"@) {
        spec_to_lowercase(spec_to_lowercase(username))
    } else {
        spec_to_lowercase(username + "@"@ + domain)
    }
}

/// Builds the name that the account binds with.
pub fn bind_name(username: &str, domain: &str) -> (name: String)
    ensures
        name@ == spec_bind_name(username@, domain@),
{
    if contains(username, "@") {
        let once = lower(username);
        lower(once.as_str())
    } else {
        let email = concat3(username, "@", domain);
        lower(email.as_str())
    }
}

} // verus!
