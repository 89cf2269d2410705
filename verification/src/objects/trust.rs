//! Trust relationships with other domains.

use crate::enums::sid::{decode_sid, spec_decode_sid};
use crate::enums::trusts::{get_trust_flag, spec_trust_flag};
use crate::ldap::{blobs, EntryView, LdapSearchEntry};
use crate::objects::decode::{decode_attrs, decoded, AttributeSink, Context, ContextView};
use crate::text::{spec_to_uppercase, str_eq, texts, upper};
use crate::utils::format::{parse_u32, spec_parse_u32};
use vstd::prelude::*;
use vstd::string::*;

verus! {

/// A trust that this domain has with another one.
#[derive(Debug)]
pub struct Trust {
    pub target_domain_sid: String,
    pub target_domain_name: String,
    pub is_transitive: bool,
    pub sid_filtering_enabled: bool,
    pub trust_attributes: u32,
    pub trust_direction: String,
    pub trust_type: String,
}

/// A `Trust` as plain values.
pub struct TrustView {
    pub target_domain_sid: Seq<char>,
    pub target_domain_name: Seq<char>,
    pub is_transitive: bool,
    pub sid_filtering_enabled: bool,
    pub trust_attributes: u32,
    pub trust_direction: Seq<char>,
    pub trust_type: Seq<char>,
}

impl View for Trust {
    type V = TrustView;

    open spec fn view(&self) -> TrustView {
        TrustView {
            target_domain_sid: self.target_domain_sid@,
            target_domain_name: self.target_domain_name@,
            is_transitive: self.is_transitive,
            sid_filtering_enabled: self.sid_filtering_enabled,
            trust_attributes: self.trust_attributes,
            trust_direction: self.trust_direction@,
            trust_type: self.trust_type@,
        }
    }
}

impl Clone for Trust {
    fn clone(&self) -> (r: Self)
        ensures
            r == *self,
    {
        Trust {
            target_domain_sid: self.target_domain_sid.clone(),
            target_domain_name: self.target_domain_name.clone(),
            is_transitive: self.is_transitive,
            sid_filtering_enabled: self.sid_filtering_enabled,
            trust_attributes: self.trust_attributes,
            trust_direction: self.trust_direction.clone(),
            trust_type: self.trust_type.clone(),
        }
    }
}

/// The trusts of a list as plain values.
pub open spec fn trust_views(s: Seq<Trust>) -> Seq<TrustView> {
    s.map_values(|t: Trust| t@)
}

impl Trust {
    /// A trust of which nothing is known yet.
    pub open spec fn spec_new() -> TrustView {
        TrustView {
            target_domain_sid: Seq::empty(),
            target_domain_name: Seq::empty(),
            is_transitive: false,
            sid_filtering_enabled: false,
            trust_attributes: 0,
            trust_direction: Seq::empty(),
            trust_type: Seq::empty(),
        }
    }

    pub fn new() -> (r: Self)
        ensures
            r@ == Self::spec_new(),
    {
        Trust {
            target_domain_sid: String::new(),
            target_domain_name: String::new(),
            is_transitive: false,
            sid_filtering_enabled: false,
            trust_attributes: 0,
            trust_direction: String::new(),
            trust_type: String::new(),
        }
    }

    pub fn target_domain_sid(&self) -> (r: &String)
        ensures
            *r == self.target_domain_sid,
    {
        &self.target_domain_sid
    }

    pub fn target_domain_name(&self) -> (r: &String)
        ensures
            *r == self.target_domain_name,
    {
        &self.target_domain_name
    }

    pub fn is_transitive_mut(&mut self) -> (r: &mut bool)
        ensures
            *r == old(self).is_transitive,
            *final(self) == (Trust { is_transitive: *final(r), ..*old(self) }),
    {
        &mut self.is_transitive
    }

    pub fn sid_filtering_enabled_mut(&mut self) -> (r: &mut bool)
        ensures
            *r == old(self).sid_filtering_enabled,
            *final(self) == (Trust { sid_filtering_enabled: *final(r), ..*old(self) }),
    {
        &mut self.sid_filtering_enabled
    }

    pub fn trust_type_mut(&mut self) -> (r: &mut String)
        ensures
            *r == old(self).trust_type,
            *final(self) == (Trust { trust_type: *final(r), ..*old(self) }),
    {
        &mut self.trust_type
    }
}

/// The name of the direction that `trustDirection` numbers; a value that is
/// no number from 1 to 3 stands for a disabled trust.
pub open spec fn spec_trust_direction(text: Seq<char>) -> Seq<char> {
    if spec_parse_u32(text) == Some(1u32) {
        "Inbound"@
    } else if spec_parse_u32(text) == Some(2u32) {
        "Outbound"@
    } else if spec_parse_u32(text) == Some(3u32) {
        "Bidirectional"@
    } else {
        "Disabled"@
    }
}

/// Names a trust direction.
pub fn trust_direction(text: &str) -> (name: String)
    ensures
        name@ == spec_trust_direction(text@),
{
    let name = match parse_u32(text) {
        Some(1) => "Inbound",
        Some(2) => "Outbound",
        Some(3) => "Bidirectional",
        _ => "Disabled",
    };
    String::from_str(name)
}

/// The attribute bits that a `trustAttributes` value gives; a value that is
/// no number counts as 0.
pub open spec fn spec_trust_attributes(text: Seq<char>) -> u32 {
    match spec_parse_u32(text) {
        Some(bits) => bits,
        None => 0u32,
    }
}

impl Trust {
    /// What the attribute `name` says of a trust.
    pub open spec fn spec_on_name(v: TrustView, values: Seq<Seq<char>>) -> TrustView {
        TrustView { target_domain_name: spec_to_uppercase(values[0]), ..v }
    }

    /// What the attribute `trustDirection` says of a trust.
    pub open spec fn spec_on_trust_direction(v: TrustView, values: Seq<Seq<char>>) -> TrustView {
        TrustView { trust_direction: spec_trust_direction(values[0]), ..v }
    }

    /// What the attribute `trustAttributes` says of a trust.
    pub open spec fn spec_on_trust_attributes(v: TrustView, values: Seq<Seq<char>>) -> TrustView {
        TrustView {
            trust_attributes: spec_trust_attributes(values[0]),
            ..spec_trust_flag(spec_trust_attributes(values[0]), v)
        }
    }

    /// What the attribute `securityIdentifier` says of a trust.
    pub open spec fn spec_on_security_identifier(
        v: TrustView,
        values: Seq<Seq<u8>>,
        ctx: ContextView,
    ) -> TrustView {
        TrustView { target_domain_sid: spec_decode_sid(values[0], ctx.domain), ..v }
    }

    /// The trust that a record describes.
    pub open spec fn spec_parse(v: TrustView, entry: EntryView, domain: Seq<char>) -> TrustView {
        decoded::<Trust>(v, entry, ContextView { domain, domain_sid: Seq::empty() })
    }

    /// Decodes the record of a trusted domain.
    pub fn parse(&mut self, result: &LdapSearchEntry, domain: &str)
        ensures
            final(self)@ == Self::spec_parse(old(self)@, result@, domain@),
    {
        let ctx = Context::new(domain, "");
        proof {
            reveal_strlit("");
            assert(""@ =~= Seq::<char>::empty());
        }
        decode_attrs(self, result, &ctx);
    }
}

impl AttributeSink for Trust {
    /// What one text attribute does to a trust.
    open spec fn text_attr(
        v: TrustView,
        key: Seq<char>,
        values: Seq<Seq<char>>,
        ctx: ContextView,
    ) -> TrustView {
        if values.len() == 0 {
            v
        } else if key == "name"@ {
            Self::spec_on_name(v, values)
        } else if key == "trustDirection"@ {
            Self::spec_on_trust_direction(v, values)
        } else if key == "trustAttributes"@ {
            Self::spec_on_trust_attributes(v, values)
        } else {
            v
        }
    }

    /// What one binary attribute does to a trust.
    open spec fn bin_attr(
        v: TrustView,
        key: Seq<char>,
        values: Seq<Seq<u8>>,
        ctx: ContextView,
    ) -> TrustView {
        if values.len() == 0 {
            v
        } else if key == "securityIdentifier"@ {
            Self::spec_on_security_identifier(v, values, ctx)
        } else {
            v
        }
    }

    fn apply_text(&mut self, key: &str, values: &Vec<String>, ctx: &Context) {
        if values.len() == 0 {
            return ;
        }
        let first = values[0].as_str();
        assert(texts(values@)[0] == first@);
        if str_eq(key, "name") {
            self.target_domain_name = upper(first);
        } else if str_eq(key, "trustDirection") {
            self.trust_direction = trust_direction(first);
        } else if str_eq(key, "trustAttributes") {
            let bits: u32 = match parse_u32(first) {
                Some(bits) => bits,
                None => 0,
            };
            get_trust_flag(bits, self);
            self.trust_attributes = bits;
        }
    }

    fn apply_bin(&mut self, key: &str, values: &Vec<Vec<u8>>, ctx: &Context) {
        if values.len() == 0 {
            return ;
        }
        assert(blobs(values@)[0] == values@[0]@);
        if str_eq(key, "securityIdentifier") {
            self.target_domain_sid = decode_sid(values[0].as_slice(), ctx.domain.as_str());
        }
    }
}

} // verus!
