//! What the decoders of all node types share: the walk over the attributes
//! of a record, the conversions of single values, and the entry of a decoded
//! node in the index.

use crate::enums::acl::{
    parse_ntsecuritydescriptor, spec_descriptor_entries, spec_is_protected,
};
use crate::enums::sid::{
    decode_guid_le, decode_sid, domain_sid_of, sid_prefix, spec_decode_guid_le, spec_decode_sid,
    spec_domain_sid, spec_sid_prefix,
};
use crate::ldap::{BinAttrs, EntryView, LdapSearchEntry, TextAttrs};
use crate::mappings::{
    inserted, lemma_lookup_inserted_other, lemma_lookup_inserted_same, lookup, Entries, StringMap,
};
use crate::objects::common::{
    ace_views, member_views, spn_views, AceTemplate, AceView, Member, MemberView, NodeCommon,
    NodeCommonView, SPNTarget, SPNTargetView,
};
use crate::objects::UNRESOLVED;
use crate::text::{
    after_first, before_first, chars_of, concat2, concat3, contains, contains_seq, has_prefix,
    lemma_index_of_skip, nth_piece, piece, position_of, push_all, push_str, slice_chars,
    spec_to_uppercase, starts_with, str_eq, string_of, string_of_range, texts, upper,
};
use crate::utils::crypto::{convert_encryption_types, spec_convert_encryption_types};
use crate::utils::date::{
    convert_timestamp, span_to_string, spec_convert_timestamp, spec_span_to_string,
    spec_string_to_epoch, string_to_epoch,
};
use crate::utils::format::{parse_i32, parse_i64, spec_parse_i32, spec_parse_i64};
use vstd::prelude::*;
use vstd::string::*;

verus! {

/// What a decoder knows besides the record: the name of the domain that is
/// collected and the identifier of the domain as far as it is known.
#[derive(Debug)]
pub struct Context {
    pub domain: String,
    pub domain_sid: String,
}

/// A `Context` as texts.
pub struct ContextView {
    pub domain: Seq<char>,
    pub domain_sid: Seq<char>,
}

impl View for Context {
    type V = ContextView;

    open spec fn view(&self) -> ContextView {
        ContextView { domain: self.domain@, domain_sid: self.domain_sid@ }
    }
}

impl Context {
    pub fn new(domain: &str, domain_sid: &str) -> (c: Self)
        ensures
            c@ == (ContextView { domain: domain@, domain_sid: domain_sid@ }),
    {
        Context { domain: String::from_str(domain), domain_sid: String::from_str(domain_sid) }
    }
}

/// A node that takes the attributes of a record one at a time. The two spec
/// functions say what one attribute does to the node; an attribute that the
/// type does not know leaves the node as it is.
pub trait AttributeSink: View + Sized {
    spec fn text_attr(
        v: Self::V,
        key: Seq<char>,
        values: Seq<Seq<char>>,
        ctx: ContextView,
    ) -> Self::V;

    spec fn bin_attr(v: Self::V, key: Seq<char>, values: Seq<Seq<u8>>, ctx: ContextView) -> Self::V;

    fn apply_text(&mut self, key: &str, values: &Vec<String>, ctx: &Context)
        ensures
            final(self)@ == Self::text_attr(old(self)@, key@, texts(values@), ctx@),
    ;

    fn apply_bin(&mut self, key: &str, values: &Vec<Vec<u8>>, ctx: &Context)
        ensures
            final(self)@ == Self::bin_attr(old(self)@, key@, crate::ldap::blobs(values@), ctx@),
    ;
}

/// The node after the first `n` text attributes, taken in the order of the
/// record.
pub open spec fn text_folded<T: AttributeSink>(
    v: T::V,
    attrs: TextAttrs,
    ctx: ContextView,
    n: nat,
) -> T::V
    decreases n,
{
    if n == 0 {
        v
    } else {
        T::text_attr(
            text_folded::<T>(v, attrs, ctx, (n - 1) as nat),
            attrs[n - 1].0,
            attrs[n - 1].1,
            ctx,
        )
    }
}

/// The node after the first `n` binary attributes, taken in the order of the
/// record.
pub open spec fn bin_folded<T: AttributeSink>(
    v: T::V,
    attrs: BinAttrs,
    ctx: ContextView,
    n: nat,
) -> T::V
    decreases n,
{
    if n == 0 {
        v
    } else {
        T::bin_attr(
            bin_folded::<T>(v, attrs, ctx, (n - 1) as nat),
            attrs[n - 1].0,
            attrs[n - 1].1,
            ctx,
        )
    }
}

/// The node after all the attributes of a record: the text attributes first,
/// then the binary ones.
pub open spec fn decoded<T: AttributeSink>(v: T::V, entry: EntryView, ctx: ContextView) -> T::V {
    bin_folded::<T>(
        text_folded::<T>(v, entry.attrs, ctx, entry.attrs.len()),
        entry.bin_attrs,
        ctx,
        entry.bin_attrs.len(),
    )
}

/// Hands every attribute of a record to a node.
pub fn decode_attrs<T: AttributeSink>(node: &mut T, entry: &LdapSearchEntry, ctx: &Context)
    ensures
        final(node)@ == decoded::<T>(old(node)@, entry@, ctx@),
{
    let mut i: usize = 0;
    while i < entry.attrs.len()
        invariant
            i <= entry.attrs.len(),
            node@ == text_folded::<T>(old(node)@, entry@.attrs, ctx@, i as nat),
        decreases entry.attrs.len() - i,
    {
        assert(entry@.attrs[i as int] == (
            entry.attrs@[i as int].0@,
            texts(entry.attrs@[i as int].1@),
        ));
        node.apply_text(entry.attrs[i].0.as_str(), &entry.attrs[i].1, ctx);
        i += 1;
    }
    let ghost after_text = node@;
    let mut k: usize = 0;
    while k < entry.bin_attrs.len()
        invariant
            k <= entry.bin_attrs.len(),
            node@ == bin_folded::<T>(after_text, entry@.bin_attrs, ctx@, k as nat),
        decreases entry.bin_attrs.len() - k,
    {
        assert(entry@.bin_attrs[k as int] == (
            entry.bin_attrs@[k as int].0@,
            crate::ldap::blobs(entry.bin_attrs@[k as int].1@),
        ));
        node.apply_bin(entry.bin_attrs[k].0.as_str(), &entry.bin_attrs[k].1, ctx);
        k += 1;
    }
}

/// A display name: `name`, `separator` and the domain name, in upper case.
pub open spec fn spec_qualified(name: Seq<char>, separator: Seq<char>, domain: Seq<char>) -> Seq<
    char,
> {
    spec_to_uppercase(name + separator + domain)
}

/// Builds a display name.
pub fn qualified(name: &str, separator: &str, domain: &str) -> (r: String)
    ensures
        r@ == spec_qualified(name@, separator@, domain@),
{
    let joined = concat3(name, separator, domain);
    upper(joined.as_str())
}

/// The creation time that a `whenCreated` value gives: its Unix time when it
/// is a timestamp after the epoch, `current` otherwise.
pub open spec fn spec_created(text: Seq<char>, current: i64) -> i64 {
    match spec_string_to_epoch(text) {
        Some(epoch) => if epoch > 0 {
            epoch
        } else {
            current
        },
        None => current,
    }
}

/// Reads a `whenCreated` value.
pub fn created(text: &str, current: i64) -> (r: i64)
    ensures
        r == spec_created(text@, current),
{
    match string_to_epoch(text) {
        Some(epoch) => if epoch > 0 {
            epoch
        } else {
            current
        },
        None => current,
    }
}

/// The Unix time that a directory timestamp in decimal gives: the converted
/// value when the text is a positive number, `current` otherwise.
pub open spec fn spec_timestamp(text: Seq<char>, current: i64) -> i64 {
    match spec_parse_i64(text) {
        Some(ticks) => if ticks > 0 {
            spec_convert_timestamp(ticks as int) as i64
        } else {
            current
        },
        None => current,
    }
}

/// Reads a directory timestamp written in decimal.
pub fn timestamp(text: &str, current: i64) -> (r: i64)
    ensures
        r == spec_timestamp(text@, current),
{
    match parse_i64(text) {
        Some(ticks) => if ticks > 0 {
            convert_timestamp(ticks)
        } else {
            current
        },
        None => current,
    }
}

/// The identifier that an `objectGUID` value gives: its canonical text when
/// the value has at least 16 bytes, `current` otherwise.
pub open spec fn spec_guid_identifier(raw: Seq<u8>, current: Seq<char>) -> Seq<char> {
    if raw.len() >= 16 {
        spec_decode_guid_le(raw)
    } else {
        current
    }
}

/// The common part of a node after its security descriptor is read: the
/// entries and the protection flag come from the descriptor.
pub open spec fn with_descriptor(
    c: NodeCommonView,
    raw: Seq<u8>,
    entry_type: Seq<char>,
    domain: Seq<char>,
) -> NodeCommonView {
    NodeCommonView {
        aces: spec_descriptor_entries(raw, entry_type, domain),
        is_acl_protected: spec_is_protected(raw),
        ..c
    }
}

/// Reads an `objectGUID` value into the common part of a node.
pub fn set_guid(common: &mut NodeCommon, raw: &Vec<u8>)
    ensures
        final(common)@ == (NodeCommonView {
            object_identifier: spec_guid_identifier(raw@, old(common)@.object_identifier),
            ..old(common)@
        }),
{
    if raw.len() >= 16 {
        common.object_identifier = decode_guid_le(raw.as_slice());
    }
}

/// Reads a security descriptor into the common part of a node.
pub fn set_descriptor(common: &mut NodeCommon, raw: &Vec<u8>, entry_type: &str, domain: &str)
    ensures
        final(common)@ == with_descriptor(old(common)@, raw@, entry_type@, domain@),
{
    let decoded = parse_ntsecuritydescriptor(raw.as_slice(), entry_type, domain);
    common.aces = decoded.aces;
    common.is_acl_protected = decoded.is_acl_protected;
}

/// The name-to-identifier map after a node is decoded: the node's
/// distinguished name leads to its identifier, unless the identifier is the
/// unresolved marker.
pub open spec fn registered_dn(dn_sid: Entries, dn: Seq<char>, id: Seq<char>) -> Entries {
    if id == UNRESOLVED@ {
        dn_sid
    } else {
        inserted(dn_sid, dn, id)
    }
}

/// The identifier-to-type map after a node is decoded: the node's identifier
/// leads to the name of its type, unless the identifier is the unresolved
/// marker.
pub open spec fn registered_type(sid_type: Entries, id: Seq<char>, kind: Seq<char>) -> Entries {
    if id == UNRESOLVED@ {
        sid_type
    } else {
        inserted(sid_type, id, kind)
    }
}

/// Enters a decoded node in the index. A node whose identifier is the
/// unresolved marker stays out.
pub fn register(
    dn_sid: &mut StringMap,
    sid_type: &mut StringMap,
    dn: &str,
    id: &str,
    kind: &str,
)
    ensures
        final(dn_sid)@ == registered_dn(old(dn_sid)@, dn@, id@),
        final(sid_type)@ == registered_type(old(sid_type)@, id@, kind@),
{
    if !str_eq(id, UNRESOLVED) {
        dn_sid.insert(String::from_str(dn), String::from_str(id));
        sid_type.insert(String::from_str(id), String::from_str(kind));
    }
}

/// Right after a node with a resolvable identifier is entered, the index
/// gives the node's type for its identifier and its identifier for its
/// distinguished name. When no other name led to the identifier before, the
/// node's name is the only one that does.
pub proof fn lemma_registered_node(
    dn_sid: Entries,
    sid_type: Entries,
    dn: Seq<char>,
    id: Seq<char>,
    kind: Seq<char>,
)
    requires
        id != UNRESOLVED@,
    ensures
        lookup(registered_type(sid_type, id, kind), id) == Some(kind),
        lookup(registered_dn(dn_sid, dn, id), dn) == Some(id),
        (forall|i: int| 0 <= i < dn_sid.len() && dn_sid[i].1 == id ==> dn_sid[i].0 == dn) ==> (
        forall|i: int|
            0 <= i < registered_dn(dn_sid, dn, id).len() && (#[trigger] registered_dn(
                dn_sid,
                dn,
                id,
            )[i]).1 == id ==> registered_dn(dn_sid, dn, id)[i].0 == dn),
{
    lemma_lookup_inserted_same(sid_type, id, kind);
    lemma_lookup_inserted_same(dn_sid, dn, id);
    crate::mappings::lemma_key_index(dn_sid, dn, 0);
}

/// A node that is entered stays as it is when another node is entered under
/// another name and another identifier: its identifier still leads to its
/// type, its name to its identifier, and no new name leads to its identifier.
pub proof fn lemma_registered_node_stays(
    dn_sid: Entries,
    sid_type: Entries,
    dn: Seq<char>,
    id: Seq<char>,
    kind: Seq<char>,
    other_dn: Seq<char>,
    other_id: Seq<char>,
    other_kind: Seq<char>,
)
    requires
        lookup(sid_type, id) == Some(kind),
        lookup(dn_sid, dn) == Some(id),
        other_dn != dn,
        other_id != id,
    ensures
        lookup(registered_type(sid_type, other_id, other_kind), id) == Some(kind),
        lookup(registered_dn(dn_sid, other_dn, other_id), dn) == Some(id),
        (forall|i: int| 0 <= i < dn_sid.len() && dn_sid[i].1 == id ==> dn_sid[i].0 == dn) ==> (
        forall|i: int|
            0 <= i < registered_dn(dn_sid, other_dn, other_id).len() && (#[trigger] registered_dn(
                dn_sid,
                other_dn,
                other_id,
            )[i]).1 == id ==> registered_dn(dn_sid, other_dn, other_id)[i].0 == dn),
{
    lemma_lookup_inserted_other(sid_type, other_id, other_kind, id);
    lemma_lookup_inserted_other(dn_sid, other_dn, other_id, dn);
    crate::mappings::lemma_key_index(dn_sid, other_dn, 0);
}

/// What a decoded node enters in the index: its distinguished name, its
/// identifier and the name of its type.
pub struct Registration {
    pub dn: Seq<char>,
    pub id: Seq<char>,
    pub kind: Seq<char>,
}

/// The name-to-identifier map and the identifier-to-type map after the first
/// `n` nodes are entered, in order, into empty maps.
pub open spec fn index_after(nodes: Seq<Registration>, n: nat) -> (Entries, Entries)
    decreases n,
{
    if n == 0 {
        (Seq::empty(), Seq::empty())
    } else {
        let before = index_after(nodes, (n - 1) as nat);
        (
            registered_dn(before.0, nodes[n - 1].dn, nodes[n - 1].id),
            registered_type(before.1, nodes[n - 1].id, nodes[n - 1].kind),
        )
    }
}

/// No other node has the name or the identifier of the node at `i`.
pub open spec fn stands_alone(nodes: Seq<Registration>, i: int) -> bool {
    forall|j: int|
        0 <= j < nodes.len() && j != i ==> (#[trigger] nodes[j]).dn != nodes[i].dn && nodes[j].id
            != nodes[i].id
}

/// An identifier that none of the first `n` nodes has is the value of no
/// entry of the name-to-identifier map.
pub proof fn lemma_identifier_absent(nodes: Seq<Registration>, n: nat, id: Seq<char>)
    requires
        n <= nodes.len(),
        forall|j: int| 0 <= j < n ==> (#[trigger] nodes[j]).id != id,
    ensures
        forall|k: int|
            0 <= k < index_after(nodes, n).0.len() ==> (#[trigger] index_after(nodes, n).0[k]).1
                != id,
    decreases n,
{
    if n > 0 {
        lemma_identifier_absent(nodes, (n - 1) as nat, id);
        let before = index_after(nodes, (n - 1) as nat).0;
        assert(nodes[n - 1].id != id);
        crate::mappings::lemma_key_index(before, nodes[n - 1].dn, 0);
    }
}

/// The index is consistent with the collection. Once all the nodes are
/// entered, a node with a resolvable identifier whose name and identifier no
/// other node has is found in the index: its identifier leads to its type,
/// its name to its identifier, and no other name leads to its identifier.
pub proof fn lemma_index_holds_node(nodes: Seq<Registration>, i: int, n: nat)
    requires
        0 <= i < n <= nodes.len(),
        nodes[i].id != UNRESOLVED@,
        stands_alone(nodes, i),
    ensures
        lookup(index_after(nodes, n).1, nodes[i].id) == Some(nodes[i].kind),
        lookup(index_after(nodes, n).0, nodes[i].dn) == Some(nodes[i].id),
        forall|k: int|
            0 <= k < index_after(nodes, n).0.len() && (#[trigger] index_after(nodes, n).0[k]).1
                == nodes[i].id ==> index_after(nodes, n).0[k].0 == nodes[i].dn,
    decreases n,
{
    let before = index_after(nodes, (n - 1) as nat);
    let last = nodes[n - 1];
    if n - 1 == i {
        assert forall|j: int| 0 <= j < i implies (#[trigger] nodes[j]).id != nodes[i].id by {}
        lemma_identifier_absent(nodes, i as nat, nodes[i].id);
        lemma_registered_node(before.0, before.1, last.dn, last.id, last.kind);
    } else {
        lemma_index_holds_node(nodes, i, (n - 1) as nat);
        assert(nodes[n - 1].dn != nodes[i].dn && nodes[n - 1].id != nodes[i].id);
        lemma_registered_node_stays(
            before.0,
            before.1,
            nodes[i].dn,
            nodes[i].id,
            nodes[i].kind,
            last.dn,
            last.id,
            last.kind,
        );
    }
}

/// The identifier that an `objectSid` value gives.
pub open spec fn with_sid(c: NodeCommonView, raw: Seq<u8>, domain: Seq<char>) -> NodeCommonView {
    NodeCommonView { object_identifier: spec_decode_sid(raw, domain), ..c }
}

/// The identifier of the domain that issued `sid`, or `current` when `sid`
/// does not show one.
pub open spec fn issuing_domain(sid: Seq<char>, current: Seq<char>) -> Seq<char> {
    match spec_domain_sid(sid) {
        Some(d) => d,
        None => current,
    }
}

/// Reads an `objectSid` value into the common part of a node and returns the
/// identifier of the issuing domain, when the value shows one.
pub fn set_sid(common: &mut NodeCommon, raw: &Vec<u8>, domain: &str) -> (issuer: Option<String>)
    ensures
        final(common)@ == with_sid(old(common)@, raw@, domain@),
        match issuer {
            Some(d) => spec_domain_sid(spec_decode_sid(raw@, domain@)) == Some(d@),
            None => spec_domain_sid(spec_decode_sid(raw@, domain@)) is None,
        },
{
    let sid = decode_sid(raw.as_slice(), domain);
    let issuer = domain_sid_of(sid.as_str());
    common.object_identifier = sid;
    issuer
}

/// One reference for each name, in upper case, all of the given type.
pub open spec fn named_members(names: Seq<Seq<char>>, object_type: Seq<char>) -> Seq<MemberView> {
    names.map_values(
        |n: Seq<char>| MemberView { object_identifier: spec_to_uppercase(n), object_type },
    )
}

/// Builds one reference for each name.
pub fn members_from_names(names: &Vec<String>, object_type: &str) -> (members: Vec<Member>)
    ensures
        member_views(members@) == named_members(texts(names@), object_type@),
{
    let mut members: Vec<Member> = Vec::new();
    let mut i: usize = 0;
    while i < names.len()
        invariant
            i <= names.len(),
            members.len() == i,
            forall|j: int|
                0 <= j < i ==> (#[trigger] members@[j])@ == (MemberView {
                    object_identifier: spec_to_uppercase(names@[j]@),
                    object_type: object_type@,
                }),
        decreases names.len() - i,
    {
        let id = upper(names[i].as_str());
        members.push(Member::of(id.as_str(), object_type));
        i += 1;
    }
    assert(member_views(members@) =~= named_members(texts(names@), object_type@));
    members
}

/// Whether one of the references holds `text` in its identifier.
pub open spec fn mentions(members: Seq<MemberView>, text: Seq<char>) -> bool {
    exists|i: int| 0 <= i < members.len(
        ) && contains_seq(#[trigger] members[i].object_identifier,
        text,
    )
}

/// The hosts that the first `n` delegation targets name. A target has the
/// form `service/host`; its host counts, in upper case, unless a host listed
/// before already holds it. A target without a slash is passed over.
pub open spec fn delegation_hosts(targets: Seq<Seq<char>>, n: nat) -> Seq<MemberView>
    decreases n,
{
    if n == 0 {
        Seq::empty()
    } else {
        let before = delegation_hosts(targets, (n - 1) as nat);
        match nth_piece(targets[n - 1], '/', 1) {
            Some(host) => {
                if n <= targets.len() && !mentions(before, spec_to_uppercase(host)) {
                    before.push(
                        MemberView {
                            object_identifier: spec_to_uppercase(spec_to_uppercase(host)),
                            object_type: "Computer"@,
                        },
                    )
                } else {
                    before
                }
            },
            None => before,
        }
    }
}

fn is_mentioned(members: &Vec<Member>, text: &str) -> (r: bool)
    ensures
        r == mentions(member_views(members@), text@),
{
    let mut i: usize = 0;
    while i < members.len()
        invariant
            i <= members.len(),
            forall|j: int|
                0 <= j < i ==> !contains_seq(
                    #[trigger] member_views(members@)[j].object_identifier,
                    text@,
                ),
        decreases members.len() - i,
    {
        if contains(members[i].object_identifier.as_str(), text) {
            assert(member_views(members@)[i as int].object_identifier
                == members@[i as int].object_identifier@);
            return true;
        }
        assert(member_views(members@)[i as int].object_identifier
            == members@[i as int].object_identifier@);
        i += 1;
    }
    false
}

/// Lists the hosts that delegation targets name.
pub fn hosts_from_targets(targets: &Vec<String>) -> (hosts: Vec<Member>)
    ensures
        member_views(hosts@) == delegation_hosts(texts(targets@), targets@.len()),
{
    let mut hosts: Vec<Member> = Vec::new();
    let mut i: usize = 0;
    assert(member_views(hosts@) =~= Seq::<MemberView>::empty());
    while i < targets.len()
        invariant
            i <= targets.len(),
            member_views(hosts@) == delegation_hosts(texts(targets@), i as nat),
        decreases targets.len() - i,
    {
        let ghost before = member_views(hosts@);
        assert(texts(targets@)[i as int] == targets@[i as int]@);
        let t = chars_of(targets[i].as_str());
        match piece(&t, '/', 1) {
            Some(host) => {
                let host_text = string_of(&host);
                let name = upper(host_text.as_str());
                if !is_mentioned(&hosts, name.as_str()) {
                    let id = upper(name.as_str());
                    hosts.push(Member::of(id.as_str(), "Computer"));
                    assert(member_views(hosts@) =~= before.push(
                        MemberView {
                            object_identifier: spec_to_uppercase(spec_to_uppercase(host@)),
                            object_type: "Computer"@,
                        },
                    ));
                }
            },
            None => {},
        }
        i += 1;
    }
    hosts
}

/// The labels of the `DC=` components of a distinguished name, in order.
pub open spec fn dc_labels(dn: Seq<char>) -> Seq<Seq<char>>
    decreases dn.len(),
{
    let first = before_first(dn, ',');
    let here = if has_prefix(first, "DC="@) {
        seq![first.skip(3)]
    } else {
        Seq::empty()
    };
    match after_first(dn, ',') {
        Some(rest) => if rest.len() < dn.len() {
            here + dc_labels(rest)
        } else {
            here
        },
        None => here,
    }
}

/// Labels joined by dots.
pub open spec fn dotted(labels: Seq<Seq<char>>) -> Seq<char>
    decreases labels.len(),
{
    if labels.len() == 0 {
        Seq::empty()
    } else if labels.len() == 1 {
        labels[0]
    } else {
        dotted(labels.drop_last()) + "."@ + labels.last()
    }
}

/// The name of the domain that a distinguished name lies in: the labels of
/// its `DC=` components joined by dots.
pub open spec fn spec_domain_of_dn(dn: Seq<char>) -> Seq<char> {
    dotted(dc_labels(dn))
}

/// Takes the domain name from a distinguished name.
pub fn domain_of_dn(dn: &str) -> (name: String)
    ensures
        name@ == spec_domain_of_dn(dn@),
{
    let d = chars_of(dn);
    let marker = chars_of("DC=");
    proof {
        reveal_strlit("DC=");
        assert(marker@.len() == 3);
    }
    let mut out: Vec<char> = Vec::new();
    let mut any = false;
    let ghost mut labels: Seq<Seq<char>> = Seq::empty();
    let mut start: usize = 0;
    assert(d@.skip(0) =~= d@);
    assert(out@ =~= dotted(labels));
    assert(labels + dc_labels(d@) =~= dc_labels(d@));
    loop
        invariant
            start <= d.len(),
            d@ == dn@,
            marker@ == "DC="@,
            marker@.len() == 3,
            any == (labels.len() > 0),
            out@ == dotted(labels),
            dc_labels(d@) == labels + dc_labels(d@.skip(start as int)),
        decreases d.len() - start,
    {
        let ghost rest = d@.skip(start as int);
        let ghost before = labels;
        let p = position_of(&d, ',', start);
        proof {
            lemma_index_of_skip(d@, ',', start as int, start as int);
        }
        let first = slice_chars(&d, start, p);
        assert(first@ =~= before_first(rest, ','));
        let ghost here: Seq<Seq<char>> = if has_prefix(first@, "DC="@) {
            seq![first@.skip(3)]
        } else {
            Seq::empty()
        };
        if starts_with(&first, &marker) {
            let label = slice_chars(&first, 3, first.len());
            assert(label@ =~= first@.skip(3));
            if any {
                push_str(&mut out, ".");
            }
            push_all(&mut out, &label);
            proof {
                labels = before.push(label@);
                assert(labels.drop_last() =~= before);
                assert(labels.last() == label@);
            }
            any = true;
            assert(out@ =~= dotted(labels));
        }
        assert(labels =~= before + here);
        if p >= d.len() {
            assert(p - start == rest.len());
            assert(after_first(rest, ',') is None);
            assert(dc_labels(rest) == here);
            return string_of(&out);
        }
        assert(rest.skip(p - start + 1) =~= d@.skip(p + 1));
        assert(dc_labels(rest) == here + dc_labels(d@.skip(p + 1)));
        assert(before + (here + dc_labels(d@.skip(p + 1))) =~= (before + here) + dc_labels(
            d@.skip(p + 1),
        ));
        start = p + 1;
    }
}

/// The principals that hold the right `right` among the first `n` entries,
/// as references without type.
pub open spec fn principals_with_right(aces: Seq<AceView>, right: Seq<char>, n: nat) -> Seq<
    MemberView,
>
    decreases n,
{
    if n == 0 {
        Seq::empty()
    } else {
        let before = principals_with_right(aces, right, (n - 1) as nat);
        if n <= aces.len() && aces[n - 1].right_name == right {
            before.push(
                MemberView {
                    object_identifier: aces[n - 1].principal_sid,
                    object_type: Seq::empty(),
                },
            )
        } else {
            before
        }
    }
}

/// Lists the principals that hold a right.
pub fn get_principals_with_right(aces: &Vec<AceTemplate>, right: &str) -> (members: Vec<Member>)
    ensures
        member_views(members@) == principals_with_right(ace_views(aces@), right@, aces@.len()),
{
    let mut members: Vec<Member> = Vec::new();
    let mut i: usize = 0;
    assert(member_views(members@) =~= Seq::<MemberView>::empty());
    while i < aces.len()
        invariant
            i <= aces.len(),
            member_views(members@) == principals_with_right(ace_views(aces@), right@, i as nat),
        decreases aces.len() - i,
    {
        let ghost before = member_views(members@);
        assert(ace_views(aces@)[i as int] == aces@[i as int]@);
        if str_eq(aces[i].right_name.as_str(), right) {
            members.push(Member::of(aces[i].principal_sid.as_str(), ""));
            proof {
                reveal_strlit("");
                assert(""@ =~= Seq::<char>::empty());
                assert(member_views(members@) =~= before.push(
                    MemberView {
                        object_identifier: aces@[i as int].principal_sid@,
                        object_type: Seq::empty(),
                    },
                ));
            }
        }
        i += 1;
    }
    members
}

/// The principals that a descriptor in the attribute
/// `msDS-AllowedToActOnBehalfOfOtherIdentity` lets act on behalf of others:
/// those it grants everything.
pub open spec fn acting_principals(raw: Seq<u8>, domain: Seq<char>) -> Seq<MemberView> {
    principals_with_right(
        spec_descriptor_entries(raw, "Computer"@, domain),
        "GenericAll"@,
        spec_descriptor_entries(raw, "Computer"@, domain).len(),
    )
}

/// Reads the principals that may act on behalf of others.
pub fn get_acting_principals(raw: &Vec<u8>, domain: &str) -> (members: Vec<Member>)
    ensures
        member_views(members@) == acting_principals(raw@, domain@),
{
    let descriptor = parse_ntsecuritydescriptor(raw.as_slice(), "Computer", domain);
    get_principals_with_right(&descriptor.aces, "GenericAll")
}

/// The identifier of a primary group: the account's identifier without its
/// last number, followed by the number of the group. Empty when the
/// account's identifier has no such part.
pub open spec fn spec_primary_group(account: Seq<char>, group: Seq<char>) -> Seq<char> {
    match spec_sid_prefix(account) {
        Some(prefix) => prefix + group,
        None => Seq::empty(),
    }
}

/// Builds the identifier of a primary group.
pub fn primary_group(account: &str, group: &str) -> (r: String)
    ensures
        r@ == spec_primary_group(account@, group@),
{
    match sid_prefix(account) {
        Some(prefix) => concat2(prefix.as_str(), group),
        None => String::new(),
    }
}

/// The encryption types that an `msDS-SupportedEncryptionTypes` value names;
/// a value that is no number counts as 0.
pub open spec fn spec_encryption_types(text: Seq<char>) -> Seq<Seq<char>> {
    spec_convert_encryption_types(
        (match spec_parse_i32(text) {
            Some(n) => n,
            None => 0i32,
        }) as u32,
    )
}

/// Reads an `msDS-SupportedEncryptionTypes` value.
pub fn encryption_types(text: &str) -> (r: Vec<String>)
    ensures
        texts(r@) == spec_encryption_types(text@),
{
    let n: i32 = match parse_i32(text) {
        Some(n) => n,
        None => 0,
    };
    convert_encryption_types(n)
}

/// The number that a text gives, or 0 when it gives none.
pub open spec fn spec_i64_or_zero(text: Seq<char>) -> i64 {
    match spec_parse_i64(text) {
        Some(n) => n,
        None => 0i64,
    }
}

/// Reads a number, taking anything else for 0.
pub fn i64_or_zero(text: &str) -> (r: i64)
    ensures
        r == spec_i64_or_zero(text@),
{
    match parse_i64(text) {
        Some(n) => n,
        None => 0,
    }
}

/// The number that a text gives, or 0 when it gives none.
pub open spec fn spec_i32_or_zero(text: Seq<char>) -> i32 {
    match spec_parse_i32(text) {
        Some(n) => n,
        None => 0i32,
    }
}

/// Reads a number, taking anything else for 0.
pub fn i32_or_zero(text: &str) -> (r: i32)
    ensures
        r == spec_i32_or_zero(text@),
{
    match parse_i32(text) {
        Some(n) => n,
        None => 0,
    }
}

/// The wording of the time span that a text gives in 100 ns intervals.
pub open spec fn spec_span(text: Seq<char>) -> Seq<char> {
    spec_span_to_string(spec_i64_or_zero(text) as int)
}

/// Words the time span that a text gives.
pub fn span(text: &str) -> (r: String)
    ensures
        r@ == spec_span(text@),
{
    span_to_string(i64_or_zero(text))
}

/// The host-name-to-address map after a computer is decoded: the computer's
/// name leads to an empty address, to be filled in by name resolution, unless
/// the computer's identifier is the unresolved marker.
pub open spec fn seeded_address(fqdn_ip: Entries, name: Seq<char>, id: Seq<char>) -> Entries {
    if id == UNRESOLVED@ {
        fqdn_ip
    } else {
        inserted(fqdn_ip, name, Seq::empty())
    }
}

/// Enters a decoded computer in the host-name maps.
pub fn register_host(fqdn_sid: &mut StringMap, fqdn_ip: &mut StringMap, name: &str, id: &str)
    ensures
        final(fqdn_sid)@ == registered_dn(old(fqdn_sid)@, name@, id@),
        final(fqdn_ip)@ == seeded_address(old(fqdn_ip)@, name@, id@),
{
    if !str_eq(id, UNRESOLVED) {
        fqdn_sid.insert(String::from_str(name), String::from_str(id));
        fqdn_ip.insert(String::from_str(name), String::new());
    }
}

/// The port of a database service whose name gives none.
pub const DEFAULT_SQL_PORT: i64 = 1433;

/// The database service that a service principal name stands for, when it
/// names one: `MSSQLSvc/host:port` gives the host in upper case and the port,
/// 1433 when the port is missing or no number.
pub open spec fn sql_target(spn: Seq<char>) -> Option<SPNTargetView> {
    if contains_seq(spn, "MSSQLSvc"@) {
        match nth_piece(spn, '/', 1) {
            Some(target) => Some(
                SPNTargetView {
                    computer_sid: spec_to_uppercase(before_first(target, ':')),
                    port: match after_first(target, ':') {
                        Some(port) => match spec_parse_i64(port) {
                            Some(n) => n,
                            None => DEFAULT_SQL_PORT,
                        },
                        None => DEFAULT_SQL_PORT,
                    },
                    service: "SQLAdmin"@,
                },
            ),
            None => None,
        }
    } else {
        None
    }
}

/// The database services among the first `n` service principal names.
pub open spec fn sql_targets(spns: Seq<Seq<char>>, n: nat) -> Seq<SPNTargetView>
    decreases n,
{
    if n == 0 {
        Seq::empty()
    } else {
        let before = sql_targets(spns, (n - 1) as nat);
        match sql_target(spns[n - 1]) {
            Some(t) => if n <= spns.len() {
                before.push(t)
            } else {
                before
            },
            None => before,
        }
    }
}

/// Reads the database service that a service principal name stands for.
pub fn get_sql_target(spn: &str) -> (r: Option<SPNTarget>)
    ensures
        match r {
            Some(t) => sql_target(spn@) == Some(t@),
            None => sql_target(spn@) is None,
        },
{
    if !contains(spn, "MSSQLSvc") {
        return None;
    }
    let s = chars_of(spn);
    match piece(&s, '/', 1) {
        Some(target) => {
            let colon = position_of(&target, ':', 0);
            let host = string_of_range(&target, 0, colon);
            assert(target@.subrange(0, colon as int) =~= before_first(target@, ':'));
            let port: i64 = if colon < target.len() {
                let text = string_of_range(&target, colon + 1, target.len());
                assert(target@.subrange(colon + 1, target@.len() as int) =~= target@.skip(
                    colon + 1,
                ));
                match parse_i64(text.as_str()) {
                    Some(n) => n,
                    None => DEFAULT_SQL_PORT,
                }
            } else {
                DEFAULT_SQL_PORT
            };
            Some(
                SPNTarget {
                    computer_sid: upper(host.as_str()),
                    port,
                    service: String::from_str("SQLAdmin"),
                },
            )
        },
        None => None,
    }
}

/// Lists the database services that service principal names stand for.
pub fn get_sql_targets(spns: &Vec<String>) -> (targets: Vec<SPNTarget>)
    ensures
        spn_views(targets@) == sql_targets(texts(spns@), spns@.len()),
{
    let mut targets: Vec<SPNTarget> = Vec::new();
    let mut i: usize = 0;
    assert(spn_views(targets@) =~= Seq::<SPNTargetView>::empty());
    while i < spns.len()
        invariant
            i <= spns.len(),
            spn_views(targets@) == sql_targets(texts(spns@), i as nat),
        decreases spns.len() - i,
    {
        let ghost before = spn_views(targets@);
        assert(texts(spns@)[i as int] == spns@[i as int]@);
        match get_sql_target(spns[i].as_str()) {
            Some(t) => {
                let ghost view = t@;
                targets.push(t);
                assert(spn_views(targets@) =~= before.push(view));
            },
            None => {},
        }
        i += 1;
    }
    targets
}

} // verus!
