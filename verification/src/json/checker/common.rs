//! The passes of the relationship resolver, one function each.

use crate::enums::ldaptype::Type;
use crate::enums::sid::{domain_sid_of, find_first_sid, first_sid, spec_domain_sid};
use crate::ldap::{prepare_ldap_dc, spec_ldap_dc};
use crate::mappings::{key_of_value, lookup, lookup_or, Entries, StringMap};
use crate::objects::certtemplate::{CertTemplate, CertTemplateView};
use crate::objects::common::{
    bare_node, empty_gpo_change, member_views, AceView, GPOChange, GPOChangeView, LdapObject,
    LinkView, Member, MemberView, NodeCommon, NodeCommonView, SPNTargetView,
};
use crate::objects::computer::{Computer, ComputerView};
use crate::objects::domain::{Domain, DomainProperties, DomainPropertiesView, DomainView};
use crate::objects::enterpriseca::{EnterpriseCA, EnterpriseCAView};
use crate::objects::group::{Group, GroupProperties, GroupPropertiesView, GroupView};
use crate::objects::ou::{Ou, OuView};
use crate::objects::trust::{trust_views, Trust, TrustView};
use crate::objects::user::{User, UserProperties, UserPropertiesView, UserView};
use crate::objects::UNRESOLVED;
use crate::text::{
    after_first, before_first, chars_of, concat2, contains, contains_seq, find_from, find_seq,
    lemma_find_seq, lemma_index_of_is, nth_piece, occurs_at, piece, position_of, push_str,
    slice_chars, spec_to_uppercase, str_eq, string_of, string_of_range, texts, upper,
};
use crate::utils::format::{domain_to_dc, spec_domain_to_dc};
use vstd::prelude::*;
use vstd::string::*;

verus! {

/// The type given to a principal or a group member that the index does not
/// know.
pub const DEFAULT_PRINCIPAL_TYPE: &'static str = "Group";

/// The type given to a delegation principal that the index does not know.
pub const DEFAULT_DELEGATE_TYPE: &'static str = "Computer";

/// What stands for a value that the index does not hold.
pub const MISSING: &'static str = "NULL";

/// The first component of a distinguished name: `CN=G0H4N` for
/// `CN=G0H4N,CN=USERS,DC=ESSOS,DC=LOCAL`.
pub open spec fn spec_cn_object_name(dn: Seq<char>) -> Seq<char> {
    before_first(dn, ',')
}

/// The value of the first component of a distinguished name: `G0H4N` for
/// `CN=G0H4N,CN=USERS,DC=ESSOS,DC=LOCAL`; empty when the component has no `=`.
pub open spec fn spec_name_from_dn(dn: Seq<char>) -> Seq<char> {
    match nth_piece(before_first(dn, ','), '=', 1) {
        Some(name) => name,
        None => Seq::empty(),
    }
}

/// What follows the first occurrence of `cn_name` and a comma in `dn`: the
/// distinguished name of the parent when `cn_name` is the first component.
/// Empty when `dn` does not hold `cn_name` followed by a comma.
pub open spec fn spec_contained_by_name(cn_name: Seq<char>, dn: Seq<char>) -> Seq<char> {
    match find_seq(dn, cn_name + ","@, 0) {
        Some(i) => dn.skip(i + cn_name.len() + 1),
        None => Seq::empty(),
    }
}

/// The value of the first component of a distinguished name.
pub fn get_name_from_full_distinguishedname(dn_object: &str) -> (name: String)
    ensures
        name@ == spec_name_from_dn(dn_object@),
{
    let d = chars_of(dn_object);
    let p = position_of(&d, ',', 0);
    let first = slice_chars(&d, 0, p);
    assert(first@ =~= before_first(d@, ','));
    match piece(&first, '=', 1) {
        Some(name) => string_of(&name),
        None => String::new(),
    }
}

/// The first component of a distinguished name.
pub fn get_cn_object_name_from_full_distinguishedname(dn_object: &str) -> (name: String)
    ensures
        name@ == spec_cn_object_name(dn_object@),
{
    let d = chars_of(dn_object);
    let p = position_of(&d, ',', 0);
    assert(d@.subrange(0, p as int) =~= before_first(d@, ','));
    string_of_range(&d, 0, p)
}

/// The distinguished name of the object that contains `dn_object`, whose
/// first component is `cn_name`.
pub fn get_contained_by_name_from_distinguishedname(cn_name: &str, dn_object: &str) -> (parent:
    String)
    ensures
        parent@ == spec_contained_by_name(cn_name@, dn_object@),
{
    let d = chars_of(dn_object);
    let mut pattern = chars_of(cn_name);
    push_str(&mut pattern, ",");
    let found = find_from(&d, &pattern, 0);
    proof {
        lemma_find_seq(d@, pattern@, 0);
        reveal_strlit(",");
        assert(","@.len() == 1);
    }
    match found {
        Some(i) => {
            assert(occurs_at(d@, pattern@, i as int));
            let end: usize = d.len();
            let start: usize = i + pattern.len();
            assert(d@.subrange(start as int, d@.len() as int) =~= d@.skip(i + cn_name@.len() + 1));
            string_of_range(&d, start, end)
        },
        None => String::new(),
    }
}

/// A reference to `id` with its type looked up in the identifier-to-type map.
pub open spec fn typed_member(id: Seq<char>, sid_type: Entries, default: Seq<char>) -> MemberView {
    MemberView { object_identifier: id, object_type: lookup_or(sid_type, id, default) }
}

/// Builds a reference to `id` with its type looked up in `sid_type`.
pub fn make_typed_member(id: &str, sid_type: &StringMap, default: &str) -> (m: Member)
    ensures
        m@ == typed_member(id@, sid_type@, default@),
{
    match sid_type.get(id) {
        Some(t) => Member::of(id, t.as_str()),
        None => Member::of(id, default),
    }
}

/// The identifier that a host name stands for: the one the host-name map
/// gives, or the name itself when the map does not know it.
pub open spec fn host_resolved(fqdn_sid: Entries, host: Seq<char>) -> Seq<char> {
    lookup_or(fqdn_sid, host, host)
}

/// A service target with its host name replaced by the host's identifier.
pub open spec fn spn_resolved(t: SPNTargetView, fqdn_sid: Entries) -> SPNTargetView {
    SPNTargetView { computer_sid: host_resolved(fqdn_sid, t.computer_sid), ..t }
}

/// A delegation target with its host name replaced by the host's identifier.
pub open spec fn delegate_resolved(m: MemberView, fqdn_sid: Entries) -> MemberView {
    MemberView { object_identifier: host_resolved(fqdn_sid, m.object_identifier), ..m }
}

/// A node with its delegation targets resolved: service targets and
/// delegation targets for a user, delegation targets for a computer, nothing
/// for any other type.
pub open spec fn delegation_resolved(
    c: NodeCommonView,
    object_type: Type,
    fqdn_sid: Entries,
) -> NodeCommonView {
    match object_type {
        Type::User => NodeCommonView {
            spn_targets: c.spn_targets.map_values(|t: SPNTargetView| spn_resolved(t, fqdn_sid)),
            allowed_to_delegate: c.allowed_to_delegate.map_values(
                |m: MemberView| delegate_resolved(m, fqdn_sid),
            ),
            ..c
        },
        Type::Computer => NodeCommonView {
            allowed_to_delegate: c.allowed_to_delegate.map_values(
                |m: MemberView| delegate_resolved(m, fqdn_sid),
            ),
            ..c
        },
        _ => c,
    }
}

fn resolve_host(fqdn_sid: &StringMap, host: &String) -> (id: String)
    ensures
        id@ == host_resolved(fqdn_sid@, host@),
{
    match fqdn_sid.get(host.as_str()) {
        Some(sid) => sid.clone(),
        None => host.clone(),
    }
}

fn resolve_delegates(common: &mut NodeCommon, fqdn_sid: &StringMap)
    ensures
        final(common)@ == (NodeCommonView {
            allowed_to_delegate: old(common)@.allowed_to_delegate.map_values(
                |m: MemberView| delegate_resolved(m, fqdn_sid@),
            ),
            ..old(common)@
        }),
{
    let mut i: usize = 0;
    while i < common.allowed_to_delegate.len()
        invariant
            i <= common.allowed_to_delegate.len(),
            common.allowed_to_delegate.len() == old(common).allowed_to_delegate.len(),
            *common == (NodeCommon {
                allowed_to_delegate: common.allowed_to_delegate,
                ..*old(common)
            }),
            forall|j: int|
                0 <= j < i ==> (#[trigger] common.allowed_to_delegate@[j])@ == delegate_resolved(
                    old(common).allowed_to_delegate@[j]@,
                    fqdn_sid@,
                ),
            forall|j: int|
                i <= j < common.allowed_to_delegate.len() ==> common.allowed_to_delegate@[j]
                    == old(common).allowed_to_delegate@[j],
        decreases common.allowed_to_delegate.len() - i,
    {
        let id = resolve_host(fqdn_sid, &common.allowed_to_delegate[i].object_identifier);
        common.allowed_to_delegate[i].object_identifier = id;
        i += 1;
    }
    assert(common@.allowed_to_delegate =~= old(common)@.allowed_to_delegate.map_values(
        |m: MemberView| delegate_resolved(m, fqdn_sid@),
    ));
}

fn resolve_spn_targets(common: &mut NodeCommon, fqdn_sid: &StringMap)
    ensures
        final(common)@ == (NodeCommonView {
            spn_targets: old(common)@.spn_targets.map_values(
                |t: SPNTargetView| spn_resolved(t, fqdn_sid@),
            ),
            ..old(common)@
        }),
{
    let mut i: usize = 0;
    while i < common.spn_targets.len()
        invariant
            i <= common.spn_targets.len(),
            common.spn_targets.len() == old(common).spn_targets.len(),
            *common == (NodeCommon { spn_targets: common.spn_targets, ..*old(common) }),
            forall|j: int|
                0 <= j < i ==> (#[trigger] common.spn_targets@[j])@ == spn_resolved(
                    old(common).spn_targets@[j]@,
                    fqdn_sid@,
                ),
            forall|j: int|
                i <= j < common.spn_targets.len() ==> common.spn_targets@[j]
                    == old(common).spn_targets@[j],
        decreases common.spn_targets.len() - i,
    {
        let id = resolve_host(fqdn_sid, &common.spn_targets[i].computer_sid);
        common.spn_targets[i].computer_sid = id;
        i += 1;
    }
    assert(common@.spn_targets =~= old(common)@.spn_targets.map_values(
        |t: SPNTargetView| spn_resolved(t, fqdn_sid@),
    ));
}

/// Resolves the delegation targets of one node.
pub fn resolve_delegation(common: &mut NodeCommon, object_type: Type, fqdn_sid: &StringMap)
    ensures
        final(common)@ == delegation_resolved(old(common)@, object_type, fqdn_sid@),
{
    match object_type {
        Type::User => {
            resolve_spn_targets(common, fqdn_sid);
            resolve_delegates(common, fqdn_sid);
        },
        Type::Computer => {
            resolve_delegates(common, fqdn_sid);
        },
        _ => {},
    }
}

/// Replaces host names by identifiers in the delegation targets of users or
/// computers. A name that the host-name map does not know stays as it is.
pub fn replace_fqdn_by_sid<T: LdapObject>(
    object_type: Type,
    vec_src: &mut Vec<T>,
    fqdn_sid: &StringMap,
)
    ensures
        final(vec_src)@.len() == old(vec_src)@.len(),
        forall|i: int|
            0 <= i < old(vec_src)@.len() ==> (#[trigger] final(vec_src)@[i]).common_spec()@
                == delegation_resolved(old(vec_src)@[i].common_spec()@, object_type, fqdn_sid@)
                && final(vec_src)@[i].rest() == old(vec_src)@[i].rest(),
{
    let mut i: usize = 0;
    while i < vec_src.len()
        invariant
            i <= vec_src.len(),
            vec_src@.len() == old(vec_src)@.len(),
            forall|j: int|
                0 <= j < i ==> (#[trigger] vec_src@[j]).common_spec()@ == delegation_resolved(
                    old(vec_src)@[j].common_spec()@,
                    object_type,
                    fqdn_sid@,
                ) && vec_src@[j].rest() == old(vec_src)@[j].rest(),
            forall|j: int| i <= j < vec_src@.len() ==> vec_src@[j] == old(vec_src)@[j],
        decreases vec_src.len() - i,
    {
        resolve_delegation(vec_src[i].common_mut(), object_type, fqdn_sid);
        i += 1;
    }
}

/// An entry with its principal's type looked up in the identifier-to-type
/// map; `Group` when the principal is not indexed.
pub open spec fn ace_typed(a: AceView, sid_type: Entries) -> AceView {
    AceView { principal_type: lookup_or(sid_type, a.principal_sid, DEFAULT_PRINCIPAL_TYPE@), ..a }
}

/// A node with the principal type of every entry looked up.
pub open spec fn aces_typed(c: NodeCommonView, sid_type: Entries) -> NodeCommonView {
    NodeCommonView { aces: c.aces.map_values(|a: AceView| ace_typed(a, sid_type)), ..c }
}

/// Fills in the principal type of every access control entry of one node.
pub fn type_aces(common: &mut NodeCommon, sid_type: &StringMap)
    ensures
        final(common)@ == aces_typed(old(common)@, sid_type@),
{
    let mut i: usize = 0;
    while i < common.aces.len()
        invariant
            i <= common.aces.len(),
            common.aces.len() == old(common).aces.len(),
            *common == (NodeCommon { aces: common.aces, ..*old(common) }),
            forall|j: int|
                0 <= j < i ==> (#[trigger] common.aces@[j])@ == ace_typed(
                    old(common).aces@[j]@,
                    sid_type@,
                ),
            forall|j: int| i <= j < common.aces.len() ==> common.aces@[j] == old(common).aces@[j],
        decreases common.aces.len() - i,
    {
        let found = match sid_type.get(common.aces[i].principal_sid.as_str()) {
            Some(t) => t.clone(),
            None => String::from_str(DEFAULT_PRINCIPAL_TYPE),
        };
        common.aces[i].principal_type = found;
        i += 1;
    }
    assert(common@.aces =~= aces_typed(old(common)@, sid_type@).aces);
}

/// Fills in the principal type of every access control entry of every node,
/// from the identifier-to-type map. An unknown principal is taken for a group.
pub fn add_type_for_ace<T: LdapObject>(object: &mut Vec<T>, sid_type: &StringMap)
    ensures
        final(object)@.len() == old(object)@.len(),
        forall|i: int|
            0 <= i < old(object)@.len() ==> (#[trigger] final(object)@[i]).common_spec()@
                == aces_typed(old(object)@[i].common_spec()@, sid_type@) && final(object)@[i].rest()
                == old(object)@[i].rest(),
{
    let mut i: usize = 0;
    while i < object.len()
        invariant
            i <= object.len(),
            object@.len() == old(object)@.len(),
            forall|j: int|
                0 <= j < i ==> (#[trigger] object@[j]).common_spec()@ == aces_typed(
                    old(object)@[j].common_spec()@,
                    sid_type@,
                ) && object@[j].rest() == old(object)@[j].rest(),
            forall|j: int| i <= j < object@.len() ==> object@[j] == old(object)@[j],
        decreases object.len() - i,
    {
        type_aces(object[i].common_mut(), sid_type);
        i += 1;
    }
}

/// Looking up the principal types a second time changes nothing: the type of
/// an entry depends on its principal and on the index alone.
pub proof fn lemma_ace_typing_idempotent(c: NodeCommonView, sid_type: Entries)
    ensures
        aces_typed(aces_typed(c, sid_type), sid_type) == aces_typed(c, sid_type),
{
    assert(aces_typed(aces_typed(c, sid_type), sid_type).aces =~= aces_typed(c, sid_type).aces);
}

/// A delegation principal with its type looked up; `Computer` when the
/// principal is not indexed.
pub open spec fn allowed_typed(m: MemberView, sid_type: Entries) -> MemberView {
    typed_member(m.object_identifier, sid_type, DEFAULT_DELEGATE_TYPE@)
}

/// Fills in the type of every principal that may act on behalf of others
/// towards a computer. An unknown principal is taken for a computer.
pub fn add_type_for_allowtedtoact(computer: &mut Vec<Computer>, sid_type: &StringMap)
    ensures
        final(computer)@.len() == old(computer)@.len(),
        forall|i: int|
            0 <= i < old(computer)@.len() ==> (#[trigger] final(computer)@[i])@ == (
            crate::objects::computer::ComputerView {
                allowed_to_act: old(computer)@[i]@.allowed_to_act.map_values(
                    |m: MemberView| allowed_typed(m, sid_type@),
                ),
                ..old(computer)@[i]@
            }),
{
    let mut i: usize = 0;
    while i < computer.len()
        invariant
            i <= computer.len(),
            computer@.len() == old(computer)@.len(),
            forall|j: int|
                0 <= j < i ==> (#[trigger] computer@[j])@ == (
                crate::objects::computer::ComputerView {
                    allowed_to_act: old(computer)@[j]@.allowed_to_act.map_values(
                        |m: MemberView| allowed_typed(m, sid_type@),
                    ),
                    ..old(computer)@[j]@
                }),
            forall|j: int| i <= j < computer@.len() ==> computer@[j] == old(computer)@[j],
        decreases computer.len() - i,
    {
        let ghost before = computer@[i as int];
        let mut k: usize = 0;
        while k < computer[i].allowed_to_act.len()
            invariant
                i < computer.len(),
                computer@.len() == old(computer)@.len(),
                k <= computer@[i as int].allowed_to_act.len(),
                computer@[i as int].allowed_to_act.len() == before.allowed_to_act.len(),
                computer@[i as int] == (Computer {
                    allowed_to_act: computer@[i as int].allowed_to_act,
                    ..before
                }),
                forall|j: int|
                    0 <= j < i ==> (#[trigger] computer@[j])@ == (
                    crate::objects::computer::ComputerView {
                        allowed_to_act: old(computer)@[j]@.allowed_to_act.map_values(
                            |m: MemberView| allowed_typed(m, sid_type@),
                        ),
                        ..old(computer)@[j]@
                    }),
                forall|j: int| i < j < computer@.len() ==> computer@[j] == old(computer)@[j],
                forall|j: int|
                    0 <= j < k ==> (#[trigger] computer@[i as int].allowed_to_act@[j])@
                        == allowed_typed(before.allowed_to_act@[j]@, sid_type@),
                forall|j: int|
                    k <= j < before.allowed_to_act.len() ==> computer@[i as int].allowed_to_act@[j]
                        == before.allowed_to_act@[j],
            decreases computer@[i as int].allowed_to_act.len() - k,
        {
            let principal = computer[i].allowed_to_act[k].object_identifier.as_str();
            let found = match sid_type.get(principal) {
                Some(t) => t.clone(),
                None => String::from_str(DEFAULT_DELEGATE_TYPE),
            };
            computer[i].allowed_to_act[k].object_type = found;
            k += 1;
        }
        assert(computer@[i as int]@.allowed_to_act =~= before@.allowed_to_act.map_values(
            |m: MemberView| allowed_typed(m, sid_type@),
        ));
        i += 1;
    }
}

/// The parent of a node as the index gives it: the node's distinguished name
/// is the first one stored with its identifier, the parent's is what follows
/// the first component, and the parent is the node stored under that name.
/// Domains have no parent; a node or a parent that the index does not know
/// leaves `contained_by` as it is.
pub open spec fn container_of(
    c: NodeCommonView,
    dn_sid: Entries,
    sid_type: Entries,
) -> Option<MemberView> {
    match key_of_value(dn_sid, c.object_identifier) {
        None => c.contained_by,
        Some(dn) => {
            if lookup_or(sid_type, c.object_identifier, DEFAULT_PRINCIPAL_TYPE@) == "Domain"@ {
                c.contained_by
            } else {
                match lookup(dn_sid, spec_contained_by_name(spec_cn_object_name(dn), dn)) {
                    Some(parent) => Some(typed_member(parent, sid_type, DEFAULT_PRINCIPAL_TYPE@)),
                    None => c.contained_by,
                }
            }
        },
    }
}

/// A node with its parent filled in.
pub open spec fn with_container(
    c: NodeCommonView,
    dn_sid: Entries,
    sid_type: Entries,
) -> NodeCommonView {
    NodeCommonView { contained_by: container_of(c, dn_sid, sid_type), ..c }
}

/// Fills in the parent of one node.
pub fn set_container(common: &mut NodeCommon, dn_sid: &StringMap, sid_type: &StringMap)
    ensures
        final(common)@ == with_container(old(common)@, dn_sid@, sid_type@),
{
    let position = dn_sid.position_of_value(common.object_identifier.as_str());
    match position {
        None => {},
        Some(at) => {
            let is_domain = match sid_type.get(common.object_identifier.as_str()) {
                Some(t) => str_eq(t.as_str(), "Domain"),
                None => str_eq(DEFAULT_PRINCIPAL_TYPE, "Domain"),
            };
            if !is_domain {
                let dn = dn_sid.key(at);
                let cn_name = get_cn_object_name_from_full_distinguishedname(dn.as_str());
                let parent_dn = get_contained_by_name_from_distinguishedname(
                    cn_name.as_str(),
                    dn.as_str(),
                );
                match dn_sid.get(parent_dn.as_str()) {
                    Some(parent) => {
                        let m = make_typed_member(
                            parent.as_str(),
                            sid_type,
                            DEFAULT_PRINCIPAL_TYPE,
                        );
                        common.contained_by = Some(m);
                    },
                    None => {},
                }
            }
        },
    }
}

/// Fills in the parent of every node from the index. Domains are left alone.
pub fn add_contained_by_for<T: LdapObject>(
    vec_replaced: &mut Vec<T>,
    dn_sid: &StringMap,
    sid_type: &StringMap,
)
    ensures
        final(vec_replaced)@.len() == old(vec_replaced)@.len(),
        forall|i: int|
            0 <= i < old(vec_replaced)@.len() ==> (#[trigger] final(vec_replaced)@[i]).common_spec()@
                == with_container(old(vec_replaced)@[i].common_spec()@, dn_sid@, sid_type@)
                && final(vec_replaced)@[i].rest() == old(vec_replaced)@[i].rest(),
{
    let mut i: usize = 0;
    while i < vec_replaced.len()
        invariant
            i <= vec_replaced.len(),
            vec_replaced@.len() == old(vec_replaced)@.len(),
            forall|j: int|
                0 <= j < i ==> (#[trigger] vec_replaced@[j]).common_spec()@ == with_container(
                    old(vec_replaced)@[j].common_spec()@,
                    dn_sid@,
                    sid_type@,
                ) && vec_replaced@[j].rest() == old(vec_replaced)@[j].rest(),
            forall|j: int|
                i <= j < vec_replaced@.len() ==> vec_replaced@[j] == old(vec_replaced)@[j],
        decreases vec_replaced.len() - i,
    {
        set_container(vec_replaced[i].common_mut(), dn_sid, sid_type);
        i += 1;
    }
}

/// The value of the second component of a distinguished name: `USERS` for
/// `CN=G0H4N,CN=USERS,DC=ESSOS,DC=LOCAL`.
pub open spec fn parent_name(dn: Seq<char>) -> Option<Seq<char>> {
    match nth_piece(dn, ',', 1) {
        Some(component) => nth_piece(component, '=', 1),
        None => None,
    }
}

/// Whether the index entry with the distinguished name `entry_dn` stands
/// directly below the node with the distinguished name `node_dn` and the
/// relative name `node_name`: in upper case it holds `node_dn`, is not
/// `node_dn` itself, and the value of its second component is `node_name`.
pub open spec fn is_direct_child(
    entry_dn: Seq<char>,
    node_dn: Seq<char>,
    node_name: Seq<char>,
) -> bool {
    let entry_upper = spec_to_uppercase(entry_dn);
    contains_seq(entry_upper, node_dn) && entry_upper != node_dn && parent_name(entry_upper)
        == Some(node_name)
}

/// The value of the second component of a distinguished name.
pub fn get_parent_name(dn: &str) -> (r: Option<String>)
    ensures
        match r {
            Some(name) => parent_name(dn@) == Some(name@),
            None => parent_name(dn@) is None,
        },
{
    let d = chars_of(dn);
    match piece(&d, ',', 1) {
        Some(component) => match piece(&component, '=', 1) {
            Some(name) => Some(string_of(&name)),
            None => None,
        },
        None => None,
    }
}

fn check_direct_child(entry_dn: &str, node_dn: &str, node_name: &str) -> (r: bool)
    ensures
        r == is_direct_child(entry_dn@, node_dn@, node_name@),
{
    let entry_upper = upper(entry_dn);
    if !contains(entry_upper.as_str(), node_dn) || str_eq(entry_upper.as_str(), node_dn) {
        return false;
    }
    match get_parent_name(entry_upper.as_str()) {
        Some(name) => str_eq(name.as_str(), node_name),
        None => false,
    }
}

/// The distinguished name under which the index holds a node: the first one
/// stored with the node's identifier in upper case, or `NULL`.
pub open spec fn own_dn(dn_sid: Entries, id: Seq<char>) -> Seq<char> {
    match key_of_value(dn_sid, spec_to_uppercase(id)) {
        Some(dn) => dn,
        None => MISSING@,
    }
}

/// The direct children of a node among the first `n` entries of the index, in
/// index order. An entry with an empty identifier is passed over; a child of
/// unknown type gets the type `NULL`.
pub open spec fn children_among(
    dn_sid: Entries,
    sid_type: Entries,
    node_dn: Seq<char>,
    node_name: Seq<char>,
    n: nat,
) -> Seq<MemberView>
    decreases n,
{
    if n == 0 {
        Seq::empty()
    } else {
        let before = children_among(dn_sid, sid_type, node_dn, node_name, (n - 1) as nat);
        let e = dn_sid[n - 1];
        if n <= dn_sid.len() && is_direct_child(e.0, node_dn, node_name) && e.1.len() > 0 {
            before.push(typed_member(e.1, sid_type, MISSING@))
        } else {
            before
        }
    }
}

/// A node with its direct children listed.
pub open spec fn with_children(
    c: NodeCommonView,
    dn_sid: Entries,
    sid_type: Entries,
) -> NodeCommonView {
    let dn = own_dn(dn_sid, c.object_identifier);
    NodeCommonView {
        child_objects: children_among(dn_sid, sid_type, dn, spec_name_from_dn(dn), dn_sid.len()),
        ..c
    }
}

/// Lists the direct children of one node.
pub fn set_children(common: &mut NodeCommon, dn_sid: &StringMap, sid_type: &StringMap)
    ensures
        final(common)@ == with_children(old(common)@, dn_sid@, sid_type@),
{
    let sid = upper(common.object_identifier.as_str());
    let dn: String = match dn_sid.position_of_value(sid.as_str()) {
        Some(at) => dn_sid.key(at).clone(),
        None => String::from_str(MISSING),
    };
    let name = get_name_from_full_distinguishedname(dn.as_str());
    let mut members: Vec<Member> = Vec::new();
    let total: usize = dn_sid.len();
    let mut i: usize = 0;
    assert(member_views(members@) =~= Seq::<MemberView>::empty());
    while i < total
        invariant
            i <= total,
            total == dn_sid@.len(),
            member_views(members@) == children_among(dn_sid@, sid_type@, dn@, name@, i as nat),
        decreases total - i,
    {
        let ghost before = member_views(members@);
        let entry_dn = dn_sid.key(i);
        let value = dn_sid.value(i);
        if check_direct_child(entry_dn.as_str(), dn.as_str(), name.as_str())
            && !value.as_str().is_empty() {
            members.push(make_typed_member(value.as_str(), sid_type, MISSING));
            assert(member_views(members@) =~= before.push(
                typed_member(value@, sid_type@, MISSING@),
            ));
        }
        i += 1;
    }
    common.child_objects = members;
}

/// Lists the direct children of every node: every entry of the index whose
/// parent component names the node.
pub fn add_childobjects_members<T: LdapObject>(
    vec_replaced: &mut Vec<T>,
    dn_sid: &StringMap,
    sid_type: &StringMap,
)
    ensures
        final(vec_replaced)@.len() == old(vec_replaced)@.len(),
        forall|i: int|
            0 <= i < old(vec_replaced)@.len() ==> (#[trigger] final(vec_replaced)@[i]).common_spec()@
                == with_children(old(vec_replaced)@[i].common_spec()@, dn_sid@, sid_type@)
                && final(vec_replaced)@[i].rest() == old(vec_replaced)@[i].rest(),
{
    let mut i: usize = 0;
    while i < vec_replaced.len()
        invariant
            i <= vec_replaced.len(),
            vec_replaced@.len() == old(vec_replaced)@.len(),
            forall|j: int|
                0 <= j < i ==> (#[trigger] vec_replaced@[j]).common_spec()@ == with_children(
                    old(vec_replaced)@[j].common_spec()@,
                    dn_sid@,
                    sid_type@,
                ) && vec_replaced@[j].rest() == old(vec_replaced)@[j].rest(),
            forall|j: int|
                i <= j < vec_replaced@.len() ==> vec_replaced@[j] == old(vec_replaced)@[j],
        decreases vec_replaced.len() - i,
    {
        set_children(vec_replaced[i].common_mut(), dn_sid, sid_type);
        i += 1;
    }
}

/// The value of the second component of a distinguished name, or the empty
/// text when there is none.
pub open spec fn parent_name_or_empty(dn: Seq<char>) -> Seq<char> {
    match parent_name(dn) {
        Some(name) => name,
        None => Seq::empty(),
    }
}

/// Whether an index entry is a child of the unit described by `dn`, `name`
/// and `is_domain`. Below a unit, the entry is a direct child; below a node
/// that the index types as a domain, the value of the entry's second
/// component holds the first label of the domain name.
pub open spec fn is_unit_child(
    entry_dn: Seq<char>,
    dn: Seq<char>,
    name: Seq<char>,
    is_domain: bool,
) -> bool {
    let entry_upper = spec_to_uppercase(entry_dn);
    if is_domain {
        contains_seq(parent_name_or_empty(entry_upper), before_first(name, '.'))
    } else {
        contains_seq(entry_upper, dn) && entry_upper != dn && parent_name_or_empty(entry_upper)
            == name
    }
}

/// The children of a unit among the first `n` entries of the index.
pub open spec fn unit_children(
    dn_sid: Entries,
    sid_type: Entries,
    dn: Seq<char>,
    name: Seq<char>,
    is_domain: bool,
    n: nat,
) -> Seq<MemberView>
    decreases n,
{
    if n == 0 {
        Seq::empty()
    } else {
        let before = unit_children(dn_sid, sid_type, dn, name, is_domain, (n - 1) as nat);
        let e = dn_sid[n - 1];
        if n <= dn_sid.len() && is_unit_child(e.0, dn, name, is_domain) {
            before.push(typed_member(e.1, sid_type, MISSING@))
        } else {
            before
        }
    }
}

/// The computers among the children of a unit, among the first `n` entries of
/// the index.
pub open spec fn unit_computers(
    dn_sid: Entries,
    sid_type: Entries,
    dn: Seq<char>,
    name: Seq<char>,
    n: nat,
) -> Seq<MemberView>
    decreases n,
{
    if n == 0 {
        Seq::empty()
    } else {
        let before = unit_computers(dn_sid, sid_type, dn, name, (n - 1) as nat);
        let e = dn_sid[n - 1];
        if n <= dn_sid.len() && is_unit_child(e.0, dn, name, false) && lookup_or(
            sid_type,
            e.1,
            MISSING@,
        ) == "Computer"@ {
            before.push(typed_member(e.1, sid_type, MISSING@))
        } else {
            before
        }
    }
}

/// The type under which the index holds the unit with the distinguished name
/// `dn`; `NULL` when it does not hold it.
pub open spec fn indexed_type(dn_sid: Entries, sid_type: Entries, dn: Seq<char>) -> Seq<char> {
    lookup_or(sid_type, lookup_or(dn_sid, dn, MISSING@), MISSING@)
}

/// The name by which a unit's children refer to it: the display name up to
/// the `@`, or the whole name for a node typed as a domain.
pub open spec fn unit_relative_name(name: Seq<char>, is_domain: bool) -> Seq<char> {
    if is_domain {
        name
    } else {
        before_first(name, '@')
    }
}

/// A unit with its children listed and, when the index types it as a unit,
/// the computers among them as the scope of its policies.
pub open spec fn unit_with_children(ou: OuView, dn_sid: Entries, sid_type: Entries) -> OuView {
    let dn = ou.properties.distinguishedname;
    let otype = indexed_type(dn_sid, sid_type, dn);
    let is_domain = otype == "Domain"@;
    let name = unit_relative_name(ou.properties.name, is_domain);
    OuView {
        common: NodeCommonView {
            child_objects: unit_children(dn_sid, sid_type, dn, name, is_domain, dn_sid.len()),
            ..ou.common
        },
        gpo_changes: if otype == "OU"@ {
            GPOChangeView {
                affected_computers: if is_domain {
                    Seq::empty()
                } else {
                    unit_computers(dn_sid, sid_type, dn, name, dn_sid.len())
                },
                ..empty_gpo_change()
            }
        } else {
            ou.gpo_changes
        },
        ..ou
    }
}

fn check_unit_child(entry_dn: &str, dn: &str, name: &str, is_domain: bool) -> (r: bool)
    ensures
        r == is_unit_child(entry_dn@, dn@, name@, is_domain),
{
    let entry_upper = upper(entry_dn);
    let first = match get_parent_name(entry_upper.as_str()) {
        Some(name) => name,
        None => String::new(),
    };
    if is_domain {
        let n = chars_of(name);
        let p = position_of(&n, '.', 0);
        let label = string_of_range(&n, 0, p);
        assert(n@.subrange(0, p as int) =~= before_first(n@, '.'));
        contains(first.as_str(), label.as_str())
    } else {
        contains(entry_upper.as_str(), dn) && !str_eq(entry_upper.as_str(), dn) && str_eq(
            first.as_str(),
            name,
        )
    }
}

/// Lists the children of one unit and the computers in its scope.
pub fn set_unit_children(ou: &mut Ou, dn_sid: &StringMap, sid_type: &StringMap)
    ensures
        final(ou)@ == unit_with_children(old(ou)@, dn_sid@, sid_type@),
{
    let sid: String = match dn_sid.get(ou.properties.distinguishedname.as_str()) {
        Some(sid) => sid.clone(),
        None => String::from_str(MISSING),
    };
    let otype: String = match sid_type.get(sid.as_str()) {
        Some(t) => t.clone(),
        None => String::from_str(MISSING),
    };
    let is_domain = str_eq(otype.as_str(), "Domain");
    let is_unit = str_eq(otype.as_str(), "OU");
    let name: String = if is_domain {
        ou.properties.name.clone()
    } else {
        let n = chars_of(ou.properties.name.as_str());
        let p = position_of(&n, '@', 0);
        assert(n@.subrange(0, p as int) =~= before_first(n@, '@'));
        string_of_range(&n, 0, p)
    };
    let mut direct: Vec<Member> = Vec::new();
    let mut computers: Vec<Member> = Vec::new();
    let total: usize = dn_sid.len();
    let mut i: usize = 0;
    assert(member_views(direct@) =~= Seq::<MemberView>::empty());
    assert(member_views(computers@) =~= Seq::<MemberView>::empty());
    while i < total
        invariant
            i <= total,
            total == dn_sid@.len(),
            member_views(direct@) == unit_children(
                dn_sid@,
                sid_type@,
                ou.properties.distinguishedname@,
                name@,
                is_domain,
                i as nat,
            ),
            !is_domain ==> member_views(computers@) == unit_computers(
                dn_sid@,
                sid_type@,
                ou.properties.distinguishedname@,
                name@,
                i as nat,
            ),
            is_domain ==> member_views(computers@) == Seq::<MemberView>::empty(),
        decreases total - i,
    {
        let ghost direct_before = member_views(direct@);
        let ghost computers_before = member_views(computers@);
        let entry_dn = dn_sid.key(i);
        let value = dn_sid.value(i);
        if check_unit_child(
            entry_dn.as_str(),
            ou.properties.distinguishedname.as_str(),
            name.as_str(),
            is_domain,
        ) {
            let member = make_typed_member(value.as_str(), sid_type, MISSING);
            if !is_domain && str_eq(member.object_type.as_str(), "Computer") {
                computers.push(member.clone());
                assert(member_views(computers@) =~= computers_before.push(member@));
            }
            direct.push(member);
            assert(member_views(direct@) =~= direct_before.push(
                typed_member(value@, sid_type@, MISSING@),
            ));
        }
        i += 1;
    }
    ou.common.child_objects = direct;
    if is_unit {
        ou.gpo_changes = GPOChange::affecting(computers);
    }
}

/// Lists the children of every unit, and for a node the index types as a
/// unit also the computers among them.
pub fn add_childobjects_members_for_ou(
    vec_replaced: &mut Vec<Ou>,
    dn_sid: &StringMap,
    sid_type: &StringMap,
)
    ensures
        final(vec_replaced)@.len() == old(vec_replaced)@.len(),
        forall|i: int|
            0 <= i < old(vec_replaced)@.len() ==> (#[trigger] final(vec_replaced)@[i])@
                == unit_with_children(old(vec_replaced)@[i]@, dn_sid@, sid_type@),
{
    let mut i: usize = 0;
    while i < vec_replaced.len()
        invariant
            i <= vec_replaced.len(),
            vec_replaced@.len() == old(vec_replaced)@.len(),
            forall|j: int|
                0 <= j < i ==> (#[trigger] vec_replaced@[j])@ == unit_with_children(
                    old(vec_replaced)@[j]@,
                    dn_sid@,
                    sid_type@,
                ),
            forall|j: int|
                i <= j < vec_replaced@.len() ==> vec_replaced@[j] == old(vec_replaced)@[j],
        decreases vec_replaced.len() - i,
    {
        set_unit_children(&mut vec_replaced[i], dn_sid, sid_type);
        i += 1;
    }
}

/// The position of the first entry at or after `from` whose key holds
/// `needle`, or `dn_sid.len()` when there is none.
pub open spec fn containing_index(dn_sid: Entries, needle: Seq<char>, from: int) -> int
    decreases dn_sid.len() - from,
{
    if from < 0 || from >= dn_sid.len() {
        dn_sid.len() as int
    } else if contains_seq(dn_sid[from].0, needle) {
        from
    } else {
        containing_index(dn_sid, needle, from + 1)
    }
}

/// A policy link with the reference it holds replaced by the identifier of
/// the first indexed object whose distinguished name holds the reference; the
/// link stays as it is when there is no such object.
pub open spec fn link_resolved(l: LinkView, dn_sid: Entries) -> LinkView {
    if containing_index(dn_sid, l.guid, 0) < dn_sid.len() {
        LinkView { guid: dn_sid[containing_index(dn_sid, l.guid, 0)].1, ..l }
    } else {
        l
    }
}

/// A node with every policy link resolved.
pub open spec fn links_resolved(c: NodeCommonView, dn_sid: Entries) -> NodeCommonView {
    NodeCommonView { links: c.links.map_values(|l: LinkView| link_resolved(l, dn_sid)), ..c }
}

fn find_containing(dn_sid: &StringMap, needle: &str) -> (r: Option<usize>)
    ensures
        match r {
            Some(i) => i < dn_sid@.len() && i == containing_index(dn_sid@, needle@, 0),
            None => containing_index(dn_sid@, needle@, 0) == dn_sid@.len(),
        },
{
    let total: usize = dn_sid.len();
    let mut i: usize = 0;
    while i < total
        invariant
            i <= total,
            total == dn_sid@.len(),
            containing_index(dn_sid@, needle@, 0) == containing_index(dn_sid@, needle@, i as int),
        decreases total - i,
    {
        if contains(dn_sid.key(i).as_str(), needle) {
            return Some(i);
        }
        i += 1;
    }
    None
}

/// Resolves the policy links of one node.
pub fn resolve_links(common: &mut NodeCommon, dn_sid: &StringMap)
    ensures
        final(common)@ == links_resolved(old(common)@, dn_sid@),
{
    let mut i: usize = 0;
    while i < common.links.len()
        invariant
            i <= common.links.len(),
            common.links.len() == old(common).links.len(),
            *common == (NodeCommon { links: common.links, ..*old(common) }),
            forall|j: int|
                0 <= j < i ==> (#[trigger] common.links@[j])@ == link_resolved(
                    old(common).links@[j]@,
                    dn_sid@,
                ),
            forall|j: int|
                i <= j < common.links.len() ==> common.links@[j] == old(common).links@[j],
        decreases common.links.len() - i,
    {
        match find_containing(dn_sid, common.links[i].guid.as_str()) {
            Some(at) => {
                let id = dn_sid.value(at).clone();
                common.links[i].guid = id;
            },
            None => {},
        }
        i += 1;
    }
    assert(common@.links =~= links_resolved(old(common)@, dn_sid@).links);
}

/// Replaces the reference in every policy link by the identifier of the
/// policy object it points to.
pub fn replace_guid_gplink<T: LdapObject>(vec_replaced: &mut Vec<T>, dn_sid: &StringMap)
    ensures
        final(vec_replaced)@.len() == old(vec_replaced)@.len(),
        forall|i: int|
            0 <= i < old(vec_replaced)@.len() ==> (#[trigger] final(vec_replaced)@[i]).common_spec()@
                == links_resolved(old(vec_replaced)@[i].common_spec()@, dn_sid@)
                && final(vec_replaced)@[i].rest() == old(vec_replaced)@[i].rest(),
{
    let mut i: usize = 0;
    while i < vec_replaced.len()
        invariant
            i <= vec_replaced.len(),
            vec_replaced@.len() == old(vec_replaced)@.len(),
            forall|j: int|
                0 <= j < i ==> (#[trigger] vec_replaced@[j]).common_spec()@ == links_resolved(
                    old(vec_replaced)@[j].common_spec()@,
                    dn_sid@,
                ) && vec_replaced@[j].rest() == old(vec_replaced)@[j].rest(),
            forall|j: int|
                i <= j < vec_replaced@.len() ==> vec_replaced@[j] == old(vec_replaced)@[j],
        decreases vec_replaced.len() - i,
    {
        resolve_links(vec_replaced[i].common_mut(), dn_sid);
        i += 1;
    }
}

/// The computers among the first `n` entries of the identifier-to-type map,
/// in map order.
pub open spec fn computers_among(sid_type: Entries, n: nat) -> Seq<MemberView>
    decreases n,
{
    if n == 0 {
        Seq::empty()
    } else {
        let before = computers_among(sid_type, (n - 1) as nat);
        let e = sid_type[n - 1];
        if n <= sid_type.len() && e.1 == "Computer"@ {
            before.push(MemberView { object_identifier: e.0, object_type: "Computer"@ })
        } else {
            before
        }
    }
}

/// Puts every computer of the index in the scope of the first domain's
/// policies. The other domains stay as they are.
pub fn add_affected_computers(vec_domains: &mut Vec<Domain>, sid_type: &StringMap)
    ensures
        final(vec_domains)@.len() == old(vec_domains)@.len(),
        old(vec_domains)@.len() > 0 ==> final(vec_domains)@[0]@ == (DomainView {
            gpo_changes: GPOChangeView {
                affected_computers: computers_among(sid_type@, sid_type@.len()),
                ..empty_gpo_change()
            },
            ..old(vec_domains)@[0]@
        }),
        forall|i: int|
            1 <= i < old(vec_domains)@.len() ==> final(vec_domains)@[i] == old(vec_domains)@[i],
{
    if vec_domains.len() == 0 {
        return ;
    }
    let mut computers: Vec<Member> = Vec::new();
    let total: usize = sid_type.len();
    let mut i: usize = 0;
    assert(member_views(computers@) =~= Seq::<MemberView>::empty());
    while i < total
        invariant
            i <= total,
            total == sid_type@.len(),
            member_views(computers@) == computers_among(sid_type@, i as nat),
        decreases total - i,
    {
        let ghost before = member_views(computers@);
        if str_eq(sid_type.value(i).as_str(), "Computer") {
            computers.push(Member::of(sid_type.key(i).as_str(), "Computer"));
            assert(member_views(computers@) =~= before.push(
                MemberView { object_identifier: sid_type@[i as int].0, object_type: "Computer"@ },
            ));
        }
        i += 1;
    }
    vec_domains[0].gpo_changes = GPOChange::affecting(computers);
}

/// The computers that stand directly below the unit with the distinguished
/// name `ou_dn`, among the first `n` entries of the index.
pub open spec fn computers_under(
    dn_sid: Entries,
    sid_type: Entries,
    ou_dn: Seq<char>,
    n: nat,
) -> Seq<MemberView>
    decreases n,
{
    if n == 0 {
        Seq::empty()
    } else {
        let before = computers_under(dn_sid, sid_type, ou_dn, (n - 1) as nat);
        let e = dn_sid[n - 1];
        if n <= dn_sid.len() && lookup(sid_type, e.1) == Some("Computer"@)
            && spec_contained_by_name(spec_cn_object_name(e.0), e.0) == ou_dn {
            before.push(MemberView { object_identifier: e.1, object_type: "Computer"@ })
        } else {
            before
        }
    }
}

/// The scope of a unit's policies: the computers directly below it. A unit
/// that the index does not hold keeps the scope it has.
pub open spec fn unit_scope(ou: OuView, dn_sid: Entries, sid_type: Entries) -> GPOChangeView {
    match key_of_value(dn_sid, ou.common.object_identifier) {
        Some(ou_dn) => GPOChangeView {
            affected_computers: computers_under(dn_sid, sid_type, ou_dn, dn_sid.len()),
            ..empty_gpo_change()
        },
        None => ou.gpo_changes,
    }
}

/// Puts the computers directly below each unit in the scope of the unit's
/// policies.
pub fn add_affected_computers_for_ou(
    vec_ous: &mut Vec<Ou>,
    dn_sid: &StringMap,
    sid_type: &StringMap,
)
    ensures
        final(vec_ous)@.len() == old(vec_ous)@.len(),
        forall|i: int|
            0 <= i < old(vec_ous)@.len() ==> (#[trigger] final(vec_ous)@[i])@ == (OuView {
                gpo_changes: unit_scope(old(vec_ous)@[i]@, dn_sid@, sid_type@),
                ..old(vec_ous)@[i]@
            }),
{
    let total: usize = dn_sid.len();
    let mut i: usize = 0;
    while i < vec_ous.len()
        invariant
            i <= vec_ous.len(),
            total == dn_sid@.len(),
            vec_ous@.len() == old(vec_ous)@.len(),
            forall|j: int|
                0 <= j < i ==> (#[trigger] vec_ous@[j])@ == (OuView {
                    gpo_changes: unit_scope(old(vec_ous)@[j]@, dn_sid@, sid_type@),
                    ..old(vec_ous)@[j]@
                }),
            forall|j: int| i <= j < vec_ous@.len() ==> vec_ous@[j] == old(vec_ous)@[j],
        decreases vec_ous.len() - i,
    {
        match dn_sid.position_of_value(vec_ous[i].common.object_identifier.as_str()) {
            Some(at) => {
                let ou_dn = dn_sid.key(at);
                let mut computers: Vec<Member> = Vec::new();
                let mut k: usize = 0;
                assert(member_views(computers@) =~= Seq::<MemberView>::empty());
                while k < total
                    invariant
                        k <= total,
                        total == dn_sid@.len(),
                        member_views(computers@) == computers_under(
                            dn_sid@,
                            sid_type@,
                            ou_dn@,
                            k as nat,
                        ),
                    decreases total - k,
                {
                    let ghost before = member_views(computers@);
                    let dn = dn_sid.key(k);
                    let sid = dn_sid.value(k);
                    let is_computer = match sid_type.get(sid.as_str()) {
                        Some(t) => str_eq(t.as_str(), "Computer"),
                        None => false,
                    };
                    if is_computer {
                        let cn = get_cn_object_name_from_full_distinguishedname(dn.as_str());
                        let parent = get_contained_by_name_from_distinguishedname(
                            cn.as_str(),
                            dn.as_str(),
                        );
                        if str_eq(parent.as_str(), ou_dn.as_str()) {
                            computers.push(Member::of(sid.as_str(), "Computer"));
                            assert(member_views(computers@) =~= before.push(
                                MemberView { object_identifier: sid@, object_type: "Computer"@ },
                            ));
                        }
                    }
                    k += 1;
                }
                vec_ous[i].gpo_changes = GPOChange::affecting(computers);
            },
            None => {},
        }
        i += 1;
    }
}

/// The relative identifier of the well-known domain group that a
/// distinguished name mentions, English or French wording, or `NULL_ID1`
/// when it mentions none. The names are tried in the order of the relative
/// identifiers.
pub open spec fn spec_rid_of_name(dn: Seq<char>) -> Seq<char> {
    if contains_seq(dn, "DOMAIN ADMINS"@) || contains_seq(dn, "ADMINISTRATEURS DU DOMAINE"@) {
        "-512"@
    } else if contains_seq(dn, "DOMAIN USERS"@) || contains_seq(dn, "UTILISATEURS DU DOMAINE"@) {
        "-513"@
    } else if contains_seq(dn, "DOMAIN GUESTS"@) || contains_seq(dn, "INVITES DE DOMAINE"@) {
        "-514"@
    } else if contains_seq(dn, "DOMAIN COMPUTERS"@) || contains_seq(
        dn,
        "ORDINATEURS DE DOMAINE"@,
    ) {
        "-515"@
    } else if contains_seq(dn, "DOMAIN CONTROLLERS"@) || contains_seq(
        dn,
        "CONTRÔLEURS DE DOMAINE"@,
    ) {
        "-516"@
    } else if contains_seq(dn, "CERT PUBLISHERS"@) || contains_seq(
        dn,
        "EDITEURS DE CERTIFICATS"@,
    ) {
        "-517"@
    } else if contains_seq(dn, "SCHEMA ADMINS"@) || contains_seq(
        dn,
        "ADMINISTRATEURS DU SCHEMA"@,
    ) {
        "-518"@
    } else if contains_seq(dn, "ENTERPRISE ADMINS"@) || contains_seq(
        dn,
        "ADMINISTRATEURS DE L'ENTREPRISE"@,
    ) {
        "-519"@
    } else {
        "NULL_ID1"@
    }
}

/// Maps the well-known group that a distinguished name mentions to its
/// relative identifier.
pub fn get_id_from_objectidentifier(object_identifier: &str) -> (rid: String)
    ensures
        rid@ == spec_rid_of_name(object_identifier@),
{
    let dn = object_identifier;
    let rid = if contains(dn, "DOMAIN ADMINS") || contains(dn, "ADMINISTRATEURS DU DOMAINE") {
        "-512"
    } else if contains(dn, "DOMAIN USERS") || contains(dn, "UTILISATEURS DU DOMAINE") {
        "-513"
    } else if contains(dn, "DOMAIN GUESTS") || contains(dn, "INVITES DE DOMAINE") {
        "-514"
    } else if contains(dn, "DOMAIN COMPUTERS") || contains(dn, "ORDINATEURS DE DOMAINE") {
        "-515"
    } else if contains(dn, "DOMAIN CONTROLLERS") || contains(dn, "CONTRÔLEURS DE DOMAINE") {
        "-516"
    } else if contains(dn, "CERT PUBLISHERS") || contains(dn, "EDITEURS DE CERTIFICATS") {
        "-517"
    } else if contains(dn, "SCHEMA ADMINS") || contains(dn, "ADMINISTRATEURS DU SCHEMA") {
        "-518"
    } else if contains(dn, "ENTERPRISE ADMINS") || contains(dn, "ADMINISTRATEURS DE L'ENTREPRISE") {
        "-519"
    } else {
        "NULL_ID1"
    };
    String::from_str(rid)
}

/// The position of the first trust at or after `from` whose target domain's
/// naming context occurs in `dn`, or `trusts.len()` when there is none.
pub open spec fn trust_index_for(trusts: Seq<TrustView>, dn: Seq<char>, from: int) -> int
    decreases trusts.len() - from,
{
    if from < 0 || from >= trusts.len() {
        trusts.len() as int
    } else if contains_seq(dn, spec_ldap_dc(trusts[from].target_domain_name)[0]) {
        from
    } else {
        trust_index_for(trusts, dn, from + 1)
    }
}

/// The identifier synthesized for a group member that this domain's index
/// does not hold. A member under the naming context of a trusted domain gets
/// the trusted domain's name followed by the relative identifier of the
/// well-known group it names. Otherwise a member whose name holds `CN=S-` and
/// an identifier gets that identifier. Otherwise the name stays as it is.
pub open spec fn spec_sid_from_another_domain(trusts: Seq<TrustView>, dn: Seq<char>) -> Seq<char> {
    if trust_index_for(trusts, dn, 0) < trusts.len() {
        trusts[trust_index_for(trusts, dn, 0)].target_domain_name + spec_rid_of_name(dn)
    } else if contains_seq(dn, "CN=S-"@) && first_sid(dn, 0) is Some {
        first_sid(dn, 0).unwrap()
    } else {
        dn
    }
}

/// Synthesizes the identifier of a group member from another domain.
pub fn sid_maker_from_another_domain(vec_trusts: &Vec<Trust>, object_identifier: &String) -> (sid:
    String)
    ensures
        sid@ == spec_sid_from_another_domain(trust_views(vec_trusts@), object_identifier@),
{
    let ghost trusts = trust_views(vec_trusts@);
    let mut i: usize = 0;
    while i < vec_trusts.len()
        invariant
            i <= vec_trusts.len(),
            trusts == trust_views(vec_trusts@),
            trust_index_for(trusts, object_identifier@, 0) == trust_index_for(
                trusts,
                object_identifier@,
                i as int,
            ),
        decreases vec_trusts.len() - i,
    {
        let contexts = prepare_ldap_dc(vec_trusts[i].target_domain_name.as_str());
        assert(texts(contexts@).len() == 2);
        assert(texts(contexts@)[0] == contexts@[0]@);
        assert(trusts[i as int].target_domain_name == vec_trusts@[i as int].target_domain_name@);
        if contains(object_identifier.as_str(), contexts[0].as_str()) {
            let rid = get_id_from_objectidentifier(object_identifier.as_str());
            return concat2(vec_trusts[i].target_domain_name.as_str(), rid.as_str());
        }
        i += 1;
    }
    if contains(object_identifier.as_str(), "CN=S-") {
        match find_first_sid(object_identifier.as_str()) {
            Some(sid) => {
                return sid;
            },
            None => {},
        }
    }
    object_identifier.clone()
}

/// A member under the naming context of a trusted domain that names the
/// domain administrators resolves to the trusted domain's name followed by
/// `-512`.
pub proof fn lemma_cross_domain_admins(trusts: Seq<TrustView>, dn: Seq<char>, k: int)
    requires
        0 <= k < trusts.len(),
        trust_index_for(trusts, dn, 0) == k,
        contains_seq(dn, "DOMAIN ADMINS"@),
    ensures
        spec_sid_from_another_domain(trusts, dn) == trusts[k].target_domain_name + "-512"@,
{
}

/// A group member resolved through the index: the identifier stored under
/// the member's distinguished name with its type (`Group` when the type is
/// unknown), or, when the index has no identifier for the name, the identifier
/// synthesized from the trusts with the type `Group`.
pub open spec fn group_member_resolved(
    m: MemberView,
    dn_sid: Entries,
    sid_type: Entries,
    trusts: Seq<TrustView>,
) -> MemberView {
    let sid = lookup_or(dn_sid, m.object_identifier, MISSING@);
    if sid == MISSING@ {
        MemberView {
            object_identifier: spec_sid_from_another_domain(trusts, m.object_identifier),
            object_type: DEFAULT_PRINCIPAL_TYPE@,
        }
    } else {
        typed_member(sid, sid_type, DEFAULT_PRINCIPAL_TYPE@)
    }
}

fn resolve_group_member(
    member: &Member,
    dn_sid: &StringMap,
    sid_type: &StringMap,
    vec_trusts: &Vec<Trust>,
) -> (r: Member)
    ensures
        r@ == group_member_resolved(member@, dn_sid@, sid_type@, trust_views(vec_trusts@)),
{
    let known: Option<&String> = match dn_sid.get(member.object_identifier.as_str()) {
        Some(sid) => if str_eq(sid.as_str(), MISSING) {
            None
        } else {
            Some(sid)
        },
        None => None,
    };
    match known {
        Some(sid) => make_typed_member(sid.as_str(), sid_type, DEFAULT_PRINCIPAL_TYPE),
        None => {
            let generated = sid_maker_from_another_domain(vec_trusts, &member.object_identifier);
            Member::of(generated.as_str(), DEFAULT_PRINCIPAL_TYPE)
        },
    }
}

/// Replaces the distinguished name of every group member by the member's
/// identifier and fills in its type.
pub fn replace_sid_members(
    vec_groups: &mut Vec<Group>,
    dn_sid: &StringMap,
    sid_type: &StringMap,
    vec_trusts: &Vec<Trust>,
)
    ensures
        final(vec_groups)@.len() == old(vec_groups)@.len(),
        forall|i: int|
            0 <= i < old(vec_groups)@.len() ==> (#[trigger] final(vec_groups)@[i])@ == (GroupView {
                members: old(vec_groups)@[i]@.members.map_values(
                    |m: MemberView|
                        group_member_resolved(m, dn_sid@, sid_type@, trust_views(vec_trusts@)),
                ),
                ..old(vec_groups)@[i]@
            }),
{
    let mut i: usize = 0;
    while i < vec_groups.len()
        invariant
            i <= vec_groups.len(),
            vec_groups@.len() == old(vec_groups)@.len(),
            forall|j: int|
                0 <= j < i ==> (#[trigger] vec_groups@[j])@ == (GroupView {
                    members: old(vec_groups)@[j]@.members.map_values(
                        |m: MemberView|
                            group_member_resolved(m, dn_sid@, sid_type@, trust_views(vec_trusts@)),
                    ),
                    ..old(vec_groups)@[j]@
                }),
            forall|j: int| i <= j < vec_groups@.len() ==> vec_groups@[j] == old(vec_groups)@[j],
        decreases vec_groups.len() - i,
    {
        let ghost before = vec_groups@[i as int];
        let mut resolved: Vec<Member> = Vec::new();
        let mut k: usize = 0;
        while k < vec_groups[i].members.len()
            invariant
                i < vec_groups.len(),
                vec_groups@[i as int] == before,
                k <= before.members.len(),
                resolved.len() == k,
                forall|j: int|
                    0 <= j < k ==> (#[trigger] resolved@[j])@ == group_member_resolved(
                        before.members@[j]@,
                        dn_sid@,
                        sid_type@,
                        trust_views(vec_trusts@),
                    ),
            decreases before.members.len() - k,
        {
            let m = resolve_group_member(&vec_groups[i].members[k], dn_sid, sid_type, vec_trusts);
            resolved.push(m);
            k += 1;
        }
        vec_groups[i].members = resolved;
        assert(vec_groups@[i as int]@.members =~= before@.members.map_values(
            |m: MemberView| group_member_resolved(m, dn_sid@, sid_type@, trust_views(vec_trusts@)),
        ));
        i += 1;
    }
}

/// The groups of a list as plain values.
pub open spec fn group_views(s: Seq<Group>) -> Seq<GroupView> {
    s.map_values(|g: Group| g@)
}

/// The users of a list as plain values.
pub open spec fn user_views(s: Seq<User>) -> Seq<UserView> {
    s.map_values(|u: User| u@)
}

/// The computers of a list as plain values.
pub open spec fn computer_views(s: Seq<Computer>) -> Seq<ComputerView> {
    s.map_values(|c: Computer| c@)
}

/// The domains of a list as plain values.
pub open spec fn domain_views(s: Seq<Domain>) -> Seq<DomainView> {
    s.map_values(|d: Domain| d@)
}

/// The domain controllers among the first `n` computers, as members of type
/// `Computer`.
pub open spec fn dc_members(computers: Seq<ComputerView>, n: nat) -> Seq<MemberView>
    decreases n,
{
    if n == 0 {
        Seq::empty()
    } else {
        let before = dc_members(computers, (n - 1) as nat);
        let c = computers[n - 1];
        if n <= computers.len() && c.is_dc {
            before.push(
                MemberView {
                    object_identifier: c.common.object_identifier,
                    object_type: "Computer"@,
                },
            )
        } else {
            before
        }
    }
}

/// The identifier of the domain as the domain controllers among the first `n`
/// computers show it: the issuing domain of the last controller's identifier
/// that names one; empty when no controller's identifier does.
pub open spec fn dc_domain_sid(computers: Seq<ComputerView>, n: nat) -> Seq<char>
    decreases n,
{
    if n == 0 {
        Seq::empty()
    } else {
        let before = dc_domain_sid(computers, (n - 1) as nat);
        let c = computers[n - 1];
        let issuer = spec_domain_sid(c.common.object_identifier);
        if n <= computers.len() && c.is_dc && issuer is Some {
            issuer.unwrap()
        } else {
            before
        }
    }
}

/// A well-known group of the domain: its name is `label` followed by the
/// domain name, its identifier the domain name followed by `suffix`.
pub open spec fn default_group(
    domain_upper: Seq<char>,
    label: Seq<char>,
    suffix: Seq<char>,
    highvalue: bool,
    members: Seq<MemberView>,
) -> GroupView {
    GroupView {
        properties: GroupPropertiesView {
            name: label + domain_upper,
            highvalue,
            ..GroupProperties::spec_new()
        },
        common: NodeCommonView {
            object_identifier: domain_upper + suffix,
            ..bare_node()
        },
        members,
    }
}

/// The members given to the groups that stand for everyone: the domain's
/// computers group and users group.
pub open spec fn everyone_members(domain_sid: Seq<char>) -> Seq<MemberView> {
    seq![
        MemberView { object_identifier: domain_sid + "-515"@, object_type: "Group"@ },
        MemberView { object_identifier: domain_sid + "-513"@, object_type: "Group"@ },
    ]
}

/// The well-known groups of a domain, in the order in which they are added.
pub open spec fn default_groups(
    domain_upper: Seq<char>,
    controllers: Seq<MemberView>,
    domain_sid: Seq<char>,
) -> Seq<GroupView> {
    seq![
        default_group(
            domain_upper,
            "ENTERPRISE DOMAIN CONTROLLERS@"@,
            "-S-1-5-9"@,
            false,
            controllers,
        ),
        default_group(domain_upper, "ACCOUNT OPERATORS@"@, "-S-1-5-32-548"@, true, Seq::empty()),
        default_group(
            domain_upper,
            "WINDOWS AUTHORIZATION ACCESS GROUP@"@,
            "-S-1-5-32-560"@,
            false,
            Seq::empty(),
        ),
        default_group(domain_upper, "EVERYONE@"@, "-S-1-1-0"@, false, everyone_members(domain_sid)),
        default_group(
            domain_upper,
            "AUTHENTICATED USERS@"@,
            "-S-1-5-11"@,
            false,
            everyone_members(domain_sid),
        ),
        default_group(domain_upper, "ADMINISTRATORS@"@, "-S-1-5-32-544"@, true, Seq::empty()),
        default_group(
            domain_upper,
            "PRE-WINDOWS 2000 COMPATIBLE ACCESS@"@,
            "-S-1-5-32-554"@,
            false,
            Seq::empty(),
        ),
        default_group(domain_upper, "INTERACTIVE@"@, "-S-1-5-4"@, false, Seq::empty()),
        default_group(domain_upper, "PRINT OPERATORS@"@, "-S-1-5-32-550"@, true, Seq::empty()),
        default_group(
            domain_upper,
            "TERMINAL SERVER LICENSE SERVERS@"@,
            "-S-1-5-32-561"@,
            false,
            Seq::empty(),
        ),
        default_group(
            domain_upper,
            "INCOMING FOREST TRUST BUILDERS@"@,
            "-S-1-5-32-557"@,
            false,
            Seq::empty(),
        ),
        default_group(domain_upper, "THIS ORGANIZATION@"@, "-S-1-5-15"@, false, Seq::empty()),
    ]
}

fn make_default_group(
    domain_upper: &str,
    label: &str,
    suffix: &str,
    highvalue: bool,
    members: Vec<Member>,
) -> (g: Group)
    ensures
        g@ == default_group(domain_upper@, label@, suffix@, highvalue, member_views(members@)),
{
    let mut g = Group::new();
    g.common.object_identifier = concat2(domain_upper, suffix);
    g.properties.name = concat2(label, domain_upper);
    g.properties.highvalue = highvalue;
    g.members = members;
    g
}

fn make_everyone_members(domain_sid: &str) -> (members: Vec<Member>)
    ensures
        member_views(members@) == everyone_members(domain_sid@),
{
    let computers = concat2(domain_sid, "-515");
    let users = concat2(domain_sid, "-513");
    let mut members: Vec<Member> = Vec::new();
    members.push(Member::of(computers.as_str(), "Group"));
    members.push(Member::of(users.as_str(), "Group"));
    assert(member_views(members@) =~= everyone_members(domain_sid@));
    members
}

fn no_members() -> (members: Vec<Member>)
    ensures
        member_views(members@) == Seq::<MemberView>::empty(),
{
    let members: Vec<Member> = Vec::new();
    assert(member_views(members@) =~= Seq::<MemberView>::empty());
    members
}

/// Adds the well-known groups of the domain. The domain controllers become
/// the members of the enterprise domain controllers group; the groups that
/// stand for everyone get the domain's computers group and users group, named
/// by the domain's identifier as the controllers show it.
pub fn add_default_groups(
    vec_groups: &mut Vec<Group>,
    vec_computers: &Vec<Computer>,
    domain: String,
)
    ensures
        group_views(final(vec_groups)@) == group_views(old(vec_groups)@) + default_groups(
            spec_to_uppercase(domain@),
            dc_members(computer_views(vec_computers@), vec_computers@.len()),
            dc_domain_sid(computer_views(vec_computers@), vec_computers@.len()),
        ),
{
    let ghost computers = computer_views(vec_computers@);
    let mut controllers: Vec<Member> = Vec::new();
    let mut domain_sid = String::new();
    let mut i: usize = 0;
    assert(member_views(controllers@) =~= Seq::<MemberView>::empty());
    while i < vec_computers.len()
        invariant
            i <= vec_computers.len(),
            computers == computer_views(vec_computers@),
            member_views(controllers@) == dc_members(computers, i as nat),
            domain_sid@ == dc_domain_sid(computers, i as nat),
        decreases vec_computers.len() - i,
    {
        let ghost before = member_views(controllers@);
        let computer = &vec_computers[i];
        assert(computers[i as int] == computer@);
        if computer.is_dc {
            controllers.push(Member::of(computer.common.object_identifier.as_str(), "Computer"));
            assert(member_views(controllers@) =~= before.push(
                MemberView {
                    object_identifier: computer@.common.object_identifier,
                    object_type: "Computer"@,
                },
            ));
            match domain_sid_of(computer.common.object_identifier.as_str()) {
                Some(sid) => {
                    domain_sid = sid;
                },
                None => {},
            }
        }
        i += 1;
    }
    let domain_upper = upper(domain.as_str());
    let d = domain_upper.as_str();
    let ghost start = group_views(vec_groups@);
    let ghost added = default_groups(
        domain_upper@,
        member_views(controllers@),
        domain_sid@,
    );
    vec_groups.push(
        make_default_group(d, "ENTERPRISE DOMAIN CONTROLLERS@", "-S-1-5-9", false, controllers),
    );
    vec_groups.push(
        make_default_group(d, "ACCOUNT OPERATORS@", "-S-1-5-32-548", true, no_members()),
    );
    vec_groups.push(
        make_default_group(
            d,
            "WINDOWS AUTHORIZATION ACCESS GROUP@",
            "-S-1-5-32-560",
            false,
            no_members(),
        ),
    );
    vec_groups.push(
        make_default_group(
            d,
            "EVERYONE@",
            "-S-1-1-0",
            false,
            make_everyone_members(domain_sid.as_str()),
        ),
    );
    vec_groups.push(
        make_default_group(
            d,
            "AUTHENTICATED USERS@",
            "-S-1-5-11",
            false,
            make_everyone_members(domain_sid.as_str()),
        ),
    );
    vec_groups.push(make_default_group(d, "ADMINISTRATORS@", "-S-1-5-32-544", true, no_members()));
    vec_groups.push(
        make_default_group(
            d,
            "PRE-WINDOWS 2000 COMPATIBLE ACCESS@",
            "-S-1-5-32-554",
            false,
            no_members(),
        ),
    );
    vec_groups.push(make_default_group(d, "INTERACTIVE@", "-S-1-5-4", false, no_members()));
    vec_groups.push(make_default_group(d, "PRINT OPERATORS@", "-S-1-5-32-550", true, no_members()));
    vec_groups.push(
        make_default_group(
            d,
            "TERMINAL SERVER LICENSE SERVERS@",
            "-S-1-5-32-561",
            false,
            no_members(),
        ),
    );
    vec_groups.push(
        make_default_group(
            d,
            "INCOMING FOREST TRUST BUILDERS@",
            "-S-1-5-32-557",
            false,
            no_members(),
        ),
    );
    vec_groups.push(make_default_group(d, "THIS ORGANIZATION@", "-S-1-5-15", false, no_members()));
    assert(group_views(vec_groups@) =~= start + added);
}

/// The enterprise domain controllers group lists exactly the domain
/// controllers: one member for each computer flagged as a controller, in the
/// order of the computers, and nobody else.
pub proof fn lemma_controllers_are_the_members(
    domain_upper: Seq<char>,
    computers: Seq<ComputerView>,
)
    ensures
        default_groups(
            domain_upper,
            dc_members(computers, computers.len()),
            dc_domain_sid(computers, computers.len()),
        )[0].members == dc_members(computers, computers.len()),
        computers.len() == 1 && computers[0].is_dc ==> dc_members(computers, 1) == seq![
            MemberView {
                object_identifier: computers[0].common.object_identifier,
                object_type: "Computer"@,
            },
        ],
{
    if computers.len() == 1 && computers[0].is_dc {
        assert(dc_members(computers, 0) == Seq::<MemberView>::empty());
        assert(dc_members(computers, 1) =~= seq![
            MemberView {
                object_identifier: computers[0].common.object_identifier,
                object_type: "Computer"@,
            },
        ]);
    }
}

/// The account that stands for the NT authority in the domain; its domain
/// identifier is that of the first user.
pub open spec fn nt_authority(domain_upper: Seq<char>, first_user: UserView) -> UserView {
    UserView {
        properties: UserPropertiesView {
            name: "NT AUTHORITY@"@ + domain_upper,
            domainsid: first_user.properties.domainsid,
            ..UserProperties::spec_new()
        },
        common: NodeCommonView {
            object_identifier: domain_upper + "-S-1-5-20"@,
            ..bare_node()
        },
        ..User::spec_new()
    }
}

/// Adds the account that stands for the NT authority. Its domain identifier
/// comes from the first user, so nothing is added when there is no user.
pub fn add_default_users(vec_users: &mut Vec<User>, domain: String)
    ensures
        old(vec_users)@.len() == 0 ==> final(vec_users)@ == old(vec_users)@,
        old(vec_users)@.len() > 0 ==> user_views(final(vec_users)@) == user_views(
            old(vec_users)@,
        ).push(nt_authority(spec_to_uppercase(domain@), old(vec_users)@[0]@)),
{
    if vec_users.len() == 0 {
        return ;
    }
    let domain_upper = upper(domain.as_str());
    let mut user = User::new();
    user.properties.name = concat2("NT AUTHORITY@", domain_upper.as_str());
    user.common.object_identifier = concat2(domain_upper.as_str(), "-S-1-5-20");
    user.properties.domainsid = vec_users[0].properties.domainsid.clone();
    vec_users.push(user);
    assert(user_views(vec_users@) =~= user_views(old(vec_users)@).push(
        nt_authority(spec_to_uppercase(domain@), old(vec_users)@[0]@),
    ));
}

/// Whether the identifier of a trust's target still holds the unresolved
/// marker.
pub open spec fn looks_unresolved(sid: Seq<char>) -> bool {
    contains_seq(sid, UNRESOLVED@)
}

/// The domain node that stands for the target of a trust: named after the
/// target, keyed by the target's identifier, and of high value.
pub open spec fn trust_domain(t: TrustView) -> DomainView {
    DomainView {
        properties: DomainPropertiesView {
            name: t.target_domain_name,
            domain: t.target_domain_name,
            distinguishedname: spec_domain_to_dc(t.target_domain_name),
            highvalue: true,
            ..DomainProperties::spec_new()
        },
        common: NodeCommonView {
            object_identifier: t.target_domain_sid,
            ..bare_node()
        },
        ..Domain::spec_new()
    }
}

/// The domains after the trusts are materialized: when there is a trust and
/// the first trust's target looks unresolved, one domain node is added for
/// every trust and the first domain of the list gets all the trusts.
/// Otherwise the domains stay as they are.
pub open spec fn with_trust_domains(
    domains: Seq<DomainView>,
    trusts: Seq<TrustView>,
) -> Seq<DomainView> {
    if trusts.len() > 0 && looks_unresolved(trusts[0].target_domain_sid) {
        let all = domains + trusts.map_values(|t: TrustView| trust_domain(t));
        all.update(0, DomainView { trusts, ..all[0] })
    } else {
        domains
    }
}

/// Materializes the trusted domains as domain nodes and attaches the trusts
/// to the first domain.
pub fn add_trustdomain(vec_domains: &mut Vec<Domain>, vec_trusts: &Vec<Trust>)
    ensures
        domain_views(final(vec_domains)@) == with_trust_domains(
            domain_views(old(vec_domains)@),
            trust_views(vec_trusts@),
        ),
{
    if vec_trusts.len() == 0 {
        return ;
    }
    if !contains(vec_trusts[0].target_domain_sid.as_str(), UNRESOLVED) {
        return ;
    }
    let ghost start = domain_views(vec_domains@);
    let ghost targets = trust_views(vec_trusts@).map_values(|t: TrustView| trust_domain(t));
    let mut trusts: Vec<Trust> = Vec::new();
    let mut i: usize = 0;
    while i < vec_trusts.len()
        invariant
            i <= vec_trusts.len(),
            trusts@ == vec_trusts@.take(i as int),
            targets == trust_views(vec_trusts@).map_values(|t: TrustView| trust_domain(t)),
            domain_views(vec_domains@) == start + targets.take(i as int),
        decreases vec_trusts.len() - i,
    {
        let trust = &vec_trusts[i];
        trusts.push(trust.clone());
        let mut domain = Domain::new();
        domain.common.object_identifier = trust.target_domain_sid.clone();
        domain.properties.name = trust.target_domain_name.clone();
        domain.properties.domain = trust.target_domain_name.clone();
        domain.properties.distinguishedname = domain_to_dc(trust.target_domain_name.as_str());
        domain.properties.highvalue = true;
        assert(domain@ == trust_domain(trust@));
        assert(targets[i as int] == trust_domain(trust@));
        let ghost before = domain_views(vec_domains@);
        let ghost added = domain@;
        vec_domains.push(domain);
        i += 1;
        assert(trusts@ =~= vec_trusts@.take(i as int));
        assert(domain_views(vec_domains@) =~= before.push(added));
        assert(targets.take(i as int) =~= targets.take(i - 1).push(added));
        assert(domain_views(vec_domains@) =~= start + targets.take(i as int));
    }
    assert(vec_trusts@.take(vec_trusts@.len() as int) =~= vec_trusts@);
    assert(targets.take(targets.len() as int) =~= targets);
    let ghost all = domain_views(vec_domains@);
    vec_domains[0].trusts = trusts;
    assert(domain_views(vec_domains@) =~= all.update(
        0,
        DomainView { trusts: trust_views(vec_trusts@), ..all[0] },
    ));
}

/// The position of the first template at or after `from` whose display name,
/// up to the `@`, is `name`; `templates.len()` when there is none.
pub open spec fn template_index(templates: Seq<CertTemplateView>, name: Seq<char>, from: int) -> int
    decreases templates.len() - from,
{
    if from < 0 || from >= templates.len() {
        templates.len() as int
    } else if before_first(templates[from].properties.name, '@') == name {
        from
    } else {
        template_index(templates, name, from + 1)
    }
}

/// The node that a published template name stands for: the template of that
/// name (compared in upper case) by its identifier, or the name itself when
/// no such template was collected.
pub open spec fn template_member(name: Seq<char>, templates: Seq<CertTemplateView>) -> MemberView {
    let at = template_index(templates, spec_to_uppercase(name), 0);
    MemberView {
        object_identifier: if at < templates.len() {
            templates[at].common.object_identifier
        } else {
            name
        },
        object_type: "CertTemplate"@,
    }
}

/// The templates of a list as plain values.
pub open spec fn template_views(s: Seq<CertTemplate>) -> Seq<CertTemplateView> {
    s.map_values(|t: CertTemplate| t@)
}

fn resolve_template(name: &String, vec_certtemplates: &Vec<CertTemplate>) -> (m: Member)
    ensures
        m@ == template_member(name@, template_views(vec_certtemplates@)),
{
    let wanted = upper(name.as_str());
    let ghost templates = template_views(vec_certtemplates@);
    let mut i: usize = 0;
    while i < vec_certtemplates.len()
        invariant
            i <= vec_certtemplates.len(),
            templates == template_views(vec_certtemplates@),
            wanted@ == spec_to_uppercase(name@),
            template_index(templates, wanted@, 0) == template_index(templates, wanted@, i as int),
        decreases vec_certtemplates.len() - i,
    {
        let template = &vec_certtemplates[i];
        assert(templates[i as int] == template@);
        let display = chars_of(template.properties.name.as_str());
        let p = position_of(&display, '@', 0);
        let label = string_of_range(&display, 0, p);
        assert(display@.subrange(0, p as int) =~= before_first(display@, '@'));
        if str_eq(label.as_str(), wanted.as_str()) {
            assert(template_index(templates, wanted@, i as int) == i);
            return Member::of(template.common.object_identifier.as_str(), "CertTemplate");
        }
        i += 1;
    }
    Member::of(name.as_str(), "CertTemplate")
}

/// Works out which templates each enterprise authority offers: every template
/// name that the authority publishes becomes a reference to the template.
pub fn templates_enabled_change_displayname_to_sid(
    vec_certtemplates: &Vec<CertTemplate>,
    vec_enterprisecas: &mut Vec<EnterpriseCA>,
)
    ensures
        final(vec_enterprisecas)@.len() == old(vec_enterprisecas)@.len(),
        forall|i: int|
            0 <= i < old(vec_enterprisecas)@.len() ==> (#[trigger] final(vec_enterprisecas)@[i])@
                == (EnterpriseCAView {
                enabled_cert_templates: old(vec_enterprisecas)@[i]@.certificate_templates.map_values(
                    |n: Seq<char>| template_member(n, template_views(vec_certtemplates@)),
                ),
                ..old(vec_enterprisecas)@[i]@
            }),
{
    let mut i: usize = 0;
    while i < vec_enterprisecas.len()
        invariant
            i <= vec_enterprisecas.len(),
            vec_enterprisecas@.len() == old(vec_enterprisecas)@.len(),
            forall|j: int|
                0 <= j < i ==> (#[trigger] vec_enterprisecas@[j])@ == (EnterpriseCAView {
                    enabled_cert_templates: old(
                        vec_enterprisecas,
                    )@[j]@.certificate_templates.map_values(
                        |n: Seq<char>| template_member(n, template_views(vec_certtemplates@)),
                    ),
                    ..old(vec_enterprisecas)@[j]@
                }),
            forall|j: int|
                i <= j < vec_enterprisecas@.len() ==> vec_enterprisecas@[j] == old(
                    vec_enterprisecas,
                )@[j],
        decreases vec_enterprisecas.len() - i,
    {
        let ghost before = vec_enterprisecas@[i as int];
        let mut enabled: Vec<Member> = Vec::new();
        let mut k: usize = 0;
        while k < vec_enterprisecas[i].certificate_templates.len()
            invariant
                i < vec_enterprisecas.len(),
                vec_enterprisecas@[i as int] == before,
                k <= before.certificate_templates.len(),
                enabled.len() == k,
                forall|j: int|
                    0 <= j < k ==> (#[trigger] enabled@[j])@ == template_member(
                        before.certificate_templates@[j]@,
                        template_views(vec_certtemplates@),
                    ),
            decreases before.certificate_templates.len() - k,
        {
            let m = resolve_template(
                &vec_enterprisecas[i].certificate_templates[k],
                vec_certtemplates,
            );
            enabled.push(m);
            k += 1;
        }
        vec_enterprisecas[i].enabled_cert_templates = enabled;
        assert(vec_enterprisecas@[i as int]@.enabled_cert_templates
            =~= before@.certificate_templates.map_values(
            |n: Seq<char>| template_member(n, template_views(vec_certtemplates@)),
        ));
        i += 1;
    }
}

/// Once an entry of the index counts as a child, every longer prefix of the
/// index lists it.
pub proof fn lemma_child_is_listed(
    dn_sid: Entries,
    sid_type: Entries,
    node_dn: Seq<char>,
    node_name: Seq<char>,
    at: int,
    n: nat,
)
    requires
        0 <= at < n <= dn_sid.len(),
        is_direct_child(dn_sid[at].0, node_dn, node_name),
        dn_sid[at].1.len() > 0,
    ensures
        children_among(dn_sid, sid_type, node_dn, node_name, n).contains(
            typed_member(dn_sid[at].1, sid_type, MISSING@),
        ),
    decreases n,
{
    let listed = children_among(dn_sid, sid_type, node_dn, node_name, n);
    let wanted = typed_member(dn_sid[at].1, sid_type, MISSING@);
    if at == n - 1 {
        assert(listed.last() == wanted);
    } else {
        lemma_child_is_listed(dn_sid, sid_type, node_dn, node_name, at, (n - 1) as nat);
        let before = children_among(dn_sid, sid_type, node_dn, node_name, (n - 1) as nat);
        let k = choose|k: int| 0 <= k < before.len() && before[k] == wanted;
        assert(listed[k] == wanted);
    }
}

/// The children pass lists nothing else: every member of the list stands for
/// an entry of the index that counts as a child and has an identifier.
pub proof fn lemma_listed_is_child(
    dn_sid: Entries,
    sid_type: Entries,
    node_dn: Seq<char>,
    node_name: Seq<char>,
    n: nat,
    k: int,
)
    requires
        n <= dn_sid.len(),
        0 <= k < children_among(dn_sid, sid_type, node_dn, node_name, n).len(),
    ensures
        exists|i: int|
            0 <= i < n && is_direct_child((#[trigger] dn_sid[i]).0, node_dn, node_name)
                && dn_sid[i].1.len() > 0 && children_among(
                dn_sid,
                sid_type,
                node_dn,
                node_name,
                n,
            )[k] == typed_member(dn_sid[i].1, sid_type, MISSING@),
    decreases n,
{
    let listed = children_among(dn_sid, sid_type, node_dn, node_name, n);
    let before = children_among(dn_sid, sid_type, node_dn, node_name, (n - 1) as nat);
    if k < before.len() {
        lemma_listed_is_child(dn_sid, sid_type, node_dn, node_name, (n - 1) as nat, k);
        let i = choose|i: int|
            0 <= i < n - 1 && is_direct_child((#[trigger] dn_sid[i]).0, node_dn, node_name)
                && dn_sid[i].1.len() > 0 && before[k] == typed_member(
                dn_sid[i].1,
                sid_type,
                MISSING@,
            );
        assert(listed[k] == before[k]);
        assert(0 <= i < n && is_direct_child(dn_sid[i].0, node_dn, node_name));
    } else {
        let e = dn_sid[n - 1];
        assert(listed[k] == typed_member(e.1, sid_type, MISSING@));
        assert(is_direct_child(dn_sid[n - 1].0, node_dn, node_name));
    }
}

/// A node with a single child in the index lists exactly that child: when the
/// entry at `at` is the only one that counts as a child, the list over the
/// first `n` entries is that one member once `n` reaches past `at`, and empty
/// before.
pub proof fn lemma_only_child(
    dn_sid: Entries,
    sid_type: Entries,
    node_dn: Seq<char>,
    node_name: Seq<char>,
    at: int,
    n: nat,
)
    requires
        0 <= at < dn_sid.len(),
        n <= dn_sid.len(),
        is_direct_child(dn_sid[at].0, node_dn, node_name),
        dn_sid[at].1.len() > 0,
        forall|i: int|
            0 <= i < dn_sid.len() && i != at ==> !is_direct_child(
                (#[trigger] dn_sid[i]).0,
                node_dn,
                node_name,
            ),
    ensures
        children_among(dn_sid, sid_type, node_dn, node_name, n) == if at < n {
            seq![typed_member(dn_sid[at].1, sid_type, MISSING@)]
        } else {
            Seq::<MemberView>::empty()
        },
    decreases n,
{
    if n > 0 {
        lemma_only_child(dn_sid, sid_type, node_dn, node_name, at, (n - 1) as nat);
        let before = children_among(dn_sid, sid_type, node_dn, node_name, (n - 1) as nat);
        if at == n - 1 {
            assert(before.push(typed_member(dn_sid[at].1, sid_type, MISSING@)) =~= seq![
                typed_member(dn_sid[at].1, sid_type, MISSING@),
            ]);
        } else {
            assert(!is_direct_child(dn_sid[n - 1].0, node_dn, node_name));
        }
    }
}

/// A node two levels below is no child. Let the upper-case form of an
/// entry's name be two single components followed by `node_dn`. Unless the
/// value of the second component is `node_name`, the entry does not count as
/// a child of the node.
pub proof fn lemma_grandchild_is_no_child(
    entry_dn: Seq<char>,
    node_dn: Seq<char>,
    node_name: Seq<char>,
    first: Seq<char>,
    second: Seq<char>,
)
    requires
        spec_to_uppercase(entry_dn) == first + seq![','] + (second + seq![','] + node_dn),
        !first.contains(','),
        !second.contains(','),
        nth_piece(second, '=', 1) != Some(node_name),
    ensures
        !is_direct_child(entry_dn, node_dn, node_name),
{
    lemma_name_below(second, node_dn);
    lemma_name_below(first, second + seq![','] + node_dn);
}

/// A distinguished name made of one component, a comma and the name `dn` of
/// its parent: its first component is `rdn`, what follows the first comma is
/// `dn`, and its second component is the first component of `dn`.
pub proof fn lemma_name_below(rdn: Seq<char>, dn: Seq<char>)
    requires
        !rdn.contains(','),
    ensures
        before_first(rdn + seq![','] + dn, ',') == rdn,
        after_first(rdn + seq![','] + dn, ',') == Some(dn),
        nth_piece(rdn + seq![','] + dn, ',', 1) == Some(before_first(dn, ',')),
        occurs_at(rdn + seq![','] + dn, dn, rdn.len() as int + 1),
        rdn + seq![','] + dn != dn,
{
    let whole = rdn + seq![','] + dn;
    let cut: int = rdn.len() as int + 1;
    assert(whole[rdn.len() as int] == ',');
    assert forall|i: int| 0 <= i < rdn.len() implies whole[i] != ',' by {
        assert(whole[i] == rdn[i]);
        assert(rdn.contains(rdn[i]));
    }
    lemma_index_of_is(whole, ',', 0, rdn.len() as int);
    assert(before_first(whole, ',') =~= rdn);
    assert(whole.skip(cut) =~= dn);
    assert(whole.subrange(cut, cut + dn.len()) =~= dn);
    assert(nth_piece(whole, ',', 1) == nth_piece(dn, ',', 0));
}

/// Containment is consistent in both directions. Let the index hold a node
/// `a` under the distinguished name `a_dn`, whose first component has the
/// form `key=value`, and a node `b` under `b_rdn,a_dn`, where `b_rdn` is a
/// single component. Let the upper-case form of `b`'s name be a single
/// component followed by `a_dn`, as it is for names stored in upper case.
/// Then the parent pass gives `b` the container `a`, and the children pass
/// lists `b` among the children of `a`.
pub proof fn lemma_containment_round_trip(
    a: NodeCommonView,
    b: NodeCommonView,
    dn_sid: Entries,
    sid_type: Entries,
    a_dn: Seq<char>,
    b_rdn: Seq<char>,
    upper_rdn: Seq<char>,
    at: int,
)
    requires
        key_of_value(dn_sid, spec_to_uppercase(a.object_identifier)) == Some(a_dn),
        lookup(dn_sid, a_dn) == Some(a.object_identifier),
        0 <= at < dn_sid.len(),
        dn_sid[at] == (b_rdn + seq![','] + a_dn, b.object_identifier),
        key_of_value(dn_sid, b.object_identifier) == Some(b_rdn + seq![','] + a_dn),
        b.object_identifier.len() > 0,
        !b_rdn.contains(','),
        spec_to_uppercase(b_rdn + seq![','] + a_dn) == upper_rdn + seq![','] + a_dn,
        !upper_rdn.contains(','),
        nth_piece(before_first(a_dn, ','), '=', 1) is Some,
        lookup_or(sid_type, b.object_identifier, DEFAULT_PRINCIPAL_TYPE@) != "Domain"@,
    ensures
        with_container(b, dn_sid, sid_type).contained_by == Some(
            typed_member(a.object_identifier, sid_type, DEFAULT_PRINCIPAL_TYPE@),
        ),
        with_children(a, dn_sid, sid_type).child_objects.contains(
            typed_member(b.object_identifier, sid_type, MISSING@),
        ),
{
    let b_dn = b_rdn + seq![','] + a_dn;
    reveal_strlit(",");
    assert(","@ =~= seq![',']);
    // The parent's name follows the first component and its comma.
    lemma_name_below(b_rdn, a_dn);
    let pattern = b_rdn + ","@;
    assert(b_dn.subrange(0, pattern.len() as int) =~= pattern);
    assert(occurs_at(b_dn, pattern, 0));
    assert(find_seq(b_dn, pattern, 0) == Some(0int));
    assert(b_dn.skip(b_rdn.len() as int + 1) =~= a_dn);
    assert(spec_contained_by_name(b_rdn, b_dn) == a_dn);
    // In upper case the name holds `a_dn`, is longer, and its second
    // component is the first of `a_dn`.
    lemma_name_below(upper_rdn, a_dn);
    assert(parent_name(spec_to_uppercase(b_dn)) == Some(spec_name_from_dn(a_dn)));
    assert(is_direct_child(b_dn, a_dn, spec_name_from_dn(a_dn)));
    lemma_child_is_listed(dn_sid, sid_type, a_dn, spec_name_from_dn(a_dn), at, dn_sid.len());
}

} // verus!
