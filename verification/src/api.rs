//! The cross-reference index, the decoded collections, and the decoding of a
//! run of records.

use crate::enums::ldaptype::{get_type, spec_get_type, Type};
use crate::ldap::{entry_views, EntryView, LdapSearchEntry};
use crate::mappings::lookup;
use crate::mappings::{Entries, StringMap};
use crate::objects::aiaca::{AIACAView, AIACA, AIACA_TYPE};
use crate::objects::certtemplate::{CertTemplate, CertTemplateView, CERT_TEMPLATE_TYPE};
use crate::objects::computer::{Computer, ComputerView, COMPUTER_TYPE};
use crate::objects::container::{Container, ContainerView, CONTAINER_TYPE};
use crate::objects::decode::{
    index_after, lemma_index_holds_node, registered_dn, registered_type, seeded_address,
    stands_alone, Registration,
};
use crate::objects::domain::UNKNOWN_DOMAIN_SID;
use crate::objects::domain::{Domain, DomainView, DOMAIN_TYPE};
use crate::objects::enterpriseca::{EnterpriseCA, EnterpriseCAView, ENTERPRISE_CA_TYPE};
use crate::objects::fsp::{Fsp, FspView, FSP_TYPE};
use crate::objects::gpo::{Gpo, GpoView, GPO_TYPE};
use crate::objects::group::{Group, GroupView, GROUP_TYPE};
use crate::objects::inssuancepolicie::{IssuancePolicie, IssuancePolicieView, ISSUANCE_POLICIE_TYPE};
use crate::objects::ntauthstore::{NtAuthStore, NtAuthStoreView, NT_AUTH_STORE_TYPE};
use crate::objects::ou::{Ou, OuView, OU_TYPE};
use crate::objects::rootca::{RootCA, RootCAView, ROOT_CA_TYPE};
use crate::objects::trust::{Trust, TrustView};
use crate::objects::UNRESOLVED;
use crate::objects::user::{User, UserView, USER_TYPE};
use crate::storage::EntrySource;
use crate::text::{contains, contains_seq, chars_of, spec_to_uppercase, upper};
use vstd::prelude::*;
use vstd::string::*;

verus! {

/// The cross-reference index of one run: four maps that the decoders fill and
/// the resolver reads.
pub struct DomainMappings {
    /// DN to SID
    pub dn_sid: StringMap,
    /// SID to Type
    pub sid_type: StringMap,
    /// FQDN to SID
    pub fqdn_sid: StringMap,
    /// fqdn to an ip address
    pub fqdn_ip: StringMap,
}

/// The index as plain values.
pub struct MappingsView {
    pub dn_sid: Entries,
    pub sid_type: Entries,
    pub fqdn_sid: Entries,
    pub fqdn_ip: Entries,
}

impl View for DomainMappings {
    type V = MappingsView;

    open spec fn view(&self) -> MappingsView {
        MappingsView {
            dn_sid: self.dn_sid@,
            sid_type: self.sid_type@,
            fqdn_sid: self.fqdn_sid@,
            fqdn_ip: self.fqdn_ip@,
        }
    }
}

impl DomainMappings {
    /// The index at the start of a run: four empty maps.
    pub open spec fn spec_new() -> MappingsView {
        MappingsView {
            dn_sid: Seq::empty(),
            sid_type: Seq::empty(),
            fqdn_sid: Seq::empty(),
            fqdn_ip: Seq::empty(),
        }
    }

    pub fn new() -> (m: Self)
        ensures
            m@ == Self::spec_new(),
    {
        DomainMappings {
            dn_sid: StringMap::new(),
            sid_type: StringMap::new(),
            fqdn_sid: StringMap::new(),
            fqdn_ip: StringMap::new(),
        }
    }
}

/// The values of a list as plain values.
pub open spec fn views<T: View>(s: Seq<T>) -> Seq<T::V> {
    s.map_values(|x: T| x@)
}

/// Appends a node to a collection.
pub fn push_node<T: View>(collection: &mut Vec<T>, node: T)
    ensures
        views(final(collection)@) == views(old(collection)@).push(node@),
{
    collection.push(node);
    assert(views(collection@) =~= views(old(collection)@).push(node@));
}

/// A character of an identifier with dashes: a letter, a digit or a dash.
pub open spec fn is_word_char(c: char) -> bool {
    ('a' <= c && c <= 'z') || ('A' <= c && c <= 'Z') || ('0' <= c && c <= '9') || c == '-'
}

/// The position of the first dash after `i` that only word characters
/// separate from `i`, and `i` itself must hold a word character.
pub open spec fn next_dash(s: Seq<char>, i: int, j: int) -> Option<int>
    decreases s.len() - j,
{
    if i < 0 || j <= i || j >= s.len() || !is_word_char(s[i]) {
        None
    } else if s[j] == '-' {
        Some(j)
    } else if is_word_char(s[j]) {
        next_dash(s, i, j + 1)
    } else {
        None
    }
}

/// Whether four runs of word characters, joined by dashes, start at `start`.
pub open spec fn dashed_word_at(s: Seq<char>, start: int) -> bool {
    match next_dash(s, start, start + 1) {
        Some(first) => match next_dash(s, first + 1, first + 2) {
            Some(second) => match next_dash(s, second + 1, second + 2) {
                Some(third) => third + 1 < s.len() && is_word_char(s[third + 1]),
                None => false,
            },
            None => false,
        },
        None => false,
    }
}

/// Whether a text holds four runs of word characters joined by dashes, as the
/// names of objects that are named by a GUID do.
pub open spec fn has_dashed_word(s: Seq<char>) -> bool {
    exists|start: int| 0 <= start < s.len() && dashed_word_at(s, start)
}

/// Whether a container is left out of the collection: one named by a GUID,
/// and whatever lies under the domain updates of the system container.
pub open spec fn is_skipped_container(dn: Seq<char>) -> bool {
    has_dashed_word(spec_to_uppercase(dn)) || contains_seq(
        spec_to_uppercase(dn),
        "CN=DOMAINUPDATES,CN=SYSTEM,"@,
    )
}

fn word_char(c: char) -> (r: bool)
    ensures
        r == is_word_char(c),
{
    ('a' <= c && c <= 'z') || ('A' <= c && c <= 'Z') || ('0' <= c && c <= '9') || c == '-'
}

fn find_next_dash(s: &Vec<char>, i: usize) -> (r: Option<usize>)
    ensures
        match r {
            Some(j) => next_dash(s@, i as int, i + 1) == Some(j as int) && i < j < s.len(),
            None => next_dash(s@, i as int, i + 1) is None,
        },
{
    let len: usize = s.len();
    if i >= len || !word_char(s[i]) {
        return None;
    }
    let mut j: usize = i + 1;
    while j < len
        invariant
            i < j <= len,
            len == s.len(),
            is_word_char(s@[i as int]),
            next_dash(s@, i as int, i + 1) == next_dash(s@, i as int, j as int),
        decreases len - j,
    {
        if s[j] == '-' {
            return Some(j);
        }
        if !word_char(s[j]) {
            return None;
        }
        j += 1;
    }
    None
}

fn check_dashed_word_at(s: &Vec<char>, start: usize) -> (r: bool)
    ensures
        r == dashed_word_at(s@, start as int),
{
    let first = match find_next_dash(s, start) {
        Some(j) => j,
        None => {
            return false;
        },
    };
    let second = match find_next_dash(s, first + 1) {
        Some(j) => j,
        None => {
            return false;
        },
    };
    let third = match find_next_dash(s, second + 1) {
        Some(j) => j,
        None => {
            return false;
        },
    };
    third + 1 < s.len() && word_char(s[third + 1])
}

/// Whether a container is left out of the collection.
pub fn skip_container(dn: &str) -> (r: bool)
    ensures
        r == is_skipped_container(dn@),
{
    let dn_upper = upper(dn);
    if contains(dn_upper.as_str(), "CN=DOMAINUPDATES,CN=SYSTEM,") {
        return true;
    }
    let s = chars_of(dn_upper.as_str());
    let mut start: usize = 0;
    while start < s.len()
        invariant
            start <= s.len(),
            s@ == spec_to_uppercase(dn@),
            forall|k: int| 0 <= k < start ==> !dashed_word_at(s@, k),
        decreases s.len() - start,
    {
        if check_dashed_word_at(&s, start) {
            return true;
        }
        start += 1;
    }
    false
}

/// Everything that a run collects: one collection for each type of node,
/// the trusts, and the index.
pub struct ADResults {
    pub users: Vec<User>,
    pub groups: Vec<Group>,
    pub computers: Vec<Computer>,
    pub ous: Vec<Ou>,
    pub domains: Vec<Domain>,
    pub gpos: Vec<Gpo>,
    pub fsps: Vec<Fsp>,
    pub containers: Vec<Container>,
    pub trusts: Vec<Trust>,
    pub ntauthstores: Vec<NtAuthStore>,
    pub aiacas: Vec<AIACA>,
    pub rootcas: Vec<RootCA>,
    pub enterprisecas: Vec<EnterpriseCA>,
    pub certtemplates: Vec<CertTemplate>,
    pub issuancepolicies: Vec<IssuancePolicie>,
    pub mappings: DomainMappings,
}

/// The collections as plain values.
pub struct ADResultsView {
    pub users: Seq<UserView>,
    pub groups: Seq<GroupView>,
    pub computers: Seq<ComputerView>,
    pub ous: Seq<OuView>,
    pub domains: Seq<DomainView>,
    pub gpos: Seq<GpoView>,
    pub fsps: Seq<FspView>,
    pub containers: Seq<ContainerView>,
    pub trusts: Seq<TrustView>,
    pub ntauthstores: Seq<NtAuthStoreView>,
    pub aiacas: Seq<AIACAView>,
    pub rootcas: Seq<RootCAView>,
    pub enterprisecas: Seq<EnterpriseCAView>,
    pub certtemplates: Seq<CertTemplateView>,
    pub issuancepolicies: Seq<IssuancePolicieView>,
    pub mappings: MappingsView,
}

impl View for ADResults {
    type V = ADResultsView;

    open spec fn view(&self) -> ADResultsView {
        ADResultsView {
            users: views(self.users@),
            groups: views(self.groups@),
            computers: views(self.computers@),
            ous: views(self.ous@),
            domains: views(self.domains@),
            gpos: views(self.gpos@),
            fsps: views(self.fsps@),
            containers: views(self.containers@),
            trusts: views(self.trusts@),
            ntauthstores: views(self.ntauthstores@),
            aiacas: views(self.aiacas@),
            rootcas: views(self.rootcas@),
            enterprisecas: views(self.enterprisecas@),
            certtemplates: views(self.certtemplates@),
            issuancepolicies: views(self.issuancepolicies@),
            mappings: self.mappings@,
        }
    }
}

/// The index after a node is entered under its distinguished name and its
/// identifier.
pub open spec fn indexed(
    m: MappingsView,
    dn: Seq<char>,
    id: Seq<char>,
    kind: Seq<char>,
) -> MappingsView {
    MappingsView {
        dn_sid: registered_dn(m.dn_sid, dn, id),
        sid_type: registered_type(m.sid_type, id, kind),
        ..m
    }
}

/// The index after a computer is entered under its names and its identifier.
pub open spec fn indexed_host(
    m: MappingsView,
    dn: Seq<char>,
    name: Seq<char>,
    id: Seq<char>,
    kind: Seq<char>,
) -> MappingsView {
    MappingsView {
        dn_sid: registered_dn(m.dn_sid, dn, id),
        sid_type: registered_type(m.sid_type, id, kind),
        fqdn_sid: registered_dn(m.fqdn_sid, name, id),
        fqdn_ip: seeded_address(m.fqdn_ip, name, id),
    }
}

impl ADResults {
    /// The collections at the start of a run: all empty.
    pub open spec fn spec_new() -> ADResultsView {
        ADResultsView {
            users: Seq::empty(),
            groups: Seq::empty(),
            computers: Seq::empty(),
            ous: Seq::empty(),
            domains: Seq::empty(),
            gpos: Seq::empty(),
            fsps: Seq::empty(),
            containers: Seq::empty(),
            trusts: Seq::empty(),
            ntauthstores: Seq::empty(),
            aiacas: Seq::empty(),
            rootcas: Seq::empty(),
            enterprisecas: Seq::empty(),
            certtemplates: Seq::empty(),
            issuancepolicies: Seq::empty(),
            mappings: DomainMappings::spec_new(),
        }
    }

    pub fn new() -> (r: Self)
        ensures
            r@ == Self::spec_new(),
    {
        let r = ADResults {
            users: Vec::new(),
            groups: Vec::new(),
            computers: Vec::new(),
            ous: Vec::new(),
            domains: Vec::new(),
            gpos: Vec::new(),
            fsps: Vec::new(),
            containers: Vec::new(),
            trusts: Vec::new(),
            ntauthstores: Vec::new(),
            aiacas: Vec::new(),
            rootcas: Vec::new(),
            enterprisecas: Vec::new(),
            certtemplates: Vec::new(),
            issuancepolicies: Vec::new(),
            mappings: DomainMappings::new(),
        };
        assert(r@.users =~= Seq::empty());
        assert(r@.groups =~= Seq::empty());
        assert(r@.computers =~= Seq::empty());
        assert(r@.ous =~= Seq::empty());
        assert(r@.domains =~= Seq::empty());
        assert(r@.gpos =~= Seq::empty());
        assert(r@.fsps =~= Seq::empty());
        assert(r@.containers =~= Seq::empty());
        assert(r@.trusts =~= Seq::empty());
        assert(r@.ntauthstores =~= Seq::empty());
        assert(r@.aiacas =~= Seq::empty());
        assert(r@.rootcas =~= Seq::empty());
        assert(r@.enterprisecas =~= Seq::empty());
        assert(r@.certtemplates =~= Seq::empty());
        assert(r@.issuancepolicies =~= Seq::empty());
        r
    }

    /// The collections after the record of an user is decoded.
    pub open spec fn spec_with_user(
        r: ADResultsView,
        entry: EntryView,
        domain: Seq<char>,
        domain_sid: Seq<char>,
    ) -> ADResultsView {
        let node = User::spec_parse(User::spec_new(), entry, domain, domain_sid);
        ADResultsView {
            users: r.users.push(node),
            mappings: indexed(
                r.mappings,
                node.properties.distinguishedname,
                node.common.object_identifier,
                USER_TYPE@,
            ),
            ..r
        }
    }

    fn ingest_user(&mut self, entry: &LdapSearchEntry, domain: &str, domain_sid: &str)
        ensures
            final(self)@ == Self::spec_with_user(old(self)@, entry@, domain@, domain_sid@),
    {
        let mut node = User::new();
        node.parse(
            entry,
            domain,
            &mut self.mappings.dn_sid,
            &mut self.mappings.sid_type,
            domain_sid,
        );
        push_node(&mut self.users, node);
    }

    /// The collections after the record of a group is decoded.
    pub open spec fn spec_with_group(
        r: ADResultsView,
        entry: EntryView,
        domain: Seq<char>,
        domain_sid: Seq<char>,
    ) -> ADResultsView {
        let node = Group::spec_parse(Group::spec_new(), entry, domain, domain_sid);
        ADResultsView {
            groups: r.groups.push(node),
            mappings: indexed(
                r.mappings,
                node.properties.distinguishedname,
                node.common.object_identifier,
                GROUP_TYPE@,
            ),
            ..r
        }
    }

    fn ingest_group(&mut self, entry: &LdapSearchEntry, domain: &str, domain_sid: &str)
        ensures
            final(self)@ == Self::spec_with_group(old(self)@, entry@, domain@, domain_sid@),
    {
        let mut node = Group::new();
        node.parse(
            entry,
            domain,
            &mut self.mappings.dn_sid,
            &mut self.mappings.sid_type,
            domain_sid,
        );
        push_node(&mut self.groups, node);
    }

    /// The collections after the record of a computer is decoded.
    pub open spec fn spec_with_computer(
        r: ADResultsView,
        entry: EntryView,
        domain: Seq<char>,
        domain_sid: Seq<char>,
    ) -> ADResultsView {
        let node = Computer::spec_parse(Computer::spec_new(), entry, domain, domain_sid);
        ADResultsView {
            computers: r.computers.push(node),
            mappings: indexed_host(
                r.mappings,
                node.properties.distinguishedname,
                node.properties.name,
                node.common.object_identifier,
                COMPUTER_TYPE@,
            ),
            ..r
        }
    }

    fn ingest_computer(&mut self, entry: &LdapSearchEntry, domain: &str, domain_sid: &str)
        ensures
            final(self)@ == Self::spec_with_computer(old(self)@, entry@, domain@, domain_sid@),
    {
        let mut node = Computer::new();
        node.parse(
            entry,
            domain,
            &mut self.mappings.dn_sid,
            &mut self.mappings.sid_type,
            &mut self.mappings.fqdn_sid,
            &mut self.mappings.fqdn_ip,
            domain_sid,
        );
        push_node(&mut self.computers, node);
    }

    /// The collections after the record of an organizational unit is decoded.
    pub open spec fn spec_with_ou(
        r: ADResultsView,
        entry: EntryView,
        domain: Seq<char>,
        domain_sid: Seq<char>,
    ) -> ADResultsView {
        let node = Ou::spec_parse(Ou::spec_new(), entry, domain, domain_sid);
        ADResultsView {
            ous: r.ous.push(node),
            mappings: indexed(
                r.mappings,
                node.properties.distinguishedname,
                node.common.object_identifier,
                OU_TYPE@,
            ),
            ..r
        }
    }

    fn ingest_ou(&mut self, entry: &LdapSearchEntry, domain: &str, domain_sid: &str)
        ensures
            final(self)@ == Self::spec_with_ou(old(self)@, entry@, domain@, domain_sid@),
    {
        let mut node = Ou::new();
        node.parse(
            entry,
            domain,
            &mut self.mappings.dn_sid,
            &mut self.mappings.sid_type,
            domain_sid,
        );
        push_node(&mut self.ous, node);
    }

    /// The domain that a record describes, decoded from a fresh node.
    pub open spec fn spec_decoded_domain(entry: EntryView, domain: Seq<char>) -> DomainView {
        Domain::spec_parse(
            Domain::spec_new(),
            entry,
            domain,
            Domain::spec_new().properties.domainsid,
        )
    }

    /// The collections after the record of a domain is decoded.
    pub open spec fn spec_with_domain(
        r: ADResultsView,
        entry: EntryView,
        domain: Seq<char>,
    ) -> ADResultsView {
        let node = Self::spec_decoded_domain(entry, domain);
        ADResultsView {
            domains: r.domains.push(node),
            mappings: indexed(
                r.mappings,
                node.properties.distinguishedname,
                node.common.object_identifier,
                DOMAIN_TYPE@,
            ),
            ..r
        }
    }

    fn ingest_domain(&mut self, entry: &LdapSearchEntry, domain: &str) -> (found: String)
        ensures
            final(self)@ == Self::spec_with_domain(old(self)@, entry@, domain@),
            found@ == Domain::spec_domain_sid_of(Self::spec_decoded_domain(entry@, domain@)),
    {
        let mut node = Domain::new();
        let found = node.parse(
            entry,
            domain,
            &mut self.mappings.dn_sid,
            &mut self.mappings.sid_type,
        );
        push_node(&mut self.domains, node);
        found
    }

    /// The collections after the record of a group policy object is decoded.
    pub open spec fn spec_with_gpo(
        r: ADResultsView,
        entry: EntryView,
        domain: Seq<char>,
        domain_sid: Seq<char>,
    ) -> ADResultsView {
        let node = Gpo::spec_parse(Gpo::spec_new(), entry, domain, domain_sid);
        ADResultsView {
            gpos: r.gpos.push(node),
            mappings: indexed(
                r.mappings,
                node.properties.distinguishedname,
                node.common.object_identifier,
                GPO_TYPE@,
            ),
            ..r
        }
    }

    fn ingest_gpo(&mut self, entry: &LdapSearchEntry, domain: &str, domain_sid: &str)
        ensures
            final(self)@ == Self::spec_with_gpo(old(self)@, entry@, domain@, domain_sid@),
    {
        let mut node = Gpo::new();
        node.parse(
            entry,
            domain,
            &mut self.mappings.dn_sid,
            &mut self.mappings.sid_type,
            domain_sid,
        );
        push_node(&mut self.gpos, node);
    }

    /// The collections after the record of a foreign security principal is decoded.
    pub open spec fn spec_with_fsp(
        r: ADResultsView,
        entry: EntryView,
        domain: Seq<char>,
        domain_sid: Seq<char>,
    ) -> ADResultsView {
        let node = Fsp::spec_parse(Fsp::spec_new(), entry, domain, domain_sid);
        ADResultsView {
            fsps: r.fsps.push(node),
            mappings: indexed(
                r.mappings,
                node.properties.distinguishedname,
                node.common.object_identifier,
                FSP_TYPE@,
            ),
            ..r
        }
    }

    fn ingest_fsp(&mut self, entry: &LdapSearchEntry, domain: &str, domain_sid: &str)
        ensures
            final(self)@ == Self::spec_with_fsp(old(self)@, entry@, domain@, domain_sid@),
    {
        let mut node = Fsp::new();
        node.parse(
            entry,
            domain,
            &mut self.mappings.dn_sid,
            &mut self.mappings.sid_type,
            domain_sid,
        );
        push_node(&mut self.fsps, node);
    }

    /// The collections after the record of a container is decoded.
    pub open spec fn spec_with_container(
        r: ADResultsView,
        entry: EntryView,
        domain: Seq<char>,
        domain_sid: Seq<char>,
    ) -> ADResultsView {
        let node = Container::spec_parse(Container::spec_new(), entry, domain, domain_sid);
        ADResultsView {
            containers: r.containers.push(node),
            mappings: indexed(
                r.mappings,
                node.properties.distinguishedname,
                node.common.object_identifier,
                CONTAINER_TYPE@,
            ),
            ..r
        }
    }

    fn ingest_container(&mut self, entry: &LdapSearchEntry, domain: &str, domain_sid: &str)
        ensures
            final(self)@ == Self::spec_with_container(old(self)@, entry@, domain@, domain_sid@),
    {
        let mut node = Container::new();
        node.parse(
            entry,
            domain,
            &mut self.mappings.dn_sid,
            &mut self.mappings.sid_type,
            domain_sid,
        );
        push_node(&mut self.containers, node);
    }

    /// The collections after the record of a trust is decoded.
    pub open spec fn spec_with_trust(
        r: ADResultsView,
        entry: EntryView,
        domain: Seq<char>,
    ) -> ADResultsView {
        ADResultsView {
            trusts: r.trusts.push(Trust::spec_parse(Trust::spec_new(), entry, domain)),
            ..r
        }
    }

    fn ingest_trust(&mut self, entry: &LdapSearchEntry, domain: &str)
        ensures
            final(self)@ == Self::spec_with_trust(old(self)@, entry@, domain@),
    {
        let mut node = Trust::new();
        node.parse(entry, domain);
        push_node(&mut self.trusts, node);
    }

    /// The collections after the record of a store of trusted certificates is decoded.
    pub open spec fn spec_with_ntauthstore(
        r: ADResultsView,
        entry: EntryView,
        domain: Seq<char>,
        domain_sid: Seq<char>,
    ) -> ADResultsView {
        let node = NtAuthStore::spec_parse(NtAuthStore::spec_new(), entry, domain, domain_sid);
        ADResultsView {
            ntauthstores: r.ntauthstores.push(node),
            mappings: indexed(
                r.mappings,
                node.properties.distinguishedname,
                node.common.object_identifier,
                NT_AUTH_STORE_TYPE@,
            ),
            ..r
        }
    }

    fn ingest_ntauthstore(&mut self, entry: &LdapSearchEntry, domain: &str, domain_sid: &str)
        ensures
            final(self)@ == Self::spec_with_ntauthstore(old(self)@, entry@, domain@, domain_sid@),
    {
        let mut node = NtAuthStore::new();
        node.parse(
            entry,
            domain,
            &mut self.mappings.dn_sid,
            &mut self.mappings.sid_type,
            domain_sid,
        );
        push_node(&mut self.ntauthstores, node);
    }

    /// The collections after the record of an published authority is decoded.
    pub open spec fn spec_with_aiaca(
        r: ADResultsView,
        entry: EntryView,
        domain: Seq<char>,
        domain_sid: Seq<char>,
    ) -> ADResultsView {
        let node = AIACA::spec_parse(AIACA::spec_new(), entry, domain, domain_sid);
        ADResultsView {
            aiacas: r.aiacas.push(node),
            mappings: indexed(
                r.mappings,
                node.properties.distinguishedname,
                node.common.object_identifier,
                AIACA_TYPE@,
            ),
            ..r
        }
    }

    fn ingest_aiaca(&mut self, entry: &LdapSearchEntry, domain: &str, domain_sid: &str)
        ensures
            final(self)@ == Self::spec_with_aiaca(old(self)@, entry@, domain@, domain_sid@),
    {
        let mut node = AIACA::new();
        node.parse(
            entry,
            domain,
            &mut self.mappings.dn_sid,
            &mut self.mappings.sid_type,
            domain_sid,
        );
        push_node(&mut self.aiacas, node);
    }

    /// The collections after the record of a root authority is decoded.
    pub open spec fn spec_with_rootca(
        r: ADResultsView,
        entry: EntryView,
        domain: Seq<char>,
        domain_sid: Seq<char>,
    ) -> ADResultsView {
        let node = RootCA::spec_parse(RootCA::spec_new(), entry, domain, domain_sid);
        ADResultsView {
            rootcas: r.rootcas.push(node),
            mappings: indexed(
                r.mappings,
                node.properties.distinguishedname,
                node.common.object_identifier,
                ROOT_CA_TYPE@,
            ),
            ..r
        }
    }

    fn ingest_rootca(&mut self, entry: &LdapSearchEntry, domain: &str, domain_sid: &str)
        ensures
            final(self)@ == Self::spec_with_rootca(old(self)@, entry@, domain@, domain_sid@),
    {
        let mut node = RootCA::new();
        node.parse(
            entry,
            domain,
            &mut self.mappings.dn_sid,
            &mut self.mappings.sid_type,
            domain_sid,
        );
        push_node(&mut self.rootcas, node);
    }

    /// The collections after the record of an enterprise authority is decoded.
    pub open spec fn spec_with_enterpriseca(
        r: ADResultsView,
        entry: EntryView,
        domain: Seq<char>,
        domain_sid: Seq<char>,
    ) -> ADResultsView {
        let node = EnterpriseCA::spec_parse(EnterpriseCA::spec_new(), entry, domain, domain_sid);
        ADResultsView {
            enterprisecas: r.enterprisecas.push(node),
            mappings: indexed(
                r.mappings,
                node.properties.distinguishedname,
                node.common.object_identifier,
                ENTERPRISE_CA_TYPE@,
            ),
            ..r
        }
    }

    fn ingest_enterpriseca(&mut self, entry: &LdapSearchEntry, domain: &str, domain_sid: &str)
        ensures
            final(self)@ == Self::spec_with_enterpriseca(old(self)@, entry@, domain@, domain_sid@),
    {
        let mut node = EnterpriseCA::new();
        node.parse(
            entry,
            domain,
            &mut self.mappings.dn_sid,
            &mut self.mappings.sid_type,
            domain_sid,
        );
        push_node(&mut self.enterprisecas, node);
    }

    /// The collections after the record of a certificate template is decoded.
    pub open spec fn spec_with_certtemplate(
        r: ADResultsView,
        entry: EntryView,
        domain: Seq<char>,
        domain_sid: Seq<char>,
    ) -> ADResultsView {
        let node = CertTemplate::spec_parse(CertTemplate::spec_new(), entry, domain, domain_sid);
        ADResultsView {
            certtemplates: r.certtemplates.push(node),
            mappings: indexed(
                r.mappings,
                node.properties.distinguishedname,
                node.common.object_identifier,
                CERT_TEMPLATE_TYPE@,
            ),
            ..r
        }
    }

    fn ingest_certtemplate(&mut self, entry: &LdapSearchEntry, domain: &str, domain_sid: &str)
        ensures
            final(self)@ == Self::spec_with_certtemplate(old(self)@, entry@, domain@, domain_sid@),
    {
        let mut node = CertTemplate::new();
        node.parse(
            entry,
            domain,
            &mut self.mappings.dn_sid,
            &mut self.mappings.sid_type,
            domain_sid,
        );
        push_node(&mut self.certtemplates, node);
    }

    /// The collections after the record of an issuance policy is decoded.
    pub open spec fn spec_with_issuancepolicie(
        r: ADResultsView,
        entry: EntryView,
        domain: Seq<char>,
        domain_sid: Seq<char>,
    ) -> ADResultsView {
        let node = IssuancePolicie::spec_parse(
            IssuancePolicie::spec_new(),
            entry,
            domain,
            domain_sid,
        );
        ADResultsView {
            issuancepolicies: r.issuancepolicies.push(node),
            mappings: indexed(
                r.mappings,
                node.properties.distinguishedname,
                node.common.object_identifier,
                ISSUANCE_POLICIE_TYPE@,
            ),
            ..r
        }
    }

    fn ingest_issuancepolicie(&mut self, entry: &LdapSearchEntry, domain: &str, domain_sid: &str)
        ensures
            final(
                self)@ == Self::spec_with_issuancepolicie(old(self)@,
                entry@,
                domain@,
                domain_sid@,
            ),
    {
        let mut node = IssuancePolicie::new();
        node.parse(
            entry,
            domain,
            &mut self.mappings.dn_sid,
            &mut self.mappings.sid_type,
            domain_sid,
        );
        push_node(&mut self.issuancepolicies, node);
    }

    /// The collections after one more record. The record is classified and
    /// decoded by the decoder of its type; a record of unknown type and a
    /// container that is left out change nothing.
    pub open spec fn spec_ingest(
        r: ADResultsView,
        entry: EntryView,
        domain: Seq<char>,
        domain_sid: Seq<char>,
    ) -> ADResultsView {
        match spec_get_type(entry) {
            Ok(Type::User) => Self::spec_with_user(r, entry, domain, domain_sid),
            Ok(Type::Group) => Self::spec_with_group(r, entry, domain, domain_sid),
            Ok(Type::Computer) => Self::spec_with_computer(r, entry, domain, domain_sid),
            Ok(Type::Ou) => Self::spec_with_ou(r, entry, domain, domain_sid),
            Ok(Type::Domain) => Self::spec_with_domain(r, entry, domain),
            Ok(Type::Gpo) => Self::spec_with_gpo(r, entry, domain, domain_sid),
            Ok(Type::ForeignSecurityPrincipal) => Self::spec_with_fsp(r, entry, domain, domain_sid),
            Ok(Type::Container) => if is_skipped_container(entry.dn) {
                r
            } else {
                Self::spec_with_container(r, entry, domain, domain_sid)
            },
            Ok(Type::Trust) => Self::spec_with_trust(r, entry, domain),
            Ok(Type::NtAutStore) => Self::spec_with_ntauthstore(r, entry, domain, domain_sid),
            Ok(Type::AIACA) => Self::spec_with_aiaca(r, entry, domain, domain_sid),
            Ok(Type::RootCA) => Self::spec_with_rootca(r, entry, domain, domain_sid),
            Ok(Type::EnterpriseCA) => Self::spec_with_enterpriseca(r, entry, domain, domain_sid),
            Ok(Type::CertTemplate) => Self::spec_with_certtemplate(r, entry, domain, domain_sid),
            Ok(Type::IssuancePolicie) => Self::spec_with_issuancepolicie(
                r,
                entry,
                domain,
                domain_sid,
            ),
            _ => r,
        }
    }

    /// The identifier of the domain after one more record: a domain record
    /// gives it, any other record leaves it as it is.
    pub open spec fn spec_domain_sid_after(
        entry: EntryView,
        domain: Seq<char>,
        domain_sid: Seq<char>,
    ) -> Seq<char> {
        if spec_get_type(entry) == Ok::<Type, Type>(Type::Domain) {
            Domain::spec_domain_sid_of(Self::spec_decoded_domain(entry, domain))
        } else {
            domain_sid
        }
    }

    /// Decodes one record into the collections. `domain_sid` is the
    /// identifier of the domain as far as it is known; a domain record
    /// updates it for the records that follow.
    pub fn ingest(&mut self, entry: &LdapSearchEntry, domain: &str, domain_sid: &mut String)
        ensures
            final(self)@ == Self::spec_ingest(old(self)@, entry@, domain@, old(domain_sid)@),
            final(domain_sid)@ == Self::spec_domain_sid_after(entry@, domain@, old(domain_sid)@),
    {
        match get_type(entry) {
            Ok(Type::User) => self.ingest_user(entry, domain, domain_sid.as_str()),
            Ok(Type::Group) => self.ingest_group(entry, domain, domain_sid.as_str()),
            Ok(Type::Computer) => self.ingest_computer(entry, domain, domain_sid.as_str()),
            Ok(Type::Ou) => self.ingest_ou(entry, domain, domain_sid.as_str()),
            Ok(Type::Domain) => {
                let found = self.ingest_domain(entry, domain);
                *domain_sid = found;
            },
            Ok(Type::Gpo) => self.ingest_gpo(entry, domain, domain_sid.as_str()),
            Ok(Type::ForeignSecurityPrincipal) => self.ingest_fsp(
                entry,
                domain,
                domain_sid.as_str(),
            ),
            Ok(Type::Container) => {
                if !skip_container(entry.dn.as_str()) {
                    self.ingest_container(entry, domain, domain_sid.as_str());
                }
            },
            Ok(Type::Trust) => self.ingest_trust(entry, domain),
            Ok(Type::NtAutStore) => self.ingest_ntauthstore(entry, domain, domain_sid.as_str()),
            Ok(Type::AIACA) => self.ingest_aiaca(entry, domain, domain_sid.as_str()),
            Ok(Type::RootCA) => self.ingest_rootca(entry, domain, domain_sid.as_str()),
            Ok(Type::EnterpriseCA) => self.ingest_enterpriseca(entry, domain, domain_sid.as_str()),
            Ok(Type::CertTemplate) => self.ingest_certtemplate(entry, domain, domain_sid.as_str()),
            Ok(Type::IssuancePolicie) => self.ingest_issuancepolicie(
                entry,
                domain,
                domain_sid.as_str(),
            ),
            _ => {},
        }
    }
}

/// The collections and the identifier of the domain after the first `n`
/// records of a run, decoded in order from empty collections and the
/// placeholder identifier `DOMAIN_SID`.
pub open spec fn spec_decode_run(entries: Seq<EntryView>, domain: Seq<char>, n: nat) -> (
    ADResultsView,
    Seq<char>,
)
    decreases n,
{
    if n == 0 {
        (ADResults::spec_new(), UNKNOWN_DOMAIN_SID@)
    } else {
        let before = spec_decode_run(entries, domain, (n - 1) as nat);
        (
            ADResults::spec_ingest(before.0, entries[n - 1], domain, before.1),
            ADResults::spec_domain_sid_after(entries[n - 1], domain, before.1),
        )
    }
}

/// Decodes a run of records: every record is classified, decoded by the
/// decoder of its type and entered in the index, in the order of the source.
pub fn parse_result_type_from_source<S: EntrySource>(domain: &str, source: S) -> (results:
    ADResults)
    ensures
        results@ == spec_decode_run(
            entry_views(source.entries()),
            domain@,
            source.entries().len(),
        ).0,
{
    let entries = source.into_entries();
    let mut results = ADResults::new();
    let mut domain_sid = String::from_str(UNKNOWN_DOMAIN_SID);
    let mut i: usize = 0;
    while i < entries.len()
        invariant
            i <= entries.len(),
            (results@, domain_sid@) == spec_decode_run(entry_views(entries@), domain@, i as nat),
        decreases entries.len() - i,
    {
        assert(entry_views(entries@)[i as int] == entries@[i as int]@);
        results.ingest(&entries[i], domain, &mut domain_sid);
        i += 1;
    }
    results
}

/// Decodes a run of records and completes the graph.
pub fn prepare_results_from_source<S: EntrySource>(source: S, domain: &str) -> (results: ADResults)
    ensures
        exists|decoded: ADResults|
            decoded@ == spec_decode_run(
                entry_views(source.entries()),
                domain@,
                source.entries().len(),
            ).0 && crate::json::checker::is_checked(decoded, results, domain@),
{
    let mut results = parse_result_type_from_source(domain, source);
    crate::json::checker::check_ad_result(domain, &mut results);
    results
}

/// Decodes a run of records held in memory.
pub fn parse_result_type_from_mem(domain: &str, result: Vec<LdapSearchEntry>) -> (results:
    ADResults)
    ensures
        results@ == spec_decode_run(entry_views(result@), domain@, result@.len()).0,
{
    parse_result_type_from_source(domain, result)
}

/// Whether the address of a host is to be looked up: an enabled computer has
/// that name.
pub open spec fn wants_address(name: Seq<char>, computers: Seq<ComputerView>) -> bool {
    exists|i: int|
        0 <= i < computers.len() && (#[trigger] computers[i]).properties.name == name
            && computers[i].properties.enabled
}

/// The hosts among the first `n` entries of the host-name-to-address map whose
/// address is to be looked up.
pub open spec fn hosts_wanted(fqdn_ip: Entries, computers: Seq<ComputerView>, n: nat) -> Seq<
    Seq<char>,
>
    decreases n,
{
    if n == 0 {
        Seq::empty()
    } else {
        let before = hosts_wanted(fqdn_ip, computers, (n - 1) as nat);
        if n <= fqdn_ip.len() && wants_address(fqdn_ip[n - 1].0, computers) {
            before.push(fqdn_ip[n - 1].0)
        } else {
            before
        }
    }
}

fn check_wants_address(name: &str, computers: &Vec<Computer>) -> (r: bool)
    ensures
        r == wants_address(name@, views(computers@)),
{
    let mut i: usize = 0;
    while i < computers.len()
        invariant
            i <= computers.len(),
            forall|j: int|
                0 <= j < i ==> !((#[trigger] views(computers@)[j]).properties.name == name@
                    && views(computers@)[j].properties.enabled),
        decreases computers.len() - i,
    {
        assert(views(computers@)[i as int] == computers@[i as int]@);
        if crate::text::str_eq(computers[i].properties.name.as_str(), name)
            && computers[i].properties.enabled {
            return true;
        }
        i += 1;
    }
    false
}

/// Lists the hosts whose address is to be looked up: the names of the
/// host-name-to-address map that belong to an enabled computer, in map order.
/// The lookup itself is done outside; an address found goes into the map
/// under the host's name.
pub fn hosts_to_resolve(fqdn_ip: &StringMap, computers: &Vec<Computer>) -> (hosts: Vec<String>)
    ensures
        crate::text::texts(hosts@) == hosts_wanted(fqdn_ip@, views(computers@), fqdn_ip@.len()),
{
    let mut hosts: Vec<String> = Vec::new();
    let total: usize = fqdn_ip.len();
    let mut i: usize = 0;
    assert(crate::text::texts(hosts@) =~= Seq::<Seq<char>>::empty());
    while i < total
        invariant
            i <= total,
            total == fqdn_ip@.len(),
            crate::text::texts(hosts@) == hosts_wanted(fqdn_ip@, views(computers@), i as nat),
        decreases total - i,
    {
        let name = fqdn_ip.key(i);
        if check_wants_address(name.as_str(), computers) {
            crate::text::push_text(&mut hosts, name.as_str());
        }
        i += 1;
    }
    hosts
}

/// What the record of a node enters in the index, when the record is
/// decoded to a node at all.
pub open spec fn registration_of(
    entry: EntryView,
    domain: Seq<char>,
    domain_sid: Seq<char>,
) -> Option<Registration> {
    match spec_get_type(entry) {
        Ok(Type::User) => {
            let node = User::spec_parse(User::spec_new(), entry, domain, domain_sid);
            Some(
                Registration {
                    dn: node.properties.distinguishedname,
                    id: node.common.object_identifier,
                    kind: USER_TYPE@,
                },
            )
        },
        Ok(Type::Group) => {
            let node = Group::spec_parse(Group::spec_new(), entry, domain, domain_sid);
            Some(
                Registration {
                    dn: node.properties.distinguishedname,
                    id: node.common.object_identifier,
                    kind: GROUP_TYPE@,
                },
            )
        },
        Ok(Type::Computer) => {
            let node = Computer::spec_parse(Computer::spec_new(), entry, domain, domain_sid);
            Some(
                Registration {
                    dn: node.properties.distinguishedname,
                    id: node.common.object_identifier,
                    kind: COMPUTER_TYPE@,
                },
            )
        },
        Ok(Type::Ou) => {
            let node = Ou::spec_parse(Ou::spec_new(), entry, domain, domain_sid);
            Some(
                Registration {
                    dn: node.properties.distinguishedname,
                    id: node.common.object_identifier,
                    kind: OU_TYPE@,
                },
            )
        },
        Ok(Type::Domain) => {
            let node = ADResults::spec_decoded_domain(entry, domain);
            Some(
                Registration {
                    dn: node.properties.distinguishedname,
                    id: node.common.object_identifier,
                    kind: DOMAIN_TYPE@,
                },
            )
        },
        Ok(Type::Gpo) => {
            let node = Gpo::spec_parse(Gpo::spec_new(), entry, domain, domain_sid);
            Some(
                Registration {
                    dn: node.properties.distinguishedname,
                    id: node.common.object_identifier,
                    kind: GPO_TYPE@,
                },
            )
        },
        Ok(Type::ForeignSecurityPrincipal) => {
            let node = Fsp::spec_parse(Fsp::spec_new(), entry, domain, domain_sid);
            Some(
                Registration {
                    dn: node.properties.distinguishedname,
                    id: node.common.object_identifier,
                    kind: FSP_TYPE@,
                },
            )
        },
        Ok(Type::Container) => {
            let node = Container::spec_parse(Container::spec_new(), entry, domain, domain_sid);
            if is_skipped_container(entry.dn) {
                None
            } else {
                Some(
                    Registration {
                        dn: node.properties.distinguishedname,
                        id: node.common.object_identifier,
                        kind: CONTAINER_TYPE@,
                    },
                )
            }
        },
        Ok(Type::NtAutStore) => {
            let node = NtAuthStore::spec_parse(NtAuthStore::spec_new(), entry, domain, domain_sid);
            Some(
                Registration {
                    dn: node.properties.distinguishedname,
                    id: node.common.object_identifier,
                    kind: NT_AUTH_STORE_TYPE@,
                },
            )
        },
        Ok(Type::AIACA) => {
            let node = AIACA::spec_parse(AIACA::spec_new(), entry, domain, domain_sid);
            Some(
                Registration {
                    dn: node.properties.distinguishedname,
                    id: node.common.object_identifier,
                    kind: AIACA_TYPE@,
                },
            )
        },
        Ok(Type::RootCA) => {
            let node = RootCA::spec_parse(RootCA::spec_new(), entry, domain, domain_sid);
            Some(
                Registration {
                    dn: node.properties.distinguishedname,
                    id: node.common.object_identifier,
                    kind: ROOT_CA_TYPE@,
                },
            )
        },
        Ok(Type::EnterpriseCA) => {
            let node = EnterpriseCA::spec_parse(
                EnterpriseCA::spec_new(),
                entry,
                domain,
                domain_sid,
            );
            Some(
                Registration {
                    dn: node.properties.distinguishedname,
                    id: node.common.object_identifier,
                    kind: ENTERPRISE_CA_TYPE@,
                },
            )
        },
        Ok(Type::CertTemplate) => {
            let node = CertTemplate::spec_parse(
                CertTemplate::spec_new(),
                entry,
                domain,
                domain_sid,
            );
            Some(
                Registration {
                    dn: node.properties.distinguishedname,
                    id: node.common.object_identifier,
                    kind: CERT_TEMPLATE_TYPE@,
                },
            )
        },
        Ok(Type::IssuancePolicie) => {
            let node = IssuancePolicie::spec_parse(
                IssuancePolicie::spec_new(),
                entry,
                domain,
                domain_sid,
            );
            Some(
                Registration {
                    dn: node.properties.distinguishedname,
                    id: node.common.object_identifier,
                    kind: ISSUANCE_POLICIE_TYPE@,
                },
            )
        },
        _ => None,
    }
}

/// What the first `n` records of a run enter in the index, in order.
pub open spec fn run_registrations(entries: Seq<EntryView>, domain: Seq<char>, n: nat) -> Seq<
    Registration,
>
    decreases n,
{
    if n == 0 {
        Seq::empty()
    } else {
        let before = run_registrations(entries, domain, (n - 1) as nat);
        match registration_of(
            entries[n - 1],
            domain,
            spec_decode_run(entries, domain, (n - 1) as nat).1,
        ) {
            Some(r) => before.push(r),
            None => before,
        }
    }
}

/// Entering more nodes does not change what the first `n` left.
pub proof fn lemma_index_after_prefix(nodes: Seq<Registration>, more: Seq<Registration>, n: nat)
    requires
        n <= nodes.len(),
    ensures
        index_after(nodes + more, n) == index_after(nodes, n),
    decreases n,
{
    if n > 0 {
        lemma_index_after_prefix(nodes, more, (n - 1) as nat);
        assert((nodes + more)[n - 1] == nodes[n - 1]);
    }
}

/// The index that a run of records leaves is the index that the nodes of the
/// run leave when they are entered in order.
pub proof fn lemma_run_index(entries: Seq<EntryView>, domain: Seq<char>, n: nat)
    ensures
        spec_decode_run(entries, domain, n).0.mappings.dn_sid == index_after(
            run_registrations(entries, domain, n),
            run_registrations(entries, domain, n).len(),
        ).0,
        spec_decode_run(entries, domain, n).0.mappings.sid_type == index_after(
            run_registrations(entries, domain, n),
            run_registrations(entries, domain, n).len(),
        ).1,
    decreases n,
{
    if n > 0 {
        lemma_run_index(entries, domain, (n - 1) as nat);
        let state = spec_decode_run(entries, domain, (n - 1) as nat);
        let before = run_registrations(entries, domain, (n - 1) as nat);
        match registration_of(entries[n - 1], domain, state.1) {
            Some(r) => {
                let all = before.push(r);
                assert(all =~= before + seq![r]);
                lemma_index_after_prefix(before, seq![r], before.len());
                assert(all[all.len() - 1] == r);
            },
            None => {},
        }
    }
}

/// The index is consistent with the collection of a run. A record that is
/// decoded to a node with a resolvable identifier, and whose name and
/// identifier no other record of the run shares, is found in the index of the
/// run: its identifier leads to its type, its name to its identifier, and no
/// other name leads to its identifier.
pub proof fn lemma_run_index_holds_node(entries: Seq<EntryView>, domain: Seq<char>, i: int)
    requires
        0 <= i < run_registrations(entries, domain, entries.len()).len(),
        run_registrations(entries, domain, entries.len())[i].id != UNRESOLVED@,
        stands_alone(run_registrations(entries, domain, entries.len()), i),
    ensures
        ({
            let index = spec_decode_run(entries, domain, entries.len()).0.mappings;
            let node = run_registrations(entries, domain, entries.len())[i];
            &&& lookup(index.sid_type, node.id) == Some(node.kind)
            &&& lookup(index.dn_sid, node.dn) == Some(node.id)
            &&& forall|k: int|
                0 <= k < index.dn_sid.len() && (#[trigger] index.dn_sid[k]).1 == node.id
                    ==> index.dn_sid[k].0 == node.dn
        }),
{
    let nodes = run_registrations(entries, domain, entries.len());
    lemma_run_index(entries, domain, entries.len());
    lemma_index_holds_node(nodes, i, nodes.len());
}

} // verus!
