//! Parts shared by every kind of node: references to other nodes, access
//! control entries, policy links.

use vstd::prelude::*;
use vstd::string::*;

verus! {

/// A reference to another node: its identifier and the name of its type.
#[derive(Debug)]
pub struct Member {
    pub object_identifier: String,
    pub object_type: String,
}

/// A `Member` as texts.
pub struct MemberView {
    pub object_identifier: Seq<char>,
    pub object_type: Seq<char>,
}

impl View for Member {
    type V = MemberView;

    open spec fn view(&self) -> MemberView {
        MemberView { object_identifier: self.object_identifier@, object_type: self.object_type@ }
    }
}

impl Clone for Member {
    fn clone(&self) -> (r: Self)
        ensures
            r == *self,
    {
        Member {
            object_identifier: self.object_identifier.clone(),
            object_type: self.object_type.clone(),
        }
    }
}

impl Member {
    /// A reference with empty identifier and type.
    pub fn new() -> (m: Self)
        ensures
            m@ == (MemberView { object_identifier: Seq::empty(), object_type: Seq::empty() }),
    {
        Member { object_identifier: String::new(), object_type: String::new() }
    }

    /// A reference to `identifier` of type `object_type`.
    pub fn of(identifier: &str, object_type: &str) -> (m: Self)
        ensures
            m@ == (MemberView { object_identifier: identifier@, object_type: object_type@ }),
    {
        Member {
            object_identifier: String::from_str(identifier),
            object_type: String::from_str(object_type),
        }
    }

    pub fn object_identifier(&self) -> (r: &String)
        ensures
            *r == self.object_identifier,
    {
        &self.object_identifier
    }

    pub fn object_type(&self) -> (r: &String)
        ensures
            *r == self.object_type,
    {
        &self.object_type
    }

    pub fn object_identifier_mut(&mut self) -> (r: &mut String)
        ensures
            *r == old(self).object_identifier,
            *final(self) == (Member { object_identifier: *final(r), ..*old(self) }),
    {
        &mut self.object_identifier
    }

    pub fn object_type_mut(&mut self) -> (r: &mut String)
        ensures
            *r == old(self).object_type,
            *final(self) == (Member { object_type: *final(r), ..*old(self) }),
    {
        &mut self.object_type
    }
}

/// The references of a list as plain values.
pub open spec fn member_views(s: Seq<Member>) -> Seq<MemberView> {
    s.map_values(|m: Member| m@)
}

/// The optional reference as plain values.
pub open spec fn member_option_view(m: Option<Member>) -> Option<MemberView> {
    match m {
        Some(m) => Some(m@),
        None => None,
    }
}

/// A link from a domain or an organizational unit to a group policy object.
#[derive(Debug)]
pub struct Link {
    pub is_enforced: bool,
    /// The policy object: first the reference found in the link attribute,
    /// later the object's identifier.
    pub guid: String,
}

/// A `Link` as plain values.
pub struct LinkView {
    pub is_enforced: bool,
    pub guid: Seq<char>,
}

impl View for Link {
    type V = LinkView;

    open spec fn view(&self) -> LinkView {
        LinkView { is_enforced: self.is_enforced, guid: self.guid@ }
    }
}

impl Clone for Link {
    fn clone(&self) -> (r: Self)
        ensures
            r == *self,
    {
        Link { is_enforced: self.is_enforced, guid: self.guid.clone() }
    }
}

impl Link {
    pub fn new(is_enforced: bool, guid: String) -> (l: Self)
        ensures
            l == (Link { is_enforced, guid }),
    {
        Link { is_enforced, guid }
    }

    pub fn is_enforced(&self) -> (r: &bool)
        ensures
            *r == self.is_enforced,
    {
        &self.is_enforced
    }

    pub fn guid(&self) -> (r: &String)
        ensures
            *r == self.guid,
    {
        &self.guid
    }

    pub fn is_enforced_mut(&mut self) -> (r: &mut bool)
        ensures
            *r == old(self).is_enforced,
            *final(self) == (Link { is_enforced: *final(r), ..*old(self) }),
    {
        &mut self.is_enforced
    }

    pub fn guid_mut(&mut self) -> (r: &mut String)
        ensures
            *r == old(self).guid,
            *final(self) == (Link { guid: *final(r), ..*old(self) }),
    {
        &mut self.guid
    }
}

/// The links of a list as plain values.
pub open spec fn link_views(s: Seq<Link>) -> Seq<LinkView> {
    s.map_values(|l: Link| l@)
}

/// The principals that a group policy changes on the machines in its scope,
/// and those machines.
#[derive(Debug)]
pub struct GPOChange {
    pub local_admins: Vec<Member>,
    pub remote_desktop_users: Vec<Member>,
    pub dcom_users: Vec<Member>,
    pub psremote_users: Vec<Member>,
    pub affected_computers: Vec<Member>,
}

/// A `GPOChange` as plain values.
pub struct GPOChangeView {
    pub local_admins: Seq<MemberView>,
    pub remote_desktop_users: Seq<MemberView>,
    pub dcom_users: Seq<MemberView>,
    pub psremote_users: Seq<MemberView>,
    pub affected_computers: Seq<MemberView>,
}

impl View for GPOChange {
    type V = GPOChangeView;

    open spec fn view(&self) -> GPOChangeView {
        GPOChangeView {
            local_admins: member_views(self.local_admins@),
            remote_desktop_users: member_views(self.remote_desktop_users@),
            dcom_users: member_views(self.dcom_users@),
            psremote_users: member_views(self.psremote_users@),
            affected_computers: member_views(self.affected_computers@),
        }
    }
}

/// A change record that names nobody.
pub open spec fn empty_gpo_change() -> GPOChangeView {
    GPOChangeView {
        local_admins: Seq::empty(),
        remote_desktop_users: Seq::empty(),
        dcom_users: Seq::empty(),
        psremote_users: Seq::empty(),
        affected_computers: Seq::empty(),
    }
}

impl GPOChange {
    pub fn new() -> (g: Self)
        ensures
            g@ == empty_gpo_change(),
    {
        let g = GPOChange {
            local_admins: Vec::new(),
            remote_desktop_users: Vec::new(),
            dcom_users: Vec::new(),
            psremote_users: Vec::new(),
            affected_computers: Vec::new(),
        };
        assert(g@.local_admins =~= Seq::empty());
        assert(g@.remote_desktop_users =~= Seq::empty());
        assert(g@.dcom_users =~= Seq::empty());
        assert(g@.psremote_users =~= Seq::empty());
        assert(g@.affected_computers =~= Seq::empty());
        g
    }

    /// A change record whose scope is `computers` and that names nobody else.
    pub fn affecting(computers: Vec<Member>) -> (g: Self)
        ensures
            g@ == (GPOChangeView {
                affected_computers: member_views(computers@),
                ..empty_gpo_change()
            }),
    {
        let g = GPOChange {
            local_admins: Vec::new(),
            remote_desktop_users: Vec::new(),
            dcom_users: Vec::new(),
            psremote_users: Vec::new(),
            affected_computers: computers,
        };
        assert(g@.local_admins =~= Seq::empty());
        assert(g@.remote_desktop_users =~= Seq::empty());
        assert(g@.dcom_users =~= Seq::empty());
        assert(g@.psremote_users =~= Seq::empty());
        g
    }

    pub fn affected_computers(&self) -> (r: &Vec<Member>)
        ensures
            *r == self.affected_computers,
    {
        &self.affected_computers
    }

    pub fn affected_computers_mut(&mut self) -> (r: &mut Vec<Member>)
        ensures
            *r == old(self).affected_computers,
            *final(self) == (GPOChange { affected_computers: *final(r), ..*old(self) }),
    {
        &mut self.affected_computers
    }
}

/// One access control entry: who holds which right on the node.
#[derive(Debug)]
pub struct AceTemplate {
    pub principal_sid: String,
    /// The type of the principal; known only once every node is indexed.
    pub principal_type: String,
    pub right_name: String,
    pub is_inherited: bool,
    pub inheritance_hash: String,
}

/// An `AceTemplate` as plain values.
pub struct AceView {
    pub principal_sid: Seq<char>,
    pub principal_type: Seq<char>,
    pub right_name: Seq<char>,
    pub is_inherited: bool,
    pub inheritance_hash: Seq<char>,
}

impl View for AceTemplate {
    type V = AceView;

    open spec fn view(&self) -> AceView {
        AceView {
            principal_sid: self.principal_sid@,
            principal_type: self.principal_type@,
            right_name: self.right_name@,
            is_inherited: self.is_inherited,
            inheritance_hash: self.inheritance_hash@,
        }
    }
}

impl AceTemplate {
    pub fn new(
        principal_sid: String,
        principal_type: String,
        right_name: String,
        is_inherited: bool,
        inheritance_hash: String,
    ) -> (a: Self)
        ensures
            a == (AceTemplate {
                principal_sid,
                principal_type,
                right_name,
                is_inherited,
                inheritance_hash,
            }),
    {
        AceTemplate { principal_sid, principal_type, right_name, is_inherited, inheritance_hash }
    }

    pub fn principal_sid(&self) -> (r: &String)
        ensures
            *r == self.principal_sid,
    {
        &self.principal_sid
    }

    pub fn principal_type(&self) -> (r: &String)
        ensures
            *r == self.principal_type,
    {
        &self.principal_type
    }

    pub fn right_name(&self) -> (r: &String)
        ensures
            *r == self.right_name,
    {
        &self.right_name
    }

    pub fn is_inherited(&self) -> (r: &bool)
        ensures
            *r == self.is_inherited,
    {
        &self.is_inherited
    }

    pub fn principal_type_mut(&mut self) -> (r: &mut String)
        ensures
            *r == old(self).principal_type,
            *final(self) == (AceTemplate { principal_type: *final(r), ..*old(self) }),
    {
        &mut self.principal_type
    }
}

/// The entries of a list as plain values.
pub open spec fn ace_views(s: Seq<AceTemplate>) -> Seq<AceView> {
    s.map_values(|a: AceTemplate| a@)
}

/// A service that an account may delegate to, on a given host.
#[derive(Debug)]
pub struct SPNTarget {
    /// The host: first its name, later its identifier.
    pub computer_sid: String,
    pub port: i64,
    pub service: String,
}

/// An `SPNTarget` as plain values.
pub struct SPNTargetView {
    pub computer_sid: Seq<char>,
    pub port: i64,
    pub service: Seq<char>,
}

impl View for SPNTarget {
    type V = SPNTargetView;

    open spec fn view(&self) -> SPNTargetView {
        SPNTargetView { computer_sid: self.computer_sid@, port: self.port, service: self.service@ }
    }
}

impl SPNTarget {
    pub fn new() -> (t: Self)
        ensures
            t@ == (SPNTargetView { computer_sid: Seq::empty(), port: 0, service: Seq::empty() }),
    {
        SPNTarget { computer_sid: String::new(), port: 0, service: String::new() }
    }

    pub fn computer_sid(&self) -> (r: &String)
        ensures
            *r == self.computer_sid,
    {
        &self.computer_sid
    }

    pub fn computer_sid_mut(&mut self) -> (r: &mut String)
        ensures
            *r == old(self).computer_sid,
            *final(self) == (SPNTarget { computer_sid: *final(r), ..*old(self) }),
    {
        &mut self.computer_sid
    }
}

/// The targets of a list as plain values.
pub open spec fn spn_views(s: Seq<SPNTarget>) -> Seq<SPNTargetView> {
    s.map_values(|t: SPNTarget| t@)
}

/// What every node carries whatever its type: its identity, its access
/// control entries, its place in the directory tree, and the edge lists that
/// the resolver rewrites. A type that has no use for a list leaves it empty.
#[derive(Debug)]
pub struct NodeCommon {
    pub object_identifier: String,
    pub aces: Vec<AceTemplate>,
    pub is_deleted: bool,
    pub is_acl_protected: bool,
    pub contained_by: Option<Member>,
    pub child_objects: Vec<Member>,
    pub links: Vec<Link>,
    pub allowed_to_delegate: Vec<Member>,
    pub spn_targets: Vec<SPNTarget>,
}

/// A `NodeCommon` as plain values.
pub struct NodeCommonView {
    pub object_identifier: Seq<char>,
    pub aces: Seq<AceView>,
    pub is_deleted: bool,
    pub is_acl_protected: bool,
    pub contained_by: Option<MemberView>,
    pub child_objects: Seq<MemberView>,
    pub links: Seq<LinkView>,
    pub allowed_to_delegate: Seq<MemberView>,
    pub spn_targets: Seq<SPNTargetView>,
}

impl View for NodeCommon {
    type V = NodeCommonView;

    open spec fn view(&self) -> NodeCommonView {
        NodeCommonView {
            object_identifier: self.object_identifier@,
            aces: ace_views(self.aces@),
            is_deleted: self.is_deleted,
            is_acl_protected: self.is_acl_protected,
            contained_by: member_option_view(self.contained_by),
            child_objects: member_views(self.child_objects@),
            links: link_views(self.links@),
            allowed_to_delegate: member_views(self.allowed_to_delegate@),
            spn_targets: spn_views(self.spn_targets@),
        }
    }
}

/// The common part of a node that no record has described yet: an empty
/// identifier, no entries, no parent, no children.
pub open spec fn bare_node() -> NodeCommonView {
    NodeCommonView {
        object_identifier: Seq::empty(),
        aces: Seq::empty(),
        is_deleted: false,
        is_acl_protected: false,
        contained_by: None,
        child_objects: Seq::empty(),
        links: Seq::empty(),
        allowed_to_delegate: Seq::empty(),
        spn_targets: Seq::empty(),
    }
}

impl NodeCommon {
    /// The common part of a fresh node.
    pub fn new() -> (c: Self)
        ensures
            c@ == bare_node(),
    {
        let c = NodeCommon {
            object_identifier: String::new(),
            aces: Vec::new(),
            is_deleted: false,
            is_acl_protected: false,
            contained_by: None,
            child_objects: Vec::new(),
            links: Vec::new(),
            allowed_to_delegate: Vec::new(),
            spn_targets: Vec::new(),
        };
        assert(c@.aces =~= Seq::empty());
        assert(c@.child_objects =~= Seq::empty());
        assert(c@.links =~= Seq::empty());
        assert(c@.allowed_to_delegate =~= Seq::empty());
        assert(c@.spn_targets =~= Seq::empty());
        c
    }
}

/// A node of the graph. The resolver reaches the part that all node types
/// share through this trait; `rest` stands for everything else a type holds,
/// which access to the common part leaves alone.
pub trait LdapObject: Sized {
    type Rest;

    spec fn rest(&self) -> Self::Rest;

    spec fn common_spec(&self) -> NodeCommon;

    fn common(&self) -> (r: &NodeCommon)
        ensures
            *r == self.common_spec(),
    ;

    fn common_mut(&mut self) -> (r: &mut NodeCommon)
        ensures
            *r == old(self).common_spec(),
            final(self).common_spec() == *final(r),
            final(self).rest() == old(self).rest(),
    ;
}

} // verus!
