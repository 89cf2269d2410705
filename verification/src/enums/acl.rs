//! Security descriptors: the owner, the access control entries and the
//! protection flag of a node, read from the self-relative binary layout.

use crate::binary::{le_u16, le_u32, read_u16_le, read_u32_le};
use crate::enums::secdesc::{spec_parse_sid, LdapSid};
use crate::enums::sid::{decode_guid_le, sid_maker, spec_decode_guid_le, spec_sid_maker};
use crate::objects::common::{ace_views, AceTemplate, AceView};
use crate::text::{push_text, str_eq, texts};
use vstd::prelude::*;
use vstd::slice::slice_subrange;

verus! {

/// Revision, padding, control, and the offsets of owner, group, SACL and
/// DACL.
pub const SD_HEADER_LEN: usize = 20;

/// The control bit that says the DACL does not inherit.
pub const SE_DACL_PROTECTED: u16 = 0x1000;

/// Revision, padding, size, entry count, padding.
pub const ACL_HEADER_LEN: usize = 8;

pub const ACCESS_ALLOWED_ACE_TYPE: u8 = 0x00;

pub const ACCESS_ALLOWED_OBJECT_ACE_TYPE: u8 = 0x05;

/// The entry flag that says the entry was inherited.
pub const INHERITED_ACE: u8 = 0x10;

/// The object-entry flag that says an object type is present.
pub const ACE_OBJECT_TYPE_PRESENT: u32 = 0x1;

/// The object-entry flag that says an inherited object type is present.
pub const ACE_INHERITED_OBJECT_TYPE_PRESENT: u32 = 0x2;

pub const GENERIC_ALL: u32 = 0x1000_0000;

pub const GENERIC_WRITE: u32 = 0x4000_0000;

pub const WRITE_OWNER: u32 = 0x0008_0000;

pub const WRITE_DACL: u32 = 0x0004_0000;

/// Every directory right and every standard right.
pub const FULL_CONTROL: u32 = 0x000f_01ff;

pub const ADS_RIGHT_DS_CONTROL_ACCESS: u32 = 0x100;

pub const ADS_RIGHT_DS_WRITE_PROP: u32 = 0x20;

pub const ADS_RIGHT_DS_SELF: u32 = 0x8;

pub const GUID_MEMBER: &'static str = "BF9679C0-0DE6-11D0-A285-00AA003049E2";

pub const GUID_ALLOWED_TO_ACT: &'static str = "3F78C3E5-F79A-46BD-A0B8-9D18116DDC79";

pub const GUID_SERVICE_PRINCIPAL_NAME: &'static str = "F3A64788-5306-11D1-A9C5-0000F80367C1";

pub const GUID_KEY_CREDENTIAL_LINK: &'static str = "5B47D60F-6090-40B2-9F37-2A4DE88F3063";

pub const GUID_FORCE_CHANGE_PASSWORD: &'static str = "00299570-246D-11D0-A768-00AA006E0529";

pub const GUID_GET_CHANGES: &'static str = "1131F6AA-9C07-11D1-F79F-00C04FC2DCD2";

pub const GUID_GET_CHANGES_ALL: &'static str = "1131F6AD-9C07-11D1-F79F-00C04FC2DCD2";

pub const GUID_GET_CHANGES_IN_FILTERED_SET: &'static str = "89E95B76-444D-4C62-991A-0FACBEDA640C";

pub const GUID_ENROLL: &'static str = "0E10C968-78FB-11D2-90D4-00C04F79DC55";

/// What a security descriptor says about a node.
#[derive(Debug)]
pub struct DecodedDescriptor {
    /// The owner and the rights granted, in the order of the descriptor.
    pub aces: Vec<AceTemplate>,
    /// Whether the access control list refuses inheritance.
    pub is_acl_protected: bool,
}

/// `name` when `holds`, nothing otherwise.
pub open spec fn right_if(holds: bool, name: Seq<char>) -> Seq<Seq<char>> {
    if holds {
        seq![name]
    } else {
        Seq::empty()
    }
}

/// Whether a mask grants everything.
pub open spec fn is_full_control(mask: u32) -> bool {
    mask & GENERIC_ALL != 0 || mask & FULL_CONTROL == FULL_CONTROL
}

/// The rights that an entry without object type grants.
pub open spec fn unscoped_rights(mask: u32) -> Seq<Seq<char>> {
    if is_full_control(mask) {
        seq!["GenericAll"@]
    } else {
        right_if(mask & GENERIC_WRITE != 0 || mask & ADS_RIGHT_DS_WRITE_PROP != 0, "GenericWrite"@)
            + right_if(mask & WRITE_OWNER != 0, "WriteOwner"@) + right_if(
            mask & WRITE_DACL != 0,
            "WriteDacl"@,
        ) + right_if(mask & ADS_RIGHT_DS_CONTROL_ACCESS != 0, "AllExtendedRights"@)
    }
}

/// The right that writing the property `object_type` gives on a node of type
/// `entry_type`.
pub open spec fn property_right(object_type: Seq<char>, entry_type: Seq<char>) -> Seq<Seq<char>> {
    if object_type == GUID_MEMBER@ && entry_type == "Group"@ {
        seq!["AddMember"@]
    } else if object_type == GUID_ALLOWED_TO_ACT@ && entry_type == "Computer"@ {
        seq!["AddAllowedToAct"@]
    } else if object_type == GUID_SERVICE_PRINCIPAL_NAME@ && entry_type == "User"@ {
        seq!["WriteSPN"@]
    } else if object_type == GUID_KEY_CREDENTIAL_LINK@ && (entry_type == "User"@ || entry_type
        == "Computer"@) {
        seq!["AddKeyCredentialLink"@]
    } else {
        Seq::empty()
    }
}

/// The right that the extended right `object_type` gives on a node of type
/// `entry_type`.
pub open spec fn extended_right(object_type: Seq<char>, entry_type: Seq<char>) -> Seq<Seq<char>> {
    if object_type == GUID_FORCE_CHANGE_PASSWORD@ && entry_type == "User"@ {
        seq!["ForceChangePassword"@]
    } else if object_type == GUID_GET_CHANGES@ && entry_type == "Domain"@ {
        seq!["GetChanges"@]
    } else if object_type == GUID_GET_CHANGES_ALL@ && entry_type == "Domain"@ {
        seq!["GetChangesAll"@]
    } else if object_type == GUID_GET_CHANGES_IN_FILTERED_SET@ && entry_type == "Domain"@ {
        seq!["GetChangesInFilteredSet"@]
    } else if object_type == GUID_ENROLL@ && (entry_type == "CertTemplate"@ || entry_type
        == "EnterpriseCA"@) {
        seq!["Enroll"@]
    } else {
        Seq::empty()
    }
}

/// The rights that an entry scoped to `object_type` grants on a node of type
/// `entry_type`.
pub open spec fn scoped_rights(mask: u32, object_type: Seq<char>, entry_type: Seq<char>) -> Seq<
    Seq<char>,
> {
    if is_full_control(mask) {
        seq!["GenericAll"@]
    } else {
        right_if(mask & WRITE_OWNER != 0, "WriteOwner"@) + right_if(
            mask & WRITE_DACL != 0,
            "WriteDacl"@,
        ) + (if mask & ADS_RIGHT_DS_WRITE_PROP != 0 {
            property_right(object_type, entry_type)
        } else {
            Seq::empty()
        }) + right_if(
            mask & ADS_RIGHT_DS_SELF != 0 && object_type == GUID_MEMBER@ && entry_type == "Group"@,
            "AddSelf"@,
        ) + (if mask & ADS_RIGHT_DS_CONTROL_ACCESS != 0 {
            extended_right(object_type, entry_type)
        } else {
            Seq::empty()
        })
    }
}

/// The names of the rights that an access mask grants.
pub open spec fn rights_for(
    mask: u32,
    object_type: Option<Seq<char>>,
    entry_type: Seq<char>,
) -> Seq<Seq<char>> {
    match object_type {
        Some(g) => scoped_rights(mask, g, entry_type),
        None => unscoped_rights(mask),
    }
}

fn push_right_if(out: &mut Vec<String>, holds: bool, name: &str)
    ensures
        texts(final(out)@) == texts(old(out)@) + right_if(holds, name@),
{
    if holds {
        push_text(out, name);
    }
    assert(texts(out@) =~= texts(old(out)@) + right_if(holds, name@));
}

fn push_rights(out: &mut Vec<String>, rights: Vec<String>)
    ensures
        texts(final(out)@) == texts(old(out)@) + texts(rights@),
{
    let mut rights = rights;
    let ghost all = texts(rights@);
    let mut i: usize = 0;
    while i < rights.len()
        invariant
            i <= rights.len(),
            all == texts(rights@),
            texts(out@) == texts(old(out)@) + all.take(i as int),
        decreases rights.len() - i,
    {
        push_text(out, rights[i].as_str());
        i += 1;
        assert(texts(out@) =~= texts(old(out)@) + all.take(i as int));
    }
    assert(all.take(all.len() as int) =~= all);
}

fn one_right(name: &str) -> (out: Vec<String>)
    ensures
        texts(out@) == seq![name@],
{
    let mut out: Vec<String> = Vec::new();
    push_text(&mut out, name);
    assert(texts(out@) =~= seq![name@]);
    out
}

fn no_right() -> (out: Vec<String>)
    ensures
        texts(out@) == Seq::<Seq<char>>::empty(),
{
    let out: Vec<String> = Vec::new();
    assert(texts(out@) =~= Seq::<Seq<char>>::empty());
    out
}

fn full_control(mask: u32) -> (r: bool)
    ensures
        r == is_full_control(mask),
{
    mask & GENERIC_ALL != 0 || mask & FULL_CONTROL == FULL_CONTROL
}

fn get_property_right(object_type: &str, entry_type: &str) -> (out: Vec<String>)
    ensures
        texts(out@) == property_right(object_type@, entry_type@),
{
    if str_eq(object_type, GUID_MEMBER) && str_eq(entry_type, "Group") {
        one_right("AddMember")
    } else if str_eq(object_type, GUID_ALLOWED_TO_ACT) && str_eq(entry_type, "Computer") {
        one_right("AddAllowedToAct")
    } else if str_eq(object_type, GUID_SERVICE_PRINCIPAL_NAME) && str_eq(entry_type, "User") {
        one_right("WriteSPN")
    } else if str_eq(object_type, GUID_KEY_CREDENTIAL_LINK) && (str_eq(entry_type, "User")
        || str_eq(entry_type, "Computer")) {
        one_right("AddKeyCredentialLink")
    } else {
        no_right()
    }
}

fn get_extended_right(object_type: &str, entry_type: &str) -> (out: Vec<String>)
    ensures
        texts(out@) == extended_right(object_type@, entry_type@),
{
    if str_eq(object_type, GUID_FORCE_CHANGE_PASSWORD) && str_eq(entry_type, "User") {
        one_right("ForceChangePassword")
    } else if str_eq(object_type, GUID_GET_CHANGES) && str_eq(entry_type, "Domain") {
        one_right("GetChanges")
    } else if str_eq(object_type, GUID_GET_CHANGES_ALL) && str_eq(entry_type, "Domain") {
        one_right("GetChangesAll")
    } else if str_eq(object_type, GUID_GET_CHANGES_IN_FILTERED_SET) && str_eq(
        entry_type,
        "Domain",
    ) {
        one_right("GetChangesInFilteredSet")
    } else if str_eq(object_type, GUID_ENROLL) && (str_eq(entry_type, "CertTemplate") || str_eq(
        entry_type,
        "EnterpriseCA",
    )) {
        one_right("Enroll")
    } else {
        no_right()
    }
}

/// Names the rights that an access mask grants on a node of type
/// `entry_type`. `object_type` is the property or extended right that the
/// entry is scoped to, as a GUID in upper case.
pub fn get_rights(mask: u32, object_type: Option<&str>, entry_type: &str) -> (out: Vec<String>)
    ensures
        texts(out@) == rights_for(
            mask,
            match object_type {
                Some(g) => Some(g@),
                None => None,
            },
            entry_type@,
        ),
{
    if full_control(mask) {
        return one_right("GenericAll");
    }
    let mut out = no_right();
    match object_type {
        None => {
            push_right_if(
                &mut out,
                mask & GENERIC_WRITE != 0 || mask & ADS_RIGHT_DS_WRITE_PROP != 0,
                "GenericWrite",
            );
            push_right_if(&mut out, mask & WRITE_OWNER != 0, "WriteOwner");
            push_right_if(&mut out, mask & WRITE_DACL != 0, "WriteDacl");
            push_right_if(&mut out, mask & ADS_RIGHT_DS_CONTROL_ACCESS != 0, "AllExtendedRights");
            assert(texts(out@) =~= unscoped_rights(mask));
        },
        Some(g) => {
            push_right_if(&mut out, mask & WRITE_OWNER != 0, "WriteOwner");
            push_right_if(&mut out, mask & WRITE_DACL != 0, "WriteDacl");
            if mask & ADS_RIGHT_DS_WRITE_PROP != 0 {
                push_rights(&mut out, get_property_right(g, entry_type));
            }
            push_right_if(
                &mut out,
                mask & ADS_RIGHT_DS_SELF != 0 && str_eq(g, GUID_MEMBER) && str_eq(
                    entry_type,
                    "Group",
                ),
                "AddSelf",
            );
            if mask & ADS_RIGHT_DS_CONTROL_ACCESS != 0 {
                push_rights(&mut out, get_extended_right(g, entry_type));
            }
            assert(texts(out@) =~= scoped_rights(mask, g@, entry_type@));
        },
    }
    out
}

/// One entry for each right, all for the same principal.
pub open spec fn entries_for(
    principal: Seq<char>,
    rights: Seq<Seq<char>>,
    is_inherited: bool,
) -> Seq<AceView> {
    rights.map_values(
        |r: Seq<char>|
            AceView {
                principal_sid: principal,
                principal_type: Seq::empty(),
                right_name: r,
                is_inherited,
                inheritance_hash: Seq::empty(),
            },
    )
}

fn push_entries(
    out: &mut Vec<AceTemplate>,
    principal: &str,
    rights: &Vec<String>,
    is_inherited: bool,
)
    ensures
        ace_views(final(out)@) == ace_views(old(out)@) + entries_for(
            principal@,
            texts(rights@),
            is_inherited,
        ),
{
    let ghost wanted = entries_for(principal@, texts(rights@), is_inherited);
    let mut i: usize = 0;
    assert(ace_views(out@) =~= ace_views(old(out)@) + wanted.take(0));
    while i < rights.len()
        invariant
            i <= rights.len(),
            wanted == entries_for(principal@, texts(rights@), is_inherited),
            ace_views(out@) == ace_views(old(out)@) + wanted.take(i as int),
        decreases rights.len() - i,
    {
        let ghost before = ace_views(out@);
        let ace = AceTemplate::new(
            String::from_str(principal),
            String::new(),
            rights[i].clone(),
            is_inherited,
            String::new(),
        );
        assert(texts(rights@)[i as int] == rights@[i as int]@);
        assert(ace@ == wanted[i as int]);
        out.push(ace);
        i += 1;
        assert(ace_views(out@) =~= before.push(wanted[i - 1]));
        assert(wanted.take(i as int) =~= wanted.take(i - 1).push(wanted[i - 1]));
        assert(ace_views(out@) =~= ace_views(old(out)@) + wanted.take(i as int));
    }
    assert(wanted.take(wanted.len() as int) =~= wanted);
}

/// The length of the fixed part of an entry of the given type: header and
/// mask, and for an object entry the flags.
pub open spec fn fixed_len(ace_type: u8) -> int {
    if ace_type == ACCESS_ALLOWED_OBJECT_ACE_TYPE {
        12
    } else {
        8
    }
}

/// Where the principal's identifier starts in an entry.
pub open spec fn sid_offset(ace: Seq<u8>) -> int {
    if ace[0] == ACCESS_ALLOWED_OBJECT_ACE_TYPE {
        12 + (if (le_u32(ace, 8) as u32) & ACE_OBJECT_TYPE_PRESENT != 0 {
            16int
        } else {
            0int
        }) + (if (le_u32(ace, 8) as u32) & ACE_INHERITED_OBJECT_TYPE_PRESENT != 0 {
            16int
        } else {
            0int
        })
    } else {
        8
    }
}

/// The object type that an entry is scoped to.
pub open spec fn object_type_of(ace: Seq<u8>) -> Option<Seq<char>> {
    if ace[0] == ACCESS_ALLOWED_OBJECT_ACE_TYPE && (le_u32(ace, 8) as u32)
        & ACE_OBJECT_TYPE_PRESENT != 0 {
        Some(spec_decode_guid_le(ace.subrange(12, 28)))
    } else {
        None
    }
}

/// The entries that one access control entry stands for: one for each right
/// that an allow entry grants. An entry of another type, or one too short for
/// what it announces, gives nothing.
pub open spec fn entries_of_ace(ace: Seq<u8>, entry_type: Seq<char>, domain: Seq<char>) -> Seq<
    AceView,
> {
    if ace.len() < 8 || (ace[0] != ACCESS_ALLOWED_ACE_TYPE && ace[0]
        != ACCESS_ALLOWED_OBJECT_ACE_TYPE) || ace.len() < fixed_len(ace[0]) || ace.len()
        < sid_offset(ace) {
        Seq::empty()
    } else {
        match spec_parse_sid(ace.skip(sid_offset(ace))) {
            Some(sid) => entries_for(
                spec_sid_maker(sid, domain),
                rights_for(le_u32(ace, 4) as u32, object_type_of(ace), entry_type),
                ace[1] & INHERITED_ACE != 0,
            ),
            None => Seq::empty(),
        }
    }
}

/// The entries of the access control entries that start at `pos`, at most
/// `left` of them. The walk stops at the first entry that does not fit.
pub open spec fn entries_from(
    b: Seq<u8>,
    pos: int,
    left: nat,
    entry_type: Seq<char>,
    domain: Seq<char>,
) -> Seq<AceView>
    decreases left,
{
    if left == 0 || pos < 0 || pos + 4 > b.len() || le_u16(b, pos + 2) < 4 || pos + le_u16(
        b,
        pos + 2,
    ) > b.len() {
        Seq::empty()
    } else {
        entries_of_ace(b.subrange(pos, pos + le_u16(b, pos + 2)), entry_type, domain)
            + entries_from(b, pos + le_u16(b, pos + 2), (left - 1) as nat, entry_type, domain)
    }
}

/// The entry that names the owner: the right `Owns`, never inherited.
pub open spec fn owner_entries(b: Seq<u8>, domain: Seq<char>) -> Seq<AceView> {
    if b.len() < SD_HEADER_LEN || le_u32(b, 4) == 0 || le_u32(b, 4) > b.len() {
        Seq::empty()
    } else {
        match spec_parse_sid(b.skip(le_u32(b, 4))) {
            Some(sid) => entries_for(spec_sid_maker(sid, domain), seq!["Owns"@], false),
            None => Seq::empty(),
        }
    }
}

/// The entries of the discretionary access control list.
pub open spec fn dacl_entries(b: Seq<u8>, entry_type: Seq<char>, domain: Seq<char>) -> Seq<
    AceView,
> {
    if b.len() < SD_HEADER_LEN || le_u32(b, 16) == 0 || le_u32(b, 16) + ACL_HEADER_LEN > b.len() {
        Seq::empty()
    } else {
        entries_from(
            b,
            le_u32(b, 16) + ACL_HEADER_LEN,
            le_u16(b, le_u32(b, 16) + 4) as nat,
            entry_type,
            domain,
        )
    }
}

/// Whether the descriptor says that its access control list refuses
/// inheritance.
pub open spec fn spec_is_protected(b: Seq<u8>) -> bool {
    b.len() >= SD_HEADER_LEN && (le_u16(b, 2) as u16) & SE_DACL_PROTECTED != 0
}

/// The entries of a descriptor: the owner first, then the rights granted, in
/// the order of the list.
pub open spec fn spec_descriptor_entries(
    b: Seq<u8>,
    entry_type: Seq<char>,
    domain: Seq<char>,
) -> Seq<AceView> {
    owner_entries(b, domain) + dacl_entries(b, entry_type, domain)
}

fn push_ace(out: &mut Vec<AceTemplate>, ace: &[u8], entry_type: &str, domain: &str)
    ensures
        ace_views(final(out)@) == ace_views(old(out)@) + entries_of_ace(
            ace@,
            entry_type@,
            domain@,
        ),
{
    let len: usize = ace.len();
    if len < 8 {
        assert(ace_views(out@) =~= ace_views(old(out)@) + Seq::<AceView>::empty());
        return ;
    }
    let ace_type = ace[0];
    if ace_type != ACCESS_ALLOWED_ACE_TYPE && ace_type != ACCESS_ALLOWED_OBJECT_ACE_TYPE {
        assert(ace_views(out@) =~= ace_views(old(out)@) + Seq::<AceView>::empty());
        return ;
    }
    let is_inherited = ace[1] & INHERITED_ACE != 0;
    let mask = read_u32_le(ace, 4);
    let mut sid_at: usize = 8;
    let mut object_type: Option<String> = None;
    if ace_type == ACCESS_ALLOWED_OBJECT_ACE_TYPE {
        if len < 12 {
            assert(ace_views(out@) =~= ace_views(old(out)@) + Seq::<AceView>::empty());
            return ;
        }
        let flags = read_u32_le(ace, 8);
        sid_at = 12;
        if flags & ACE_OBJECT_TYPE_PRESENT != 0 {
            sid_at = sid_at + 16;
        }
        if flags & ACE_INHERITED_OBJECT_TYPE_PRESENT != 0 {
            sid_at = sid_at + 16;
        }
        if len < sid_at {
            assert(ace_views(out@) =~= ace_views(old(out)@) + Seq::<AceView>::empty());
            return ;
        }
        if flags & ACE_OBJECT_TYPE_PRESENT != 0 {
            object_type = Some(decode_guid_le(slice_subrange(ace, 12, 28)));
        }
    }
    assert(sid_at == sid_offset(ace@));
    assert(ace@.subrange(sid_at as int, len as int) =~= ace@.skip(sid_at as int));
    match LdapSid::parse(slice_subrange(ace, sid_at, len)) {
        Some((_, sid)) => {
            let principal = sid_maker(sid, domain);
            let rights = match &object_type {
                Some(g) => get_rights(mask, Some(g.as_str()), entry_type),
                None => get_rights(mask, None, entry_type),
            };
            push_entries(out, principal.as_str(), &rights, is_inherited);
        },
        None => {
            assert(ace_views(out@) =~= ace_views(old(out)@) + Seq::<AceView>::empty());
        },
    }
}

/// Reads a security descriptor: the owner and the rights it grants on a node
/// of type `entry_type`, and whether the list refuses inheritance. Entries of
/// types other than the two allow types are passed over; a descriptor that
/// breaks off gives what could be read before the break.
pub fn parse_ntsecuritydescriptor(raw: &[u8], entry_type: &str, domain: &str) -> (r:
    DecodedDescriptor)
    ensures
        ace_views(r.aces@) == spec_descriptor_entries(raw@, entry_type@, domain@),
        r.is_acl_protected == spec_is_protected(raw@),
{
    let mut aces: Vec<AceTemplate> = Vec::new();
    let len: usize = raw.len();
    assert(ace_views(aces@) =~= Seq::<AceView>::empty());
    if len < SD_HEADER_LEN {
        assert(ace_views(aces@) =~= spec_descriptor_entries(raw@, entry_type@, domain@));
        return DecodedDescriptor { aces, is_acl_protected: false };
    }
    let control = read_u16_le(raw, 2);
    let is_acl_protected = control & SE_DACL_PROTECTED != 0;
    let owner_at: usize = read_u32_le(raw, 4) as usize;
    if owner_at != 0 && owner_at <= len {
        assert(raw@.subrange(owner_at as int, len as int) =~= raw@.skip(owner_at as int));
        match LdapSid::parse(slice_subrange(raw, owner_at, len)) {
            Some((_, sid)) => {
                let principal = sid_maker(sid, domain);
                let owns = one_right("Owns");
                push_entries(&mut aces, principal.as_str(), &owns, false);
            },
            None => {},
        }
    }
    assert(ace_views(aces@) =~= owner_entries(raw@, domain@));
    let dacl_at: usize = read_u32_le(raw, 16) as usize;
    if dacl_at == 0 || len < ACL_HEADER_LEN || dacl_at > len - ACL_HEADER_LEN {
        assert(ace_views(aces@) =~= spec_descriptor_entries(raw@, entry_type@, domain@));
        return DecodedDescriptor { aces, is_acl_protected };
    }
    let count: usize = read_u16_le(raw, dacl_at + 4) as usize;
    let ghost owner = ace_views(aces@);
    let mut pos: usize = dacl_at + ACL_HEADER_LEN;
    let mut left: usize = count;
    loop
        invariant
            len == raw@.len(),
            pos <= len,
            owner + entries_from(
                raw@,
                (dacl_at + ACL_HEADER_LEN) as int,
                count as nat,
                entry_type@,
                domain@,
            ) == ace_views(aces@) + entries_from(
                raw@,
                pos as int,
                left as nat,
                entry_type@,
                domain@,
            ),
        ensures
            entries_from(raw@, pos as int, left as nat, entry_type@, domain@) == Seq::<
                AceView,
            >::empty(),
        decreases left,
    {
        if left == 0 || len - pos < 4 {
            break ;
        }
        let size: usize = read_u16_le(raw, pos + 2) as usize;
        if size < 4 || size > len - pos {
            break ;
        }
        let ghost before = ace_views(aces@);
        let ghost here = entries_of_ace(
            raw@.subrange(pos as int, pos + size),
            entry_type@,
            domain@,
        );
        let ghost after = entries_from(
            raw@,
            pos + size,
            (left - 1) as nat,
            entry_type@,
            domain@,
        );
        push_ace(&mut aces, slice_subrange(raw, pos, pos + size), entry_type, domain);
        assert(before + (here + after) =~= before + here + after);
        pos = pos + size;
        left = left - 1;
    }
    assert(ace_views(aces@) =~= spec_descriptor_entries(raw@, entry_type@, domain@));
    DecodedDescriptor { aces, is_acl_protected }
}

} // verus!
