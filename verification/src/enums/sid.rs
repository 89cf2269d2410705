//! Security identifiers and GUIDs as text.

use crate::enums::secdesc::{spec_parse_sid, LdapSid, SidView};
use crate::text::{
    chars_of, contains, contains_seq, find_from, find_seq, lemma_find_seq, push_all, push_str,
    spec_to_uppercase, string_of, string_of_range, upper,
};
use crate::utils::format::{
    decimal, hex2, hex_unpadded, push_decimal, push_hex2, push_hex_unpadded,
};
use vstd::prelude::*;
use vstd::string::*;

verus! {

/// Texts of this length or shorter are taken for a relative identifier and get
/// the domain name in front.
pub const SHORT_SID_LEN: usize = 16;

/// Whether a text mentions an identifier issued by the NT authority: it
/// contains `S-1-5`.
pub fn is_sid(input: &str) -> (r: bool)
    ensures
        r == contains_seq(input@, "S-1-5"@),
{
    contains(input, "S-1-5")
}

/// Whether a decoded identifier shows the null authority, which real
/// identifiers never carry: it contains `S-0-0`.
pub fn has_null_authority(sid: &str) -> (r: bool)
    ensures
        r == contains_seq(sid@, "S-0-0"@),
{
    contains(sid, "S-0-0")
}

/// The sub-authorities in decimal, joined by dashes.
pub open spec fn joined_sub_authorities(subs: Seq<u32>) -> Seq<char>
    decreases subs.len(),
{
    if subs.len() == 0 {
        Seq::empty()
    } else if subs.len() == 1 {
        decimal(subs[0] as nat)
    } else {
        joined_sub_authorities(subs.drop_last()) + "-"@ + decimal(subs.last() as nat)
    }
}

/// The canonical text of an identifier: `S-`, the revision, the last byte of
/// the authority and the sub-authorities, joined by dashes.
pub open spec fn sid_text(sid: SidView) -> Seq<char> {
    "S-"@ + decimal(sid.revision as nat) + "-"@ + decimal(sid.authority[5] as nat) + "-"@
        + joined_sub_authorities(sid.sub_authority)
}

/// The identifier of a principal: the canonical text, with the upper-cased
/// domain name and a dash in front when the text has at most 16 characters.
pub open spec fn spec_sid_maker(sid: SidView, domain: Seq<char>) -> Seq<char> {
    if sid_text(sid).len() <= SHORT_SID_LEN {
        spec_to_uppercase(domain) + "-"@ + sid_text(sid)
    } else {
        sid_text(sid)
    }
}

/// Writes an identifier as text.
pub fn sid_maker(sid: LdapSid, domain: &str) -> (out: String)
    ensures
        out@ == spec_sid_maker(sid@, domain@),
{
    let mut text: Vec<char> = Vec::new();
    push_str(&mut text, "S-");
    push_decimal(&mut text, sid.revision as u64);
    push_str(&mut text, "-");
    push_decimal(&mut text, sid.identifier_authority[5] as u64);
    push_str(&mut text, "-");
    let ghost head = text@;
    assert(head =~= "S-"@ + decimal(sid.revision as nat) + "-"@ + decimal(
        sid.identifier_authority@[5] as nat,
    ) + "-"@);
    assert(sid.sub_authority@.take(0) =~= Seq::<u32>::empty());
    let mut i: usize = 0;
    while i < sid.sub_authority.len()
        invariant
            i <= sid.sub_authority.len(),
            text@ == head + joined_sub_authorities(sid.sub_authority@.take(i as int)),
        decreases sid.sub_authority.len() - i,
    {
        let ghost before = sid.sub_authority@.take(i as int);
        let ghost next = sid.sub_authority@.take(i + 1);
        if i > 0 {
            push_str(&mut text, "-");
        }
        push_decimal(&mut text, sid.sub_authority[i] as u64);
        proof {
            assert(next.drop_last() =~= before);
            assert(next.last() == sid.sub_authority@[i as int]);
            if i == 0 {
                assert(text@ =~= head + joined_sub_authorities(next));
            } else {
                assert(text@ =~= head + (joined_sub_authorities(before) + "-"@ + decimal(
                    next.last() as nat,
                )));
            }
        }
        i += 1;
    }
    assert(sid.sub_authority@.take(sid.sub_authority@.len() as int) =~= sid.sub_authority@);
    if text.len() <= SHORT_SID_LEN {
        let domain_upper = upper(domain);
        let mut out = chars_of(domain_upper.as_str());
        push_str(&mut out, "-");
        push_all(&mut out, &text);
        string_of(&out)
    } else {
        string_of(&text)
    }
}

/// The text of the identifier encoded in `raw`, or the empty text when `raw`
/// does not hold a whole identifier.
pub open spec fn spec_decode_sid(raw: Seq<u8>, domain: Seq<char>) -> Seq<char> {
    match spec_parse_sid(raw) {
        Some(sid) => spec_sid_maker(sid, domain),
        None => Seq::empty(),
    }
}

/// Decodes a binary identifier to text. Malformed input gives the empty text.
pub fn decode_sid(raw: &[u8], domain: &str) -> (out: String)
    ensures
        out@ == spec_decode_sid(raw@, domain@),
{
    match LdapSid::parse(raw) {
        Some((_, sid)) => sid_maker(sid, domain),
        None => String::new(),
    }
}

/// The UTF-8 bytes of an identifier's text.
pub fn objectsid_to_vec8(sid: &String) -> (out: Vec<u8>)
    ensures
        out@ == vstd::utf8::encode_utf8(sid@),
{
    sid.as_str().as_bytes_vec()
}

/// Every byte in upper-case hexadecimal, without leading zeros.
pub fn hex_push(blob: &[u8]) -> (out: String)
    ensures
        out@ == hex_unpadded(blob@),
{
    let mut v: Vec<char> = Vec::new();
    push_hex_unpadded(&mut v, blob);
    assert(v@ =~= hex_unpadded(blob@));
    string_of(&v)
}

/// The display form of a GUID stored in the directory's layout: the first
/// three fields are stored least significant byte first, the last two in
/// display order.
pub open spec fn spec_decode_guid_le(g: Seq<u8>) -> Seq<char>
    recommends
        g.len() >= 16,
{
    hex2(g[3]) + hex2(g[2]) + hex2(g[1]) + hex2(g[0]) + "-"@ + hex2(g[5]) + hex2(g[4]) + "-"@
        + hex2(g[7]) + hex2(g[6]) + "-"@ + hex2(g[8]) + hex2(g[9]) + "-"@ + hex2(g[10]) + hex2(
        g[11],
    ) + hex2(g[12]) + hex2(g[13]) + hex2(g[14]) + hex2(g[15])
}

/// Decodes an `objectGUID` value to its canonical text
/// `XXXXXXXX-XXXX-XXXX-XXXX-XXXXXXXXXXXX`.
pub fn decode_guid_le(raw_guid: &[u8]) -> (out: String)
    requires
        raw_guid@.len() >= 16,
    ensures
        out@ == spec_decode_guid_le(raw_guid@),
{
    let mut v: Vec<char> = Vec::new();
    push_hex2(&mut v, raw_guid[3]);
    assert(v@ =~= hex2(raw_guid@[3]));
    push_hex2(&mut v, raw_guid[2]);
    push_hex2(&mut v, raw_guid[1]);
    push_hex2(&mut v, raw_guid[0]);
    push_str(&mut v, "-");
    push_hex2(&mut v, raw_guid[5]);
    push_hex2(&mut v, raw_guid[4]);
    push_str(&mut v, "-");
    push_hex2(&mut v, raw_guid[7]);
    push_hex2(&mut v, raw_guid[6]);
    push_str(&mut v, "-");
    push_hex2(&mut v, raw_guid[8]);
    push_hex2(&mut v, raw_guid[9]);
    push_str(&mut v, "-");
    push_hex2(&mut v, raw_guid[10]);
    push_hex2(&mut v, raw_guid[11]);
    push_hex2(&mut v, raw_guid[12]);
    push_hex2(&mut v, raw_guid[13]);
    push_hex2(&mut v, raw_guid[14]);
    push_hex2(&mut v, raw_guid[15]);
    string_of(&v)
}

/// Two bytes in reverse order.
pub open spec fn swapped(g: Seq<u8>, at: int) -> Seq<u8> {
    seq![g[at + 1], g[at]]
}

/// A GUID with its second and third fields byte-swapped and every byte
/// written without leading zeros.
pub open spec fn spec_decode_guid(g: Seq<u8>) -> Seq<char>
    recommends
        g.len() >= 16,
{
    hex_unpadded(g.subrange(0, 4)) + "-"@ + hex_unpadded(swapped(g, 4)) + "-"@ + hex_unpadded(
        swapped(g, 6),
    ) + "-"@ + hex_unpadded(g.subrange(8, 10)) + "-"@ + hex_unpadded(g.subrange(10, 16))
}

fn push_range_unpadded(out: &mut Vec<char>, raw: &[u8], from: usize, to: usize)
    requires
        from <= to <= raw@.len(),
    ensures
        final(out)@ == old(out)@ + hex_unpadded(raw@.subrange(from as int, to as int)),
{
    let mut part: Vec<u8> = Vec::new();
    let mut i: usize = from;
    while i < to
        invariant
            from <= i <= to <= raw@.len(),
            part@ == raw@.subrange(from as int, i as int),
        decreases to - i,
    {
        part.push(raw[i]);
        i += 1;
        assert(part@ =~= raw@.subrange(from as int, i as int));
    }
    push_hex_unpadded(out, part.as_slice());
}

fn push_swapped_unpadded(out: &mut Vec<char>, raw: &[u8], at: usize)
    requires
        at + 2 <= raw@.len(),
    ensures
        final(out)@ == old(out)@ + hex_unpadded(swapped(raw@, at as int)),
{
    let mut part: Vec<u8> = Vec::new();
    let len: usize = raw.len();
    assert(at + 2 <= len);
    part.push(raw[at + 1]);
    part.push(raw[at]);
    assert(part@ =~= swapped(raw@, at as int));
    push_hex_unpadded(out, part.as_slice());
}

/// Writes a GUID field by field, the second and third fields byte-swapped,
/// without padding. `decode_guid_le` gives the canonical form.
pub fn _decode_guid(raw_guid: &[u8]) -> (out: String)
    requires
        raw_guid@.len() >= 16,
    ensures
        out@ == spec_decode_guid(raw_guid@),
{
    let mut v: Vec<char> = Vec::new();
    push_range_unpadded(&mut v, raw_guid, 0, 4);
    assert(v@ =~= hex_unpadded(raw_guid@.subrange(0, 4)));
    push_str(&mut v, "-");
    push_swapped_unpadded(&mut v, raw_guid, 4);
    push_str(&mut v, "-");
    push_swapped_unpadded(&mut v, raw_guid, 6);
    push_str(&mut v, "-");
    push_range_unpadded(&mut v, raw_guid, 8, 10);
    push_str(&mut v, "-");
    push_range_unpadded(&mut v, raw_guid, 10, 16);
    string_of(&v)
}

/// A 16-byte identifier with its fields in reverse order and every byte
/// written without leading zeros.
pub open spec fn spec_bin_to_string(g: Seq<u8>) -> Seq<char>
    recommends
        g.len() >= 16,
{
    hex_unpadded(g.subrange(12, 16)) + "-"@ + hex_unpadded(g.subrange(10, 12)) + "-"@
        + hex_unpadded(g.subrange(8, 10)) + "-"@ + hex_unpadded(g.subrange(6, 8)) + "-"@
        + hex_unpadded(g.subrange(0, 6))
}

/// Writes a 16-byte identifier with its fields in reverse order.
pub fn bin_to_string(raw_guid: &[u8]) -> (out: String)
    requires
        raw_guid@.len() >= 16,
    ensures
        out@ == spec_bin_to_string(raw_guid@),
{
    let mut v: Vec<char> = Vec::new();
    push_range_unpadded(&mut v, raw_guid, 12, 16);
    assert(v@ =~= hex_unpadded(raw_guid@.subrange(12, 16)));
    push_str(&mut v, "-");
    push_range_unpadded(&mut v, raw_guid, 10, 12);
    push_str(&mut v, "-");
    push_range_unpadded(&mut v, raw_guid, 8, 10);
    push_str(&mut v, "-");
    push_range_unpadded(&mut v, raw_guid, 6, 8);
    push_str(&mut v, "-");
    push_range_unpadded(&mut v, raw_guid, 0, 6);
    string_of(&v)
}

/// An ASCII decimal digit.
pub open spec fn is_digit(c: char) -> bool {
    '0' <= c && c <= '9'
}

/// The end of the run of digits that starts at `i` (`i` itself when there is
/// no digit at `i`).
pub open spec fn digits_end(s: Seq<char>, i: int) -> int
    decreases s.len() - i,
{
    if 0 <= i < s.len() && is_digit(s[i]) {
        digits_end(s, i + 1)
    } else {
        i
    }
}

/// The end of a dash followed by at least one digit at `i`.
pub open spec fn number_after_dash(s: Seq<char>, i: int) -> Option<int> {
    if 0 <= i < s.len() && s[i] == '-' && digits_end(s, i + 1) > i + 1 {
        Some(digits_end(s, i + 1))
    } else {
        None
    }
}

/// The end of the longest run of dash-and-number groups that starts at `i`.
pub open spec fn numbers_end(s: Seq<char>, i: int) -> int
    decreases s.len() - i,
{
    match number_after_dash(s, i) {
        Some(e) => {
            if i < e <= s.len() {
                numbers_end(s, e)
            } else {
                i
            }
        },
        None => i,
    }
}

/// The end of the identifier that starts at `i`: `S-`, a number, and at least
/// three more numbers, each after a dash. The identifier extends over as many
/// numbers as follow.
pub open spec fn sid_end_at(s: Seq<char>, i: int) -> Option<int> {
    if 0 <= i && i + 2 <= s.len() && s[i] == 'S' && s[i + 1] == '-' && digits_end(s, i + 2) > i
        + 2 {
        match number_after_dash(s, digits_end(s, i + 2)) {
            Some(second) => match number_after_dash(s, second) {
                Some(third) => match number_after_dash(s, third) {
                    Some(fourth) => Some(numbers_end(s, fourth)),
                    None => None,
                },
                None => None,
            },
            None => None,
        }
    } else {
        None
    }
}

/// The first identifier in a text at or after `from`: the leftmost place where
/// one starts, and all of it.
pub open spec fn first_sid(s: Seq<char>, from: int) -> Option<Seq<char>>
    decreases s.len() - from,
{
    if from < 0 || from >= s.len() {
        None
    } else {
        match sid_end_at(s, from) {
            Some(end) => Some(s.subrange(from, end)),
            None => first_sid(s, from + 1),
        }
    }
}

fn scan_digits(s: &Vec<char>, i: usize) -> (end: usize)
    requires
        i <= s.len(),
    ensures
        end == digits_end(s@, i as int),
        i <= end <= s.len(),
{
    let mut k: usize = i;
    while k < s.len() && '0' <= s[k] && s[k] <= '9'
        invariant
            i <= k <= s.len(),
            digits_end(s@, i as int) == digits_end(s@, k as int),
        decreases s.len() - k,
    {
        k += 1;
    }
    k
}

fn scan_number_after_dash(s: &Vec<char>, i: usize) -> (r: Option<usize>)
    requires
        i <= s.len(),
    ensures
        match r {
            Some(e) => number_after_dash(s@, i as int) == Some(e as int) && i + 1 < e <= s.len(),
            None => number_after_dash(s@, i as int) is None,
        },
{
    if i < s.len() && s[i] == '-' {
        let e = scan_digits(s, i + 1);
        if e > i + 1 {
            return Some(e);
        }
    }
    None
}

fn scan_numbers(s: &Vec<char>, i: usize) -> (end: usize)
    requires
        i <= s.len(),
    ensures
        end == numbers_end(s@, i as int),
        i <= end <= s.len(),
{
    let mut k: usize = i;
    loop
        invariant
            i <= k <= s.len(),
            numbers_end(s@, i as int) == numbers_end(s@, k as int),
        decreases s.len() - k,
    {
        match scan_number_after_dash(s, k) {
            Some(e) => {
                k = e;
            },
            None => {
                return k;
            },
        }
    }
}

/// Matches an identifier at offset `i` and returns where it ends.
pub fn match_sid_at(s: &Vec<char>, i: usize) -> (r: Option<usize>)
    ensures
        match r {
            Some(e) => sid_end_at(s@, i as int) == Some(e as int) && i < e <= s.len(),
            None => sid_end_at(s@, i as int) is None,
        },
{
    let len: usize = s.len();
    if len < 2 || i > len - 2 {
        return None;
    }
    if s[i] != 'S' || s[i + 1] != '-' {
        return None;
    }
    let first = scan_digits(s, i + 2);
    if first <= i + 2 {
        return None;
    }
    let second = match scan_number_after_dash(s, first) {
        Some(e) => e,
        None => {
            return None;
        },
    };
    let third = match scan_number_after_dash(s, second) {
        Some(e) => e,
        None => {
            return None;
        },
    };
    let fourth = match scan_number_after_dash(s, third) {
        Some(e) => e,
        None => {
            return None;
        },
    };
    Some(scan_numbers(s, fourth))
}

/// The first identifier in a text.
pub fn find_first_sid(text: &str) -> (r: Option<String>)
    ensures
        match r {
            Some(sid) => first_sid(text@, 0) == Some(sid@),
            None => first_sid(text@, 0) is None,
        },
{
    let s = chars_of(text);
    let mut i: usize = 0;
    while i < s.len()
        invariant
            i <= s.len(),
            s@ == text@,
            first_sid(s@, 0) == first_sid(s@, i as int),
        decreases s.len() - i,
    {
        match match_sid_at(&s, i) {
            Some(e) => {
                return Some(string_of_range(&s, i, e));
            },
            None => {},
        }
        i += 1;
    }
    None
}

/// The end of the domain part of an identifier that starts `s`: `S-`, a
/// revision of one digit, an authority of one digit, and four numbers, each
/// after a dash.
pub open spec fn domain_sid_end(s: Seq<char>) -> Option<int> {
    if s.len() >= 5 && s[0] == 'S' && s[1] == '-' && is_digit(s[2]) && s[3] == '-' && is_digit(
        s[4],
    ) {
        match number_after_dash(s, 5) {
            Some(first) => match number_after_dash(s, first) {
                Some(second) => match number_after_dash(s, second) {
                    Some(third) => number_after_dash(s, third),
                    None => None,
                },
                None => None,
            },
            None => None,
        }
    } else {
        None
    }
}

/// The identifier of the domain that issued the identifier `s`: `s` without
/// what follows its first four sub-authorities.
pub open spec fn spec_domain_sid(s: Seq<char>) -> Option<Seq<char>> {
    match domain_sid_end(s) {
        Some(end) => Some(s.take(end)),
        None => None,
    }
}

/// Takes the identifier of the issuing domain from an identifier.
pub fn domain_sid_of(sid: &str) -> (r: Option<String>)
    ensures
        match r {
            Some(d) => spec_domain_sid(sid@) == Some(d@),
            None => spec_domain_sid(sid@) is None,
        },
{
    let s = chars_of(sid);
    if s.len() < 5 {
        return None;
    }
    if s[0] != 'S' || s[1] != '-' || !('0' <= s[2] && s[2] <= '9') || s[3] != '-' || !('0' <= s[4]
        && s[4] <= '9') {
        return None;
    }
    let first = match scan_number_after_dash(&s, 5) {
        Some(e) => e,
        None => {
            return None;
        },
    };
    let second = match scan_number_after_dash(&s, first) {
        Some(e) => e,
        None => {
            return None;
        },
    };
    let third = match scan_number_after_dash(&s, second) {
        Some(e) => e,
        None => {
            return None;
        },
    };
    match scan_number_after_dash(&s, third) {
        Some(end) => {
            assert(s@.subrange(0, end as int) =~= s@.take(end as int));
            Some(string_of_range(&s, 0, end))
        },
        None => None,
    }
}

/// The position of the last `c` before `upto`, or -1 when there is none.
pub open spec fn last_index_of(s: Seq<char>, c: char, upto: int) -> int
    decreases upto,
{
    if upto <= 0 || upto > s.len() {
        -1
    } else if s[upto - 1] == c {
        upto - 1
    } else {
        last_index_of(s, c, upto - 1)
    }
}

/// An identifier without its last number: from the first `S-` up to and
/// including the last dash. `None` when the text has no `S-` or no dash after
/// it.
pub open spec fn spec_sid_prefix(s: Seq<char>) -> Option<Seq<char>> {
    match find_seq(s, "S-"@, 0) {
        Some(start) => {
            if last_index_of(s, '-', s.len() as int) > start + 1 {
                Some(s.subrange(start, last_index_of(s, '-', s.len() as int) + 1))
            } else {
                None
            }
        },
        None => None,
    }
}

/// Cuts the last number off an identifier.
pub fn sid_prefix(sid: &str) -> (r: Option<String>)
    ensures
        match r {
            Some(p) => spec_sid_prefix(sid@) == Some(p@),
            None => spec_sid_prefix(sid@) is None,
        },
{
    let s = chars_of(sid);
    let marker = chars_of("S-");
    let start = match find_from(&s, &marker, 0) {
        Some(i) => i,
        None => {
            return None;
        },
    };
    let len: usize = s.len();
    let mut upto: usize = len;
    while upto > 0 && s[upto - 1] != '-'
        invariant
            upto <= len,
            len == s.len(),
            last_index_of(s@, '-', len as int) == last_index_of(s@, '-', upto as int),
        decreases upto,
    {
        upto -= 1;
    }
    if upto == 0 {
        return None;
    }
    let last: usize = upto - 1;
    proof {
        lemma_find_seq(s@, marker@, 0);
        reveal_strlit("S-");
        assert(marker@.len() == 2);
        assert(crate::text::occurs_at(s@, marker@, start as int));
    }
    if last > start + 1 {
        Some(string_of_range(&s, start, last + 1))
    } else {
        None
    }
}

} // verus!
