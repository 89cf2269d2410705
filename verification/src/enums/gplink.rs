//! The policy links held in a `gPLink` attribute.

use crate::objects::common::{link_views, Link, LinkView};
use crate::text::{chars_of, string_of_range};
use vstd::prelude::*;

verus! {

/// The length of a policy reference.
pub const REFERENCE_LEN: usize = 36;

/// A character that a policy reference is made of: a letter, a digit or a
/// dash.
pub open spec fn is_reference_char(c: char) -> bool {
    ('a' <= c && c <= 'z') || ('A' <= c && c <= 'Z') || ('0' <= c && c <= '9') || c == '-'
}

/// Whether a policy reference starts at `at`: 36 reference characters.
pub open spec fn reference_at(s: Seq<char>, at: int) -> bool {
    &&& 0 <= at
    &&& at + REFERENCE_LEN <= s.len()
    &&& forall|k: int| 0 <= k < REFERENCE_LEN ==> is_reference_char(#[trigger] s[at + k])
}

/// The policy references in `s` from `from` on, left to right, none
/// overlapping another.
pub open spec fn references_from(s: Seq<char>, from: int) -> Seq<Seq<char>>
    decreases s.len() - from,
{
    if from < 0 || from + REFERENCE_LEN > s.len() {
        Seq::empty()
    } else if reference_at(s, from) {
        seq![s.subrange(from, from + REFERENCE_LEN)] + references_from(s, from + REFERENCE_LEN)
    } else {
        references_from(s, from + 1)
    }
}

/// The link options in `s` from `from` on: the digit of every semicolon
/// followed by a digit from 0 to 4.
pub open spec fn options_from(s: Seq<char>, from: int) -> Seq<char>
    decreases s.len() - from,
{
    if from < 0 || from + 2 > s.len() {
        Seq::empty()
    } else if s[from] == ';' && '0' <= s[from + 1] && s[from + 1] <= '4' {
        seq![s[from + 1]] + options_from(s, from + 2)
    } else {
        options_from(s, from + 1)
    }
}

/// The links of a `gPLink` value: one for each policy reference, in order.
/// The `i`-th link is enforced when the `i`-th option is 2 or 3; a link
/// without an option is not enforced.
pub open spec fn spec_parse_gplink(s: Seq<char>) -> Seq<LinkView> {
    let references = references_from(s, 0);
    let options = options_from(s, 0);
    Seq::new(
        references.len(),
        |i: int|
            LinkView {
                is_enforced: i < options.len() && (options[i] == '2' || options[i] == '3'),
                guid: references[i],
            },
    )
}

fn is_reference(s: &Vec<char>, at: usize) -> (r: bool)
    requires
        at + REFERENCE_LEN <= s.len(),
    ensures
        r == reference_at(s@, at as int),
{
    let mut k: usize = 0;
    while k < REFERENCE_LEN
        invariant
            k <= REFERENCE_LEN,
            at + REFERENCE_LEN <= s.len(),
            forall|j: int| 0 <= j < k ==> is_reference_char(#[trigger] s@[at + j]),
        decreases REFERENCE_LEN - k,
    {
        let c = s[at + k];
        let ok = ('a' <= c && c <= 'z') || ('A' <= c && c <= 'Z') || ('0' <= c && c <= '9') || c
            == '-';
        if !ok {
            return false;
        }
        k += 1;
    }
    true
}

/// Reads the policy links of a `gPLink` value.
pub fn parse_gplink(all_link: String) -> (links: Vec<Link>)
    ensures
        link_views(links@) == spec_parse_gplink(all_link@),
{
    let s = chars_of(all_link.as_str());
    let len: usize = s.len();
    let mut references: Vec<String> = Vec::new();
    let mut i: usize = 0;
    let ghost mut found: Seq<Seq<char>> = Seq::empty();
    while len >= REFERENCE_LEN && i <= len - REFERENCE_LEN
        invariant
            len == s.len(),
            i <= len,
            found == Seq::new(references@.len(), |k: int| references@[k]@),
            references_from(s@, 0) == found + references_from(s@, i as int),
        decreases len - i,
    {
        if is_reference(&s, i) {
            let reference = string_of_range(&s, i, i + REFERENCE_LEN);
            proof {
                let next = found.push(reference@);
                assert(found + (seq![reference@] + references_from(s@, i + REFERENCE_LEN)) =~= next
                    + references_from(s@, i + REFERENCE_LEN));
                found = next;
            }
            references.push(reference);
            assert(found =~= Seq::new(references@.len(), |k: int| references@[k]@));
            i += REFERENCE_LEN;
        } else {
            i += 1;
        }
    }
    assert(references_from(s@, i as int) =~= Seq::<Seq<char>>::empty());
    assert(references_from(s@, 0) =~= found);
    let mut options: Vec<char> = Vec::new();
    let mut j: usize = 0;
    while len >= 2 && j <= len - 2
        invariant
            len == s.len(),
            j <= len,
            options_from(s@, 0) == options@ + options_from(s@, j as int),
        decreases len - j,
    {
        if s[j] == ';' && '0' <= s[j + 1] && s[j + 1] <= '4' {
            let ghost before = options@;
            options.push(s[j + 1]);
            assert(before + (seq![s@[j + 1]] + options_from(s@, j + 2)) =~= options@ + options_from(
                s@,
                j + 2,
            ));
            j += 2;
        } else {
            j += 1;
        }
    }
    assert(options_from(s@, j as int) =~= Seq::<char>::empty());
    assert(options_from(s@, 0) =~= options@);
    let mut links: Vec<Link> = Vec::new();
    let mut k: usize = 0;
    while k < references.len()
        invariant
            k <= references.len(),
            links.len() == k,
            found == Seq::new(references@.len(), |k: int| references@[k]@),
            forall|n: int|
                0 <= n < k ==> (#[trigger] links@[n])@ == (LinkView {
                    is_enforced: n < options@.len() && (options@[n] == '2' || options@[n] == '3'),
                    guid: found[n],
                }),
        decreases references.len() - k,
    {
        let enforced = k < options.len() && (options[k] == '2' || options[k] == '3');
        links.push(Link::new(enforced, references[k].clone()));
        k += 1;
    }
    assert(link_views(links@) =~= spec_parse_gplink(all_link@));
    links
}

} // verus!
