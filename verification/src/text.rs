//! Character-level text primitives shared by the decoders and the resolver.
//!
//! Every function here is stated over `Seq<char>`, the view of `str` and
//! `String`. Executable code works on `Vec<char>` and converts at the edges.

use vstd::prelude::*;
use vstd::string::*;

verus! {

/// The upper-case form of a text, as `str::to_uppercase` computes it from the
/// Unicode case tables.
pub uninterp spec fn spec_to_uppercase(s: Seq<char>) -> Seq<char>;

/// The lower-case form of a text, as `str::to_lowercase` computes it from the
/// Unicode case tables.
pub uninterp spec fn spec_to_lowercase(s: Seq<char>) -> Seq<char>;

/// `String::push` appends one character at the end.
pub assume_specification[ String::push ](s: &mut String, c: char)
    ensures
        final(s)@ == old(s)@.push(c),
;

/// Calls `str::to_uppercase`; the result is named, not described.
#[verifier::external_body]
pub(crate) fn upper(s: &str) -> (out: String)
    ensures
        out@ == spec_to_uppercase(s@),
{
    s.to_uppercase()
}

/// Calls `str::to_lowercase`; the result is named, not described.
#[verifier::external_body]
pub(crate) fn lower(s: &str) -> (out: String)
    ensures
        out@ == spec_to_lowercase(s@),
{
    s.to_lowercase()
}

/// Collects the characters of a string slice.
pub fn chars_of(s: &str) -> (out: Vec<char>)
    ensures
        out@ == s@,
{
    let mut out: Vec<char> = Vec::new();
    for c in it: s.chars()
        invariant
            out@ == it.seq().take(it.index() as int),
    {
        out.push(c);
    }
    out
}

/// Builds a string from the characters `v[from..to]`.
pub fn string_of_range(v: &Vec<char>, from: usize, to: usize) -> (out: String)
    requires
        from <= to <= v.len(),
    ensures
        out@ == v@.subrange(from as int, to as int),
{
    let mut out = String::new();
    let mut i: usize = from;
    while i < to
        invariant
            from <= i <= to <= v.len(),
            out@ == v@.subrange(from as int, i as int),
        decreases to - i,
    {
        out.push(v[i]);
        i += 1;
        assert(out@ =~= v@.subrange(from as int, i as int));
    }
    out
}

/// Builds a string from a vector of characters.
pub fn string_of(v: &Vec<char>) -> (out: String)
    ensures
        out@ == v@,
{
    let out = string_of_range(v, 0, v.len());
    assert(v@.subrange(0, v@.len() as int) =~= v@);
    out
}

/// `==` on string slices compares their characters.
pub assume_specification[ <str as PartialEq>::eq ](a: &str, b: &str) -> (r: bool)
    ensures
        r == (a@ == b@),
;

/// Whether two string slices hold the same text.
pub fn str_eq(a: &str, b: &str) -> (r: bool)
    ensures
        r == (a@ == b@),
{
    a.eq(b)
}

/// `n` occurs in `h` at offset `i`.
pub open spec fn occurs_at(h: Seq<char>, n: Seq<char>, i: int) -> bool {
    &&& 0 <= i
    &&& i + n.len() <= h.len()
    &&& h.subrange(i, i + n.len()) == n
}

/// `n` occurs somewhere in `h`.
pub open spec fn contains_seq(h: Seq<char>, n: Seq<char>) -> bool {
    exists|i: int| occurs_at(h, n, i)
}

/// The offset of the first occurrence of `n` in `h` at or after `from`.
pub open spec fn find_seq(h: Seq<char>, n: Seq<char>, from: int) -> Option<int>
    decreases h.len() - from + 1,
{
    if from < 0 || from + n.len() > h.len() {
        None
    } else if occurs_at(h, n, from) {
        Some(from)
    } else {
        find_seq(h, n, from + 1)
    }
}

/// `find_seq` returns the least offset at which `n` occurs, and `None` exactly
/// when there is no occurrence at or after `from`.
pub proof fn lemma_find_seq(h: Seq<char>, n: Seq<char>, from: int)
    requires
        0 <= from,
    ensures
        match find_seq(h, n, from) {
            Some(k) => from <= k && occurs_at(h, n, k) && forall|i: int|
                from <= i < k ==> !occurs_at(h, n, i),
            None => forall|i: int| from <= i ==> !occurs_at(h, n, i),
        },
    decreases h.len() - from + 1,
{
    if from + n.len() > h.len() {
    } else if occurs_at(h, n, from) {
    } else {
        lemma_find_seq(h, n, from + 1);
    }
}

/// A text contains `n` exactly when the search from offset 0 succeeds.
pub proof fn lemma_contains_is_find(h: Seq<char>, n: Seq<char>)
    ensures
        contains_seq(h, n) <==> find_seq(h, n, 0) is Some,
{
    lemma_find_seq(h, n, 0);
}

/// Whether `n` occurs in `h` at offset `i`.
pub fn matches_at(h: &Vec<char>, n: &Vec<char>, i: usize) -> (r: bool)
    ensures
        r == occurs_at(h@, n@, i as int),
{
    if n.len() > h.len() || i > h.len() - n.len() {
        return false;
    }
    let mut j: usize = 0;
    while j < n.len()
        invariant
            j <= n.len(),
            i + n.len() <= h.len(),
            forall|k: int| 0 <= k < j ==> h@[i + k] == n@[k],
        decreases n.len() - j,
    {
        if h[i + j] != n[j] {
            assert(h@.subrange(i as int, i + n.len())[j as int] == h@[i + j]);
            return false;
        }
        j += 1;
    }
    assert(h@.subrange(i as int, i + n.len()) =~= n@);
    true
}

/// Searches `h` for the first occurrence of `n` at or after `from`.
pub fn find_from(h: &Vec<char>, n: &Vec<char>, from: usize) -> (r: Option<usize>)
    ensures
        match r {
            Some(k) => find_seq(h@, n@, from as int) == Some(k as int),
            None => find_seq(h@, n@, from as int) is None,
        },
{
    if n.len() > h.len() {
        return None;
    }
    let last: usize = h.len() - n.len();
    if from > last {
        return None;
    }
    let mut i: usize = from;
    loop
        invariant
            from <= i <= last,
            last == h.len() - n.len(),
            n.len() <= h.len(),
            find_seq(h@, n@, from as int) == find_seq(h@, n@, i as int),
        decreases last - i,
    {
        if matches_at(h, n, i) {
            return Some(i);
        }
        if i == last {
            assert(find_seq(h@, n@, i + 1) is None);
            return None;
        }
        i += 1;
    }
}

/// Whether the text `h` contains the text `n`.
pub fn contains(h: &str, n: &str) -> (r: bool)
    ensures
        r == contains_seq(h@, n@),
{
    let hv = chars_of(h);
    let nv = chars_of(n);
    proof {
        lemma_contains_is_find(h@, n@);
    }
    find_from(&hv, &nv, 0).is_some()
}

/// The offset of the first `c` in `s` at or after `from`, or `s.len()` when
/// there is none.
pub open spec fn index_of(s: Seq<char>, c: char, from: int) -> int
    decreases s.len() - from,
{
    if from < 0 || from >= s.len() {
        s.len() as int
    } else if s[from] == c {
        from
    } else {
        index_of(s, c, from + 1)
    }
}

/// When `c` stands at `stop` and nowhere between `from` and `stop`, the search
/// from `from` ends at `stop`.
pub proof fn lemma_index_of_is(s: Seq<char>, c: char, from: int, stop: int)
    requires
        0 <= from <= stop < s.len(),
        s[stop] == c,
        forall|i: int| from <= i < stop ==> s[i] != c,
    ensures
        index_of(s, c, from) == stop,
    decreases stop - from,
{
    if from < stop {
        lemma_index_of_is(s, c, from + 1, stop);
    }
}

/// Finds the first `c` in `s` at or after `from`.
pub fn position_of(s: &Vec<char>, c: char, from: usize) -> (r: usize)
    requires
        from <= s.len(),
    ensures
        r == index_of(s@, c, from as int),
        from <= r <= s.len(),
{
    let mut i: usize = from;
    while i < s.len()
        invariant
            from <= i <= s.len(),
            index_of(s@, c, from as int) == index_of(s@, c, i as int),
        decreases s.len() - i,
    {
        if s[i] == c {
            return i;
        }
        i += 1;
    }
    i
}

/// The piece of `s` before the first `c` (all of `s` when there is none).
pub open spec fn before_first(s: Seq<char>, c: char) -> Seq<char> {
    s.take(index_of(s, c, 0))
}

/// The piece of `s` after the first `c`, when there is one.
pub open spec fn after_first(s: Seq<char>, c: char) -> Option<Seq<char>> {
    if index_of(s, c, 0) < s.len() {
        Some(s.skip(index_of(s, c, 0) + 1))
    } else {
        None
    }
}

/// The `k`-th piece of `s` split at `c`, when there are that many.
pub open spec fn nth_piece(s: Seq<char>, c: char, k: nat) -> Option<Seq<char>>
    decreases k,
{
    if k == 0 {
        Some(before_first(s, c))
    } else {
        match after_first(s, c) {
            None => None,
            Some(rest) => nth_piece(rest, c, (k - 1) as nat),
        }
    }
}

/// Copies the characters `s[from..to]`.
pub fn slice_chars(s: &Vec<char>, from: usize, to: usize) -> (out: Vec<char>)
    requires
        from <= to <= s.len(),
    ensures
        out@ == s@.subrange(from as int, to as int),
{
    let mut out: Vec<char> = Vec::new();
    let mut i: usize = from;
    while i < to
        invariant
            from <= i <= to <= s.len(),
            out@ == s@.subrange(from as int, i as int),
        decreases to - i,
    {
        out.push(s[i]);
        i += 1;
        assert(out@ =~= s@.subrange(from as int, i as int));
    }
    out
}

/// The `k`-th piece of `s` split at `c`.
pub fn piece(s: &Vec<char>, c: char, k: usize) -> (r: Option<Vec<char>>)
    ensures
        match r {
            Some(p) => nth_piece(s@, c, k as nat) == Some(p@),
            None => nth_piece(s@, c, k as nat) is None,
        },
{
    let mut start: usize = 0;
    let mut left: usize = k;
    assert(s@.skip(0) =~= s@);
    while left > 0
        invariant
            start <= s.len(),
            nth_piece(s@, c, k as nat) == nth_piece(s@.skip(start as int), c, left as nat),
        decreases left,
    {
        let p = position_of(s, c, start);
        proof {
            lemma_index_of_skip(s@, c, start as int, start as int);
        }
        if p >= s.len() {
            return None;
        }
        assert(s@.skip(start as int).skip(p - start + 1) =~= s@.skip(p + 1));
        start = p + 1;
        left -= 1;
    }
    let p = position_of(s, c, start);
    proof {
        lemma_index_of_skip(s@, c, start as int, start as int);
        assert(s@.skip(start as int).take(p - start) =~= s@.subrange(start as int, p as int));
    }
    Some(slice_chars(s, start, p))
}

/// Searching a suffix is searching the whole text from the suffix's offset.
pub proof fn lemma_index_of_skip(s: Seq<char>, c: char, start: int, from: int)
    requires
        0 <= start <= from <= s.len(),
    ensures
        index_of(s.skip(start), c, from - start) == index_of(s, c, from) - start,
    decreases s.len() - from,
{
    if from < s.len() {
        assert(s.skip(start)[from - start] == s[from]);
        if s[from] != c {
            lemma_index_of_skip(s, c, start, from + 1);
        }
    }
}

/// Whether `s` begins with `p`.
pub open spec fn has_prefix(s: Seq<char>, p: Seq<char>) -> bool {
    p.len() <= s.len() && s.take(p.len() as int) == p
}

/// Whether the characters `s` begin with the text `p`.
pub fn starts_with(s: &Vec<char>, p: &Vec<char>) -> (r: bool)
    ensures
        r == has_prefix(s@, p@),
{
    let r = matches_at(s, p, 0);
    assert(s@.take(p@.len() as int) =~= s@.subrange(0, p@.len() as int));
    r
}

/// Appends the characters of `src` to `dst`.
pub fn push_all(dst: &mut Vec<char>, src: &Vec<char>)
    ensures
        final(dst)@ == old(dst)@ + src@,
{
    let mut i: usize = 0;
    while i < src.len()
        invariant
            i <= src.len(),
            dst@ == old(dst)@ + src@.take(i as int),
        decreases src.len() - i,
    {
        dst.push(src[i]);
        i += 1;
        assert(dst@ =~= old(dst)@ + src@.take(i as int));
    }
    assert(src@.take(src@.len() as int) =~= src@);
}

/// Appends the characters of the text `src` to `dst`.
pub fn push_str(dst: &mut Vec<char>, src: &str)
    ensures
        final(dst)@ == old(dst)@ + src@,
{
    let v = chars_of(src);
    push_all(dst, &v);
}

/// The concatenation of two texts.
pub fn concat2(a: &str, b: &str) -> (out: String)
    ensures
        out@ == a@ + b@,
{
    let mut out = String::from_str(a);
    out.append(b);
    out
}

/// The concatenation of three texts.
pub fn concat3(a: &str, b: &str, c: &str) -> (out: String)
    ensures
        out@ == a@ + b@ + c@,
{
    let mut out = String::from_str(a);
    out.append(b);
    out.append(c);
    out
}


/// The texts held by a sequence of strings.
pub open spec fn texts(v: Seq<String>) -> Seq<Seq<char>> {
    v.map_values(|s: String| s@)
}

/// Appends a copy of the text `s` to a list of strings.
pub fn push_text(out: &mut Vec<String>, s: &str)
    ensures
        texts(final(out)@) == texts(old(out)@).push(s@),
{
    out.push(String::from_str(s));
    assert(texts(out@) =~= texts(old(out)@).push(s@));
}

/// Copies a list of strings.
pub fn clone_texts(v: &Vec<String>) -> (out: Vec<String>)
    ensures
        out@ == v@,
{
    let mut out: Vec<String> = Vec::new();
    let mut i: usize = 0;
    while i < v.len()
        invariant
            i <= v.len(),
            out@ == v@.take(i as int),
        decreases v.len() - i,
    {
        out.push(v[i].clone());
        i += 1;
        assert(out@ =~= v@.take(i as int));
    }
    assert(v@.take(v@.len() as int) =~= v@);
    out
}


/// The text held by an optional string.
pub open spec fn opt_text(o: Option<String>) -> Option<Seq<char>> {
    match o {
        Some(s) => Some(s@),
        None => None,
    }
}

} // verus!
