//! Number rendering and the domain-name to naming-context conversion.

use crate::text::{
    after_first, before_first, chars_of, lemma_index_of_skip, position_of, push_all, push_str,
    slice_chars, string_of,
};
use vstd::prelude::*;

verus! {

/// The character of one decimal digit.
pub open spec fn digit_char(d: int) -> char {
    (48 + d) as char
}

/// The decimal rendering of a natural number, without sign or padding.
pub open spec fn decimal(n: nat) -> Seq<char>
    decreases n,
{
    if n < 10 {
        seq![digit_char(n as int)]
    } else {
        decimal(n / 10).push(digit_char((n % 10) as int))
    }
}

/// The character of one upper-case hexadecimal digit.
pub open spec fn hex_char(d: int) -> char {
    if d < 10 {
        (48 + d) as char
    } else {
        (55 + d) as char
    }
}

/// One byte as two upper-case hexadecimal digits.
pub open spec fn hex2(b: u8) -> Seq<char> {
    seq![hex_char(b as int / 16), hex_char(b as int % 16)]
}

/// One byte as upper-case hexadecimal without a leading zero.
pub open spec fn hex_short(b: u8) -> Seq<char> {
    if b < 16 {
        seq![hex_char(b as int)]
    } else {
        hex2(b)
    }
}

/// Every byte of `s` as two upper-case hexadecimal digits.
pub open spec fn hex_padded(s: Seq<u8>) -> Seq<char>
    decreases s.len(),
{
    if s.len() == 0 {
        Seq::empty()
    } else {
        hex_padded(s.drop_last()) + hex2(s.last())
    }
}

/// Every byte of `s` as upper-case hexadecimal without leading zeros.
pub open spec fn hex_unpadded(s: Seq<u8>) -> Seq<char>
    decreases s.len(),
{
    if s.len() == 0 {
        Seq::empty()
    } else {
        hex_unpadded(s.drop_last()) + hex_short(s.last())
    }
}

fn digit(d: u8) -> (c: char)
    requires
        d < 10,
    ensures
        c == digit_char(d as int),
{
    (48u8 + d) as char
}

fn hex_digit(d: u8) -> (c: char)
    requires
        d < 16,
    ensures
        c == hex_char(d as int),
{
    if d < 10 {
        (48u8 + d) as char
    } else {
        (55u8 + d) as char
    }
}

/// Appends the decimal rendering of `n` to `out`.
pub fn push_decimal(out: &mut Vec<char>, n: u64)
    ensures
        final(out)@ == old(out)@ + decimal(n as nat),
{
    let mut digits: Vec<char> = Vec::new();
    let mut rest: u64 = n;
    // Digits are produced from the least significant one.
    while rest >= 10
        invariant
            decimal(n as nat) == decimal(rest as nat) + digits@.reverse(),
        decreases rest,
    {
        let d = digit((rest % 10) as u8);
        proof {
            assert(decimal(rest as nat) == decimal((rest / 10) as nat).push(d));
            assert(digits@.push(d).reverse() =~= seq![d] + digits@.reverse());
            assert(decimal((rest / 10) as nat).push(d) + digits@.reverse() =~= decimal(
                (rest / 10) as nat,
            ) + digits@.push(d).reverse());
        }
        digits.push(d);
        rest = rest / 10;
    }
    let first = digit(rest as u8);
    out.push(first);
    let mut i: usize = digits.len();
    while i > 0
        invariant
            i <= digits.len(),
            out@ == old(out)@ + seq![first] + digits@.reverse().take(digits.len() - i),
        decreases i,
    {
        i -= 1;
        out.push(digits[i]);
        assert(digits@.reverse()[digits.len() - 1 - i] == digits@[i as int]);
        assert(out@ =~= old(out)@ + seq![first] + digits@.reverse().take(digits.len() - i));
    }
    assert(digits@.reverse().take(digits.len() as int) =~= digits@.reverse());
    assert(out@ =~= old(out)@ + (seq![first] + digits@.reverse()));
}

/// Appends one byte as two upper-case hexadecimal digits.
pub fn push_hex2(out: &mut Vec<char>, b: u8)
    ensures
        final(out)@ == old(out)@ + hex2(b),
{
    out.push(hex_digit(b / 16));
    out.push(hex_digit(b % 16));
    assert(out@ =~= old(out)@ + hex2(b));
}

/// Appends every byte of `bytes` as two upper-case hexadecimal digits.
pub fn push_hex_padded(out: &mut Vec<char>, bytes: &[u8])
    ensures
        final(out)@ == old(out)@ + hex_padded(bytes@),
{
    let mut i: usize = 0;
    assert(bytes@.take(0) =~= Seq::<u8>::empty());
    while i < bytes.len()
        invariant
            i <= bytes.len(),
            out@ == old(out)@ + hex_padded(bytes@.take(i as int)),
        decreases bytes.len() - i,
    {
        push_hex2(out, bytes[i]);
        proof {
            let next = bytes@.take(i + 1);
            assert(next.drop_last() =~= bytes@.take(i as int));
            assert(next.last() == bytes@[i as int]);
            assert(out@ =~= old(out)@ + hex_padded(next));
        }
        i += 1;
    }
    assert(bytes@.take(bytes@.len() as int) =~= bytes@);
}

/// Appends every byte of `bytes` as upper-case hexadecimal without leading
/// zeros.
pub fn push_hex_unpadded(out: &mut Vec<char>, bytes: &[u8])
    ensures
        final(out)@ == old(out)@ + hex_unpadded(bytes@),
{
    let mut i: usize = 0;
    assert(bytes@.take(0) =~= Seq::<u8>::empty());
    while i < bytes.len()
        invariant
            i <= bytes.len(),
            out@ == old(out)@ + hex_unpadded(bytes@.take(i as int)),
        decreases bytes.len() - i,
    {
        let ghost before = out@;
        let b = bytes[i];
        if b < 16 {
            out.push(hex_digit(b));
            assert(out@ =~= before + hex_short(b));
        } else {
            push_hex2(out, b);
        }
        proof {
            let next = bytes@.take(i + 1);
            assert(next.drop_last() =~= bytes@.take(i as int));
            assert(next.last() == bytes@[i as int]);
            assert(out@ =~= old(out)@ + hex_unpadded(next));
        }
        i += 1;
    }
    assert(bytes@.take(bytes@.len() as int) =~= bytes@);
}

/// The naming context of a dotted domain name: `DC=` before every label,
/// commas between the components.
pub open spec fn spec_domain_to_dc(domain: Seq<char>) -> Seq<char>
    decreases domain.len(),
{
    match after_first(domain, '.') {
        None => "DC="@ + domain,
        Some(rest) => {
            if rest.len() < domain.len() {
                "DC="@ + before_first(domain, '.') + ","@ + spec_domain_to_dc(rest)
            } else {
                "DC="@ + domain
            }
        },
    }
}

/// Turns a dotted domain name into its naming context: every label becomes a
/// `DC=` component and the components are joined by commas.
pub fn domain_to_dc(domain: &str) -> (dc: String)
    ensures
        dc@ == spec_domain_to_dc(domain@),
{
    let d = chars_of(domain);
    let mut out: Vec<char> = Vec::new();
    let mut start: usize = 0;
    assert(d@.skip(0) =~= d@);
    loop
        invariant
            start <= d.len(),
            d@ == domain@,
            spec_domain_to_dc(d@) == out@ + spec_domain_to_dc(d@.skip(start as int)),
        decreases d.len() - start,
    {
        let ghost rest = d@.skip(start as int);
        let ghost before = out@;
        let p = position_of(&d, '.', start);
        proof {
            lemma_index_of_skip(d@, '.', start as int, start as int);
        }
        push_str(&mut out, "DC=");
        let label = slice_chars(&d, start, p);
        push_all(&mut out, &label);
        assert(label@ =~= rest.take(p - start));
        if p >= d.len() {
            assert(rest.take(rest.len() as int) =~= rest);
            assert(p - start == rest.len());
            assert(after_first(rest, '.') is None);
            assert(spec_domain_to_dc(rest) == "DC="@ + rest);
            assert(out@ =~= before + ("DC="@ + rest));
            return string_of(&out);
        }
        push_str(&mut out, ",");
        assert(rest.skip(p - start + 1) =~= d@.skip(p + 1));
        assert(out@ =~= before + ("DC="@ + before_first(rest, '.') + ","@));
        assert(spec_domain_to_dc(rest) == "DC="@ + before_first(rest, '.') + ","@
            + spec_domain_to_dc(d@.skip(p + 1)));
        assert(before + ("DC="@ + before_first(rest, '.') + ","@ + spec_domain_to_dc(
            d@.skip(p + 1),
        )) =~= before + ("DC="@ + before_first(rest, '.') + ","@) + spec_domain_to_dc(
            d@.skip(p + 1),
        ));
        start = p + 1;
    }
}

/// An ASCII decimal digit.
pub open spec fn is_decimal_digit(c: char) -> bool {
    '0' <= c && c <= '9'
}

/// The value of a text made of decimal digits only, at least one.
pub open spec fn digits_value(s: Seq<char>) -> Option<nat>
    decreases s.len(),
{
    if s.len() == 0 || !is_decimal_digit(s.last()) {
        None
    } else if s.len() == 1 {
        Some((s.last() as int - 48) as nat)
    } else {
        match digits_value(s.drop_last()) {
            Some(v) => Some(v * 10 + (s.last() as int - 48) as nat),
            None => None,
        }
    }
}

/// The integer that a text denotes: decimal digits after an optional sign.
/// `minus` says whether a minus sign is accepted.
pub open spec fn spec_parse_int(s: Seq<char>, minus: bool) -> Option<int> {
    if s.len() > 0 && s[0] == '+' {
        match digits_value(s.skip(1)) {
            Some(v) => Some(v as int),
            None => None,
        }
    } else if minus && s.len() > 0 && s[0] == '-' {
        match digits_value(s.skip(1)) {
            Some(v) => Some(-(v as int)),
            None => None,
        }
    } else {
        match digits_value(s) {
            Some(v) => Some(v as int),
            None => None,
        }
    }
}

/// The 64-bit signed integer that a text denotes, when it denotes one.
pub open spec fn spec_parse_i64(s: Seq<char>) -> Option<i64> {
    match spec_parse_int(s, true) {
        Some(v) => if i64::MIN <= v <= i64::MAX {
            Some(v as i64)
        } else {
            None
        },
        None => None,
    }
}

/// The 32-bit signed integer that a text denotes, when it denotes one.
pub open spec fn spec_parse_i32(s: Seq<char>) -> Option<i32> {
    match spec_parse_int(s, true) {
        Some(v) => if i32::MIN <= v <= i32::MAX {
            Some(v as i32)
        } else {
            None
        },
        None => None,
    }
}

/// The 32-bit unsigned integer that a text denotes, when it denotes one.
pub open spec fn spec_parse_u32(s: Seq<char>) -> Option<u32> {
    match spec_parse_int(s, false) {
        Some(v) => if v <= u32::MAX {
            Some(v as u32)
        } else {
            None
        },
        None => None,
    }
}

/// A bound above every magnitude that the parsers accept.
pub const PARSE_LIMIT: u128 = 0x1_0000_0000_0000_0000;

/// Reads the digits `s[from..]`. Returns their value, capped at the limit,
/// or `None` when there is no digit or something else than digits.
fn read_digits(s: &Vec<char>, from: usize) -> (r: Option<u128>)
    requires
        from <= s.len(),
    ensures
        match r {
            Some(v) => match digits_value(s@.skip(from as int)) {
                Some(value) => (value < PARSE_LIMIT ==> v == value) && (value >= PARSE_LIMIT ==> v
                    == PARSE_LIMIT),
                None => false,
            },
            None => digits_value(s@.skip(from as int)) is None,
        },
{
    let len: usize = s.len();
    if from >= len {
        return None;
    }
    let ghost all = s@.skip(from as int);
    let mut acc: u128 = 0;
    let mut i: usize = from;
    while i < len
        invariant
            from <= i <= len,
            len == s.len(),
            all == s@.skip(from as int),
            acc <= PARSE_LIMIT,
            i > from ==> match digits_value(all.take(i - from)) {
                Some(value) => (value < PARSE_LIMIT ==> acc == value) && (value >= PARSE_LIMIT
                    ==> acc == PARSE_LIMIT),
                None => false,
            },
            i == from ==> acc == 0,
        decreases len - i,
    {
        let c = s[i];
        let ghost prefix = all.take(i + 1 - from);
        proof {
            assert(prefix.last() == c);
            assert(prefix.drop_last() =~= all.take(i - from));
        }
        if !('0' <= c && c <= '9') {
            proof {
                // A text with something else than a digit has no value, whatever follows.
                lemma_digits_value_prefix(all, i + 1 - from);
            }
            return None;
        }
        let d: u128 = (c as u32 - 48) as u128;
        let next: u128 = acc * 10 + d;
        acc = if next >= PARSE_LIMIT {
            PARSE_LIMIT
        } else {
            next
        };
        i += 1;
    }
    assert(all.take(all.len() as int) =~= all);
    Some(acc)
}

/// A text has a value only when every prefix of it has one.
pub proof fn lemma_digits_value_prefix(s: Seq<char>, n: int)
    requires
        1 <= n <= s.len(),
        digits_value(s.take(n)) is None,
    ensures
        digits_value(s) is None,
    decreases s.len() - n,
{
    if n < s.len() {
        assert(s.take(n + 1).drop_last() =~= s.take(n));
        lemma_digits_value_prefix(s, n + 1);
    } else {
        assert(s.take(n) =~= s);
    }
}

/// Reads a sign and digits. Returns whether the text is negative and the
/// magnitude, capped at the limit.
fn read_signed(s: &Vec<char>, minus: bool) -> (r: Option<(bool, u128)>)
    ensures
        match r {
            Some((negative, v)) => match spec_parse_int(s@, minus) {
                Some(value) => {
                    &&& negative ==> value <= 0
                    &&& !negative ==> value >= 0
                    &&& (if value < 0 {
                        -value
                    } else {
                        value
                    }) < PARSE_LIMIT ==> v == (if value < 0 {
                        -value
                    } else {
                        value
                    })
                    &&& (if value < 0 {
                        -value
                    } else {
                        value
                    }) >= PARSE_LIMIT ==> v == PARSE_LIMIT
                },
                None => false,
            },
            None => spec_parse_int(s@, minus) is None,
        },
{
    if s.len() > 0 && s[0] == '+' {
        match read_digits(s, 1) {
            Some(v) => Some((false, v)),
            None => None,
        }
    } else if minus && s.len() > 0 && s[0] == '-' {
        match read_digits(s, 1) {
            Some(v) => Some((true, v)),
            None => None,
        }
    } else {
        assert(s@.skip(0) =~= s@);
        match read_digits(s, 0) {
            Some(v) => Some((false, v)),
            None => None,
        }
    }
}

/// Reads a 64-bit signed integer as `str::parse` does: an optional sign, then
/// decimal digits; `None` for anything else or a value out of range.
pub fn parse_i64(text: &str) -> (r: Option<i64>)
    ensures
        r == spec_parse_i64(text@),
{
    let s = chars_of(text);
    match read_signed(&s, true) {
        Some((negative, v)) => {
            if negative {
                if v <= 0x8000_0000_0000_0000 {
                    if v == 0x8000_0000_0000_0000 {
                        Some(i64::MIN)
                    } else {
                        Some(-(v as i64))
                    }
                } else {
                    None
                }
            } else if v <= 0x7fff_ffff_ffff_ffff {
                Some(v as i64)
            } else {
                None
            }
        },
        None => None,
    }
}

/// Reads a 32-bit signed integer as `str::parse` does.
pub fn parse_i32(text: &str) -> (r: Option<i32>)
    ensures
        r == spec_parse_i32(text@),
{
    let s = chars_of(text);
    match read_signed(&s, true) {
        Some((negative, v)) => {
            if negative {
                if v <= 0x8000_0000 {
                    if v == 0x8000_0000 {
                        Some(i32::MIN)
                    } else {
                        Some(-(v as i32))
                    }
                } else {
                    None
                }
            } else if v <= 0x7fff_ffff {
                Some(v as i32)
            } else {
                None
            }
        },
        None => None,
    }
}

/// Reads a 32-bit unsigned integer as `str::parse` does: a minus sign is not
/// accepted.
pub fn parse_u32(text: &str) -> (r: Option<u32>)
    ensures
        r == spec_parse_u32(text@),
{
    let s = chars_of(text);
    match read_signed(&s, false) {
        Some((_, v)) => {
            if v <= 0xffff_ffff {
                Some(v as u32)
            } else {
                None
            }
        },
        None => None,
    }
}

} // verus!
