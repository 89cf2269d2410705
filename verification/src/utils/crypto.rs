//! Digests and Kerberos encryption-type names.

use crate::text::{push_text, string_of, texts};
use crate::utils::format::{hex_padded, push_hex_padded};
use sha1::{Digest, Sha1};
use x509_parser::certificate::X509Certificate;
use x509_parser::extensions::ParsedExtension;
use x509_parser::prelude::FromDer;
use vstd::prelude::*;

verus! {

/// The 20-byte SHA-1 digest of a byte string, as the `sha1` crate computes it.
pub uninterp spec fn spec_sha1(data: Seq<u8>) -> Seq<u8>;

/// Calls `sha1::Sha1::digest`. The contract only names the digest.
#[verifier::external_body]
fn sha1_digest(data: &[u8]) -> (out: Vec<u8>)
    ensures
        out@ == spec_sha1(data@),
{
    Sha1::digest(data).to_vec()
}

/// Renders a digest as upper-case hexadecimal, two digits per byte.
pub fn digest_to_hex(digest: &[u8]) -> (out: String)
    ensures
        out@ == hex_padded(digest@),
{
    let mut v: Vec<char> = Vec::new();
    push_hex_padded(&mut v, digest);
    assert(v@ =~= hex_padded(digest@));
    string_of(&v)
}

/// The SHA-1 digest of `data` in upper-case hexadecimal.
pub fn calculate_sha1(data: &[u8]) -> (out: String)
    ensures
        out@ == hex_padded(spec_sha1(data@)),
{
    let digest = sha1_digest(data);
    digest_to_hex(digest.as_slice())
}

pub const DES_CBC_CRC: u32 = 0x1;

pub const DES_CBC_MD5: u32 = 0x2;

pub const RC4_HMAC_MD5: u32 = 0x4;

pub const AES128_CTS_HMAC_SHA1_96: u32 = 0x8;

pub const AES256_CTS_HMAC_SHA1_96: u32 = 0x10;

/// `name` when `flag` is set in `bits`, nothing otherwise.
pub open spec fn named_if_set(bits: u32, flag: u32, name: Seq<char>) -> Seq<Seq<char>> {
    if bits & flag == flag {
        seq![name]
    } else {
        Seq::empty()
    }
}

/// The names of the Kerberos encryption types set in an
/// `msDS-SupportedEncryptionTypes` value, in bit order; `Not defined` for 0.
pub open spec fn spec_convert_encryption_types(bits: u32) -> Seq<Seq<char>> {
    (if bits == 0 {
        seq!["Not defined"@]
    } else {
        Seq::empty()
    }) + named_if_set(bits, DES_CBC_CRC, "DES-CBC-CRC"@) + named_if_set(
        bits,
        DES_CBC_MD5,
        "DES-CBC-MD5"@,
    ) + named_if_set(bits, RC4_HMAC_MD5, "RC4-HMAC-MD5"@) + named_if_set(
        bits,
        AES128_CTS_HMAC_SHA1_96,
        "AES128-CTS-HMAC-SHA1-96"@,
    ) + named_if_set(bits, AES256_CTS_HMAC_SHA1_96, "AES256-CTS-HMAC-SHA1-96"@)
}

fn push_if_set(out: &mut Vec<String>, bits: u32, flag: u32, name: &str)
    ensures
        texts(final(out)@) == texts(old(out)@) + named_if_set(bits, flag, name@),
{
    if bits & flag == flag {
        push_text(out, name);
        assert(texts(out@) =~= texts(old(out)@) + named_if_set(bits, flag, name@));
    } else {
        assert(texts(out@) =~= texts(old(out)@) + named_if_set(bits, flag, name@));
    }
}

/// Names the encryption types of an `msDS-SupportedEncryptionTypes` value.
/// The value is read as a bit field, so a negative number is taken by its
/// two's-complement bits.
pub fn convert_encryption_types(encryption_types: i32) -> (out: Vec<String>)
    ensures
        texts(out@) == spec_convert_encryption_types(encryption_types as u32),
{
    let bits: u32 = encryption_types as u32;
    let mut out: Vec<String> = Vec::new();
    assert(texts(out@) =~= Seq::<Seq<char>>::empty());
    if bits == 0 {
        push_text(&mut out, "Not defined");
    }
    assert(texts(out@) =~= (if bits == 0 {
        seq!["Not defined"@]
    } else {
        Seq::empty()
    }));
    push_if_set(&mut out, bits, DES_CBC_CRC, "DES-CBC-CRC");
    push_if_set(&mut out, bits, DES_CBC_MD5, "DES-CBC-MD5");
    push_if_set(&mut out, bits, RC4_HMAC_MD5, "RC4-HMAC-MD5");
    push_if_set(&mut out, bits, AES128_CTS_HMAC_SHA1_96, "AES128-CTS-HMAC-SHA1-96");
    push_if_set(&mut out, bits, AES256_CTS_HMAC_SHA1_96, "AES256-CTS-HMAC-SHA1-96");
    out
}

/// What `x509_parser` reads from the extensions of a DER certificate, one
/// item for each extension in order: for a basic-constraints extension its
/// path length constraint, `None` for any other extension. Empty when the
/// certificate does not parse.
pub uninterp spec fn spec_certificate_constraints(der: Seq<u8>) -> Seq<Option<Option<u32>>>;

/// Calls `x509_parser::certificate::X509Certificate::from_der` and walks the
/// extensions of the certificate. The contract only names the result.
#[verifier::external_body]
fn certificate_constraints(der: &[u8]) -> (r: Vec<Option<Option<u32>>>)
    ensures
        r@ == spec_certificate_constraints(der@),
{
    match X509Certificate::from_der(der) {
        Ok((_, cert)) => cert.extensions().iter().map(
            |ext| match ext.parsed_extension() {
                ParsedExtension::BasicConstraints(bc) => Some(bc.path_len_constraint),
                _ => None,
            },
        ).collect(),
        Err(_) => Vec::new(),
    }
}

/// Whether a certificate constrains the length of the chain below it, and
/// to how many certificates.
pub struct PathLength {
    pub constrained: bool,
    pub length: u32,
}

/// What the first `n` extensions leave of a path length. A basic-constraints
/// extension with a positive path length sets it; one with no path length or
/// with zero clears it; any other extension changes nothing.
pub open spec fn path_length_after(
    start: PathLength,
    extensions: Seq<Option<Option<u32>>>,
    n: nat,
) -> PathLength
    decreases n,
{
    if n == 0 {
        start
    } else {
        let before = path_length_after(start, extensions, (n - 1) as nat);
        match extensions[n - 1] {
            Some(Some(length)) => if length > 0 {
                PathLength { constrained: true, length }
            } else {
                PathLength { constrained: false, length: 0 }
            },
            Some(None) => PathLength { constrained: false, length: 0 },
            None => before,
        }
    }
}

/// The path length that a DER certificate leaves.
pub open spec fn spec_certificate_path_length(der: Seq<u8>, start: PathLength) -> PathLength {
    path_length_after(
        start,
        spec_certificate_constraints(der),
        spec_certificate_constraints(der).len(),
    )
}

/// Works out the path length from what the extensions of a certificate say.
pub fn path_length_from(start: PathLength, extensions: &Vec<Option<Option<u32>>>) -> (r: PathLength)
    ensures
        r == path_length_after(start, extensions@, extensions@.len()),
{
    let mut current = start;
    let mut i: usize = 0;
    while i < extensions.len()
        invariant
            i <= extensions.len(),
            current == path_length_after(start, extensions@, i as nat),
        decreases extensions.len() - i,
    {
        match extensions[i] {
            Some(Some(length)) => {
                current = if length > 0 {
                    PathLength { constrained: true, length }
                } else {
                    PathLength { constrained: false, length: 0 }
                };
            },
            Some(None) => {
                current = PathLength { constrained: false, length: 0 };
            },
            None => {},
        }
        i += 1;
    }
    current
}

/// The path length constraint of a DER certificate, starting from `start`.
pub fn certificate_path_length(der: &[u8], start: PathLength) -> (r: PathLength)
    ensures
        r == spec_certificate_path_length(der@, start),
{
    let extensions = certificate_constraints(der);
    path_length_from(start, &extensions)
}

} // verus!
