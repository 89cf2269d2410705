//! The binary layout of security identifiers.

use crate::binary::{le_u32, lemma_u32_le_round_trip, push_u32_le, read_u32_le, u32_le_bytes};
use vstd::prelude::*;

verus! {

/// A security identifier as the directory stores it.
#[derive(Debug, Clone)]
pub struct LdapSid {
    pub revision: u8,
    /// Six bytes, most significant first.
    pub identifier_authority: [u8; 6],
    pub sub_authority: Vec<u32>,
}

/// A security identifier as plain values.
pub struct SidView {
    pub revision: u8,
    pub authority: Seq<u8>,
    pub sub_authority: Seq<u32>,
}

impl View for LdapSid {
    type V = SidView;

    open spec fn view(&self) -> SidView {
        SidView {
            revision: self.revision,
            authority: self.identifier_authority@,
            sub_authority: self.sub_authority@,
        }
    }
}

/// The bytes before the sub-authorities: revision, count, authority.
pub const SID_HEADER_LEN: usize = 8;

/// The sub-authorities of an encoded identifier: `count` little-endian 32-bit
/// values starting at offset 8.
pub open spec fn sub_authorities(b: Seq<u8>, count: nat) -> Seq<u32> {
    Seq::new(count, |i: int| le_u32(b, 8 + 4 * i) as u32)
}

/// The length in bytes of the identifier that starts `b`, when `b` holds all
/// of it.
pub open spec fn spec_sid_len(b: Seq<u8>) -> Option<nat> {
    if b.len() >= 8 && b.len() >= 8 + 4 * (b[1] as nat) {
        Some(8 + 4 * (b[1] as nat))
    } else {
        None
    }
}

/// The identifier that starts `b`: one revision byte, one count byte, six
/// authority bytes, then `count` little-endian sub-authorities.
pub open spec fn spec_parse_sid(b: Seq<u8>) -> Option<SidView> {
    if spec_sid_len(b) is Some {
        Some(
            SidView {
                revision: b[0],
                authority: b.subrange(2, 8),
                sub_authority: sub_authorities(b, b[1] as nat),
            },
        )
    } else {
        None
    }
}

/// The encoding of an identifier with at most 255 sub-authorities.
pub open spec fn spec_sid_bytes(sid: SidView) -> Seq<u8>
    decreases sid.sub_authority.len(),
{
    if sid.sub_authority.len() == 0 {
        seq![sid.revision, 0u8] + sid.authority
    } else {
        let shorter = SidView { sub_authority: sid.sub_authority.drop_last(), ..sid };
        spec_sid_bytes(shorter).update(1, sid.sub_authority.len() as u8) + u32_le_bytes(
            sid.sub_authority.last(),
        )
    }
}

impl LdapSid {
    /// Reads the identifier at the start of `raw`. Returns it with the number
    /// of bytes it occupies, or `None` when `raw` is too short for its header
    /// or for the sub-authorities the header announces.
    pub fn parse(raw: &[u8]) -> (r: Option<(usize, LdapSid)>)
        ensures
            match r {
                Some((used, sid)) => spec_parse_sid(raw@) == Some(sid@) && spec_sid_len(raw@)
                    == Some(used as nat),
                None => spec_parse_sid(raw@) is None,
            },
    {
        if raw.len() < SID_HEADER_LEN {
            return None;
        }
        let count: usize = raw[1] as usize;
        if raw.len() - SID_HEADER_LEN < 4 * count {
            return None;
        }
        let mut authority: [u8; 6] = [0u8;6];
        let mut k: usize = 0;
        while k < 6
            invariant
                k <= 6,
                raw@.len() >= 8,
                forall|j: int| 0 <= j < k ==> authority@[j] == raw@[2 + j],
            decreases 6 - k,
        {
            authority[k] = raw[2 + k];
            k += 1;
        }
        assert(authority@ =~= raw@.subrange(2, 8));
        let mut subs: Vec<u32> = Vec::new();
        let mut i: usize = 0;
        while i < count
            invariant
                i <= count <= 255,
                raw@.len() >= 8 + 4 * count,
                subs@ == sub_authorities(raw@, i as nat),
            decreases count - i,
        {
            subs.push(read_u32_le(raw, 8 + 4 * i));
            i += 1;
            assert(subs@ =~= sub_authorities(raw@, i as nat));
        }
        Some(
            (
                8 + 4 * count,
                LdapSid { revision: raw[0], identifier_authority: authority, sub_authority: subs },
            ),
        )
    }

    /// Writes the identifier in the directory's binary layout.
    pub fn to_bytes(&self) -> (out: Vec<u8>)
        requires
            self.sub_authority.len() <= 255,
        ensures
            out@ == spec_sid_bytes(self@),
    {
        let mut out: Vec<u8> = Vec::new();
        out.push(self.revision);
        out.push(0u8);
        let mut k: usize = 0;
        while k < 6
            invariant
                k <= 6,
                out@ == seq![self.revision, 0u8] + self.identifier_authority@.take(k as int),
            decreases 6 - k,
        {
            out.push(self.identifier_authority[k]);
            k += 1;
            assert(out@ =~= seq![self.revision, 0u8] + self.identifier_authority@.take(k as int));
        }
        assert(self.identifier_authority@.take(6) =~= self.identifier_authority@);
        assert(self.sub_authority@.take(0) =~= Seq::<u32>::empty());
        let mut i: usize = 0;
        while i < self.sub_authority.len()
            invariant
                i <= self.sub_authority.len() <= 255,
                out@.len() == 8 + 4 * i,
                out@ == spec_sid_bytes(
                    SidView { sub_authority: self.sub_authority@.take(i as int), ..self@ },
                ),
            decreases self.sub_authority.len() - i,
        {
            let ghost prefix = SidView {
                sub_authority: self.sub_authority@.take(i as int),
                ..self@
            };
            let ghost next = SidView { sub_authority: self.sub_authority@.take(i + 1), ..self@ };
            out.set(1, (i + 1) as u8);
            push_u32_le(&mut out, self.sub_authority[i]);
            proof {
                assert(next.sub_authority.drop_last() =~= prefix.sub_authority);
                assert(next.sub_authority.last() == self.sub_authority@[i as int]);
                assert(SidView { sub_authority: next.sub_authority.drop_last(), ..next } == prefix);
                assert(out@ =~= spec_sid_bytes(prefix).update(1, (i + 1) as u8) + u32_le_bytes(
                    self.sub_authority@[i as int],
                ));
            }
            i += 1;
        }
        assert(self.sub_authority@.take(self.sub_authority@.len() as int) =~= self.sub_authority@);
        out
    }
}

/// The encoding of an identifier has a fixed shape: header, then four bytes
/// for each sub-authority.
pub proof fn lemma_sid_bytes_shape(sid: SidView)
    requires
        sid.authority.len() == 6,
        sid.sub_authority.len() <= 255,
    ensures
        spec_sid_bytes(sid).len() == 8 + 4 * sid.sub_authority.len(),
        spec_sid_bytes(sid)[0] == sid.revision,
        spec_sid_bytes(sid)[1] == sid.sub_authority.len() as u8,
        spec_sid_bytes(sid).subrange(2, 8) == sid.authority,
        forall|i: int|
            0 <= i < sid.sub_authority.len() ==> le_u32(spec_sid_bytes(sid), 8 + 4 * i)
                == #[trigger] sid.sub_authority[i],
    decreases sid.sub_authority.len(),
{
    if sid.sub_authority.len() == 0 {
        assert(spec_sid_bytes(sid).subrange(2, 8) =~= sid.authority);
    } else {
        let shorter = SidView { sub_authority: sid.sub_authority.drop_last(), ..sid };
        lemma_sid_bytes_shape(shorter);
        let last = sid.sub_authority.last();
        lemma_u32_le_round_trip(last);
        let head = spec_sid_bytes(shorter).update(1, sid.sub_authority.len() as u8);
        let all = spec_sid_bytes(sid);
        assert(all == head + u32_le_bytes(last));
        assert(all.subrange(2, 8) =~= spec_sid_bytes(shorter).subrange(2, 8));
        assert forall|i: int| 0 <= i < sid.sub_authority.len() implies le_u32(all, 8 + 4 * i)
            == #[trigger] sid.sub_authority[i] by {
            if i < sid.sub_authority.len() - 1 {
                assert(shorter.sub_authority[i] == sid.sub_authority[i]);
                assert(le_u32(all, 8 + 4 * i) == le_u32(spec_sid_bytes(shorter), 8 + 4 * i));
            } else {
                let at = 8 + 4 * i;
                assert(all[at] == u32_le_bytes(last)[0]);
                assert(all[at + 1] == u32_le_bytes(last)[1]);
                assert(all[at + 2] == u32_le_bytes(last)[2]);
                assert(all[at + 3] == u32_le_bytes(last)[3]);
            }
        }
    }
}

/// Decoding the encoding of an identifier gives the identifier back.
pub proof fn lemma_sid_round_trip(sid: SidView)
    requires
        sid.authority.len() == 6,
        sid.sub_authority.len() <= 255,
    ensures
        spec_parse_sid(spec_sid_bytes(sid)) == Some(sid),
{
    lemma_sid_bytes_shape(sid);
    let b = spec_sid_bytes(sid);
    assert(sub_authorities(b, b[1] as nat) =~= sid.sub_authority);
}

} // verus!
