//! The record store: length-prefixed records in an append-only byte log.

pub mod buffer;
pub mod iter;

use crate::binary::{le_u32, lemma_u32_le_round_trip, u32_le_bytes};
use crate::ldap::LdapSearchEntry;
use vstd::prelude::*;

verus! {

/// The number of bytes of the length prefix.
pub const PREFIX_LEN: usize = 4;

/// The longest record that a length prefix can announce.
pub const MAX_RECORD_LEN: usize = 0xffff_ffff;

/// What can go wrong with the store.
#[derive(Debug, Clone, Copy, PartialEq, Eq, Structural)]
pub enum StorageError {
    /// A record is longer than a length prefix can say.
    RecordTooLarge { len: usize },
    /// The log ends inside a record: the prefix announced `expected` bytes
    /// and only `found` follow.
    Truncated { expected: usize, found: usize },
}

/// One record as the log holds it: the length in four little-endian bytes,
/// then the record.
pub open spec fn frame(payload: Seq<u8>) -> Seq<u8> {
    u32_le_bytes(payload.len() as u32) + payload
}

/// The log that holds the given records in order.
pub open spec fn frames(payloads: Seq<Seq<u8>>) -> Seq<u8>
    decreases payloads.len(),
{
    if payloads.len() == 0 {
        Seq::empty()
    } else {
        frame(payloads.first()) + frames(payloads.drop_first())
    }
}

/// Every record is short enough for a length prefix.
pub open spec fn all_fit(payloads: Seq<Seq<u8>>) -> bool {
    forall|i: int| 0 <= i < payloads.len() ==> (#[trigger] payloads[i]).len() <= MAX_RECORD_LEN
}

/// What reading one record from the start of a log gives.
pub enum Step {
    /// Fewer than four bytes are left: the log ends here.
    End,
    /// A whole record, and the log that follows it.
    Record { payload: Seq<u8>, rest: Seq<u8> },
    /// A prefix that announces more bytes than are left.
    Truncated { expected: nat, found: nat },
}

/// Reads one record from the start of a log.
pub open spec fn spec_step(data: Seq<u8>) -> Step {
    if data.len() < PREFIX_LEN {
        Step::End
    } else if data.len() - PREFIX_LEN < le_u32(data, 0) {
        Step::Truncated {
            expected: le_u32(data, 0) as nat,
            found: (data.len() - PREFIX_LEN) as nat,
        }
    } else {
        Step::Record {
            payload: data.subrange(PREFIX_LEN as int, PREFIX_LEN + le_u32(data, 0)),
            rest: data.skip(PREFIX_LEN + le_u32(data, 0)),
        }
    }
}

/// Reads every record of a log, or tells where the log breaks off.
pub open spec fn spec_read_all(data: Seq<u8>) -> Result<Seq<Seq<u8>>, StorageError>
    decreases data.len(),
{
    match spec_step(data) {
        Step::End => Ok(Seq::empty()),
        Step::Truncated { expected, found } => Err(
            StorageError::Truncated { expected: expected as usize, found: found as usize },
        ),
        Step::Record { payload, rest } => {
            if rest.len() < data.len() {
                match spec_read_all(rest) {
                    Ok(more) => Ok(seq![payload] + more),
                    Err(e) => Err(e),
                }
            } else {
                Ok(Seq::empty())
            }
        },
    }
}

/// Appending a record to the records appends its frame to the log.
pub proof fn lemma_frames_push(payloads: Seq<Seq<u8>>, payload: Seq<u8>)
    ensures
        frames(payloads.push(payload)) == frames(payloads) + frame(payload),
    decreases payloads.len(),
{
    let all = payloads.push(payload);
    if payloads.len() == 0 {
        assert(all.drop_first() =~= Seq::<Seq<u8>>::empty());
        assert(all.first() == payload);
        assert(frames(all.drop_first()) =~= Seq::<u8>::empty());
        assert(frames(all) =~= frame(payload));
        assert(frames(payloads) + frame(payload) =~= frame(payload));
    } else {
        assert(all.drop_first() =~= payloads.drop_first().push(payload));
        assert(all.first() == payloads.first());
        lemma_frames_push(payloads.drop_first(), payload);
        assert(frame(payloads.first()) + (frames(payloads.drop_first()) + frame(payload))
            =~= frame(payloads.first()) + frames(payloads.drop_first()) + frame(payload));
    }
}

/// Reading the frame of a record in front of a log gives the record and the
/// log.
pub proof fn lemma_step_frame(payload: Seq<u8>, rest: Seq<u8>)
    requires
        payload.len() <= MAX_RECORD_LEN,
    ensures
        spec_step(frame(payload) + rest) == (Step::Record { payload, rest }),
{
    let data = frame(payload) + rest;
    let prefix = u32_le_bytes(payload.len() as u32);
    lemma_u32_le_round_trip(payload.len() as u32);
    assert(data[0] == prefix[0]);
    assert(data[1] == prefix[1]);
    assert(data[2] == prefix[2]);
    assert(data[3] == prefix[3]);
    assert(le_u32(data, 0) == payload.len());
    assert(data.subrange(PREFIX_LEN as int, PREFIX_LEN + payload.len()) =~= payload);
    assert(data.skip(PREFIX_LEN + payload.len()) =~= rest);
}

/// Reading back a log gives the records that were written, in the order in
/// which they were written.
pub proof fn lemma_read_all_frames(payloads: Seq<Seq<u8>>)
    requires
        all_fit(payloads),
    ensures
        spec_read_all(frames(payloads)) == Ok::<Seq<Seq<u8>>, StorageError>(payloads),
    decreases payloads.len(),
{
    if payloads.len() == 0 {
        assert(payloads =~= Seq::<Seq<u8>>::empty());
    } else {
        let first = payloads.first();
        let tail = payloads.drop_first();
        assert(first.len() <= MAX_RECORD_LEN);
        assert(all_fit(tail)) by {
            assert forall|i: int| 0 <= i < tail.len() implies (#[trigger] tail[i]).len()
                <= MAX_RECORD_LEN by {
                assert(tail[i] == payloads[i + 1]);
            }
        }
        lemma_step_frame(first, frames(tail));
        lemma_read_all_frames(tail);
        assert(seq![first] + tail =~= payloads);
    }
}

/// Something that hands over the records of a run in order.
pub trait EntrySource: Sized {
    /// The records that the source holds.
    spec fn entries(&self) -> Seq<LdapSearchEntry>;

    /// Gives the records up.
    fn into_entries(self) -> (r: Vec<LdapSearchEntry>)
        ensures
            r@ == self.entries(),
    ;
}

impl EntrySource for Vec<LdapSearchEntry> {
    open spec fn entries(&self) -> Seq<LdapSearchEntry> {
        self@
    }

    fn into_entries(self) -> (r: Vec<LdapSearchEntry>) {
        self
    }
}

} // verus!
