//! Reading records back from a log.

use crate::binary::{le_u32, read_u32_le};
use crate::storage::{spec_read_all, spec_step, Step, StorageError, PREFIX_LEN};
use vstd::prelude::*;

verus! {

/// What the bytes obtained for a length prefix say.
#[derive(Debug, Clone, Copy, PartialEq, Eq, Structural)]
pub enum Prefix {
    /// Fewer than four bytes could be had: the log has ended.
    End,
    /// A record of this many bytes follows.
    Record { len: usize },
}

/// Reads what a length prefix says. `got` holds the bytes that could be had
/// when four were asked for.
pub fn read_prefix(got: &[u8]) -> (r: Prefix)
    ensures
        got@.len() < PREFIX_LEN ==> r == Prefix::End,
        got@.len() >= PREFIX_LEN ==> r == (Prefix::Record { len: le_u32(got@, 0) as usize }),
{
    if got.len() < PREFIX_LEN {
        Prefix::End
    } else {
        Prefix::Record { len: read_u32_le(got, 0) as usize }
    }
}

/// Checks that a record is whole: `found` bytes could be had when `expected`
/// were asked for.
pub fn check_payload(expected: usize, found: usize) -> (r: Result<(), StorageError>)
    ensures
        found >= expected ==> r == Ok::<(), StorageError>(()),
        found < expected ==> r == Err::<(), StorageError>(
            StorageError::Truncated { expected, found },
        ),
{
    if found < expected {
        Err(StorageError::Truncated { expected, found })
    } else {
        Ok(())
    }
}

/// A reader that yields the records of a log one at a time.
#[derive(Debug)]
pub struct BincodeIterator {
    data: Vec<u8>,
    pos: usize,
}

impl BincodeIterator {
    /// The part of the log that has not been read yet.
    pub closed spec fn remaining(&self) -> Seq<u8> {
        if self.pos <= self.data@.len() {
            self.data@.skip(self.pos as int)
        } else {
            Seq::empty()
        }
    }

    /// A reader at the start of the log `data`.
    pub fn new(data: Vec<u8>) -> (r: Self)
        ensures
            r.remaining() == data@,
    {
        let r = BincodeIterator { data, pos: 0 };
        assert(r.remaining() =~= data@);
        r
    }

    /// Reads the next record. `None` at the end of the log; an error when
    /// the log breaks off inside a record, after which the reader is at the
    /// end.
    pub fn next(&mut self) -> (r: Option<Result<Vec<u8>, StorageError>>)
        ensures
            match spec_step(old(self).remaining()) {
                Step::End => r is None && final(self).remaining() == old(self).remaining(),
                Step::Record { payload, rest } => {
                    &&& r matches Some(Ok(p))
                    &&& p@ == payload
                    &&& final(self).remaining() == rest
                },
                Step::Truncated { expected, found } => {
                    &&& r == Some(
                        Err::<Vec<u8>, StorageError>(
                            StorageError::Truncated {
                                expected: expected as usize,
                                found: found as usize,
                            },
                        ),
                    )
                    &&& final(self).remaining() == Seq::<u8>::empty()
                },
            },
    {
        let total: usize = self.data.len();
        if self.pos > total || total - self.pos < PREFIX_LEN {
            return None;
        }
        let ghost left = self.remaining();
        let start: usize = self.pos + PREFIX_LEN;
        let len: usize = read_u32_le(self.data.as_slice(), self.pos) as usize;
        proof {
            assert(left[0] == self.data@[self.pos as int]);
            assert(left[1] == self.data@[self.pos + 1]);
            assert(left[2] == self.data@[self.pos + 2]);
            assert(left[3] == self.data@[self.pos + 3]);
            assert(le_u32(left, 0) == len);
        }
        if total - start < len {
            self.pos = total;
            assert(self.remaining() =~= Seq::<u8>::empty());
            return Some(Err(StorageError::Truncated { expected: len, found: total - start }));
        }
        let mut payload: Vec<u8> = Vec::new();
        let mut i: usize = 0;
        while i < len
            invariant
                i <= len,
                start + len <= total,
                total == self.data.len(),
                payload@ == self.data@.subrange(start as int, start + i),
            decreases len - i,
        {
            payload.push(self.data[start + i]);
            i += 1;
            assert(payload@ =~= self.data@.subrange(start as int, start + i));
        }
        self.pos = start + len;
        proof {
            assert(payload@ =~= left.subrange(PREFIX_LEN as int, PREFIX_LEN + len));
            assert(self.remaining() =~= left.skip(PREFIX_LEN + len));
        }
        Some(Ok(payload))
    }
}

/// Reads every record of a log.
pub fn read_all(data: Vec<u8>) -> (r: Result<Vec<Vec<u8>>, StorageError>)
    ensures
        match r {
            Ok(records) => spec_read_all(data@) == Ok::<Seq<Seq<u8>>, StorageError>(
                crate::ldap::blobs(records@),
            ),
            Err(e) => spec_read_all(data@) == Err::<Seq<Seq<u8>>, StorageError>(e),
        },
{
    let mut reader = BincodeIterator::new(data);
    let mut records: Vec<Vec<u8>> = Vec::new();
    assert(crate::ldap::blobs(records@) =~= Seq::<Seq<u8>>::empty());
    loop
        invariant
            match spec_read_all(reader.remaining()) {
                Ok(more) => spec_read_all(data@) == Ok::<Seq<Seq<u8>>, StorageError>(
                    crate::ldap::blobs(records@) + more,
                ),
                Err(e) => spec_read_all(data@) == Err::<Seq<Seq<u8>>, StorageError>(e),
            },
        decreases reader.remaining().len(),
    {
        let ghost before = crate::ldap::blobs(records@);
        let ghost left = reader.remaining();
        match reader.next() {
            None => {
                assert(before + Seq::<Seq<u8>>::empty() =~= before);
                return Ok(records);
            },
            Some(Err(e)) => {
                return Err(e);
            },
            Some(Ok(payload)) => {
                proof {
                    let rest = reader.remaining();
                    assert(rest.len() < left.len());
                    match spec_read_all(rest) {
                        Ok(more) => {
                            assert(before + (seq![payload@] + more) =~= before.push(payload@)
                                + more);
                        },
                        Err(e) => {},
                    }
                }
                records.push(payload);
                assert(crate::ldap::blobs(records@) =~= before.push(payload@));
            },
        }
    }
}

} // verus!
