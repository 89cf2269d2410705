//! Sinks for records: a plain list, and a buffered writer of the log.

use crate::binary::push_u32_le;
use crate::ldap::blobs;
use crate::storage::iter::BincodeIterator;
use crate::storage::{
    all_fit, frame, frames, lemma_frames_push, StorageError, MAX_RECORD_LEN,
};
use vstd::prelude::*;

verus! {

/// The number of records that a writer holds back when none is asked for.
pub const DEFAULT_BUFFER_SIZE: usize = 1000;

/// Something that takes records one at a time.
pub trait Storage<T>: Sized {
    /// The records taken so far, in order.
    spec fn items(&self) -> Seq<T>;

    /// Whether the sink is in a state that its own methods produce.
    spec fn valid(&self) -> bool;

    /// Whether the sink can take `item`.
    spec fn accepts(&self, item: &T) -> bool;

    /// The number of records that the sink holds back: records it has taken
    /// and not yet handed to the store behind it.
    spec fn held_back(&self) -> nat;

    /// Takes one record. A record that the sink cannot take is refused and
    /// leaves the sink as it was.
    fn add(&mut self, item: T) -> (r: Result<(), StorageError>)
        requires
            old(self).valid(),
        ensures
            final(self).valid(),
            r is Ok <==> old(self).accepts(&item),
            r is Ok ==> final(self).items() == old(self).items().push(item),
            r is Err ==> final(self).items() == old(self).items(),
    ;

    /// Hands everything that is held back to the store behind the sink.
    /// Afterwards nothing is held back; the records taken are the same.
    fn flush(&mut self) -> (r: Result<(), StorageError>)
        requires
            old(self).valid(),
        ensures
            final(self).valid(),
            r is Ok,
            final(self).items() == old(self).items(),
            final(self).held_back() == 0,
    ;

    /// Flushes and gives the sink up.
    fn finish(self) -> (r: Result<(), StorageError>)
        requires
            self.valid(),
        ensures
            r is Ok,
    ;
}

impl<T> Storage<T> for Vec<T> {
    open spec fn items(&self) -> Seq<T> {
        self@
    }

    open spec fn valid(&self) -> bool {
        true
    }

    open spec fn accepts(&self, item: &T) -> bool {
        true
    }

    /// A list is its own store: it holds nothing back.
    open spec fn held_back(&self) -> nat {
        0
    }

    fn add(&mut self, item: T) -> (r: Result<(), StorageError>) {
        self.push(item);
        Ok(())
    }

    fn flush(&mut self) -> (r: Result<(), StorageError>) {
        Ok(())
    }

    fn finish(self) -> (r: Result<(), StorageError>) {
        Ok(())
    }
}

/// Frames one record: its length in four little-endian bytes, then the
/// record. A record longer than the prefix can say is refused.
pub fn frame_record(payload: &[u8]) -> (r: Result<Vec<u8>, StorageError>)
    ensures
        payload@.len() <= MAX_RECORD_LEN ==> (r matches Ok(bytes) && bytes@ == frame(payload@)),
        payload@.len() > MAX_RECORD_LEN ==> r == Err::<Vec<u8>, StorageError>(
            StorageError::RecordTooLarge { len: payload@.len() as usize },
        ),
{
    let len: usize = payload.len();
    if len > MAX_RECORD_LEN {
        return Err(StorageError::RecordTooLarge { len });
    }
    let mut out: Vec<u8> = Vec::new();
    push_u32_le(&mut out, len as u32);
    append_bytes(&mut out, payload);
    Ok(out)
}

fn append_bytes(out: &mut Vec<u8>, bytes: &[u8])
    ensures
        final(out)@ == old(out)@ + bytes@,
{
    let mut i: usize = 0;
    while i < bytes.len()
        invariant
            i <= bytes.len(),
            out@ == old(out)@ + bytes@.take(i as int),
        decreases bytes.len() - i,
    {
        out.push(bytes[i]);
        i += 1;
        assert(out@ =~= old(out)@ + bytes@.take(i as int));
    }
    assert(bytes@.take(bytes@.len() as int) =~= bytes@);
}

/// A writer of the log. Records are held back until their number reaches the
/// capacity, then all of them are appended to the log at once.
pub struct BincodeObjectBuffer {
    /// Records that are held back.
    buffer: Vec<Vec<u8>>,
    capacity: usize,
    /// The part of the log that has not been taken out yet.
    log: Vec<u8>,
    /// The part of the log that was taken out.
    drained: Ghost<Seq<u8>>,
    /// The records that the log holds.
    written: Ghost<Seq<Seq<u8>>>,
    /// Every record taken so far.
    taken: Ghost<Seq<Vec<u8>>>,
}

impl BincodeObjectBuffer {
    /// The log holds the frames of the records written so far, and every
    /// record fits a length prefix.
    pub closed spec fn well_formed(&self) -> bool {
        &&& self.drained@ + self.log@ == frames(self.written@)
        &&& all_fit(self.written@)
        &&& all_fit(blobs(self.buffer@))
        &&& blobs(self.taken@) == self.written@ + blobs(self.buffer@)
    }

    /// The records taken so far, as they were handed over.
    pub closed spec fn taken(&self) -> Seq<Vec<u8>> {
        self.taken@
    }

    /// The records taken so far are the ones handed over.
    pub proof fn lemma_records(&self)
        requires
            self.well_formed(),
        ensures
            self.records() == blobs(self.taken()),
    {
    }

    /// The records taken so far: those in the log, then those held back.
    pub closed spec fn records(&self) -> Seq<Seq<u8>> {
        self.written@ + blobs(self.buffer@)
    }

    /// The records that are held back.
    pub closed spec fn pending(&self) -> Seq<Seq<u8>> {
        blobs(self.buffer@)
    }

    /// The number of records at which the writer appends to the log.
    pub closed spec fn spec_capacity(&self) -> usize {
        self.capacity
    }

    /// The part of the log that the writer still holds.
    pub closed spec fn spec_log(&self) -> Seq<u8> {
        self.log@
    }

    /// The part of the log that was taken out of the writer, to be kept
    /// elsewhere.
    pub closed spec fn spec_drained(&self) -> Seq<u8> {
        self.drained@
    }

    /// The log, taken out or not, holds exactly the records that are not held
    /// back.
    pub proof fn lemma_log(&self)
        requires
            self.well_formed(),
        ensures
            exists|written: Seq<Seq<u8>>|
                self.spec_drained() + self.spec_log() == frames(written) && self.records()
                    == written + self.pending() && all_fit(written),
    {
        assert(self.spec_drained() + self.spec_log() == frames(self.written@) && self.records()
            == self.written@ + self.pending() && all_fit(self.written@));
    }

    /// An empty writer that holds back 1000 records.
    pub fn new() -> (r: Self)
        ensures
            r.well_formed(),
            r.records() == Seq::<Seq<u8>>::empty(),
            r.taken() == Seq::<Vec<u8>>::empty(),
            r.spec_drained() == Seq::<u8>::empty(),
            r.spec_capacity() == DEFAULT_BUFFER_SIZE,
    {
        Self::new_with_capacity(DEFAULT_BUFFER_SIZE)
    }

    /// An empty writer that holds back `capacity` records.
    pub fn new_with_capacity(capacity: usize) -> (r: Self)
        ensures
            r.well_formed(),
            r.records() == Seq::<Seq<u8>>::empty(),
            r.taken() == Seq::<Vec<u8>>::empty(),
            r.spec_drained() == Seq::<u8>::empty(),
            r.spec_capacity() == capacity,
    {
        let r = BincodeObjectBuffer {
            buffer: Vec::new(),
            capacity,
            log: Vec::new(),
            drained: Ghost(Seq::empty()),
            written: Ghost(Seq::empty()),
            taken: Ghost(Seq::empty()),
        };
        assert(blobs(r.buffer@) =~= Seq::<Seq<u8>>::empty());
        assert(blobs(r.taken@) =~= r.written@ + blobs(r.buffer@));
        assert(r.drained@ + r.log@ =~= frames(r.written@));
        assert(r.records() =~= Seq::<Seq<u8>>::empty());
        r
    }

    /// The log as it stands.
    pub fn log(&self) -> (r: &Vec<u8>)
        ensures
            r@ == self.spec_log(),
    {
        &self.log
    }

    fn write_pending(&mut self)
        requires
            old(self).well_formed(),
        ensures
            final(self).well_formed(),
            final(self).records() == old(self).records(),
            final(self).taken() == old(self).taken(),
            final(self).pending() == Seq::<Seq<u8>>::empty(),
            final(self).spec_capacity() == old(self).spec_capacity(),
            final(self).spec_drained() == old(self).spec_drained(),
    {
        let ghost held = blobs(self.buffer@);
        let ghost start = self.written@;
        let mut i: usize = 0;
        assert(held.take(0) =~= Seq::<Seq<u8>>::empty());
        assert(start + held.take(0) =~= start);
        while i < self.buffer.len()
            invariant
                i <= self.buffer.len(),
                held == blobs(self.buffer@),
                all_fit(held),
                self.capacity == old(self).capacity,
                self.taken@ == old(self).taken@,
                self.drained@ == old(self).drained@,
                self.written@ == start + held.take(i as int),
                self.drained@ + self.log@ == frames(self.written@),
                all_fit(self.written@),
            decreases self.buffer.len() - i,
        {
            let ghost before = self.written@;
            assert(held[i as int] == self.buffer@[i as int]@);
            assert(held[i as int].len() <= MAX_RECORD_LEN);
            let len: usize = self.buffer[i].len();
            push_u32_le(&mut self.log, len as u32);
            let mut k: usize = 0;
            let ghost log_before = self.log@;
            assert(self.drained@ + log_before =~= frames(before) + crate::binary::u32_le_bytes(
                len as u32,
            ));
            while k < len
                invariant
                    k <= len,
                    i < self.buffer.len(),
                    len == self.buffer@[i as int]@.len(),
                    held == blobs(self.buffer@),
                    self.capacity == old(self).capacity,
                    self.taken@ == old(self).taken@,
                    self.drained@ == old(self).drained@,
                    self.written@ == before,
                    self.log@ == log_before + self.buffer@[i as int]@.take(k as int),
                decreases len - k,
            {
                let b = self.buffer[i][k];
                self.log.push(b);
                k += 1;
                assert(self.log@ =~= log_before + self.buffer@[i as int]@.take(k as int));
            }
            proof {
                let payload = held[i as int];
                assert(payload.take(payload.len() as int) =~= payload);
                lemma_frames_push(before, payload);
                assert(self.drained@ + self.log@ =~= frames(before) + frame(payload));
                self.written@ = before.push(payload);
                assert(held.take(i + 1) =~= held.take(i as int).push(payload));
                assert(start + held.take(i + 1) =~= before.push(payload));
            }
            i += 1;
        }
        assert(held.take(held.len() as int) =~= held);
        self.buffer = Vec::new();
        assert(blobs(self.buffer@) =~= Seq::<Seq<u8>>::empty());
        assert(self.records() =~= old(self).records());
        assert(blobs(self.taken@) =~= self.written@ + blobs(self.buffer@));
    }

    /// Takes one record and appends everything held back to the log once the
    /// capacity is reached. A record that is too long for a length prefix is
    /// refused.
    pub fn add_record(&mut self, item: Vec<u8>) -> (r: Result<(), StorageError>)
        requires
            old(self).well_formed(),
        ensures
            final(self).well_formed(),
            final(self).spec_capacity() == old(self).spec_capacity(),
            item@.len() <= MAX_RECORD_LEN ==> r is Ok && final(self).taken() == old(
                self,
            ).taken().push(item) && final(self).records() == old(self).records().push(item@),
            item@.len() <= MAX_RECORD_LEN && old(self).pending().len() + 1 >= old(
                self,
            ).spec_capacity() ==> final(self).pending() == Seq::<Seq<u8>>::empty()
                && final(self).spec_drained() + final(self).spec_log() == frames(
                old(self).records().push(item@),
            ),
            item@.len() <= MAX_RECORD_LEN && old(self).pending().len() + 1 < old(
                self,
            ).spec_capacity() ==> final(self).pending() == old(self).pending().push(item@)
                && final(self).spec_log() == old(self).spec_log(),
            final(self).spec_drained() == old(self).spec_drained(),
            item@.len() > MAX_RECORD_LEN ==> r == Err::<(), StorageError>(
                StorageError::RecordTooLarge { len: item@.len() as usize },
            ) && *final(self) == *old(self),
    {
        let len: usize = item.len();
        if len > MAX_RECORD_LEN {
            return Err(StorageError::RecordTooLarge { len });
        }
        proof {
            let held = blobs(self.buffer@);
            assert(blobs(self.buffer@.push(item)) =~= held.push(item@));
            assert(blobs(self.taken@.push(item)) =~= blobs(self.taken@).push(item@));
            assert(self.written@ + held.push(item@) =~= (self.written@ + held).push(item@));
            self.taken@ = self.taken@.push(item);
        }
        self.buffer.push(item);
        if self.buffer.len() >= self.capacity {
            self.write_pending();
            assert(self.written@ + Seq::<Seq<u8>>::empty() =~= self.written@);
        }
        Ok(())
    }

    /// Appends everything held back to the log.
    pub fn flush_records(&mut self)
        requires
            old(self).well_formed(),
        ensures
            final(self).well_formed(),
            final(self).records() == old(self).records(),
            final(self).taken() == old(self).taken(),
            final(self).pending() == Seq::<Seq<u8>>::empty(),
            final(self).spec_drained() == old(self).spec_drained(),
            final(self).spec_drained() + final(self).spec_log() == frames(old(self).records()),
            final(self).spec_capacity() == old(self).spec_capacity(),
    {
        self.write_pending();
        assert(self.written@ + Seq::<Seq<u8>>::empty() =~= self.written@);
    }

    /// Appends what is held back to the log and turns the writer into a
    /// reader at the start of the log.
    pub fn into_reader(self) -> (r: BincodeIterator)
        requires
            self.well_formed(),
        ensures
            self.spec_drained() + r.remaining() == frames(self.records()),
    {
        let mut writer = self;
        writer.write_pending();
        assert(writer.records() =~= writer.written@);
        BincodeIterator::new(writer.log)
    }

    /// Takes the log out of the writer, to be appended to a file. What is
    /// taken out is kept track of, so that the whole log stays what the
    /// records make it.
    pub fn take_log(&mut self) -> (bytes: Vec<u8>)
        requires
            old(self).well_formed(),
        ensures
            final(self).well_formed(),
            bytes@ == old(self).spec_log(),
            final(self).spec_log() == Seq::<u8>::empty(),
            final(self).spec_drained() == old(self).spec_drained() + old(self).spec_log(),
            final(self).records() == old(self).records(),
            final(self).taken() == old(self).taken(),
            final(self).pending() == old(self).pending(),
            final(self).spec_capacity() == old(self).spec_capacity(),
    {
        let mut bytes: Vec<u8> = Vec::new();
        core::mem::swap(&mut self.log, &mut bytes);
        proof {
            self.drained@ = self.drained@ + bytes@;
            assert(self.drained@ + self.log@ =~= old(self).drained@ + old(self).log@);
        }
        bytes
    }
}

impl Storage<Vec<u8>> for BincodeObjectBuffer {
    open spec fn items(&self) -> Seq<Vec<u8>> {
        self.taken()
    }

    open spec fn valid(&self) -> bool {
        self.well_formed()
    }

    open spec fn accepts(&self, item: &Vec<u8>) -> bool {
        item@.len() <= MAX_RECORD_LEN
    }

    open spec fn held_back(&self) -> nat {
        self.pending().len()
    }

    /// Takes one record and holds it back. Once the number of records held
    /// back reaches the capacity, all of them are appended to the log and
    /// nothing is held back; below the capacity the log stays as it is. A
    /// record that is too long for a length prefix is refused and changes
    /// nothing.
    fn add(&mut self, item: Vec<u8>) -> (r: Result<(), StorageError>)
        ensures
            final(self).spec_capacity() == old(self).spec_capacity(),
            final(self).spec_drained() == old(self).spec_drained(),
            r is Ok ==> final(self).records() == old(self).records().push(item@),
            r is Ok && old(self).pending().len() + 1 >= old(self).spec_capacity()
                ==> final(self).pending() == Seq::<Seq<u8>>::empty() && final(self).spec_drained()
                + final(self).spec_log() == frames(old(self).records().push(item@)),
            r is Ok && old(self).pending().len() + 1 < old(self).spec_capacity()
                ==> final(self).pending() == old(self).pending().push(item@)
                && final(self).spec_log() == old(self).spec_log(),
            r is Err ==> r == Err::<(), StorageError>(
                StorageError::RecordTooLarge { len: item@.len() as usize },
            ) && *final(self) == *old(self),
    {
        self.add_record(item)
    }

    /// Appends everything held back to the log: afterwards the log, taken
    /// out or not, holds every record taken so far.
    fn flush(&mut self) -> (r: Result<(), StorageError>)
        ensures
            final(self).records() == old(self).records(),
            final(self).spec_drained() == old(self).spec_drained(),
            final(self).spec_drained() + final(self).spec_log() == frames(old(self).records()),
            final(self).spec_capacity() == old(self).spec_capacity(),
    {
        self.flush_records();
        Ok(())
    }

    fn finish(self) -> (r: Result<(), StorageError>) {
        let mut writer = self;
        writer.flush_records();
        Ok(())
    }
}

/// Writing records and reading the log back gives the same records in the
/// same order.
pub proof fn lemma_store_round_trip(writer: BincodeObjectBuffer)
    requires
        writer.well_formed(),
    ensures
        all_fit(writer.records()),
        crate::storage::spec_read_all(frames(writer.records())) == Ok::<
            Seq<Seq<u8>>,
            StorageError,
        >(writer.records()),
{
    let records = writer.records();
    assert forall|i: int| 0 <= i < records.len() implies (#[trigger] records[i]).len()
        <= MAX_RECORD_LEN by {
        if i < writer.written@.len() {
            assert(records[i] == writer.written@[i]);
        } else {
            assert(records[i] == blobs(writer.buffer@)[i - writer.written@.len()]);
        }
    }
    crate::storage::lemma_read_all_frames(records);
}

} // verus!
