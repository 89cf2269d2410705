use rusthound_ce::storage::buffer::{frame_record, BincodeObjectBuffer, Storage};
use rusthound_ce::storage::iter::{check_payload, read_all, read_prefix, BincodeIterator, Prefix};
use rusthound_ce::storage::{EntrySource, StorageError};
use rusthound_ce::LdapSearchEntry;

#[test]
fn records_come_back_in_the_order_written() {
    let records: Vec<Vec<u8>> =
        vec![vec![1, 2, 3], vec![], vec![0xff; 300], vec![7], vec![4, 5], vec![9; 70000]];
    for capacity in [0usize, 1, 2, 3, 100] {
        let mut writer = BincodeObjectBuffer::new_with_capacity(capacity);
        for r in &records {
            writer.add(r.clone()).unwrap();
        }
        let mut reader = writer.into_reader();
        let mut back: Vec<Vec<u8>> = Vec::new();
        while let Some(item) = reader.next() {
            back.push(item.unwrap());
        }
        assert_eq!(back, records, "capacity {capacity}");
    }
}

#[test]
fn writer_holds_records_back_until_the_capacity() {
    let mut writer = BincodeObjectBuffer::new_with_capacity(3);
    writer.add(vec![1]).unwrap();
    writer.add(vec![2, 2]).unwrap();
    assert!(writer.log().is_empty());
    writer.add(vec![3, 3, 3]).unwrap();
    assert_eq!(
        writer.log(),
        &vec![1, 0, 0, 0, 1, 2, 0, 0, 0, 2, 2, 3, 0, 0, 0, 3, 3, 3]
    );
    writer.add(vec![4]).unwrap();
    assert_eq!(writer.log().len(), 18);
    writer.flush().unwrap();
    assert_eq!(writer.log().len(), 23);
    writer.flush().unwrap();
    assert_eq!(writer.log().len(), 23);
    assert!(writer.finish().is_ok());
}

#[test]
fn default_writer_holds_back_a_thousand_records() {
    let mut writer = BincodeObjectBuffer::new();
    for i in 0..999u32 {
        writer.add(i.to_le_bytes().to_vec()).unwrap();
    }
    assert!(writer.log().is_empty());
    writer.add(vec![]).unwrap();
    assert_eq!(writer.log().len(), 999 * 8 + 4);
}

#[test]
fn frame_is_length_then_payload() {
    assert_eq!(frame_record(&[0xaa, 0xbb]).unwrap(), vec![2, 0, 0, 0, 0xaa, 0xbb]);
    assert_eq!(frame_record(&[]).unwrap(), vec![0, 0, 0, 0]);
    let long = vec![5u8; 0x1_0203];
    let framed = frame_record(&long).unwrap();
    assert_eq!(&framed[..4], &[0x03, 0x02, 0x01, 0x00]);
    assert_eq!(framed.len(), 4 + 0x1_0203);
}

#[test]
fn log_that_ends_inside_a_record_is_an_error() {
    let mut reader = BincodeIterator::new(vec![3, 0, 0, 0, 1, 2]);
    assert_eq!(reader.next(), Some(Err(StorageError::Truncated { expected: 3, found: 2 })));
    assert_eq!(reader.next(), None);
    assert_eq!(
        read_all(vec![1, 0, 0, 0, 9, 2, 0, 0, 0, 8]),
        Err(StorageError::Truncated { expected: 2, found: 1 })
    );
}

#[test]
fn log_that_ends_inside_a_prefix_just_ends() {
    assert_eq!(read_all(vec![1, 0, 0, 0, 9, 2, 0]), Ok(vec![vec![9]]));
    assert_eq!(read_all(vec![]), Ok(vec![]));
    assert_eq!(read_all(vec![0, 0, 0]), Ok(vec![]));
    assert_eq!(read_all(vec![0, 0, 0, 0]), Ok(vec![vec![]]));
}

#[test]
fn prefix_and_payload_checks_for_streaming_readers() {
    assert_eq!(read_prefix(&[]), Prefix::End);
    assert_eq!(read_prefix(&[1, 2, 3]), Prefix::End);
    assert_eq!(read_prefix(&[0x10, 0x01, 0, 0]), Prefix::Record { len: 0x110 });
    assert_eq!(read_prefix(&[0xff, 0xff, 0xff, 0xff]), Prefix::Record { len: 0xffff_ffff });
    assert_eq!(check_payload(5, 5), Ok(()));
    assert_eq!(check_payload(5, 4), Err(StorageError::Truncated { expected: 5, found: 4 }));
    assert_eq!(check_payload(0, 0), Ok(()));
}

#[test]
fn list_is_a_sink_that_takes_everything() {
    let mut sink: Vec<u32> = Vec::new();
    sink.add(1).unwrap();
    sink.add(2).unwrap();
    sink.flush().unwrap();
    assert_eq!(sink, vec![1, 2]);
    assert!(sink.finish().is_ok());
}

#[test]
fn list_of_records_is_a_source() {
    let entry = LdapSearchEntry { dn: "DC=X".to_string(), attrs: vec![], bin_attrs: vec![] };
    let source = vec![entry];
    let entries = source.into_entries();
    assert_eq!(entries.len(), 1);
    assert_eq!(entries[0].dn, "DC=X");
}

#[test]
fn record_longer_than_a_prefix_can_say_is_refused() {
    let len = match 0xffff_ffffusize.checked_add(1) {
        Some(len) => len,
        None => return,
    };
    let mut long: Vec<u8> = Vec::new();
    if long.try_reserve_exact(len).is_err() {
        // no room for such a record on this machine
        return;
    }
    long.resize(len, 0);
    assert_eq!(frame_record(&long), Err(StorageError::RecordTooLarge { len }));
    let mut writer = BincodeObjectBuffer::new_with_capacity(1);
    writer.add(vec![1]).unwrap();
    assert_eq!(writer.add(long), Err(StorageError::RecordTooLarge { len }));
    assert_eq!(writer.log(), &vec![1, 0, 0, 0, 1]);
    assert_eq!(read_all(writer.log().clone()), Ok(vec![vec![1]]));
}
