use psst_core::offset::OffsetFile;
use psst_core::store::{IoError, MemStore, RandomAccess, SeekFrom};

/// A 200-byte store where every byte holds its own index.
fn backing() -> MemStore {
    let data: Vec<u8> = (0..200u8).collect();
    MemStore::new(data)
}

#[test]
fn view_starts_at_its_base_offset() {
    // base_offset = 100: logical 0 is absolute byte 100.
    let mut f = OffsetFile::new(backing(), 100).unwrap();
    assert_eq!(f.seek(SeekFrom::Start(0)).unwrap(), 0);
    let bytes = f.read(1).unwrap();
    assert_eq!(bytes, vec![100]);
}

#[test]
fn start_seek_translates_by_base_offset() {
    let mut f = OffsetFile::new(backing(), 100).unwrap();
    assert_eq!(f.seek(SeekFrom::Start(50)).unwrap(), 50);
    let bytes = f.read(2).unwrap();
    assert_eq!(bytes, vec![150, 151]);
}

#[test]
fn position_before_base_reports_logical_zero() {
    // Landing on absolute byte 40, below the base of 100, reports 0 —
    // clamped, not negative or wrapped.
    let mut f = OffsetFile::new(backing(), 100).unwrap();
    assert_eq!(f.seek(SeekFrom::End(-160)).unwrap(), 0);
    // The backing cursor really is at absolute 40.
    let bytes = f.read(1).unwrap();
    assert_eq!(bytes, vec![40]);
}

#[test]
fn end_and_current_seeks_pass_through_untranslated() {
    let mut f = OffsetFile::new(backing(), 100).unwrap();
    // End(-10): absolute 190, logical 90.
    assert_eq!(f.seek(SeekFrom::End(-10)).unwrap(), 90);
    // Current(+5): absolute 195, logical 95.
    assert_eq!(f.seek(SeekFrom::Current(5)).unwrap(), 95);
    let bytes = f.read(1).unwrap();
    assert_eq!(bytes, vec![195]);
}

#[test]
fn reads_do_not_reseek_between_calls() {
    let mut f = OffsetFile::new(backing(), 100).unwrap();
    assert_eq!(f.read(3).unwrap(), vec![100, 101, 102]);
    assert_eq!(f.read(2).unwrap(), vec![103, 104]);
}

#[test]
fn read_stops_at_end_of_store() {
    let mut f = OffsetFile::new(backing(), 198).unwrap();
    assert_eq!(f.read(10).unwrap(), vec![198, 199]);
    assert_eq!(f.read(10).unwrap(), Vec::<u8>::new());
}

#[test]
fn relative_seek_before_start_is_an_error() {
    let mut f = OffsetFile::new(backing(), 100).unwrap();
    assert_eq!(f.seek(SeekFrom::End(-300)), Err(IoError::NegativePosition));
    // The failed seek moved nothing: reads still start at absolute 100.
    assert_eq!(f.read(1).unwrap(), vec![100]);
}

#[test]
fn write_overwrites_at_translated_position() {
    let mut f = OffsetFile::new(backing(), 100).unwrap();
    assert_eq!(f.seek(SeekFrom::Start(10)).unwrap(), 10);
    assert_eq!(f.write(&[1, 2, 3]).unwrap(), 3);
    f.flush().unwrap();
    assert_eq!(f.seek(SeekFrom::Start(10)).unwrap(), 10);
    assert_eq!(f.read(4).unwrap(), vec![1, 2, 3, 113]);
}

#[test]
fn write_past_end_zero_fills_the_gap() {
    let mut store = MemStore::new(vec![9, 9]);
    assert_eq!(store.seek(SeekFrom::Start(4)).unwrap(), 4);
    assert_eq!(store.write(&[7]).unwrap(), 1);
    assert_eq!(store.bytes(), &vec![9, 9, 0, 0, 7]);
    assert_eq!(store.position(), 5);
}

#[test]
fn memstore_tracks_cursor_and_contents() {
    let mut store = MemStore::new(vec![10, 11, 12]);
    assert_eq!(store.position(), 0);
    assert_eq!(store.read(2).unwrap(), vec![10, 11]);
    assert_eq!(store.position(), 2);
    assert_eq!(store.seek(SeekFrom::Current(-1)).unwrap(), 1);
    assert_eq!(store.read(5).unwrap(), vec![11, 12]);
}
