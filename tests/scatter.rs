use memprocfs::error::VmmError;
use memprocfs::image::MemoryImage;
use memprocfs::scatter::VmmScatterMemory;

#[test]
fn write_then_read_round_trip() {
    let mut image = MemoryImage::new(0x1000);
    let data = vec![1u8, 2, 3, 4, 5, 6, 7, 8];
    let mut w = VmmScatterMemory::new(u32::MAX, 0);
    w.prepare_write(0x123, &data).unwrap();
    image.execute_scatter(&mut w).unwrap();
    let mut r = VmmScatterMemory::new(u32::MAX, 0);
    r.prepare(0x123, data.len()).unwrap();
    image.execute_scatter(&mut r).unwrap();
    assert_eq!(r.read(0x123, data.len()), Ok(data));
}

#[test]
fn reexecute_reads_identical() {
    let mut image = MemoryImage::new(0x2000);
    image.write(0x1000, &[0xde, 0xad, 0xbe, 0xef]);
    let mut b = VmmScatterMemory::new(u32::MAX, 0);
    b.prepare(0x0ffe, 8).unwrap();
    b.prepare(0x10, 4).unwrap();
    image.execute_scatter(&mut b).unwrap();
    let first = (b.read(0x0ffe, 8), b.read(0x10, 4), b.read(0x1001, 2));
    image.execute_scatter(&mut b).unwrap();
    let second = (b.read(0x0ffe, 8), b.read(0x10, 4), b.read(0x1001, 2));
    assert_eq!(first, second);
    assert_eq!(first.0, Ok(vec![0, 0, 0xde, 0xad, 0xbe, 0xef, 0, 0]));
    assert_eq!(first.2, Ok(vec![0xad, 0xbe]));
}

#[test]
fn read_before_execute_is_refused() {
    let mut b = VmmScatterMemory::new(4, 0);
    b.prepare(0x10, 4).unwrap();
    assert_eq!(b.read(0x10, 4), Err(VmmError::NotExecuted));
}

#[test]
fn read_outside_prepared_ranges_is_refused() {
    let mut image = MemoryImage::new(0x100);
    let mut b = VmmScatterMemory::new(4, 0);
    b.prepare(0x10, 4).unwrap();
    image.execute_scatter(&mut b).unwrap();
    assert_eq!(b.read(0x14, 1), Err(VmmError::NotPrepared));
    assert_eq!(b.read(0x0f, 1), Err(VmmError::NotPrepared));
    assert_eq!(b.read(0x13, 1), Ok(vec![0]));
}

#[test]
fn short_read_at_end_of_memory() {
    let mut image = MemoryImage::new(0x100);
    image.write(0xfe, &[5, 6, 7, 8]);
    let mut b = VmmScatterMemory::new(4, 0);
    b.prepare(0xfe, 4).unwrap();
    image.execute_scatter(&mut b).unwrap();
    assert_eq!(b.read(0xfe, 4), Ok(vec![5, 6]));
    assert_eq!(b.read(0xff, 10), Ok(vec![6]));
}

#[test]
fn push_mode_binding_rules() {
    let mut image = MemoryImage::new(0x100);
    image.write(0x20, &[1, 2, 3]);
    let mut b = VmmScatterMemory::new(4, 0);
    assert_eq!(b.prepare_ex(0x20, 3, 1), Err(VmmError::PushCellNotZero));
    assert!(!b.needs_execute_on_drop());
    assert_eq!(b.prepare_ex(0x20, 3, 0), Ok(0));
    assert!(b.needs_execute_on_drop());
    image.execute_scatter(&mut b).unwrap();
    assert!(!b.needs_execute_on_drop());
    assert_eq!(b.bind_result(0), vec![1, 2, 3]);
    assert_eq!(b.bind_result(1), Vec::<u8>::new());
}

#[test]
fn execute_done_refuses_misshapen_data() {
    let mut b = VmmScatterMemory::new(4, 0);
    b.prepare(0x10, 2).unwrap();
    assert_eq!(b.execute_done(vec![], vec![]), Err(VmmError::EngineFailure));
    assert_eq!(b.execute_done(vec![vec![1, 2, 3]], vec![]), Err(VmmError::EngineFailure));
    assert_eq!(b.read(0x10, 2), Err(VmmError::NotExecuted));
    assert_eq!(b.execute_done(vec![vec![1]], vec![]), Ok(()));
    assert_eq!(b.read(0x10, 2), Ok(vec![1]));
}

#[test]
fn clear_forgets_everything() {
    let mut image = MemoryImage::new(0x100);
    let mut b = VmmScatterMemory::new(4, 0);
    b.prepare(0x10, 2).unwrap();
    b.prepare_write(0x10, &vec![9]).unwrap();
    image.execute_scatter(&mut b).unwrap();
    assert_eq!(b.read(0x10, 2), Ok(vec![9, 0]));
    b.clear();
    assert_eq!(b.read(0x10, 2), Err(VmmError::NotExecuted));
    assert_eq!(b.write_count(), 0);
    assert!(b.prepared_reads().is_empty());
}

#[test]
fn empty_write_then_read_round_trip() {
    let mut image = MemoryImage::new(0x100);
    let mut w = VmmScatterMemory::new(u32::MAX, 0);
    w.prepare_write(0x40, &vec![]).unwrap();
    image.execute_scatter(&mut w).unwrap();
    let mut r = VmmScatterMemory::new(u32::MAX, 0);
    r.prepare(0x40, 0).unwrap();
    image.execute_scatter(&mut r).unwrap();
    assert_eq!(r.read(0x40, 0), Ok(vec![]));
}

#[test]
fn read_back_joins_adjacent_prepared_reads() {
    let mut image = MemoryImage::new(0x2000);
    image.write(0x10fe, &[1, 2, 3, 4]);
    let mut b = VmmScatterMemory::new(u32::MAX, 0);
    b.prepare(0x1000, 0x100).unwrap();
    b.prepare(0x1100, 0x100).unwrap();
    image.execute_scatter(&mut b).unwrap();
    let all = b.read(0x1000, 0x200).unwrap();
    assert_eq!(all.len(), 0x200);
    assert_eq!(&all[0xfe..0x102], &[1, 2, 3, 4]);
    assert_eq!(b.read(0x10ff, 2), Ok(vec![2, 3]));
    assert_eq!(b.read(0x11ff, 4), Ok(vec![0]));
}

#[test]
fn no_execute_on_drop_after_an_execution() {
    let mut image = MemoryImage::new(0x100);
    let mut b = VmmScatterMemory::new(4, 0);
    image.execute_scatter(&mut b).unwrap();
    assert_eq!(b.prepare_ex(0x10, 4, 0), Ok(0));
    assert!(!b.needs_execute_on_drop());
    b.clear();
    assert_eq!(b.prepare_ex(0x10, 4, 0), Ok(0));
    assert!(!b.needs_execute_on_drop());
}

#[test]
fn withdrawn_requests_leave_the_batch() {
    let mut b = VmmScatterMemory::new(4, 0);
    b.prepare(0x10, 4).unwrap();
    b.prepare(0x20, 4).unwrap();
    b.withdraw_last_read();
    assert_eq!(b.prepared_reads(), &vec![(0x10, 4)]);
    b.prepare_ex(0x30, 2, 0).unwrap();
    assert!(b.needs_execute_on_drop());
    b.withdraw_last_bind();
    assert!(!b.needs_execute_on_drop());
    b.prepare_write(0x10, &vec![1]).unwrap();
    b.withdraw_last_write();
    assert_eq!(b.write_count(), 0);
}
