use memprocfs::error::VmmError;
use memprocfs::image::MemoryImage;
use memprocfs::search::{SearchOutcome, VmmSearch};

fn job(lo: u64, hi: u64, max: u32) -> VmmSearch {
    VmmSearch::new(u32::MAX, lo, hi, max, 0).unwrap()
}

fn outcome(success: bool, hits: Vec<(u64, u32)>) -> SearchOutcome {
    SearchOutcome { success, addr_current: 0x1000, total_read_bytes: 0x1000, total_results: hits.len() as u32, hits }
}

#[test]
fn mz_header_found_at_start_of_flat_memory() {
    let mut image = MemoryImage::new(4096);
    image.write(0, &[0x4D, 0x5A]);
    let mut s = job(0, 4096, 16);
    assert_eq!(s.add_search_ex(&[0x4D, 0x5A], None, 0x1000), Ok(0));
    assert!(s.start());
    let o = image.search(&s);
    let r = s.result(o);
    assert!(r.is_completed);
    assert!(r.is_completed_success);
    assert_eq!(r.total_results, 1);
    assert_eq!(r.result, vec![(0, 0)]);
}

#[test]
fn term_bounds_pattern_length() {
    let mut s = job(0, 0, 16);
    assert_eq!(s.add_search(&[]), Err(VmmError::SearchPatternLength));
    assert_eq!(s.add_search(&[1u8; 33]), Err(VmmError::SearchPatternLength));
    assert_eq!(s.add_search(&[1u8; 32]), Ok(0));
    assert_eq!(s.add_search(&[1u8; 1]), Ok(1));
    assert_eq!(s.term_count(), 2);
}

#[test]
fn term_bounds_skip_mask() {
    let mut s = job(0, 0, 16);
    assert_eq!(s.add_search_ex(&[1, 2], Some(&[0xff, 0xff, 0xff]), 1), Err(VmmError::SearchSkipMaskLength));
    assert_eq!(s.add_search_ex(&[1, 2], Some(&[0xff, 0xff]), 1), Ok(0));
    assert_eq!(s.add_search_ex(&[1, 2], Some(&[]), 1), Ok(1));
}

#[test]
fn term_bounds_alignment() {
    let mut s = job(0, 0, 16);
    assert_eq!(s.add_search_ex(&[1], None, 3), Err(VmmError::SearchAlignment));
    assert_eq!(s.add_search_ex(&[1], None, 0x2000), Err(VmmError::SearchAlignment));
    assert_eq!(s.add_search_ex(&[1], None, 0x1001), Err(VmmError::SearchAlignment));
    assert_eq!(s.add_search_ex(&[1], None, 0), Ok(0));
    assert_eq!(s.add_search_ex(&[1], None, 0x1000), Ok(1));
    assert_eq!(s.add_search_ex(&[1], None, 2), Ok(2));
}

#[test]
fn term_bounds_seventeenth_term() {
    let mut s = job(0, 0, 16);
    for i in 0..16u32 {
        assert_eq!(s.add_search(&[i as u8]), Ok(i));
    }
    assert_eq!(s.add_search(&[0]), Err(VmmError::SearchTermLimit));
    assert_eq!(s.term_count(), 16);
}

#[test]
fn range_validation_after_page_truncation() {
    assert_eq!(VmmSearch::new(4, 0x2000, 0x2fff, 16, 0).err(), Some(VmmError::SearchRange));
    assert_eq!(VmmSearch::new(4, 0x3000, 0x2000, 16, 0).err(), Some(VmmError::SearchRange));
    assert_eq!(VmmSearch::new(4, 0x2000, 0x2000, 16, 0).err(), Some(VmmError::SearchRange));
    let s = VmmSearch::new(4, 0x2fff, 0x4123, 16, 0).unwrap();
    assert_eq!(s.addr_min(), 0x2000);
    assert_eq!(s.addr_max(), 0x4000);
    let u = VmmSearch::new(4, 0x5000, 0, 0x20000, 0).unwrap();
    assert_eq!(u.addr_max(), 0);
    assert_eq!(u.max_results(), 0x10000);
}

#[test]
fn lifecycle_poll_start_finish() {
    let mut s = job(0, 0x1000, 16);
    s.add_search(&[7]).unwrap();
    let p = s.poll();
    assert!(!p.is_started && !p.is_completed);
    assert!(s.start());
    assert!(!s.start());
    let p = s.poll();
    assert!(p.is_started && !p.is_completed);
    assert!(p.result.is_empty());
    s.update_progress(0x800, 0x800, 3);
    assert_eq!(s.poll().addr_current, 0x800);
    s.finish(outcome(true, vec![(0x10, 0), (0x20, 0)]));
    let p = s.poll();
    assert!(p.is_completed && p.is_completed_success);
    assert_eq!(p.result, vec![(0x10, 0), (0x20, 0)]);
}

#[test]
fn failed_search_reports_no_results() {
    let mut s = job(0, 0x1000, 16);
    s.add_search(&[7]).unwrap();
    let r = s.result(outcome(false, vec![(0x10, 0)]));
    assert!(r.is_started && r.is_completed);
    assert!(!r.is_completed_success);
    assert!(r.result.is_empty());
}

#[test]
fn result_on_completed_job_keeps_first_outcome() {
    let mut s = job(0, 0x1000, 16);
    s.add_search(&[7]).unwrap();
    s.result(outcome(true, vec![(0x40, 0)]));
    let r = s.result(outcome(false, vec![]));
    assert!(r.is_completed_success);
    assert_eq!(r.result, vec![(0x40, 0)]);
}

#[test]
fn abort_then_drop_joins_worker() {
    let mut s = job(0, 0x1000, 16);
    s.add_search(&[7]).unwrap();
    s.abort();
    assert!(!s.is_abort_requested());
    s.start();
    assert!(s.shutdown());
    assert!(s.is_abort_requested());
    let image = MemoryImage::new(0x1000);
    let o = image.search(&s);
    assert!(!o.success);
    s.finish(o);
    assert!(!s.is_running());
    assert!(!s.shutdown());
}

#[test]
fn shutdown_of_unstarted_job_needs_no_join() {
    let mut s = job(0, 0x1000, 16);
    assert!(!s.shutdown());
    assert!(!s.is_abort_requested());
}

#[test]
fn search_respects_cap_order_and_alignment() {
    let mut image = MemoryImage::new(0x100);
    image.write(0x10, &[0xAA, 0xBB]);
    image.write(0x21, &[0xAA, 0xBB]);
    image.write(0x30, &[0xAA, 0xBB]);
    let mut s = job(0, 0, 16);
    s.add_search(&[0xAA, 0xBB]).unwrap();
    s.add_search_ex(&[0xAA], None, 0x10).unwrap();
    s.start();
    let o = image.search(&s);
    assert!(o.success);
    assert_eq!(o.hits, vec![(0x10, 0), (0x10, 1), (0x21, 0), (0x30, 0), (0x30, 1)]);
    assert_eq!(o.total_results, 5);
    assert_eq!(o.addr_current, 0x100);

    let mut capped = job(0, 0, 2);
    capped.add_search(&[0xAA, 0xBB]).unwrap();
    capped.start();
    let o = image.search(&capped);
    assert_eq!(o.hits, vec![(0x10, 0), (0x21, 0)]);
}

#[test]
fn search_wildcard_bits() {
    let mut image = MemoryImage::new(0x40);
    image.write(0x08, &[0x12, 0x34]);
    image.write(0x18, &[0x1F, 0x34]);
    let mut s = job(0, 0, 16);
    s.add_search_ex(&[0x10, 0x34], Some(&[0x0F]), 0).unwrap();
    s.start();
    let o = image.search(&s);
    assert_eq!(o.hits, vec![(0x08, 0), (0x18, 0)]);
}

#[test]
fn search_range_excludes_outside_matches() {
    let mut image = MemoryImage::new(0x3000);
    image.write(0x0100, &[9, 9]);
    image.write(0x1100, &[9, 9]);
    image.write(0x2100, &[9, 9]);
    let mut s = job(0x1000, 0x2000, 16);
    s.add_search(&[9, 9]).unwrap();
    s.start();
    let o = image.search(&s);
    assert_eq!(o.hits, vec![(0x1100, 0)]);
    assert_eq!(o.total_read_bytes, 0x1000);
}
