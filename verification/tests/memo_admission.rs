use webp_batch::admission::AdmissionTokens;
use webp_batch::memo::DirectoryMemo;

#[test]
fn first_call_creates_later_calls_do_not() {
    let mut memo = DirectoryMemo::new();
    assert!(memo.ensure_marked("/out/a"));
    assert!(!memo.ensure_marked("/out/a"));
    assert!(!memo.ensure_marked("/out/a"));
    assert_eq!(memo.created_count(), 1);
}

#[test]
fn distinct_directories_are_tracked_independently() {
    let mut memo = DirectoryMemo::new();
    assert!(memo.ensure_marked("/out/a"));
    assert!(memo.ensure_marked("/out/b"));
    assert!(!memo.ensure_marked("/out/a"));
    assert!(!memo.ensure_marked("/out/b"));
    assert!(memo.ensure_marked("/out/a/b"));
    assert_eq!(memo.created_count(), 3);
}

#[test]
fn fresh_memo_contains_nothing() {
    let memo = DirectoryMemo::new();
    assert!(!memo.contains_dir("/out"));
    assert_eq!(memo.created_count(), 0);
}

#[test]
fn admission_never_exceeds_the_limit() {
    let mut pool = AdmissionTokens::new(2);
    assert_eq!(pool.active_count(), 0);
    assert!(pool.try_acquire());
    assert!(pool.try_acquire());
    assert!(!pool.try_acquire());
    assert_eq!(pool.active_count(), 2);
    pool.release();
    assert_eq!(pool.active_count(), 1);
    assert!(pool.try_acquire());
    assert!(!pool.try_acquire());
}

#[test]
fn zero_limit_admits_nothing() {
    let mut pool = AdmissionTokens::new(0);
    assert!(!pool.try_acquire());
    assert_eq!(pool.active_count(), 0);
}
