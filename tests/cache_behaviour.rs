use order_cache::cache::{Cache, DEFAULT_TTL_MS};

#[test]
fn lookup_on_empty_cache_misses() {
    let mut c: Cache<u32> = Cache::new();
    assert!(c.get_record(7, 0).is_none());
}

#[test]
fn insert_then_lookup_within_ttl_hits() {
    let mut c: Cache<String> = Cache::new();
    c.update_record(1, "v".to_string(), 1_000);
    let r = c.get_record(1, 1_000 + DEFAULT_TTL_MS - 1).unwrap();
    assert_eq!(r.data, "v");
    assert_eq!(r.last_accessed_ms, 1_000);
    assert_eq!(r.time_to_live_ms, 60_000);
}

#[test]
fn lookup_after_ttl_misses_and_drops_entry() {
    let mut c: Cache<u32> = Cache::new();
    c.update_record(1, 5, 1_000);
    assert!(c.get_record(1, 1_000 + DEFAULT_TTL_MS).is_none());
    // the entry is gone: even a clock moved back cannot find it
    assert!(c.get_record(1, 1_000).is_none());
}

#[test]
fn read_does_not_extend_ttl() {
    let mut c: Cache<u32> = Cache::new();
    let t0: u64 = 10_000;
    c.update_record(3, 9, t0);
    assert_eq!(c.get_record(3, t0 + DEFAULT_TTL_MS / 2).unwrap().data, 9);
    assert!(c.get_record(3, t0 + DEFAULT_TTL_MS + 1).is_none());
}

#[test]
fn overwrite_restarts_lifetime() {
    let mut c: Cache<u32> = Cache::new();
    c.update_record(4, 1, 0);
    c.update_record(4, 2, 50_000);
    let r = c.get_record(4, 100_000).unwrap();
    assert_eq!(r.data, 2);
}

#[test]
fn sweep_drops_only_dead_entries() {
    let mut c: Cache<u32> = Cache::new();
    c.update_record(1, 10, 0);
    c.update_record(2, 20, 30_000);
    c.cleanup_expired(60_000);
    assert!(c.get_record(1, 0).is_none());
    assert_eq!(c.get_record(2, 60_000).unwrap().data, 20);
}

#[test]
fn sweep_and_lookup_agree_on_deadline() {
    let mut a: Cache<u32> = Cache::new();
    let mut b: Cache<u32> = Cache::new();
    a.update_record(1, 1, 0);
    b.update_record(1, 1, 0);
    // one millisecond before the deadline both keep it
    assert!(a.get_record(1, DEFAULT_TTL_MS - 1).is_some());
    b.cleanup_expired(DEFAULT_TTL_MS - 1);
    assert!(b.get_record(1, 0).is_some());
    // at the deadline both drop it
    assert!(a.get_record(1, DEFAULT_TTL_MS).is_none());
    b.cleanup_expired(DEFAULT_TTL_MS);
    assert!(b.get_record(1, 0).is_none());
}

#[test]
fn sweep_on_empty_cache_is_noop() {
    let mut c: Cache<u32> = Cache::new();
    c.cleanup_expired(u64::MAX);
    assert!(c.get_record(0, 0).is_none());
}

#[test]
fn clock_going_back_counts_as_no_time() {
    let mut c: Cache<u32> = Cache::new();
    c.update_record(1, 1, 100_000);
    assert!(c.get_record(1, 5).is_some());
}
