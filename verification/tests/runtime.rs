use memo::cache::{build_key, MemoCache};
use memo::signature::FnArgument;

/// Drives the lookup-or-compute protocol for a binary function, counting
/// how often the underlying implementation runs.
fn call2(
    cache: &mut MemoCache,
    count: &mut u32,
    now: u64,
    params: &Vec<FnArgument>,
    a: u64,
    b: u64,
    f: fn(u64, u64) -> u64,
) -> u64 {
    let args = vec![a, b];
    let key = build_key(&args, params);
    if let Some(v) = cache.lookup(&key, now) {
        return v;
    }
    *count += 1;
    let v = f(a, b);
    cache.insert(key, v, now);
    v
}

fn arg(name: &str, memoized: bool) -> FnArgument {
    FnArgument {
        arg_type: "int".to_string(),
        arg_name: name.to_string(),
        is_memoized: memoized,
    }
}

#[test]
fn scenario_a_two_calls_one_invocation() {
    // f(a: int, b: int) -> int, no options.
    let params = vec![arg("a", true), arg("b", true)];
    let mut cache = MemoCache::new(None, None);
    let mut count: u32 = 0;
    let add = |a: u64, b: u64| a + b;
    let r1 = call2(&mut cache, &mut count, 0, &params, 2, 3, add);
    let r2 = call2(&mut cache, &mut count, 0, &params, 2, 3, add);
    assert_eq!(r1, 5);
    assert_eq!(r2, 5);
    assert_eq!(count, 1);
    assert_eq!(cache.size(), 1);
    cache.clear();
    assert_eq!(cache.size(), 0);
}

#[test]
fn scenario_b_ignored_flag_hits_same_entry() {
    // g(a: int, flag: bool) -> int, flag marked Ignore; true as 1, false as 0.
    let params = vec![arg("a", true), arg("flag", false)];
    let mut cache = MemoCache::new(None, None);
    let mut count: u32 = 0;
    let g = |a: u64, _flag: u64| a * 10;
    let r1 = call2(&mut cache, &mut count, 0, &params, 5, 1, g);
    let r2 = call2(&mut cache, &mut count, 0, &params, 5, 0, g);
    assert_eq!(r1, 50);
    assert_eq!(r2, 50);
    assert_eq!(count, 1);
    assert_eq!(cache.size(), 1);
}

#[test]
fn idempotent_caching_until_flush() {
    let params = vec![arg("a", true), arg("b", true)];
    let mut cache = MemoCache::new(None, None);
    let mut count: u32 = 0;
    let mul = |a: u64, b: u64| a * b;
    for _ in 0..5 {
        assert_eq!(call2(&mut cache, &mut count, 0, &params, 6, 7, mul), 42);
    }
    assert_eq!(count, 1);
    cache.clear();
    assert_eq!(call2(&mut cache, &mut count, 0, &params, 6, 7, mul), 42);
    assert_eq!(count, 2);
}

#[test]
fn flush_clears_all_keys() {
    let mut cache = MemoCache::new(None, None);
    cache.insert(vec![1], 10, 0);
    cache.insert(vec![2], 20, 0);
    assert_eq!(cache.size(), 2);
    cache.clear();
    assert_eq!(cache.size(), 0);
    assert_eq!(cache.lookup(&vec![1], 0), None);
    assert_eq!(cache.lookup(&vec![2], 0), None);
}

#[test]
fn lru_bound_evicts_least_recently_used() {
    // Capacity 2; inserting a third distinct key evicts exactly the
    // least-recently-used one.
    let mut cache = MemoCache::new(Some(2), None);
    cache.insert(vec![1], 10, 0);
    cache.insert(vec![2], 20, 1);
    cache.insert(vec![3], 30, 2);
    assert_eq!(cache.size(), 2);
    assert_eq!(cache.lookup(&vec![1], 3), None);
    assert_eq!(cache.lookup(&vec![2], 3), Some(20));
    assert_eq!(cache.lookup(&vec![3], 3), Some(30));
}

#[test]
fn lru_lookup_refreshes_recency() {
    let mut cache = MemoCache::new(Some(2), None);
    cache.insert(vec![1], 10, 0);
    cache.insert(vec![2], 20, 1);
    // Touch key 1, making key 2 the least recently used.
    assert_eq!(cache.lookup(&vec![1], 2), Some(10));
    cache.insert(vec![3], 30, 3);
    assert_eq!(cache.lookup(&vec![2], 4), None);
    assert_eq!(cache.lookup(&vec![1], 4), Some(10));
    assert_eq!(cache.lookup(&vec![3], 4), Some(30));
}

#[test]
fn lru_overwrite_does_not_evict() {
    let mut cache = MemoCache::new(Some(2), None);
    cache.insert(vec![1], 10, 0);
    cache.insert(vec![2], 20, 1);
    cache.insert(vec![1], 11, 2);
    assert_eq!(cache.size(), 2);
    assert_eq!(cache.lookup(&vec![1], 3), Some(11));
    assert_eq!(cache.lookup(&vec![2], 3), Some(20));
}

#[test]
fn ttl_hit_below_duration_miss_at_duration() {
    // ttl 10: a lookup at elapsed time 9 hits, at elapsed time 10 misses.
    let mut cache = MemoCache::new(None, Some(10));
    cache.insert(vec![5], 55, 100);
    assert_eq!(cache.lookup(&vec![5], 109), Some(55));
    assert_eq!(cache.lookup(&vec![5], 110), None);
    // The stale entry is read-filtered, not removed.
    assert_eq!(cache.size(), 1);
}

#[test]
fn ttl_refreshed_by_overwrite() {
    let mut cache = MemoCache::new(None, Some(10));
    cache.insert(vec![5], 55, 0);
    assert_eq!(cache.lookup(&vec![5], 20), None);
    cache.insert(vec![5], 56, 20);
    assert_eq!(cache.lookup(&vec![5], 25), Some(56));
    assert_eq!(cache.size(), 1);
}

#[test]
fn build_key_orders_memoized_values() {
    let params = vec![arg("a", true), arg("b", false), arg("c", true)];
    let key = build_key(&vec![7, 8, 9], &params);
    assert_eq!(key, vec![7, 9]);
}
