use stock_monitor::cache::{Cache, DETAIL_TTL, KLINE_TTL, MINUTE_TTL, MONEY_FLOW_TTL};

const SECOND: u128 = 1_000_000_000;

#[test]
fn entries_are_served_until_their_age_reaches_the_limit() {
    let mut cache: Cache<u32> = Cache::new();
    cache.insert("sh600519", 7, 5 * SECOND);
    assert_eq!(cache.get("sh600519", 5 * SECOND, 10), Some(&7));
    assert_eq!(cache.get("sh600519", 15 * SECOND - 1, 10), Some(&7));
    assert_eq!(cache.get("sh600519", 15 * SECOND, 10), None);
    assert_eq!(cache.get("sh600519", 0, 10), Some(&7));
    assert_eq!(cache.get("sh600519", 5 * SECOND, 0), None);
}

#[test]
fn entries_are_replaced_and_kept_apart() {
    let mut cache: Cache<&str> = Cache::new();
    assert_eq!(cache.get("a", 0, 10), None);
    cache.insert("a", "one", 0);
    cache.insert("b", "two", SECOND);
    cache.insert("a", "three", 20 * SECOND);
    assert_eq!(cache.get("a", 20 * SECOND, 10), Some(&"three"));
    assert_eq!(cache.get("b", 2 * SECOND, 10), Some(&"two"));
    assert_eq!(cache.get("b", 20 * SECOND, 10), None);
}

#[test]
fn limits_of_each_kind() {
    assert_eq!(DETAIL_TTL, 60);
    assert_eq!(MONEY_FLOW_TTL, 300);
    assert_eq!(MINUTE_TTL, 10);
    assert_eq!(KLINE_TTL, 300);
}
