use chrono::{Datelike, Timelike};
use stock_monitor::session::{is_trading_time, trading_moment};

#[test]
fn sessions_of_a_weekday() {
    assert!(!is_trading_time(0, 9, 29));
    assert!(is_trading_time(0, 9, 30));
    assert!(is_trading_time(2, 11, 29));
    assert!(!is_trading_time(2, 11, 30));
    assert!(!is_trading_time(4, 12, 59));
    assert!(is_trading_time(4, 13, 0));
    assert!(is_trading_time(4, 14, 59));
    assert!(!is_trading_time(4, 15, 0));
}

#[test]
fn no_sessions_at_the_weekend() {
    assert!(!is_trading_time(5, 10, 0));
    assert!(!is_trading_time(6, 14, 0));
}

#[test]
fn the_clock_is_read() {
    let at = |t: chrono::DateTime<chrono::Local>| {
        (t.weekday().num_days_from_monday(), t.hour(), t.minute())
    };
    let before = at(chrono::Local::now());
    let (weekday, hour, minute, trading) = trading_moment();
    let after = at(chrono::Local::now());
    assert!((weekday, hour, minute) == before || (weekday, hour, minute) == after);
    assert_eq!(trading, is_trading_time(weekday, hour, minute));
}
