use stock_monitor::cache::Cache;
use stock_monitor::json::Json;
use stock_monitor::kline::{
    finish_klines, kline_period, kline_url, read_kline_text, start_klines, KLineDataPoint,
};
use stock_monitor::reply::Start;

const REPLY: &str = "{\"rc\":0,\"data\":{\"klines\":[\"2024-05-06,10,11,12,9,1000,10500,3.1\",\"2024-05-07,1,2\",5,\"2024-05-08,11,10,11.5,9.5,900,9450\"]}}";

fn line(date: &str, v: [&str; 6]) -> KLineDataPoint {
    KLineDataPoint {
        date: date.to_string(),
        open: v[0].to_string(),
        close: v[1].to_string(),
        high: v[2].to_string(),
        low: v[3].to_string(),
        volume: v[4].to_string(),
        amount: v[5].to_string(),
    }
}

#[test]
fn klines_are_read() {
    assert_eq!(
        read_kline_text(REPLY),
        Some(vec![
            line("2024-05-06", ["10", "11", "12", "9", "1000", "10500"]),
            line("2024-05-08", ["11", "10", "11.5", "9.5", "900", "9450"]),
        ])
    );
}

#[test]
fn replies_without_klines() {
    for text in [
        "{\"rc\":1,\"data\":{\"klines\":[\"a,1,2,3,4,5,6\"]}}",
        "{\"data\":null}",
        "{\"data\":[]}",
        "{\"data\":{\"klines\":[]}}",
        "{\"data\":{\"klines\":[\"a,1\"]}}",
        "{\"data\":{\"klines\":5}}",
        "{\"data\":{}}",
        "{}",
        "x",
    ] {
        assert_eq!(read_kline_text(text), None, "{}", text);
    }
}

#[test]
fn periods_by_kind() {
    assert_eq!(kline_period(Some("kday")), "101");
    assert_eq!(kline_period(Some("kweek")), "102");
    assert_eq!(kline_period(Some("kmonth")), "103");
    assert_eq!(kline_period(Some("year")), "101");
    assert_eq!(kline_period(None), "101");
}

#[test]
fn the_page_of_the_klines() {
    assert_eq!(
        kline_url("sz000001", "102", 90),
        "http://push2his.eastmoney.com/api/qt/stock/kline/get?secid=0.000001&fields1=f1,f2,f3,f4,f5,f6&fields2=f51,f52,f53,f54,f55,f56,f57,f58,f59,f60,f61&klt=102&fqt=1&beg=0&end=20500101&lmt=90"
    );
}

#[test]
fn klines_are_kept_by_period() {
    let mut cache: Cache<Vec<KLineDataPoint>> = Cache::new();
    let key = match start_klines(Some("600519"), Some("kweek"), &cache, 0) {
        Start::Fetch { key, url } => {
            assert_eq!(url, kline_url("sh600519", "102", 90));
            key
        }
        Start::Reply(_) => panic!("nothing is cached"),
    };
    assert_eq!(key, "sh600519_102");
    let j = finish_klines(&key, read_kline_text(REPLY), &mut cache, 0);
    assert_eq!(j.get("cached"), Some(&Json::Bool(false)));
    assert_eq!(j.array_at("data").unwrap()[1].str_at("date"), Some("2024-05-08"));
    assert_eq!(j.array_at("data").unwrap()[1].number_at("close"), "10");
    match start_klines(Some("600519"), Some("kweek"), &cache, 299_999_999_999) {
        Start::Reply(again) => {
            assert_eq!(again.get("data"), j.get("data"));
            assert_eq!(again.get("cached"), Some(&Json::Bool(true)));
        }
        Start::Fetch { .. } => panic!("the K-lines are cached"),
    }
    assert!(matches!(start_klines(Some("600519"), None, &cache, 0), Start::Fetch { .. }));
    assert!(matches!(
        start_klines(Some("600519"), Some("kweek"), &cache, 300_000_000_000),
        Start::Fetch { .. }
    ));
}

#[test]
fn klines_that_cannot_be_had() {
    let mut cache: Cache<Vec<KLineDataPoint>> = Cache::new();
    let j = finish_klines("k", None, &mut cache, 0);
    assert_eq!(j.str_at("status"), Some("error"));
    assert_eq!(j.str_at("msg"), Some("fetch failed or no data"));
    match start_klines(None, None, &cache, 0) {
        Start::Reply(j) => assert_eq!(j.str_at("msg"), Some("fetch failed or no data")),
        Start::Fetch { .. } => panic!("there is no code"),
    }
}

#[test]
fn klines_of_one_period_are_not_served_for_another() {
    let mut cache: Cache<Vec<KLineDataPoint>> = Cache::new();
    finish_klines("sh600519_102", read_kline_text(REPLY), &mut cache, 0);
    assert!(matches!(start_klines(Some("600519"), Some("kweek"), &cache, 0), Start::Reply(_)));
    for kind in [None, Some("kday"), Some("kmonth")] {
        assert!(matches!(start_klines(Some("600519"), kind, &cache, 0), Start::Fetch { .. }));
    }
    assert!(matches!(start_klines(Some("000001"), Some("kweek"), &cache, 0), Start::Fetch { .. }));
}
