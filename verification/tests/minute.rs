use stock_monitor::cache::Cache;
use stock_monitor::json::Json;
use stock_monitor::minute::{
    finish_minutes, minute_url, read_minute_text, read_minutes, start_minutes, times_can_be_cut,
    MinuteDataPoint, MinuteReading,
};
use stock_monitor::reply::Start;

fn point(time: &str, price: &str, avg: &str, volume: &str, amount: &str) -> MinuteDataPoint {
    MinuteDataPoint {
        time: time.to_string(),
        price: price.to_string(),
        avg_price: avg.to_string(),
        volume: volume.to_string(),
        open: price.to_string(),
        close: price.to_string(),
        amount: amount.to_string(),
    }
}

const TRENDS: &str = "{\"rc\":0,\"data\":{\"tradeDate\":\"2024-05-06\",\"trends\":[\"09:31:00,10.5,10.4,300,3150,x\",\" 9:32 ,10.6,10.5,200,2120\",\"09:33,10.7\",7,\",1,2,3,4\"]}}";

#[test]
fn lines_are_read() {
    match read_minute_text(TRENDS) {
        Some(MinuteReading::Trends { points, trade_date }) => {
            assert_eq!(trade_date, "2024-05-06");
            assert_eq!(
                points,
                vec![
                    point("2024-05-06 09:31", "10.5", "10.4", "300", "3150"),
                    point("2024-05-06 9:32", "10.6", "10.5", "200", "2120"),
                ]
            );
        }
        _ => panic!("the text holds lines"),
    }
}

#[test]
fn lines_without_a_date_hold_nothing() {
    match read_minute_text("{\"data\":{\"trends\":[\"09:31,1,2,3,4\",\"上午9点,1,2,3,4\"]}}") {
        Some(MinuteReading::Trends { points, trade_date }) => {
            assert!(points.is_empty());
            assert_eq!(trade_date, "");
        }
        _ => panic!("the text holds lines"),
    }
}

#[test]
fn stamps_are_read() {
    let text = "{\"data\":[{\"f2\":0,\"f3\":1},{\"f2\":2405060931,\"f3\":10.5,\"f5\":3150},{\"f3\":2},{\"f2\":2405070932},5]}";
    match read_minute_text(text) {
        Some(MinuteReading::Array { points, trade_date }) => {
            assert_eq!(trade_date, "2024-05-06");
            assert_eq!(
                points,
                vec![
                    point("2024-05-06 09:31", "10.5", "10.5", "0", "3150"),
                    point("2024-05-07 09:32", "0", "0", "0", "0"),
                ]
            );
        }
        _ => panic!("the text holds stamps"),
    }
}

#[test]
fn a_negative_stamp_keeps_its_signs() {
    match read_minute_text("{\"data\":[{\"f2\":-2405060931}]}") {
        Some(MinuteReading::Array { points, trade_date }) => {
            assert_eq!(trade_date, "1976--5--6");
            assert_eq!(points[0].time, "1976--5--6 -9:-31");
        }
        _ => panic!("the text holds a stamp"),
    }
}

#[test]
fn other_replies() {
    assert!(matches!(read_minute_text("{\"rc\":102,\"data\":[]}"), Some(MinuteReading::ApiError)));
    assert!(matches!(read_minute_text("{\"data\":[]}"), Some(MinuteReading::NoPoints)));
    assert!(matches!(read_minute_text("{\"data\":{}}"), Some(MinuteReading::NoTrends)));
    assert!(matches!(read_minute_text("{\"data\":{\"trends\":5}}"), Some(MinuteReading::Nothing)));
    assert!(matches!(read_minute_text("{\"data\":null}"), Some(MinuteReading::Nothing)));
    assert!(matches!(read_minute_text("{}"), Some(MinuteReading::Nothing)));
    assert!(matches!(read_minute_text("<html>"), Some(MinuteReading::Nothing)));
}

#[test]
fn a_time_that_cannot_be_cut() {
    let text = "{\"data\":{\"tradeDate\":\"d\",\"trends\":[\"上午9点,1,2,3,4\"]}}";
    assert!(read_minute_text(text).is_none());
    assert!(!times_can_be_cut(&Json::parse(text).unwrap()));
    let short = "{\"data\":{\"tradeDate\":\"d\",\"trends\":[\"上午9点,1\"]}}";
    let root = Json::parse(short).unwrap();
    assert!(times_can_be_cut(&root));
    assert!(matches!(read_minutes(&root), MinuteReading::Trends { .. }));
}

#[test]
fn the_page_of_the_minutes() {
    assert_eq!(
        minute_url("sh600519"),
        "http://push2.eastmoney.com/api/qt/stock/trends/get?secid=1.600519&fields1=f1,f2,f3,f4,f5,f6,f7,f8,f9,f10,f11,f12,f13&fields2=f51,f52,f53,f54,f55,f56,f57,f58&isclose=1&datalen=240"
    );
}

#[test]
fn minutes_are_answered_and_kept() {
    let mut cache: Cache<Vec<MinuteDataPoint>> = Cache::new();
    assert!(matches!(start_minutes(Some("600519"), &cache, 0), Start::Fetch { .. }));
    let j = finish_minutes("sh600519", read_minute_text(TRENDS).unwrap(), true, &mut cache, 0);
    assert_eq!(j.str_at("status"), Some("success"));
    assert_eq!(j.str_at("trade_date"), Some("2024-05-06"));
    assert_eq!(j.get("is_trading_time"), Some(&Json::Bool(true)));
    assert_eq!(j.get("cached"), Some(&Json::Bool(false)));
    assert_eq!(j.get("msg"), None);
    assert_eq!(j.array_at("data").unwrap()[0].number_at("avg_price"), "10.4");
    match start_minutes(Some(" sh600519"), &cache, 9_999_999_999) {
        Start::Reply(again) => {
            assert_eq!(again.get("data"), j.get("data"));
            assert_eq!(again.get("cached"), Some(&Json::Bool(true)));
        }
        Start::Fetch { .. } => panic!("the minutes are cached"),
    }
    assert!(matches!(start_minutes(Some("600519"), &cache, 10_000_000_000), Start::Fetch { .. }));
}

#[test]
fn minutes_of_stamps_are_answered_with_a_note() {
    let mut cache: Cache<Vec<MinuteDataPoint>> = Cache::new();
    let reading = read_minute_text("{\"data\":[{\"f2\":2405060931}]}").unwrap();
    let j = finish_minutes("sh600519", reading, false, &mut cache, 0);
    assert_eq!(j.str_at("msg"), Some("Parsed from array format"));
    assert_eq!(j.get("is_trading_time"), Some(&Json::Bool(false)));
    assert!(matches!(start_minutes(Some("600519"), &cache, 0), Start::Reply(_)));
}

#[test]
fn replies_without_minutes_are_not_kept() {
    let mut cache: Cache<Vec<MinuteDataPoint>> = Cache::new();
    let cases = [
        (MinuteReading::ApiError, "success", "API Error"),
        (MinuteReading::NoPoints, "success", "暂无有效分时数据"),
        (MinuteReading::NoTrends, "success", "数据格式异常 (无trends字段)"),
        (MinuteReading::Nothing, "error", "fetch failed"),
    ];
    for (reading, status, msg) in cases {
        let j = finish_minutes("sh600519", reading, true, &mut cache, 0);
        assert_eq!(j.str_at("status"), Some(status));
        assert_eq!(j.str_at("msg"), Some(msg));
        if status == "success" {
            assert_eq!(j.get("data"), Some(&Json::Arr(vec![])));
        }
    }
    assert!(matches!(start_minutes(Some("600519"), &cache, 0), Start::Fetch { .. }));
    match start_minutes(None, &cache, 0) {
        Start::Reply(j) => assert_eq!(j.str_at("msg"), Some("fetch failed")),
        Start::Fetch { .. } => panic!("there is no code"),
    }
}
