use stock_monitor::cache::Cache;
use stock_monitor::json::Json;
use stock_monitor::money_flow::{
    day_url, has_braces_reversed, moment_url, read_flow_text, read_moment_flow_text, read_page,
    start_flow, Fetched, FlowAction, FlowSearch, FlowStart, MoneyFlow, PageOutcome,
};

const FIELDS: &str = "f51,f52,f53,f54,f55,f56,f57,f58,f59,f60,f61,f62,f63,f64,f65&ut=b2884a393a59ad64002292a3e90d46a5";

fn flow(v: [&str; 5]) -> MoneyFlow {
    MoneyFlow {
        main_net: v[0].to_string(),
        super_large: v[1].to_string(),
        large: v[2].to_string(),
        medium: v[3].to_string(),
        small: v[4].to_string(),
        retail: v[4].to_string(),
    }
}

fn begin(cache: &Cache<MoneyFlow>) -> FlowSearch {
    match start_flow(Some("600519"), cache, 0) {
        FlowStart::Search { search, url } => {
            assert_eq!(url, moment_url("sh600519"));
            search
        }
        FlowStart::Reply(_) => panic!("nothing is cached"),
    }
}

#[test]
fn figures_of_the_moment() {
    let text = "jQuery({\"data\":{\"f62\":1.5,\"f63\":-2,\"f64\":3,\"f66\":5}});";
    let expected = Some(flow(["1.5", "-2", "3", "0", "5"]));
    assert_eq!(read_flow_text(text), expected);
    assert_eq!(read_moment_flow_text(text), expected);
    assert_eq!(read_flow_text("{\"data\":{\"f62\":\"-\"}}"), Some(flow(["0", "0", "0", "0", "0"])));
}

#[test]
fn figures_of_the_day() {
    let text = "{\"data\":{\"klines\":[\"2024-05-06,1,2,3,4,5,6\",\"2024-05-07,9,9,9,9,9\"]}}";
    assert_eq!(read_flow_text(text), Some(flow(["1", "2", "3", "4", "5"])));
    assert_eq!(read_moment_flow_text(text), None);
}

#[test]
fn pages_without_a_flow() {
    for text in [
        "",
        "no braces",
        "{",
        "}",
        "}{",
        "{\"data\":null}",
        "{\"rc\":0}",
        "{\"data\":{\"klines\":[]}}",
        "{\"data\":{\"klines\":[\"d,1,2,3,4\"]}}",
        "{\"data\":{\"klines\":[5]}}",
        "{broken}",
    ] {
        assert!(!has_braces_reversed(text));
        assert_eq!(read_flow_text(text), None, "{}", text);
        assert_eq!(read_moment_flow_text(text), None, "{}", text);
    }
}

#[test]
fn braces_the_wrong_way_round() {
    assert!(has_braces_reversed("} {"));
    assert!(!has_braces_reversed("}{"));
    assert!(!has_braces_reversed("{ } {"));
    assert!(!has_braces_reversed("} { }"));
}

#[test]
fn the_pages_of_the_flow() {
    assert_eq!(
        moment_url("sh600519"),
        format!("http://push2.eastmoney.com/api/qt/stock/fflow/realtime/get?secid=1.600519&fields1=f1,f2,f3,f7&fields2={}", FIELDS)
    );
    assert_eq!(
        day_url("bj830799"),
        format!("http://push2.eastmoney.com/api/qt/stock/fflow/daykline/get?secid=0.830799&lmt=1&fields1=f1,f2,f3,f7&fields2={}", FIELDS)
    );
}

#[test]
fn a_flow_is_answered_and_kept() {
    let mut cache: Cache<MoneyFlow> = Cache::new();
    let mut search = begin(&cache);
    let found = PageOutcome::Found(flow(["1", "2", "3", "4", "5"]));
    let j = match search.advance(found, &mut cache, 0) {
        FlowAction::Reply(j) => j,
        FlowAction::Fetch { .. } => panic!("the flow was found"),
    };
    assert_eq!(j.get("cached"), Some(&Json::Bool(false)));
    assert_eq!(j.get("data").unwrap().number_at("retail"), "5");
    assert_eq!(j.get("data").unwrap().number_at("main_net"), "1");
    match start_flow(Some("sh600519"), &cache, 299_999_999_999) {
        FlowStart::Reply(again) => {
            assert_eq!(again.get("data"), j.get("data"));
            assert_eq!(again.get("cached"), Some(&Json::Bool(true)));
        }
        FlowStart::Search { .. } => panic!("the flow is cached"),
    }
    assert!(matches!(
        start_flow(Some("sh600519"), &cache, 300_000_000_000),
        FlowStart::Search { .. }
    ));
}

#[test]
fn six_failed_requests_end_the_search() {
    let mut cache: Cache<MoneyFlow> = Cache::new();
    let mut search = begin(&cache);
    let expected = [
        (moment_url("sh600519"), true),
        (moment_url("sh600519"), true),
        (day_url("sh600519"), false),
        (day_url("sh600519"), true),
        (day_url("sh600519"), true),
    ];
    for (page, pause) in expected {
        match search.advance(PageOutcome::Failed, &mut cache, 0) {
            FlowAction::Fetch { url, wait } => {
                assert_eq!(url, page);
                assert_eq!(wait, pause);
            }
            FlowAction::Reply(_) => panic!("pages are left"),
        }
    }
    match search.advance(PageOutcome::Failed, &mut cache, 0) {
        FlowAction::Reply(j) => {
            assert_eq!(j.str_at("status"), Some("success"));
            assert_eq!(j.str_at("msg"), Some("暂无资金流向数据"));
            assert_eq!(j.get("data"), Some(&Json::Null));
        }
        FlowAction::Fetch { .. } => panic!("no page is left"),
    }
}

#[test]
fn empty_pages_are_not_asked_again() {
    let mut cache: Cache<MoneyFlow> = Cache::new();
    let mut search = begin(&cache);
    assert!(matches!(search.advance(PageOutcome::Failed, &mut cache, 0), FlowAction::Fetch { .. }));
    match search.advance(PageOutcome::Empty, &mut cache, 0) {
        FlowAction::Fetch { url, wait } => {
            assert_eq!(url, day_url("sh600519"));
            assert!(!wait);
        }
        FlowAction::Reply(_) => panic!("a page is left"),
    }
    assert!(matches!(search.advance(PageOutcome::Empty, &mut cache, 0), FlowAction::Reply(_)));
}

#[test]
fn a_request_for_a_flow_needs_a_code() {
    let cache: Cache<MoneyFlow> = Cache::new();
    match start_flow(None, &cache, 0) {
        FlowStart::Reply(j) => assert_eq!(j, Json::parse("{\"status\":\"error\"}").unwrap()),
        FlowStart::Search { .. } => panic!("there is no code"),
    }
}

#[test]
fn what_came_of_a_page() {
    assert!(matches!(read_page(&Fetched::Failed), PageOutcome::Failed));
    assert!(matches!(read_page(&Fetched::NoText), PageOutcome::Empty));
    assert!(matches!(read_page(&Fetched::Text("x".to_string())), PageOutcome::Empty));
    let text = "{\"data\":{\"f62\":7}}".to_string();
    match read_page(&Fetched::Text(text)) {
        PageOutcome::Found(found) => assert_eq!(found, flow(["7", "0", "0", "0", "0"])),
        _ => panic!("the page holds a flow"),
    }
}
