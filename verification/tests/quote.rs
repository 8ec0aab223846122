use stock_monitor::cache::Cache;
use stock_monitor::json::Json;
use stock_monitor::quote::{
    can_decode, finish_detail, get_market_data, parse_sina_data, quote_url, read_match,
    read_matches, read_quote, start_detail, stock_info, DetailOutcome, Figures, RefreshRound,
    SinaQuote, StockInfo,
};
use stock_monitor::reply::Start;

/// The fields of a quote after the name, so that the whole list has `count` fields.
fn fields(count: usize) -> String {
    let mut list = String::from("1500.00,1490.00,1510.50,1520.00,1480.00,1510.40,1510.50,2500000,3775000000.00");
    for i in 10..count {
        list.push_str(&format!(",{}", i));
    }
    list
}

fn page(code: &str, count: usize) -> Vec<u8> {
    let mut bytes = format!("var hq_str_{}=\"", code).into_bytes();
    bytes.extend([0xb9, 0xf3, 0xd6, 0xdd, 0xc3, 0xa9, 0xcc, 0xa8]);
    bytes.extend(format!(",{}\";\n", fields(count)).into_bytes());
    bytes
}

fn quote(symbol: &str) -> SinaQuote {
    SinaQuote {
        symbol: symbol.to_string(),
        name: "贵州茅台".to_string(),
        open: "1500.00".to_string(),
        pre_close: "1490.00".to_string(),
        price: "1510.50".to_string(),
        high: "1520.00".to_string(),
        low: "1480.00".to_string(),
        volume: "2500000".to_string(),
        amount: "3775000000.00".to_string(),
    }
}

fn info(symbol: &str) -> StockInfo {
    stock_info(
        quote(symbol),
        Figures {
            change_percent: "1.375".to_string(),
            lots: "25000".to_string(),
            limit_up: "1639".to_string(),
            limit_down: "1341".to_string(),
        },
    )
}

#[test]
fn a_page_in_gbk_is_read() {
    assert_eq!(read_quote("sh600519", &page("sh600519", 33)), Ok(Some(quote("sh600519"))));
    assert_eq!(read_quote("sh600519", &page("sh600519", 31)), Ok(Some(quote("sh600519"))));
}

#[test]
fn the_code_is_the_one_asked_for() {
    assert_eq!(read_quote("sz000001", &page("sh600519", 31)), Ok(Some(quote("sz000001"))));
}

#[test]
fn a_page_with_too_few_fields_holds_no_quote() {
    assert_eq!(read_quote("sh600519", &page("sh600519", 30)), Ok(None));
    assert_eq!(read_quote("sh600519", b"var hq_str_sh600519=\"\";\n"), Ok(None));
    assert_eq!(read_quote("sh600519", b"Forbidden"), Ok(None));
    assert_eq!(read_quote("sh600519", b""), Ok(None));
}

#[test]
fn spaces_around_the_assignment() {
    let text = format!("var \t hq_str_sh1 \n=  \"A,{}\"", fields(31));
    let read = read_quote("sh1", text.as_bytes()).unwrap().unwrap();
    assert_eq!(read.name, "A");
    assert_eq!(read.price, "1510.50");
}

#[test]
fn ordinary_pages_can_be_decoded() {
    assert!(can_decode(b"abc"));
    assert!(can_decode(&[]));
}

#[test]
fn groups_of_a_match_are_read() {
    let groups = vec![
        Some("whole".to_string()),
        Some("sh600519".to_string()),
        Some(format!("贵州茅台,{}", fields(31))),
    ];
    assert_eq!(read_match("sh600519", &groups), Some(quote("sh600519")));
    assert_eq!(read_match("sh600519", &vec![Some("whole".to_string())]), None);
    assert_eq!(read_match("sh600519", &vec![None, Some("a".to_string()), None]), None);
}

#[test]
fn a_page_of_several_is_read_in_order() {
    let text = format!(
        "var hq_str_sh600519=\"贵州茅台,{}\";\nvar hq_str_sz1=\"短,{}\";\nvar hq_str_sz000001=\"贵州茅台,{}\";",
        fields(32),
        fields(31),
        fields(40)
    );
    assert_eq!(parse_sina_data(&text), Ok(vec![quote("sh600519"), quote("sz000001")]));
    assert_eq!(parse_sina_data("nothing"), Ok(vec![]));
}

#[test]
fn matches_with_too_few_fields_are_passed_over() {
    let line = |code: &str, n: usize| {
        vec![None, Some(code.to_string()), Some(format!("贵州茅台,{}", fields(n)))]
    };
    let all = vec![line("a", 31), line("b", 32), vec![]];
    assert_eq!(read_matches(&all), vec![quote("b")]);
}

#[test]
fn the_page_of_a_code() {
    assert_eq!(quote_url("sh600519"), "http://hq.sinajs.cn/list=sh600519");
}

#[test]
fn details_come_from_the_quote_and_its_figures() {
    let i = info("sh600519");
    assert_eq!(i.symbol, "sh600519");
    assert_eq!(i.name, "贵州茅台");
    assert_eq!(i.price, "1510.50");
    assert_eq!(i.volume, "25000");
    assert_eq!(i.change_percent, "1.375");
    assert_eq!(i.limit_up, "1639");
    assert_eq!(i.limit_down, "1341");
    assert_eq!(i.turnover_rate, "0");
    assert_eq!(i.pe_ratio, "0");
}

#[test]
fn the_market_is_listed_in_order() {
    let j = get_market_data(&vec![info("sh000001"), info("sz000002")]);
    let list = j.as_array().unwrap();
    assert_eq!(list.len(), 2);
    assert_eq!(list[0].str_at("symbol"), Some("sh000001"));
    assert_eq!(list[1].str_at("symbol"), Some("sz000002"));
    assert_eq!(list[0].number_at("price"), "1510.50");
    assert_eq!(list[0].number_at("pe_ratio"), "0");
    assert_eq!(get_market_data(&vec![]), Json::Arr(vec![]));
}

#[test]
fn details_are_fetched_then_served_from_the_cache() {
    let mut cache: Cache<StockInfo> = Cache::new();
    match start_detail(Some("600519"), &cache, 0) {
        Start::Fetch { key, url } => {
            assert_eq!(key, "sh600519");
            assert_eq!(url, "http://hq.sinajs.cn/list=sh600519");
        }
        Start::Reply(_) => panic!("nothing is cached"),
    }
    let j = finish_detail("sh600519", DetailOutcome::Info(info("sh600519")), &mut cache, 0);
    assert_eq!(j.str_at("status"), Some("success"));
    assert_eq!(j.get("cached"), Some(&Json::Bool(false)));
    let data = j.get("data").unwrap();
    assert_eq!(data.str_at("name"), Some("贵州茅台"));
    assert_eq!(data.get("turnover_rate"), None);
    match start_detail(Some("SH600519 "), &cache, 59_999_999_999) {
        Start::Reply(again) => {
            assert_eq!(again.get("cached"), Some(&Json::Bool(true)));
            assert_eq!(again.get("data"), j.get("data"));
        }
        Start::Fetch { .. } => panic!("the details are cached"),
    }
    assert!(matches!(start_detail(Some("600519"), &cache, 60_000_000_000), Start::Fetch { .. }));
}

#[test]
fn details_that_cannot_be_had() {
    let mut cache: Cache<StockInfo> = Cache::new();
    match start_detail(None, &cache, 0) {
        Start::Reply(j) => assert_eq!(j.str_at("msg"), Some("fetch failed")),
        Start::Fetch { .. } => panic!("there is no code"),
    }
    let refused = DetailOutcome::Refused("403 Forbidden".to_string());
    let j = finish_detail("sh600519", refused, &mut cache, 0);
    assert_eq!(j.str_at("status"), Some("error"));
    assert_eq!(j.str_at("msg"), Some("HTTP 403 Forbidden"));
    let j = finish_detail("sh600519", DetailOutcome::Nothing, &mut cache, 0);
    assert_eq!(j.str_at("msg"), Some("fetch failed"));
    assert!(matches!(start_detail(Some("600519"), &cache, 0), Start::Fetch { .. }));
}

#[test]
fn a_round_keeps_the_order_and_passes_over_failures() {
    let codes: Vec<String> = ["sh000001", "sz399001", "sh600519"].iter().map(|c| c.to_string()).collect();
    let mut round = RefreshRound::new(codes);
    let mut asked = vec![];
    while let Some((code, url)) = round.next() {
        assert_eq!(url, quote_url(&code));
        let outcome = if code == "sz399001" { None } else { Some(quote(&code)) };
        asked.push(code);
        round.report(outcome);
    }
    assert_eq!(asked, vec!["sh000001", "sz399001", "sh600519"]);
    let quotes = round.into_quotes();
    assert_eq!(quotes, vec![quote("sh000001"), quote("sh600519")]);
    let symbols: Vec<&str> = quotes.iter().map(|q| q.symbol.as_str()).collect();
    assert_eq!(symbols, vec!["sh000001", "sh600519"]);
}

fn page_of(statements: &[(&str, String)]) -> String {
    statements.iter().map(|(code, list)| format!("var hq_str_{}=\"{}\";\n", code, list)).collect()
}

#[test]
fn pages_put_together_hold_the_quotes_of_both() {
    let full = || format!("贵州茅台,{}", fields(33));
    let short = || format!("短,{}", fields(31));
    let a = page_of(&[("sh600519", full()), ("sh1", short())]);
    let b = page_of(&[("sz000001", full()), ("bj_2", full())]);
    let mut both = parse_sina_data(&a).unwrap();
    both.extend(parse_sina_data(&b).unwrap());
    assert_eq!(both, vec![quote("sh600519"), quote("sz000001"), quote("bj_2")]);
    assert_eq!(parse_sina_data(&format!("{}{}", a, b)), Ok(both));
    assert_eq!(parse_sina_data(&format!("{}{}", a, "")), parse_sina_data(&a));
}

#[test]
fn statements_are_matched_whole() {
    let odd = format!("甲;\nvar hq_str_x=,{}", fields(32));
    let last = format!(" = ';\n,{}", fields(32));
    let page = page_of(&[("A_9", odd), ("_", String::new()), ("z", last)]);
    let quotes = parse_sina_data(&page).unwrap();
    assert_eq!(quotes.len(), 2);
    assert_eq!(quotes[0].symbol, "A_9");
    assert_eq!(quotes[0].name, "甲;\nvar hq_str_x=");
    assert_eq!(quotes[0].open, "1500.00");
    assert_eq!(quotes[1].symbol, "z");
    assert_eq!(quotes[1].name, " = ';\n");
}
