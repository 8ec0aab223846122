use stock_monitor::ai::{
    begin_run, build_analysis_prompt, call_llm_api, call_llm_api_with_model, chat_url, models,
    read_analysis, read_content, read_model_result, read_own_result, read_request, start_analysis,
    AnalysisRun, AnalysisStart, AnalysisStep, CallOutcome, LlmCall, SYSTEM_PROMPT,
};
use stock_monitor::config::AiConfig;
use stock_monitor::json::{Json, Num};
use stock_monitor::kline::{kline_url, KLineDataPoint};
use stock_monitor::money_flow::{moment_url, MoneyFlow};
use stock_monitor::quote::{quote_url, StockInfo};

fn s(text: &str) -> String {
    text.to_string()
}

fn info() -> StockInfo {
    StockInfo {
        symbol: s("sh600519"),
        name: s("贵州茅台"),
        price: s("1510.50"),
        change_percent: s("1.38"),
        high: s("1520.00"),
        low: s("1480.00"),
        volume: s("25000"),
        open: s("1500.00"),
        pre_close: s("1490.00"),
        limit_up: s("1639.00"),
        limit_down: s("1341.00"),
        amount: s("3775000000.00"),
        turnover_rate: s("0"),
        pe_ratio: s("0"),
    }
}

fn flow() -> MoneyFlow {
    MoneyFlow {
        main_net: s("1.00"),
        super_large: s("2.00"),
        large: s("3.00"),
        medium: s("4.00"),
        small: s("5.00"),
        retail: s("5.00"),
    }
}

fn line(day: u32) -> KLineDataPoint {
    KLineDataPoint {
        date: format!("2024-05-0{}", day),
        open: format!("{}.10", day),
        close: format!("{}.20", day),
        high: format!("{}.30", day),
        low: format!("{}.40", day),
        volume: format!("{}00", day),
        amount: s("0"),
    }
}

fn provider(name: &str, main: &str, fallback: &str, own: &str) -> AiConfig {
    AiConfig {
        id: s("id"),
        name: s(name),
        config_type: s("openai"),
        api_url: s("https://host/v1"),
        api_key: s(""),
        main_models: s(main),
        fallback_models: s(fallback),
        model: s(own),
        timeout_seconds: 0,
    }
}

fn run(configs: Vec<AiConfig>) -> AnalysisRun {
    match begin_run(Some(info()), None, None, "trend", &configs) {
        Ok(run) => run,
        Err(_) => panic!("the quote is there"),
    }
}

fn call(run: &AnalysisRun) -> (String, String, LlmCall) {
    match run.next() {
        AnalysisStep::Call { provider, model, call } => (provider, model, call),
        AnalysisStep::Reply(_) => panic!("a model is left"),
    }
}

fn reply(run: &AnalysisRun) -> Json {
    match run.next() {
        AnalysisStep::Reply(j) => j,
        AnalysisStep::Call { .. } => panic!("the search is over"),
    }
}

fn answer(text: &str) -> CallOutcome {
    let json = format!("{{\"choices\":[{{\"message\":{{\"content\":\"{}\"}}}}]}}", text);
    CallOutcome::Answered(Json::parse(&json).unwrap())
}

#[test]
fn the_prompt_with_all_its_parts() {
    let lines: Vec<KLineDataPoint> = (1..=7).map(line).collect();
    assert_eq!(
        build_analysis_prompt(&info(), Some(&flow()), &lines, "trend"),
        "请分析股票 贵州茅台(sh600519) 的走势。\n\n【基础数据】\n当前价格: 1510.50, 涨跌幅: 1.38%, 今开: 1500.00, 最高: 1520.00, 最低: 1480.00, 昨收: 1490.00\n\
         \n【资金流向】\n主力净流入: 1.00元, 超大单: 2.00元, 大单: 3.00元, 中单: 4.00元, 小单: 5.00元\n\
         \n【近期K线数据 (最近5日)】\n日期, 开盘, 收盘, 最高, 最低, 成交量(手)\n\
         2024-05-07, 7.10, 7.20, 7.30, 7.40, 700\n\
         2024-05-06, 6.10, 6.20, 6.30, 6.40, 600\n\
         2024-05-05, 5.10, 5.20, 5.30, 5.40, 500\n\
         2024-05-04, 4.10, 4.20, 4.30, 4.40, 400\n\
         2024-05-03, 3.10, 3.20, 3.30, 3.40, 300\n\
         \n【分析任务】\n请进行趋势研判。结合价格形态、均线趋势（如有）、资金流向，判断短期和中期的走势。给出明确的看多、看空或震荡观点。"
    );
}

#[test]
fn the_prompt_without_flow_and_klines() {
    let prompt = build_analysis_prompt(&info(), None, &vec![], "timing");
    assert!(prompt.contains("\n【资金流向】\n暂无数据\n\n【分析任务】\n请提供择时信号。"));
    assert!(!prompt.contains("K线"));
}

#[test]
fn the_prompt_by_kind() {
    let end = |kind: &str| build_analysis_prompt(&info(), None, &vec![line(1)], kind);
    assert!(end("timing").ends_with("请提供择时信号。分析当前的买卖点，是否适合介入或离场？关注成交量变化和关键支撑压力位。"));
    assert!(end("turning").ends_with("请检测拐点。分析是否有见底回升或见顶回落的迹象。关注背离现象和资金异动。"));
    assert!(end("other").ends_with("\n【分析任务】\n请进行综合技术分析。"));
    assert!(end("other").contains("2024-05-01, 1.10, 1.20, 1.30, 1.40, 100\n"));
}

#[test]
fn earlier_klines_do_not_change_the_prompt() {
    let many: Vec<KLineDataPoint> = (1..=9).map(line).collect();
    let last: Vec<KLineDataPoint> = (5..=9).map(line).collect();
    assert_eq!(
        build_analysis_prompt(&info(), None, &many, "trend"),
        build_analysis_prompt(&info(), None, &last, "trend")
    );
}

#[test]
fn addresses_are_completed() {
    assert_eq!(chat_url("https://openrouter.ai/api/v1"), "https://openrouter.ai/api/v1/chat/completions");
    assert_eq!(chat_url("http://localhost:11434/v1/"), "http://localhost:11434/v1/chat/completions");
    assert_eq!(chat_url("http://x/chat/completions"), "http://x/chat/completions");
    assert_eq!(chat_url(""), "/chat/completions");
    assert_eq!(chat_url(&chat_url("http://x")), chat_url("http://x"));
}

#[test]
fn the_request_to_a_model() {
    let mut config = provider("p", "", "", "own");
    config.api_key = s("key");
    let c = call_llm_api_with_model(&config, "问题", "m");
    assert_eq!(c.url, "https://host/v1/chat/completions");
    assert_eq!(c.authorization, Some(s("Bearer key")));
    assert_eq!(c.timeout, 60);
    assert_eq!(c.body.str_at("model"), Some("m"));
    assert_eq!(c.body.get("temperature"), Some(&Json::Num(Num::Decimal(s("0.7")))));
    let messages = c.body.array_at("messages").unwrap();
    assert_eq!(messages.len(), 2);
    assert_eq!(messages[0].str_at("role"), Some("system"));
    assert_eq!(messages[0].str_at("content"), Some(SYSTEM_PROMPT));
    assert_eq!(messages[1].str_at("role"), Some("user"));
    assert_eq!(messages[1].str_at("content"), Some("问题"));
    config.timeout_seconds = 5;
    config.api_key = s("");
    let c = call_llm_api_with_model(&config, "q", "m");
    assert_eq!(c.timeout, 5);
    assert_eq!(c.authorization, None);
}

#[test]
fn the_request_for_a_providers_own_model() {
    let c = call_llm_api(&provider("p", "a", "b", "own"), "q");
    assert_eq!(c.url, "https://host/v1");
    assert_eq!(c.timeout, 0);
    assert_eq!(c.authorization, None);
    assert_eq!(c.body.str_at("model"), Some("own"));
}

#[test]
fn the_content_of_a_reply() {
    let read = |text: &str| read_content(&Json::parse(text).unwrap());
    assert_eq!(
        read("{\"choices\":[{\"message\":{\"content\":\"x\"}},{\"message\":{\"content\":\"y\"}}]}"),
        Some(s("x"))
    );
    assert_eq!(read("{\"choices\":[]}"), None);
    assert_eq!(read("{\"choices\":{}}"), None);
    assert_eq!(read("{\"choices\":[{\"message\":{\"content\":null}}]}"), None);
    assert_eq!(read("{\"choices\":[{}]}"), None);
    assert_eq!(read("{}"), None);
}

#[test]
fn failures_of_a_model_are_told() {
    let read = |o: CallOutcome| read_model_result("m", &o);
    assert_eq!(read(CallOutcome::NoClient(s("e"))), Err(s("Failed to build client: e")));
    assert_eq!(read(CallOutcome::NotSent(s("e"))), Err(s("Request failed for model m: e")));
    let refused = CallOutcome::Refused { status: s("401 Unauthorized"), text: s("no") };
    assert_eq!(read(refused), Err(s("API Error 401 Unauthorized for model m: no")));
    assert_eq!(read(CallOutcome::Unreadable(s("e"))), Err(s("Parse response failed for model m: e")));
    assert_eq!(
        read(CallOutcome::Answered(Json::Null)),
        Err(s("Invalid response format from LLM for model m"))
    );
    assert_eq!(read(answer("x")), Ok(s("x")));
}

#[test]
fn failures_of_a_providers_own_model_are_told() {
    assert_eq!(
        read_own_result(&CallOutcome::NoClient(s("e"))),
        Err(s("Failed to build client: e"))
    );
    assert_eq!(read_own_result(&CallOutcome::NotSent(s("e"))), Err(s("Request failed: e")));
    let refused = CallOutcome::Refused { status: s("500"), text: s("t") };
    assert_eq!(read_own_result(&refused), Err(s("API Error 500: t")));
    assert_eq!(
        read_own_result(&CallOutcome::Unreadable(s("e"))),
        Err(s("Parse response failed: e"))
    );
    assert_eq!(
        read_own_result(&CallOutcome::Answered(Json::Null)),
        Err(s("Invalid response format from LLM"))
    );
    assert_eq!(read_own_result(&answer("x")), Ok(s("x")));
}

#[test]
fn main_models_stand_before_those_to_fall_back_on() {
    assert_eq!(models(&provider("p", " a , ,b", "c,", "own")), vec![s("a"), s("b"), s("c")]);
    assert_eq!(models(&provider("p", "", "c", "own")), vec![s("c")]);
    assert_eq!(models(&provider("p", " , ", "", "own")), vec![s("own")]);
    assert!(models(&provider("p", "", "", "")).is_empty());
}

#[test]
fn sentiments() {
    let check = |answer: &str, sentiment: &str, analysis: &str| {
        let r = read_analysis(answer);
        assert_eq!(r.status, "success");
        assert_eq!(r.sentiment, sentiment);
        assert_eq!(r.analysis, analysis);
    };
    check("[BULLISH] 看多。\n理由", "bullish", "看多。\n理由");
    check("[BEARISH]看空", "bearish", "看空");
    check("[NEUTRAL]\n震荡 ", "neutral", "震荡");
    check("  无标记 ", "neutral", "无标记");
    check("[BEARISH] a [BULLISH] b", "bullish", "[BEARISH] a  b");
    check("[NEUTRAL] a [BEARISH] b", "bearish", "[NEUTRAL] a  b");
    check("x[BULLISH]y[BULLISH]", "bullish", "xy");
    check("", "neutral", "");
}

#[test]
fn requests_have_defaults() {
    let r = read_request(None, None);
    assert_eq!(r.code, "");
    assert_eq!(r.analysis_type, "trend");
    let r = read_request(Some("600519"), Some("timing"));
    assert_eq!(r.code, "600519");
    assert_eq!(r.analysis_type, "timing");
}

#[test]
fn how_an_analysis_begins() {
    let configs = vec![provider("p", "a", "", "")];
    match start_analysis(&read_request(Some("600519"), None), &configs) {
        AnalysisStart::Fetch { code, quote, flow, klines } => {
            assert_eq!(code, "sh600519");
            assert_eq!(quote, quote_url("sh600519"));
            assert_eq!(flow, moment_url("sh600519"));
            assert_eq!(klines, kline_url("sh600519", "101", 10));
        }
        AnalysisStart::Reply(_) => panic!("there is a code and a provider"),
    }
    let msg = |start: AnalysisStart| match start {
        AnalysisStart::Reply(j) => s(j.str_at("msg").unwrap()),
        AnalysisStart::Fetch { .. } => panic!("the request is refused"),
    };
    assert_eq!(msg(start_analysis(&read_request(None, None), &configs)), "no code");
    assert_eq!(msg(start_analysis(&read_request(None, None), &vec![])), "no code");
    assert_eq!(
        msg(start_analysis(&read_request(Some("1"), None), &vec![])),
        "No AI config found"
    );
}

#[test]
fn without_a_quote_there_is_no_analysis() {
    match begin_run(None, Some(flow()), Some(vec![]), "trend", &vec![]) {
        Err(j) => {
            assert_eq!(j.str_at("status"), Some("error"));
            assert_eq!(j.str_at("msg"), Some("Failed to fetch stock info"));
        }
        Ok(_) => panic!("there is no quote"),
    }
}

#[test]
fn the_first_answer_is_given() {
    let configs = vec![
        provider("甲", "a", "b", ""),
        provider("乙", "", "", ""),
        provider("丙", "", "", "c"),
    ];
    let prompt = build_analysis_prompt(&info(), None, &vec![], "trend");
    let mut run = run(configs);
    for (name, model) in [("甲", "a"), ("甲", "b")] {
        let (p, m, c) = call(&run);
        assert_eq!(p, name);
        assert_eq!(m, model);
        assert_eq!(c.body.array_at("messages").unwrap()[1].str_at("content"), Some(prompt.as_str()));
        run.report(CallOutcome::NotSent(s("timeout")));
    }
    assert_eq!(call(&run).0, "丙");
    run.report(answer("[BULLISH] 看多"));
    let j = reply(&run);
    assert_eq!(j.str_at("status"), Some("success"));
    let data = j.get("data").unwrap();
    assert_eq!(data.str_at("analysis"), Some("看多"));
    assert_eq!(data.str_at("sentiment"), Some("bullish"));
    assert_eq!(data.str_at("raw_response"), Some("[BULLISH] 看多"));
}

#[test]
fn the_last_failure_is_told() {
    let mut run = run(vec![provider("甲", "a,b", "", "")]);
    run.report(CallOutcome::NotSent(s("timeout")));
    run.report(CallOutcome::Answered(Json::Null));
    let j = reply(&run);
    assert_eq!(j.str_at("status"), Some("error"));
    assert_eq!(
        j.str_at("msg"),
        Some("All AI providers and models failed. Last error: Provider [甲] Model [b]: Invalid response format from LLM for model b")
    );
}

#[test]
fn without_models_nobody_is_asked() {
    let j = reply(&run(vec![provider("甲", "", " ,", "")]));
    assert_eq!(j.str_at("msg"), Some("No valid models found in any configuration"));
}
