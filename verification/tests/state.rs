use stock_monitor::codes::{normalize_index_code, normalize_stock_code};
use stock_monitor::config::{
    default_ai_configs, default_data_fetch_interval, default_page_refresh_interval, first_config,
    page_interval, repair_config, starting_config, AiConfig, AppConfig, ConfigFile,
};
use stock_monitor::json::Json;
use stock_monitor::state::AppState;

fn strings(list: &[&str]) -> Vec<String> {
    list.iter().map(|s| s.to_string()).collect()
}

fn provider(id: &str) -> AiConfig {
    AiConfig {
        id: id.to_string(),
        name: "本地".to_string(),
        config_type: "ollama".to_string(),
        api_url: "http://localhost:11434/v1".to_string(),
        api_key: "".to_string(),
        main_models: "a,b".to_string(),
        fallback_models: "c".to_string(),
        model: "d".to_string(),
        timeout_seconds: 30,
    }
}

fn config(data: u64, page: u64) -> AppConfig {
    AppConfig {
        indices: strings(&["sh000001"]),
        stocks: strings(&["sh600519", "sz000001"]),
        data_fetch_interval: data,
        page_refresh_interval: page,
        ai_configs: vec![provider("p")],
    }
}

fn state() -> AppState {
    AppState::start(ConfigFile::Stored(config(7, 5))).0
}

fn json(text: &str) -> Json {
    Json::parse(text).unwrap()
}

#[test]
fn defaults() {
    assert_eq!(default_data_fetch_interval(), 10);
    assert_eq!(default_page_refresh_interval(), 3);
    assert_eq!(default_ai_configs(), vec![]);
}

#[test]
fn zero_intervals_are_repaired() {
    assert_eq!(repair_config(config(0, 0)), config(10, 3));
    assert_eq!(repair_config(config(0, 5)), config(10, 5));
    assert_eq!(repair_config(config(7, 0)), config(7, 3));
    assert_eq!(repair_config(config(7, 5)), config(7, 5));
    assert_eq!(page_interval(&Some(config(7, 0))), 3);
    assert_eq!(page_interval(&Some(config(7, 5))), 5);
    assert_eq!(page_interval(&None), 3);
}

#[test]
fn a_new_installation() {
    let first = first_config();
    assert_eq!(first.indices, strings(&["sh000001", "sz399001", "sz399006", "bj899050"]));
    assert_eq!(first.stocks, strings(&["sh600519", "sz000001", "sh601318", "sz002594"]));
    assert_eq!(first.data_fetch_interval, 10);
    assert_eq!(first.page_refresh_interval, 3);
    assert_eq!(first.ai_configs.len(), 1);
    assert_eq!(first.ai_configs[0].id, "default_1");
    assert_eq!(first.ai_configs[0].name, "默认配置");
    assert_eq!(first.ai_configs[0].config_type, "openai");
    assert_eq!(first.ai_configs[0].api_url, "");
    assert_eq!(first.ai_configs[0].main_models, "gpt-3.5-turbo");
    assert_eq!(first.ai_configs[0].model, "gpt-3.5-turbo");
    assert_eq!(first.ai_configs[0].timeout_seconds, 60);
    assert_eq!(starting_config(ConfigFile::Missing), first);
    assert_eq!(starting_config(ConfigFile::Unreadable), first);
    assert_eq!(starting_config(ConfigFile::Stored(config(0, 5))), config(10, 5));
}

#[test]
fn only_a_missing_file_is_written_at_the_start() {
    assert_eq!(AppState::start(ConfigFile::Missing).1, Some(first_config()));
    assert_eq!(AppState::start(ConfigFile::Unreadable).1, None);
    assert_eq!(AppState::start(ConfigFile::Stored(config(7, 5))).1, None);
    assert_eq!(AppState::start(ConfigFile::Stored(config(0, 0))).0.refresh_interval(), 10);
}

#[test]
fn the_configuration_is_answered() {
    let j = state().get_config(&Some(config(7, 5)));
    assert_eq!(j.array_at("indices").unwrap()[0].as_str(), Some("sh000001"));
    assert_eq!(j.array_at("stocks").unwrap().len(), 2);
    assert_eq!(j.u64_at("data_fetch_interval"), Some(7));
    assert_eq!(j.u64_at("page_refresh_interval"), Some(5));
    assert_eq!(state().get_config(&None).u64_at("page_refresh_interval"), Some(3));
}

#[test]
fn intervals_are_set() {
    let mut s = state();
    let c = s.update_config(
        &json("{\"data_fetch_interval\":20,\"page_refresh_interval\":4}"),
        &Some(config(7, 5)),
    );
    assert_eq!(c.reply, json("{\"status\":\"success\"}"));
    assert_eq!(c.save, Some(config(20, 4)));
    assert!(!c.refresh);
    assert_eq!(s.refresh_interval(), 20);
    let c = s.update_config(&json("{\"page_refresh_interval\":9}"), &Some(config(20, 4)));
    assert_eq!(c.save, Some(config(20, 9)));
    let c = s.update_config(&json("{\"data_fetch_interval\":\"x\"}"), &None);
    assert_eq!(c.save, Some(config(20, 3)));
}

#[test]
fn intervals_below_a_second_are_refused() {
    let mut s = state();
    for (text, msg) in [
        ("{\"data_fetch_interval\":0}", "data_fetch_interval must be >= 1"),
        ("{\"data_fetch_interval\":9,\"page_refresh_interval\":0}", "page_refresh_interval must be >= 1"),
        ("{\"data_fetch_interval\":0,\"page_refresh_interval\":0}", "data_fetch_interval must be >= 1"),
    ] {
        let c = s.update_config(&json(text), &None);
        assert_eq!(c.reply.str_at("status"), Some("error"));
        assert_eq!(c.reply.str_at("msg"), Some(msg));
        assert_eq!(c.save, None);
        assert_eq!(s.refresh_interval(), 7);
    }
}

#[test]
fn a_stock_is_added_once() {
    let mut s = state();
    let c = s.add_stock(Some(" 300750 "), &Some(config(7, 5)));
    assert_eq!(c.reply.str_at("status"), Some("success"));
    assert_eq!(c.reply.str_at("msg"), Some("added"));
    assert_eq!(c.reply.str_at("code"), Some("sz300750"));
    assert!(c.refresh);
    let saved = c.save.unwrap();
    assert_eq!(saved.stocks, strings(&["sh600519", "sz000001", "sz300750"]));
    assert_eq!(saved.page_refresh_interval, 5);
    assert_eq!(saved.ai_configs, vec![provider("p")]);
    let c = s.add_stock(Some("SZ300750"), &None);
    assert_eq!(c.reply.str_at("status"), Some("exists"));
    assert_eq!(c.reply.str_at("msg"), Some("already exists"));
    assert_eq!(c.save, None);
    assert!(c.refresh);
    let c = s.add_stock(None, &None);
    assert_eq!(c.reply.str_at("msg"), Some("no code"));
    assert!(!c.refresh);
}

#[test]
fn removing_a_stock_undoes_adding_it() {
    let mut s = state();
    s.add_stock(Some("300750"), &None);
    let c = s.remove_stock(&json("{\"code\":\"300750\"}"), &Some(config(7, 5)));
    assert_eq!(c.reply.str_at("msg"), Some("removed"));
    assert_eq!(c.reply.str_at("status"), Some("success"));
    assert_eq!(c.save, Some(config(7, 5)));
    assert!(c.refresh);
}

#[test]
fn removals_that_are_refused() {
    let mut s = state();
    let c = s.remove_stock(&json("{\"code\":\"999999\"}"), &None);
    assert_eq!(c.reply.str_at("msg"), Some("not found"));
    assert_eq!(c.save, None);
    assert!(!c.refresh);
    let c = s.remove_stock(&json("{\"code\":5}"), &None);
    assert_eq!(c.reply.str_at("msg"), Some("invalid payload"));
    let c = s.remove_index(&json("{}"), &None);
    assert_eq!(c.reply.str_at("msg"), Some("invalid payload"));
    let c = s.remove_index(&json("{\"code\":\"sz399006\"}"), &None);
    assert_eq!(c.reply.str_at("msg"), Some("not found"));
}

#[test]
fn the_first_of_two_is_removed() {
    let mut s = state();
    s.reorder_stocks(&json("{\"stocks\":[\"600519\",\"000001\",\"600519\"]}"), &None);
    let c = s.remove_stock(&json("{\"code\":\"600519\"}"), &None);
    assert_eq!(c.save.unwrap().stocks, strings(&["sz000001", "sh600519"]));
}

#[test]
fn an_index_is_added_and_removed() {
    let mut s = state();
    let c = s.add_index(Some("399001"), &None);
    assert_eq!(c.reply.str_at("code"), Some("sz399001"));
    assert_eq!(c.save.unwrap().indices, strings(&["sh000001", "sz399001"]));
    let c = s.add_index(Some("sz399001"), &None);
    assert_eq!(c.reply.str_at("status"), Some("exists"));
    let c = s.add_index(None, &None);
    assert_eq!(c.reply.str_at("msg"), Some("no code"));
    let c = s.remove_index(&json("{\"code\":\"399001\"}"), &Some(config(7, 5)));
    assert_eq!(c.reply.str_at("msg"), Some("removed"));
    assert_eq!(c.save, Some(config(7, 5)));
}

#[test]
fn stocks_are_put_in_another_order() {
    let mut s = state();
    let c = s.reorder_stocks(&json("{\"stocks\":[\"000001\",7,\"SH600519\"]}"), &None);
    assert_eq!(c.reply, json("{\"status\":\"success\"}"));
    assert_eq!(c.save.unwrap().stocks, strings(&["sz000001", "sh600519"]));
    assert!(c.refresh);
    let c = s.reorder_stocks(&json("{\"stocks\":\"x\"}"), &None);
    assert_eq!(c.reply.str_at("msg"), Some("invalid payload"));
    assert_eq!(c.save, None);
}

#[test]
fn providers_are_answered() {
    let j = state().get_ai_config();
    assert_eq!(j.str_at("status"), Some("success"));
    let p = &j.array_at("data").unwrap()[0];
    assert_eq!(
        *p,
        json("{\"id\":\"p\",\"name\":\"本地\",\"type\":\"ollama\",\"apiUrl\":\"http://localhost:11434/v1\",\"apiKey\":\"\",\"mainModels\":\"a,b\",\"fallbackModels\":\"c\",\"model\":\"d\",\"timeoutSeconds\":30}")
            .sorted_like(p)
    );
    assert_eq!(state().ai_configs(), vec![provider("p")]);
}

/// Puts the fields of an object in the order of another one's.
trait SortedLike {
    fn sorted_like(self, other: &Json) -> Json;
}

impl SortedLike for Json {
    fn sorted_like(self, other: &Json) -> Json {
        match (self, other) {
            (Json::Obj(mut fields), Json::Obj(order)) => {
                fields.sort_by_key(|f| order.iter().position(|o| o.0 == f.0));
                Json::Obj(fields)
            }
            (j, _) => j,
        }
    }
}

#[test]
fn providers_are_set() {
    let mut s = state();
    let payload = json("{\"ai_configs\":[{}]}");
    let c = s.update_ai_config(&payload, Ok(vec![provider("q")]), &Some(config(7, 5)));
    assert_eq!(c.reply, json("{\"status\":\"success\"}"));
    assert_eq!(c.save.unwrap().ai_configs, vec![provider("q")]);
    assert!(!c.refresh);
    assert_eq!(s.ai_configs(), vec![provider("q")]);
    let c = s.update_ai_config(&payload, Err("missing field `id`".to_string()), &None);
    assert_eq!(c.reply.str_at("msg"), Some("Invalid config format: missing field `id`"));
    assert_eq!(c.save, None);
    assert_eq!(s.ai_configs(), vec![provider("q")]);
    for text in ["{}", "{\"ai_configs\":5}", "[]"] {
        let c = s.update_ai_config(&json(text), Ok(vec![]), &None);
        assert_eq!(c.reply.str_at("msg"), Some("Invalid payload"));
        assert_eq!(s.ai_configs(), vec![provider("q")]);
    }
}

#[test]
fn what_is_saved_comes_back_at_the_next_start() {
    let mut s = state();
    let saved = s.add_stock(Some("300750"), &Some(config(7, 5))).save.unwrap();
    let again = AppState::start(ConfigFile::Stored(saved)).0;
    assert_eq!(again.get_config(&None), s.get_config(&None));
    assert_eq!(again.get_ai_config(), s.get_ai_config());
}

#[test]
fn a_round_begins_with_the_indices() {
    let mut round = state().begin_round();
    let mut codes = vec![];
    while let Some((code, _)) = round.next() {
        codes.push(code);
        round.report(None);
    }
    assert_eq!(codes, strings(&["sh000001", "sh600519", "sz000001"]));
    assert_eq!(round.into_quotes(), vec![]);
}

#[test]
fn lists_hold_full_codes_only() {
    let mut s = state();
    s.add_stock(Some(" 830799"), &None);
    s.add_index(Some("399001"), &None);
    let c = s.remove_stock(&json("{\"code\":\"600519\"}"), &None).save.unwrap();
    assert_eq!(c.stocks, strings(&["sz000001", "bj830799"]));
    let c = s.reorder_stocks(&json("{\"stocks\":[\"SH601318\",\" 300750\"]}"), &None).save.unwrap();
    for code in &c.stocks {
        assert_eq!(&normalize_stock_code(code), code);
    }
    for code in &c.indices {
        assert_eq!(&normalize_index_code(code), code);
    }
}

#[test]
fn adding_keeps_what_is_there_in_front() {
    let mut s = state();
    let saved = s.add_stock(Some("300750"), &None).save.unwrap();
    assert_eq!(saved.stocks[..2], strings(&["sh600519", "sz000001"])[..]);
    assert_eq!(saved.stocks.len(), 3);
    assert_ne!(s.add_stock(Some("300750"), &None).reply.str_at("status"), Some("success"));
    let saved = s.add_index(Some("399001"), &None).save.unwrap();
    assert_eq!(saved.indices, strings(&["sh000001", "sz399001"]));
    assert_ne!(s.add_index(Some("399001"), &None).reply.str_at("status"), Some("success"));
}

#[test]
fn intervals_that_were_set_are_answered() {
    let mut s = state();
    let c = s.update_config(&json("{\"data_fetch_interval\":20}"), &Some(config(7, 5)));
    let j = s.get_config(&c.save);
    assert_eq!(j.u64_at("data_fetch_interval"), Some(20));
    assert_eq!(j.u64_at("page_refresh_interval"), Some(5));
    let c = s.update_config(&json("{\"page_refresh_interval\":8}"), &c.save);
    let j = s.get_config(&c.save);
    assert_eq!(j.u64_at("data_fetch_interval"), Some(20));
    assert_eq!(j.u64_at("page_refresh_interval"), Some(8));
}
