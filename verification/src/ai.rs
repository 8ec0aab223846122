//! Analysis of a stock by a large language model.
//!
//! A prompt is put together from what is known of the stock, and sent to the models of the providers
//! one after another until one answers. The answer is marked with a sentiment.
use crate::codes::{law_east_money_identifier, normalize_stock_code, stock_code};
use crate::config::{providers, AiConfig, Provider};
use crate::json::{
    array_at, items_view, law_empty_object, law_field_is_found, lemma_arr_view, str_at, Fields, Json,
    JsonView, NumView,
};
use crate::kline::{kline_page, kline_url, klines_view, KLine, KLineDataPoint};
use crate::money_flow::{moment_page, moment_url, Flow, MoneyFlow};
use crate::quote::{quote_page, quote_url, Info, StockInfo};
use crate::reply::{error_reply, error_view, number, number_view};
use crate::text::{
    contains, digits, ends_with, joined, law_occurs, law_split_takes_parts, law_without,
    lemma_filter_map_step, lemma_trimmed_ends, occurs, opt_text, remove_all, same, split, split_on,
    stands_at, texts, trim, trimmed, white_space, without,
};
use vstd::prelude::*;

verus! {

// ---------------------------------------------------------------------------------------------
// The prompt
// ---------------------------------------------------------------------------------------------

/// The line of the prompt for a K-line.
pub open spec fn kline_line(k: KLine) -> Seq<char> {
    k.date + ", "@ + k.open + ", "@ + k.close + ", "@ + k.high + ", "@ + k.low + ", "@ + k.volume
        + "\n"@
}

/// The lines of the prompt for the last `n` K-lines, the last one first.
pub open spec fn kline_lines(lines: Seq<KLine>, n: nat) -> Seq<char>
    decreases n,
{
    if n == 0 || lines.len() == 0 {
        Seq::empty()
    } else {
        kline_line(lines.last()) + kline_lines(lines.drop_last(), (n - 1) as nat)
    }
}

/// The part of the prompt with the stock's prices.
pub open spec fn info_part(i: Info) -> Seq<char> {
    "请分析股票 "@ + i.name + "("@ + i.symbol + ") 的走势。\n\n【基础数据】\n当前价格: "@ + i.price + ", 涨跌幅: "@
        + i.change_percent + "%, 今开: "@ + i.open + ", 最高: "@ + i.high + ", 最低: "@ + i.low
        + ", 昨收: "@ + i.pre_close + "\n"@
}

/// The part of the prompt with the money flow.
pub open spec fn flow_part(flow: Option<Flow>) -> Seq<char> {
    match flow {
        Some(f) => "\n【资金流向】\n主力净流入: "@ + f.main_net + "元, 超大单: "@ + f.super_large + "元, 大单: "@
            + f.large + "元, 中单: "@ + f.medium + "元, 小单: "@ + f.small + "元\n"@,
        None => "\n【资金流向】\n暂无数据\n"@,
    }
}

/// The part of the prompt with the last five K-lines; nothing where there is none.
pub open spec fn kline_part(lines: Seq<KLine>) -> Seq<char> {
    if lines.len() == 0 {
        Seq::empty()
    } else {
        "\n【近期K线数据 (最近5日)】\n日期, 开盘, 收盘, 最高, 最低, 成交量(手)\n"@ + kline_lines(lines, 5)
    }
}

/// The part of the prompt with the task, by the kind of analysis.
pub open spec fn task_part(kind: Seq<char>) -> Seq<char> {
    if kind == "trend"@ {
        "\n【分析任务】\n请进行趋势研判。结合价格形态、均线趋势（如有）、资金流向，判断短期和中期的走势。给出明确的看多、看空或震荡观点。"@
    } else if kind == "timing"@ {
        "\n【分析任务】\n请提供择时信号。分析当前的买卖点，是否适合介入或离场？关注成交量变化和关键支撑压力位。"@
    } else if kind == "turning"@ {
        "\n【分析任务】\n请检测拐点。分析是否有见底回升或见顶回落的迹象。关注背离现象和资金异动。"@
    } else {
        "\n【分析任务】\n请进行综合技术分析。"@
    }
}

/// The prompt.
pub open spec fn analysis_prompt(
    info: Info,
    flow: Option<Flow>,
    lines: Seq<KLine>,
    kind: Seq<char>,
) -> Seq<char> {
    info_part(info) + flow_part(flow) + kline_part(lines) + task_part(kind)
}

fn info_text(i: &StockInfo) -> (r: String)
    ensures
        r@ == info_part(i@),
{
    let mut r = joined("请分析股票 ", &i.name);
    r.append("(");
    r.append(&i.symbol);
    r.append(") 的走势。\n\n【基础数据】\n当前价格: ");
    r.append(&i.price);
    r.append(", 涨跌幅: ");
    r.append(&i.change_percent);
    r.append("%, 今开: ");
    r.append(&i.open);
    r.append(", 最高: ");
    r.append(&i.high);
    r.append(", 最低: ");
    r.append(&i.low);
    r.append(", 昨收: ");
    r.append(&i.pre_close);
    r.append("\n");
    r
}

/// What a possible flow stands for.
pub open spec fn flow_ref(flow: Option<&MoneyFlow>) -> Option<Flow> {
    match flow {
        Some(f) => Some(f@),
        None => None,
    }
}

fn flow_text(flow: Option<&MoneyFlow>) -> (r: String)
    ensures
        r@ == flow_part(flow_ref(flow)),
{
    match flow {
        Some(f) => {
            let mut r = joined("\n【资金流向】\n主力净流入: ", &f.main_net);
            r.append("元, 超大单: ");
            r.append(&f.super_large);
            r.append("元, 大单: ");
            r.append(&f.large);
            r.append("元, 中单: ");
            r.append(&f.medium);
            r.append("元, 小单: ");
            r.append(&f.small);
            r.append("元\n");
            r
        },
        None => "\n【资金流向】\n暂无数据\n".to_owned(),
    }
}

fn line_text(k: &KLineDataPoint) -> (r: String)
    ensures
        r@ == kline_line(k@),
{
    let mut r = joined(&k.date, ", ");
    r.append(&k.open);
    r.append(", ");
    r.append(&k.close);
    r.append(", ");
    r.append(&k.high);
    r.append(", ");
    r.append(&k.low);
    r.append(", ");
    r.append(&k.volume);
    r.append("\n");
    r
}

fn klines_text(points: &Vec<KLineDataPoint>) -> (r: String)
    ensures
        r@ == kline_part(klines_view(points@)),
{
    let ghost lines = klines_view(points@);
    if points.len() == 0 {
        return String::new();
    }
    let mut r = "\n【近期K线数据 (最近5日)】\n日期, 开盘, 收盘, 最高, 最低, 成交量(手)\n".to_owned();
    let ghost head = r@;
    let mut left: usize = points.len();
    let mut n: usize = 5;
    assert(lines.take(left as int) == lines);
    assert(head + kline_lines(lines, 5) == r@ + kline_lines(lines.take(left as int), n as nat));
    while n > 0 && left > 0
        invariant
            left <= points@.len(),
            lines == klines_view(points@),
            head + kline_lines(lines, 5) == r@ + kline_lines(lines.take(left as int), n as nat),
        decreases left,
    {
        let ghost before = r@;
        let ghost rest = lines.take(left as int);
        assert(rest.last() == points@[left - 1]@);
        assert(rest.drop_last() == lines.take(left - 1));
        left = left - 1;
        n = n - 1;
        let line = line_text(&points[left]);
        r.append(&line);
        assert(before + (line@ + kline_lines(lines.take(left as int), n as nat)) == r@ + kline_lines(
            lines.take(left as int),
            n as nat,
        ));
    }
    assert(kline_lines(lines.take(left as int), n as nat) == Seq::<char>::empty());
    assert(r@ + Seq::<char>::empty() == r@);
    r
}

fn task_text(kind: &str) -> (r: &'static str)
    ensures
        r@ == task_part(kind@),
{
    if same(kind, "trend") {
        "\n【分析任务】\n请进行趋势研判。结合价格形态、均线趋势（如有）、资金流向，判断短期和中期的走势。给出明确的看多、看空或震荡观点。"
    } else if same(kind, "timing") {
        "\n【分析任务】\n请提供择时信号。分析当前的买卖点，是否适合介入或离场？关注成交量变化和关键支撑压力位。"
    } else if same(kind, "turning") {
        "\n【分析任务】\n请检测拐点。分析是否有见底回升或见顶回落的迹象。关注背离现象和资金异动。"
    } else {
        "\n【分析任务】\n请进行综合技术分析。"
    }
}

/// Puts the prompt together. Numbers are put in as they stand: whoever calls has rounded them, prices
/// and flows to two places and volumes to none.
pub fn build_analysis_prompt(
    stock_info: &StockInfo,
    money_flow: Option<&MoneyFlow>,
    kline_data: &Vec<KLineDataPoint>,
    analysis_type: &str,
) -> (r: String)
    ensures
        r@ == analysis_prompt(
            stock_info@,
            flow_ref(money_flow),
            klines_view(kline_data@),
            analysis_type@,
        ),
{
    let mut r = info_text(stock_info);
    let flow = flow_text(money_flow);
    r.append(&flow);
    let lines = klines_text(kline_data);
    r.append(&lines);
    r.append(task_text(analysis_type));
    r
}

// ---------------------------------------------------------------------------------------------
// Calling a model
// ---------------------------------------------------------------------------------------------

/// What a model is told of its part before the prompt.
pub const SYSTEM_PROMPT: &'static str = "你是一个专业的A股金融分析师。请根据提供的数据进行分析。输出格式要求：先给出结论（看多/看空/震荡），然后给出详细理由。如果在结论中包含'看多'或'买入'，请在开头标记[BULLISH]；如果包含'看空'或'卖出'，标记[BEARISH]；否则标记[NEUTRAL]。";

/// A request to a model: where to post it, what to send as authorization, how many seconds to wait,
/// and its body.
pub struct LlmCall {
    pub url: String,
    pub authorization: Option<String>,
    pub timeout: u64,
    pub body: Json,
}

/// What a [`LlmCall`] stands for.
pub struct Call {
    pub url: Seq<char>,
    pub authorization: Option<Seq<char>>,
    pub timeout: u64,
    pub body: JsonView,
}

impl LlmCall {
    pub open spec fn view(&self) -> Call {
        Call {
            url: self.url@,
            authorization: match self.authorization {
                Some(s) => Some(s@),
                None => None,
            },
            timeout: self.timeout,
            body: self.body@,
        }
    }
}

/// A message to a model.
pub open spec fn message_view(role: Seq<char>, content: Seq<char>) -> JsonView {
    JsonView::object().with_str("role"@, role).with_str("content"@, content)
}

/// The body of a request to a model.
pub open spec fn body_view(model: Seq<char>, prompt: Seq<char>) -> JsonView {
    JsonView::object().with_str("model"@, model).with(
        "messages"@,
        JsonView::Arr(
            Seq::empty().push(message_view("system"@, SYSTEM_PROMPT@)).push(
                message_view("user"@, prompt),
            ),
        ),
    ).with("temperature"@, number_view("0.7"@))
}

/// What is sent as authorization: nothing where there is no key.
pub open spec fn authorization_of(key: Seq<char>) -> Option<Seq<char>> {
    if key.len() == 0 {
        None
    } else {
        Some("Bearer "@ + key)
    }
}

/// The address of a provider's chats: what is set, completed where it lacks the ending.
pub open spec fn chat_page(api_url: Seq<char>) -> Seq<char> {
    if "/chat/completions"@.is_suffix_of(api_url) {
        api_url
    } else if "/"@.is_suffix_of(api_url) {
        api_url + "chat/completions"@
    } else {
        api_url + "/chat/completions"@
    }
}

/// The request to a provider for its own model: at the address and with the patience that are set.
pub open spec fn own_call(p: Provider, prompt: Seq<char>) -> Call {
    Call {
        url: p.api_url,
        authorization: authorization_of(p.api_key),
        timeout: p.timeout_seconds,
        body: body_view(p.model, prompt),
    }
}

/// The request to a provider for one of its models: at the completed address, and with a minute of
/// patience where none is set.
pub open spec fn model_call(p: Provider, model: Seq<char>, prompt: Seq<char>) -> Call {
    Call {
        url: chat_page(p.api_url),
        authorization: authorization_of(p.api_key),
        timeout: if p.timeout_seconds > 0 {
            p.timeout_seconds
        } else {
            60
        },
        body: body_view(model, prompt),
    }
}

fn message_json(role: &str, content: &str) -> (j: Json)
    ensures
        j@ == message_view(role@, content@),
{
    Fields::new().with_str("role", role).with_str("content", content).object()
}

fn body_json(model: &str, prompt: &str) -> (j: Json)
    ensures
        j@ == body_view(model@, prompt@),
{
    broadcast use lemma_arr_view;

    let mut messages: Vec<Json> = Vec::new();
    messages.push(message_json("system", SYSTEM_PROMPT));
    messages.push(message_json("user", prompt));
    assert(items_view(messages@) == Seq::empty().push(message_view("system"@, SYSTEM_PROMPT@)).push(
        message_view("user"@, prompt@),
    ));
    Fields::new().with_str("model", model).with("messages", Json::Arr(messages)).with(
        "temperature",
        number("0.7"),
    ).object()
}

fn authorization(key: &str) -> (r: Option<String>)
    ensures
        match r {
            Some(s) => authorization_of(key@) == Some(s@),
            None => authorization_of(key@) is None,
        },
{
    if key.is_empty() {
        None
    } else {
        Some(joined("Bearer ", key))
    }
}

/// The address of a provider's chats.
pub fn chat_url(api_url: &str) -> (r: String)
    ensures
        r@ == chat_page(api_url@),
{
    if ends_with(api_url, "/chat/completions") {
        api_url.to_owned()
    } else if ends_with(api_url, "/") {
        joined(api_url, "chat/completions")
    } else {
        joined(api_url, "/chat/completions")
    }
}

/// The request to a provider for its own model.
pub fn call_llm_api(config: &AiConfig, prompt: &str) -> (r: LlmCall)
    ensures
        r@ == own_call(config@, prompt@),
{
    LlmCall {
        url: config.api_url.clone(),
        authorization: authorization(&config.api_key),
        timeout: config.timeout_seconds,
        body: body_json(&config.model, prompt),
    }
}

/// The request to a provider for one of its models.
pub fn call_llm_api_with_model(config: &AiConfig, prompt: &str, model_name: &str) -> (r: LlmCall)
    ensures
        r@ == model_call(config@, model_name@, prompt@),
{
    LlmCall {
        url: chat_url(&config.api_url),
        authorization: authorization(&config.api_key),
        timeout: if config.timeout_seconds > 0 {
            config.timeout_seconds
        } else {
            60
        },
        body: body_json(model_name, prompt),
    }
}

/// What came of a request to a model. What is said of a failure is given as text.
pub enum CallOutcome {
    /// No client could be set up for it.
    NoClient(String),
    /// It could not be sent.
    NotSent(String),
    /// The provider refused, with this status and text.
    Refused { status: String, text: String },
    /// The reply is not JSON.
    Unreadable(String),
    /// The reply.
    Answered(Json),
}

/// The text that a reply holds: the content of the message of the first choice.
pub open spec fn content_in(root: JsonView) -> Option<Seq<char>> {
    match array_at(root, "choices"@) {
        Some(choices) => if choices.len() > 0 {
            match choices[0].get("message"@) {
                Some(message) => str_at(message, "content"@),
                None => None,
            }
        } else {
            None
        },
        None => None,
    }
}

/// What a request to a provider for its own model gives: the text, or what went wrong.
pub open spec fn own_result(outcome: CallOutcome) -> Result<Seq<char>, Seq<char>> {
    match outcome {
        CallOutcome::NoClient(e) => Err("Failed to build client: "@ + e@),
        CallOutcome::NotSent(e) => Err("Request failed: "@ + e@),
        CallOutcome::Refused { status, text } => Err("API Error "@ + status@ + ": "@ + text@),
        CallOutcome::Unreadable(e) => Err("Parse response failed: "@ + e@),
        CallOutcome::Answered(root) => match content_in(root@) {
            Some(text) => Ok(text),
            None => Err("Invalid response format from LLM"@),
        },
    }
}

/// What a request to a provider for one of its models gives: the text, or what went wrong.
pub open spec fn model_result(model: Seq<char>, outcome: CallOutcome) -> Result<Seq<char>, Seq<char>> {
    match outcome {
        CallOutcome::NoClient(e) => Err("Failed to build client: "@ + e@),
        CallOutcome::NotSent(e) => Err("Request failed for model "@ + model + ": "@ + e@),
        CallOutcome::Refused { status, text } => Err(
            "API Error "@ + status@ + " for model "@ + model + ": "@ + text@,
        ),
        CallOutcome::Unreadable(e) => Err("Parse response failed for model "@ + model + ": "@ + e@),
        CallOutcome::Answered(root) => match content_in(root@) {
            Some(text) => Ok(text),
            None => Err("Invalid response format from LLM for model "@ + model),
        },
    }
}

/// What a result stands for.
pub open spec fn result_view(r: Result<String, String>) -> Result<Seq<char>, Seq<char>> {
    match r {
        Ok(s) => Ok(s@),
        Err(e) => Err(e@),
    }
}

/// Reads the text that a reply holds.
pub fn read_content(root: &Json) -> (r: Option<String>)
    ensures
        match r {
            Some(text) => content_in(root@) == Some(text@),
            None => content_in(root@) is None,
        },
{
    match root.array_at("choices") {
        Some(choices) => {
            if choices.len() == 0 {
                return None;
            }
            assert(items_view(choices@)[0] == choices@[0]@);
            match choices[0].get("message") {
                Some(message) => match message.str_at("content") {
                    Some(text) => Some(text.to_owned()),
                    None => None,
                },
                None => None,
            }
        },
        None => None,
    }
}

/// Reads what came of a request to a provider for its own model.
pub fn read_own_result(outcome: &CallOutcome) -> (r: Result<String, String>)
    ensures
        result_view(r) == own_result(*outcome),
{
    match outcome {
        CallOutcome::NoClient(e) => Err(joined("Failed to build client: ", e)),
        CallOutcome::NotSent(e) => Err(joined("Request failed: ", e)),
        CallOutcome::Refused { status, text } => {
            let mut msg = joined("API Error ", status);
            msg.append(": ");
            msg.append(text);
            Err(msg)
        },
        CallOutcome::Unreadable(e) => Err(joined("Parse response failed: ", e)),
        CallOutcome::Answered(root) => match read_content(root) {
            Some(text) => Ok(text),
            None => Err("Invalid response format from LLM".to_owned()),
        },
    }
}

/// Reads what came of a request to a provider for one of its models.
pub fn read_model_result(model: &str, outcome: &CallOutcome) -> (r: Result<String, String>)
    ensures
        result_view(r) == model_result(model@, *outcome),
{
    match outcome {
        CallOutcome::NoClient(e) => Err(joined("Failed to build client: ", e)),
        CallOutcome::NotSent(e) => {
            let mut msg = joined("Request failed for model ", model);
            msg.append(": ");
            msg.append(e);
            Err(msg)
        },
        CallOutcome::Refused { status, text } => {
            let mut msg = joined("API Error ", status);
            msg.append(" for model ");
            msg.append(model);
            msg.append(": ");
            msg.append(text);
            Err(msg)
        },
        CallOutcome::Unreadable(e) => {
            let mut msg = joined("Parse response failed for model ", model);
            msg.append(": ");
            msg.append(e);
            Err(msg)
        },
        CallOutcome::Answered(root) => match read_content(root) {
            Some(text) => Ok(text),
            None => Err(joined("Invalid response format from LLM for model ", model)),
        },
    }
}

// ---------------------------------------------------------------------------------------------
// Which models are asked
// ---------------------------------------------------------------------------------------------

/// The name in a piece of a list: without the white space around it, and none if that is all.
pub open spec fn name_in(piece: Seq<char>) -> Option<Seq<char>> {
    if trimmed(piece).len() == 0 {
        None
    } else {
        Some(trimmed(piece))
    }
}

/// The names in a list with commas between them.
pub open spec fn names_in(list: Seq<char>) -> Seq<Seq<char>> {
    split_on(list, ',').filter_map(|piece: Seq<char>| name_in(piece))
}

/// The models that a provider is asked for: the main ones, then those to fall back on; where neither
/// list names any, its own model, if it has one.
pub open spec fn models_of(p: Provider) -> Seq<Seq<char>> {
    let listed = names_in(p.main_models) + names_in(p.fallback_models);
    if listed.len() > 0 {
        listed
    } else if p.model.len() > 0 {
        Seq::empty().push(p.model)
    } else {
        Seq::empty()
    }
}

/// A model to be asked for, and its provider.
pub struct Attempt {
    config: AiConfig,
    model: String,
}

/// What an [`Attempt`] stands for.
pub struct Try {
    pub provider: Provider,
    pub model: Seq<char>,
}

impl Attempt {
    pub closed spec fn view(&self) -> Try {
        Try { provider: self.config@, model: self.model@ }
    }
}

/// The models of one provider, each with the provider.
pub open spec fn tries_with(p: Provider, models: Seq<Seq<char>>) -> Seq<Try> {
    models.map_values(|m: Seq<char>| Try { provider: p, model: m })
}

/// All models that are asked, in the order in which they are: those of the first provider, then
/// those of the next.
pub open spec fn tries_of(list: Seq<Provider>) -> Seq<Try>
    decreases list.len(),
{
    if list.len() == 0 {
        Seq::empty()
    } else {
        tries_of(list.drop_last()) + tries_with(list.last(), models_of(list.last()))
    }
}

spec fn attempts_view(list: Seq<Attempt>) -> Seq<Try> {
    list.map_values(|a: Attempt| a@)
}

fn read_names(list: &str) -> (r: Vec<String>)
    ensures
        texts(r@) == names_in(list@),
{
    let pieces = split(list, ',');
    let ghost views = split_on(list@, ',');
    let ghost f = |piece: Seq<char>| name_in(piece);
    assert(forall|k: int| 0 <= k < pieces@.len() ==> (#[trigger] pieces@[k])@ == texts(pieces@)[k]);
    let mut names: Vec<String> = Vec::new();
    let mut i: usize = 0;
    assert(views.take(0).filter_map(f) == texts(names@));
    while i < pieces.len()
        invariant
            i <= pieces@.len(),
            views == texts(pieces@),
            f == (|piece: Seq<char>| name_in(piece)),
            texts(names@) == views.take(i as int).filter_map(f),
        decreases pieces.len() - i,
    {
        proof {
            lemma_filter_map_step(views, f, i as int);
            assert(views[i as int] == pieces@[i as int]@);
        }
        let name = trim(&pieces[i]);
        if !name.as_str().is_empty() {
            let ghost before = names@;
            names.push(name);
            assert(texts(names@) == texts(before).push(name@));
        }
        i = i + 1;
    }
    assert(views.take(views.len() as int) == views);
    names
}

/// The models that a provider is asked for.
pub fn models(config: &AiConfig) -> (r: Vec<String>)
    ensures
        texts(r@) == models_of(config@),
{
    let mut all = read_names(&config.main_models);
    let mut fallback = read_names(&config.fallback_models);
    let ghost main = all@;
    let ghost rest = fallback@;
    all.append(&mut fallback);
    assert(texts(all@) == texts(main) + texts(rest));
    if all.len() == 0 && !config.model.as_str().is_empty() {
        all.push(config.model.clone());
        assert(texts(all@) == Seq::empty().push(config.model@));
    }
    assert(all@.len() == 0 ==> texts(all@) == Seq::<Seq<char>>::empty());
    all
}

fn attempts(configs: &Vec<AiConfig>) -> (r: Vec<Attempt>)
    ensures
        attempts_view(r@) == tries_of(providers(configs@)),
{
    let ghost all = providers(configs@);
    let mut r: Vec<Attempt> = Vec::new();
    let mut i: usize = 0;
    assert(attempts_view(r@) == tries_of(all.take(0)));
    while i < configs.len()
        invariant
            i <= configs@.len(),
            all == providers(configs@),
            attempts_view(r@) == tries_of(all.take(i as int)),
        decreases configs.len() - i,
    {
        let names = models(&configs[i]);
        let ghost before = attempts_view(r@);
        let ghost p = configs@[i as int]@;
        let mut k: usize = 0;
        assert(before + tries_with(p, texts(names@).take(0)) == before);
        while k < names.len()
            invariant
                i < configs@.len(),
                k <= names@.len(),
                p == configs@[i as int]@,
                attempts_view(r@) == before + tries_with(p, texts(names@).take(k as int)),
            decreases names.len() - k,
        {
            let ghost sofar = r@;
            let attempt = Attempt { config: configs[i].copy(), model: names[k].clone() };
            assert(texts(names@)[k as int] == names@[k as int]@);
            let ghost added = Try { provider: p, model: texts(names@)[k as int] };
            assert(attempt@ == added);
            r.push(attempt);
            assert(attempts_view(r@) == attempts_view(sofar).push(added));
            assert(tries_with(p, texts(names@).take(k + 1)) == tries_with(
                p,
                texts(names@).take(k as int),
            ).push(added));
            k = k + 1;
        }
        assert(texts(names@).take(names@.len() as int) == texts(names@));
        assert(all.take(i + 1).drop_last() == all.take(i as int));
        assert(all.take(i + 1).last() == p);
        i = i + 1;
    }
    assert(all.take(all.len() as int) == all);
    r
}

// ---------------------------------------------------------------------------------------------
// The sentiment of an answer
// ---------------------------------------------------------------------------------------------

/// A request for an analysis. An empty code stands for one that was not given.
#[derive(Debug, PartialEq, Eq)]
pub struct AiAnalysisRequest {
    pub code: String,
    pub analysis_type: String,
}

/// An analysis, and which way it points.
#[derive(Debug, PartialEq, Eq)]
pub struct AiAnalysisResponse {
    pub status: String,
    pub analysis: String,
    pub sentiment: String,
}

/// What an [`AiAnalysisResponse`] stands for.
pub struct Analysis {
    pub status: Seq<char>,
    pub analysis: Seq<char>,
    pub sentiment: Seq<char>,
}

impl AiAnalysisResponse {
    pub open spec fn view(&self) -> Analysis {
        Analysis { status: self.status@, analysis: self.analysis@, sentiment: self.sentiment@ }
    }
}

/// The analysis in an answer. The mark decides which way it points: bullish before bearish before
/// neutral, and neutral without one. The mark that decided is taken out wherever it stands, and then
/// the white space around the text.
pub open spec fn analysis_of(answer: Seq<char>) -> Analysis {
    if occurs(answer, "[BULLISH]"@) {
        Analysis {
            status: "success"@,
            analysis: trimmed(without(answer, "[BULLISH]"@)),
            sentiment: "bullish"@,
        }
    } else if occurs(answer, "[BEARISH]"@) {
        Analysis {
            status: "success"@,
            analysis: trimmed(without(answer, "[BEARISH]"@)),
            sentiment: "bearish"@,
        }
    } else if occurs(answer, "[NEUTRAL]"@) {
        Analysis {
            status: "success"@,
            analysis: trimmed(without(answer, "[NEUTRAL]"@)),
            sentiment: "neutral"@,
        }
    } else {
        Analysis { status: "success"@, analysis: trimmed(answer), sentiment: "neutral"@ }
    }
}

/// Reads the analysis in an answer.
pub fn read_analysis(answer: &str) -> (r: AiAnalysisResponse)
    ensures
        r@ == analysis_of(answer@),
{
    proof {
        reveal_strlit("[BULLISH]");
        reveal_strlit("[BEARISH]");
        reveal_strlit("[NEUTRAL]");
    }
    let mut analysis = answer.to_owned();
    let mut sentiment = "neutral";
    if contains(answer, "[BULLISH]") {
        sentiment = "bullish";
        analysis = remove_all(answer, "[BULLISH]");
    } else if contains(answer, "[BEARISH]") {
        sentiment = "bearish";
        analysis = remove_all(answer, "[BEARISH]");
    } else if contains(answer, "[NEUTRAL]") {
        analysis = remove_all(answer, "[NEUTRAL]");
    }
    AiAnalysisResponse {
        status: "success".to_owned(),
        analysis: trim(&analysis),
        sentiment: sentiment.to_owned(),
    }
}

/// What is answered to a request for an analysis that a model gave: the analysis, which way it
/// points, and the model's own words.
pub open spec fn analysis_view(answer: Seq<char>) -> JsonView {
    JsonView::object().with_str("status"@, analysis_of(answer).status).with(
        "data"@,
        JsonView::object().with_str("analysis"@, analysis_of(answer).analysis).with_str(
            "sentiment"@,
            analysis_of(answer).sentiment,
        ).with_str("raw_response"@, answer),
    )
}

fn analysis_reply(answer: &str) -> (j: Json)
    ensures
        j@ == analysis_view(answer@),
{
    let r = read_analysis(answer);
    let data = Fields::new().with_str("analysis", &r.analysis).with_str("sentiment", &r.sentiment).with_str(
        "raw_response",
        answer,
    ).object();
    Fields::new().with_str("status", &r.status).with("data", data).object()
}

// ---------------------------------------------------------------------------------------------
// A request for an analysis
// ---------------------------------------------------------------------------------------------

/// Reads a request for an analysis: of the trend, unless it says otherwise.
pub fn read_request(code: Option<&str>, kind: Option<&str>) -> (r: AiAnalysisRequest)
    ensures
        r.code@ == (match opt_text(code) {
            Some(c) => c,
            None => Seq::empty(),
        }),
        r.analysis_type@ == (match opt_text(kind) {
            Some(k) => k,
            None => "trend"@,
        }),
{
    AiAnalysisRequest {
        code: match code {
            Some(c) => c.to_owned(),
            None => String::new(),
        },
        analysis_type: match kind {
            Some(k) => k.to_owned(),
            None => "trend".to_owned(),
        },
    }
}

/// How many K-lines are fetched for an analysis.
pub const ANALYSIS_LINES: u64 = 10;

/// How a request for an analysis begins.
pub enum AnalysisStart {
    Reply(Json),
    /// Fetch what is known of the stock: its quote, its money flow and its K-lines by day.
    Fetch { code: String, quote: String, flow: String, klines: String },
}

/// What an [`AnalysisStart`] stands for.
pub enum AnalysisStartView {
    Reply(JsonView),
    Fetch { code: Seq<char>, quote: Seq<char>, flow: Seq<char>, klines: Seq<char> },
}

impl AnalysisStart {
    pub open spec fn view(&self) -> AnalysisStartView {
        match self {
            AnalysisStart::Reply(j) => AnalysisStartView::Reply(j@),
            AnalysisStart::Fetch { code, quote, flow, klines } => AnalysisStartView::Fetch {
                code: code@,
                quote: quote@,
                flow: flow@,
                klines: klines@,
            },
        }
    }
}

/// How a request for an analysis begins. Without a code, or without any provider, it fails.
pub open spec fn analysis_start(code: Seq<char>, providers: Seq<Provider>) -> AnalysisStartView {
    if code.len() == 0 {
        AnalysisStartView::Reply(error_view("no code"@))
    } else if providers.len() == 0 {
        AnalysisStartView::Reply(error_view("No AI config found"@))
    } else {
        let full = stock_code(code);
        AnalysisStartView::Fetch {
            code: full,
            quote: quote_page(full),
            flow: moment_page(full),
            klines: kline_page(full, "101"@, ANALYSIS_LINES),
        }
    }
}

/// Begins a request for an analysis.
pub fn start_analysis(request: &AiAnalysisRequest, configs: &Vec<AiConfig>) -> (r: AnalysisStart)
    ensures
        r@ == analysis_start(request.code@, providers(configs@)),
{
    if request.code.as_str().is_empty() {
        return AnalysisStart::Reply(error_reply("no code"));
    }
    if configs.len() == 0 {
        return AnalysisStart::Reply(error_reply("No AI config found"));
    }
    let code = normalize_stock_code(&request.code);
    let quote = quote_url(&code);
    let flow = moment_url(&code);
    let klines = kline_url(&code, "101", ANALYSIS_LINES);
    AnalysisStart::Fetch { code, quote, flow, klines }
}

/// The search for a model that answers a prompt.
pub struct AnalysisRun {
    prompt: String,
    attempts: Vec<Attempt>,
    done: usize,
    last_error: String,
    answer: Option<String>,
}

/// What an [`AnalysisRun`] stands for: the prompt, the models in the order in which they are asked,
/// how many of them failed, what the last one of these failed by, and the answer, if one was given.
pub struct Run {
    pub prompt: Seq<char>,
    pub tries: Seq<Try>,
    pub done: int,
    pub last_error: Seq<char>,
    pub answer: Option<Seq<char>>,
}

/// What is to be done next.
pub enum AnalysisStep {
    /// Ask a model. The names of its provider and its own are for the log.
    Call { provider: String, model: String, call: LlmCall },
    /// Answer the request.
    Reply(Json),
}

/// What an [`AnalysisStep`] stands for.
pub enum Step {
    Call { provider: Seq<char>, model: Seq<char>, call: Call },
    Reply(JsonView),
}

impl AnalysisStep {
    pub open spec fn view(&self) -> Step {
        match self {
            AnalysisStep::Call { provider, model, call } => Step::Call {
                provider: provider@,
                model: model@,
                call: call@,
            },
            AnalysisStep::Reply(j) => Step::Reply(j@),
        }
    }
}

/// How the failure of a model is told.
pub open spec fn failure(t: Try, error: Seq<char>) -> Seq<char> {
    "Provider ["@ + t.provider.name + "] Model ["@ + t.model + "]: "@ + error
}

impl Run {
    /// The search that has not begun.
    pub open spec fn new(prompt: Seq<char>, providers: Seq<Provider>) -> Run {
        Run { prompt, tries: tries_of(providers), done: 0, last_error: Seq::empty(), answer: None }
    }

    /// Whether the search is one that can come about.
    pub open spec fn valid(self) -> bool {
        0 <= self.done <= self.tries.len()
    }

    /// What is to be done next. An answer ends the search. Without one the next model is asked, and
    /// once all have failed, or if there are none, the request fails.
    pub open spec fn step(self) -> Step {
        match self.answer {
            Some(answer) => Step::Reply(analysis_view(answer)),
            None => if self.done < self.tries.len() {
                let t = self.tries[self.done];
                Step::Call {
                    provider: t.provider.name,
                    model: t.model,
                    call: model_call(t.provider, t.model, self.prompt),
                }
            } else if self.tries.len() == 0 {
                Step::Reply(error_view("No valid models found in any configuration"@))
            } else {
                Step::Reply(
                    error_view(
                        "All AI providers and models failed. Last error: "@ + self.last_error,
                    ),
                )
            },
        }
    }

    /// The search after what came of the model that was asked.
    pub open spec fn reported(self, result: Result<Seq<char>, Seq<char>>) -> Run {
        match result {
            Ok(answer) => Run { answer: Some(answer), ..self },
            Err(error) => Run {
                done: self.done + 1,
                last_error: failure(self.tries[self.done], error),
                ..self
            },
        }
    }

    /// The search after the models that were asked first failed.
    pub open spec fn all_failed(self, errors: Seq<Seq<char>>) -> Run
        decreases errors.len(),
    {
        if errors.len() == 0 {
            self
        } else {
            self.all_failed(errors.drop_last()).reported(Err(errors.last()))
        }
    }
}

/// The K-lines that were fetched; none where they could not be.
pub open spec fn fetched_lines(klines: Option<Vec<KLineDataPoint>>) -> Seq<KLine> {
    match klines {
        Some(points) => klines_view(points@),
        None => Seq::empty(),
    }
}

/// Begins the search for a model, with what was fetched of the stock. Without its quote the request
/// fails; the flow and the K-lines can be missing.
pub fn begin_run(
    info: Option<StockInfo>,
    flow: Option<MoneyFlow>,
    klines: Option<Vec<KLineDataPoint>>,
    kind: &str,
    configs: &Vec<AiConfig>,
) -> (r: Result<AnalysisRun, Json>)
    ensures
        match r {
            Ok(run) => {
                &&& info is Some
                &&& run@ == Run::new(
                    analysis_prompt(
                        info->Some_0@,
                        match flow {
                            Some(f) => Some(f@),
                            None => None,
                        },
                        fetched_lines(klines),
                        kind@,
                    ),
                    providers(configs@),
                )
            },
            Err(j) => info is None && j@ == error_view("Failed to fetch stock info"@),
        },
{
    match info {
        Some(info) => {
            let points = match klines {
                Some(points) => points,
                None => {
                    let none: Vec<KLineDataPoint> = Vec::new();
                    assert(klines_view(none@) == Seq::<KLine>::empty());
                    none
                },
            };
            let prompt = build_analysis_prompt(&info, flow.as_ref(), &points, kind);
            let attempts = attempts(configs);
            Ok(AnalysisRun { prompt, attempts, done: 0, last_error: String::new(), answer: None })
        },
        None => Err(error_reply("Failed to fetch stock info")),
    }
}

impl AnalysisRun {
    pub closed spec fn view(&self) -> Run {
        Run {
            prompt: self.prompt@,
            tries: attempts_view(self.attempts@),
            done: self.done as int,
            last_error: self.last_error@,
            answer: match self.answer {
                Some(s) => Some(s@),
                None => None,
            },
        }
    }

    #[verifier::type_invariant]
    spec fn within(&self) -> bool {
        self@.valid()
    }

    /// What is to be done next.
    pub fn next(&self) -> (r: AnalysisStep)
        ensures
            r@ == self@.step(),
    {
        proof {
            use_type_invariant(self);
        }
        match &self.answer {
            Some(answer) => AnalysisStep::Reply(analysis_reply(answer)),
            None => if self.done < self.attempts.len() {
                let attempt = &self.attempts[self.done];
                assert(self@.tries[self@.done] == attempt@);
                AnalysisStep::Call {
                    provider: attempt.config.name.clone(),
                    model: attempt.model.clone(),
                    call: call_llm_api_with_model(&attempt.config, &self.prompt, &attempt.model),
                }
            } else if self.attempts.len() == 0 {
                AnalysisStep::Reply(error_reply("No valid models found in any configuration"))
            } else {
                let msg = joined(
                    "All AI providers and models failed. Last error: ",
                    &self.last_error,
                );
                AnalysisStep::Reply(error_reply(&msg))
            },
        }
    }

    /// Takes what came of the model that was asked.
    pub fn report(&mut self, outcome: CallOutcome)
        requires
            old(self)@.step() is Call,
        ensures
            final(self)@ == old(self)@.reported(
                model_result(old(self)@.tries[old(self)@.done].model, outcome),
            ),
    {
        proof {
            use_type_invariant(&*self);
        }
        let at = self.done;
        assert(at < self.attempts.len());
        assert(self@.tries[at as int] == self.attempts@[at as int]@);
        match read_model_result(&self.attempts[at].model, &outcome) {
            Ok(text) => {
                self.answer = Some(text);
            },
            Err(e) => {
                let mut msg = joined("Provider [", &self.attempts[at].config.name);
                msg.append("] Model [");
                msg.append(&self.attempts[at].model);
                msg.append("]: ");
                msg.append(&e);
                self.last_error = msg;
                self.done = at + 1;
            },
        }
    }
}

// ---------------------------------------------------------------------------------------------
// Laws
// ---------------------------------------------------------------------------------------------

/// The search for a model ends: each model that is asked gives the answer or is not asked again.
pub proof fn law_run_ends(run: Run, result: Result<Seq<char>, Seq<char>>)
    requires
        run.valid(),
        run.step() is Call,
    ensures
        run.reported(result).valid(),
        result is Ok ==> run.reported(result).step() is Reply,
        result is Err ==> run.reported(result).tries.len() - run.reported(result).done
            == run.tries.len() - run.done - 1,
{
}

proof fn lemma_all_failed(run: Run, errors: Seq<Seq<char>>)
    requires
        run.valid(),
        run.answer is None,
        run.done + errors.len() <= run.tries.len(),
    ensures
        ({
            let after = run.all_failed(errors);
            &&& after.prompt == run.prompt
            &&& after.tries == run.tries
            &&& after.done == run.done + errors.len()
            &&& after.answer is None
            &&& errors.len() > 0 ==> after.last_error == failure(
                run.tries[after.done - 1],
                errors.last(),
            )
        }),
    decreases errors.len(),
{
    if errors.len() > 0 {
        lemma_all_failed(run, errors.drop_last());
    }
}

/// The models are asked in their order, each with the same prompt, and the first answer is the one
/// that is given: after it no other model is asked.
pub proof fn law_first_answer_is_given(
    prompt: Seq<char>,
    providers: Seq<Provider>,
    errors: Seq<Seq<char>>,
    answer: Seq<char>,
)
    requires
        errors.len() < tries_of(providers).len(),
    ensures
        ({
            let run = Run::new(prompt, providers).all_failed(errors);
            let t = tries_of(providers)[errors.len() as int];
            &&& run.step() == (Step::Call {
                provider: t.provider.name,
                model: t.model,
                call: model_call(t.provider, t.model, prompt),
            })
            &&& run.reported(Ok(answer)).step() == Step::Reply(analysis_view(answer))
        }),
{
    lemma_all_failed(Run::new(prompt, providers), errors);
}

/// A request whose models all fail is refused, and told how the last one failed; one without any
/// model is refused without asking.
pub proof fn law_failure_is_told(
    prompt: Seq<char>,
    providers: Seq<Provider>,
    errors: Seq<Seq<char>>,
)
    requires
        errors.len() == tries_of(providers).len(),
    ensures
        Run::new(prompt, providers).all_failed(errors).step() == Step::Reply(
            error_view(
                if errors.len() == 0 {
                    "No valid models found in any configuration"@
                } else {
                    "All AI providers and models failed. Last error: "@ + failure(
                        tries_of(providers).last(),
                        errors.last(),
                    )
                },
            ),
        ),
{
    lemma_all_failed(Run::new(prompt, providers), errors);
}

/// The main models are asked before those to fall back on, and a provider's own model only where
/// neither list names any.
pub proof fn law_main_models_first(p: Provider)
    ensures
        names_in(p.main_models).is_prefix_of(models_of(p)),
        names_in(p.fallback_models).is_suffix_of(models_of(p)),
        names_in(p.main_models).len() + names_in(p.fallback_models).len() > 0 ==> models_of(p).len()
            == names_in(p.main_models).len() + names_in(p.fallback_models).len(),
        names_in(p.main_models).len() + names_in(p.fallback_models).len() == 0 && p.model.len() > 0
            ==> models_of(p) == Seq::empty().push(p.model),
{
    let main = names_in(p.main_models);
    let fallback = names_in(p.fallback_models);
    assert(main =~= (main + fallback).subrange(0, main.len() as int));
    assert(fallback =~= (main + fallback).subrange(
        main.len() as int,
        (main + fallback).len() as int,
    ));
    assert(main.len() == 0 ==> main =~= models_of(p).subrange(0, 0));
    assert(fallback.len() == 0 ==> fallback =~= models_of(p).subrange(
        models_of(p).len() as int,
        models_of(p).len() as int,
    ));
}

proof fn lemma_names(pieces: Seq<Seq<char>>, i: int)
    requires
        0 <= i < pieces.filter_map(|piece: Seq<char>| name_in(piece)).len(),
    ensures
        ({
            let name = pieces.filter_map(|piece: Seq<char>| name_in(piece))[i];
            exists|k: int| 0 <= k < pieces.len() && #[trigger] name_in(pieces[k]) == Some(name)
        }),
    decreases pieces.len(),
{
    let f = |piece: Seq<char>| name_in(piece);
    let names = pieces.filter_map(f);
    if pieces.len() == 0 {
        assert(names =~= Seq::empty());
    } else {
        let n = pieces.len() - 1;
        lemma_filter_map_step(pieces, f, n);
        assert(pieces.take(pieces.len() as int) == pieces);
        let before = pieces.take(n).filter_map(f);
        if i < before.len() {
            lemma_names(pieces.take(n), i);
            let k = choose|k: int|
                0 <= k < n && #[trigger] name_in(pieces.take(n)[k]) == Some(before[i]);
            assert(pieces.take(n)[k] == pieces[k]);
            assert(name_in(pieces[k]) == Some(names[i]));
        } else {
            assert(name_in(pieces[n]) == Some(names[i]));
        }
    }
}

/// No model has an empty name, or one with white space around it.
pub proof fn law_names_are_clean(list: Seq<char>, i: int)
    requires
        0 <= i < names_in(list).len(),
    ensures
        names_in(list)[i].len() > 0,
        !white_space(names_in(list)[i][0]),
        !white_space(names_in(list)[i].last()),
{
    lemma_names(split_on(list, ','), i);
    let k = choose|k: int|
        0 <= k < split_on(list, ',').len() && #[trigger] name_in(split_on(list, ',')[k]) == Some(
            names_in(list)[i],
        );
    lemma_trimmed_ends(split_on(list, ',')[k]);
}

/// Every request goes to an address with the ending that chats have, and an address that has it is
/// left as it is.
pub proof fn law_chat_page(api_url: Seq<char>)
    ensures
        "/chat/completions"@.is_suffix_of(chat_page(api_url)),
        chat_page(chat_page(api_url)) == chat_page(api_url),
{
    reveal_strlit("/chat/completions");
    reveal_strlit("chat/completions");
    reveal_strlit("/");
    let page = chat_page(api_url);
    let ending = "/chat/completions"@;
    let n = api_url.len() as int;
    if !ending.is_suffix_of(api_url) {
        if "/"@.is_suffix_of(api_url) {
            assert(api_url.subrange(n - 1, n)[0] == '/');
            assert("/"@ + "chat/completions"@ =~= ending);
            assert(page.subrange(n - 1, page.len() as int) =~= "/"@ + "chat/completions"@);
        } else {
            assert(page.subrange(n, page.len() as int) =~= ending);
        }
        assert(ending.is_suffix_of(page));
    }
}

/// Only the last five K-lines stand in the prompt, however many there are.
pub proof fn law_prompt_takes_the_last_five(earlier: Seq<KLine>, last: Seq<KLine>)
    requires
        last.len() >= 5,
    ensures
        kline_part(earlier + last) == kline_part(last),
{
    lemma_last_lines(earlier, last, 5);
}

proof fn lemma_last_lines(earlier: Seq<KLine>, last: Seq<KLine>, n: nat)
    requires
        last.len() >= n,
    ensures
        kline_lines(earlier + last, n) == kline_lines(last, n),
    decreases n,
{
    if n > 0 {
        assert((earlier + last).drop_last() == earlier + last.drop_last());
        lemma_last_lines(earlier, last.drop_last(), (n - 1) as nat);
    }
}

proof fn lemma_without_mark(rest: Seq<char>, p: Seq<char>)
    requires
        p.len() > 0,
        !occurs(rest, p),
    ensures
        occurs(p + rest, p),
        without(p + rest, p) == rest,
{
    let s = p + rest;
    assert(s.subrange(0, p.len() as int) =~= p);
    assert(stands_at(s, p, 0));
    assert(s.skip(p.len() as int) =~= rest);
    law_without(Seq::empty(), p, rest);
}

/// An answer that begins with a mark, as the models are told to begin it, points the way that the
/// mark says, and the analysis is what follows it.
pub proof fn law_marked_answer(rest: Seq<char>)
    ensures
        !occurs(rest, "[BULLISH]"@) ==> analysis_of("[BULLISH]"@ + rest) == (Analysis {
            status: "success"@,
            analysis: trimmed(rest),
            sentiment: "bullish"@,
        }),
        !occurs("[BEARISH]"@ + rest, "[BULLISH]"@) && !occurs(rest, "[BEARISH]"@) ==> analysis_of(
            "[BEARISH]"@ + rest,
        ) == (Analysis {
            status: "success"@,
            analysis: trimmed(rest),
            sentiment: "bearish"@,
        }),
        !occurs("[NEUTRAL]"@ + rest, "[BULLISH]"@) && !occurs("[NEUTRAL]"@ + rest, "[BEARISH]"@)
            && !occurs(rest, "[NEUTRAL]"@) ==> analysis_of("[NEUTRAL]"@ + rest) == (Analysis {
            status: "success"@,
            analysis: trimmed(rest),
            sentiment: "neutral"@,
        }),
{
    reveal_strlit("[BULLISH]");
    reveal_strlit("[BEARISH]");
    reveal_strlit("[NEUTRAL]");
    if !occurs(rest, "[BULLISH]"@) {
        lemma_without_mark(rest, "[BULLISH]"@);
    }
    if !occurs(rest, "[BEARISH]"@) {
        lemma_without_mark(rest, "[BEARISH]"@);
    }
    if !occurs(rest, "[NEUTRAL]"@) {
        lemma_without_mark(rest, "[NEUTRAL]"@);
    }
}

/// The text of an answer is the content of the message of the first choice.
pub proof fn law_content_is_read(
    root: JsonView,
    first: JsonView,
    rest: Seq<JsonView>,
    message: JsonView,
    text: Seq<char>,
)
    requires
        root.get("choices"@) == Some(JsonView::Arr(Seq::empty().push(first) + rest)),
        first.get("message"@) == Some(message),
        message.get("content"@) == Some(JsonView::Str(text)),
    ensures
        content_in(root) == Some(text),
{
}

/// The analysis that ends a run is answered as data, with the way that it points under `sentiment`: it
/// is bullish wherever the answer holds the mark `[BULLISH]`, bearish where it holds `[BEARISH]` and
/// not that, and neutral where it holds neither. Under `analysis` stands the answer without the mark
/// that decided and without the white space around it, and under `raw_response` the answer itself.
pub proof fn law_analysis_is_answered(run: Run, answer: Seq<char>)
    requires
        run.step() is Call,
    ensures
        ({
            &&& run.reported(Ok(answer)).step() matches Step::Reply(reply)
            &&& reply.get("status"@) == Some(JsonView::Str("success"@))
            &&& reply.get("data"@) matches Some(data)
            &&& data.get("raw_response"@) == Some(JsonView::Str(answer))
            &&& occurs(answer, "[BULLISH]"@) ==> {
                &&& data.get("sentiment"@) == Some(JsonView::Str("bullish"@))
                &&& data.get("analysis"@) == Some(
                    JsonView::Str(trimmed(without(answer, "[BULLISH]"@))),
                )
            }
            &&& !occurs(answer, "[BULLISH]"@) && occurs(answer, "[BEARISH]"@) ==> {
                &&& data.get("sentiment"@) == Some(JsonView::Str("bearish"@))
                &&& data.get("analysis"@) == Some(
                    JsonView::Str(trimmed(without(answer, "[BEARISH]"@))),
                )
            }
            &&& !occurs(answer, "[BULLISH]"@) && !occurs(answer, "[BEARISH]"@) ==> {
                &&& data.get("sentiment"@) == Some(JsonView::Str("neutral"@))
                &&& data.get("analysis"@) == Some(
                    JsonView::Str(
                        trimmed(
                            if occurs(answer, "[NEUTRAL]"@) {
                                without(answer, "[NEUTRAL]"@)
                            } else {
                                answer
                            },
                        ),
                    ),
                )
            }
        }),
{
    broadcast use law_field_is_found, law_empty_object;

    reveal_strlit("status");
    reveal_strlit("data");
    reveal_strlit("analysis");
    reveal_strlit("sentiment");
    reveal_strlit("raw_response");
    assert("status"@.len() == 6);
    assert("data"@.len() == 4);
    assert("analysis"@.len() == 8);
    assert("sentiment"@.len() == 9);
    assert("raw_response"@.len() == 12);
}

proof fn lemma_marks_apart(mark: Seq<char>, other: Seq<char>, rest: Seq<char>, k: int)
    requires
        !occurs(rest, other),
        0 <= k < mark.len(),
        k < other.len(),
        mark[k] != other[k],
        other[0] == '[',
        forall|i: int| 1 <= i < mark.len() ==> #[trigger] mark[i] != '[',
    ensures
        !occurs(mark + rest, other),
{
    let s = mark + rest;
    assert forall|i: int| !stands_at(s, other, i) by {
        if stands_at(s, other, i) {
            let part = s.subrange(i, i + other.len());
            assert(part[0] == s[i] && part[k] == s[i + k]);
            if i >= mark.len() {
                let n = i - mark.len();
                assert(rest.subrange(n, n + other.len()) =~= part);
                assert(stands_at(rest, other, n));
            } else if i > 0 {
                assert(s[i] == mark[i]);
            } else {
                assert(s[k] == mark[k]);
            }
        }
    }
}

/// A marked answer, from the reply of the model to the reply that is handed out: an answer that begins
/// with `[BEARISH]` is told to be bearish, with what follows the mark as its analysis, and so with the
/// other two marks.
pub proof fn law_marked_answer_is_answered(
    run: Run,
    root: Json,
    first: JsonView,
    more: Seq<JsonView>,
    message: JsonView,
    rest: Seq<char>,
)
    requires
        run.valid(),
        run.step() is Call,
        root@.get("choices"@) == Some(JsonView::Arr(Seq::empty().push(first) + more)),
        first.get("message"@) == Some(message),
        !occurs(rest, "[BULLISH]"@),
        !occurs(rest, "[BEARISH]"@),
        !occurs(rest, "[NEUTRAL]"@),
    ensures
        ({
            let result = model_result(run.tries[run.done].model, CallOutcome::Answered(root));
            &&& message.get("content"@) == Some(JsonView::Str("[BULLISH]"@ + rest)) ==> {
                &&& run.reported(result).step() matches Step::Reply(reply)
                &&& reply.get("data"@) matches Some(data)
                &&& data.get("sentiment"@) == Some(JsonView::Str("bullish"@))
                &&& data.get("analysis"@) == Some(JsonView::Str(trimmed(rest)))
            }
            &&& message.get("content"@) == Some(JsonView::Str("[BEARISH]"@ + rest)) ==> {
                &&& run.reported(result).step() matches Step::Reply(reply)
                &&& reply.get("data"@) matches Some(data)
                &&& data.get("sentiment"@) == Some(JsonView::Str("bearish"@))
                &&& data.get("analysis"@) == Some(JsonView::Str(trimmed(rest)))
            }
            &&& message.get("content"@) == Some(JsonView::Str("[NEUTRAL]"@ + rest)) ==> {
                &&& run.reported(result).step() matches Step::Reply(reply)
                &&& reply.get("data"@) matches Some(data)
                &&& data.get("sentiment"@) == Some(JsonView::Str("neutral"@))
                &&& data.get("analysis"@) == Some(JsonView::Str(trimmed(rest)))
            }
        }),
{
    reveal_strlit("[BULLISH]");
    reveal_strlit("[BEARISH]");
    reveal_strlit("[NEUTRAL]");
    lemma_without_mark(rest, "[BULLISH]"@);
    lemma_without_mark(rest, "[BEARISH]"@);
    lemma_without_mark(rest, "[NEUTRAL]"@);
    assert("[BULLISH]"@[0] == '[' && "[BULLISH]"@[1] == 'B' && "[BULLISH]"@[2] == 'U');
    assert("[BEARISH]"@[0] == '[' && "[BEARISH]"@[1] == 'B' && "[BEARISH]"@[2] == 'E');
    assert("[NEUTRAL]"@[1] == 'N');
    lemma_marks_apart("[BEARISH]"@, "[BULLISH]"@, rest, 2);
    lemma_marks_apart("[NEUTRAL]"@, "[BULLISH]"@, rest, 1);
    lemma_marks_apart("[NEUTRAL]"@, "[BEARISH]"@, rest, 1);
    if let Some(JsonView::Str(text)) = message.get("content"@) {
        law_content_is_read(root@, first, more, message, text);
        law_analysis_is_answered(run, text);
    }
}

/// A request to a model goes to the provider's address for chats, carries its key where it has one,
/// waits as long as it says, or a minute where it does not, and names the model. It tells the model
/// its part first, and then asks with the prompt.
pub proof fn law_model_is_asked(p: Provider, model: Seq<char>, prompt: Seq<char>, base: Seq<char>)
    ensures
        ({
            let call = model_call(p, model, prompt);
            &&& p.api_url == base + "/chat/completions"@ ==> call.url == p.api_url
            &&& p.api_url == base + "/"@ ==> call.url == base + "/chat/completions"@
            &&& !"/chat/completions"@.is_suffix_of(p.api_url) && (p.api_url.len() == 0
                || p.api_url.last() != '/') ==> call.url == p.api_url + "/chat/completions"@
            &&& p.api_key.len() == 0 ==> call.authorization is None
            &&& p.api_key.len() > 0 ==> call.authorization == Some("Bearer "@ + p.api_key)
            &&& p.timeout_seconds > 0 ==> call.timeout == p.timeout_seconds
            &&& p.timeout_seconds == 0 ==> call.timeout == 60
            &&& call.body.get("model"@) == Some(JsonView::Str(model))
            &&& call.body.get("temperature"@) == Some(JsonView::Num(NumView::Decimal("0.7"@)))
            &&& array_at(call.body, "messages"@) matches Some(messages) && messages.len() == 2 && {
                &&& messages[0].get("role"@) == Some(JsonView::Str("system"@))
                &&& messages[0].get("content"@) == Some(JsonView::Str(SYSTEM_PROMPT@))
                &&& messages[1].get("role"@) == Some(JsonView::Str("user"@))
                &&& messages[1].get("content"@) == Some(JsonView::Str(prompt))
            }
        }),
{
    broadcast use law_field_is_found, law_empty_object;

    reveal_strlit("model");
    reveal_strlit("messages");
    reveal_strlit("temperature");
    reveal_strlit("role");
    reveal_strlit("content");
    assert("model"@.len() == 5);
    assert("messages"@.len() == 8);
    assert("temperature"@.len() == 11);
    assert("role"@.len() == 4);
    assert("content"@.len() == 7);
    reveal_strlit("/chat/completions");
    reveal_strlit("chat/completions");
    reveal_strlit("/");
    let ending = "/chat/completions"@;
    let n = base.len() as int;
    let whole = base + ending;
    assert(whole.subrange(n, whole.len() as int) =~= ending);
    let slashed = base + "/"@;
    assert(slashed.last() == '/');
    assert(!ending.is_suffix_of(slashed)) by {
        if ending.is_suffix_of(slashed) {
            assert(slashed.subrange(slashed.len() - 17, slashed.len() as int)[16] == '/');
            assert(ending[16] == 's');
        }
    }
    assert(slashed.subrange(n, n + 1) =~= "/"@);
    assert(slashed + "chat/completions"@ =~= base + ending);
    if p.api_url.len() == 0 || p.api_url.last() != '/' {
        if "/"@.is_suffix_of(p.api_url) {
            let m = p.api_url.len() as int;
            assert(p.api_url.subrange(m - 1, m)[0] == "/"@[0]);
        }
    }
}

/// A model that fails is told by its name with what went wrong, and its provider's name is told too
/// where it was the last.
pub proof fn law_failure_names_the_model(
    t: Try,
    e: String,
    status: String,
    text: String,
    error: Seq<char>,
)
    ensures
        model_result(t.model, CallOutcome::NoClient(e)) == Err::<Seq<char>, Seq<char>>(
            "Failed to build client: "@ + e@,
        ),
        model_result(t.model, CallOutcome::NotSent(e)) == Err::<Seq<char>, Seq<char>>(
            "Request failed for model "@ + t.model + ": "@ + e@,
        ),
        model_result(t.model, CallOutcome::Refused { status, text }) == Err::<Seq<char>, Seq<char>>(
            "API Error "@ + status@ + " for model "@ + t.model + ": "@ + text@,
        ),
        model_result(t.model, CallOutcome::Unreadable(e)) == Err::<Seq<char>, Seq<char>>(
            "Parse response failed for model "@ + t.model + ": "@ + e@,
        ),
        occurs(failure(t, error), "["@ + t.provider.name + "]"@),
        occurs(failure(t, error), "["@ + t.model + "]"@),
        error.is_suffix_of(failure(t, error)),
{
    reveal_strlit("Provider [");
    reveal_strlit("] Model [");
    reveal_strlit("]: ");
    reveal_strlit("[");
    reveal_strlit("]");
    reveal_strlit("Provider ");
    reveal_strlit(" Model [");
    reveal_strlit("] Model ");
    reveal_strlit(": ");
    let name = t.provider.name;
    let told = failure(t, error);
    let first = "["@ + name + "]"@;
    let behind = " Model ["@ + t.model + "]: "@ + error;
    assert("Provider ["@ =~= "Provider "@ + "["@);
    assert("] Model ["@ =~= "]"@ + " Model ["@);
    assert(told =~= "Provider "@ + first + behind);
    law_occurs("Provider "@, first, behind);
    let second = "["@ + t.model + "]"@;
    assert("] Model ["@ =~= "] Model "@ + "["@);
    assert("]: "@ =~= "]"@ + ": "@);
    let front = "Provider ["@ + name + "] Model "@;
    assert(told =~= front + second + (": "@ + error));
    law_occurs(front, second, ": "@ + error);
    assert(told.subrange(told.len() - error.len(), told.len() as int) =~= error);
}

/// A request to a provider for its own model goes to the address that is set and waits as long as is
/// set; a failure of it is told without a name.
pub proof fn law_own_model_is_asked(p: Provider, prompt: Seq<char>, e: String)
    ensures
        own_call(p, prompt).url == p.api_url,
        own_call(p, prompt).timeout == p.timeout_seconds,
        own_call(p, prompt).authorization == model_call(p, p.model, prompt).authorization,
        own_call(p, prompt).body == model_call(p, p.model, prompt).body,
        own_result(CallOutcome::NotSent(e)) == Err::<Seq<char>, Seq<char>>("Request failed: "@ + e@),
        own_result(CallOutcome::Unreadable(e)) == Err::<Seq<char>, Seq<char>>(
            "Parse response failed: "@ + e@,
        ),
{
}

/// The names in a list are its parts between the commas, without the white space around them, in order
/// and without the empty ones.
pub proof fn law_names_are_the_parts(list: Seq<char>, part: Seq<char>)
    requires
        !part.contains(','),
    ensures
        trimmed(part).len() == 0 ==> names_in(list + seq![','] + part) == names_in(list) && names_in(
            part,
        ).len() == 0,
        trimmed(part).len() > 0 ==> names_in(list + seq![','] + part) == names_in(list).push(
            trimmed(part),
        ) && names_in(part) == Seq::empty().push(trimmed(part)),
{
    let f = |piece: Seq<char>| name_in(piece);
    law_split_takes_parts(list, part, ',');
    let pieces = split_on(list, ',');
    assert(pieces.push(part).drop_last() =~= pieces);
    let one = Seq::empty().push(part);
    assert(one.drop_last() =~= Seq::<Seq<char>>::empty());
    assert(Seq::<Seq<char>>::empty().filter_map(f) =~= Seq::empty());
    assert(one.filter_map(f) =~= (if trimmed(part).len() == 0 {
        Seq::empty()
    } else {
        Seq::empty().push(trimmed(part))
    }));
    assert(pieces.push(part).filter_map(f) =~= (if trimmed(part).len() == 0 {
        pieces.filter_map(f)
    } else {
        pieces.filter_map(f).push(trimmed(part))
    }));
}

/// One provider more is asked after all the others, for each of its models in turn.
pub proof fn law_providers_are_asked_in_order(list: Seq<Provider>, p: Provider, i: int)
    requires
        0 <= i < models_of(p).len(),
    ensures
        tries_of(Seq::empty()).len() == 0,
        tries_of(list.push(p)).len() == tries_of(list).len() + models_of(p).len(),
        tries_of(list).is_prefix_of(tries_of(list.push(p))),
        tries_of(list.push(p))[tries_of(list).len() + i] == (Try {
            provider: p,
            model: models_of(p)[i],
        }),
{
    assert(list.push(p).drop_last() =~= list);
    let all = tries_of(list.push(p));
    assert(all.subrange(0, tries_of(list).len() as int) =~= tries_of(list));
}

/// The prompt begins with the stock and its prices, tells the flow of money, or that there is none, then
/// the K-lines, and ends with the task, by the kind of analysis.
pub proof fn law_prompt_tells(info: Info, f: Flow, lines: Seq<KLine>, kind: Seq<char>)
    ensures
        ({
            let prices = "请分析股票 "@ + info.name + "("@ + info.symbol
                + ") 的走势。\n\n【基础数据】\n当前价格: "@ + info.price + ", 涨跌幅: "@ + info.change_percent
                + "%, 今开: "@ + info.open + ", 最高: "@ + info.high + ", 最低: "@ + info.low + ", 昨收: "@
                + info.pre_close + "\n"@;
            let flow = "\n【资金流向】\n主力净流入: "@ + f.main_net + "元, 超大单: "@ + f.super_large + "元, 大单: "@
                + f.large + "元, 中单: "@ + f.medium + "元, 小单: "@ + f.small + "元\n"@;
            &&& (prices + flow).is_prefix_of(analysis_prompt(info, Some(f), lines, kind))
            &&& (prices + flow + kline_part(lines)).is_prefix_of(
                analysis_prompt(info, Some(f), lines, kind),
            )
            &&& (prices + "\n【资金流向】\n暂无数据\n"@).is_prefix_of(
                analysis_prompt(info, None, lines, kind),
            )
            &&& (prices + "\n【资金流向】\n暂无数据\n"@ + kline_part(lines)).is_prefix_of(
                analysis_prompt(info, None, lines, kind),
            )
        }),
        "\n【分析任务】\n请进行趋势研判。结合价格形态、均线趋势（如有）、资金流向，判断短期和中期的走势。给出明确的看多、看空或震荡观点。"@.is_suffix_of(
            analysis_prompt(info, Some(f), lines, "trend"@),
        ),
        "\n【分析任务】\n请提供择时信号。分析当前的买卖点，是否适合介入或离场？关注成交量变化和关键支撑压力位。"@.is_suffix_of(
            analysis_prompt(info, Some(f), lines, "timing"@),
        ),
        "\n【分析任务】\n请检测拐点。分析是否有见底回升或见顶回落的迹象。关注背离现象和资金异动。"@.is_suffix_of(
            analysis_prompt(info, Some(f), lines, "turning"@),
        ),
        kind != "trend"@ && kind != "timing"@ && kind != "turning"@
            ==> "\n【分析任务】\n请进行综合技术分析。"@.is_suffix_of(
            analysis_prompt(info, Some(f), lines, kind),
        ),
{
    lemma_prompt_ends(info_part(info) + flow_part(Some(f)), kline_part(lines), task_part(kind));
    lemma_prompt_ends(info_part(info) + flow_part(None), kline_part(lines), task_part(kind));
    let begin = info_part(info) + flow_part(Some(f));
    reveal_strlit("trend");
    reveal_strlit("timing");
    reveal_strlit("turning");
    assert("trend"@.len() == 5);
    assert("timing"@.len() == 6);
    assert("turning"@.len() == 7);
    lemma_prompt_ends(begin, kline_part(lines), task_part("trend"@));
    lemma_prompt_ends(begin, kline_part(lines), task_part("timing"@));
    lemma_prompt_ends(begin, kline_part(lines), task_part("turning"@));
}

proof fn lemma_prompt_ends(begin: Seq<char>, middle: Seq<char>, end: Seq<char>)
    ensures
        begin.is_prefix_of(begin + middle + end),
        (begin + middle).is_prefix_of(begin + middle + end),
        end.is_suffix_of(begin + middle + end),
{
    let all = begin + middle + end;
    let most = begin + middle;
    assert(all.subrange(0, begin.len() as int) =~= begin);
    assert(all.subrange(0, most.len() as int) =~= most);
    assert(all.subrange(all.len() - end.len(), all.len() as int) =~= end);
}

/// The prompt lists the K-lines from the last one back, each on a line with the date, the open, the
/// close, the high, the low and the volume; and without any it says nothing of them.
pub proof fn law_prompt_lists_klines(lines: Seq<KLine>, last: KLine, n: nat)
    ensures
        kline_lines(lines.push(last), n + 1) == last.date + ", "@ + last.open + ", "@ + last.close
            + ", "@ + last.high + ", "@ + last.low + ", "@ + last.volume + "\n"@ + kline_lines(
            lines,
            n,
        ),
        kline_lines(lines, 0) == Seq::<char>::empty(),
        kline_part(Seq::empty()) == Seq::<char>::empty(),
        kline_part(lines.push(last))
            == "\n【近期K线数据 (最近5日)】\n日期, 开盘, 收盘, 最高, 最低, 成交量(手)\n"@ + kline_lines(
            lines.push(last),
            5,
        ),
{
    assert(lines.push(last).drop_last() =~= lines);
}

/// An analysis begins with the quote, the flow of the moment and the last ten K-lines by day of the
/// stock; without a code, or without a provider, it is refused.
pub proof fn law_analysis_begins(code: Seq<char>, number: Seq<char>, p: Provider, rest: Seq<Provider>)
    requires
        code.len() > 0,
        stock_code(code) == "sh"@ + number,
    ensures
        ({
            &&& analysis_start(code, rest.push(p)) matches AnalysisStartView::Fetch {
                code: full,
                quote,
                flow,
                klines,
            }
            &&& full == stock_code(code)
            &&& quote == "http://hq.sinajs.cn/list="@ + stock_code(code)
            &&& ("http://push2.eastmoney.com/api/qt/stock/fflow/realtime/get?secid="@ + ("1."@
                + number)).is_prefix_of(flow)
            &&& ("http://push2his.eastmoney.com/api/qt/stock/kline/get?secid="@ + ("1."@
                + number)).is_prefix_of(klines)
            &&& ("101"@ + "&fqt=1&beg=0&end=20500101&lmt="@ + digits(10)).is_suffix_of(klines)
        }),
        analysis_start(Seq::empty(), rest) == AnalysisStartView::Reply(error_view("no code"@)),
        analysis_start(code, Seq::empty()) == AnalysisStartView::Reply(
            error_view("No AI config found"@),
        ),
{
    law_east_money_identifier(number);
    let full = stock_code(code);
    let (flow, klines) = (moment_page(full), kline_page(full, "101"@, ANALYSIS_LINES));
    let a = "http://push2.eastmoney.com/api/qt/stock/fflow/realtime/get?secid="@ + ("1."@ + number);
    let b = "http://push2his.eastmoney.com/api/qt/stock/kline/get?secid="@ + ("1."@ + number);
    let c = "101"@ + "&fqt=1&beg=0&end=20500101&lmt="@ + digits(10);
    assert(flow.subrange(0, a.len() as int) =~= a);
    assert(klines.subrange(0, b.len() as int) =~= b);
    assert(klines.subrange(klines.len() - c.len(), klines.len() as int) =~= c);
}

} // verus!
