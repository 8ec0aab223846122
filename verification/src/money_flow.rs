//! The flow of money into and out of a stock.
//!
//! East Money has two pages for it: one with the figures of the moment, and one with those of the
//! day. They are tried in this order, each of them up to three times.
use crate::cache::{law_cache_gives_back, serves, Cache, MONEY_FLOW_TTL};
use crate::codes::{
    law_east_money_identifier, normalize_stock_code, secid, security_id, stock_code,
};
use crate::json::{
    array_at, items_view, json_tree, law_empty_object, law_field_is_found, number_at, Fields, Json,
    JsonView, NumView,
};
use crate::reply::{data_reply, data_view, law_replies_by_key, number, number_view};
use crate::text::{
    chars_of, find_first, find_last, first_of, joined, last_of, law_split_takes_parts,
    lemma_first_and_last, opt_text, split, split_on, string_of, texts,
};
use vstd::prelude::*;

verus! {

/// The net inflow of a stock, by the size of the orders. Numbers are decimal text, as they were
/// sent.
#[derive(Debug, PartialEq, Eq)]
pub struct MoneyFlow {
    pub main_net: String,
    pub super_large: String,
    pub large: String,
    pub medium: String,
    pub small: String,
    pub retail: String,
}

/// What a [`MoneyFlow`] stands for.
pub struct Flow {
    pub main_net: Seq<char>,
    pub super_large: Seq<char>,
    pub large: Seq<char>,
    pub medium: Seq<char>,
    pub small: Seq<char>,
    pub retail: Seq<char>,
}

impl MoneyFlow {
    pub open spec fn view(&self) -> Flow {
        Flow {
            main_net: self.main_net@,
            super_large: self.super_large@,
            large: self.large@,
            medium: self.medium@,
            small: self.small@,
            retail: self.retail@,
        }
    }
}

/// What a possible flow stands for.
pub open spec fn opt_flow(flow: Option<MoneyFlow>) -> Option<Flow> {
    match flow {
        Some(f) => Some(f@),
        None => None,
    }
}

// ---------------------------------------------------------------------------------------------
// Reading a page
// ---------------------------------------------------------------------------------------------

/// Whether the last closing brace of a text stands before the first opening one, with something
/// between them.
pub open spec fn braces_reversed(text: Seq<char>) -> bool {
    &&& first_of(text, '{') < text.len()
    &&& last_of(text, '}') >= 0
    &&& last_of(text, '}') + 1 < first_of(text, '{')
}

/// The part of a text from the first opening brace to the last closing one.
pub open spec fn braced_part(text: Seq<char>) -> Option<Seq<char>> {
    let from = first_of(text, '{');
    let to = last_of(text, '}') + 1;
    if from < text.len() && to > 0 {
        Some(text.subrange(from, to))
    } else {
        None
    }
}

/// Whether the last closing brace of a text stands before the first opening one, with something
/// between them.
pub fn has_braces_reversed(text: &str) -> (r: bool)
    ensures
        r == braces_reversed(text@),
{
    let v = chars_of(text);
    let from = find_first(&v, '{');
    let to = find_last(&v, '}');
    from < v.len() && to > 0 && to < from
}

fn braced(text: &str) -> (r: Option<String>)
    requires
        !braces_reversed(text@),
    ensures
        match r {
            Some(part) => braced_part(text@) == Some(part@),
            None => braced_part(text@) is None,
        },
{
    let v = chars_of(text);
    proof {
        lemma_first_and_last(v@, '{');
        lemma_first_and_last(v@, '}');
    }
    let from = find_first(&v, '{');
    let to = find_last(&v, '}');
    if from < v.len() && to > 0 {
        Some(string_of(&v, from, to))
    } else {
        None
    }
}

/// The flow that the figures of the moment give: they are there if the field `f62` is. A figure that
/// is missing or no number counts as zero, and the retail flow is that of the small orders.
pub open spec fn flow_of_moment(data: JsonView) -> Option<Flow> {
    if data.get("f62"@) is Some {
        Some(
            Flow {
                main_net: number_at(data, "f62"@),
                super_large: number_at(data, "f63"@),
                large: number_at(data, "f64"@),
                medium: number_at(data, "f65"@),
                small: number_at(data, "f66"@),
                retail: number_at(data, "f66"@),
            },
        )
    } else {
        None
    }
}

/// The flow in a line with the figures of a day: the date, then main, super large, large, medium and
/// small, with commas between them.
pub open spec fn flow_in_line(line: Seq<char>) -> Option<Flow> {
    let parts = split_on(line, ',');
    if parts.len() > 5 {
        Some(
            Flow {
                main_net: parts[1],
                super_large: parts[2],
                large: parts[3],
                medium: parts[4],
                small: parts[5],
                retail: parts[5],
            },
        )
    } else {
        None
    }
}

/// The flow that the figures of the day give: by the first line, if it is one.
pub open spec fn flow_of_day(data: JsonView) -> Option<Flow> {
    match array_at(data, "klines"@) {
        Some(lines) => if lines.len() > 0 {
            match lines[0].as_str() {
                Some(line) => flow_in_line(line),
                None => None,
            }
        } else {
            None
        },
        None => None,
    }
}

/// The flow that a page holds: by the figures of the moment, or else by those of the day.
pub open spec fn flow_in(root: JsonView) -> Option<Flow> {
    match root.get("data"@) {
        Some(data) => match flow_of_moment(data) {
            Some(flow) => Some(flow),
            None => flow_of_day(data),
        },
        None => None,
    }
}

/// The flow that a page holds by the figures of the moment alone.
pub open spec fn moment_flow_in(root: JsonView) -> Option<Flow> {
    match root.get("data"@) {
        Some(data) => flow_of_moment(data),
        None => None,
    }
}

fn read_moment(data: &Json) -> (r: Option<MoneyFlow>)
    ensures
        opt_flow(r) == flow_of_moment(data@),
{
    if data.get("f62").is_none() {
        return None;
    }
    let small = data.number_at("f66");
    Some(
        MoneyFlow {
            main_net: data.number_at("f62"),
            super_large: data.number_at("f63"),
            large: data.number_at("f64"),
            medium: data.number_at("f65"),
            retail: small.clone(),
            small,
        },
    )
}

fn read_day(data: &Json) -> (r: Option<MoneyFlow>)
    ensures
        opt_flow(r) == flow_of_day(data@),
{
    match data.array_at("klines") {
        Some(lines) => {
            if lines.len() == 0 {
                return None;
            }
            assert(items_view(lines@)[0] == lines@[0]@);
            match lines[0].as_str() {
                Some(line) => {
                    let parts = split(line, ',');
                    assert(forall|k: int|
                        0 <= k < parts@.len() ==> (#[trigger] parts@[k])@ == texts(parts@)[k]);
                    if parts.len() <= 5 {
                        return None;
                    }
                    Some(
                        MoneyFlow {
                            main_net: parts[1].clone(),
                            super_large: parts[2].clone(),
                            large: parts[3].clone(),
                            medium: parts[4].clone(),
                            small: parts[5].clone(),
                            retail: parts[5].clone(),
                        },
                    )
                },
                None => None,
            }
        },
        None => None,
    }
}

/// Reads the flow that a page holds.
pub fn read_flow(root: &Json) -> (r: Option<MoneyFlow>)
    ensures
        opt_flow(r) == flow_in(root@),
{
    match root.get("data") {
        Some(data) => match read_moment(data) {
            Some(flow) => Some(flow),
            None => read_day(data),
        },
        None => None,
    }
}

/// Reads the flow that a page holds by the figures of the moment alone.
pub fn read_moment_flow(root: &Json) -> (r: Option<MoneyFlow>)
    ensures
        opt_flow(r) == moment_flow_in(root@),
{
    match root.get("data") {
        Some(data) => read_moment(data),
        None => None,
    }
}

/// The value that the part of a text in braces spells.
pub open spec fn braced_tree(text: Seq<char>) -> Option<JsonView> {
    match braced_part(text) {
        Some(part) => json_tree(part),
        None => None,
    }
}

fn parse_braced(text: &str) -> (r: Option<Json>)
    requires
        !braces_reversed(text@),
    ensures
        match r {
            Some(root) => braced_tree(text@) == Some(root@),
            None => braced_tree(text@) is None,
        },
{
    match braced(text) {
        Some(part) => Json::parse(&part),
        None => None,
    }
}

/// Reads the flow that the text of a page holds.
pub fn read_flow_text(text: &str) -> (r: Option<MoneyFlow>)
    requires
        !braces_reversed(text@),
    ensures
        opt_flow(r) == (match braced_tree(text@) {
            Some(root) => flow_in(root),
            None => None,
        }),
{
    match parse_braced(text) {
        Some(root) => read_flow(&root),
        None => None,
    }
}

/// Reads the flow that the text of a page holds by the figures of the moment alone.
pub fn read_moment_flow_text(text: &str) -> (r: Option<MoneyFlow>)
    requires
        !braces_reversed(text@),
    ensures
        opt_flow(r) == (match braced_tree(text@) {
            Some(root) => moment_flow_in(root),
            None => None,
        }),
{
    match parse_braced(text) {
        Some(root) => read_moment_flow(&root),
        None => None,
    }
}

// ---------------------------------------------------------------------------------------------
// Trying the pages
// ---------------------------------------------------------------------------------------------

/// The page with the figures of the moment.
pub open spec fn moment_page(code: Seq<char>) -> Seq<char> {
    "http://push2.eastmoney.com/api/qt/stock/fflow/realtime/get?secid="@ + security_id(code)
        + "&fields1=f1,f2,f3,f7&fields2=f51,f52,f53,f54,f55,f56,f57,f58,f59,f60,f61,f62,f63,f64,f65&ut=b2884a393a59ad64002292a3e90d46a5"@
}

/// The page with the figures of the day.
pub open spec fn day_page(code: Seq<char>) -> Seq<char> {
    "http://push2.eastmoney.com/api/qt/stock/fflow/daykline/get?secid="@ + security_id(code)
        + "&lmt=1&fields1=f1,f2,f3,f7&fields2=f51,f52,f53,f54,f55,f56,f57,f58,f59,f60,f61,f62,f63,f64,f65&ut=b2884a393a59ad64002292a3e90d46a5"@
}

/// The page with the figures of the moment.
pub fn moment_url(code: &str) -> (r: String)
    ensures
        r@ == moment_page(code@),
{
    let id = secid(code);
    let mut r = joined("http://push2.eastmoney.com/api/qt/stock/fflow/realtime/get?secid=", &id);
    r.append("&fields1=f1,f2,f3,f7&fields2=f51,f52,f53,f54,f55,f56,f57,f58,f59,f60,f61,f62,f63,f64,f65&ut=b2884a393a59ad64002292a3e90d46a5");
    r
}

/// The page with the figures of the day.
pub fn day_url(code: &str) -> (r: String)
    ensures
        r@ == day_page(code@),
{
    let id = secid(code);
    let mut r = joined("http://push2.eastmoney.com/api/qt/stock/fflow/daykline/get?secid=", &id);
    r.append("&lmt=1&fields1=f1,f2,f3,f7&fields2=f51,f52,f53,f54,f55,f56,f57,f58,f59,f60,f61,f62,f63,f64,f65&ut=b2884a393a59ad64002292a3e90d46a5");
    r
}

/// A flow as it is handed out.
pub open spec fn flow_view(f: Flow) -> JsonView {
    JsonView::object().with("main_net"@, number_view(f.main_net)).with(
        "super_large"@,
        number_view(f.super_large),
    ).with("large"@, number_view(f.large)).with("medium"@, number_view(f.medium)).with(
        "small"@,
        number_view(f.small),
    ).with("retail"@, number_view(f.retail))
}

fn flow_json(f: &MoneyFlow) -> (j: Json)
    ensures
        j@ == flow_view(f@),
{
    Fields::new().with("main_net", number(&f.main_net)).with("super_large", number(&f.super_large)).with(
        "large",
        number(&f.large),
    ).with("medium", number(&f.medium)).with("small", number(&f.small)).with(
        "retail",
        number(&f.retail),
    ).object()
}

/// The answer to a request for a flow that no page has.
pub open spec fn no_flow_view() -> JsonView {
    JsonView::object().with_str("status"@, "success"@).with_str("msg"@, "暂无资金流向数据"@).with(
        "data"@,
        JsonView::Null,
    )
}

/// The answer to a request for a flow that does not say of which stock.
pub open spec fn no_stock_view() -> JsonView {
    JsonView::object().with_str("status"@, "error"@)
}

/// A search for the flow of a stock: which page is being tried, and how often it has failed.
pub struct FlowSearch {
    code: String,
    second: bool,
    failures: u8,
}

/// What a [`FlowSearch`] stands for.
pub struct Search {
    pub code: Seq<char>,
    pub second: bool,
    pub failures: int,
}

/// What came of asking for a page.
pub enum Fetched {
    /// The request failed.
    Failed,
    /// The page came, but not its text.
    NoText,
    /// The text of the page.
    Text(String),
}

/// What came of a page.
pub enum PageOutcome {
    /// The page was read and holds a flow.
    Found(MoneyFlow),
    /// The page was fetched, and holds no flow or could not be read.
    Empty,
    /// The request failed.
    Failed,
}

/// What a [`PageOutcome`] stands for.
pub enum Outcome {
    Found(Flow),
    Empty,
    Failed,
}

impl PageOutcome {
    pub open spec fn view(&self) -> Outcome {
        match self {
            PageOutcome::Found(flow) => Outcome::Found(flow@),
            PageOutcome::Empty => Outcome::Empty,
            PageOutcome::Failed => Outcome::Failed,
        }
    }
}

/// What came of a page, by what came of asking for it and by the value that its text spells in
/// braces.
pub open spec fn page_outcome(fetched: Fetched, tree: Option<JsonView>) -> Outcome {
    match fetched {
        Fetched::Failed => Outcome::Failed,
        Fetched::NoText => Outcome::Empty,
        Fetched::Text(_) => match tree {
            Some(root) => match flow_in(root) {
                Some(flow) => Outcome::Found(flow),
                None => Outcome::Empty,
            },
            None => Outcome::Empty,
        },
    }
}

/// Reads what came of a page.
pub fn read_page(fetched: &Fetched) -> (r: PageOutcome)
    requires
        fetched matches Fetched::Text(text) ==> !braces_reversed(text@),
    ensures
        r@ == page_outcome(
            *fetched,
            match fetched {
                Fetched::Text(text) => braced_tree(text@),
                _ => None,
            },
        ),
{
    match fetched {
        Fetched::Failed => PageOutcome::Failed,
        Fetched::NoText => PageOutcome::Empty,
        Fetched::Text(text) => match read_flow_text(text) {
            Some(flow) => PageOutcome::Found(flow),
            None => PageOutcome::Empty,
        },
    }
}

/// What is to be done next in a search.
pub enum FlowAction {
    /// Fetch this page; first wait a second if so told.
    Fetch { url: String, wait: bool },
    /// Answer the request.
    Reply(Json),
}

/// What a [`FlowAction`] stands for.
pub enum FlowStep {
    Fetch { url: Seq<char>, wait: bool },
    Reply(JsonView),
}

impl FlowAction {
    pub open spec fn view(&self) -> FlowStep {
        match self {
            FlowAction::Fetch { url, wait } => FlowStep::Fetch { url: url@, wait: *wait },
            FlowAction::Reply(j) => FlowStep::Reply(j@),
        }
    }
}

impl Search {
    /// Whether a page is left to be tried, and this one not too often.
    pub open spec fn valid(self) -> bool {
        0 <= self.failures <= 2
    }

    /// The page that is being tried.
    pub open spec fn page(self) -> Seq<char> {
        if self.second {
            day_page(self.code)
        } else {
            moment_page(self.code)
        }
    }

    /// How many requests can still be made, this one counted.
    pub open spec fn requests_left(self) -> int {
        if self.second {
            3 - self.failures
        } else {
            6 - self.failures
        }
    }

    /// The search once the page that is being tried was given up.
    pub open spec fn give_up(self) -> (Search, FlowStep) {
        if self.second {
            (self, FlowStep::Reply(no_flow_view()))
        } else {
            let next = Search { code: self.code, second: true, failures: 0 };
            (next, FlowStep::Fetch { url: next.page(), wait: false })
        }
    }

    /// What follows from what came of the page. A flow ends the search. A page that was fetched in
    /// vain is given up. One whose request failed is tried again after a second, and given up after
    /// the third time.
    pub open spec fn after(self, outcome: Outcome) -> (Search, FlowStep) {
        match outcome {
            Outcome::Found(flow) => (self, FlowStep::Reply(data_view(flow_view(flow), false))),
            Outcome::Empty => self.give_up(),
            Outcome::Failed => if self.failures < 2 {
                (
                    Search { code: self.code, second: self.second, failures: self.failures + 1 },
                    FlowStep::Fetch { url: self.page(), wait: true },
                )
            } else {
                self.give_up()
            },
        }
    }
}

/// How a request for a stock's flow begins.
pub enum FlowStart {
    Reply(Json),
    Search { search: FlowSearch, url: String },
}

/// What a [`FlowStart`] stands for.
pub enum FlowStartView {
    Reply(JsonView),
    Search { search: Search, url: Seq<char> },
}

impl FlowStart {
    pub open spec fn view(&self) -> FlowStartView {
        match self {
            FlowStart::Reply(j) => FlowStartView::Reply(j@),
            FlowStart::Search { search, url } => FlowStartView::Search { search: search@, url: url@ },
        }
    }
}

/// How a request for a stock's flow begins. Without a code it fails; what the cache serves is handed
/// out; else the search begins with the figures of the moment.
pub open spec fn flow_start(
    code: Option<Seq<char>>,
    cached: Map<Seq<char>, (MoneyFlow, u128)>,
    now: u128,
) -> FlowStartView {
    match code {
        Some(code) => {
            let full = stock_code(code);
            if serves(cached, full, now, MONEY_FLOW_TTL) {
                FlowStartView::Reply(data_view(flow_view(cached[full].0@), true))
            } else {
                FlowStartView::Search {
                    search: Search { code: full, second: false, failures: 0 },
                    url: moment_page(full),
                }
            }
        },
        None => FlowStartView::Reply(no_stock_view()),
    }
}

/// Begins a request for a stock's flow.
pub fn start_flow(code: Option<&str>, cache: &Cache<MoneyFlow>, now: u128) -> (r: FlowStart)
    ensures
        r@ == flow_start(opt_text(code), cache@, now),
{
    match code {
        Some(code) => {
            let full = normalize_stock_code(code);
            match cache.get(&full, now, MONEY_FLOW_TTL) {
                Some(flow) => FlowStart::Reply(data_reply(flow_json(flow), true)),
                None => {
                    let url = moment_url(&full);
                    let search = FlowSearch { code: full, second: false, failures: 0 };
                    FlowStart::Search { search, url }
                },
            }
        },
        None => FlowStart::Reply(Fields::new().with_str("status", "error").object()),
    }
}

impl FlowSearch {
    pub closed spec fn view(&self) -> Search {
        Search { code: self.code@, second: self.second, failures: self.failures as int }
    }

    #[verifier::type_invariant]
    spec fn bounded(&self) -> bool {
        self@.valid()
    }

    fn give_up(&mut self) -> (r: FlowAction)
        ensures
            (final(self)@, r@) == old(self)@.give_up(),
    {
        proof {
            use_type_invariant(&*self);
        }
        if self.second {
            FlowAction::Reply(
                Fields::new().with_str("status", "success").with_str("msg", "暂无资金流向数据").with(
                    "data",
                    Json::Null,
                ).object(),
            )
        } else {
            self.second = true;
            self.failures = 0;
            FlowAction::Fetch { url: day_url(&self.code), wait: false }
        }
    }

    /// Goes on with the search after a page: says what is to be done next, and keeps a flow that was
    /// found.
    pub fn advance(&mut self, outcome: PageOutcome, cache: &mut Cache<MoneyFlow>, now: u128) -> (r:
        FlowAction)
        ensures
            (final(self)@, r@) == old(self)@.after(outcome@),
            final(cache)@ == (match outcome {
                PageOutcome::Found(flow) => old(cache)@.insert(old(self)@.code, (flow, now)),
                _ => old(cache)@,
            }),
    {
        proof {
            use_type_invariant(&*self);
        }
        match outcome {
            PageOutcome::Found(flow) => {
                let j = data_reply(flow_json(&flow), false);
                cache.insert(&self.code, flow, now);
                FlowAction::Reply(j)
            },
            PageOutcome::Empty => self.give_up(),
            PageOutcome::Failed => if self.failures < 2 {
                self.failures = self.failures + 1;
                let url = if self.second {
                    day_url(&self.code)
                } else {
                    moment_url(&self.code)
                };
                FlowAction::Fetch { url, wait: true }
            } else {
                self.give_up()
            },
        }
    }
}

// ---------------------------------------------------------------------------------------------
// Laws
// ---------------------------------------------------------------------------------------------

/// A search ends after at most six requests: each one that does not end it leaves fewer to be made,
/// and never none.
pub proof fn law_search_ends(search: Search, outcome: Outcome)
    requires
        search.valid(),
    ensures
        1 <= search.requests_left() <= 6,
        search.after(outcome).0.valid(),
        search.after(outcome).1 is Fetch ==> search.after(outcome).0.requests_left()
            < search.requests_left(),
{
}

/// The page that is asked for is the one that the search is at, and always of the same stock. It
/// waits only before it asks for a page again.
pub proof fn law_search_asks(search: Search, outcome: Outcome)
    requires
        search.valid(),
    ensures
        search.after(outcome).0.code == search.code,
        search.after(outcome).1 matches FlowStep::Fetch { url, wait } ==> {
            &&& url == search.after(outcome).0.page()
            &&& wait == (search.after(outcome).0.second == search.second)
        },
{
}

/// A search ends with the flow that was found, or else with success and no data: for want of a flow no
/// request is refused. Only a page of the second kind can end it so.
pub proof fn law_search_is_never_refused(search: Search, outcome: Outcome)
    requires
        search.valid(),
    ensures
        match outcome {
            Outcome::Found(flow) => search.after(outcome).1 == FlowStep::Reply(
                data_view(flow_view(flow), false),
            ),
            _ => search.after(outcome).1 matches FlowStep::Reply(j) ==> {
                &&& j == no_flow_view()
                &&& search.second
            },
        },
{
}

/// A flow that was found is handed out again from the cache, marked so, to every request for the same
/// stock until it is five minutes old, and not from then on.
pub proof fn law_flow_served_again(
    code: Seq<char>,
    cached: Map<Seq<char>, (MoneyFlow, u128)>,
    flow: MoneyFlow,
    stored: u128,
    now: u128,
)
    requires
        stored <= now,
    ensures
        now - stored < 300_000_000_000 ==> flow_start(
            Some(code),
            cached.insert(stock_code(code), (flow, stored)),
            now,
        )
            == FlowStartView::Reply(data_view(flow_view(flow@), true)),
        now - stored >= 300_000_000_000 ==> flow_start(
            Some(code),
            cached.insert(stock_code(code), (flow, stored)),
            now,
        ) is Search,
{
    law_cache_gives_back(cached, stock_code(code), flow, stored, now, MONEY_FLOW_TTL);
}

/// Each figure of a flow is handed out under its own name.
pub proof fn law_flow_by_key(f: Flow)
    ensures
        flow_view(f).get("main_net"@) == Some(JsonView::Num(NumView::Decimal(f.main_net))),
        flow_view(f).get("super_large"@) == Some(JsonView::Num(NumView::Decimal(f.super_large))),
        flow_view(f).get("large"@) == Some(JsonView::Num(NumView::Decimal(f.large))),
        flow_view(f).get("medium"@) == Some(JsonView::Num(NumView::Decimal(f.medium))),
        flow_view(f).get("small"@) == Some(JsonView::Num(NumView::Decimal(f.small))),
        flow_view(f).get("retail"@) == Some(JsonView::Num(NumView::Decimal(f.retail))),
{
    broadcast use law_field_is_found, law_empty_object;

    reveal_strlit("main_net");
    reveal_strlit("super_large");
    reveal_strlit("large");
    reveal_strlit("medium");
    reveal_strlit("small");
    reveal_strlit("retail");
    assert("main_net"@.len() == 8);
    assert("super_large"@.len() == 11);
    assert("large"@.len() == 5 && "large"@[0] == 'l');
    assert("medium"@.len() == 6 && "medium"@[0] == 'm');
    assert("small"@.len() == 5 && "small"@[0] == 's');
    assert("retail"@.len() == 6 && "retail"@[0] == 'r');
}

/// Which field of the moment's figures is which flow: `f62` that of the main orders, `f63` of the super
/// large, `f64` of the large, `f65` of the medium and `f66` of the small ones, which is that of the
/// retail investors too. What else the object holds does not matter.
pub proof fn law_moment_fields(
    root: JsonView,
    data: JsonView,
    main: NumView,
    super_large: NumView,
    large: NumView,
    medium: NumView,
    small: NumView,
)
    requires
        root.get("data"@) == Some(data),
        data.get("f62"@) == Some(JsonView::Num(main)),
        data.get("f63"@) == Some(JsonView::Num(super_large)),
        data.get("f64"@) == Some(JsonView::Num(large)),
        data.get("f65"@) == Some(JsonView::Num(medium)),
        data.get("f66"@) == Some(JsonView::Num(small)),
    ensures
        moment_flow_in(root) == flow_in(root),
        flow_in(root) == Some(
            Flow {
                main_net: main.text(),
                super_large: super_large.text(),
                large: large.text(),
                medium: medium.text(),
                small: small.text(),
                retail: small.text(),
            },
        ),
{
}

/// A page written out with its five fields gives the flow that they tell, and it is answered with each
/// figure under its own name.
pub proof fn law_moment_page_is_shown(
    main: Seq<char>,
    super_large: Seq<char>,
    large: Seq<char>,
    medium: Seq<char>,
    small: Seq<char>,
    search: Search,
)
    ensures
        ({
            let data = JsonView::object().with("f62"@, JsonView::Num(NumView::Decimal(main))).with(
                "f63"@,
                JsonView::Num(NumView::Decimal(super_large)),
            ).with("f64"@, JsonView::Num(NumView::Decimal(large))).with(
                "f65"@,
                JsonView::Num(NumView::Decimal(medium)),
            ).with("f66"@, JsonView::Num(NumView::Decimal(small)));
            let root = JsonView::object().with("data"@, data);
            &&& flow_in(root) matches Some(flow)
            &&& search.after(Outcome::Found(flow)).1 matches FlowStep::Reply(reply)
            &&& reply.get("status"@) == Some(JsonView::Str("success"@))
            &&& reply.get("cached"@) == Some(JsonView::Bool(false))
            &&& reply.get("data"@) matches Some(shown)
            &&& shown.get("main_net"@) == Some(JsonView::Num(NumView::Decimal(main)))
            &&& shown.get("super_large"@) == Some(JsonView::Num(NumView::Decimal(super_large)))
            &&& shown.get("large"@) == Some(JsonView::Num(NumView::Decimal(large)))
            &&& shown.get("medium"@) == Some(JsonView::Num(NumView::Decimal(medium)))
            &&& shown.get("small"@) == Some(JsonView::Num(NumView::Decimal(small)))
            &&& shown.get("retail"@) == Some(JsonView::Num(NumView::Decimal(small)))
        }),
{
    broadcast use law_field_is_found, law_empty_object;

    reveal_strlit("f62");
    reveal_strlit("f63");
    reveal_strlit("f64");
    reveal_strlit("f65");
    reveal_strlit("f66");
    reveal_strlit("data");
    assert("f62"@.len() == 3 && "f62"@[2] == '2');
    assert("f63"@.len() == 3 && "f63"@[2] == '3');
    assert("f64"@.len() == 3 && "f64"@[2] == '4');
    assert("f65"@.len() == 3 && "f65"@[2] == '5');
    assert("f66"@.len() == 3 && "f66"@[2] == '6');
    assert("data"@.len() == 4);
    let data = JsonView::object().with("f62"@, JsonView::Num(NumView::Decimal(main))).with(
        "f63"@,
        JsonView::Num(NumView::Decimal(super_large)),
    ).with("f64"@, JsonView::Num(NumView::Decimal(large))).with(
        "f65"@,
        JsonView::Num(NumView::Decimal(medium)),
    ).with("f66"@, JsonView::Num(NumView::Decimal(small)));
    let root = JsonView::object().with("data"@, data);
    law_moment_fields(
        root,
        data,
        NumView::Decimal(main),
        NumView::Decimal(super_large),
        NumView::Decimal(large),
        NumView::Decimal(medium),
        NumView::Decimal(small),
    );
    let flow = flow_in(root)->Some_0;
    law_replies_by_key(Seq::empty(), flow_view(flow), false);
    law_flow_by_key(flow);
}

/// Where the figures of the moment are not there, the first line of the day's gives the flow: behind
/// the date the main, super large, large, medium and small orders, with commas between them.
pub proof fn law_day_line_is_read(
    root: JsonView,
    data: JsonView,
    rest: Seq<JsonView>,
    date: Seq<char>,
    f: Flow,
)
    requires
        root.get("data"@) == Some(data),
        data.get("f62"@) is None,
        data.get("klines"@) == Some(
            JsonView::Arr(
                Seq::empty().push(
                    JsonView::Str(
                        date + seq![','] + f.main_net + seq![','] + f.super_large + seq![',']
                            + f.large + seq![','] + f.medium + seq![','] + f.small,
                    ),
                ) + rest,
            ),
        ),
        f.retail == f.small,
        !date.contains(','),
        !f.main_net.contains(','),
        !f.super_large.contains(','),
        !f.large.contains(','),
        !f.medium.contains(','),
        !f.small.contains(','),
    ensures
        flow_in(root) == Some(f),
        moment_flow_in(root) is None,
{
    let x2 = date + seq![','] + f.main_net;
    let x3 = x2 + seq![','] + f.super_large;
    let x4 = x3 + seq![','] + f.large;
    let x5 = x4 + seq![','] + f.medium;
    law_split_takes_parts(date, date, ',');
    law_split_takes_parts(date, f.main_net, ',');
    law_split_takes_parts(x2, f.super_large, ',');
    law_split_takes_parts(x3, f.large, ',');
    law_split_takes_parts(x4, f.medium, ',');
    law_split_takes_parts(x5, f.small, ',');
}

/// A page without data, or with empty data, gives no flow.
pub proof fn law_no_flow(root: JsonView)
    ensures
        root.get("data"@) is None || root.get("data"@) == Some(JsonView::Null) ==> flow_in(root) is None
            && moment_flow_in(root) is None,
{
}

/// The part of a text that is read begins with the first opening brace and ends with the last closing
/// one, whatever stands around them.
pub proof fn law_braces(before: Seq<char>, inner: Seq<char>, after: Seq<char>)
    requires
        !before.contains('{'),
        !after.contains('}'),
    ensures
        braced_part(before + seq!['{'] + inner + seq!['}'] + after) == Some(
            seq!['{'] + inner + seq!['}'],
        ),
        !braces_reversed(before + seq!['{'] + inner + seq!['}'] + after),
{
    let text = before + seq!['{'] + inner + seq!['}'] + after;
    let from = before.len() as int;
    let to = from + 1 + inner.len() as int;
    lemma_first_and_last(text, '{');
    lemma_first_and_last(text, '}');
    assert(text[from] == '{');
    assert(text[to] == '}');
    if first_of(text, '{') < from {
        assert(before[first_of(text, '{')] == '{');
        assert(before.contains('{'));
    }
    if last_of(text, '}') > to {
        assert(after[last_of(text, '}') - to - 1] == '}');
        assert(after.contains('}'));
    }
    assert(text.subrange(from, to + 1) =~= seq!['{'] + inner + seq!['}']);
}

/// A search asks for the page of the moment and then for that of the day, each up to three times, and
/// waits before it asks again: so a service that cannot be reached is asked six times in all.
pub proof fn law_six_requests(
    code: Seq<char>,
    number: Seq<char>,
    cached: Map<Seq<char>, (MoneyFlow, u128)>,
    now: u128,
)
    requires
        stock_code(code) == "sh"@ + number || stock_code(code) == "sz"@ + number || stock_code(code)
            == "bj"@ + number,
        !serves(cached, stock_code(code), now, 300),
    ensures
        ({
            let id = if stock_code(code) == "sh"@ + number {
                "1."@ + number
            } else {
                "0."@ + number
            };
            let moment = "http://push2.eastmoney.com/api/qt/stock/fflow/realtime/get?secid="@ + id
                + "&fields1=f1,f2,f3,f7&fields2=f51,f52,f53,f54,f55,f56,f57,f58,f59,f60,f61,f62,f63,f64,f65&ut=b2884a393a59ad64002292a3e90d46a5"@;
            let day = "http://push2.eastmoney.com/api/qt/stock/fflow/daykline/get?secid="@ + id
                + "&lmt=1&fields1=f1,f2,f3,f7&fields2=f51,f52,f53,f54,f55,f56,f57,f58,f59,f60,f61,f62,f63,f64,f65&ut=b2884a393a59ad64002292a3e90d46a5"@;
            &&& flow_start(Some(code), cached, now) matches FlowStartView::Search { search, url }
            &&& url == moment
            &&& search.code == stock_code(code)
            &&& ({
                let (s1, a1) = search.after(Outcome::Failed);
                let (s2, a2) = s1.after(Outcome::Failed);
                let (s3, a3) = s2.after(Outcome::Failed);
                let (s4, a4) = s3.after(Outcome::Failed);
                let (s5, a5) = s4.after(Outcome::Failed);
                let (s6, a6) = s5.after(Outcome::Failed);
                &&& a1 == (FlowStep::Fetch { url: moment, wait: true })
                &&& a2 == (FlowStep::Fetch { url: moment, wait: true })
                &&& a3 == (FlowStep::Fetch { url: day, wait: false })
                &&& a4 == (FlowStep::Fetch { url: day, wait: true })
                &&& a5 == (FlowStep::Fetch { url: day, wait: true })
                &&& a6 == FlowStep::Reply(no_flow_view())
            })
            &&& ({
                let (s1, a1) = search.after(Outcome::Empty);
                let (s2, a2) = s1.after(Outcome::Empty);
                &&& a1 == (FlowStep::Fetch { url: day, wait: false })
                &&& a2 == FlowStep::Reply(no_flow_view())
            })
        }),
        flow_start(None, cached, now) == FlowStartView::Reply(no_stock_view()),
{
    law_east_money_identifier(number);
    reveal_strlit("sh");
    reveal_strlit("sz");
    reveal_strlit("bj");
    assert(("sh"@ + number)[1] == 'h' && ("sz"@ + number)[1] == 'z' && ("bj"@ + number)[1] == 'j');
}

/// The answer without a flow is a success without data that says so; the one without a stock is an
/// error.
pub proof fn law_answers_without_a_flow()
    ensures
        no_flow_view().get("status"@) == Some(JsonView::Str("success"@)),
        no_flow_view().get("msg"@) == Some(JsonView::Str("暂无资金流向数据"@)),
        no_flow_view().get("data"@) == Some(JsonView::Null),
        no_stock_view().get("status"@) == Some(JsonView::Str("error"@)),
{
    broadcast use law_field_is_found, law_empty_object;

    reveal_strlit("status");
    reveal_strlit("msg");
    reveal_strlit("data");
    assert("status"@.len() == 6);
    assert("msg"@.len() == 3);
    assert("data"@.len() == 4);
}

} // verus!
