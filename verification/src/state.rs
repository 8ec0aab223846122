//! What is watched, and the requests that read or change it.
//!
//! A request that changes the state answers with what is to be written to the configuration file, and
//! with whether the data is to be fetched anew. A request that is refused changes nothing.
use crate::codes::{
    index_code, is_full, is_full_index, law_index_code_is_settled, law_stock_code_is_settled,
    normalize_index_code, normalize_stock_code, stock_code,
};
use crate::config::{
    copy_providers, opt_settings, page_interval, page_interval_of, provider_list, providers,
    providers_json, starting_config, starting_settings, AiConfig, AppConfig, ConfigFile, Provider,
    Settings,
};
use crate::json::{
    array_at, field_of, items_view, law_empty_object, law_field_is_found, str_at, strings,
    strings_view, u64_at, Fields, Json, JsonView, Num, NumView,
};
use crate::quote::{RefreshRound, Round};
use crate::reply::{done_reply, done_view, error_reply, error_view};
use crate::text::{joined, lemma_filter_map_step, list_copy, list_position, opt_text, texts};
use vstd::prelude::*;
use vstd::utf8::is_ascii_chars;

verus! {

/// What is watched: the indices and the stocks, in the order in which they are shown, the seconds
/// between two rounds of fetching, and the AI providers.
pub struct AppState {
    index_list: Vec<String>,
    stock_list: Vec<String>,
    refresh_interval: u64,
    ai_configs: Vec<AiConfig>,
}

/// What an [`AppState`] stands for.
#[verifier::ext_equal]
pub struct Watch {
    pub indices: Seq<Seq<char>>,
    pub stocks: Seq<Seq<char>>,
    pub refresh_interval: u64,
    pub providers: Seq<Provider>,
}

/// What is to be done about a request that may change the state.
pub struct Change {
    /// The answer.
    pub reply: Json,
    /// The configuration that is to be written to the file, if any.
    pub save: Option<AppConfig>,
    /// Whether the data is to be fetched anew.
    pub refresh: bool,
}

/// What a [`Change`] stands for.
#[verifier::ext_equal]
pub struct Effect {
    pub reply: JsonView,
    pub save: Option<Settings>,
    pub refresh: bool,
}

impl Change {
    pub open spec fn view(&self) -> Effect {
        Effect { reply: self.reply@, save: opt_settings(self.save), refresh: self.refresh }
    }

    fn only(reply: Json) -> (r: Change)
        ensures
            r@ == only_reply(reply@),
    {
        Change { reply, save: None, refresh: false }
    }
}

/// An answer that changes nothing.
pub open spec fn only_reply(reply: JsonView) -> Effect {
    Effect { reply, save: None, refresh: false }
}

/// The answer to a request that added a code.
pub open spec fn added_view(code: Seq<char>) -> JsonView {
    JsonView::object().with_str("status"@, "success"@).with_str("msg"@, "added"@).with_str(
        "code"@,
        code,
    )
}

/// The answer to a request to add a code that is there already.
pub open spec fn exists_view() -> JsonView {
    JsonView::object().with_str("status"@, "exists"@).with_str("msg"@, "already exists"@)
}

/// The answer to a request that removed a code.
pub open spec fn removed_view() -> JsonView {
    JsonView::object().with_str("status"@, "success"@).with_str("msg"@, "removed"@)
}

/// Where a code first stands in a list that holds it.
pub open spec fn first_place(list: Seq<Seq<char>>, code: Seq<char>) -> int
    decreases list.len(),
{
    if list.len() == 0 || list[0] == code {
        0
    } else {
        1 + first_place(list.skip(1), code)
    }
}

/// The list without the first occurrence of a code.
pub open spec fn drop_first_of(list: Seq<Seq<char>>, code: Seq<char>) -> Seq<Seq<char>> {
    if list.contains(code) {
        list.remove(first_place(list, code))
    } else {
        list
    }
}

proof fn lemma_first_place(list: Seq<Seq<char>>, code: Seq<char>, i: int)
    requires
        0 <= i < list.len(),
        list[i] == code,
        forall|j: int| 0 <= j < i ==> list[j] != code,
    ensures
        first_place(list, code) == i,
    decreases list.len(),
{
    if i > 0 {
        assert(list[0] != code);
        assert forall|j: int| 0 <= j < i - 1 implies list.skip(1)[j] != code by {
            assert(list.skip(1)[j] == list[j + 1]);
        }
        lemma_first_place(list.skip(1), code, i - 1);
    }
}

/// The codes of the stocks in a list of names: what is no text is left out.
pub open spec fn codes_in(items: Seq<JsonView>) -> Seq<Seq<char>> {
    items.filter_map(
        |item: JsonView|
            match item.as_str() {
                Some(name) => Some(stock_code(name)),
                None => None,
            },
    )
}

/// The providers that a request brings, or why they cannot be read.
pub type Parsed = Result<Vec<AiConfig>, String>;

impl Watch {
    /// Whether the state is one that can come about.
    pub open spec fn valid(self) -> bool {
        self.refresh_interval >= 1
    }

    /// The configuration that stores this state, with the interval of the pages.
    pub open spec fn settings(self, page: u64) -> Settings {
        Settings {
            indices: self.indices,
            stocks: self.stocks,
            data_fetch_interval: self.refresh_interval,
            page_refresh_interval: page,
            providers: self.providers,
        }
    }

    /// The state that a configuration stores.
    pub open spec fn of(s: Settings) -> Watch {
        Watch {
            indices: s.indices,
            stocks: s.stocks,
            refresh_interval: s.data_fetch_interval,
            providers: s.providers,
        }
    }

    /// What is answered to a request for the configuration.
    pub open spec fn config_view(self, page: u64) -> JsonView {
        JsonView::object().with("indices"@, strings_view(self.indices)).with(
            "stocks"@,
            strings_view(self.stocks),
        ).with("data_fetch_interval"@, JsonView::Num(NumView::Unsigned(self.refresh_interval))).with(
            "page_refresh_interval"@,
            JsonView::Num(NumView::Unsigned(page)),
        )
    }

    /// The state is stored, and the request answered with success.
    pub open spec fn stored(self, reply: JsonView, page: u64, refresh: bool) -> Effect {
        Effect { reply, save: Some(self.settings(page)), refresh }
    }

    /// Sets the intervals. One that is given must be at least a second, and the first that is not is
    /// named; one that is not given stays as it is.
    pub open spec fn with_intervals(self, payload: JsonView, page: u64) -> (Watch, Effect) {
        if u64_at(payload, "data_fetch_interval"@) == Some(0u64) {
            (self, only_reply(error_view("data_fetch_interval must be >= 1"@)))
        } else if u64_at(payload, "page_refresh_interval"@) == Some(0u64) {
            (self, only_reply(error_view("page_refresh_interval must be >= 1"@)))
        } else {
            let next = Watch {
                refresh_interval: match u64_at(payload, "data_fetch_interval"@) {
                    Some(n) => n,
                    None => self.refresh_interval,
                },
                ..self
            };
            let next_page = match u64_at(payload, "page_refresh_interval"@) {
                Some(n) => n,
                None => page,
            };
            (next, next.stored(done_view(), next_page, false))
        }
    }

    /// Adds a stock at the end, unless it is there.
    pub open spec fn with_stock(self, code: Option<Seq<char>>, page: u64) -> (Watch, Effect) {
        match code {
            Some(code) => {
                let full = stock_code(code);
                if self.stocks.contains(full) {
                    (self, Effect { reply: exists_view(), save: None, refresh: true })
                } else {
                    let next = Watch { stocks: self.stocks.push(full), ..self };
                    (next, next.stored(added_view(full), page, true))
                }
            },
            None => (self, only_reply(error_view("no code"@))),
        }
    }

    /// Adds an index at the end, unless it is there.
    pub open spec fn with_index(self, code: Option<Seq<char>>, page: u64) -> (Watch, Effect) {
        match code {
            Some(code) => {
                let full = index_code(code);
                if self.indices.contains(full) {
                    (self, Effect { reply: exists_view(), save: None, refresh: true })
                } else {
                    let next = Watch { indices: self.indices.push(full), ..self };
                    (next, next.stored(added_view(full), page, true))
                }
            },
            None => (self, only_reply(error_view("no code"@))),
        }
    }

    /// Removes the first occurrence of a stock.
    pub open spec fn without_stock(self, payload: JsonView, page: u64) -> (Watch, Effect) {
        match str_at(payload, "code"@) {
            Some(code) => {
                let full = stock_code(code);
                if self.stocks.contains(full) {
                    let next = Watch { stocks: drop_first_of(self.stocks, full), ..self };
                    (next, next.stored(removed_view(), page, true))
                } else {
                    (self, only_reply(error_view("not found"@)))
                }
            },
            None => (self, only_reply(error_view("invalid payload"@))),
        }
    }

    /// Removes the first occurrence of an index.
    pub open spec fn without_index(self, payload: JsonView, page: u64) -> (Watch, Effect) {
        match str_at(payload, "code"@) {
            Some(code) => {
                let full = index_code(code);
                if self.indices.contains(full) {
                    let next = Watch { indices: drop_first_of(self.indices, full), ..self };
                    (next, next.stored(removed_view(), page, true))
                } else {
                    (self, only_reply(error_view("not found"@)))
                }
            },
            None => (self, only_reply(error_view("invalid payload"@))),
        }
    }

    /// Puts the stocks that a request lists in place of those that are watched.
    pub open spec fn reordered(self, payload: JsonView, page: u64) -> (Watch, Effect) {
        match array_at(payload, "stocks"@) {
            Some(items) => {
                let next = Watch { stocks: codes_in(items), ..self };
                (next, next.stored(done_view(), page, true))
            },
            None => (self, only_reply(error_view("invalid payload"@))),
        }
    }

    /// Puts the providers that a request brings in place of those that are set. Where the request
    /// has no list of them it is refused; where the list cannot be read, with the reason.
    pub open spec fn with_providers(self, payload: JsonView, parsed: Parsed, page: u64) -> (
        Watch,
        Effect,
    ) {
        if array_at(payload, "ai_configs"@) is None {
            (self, only_reply(error_view("Invalid payload"@)))
        } else {
            match parsed {
                Ok(list) => {
                    let next = Watch { providers: providers(list@), ..self };
                    (next, next.stored(done_view(), page, false))
                },
                Err(reason) => (
                    self,
                    only_reply(error_view("Invalid config format: "@ + reason@)),
                ),
            }
        }
    }
}

// ---------------------------------------------------------------------------------------------
// The state
// ---------------------------------------------------------------------------------------------

fn added_reply(code: &str) -> (j: Json)
    ensures
        j@ == added_view(code@),
{
    Fields::new().with_str("status", "success").with_str("msg", "added").with_str("code", code).object()
}

fn exists_reply() -> (j: Json)
    ensures
        j@ == exists_view(),
{
    Fields::new().with_str("status", "exists").with_str("msg", "already exists").object()
}

fn removed_reply() -> (j: Json)
    ensures
        j@ == removed_view(),
{
    Fields::new().with_str("status", "success").with_str("msg", "removed").object()
}

/// Adds a code at the end of a list, unless it is there; says whether it was added.
fn add_to(list: &mut Vec<String>, code: &str) -> (added: bool)
    ensures
        added == !texts(old(list)@).contains(code@),
        texts(final(list)@) == (if added {
            texts(old(list)@).push(code@)
        } else {
            texts(old(list)@)
        }),
{
    match list_position(list, code) {
        Some(_) => false,
        None => {
            list.push(code.to_owned());
            assert(texts(list@) == texts(old(list)@).push(code@));
            true
        },
    }
}

/// Removes the first occurrence of a code from a list; says whether there was one.
fn remove_from(list: &mut Vec<String>, code: &str) -> (removed: bool)
    ensures
        removed == texts(old(list)@).contains(code@),
        texts(final(list)@) == drop_first_of(texts(old(list)@), code@),
{
    match list_position(list, code) {
        Some(i) => {
            proof {
                lemma_first_place(texts(list@), code@, i as int);
            }
            list.remove(i);
            assert(texts(list@) == texts(old(list)@).remove(i as int));
            true
        },
        None => false,
    }
}

/// Reads the codes of the stocks in a list of names.
fn read_codes(items: &Vec<Json>) -> (r: Vec<String>)
    ensures
        texts(r@) == codes_in(items_view(items@)),
{
    let ghost views = items_view(items@);
    let ghost f = |item: JsonView|
        match item.as_str() {
            Some(name) => Some(stock_code(name)),
            None => None,
        };
    let mut codes: Vec<String> = Vec::new();
    let mut i: usize = 0;
    assert(views.take(0).filter_map(f) == texts(codes@));
    while i < items.len()
        invariant
            i <= items@.len(),
            views == items_view(items@),
            f == (|item: JsonView|
                match item.as_str() {
                    Some(name) => Some(stock_code(name)),
                    None => None,
                }),
            texts(codes@) == views.take(i as int).filter_map(f),
        decreases items.len() - i,
    {
        proof {
            lemma_filter_map_step(views, f, i as int);
            assert(views[i as int] == items@[i as int]@);
        }
        if let Some(name) = items[i].as_str() {
            let ghost before = codes@;
            let code = normalize_stock_code(name);
            codes.push(code);
            assert(texts(codes@) == texts(before).push(code@));
        }
        i = i + 1;
    }
    assert(views.take(views.len() as int) == views);
    codes
}

impl AppState {
    pub closed spec fn view(&self) -> Watch {
        Watch {
            indices: texts(self.index_list@),
            stocks: texts(self.stock_list@),
            refresh_interval: self.refresh_interval,
            providers: providers(self.ai_configs@),
        }
    }

    #[verifier::type_invariant]
    spec fn ticks(&self) -> bool {
        self@.valid()
    }

    /// The state that the program starts with, and the configuration that is to be written to the
    /// file: none if there is a file, even one that cannot be read.
    pub fn start(found: ConfigFile) -> (r: (AppState, Option<AppConfig>))
        ensures
            r.0@ == Watch::of(starting_settings(found)),
            opt_settings(r.1) == (if found is Missing {
                Some(starting_settings(found))
            } else {
                None
            }),
    {
        let missing = match found {
            ConfigFile::Missing => true,
            _ => false,
        };
        let config = starting_config(found);
        let page = config.page_refresh_interval;
        let state = AppState {
            index_list: config.indices,
            stock_list: config.stocks,
            refresh_interval: config.data_fetch_interval,
            ai_configs: config.ai_configs,
        };
        let write = if missing {
            Some(state.to_config(page))
        } else {
            None
        };
        (state, write)
    }

    fn to_config(&self, page: u64) -> (r: AppConfig)
        ensures
            r@ == self@.settings(page),
    {
        AppConfig {
            indices: list_copy(&self.index_list),
            stocks: list_copy(&self.stock_list),
            data_fetch_interval: self.refresh_interval,
            page_refresh_interval: page,
            ai_configs: copy_providers(&self.ai_configs),
        }
    }

    fn store(&self, reply: Json, page: u64, refresh: bool) -> (r: Change)
        ensures
            r@ == self@.stored(reply@, page, refresh),
    {
        Change { reply, save: Some(self.to_config(page)), refresh }
    }

    /// The seconds between two rounds of fetching.
    pub fn refresh_interval(&self) -> (r: u64)
        ensures
            r == self@.refresh_interval,
            r >= 1,
    {
        proof {
            use_type_invariant(self);
        }
        self.refresh_interval
    }

    /// The AI providers.
    pub fn ai_configs(&self) -> (r: Vec<AiConfig>)
        ensures
            providers(r@) == self@.providers,
    {
        copy_providers(&self.ai_configs)
    }

    /// Begins a round through all that is watched: the indices, then the stocks.
    pub fn begin_round(&self) -> (r: RefreshRound)
        ensures
            r@ == Round::new(self@.indices + self@.stocks),
    {
        let mut codes = list_copy(&self.index_list);
        let mut stocks = list_copy(&self.stock_list);
        codes.append(&mut stocks);
        assert(texts(codes@) == texts(self.index_list@) + texts(self.stock_list@));
        RefreshRound::new(codes)
    }

    /// Answers a request for the configuration.
    pub fn get_config(&self, stored: &Option<AppConfig>) -> (j: Json)
        ensures
            j@ == self@.config_view(page_interval_of(opt_settings(*stored))),
    {
        Fields::new().with("indices", strings(&self.index_list)).with("stocks", strings(&self.stock_list)).with(
            "data_fetch_interval",
            Json::Num(Num::Unsigned(self.refresh_interval)),
        ).with("page_refresh_interval", Json::Num(Num::Unsigned(page_interval(stored)))).object()
    }

    /// Answers a request to set the intervals.
    pub fn update_config(&mut self, payload: &Json, stored: &Option<AppConfig>) -> (r: Change)
        ensures
            (final(self)@, r@) == old(self)@.with_intervals(
                payload@,
                page_interval_of(opt_settings(*stored)),
            ),
    {
        proof {
            use_type_invariant(&*self);
        }
        let mut data = self.refresh_interval;
        let mut page = page_interval(stored);
        if let Some(n) = payload.u64_at("data_fetch_interval") {
            if n < 1 {
                return Change::only(error_reply("data_fetch_interval must be >= 1"));
            }
            data = n;
        }
        if let Some(n) = payload.u64_at("page_refresh_interval") {
            if n < 1 {
                return Change::only(error_reply("page_refresh_interval must be >= 1"));
            }
            page = n;
        }
        self.refresh_interval = data;
        self.store(done_reply(), page, false)
    }

    /// Answers a request to add a stock.
    pub fn add_stock(&mut self, code: Option<&str>, stored: &Option<AppConfig>) -> (r: Change)
        ensures
            (final(self)@, r@) == old(self)@.with_stock(
                opt_text(code),
                page_interval_of(opt_settings(*stored)),
            ),
    {
        proof {
            use_type_invariant(&*self);
        }
        match code {
            Some(code) => {
                let full = normalize_stock_code(code);
                let mut list: Vec<String> = Vec::new();
                std::mem::swap(&mut list, &mut self.stock_list);
                let added = add_to(&mut list, &full);
                self.stock_list = list;
                if added {
                    self.store(added_reply(&full), page_interval(stored), true)
                } else {
                    Change { reply: exists_reply(), save: None, refresh: true }
                }
            },
            None => Change::only(error_reply("no code")),
        }
    }

    /// Answers a request to remove a stock.
    pub fn remove_stock(&mut self, payload: &Json, stored: &Option<AppConfig>) -> (r: Change)
        ensures
            (final(self)@, r@) == old(self)@.without_stock(
                payload@,
                page_interval_of(opt_settings(*stored)),
            ),
    {
        proof {
            use_type_invariant(&*self);
        }
        match payload.str_at("code") {
            Some(code) => {
                let full = normalize_stock_code(code);
                let mut list: Vec<String> = Vec::new();
                std::mem::swap(&mut list, &mut self.stock_list);
                let removed = remove_from(&mut list, &full);
                self.stock_list = list;
                if removed {
                    self.store(removed_reply(), page_interval(stored), true)
                } else {
                    Change::only(error_reply("not found"))
                }
            },
            None => Change::only(error_reply("invalid payload")),
        }
    }

    /// Answers a request to add an index.
    pub fn add_index(&mut self, code: Option<&str>, stored: &Option<AppConfig>) -> (r: Change)
        ensures
            (final(self)@, r@) == old(self)@.with_index(
                opt_text(code),
                page_interval_of(opt_settings(*stored)),
            ),
    {
        proof {
            use_type_invariant(&*self);
        }
        match code {
            Some(code) => {
                let full = normalize_index_code(code);
                let mut list: Vec<String> = Vec::new();
                std::mem::swap(&mut list, &mut self.index_list);
                let added = add_to(&mut list, &full);
                self.index_list = list;
                if added {
                    self.store(added_reply(&full), page_interval(stored), true)
                } else {
                    Change { reply: exists_reply(), save: None, refresh: true }
                }
            },
            None => Change::only(error_reply("no code")),
        }
    }

    /// Answers a request to remove an index.
    pub fn remove_index(&mut self, payload: &Json, stored: &Option<AppConfig>) -> (r: Change)
        ensures
            (final(self)@, r@) == old(self)@.without_index(
                payload@,
                page_interval_of(opt_settings(*stored)),
            ),
    {
        proof {
            use_type_invariant(&*self);
        }
        match payload.str_at("code") {
            Some(code) => {
                let full = normalize_index_code(code);
                let mut list: Vec<String> = Vec::new();
                std::mem::swap(&mut list, &mut self.index_list);
                let removed = remove_from(&mut list, &full);
                self.index_list = list;
                if removed {
                    self.store(removed_reply(), page_interval(stored), true)
                } else {
                    Change::only(error_reply("not found"))
                }
            },
            None => Change::only(error_reply("invalid payload")),
        }
    }

    /// Answers a request to put the stocks in another order.
    pub fn reorder_stocks(&mut self, payload: &Json, stored: &Option<AppConfig>) -> (r: Change)
        ensures
            (final(self)@, r@) == old(self)@.reordered(
                payload@,
                page_interval_of(opt_settings(*stored)),
            ),
    {
        proof {
            use_type_invariant(&*self);
        }
        match payload.array_at("stocks") {
            Some(items) => {
                self.stock_list = read_codes(items);
                self.store(done_reply(), page_interval(stored), true)
            },
            None => Change::only(error_reply("invalid payload")),
        }
    }

    /// Answers a request for the AI providers.
    pub fn get_ai_config(&self) -> (j: Json)
        ensures
            j@ == JsonView::object().with_str("status"@, "success"@).with(
                "data"@,
                provider_list(self@.providers),
            ),
    {
        Fields::new().with_str("status", "success").with("data", providers_json(&self.ai_configs)).object()
    }

    /// Answers a request to set the AI providers. What the entries of its list were read as is given
    /// beside it.
    pub fn update_ai_config(
        &mut self,
        payload: &Json,
        parsed: Parsed,
        stored: &Option<AppConfig>,
    ) -> (r: Change)
        ensures
            (final(self)@, r@) == old(self)@.with_providers(
                payload@,
                parsed,
                page_interval_of(opt_settings(*stored)),
            ),
    {
        proof {
            use_type_invariant(&*self);
        }
        match payload.array_at("ai_configs") {
            Some(_) => match parsed {
                Ok(list) => {
                    self.ai_configs = list;
                    self.store(done_reply(), page_interval(stored), false)
                },
                Err(reason) => Change::only(error_reply(&joined("Invalid config format: ", &reason))),
            },
            None => Change::only(error_reply("Invalid payload")),
        }
    }
}

// ---------------------------------------------------------------------------------------------
// Laws
// ---------------------------------------------------------------------------------------------

/// A request that may change the state.
pub enum Request {
    UpdateConfig(JsonView),
    AddStock(Option<Seq<char>>),
    RemoveStock(JsonView),
    AddIndex(Option<Seq<char>>),
    RemoveIndex(JsonView),
    ReorderStocks(JsonView),
    UpdateAiConfig(JsonView, Parsed),
}

impl Watch {
    /// What comes of a request.
    pub open spec fn after(self, request: Request, page: u64) -> (Watch, Effect) {
        match request {
            Request::UpdateConfig(payload) => self.with_intervals(payload, page),
            Request::AddStock(code) => self.with_stock(code, page),
            Request::RemoveStock(payload) => self.without_stock(payload, page),
            Request::AddIndex(code) => self.with_index(code, page),
            Request::RemoveIndex(payload) => self.without_index(payload, page),
            Request::ReorderStocks(payload) => self.reordered(payload, page),
            Request::UpdateAiConfig(payload, parsed) => self.with_providers(payload, parsed, page),
        }
    }
}

/// No request brings about a state that cannot come about: the interval stays at least a second.
pub proof fn law_state_stays_valid(watch: Watch, request: Request, page: u64)
    requires
        watch.valid(),
    ensures
        watch.after(request, page).0.valid(),
{
}

/// What is written to the file is the state that the request brought about; where nothing is written,
/// the state is as it was.
pub proof fn law_file_follows_state(watch: Watch, request: Request, page: u64)
    ensures
        match watch.after(request, page).1.save {
            Some(settings) => Watch::of(settings) == watch.after(request, page).0,
            None => watch.after(request, page).0 == watch,
        },
{
}

/// A request that is answered with an error leaves the state and the file as they are, and fetches
/// nothing.
pub proof fn law_refusal_changes_nothing(watch: Watch, request: Request, page: u64)
    requires
        str_at(watch.after(request, page).1.reply, "status"@) == Some("error"@),
    ensures
        watch.after(request, page).0 == watch,
        watch.after(request, page).1.save is None,
        !watch.after(request, page).1.refresh,
{
    reveal_strlit("error");
    reveal_strlit("success");
    reveal_strlit("exists");
    assert("error"@.len() == 5);
    let reply = watch.after(request, page).1.reply;
    assert(reply->Obj_0[0].0 == "status"@);
}

/// A program that is started again goes on with the state that was last written.
pub proof fn law_restart(watch: Watch, request: Request, page: u64, config: AppConfig)
    requires
        watch.valid(),
        page >= 1,
        watch.after(request, page).1.save == Some(config@),
    ensures
        starting_settings(ConfigFile::Stored(config)) == config@,
        Watch::of(starting_settings(ConfigFile::Stored(config))) == watch.after(request, page).0,
{
}

/// The interval of the pages that a request finds in the file stands there after it too, unless the
/// request sets it; then the one that it set stands there.
pub proof fn law_page_interval_is_kept(
    watch: Watch,
    request: Request,
    stored: Option<Settings>,
)
    ensures
        page_interval_of(stored) >= 1,
        watch.after(request, page_interval_of(stored)).1.save matches Some(settings)
            ==> page_interval_of(Some(settings)) == (match request {
            Request::UpdateConfig(payload) => match u64_at(payload, "page_refresh_interval"@) {
                Some(n) => n,
                None => page_interval_of(stored),
            },
            _ => page_interval_of(stored),
        }),
{
}

/// A stock that is added twice stands in the list once: the second time it is there already.
pub proof fn law_add_twice(watch: Watch, code: Seq<char>, page: u64)
    ensures
        watch.with_stock(Some(code), page).0.stocks.contains(stock_code(code)),
        ({
            let once = watch.with_stock(Some(code), page).0;
            &&& once.with_stock(Some(code), page).0 == once
            &&& once.with_stock(Some(code), page).1.reply == exists_view()
            &&& once.with_stock(Some(code), page).1.save is None
        }),
{
    let once = watch.with_stock(Some(code), page).0;
    if !watch.stocks.contains(stock_code(code)) {
        assert(once.stocks[watch.stocks.len() as int] == stock_code(code));
    }
}

/// An index that is added twice stands in the list once.
pub proof fn law_add_index_twice(watch: Watch, code: Seq<char>, page: u64)
    ensures
        watch.with_index(Some(code), page).0.indices.contains(index_code(code)),
        ({
            let once = watch.with_index(Some(code), page).0;
            &&& once.with_index(Some(code), page).0 == once
            &&& once.with_index(Some(code), page).1.reply == exists_view()
            &&& once.with_index(Some(code), page).1.save is None
        }),
{
    let once = watch.with_index(Some(code), page).0;
    if !watch.indices.contains(index_code(code)) {
        assert(once.indices[watch.indices.len() as int] == index_code(code));
    }
}

proof fn lemma_drop_pushed(list: Seq<Seq<char>>, code: Seq<char>)
    requires
        !list.contains(code),
    ensures
        list.push(code).contains(code),
        drop_first_of(list.push(code), code) == list,
{
    let longer = list.push(code);
    assert(longer[list.len() as int] == code);
    assert forall|j: int| 0 <= j < list.len() implies longer[j] != code by {
        assert(longer[j] == list[j]);
        assert(list.contains(list[j]));
    }
    lemma_first_place(longer, code, list.len() as int);
    assert(longer.remove(list.len() as int) == list);
}

/// To remove a stock that was just added undoes the adding.
pub proof fn law_remove_undoes_add(watch: Watch, code: Seq<char>, payload: JsonView, page: u64)
    requires
        !watch.stocks.contains(stock_code(code)),
        str_at(payload, "code"@) == Some(code),
    ensures
        watch.with_stock(Some(code), page).0.without_stock(payload, page).0 == watch,
        watch.with_stock(Some(code), page).0.without_stock(payload, page).1.reply == removed_view(),
{
    lemma_drop_pushed(watch.stocks, stock_code(code));
}

/// To remove an index that was just added undoes the adding.
pub proof fn law_remove_index_undoes_add(watch: Watch, code: Seq<char>, payload: JsonView, page: u64)
    requires
        !watch.indices.contains(index_code(code)),
        str_at(payload, "code"@) == Some(code),
    ensures
        watch.with_index(Some(code), page).0.without_index(payload, page).0 == watch,
        watch.with_index(Some(code), page).0.without_index(payload, page).1.reply == removed_view(),
{
    lemma_drop_pushed(watch.indices, index_code(code));
}

proof fn lemma_drop_first(list: Seq<Seq<char>>, code: Seq<char>)
    requires
        list.contains(code),
    ensures
        0 <= first_place(list, code) < list.len(),
        list[first_place(list, code)] == code,
    decreases list.len(),
{
    if list[0] != code {
        let i = choose|i: int| 0 <= i < list.len() && list[i] == code;
        assert(list.skip(1)[i - 1] == code);
        lemma_drop_first(list.skip(1), code);
    }
}

proof fn lemma_stays_distinct(list: Seq<Seq<char>>, code: Seq<char>)
    requires
        list.no_duplicates(),
    ensures
        !list.contains(code) ==> list.push(code).no_duplicates(),
        drop_first_of(list, code).no_duplicates(),
        !drop_first_of(list, code).contains(code),
        forall|other: Seq<char>|
            other != code ==> (#[trigger] drop_first_of(list, code).contains(other) == list.contains(
                other,
            )),
{
    if list.contains(code) {
        lemma_drop_first(list, code);
        let place = first_place(list, code);
        let rest = drop_first_of(list, code);
        assert forall|i: int, j: int| 0 <= i < j < rest.len() implies rest[i] != rest[j] by {
            assert(rest[i] == list[if i < place { i } else { i + 1 }]);
            assert(rest[j] == list[if j < place { j } else { j + 1 }]);
        }
        assert forall|i: int| 0 <= i < rest.len() implies rest[i] != code by {
            assert(rest[i] == list[if i < place { i } else { i + 1 }]);
        }
        assert forall|other: Seq<char>| other != code implies #[trigger] rest.contains(other)
            == list.contains(other) by {
            if list.contains(other) {
                let i = choose|i: int| 0 <= i < list.len() && list[i] == other;
                assert(rest[if i < place { i } else { i - 1 }] == other);
            }
            if rest.contains(other) {
                let i = choose|i: int| 0 <= i < rest.len() && rest[i] == other;
                assert(list[if i < place { i } else { i + 1 }] == other);
            }
        }
    }
}

/// Where nothing is watched twice, nothing is after any request but one that lists the stocks anew,
/// which can list one twice.
pub proof fn law_state_stays_distinct(watch: Watch, request: Request, page: u64)
    requires
        watch.indices.no_duplicates(),
        watch.stocks.no_duplicates(),
        request !is ReorderStocks,
    ensures
        watch.after(request, page).0.indices.no_duplicates(),
        watch.after(request, page).0.stocks.no_duplicates(),
{
    match request {
        Request::AddStock(Some(code)) => lemma_stays_distinct(watch.stocks, stock_code(code)),
        Request::AddIndex(Some(code)) => lemma_stays_distinct(watch.indices, index_code(code)),
        Request::RemoveStock(payload) => if let Some(code) = str_at(payload, "code"@) {
            lemma_stays_distinct(watch.stocks, stock_code(code));
        },
        Request::RemoveIndex(payload) => if let Some(code) = str_at(payload, "code"@) {
            lemma_stays_distinct(watch.indices, index_code(code));
        },
        _ => {},
    }
}

/// What was removed is no longer watched, and all else is, where nothing was watched twice.
pub proof fn law_removed_is_gone(watch: Watch, payload: JsonView, code: Seq<char>, page: u64)
    requires
        str_at(payload, "code"@) == Some(code),
        watch.stocks.no_duplicates(),
        watch.indices.no_duplicates(),
    ensures
        ({
            let (next, _) = watch.without_stock(payload, page);
            &&& !next.stocks.contains(stock_code(code))
            &&& forall|other: Seq<char>|
                other != stock_code(code) ==> (#[trigger] next.stocks.contains(other)
                    == watch.stocks.contains(other))
            &&& next.indices == watch.indices
        }),
        ({
            let (next, _) = watch.without_index(payload, page);
            &&& !next.indices.contains(index_code(code))
            &&& forall|other: Seq<char>|
                other != index_code(code) ==> (#[trigger] next.indices.contains(other)
                    == watch.indices.contains(other))
            &&& next.stocks == watch.stocks
        }),
{
    lemma_stays_distinct(watch.stocks, stock_code(code));
    lemma_stays_distinct(watch.indices, index_code(code));
}

/// A request that lists the stocks by name puts them in the order of the list, every one of them.
pub proof fn law_reorder_takes_the_order(
    watch: Watch,
    payload: JsonView,
    names: Seq<Seq<char>>,
    page: u64,
)
    requires
        payload.get("stocks"@) == Some(strings_view(names)),
    ensures
        watch.reordered(payload, page).0.stocks == names.map_values(|n: Seq<char>| stock_code(n)),
        watch.reordered(payload, page).0.indices == watch.indices,
        watch.reordered(payload, page).1.reply == done_view(),
{
    lemma_codes_of_names(names);
}

proof fn lemma_codes_of_names(names: Seq<Seq<char>>)
    ensures
        codes_in(names.map_values(|s: Seq<char>| JsonView::Str(s))) == names.map_values(
            |n: Seq<char>| stock_code(n),
        ),
    decreases names.len(),
{
    let items = names.map_values(|s: Seq<char>| JsonView::Str(s));
    let f = |item: JsonView|
        match item.as_str() {
            Some(name) => Some(stock_code(name)),
            None => None,
        };
    if names.len() == 0 {
        assert(items.filter_map(f) =~= Seq::empty());
    } else {
        let shorter = names.drop_last();
        lemma_codes_of_names(shorter);
        lemma_filter_map_step(items, f, items.len() - 1);
        assert(items.take(items.len() as int) == items);
        assert(items.take(items.len() - 1) == shorter.map_values(|s: Seq<char>| JsonView::Str(s)));
        assert(names.map_values(|n: Seq<char>| stock_code(n)) == shorter.map_values(
            |n: Seq<char>| stock_code(n),
        ).push(stock_code(names.last())));
    }
}

/// An interval that was set is the one that is answered from then on, and one that was not set is
/// answered as before.
pub proof fn law_intervals_take_effect(watch: Watch, payload: JsonView, page: u64)
    requires
        page >= 1,
        u64_at(payload, "data_fetch_interval"@) != Some(0u64),
        u64_at(payload, "page_refresh_interval"@) != Some(0u64),
    ensures
        ({
            let (next, effect) = watch.with_intervals(payload, page);
            let shown = next.config_view(page_interval_of(effect.save));
            &&& effect.reply == done_view()
            &&& u64_at(shown, "data_fetch_interval"@) == (match u64_at(
                payload,
                "data_fetch_interval"@,
            ) {
                Some(n) => Some(n),
                None => u64_at(watch.config_view(page), "data_fetch_interval"@),
            })
            &&& u64_at(shown, "page_refresh_interval"@) == (match u64_at(
                payload,
                "page_refresh_interval"@,
            ) {
                Some(n) => Some(n),
                None => u64_at(watch.config_view(page), "page_refresh_interval"@),
            })
            &&& next == (Watch { refresh_interval: next.refresh_interval, ..watch })
        }),
{
    let (next, effect) = watch.with_intervals(payload, page);
    lemma_config_shows(next, page_interval_of(effect.save));
    lemma_config_shows(watch, page);
}

proof fn lemma_config_shows(watch: Watch, page: u64)
    ensures
        u64_at(watch.config_view(page), "data_fetch_interval"@) == Some(watch.refresh_interval),
        u64_at(watch.config_view(page), "page_refresh_interval"@) == Some(page),
{
    reveal_strlit("indices");
    reveal_strlit("stocks");
    reveal_strlit("data_fetch_interval");
    reveal_strlit("page_refresh_interval");
    assert("indices"@.len() == 7);
    assert("stocks"@.len() == 6);
    assert("data_fetch_interval"@.len() == 19);
    assert("page_refresh_interval"@.len() == 21);
    let fields = watch.config_view(page)->Obj_0;
    reveal_with_fuel(field_of, 5);
    assert(fields.skip(1)[0] == fields[1]);
    assert(fields.skip(1).skip(1)[0] == fields[2]);
    assert(fields.skip(1).skip(1).skip(1)[0] == fields[3]);
}

impl Request {
    /// The names of the stocks that a request brings to the list.
    pub open spec fn stock_names(self) -> Seq<Seq<char>> {
        match self {
            Request::AddStock(Some(code)) => Seq::empty().push(code),
            Request::ReorderStocks(payload) => match array_at(payload, "stocks"@) {
                Some(items) => items.filter_map(|item: JsonView| item.as_str()),
                None => Seq::empty(),
            },
            _ => Seq::empty(),
        }
    }
}

/// Whether every stock of a list stands there by its full code.
pub open spec fn all_full(list: Seq<Seq<char>>) -> bool {
    forall|i: int| 0 <= i < list.len() ==> is_full(#[trigger] list[i])
}

proof fn lemma_codes_in(items: Seq<JsonView>)
    ensures
        codes_in(items) == items.filter_map(|item: JsonView| item.as_str()).map_values(
            |n: Seq<char>| stock_code(n),
        ),
    decreases items.len(),
{
    let f = |item: JsonView|
        match item.as_str() {
            Some(name) => Some(stock_code(name)),
            None => None,
        };
    let g = |item: JsonView| item.as_str();
    let names = items.filter_map(g);
    if items.len() == 0 {
        assert(items.filter_map(f) =~= Seq::empty());
        assert(names =~= Seq::empty());
    } else {
        let n = items.len() - 1;
        lemma_codes_in(items.take(n));
        lemma_filter_map_step(items, f, n);
        lemma_filter_map_step(items, g, n);
        assert(items.take(items.len() as int) == items);
        let before = items.take(n).filter_map(g);
        if let Some(name) = items[n].as_str() {
            assert(before.push(name).map_values(|n: Seq<char>| stock_code(n)) =~= before.map_values(
                |n: Seq<char>| stock_code(n),
            ).push(stock_code(name)));
        }
    }
}

/// Where every stock stands in the list by its full code, it does so after any request, if the names
/// that the request brings are in ASCII, or at least have full codes that are their own.
pub proof fn law_stocks_stay_full(watch: Watch, request: Request, page: u64)
    requires
        all_full(watch.stocks),
        forall|i: int|
            0 <= i < request.stock_names().len() ==> {
                let name = #[trigger] request.stock_names()[i];
                is_ascii_chars(name) || is_full(stock_code(name))
            },
    ensures
        all_full(watch.after(request, page).0.stocks),
{
    let names = request.stock_names();
    assert forall|i: int| 0 <= i < names.len() implies is_full(stock_code(#[trigger] names[i])) by {
        if is_ascii_chars(names[i]) {
            law_stock_code_is_settled(names[i]);
        }
    }
    let next = watch.after(request, page).0.stocks;
    match request {
        Request::AddStock(Some(code)) => {
            assert(names[0] == code);
            assert(forall|i: int| 0 <= i < watch.stocks.len() ==> is_full(#[trigger] watch.stocks[i]));
        },
        Request::ReorderStocks(payload) => {
            if let Some(items) = array_at(payload, "stocks"@) {
                lemma_codes_in(items);
                assert forall|i: int| 0 <= i < next.len() implies is_full(#[trigger] next[i]) by {
                    assert(next[i] == stock_code(names[i]));
                }
            }
        },
        Request::RemoveStock(payload) => {
            if let Some(code) = str_at(payload, "code"@) {
                let full = stock_code(code);
                if watch.stocks.contains(full) {
                    lemma_drop_first(watch.stocks, full);
                    let place = first_place(watch.stocks, full);
                    assert forall|i: int| 0 <= i < next.len() implies is_full(#[trigger] next[i]) by {
                        assert(next[i] == watch.stocks[if i < place { i } else { i + 1 }]);
                    }
                }
            }
        },
        _ => {},
    }
}

/// To add a stock leaves those in the list where they are and puts at most one behind them. Nothing
/// stands twice where nothing did, every stock stands by its full code where each did, and to add
/// the same stock again changes nothing and is not answered with success.
pub proof fn law_add_stock(watch: Watch, code: Seq<char>, page: u64)
    requires
        watch.stocks.no_duplicates(),
        all_full(watch.stocks),
    ensures
        ({
            let (once, _) = watch.with_stock(Some(code), page);
            let (twice, effect) = once.with_stock(Some(code), page);
            &&& once.stocks.no_duplicates()
            &&& watch.stocks.is_prefix_of(once.stocks)
            &&& once.stocks.len() <= watch.stocks.len() + 1
            &&& is_ascii_chars(code) || is_full(stock_code(code)) ==> all_full(once.stocks)
            &&& twice == once
            &&& str_at(effect.reply, "status"@) != Some("success"@)
        }),
{
    let request = Request::AddStock(Some(code));
    law_state_stays_distinct(Watch { indices: Seq::empty(), ..watch }, request, page);
    law_add_twice(watch, code, page);
    if is_ascii_chars(code) || is_full(stock_code(code)) {
        law_stocks_stay_full(watch, request, page);
    }
    let once = watch.with_stock(Some(code), page).0;
    assert(watch.stocks =~= once.stocks.subrange(0, watch.stocks.len() as int));
    reveal_strlit("exists");
    reveal_strlit("success");
    assert("exists"@.len() == 6);
    assert(exists_view()->Obj_0[0].0 == "status"@);
}

/// Whether every index of a list stands there by its full code.
pub open spec fn all_full_indices(list: Seq<Seq<char>>) -> bool {
    forall|i: int| 0 <= i < list.len() ==> is_full_index(#[trigger] list[i])
}

/// Where every index stands in the list by its full code, it does so after any request, if the name
/// of an index that it adds is in ASCII, or at least has a full code that is its own.
pub proof fn law_indices_stay_full(watch: Watch, request: Request, page: u64)
    requires
        all_full_indices(watch.indices),
        request matches Request::AddIndex(Some(name)) ==> is_ascii_chars(name) || is_full_index(
            index_code(name),
        ),
    ensures
        all_full_indices(watch.after(request, page).0.indices),
{
    let next = watch.after(request, page).0.indices;
    match request {
        Request::AddIndex(Some(code)) => {
            if is_ascii_chars(code) {
                law_index_code_is_settled(code);
            }
            assert(forall|i: int|
                0 <= i < watch.indices.len() ==> is_full_index(#[trigger] watch.indices[i]));
        },
        Request::RemoveIndex(payload) => {
            if let Some(code) = str_at(payload, "code"@) {
                let full = index_code(code);
                if watch.indices.contains(full) {
                    lemma_drop_first(watch.indices, full);
                    let place = first_place(watch.indices, full);
                    assert forall|i: int| 0 <= i < next.len() implies is_full_index(
                        #[trigger] next[i],
                    ) by {
                        assert(next[i] == watch.indices[if i < place { i } else { i + 1 }]);
                    }
                }
            }
        },
        _ => {},
    }
}

/// To add an index leaves those in the list where they are and puts at most one behind them. Nothing
/// stands twice where nothing did, every index stands by its full code where each did, and to add
/// the same index again changes nothing and is not answered with success.
pub proof fn law_add_index(watch: Watch, code: Seq<char>, page: u64)
    requires
        watch.indices.no_duplicates(),
        all_full_indices(watch.indices),
    ensures
        ({
            let (once, _) = watch.with_index(Some(code), page);
            let (twice, effect) = once.with_index(Some(code), page);
            &&& once.indices.no_duplicates()
            &&& watch.indices.is_prefix_of(once.indices)
            &&& once.indices.len() <= watch.indices.len() + 1
            &&& is_ascii_chars(code) || is_full_index(index_code(code)) ==> all_full_indices(
                once.indices,
            )
            &&& twice == once
            &&& str_at(effect.reply, "status"@) != Some("success"@)
        }),
{
    let request = Request::AddIndex(Some(code));
    law_state_stays_distinct(Watch { stocks: Seq::empty(), ..watch }, request, page);
    law_add_index_twice(watch, code, page);
    if is_ascii_chars(code) || is_full_index(index_code(code)) {
        law_indices_stay_full(watch, request, page);
    }
    let once = watch.with_index(Some(code), page).0;
    assert(watch.indices =~= once.indices.subrange(0, watch.indices.len() as int));
    reveal_strlit("exists");
    reveal_strlit("success");
    assert("exists"@.len() == 6);
    assert(exists_view()->Obj_0[0].0 == "status"@);
}

/// A stock that is not watched is put behind the others, stored and fetched, and answered by its full
/// code; one that is watched is told to exist, and nothing is stored; without a code the request is
/// refused.
pub proof fn law_add_stock_answers(watch: Watch, code: Seq<char>, page: u64)
    ensures
        !watch.stocks.contains(stock_code(code)) ==> {
            let (next, effect) = watch.with_stock(Some(code), page);
            &&& next.stocks == watch.stocks.push(stock_code(code))
            &&& next == (Watch { stocks: next.stocks, ..watch })
            &&& effect.reply.get("status"@) == Some(JsonView::Str("success"@))
            &&& effect.reply.get("msg"@) == Some(JsonView::Str("added"@))
            &&& effect.reply.get("code"@) == Some(JsonView::Str(stock_code(code)))
            &&& effect.save is Some
            &&& effect.refresh
        },
        watch.stocks.contains(stock_code(code)) ==> {
            let (next, effect) = watch.with_stock(Some(code), page);
            &&& next == watch
            &&& effect.reply.get("status"@) == Some(JsonView::Str("exists"@))
            &&& effect.reply.get("msg"@) == Some(JsonView::Str("already exists"@))
            &&& effect.save is None
            &&& effect.refresh
        },
        ({
            let (next, effect) = watch.with_stock(None, page);
            &&& next == watch
            &&& effect.reply.get("status"@) == Some(JsonView::Str("error"@))
            &&& effect.reply.get("msg"@) == Some(JsonView::Str("no code"@))
            &&& effect.save is None
        }),
{
    broadcast use law_field_is_found, law_empty_object;

    reveal_strlit("status");
    reveal_strlit("msg");
    reveal_strlit("code");
    assert("status"@.len() == 6);
    assert("msg"@.len() == 3);
    assert("code"@.len() == 4);
}

/// The first place of a stock in the list is cleared, and all else stays in its order; the state is
/// stored and fetched. One that is not watched is not found, and a request that does not name one is
/// refused.
pub proof fn law_remove_stock_answers(
    watch: Watch,
    payload: JsonView,
    name: Seq<char>,
    before: Seq<Seq<char>>,
    after: Seq<Seq<char>>,
    page: u64,
)
    ensures
        payload.get("code"@) == Some(JsonView::Str(name)) && watch.stocks == before.push(stock_code(name))
            + after && !before.contains(stock_code(name)) ==> {
            let (next, effect) = watch.without_stock(payload, page);
            &&& next.stocks == before + after
            &&& next == (Watch { stocks: next.stocks, ..watch })
            &&& effect.reply.get("status"@) == Some(JsonView::Str("success"@))
            &&& effect.reply.get("msg"@) == Some(JsonView::Str("removed"@))
            &&& effect.save is Some
            &&& effect.refresh
        },
        payload.get("code"@) == Some(JsonView::Str(name)) && !watch.stocks.contains(stock_code(name)) ==> {
            let (next, effect) = watch.without_stock(payload, page);
            &&& next == watch
            &&& effect.reply.get("status"@) == Some(JsonView::Str("error"@))
            &&& effect.reply.get("msg"@) == Some(JsonView::Str("not found"@))
            &&& effect.save is None
        },
        payload.get("code"@) is None ==> {
            let (next, effect) = watch.without_stock(payload, page);
            &&& next == watch
            &&& effect.reply.get("status"@) == Some(JsonView::Str("error"@))
            &&& effect.reply.get("msg"@) == Some(JsonView::Str("invalid payload"@))
            &&& effect.save is None
        },
{
    broadcast use law_field_is_found, law_empty_object;

    reveal_strlit("status");
    reveal_strlit("msg");
    assert("status"@.len() == 6);
    assert("msg"@.len() == 3);
    let full = stock_code(name);
    if watch.stocks == before.push(full) + after && !before.contains(full) {
        let n = before.len() as int;
        let list = watch.stocks;
        assert(list[n] == full);
        assert forall|j: int| 0 <= j < n implies list[j] != full by {
            assert(list[j] == before[j]);
            assert(before.contains(before[j]));
        }
        lemma_first_place(list, full, n);
        assert(list.contains(full));
        assert(list.remove(n) =~= before + after);
    }
}

/// An index that is not watched is put behind the others, stored and fetched, and answered by its full
/// code; one that is watched is told to exist, and nothing is stored; without a code the request is
/// refused.
pub proof fn law_add_index_answers(watch: Watch, code: Seq<char>, page: u64)
    ensures
        !watch.indices.contains(index_code(code)) ==> {
            let (next, effect) = watch.with_index(Some(code), page);
            &&& next.indices == watch.indices.push(index_code(code))
            &&& next == (Watch { indices: next.indices, ..watch })
            &&& effect.reply.get("status"@) == Some(JsonView::Str("success"@))
            &&& effect.reply.get("msg"@) == Some(JsonView::Str("added"@))
            &&& effect.reply.get("code"@) == Some(JsonView::Str(index_code(code)))
            &&& effect.save is Some
            &&& effect.refresh
        },
        watch.indices.contains(index_code(code)) ==> {
            let (next, effect) = watch.with_index(Some(code), page);
            &&& next == watch
            &&& effect.reply.get("status"@) == Some(JsonView::Str("exists"@))
            &&& effect.reply.get("msg"@) == Some(JsonView::Str("already exists"@))
            &&& effect.save is None
            &&& effect.refresh
        },
        ({
            let (next, effect) = watch.with_index(None, page);
            &&& next == watch
            &&& effect.reply.get("status"@) == Some(JsonView::Str("error"@))
            &&& effect.reply.get("msg"@) == Some(JsonView::Str("no code"@))
            &&& effect.save is None
        }),
{
    broadcast use law_field_is_found, law_empty_object;

    reveal_strlit("status");
    reveal_strlit("msg");
    reveal_strlit("code");
    assert("status"@.len() == 6);
    assert("msg"@.len() == 3);
    assert("code"@.len() == 4);
}

/// The first place of an index in the list is cleared, and all else stays in its order; the state is
/// stored and fetched. One that is not watched is not found, and a request that does not name one is
/// refused.
pub proof fn law_remove_index_answers(
    watch: Watch,
    payload: JsonView,
    name: Seq<char>,
    before: Seq<Seq<char>>,
    after: Seq<Seq<char>>,
    page: u64,
)
    ensures
        payload.get("code"@) == Some(JsonView::Str(name)) && watch.indices == before.push(index_code(name))
            + after && !before.contains(index_code(name)) ==> {
            let (next, effect) = watch.without_index(payload, page);
            &&& next.indices == before + after
            &&& next == (Watch { indices: next.indices, ..watch })
            &&& effect.reply.get("status"@) == Some(JsonView::Str("success"@))
            &&& effect.reply.get("msg"@) == Some(JsonView::Str("removed"@))
            &&& effect.save is Some
            &&& effect.refresh
        },
        payload.get("code"@) == Some(JsonView::Str(name)) && !watch.indices.contains(index_code(name)) ==> {
            let (next, effect) = watch.without_index(payload, page);
            &&& next == watch
            &&& effect.reply.get("status"@) == Some(JsonView::Str("error"@))
            &&& effect.reply.get("msg"@) == Some(JsonView::Str("not found"@))
            &&& effect.save is None
        },
        payload.get("code"@) is None ==> {
            let (next, effect) = watch.without_index(payload, page);
            &&& next == watch
            &&& effect.reply.get("status"@) == Some(JsonView::Str("error"@))
            &&& effect.reply.get("msg"@) == Some(JsonView::Str("invalid payload"@))
            &&& effect.save is None
        },
{
    broadcast use law_field_is_found, law_empty_object;

    reveal_strlit("status");
    reveal_strlit("msg");
    assert("status"@.len() == 6);
    assert("msg"@.len() == 3);
    let full = index_code(name);
    if watch.indices == before.push(full) + after && !before.contains(full) {
        let n = before.len() as int;
        let list = watch.indices;
        assert(list[n] == full);
        assert forall|j: int| 0 <= j < n implies list[j] != full by {
            assert(list[j] == before[j]);
            assert(before.contains(before[j]));
        }
        lemma_first_place(list, full, n);
        assert(list.contains(full));
        assert(list.remove(n) =~= before + after);
    }
}

/// What is written to the file has each part of the new state in its place.
pub proof fn law_saved_parts(watch: Watch, request: Request, page: u64)
    ensures
        watch.after(request, page).1.save matches Some(saved) ==> {
            let next = watch.after(request, page).0;
            &&& saved.indices == next.indices
            &&& saved.stocks == next.stocks
            &&& saved.data_fetch_interval == next.refresh_interval
            &&& saved.providers == next.providers
        },
{
}

/// Whenever the list of stocks or of indices changes, the data is fetched anew.
pub proof fn law_changes_are_fetched(watch: Watch, request: Request, page: u64)
    requires
        watch.after(request, page).0.stocks != watch.stocks || watch.after(request, page).0.indices
            != watch.indices,
    ensures
        watch.after(request, page).1.refresh,
        watch.after(request, page).1.save is Some,
{
}

/// An interval of zero is refused, the one between two rounds before that of the pages, and nothing is
/// changed by it.
pub proof fn law_zero_intervals_are_refused(watch: Watch, payload: JsonView, page: u64)
    ensures
        payload.get("data_fetch_interval"@) == Some(JsonView::Num(NumView::Unsigned(0))) ==> {
            let (next, effect) = watch.with_intervals(payload, page);
            &&& next == watch
            &&& effect.save is None
            &&& effect.reply.get("status"@) == Some(JsonView::Str("error"@))
            &&& effect.reply.get("msg"@) == Some(
                JsonView::Str("data_fetch_interval must be >= 1"@),
            )
        },
        payload.get("data_fetch_interval"@) != Some(JsonView::Num(NumView::Unsigned(0)))
            && payload.get("page_refresh_interval"@) == Some(JsonView::Num(NumView::Unsigned(0)))
            ==> {
            let (next, effect) = watch.with_intervals(payload, page);
            &&& next == watch
            &&& effect.save is None
            &&& effect.reply.get("status"@) == Some(JsonView::Str("error"@))
            &&& effect.reply.get("msg"@) == Some(
                JsonView::Str("page_refresh_interval must be >= 1"@),
            )
        },
{
    broadcast use law_field_is_found, law_empty_object;

    reveal_strlit("status");
    reveal_strlit("msg");
    assert("status"@.len() == 6);
    assert("msg"@.len() == 3);
}

/// The configuration is answered with the indices and the stocks in their order, and with both
/// intervals, each under its own name.
pub proof fn law_config_by_key(watch: Watch, page: u64)
    ensures
        ({
            let shown = watch.config_view(page);
            &&& array_at(shown, "indices"@) matches Some(list) && list.len() == watch.indices.len()
                && forall|i: int|
                0 <= i < list.len() ==> #[trigger] list[i] == JsonView::Str(watch.indices[i])
            &&& array_at(shown, "stocks"@) matches Some(list) && list.len() == watch.stocks.len()
                && forall|i: int|
                0 <= i < list.len() ==> #[trigger] list[i] == JsonView::Str(watch.stocks[i])
            &&& shown.get("data_fetch_interval"@) == Some(
                JsonView::Num(NumView::Unsigned(watch.refresh_interval)),
            )
            &&& shown.get("page_refresh_interval"@) == Some(JsonView::Num(NumView::Unsigned(page)))
        }),
{
    broadcast use law_field_is_found, law_empty_object;

    reveal_strlit("indices");
    reveal_strlit("stocks");
    reveal_strlit("data_fetch_interval");
    reveal_strlit("page_refresh_interval");
    assert("indices"@.len() == 7);
    assert("stocks"@.len() == 6);
    assert("data_fetch_interval"@.len() == 19);
    assert("page_refresh_interval"@.len() == 21);
}

/// A list of providers that could be read takes the place of the one that was set, and is stored; one
/// that could not is refused with the reason, and a request without a list is refused.
pub proof fn law_providers_are_set(
    watch: Watch,
    payload: JsonView,
    list: Seq<JsonView>,
    parsed: Parsed,
    page: u64,
)
    ensures
        payload.get("ai_configs"@) == Some(JsonView::Arr(list)) ==> {
            let (next, effect) = watch.with_providers(payload, parsed, page);
            match parsed {
                Ok(configs) => {
                    &&& next.providers.len() == configs@.len()
                    &&& forall|i: int|
                        0 <= i < configs@.len() ==> #[trigger] next.providers[i] == configs@[i]@
                    &&& next == (Watch { providers: next.providers, ..watch })
                    &&& effect.reply.get("status"@) == Some(JsonView::Str("success"@))
                    &&& effect.save is Some
                },
                Err(reason) => {
                    &&& next == watch
                    &&& effect.reply.get("status"@) == Some(JsonView::Str("error"@))
                    &&& effect.reply.get("msg"@) == Some(
                        JsonView::Str("Invalid config format: "@ + reason@),
                    )
                    &&& effect.save is None
                },
            }
        },
        payload.get("ai_configs"@) is None ==> {
            let (next, effect) = watch.with_providers(payload, parsed, page);
            &&& next == watch
            &&& effect.reply.get("status"@) == Some(JsonView::Str("error"@))
            &&& effect.reply.get("msg"@) == Some(JsonView::Str("Invalid payload"@))
            &&& effect.save is None
        },
{
    broadcast use law_field_is_found, law_empty_object;

    reveal_strlit("status");
    reveal_strlit("msg");
    assert("status"@.len() == 6);
    assert("msg"@.len() == 3);
}

} // verus!
