//! The configuration: what is watched, how often, and which AI providers are asked.
//!
//! It is kept in a file. Reading and writing the file is left to the program; what a stored
//! configuration means, and what holds without one, is said here.
use crate::json::{
    items_view, law_empty_object, law_field_is_found, lemma_arr_view, Fields, Json, JsonView, Num,
    NumView,
};
use crate::text::texts;
use vstd::prelude::*;

verus! {

/// An AI provider: where it is, and which models it is asked for. The lists of models are names with
/// commas between them.
#[derive(Debug, PartialEq, Eq)]
pub struct AiConfig {
    pub id: String,
    pub name: String,
    pub config_type: String,
    pub api_url: String,
    pub api_key: String,
    pub main_models: String,
    pub fallback_models: String,
    pub model: String,
    pub timeout_seconds: u64,
}

/// What an [`AiConfig`] stands for.
pub struct Provider {
    pub id: Seq<char>,
    pub name: Seq<char>,
    pub config_type: Seq<char>,
    pub api_url: Seq<char>,
    pub api_key: Seq<char>,
    pub main_models: Seq<char>,
    pub fallback_models: Seq<char>,
    pub model: Seq<char>,
    pub timeout_seconds: u64,
}

impl AiConfig {
    pub open spec fn view(&self) -> Provider {
        Provider {
            id: self.id@,
            name: self.name@,
            config_type: self.config_type@,
            api_url: self.api_url@,
            api_key: self.api_key@,
            main_models: self.main_models@,
            fallback_models: self.fallback_models@,
            model: self.model@,
            timeout_seconds: self.timeout_seconds,
        }
    }

    /// A copy.
    pub fn copy(&self) -> (r: AiConfig)
        ensures
            r@ == self@,
    {
        AiConfig {
            id: self.id.clone(),
            name: self.name.clone(),
            config_type: self.config_type.clone(),
            api_url: self.api_url.clone(),
            api_key: self.api_key.clone(),
            main_models: self.main_models.clone(),
            fallback_models: self.fallback_models.clone(),
            model: self.model.clone(),
            timeout_seconds: self.timeout_seconds,
        }
    }
}

/// What a list of providers stands for.
pub open spec fn providers(list: Seq<AiConfig>) -> Seq<Provider> {
    list.map_values(|c: AiConfig| c@)
}

/// A copy of a list of providers.
pub fn copy_providers(list: &Vec<AiConfig>) -> (r: Vec<AiConfig>)
    ensures
        providers(r@) == providers(list@),
{
    let mut r: Vec<AiConfig> = Vec::new();
    let mut i: usize = 0;
    while i < list.len()
        invariant
            i <= list@.len(),
            r@.len() == i,
            forall|k: int| 0 <= k < i ==> (#[trigger] r@[k])@ == list@[k]@,
        decreases list.len() - i,
    {
        r.push(list[i].copy());
        i = i + 1;
    }
    assert(providers(r@) == providers(list@));
    r
}

/// A provider as it is handed out.
pub open spec fn provider_view(p: Provider) -> JsonView {
    JsonView::object().with_str("id"@, p.id).with_str("name"@, p.name).with_str(
        "type"@,
        p.config_type,
    ).with_str("apiUrl"@, p.api_url).with_str("apiKey"@, p.api_key).with_str(
        "mainModels"@,
        p.main_models,
    ).with_str("fallbackModels"@, p.fallback_models).with_str("model"@, p.model).with(
        "timeoutSeconds"@,
        JsonView::Num(NumView::Unsigned(p.timeout_seconds)),
    )
}

/// The providers as they are handed out.
pub open spec fn provider_list(list: Seq<Provider>) -> JsonView {
    JsonView::Arr(list.map_values(|p: Provider| provider_view(p)))
}

fn provider_json(c: &AiConfig) -> (j: Json)
    ensures
        j@ == provider_view(c@),
{
    Fields::new().with_str("id", &c.id).with_str("name", &c.name).with_str("type", &c.config_type).with_str(
        "apiUrl",
        &c.api_url,
    ).with_str("apiKey", &c.api_key).with_str("mainModels", &c.main_models).with_str(
        "fallbackModels",
        &c.fallback_models,
    ).with_str("model", &c.model).with(
        "timeoutSeconds",
        Json::Num(Num::Unsigned(c.timeout_seconds)),
    ).object()
}

/// The providers as they are handed out.
pub fn providers_json(list: &Vec<AiConfig>) -> (j: Json)
    ensures
        j@ == provider_list(providers(list@)),
{
    broadcast use lemma_arr_view;

    let mut items: Vec<Json> = Vec::new();
    let mut i: usize = 0;
    while i < list.len()
        invariant
            i <= list@.len(),
            items@.len() == i,
            forall|k: int| 0 <= k < i ==> (#[trigger] items@[k])@ == provider_view(list@[k]@),
        decreases list.len() - i,
    {
        items.push(provider_json(&list[i]));
        i = i + 1;
    }
    assert(items_view(items@) == providers(list@).map_values(|p: Provider| provider_view(p)));
    Json::Arr(items)
}

/// The configuration as it is stored.
#[derive(Debug, PartialEq, Eq)]
pub struct AppConfig {
    pub indices: Vec<String>,
    pub stocks: Vec<String>,
    pub data_fetch_interval: u64,
    pub page_refresh_interval: u64,
    pub ai_configs: Vec<AiConfig>,
}

/// What an [`AppConfig`] stands for.
#[verifier::ext_equal]
pub struct Settings {
    pub indices: Seq<Seq<char>>,
    pub stocks: Seq<Seq<char>>,
    pub data_fetch_interval: u64,
    pub page_refresh_interval: u64,
    pub providers: Seq<Provider>,
}

impl AppConfig {
    pub open spec fn view(&self) -> Settings {
        Settings {
            indices: texts(self.indices@),
            stocks: texts(self.stocks@),
            data_fetch_interval: self.data_fetch_interval,
            page_refresh_interval: self.page_refresh_interval,
            providers: providers(self.ai_configs@),
        }
    }
}

/// What a possible stored configuration stands for.
pub open spec fn opt_settings(config: Option<AppConfig>) -> Option<Settings> {
    match config {
        Some(c) => Some(c@),
        None => None,
    }
}

// ---------------------------------------------------------------------------------------------
// Defaults
// ---------------------------------------------------------------------------------------------

/// The seconds between two rounds of fetching, where the configuration does not say.
pub fn default_data_fetch_interval() -> (r: u64)
    ensures
        r == 10,
{
    10
}

/// The seconds after which a page refreshes itself, where the configuration does not say.
pub fn default_page_refresh_interval() -> (r: u64)
    ensures
        r == 3,
{
    3
}

/// The AI providers, where the configuration does not say.
pub fn default_ai_configs() -> (r: Vec<AiConfig>)
    ensures
        r@ == Seq::<AiConfig>::empty(),
{
    Vec::new()
}

/// The provider that a new installation starts with. It has no address yet.
pub open spec fn first_provider() -> Provider {
    Provider {
        id: "default_1"@,
        name: "默认配置"@,
        config_type: "openai"@,
        api_url: ""@,
        api_key: ""@,
        main_models: "gpt-3.5-turbo"@,
        fallback_models: ""@,
        model: "gpt-3.5-turbo"@,
        timeout_seconds: 60,
    }
}

/// The configuration that a new installation starts with.
pub open spec fn first_settings() -> Settings {
    Settings {
        indices: Seq::empty().push("sh000001"@).push("sz399001"@).push("sz399006"@).push(
            "bj899050"@,
        ),
        stocks: Seq::empty().push("sh600519"@).push("sz000001"@).push("sh601318"@).push(
            "sz002594"@,
        ),
        data_fetch_interval: 10,
        page_refresh_interval: 3,
        providers: Seq::empty().push(first_provider()),
    }
}

fn push_text(list: &mut Vec<String>, text: &str)
    ensures
        texts(final(list)@) == texts(old(list)@).push(text@),
{
    list.push(text.to_owned());
    assert(texts(list@) == texts(old(list)@).push(text@));
}

/// The configuration that a new installation starts with.
pub fn first_config() -> (r: AppConfig)
    ensures
        r@ == first_settings(),
{
    let mut indices: Vec<String> = Vec::new();
    let mut stocks: Vec<String> = Vec::new();
    assert(texts(indices@) == Seq::<Seq<char>>::empty());
    push_text(&mut indices, "sh000001");
    push_text(&mut indices, "sz399001");
    push_text(&mut indices, "sz399006");
    push_text(&mut indices, "bj899050");
    push_text(&mut stocks, "sh600519");
    push_text(&mut stocks, "sz000001");
    push_text(&mut stocks, "sh601318");
    push_text(&mut stocks, "sz002594");
    let mut ai_configs: Vec<AiConfig> = Vec::new();
    ai_configs.push(
        AiConfig {
            id: "default_1".to_owned(),
            name: "默认配置".to_owned(),
            config_type: "openai".to_owned(),
            api_url: "".to_owned(),
            api_key: "".to_owned(),
            main_models: "gpt-3.5-turbo".to_owned(),
            fallback_models: "".to_owned(),
            model: "gpt-3.5-turbo".to_owned(),
            timeout_seconds: 60,
        },
    );
    assert(providers(ai_configs@) == Seq::empty().push(first_provider()));
    AppConfig {
        indices,
        stocks,
        data_fetch_interval: default_data_fetch_interval(),
        page_refresh_interval: default_page_refresh_interval(),
        ai_configs,
    }
}

// ---------------------------------------------------------------------------------------------
// Stored configurations
// ---------------------------------------------------------------------------------------------

/// A stored configuration with the intervals that it does not set, being zero, set to what holds
/// otherwise.
pub open spec fn repaired_settings(s: Settings) -> Settings {
    Settings {
        data_fetch_interval: if s.data_fetch_interval == 0 {
            10
        } else {
            s.data_fetch_interval
        },
        page_refresh_interval: if s.page_refresh_interval == 0 {
            3
        } else {
            s.page_refresh_interval
        },
        ..s
    }
}

/// Sets the intervals that a stored configuration does not set.
pub fn repair_config(config: AppConfig) -> (r: AppConfig)
    ensures
        r@ == repaired_settings(config@),
{
    let mut config = config;
    if config.data_fetch_interval == 0 {
        config.data_fetch_interval = default_data_fetch_interval();
    }
    if config.page_refresh_interval == 0 {
        config.page_refresh_interval = default_page_refresh_interval();
    }
    config
}

/// The seconds after which a page refreshes itself, by what is stored.
pub open spec fn page_interval_of(stored: Option<Settings>) -> u64 {
    match stored {
        Some(s) => repaired_settings(s).page_refresh_interval,
        None => 3,
    }
}

/// The seconds after which a page refreshes itself, by what is stored.
pub fn page_interval(stored: &Option<AppConfig>) -> (r: u64)
    ensures
        r == page_interval_of(opt_settings(*stored)),
{
    match stored {
        Some(config) => if config.page_refresh_interval == 0 {
            default_page_refresh_interval()
        } else {
            config.page_refresh_interval
        },
        None => default_page_refresh_interval(),
    }
}

/// What the program finds of a stored configuration when it starts.
pub enum ConfigFile {
    /// There is no file.
    Missing,
    /// There is a file that cannot be read as a configuration.
    Unreadable,
    /// There is a file with this configuration.
    Stored(AppConfig),
}

/// The configuration that the program starts with: the one stored, repaired, or else that of a new
/// installation.
pub open spec fn starting_settings(found: ConfigFile) -> Settings {
    match found {
        ConfigFile::Stored(config) => repaired_settings(config@),
        _ => first_settings(),
    }
}

/// The configuration that the program starts with.
pub fn starting_config(found: ConfigFile) -> (r: AppConfig)
    ensures
        r@ == starting_settings(found),
{
    match found {
        ConfigFile::Stored(config) => repair_config(config),
        _ => first_config(),
    }
}

// ---------------------------------------------------------------------------------------------
// Laws
// ---------------------------------------------------------------------------------------------

/// Whatever is found, the program starts with intervals of at least a second.
pub proof fn law_starting_intervals(found: ConfigFile)
    ensures
        starting_settings(found).data_fetch_interval >= 1,
        starting_settings(found).page_refresh_interval >= 1,
{
}

/// A repaired configuration needs no repair, and one whose intervals are set is not changed by it.
pub proof fn law_repair_is_settled(s: Settings)
    ensures
        repaired_settings(repaired_settings(s)) == repaired_settings(s),
        s.data_fetch_interval >= 1 && s.page_refresh_interval >= 1 ==> repaired_settings(s) == s,
{
}

/// What was stored is what the program starts with, if its intervals were set.
pub proof fn law_stored_comes_back(config: AppConfig)
    requires
        config.data_fetch_interval >= 1,
        config.page_refresh_interval >= 1,
    ensures
        starting_settings(ConfigFile::Stored(config)) == config@,
{
}

/// A provider is handed out with each part under the name that the page knows it by.
pub proof fn law_provider_by_key(p: Provider)
    ensures
        provider_view(p).get("id"@) == Some(JsonView::Str(p.id)),
        provider_view(p).get("name"@) == Some(JsonView::Str(p.name)),
        provider_view(p).get("type"@) == Some(JsonView::Str(p.config_type)),
        provider_view(p).get("apiUrl"@) == Some(JsonView::Str(p.api_url)),
        provider_view(p).get("apiKey"@) == Some(JsonView::Str(p.api_key)),
        provider_view(p).get("mainModels"@) == Some(JsonView::Str(p.main_models)),
        provider_view(p).get("fallbackModels"@) == Some(JsonView::Str(p.fallback_models)),
        provider_view(p).get("model"@) == Some(JsonView::Str(p.model)),
        provider_view(p).get("timeoutSeconds"@) == Some(
            JsonView::Num(NumView::Unsigned(p.timeout_seconds)),
        ),
{
    broadcast use law_field_is_found, law_empty_object;

    reveal_strlit("id");
    reveal_strlit("name");
    reveal_strlit("type");
    reveal_strlit("apiUrl");
    reveal_strlit("apiKey");
    reveal_strlit("mainModels");
    reveal_strlit("fallbackModels");
    reveal_strlit("model");
    reveal_strlit("timeoutSeconds");
    assert("id"@.len() == 2);
    assert("name"@.len() == 4 && "name"@[0] == 'n');
    assert("type"@.len() == 4 && "type"@[0] == 't');
    assert("apiUrl"@.len() == 6 && "apiUrl"@[3] == 'U');
    assert("apiKey"@.len() == 6 && "apiKey"@[3] == 'K');
    assert("mainModels"@.len() == 10);
    assert("fallbackModels"@.len() == 14 && "fallbackModels"@[0] == 'f');
    assert("model"@.len() == 5);
    assert("timeoutSeconds"@.len() == 14 && "timeoutSeconds"@[0] == 't');
}

/// The providers are handed out in their order.
pub proof fn law_providers_in_order(list: Seq<Provider>, i: int)
    requires
        0 <= i < list.len(),
    ensures
        provider_list(list) matches JsonView::Arr(shown) && shown.len() == list.len() && shown[i]
            == provider_view(list[i]),
{
}

/// To repair a configuration sets an interval of zero to ten seconds between two rounds and to three
/// for the pages, and leaves all else as it is.
pub proof fn law_repair(s: Settings)
    ensures
        ({
            let r = repaired_settings(s);
            &&& r.indices == s.indices
            &&& r.stocks == s.stocks
            &&& r.providers == s.providers
            &&& s.data_fetch_interval == 0 ==> r.data_fetch_interval == 10
            &&& s.data_fetch_interval != 0 ==> r.data_fetch_interval == s.data_fetch_interval
            &&& s.page_refresh_interval == 0 ==> r.page_refresh_interval == 3
            &&& s.page_refresh_interval != 0 ==> r.page_refresh_interval == s.page_refresh_interval
        }),
{
}

/// The interval of the pages is the stored one, and three seconds where none is stored.
pub proof fn law_page_interval(s: Settings)
    ensures
        page_interval_of(None) == 3,
        s.page_refresh_interval == 0 ==> page_interval_of(Some(s)) == 3,
        s.page_refresh_interval != 0 ==> page_interval_of(Some(s)) == s.page_refresh_interval,
{
}

} // verus!
