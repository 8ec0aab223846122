//! Quotes of stocks and indices, as Sina sends them.
//!
//! A quote is a line of script that assigns a list of fields, with commas between them, to a
//! variable named after the code. The page is in GBK.
use crate::cache::{law_cache_gives_back, serves, Cache, DETAIL_TTL};
use crate::codes::{normalize_stock_code, stock_code};
use crate::json::{
    items_view, law_empty_object, law_field_is_found, lemma_arr_view, Fields, Json, JsonView, NumView,
};
use crate::reply::{
    data_reply, data_view, error_reply, error_view, law_replies_by_key, number, number_view, Start,
    StartView,
};
use crate::text::{
    decimal, digits, join_with, joined, law_split_undoes_join, lemma_filter_map_add,
    lemma_filter_map_step, opt_text, split, split_on, texts,
};
use vstd::prelude::*;

verus! {

// ---------------------------------------------------------------------------------------------
// From bytes to fields
// ---------------------------------------------------------------------------------------------

/// What `encoding_rs::GBK.decode` makes of the bytes of a page.
pub uninterp spec fn gbk_text(bytes: Seq<u8>) -> Seq<char>;

/// Whether a page is small enough for its text to be held: at most an eighth of what can be
/// addressed.
pub open spec fn decodes(bytes: Seq<u8>) -> bool {
    bytes.len() * 8 + 64 <= isize::MAX
}

/// Whether a page is small enough for its text to be held.
pub fn can_decode(bytes: &[u8]) -> (r: bool)
    ensures
        r == decodes(bytes@),
{
    bytes.len() as u128 * 8 + 64 <= isize::MAX as u128
}

/// `encoding_rs::GBK.decode` turns a whole page into text: by the byte order mark if there is one,
/// else from GBK, with a replacement character for each malformed sequence. The text depends on the
/// bytes alone; [`gbk_text`] names it. The decoder panics where the size of its buffer overflows,
/// which a page that [`decodes`] is too small for.
#[verifier::external_body]
fn decode_gbk(bytes: &[u8]) -> (r: String)
    requires
        decodes(bytes@),
    ensures
        r@ == gbk_text(bytes@),
{
    let (text, _, _) = encoding_rs::GBK.decode(bytes);
    text.into_owned()
}

/// The error of a pattern that does not compile.
#[verifier::external_type_specification]
#[verifier::external_body]
pub struct ExRegexError(regex::Error);

/// What the groups of a match hold, the whole match first; nothing for a group that took no part.
pub open spec fn groups_view(groups: Seq<Option<String>>) -> Seq<Option<Seq<char>>> {
    groups.map_values(
        |g: Option<String>|
            match g {
                Some(s) => Some(s@),
                None => None,
            },
    )
}

/// What the groups of several matches hold.
pub open spec fn matches_view(all: Seq<Vec<Option<String>>>) -> Seq<Seq<Option<Seq<char>>>> {
    all.map_values(|groups: Vec<Option<String>>| groups_view(groups@))
}

/// What `regex::Regex::captures` finds: nothing at all for a pattern that `regex::Regex::new`
/// refuses; else the groups of the first match, if there is one.
pub uninterp spec fn first_match(pattern: Seq<char>, text: Seq<char>) -> Option<
    Option<Seq<Option<Seq<char>>>>,
>;

/// What `regex::Regex::captures_iter` finds: nothing at all for a pattern that `regex::Regex::new`
/// refuses; else the groups of each match, in order.
pub uninterp spec fn all_matches(pattern: Seq<char>, text: Seq<char>) -> Option<
    Seq<Seq<Option<Seq<char>>>>,
>;

/// Compiles a pattern and takes the groups of its first match, with `regex::Regex::captures`. Both
/// depend on the pattern and the text alone; [`first_match`] names what is found.
#[verifier::external_body]
fn captures(pattern: &str, text: &str) -> (r: Result<Option<Vec<Option<String>>>, regex::Error>)
    ensures
        match r {
            Ok(Some(groups)) => first_match(pattern@, text@) == Some(Some(groups_view(groups@))),
            Ok(None) => first_match(pattern@, text@) == Some(None::<Seq<Option<Seq<char>>>>),
            Err(_) => first_match(pattern@, text@) is None,
        },
{
    let found = regex::Regex::new(pattern)?.captures(text).map(
        |c| c.iter().map(|g| g.map(|m| m.as_str().to_string())).collect(),
    );
    Ok(found)
}

/// The pattern of a quote: the code is its first group, the list of fields its second.
pub const QUOTE_PATTERN: &'static str = "var\\s+hq_str_(\\w+)\\s*=\\s*\"([^\"]*)\"";

/// A statement of a page: the code, and the list of fields that is assigned to it.
pub struct Statement {
    pub symbol: Seq<char>,
    pub list: Seq<char>,
}

impl Statement {
    /// Whether the code is a word of ASCII letters, digits and underscores, and the list of fields
    /// holds no quotation mark.
    pub open spec fn complete(self) -> bool {
        &&& self.symbol.len() > 0
        &&& forall|i: int|
            0 <= i < self.symbol.len() ==> {
                let c = #[trigger] self.symbol[i];
                'a' <= c <= 'z' || 'A' <= c <= 'Z' || '0' <= c <= '9' || c == '_'
            }
        &&& !self.list.contains('"')
    }

    /// The statement as it is written, up to the closing quotation mark.
    pub open spec fn text(self) -> Seq<char> {
        "var hq_str_"@ + self.symbol + "=\""@ + self.list + "\""@
    }

    /// The groups of the pattern's match on the statement.
    pub open spec fn groups(self) -> Seq<Option<Seq<char>>> {
        Seq::empty().push(Some(self.text())).push(Some(self.symbol)).push(Some(self.list))
    }
}

/// Whether a page is made of complete statements.
pub open spec fn complete_page(page: Seq<Statement>) -> bool {
    forall|i: int| 0 <= i < page.len() ==> (#[trigger] page[i]).complete()
}

/// The text of a page: its statements, each ended by a semicolon and a newline.
pub open spec fn page_text(page: Seq<Statement>) -> Seq<char>
    decreases page.len(),
{
    if page.len() == 0 {
        Seq::empty()
    } else {
        page_text(page.drop_last()) + page.last().text() + ";\n"@
    }
}

/// Compiles a pattern and takes the groups of all its matches, with `regex::Regex::captures_iter`.
/// Both depend on the pattern and the text alone; [`all_matches`] names what is found.
///
/// The pattern of a quote compiles, and on a page of complete statements its successive matches are
/// the statements: each begins at a `var`, where the code is all that `\w+` can take before the
/// equals sign and the list all that `[^"]*` can take before the next quotation mark, and no match
/// can begin in what is left between two of them, a semicolon and a newline.
#[verifier::external_body]
fn captures_all(pattern: &str, text: &str) -> (r: Result<Vec<Vec<Option<String>>>, regex::Error>)
    ensures
        match r {
            Ok(all) => all_matches(pattern@, text@) == Some(matches_view(all@)),
            Err(_) => all_matches(pattern@, text@) is None,
        },
        forall|page: Seq<Statement>|
            pattern@ == QUOTE_PATTERN@ && complete_page(page) && #[trigger] page_text(page) == text@
                ==> r is Ok && matches_view(r->Ok_0@) == page.map_values(
                |s: Statement| s.groups(),
            ),
{
    let found = regex::Regex::new(pattern)?.captures_iter(text).map(
        |c| c.iter().map(|g| g.map(|m| m.as_str().to_string())).collect(),
    ).collect();
    Ok(found)
}

/// The pattern of a quote did not compile.
#[derive(Debug, PartialEq, Eq)]
pub struct PatternError;

/// A quote as it was sent. Numbers are decimal text; the volume is in shares.
#[derive(Debug, PartialEq, Eq)]
pub struct SinaQuote {
    pub symbol: String,
    pub name: String,
    pub open: String,
    pub pre_close: String,
    pub price: String,
    pub high: String,
    pub low: String,
    pub volume: String,
    pub amount: String,
}

/// What a [`SinaQuote`] stands for.
pub struct Quote {
    pub symbol: Seq<char>,
    pub name: Seq<char>,
    pub open: Seq<char>,
    pub pre_close: Seq<char>,
    pub price: Seq<char>,
    pub high: Seq<char>,
    pub low: Seq<char>,
    pub volume: Seq<char>,
    pub amount: Seq<char>,
}

impl SinaQuote {
    pub open spec fn view(&self) -> Quote {
        Quote {
            symbol: self.symbol@,
            name: self.name@,
            open: self.open@,
            pre_close: self.pre_close@,
            price: self.price@,
            high: self.high@,
            low: self.low@,
            volume: self.volume@,
            amount: self.amount@,
        }
    }
}

/// What a list of quotes stands for.
pub open spec fn quotes_view(quotes: Seq<SinaQuote>) -> Seq<Quote> {
    quotes.map_values(|q: SinaQuote| q@)
}

/// The code and the list of fields among the groups of a match.
pub open spec fn assignment(groups: Seq<Option<Seq<char>>>) -> Option<(Seq<char>, Seq<char>)> {
    if groups.len() > 2 && groups[1] is Some && groups[2] is Some {
        Some((groups[1]->Some_0, groups[2]->Some_0))
    } else {
        None
    }
}

/// The quote that a list of fields spells, if it has at least so many.
pub open spec fn quote_of(symbol: Seq<char>, list: Seq<char>, least: nat) -> Option<Quote> {
    let parts = split_on(list, ',');
    if parts.len() >= least {
        Some(
            Quote {
                symbol,
                name: parts[0],
                open: parts[1],
                pre_close: parts[2],
                price: parts[3],
                high: parts[4],
                low: parts[5],
                volume: parts[8],
                amount: parts[9],
            },
        )
    } else {
        None
    }
}

/// How many fields the page of one code must list.
pub const PAGE_FIELDS: usize = 31;

/// How many fields a quote on a page of several must list.
pub const LIST_FIELDS: usize = 32;

fn read_fields(symbol: &str, list: &str, least: usize) -> (r: Option<SinaQuote>)
    requires
        least > 9,
    ensures
        match r {
            Some(quote) => quote_of(symbol@, list@, least as nat) == Some(quote@),
            None => quote_of(symbol@, list@, least as nat) is None,
        },
{
    let parts = split(list, ',');
    assert(forall|k: int| 0 <= k < parts@.len() ==> (#[trigger] parts@[k])@ == texts(parts@)[k]);
    if parts.len() < least {
        return None;
    }
    Some(
        SinaQuote {
            symbol: symbol.to_owned(),
            name: parts[0].clone(),
            open: parts[1].clone(),
            pre_close: parts[2].clone(),
            price: parts[3].clone(),
            high: parts[4].clone(),
            low: parts[5].clone(),
            volume: parts[8].clone(),
            amount: parts[9].clone(),
        },
    )
}

/// The quote of a code among the groups of a match, if the match lists enough fields. The code is
/// the one that was asked for.
pub open spec fn quote_in_match(code: Seq<char>, groups: Seq<Option<Seq<char>>>) -> Option<Quote> {
    match assignment(groups) {
        Some((_, list)) => quote_of(code, list, PAGE_FIELDS as nat),
        None => None,
    }
}

/// Reads the quote of a code from the groups of a match.
pub fn read_match(code: &str, groups: &Vec<Option<String>>) -> (r: Option<SinaQuote>)
    ensures
        match r {
            Some(quote) => quote_in_match(code@, groups_view(groups@)) == Some(quote@),
            None => quote_in_match(code@, groups_view(groups@)) is None,
        },
{
    let ghost views = groups_view(groups@);
    if groups.len() > 2 {
        assert(views[1] is Some == groups@[1] is Some);
        assert(views[2] is Some == groups@[2] is Some);
        if groups[1].is_some() {
            if let Some(list) = &groups[2] {
                return read_fields(code, list, PAGE_FIELDS);
            }
        }
    }
    None
}

/// The quote of a code on a page, by the first match of the pattern. Nothing at all where the
/// pattern does not compile.
pub open spec fn quote_on_page(
    code: Seq<char>,
    found: Option<Option<Seq<Option<Seq<char>>>>>,
) -> Option<Option<Quote>> {
    match found {
        Some(Some(groups)) => Some(quote_in_match(code, groups)),
        Some(None) => Some(None),
        None => None,
    }
}

/// What a possible quote stands for.
pub open spec fn opt_quote(quote: Option<SinaQuote>) -> Option<Quote> {
    match quote {
        Some(q) => Some(q@),
        None => None,
    }
}

/// Reads the quote of a code from the bytes of its page.
pub fn read_quote(code: &str, bytes: &[u8]) -> (r: Result<Option<SinaQuote>, PatternError>)
    requires
        decodes(bytes@),
    ensures
        ({
            let found = first_match(QUOTE_PATTERN@, gbk_text(bytes@));
            match r {
                Ok(quote) => quote_on_page(code@, found) == Some(opt_quote(quote)),
                Err(_) => quote_on_page(code@, found) is None,
            }
        }),
{
    let text = decode_gbk(bytes);
    match captures(QUOTE_PATTERN, &text) {
        Ok(Some(groups)) => Ok(read_match(code, &groups)),
        Ok(None) => Ok(None),
        Err(_) => Err(PatternError),
    }
}

/// The quote in a match of a page of several: under the code that the match names.
pub open spec fn quote_in_list(groups: Seq<Option<Seq<char>>>) -> Option<Quote> {
    match assignment(groups) {
        Some((symbol, list)) => quote_of(symbol, list, LIST_FIELDS as nat),
        None => None,
    }
}

fn read_list_match(groups: &Vec<Option<String>>) -> (r: Option<SinaQuote>)
    ensures
        opt_quote(r) == quote_in_list(groups_view(groups@)),
{
    let ghost views = groups_view(groups@);
    if groups.len() > 2 {
        assert(views[1] is Some == groups@[1] is Some);
        assert(views[2] is Some == groups@[2] is Some);
        if let Some(symbol) = &groups[1] {
            if let Some(list) = &groups[2] {
                return read_fields(symbol, list, LIST_FIELDS);
            }
        }
    }
    None
}

/// Reads the quotes from the matches on a page of several, in order; a match that lists too few
/// fields is passed over.
pub fn read_matches(all: &Vec<Vec<Option<String>>>) -> (quotes: Vec<SinaQuote>)
    ensures
        quotes_view(quotes@) == quotes_in_list(matches_view(all@)),
{
    let ghost views = matches_view(all@);
    let ghost f = |groups: Seq<Option<Seq<char>>>| quote_in_list(groups);
    let mut quotes: Vec<SinaQuote> = Vec::new();
    let mut i: usize = 0;
    assert(views.take(0).filter_map(f) == quotes_view(quotes@));
    while i < all.len()
        invariant
            i <= all@.len(),
            views == matches_view(all@),
            f == (|groups: Seq<Option<Seq<char>>>| quote_in_list(groups)),
            quotes_view(quotes@) == views.take(i as int).filter_map(f),
        decreases all.len() - i,
    {
        proof {
            lemma_filter_map_step(views, f, i as int);
            assert(views[i as int] == groups_view(all@[i as int]@));
        }
        if let Some(quote) = read_list_match(&all[i]) {
            let ghost before = quotes@;
            quotes.push(quote);
            assert(quotes_view(quotes@) == quotes_view(before).push(quote@));
        }
        i = i + 1;
    }
    assert(views.take(views.len() as int) == views);
    quotes
}

/// The quotes in the matches on a page of several, in order.
pub open spec fn quotes_in_list(all: Seq<Seq<Option<Seq<char>>>>) -> Seq<Quote> {
    all.filter_map(|groups: Seq<Option<Seq<char>>>| quote_in_list(groups))
}

/// The quotes that the statements of a page hold, in order: those that list enough fields.
pub open spec fn quotes_stated(page: Seq<Statement>) -> Seq<Quote> {
    page.filter_map(|s: Statement| quote_of(s.symbol, s.list, LIST_FIELDS as nat))
}

proof fn lemma_quotes_stated(page: Seq<Statement>)
    ensures
        quotes_in_list(page.map_values(|s: Statement| s.groups())) == quotes_stated(page),
    decreases page.len(),
{
    let all = page.map_values(|s: Statement| s.groups());
    let f = |groups: Seq<Option<Seq<char>>>| quote_in_list(groups);
    let g = |s: Statement| quote_of(s.symbol, s.list, LIST_FIELDS as nat);
    if page.len() == 0 {
        assert(all.filter_map(f) =~= Seq::empty());
        assert(page.filter_map(g) =~= Seq::empty());
    } else {
        lemma_quotes_stated(page.drop_last());
        assert(all.drop_last() =~= page.drop_last().map_values(|s: Statement| s.groups()));
        assert(all.last() == page.last().groups());
        assert(f(all.last()) == g(page.last()));
    }
}

/// Reads the quotes on a page of several. Of a page of complete statements, these are the quotes that
/// the statements hold.
pub fn parse_sina_data(text: &str) -> (r: Result<Vec<SinaQuote>, PatternError>)
    ensures
        match r {
            Ok(quotes) => {
                &&& all_matches(QUOTE_PATTERN@, text@) matches Some(all)
                &&& quotes_view(quotes@) == quotes_in_list(all)
            },
            Err(_) => all_matches(QUOTE_PATTERN@, text@) is None,
        },
        forall|page: Seq<Statement>|
            complete_page(page) && #[trigger] page_text(page) == text@ ==> r is Ok && quotes_view(
                r->Ok_0@,
            ) == quotes_stated(page),
{
    match captures_all(QUOTE_PATTERN, text) {
        Ok(all) => {
            proof {
                assert forall|page: Seq<Statement>|
                    complete_page(page) && #[trigger] page_text(page) == text@ implies quotes_in_list(
                    matches_view(all@),
                ) == quotes_stated(page) by {
                    lemma_quotes_stated(page);
                }
            }
            Ok(read_matches(&all))
        },
        Err(_) => Err(PatternError),
    }
}

/// The page with the quote of a code.
pub open spec fn quote_page(code: Seq<char>) -> Seq<char> {
    "http://hq.sinajs.cn/list="@ + code
}

/// The page with the quote of a code.
pub fn quote_url(code: &str) -> (r: String)
    ensures
        r@ == quote_page(code@),
{
    joined("http://hq.sinajs.cn/list=", code)
}

// ---------------------------------------------------------------------------------------------
// The full details of a stock
// ---------------------------------------------------------------------------------------------

/// All that is known of a stock. Numbers are decimal text; the volume is in lots of a hundred
/// shares.
#[derive(Debug, PartialEq, Eq)]
pub struct StockInfo {
    pub symbol: String,
    pub name: String,
    pub price: String,
    pub change_percent: String,
    pub high: String,
    pub low: String,
    pub volume: String,
    pub open: String,
    pub pre_close: String,
    pub limit_up: String,
    pub limit_down: String,
    pub amount: String,
    pub turnover_rate: String,
    pub pe_ratio: String,
}

/// What a [`StockInfo`] stands for.
pub struct Info {
    pub symbol: Seq<char>,
    pub name: Seq<char>,
    pub price: Seq<char>,
    pub change_percent: Seq<char>,
    pub high: Seq<char>,
    pub low: Seq<char>,
    pub volume: Seq<char>,
    pub open: Seq<char>,
    pub pre_close: Seq<char>,
    pub limit_up: Seq<char>,
    pub limit_down: Seq<char>,
    pub amount: Seq<char>,
    pub turnover_rate: Seq<char>,
    pub pe_ratio: Seq<char>,
}

impl StockInfo {
    pub open spec fn view(&self) -> Info {
        Info {
            symbol: self.symbol@,
            name: self.name@,
            price: self.price@,
            change_percent: self.change_percent@,
            high: self.high@,
            low: self.low@,
            volume: self.volume@,
            open: self.open@,
            pre_close: self.pre_close@,
            limit_up: self.limit_up@,
            limit_down: self.limit_down@,
            amount: self.amount@,
            turnover_rate: self.turnover_rate@,
            pe_ratio: self.pe_ratio@,
        }
    }
}

/// The figures that are worked out from a quote: the change since the last close in percent, the
/// volume in lots, and the prices at which trading is halted.
#[derive(Debug, PartialEq, Eq)]
pub struct Figures {
    pub change_percent: String,
    pub lots: String,
    pub limit_up: String,
    pub limit_down: String,
}

/// The details of a stock from its quote and the figures worked out from it. The turnover rate and
/// the price-earnings ratio are not in the quote and stand at zero.
pub open spec fn info_of(
    quote: Quote,
    change_percent: Seq<char>,
    lots: Seq<char>,
    limit_up: Seq<char>,
    limit_down: Seq<char>,
) -> Info {
    Info {
        symbol: quote.symbol,
        name: quote.name,
        price: quote.price,
        change_percent,
        high: quote.high,
        low: quote.low,
        volume: lots,
        open: quote.open,
        pre_close: quote.pre_close,
        limit_up,
        limit_down,
        amount: quote.amount,
        turnover_rate: digits(0),
        pe_ratio: digits(0),
    }
}

/// The details of a stock from its quote and the figures worked out from it.
pub fn stock_info(quote: SinaQuote, figures: Figures) -> (r: StockInfo)
    ensures
        r@ == info_of(
            quote@,
            figures.change_percent@,
            figures.lots@,
            figures.limit_up@,
            figures.limit_down@,
        ),
{
    StockInfo {
        symbol: quote.symbol,
        name: quote.name,
        price: quote.price,
        change_percent: figures.change_percent,
        high: quote.high,
        low: quote.low,
        volume: figures.lots,
        open: quote.open,
        pre_close: quote.pre_close,
        limit_up: figures.limit_up,
        limit_down: figures.limit_down,
        amount: quote.amount,
        turnover_rate: decimal(0),
        pe_ratio: decimal(0),
    }
}

/// A stock as it stands in the list of the market.
pub open spec fn market_entry(i: Info) -> JsonView {
    JsonView::object().with_str("symbol"@, i.symbol).with_str("name"@, i.name).with(
        "price"@,
        number_view(i.price),
    ).with("change_percent"@, number_view(i.change_percent)).with("high"@, number_view(i.high)).with(
        "low"@,
        number_view(i.low),
    ).with("volume"@, number_view(i.volume)).with("open"@, number_view(i.open)).with(
        "pre_close"@,
        number_view(i.pre_close),
    ).with("limit_up"@, number_view(i.limit_up)).with("limit_down"@, number_view(i.limit_down)).with(
        "amount"@,
        number_view(i.amount),
    ).with("turnover_rate"@, number_view(i.turnover_rate)).with("pe_ratio"@, number_view(i.pe_ratio))
}

fn market_entry_json(i: &StockInfo) -> (j: Json)
    ensures
        j@ == market_entry(i@),
{
    Fields::new().with_str("symbol", &i.symbol).with_str("name", &i.name).with(
        "price",
        number(&i.price),
    ).with("change_percent", number(&i.change_percent)).with("high", number(&i.high)).with(
        "low",
        number(&i.low),
    ).with("volume", number(&i.volume)).with("open", number(&i.open)).with(
        "pre_close",
        number(&i.pre_close),
    ).with("limit_up", number(&i.limit_up)).with("limit_down", number(&i.limit_down)).with(
        "amount",
        number(&i.amount),
    ).with("turnover_rate", number(&i.turnover_rate)).with("pe_ratio", number(&i.pe_ratio)).object()
}

/// The list of the market, in the order in which the stocks were fetched.
pub open spec fn market_list(infos: Seq<Info>) -> JsonView {
    JsonView::Arr(infos.map_values(|i: Info| market_entry(i)))
}

/// What a list of details stands for.
pub open spec fn infos_view(infos: Seq<StockInfo>) -> Seq<Info> {
    infos.map_values(|i: StockInfo| i@)
}

/// Answers a request for the list of the market.
pub fn get_market_data(infos: &Vec<StockInfo>) -> (j: Json)
    ensures
        j@ == market_list(infos_view(infos@)),
{
    broadcast use lemma_arr_view;

    let mut items: Vec<Json> = Vec::new();
    let mut i: usize = 0;
    while i < infos.len()
        invariant
            i <= infos@.len(),
            items@.len() == i,
            forall|k: int| 0 <= k < i ==> (#[trigger] items@[k])@ == market_entry(infos@[k]@),
        decreases infos.len() - i,
    {
        items.push(market_entry_json(&infos[i]));
        i = i + 1;
    }
    assert(items_view(items@) == infos_view(infos@).map_values(|i: Info| market_entry(i)));
    Json::Arr(items)
}

/// The details of a stock as they are handed out.
pub open spec fn detail_view(i: Info) -> JsonView {
    JsonView::object().with_str("symbol"@, i.symbol).with_str("name"@, i.name).with(
        "price"@,
        number_view(i.price),
    ).with("pre_close"@, number_view(i.pre_close)).with("open"@, number_view(i.open)).with(
        "high"@,
        number_view(i.high),
    ).with("low"@, number_view(i.low)).with("volume"@, number_view(i.volume)).with(
        "amount"@,
        number_view(i.amount),
    ).with("limit_up"@, number_view(i.limit_up)).with("limit_down"@, number_view(i.limit_down)).with(
        "change_percent"@,
        number_view(i.change_percent),
    )
}

fn detail_json(i: &StockInfo) -> (j: Json)
    ensures
        j@ == detail_view(i@),
{
    Fields::new().with_str("symbol", &i.symbol).with_str("name", &i.name).with(
        "price",
        number(&i.price),
    ).with("pre_close", number(&i.pre_close)).with("open", number(&i.open)).with(
        "high",
        number(&i.high),
    ).with("low", number(&i.low)).with("volume", number(&i.volume)).with("amount", number(&i.amount)).with(
        "limit_up",
        number(&i.limit_up),
    ).with("limit_down", number(&i.limit_down)).with("change_percent", number(&i.change_percent)).object()
}

/// How a request for a stock's details begins. Without a code it fails; what the cache serves is
/// handed out; else the quote is fetched.
pub open spec fn detail_start(
    code: Option<Seq<char>>,
    cached: Map<Seq<char>, (StockInfo, u128)>,
    now: u128,
) -> StartView {
    match code {
        Some(code) => {
            let full = stock_code(code);
            if serves(cached, full, now, DETAIL_TTL) {
                StartView::Reply(data_view(detail_view(cached[full].0@), true))
            } else {
                StartView::Fetch { key: full, url: quote_page(full) }
            }
        },
        None => StartView::Reply(error_view("fetch failed"@)),
    }
}

/// Begins a request for a stock's details.
pub fn start_detail(code: Option<&str>, cache: &Cache<StockInfo>, now: u128) -> (r: Start)
    ensures
        r@ == detail_start(opt_text(code), cache@, now),
{
    match code {
        Some(code) => {
            let full = normalize_stock_code(code);
            match cache.get(&full, now, DETAIL_TTL) {
                Some(info) => Start::Reply(data_reply(detail_json(info), true)),
                None => {
                    let url = quote_url(&full);
                    Start::Fetch { key: full, url }
                },
            }
        },
        None => Start::Reply(error_reply("fetch failed")),
    }
}

/// What came of fetching a stock's details.
pub enum DetailOutcome {
    /// The service refused, with this status.
    Refused(String),
    /// The details were read.
    Info(StockInfo),
    /// Nothing could be fetched or read.
    Nothing,
}

/// Ends a request for a stock's details: hands out and keeps what was read, or says why not.
pub fn finish_detail(
    code: &str,
    outcome: DetailOutcome,
    cache: &mut Cache<StockInfo>,
    now: u128,
) -> (j: Json)
    ensures
        match outcome {
            DetailOutcome::Refused(status) => {
                &&& j@ == error_view("HTTP "@ + status@)
                &&& final(cache)@ == old(cache)@
            },
            DetailOutcome::Info(info) => {
                &&& j@ == data_view(detail_view(info@), false)
                &&& final(cache)@ == old(cache)@.insert(code@, (info, now))
            },
            DetailOutcome::Nothing => {
                &&& j@ == error_view("fetch failed"@)
                &&& final(cache)@ == old(cache)@
            },
        },
{
    match outcome {
        DetailOutcome::Refused(status) => {
            let msg = joined("HTTP ", &status);
            error_reply(&msg)
        },
        DetailOutcome::Info(info) => {
            let j = data_reply(detail_json(&info), false);
            cache.insert(code, info, now);
            j
        },
        DetailOutcome::Nothing => error_reply("fetch failed"),
    }
}

// ---------------------------------------------------------------------------------------------
// A round through the market
// ---------------------------------------------------------------------------------------------

/// A round through all codes that are watched.
pub struct RefreshRound {
    codes: Vec<String>,
    done: usize,
    quotes: Vec<SinaQuote>,
}

/// What a [`RefreshRound`] stands for: the codes of the round, how many of them were dealt with, and
/// the quotes that were read.
pub struct Round {
    pub codes: Seq<Seq<char>>,
    pub done: int,
    pub quotes: Seq<Quote>,
}

impl Round {
    /// A round through the given codes that has not begun.
    pub open spec fn new(codes: Seq<Seq<char>>) -> Round {
        Round { codes, done: 0, quotes: Seq::empty() }
    }

    /// The round after what came of the code that was next: its quote is added to the others, and
    /// without one the code is passed over.
    pub open spec fn reported(self, quote: Option<Quote>) -> Round {
        Round {
            codes: self.codes,
            done: self.done + 1,
            quotes: match quote {
                Some(q) => self.quotes.push(q),
                None => self.quotes,
            },
        }
    }

    /// The round after what came of its first codes.
    pub open spec fn all_reported(self, quotes: Seq<Option<Quote>>) -> Round
        decreases quotes.len(),
    {
        if quotes.len() == 0 {
            self
        } else {
            self.all_reported(quotes.drop_last()).reported(quotes.last())
        }
    }
}

impl RefreshRound {
    pub closed spec fn view(&self) -> Round {
        Round { codes: texts(self.codes@), done: self.done as int, quotes: quotes_view(self.quotes@) }
    }

    #[verifier::type_invariant]
    spec fn within(&self) -> bool {
        self.done <= self.codes@.len()
    }

    /// Begins a round through the given codes.
    pub fn new(codes: Vec<String>) -> (r: RefreshRound)
        ensures
            r@ == Round::new(texts(codes@)),
    {
        let r = RefreshRound { codes, done: 0, quotes: Vec::new() };
        assert(quotes_view(r.quotes@) == Seq::<Quote>::empty());
        r
    }

    /// The code that is next, and the page to fetch for it; nothing once the round is over.
    pub fn next(&self) -> (r: Option<(String, String)>)
        ensures
            match r {
                Some((code, url)) => {
                    &&& self@.done < self@.codes.len()
                    &&& code@ == self@.codes[self@.done]
                    &&& url@ == quote_page(code@)
                },
                None => self@.done == self@.codes.len(),
            },
    {
        proof {
            use_type_invariant(self);
        }
        if self.done < self.codes.len() {
            let code = self.codes[self.done].clone();
            let url = quote_url(&code);
            Some((code, url))
        } else {
            None
        }
    }

    /// Takes what came of the code that was next: its quote is added to the others, and without one
    /// the code is passed over.
    pub fn report(&mut self, quote: Option<SinaQuote>)
        requires
            old(self)@.done < old(self)@.codes.len(),
        ensures
            final(self)@ == old(self)@.reported(
                match quote {
                    Some(q) => Some(q@),
                    None => None,
                },
            ),
    {
        let ghost before = self.quotes@;
        let mut quotes: Vec<SinaQuote> = Vec::new();
        std::mem::swap(&mut quotes, &mut self.quotes);
        if let Some(q) = quote {
            quotes.push(q);
            assert(quotes_view(quotes@) == quotes_view(before).push(q@));
        }
        self.quotes = quotes;
        assert(self.done < self.codes.len());
        self.done = self.done + 1;
    }

    /// The quotes of the round.
    pub fn into_quotes(self) -> (quotes: Vec<SinaQuote>)
        ensures
            quotes_view(quotes@) == self@.quotes,
    {
        self.quotes
    }
}

// ---------------------------------------------------------------------------------------------
// Laws
// ---------------------------------------------------------------------------------------------

/// A round goes through every code, and brings the quotes that could be read, in the order of their
/// codes.
pub proof fn law_round_keeps_order(codes: Seq<Seq<char>>, outcomes: Seq<Option<Quote>>)
    ensures
        Round::new(codes).all_reported(outcomes).codes == codes,
        Round::new(codes).all_reported(outcomes).done == outcomes.len(),
        Round::new(codes).all_reported(outcomes).quotes == outcomes.filter_map(
            |q: Option<Quote>| q,
        ),
    decreases outcomes.len(),
{
    let f = |q: Option<Quote>| q;
    if outcomes.len() == 0 {
        assert(outcomes.filter_map(f) =~= Seq::empty());
    } else {
        law_round_keeps_order(codes, outcomes.drop_last());
        lemma_filter_map_step(outcomes, f, outcomes.len() - 1);
        assert(outcomes.take(outcomes.len() as int) == outcomes);
        assert(outcomes.take(outcomes.len() - 1) == outcomes.drop_last());
    }
}

/// The quotes in two lists of matches put together are those in the one, and then those in the other.
pub proof fn law_matches_put_together(
    a: Seq<Seq<Option<Seq<char>>>>,
    b: Seq<Seq<Option<Seq<char>>>>,
)
    ensures
        quotes_in_list(a + b) == quotes_in_list(a) + quotes_in_list(b),
{
    lemma_filter_map_add(a, b, |groups: Seq<Option<Seq<char>>>| quote_in_list(groups));
}

/// Two pages of complete statements put together are a page of complete statements, and the quotes on
/// it are those on the one, and then those on the other.
pub proof fn law_pages_put_together(a: Seq<Statement>, b: Seq<Statement>)
    requires
        complete_page(a),
        complete_page(b),
    ensures
        complete_page(a + b),
        page_text(a + b) == page_text(a) + page_text(b),
        quotes_stated(a + b) == quotes_stated(a) + quotes_stated(b),
{
    lemma_page_text_add(a, b);
    lemma_filter_map_add(
        a,
        b,
        |s: Statement| quote_of(s.symbol, s.list, LIST_FIELDS as nat),
    );
}

proof fn lemma_page_text_add(a: Seq<Statement>, b: Seq<Statement>)
    ensures
        page_text(a + b) == page_text(a) + page_text(b),
    decreases b.len(),
{
    if b.len() == 0 {
        assert(a + b =~= a);
        assert(page_text(a) + page_text(b) =~= page_text(a));
    } else {
        lemma_page_text_add(a, b.drop_last());
        assert((a + b).drop_last() =~= a + b.drop_last());
        assert((a + b).last() == b.last());
        assert(page_text(a + b) =~= page_text(a) + page_text(b));
    }
}

/// The quote that is read from the page of a code carries that code, whatever the page says.
pub proof fn law_quote_carries_its_code(
    code: Seq<char>,
    found: Option<Option<Seq<Option<Seq<char>>>>>,
)
    ensures
        quote_on_page(code, found) matches Some(Some(quote)) ==> quote.symbol == code,
{
}

/// The codes of which something was read, in order.
pub open spec fn codes_read(codes: Seq<Seq<char>>, outcomes: Seq<Option<Quote>>) -> Seq<Seq<char>> {
    Seq::new(
        outcomes.len(),
        |i: int|
            if outcomes[i] is Some {
                Some(codes[i])
            } else {
                None
            },
    ).filter_map(|code: Option<Seq<char>>| code)
}

/// Where each quote carries the code that it was asked for by, the codes of a round's quotes are
/// those of which something was read, in order.
pub proof fn law_round_keeps_codes(codes: Seq<Seq<char>>, outcomes: Seq<Option<Quote>>)
    requires
        outcomes.len() <= codes.len(),
        forall|i: int|
            0 <= i < outcomes.len() ==> (#[trigger] outcomes[i] matches Some(quote) ==> quote.symbol
                == codes[i]),
    ensures
        Round::new(codes).all_reported(outcomes).quotes.map_values(|q: Quote| q.symbol)
            == codes_read(codes, outcomes),
    decreases outcomes.len(),
{
    let f = |code: Option<Seq<char>>| code;
    let read = Seq::new(
        outcomes.len(),
        |i: int|
            if outcomes[i] is Some {
                Some(codes[i])
            } else {
                None
            },
    );
    let symbols = Round::new(codes).all_reported(outcomes).quotes.map_values(|q: Quote| q.symbol);
    if outcomes.len() == 0 {
        assert(read.filter_map(f) =~= Seq::empty());
        assert(symbols =~= Seq::empty());
    } else {
        let before = outcomes.drop_last();
        let n = outcomes.len() - 1;
        law_round_keeps_codes(codes, before);
        lemma_filter_map_step(read, f, n);
        assert(read.take(outcomes.len() as int) == read);
        assert(read.take(n) =~= Seq::new(
            before.len(),
            |i: int|
                if before[i] is Some {
                    Some(codes[i])
                } else {
                    None
                },
        ));
        let quotes = Round::new(codes).all_reported(before).quotes;
        if let Some(quote) = outcomes[n] {
            assert(quotes.push(quote).map_values(|q: Quote| q.symbol) =~= quotes.map_values(
                |q: Quote| q.symbol,
            ).push(quote.symbol));
        }
    }
}

/// Details that were handed out are handed out again from the cache, marked so, to every request for
/// the same stock until they are a minute old, and not from then on.
pub proof fn law_details_served_again(
    code: Seq<char>,
    cached: Map<Seq<char>, (StockInfo, u128)>,
    info: StockInfo,
    stored: u128,
    now: u128,
)
    requires
        stored <= now,
    ensures
        now - stored < 60_000_000_000 ==> detail_start(
            Some(code),
            cached.insert(stock_code(code), (info, stored)),
            now,
        )
            == StartView::Reply(data_view(detail_view(info@), true)),
        now - stored >= 60_000_000_000 ==> detail_start(
            Some(code),
            cached.insert(stock_code(code), (info, stored)),
            now,
        ) is Fetch,
{
    law_cache_gives_back(cached, stock_code(code), info, stored, now, DETAIL_TTL);
}

/// The details of a stock are handed out with each figure under its own name: those of the quote as
/// they were sent, the volume in lots, and the figures that were worked out.
pub proof fn law_details_by_key(
    quote: Quote,
    change_percent: Seq<char>,
    lots: Seq<char>,
    limit_up: Seq<char>,
    limit_down: Seq<char>,
    cached: bool,
)
    ensures
        ({
            let info = info_of(quote, change_percent, lots, limit_up, limit_down);
            let reply = data_view(detail_view(info), cached);
            &&& reply.get("status"@) == Some(JsonView::Str("success"@))
            &&& reply.get("cached"@) == Some(JsonView::Bool(cached))
            &&& reply.get("data"@) matches Some(shown)
            &&& shown.get("symbol"@) == Some(JsonView::Str(quote.symbol))
            &&& shown.get("name"@) == Some(JsonView::Str(quote.name))
            &&& shown.get("price"@) == Some(JsonView::Num(NumView::Decimal(quote.price)))
            &&& shown.get("change_percent"@) == Some(JsonView::Num(NumView::Decimal(change_percent)))
            &&& shown.get("high"@) == Some(JsonView::Num(NumView::Decimal(quote.high)))
            &&& shown.get("low"@) == Some(JsonView::Num(NumView::Decimal(quote.low)))
            &&& shown.get("volume"@) == Some(JsonView::Num(NumView::Decimal(lots)))
            &&& shown.get("open"@) == Some(JsonView::Num(NumView::Decimal(quote.open)))
            &&& shown.get("pre_close"@) == Some(JsonView::Num(NumView::Decimal(quote.pre_close)))
            &&& shown.get("limit_up"@) == Some(JsonView::Num(NumView::Decimal(limit_up)))
            &&& shown.get("limit_down"@) == Some(JsonView::Num(NumView::Decimal(limit_down)))
            &&& shown.get("amount"@) == Some(JsonView::Num(NumView::Decimal(quote.amount)))
        }),
{
    broadcast use law_field_is_found, law_empty_object;

    reveal_strlit("symbol");
    reveal_strlit("name");
    reveal_strlit("price");
    reveal_strlit("change_percent");
    reveal_strlit("high");
    reveal_strlit("low");
    reveal_strlit("volume");
    reveal_strlit("open");
    reveal_strlit("pre_close");
    reveal_strlit("limit_up");
    reveal_strlit("limit_down");
    reveal_strlit("amount");
    assert("symbol"@.len() == 6 && "symbol"@[0] == 's');
    assert("name"@.len() == 4 && "name"@[0] == 'n');
    assert("price"@.len() == 5);
    assert("change_percent"@.len() == 14);
    assert("high"@.len() == 4 && "high"@[0] == 'h');
    assert("low"@.len() == 3);
    assert("volume"@.len() == 6 && "volume"@[0] == 'v');
    assert("open"@.len() == 4 && "open"@[0] == 'o');
    assert("pre_close"@.len() == 9);
    assert("limit_up"@.len() == 8);
    assert("limit_down"@.len() == 10);
    assert("amount"@.len() == 6 && "amount"@[0] == 'a');
    let info = info_of(quote, change_percent, lots, limit_up, limit_down);
    law_replies_by_key(Seq::empty(), detail_view(info), cached);
}

/// The market is listed in the order of its stocks, each with every figure under its own name.
pub proof fn law_market_by_key(
    quote: Quote,
    change_percent: Seq<char>,
    lots: Seq<char>,
    limit_up: Seq<char>,
    limit_down: Seq<char>,
    infos: Seq<Info>,
    i: int,
)
    requires
        0 <= i < infos.len(),
        infos[i] == info_of(quote, change_percent, lots, limit_up, limit_down),
    ensures
        ({
            &&& market_list(infos) matches JsonView::Arr(list)
            &&& list.len() == infos.len()
            &&& list[i].get("symbol"@) == Some(JsonView::Str(quote.symbol))
            &&& list[i].get("name"@) == Some(JsonView::Str(quote.name))
            &&& list[i].get("price"@) == Some(JsonView::Num(NumView::Decimal(quote.price)))
            &&& list[i].get("change_percent"@) == Some(JsonView::Num(NumView::Decimal(change_percent)))
            &&& list[i].get("high"@) == Some(JsonView::Num(NumView::Decimal(quote.high)))
            &&& list[i].get("low"@) == Some(JsonView::Num(NumView::Decimal(quote.low)))
            &&& list[i].get("volume"@) == Some(JsonView::Num(NumView::Decimal(lots)))
            &&& list[i].get("open"@) == Some(JsonView::Num(NumView::Decimal(quote.open)))
            &&& list[i].get("pre_close"@) == Some(JsonView::Num(NumView::Decimal(quote.pre_close)))
            &&& list[i].get("limit_up"@) == Some(JsonView::Num(NumView::Decimal(limit_up)))
            &&& list[i].get("limit_down"@) == Some(JsonView::Num(NumView::Decimal(limit_down)))
            &&& list[i].get("amount"@) == Some(JsonView::Num(NumView::Decimal(quote.amount)))
            &&& list[i].get("turnover_rate"@) == Some(JsonView::Num(NumView::Decimal(seq!['0'])))
            &&& list[i].get("pe_ratio"@) == Some(JsonView::Num(NumView::Decimal(seq!['0'])))
        }),
{
    broadcast use law_field_is_found, law_empty_object;

    reveal_strlit("symbol");
    reveal_strlit("name");
    reveal_strlit("price");
    reveal_strlit("change_percent");
    reveal_strlit("high");
    reveal_strlit("low");
    reveal_strlit("volume");
    reveal_strlit("open");
    reveal_strlit("pre_close");
    reveal_strlit("limit_up");
    reveal_strlit("limit_down");
    reveal_strlit("amount");
    reveal_strlit("turnover_rate");
    reveal_strlit("pe_ratio");
    assert("symbol"@.len() == 6 && "symbol"@[0] == 's');
    assert("name"@.len() == 4 && "name"@[0] == 'n');
    assert("price"@.len() == 5);
    assert("change_percent"@.len() == 14);
    assert("high"@.len() == 4 && "high"@[0] == 'h');
    assert("low"@.len() == 3);
    assert("volume"@.len() == 6 && "volume"@[0] == 'v');
    assert("open"@.len() == 4 && "open"@[0] == 'o');
    assert("pre_close"@.len() == 9);
    assert("limit_up"@.len() == 8 && "limit_up"@[0] == 'l');
    assert("limit_down"@.len() == 10);
    assert("amount"@.len() == 6 && "amount"@[0] == 'a');
    assert("turnover_rate"@.len() == 13);
    assert("pe_ratio"@.len() == 8 && "pe_ratio"@[0] == 'p');
    reveal_with_fuel(digits, 2);
    assert(digits(0) =~= seq!['0']);
}

/// Which field of the page is which figure, counted from zero: the name, the opening price, the last
/// close, the price, the high and the low, then, two fields further on, the volume and the amount. The
/// page of one code must list 31 fields, and a page of several 32 for each.
pub proof fn law_quote_fields(
    code: Seq<char>,
    whole: Option<Seq<char>>,
    symbol: Seq<char>,
    fields: Seq<Seq<char>>,
)
    requires
        fields.len() > 0,
        forall|i: int| 0 <= i < fields.len() ==> !(#[trigger] fields[i]).contains(','),
    ensures
        ({
            let list = join_with(fields, ',');
            let groups = Seq::empty().push(whole).push(Some(symbol)).push(Some(list));
            &&& fields.len() >= 31 ==> quote_on_page(code, Some(Some(groups))) == Some(
                Some(
                    Quote {
                        symbol: code,
                        name: fields[0],
                        open: fields[1],
                        pre_close: fields[2],
                        price: fields[3],
                        high: fields[4],
                        low: fields[5],
                        volume: fields[8],
                        amount: fields[9],
                    },
                ),
            )
            &&& fields.len() < 31 ==> quote_on_page(code, Some(Some(groups))) == Some(None::<Quote>)
            &&& fields.len() >= 32 ==> quote_in_list(groups) == Some(
                Quote {
                    symbol,
                    name: fields[0],
                    open: fields[1],
                    pre_close: fields[2],
                    price: fields[3],
                    high: fields[4],
                    low: fields[5],
                    volume: fields[8],
                    amount: fields[9],
                },
            )
            &&& fields.len() < 32 ==> quote_in_list(groups) is None
        }),
        quote_on_page(code, Some(None)) == Some(None::<Quote>),
{
    law_split_undoes_join(fields, ',');
}

/// A request is served from the cache, or the quote of the stock is asked for; one without a code is
/// refused.
pub proof fn law_detail_request(
    code: Seq<char>,
    cached: Map<Seq<char>, (StockInfo, u128)>,
    now: u128,
)
    requires
        !serves(cached, stock_code(code), now, 60),
    ensures
        detail_start(Some(code), cached, now) == (StartView::Fetch {
            key: stock_code(code),
            url: "http://hq.sinajs.cn/list="@ + stock_code(code),
        }),
        detail_start(None, cached, now) == StartView::Reply(error_view("fetch failed"@)),
{
}

/// Pages of ordinary size can be decoded: up to some 268 million bytes, on any machine.
pub proof fn law_ordinary_pages_decode(bytes: Seq<u8>)
    requires
        bytes.len() <= 268_435_447,
    ensures
        decodes(bytes),
{
}

} // verus!
