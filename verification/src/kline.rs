//! The K-lines of a stock: open, high, low and close by day, week or month.
use crate::cache::{law_cache_gives_back, serves, Cache, KLINE_TTL};
use crate::codes::{
    law_east_money_identifier, normalize_stock_code, secid, security_id, stock_code,
};
use crate::json::{
    array_at, items_view, json_tree, law_empty_object, law_field_is_found, lemma_arr_view, Fields,
    Json, JsonView, NumView,
};
use crate::minute::api_error;
use crate::reply::{
    data_reply, data_view, error_reply, error_view, law_replies_by_key, number, number_view, Start,
    StartView,
};
use crate::text::{
    decimal, digits, joined, law_split_takes_parts, lemma_filter_map_all, lemma_filter_map_step,
    opt_text, same, split, split_on, texts,
};
use vstd::prelude::*;

verus! {

/// A K-line. Numbers are decimal text, as they were sent.
#[derive(Debug, PartialEq, Eq)]
pub struct KLineDataPoint {
    pub date: String,
    pub open: String,
    pub high: String,
    pub low: String,
    pub close: String,
    pub volume: String,
    pub amount: String,
}

/// What a [`KLineDataPoint`] stands for.
pub struct KLine {
    pub date: Seq<char>,
    pub open: Seq<char>,
    pub high: Seq<char>,
    pub low: Seq<char>,
    pub close: Seq<char>,
    pub volume: Seq<char>,
    pub amount: Seq<char>,
}

impl KLineDataPoint {
    pub open spec fn view(&self) -> KLine {
        KLine {
            date: self.date@,
            open: self.open@,
            high: self.high@,
            low: self.low@,
            close: self.close@,
            volume: self.volume@,
            amount: self.amount@,
        }
    }
}

/// What a list of K-lines stands for.
pub open spec fn klines_view(points: Seq<KLineDataPoint>) -> Seq<KLine> {
    points.map_values(|p: KLineDataPoint| p@)
}

// ---------------------------------------------------------------------------------------------
// Reading the reply
// ---------------------------------------------------------------------------------------------

/// The K-line that a line of the reply holds: date, open, close, high, low, volume and amount, with
/// commas between them. A shorter line holds none; what follows the amount is left unread.
pub open spec fn kline_in(item: JsonView) -> Option<KLine> {
    match item.as_str() {
        Some(line) => {
            let parts = split_on(line, ',');
            if parts.len() >= 7 {
                Some(
                    KLine {
                        date: parts[0],
                        open: parts[1],
                        close: parts[2],
                        high: parts[3],
                        low: parts[4],
                        volume: parts[5],
                        amount: parts[6],
                    },
                )
            } else {
                None
            }
        },
        None => None,
    }
}

/// The K-lines that the service's reply holds, unless it reports an error or holds none.
pub open spec fn klines_in(root: JsonView) -> Option<Seq<KLine>> {
    if api_error(root) {
        None
    } else {
        match root.get("data"@) {
            Some(data) => match array_at(data, "klines"@) {
                Some(items) => {
                    let lines = items.filter_map(|item: JsonView| kline_in(item));
                    if lines.len() == 0 {
                        None
                    } else {
                        Some(lines)
                    }
                },
                None => None,
            },
            None => None,
        }
    }
}

fn read_line(item: &Json) -> (r: Option<KLineDataPoint>)
    ensures
        match r {
            Some(point) => kline_in(item@) == Some(point@),
            None => kline_in(item@) is None,
        },
{
    match item.as_str() {
        Some(line) => {
            let parts = split(line, ',');
            assert(forall|k: int| 0 <= k < parts@.len() ==> (#[trigger] parts@[k])@ == texts(parts@)[k]);
            if parts.len() < 7 {
                return None;
            }
            Some(
                KLineDataPoint {
                    date: parts[0].clone(),
                    open: parts[1].clone(),
                    close: parts[2].clone(),
                    high: parts[3].clone(),
                    low: parts[4].clone(),
                    volume: parts[5].clone(),
                    amount: parts[6].clone(),
                },
            )
        },
        None => None,
    }
}

/// Reads the K-lines that the service's reply holds.
pub fn read_klines(root: &Json) -> (r: Option<Vec<KLineDataPoint>>)
    ensures
        match r {
            Some(points) => klines_in(root@) == Some(klines_view(points@)),
            None => klines_in(root@) is None,
        },
{
    if let Some(rc) = root.i64_at("rc") {
        if rc != 0 {
            return None;
        }
    }
    match root.get("data") {
        Some(data) => match data.array_at("klines") {
            Some(items) => {
                let ghost views = items_view(items@);
                let ghost f = |item: JsonView| kline_in(item);
                let mut points: Vec<KLineDataPoint> = Vec::new();
                let mut i: usize = 0;
                assert(views.take(0).filter_map(f) == klines_view(points@));
                while i < items.len()
                    invariant
                        i <= items@.len(),
                        views == items_view(items@),
                        f == (|item: JsonView| kline_in(item)),
                        klines_view(points@) == views.take(i as int).filter_map(f),
                    decreases items.len() - i,
                {
                    proof {
                        lemma_filter_map_step(views, f, i as int);
                        assert(views[i as int] == items@[i as int]@);
                    }
                    if let Some(point) = read_line(&items[i]) {
                        let ghost before = points@;
                        points.push(point);
                        assert(klines_view(points@) == klines_view(before).push(point@));
                    }
                    i = i + 1;
                }
                assert(views.take(views.len() as int) == views);
                if points.len() == 0 {
                    None
                } else {
                    Some(points)
                }
            },
            None => None,
        },
        None => None,
    }
}

/// The K-lines that a text from the service holds.
pub open spec fn klines_in_text(tree: Option<JsonView>) -> Option<Seq<KLine>> {
    match tree {
        Some(root) => klines_in(root),
        None => None,
    }
}

/// Reads the K-lines that a text from the service holds.
pub fn read_kline_text(text: &str) -> (r: Option<Vec<KLineDataPoint>>)
    ensures
        match r {
            Some(points) => klines_in_text(json_tree(text@)) == Some(klines_view(points@)),
            None => klines_in_text(json_tree(text@)) is None,
        },
{
    match Json::parse(text) {
        Some(root) => read_klines(&root),
        None => None,
    }
}

// ---------------------------------------------------------------------------------------------
// Answering
// ---------------------------------------------------------------------------------------------

/// The period that the service knows a kind of K-line by: `102` for weeks, `103` for months, and
/// `101`, for days, in any other case.
pub open spec fn period_of(kind: Option<Seq<char>>) -> Seq<char> {
    if kind == Some("kweek"@) {
        "102"@
    } else if kind == Some("kmonth"@) {
        "103"@
    } else {
        "101"@
    }
}

/// The period that the service knows a kind of K-line by.
pub fn kline_period(kind: Option<&str>) -> (r: &'static str)
    ensures
        r@ == period_of(opt_text(kind)),
{
    match kind {
        Some(kind) => if same(kind, "kweek") {
            "102"
        } else if same(kind, "kmonth") {
            "103"
        } else {
            "101"
        },
        None => "101",
    }
}

/// How many K-lines a chart shows.
pub const CHART_LINES: u64 = 90;

/// The page that lists the last K-lines of a stock.
pub open spec fn kline_page(code: Seq<char>, period: Seq<char>, limit: u64) -> Seq<char> {
    "http://push2his.eastmoney.com/api/qt/stock/kline/get?secid="@ + security_id(code)
        + "&fields1=f1,f2,f3,f4,f5,f6&fields2=f51,f52,f53,f54,f55,f56,f57,f58,f59,f60,f61&klt="@
        + period + "&fqt=1&beg=0&end=20500101&lmt="@ + digits(limit as nat)
}

/// The page that lists the last K-lines of a stock.
pub fn kline_url(code: &str, period: &str, limit: u64) -> (r: String)
    ensures
        r@ == kline_page(code@, period@, limit),
{
    let id = secid(code);
    let count = decimal(limit);
    let mut r = joined("http://push2his.eastmoney.com/api/qt/stock/kline/get?secid=", &id);
    r.append("&fields1=f1,f2,f3,f4,f5,f6&fields2=f51,f52,f53,f54,f55,f56,f57,f58,f59,f60,f61&klt=");
    r.append(period);
    r.append("&fqt=1&beg=0&end=20500101&lmt=");
    r.append(&count);
    r
}

/// A K-line as it is handed out.
pub open spec fn kline_view(k: KLine) -> JsonView {
    JsonView::object().with_str("date"@, k.date).with("open"@, number_view(k.open)).with(
        "high"@,
        number_view(k.high),
    ).with("low"@, number_view(k.low)).with("close"@, number_view(k.close)).with(
        "volume"@,
        number_view(k.volume),
    ).with("amount"@, number_view(k.amount))
}

/// The K-lines as they are handed out.
pub open spec fn kline_list(lines: Seq<KLine>) -> JsonView {
    JsonView::Arr(lines.map_values(|k: KLine| kline_view(k)))
}

fn kline_json(k: &KLineDataPoint) -> (j: Json)
    ensures
        j@ == kline_view(k@),
{
    Fields::new().with_str("date", &k.date).with("open", number(&k.open)).with("high", number(&k.high)).with(
        "low",
        number(&k.low),
    ).with("close", number(&k.close)).with("volume", number(&k.volume)).with(
        "amount",
        number(&k.amount),
    ).object()
}

fn klines_json(points: &Vec<KLineDataPoint>) -> (j: Json)
    ensures
        j@ == kline_list(klines_view(points@)),
{
    broadcast use lemma_arr_view;

    let mut items: Vec<Json> = Vec::new();
    let mut i: usize = 0;
    while i < points.len()
        invariant
            i <= points@.len(),
            items@.len() == i,
            forall|k: int| 0 <= k < i ==> (#[trigger] items@[k])@ == kline_view(points@[k]@),
        decreases points.len() - i,
    {
        items.push(kline_json(&points[i]));
        i = i + 1;
    }
    assert(items_view(items@) == klines_view(points@).map_values(|k: KLine| kline_view(k)));
    Json::Arr(items)
}

/// The key under which the K-lines of a stock are kept: one for each period.
pub open spec fn kline_key(code: Seq<char>, period: Seq<char>) -> Seq<char> {
    code + "_"@ + period
}

/// How a request for a stock's K-lines begins. Without a code it fails; what the cache serves is
/// handed out; else the K-lines are fetched.
pub open spec fn kline_start(
    code: Option<Seq<char>>,
    kind: Option<Seq<char>>,
    cached: Map<Seq<char>, (Vec<KLineDataPoint>, u128)>,
    now: u128,
) -> StartView {
    match code {
        Some(code) => {
            let full = stock_code(code);
            let key = kline_key(full, period_of(kind));
            if serves(cached, key, now, KLINE_TTL) {
                StartView::Reply(data_view(kline_list(klines_view(cached[key].0@)), true))
            } else {
                StartView::Fetch { key, url: kline_page(full, period_of(kind), CHART_LINES) }
            }
        },
        None => StartView::Reply(error_view("fetch failed or no data"@)),
    }
}

/// Begins a request for a stock's K-lines.
pub fn start_klines(
    code: Option<&str>,
    kind: Option<&str>,
    cache: &Cache<Vec<KLineDataPoint>>,
    now: u128,
) -> (r: Start)
    ensures
        r@ == kline_start(opt_text(code), opt_text(kind), cache@, now),
{
    match code {
        Some(code) => {
            let full = normalize_stock_code(code);
            let period = kline_period(kind);
            let mut key = joined(&full, "_");
            key.append(period);
            match cache.get(&key, now, KLINE_TTL) {
                Some(points) => Start::Reply(data_reply(klines_json(points), true)),
                None => {
                    let url = kline_url(&full, period, CHART_LINES);
                    Start::Fetch { key, url }
                },
            }
        },
        None => Start::Reply(error_reply("fetch failed or no data")),
    }
}

/// Ends a request for a stock's K-lines: hands out what was read and keeps it under `key`, or fails
/// where nothing could be read.
pub fn finish_klines(
    key: &str,
    read: Option<Vec<KLineDataPoint>>,
    cache: &mut Cache<Vec<KLineDataPoint>>,
    now: u128,
) -> (j: Json)
    ensures
        match read {
            Some(points) => {
                &&& j@ == data_view(kline_list(klines_view(points@)), false)
                &&& final(cache)@ == old(cache)@.insert(key@, (points, now))
            },
            None => {
                &&& j@ == error_view("fetch failed or no data"@)
                &&& final(cache)@ == old(cache)@
            },
        },
{
    match read {
        Some(points) => {
            let j = data_reply(klines_json(&points), false);
            cache.insert(key, points, now);
            j
        },
        None => error_reply("fetch failed or no data"),
    }
}

// ---------------------------------------------------------------------------------------------
// Laws
// ---------------------------------------------------------------------------------------------

/// K-lines that were handed out are handed out again from the cache, marked so, to every request for
/// the same stock and period until they are five minutes old, and not from then on.
pub proof fn law_klines_served_again(
    code: Seq<char>,
    kind: Option<Seq<char>>,
    cached: Map<Seq<char>, (Vec<KLineDataPoint>, u128)>,
    points: Vec<KLineDataPoint>,
    stored: u128,
    now: u128,
)
    requires
        stored <= now,
    ensures
        now - stored < 300_000_000_000 ==> kline_start(
            Some(code),
            kind,
            cached.insert(kline_key(stock_code(code), period_of(kind)), (points, stored)),
            now,
        ) == StartView::Reply(data_view(kline_list(klines_view(points@)), true)),
        now - stored >= 300_000_000_000 ==> kline_start(
            Some(code),
            kind,
            cached.insert(kline_key(stock_code(code), period_of(kind)), (points, stored)),
            now,
        ) is Fetch,
{
    law_cache_gives_back(
        cached,
        kline_key(stock_code(code), period_of(kind)),
        points,
        stored,
        now,
        KLINE_TTL,
    );
}

/// Each stock and period has a key of its own.
pub proof fn law_kline_keys_differ(
    code: Seq<char>,
    kind: Option<Seq<char>>,
    other_code: Seq<char>,
    other_kind: Option<Seq<char>>,
)
    requires
        kline_key(code, period_of(kind)) == kline_key(other_code, period_of(other_kind)),
    ensures
        code == other_code,
        period_of(kind) == period_of(other_kind),
{
    reveal_strlit("101");
    reveal_strlit("102");
    reveal_strlit("103");
    let key = kline_key(code, period_of(kind));
    let n = code.len() as int;
    assert(key.len() == n + "_"@.len() + 3);
    assert(n == other_code.len());
    assert(key.take(n) =~= code);
    assert(key.take(n) =~= other_code);
    assert(key.skip(n + "_"@.len()) =~= period_of(kind));
    assert(key.skip(n + "_"@.len()) =~= period_of(other_kind));
}

/// What is kept for one stock and period is never served for another stock or another period.
pub proof fn law_klines_are_kept_apart(
    code: Seq<char>,
    kind: Option<Seq<char>>,
    other_code: Seq<char>,
    other_kind: Option<Seq<char>>,
    cached: Map<Seq<char>, (Vec<KLineDataPoint>, u128)>,
    points: Vec<KLineDataPoint>,
    stored: u128,
    now: u128,
)
    requires
        stock_code(code) != stock_code(other_code) || period_of(kind) != period_of(other_kind),
    ensures
        kline_start(
            Some(other_code),
            other_kind,
            cached.insert(kline_key(stock_code(code), period_of(kind)), (points, stored)),
            now,
        ) == kline_start(Some(other_code), other_kind, cached, now),
{
    let key = kline_key(stock_code(code), period_of(kind));
    if key == kline_key(stock_code(other_code), period_of(other_kind)) {
        law_kline_keys_differ(stock_code(code), kind, stock_code(other_code), other_kind);
    }
}

/// Each figure of a K-line is handed out under its own name.
pub proof fn law_kline_by_key(k: KLine)
    ensures
        kline_view(k).get("date"@) == Some(JsonView::Str(k.date)),
        kline_view(k).get("open"@) == Some(JsonView::Num(NumView::Decimal(k.open))),
        kline_view(k).get("high"@) == Some(JsonView::Num(NumView::Decimal(k.high))),
        kline_view(k).get("low"@) == Some(JsonView::Num(NumView::Decimal(k.low))),
        kline_view(k).get("close"@) == Some(JsonView::Num(NumView::Decimal(k.close))),
        kline_view(k).get("volume"@) == Some(JsonView::Num(NumView::Decimal(k.volume))),
        kline_view(k).get("amount"@) == Some(JsonView::Num(NumView::Decimal(k.amount))),
{
    broadcast use law_field_is_found, law_empty_object;

    reveal_strlit("date");
    reveal_strlit("open");
    reveal_strlit("high");
    reveal_strlit("low");
    reveal_strlit("close");
    reveal_strlit("volume");
    reveal_strlit("amount");
    assert("date"@.len() == 4 && "date"@[0] == 'd');
    assert("open"@.len() == 4 && "open"@[0] == 'o');
    assert("high"@.len() == 4 && "high"@[0] == 'h');
    assert("low"@.len() == 3);
    assert("close"@.len() == 5);
    assert("volume"@.len() == 6 && "volume"@[0] == 'v');
    assert("amount"@.len() == 6 && "amount"@[0] == 'a');
}

/// A K-line as the service writes it: date, open, close, high, low, volume and amount, with commas
/// between them.
pub open spec fn written(k: KLine) -> Seq<char> {
    k.date + seq![','] + k.open + seq![','] + k.close + seq![','] + k.high + seq![','] + k.low
        + seq![','] + k.volume + seq![','] + k.amount
}

/// Whether no figure of a K-line holds a comma.
pub open spec fn without_commas(k: KLine) -> bool {
    &&& !k.date.contains(',')
    &&& !k.open.contains(',')
    &&& !k.close.contains(',')
    &&& !k.high.contains(',')
    &&& !k.low.contains(',')
    &&& !k.volume.contains(',')
    &&& !k.amount.contains(',')
}

/// A line that the service writes for a K-line is read as that K-line, whatever it writes behind it.
pub proof fn law_kline_is_read(k: KLine, more: Seq<char>)
    requires
        without_commas(k),
        !more.contains(','),
    ensures
        kline_in(JsonView::Str(written(k))) == Some(k),
        kline_in(JsonView::Str(written(k) + seq![','] + more)) == Some(k),
{
    let x1 = k.date;
    let x2 = x1 + seq![','] + k.open;
    let x3 = x2 + seq![','] + k.close;
    let x4 = x3 + seq![','] + k.high;
    let x5 = x4 + seq![','] + k.low;
    let x6 = x5 + seq![','] + k.volume;
    law_split_takes_parts(x1, x1, ',');
    law_split_takes_parts(x1, k.open, ',');
    law_split_takes_parts(x2, k.close, ',');
    law_split_takes_parts(x3, k.high, ',');
    law_split_takes_parts(x4, k.low, ',');
    law_split_takes_parts(x5, k.volume, ',');
    law_split_takes_parts(x6, k.amount, ',');
    law_split_takes_parts(written(k), more, ',');
}

/// The K-lines that the service lists are handed out in its order, each figure under its own name:
/// of a line that says date, open, close, high, low, volume and amount, in this order, the high is
/// found under `high`, the low under `low`, and so on.
pub proof fn law_klines_are_shown(
    root: JsonView,
    data: JsonView,
    lines: Seq<KLine>,
    cached: bool,
    i: int,
)
    requires
        root.get("rc"@) is None || root.get("rc"@) == Some(JsonView::Num(NumView::Unsigned(0))),
        root.get("data"@) == Some(data),
        data.get("klines"@) == Some(
            JsonView::Arr(lines.map_values(|k: KLine| JsonView::Str(written(k)))),
        ),
        forall|k: int| 0 <= k < lines.len() ==> without_commas(#[trigger] lines[k]),
        0 <= i < lines.len(),
    ensures
        klines_in(root) == Some(lines),
        ({
            let reply = data_view(kline_list(klines_in(root)->Some_0), cached);
            &&& reply.get("status"@) == Some(JsonView::Str("success"@))
            &&& reply.get("cached"@) == Some(JsonView::Bool(cached))
            &&& array_at(reply, "data"@) matches Some(shown) && shown.len() == lines.len() && {
                &&& shown[i].get("date"@) == Some(JsonView::Str(lines[i].date))
                &&& shown[i].get("open"@) == Some(JsonView::Num(NumView::Decimal(lines[i].open)))
                &&& shown[i].get("high"@) == Some(JsonView::Num(NumView::Decimal(lines[i].high)))
                &&& shown[i].get("low"@) == Some(JsonView::Num(NumView::Decimal(lines[i].low)))
                &&& shown[i].get("close"@) == Some(JsonView::Num(NumView::Decimal(lines[i].close)))
                &&& shown[i].get("volume"@) == Some(
                    JsonView::Num(NumView::Decimal(lines[i].volume)),
                )
                &&& shown[i].get("amount"@) == Some(
                    JsonView::Num(NumView::Decimal(lines[i].amount)),
                )
            }
        }),
{
    let items = lines.map_values(|k: KLine| JsonView::Str(written(k)));
    let f = |item: JsonView| kline_in(item);
    assert forall|n: int| 0 <= n < items.len() implies f(#[trigger] items[n]) == Some(lines[n]) by {
        assert(without_commas(lines[n]));
        law_kline_is_read(lines[n], Seq::empty());
    }
    lemma_filter_map_all(items, f, lines);
    law_replies_by_key(Seq::empty(), kline_list(lines), cached);
    law_kline_by_key(lines[i]);
}

/// A reply that tells an error of the service, or lists no K-line, gives none.
pub proof fn law_no_klines(root: JsonView, rc: u64, negative: i64)
    ensures
        root.get("rc"@) == Some(JsonView::Num(NumView::Negative(negative))) && negative < 0
            ==> klines_in(root) is None,
        root.get("rc"@) == Some(JsonView::Num(NumView::Unsigned(rc))) && 1 <= rc <= i64::MAX
            ==> klines_in(root) is None,
        root.get("data"@) is None ==> klines_in(root) is None,
        root.get("data"@) == Some(JsonView::Null) ==> klines_in(root) is None,
{
}

/// A request is served from the cache, or the service is asked for the last ninety K-lines of the
/// stock: of days, of weeks for `kweek` and of months for `kmonth`. One without a code is refused.
pub proof fn law_kline_request(
    code: Seq<char>,
    number: Seq<char>,
    kind: Option<Seq<char>>,
    cached: Map<Seq<char>, (Vec<KLineDataPoint>, u128)>,
    now: u128,
)
    requires
        stock_code(code) == "sh"@ + number || stock_code(code) == "sz"@ + number || stock_code(code)
            == "bj"@ + number,
        forall|key: Seq<char>| !#[trigger] serves(cached, key, now, 300),
    ensures
        ({
            let id = if stock_code(code) == "sh"@ + number {
                "1."@ + number
            } else {
                "0."@ + number
            };
            let period = if kind == Some("kweek"@) {
                "102"@
            } else if kind == Some("kmonth"@) {
                "103"@
            } else {
                "101"@
            };
            kline_start(Some(code), kind, cached, now) == (StartView::Fetch {
                key: stock_code(code) + "_"@ + period,
                url: "http://push2his.eastmoney.com/api/qt/stock/kline/get?secid="@ + id
                    + "&fields1=f1,f2,f3,f4,f5,f6&fields2=f51,f52,f53,f54,f55,f56,f57,f58,f59,f60,f61&klt="@
                    + period + "&fqt=1&beg=0&end=20500101&lmt="@ + digits(90),
            })
        }),
        kline_start(None, kind, cached, now) == StartView::Reply(
            error_view("fetch failed or no data"@),
        ),
{
    law_east_money_identifier(number);
    reveal_strlit("sh");
    reveal_strlit("sz");
    reveal_strlit("bj");
    assert(("sh"@ + number)[1] == 'h' && ("sz"@ + number)[1] == 'z' && ("bj"@ + number)[1] == 'j');
}

} // verus!
