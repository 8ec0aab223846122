//! The prices of a day, minute by minute.
use crate::cache::{law_cache_gives_back, serves, Cache, MINUTE_TTL};
use crate::codes::{
    law_east_money_identifier, normalize_stock_code, secid, security_id, stock_code,
};
use crate::json::{
    array_at, i64_at, items_view, json_tree, law_empty_object, law_field_is_found, lemma_arr_view,
    number_at, str_at, Fields, Json, JsonView, NumView,
};
use crate::reply::{
    data_reply, data_view, error_reply, error_view, number, number_view, Start, StartView,
};
use crate::text::{
    can_cut, cut, cuts_at, decimal, digits, first_bytes, joined, law_first_bytes,
    law_split_takes_parts, law_two_wide, lemma_filter_map_all, lemma_filter_map_step,
    lemma_trimmed_keeps, opt_text,
    pad_two, split, split_on, texts, trim, trimmed, two_wide, white_space,
};
use vstd::prelude::*;
use vstd::utf8::is_ascii_chars;

verus! {

/// A minute of the day. Numbers are decimal text, as they were sent.
#[derive(Debug, PartialEq, Eq)]
pub struct MinuteDataPoint {
    pub time: String,
    pub price: String,
    pub avg_price: String,
    pub volume: String,
    pub open: String,
    pub close: String,
    pub amount: String,
}

/// What a [`MinuteDataPoint`] stands for.
pub struct MinutePoint {
    pub time: Seq<char>,
    pub price: Seq<char>,
    pub avg_price: Seq<char>,
    pub volume: Seq<char>,
    pub open: Seq<char>,
    pub close: Seq<char>,
    pub amount: Seq<char>,
}

impl MinuteDataPoint {
    pub open spec fn view(&self) -> MinutePoint {
        MinutePoint {
            time: self.time@,
            price: self.price@,
            avg_price: self.avg_price@,
            volume: self.volume@,
            open: self.open@,
            close: self.close@,
            amount: self.amount@,
        }
    }
}

/// What a list of minutes stands for.
pub open spec fn points_view(points: Seq<MinuteDataPoint>) -> Seq<MinutePoint> {
    points.map_values(|p: MinuteDataPoint| p@)
}

/// What the service's reply says of a day.
pub enum MinuteReading {
    /// The service reports an error of its own.
    ApiError,
    /// A list of objects that holds at least one minute.
    Array { points: Vec<MinuteDataPoint>, trade_date: String },
    /// A list of objects that holds no minute.
    NoPoints,
    /// A list of lines.
    Trends { points: Vec<MinuteDataPoint>, trade_date: String },
    /// An object without the list of lines.
    NoTrends,
    /// Nothing that can be read.
    Nothing,
}

/// What a [`MinuteReading`] stands for.
pub enum Minutes {
    ApiError,
    Array { points: Seq<MinutePoint>, trade_date: Seq<char> },
    NoPoints,
    Trends { points: Seq<MinutePoint>, trade_date: Seq<char> },
    NoTrends,
    Nothing,
}

impl MinuteReading {
    pub open spec fn view(&self) -> Minutes {
        match self {
            MinuteReading::ApiError => Minutes::ApiError,
            MinuteReading::Array { points, trade_date } => Minutes::Array {
                points: points_view(points@),
                trade_date: trade_date@,
            },
            MinuteReading::NoPoints => Minutes::NoPoints,
            MinuteReading::Trends { points, trade_date } => Minutes::Trends {
                points: points_view(points@),
                trade_date: trade_date@,
            },
            MinuteReading::NoTrends => Minutes::NoTrends,
            MinuteReading::Nothing => Minutes::Nothing,
        }
    }
}

// ---------------------------------------------------------------------------------------------
// Time stamps
// ---------------------------------------------------------------------------------------------

/// The quotient, rounded towards zero.
pub open spec fn trunc_div(a: int, b: int) -> int {
    if a >= 0 {
        a / b
    } else {
        -((-a) / b)
    }
}

/// The remainder that belongs to [`trunc_div`]; it has the sign of `a`.
pub open spec fn trunc_rem(a: int, b: int) -> int {
    if a >= 0 {
        a % b
    } else {
        -((-a) % b)
    }
}

/// Two digits of a stamp, of which `unit` is the place of the lower one.
pub open spec fn stamp_part(stamp: i64, unit: int) -> int {
    trunc_rem(trunc_div(stamp as int, unit), 100)
}

/// The date in a stamp of the form `YYMMDDhhmm`.
pub open spec fn stamp_date(stamp: i64) -> Seq<char> {
    digits((2000 + stamp_part(stamp, 100_000_000)) as nat) + "-"@ + two_wide(
        stamp_part(stamp, 1_000_000),
    ) + "-"@ + two_wide(stamp_part(stamp, 10_000))
}

/// The date and the time in a stamp of the form `YYMMDDhhmm`.
pub open spec fn stamp_time(stamp: i64) -> Seq<char> {
    stamp_date(stamp) + " "@ + two_wide(stamp_part(stamp, 100)) + ":"@ + two_wide(
        stamp_part(stamp, 1),
    )
}

fn part_of_stamp(stamp: i64, unit: i64) -> (r: i64)
    requires
        0 < unit,
    ensures
        r == stamp_part(stamp, unit as int),
        -100 < r < 100,
{
    let q: i64 = stamp / unit;
    let r: i64 = q % 100;
    assert(unit as int == 1 ==> trunc_div(stamp as int, unit as int) == stamp);
    r
}

fn date_of_stamp(stamp: i64) -> (r: String)
    ensures
        r@ == stamp_date(stamp),
{
    let year: i64 = 2000 + part_of_stamp(stamp, 100_000_000);
    let month = pad_two(part_of_stamp(stamp, 1_000_000));
    let day = pad_two(part_of_stamp(stamp, 10_000));
    let mut r = decimal(year as u64);
    r.append("-");
    r.append(&month);
    r.append("-");
    r.append(&day);
    r
}

fn time_of_stamp(stamp: i64) -> (r: String)
    ensures
        r@ == stamp_time(stamp),
{
    let hour = pad_two(part_of_stamp(stamp, 100));
    let minute = pad_two(part_of_stamp(stamp, 1));
    let mut r = date_of_stamp(stamp);
    r.append(" ");
    r.append(&hour);
    r.append(":");
    r.append(&minute);
    r
}

// ---------------------------------------------------------------------------------------------
// Reading the reply
// ---------------------------------------------------------------------------------------------

/// Whether the service reports an error of its own.
pub open spec fn api_error(root: JsonView) -> bool {
    i64_at(root, "rc"@) matches Some(rc) && rc != 0
}

/// The stamp of an object that holds a minute: its field `f2`, unless that is missing or zero.
pub open spec fn stamp_of(item: JsonView) -> Option<i64> {
    match i64_at(item, "f2"@) {
        Some(stamp) => if stamp != 0 {
            Some(stamp)
        } else {
            None
        },
        None => None,
    }
}

/// The minute that an object holds: its price is that of the whole minute, and it has no volume.
pub open spec fn array_point(item: JsonView) -> Option<MinutePoint> {
    match stamp_of(item) {
        Some(stamp) => {
            let price = number_at(item, "f3"@);
            Some(
                MinutePoint {
                    time: stamp_time(stamp),
                    price,
                    avg_price: price,
                    volume: digits(0),
                    open: price,
                    close: price,
                    amount: number_at(item, "f5"@),
                },
            )
        },
        None => None,
    }
}

/// The minute that a line holds: time, price, average price, volume and amount, with commas between
/// them. The time is its first five bytes, after the date. A line that is too short, has no time or
/// comes without a date holds none.
pub open spec fn trend_point(trade_date: Seq<char>, item: JsonView) -> Option<MinutePoint> {
    match item.as_str() {
        Some(line) => {
            let parts = split_on(line, ',');
            if parts.len() >= 5 && trade_date.len() > 0 && trimmed(parts[0]).len() > 0 {
                Some(
                    MinutePoint {
                        time: trade_date + " "@ + first_bytes(trimmed(parts[0]), 5),
                        price: parts[1],
                        avg_price: parts[2],
                        volume: parts[3],
                        open: parts[1],
                        close: parts[1],
                        amount: parts[4],
                    },
                )
            } else {
                None
            }
        },
        None => None,
    }
}

/// The date that the data gives; empty if it gives none.
pub open spec fn trade_date_in(data: JsonView) -> Seq<char> {
    match str_at(data, "tradeDate"@) {
        Some(date) => date,
        None => Seq::empty(),
    }
}

/// What the service's reply says of a day.
pub open spec fn minutes_in(root: JsonView) -> Minutes {
    if api_error(root) {
        Minutes::ApiError
    } else {
        match root.get("data"@) {
            Some(JsonView::Arr(items)) => {
                let points = items.filter_map(|item: JsonView| array_point(item));
                if points.len() == 0 {
                    Minutes::NoPoints
                } else {
                    let first = items.filter_map(|item: JsonView| stamp_of(item))[0];
                    Minutes::Array { points, trade_date: stamp_date(first) }
                }
            },
            Some(JsonView::Obj(fields)) => {
                let data = JsonView::Obj(fields);
                match data.get("trends"@) {
                    Some(JsonView::Arr(items)) => {
                        let trade_date = trade_date_in(data);
                        Minutes::Trends {
                            points: items.filter_map(|item: JsonView| trend_point(trade_date, item)),
                            trade_date,
                        }
                    },
                    Some(_) => Minutes::Nothing,
                    None => Minutes::NoTrends,
                }
            },
            _ => Minutes::Nothing,
        }
    }
}

/// Whether the time of a line can be cut after five bytes.
pub open spec fn time_cuts(item: JsonView) -> bool {
    match item.as_str() {
        Some(line) => {
            let parts = split_on(line, ',');
            parts.len() >= 5 ==> cuts_at(trimmed(parts[0]), 5)
        },
        None => true,
    }
}

/// Whether every line's time can be cut after five bytes, where there are lines to be read.
pub open spec fn times_cut(root: JsonView) -> bool {
    minutes_in(root) is Trends && trade_date_in(root.get("data"@)->Some_0).len() > 0 ==> {
        let items = array_at(root.get("data"@)->Some_0, "trends"@)->Some_0;
        forall|i: int| 0 <= i < items.len() ==> time_cuts(#[trigger] items[i])
    }
}

fn read_object(item: &Json) -> (r: Option<(MinuteDataPoint, i64)>)
    ensures
        match r {
            Some((point, stamp)) => array_point(item@) == Some(point@) && stamp_of(item@) == Some(
                stamp,
            ),
            None => array_point(item@) is None && stamp_of(item@) is None,
        },
{
    match item.i64_at("f2") {
        Some(stamp) => {
            if stamp == 0 {
                return None;
            }
            let price = item.number_at("f3");
            let point = MinuteDataPoint {
                time: time_of_stamp(stamp),
                avg_price: price.clone(),
                volume: decimal(0),
                open: price.clone(),
                close: price.clone(),
                price,
                amount: item.number_at("f5"),
            };
            Some((point, stamp))
        },
        None => None,
    }
}

fn read_array(items: &Vec<Json>) -> (r: MinuteReading)
    ensures
        r@ == ({
            let views = items_view(items@);
            let points = views.filter_map(|item: JsonView| array_point(item));
            if points.len() == 0 {
                Minutes::NoPoints
            } else {
                Minutes::Array {
                    points,
                    trade_date: stamp_date(views.filter_map(|item: JsonView| stamp_of(item))[0]),
                }
            }
        }),
{
    let ghost views = items_view(items@);
    let ghost f = |item: JsonView| array_point(item);
    let ghost g = |item: JsonView| stamp_of(item);
    let mut points: Vec<MinuteDataPoint> = Vec::new();
    let mut trade_date = String::new();
    let mut i: usize = 0;
    assert(views.take(0).filter_map(f) == points_view(points@));
    assert(views.take(0).filter_map(g) == Seq::<i64>::empty());
    while i < items.len()
        invariant
            i <= items@.len(),
            views == items_view(items@),
            f == (|item: JsonView| array_point(item)),
            g == (|item: JsonView| stamp_of(item)),
            points_view(points@) == views.take(i as int).filter_map(f),
            views.take(i as int).filter_map(g).len() == points@.len(),
            points@.len() > 0 ==> trade_date@ == stamp_date(views.take(i as int).filter_map(g)[0]),
        decreases items.len() - i,
    {
        proof {
            lemma_filter_map_step(views, f, i as int);
            lemma_filter_map_step(views, g, i as int);
            assert(views[i as int] == items@[i as int]@);
        }
        if let Some((point, stamp)) = read_object(&items[i]) {
            if points.len() == 0 {
                trade_date = date_of_stamp(stamp);
            }
            let ghost before = points@;
            points.push(point);
            assert(points_view(points@) == points_view(before).push(point@));
        }
        i = i + 1;
    }
    assert(views.take(views.len() as int) == views);
    if points.len() == 0 {
        MinuteReading::NoPoints
    } else {
        MinuteReading::Array { points, trade_date }
    }
}

fn read_line(trade_date: &str, item: &Json) -> (r: Option<MinuteDataPoint>)
    requires
        trade_date@.len() > 0 ==> time_cuts(item@),
    ensures
        match r {
            Some(point) => trend_point(trade_date@, item@) == Some(point@),
            None => trend_point(trade_date@, item@) is None,
        },
{
    match item.as_str() {
        Some(line) => {
            let parts = split(line, ',');
            let ghost pieces = split_on(line@, ',');
            assert(forall|k: int| 0 <= k < parts@.len() ==> (#[trigger] parts@[k])@ == texts(parts@)[k]);
            if parts.len() < 5 {
                return None;
            }
            let time = trim(&parts[0]);
            if trade_date.is_empty() || time.as_str().is_empty() {
                return None;
            }
            let clean = cut(&time, 5);
            let mut full = joined(trade_date, " ");
            full.append(&clean);
            Some(
                MinuteDataPoint {
                    time: full,
                    price: parts[1].clone(),
                    avg_price: parts[2].clone(),
                    volume: parts[3].clone(),
                    open: parts[1].clone(),
                    close: parts[1].clone(),
                    amount: parts[4].clone(),
                },
            )
        },
        None => None,
    }
}

fn read_trends(trade_date: &str, items: &Vec<Json>) -> (points: Vec<MinuteDataPoint>)
    requires
        trade_date@.len() > 0 ==> forall|i: int|
            0 <= i < items@.len() ==> time_cuts(#[trigger] items_view(items@)[i]),
    ensures
        points_view(points@) == items_view(items@).filter_map(
            |item: JsonView| trend_point(trade_date@, item),
        ),
{
    let ghost views = items_view(items@);
    let ghost f = |item: JsonView| trend_point(trade_date@, item);
    let mut points: Vec<MinuteDataPoint> = Vec::new();
    let mut i: usize = 0;
    assert(views.take(0).filter_map(f) == points_view(points@));
    while i < items.len()
        invariant
            i <= items@.len(),
            views == items_view(items@),
            f == (|item: JsonView| trend_point(trade_date@, item)),
            points_view(points@) == views.take(i as int).filter_map(f),
            trade_date@.len() > 0 ==> forall|i: int|
                0 <= i < items@.len() ==> time_cuts(#[trigger] items_view(items@)[i]),
        decreases items.len() - i,
    {
        proof {
            lemma_filter_map_step(views, f, i as int);
            assert(views[i as int] == items@[i as int]@);
        }
        if let Some(point) = read_line(trade_date, &items[i]) {
            let ghost before = points@;
            points.push(point);
            assert(points_view(points@) == points_view(before).push(point@));
        }
        i = i + 1;
    }
    assert(views.take(views.len() as int) == views);
    points
}

/// Reads what the service's reply says of a day.
pub fn read_minutes(root: &Json) -> (r: MinuteReading)
    requires
        times_cut(root@),
    ensures
        r@ == minutes_in(root@),
{
    broadcast use lemma_arr_view;

    if let Some(rc) = root.i64_at("rc") {
        if rc != 0 {
            return MinuteReading::ApiError;
        }
    }
    match root.get("data") {
        Some(data) => match data {
            Json::Arr(items) => read_array(items),
            Json::Obj(_) => match data.get("trends") {
                Some(trends) => match trends {
                    Json::Arr(items) => {
                        let trade_date = match data.str_at("tradeDate") {
                            Some(date) => date.to_owned(),
                            None => String::new(),
                        };
                        proof {
                            let lines = array_at(root@.get("data"@)->Some_0, "trends"@)->Some_0;
                            assert(lines == items_view(items@));
                            assert(minutes_in(root@) is Trends);
                        }
                        let points = read_trends(&trade_date, items);
                        MinuteReading::Trends { points, trade_date }
                    },
                    _ => MinuteReading::Nothing,
                },
                None => MinuteReading::NoTrends,
            },
            _ => MinuteReading::Nothing,
        },
        None => MinuteReading::Nothing,
    }
}

/// Whether the times of a reply can be cut after five bytes.
pub fn times_can_be_cut(root: &Json) -> (r: bool)
    ensures
        r == times_cut(root@),
{
    broadcast use lemma_arr_view;

    if let Some(rc) = root.i64_at("rc") {
        if rc != 0 {
            return true;
        }
    }
    match root.get("data") {
        Some(data) => {
            let dated = match data.str_at("tradeDate") {
                Some(date) => !date.is_empty(),
                None => false,
            };
            match data.array_at("trends") {
                Some(items) => {
                    let ghost lines = array_at(root@.get("data"@)->Some_0, "trends"@)->Some_0;
                    assert(lines == items_view(items@));
                    assert(minutes_in(root@) is Trends);
                    !dated || lines_can_be_cut(items)
                },
                None => true,
            }
        },
        None => true,
    }
}

fn lines_can_be_cut(items: &Vec<Json>) -> (r: bool)
    ensures
        r == (forall|i: int| 0 <= i < items@.len() ==> time_cuts(#[trigger] items_view(items@)[i])),
{
    let ghost views = items_view(items@);
    let mut i: usize = 0;
    while i < items.len()
        invariant
            i <= items@.len(),
            views == items_view(items@),
            forall|k: int| 0 <= k < i ==> time_cuts(#[trigger] views[k]),
        decreases items.len() - i,
    {
        assert(views[i as int] == items@[i as int]@);
        if let Some(line) = items[i].as_str() {
            let parts = split(line, ',');
            if parts.len() >= 5 {
                assert(parts@[0]@ == texts(parts@)[0]);
                let time = trim(&parts[0]);
                if !can_cut(&time, 5) {
                    assert(!time_cuts(views[i as int]));
                    return false;
                }
            }
        }
        i = i + 1;
    }
    true
}

/// What a text from the service says of a day; nothing where a line's time cannot be cut after five
/// bytes.
pub open spec fn minutes_in_text(tree: Option<JsonView>) -> Option<Minutes> {
    match tree {
        Some(root) => if times_cut(root) {
            Some(minutes_in(root))
        } else {
            None
        },
        None => Some(Minutes::Nothing),
    }
}

/// Reads what a text from the service says of a day; nothing where a line's time cannot be cut after
/// five bytes.
pub fn read_minute_text(text: &str) -> (r: Option<MinuteReading>)
    ensures
        match r {
            Some(reading) => minutes_in_text(json_tree(text@)) == Some(reading@),
            None => minutes_in_text(json_tree(text@)) is None,
        },
{
    match Json::parse(text) {
        Some(root) => if times_can_be_cut(&root) {
            Some(read_minutes(&root))
        } else {
            None
        },
        None => Some(MinuteReading::Nothing),
    }
}

// ---------------------------------------------------------------------------------------------
// Answering
// ---------------------------------------------------------------------------------------------

/// The page that lists the minutes of a stock's day.
pub open spec fn minute_page(code: Seq<char>) -> Seq<char> {
    "http://push2.eastmoney.com/api/qt/stock/trends/get?secid="@ + security_id(code)
        + "&fields1=f1,f2,f3,f4,f5,f6,f7,f8,f9,f10,f11,f12,f13&fields2=f51,f52,f53,f54,f55,f56,f57,f58&isclose=1&datalen=240"@
}

/// The page that lists the minutes of a stock's day.
pub fn minute_url(code: &str) -> (r: String)
    ensures
        r@ == minute_page(code@),
{
    let id = secid(code);
    let mut r = joined("http://push2.eastmoney.com/api/qt/stock/trends/get?secid=", &id);
    r.append("&fields1=f1,f2,f3,f4,f5,f6,f7,f8,f9,f10,f11,f12,f13&fields2=f51,f52,f53,f54,f55,f56,f57,f58&isclose=1&datalen=240");
    r
}

/// A minute as it is handed out.
pub open spec fn point_view(p: MinutePoint) -> JsonView {
    JsonView::object().with_str("time"@, p.time).with("price"@, number_view(p.price)).with(
        "avg_price"@,
        number_view(p.avg_price),
    ).with("volume"@, number_view(p.volume)).with("open"@, number_view(p.open)).with(
        "close"@,
        number_view(p.close),
    ).with("amount"@, number_view(p.amount))
}

/// The minutes as they are handed out.
pub open spec fn point_list(points: Seq<MinutePoint>) -> JsonView {
    JsonView::Arr(points.map_values(|p: MinutePoint| point_view(p)))
}

fn point_json(p: &MinuteDataPoint) -> (j: Json)
    ensures
        j@ == point_view(p@),
{
    Fields::new().with_str("time", &p.time).with("price", number(&p.price)).with(
        "avg_price",
        number(&p.avg_price),
    ).with("volume", number(&p.volume)).with("open", number(&p.open)).with("close", number(&p.close)).with(
        "amount",
        number(&p.amount),
    ).object()
}

fn points_json(points: &Vec<MinuteDataPoint>) -> (j: Json)
    ensures
        j@ == point_list(points_view(points@)),
{
    broadcast use lemma_arr_view;

    let mut items: Vec<Json> = Vec::new();
    let mut i: usize = 0;
    while i < points.len()
        invariant
            i <= points@.len(),
            items@.len() == i,
            forall|k: int| 0 <= k < i ==> (#[trigger] items@[k])@ == point_view(points@[k]@),
        decreases points.len() - i,
    {
        items.push(point_json(&points[i]));
        i = i + 1;
    }
    assert(items_view(items@) == points_view(points@).map_values(|p: MinutePoint| point_view(p)));
    Json::Arr(items)
}

/// How a request for a stock's minutes begins. Without a code it fails; what the cache serves is
/// handed out; else the minutes are fetched.
pub open spec fn minute_start(
    code: Option<Seq<char>>,
    cached: Map<Seq<char>, (Vec<MinuteDataPoint>, u128)>,
    now: u128,
) -> StartView {
    match code {
        Some(code) => {
            let full = stock_code(code);
            if serves(cached, full, now, MINUTE_TTL) {
                StartView::Reply(data_view(point_list(points_view(cached[full].0@)), true))
            } else {
                StartView::Fetch { key: full, url: minute_page(full) }
            }
        },
        None => StartView::Reply(error_view("fetch failed"@)),
    }
}

/// Begins a request for a stock's minutes.
pub fn start_minutes(code: Option<&str>, cache: &Cache<Vec<MinuteDataPoint>>, now: u128) -> (r: Start)
    ensures
        r@ == minute_start(opt_text(code), cache@, now),
{
    match code {
        Some(code) => {
            let full = normalize_stock_code(code);
            match cache.get(&full, now, MINUTE_TTL) {
                Some(points) => Start::Reply(data_reply(points_json(points), true)),
                None => {
                    let url = minute_url(&full);
                    Start::Fetch { key: full, url }
                },
            }
        },
        None => Start::Reply(error_reply("fetch failed")),
    }
}

/// An answer without minutes, with the reason.
pub open spec fn no_minutes_view(msg: Seq<char>) -> JsonView {
    JsonView::object().with_str("status"@, "success"@).with("data"@, JsonView::Arr(Seq::empty())).with_str(
        "msg"@,
        msg,
    )
}

fn no_minutes_reply(msg: &str) -> (j: Json)
    ensures
        j@ == no_minutes_view(msg@),
{
    broadcast use lemma_arr_view;

    let none: Vec<Json> = Vec::new();
    assert(items_view(none@) == Seq::<JsonView>::empty());
    Fields::new().with_str("status", "success").with("data", Json::Arr(none)).with_str("msg", msg).object()
}

/// An answer with the minutes of a day.
pub open spec fn minutes_view(points: Seq<MinutePoint>, trade_date: Seq<char>, trading: bool) -> JsonView {
    JsonView::object().with_str("status"@, "success"@).with("data"@, point_list(points)).with_str(
        "trade_date"@,
        trade_date,
    ).with("is_trading_time"@, JsonView::Bool(trading)).with("cached"@, JsonView::Bool(false))
}

fn minutes_fields(points: &Vec<MinuteDataPoint>, trade_date: &str, trading: bool) -> (f: Fields)
    ensures
        f@ == minutes_view(points_view(points@), trade_date@, trading),
{
    Fields::new().with_str("status", "success").with("data", points_json(points)).with_str(
        "trade_date",
        trade_date,
    ).with("is_trading_time", Json::Bool(trading)).with("cached", Json::Bool(false))
}

/// What a request for a stock's minutes is answered once the service's reply was read.
pub open spec fn minute_answer(reading: Minutes, trading: bool) -> JsonView {
    match reading {
        Minutes::ApiError => no_minutes_view("API Error"@),
        Minutes::Array { points, trade_date } => minutes_view(points, trade_date, trading).with_str(
            "msg"@,
            "Parsed from array format"@,
        ),
        Minutes::NoPoints => no_minutes_view("暂无有效分时数据"@),
        Minutes::Trends { points, trade_date } => minutes_view(points, trade_date, trading),
        Minutes::NoTrends => no_minutes_view("数据格式异常 (无trends字段)"@),
        Minutes::Nothing => error_view("fetch failed"@),
    }
}

/// The minutes that a reading leaves in the cache.
pub open spec fn minutes_to_keep(reading: MinuteReading) -> Option<Vec<MinuteDataPoint>> {
    match reading {
        MinuteReading::Array { points, .. } => Some(points),
        MinuteReading::Trends { points, .. } => Some(points),
        _ => None,
    }
}

/// Ends a request for a stock's minutes: answers it from what was read, and keeps the minutes.
/// `trading` tells whether the exchanges trade at the moment.
pub fn finish_minutes(
    code: &str,
    reading: MinuteReading,
    trading: bool,
    cache: &mut Cache<Vec<MinuteDataPoint>>,
    now: u128,
) -> (j: Json)
    ensures
        j@ == minute_answer(reading@, trading),
        final(cache)@ == (match minutes_to_keep(reading) {
            Some(points) => old(cache)@.insert(code@, (points, now)),
            None => old(cache)@,
        }),
{
    match reading {
        MinuteReading::ApiError => no_minutes_reply("API Error"),
        MinuteReading::Array { points, trade_date } => {
            let j = minutes_fields(&points, &trade_date, trading).with_str(
                "msg",
                "Parsed from array format",
            ).object();
            cache.insert(code, points, now);
            j
        },
        MinuteReading::NoPoints => no_minutes_reply("暂无有效分时数据"),
        MinuteReading::Trends { points, trade_date } => {
            let j = minutes_fields(&points, &trade_date, trading).object();
            cache.insert(code, points, now);
            j
        },
        MinuteReading::NoTrends => no_minutes_reply("数据格式异常 (无trends字段)"),
        MinuteReading::Nothing => error_reply("fetch failed"),
    }
}

// ---------------------------------------------------------------------------------------------
// Laws
// ---------------------------------------------------------------------------------------------

/// Minutes that were kept are handed out from the cache, marked so, to every request for the same
/// stock until they are ten seconds old, and not from then on.
pub proof fn law_minutes_served_again(
    code: Seq<char>,
    cached: Map<Seq<char>, (Vec<MinuteDataPoint>, u128)>,
    points: Vec<MinuteDataPoint>,
    stored: u128,
    now: u128,
)
    requires
        stored <= now,
    ensures
        now - stored < 10_000_000_000 ==> minute_start(
            Some(code),
            cached.insert(stock_code(code), (points, stored)),
            now,
        )
            == StartView::Reply(data_view(point_list(points_view(points@)), true)),
        now - stored >= 10_000_000_000 ==> minute_start(
            Some(code),
            cached.insert(stock_code(code), (points, stored)),
            now,
        ) is Fetch,
{
    law_cache_gives_back(cached, stock_code(code), points, stored, now, MINUTE_TTL);
}

/// Each figure of a minute is handed out under its own name.
pub proof fn law_minute_by_key(p: MinutePoint)
    ensures
        point_view(p).get("time"@) == Some(JsonView::Str(p.time)),
        point_view(p).get("price"@) == Some(JsonView::Num(NumView::Decimal(p.price))),
        point_view(p).get("avg_price"@) == Some(JsonView::Num(NumView::Decimal(p.avg_price))),
        point_view(p).get("volume"@) == Some(JsonView::Num(NumView::Decimal(p.volume))),
        point_view(p).get("open"@) == Some(JsonView::Num(NumView::Decimal(p.open))),
        point_view(p).get("close"@) == Some(JsonView::Num(NumView::Decimal(p.close))),
        point_view(p).get("amount"@) == Some(JsonView::Num(NumView::Decimal(p.amount))),
{
    broadcast use law_field_is_found, law_empty_object;

    reveal_strlit("time");
    reveal_strlit("price");
    reveal_strlit("avg_price");
    reveal_strlit("volume");
    reveal_strlit("open");
    reveal_strlit("close");
    reveal_strlit("amount");
    assert("time"@.len() == 4 && "time"@[0] == 't');
    assert("price"@.len() == 5 && "price"@[0] == 'p');
    assert("avg_price"@.len() == 9);
    assert("volume"@.len() == 6 && "volume"@[0] == 'v');
    assert("open"@.len() == 4 && "open"@[0] == 'o');
    assert("close"@.len() == 5 && "close"@[0] == 'c');
    assert("amount"@.len() == 6 && "amount"@[0] == 'a');
}

/// A line that the service writes for a minute: the time, the price, the average price, the volume and
/// the amount.
pub struct TrendLine {
    pub time: Seq<char>,
    pub price: Seq<char>,
    pub avg_price: Seq<char>,
    pub volume: Seq<char>,
    pub amount: Seq<char>,
}

impl TrendLine {
    /// Whether the time is in ASCII and not empty, without white space at its ends, and nothing holds
    /// a comma.
    pub open spec fn valid(self) -> bool {
        &&& self.time.len() > 0
        &&& is_ascii_chars(self.time)
        &&& !white_space(self.time[0])
        &&& !white_space(self.time.last())
        &&& !self.time.contains(',')
        &&& !self.price.contains(',')
        &&& !self.avg_price.contains(',')
        &&& !self.volume.contains(',')
        &&& !self.amount.contains(',')
    }

    /// The line, with commas between its parts.
    pub open spec fn written(self) -> Seq<char> {
        self.time + seq![','] + self.price + seq![','] + self.avg_price + seq![','] + self.volume
            + seq![','] + self.amount
    }
}

/// A line is read as the minute that it tells of: the price is its second part, and the opening and
/// the closing price too; the average price its third, the volume its fourth and the amount its
/// fifth. Of the time the hour and the minute are kept, behind the date.
pub proof fn law_line_is_read(date: Seq<char>, line: TrendLine)
    requires
        line.valid(),
        date.len() > 0,
    ensures
        time_cuts(JsonView::Str(line.written())),
        trend_point(date, JsonView::Str(line.written())) == Some(
            MinutePoint {
                time: date + " "@ + (if line.time.len() < 5 {
                    line.time
                } else {
                    line.time.take(5)
                }),
                price: line.price,
                avg_price: line.avg_price,
                volume: line.volume,
                open: line.price,
                close: line.price,
                amount: line.amount,
            },
        ),
{
    let x2 = line.time + seq![','] + line.price;
    let x3 = x2 + seq![','] + line.avg_price;
    let x4 = x3 + seq![','] + line.volume;
    law_split_takes_parts(line.time, line.time, ',');
    law_split_takes_parts(line.time, line.price, ',');
    law_split_takes_parts(x2, line.avg_price, ',');
    law_split_takes_parts(x3, line.volume, ',');
    law_split_takes_parts(x4, line.amount, ',');
    assert(split_on(line.written(), ',')[0] == line.time);
    lemma_trimmed_keeps(line.time);
    law_first_bytes(line.time, 5);
}

/// The minutes that the service lists as lines are handed out in its order, each figure under its own
/// name, with the date and with whether the exchanges trade.
pub proof fn law_lines_are_shown(
    root: JsonView,
    data: JsonView,
    date: Seq<char>,
    lines: Seq<TrendLine>,
    trading: bool,
    i: int,
)
    requires
        root.get("rc"@) is None || root.get("rc"@) == Some(JsonView::Num(NumView::Unsigned(0))),
        root.get("data"@) == Some(data),
        data.get("tradeDate"@) == Some(JsonView::Str(date)),
        date.len() > 0,
        data.get("trends"@) == Some(
            JsonView::Arr(lines.map_values(|l: TrendLine| JsonView::Str(l.written()))),
        ),
        forall|k: int| 0 <= k < lines.len() ==> (#[trigger] lines[k]).valid(),
        0 <= i < lines.len(),
    ensures
        times_cut(root),
        ({
            let reply = minute_answer(minutes_in(root), trading);
            &&& reply.get("status"@) == Some(JsonView::Str("success"@))
            &&& reply.get("trade_date"@) == Some(JsonView::Str(date))
            &&& reply.get("is_trading_time"@) == Some(JsonView::Bool(trading))
            &&& reply.get("cached"@) == Some(JsonView::Bool(false))
            &&& reply.get("msg"@) is None
            &&& array_at(reply, "data"@) matches Some(shown) && shown.len() == lines.len() && {
                &&& shown[i].get("time"@) == Some(
                    JsonView::Str(
                        date + " "@ + (if lines[i].time.len() < 5 {
                            lines[i].time
                        } else {
                            lines[i].time.take(5)
                        }),
                    ),
                )
                &&& shown[i].get("price"@) == Some(JsonView::Num(NumView::Decimal(lines[i].price)))
                &&& shown[i].get("avg_price"@) == Some(JsonView::Num(NumView::Decimal(lines[i].avg_price)))
                &&& shown[i].get("volume"@) == Some(JsonView::Num(NumView::Decimal(lines[i].volume)))
                &&& shown[i].get("open"@) == Some(JsonView::Num(NumView::Decimal(lines[i].price)))
                &&& shown[i].get("close"@) == Some(JsonView::Num(NumView::Decimal(lines[i].price)))
                &&& shown[i].get("amount"@) == Some(JsonView::Num(NumView::Decimal(lines[i].amount)))
            }
        }),
{
    broadcast use law_field_is_found, law_empty_object;

    reveal_strlit("status");
    reveal_strlit("data");
    reveal_strlit("trade_date");
    reveal_strlit("is_trading_time");
    reveal_strlit("cached");
    reveal_strlit("msg");
    assert("status"@.len() == 6 && "status"@[0] == 's');
    assert("data"@.len() == 4);
    assert("trade_date"@.len() == 10);
    assert("is_trading_time"@.len() == 15);
    assert("cached"@.len() == 6 && "cached"@[0] == 'c');
    assert("msg"@.len() == 3);
    let items = lines.map_values(|l: TrendLine| JsonView::Str(l.written()));
    let f = |item: JsonView| trend_point(date, item);
    let points = Seq::new(lines.len(), |n: int| f(items[n])->Some_0);
    assert forall|n: int| 0 <= n < items.len() implies f(#[trigger] items[n]) == Some(points[n])
        && time_cuts(items[n]) by {
        assert(lines[n].valid());
        law_line_is_read(date, lines[n]);
    }
    lemma_filter_map_all(items, f, points);
    assert(lines[i].valid());
    law_line_is_read(date, lines[i]);
    assert(items[i] == JsonView::Str(lines[i].written()));
    law_minute_by_key(points[i]);
    assert(data is Obj);
    assert(minutes_in(root) == (Minutes::Trends { points, trade_date: date }));
}

proof fn lemma_stamp_parts(year: int, month: int, day: int, hour: int, minute: int, stamp: i64)
    requires
        0 <= year < 100,
        0 <= month < 100,
        0 <= day < 100,
        0 <= hour < 100,
        0 <= minute < 100,
        stamp == year * 100_000_000 + month * 1_000_000 + day * 10_000 + hour * 100 + minute,
    ensures
        stamp_part(stamp, 100_000_000) == year,
        stamp_part(stamp, 1_000_000) == month,
        stamp_part(stamp, 10_000) == day,
        stamp_part(stamp, 100) == hour,
        stamp_part(stamp, 1) == minute,
{
    let s = stamp as int;
    assert(s / 100_000_000 == year);
    assert(s / 1_000_000 == year * 100 + month);
    assert(s / 10_000 == year * 10_000 + month * 100 + day);
    assert(s / 100 == year * 1_000_000 + month * 10_000 + day * 100 + hour);
}

proof fn lemma_year(year: int)
    requires
        0 <= year < 100,
    ensures
        digits((2000 + year) as nat) == "20"@ + two_wide(year),
{
    let tens = year / 10;
    let ones = year % 10;
    law_two_wide(tens, ones);
    reveal_strlit("20");
    assert(digits(2) =~= seq!['2']);
    assert(digits(20) == digits(2).push('0'));
    assert(digits((200 + tens) as nat) == digits(20).push((48 + tens) as char));
    assert(digits((2000 + year) as nat) == digits((200 + tens) as nat).push((48 + ones) as char));
    assert(digits((2000 + year) as nat) =~= "20"@ + two_wide(year));
}

/// The stamp of a moment is its year, month, day, hour and minute, two digits each, and is told as the
/// date and the time of that moment.
pub proof fn law_stamp_is_told(year: int, month: int, day: int, hour: int, minute: int, stamp: i64)
    requires
        0 <= year < 100,
        0 <= month < 100,
        0 <= day < 100,
        0 <= hour < 100,
        0 <= minute < 100,
        stamp == year * 100_000_000 + month * 1_000_000 + day * 10_000 + hour * 100 + minute,
    ensures
        stamp_date(stamp) == "20"@ + two_wide(year) + "-"@ + two_wide(month) + "-"@ + two_wide(day),
        stamp_time(stamp) == stamp_date(stamp) + " "@ + two_wide(hour) + ":"@ + two_wide(minute),
{
    lemma_stamp_parts(year, month, day, hour, minute, stamp);
    lemma_year(year);
}

/// An object with a stamp, a price and an amount is read as the minute of that stamp, at that price
/// throughout, with that amount and no volume; it is handed out with each figure under its own name.
pub proof fn law_stamped_minute_is_shown(
    root: JsonView,
    item: JsonView,
    stamp: i64,
    price: Seq<char>,
    amount: Seq<char>,
    trading: bool,
)
    requires
        root.get("rc"@) is None || root.get("rc"@) == Some(JsonView::Num(NumView::Unsigned(0))),
        root.get("data"@) == Some(JsonView::Arr(Seq::empty().push(item))),
        i64_at(item, "f2"@) == Some(stamp),
        stamp != 0,
        item.get("f3"@) == Some(JsonView::Num(NumView::Decimal(price))),
        item.get("f5"@) == Some(JsonView::Num(NumView::Decimal(amount))),
    ensures
        ({
            let reply = minute_answer(minutes_in(root), trading);
            let i = 0;
            &&& reply.get("status"@) == Some(JsonView::Str("success"@))
            &&& reply.get("trade_date"@) == Some(JsonView::Str(stamp_date(stamp)))
            &&& reply.get("is_trading_time"@) == Some(JsonView::Bool(trading))
            &&& reply.get("msg"@) == Some(JsonView::Str("Parsed from array format"@))
            &&& array_at(reply, "data"@) matches Some(shown) && shown.len() == 1 && {
                &&& shown[i].get("time"@) == Some(JsonView::Str(stamp_time(stamp)))
                &&& shown[i].get("price"@) == Some(JsonView::Num(NumView::Decimal(price)))
                &&& shown[i].get("avg_price"@) == Some(JsonView::Num(NumView::Decimal(price)))
                &&& shown[i].get("volume"@) == Some(JsonView::Num(NumView::Decimal(seq!['0'])))
                &&& shown[i].get("open"@) == Some(JsonView::Num(NumView::Decimal(price)))
                &&& shown[i].get("close"@) == Some(JsonView::Num(NumView::Decimal(price)))
                &&& shown[i].get("amount"@) == Some(JsonView::Num(NumView::Decimal(amount)))
            }
        }),
{
    broadcast use law_field_is_found, law_empty_object;

    reveal_strlit("status");
    reveal_strlit("data");
    reveal_strlit("trade_date");
    reveal_strlit("is_trading_time");
    reveal_strlit("cached");
    reveal_strlit("msg");
    assert("status"@.len() == 6 && "status"@[0] == 's');
    assert("data"@.len() == 4);
    assert("trade_date"@.len() == 10);
    assert("is_trading_time"@.len() == 15);
    assert("cached"@.len() == 6 && "cached"@[0] == 'c');
    assert("msg"@.len() == 3);
    reveal_with_fuel(digits, 2);
    assert(digits(0) =~= seq!['0']);
    let items = Seq::empty().push(item);
    let f = |item: JsonView| array_point(item);
    let g = |item: JsonView| stamp_of(item);
    let point = array_point(item)->Some_0;
    lemma_filter_map_all(items, f, Seq::empty().push(point));
    lemma_filter_map_all(items, g, Seq::empty().push(stamp));
    law_minute_by_key(point);
}

/// What is answered where there are no minutes: success without data and the reason, or a refusal
/// where nothing can be read.
pub proof fn law_no_minutes(root: JsonView, rc: u64, negative: i64, trading: bool)
    ensures
        (root.get("rc"@) == Some(JsonView::Num(NumView::Unsigned(rc))) && 1 <= rc <= i64::MAX) || (
        root.get("rc"@) == Some(JsonView::Num(NumView::Negative(negative))) && negative < 0) ==> {
            let reply = minute_answer(minutes_in(root), trading);
            &&& reply.get("status"@) == Some(JsonView::Str("success"@))
            &&& reply.get("data"@) == Some(JsonView::Arr(Seq::empty()))
            &&& reply.get("msg"@) == Some(JsonView::Str("API Error"@))
        },
        root.get("rc"@) is None && root.get("data"@) == Some(JsonView::Arr(Seq::empty())) ==> {
            let reply = minute_answer(minutes_in(root), trading);
            &&& reply.get("status"@) == Some(JsonView::Str("success"@))
            &&& reply.get("data"@) == Some(JsonView::Arr(Seq::empty()))
            &&& reply.get("msg"@) == Some(JsonView::Str("暂无有效分时数据"@))
        },
        root.get("rc"@) is None && root.get("data"@) is None ==> {
            let reply = minute_answer(minutes_in(root), trading);
            &&& reply.get("status"@) == Some(JsonView::Str("error"@))
            &&& reply.get("msg"@) == Some(JsonView::Str("fetch failed"@))
        },
{
    broadcast use law_field_is_found, law_empty_object;

    reveal_strlit("status");
    reveal_strlit("data");
    reveal_strlit("msg");
    assert("status"@.len() == 6);
    assert("data"@.len() == 4);
    assert("msg"@.len() == 3);
    assert(Seq::<JsonView>::empty().filter_map(|item: JsonView| array_point(item)) =~= Seq::empty());
}

/// A request is served from the cache, or the service is asked for the minutes of the stock; one
/// without a code is refused.
pub proof fn law_minute_request(
    code: Seq<char>,
    number: Seq<char>,
    cached: Map<Seq<char>, (Vec<MinuteDataPoint>, u128)>,
    now: u128,
)
    requires
        stock_code(code) == "sh"@ + number || stock_code(code) == "sz"@ + number || stock_code(code)
            == "bj"@ + number,
        !serves(cached, stock_code(code), now, 10),
    ensures
        minute_start(Some(code), cached, now) == (StartView::Fetch {
            key: stock_code(code),
            url: "http://push2.eastmoney.com/api/qt/stock/trends/get?secid="@ + (if stock_code(code)
                == "sh"@ + number {
                "1."@ + number
            } else {
                "0."@ + number
            })
                + "&fields1=f1,f2,f3,f4,f5,f6,f7,f8,f9,f10,f11,f12,f13&fields2=f51,f52,f53,f54,f55,f56,f57,f58&isclose=1&datalen=240"@,
        }),
        minute_start(None, cached, now) == StartView::Reply(error_view("fetch failed"@)),
{
    law_east_money_identifier(number);
    reveal_strlit("sh");
    reveal_strlit("sz");
    reveal_strlit("bj");
    assert(("sh"@ + number)[1] == 'h' && ("sz"@ + number)[1] == 'z' && ("bj"@ + number)[1] == 'j');
}

} // verus!
