//! What the operations promise, call by call.
//!
//! Each law here speaks of a call of a function: of what came back, given what was handed in. So it ties
//! the contract of the function to what its callers see: the codes, the names of the fields, the figures
//! under them and the words of a refusal.
use crate::ai::{
    begin_run, call_llm_api, call_llm_api_with_model, law_analysis_is_answered, law_content_is_read,
    law_model_is_asked, law_own_model_is_asked, law_prompt_tells, models, names_in, read_analysis,
    read_model_result, read_own_result, read_request, start_analysis, tries_of, AiAnalysisRequest,
    AiAnalysisResponse, AnalysisRun, AnalysisStart, AnalysisStep, CallOutcome, LlmCall,
    SYSTEM_PROMPT,
};
use crate::cache::{law_cache_gives_back, serves, Cache};
use crate::codes::{
    index_code, is_plain, law_east_money_identifier, law_index_market_by_first_character,
    law_stock_market_by_first_character, normalize_index_code, normalize_stock_code, secid,
    stock_code,
};
use crate::config::{
    law_provider_by_key, page_interval, page_interval_of, providers, repair_config, starting_config,
    AiConfig, AppConfig, ConfigFile,
};
use crate::json::{array_at, Json, JsonView, NumView};
use crate::kline::{
    finish_klines, law_kline_by_key, law_klines_are_shown, read_klines, start_klines,
    without_commas, written, KLine, KLineDataPoint,
};
use crate::minute::{
    finish_minutes, law_line_is_read, law_lines_are_shown, law_minute_by_key, read_minutes,
    start_minutes, times_cut, MinuteDataPoint, MinuteReading, TrendLine,
};
use crate::money_flow::{
    braced_tree, flow_in, law_answers_without_a_flow, law_flow_by_key, law_moment_fields, read_flow,
    read_moment_flow, read_page, start_flow, Fetched, FlowAction, FlowSearch, FlowStart, MoneyFlow,
    PageOutcome,
};
use crate::quote::{
    finish_detail, first_match, gbk_text, get_market_data, law_quote_fields, read_match, read_quote,
    start_detail, stock_info,
    DetailOutcome, Figures, PatternError, RefreshRound, SinaQuote, StockInfo, QUOTE_PATTERN,
};
use crate::reply::{law_replies_by_key, Start};
use crate::session::is_trading_time;
use crate::state::{
    law_add_index_answers, law_add_stock_answers, law_config_by_key, law_providers_are_set,
    law_remove_index_answers, law_remove_stock_answers, law_reorder_takes_the_order,
    law_zero_intervals_are_refused, AppState, Change, Parsed,
};
use crate::text::{digits, join_with, occurs, texts, trimmed, without};
use vstd::prelude::*;

verus! {

// ---------------------------------------------------------------------------------------------
// Codes and sessions
// ---------------------------------------------------------------------------------------------

/// A stock's code gets its market by its first character alone.
pub proof fn law_stock_code_call(code: &str, r: String)
    requires
        call_ensures(normalize_stock_code, (code,), r),
        is_plain(code@),
        !"sh"@.is_prefix_of(code@),
        !"sz"@.is_prefix_of(code@),
        !"bj"@.is_prefix_of(code@),
    ensures
        code@.len() > 0 && code@[0] == '6' ==> r@ == "sh"@ + code@,
        code@.len() > 0 && (code@[0] == '0' || code@[0] == '3') ==> r@ == "sz"@ + code@,
        code@.len() > 0 && (code@[0] == '8' || code@[0] == '4' || code@[0] == '9') ==> r@ == "bj"@
            + code@,
        code@.len() == 0 || (code@[0] != '6' && code@[0] != '8' && code@[0] != '4' && code@[0] != '9')
            ==> r@ == "sz"@ + code@,
{
    law_stock_market_by_first_character(code@);
}

/// A code that says its market is left as it is, of a stock and of an index.
pub proof fn law_full_code_call(code: &str, stock: String, index: String)
    requires
        call_ensures(normalize_stock_code, (code,), stock),
        call_ensures(normalize_index_code, (code,), index),
        is_plain(code@),
        "sh"@.is_prefix_of(code@) || "sz"@.is_prefix_of(code@) || "bj"@.is_prefix_of(code@),
    ensures
        stock@ == code@,
        index@ == code@,
{
    law_stock_market_by_first_character(code@);
    law_index_market_by_first_character(code@);
}

/// An index's code gets its market by its first character alone.
pub proof fn law_index_code_call(code: &str, r: String)
    requires
        call_ensures(normalize_index_code, (code,), r),
        is_plain(code@),
        !"sh"@.is_prefix_of(code@),
        !"sz"@.is_prefix_of(code@),
        !"bj"@.is_prefix_of(code@),
    ensures
        code@.len() > 0 && '0' <= code@[0] <= '3' ==> r@ == "sz"@ + code@,
        code@.len() == 0 || !('0' <= code@[0] <= '3') ==> r@ == "sh"@ + code@,
{
    law_index_market_by_first_character(code@);
}

/// The identifier of a full code: a one for Shanghai, a zero for the others, and the number.
pub proof fn law_secid_call(code: &str, number: Seq<char>, r: String)
    requires
        call_ensures(secid, (code,), r),
    ensures
        code@ == "sh"@ + number ==> r@ == "1."@ + number,
        code@ == "sz"@ + number ==> r@ == "0."@ + number,
        code@ == "bj"@ + number ==> r@ == "0."@ + number,
{
    law_east_money_identifier(number);
}

/// The exchanges trade from Monday to Friday, from 9:30 to 11:29 and from 13:00 to 14:59.
pub proof fn law_session_call(weekday: u32, hour: u32, minute: u32, r: bool)
    requires
        call_ensures(is_trading_time, (weekday, hour, minute), r),
        hour < 24,
        minute < 60,
    ensures
        r <==> weekday < 5 && ((hour == 9 && minute >= 30) || hour == 10 || (hour == 11 && minute < 30)
            || hour == 13 || hour == 14),
{
}

/// What a cache is given under a key, it gives back under that key until its age reaches the limit,
/// and not from then on.
pub proof fn law_cache_calls<T>(
    cache: &mut Cache<T>,
    key: &str,
    data: T,
    stored: u128,
    now: u128,
    ttl: u64,
    r: Option<&T>,
)
    requires
        call_ensures(Cache::<T>::insert, (cache, key, data, stored), ()),
        call_ensures(Cache::<T>::get, (&*final(cache), key, now, ttl), r),
        stored <= now,
    ensures
        r is Some <==> now - stored < ttl * 1_000_000_000,
        r matches Some(found) ==> *found == data,
{
    law_cache_gives_back(old(cache)@, key@, data, stored, now, ttl);
}

// ---------------------------------------------------------------------------------------------
// K-lines
// ---------------------------------------------------------------------------------------------

/// The K-lines that were read are handed out in their order, each figure under its own name, and kept;
/// where none could be read the request is refused and nothing is kept.
pub proof fn law_finish_klines_call(
    key: &str,
    read: Option<Vec<KLineDataPoint>>,
    cache: &mut Cache<Vec<KLineDataPoint>>,
    now: u128,
    j: Json,
    i: int,
)
    requires
        call_ensures(finish_klines, (key, read, cache, now), j),
    ensures
        read matches Some(points) ==> {
            &&& j@.get("status"@) == Some(JsonView::Str("success"@))
            &&& j@.get("cached"@) == Some(JsonView::Bool(false))
            &&& array_at(j@, "data"@) matches Some(shown) && shown.len() == points@.len() && (0 <= i
                < points@.len() ==> {
                &&& shown[i].get("date"@) == Some(JsonView::Str(points@[i].date@))
                &&& shown[i].get("open"@) == Some(JsonView::Num(NumView::Decimal(points@[i].open@)))
                &&& shown[i].get("high"@) == Some(JsonView::Num(NumView::Decimal(points@[i].high@)))
                &&& shown[i].get("low"@) == Some(JsonView::Num(NumView::Decimal(points@[i].low@)))
                &&& shown[i].get("close"@) == Some(JsonView::Num(NumView::Decimal(points@[i].close@)))
                &&& shown[i].get("volume"@) == Some(JsonView::Num(NumView::Decimal(points@[i].volume@)))
                &&& shown[i].get("amount"@) == Some(JsonView::Num(NumView::Decimal(points@[i].amount@)))
            })
            &&& final(cache)@ == old(cache)@.insert(key@, (points, now))
        },
        read is None ==> {
            &&& j@.get("status"@) == Some(JsonView::Str("error"@))
            &&& j@.get("msg"@) == Some(JsonView::Str("fetch failed or no data"@))
            &&& final(cache)@ == old(cache)@
        },
{
    match read {
        Some(points) => {
            law_replies_by_key(
                Seq::empty(),
                crate::kline::kline_list(crate::kline::klines_view(points@)),
                false,
            );
            if 0 <= i < points@.len() {
                law_kline_by_key(points@[i]@);
            }
        },
        None => {
            law_replies_by_key("fetch failed or no data"@, JsonView::Null, false);
        },
    }
}

/// The K-lines that the service lists are read as they are written: date, open, close, high, low,
/// volume and amount.
pub proof fn law_read_klines_call(
    root: &Json,
    data: JsonView,
    lines: Seq<KLine>,
    r: Option<Vec<KLineDataPoint>>,
    i: int,
)
    requires
        call_ensures(read_klines, (root,), r),
        root@.get("rc"@) is None || root@.get("rc"@) == Some(JsonView::Num(NumView::Unsigned(0))),
        root@.get("data"@) == Some(data),
        data.get("klines"@) == Some(
            JsonView::Arr(lines.map_values(|k: KLine| JsonView::Str(written(k)))),
        ),
        forall|k: int| 0 <= k < lines.len() ==> without_commas(#[trigger] lines[k]),
        0 <= i < lines.len(),
    ensures
        r matches Some(points) && points@.len() == lines.len() && {
            &&& points@[i].date@ == lines[i].date
            &&& points@[i].open@ == lines[i].open
            &&& points@[i].high@ == lines[i].high
            &&& points@[i].low@ == lines[i].low
            &&& points@[i].close@ == lines[i].close
            &&& points@[i].volume@ == lines[i].volume
            &&& points@[i].amount@ == lines[i].amount
        },
{
    law_klines_are_shown(root@, data, lines, false, i);
    let points = r->Some_0;
    assert(crate::kline::klines_view(points@)[i] == points@[i]@);
}

/// A request that the cache serves is answered from it, and says so; any other asks the service for
/// the last ninety K-lines of the period; one without a code is refused.
pub proof fn law_start_klines_call(
    code: &str,
    kind: Option<&str>,
    cache: &Cache<Vec<KLineDataPoint>>,
    now: u128,
    period: Seq<char>,
    r: Start,
    i: int,
)
    requires
        call_ensures(start_klines, (Some(code), kind, cache, now), r),
        period == (match kind {
            Some(k) => if k@ == "kweek"@ {
                "102"@
            } else if k@ == "kmonth"@ {
                "103"@
            } else {
                "101"@
            },
            None => "101"@,
        }),
    ensures
        ({
            let key = stock_code(code@) + "_"@ + period;
            let kept = cache@[key].0@;
            &&& serves(cache@, key, now, 300) ==> {
                &&& r matches Start::Reply(j)
                &&& j@.get("status"@) == Some(JsonView::Str("success"@))
                &&& j@.get("cached"@) == Some(JsonView::Bool(true))
                &&& array_at(j@, "data"@) matches Some(shown) && shown.len() == kept.len() && (0 <= i
                    < kept.len() ==> {
                    &&& shown[i].get("date"@) == Some(JsonView::Str(kept[i].date@))
                    &&& shown[i].get("open"@) == Some(JsonView::Num(NumView::Decimal(kept[i].open@)))
                    &&& shown[i].get("high"@) == Some(JsonView::Num(NumView::Decimal(kept[i].high@)))
                    &&& shown[i].get("low"@) == Some(JsonView::Num(NumView::Decimal(kept[i].low@)))
                    &&& shown[i].get("close"@) == Some(JsonView::Num(NumView::Decimal(kept[i].close@)))
                    &&& shown[i].get("volume"@) == Some(JsonView::Num(NumView::Decimal(kept[i].volume@)))
                    &&& shown[i].get("amount"@) == Some(JsonView::Num(NumView::Decimal(kept[i].amount@)))
                })
            }
            &&& !serves(cache@, key, now, 300) ==> {
                &&& r matches Start::Fetch { key: k, url }
                &&& k@ == key
                &&& url@ == "http://push2his.eastmoney.com/api/qt/stock/kline/get?secid="@
                    + crate::codes::security_id(stock_code(code@))
                    + "&fields1=f1,f2,f3,f4,f5,f6&fields2=f51,f52,f53,f54,f55,f56,f57,f58,f59,f60,f61&klt="@
                    + period + "&fqt=1&beg=0&end=20500101&lmt="@ + digits(90)
            }
        }),
{
    let key = stock_code(code@) + "_"@ + period;
    if serves(cache@, key, now, 300) {
        let kept = cache@[key].0@;
        law_replies_by_key(
            Seq::empty(),
            crate::kline::kline_list(crate::kline::klines_view(kept)),
            true,
        );
        if 0 <= i < kept.len() {
            law_kline_by_key(kept[i]@);
        }
    }
}

// ---------------------------------------------------------------------------------------------
// Minutes
// ---------------------------------------------------------------------------------------------

/// The minutes that were read from lines are handed out in their order, each figure under its own name,
/// with the date and with whether the exchanges trade, and kept.
pub proof fn law_finish_minutes_call(
    code: &str,
    points: Vec<MinuteDataPoint>,
    trade_date: String,
    trading: bool,
    cache: &mut Cache<Vec<MinuteDataPoint>>,
    now: u128,
    j: Json,
    i: int,
)
    requires
        call_ensures(
            finish_minutes,
            (code, MinuteReading::Trends { points, trade_date }, trading, cache, now),
            j,
        ),
    ensures
        j@.get("status"@) == Some(JsonView::Str("success"@)),
        j@.get("trade_date"@) == Some(JsonView::Str(trade_date@)),
        j@.get("is_trading_time"@) == Some(JsonView::Bool(trading)),
        j@.get("cached"@) == Some(JsonView::Bool(false)),
        array_at(j@, "data"@) matches Some(shown) && shown.len() == points@.len() && (0 <= i
            < points@.len() ==> {
            &&& shown[i].get("time"@) == Some(JsonView::Str(points@[i].time@))
            &&& shown[i].get("price"@) == Some(JsonView::Num(NumView::Decimal(points@[i].price@)))
            &&& shown[i].get("avg_price"@) == Some(JsonView::Num(NumView::Decimal(points@[i].avg_price@)))
            &&& shown[i].get("volume"@) == Some(JsonView::Num(NumView::Decimal(points@[i].volume@)))
            &&& shown[i].get("open"@) == Some(JsonView::Num(NumView::Decimal(points@[i].open@)))
            &&& shown[i].get("close"@) == Some(JsonView::Num(NumView::Decimal(points@[i].close@)))
            &&& shown[i].get("amount"@) == Some(JsonView::Num(NumView::Decimal(points@[i].amount@)))
        }),
        final(cache)@ == old(cache)@.insert(code@, (points, now)),
{
    broadcast use crate::json::law_field_is_found, crate::json::law_empty_object;

    reveal_strlit("status");
    reveal_strlit("data");
    reveal_strlit("trade_date");
    reveal_strlit("is_trading_time");
    reveal_strlit("cached");
    assert("status"@.len() == 6 && "status"@[0] == 's');
    assert("data"@.len() == 4);
    assert("trade_date"@.len() == 10);
    assert("is_trading_time"@.len() == 15);
    assert("cached"@.len() == 6 && "cached"@[0] == 'c');
    if 0 <= i < points@.len() {
        law_minute_by_key(points@[i]@);
    }
}

/// The minutes that were read from stamps are handed out in the same way, with a note.
pub proof fn law_finish_stamped_minutes_call(
    code: &str,
    points: Vec<MinuteDataPoint>,
    trade_date: String,
    trading: bool,
    cache: &mut Cache<Vec<MinuteDataPoint>>,
    now: u128,
    j: Json,
    i: int,
)
    requires
        call_ensures(
            finish_minutes,
            (code, MinuteReading::Array { points, trade_date }, trading, cache, now),
            j,
        ),
    ensures
        j@.get("status"@) == Some(JsonView::Str("success"@)),
        j@.get("trade_date"@) == Some(JsonView::Str(trade_date@)),
        j@.get("is_trading_time"@) == Some(JsonView::Bool(trading)),
        j@.get("cached"@) == Some(JsonView::Bool(false)),
        j@.get("msg"@) == Some(JsonView::Str("Parsed from array format"@)),
        array_at(j@, "data"@) matches Some(shown) && shown.len() == points@.len() && (0 <= i
            < points@.len() ==> {
            &&& shown[i].get("time"@) == Some(JsonView::Str(points@[i].time@))
            &&& shown[i].get("price"@) == Some(JsonView::Num(NumView::Decimal(points@[i].price@)))
            &&& shown[i].get("avg_price"@) == Some(JsonView::Num(NumView::Decimal(points@[i].avg_price@)))
            &&& shown[i].get("volume"@) == Some(JsonView::Num(NumView::Decimal(points@[i].volume@)))
            &&& shown[i].get("open"@) == Some(JsonView::Num(NumView::Decimal(points@[i].open@)))
            &&& shown[i].get("close"@) == Some(JsonView::Num(NumView::Decimal(points@[i].close@)))
            &&& shown[i].get("amount"@) == Some(JsonView::Num(NumView::Decimal(points@[i].amount@)))
        }),
        final(cache)@ == old(cache)@.insert(code@, (points, now)),
{
    broadcast use crate::json::law_field_is_found, crate::json::law_empty_object;

    reveal_strlit("status");
    reveal_strlit("data");
    reveal_strlit("trade_date");
    reveal_strlit("is_trading_time");
    reveal_strlit("cached");
    reveal_strlit("msg");
    assert("status"@.len() == 6 && "status"@[0] == 's');
    assert("data"@.len() == 4);
    assert("trade_date"@.len() == 10);
    assert("is_trading_time"@.len() == 15);
    assert("cached"@.len() == 6 && "cached"@[0] == 'c');
    assert("msg"@.len() == 3);
    if 0 <= i < points@.len() {
        law_minute_by_key(points@[i]@);
    }
}

/// The lines that the service lists are read part by part: the price is the second part and the opening
/// and the closing price too, the average price the third, the volume the fourth, the amount the fifth.
pub proof fn law_read_minutes_call(
    root: &Json,
    data: JsonView,
    date: Seq<char>,
    lines: Seq<TrendLine>,
    r: MinuteReading,
    i: int,
)
    requires
        call_ensures(read_minutes, (root,), r),
        root@.get("rc"@) is None || root@.get("rc"@) == Some(JsonView::Num(NumView::Unsigned(0))),
        root@.get("data"@) == Some(data),
        data.get("tradeDate"@) == Some(JsonView::Str(date)),
        date.len() > 0,
        data.get("trends"@) == Some(
            JsonView::Arr(lines.map_values(|l: TrendLine| JsonView::Str(l.written()))),
        ),
        forall|k: int| 0 <= k < lines.len() ==> (#[trigger] lines[k]).valid(),
        0 <= i < lines.len(),
    ensures
        times_cut(root@),
        r matches MinuteReading::Trends { points, trade_date } && trade_date@ == date && points@.len()
            == lines.len() && {
            &&& points@[i].price@ == lines[i].price
            &&& points@[i].avg_price@ == lines[i].avg_price
            &&& points@[i].volume@ == lines[i].volume
            &&& points@[i].open@ == lines[i].price
            &&& points@[i].close@ == lines[i].price
            &&& points@[i].amount@ == lines[i].amount
            &&& points@[i].time@ == date + " "@ + (if lines[i].time.len() < 5 {
                lines[i].time
            } else {
                lines[i].time.take(5)
            })
        },
{
    law_lines_are_shown(root@, data, date, lines, true, i);
    let items = lines.map_values(|l: TrendLine| JsonView::Str(l.written()));
    let f = |item: JsonView| crate::minute::trend_point(date, item);
    let read = Seq::new(lines.len(), |n: int| f(items[n])->Some_0);
    assert forall|n: int| 0 <= n < items.len() implies f(#[trigger] items[n]) == Some(read[n]) by {
        assert(lines[n].valid());
        law_line_is_read(date, lines[n]);
    }
    crate::text::lemma_filter_map_all(items, f, read);
    assert(data is Obj);
    assert(r@ == (crate::minute::Minutes::Trends { points: read, trade_date: date }));
    assert(lines[i].valid());
    law_line_is_read(date, lines[i]);
    assert(items[i] == JsonView::Str(lines[i].written()));
    if let MinuteReading::Trends { points, trade_date } = r {
        assert(crate::minute::points_view(points@)[i] == points@[i]@);
    }
}

/// A request that the cache serves is answered from it, and says so; any other asks the service.
pub proof fn law_start_minutes_call(
    code: &str,
    cache: &Cache<Vec<MinuteDataPoint>>,
    now: u128,
    r: Start,
    i: int,
)
    requires
        call_ensures(start_minutes, (Some(code), cache, now), r),
    ensures
        ({
            let key = stock_code(code@);
            let kept = cache@[key].0@;
            &&& serves(cache@, key, now, 10) ==> {
                &&& r matches Start::Reply(j)
                &&& j@.get("status"@) == Some(JsonView::Str("success"@))
                &&& j@.get("cached"@) == Some(JsonView::Bool(true))
                &&& array_at(j@, "data"@) matches Some(shown) && shown.len() == kept.len() && (0 <= i
                    < kept.len() ==> {
                    &&& shown[i].get("time"@) == Some(JsonView::Str(kept[i].time@))
                    &&& shown[i].get("price"@) == Some(JsonView::Num(NumView::Decimal(kept[i].price@)))
                    &&& shown[i].get("avg_price"@) == Some(JsonView::Num(NumView::Decimal(kept[i].avg_price@)))
                    &&& shown[i].get("volume"@) == Some(JsonView::Num(NumView::Decimal(kept[i].volume@)))
                    &&& shown[i].get("open"@) == Some(JsonView::Num(NumView::Decimal(kept[i].open@)))
                    &&& shown[i].get("close"@) == Some(JsonView::Num(NumView::Decimal(kept[i].close@)))
                    &&& shown[i].get("amount"@) == Some(JsonView::Num(NumView::Decimal(kept[i].amount@)))
                })
            }
            &&& !serves(cache@, key, now, 10) ==> {
                &&& r matches Start::Fetch { key: k, url }
                &&& k@ == key
                &&& url@ == "http://push2.eastmoney.com/api/qt/stock/trends/get?secid="@
                    + crate::codes::security_id(key)
                    + "&fields1=f1,f2,f3,f4,f5,f6,f7,f8,f9,f10,f11,f12,f13&fields2=f51,f52,f53,f54,f55,f56,f57,f58&isclose=1&datalen=240"@
            }
        }),
{
    let key = stock_code(code@);
    if serves(cache@, key, now, 10) {
        let kept = cache@[key].0@;
        law_replies_by_key(
            Seq::empty(),
            crate::minute::point_list(crate::minute::points_view(kept)),
            true,
        );
        if 0 <= i < kept.len() {
            law_minute_by_key(kept[i]@);
        }
    }
}

// ---------------------------------------------------------------------------------------------
// Money flows
// ---------------------------------------------------------------------------------------------

/// The flow of the moment is read field by field: `f62` the main orders, `f63` the super large, `f64`
/// the large, `f65` the medium and `f66` the small ones, which are the retail investors' too.
pub proof fn law_read_flow_call(
    root: &Json,
    data: JsonView,
    v: (Seq<char>, Seq<char>, Seq<char>, Seq<char>, Seq<char>),
    r: Option<MoneyFlow>,
    moment: Option<MoneyFlow>,
)
    requires
        call_ensures(read_flow, (root,), r),
        call_ensures(read_moment_flow, (root,), moment),
        root@.get("data"@) == Some(data),
        data.get("f62"@) == Some(JsonView::Num(NumView::Decimal(v.0))),
        data.get("f63"@) == Some(JsonView::Num(NumView::Decimal(v.1))),
        data.get("f64"@) == Some(JsonView::Num(NumView::Decimal(v.2))),
        data.get("f65"@) == Some(JsonView::Num(NumView::Decimal(v.3))),
        data.get("f66"@) == Some(JsonView::Num(NumView::Decimal(v.4))),
    ensures
        r matches Some(f) && {
            &&& f.main_net@ == v.0
            &&& f.super_large@ == v.1
            &&& f.large@ == v.2
            &&& f.medium@ == v.3
            &&& f.small@ == v.4
            &&& f.retail@ == v.4
        },
        moment matches Some(f) && {
            &&& f.main_net@ == v.0
            &&& f.super_large@ == v.1
            &&& f.large@ == v.2
            &&& f.medium@ == v.3
            &&& f.small@ == v.4
            &&& f.retail@ == v.4
        },
{
    law_moment_fields(
        root@,
        data,
        NumView::Decimal(v.0),
        NumView::Decimal(v.1),
        NumView::Decimal(v.2),
        NumView::Decimal(v.3),
        NumView::Decimal(v.4),
    );
}

/// A flow that was found ends the search: it is handed out with each figure under its own name, and kept
/// for the stock.
pub proof fn law_flow_found_call(
    search: &mut FlowSearch,
    flow: MoneyFlow,
    cache: &mut Cache<MoneyFlow>,
    now: u128,
    r: FlowAction,
)
    requires
        call_ensures(FlowSearch::advance, (search, PageOutcome::Found(flow), cache, now), r),
    ensures
        r matches FlowAction::Reply(j) && {
            &&& j@.get("status"@) == Some(JsonView::Str("success"@))
            &&& j@.get("cached"@) == Some(JsonView::Bool(false))
            &&& j@.get("data"@) matches Some(shown)
            &&& shown.get("main_net"@) == Some(JsonView::Num(NumView::Decimal(flow.main_net@)))
            &&& shown.get("super_large"@) == Some(JsonView::Num(NumView::Decimal(flow.super_large@)))
            &&& shown.get("large"@) == Some(JsonView::Num(NumView::Decimal(flow.large@)))
            &&& shown.get("medium"@) == Some(JsonView::Num(NumView::Decimal(flow.medium@)))
            &&& shown.get("small"@) == Some(JsonView::Num(NumView::Decimal(flow.small@)))
            &&& shown.get("retail"@) == Some(JsonView::Num(NumView::Decimal(flow.retail@)))
        },
        final(cache)@ == old(cache)@.insert(old(search)@.code, (flow, now)),
{
    law_replies_by_key(Seq::empty(), crate::money_flow::flow_view(flow@), false);
    law_flow_by_key(flow@);
}

/// What came of a page: a request that failed is a failure; a page without text, without a value in
/// braces or without a flow in it is empty; and a flow in it is found.
pub proof fn law_read_page_call(
    text: String,
    root: JsonView,
    r: PageOutcome,
    failed: PageOutcome,
    none: PageOutcome,
)
    requires
        call_ensures(read_page, (&Fetched::Text(text),), r),
        call_ensures(read_page, (&Fetched::Failed,), failed),
        call_ensures(read_page, (&Fetched::NoText,), none),
    ensures
        failed is Failed,
        none is Empty,
        braced_tree(text@) is None ==> r is Empty,
        braced_tree(text@) == Some(root) && flow_in(root) is None ==> r is Empty,
        braced_tree(text@) == Some(root) && flow_in(root) is Some ==> (r matches PageOutcome::Found(f)
            && flow_in(root) == Some(f@)),
{
}

/// A page that failed is asked for again after a wait, up to the third time; one that failed so often, or
/// is empty, gives way to the page of the day, and that one to the answer that there is no flow. Nothing
/// is kept.
pub proof fn law_flow_not_found_calls(
    search: &mut FlowSearch,
    other: &mut FlowSearch,
    cache: &mut Cache<MoneyFlow>,
    same: &mut Cache<MoneyFlow>,
    now: u128,
    failed: FlowAction,
    empty: FlowAction,
)
    requires
        call_ensures(FlowSearch::advance, (search, PageOutcome::Failed, cache, now), failed),
        call_ensures(FlowSearch::advance, (other, PageOutcome::Empty, same, now), empty),
    ensures
        final(cache)@ == old(cache)@,
        final(same)@ == old(same)@,
        final(search)@.code == old(search)@.code,
        ({
            let id = crate::codes::security_id(old(search)@.code);
            let moment = "http://push2.eastmoney.com/api/qt/stock/fflow/realtime/get?secid="@ + id
                + "&fields1=f1,f2,f3,f7&fields2=f51,f52,f53,f54,f55,f56,f57,f58,f59,f60,f61,f62,f63,f64,f65&ut=b2884a393a59ad64002292a3e90d46a5"@;
            let day = "http://push2.eastmoney.com/api/qt/stock/fflow/daykline/get?secid="@ + id
                + "&lmt=1&fields1=f1,f2,f3,f7&fields2=f51,f52,f53,f54,f55,f56,f57,f58,f59,f60,f61,f62,f63,f64,f65&ut=b2884a393a59ad64002292a3e90d46a5"@;
            let (second, failures) = (old(search)@.second, old(search)@.failures);
            &&& !second && failures < 2 ==> (failed matches FlowAction::Fetch { url, wait } && url@
                == moment && wait && final(search)@.failures == failures + 1 && !final(search)@.second)
            &&& second && failures < 2 ==> (failed matches FlowAction::Fetch { url, wait } && url@
                == day && wait && final(search)@.failures == failures + 1 && final(search)@.second)
            &&& !second && failures >= 2 ==> (failed matches FlowAction::Fetch { url, wait } && url@
                == day && !wait && final(search)@.failures == 0 && final(search)@.second)
            &&& second && failures >= 2 ==> (failed matches FlowAction::Reply(j) && j@.get("status"@)
                == Some(JsonView::Str("success"@)) && j@.get("data"@) == Some(JsonView::Null) && j@.get(
                "msg"@,
            ) == Some(JsonView::Str("暂无资金流向数据"@)))
        }),
        ({
            let id = crate::codes::security_id(old(other)@.code);
            let day = "http://push2.eastmoney.com/api/qt/stock/fflow/daykline/get?secid="@ + id
                + "&lmt=1&fields1=f1,f2,f3,f7&fields2=f51,f52,f53,f54,f55,f56,f57,f58,f59,f60,f61,f62,f63,f64,f65&ut=b2884a393a59ad64002292a3e90d46a5"@;
            &&& !old(other)@.second ==> (empty matches FlowAction::Fetch { url, wait } && url@ == day
                && !wait && final(other)@.failures == 0 && final(other)@.second)
            &&& old(other)@.second ==> (empty matches FlowAction::Reply(j) && j@.get("status"@) == Some(
                JsonView::Str("success"@),
            ) && j@.get("data"@) == Some(JsonView::Null))
        }),
{
    law_answers_without_a_flow();
}

/// A request that the cache serves is answered from it, and says so; any other begins a search with the
/// page of the moment; one without a code is refused.
pub proof fn law_start_flow_call(code: &str, cache: &Cache<MoneyFlow>, now: u128, r: FlowStart)
    requires
        call_ensures(start_flow, (Some(code), cache, now), r),
    ensures
        ({
            let key = stock_code(code@);
            let kept = cache@[key].0;
            &&& serves(cache@, key, now, 300) ==> {
                &&& r matches FlowStart::Reply(j)
                &&& j@.get("status"@) == Some(JsonView::Str("success"@))
                &&& j@.get("cached"@) == Some(JsonView::Bool(true))
                &&& j@.get("data"@) matches Some(shown)
                &&& shown.get("main_net"@) == Some(JsonView::Num(NumView::Decimal(kept.main_net@)))
                &&& shown.get("super_large"@) == Some(JsonView::Num(NumView::Decimal(kept.super_large@)))
                &&& shown.get("large"@) == Some(JsonView::Num(NumView::Decimal(kept.large@)))
                &&& shown.get("medium"@) == Some(JsonView::Num(NumView::Decimal(kept.medium@)))
                &&& shown.get("small"@) == Some(JsonView::Num(NumView::Decimal(kept.small@)))
                &&& shown.get("retail"@) == Some(JsonView::Num(NumView::Decimal(kept.retail@)))
            }
            &&& !serves(cache@, key, now, 300) ==> {
                &&& r matches FlowStart::Search { search, url }
                &&& search@.code == key
                &&& url@ == "http://push2.eastmoney.com/api/qt/stock/fflow/realtime/get?secid="@
                    + crate::codes::security_id(key)
                    + "&fields1=f1,f2,f3,f7&fields2=f51,f52,f53,f54,f55,f56,f57,f58,f59,f60,f61,f62,f63,f64,f65&ut=b2884a393a59ad64002292a3e90d46a5"@
            }
        }),
{
    let key = stock_code(code@);
    if serves(cache@, key, now, 300) {
        let kept = cache@[key].0;
        law_replies_by_key(Seq::empty(), crate::money_flow::flow_view(kept@), true);
        law_flow_by_key(kept@);
    }
}

// ---------------------------------------------------------------------------------------------
// Quotes
// ---------------------------------------------------------------------------------------------

/// The details of a stock take each figure from its place in the quote, or from those worked out.
pub proof fn law_stock_info_call(quote: SinaQuote, figures: Figures, r: StockInfo)
    requires
        call_ensures(stock_info, (quote, figures), r),
    ensures
        r.symbol@ == quote.symbol@,
        r.name@ == quote.name@,
        r.price@ == quote.price@,
        r.high@ == quote.high@,
        r.low@ == quote.low@,
        r.open@ == quote.open@,
        r.pre_close@ == quote.pre_close@,
        r.amount@ == quote.amount@,
        r.change_percent@ == figures.change_percent@,
        r.volume@ == figures.lots@,
        r.limit_up@ == figures.limit_up@,
        r.limit_down@ == figures.limit_down@,
{
}

/// Details that were read are handed out with each figure under its own name, and kept; a refusal of
/// the service is told with its status, and where nothing was read the request is refused.
pub proof fn law_finish_detail_call(
    code: &str,
    outcome: DetailOutcome,
    cache: &mut Cache<StockInfo>,
    now: u128,
    j: Json,
)
    requires
        call_ensures(finish_detail, (code, outcome, cache, now), j),
    ensures
        match outcome {
            DetailOutcome::Info(i) => {
                &&& j@.get("status"@) == Some(JsonView::Str("success"@))
                &&& j@.get("cached"@) == Some(JsonView::Bool(false))
                &&& j@.get("data"@) matches Some(shown)
                &&& shown.get("symbol"@) == Some(JsonView::Str(i.symbol@))
                &&& shown.get("name"@) == Some(JsonView::Str(i.name@))
                &&& shown.get("price"@) == Some(JsonView::Num(NumView::Decimal(i.price@)))
                &&& shown.get("change_percent"@) == Some(JsonView::Num(NumView::Decimal(i.change_percent@)))
                &&& shown.get("high"@) == Some(JsonView::Num(NumView::Decimal(i.high@)))
                &&& shown.get("low"@) == Some(JsonView::Num(NumView::Decimal(i.low@)))
                &&& shown.get("volume"@) == Some(JsonView::Num(NumView::Decimal(i.volume@)))
                &&& shown.get("open"@) == Some(JsonView::Num(NumView::Decimal(i.open@)))
                &&& shown.get("pre_close"@) == Some(JsonView::Num(NumView::Decimal(i.pre_close@)))
                &&& shown.get("limit_up"@) == Some(JsonView::Num(NumView::Decimal(i.limit_up@)))
                &&& shown.get("limit_down"@) == Some(JsonView::Num(NumView::Decimal(i.limit_down@)))
                &&& shown.get("amount"@) == Some(JsonView::Num(NumView::Decimal(i.amount@)))
                &&& final(cache)@ == old(cache)@.insert(code@, (i, now))
            },
            DetailOutcome::Refused(status) => {
                &&& j@.get("status"@) == Some(JsonView::Str("error"@))
                &&& j@.get("msg"@) == Some(JsonView::Str("HTTP "@ + status@))
                &&& final(cache)@ == old(cache)@
            },
            DetailOutcome::Nothing => {
                &&& j@.get("status"@) == Some(JsonView::Str("error"@))
                &&& j@.get("msg"@) == Some(JsonView::Str("fetch failed"@))
                &&& final(cache)@ == old(cache)@
            },
        },
{
    broadcast use crate::json::law_field_is_found, crate::json::law_empty_object;

    reveal_strlit("symbol");
    reveal_strlit("name");
    reveal_strlit("price");
    reveal_strlit("change_percent");
    reveal_strlit("high");
    reveal_strlit("low");
    reveal_strlit("volume");
    reveal_strlit("open");
    reveal_strlit("pre_close");
    reveal_strlit("limit_up");
    reveal_strlit("limit_down");
    reveal_strlit("amount");
    assert("symbol"@.len() == 6 && "symbol"@[0] == 's');
    assert("name"@.len() == 4 && "name"@[0] == 'n');
    assert("price"@.len() == 5);
    assert("change_percent"@.len() == 14);
    assert("high"@.len() == 4 && "high"@[0] == 'h');
    assert("low"@.len() == 3);
    assert("volume"@.len() == 6 && "volume"@[0] == 'v');
    assert("open"@.len() == 4 && "open"@[0] == 'o');
    assert("pre_close"@.len() == 9);
    assert("limit_up"@.len() == 8);
    assert("limit_down"@.len() == 10);
    assert("amount"@.len() == 6 && "amount"@[0] == 'a');
    match outcome {
        DetailOutcome::Info(i) => {
            law_replies_by_key(Seq::empty(), crate::quote::detail_view(i@), false);
        },
        DetailOutcome::Refused(status) => {
            law_replies_by_key("HTTP "@ + status@, JsonView::Null, false);
        },
        DetailOutcome::Nothing => {
            law_replies_by_key("fetch failed"@, JsonView::Null, false);
        },
    }
}

/// A request that the cache serves is answered from it, and says so; any other asks for the quote of the
/// stock.
pub proof fn law_start_detail_call(code: &str, cache: &Cache<StockInfo>, now: u128, r: Start)
    requires
        call_ensures(start_detail, (Some(code), cache, now), r),
    ensures
        ({
            let key = stock_code(code@);
            let i = cache@[key].0;
            &&& serves(cache@, key, now, 60) ==> {
                &&& r matches Start::Reply(j)
                &&& j@.get("status"@) == Some(JsonView::Str("success"@))
                &&& j@.get("cached"@) == Some(JsonView::Bool(true))
                &&& j@.get("data"@) matches Some(shown)
                &&& shown.get("symbol"@) == Some(JsonView::Str(i.symbol@))
                &&& shown.get("name"@) == Some(JsonView::Str(i.name@))
                &&& shown.get("price"@) == Some(JsonView::Num(NumView::Decimal(i.price@)))
                &&& shown.get("change_percent"@) == Some(JsonView::Num(NumView::Decimal(i.change_percent@)))
                &&& shown.get("high"@) == Some(JsonView::Num(NumView::Decimal(i.high@)))
                &&& shown.get("low"@) == Some(JsonView::Num(NumView::Decimal(i.low@)))
                &&& shown.get("volume"@) == Some(JsonView::Num(NumView::Decimal(i.volume@)))
                &&& shown.get("open"@) == Some(JsonView::Num(NumView::Decimal(i.open@)))
                &&& shown.get("pre_close"@) == Some(JsonView::Num(NumView::Decimal(i.pre_close@)))
                &&& shown.get("limit_up"@) == Some(JsonView::Num(NumView::Decimal(i.limit_up@)))
                &&& shown.get("limit_down"@) == Some(JsonView::Num(NumView::Decimal(i.limit_down@)))
                &&& shown.get("amount"@) == Some(JsonView::Num(NumView::Decimal(i.amount@)))
            }
            &&& !serves(cache@, key, now, 60) ==> {
                &&& r matches Start::Fetch { key: k, url }
                &&& k@ == key
                &&& url@ == "http://hq.sinajs.cn/list="@ + key
            }
        }),
{
    broadcast use crate::json::law_field_is_found, crate::json::law_empty_object;

    reveal_strlit("symbol");
    reveal_strlit("name");
    reveal_strlit("price");
    reveal_strlit("change_percent");
    reveal_strlit("high");
    reveal_strlit("low");
    reveal_strlit("volume");
    reveal_strlit("open");
    reveal_strlit("pre_close");
    reveal_strlit("limit_up");
    reveal_strlit("limit_down");
    reveal_strlit("amount");
    assert("symbol"@.len() == 6 && "symbol"@[0] == 's');
    assert("name"@.len() == 4 && "name"@[0] == 'n');
    assert("price"@.len() == 5);
    assert("change_percent"@.len() == 14);
    assert("high"@.len() == 4 && "high"@[0] == 'h');
    assert("low"@.len() == 3);
    assert("volume"@.len() == 6 && "volume"@[0] == 'v');
    assert("open"@.len() == 4 && "open"@[0] == 'o');
    assert("pre_close"@.len() == 9);
    assert("limit_up"@.len() == 8);
    assert("limit_down"@.len() == 10);
    assert("amount"@.len() == 6 && "amount"@[0] == 'a');
    let key = stock_code(code@);
    if serves(cache@, key, now, 60) {
        law_replies_by_key(Seq::empty(), crate::quote::detail_view(cache@[key].0@), true);
    }
}

/// The market is listed in its order, each stock with every figure under its own name.
pub proof fn law_market_call(infos: &Vec<StockInfo>, j: Json, n: int)
    requires
        call_ensures(get_market_data, (infos,), j),
        0 <= n < infos@.len(),
    ensures
        ({
            let i = infos@[n];
            &&& j@ matches JsonView::Arr(list)
            &&& list.len() == infos@.len()
            &&& list[n].get("symbol"@) == Some(JsonView::Str(i.symbol@))
            &&& list[n].get("name"@) == Some(JsonView::Str(i.name@))
            &&& list[n].get("price"@) == Some(JsonView::Num(NumView::Decimal(i.price@)))
            &&& list[n].get("change_percent"@) == Some(JsonView::Num(NumView::Decimal(i.change_percent@)))
            &&& list[n].get("high"@) == Some(JsonView::Num(NumView::Decimal(i.high@)))
            &&& list[n].get("low"@) == Some(JsonView::Num(NumView::Decimal(i.low@)))
            &&& list[n].get("volume"@) == Some(JsonView::Num(NumView::Decimal(i.volume@)))
            &&& list[n].get("open"@) == Some(JsonView::Num(NumView::Decimal(i.open@)))
            &&& list[n].get("pre_close"@) == Some(JsonView::Num(NumView::Decimal(i.pre_close@)))
            &&& list[n].get("limit_up"@) == Some(JsonView::Num(NumView::Decimal(i.limit_up@)))
            &&& list[n].get("limit_down"@) == Some(JsonView::Num(NumView::Decimal(i.limit_down@)))
            &&& list[n].get("amount"@) == Some(JsonView::Num(NumView::Decimal(i.amount@)))
            &&& list[n].get("turnover_rate"@) == Some(JsonView::Num(NumView::Decimal(i.turnover_rate@)))
            &&& list[n].get("pe_ratio"@) == Some(JsonView::Num(NumView::Decimal(i.pe_ratio@)))
        }),
{
    broadcast use crate::json::law_field_is_found, crate::json::law_empty_object;

    reveal_strlit("symbol");
    reveal_strlit("name");
    reveal_strlit("price");
    reveal_strlit("change_percent");
    reveal_strlit("high");
    reveal_strlit("low");
    reveal_strlit("volume");
    reveal_strlit("open");
    reveal_strlit("pre_close");
    reveal_strlit("limit_up");
    reveal_strlit("limit_down");
    reveal_strlit("amount");
    reveal_strlit("turnover_rate");
    reveal_strlit("pe_ratio");
    assert("symbol"@.len() == 6 && "symbol"@[0] == 's');
    assert("name"@.len() == 4 && "name"@[0] == 'n');
    assert("price"@.len() == 5);
    assert("change_percent"@.len() == 14);
    assert("high"@.len() == 4 && "high"@[0] == 'h');
    assert("low"@.len() == 3);
    assert("volume"@.len() == 6 && "volume"@[0] == 'v');
    assert("open"@.len() == 4 && "open"@[0] == 'o');
    assert("pre_close"@.len() == 9);
    assert("limit_up"@.len() == 8 && "limit_up"@[0] == 'l');
    assert("limit_down"@.len() == 10);
    assert("amount"@.len() == 6 && "amount"@[0] == 'a');
    assert("turnover_rate"@.len() == 13);
    assert("pe_ratio"@.len() == 8 && "pe_ratio"@[0] == 'p');
    assert(crate::quote::infos_view(infos@)[n] == infos@[n]@);
}

/// The quote of a code is read from the second group of a match, field by field, and carries the code
/// that was asked for.
pub proof fn law_read_match_call(
    code: &str,
    groups: &Vec<Option<String>>,
    fields: Seq<Seq<char>>,
    r: Option<SinaQuote>,
)
    requires
        call_ensures(read_match, (code, groups), r),
        groups@.len() == 3,
        groups@[1] is Some,
        groups@[2] is Some,
        groups@[2]->Some_0@ == join_with(fields, ','),
        fields.len() > 0,
        forall|i: int| 0 <= i < fields.len() ==> !(#[trigger] fields[i]).contains(','),
    ensures
        fields.len() < 31 ==> r is None,
        fields.len() >= 31 ==> (r matches Some(quote) && {
            &&& quote.symbol@ == code@
            &&& quote.name@ == fields[0]
            &&& quote.open@ == fields[1]
            &&& quote.pre_close@ == fields[2]
            &&& quote.price@ == fields[3]
            &&& quote.high@ == fields[4]
            &&& quote.low@ == fields[5]
            &&& quote.volume@ == fields[8]
            &&& quote.amount@ == fields[9]
        }),
{
    let views = crate::quote::groups_view(groups@);
    let symbol = groups@[1]->Some_0@;
    law_quote_fields(code@, views[0], symbol, fields);
    assert(views =~= Seq::empty().push(views[0]).push(Some(symbol)).push(
        Some(join_with(fields, ',')),
    ));
}

/// The quote of a code is read from its page by the first match of the pattern, field by field; a page
/// without a match holds none.
pub proof fn law_read_quote_call(
    code: &str,
    bytes: &[u8],
    whole: Option<Seq<char>>,
    symbol: Seq<char>,
    fields: Seq<Seq<char>>,
    r: Result<Option<SinaQuote>, PatternError>,
)
    requires
        call_ensures(read_quote, (code, bytes), r),
        fields.len() > 0,
        forall|i: int| 0 <= i < fields.len() ==> !(#[trigger] fields[i]).contains(','),
    ensures
        ({
            let found = first_match(QUOTE_PATTERN@, gbk_text(bytes@));
            let groups = Seq::empty().push(whole).push(Some(symbol)).push(
                Some(join_with(fields, ',')),
            );
            &&& found == Some(Some(groups)) && fields.len() < 31 ==> (r matches Ok(q) && q is None)
            &&& found == Some(Some(groups)) && fields.len() >= 31 ==> {
                &&& r matches Ok(q)
                &&& q matches Some(quote)
                &&& quote.symbol@ == code@
                &&& quote.name@ == fields[0]
                &&& quote.open@ == fields[1]
                &&& quote.pre_close@ == fields[2]
                &&& quote.price@ == fields[3]
                &&& quote.high@ == fields[4]
                &&& quote.low@ == fields[5]
                &&& quote.volume@ == fields[8]
                &&& quote.amount@ == fields[9]
            }
            &&& found == Some(None::<Seq<Option<Seq<char>>>>) ==> (r matches Ok(q) && q is None)
            &&& found is None ==> r is Err
        }),
{
    law_quote_fields(code@, whole, symbol, fields);
}

/// A round goes through its codes one by one, asks for the page of each, and puts the quote that was
/// read behind those before it.
pub proof fn law_round_calls(
    codes: Vec<String>,
    begun: RefreshRound,
    round: &mut RefreshRound,
    next: Option<(String, String)>,
    quote: SinaQuote,
)
    requires
        call_ensures(RefreshRound::new, (codes,), begun),
        *old(round) == begun,
        call_ensures(RefreshRound::next, (&begun,), next),
        codes@.len() > 0,
        call_ensures(RefreshRound::report, (round, Some(quote)), ()),
    ensures
        next matches Some((code, url)) && code@ == codes@[0]@ && url@ == "http://hq.sinajs.cn/list="@
            + codes@[0]@,
        final(round)@.done == 1,
        final(round)@.quotes == Seq::empty().push(quote@),
{
    assert(texts(codes@)[0] == codes@[0]@);
}

/// A code of which nothing was read is passed over.
pub proof fn law_round_passes_over_call(round: &mut RefreshRound)
    requires
        call_ensures(RefreshRound::report, (round, None), ()),
    ensures
        final(round)@.done == old(round)@.done + 1,
        final(round)@.quotes == old(round)@.quotes,
        final(round)@.codes == old(round)@.codes,
{
}

// ---------------------------------------------------------------------------------------------
// What is watched
// ---------------------------------------------------------------------------------------------

/// To add a stock that is not watched puts it behind the others, answers with its full code, and has the
/// new list written to the file and fetched; one that is watched is told to exist.
pub proof fn law_add_stock_call(s: &mut AppState, code: &str, stored: &Option<AppConfig>, r: Change)
    requires
        call_ensures(AppState::add_stock, (s, Some(code), stored), r),
    ensures
        !old(s)@.stocks.contains(stock_code(code@)) ==> {
            &&& final(s)@.stocks == old(s)@.stocks.push(stock_code(code@))
            &&& final(s)@.indices == old(s)@.indices
            &&& r.reply@.get("status"@) == Some(JsonView::Str("success"@))
            &&& r.reply@.get("msg"@) == Some(JsonView::Str("added"@))
            &&& r.reply@.get("code"@) == Some(JsonView::Str(stock_code(code@)))
            &&& r.refresh
            &&& r.save matches Some(saved) && texts(saved.stocks@) == final(s)@.stocks && texts(
                saved.indices@,
            ) == old(s)@.indices && saved.data_fetch_interval == old(s)@.refresh_interval
                && providers(saved.ai_configs@) == old(s)@.providers
        },
        old(s)@.stocks.contains(stock_code(code@)) ==> {
            &&& final(s)@ == old(s)@
            &&& r.reply@.get("status"@) == Some(JsonView::Str("exists"@))
            &&& r.reply@.get("msg"@) == Some(JsonView::Str("already exists"@))
            &&& r.save is None
            &&& r.refresh
        },
{
    law_add_stock_answers(old(s)@, code@, page_interval_of(crate::config::opt_settings(*stored)));
}

/// To remove a stock clears its first place in the list and leaves all else in its order, and has the new
/// list written to the file and fetched; one that is not watched is not found, and nothing changes.
pub proof fn law_remove_stock_call(
    s: &mut AppState,
    payload: &Json,
    name: Seq<char>,
    before: Seq<Seq<char>>,
    after: Seq<Seq<char>>,
    stored: &Option<AppConfig>,
    r: Change,
)
    requires
        call_ensures(AppState::remove_stock, (s, payload, stored), r),
        payload@.get("code"@) == Some(JsonView::Str(name)),
    ensures
        old(s)@.stocks == before.push(stock_code(name)) + after && !before.contains(stock_code(name)) ==> {
            &&& final(s)@.stocks == before + after
            &&& final(s)@.indices == old(s)@.indices
            &&& r.reply@.get("status"@) == Some(JsonView::Str("success"@))
            &&& r.reply@.get("msg"@) == Some(JsonView::Str("removed"@))
            &&& r.refresh
            &&& r.save matches Some(saved) && texts(saved.stocks@) == before + after && texts(
                saved.indices@,
            ) == old(s)@.indices
        },
        !old(s)@.stocks.contains(stock_code(name)) ==> {
            &&& final(s)@ == old(s)@
            &&& r.reply@.get("status"@) == Some(JsonView::Str("error"@))
            &&& r.reply@.get("msg"@) == Some(JsonView::Str("not found"@))
            &&& r.save is None
            &&& !r.refresh
        },
{
    law_remove_stock_answers(
        old(s)@,
        payload@,
        name,
        before,
        after,
        page_interval_of(crate::config::opt_settings(*stored)),
    );
}

/// To add an index that is not watched puts it behind the others, answers with its full code, and has the
/// new list written to the file and fetched; one that is watched is told to exist.
pub proof fn law_add_index_call(s: &mut AppState, code: &str, stored: &Option<AppConfig>, r: Change)
    requires
        call_ensures(AppState::add_index, (s, Some(code), stored), r),
    ensures
        !old(s)@.indices.contains(index_code(code@)) ==> {
            &&& final(s)@.indices == old(s)@.indices.push(index_code(code@))
            &&& final(s)@.stocks == old(s)@.stocks
            &&& r.reply@.get("status"@) == Some(JsonView::Str("success"@))
            &&& r.reply@.get("msg"@) == Some(JsonView::Str("added"@))
            &&& r.reply@.get("code"@) == Some(JsonView::Str(index_code(code@)))
            &&& r.refresh
            &&& r.save matches Some(saved) && texts(saved.indices@) == final(s)@.indices && texts(
                saved.stocks@,
            ) == old(s)@.stocks && saved.data_fetch_interval == old(s)@.refresh_interval
                && providers(saved.ai_configs@) == old(s)@.providers
        },
        old(s)@.indices.contains(index_code(code@)) ==> {
            &&& final(s)@ == old(s)@
            &&& r.reply@.get("status"@) == Some(JsonView::Str("exists"@))
            &&& r.reply@.get("msg"@) == Some(JsonView::Str("already exists"@))
            &&& r.save is None
            &&& r.refresh
        },
{
    law_add_index_answers(old(s)@, code@, page_interval_of(crate::config::opt_settings(*stored)));
}

/// To remove an index clears its first place in the list and leaves all else in its order, and has the new
/// list written to the file and fetched; one that is not watched is not found, and nothing changes.
pub proof fn law_remove_index_call(
    s: &mut AppState,
    payload: &Json,
    name: Seq<char>,
    before: Seq<Seq<char>>,
    after: Seq<Seq<char>>,
    stored: &Option<AppConfig>,
    r: Change,
)
    requires
        call_ensures(AppState::remove_index, (s, payload, stored), r),
        payload@.get("code"@) == Some(JsonView::Str(name)),
    ensures
        old(s)@.indices == before.push(index_code(name)) + after && !before.contains(index_code(name)) ==> {
            &&& final(s)@.indices == before + after
            &&& final(s)@.stocks == old(s)@.stocks
            &&& r.reply@.get("status"@) == Some(JsonView::Str("success"@))
            &&& r.reply@.get("msg"@) == Some(JsonView::Str("removed"@))
            &&& r.refresh
            &&& r.save matches Some(saved) && texts(saved.indices@) == before + after && texts(
                saved.stocks@,
            ) == old(s)@.stocks
        },
        !old(s)@.indices.contains(index_code(name)) ==> {
            &&& final(s)@ == old(s)@
            &&& r.reply@.get("status"@) == Some(JsonView::Str("error"@))
            &&& r.reply@.get("msg"@) == Some(JsonView::Str("not found"@))
            &&& r.save is None
            &&& !r.refresh
        },
{
    law_remove_index_answers(
        old(s)@,
        payload@,
        name,
        before,
        after,
        page_interval_of(crate::config::opt_settings(*stored)),
    );
}

/// A request that lists the stocks puts them in the order of the list, by their full codes, and has them
/// written to the file and fetched.
pub proof fn law_reorder_call(
    s: &mut AppState,
    payload: &Json,
    names: Seq<Seq<char>>,
    stored: &Option<AppConfig>,
    r: Change,
    i: int,
)
    requires
        call_ensures(AppState::reorder_stocks, (s, payload, stored), r),
        payload@.get("stocks"@) == Some(
            JsonView::Arr(names.map_values(|n: Seq<char>| JsonView::Str(n))),
        ),
        0 <= i < names.len(),
    ensures
        final(s)@.stocks.len() == names.len(),
        final(s)@.stocks[i] == stock_code(names[i]),
        final(s)@.indices == old(s)@.indices,
        r.reply@.get("status"@) == Some(JsonView::Str("success"@)),
        r.refresh,
        r.save matches Some(saved) && texts(saved.stocks@) == final(s)@.stocks,
{
    assert(names.map_values(|n: Seq<char>| JsonView::Str(n)) =~= names.map_values(
        |s: Seq<char>| JsonView::Str(s),
    ));
    law_reorder_takes_the_order(
        old(s)@,
        payload@,
        names,
        page_interval_of(crate::config::opt_settings(*stored)),
    );
    law_replies_by_key(Seq::empty(), JsonView::Null, false);
}

/// Intervals that are given are set and written to the file, and those that are not stay; an interval of
/// zero is refused and changes nothing.
pub proof fn law_update_config_call(
    s: &mut AppState,
    payload: &Json,
    data: Option<u64>,
    page: Option<u64>,
    stored: &Option<AppConfig>,
    r: Change,
)
    requires
        call_ensures(AppState::update_config, (s, payload, stored), r),
        match data {
            Some(n) => payload@.get("data_fetch_interval"@) == Some(
                JsonView::Num(NumView::Unsigned(n)),
            ),
            None => payload@.get("data_fetch_interval"@) is None,
        },
        match page {
            Some(n) => payload@.get("page_refresh_interval"@) == Some(
                JsonView::Num(NumView::Unsigned(n)),
            ),
            None => payload@.get("page_refresh_interval"@) is None,
        },
    ensures
        data == Some(0u64) || page == Some(0u64) ==> {
            &&& final(s)@ == old(s)@
            &&& r.reply@.get("status"@) == Some(JsonView::Str("error"@))
            &&& r.reply@.get("msg"@) == Some(
                JsonView::Str(
                    if data == Some(0u64) {
                        "data_fetch_interval must be >= 1"@
                    } else {
                        "page_refresh_interval must be >= 1"@
                    },
                ),
            )
            &&& r.save is None
        },
        data != Some(0u64) && page != Some(0u64) ==> {
            &&& final(s)@.refresh_interval == (match data {
                Some(n) => n,
                None => old(s)@.refresh_interval,
            })
            &&& final(s)@.stocks == old(s)@.stocks
            &&& final(s)@.indices == old(s)@.indices
            &&& final(s)@.providers == old(s)@.providers
            &&& r.reply@.get("status"@) == Some(JsonView::Str("success"@))
            &&& r.save matches Some(saved) && saved.data_fetch_interval == final(s)@.refresh_interval
                && saved.page_refresh_interval == (match page {
                Some(n) => n,
                None => match *stored {
                    Some(config) => if config.page_refresh_interval == 0 {
                        3
                    } else {
                        config.page_refresh_interval
                    },
                    None => 3,
                },
            })
        },
{
    let kept = page_interval_of(crate::config::opt_settings(*stored));
    law_zero_intervals_are_refused(old(s)@, payload@, kept);
    law_replies_by_key(Seq::empty(), JsonView::Null, false);
}

/// The configuration is answered with what is watched in its order and with both intervals.
pub proof fn law_get_config_call(s: &AppState, stored: &Option<AppConfig>, j: Json, i: int)
    requires
        call_ensures(AppState::get_config, (s, stored), j),
    ensures
        array_at(j@, "indices"@) matches Some(list) && list.len() == s@.indices.len() && (0 <= i
            < list.len() ==> list[i] == JsonView::Str(s@.indices[i])),
        array_at(j@, "stocks"@) matches Some(list) && list.len() == s@.stocks.len() && (0 <= i
            < list.len() ==> list[i] == JsonView::Str(s@.stocks[i])),
        j@.get("data_fetch_interval"@) == Some(
            JsonView::Num(NumView::Unsigned(s@.refresh_interval)),
        ),
        j@.get("page_refresh_interval"@) == Some(
            JsonView::Num(
                NumView::Unsigned(
                    match *stored {
                        Some(config) => if config.page_refresh_interval == 0 {
                            3
                        } else {
                            config.page_refresh_interval
                        },
                        None => 3,
                    },
                ),
            ),
        ),
{
    law_config_by_key(s@, page_interval_of(crate::config::opt_settings(*stored)));
}

/// Providers that could be read take the place of those that were set and are written to the file; those
/// that could not are refused with the reason.
pub proof fn law_update_ai_config_call(
    s: &mut AppState,
    payload: &Json,
    list: Seq<JsonView>,
    parsed: Parsed,
    stored: &Option<AppConfig>,
    r: Change,
)
    requires
        call_ensures(AppState::update_ai_config, (s, payload, parsed, stored), r),
        payload@.get("ai_configs"@) == Some(JsonView::Arr(list)),
    ensures
        match parsed {
            Ok(configs) => {
                &&& final(s)@.providers == providers(configs@)
                &&& final(s)@.stocks == old(s)@.stocks
                &&& final(s)@.indices == old(s)@.indices
                &&& final(s)@.refresh_interval == old(s)@.refresh_interval
                &&& r.reply@.get("status"@) == Some(JsonView::Str("success"@))
                &&& r.save matches Some(saved) && providers(saved.ai_configs@) == providers(configs@)
            },
            Err(reason) => {
                &&& final(s)@ == old(s)@
                &&& r.reply@.get("status"@) == Some(JsonView::Str("error"@))
                &&& r.reply@.get("msg"@) == Some(
                    JsonView::Str("Invalid config format: "@ + reason@),
                )
                &&& r.save is None
            },
        },
{
    law_providers_are_set(
        old(s)@,
        payload@,
        list,
        parsed,
        page_interval_of(crate::config::opt_settings(*stored)),
    );
    law_replies_by_key(Seq::empty(), JsonView::Null, false);
}

/// The providers are answered in their order, each part under the name that the page knows it by.
pub proof fn law_get_ai_config_call(s: &AppState, j: Json, i: int)
    requires
        call_ensures(AppState::get_ai_config, (s,), j),
    ensures
        j@.get("status"@) == Some(JsonView::Str("success"@)),
        array_at(j@, "data"@) matches Some(list) && list.len() == s@.providers.len() && (0 <= i
            < list.len() ==> {
            let p = s@.providers[i];
            &&& list[i].get("id"@) == Some(JsonView::Str(p.id))
            &&& list[i].get("name"@) == Some(JsonView::Str(p.name))
            &&& list[i].get("type"@) == Some(JsonView::Str(p.config_type))
            &&& list[i].get("apiUrl"@) == Some(JsonView::Str(p.api_url))
            &&& list[i].get("apiKey"@) == Some(JsonView::Str(p.api_key))
            &&& list[i].get("mainModels"@) == Some(JsonView::Str(p.main_models))
            &&& list[i].get("fallbackModels"@) == Some(JsonView::Str(p.fallback_models))
            &&& list[i].get("model"@) == Some(JsonView::Str(p.model))
            &&& list[i].get("timeoutSeconds"@) == Some(
                JsonView::Num(NumView::Unsigned(p.timeout_seconds)),
            )
        }),
{
    broadcast use crate::json::law_field_is_found, crate::json::law_empty_object;

    reveal_strlit("status");
    reveal_strlit("data");
    assert("status"@.len() == 6);
    assert("data"@.len() == 4);
    if 0 <= i < s@.providers.len() {
        law_provider_by_key(s@.providers[i]);
    }
}

/// The program starts with what is stored, its intervals set where they are zero; only where there is no
/// file is one to be written, and it holds what the program starts with.
pub proof fn law_start_call(config: AppConfig, r: (AppState, Option<AppConfig>))
    requires
        call_ensures(AppState::start, (ConfigFile::Stored(config),), r),
    ensures
        r.0@.indices == texts(config.indices@),
        r.0@.stocks == texts(config.stocks@),
        r.0@.providers == providers(config.ai_configs@),
        r.0@.refresh_interval == (if config.data_fetch_interval == 0 {
            10
        } else {
            config.data_fetch_interval
        }),
        r.1 is None,
{
}

/// A program without a stored configuration starts with that of a new installation, and has it written
/// to the file where there is none; one that cannot be read is left alone.
pub proof fn law_first_start_call(
    missing: (AppState, Option<AppConfig>),
    unreadable: (AppState, Option<AppConfig>),
)
    requires
        call_ensures(AppState::start, (ConfigFile::Missing,), missing),
        call_ensures(AppState::start, (ConfigFile::Unreadable,), unreadable),
    ensures
        missing.0@ == unreadable.0@,
        missing.0@.refresh_interval == 10,
        missing.1 matches Some(written) && texts(written.indices@) == missing.0@.indices && texts(
            written.stocks@,
        ) == missing.0@.stocks && providers(written.ai_configs@) == missing.0@.providers
            && written.data_fetch_interval == 10 && written.page_refresh_interval == 3,
        unreadable.1 is None,
{
}

/// What is asked of the state is what it holds: the interval, and every provider in its order.
pub proof fn law_state_is_told_call(s: &AppState, seconds: u64, list: Vec<AiConfig>, i: int)
    requires
        call_ensures(AppState::refresh_interval, (s,), seconds),
        call_ensures(AppState::ai_configs, (s,), list),
        0 <= i < s@.providers.len(),
    ensures
        seconds == s@.refresh_interval,
        seconds >= 1,
        list@.len() == s@.providers.len(),
        list@[i].name@ == s@.providers[i].name,
        list@[i].api_url@ == s@.providers[i].api_url,
        list@[i].api_key@ == s@.providers[i].api_key,
        list@[i].main_models@ == s@.providers[i].main_models,
        list@[i].fallback_models@ == s@.providers[i].fallback_models,
        list@[i].model@ == s@.providers[i].model,
        list@[i].timeout_seconds == s@.providers[i].timeout_seconds,
{
    assert(providers(list@)[i] == list@[i]@);
}

/// A stored configuration is taken as it is, with ten seconds between two rounds and three for the pages
/// where its intervals are zero.
pub proof fn law_repair_call(config: AppConfig, r: AppConfig, started: AppConfig, page: u64)
    requires
        call_ensures(repair_config, (config,), r),
        call_ensures(starting_config, (ConfigFile::Stored(config),), started),
        call_ensures(page_interval, (&Some(config),), page),
    ensures
        r@ == started@,
        texts(r.indices@) == texts(config.indices@),
        texts(r.stocks@) == texts(config.stocks@),
        providers(r.ai_configs@) == providers(config.ai_configs@),
        r.data_fetch_interval == (if config.data_fetch_interval == 0 {
            10
        } else {
            config.data_fetch_interval
        }),
        r.page_refresh_interval == (if config.page_refresh_interval == 0 {
            3
        } else {
            config.page_refresh_interval
        }),
        page == r.page_refresh_interval,
{
}

/// A round begins with the indices and goes on with the stocks.
pub proof fn law_begin_round_call(s: &AppState, r: RefreshRound)
    requires
        call_ensures(AppState::begin_round, (s,), r),
    ensures
        r@.codes == s@.indices + s@.stocks,
        r@.done == 0,
        r@.quotes.len() == 0,
{
}

// ---------------------------------------------------------------------------------------------
// Analyses
// ---------------------------------------------------------------------------------------------

/// The analysis in an answer points the way of its mark, bullish before bearish before neutral, and is
/// the answer without that mark and without the white space around it.
pub proof fn law_read_analysis_call(answer: &str, r: AiAnalysisResponse)
    requires
        call_ensures(read_analysis, (answer,), r),
    ensures
        r.status@ == "success"@,
        occurs(answer@, "[BULLISH]"@) ==> r.sentiment@ == "bullish"@ && r.analysis@ == trimmed(
            without(answer@, "[BULLISH]"@),
        ),
        !occurs(answer@, "[BULLISH]"@) && occurs(answer@, "[BEARISH]"@) ==> r.sentiment@ == "bearish"@
            && r.analysis@ == trimmed(without(answer@, "[BEARISH]"@)),
        !occurs(answer@, "[BULLISH]"@) && !occurs(answer@, "[BEARISH]"@) ==> r.sentiment@
            == "neutral"@ && r.analysis@ == trimmed(
            if occurs(answer@, "[NEUTRAL]"@) {
                without(answer@, "[NEUTRAL]"@)
            } else {
                answer@
            },
        ),
{
}

/// A model that answers ends the run: what is handed out next tells the analysis, the way that it points
/// and the answer itself, each under its name.
pub proof fn law_answer_calls(
    run: &mut AnalysisRun,
    asked: AnalysisStep,
    root: Json,
    first: JsonView,
    more: Seq<JsonView>,
    message: JsonView,
    answer: Seq<char>,
    next: AnalysisStep,
)
    requires
        call_ensures(AnalysisRun::next, (&*old(run),), asked),
        asked is Call,
        root@.get("choices"@) == Some(JsonView::Arr(Seq::empty().push(first) + more)),
        first.get("message"@) == Some(message),
        message.get("content"@) == Some(JsonView::Str(answer)),
        call_ensures(AnalysisRun::report, (run, CallOutcome::Answered(root)), ()),
        call_ensures(AnalysisRun::next, (&*final(run),), next),
    ensures
        next matches AnalysisStep::Reply(j) && {
            &&& j@.get("status"@) == Some(JsonView::Str("success"@))
            &&& j@.get("data"@) matches Some(data)
            &&& data.get("raw_response"@) == Some(JsonView::Str(answer))
            &&& occurs(answer, "[BULLISH]"@) ==> {
                &&& data.get("sentiment"@) == Some(JsonView::Str("bullish"@))
                &&& data.get("analysis"@) == Some(
                    JsonView::Str(trimmed(without(answer, "[BULLISH]"@))),
                )
            }
            &&& !occurs(answer, "[BULLISH]"@) && occurs(answer, "[BEARISH]"@) ==> {
                &&& data.get("sentiment"@) == Some(JsonView::Str("bearish"@))
                &&& data.get("analysis"@) == Some(
                    JsonView::Str(trimmed(without(answer, "[BEARISH]"@))),
                )
            }
            &&& !occurs(answer, "[BULLISH]"@) && !occurs(answer, "[BEARISH]"@) ==> {
                &&& data.get("sentiment"@) == Some(JsonView::Str("neutral"@))
                &&& data.get("analysis"@) == Some(
                    JsonView::Str(
                        trimmed(
                            if occurs(answer, "[NEUTRAL]"@) {
                                without(answer, "[NEUTRAL]"@)
                            } else {
                                answer
                            },
                        ),
                    ),
                )
            }
        },
{
    law_content_is_read(root@, first, more, message, answer);
    law_analysis_is_answered(old(run)@, answer);
}

/// A model that fails is not asked again: the run goes on with the next one, or tells how the last one
/// failed.
pub proof fn law_failure_calls(
    run: &mut AnalysisRun,
    asked: AnalysisStep,
    e: String,
    next: AnalysisStep,
)
    requires
        old(run)@.valid(),
        call_ensures(AnalysisRun::next, (&*old(run),), asked),
        asked is Call,
        call_ensures(AnalysisRun::report, (run, CallOutcome::NotSent(e)), ()),
        call_ensures(AnalysisRun::next, (&*final(run),), next),
    ensures
        ({
            let (tries, done) = (old(run)@.tries, old(run)@.done);
            &&& final(run)@.tries == tries
            &&& final(run)@.done == done + 1
            &&& done + 1 < tries.len() ==> (next matches AnalysisStep::Call { provider, model, call }
                && provider@ == tries[done + 1].provider.name && model@ == tries[done + 1].model)
            &&& done + 1 >= tries.len() ==> (next matches AnalysisStep::Reply(j) && {
                &&& j@.get("status"@) == Some(JsonView::Str("error"@))
                &&& j@.get("msg"@) == Some(
                    JsonView::Str(
                        "All AI providers and models failed. Last error: "@ + ("Provider ["@
                            + tries[done].provider.name + "] Model ["@ + tries[done].model + "]: "@
                            + ("Request failed for model "@ + tries[done].model + ": "@ + e@)),
                    ),
                )
            })
        }),
{
    law_replies_by_key(
        "All AI providers and models failed. Last error: "@ + final(run)@.last_error,
        JsonView::Null,
        false,
    );
}

/// Whatever goes wrong with a model, it counts as one that failed.
pub proof fn law_any_failure_call(run: &mut AnalysisRun, outcome: CallOutcome)
    requires
        call_ensures(AnalysisRun::report, (run, outcome), ()),
        outcome !is Answered,
    ensures
        final(run)@.done == old(run)@.done + 1,
        final(run)@.answer == old(run)@.answer,
        final(run)@.tries == old(run)@.tries,
        final(run)@.prompt == old(run)@.prompt,
{
}

/// A run begins with a prompt that tells what was fetched of the stock, its prices and its money flow,
/// and asks the first model with it; without a quote the request is refused.
pub proof fn law_begin_run_call(
    info: StockInfo,
    flow: Option<MoneyFlow>,
    klines: Option<Vec<KLineDataPoint>>,
    kind: &str,
    configs: &Vec<AiConfig>,
    r: Result<AnalysisRun, Json>,
    next: AnalysisStep,
)
    requires
        call_ensures(begin_run, (Some(info), flow, klines, kind, configs), r),
        r matches Ok(run) ==> call_ensures(AnalysisRun::next, (&run,), next),
        tries_of(providers(configs@)).len() > 0,
    ensures
        r is Ok,
        r->Ok_0@.tries == tries_of(providers(configs@)),
        r->Ok_0@.done == 0,
        next matches AnalysisStep::Call { provider, model, call } && {
            let first = tries_of(providers(configs@))[0];
            let prices = "请分析股票 "@ + info.name@ + "("@ + info.symbol@
                + ") 的走势。\n\n【基础数据】\n当前价格: "@ + info.price@ + ", 涨跌幅: "@ + info.change_percent@
                + "%, 今开: "@ + info.open@ + ", 最高: "@ + info.high@ + ", 最低: "@ + info.low@
                + ", 昨收: "@ + info.pre_close@ + "\n"@;
            &&& provider@ == first.provider.name
            &&& model@ == first.model
            &&& call.body@.get("model"@) == Some(JsonView::Str(first.model))
            &&& array_at(call.body@, "messages"@) matches Some(messages)
            &&& messages.len() == 2
            &&& messages[1].get("content"@) matches Some(JsonView::Str(prompt))
            &&& {
                &&& flow matches Some(f) ==> (prices + ("\n【资金流向】\n主力净流入: "@ + f.main_net@
                    + "元, 超大单: "@ + f.super_large@ + "元, 大单: "@ + f.large@ + "元, 中单: "@ + f.medium@
                    + "元, 小单: "@ + f.small@ + "元\n"@)).is_prefix_of(prompt)
                &&& flow is None ==> (prices + "\n【资金流向】\n暂无数据\n"@).is_prefix_of(prompt)
                &&& prompt == crate::ai::analysis_prompt(
                    info@,
                    match flow {
                        Some(f) => Some(f@),
                        None => None,
                    },
                    match klines {
                        Some(points) => crate::kline::klines_view(points@),
                        None => Seq::empty(),
                    },
                    kind@,
                )
            }
        },
{
    let run = r->Ok_0;
    let first = tries_of(providers(configs@))[0];
    law_model_is_asked(first.provider, first.model, run@.prompt, Seq::empty());
    let lines = match klines {
        Some(points) => crate::kline::klines_view(points@),
        None => Seq::empty(),
    };
    match flow {
        Some(f) => {
            law_prompt_tells(info@, f@, lines, kind@);
        },
        None => {
            let any = crate::money_flow::Flow {
                main_net: Seq::empty(),
                super_large: Seq::empty(),
                large: Seq::empty(),
                medium: Seq::empty(),
                small: Seq::empty(),
                retail: Seq::empty(),
            };
            law_prompt_tells(info@, any, lines, kind@);
        },
    }
}

/// Without a quote there is no run, and without any model nobody is asked.
pub proof fn law_no_run_call(
    flow: Option<MoneyFlow>,
    klines: Option<Vec<KLineDataPoint>>,
    kind: &str,
    configs: &Vec<AiConfig>,
    info: StockInfo,
    none: Result<AnalysisRun, Json>,
    r: Result<AnalysisRun, Json>,
    next: AnalysisStep,
)
    requires
        call_ensures(begin_run, (None, flow, klines, kind, configs), none),
        call_ensures(begin_run, (Some(info), flow, klines, kind, configs), r),
        r matches Ok(run) ==> call_ensures(AnalysisRun::next, (&run,), next),
    ensures
        none matches Err(j) && j@.get("status"@) == Some(JsonView::Str("error"@)) && j@.get("msg"@)
            == Some(JsonView::Str("Failed to fetch stock info"@)),
        tries_of(providers(configs@)).len() == 0 ==> (next matches AnalysisStep::Reply(j) && j@.get(
            "status"@,
        ) == Some(JsonView::Str("error"@)) && j@.get("msg"@) == Some(
            JsonView::Str("No valid models found in any configuration"@),
        )),
{
    law_replies_by_key("Failed to fetch stock info"@, JsonView::Null, false);
    law_replies_by_key("No valid models found in any configuration"@, JsonView::Null, false);
}

/// A request to a model carries its name and the prompt, the provider's key where there is one, and waits
/// as long as is set, or a minute.
pub proof fn law_model_call_call(config: &AiConfig, prompt: &str, model: &str, r: LlmCall, own: LlmCall)
    requires
        call_ensures(call_llm_api_with_model, (config, prompt, model), r),
        call_ensures(call_llm_api, (config, prompt), own),
    ensures
        r.body@.get("model"@) == Some(JsonView::Str(model@)),
        array_at(r.body@, "messages"@) matches Some(messages) && messages.len() == 2
            && messages[0].get("role"@) == Some(JsonView::Str("system"@)) && messages[0].get(
            "content"@,
        ) == Some(JsonView::Str(SYSTEM_PROMPT@)) && messages[1].get("role"@) == Some(
            JsonView::Str("user"@),
        ) && messages[1].get("content"@) == Some(JsonView::Str(prompt@)),
        r.body@.get("temperature"@) == Some(JsonView::Num(NumView::Decimal("0.7"@))),
        config.api_key@.len() == 0 ==> r.authorization is None && own.authorization is None,
        config.api_key@.len() > 0 ==> (r.authorization matches Some(a) && a@ == "Bearer "@
            + config.api_key@) && (own.authorization matches Some(a) && a@ == "Bearer "@
            + config.api_key@),
        r.timeout == (if config.timeout_seconds == 0 {
            60
        } else {
            config.timeout_seconds
        }),
        own.timeout == config.timeout_seconds,
        own.url@ == config.api_url@,
        own.body@.get("model"@) == Some(JsonView::Str(config.model@)),
        "/chat/completions"@.is_suffix_of(r.url@),
        config.api_url@.is_prefix_of(r.url@),
{
    law_model_is_asked(config@, model@, prompt@, Seq::empty());
    law_model_is_asked(config@, config.model@, prompt@, Seq::empty());
    law_own_model_is_asked(config@, prompt@, config.model);
    crate::ai::law_chat_page(config@.api_url);
    let url = config@.api_url;
    assert(url.subrange(0, url.len() as int) =~= url);
    assert(r.url@.subrange(0, url.len() as int) =~= url);
}

/// The models of a provider are the names in its first list and then those in its second; where neither
/// has any, its own model.
pub proof fn law_models_call(config: &AiConfig, r: Vec<String>)
    requires
        call_ensures(models, (config,), r),
    ensures
        ({
            let listed = names_in(config.main_models@) + names_in(config.fallback_models@);
            &&& listed.len() > 0 ==> texts(r@) == listed
            &&& listed.len() == 0 && config.model@.len() > 0 ==> r@.len() == 1 && r@[0]@
                == config.model@
            &&& listed.len() == 0 && config.model@.len() == 0 ==> r@.len() == 0
        }),
{
    assert(r@.len() > 0 ==> texts(r@)[0] == r@[0]@);
    assert(texts(r@).len() == r@.len());
}

/// A request without a code stands with an empty one, and one without a kind asks for the trend.
pub proof fn law_request_call(code: Option<&str>, kind: Option<&str>, r: AiAnalysisRequest)
    requires
        call_ensures(read_request, (code, kind), r),
    ensures
        code matches Some(c) ==> r.code@ == c@,
        code is None ==> r.code@.len() == 0,
        kind matches Some(k) ==> r.analysis_type@ == k@,
        kind is None ==> r.analysis_type@ == "trend"@,
{
}

/// An analysis fetches the quote, the flow of the moment and the last ten K-lines by day of the stock; it
/// is refused without a code and without a provider.
pub proof fn law_start_analysis_call(
    request: &AiAnalysisRequest,
    configs: &Vec<AiConfig>,
    r: AnalysisStart,
)
    requires
        call_ensures(start_analysis, (request, configs), r),
    ensures
        request.code@.len() == 0 ==> (r matches AnalysisStart::Reply(j) && j@.get("status"@) == Some(
            JsonView::Str("error"@),
        ) && j@.get("msg"@) == Some(JsonView::Str("no code"@))),
        request.code@.len() > 0 && configs@.len() == 0 ==> (r matches AnalysisStart::Reply(j)
            && j@.get("status"@) == Some(JsonView::Str("error"@)) && j@.get("msg"@) == Some(
            JsonView::Str("No AI config found"@),
        )),
        request.code@.len() > 0 && configs@.len() > 0 ==> (r matches AnalysisStart::Fetch {
            code,
            quote,
            flow,
            klines,
        } && {
            let full = stock_code(request.code@);
            let id = crate::codes::security_id(full);
            &&& code@ == full
            &&& quote@ == "http://hq.sinajs.cn/list="@ + full
            &&& flow@ == "http://push2.eastmoney.com/api/qt/stock/fflow/realtime/get?secid="@ + id
                + "&fields1=f1,f2,f3,f7&fields2=f51,f52,f53,f54,f55,f56,f57,f58,f59,f60,f61,f62,f63,f64,f65&ut=b2884a393a59ad64002292a3e90d46a5"@
            &&& klines@ == "http://push2his.eastmoney.com/api/qt/stock/kline/get?secid="@ + id
                + "&fields1=f1,f2,f3,f4,f5,f6&fields2=f51,f52,f53,f54,f55,f56,f57,f58,f59,f60,f61&klt="@
                + "101"@ + "&fqt=1&beg=0&end=20500101&lmt="@ + digits(10)
        }),
{
    law_replies_by_key("no code"@, JsonView::Null, false);
    law_replies_by_key("No AI config found"@, JsonView::Null, false);
}

/// What came of a request to a model: the text of its answer, or a message that tells what went wrong.
pub proof fn law_result_call(
    model: &str,
    root: Json,
    first: JsonView,
    more: Seq<JsonView>,
    message: JsonView,
    answer: Seq<char>,
    r: Result<String, String>,
    own: Result<String, String>,
)
    requires
        call_ensures(read_model_result, (model, &CallOutcome::Answered(root)), r),
        call_ensures(read_own_result, (&CallOutcome::Answered(root),), own),
        root@.get("choices"@) == Some(JsonView::Arr(Seq::empty().push(first) + more)),
        first.get("message"@) == Some(message),
        message.get("content"@) == Some(JsonView::Str(answer)),
    ensures
        r matches Ok(text) && text@ == answer,
        own matches Ok(text) && text@ == answer,
{
    law_content_is_read(root@, first, more, message, answer);
}

} // verus!
