//! What a request is answered.
use crate::json::{
    law_empty_object, law_field_is_found, Fields, Json, JsonView, Num, NumView,
};
use vstd::prelude::*;

verus! {

/// How a request for data begins: it is answered at once, or a page is to be fetched for it, and
/// what the page holds is to be kept under a key.
pub enum Start {
    Reply(Json),
    Fetch { key: String, url: String },
}

/// What a [`Start`] stands for.
pub enum StartView {
    Reply(JsonView),
    Fetch { key: Seq<char>, url: Seq<char> },
}

impl Start {
    pub open spec fn view(&self) -> StartView {
        match self {
            Start::Reply(j) => StartView::Reply(j@),
            Start::Fetch { key, url } => StartView::Fetch { key: key@, url: url@ },
        }
    }
}

/// The number that a decimal text spells.
pub open spec fn number_view(text: Seq<char>) -> JsonView {
    JsonView::Num(NumView::Decimal(text))
}

/// The number that a decimal text spells.
pub fn number(text: &str) -> (j: Json)
    ensures
        j@ == number_view(text@),
{
    Json::Num(Num::Decimal(text.to_owned()))
}

/// The answer to a request that failed, with the reason.
pub open spec fn error_view(msg: Seq<char>) -> JsonView {
    JsonView::object().with_str("status"@, "error"@).with_str("msg"@, msg)
}

/// The answer to a request that failed, with the reason.
pub fn error_reply(msg: &str) -> (j: Json)
    ensures
        j@ == error_view(msg@),
{
    Fields::new().with_str("status", "error").with_str("msg", msg).object()
}

/// The answer that hands out data.
pub open spec fn success_view(data: JsonView) -> JsonView {
    JsonView::object().with_str("status"@, "success"@).with("data"@, data)
}

/// The answer that hands out data, and says whether it came from the cache.
pub open spec fn data_view(data: JsonView, cached: bool) -> JsonView {
    success_view(data).with("cached"@, JsonView::Bool(cached))
}

/// The answer that hands out data, and says whether it came from the cache.
pub fn data_reply(data: Json, cached: bool) -> (j: Json)
    ensures
        j@ == data_view(data@, cached),
{
    Fields::new().with_str("status", "success").with("data", data).with(
        "cached",
        Json::Bool(cached),
    ).object()
}

/// The answer to a request that was carried out and gives nothing back.
pub open spec fn done_view() -> JsonView {
    JsonView::object().with_str("status"@, "success"@)
}

/// The answer to a request that was carried out and gives nothing back.
pub fn done_reply() -> (j: Json)
    ensures
        j@ == done_view(),
{
    Fields::new().with_str("status", "success").object()
}

// ---------------------------------------------------------------------------------------------
// Laws
// ---------------------------------------------------------------------------------------------

/// A refusal tells that it is one, and why; an answer with data has the data under `data`, and tells
/// whether they come from the cache.
pub proof fn law_replies_by_key(msg: Seq<char>, data: JsonView, cached: bool)
    ensures
        error_view(msg).get("status"@) == Some(JsonView::Str("error"@)),
        error_view(msg).get("msg"@) == Some(JsonView::Str(msg)),
        data_view(data, cached).get("status"@) == Some(JsonView::Str("success"@)),
        data_view(data, cached).get("data"@) == Some(data),
        data_view(data, cached).get("cached"@) == Some(JsonView::Bool(cached)),
        done_view().get("status"@) == Some(JsonView::Str("success"@)),
{
    broadcast use law_field_is_found, law_empty_object;

    reveal_strlit("status");
    reveal_strlit("msg");
    reveal_strlit("data");
    reveal_strlit("cached");
    assert("status"@.len() == 6 && "status"@[0] == 's');
    assert("msg"@.len() == 3);
    assert("data"@.len() == 4);
    assert("cached"@.len() == 6 && "cached"@[0] == 'c');
}

/// A number is handed out as the very text that it came as.
pub proof fn law_number_is_handed_out(text: Seq<char>)
    ensures
        number_view(text) == JsonView::Num(NumView::Decimal(text)),
        number_view(text).number_text() == text,
{
}

} // verus!
