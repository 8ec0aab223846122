//! JSON values.
//!
//! Requests and the replies of the data services arrive as JSON. `serde_json` reads the text; what
//! it read is then held in [`Json`], a plain value whose every part the rest of the library can
//! see, and which is modelled by [`JsonView`].
use crate::text::{decimal, digits, same, texts};
use vstd::prelude::*;

verus! {

/// A JSON number: an integer that fits 64 bits, or the decimal text of any other number.
#[derive(Debug, PartialEq, Eq)]
pub enum Num {
    Unsigned(u64),
    Negative(i64),
    Decimal(String),
}

/// A JSON value. The fields of an object stand in the order in which they are listed.
#[derive(Debug, PartialEq, Eq)]
pub enum Json {
    Null,
    Bool(bool),
    Num(Num),
    Str(String),
    Arr(Vec<Json>),
    Obj(Vec<(String, Json)>),
}

/// What a [`Num`] stands for.
pub enum NumView {
    Unsigned(u64),
    Negative(i64),
    Decimal(Seq<char>),
}

/// What a [`Json`] stands for.
pub enum JsonView {
    Null,
    Bool(bool),
    Num(NumView),
    Str(Seq<char>),
    Arr(Seq<JsonView>),
    Obj(Seq<(Seq<char>, JsonView)>),
}

impl Num {
    pub open spec fn view(&self) -> NumView {
        match self {
            Num::Unsigned(n) => NumView::Unsigned(*n),
            Num::Negative(n) => NumView::Negative(*n),
            Num::Decimal(t) => NumView::Decimal(t@),
        }
    }
}

impl Json {
    pub open spec fn view(&self) -> JsonView
        decreases self,
    {
        match self {
            Json::Null => JsonView::Null,
            Json::Bool(b) => JsonView::Bool(*b),
            Json::Num(n) => JsonView::Num(n@),
            Json::Str(s) => JsonView::Str(s@),
            Json::Arr(items) => JsonView::Arr(
                Seq::new(
                    items@.len(),
                    |i: int|
                        if 0 <= i < items@.len() {
                            items@[i].view()
                        } else {
                            JsonView::Null
                        },
                ),
            ),
            Json::Obj(fields) => JsonView::Obj(
                Seq::new(
                    fields@.len(),
                    |i: int|
                        if 0 <= i < fields@.len() {
                            (fields@[i].0@, fields@[i].1.view())
                        } else {
                            (Seq::empty(), JsonView::Null)
                        },
                ),
            ),
        }
    }
}

/// What a list of values stands for.
pub open spec fn items_view(items: Seq<Json>) -> Seq<JsonView> {
    items.map_values(|j: Json| j@)
}

/// What a list of fields stands for.
pub open spec fn fields_view(fields: Seq<(String, Json)>) -> Seq<(Seq<char>, JsonView)> {
    fields.map_values(|f: (String, Json)| (f.0@, f.1@))
}

/// An array stands for the list of what its items stand for.
pub broadcast proof fn lemma_arr_view(items: Vec<Json>)
    ensures
        #[trigger] Json::Arr(items)@ == JsonView::Arr(items_view(items@)),
{
    assert(Json::Arr(items)@->Arr_0 =~= items_view(items@));
}

/// An object stands for the list of what its fields stand for.
pub broadcast proof fn lemma_obj_view(fields: Vec<(String, Json)>)
    ensures
        #[trigger] Json::Obj(fields)@ == JsonView::Obj(fields_view(fields@)),
{
    assert(Json::Obj(fields)@->Obj_0 =~= fields_view(fields@));
}

// ---------------------------------------------------------------------------------------------
// Reading text with serde_json
// ---------------------------------------------------------------------------------------------

/// The value type of `serde_json`.
#[verifier::external_type_specification]
#[verifier::external_body]
pub struct ExValue(serde_json::Value);

/// The error type of `serde_json`.
#[verifier::external_type_specification]
#[verifier::external_body]
pub struct ExJsonError(serde_json::Error);

/// What a `serde_json::Value` holds: the tree of its parts.
pub uninterp spec fn value_tree(v: serde_json::Value) -> JsonView;

/// What `serde_json::from_str` reads from a text: the tree of its value, or nothing where the text
/// is refused.
pub uninterp spec fn json_tree(text: Seq<char>) -> Option<JsonView>;

/// One level of a `serde_json::Value`.
enum Node {
    Null,
    Bool(bool),
    Num(Num),
    Str(String),
    Arr(Vec<serde_json::Value>),
    Obj(Vec<(String, serde_json::Value)>),
}

spec fn trees(values: Seq<serde_json::Value>) -> Seq<JsonView> {
    values.map_values(|v: serde_json::Value| value_tree(v))
}

spec fn field_trees(fields: Seq<(String, serde_json::Value)>) -> Seq<(Seq<char>, JsonView)> {
    fields.map_values(|f: (String, serde_json::Value)| (f.0@, value_tree(f.1)))
}

/// Whether a node is the top level of a tree.
spec fn is_top_of(n: Node, tree: JsonView) -> bool {
    match n {
        Node::Null => tree == JsonView::Null,
        Node::Bool(b) => tree == JsonView::Bool(b),
        Node::Num(x) => tree == JsonView::Num(x@),
        Node::Str(s) => tree == JsonView::Str(s@),
        Node::Arr(values) => tree == JsonView::Arr(trees(values@)),
        Node::Obj(fields) => tree == JsonView::Obj(field_trees(fields@)),
    }
}

/// Takes a `serde_json::Value` apart by its variant. The parts are those of its tree, in the order
/// in which the array, or the map's own iteration, gives them. A number is taken by
/// `Number::as_u64`, else by `Number::as_i64`, else by the text that it displays as.
#[verifier::external_body]
fn open_value(v: serde_json::Value) -> (n: Node)
    ensures
        is_top_of(n, value_tree(v)),
{
    match v {
        serde_json::Value::Null => Node::Null,
        serde_json::Value::Bool(b) => Node::Bool(b),
        serde_json::Value::Number(n) => Node::Num(match (n.as_u64(), n.as_i64()) {
            (Some(u), _) => Num::Unsigned(u),
            (None, Some(i)) => Num::Negative(i),
            (None, None) => Num::Decimal(n.to_string()),
        }),
        serde_json::Value::String(s) => Node::Str(s),
        serde_json::Value::Array(items) => Node::Arr(items),
        serde_json::Value::Object(fields) => Node::Obj(fields.into_iter().collect()),
    }
}

/// Reads a text with `serde_json::from_str`, which accepts a text or refuses it by the text alone;
/// [`json_tree`] names what it makes of it.
#[verifier::external_body]
fn read_value(text: &str) -> (r: Result<serde_json::Value, serde_json::Error>)
    ensures
        match r {
            Ok(v) => json_tree(text@) == Some(value_tree(v)),
            Err(_) => json_tree(text@) is None,
        },
{
    serde_json::from_str::<serde_json::Value>(text)
}

impl Json {
    /// The value that a `serde_json::Value` holds.
    pub fn from_value(v: serde_json::Value) -> (j: Json)
        ensures
            j@ == value_tree(v),
        decreases value_tree(v),
    {
        broadcast use lemma_arr_view, lemma_obj_view;

        let ghost tree = value_tree(v);
        match open_value(v) {
            Node::Null => Json::Null,
            Node::Bool(b) => Json::Bool(b),
            Node::Num(n) => Json::Num(n),
            Node::Str(s) => Json::Str(s),
            Node::Arr(values) => {
                let mut items: Vec<Json> = Vec::new();
                for value in it: values
                    invariant
                        tree == value_tree(v),
                        it.seq() == values@,
                        tree == JsonView::Arr(trees(values@)),
                        items_view(items@) == trees(values@).take(it.index()),
                {
                    proof {
                        assert(value == values@[it.index()]);
                        assert(trees(values@)[it.index()] == value_tree(value));
                        assert(decreases_to!(tree => tree->Arr_0[it.index()]));
                    }
                    let ghost before = items@;
                    let item = Json::from_value(value);
                    items.push(item);
                    assert(items_view(items@) == items_view(before).push(item@));
                    assert(trees(values@).take(it.index() + 1) == trees(values@).take(
                        it.index(),
                    ).push(item@));
                }
                assert(trees(values@).take(values@.len() as int) == trees(values@));
                Json::Arr(items)
            },
            Node::Obj(values) => {
                let mut fields: Vec<(String, Json)> = Vec::new();
                for value in it: values
                    invariant
                        tree == value_tree(v),
                        it.seq() == values@,
                        tree == JsonView::Obj(field_trees(values@)),
                        fields_view(fields@) == field_trees(values@).take(it.index()),
                {
                    proof {
                        assert(value == values@[it.index()]);
                        assert(field_trees(values@)[it.index()] == (value.0@, value_tree(value.1)));
                        assert(decreases_to!(tree => tree->Obj_0[it.index()]));
                        assert(decreases_to!(tree => tree->Obj_0[it.index()].1));
                    }
                    let ghost before = fields@;
                    let (key, inner) = value;
                    let item = Json::from_value(inner);
                    let ghost added = (key@, item@);
                    fields.push((key, item));
                    assert(fields_view(fields@) == fields_view(before).push(added));
                    assert(field_trees(values@).take(it.index() + 1) == field_trees(values@).take(
                        it.index(),
                    ).push(added));
                }
                assert(field_trees(values@).take(values@.len() as int) == field_trees(values@));
                Json::Obj(fields)
            },
        }
    }

    /// The value that a text spells, or nothing where it is not JSON.
    pub fn parse(text: &str) -> (r: Option<Json>)
        ensures
            match r {
                Some(j) => json_tree(text@) == Some(j@),
                None => json_tree(text@) is None,
            },
    {
        match read_value(text) {
            Ok(v) => Some(Json::from_value(v)),
            Err(_) => None,
        }
    }
}

// ---------------------------------------------------------------------------------------------
// Looking into a value
// ---------------------------------------------------------------------------------------------

/// The value of the first field with a given name.
pub open spec fn field_of(fields: Seq<(Seq<char>, JsonView)>, key: Seq<char>) -> Option<JsonView>
    decreases fields.len(),
{
    if fields.len() == 0 {
        None
    } else if fields[0].0 == key {
        Some(fields[0].1)
    } else {
        field_of(fields.skip(1), key)
    }
}

impl NumView {
    /// The number as decimal text.
    pub open spec fn text(self) -> Seq<char> {
        match self {
            NumView::Unsigned(n) => digits(n as nat),
            NumView::Negative(n) => if n < 0 {
                seq!['-'] + digits((-n) as nat)
            } else {
                digits(n as nat)
            },
            NumView::Decimal(t) => t,
        }
    }
}

impl JsonView {
    /// The object without fields.
    pub open spec fn object() -> JsonView {
        JsonView::Obj(Seq::empty())
    }

    /// The object with one more field at the end.
    pub open spec fn with(self, key: Seq<char>, value: JsonView) -> JsonView {
        JsonView::Obj(self->Obj_0.push((key, value)))
    }

    /// The object with one more field, a string, at the end.
    pub open spec fn with_str(self, key: Seq<char>, value: Seq<char>) -> JsonView {
        self.with(key, JsonView::Str(value))
    }

    /// The value of an object's field; nothing for a value that is no object.
    pub open spec fn get(self, key: Seq<char>) -> Option<JsonView> {
        match self {
            JsonView::Obj(fields) => field_of(fields, key),
            _ => None,
        }
    }

    /// The text of a string value.
    pub open spec fn as_str(self) -> Option<Seq<char>> {
        match self {
            JsonView::Str(s) => Some(s),
            _ => None,
        }
    }

    /// The items of an array value.
    pub open spec fn as_array(self) -> Option<Seq<JsonView>> {
        match self {
            JsonView::Arr(items) => Some(items),
            _ => None,
        }
    }

    /// The number, where it is an integer from `0` to `u64::MAX`.
    pub open spec fn as_u64(self) -> Option<u64> {
        match self {
            JsonView::Num(NumView::Unsigned(n)) => Some(n),
            _ => None,
        }
    }

    /// The number, where it is an integer from `i64::MIN` to `i64::MAX`.
    pub open spec fn as_i64(self) -> Option<i64> {
        match self {
            JsonView::Num(NumView::Unsigned(n)) => if n <= i64::MAX {
                Some(n as i64)
            } else {
                None
            },
            JsonView::Num(NumView::Negative(n)) => Some(n),
            _ => None,
        }
    }

    /// The decimal text of a number; `0` for a value that is no number.
    pub open spec fn number_text(self) -> Seq<char> {
        match self {
            JsonView::Num(n) => n.text(),
            _ => digits(0),
        }
    }
}

/// The text of a field's string, where the value has that field and it is a string.
pub open spec fn str_at(j: JsonView, key: Seq<char>) -> Option<Seq<char>> {
    match j.get(key) {
        Some(v) => v.as_str(),
        None => None,
    }
}

/// The items of a field's array, where the value has that field and it is an array.
pub open spec fn array_at(j: JsonView, key: Seq<char>) -> Option<Seq<JsonView>> {
    match j.get(key) {
        Some(v) => v.as_array(),
        None => None,
    }
}

/// A field's integer, where the value has that field and it is an integer from `0` to `u64::MAX`.
pub open spec fn u64_at(j: JsonView, key: Seq<char>) -> Option<u64> {
    match j.get(key) {
        Some(v) => v.as_u64(),
        None => None,
    }
}

/// A field's integer, where the value has that field and it is an integer that fits `i64`.
pub open spec fn i64_at(j: JsonView, key: Seq<char>) -> Option<i64> {
    match j.get(key) {
        Some(v) => v.as_i64(),
        None => None,
    }
}

/// The decimal text of a field's number; `0` where the value has no such number.
pub open spec fn number_at(j: JsonView, key: Seq<char>) -> Seq<char> {
    match j.get(key) {
        Some(v) => v.number_text(),
        None => digits(0),
    }
}

impl Json {
    /// The value of an object's field; nothing for a value that is no object.
    pub fn get(&self, key: &str) -> (r: Option<&Json>)
        ensures
            match r {
                Some(j) => self@.get(key@) == Some(j@),
                None => self@.get(key@) is None,
            },
    {
        broadcast use lemma_obj_view;

        match self {
            Json::Obj(fields) => {
                let ghost all = fields_view(fields@);
                let mut i: usize = 0;
                assert(all.skip(0) == all);
                while i < fields.len()
                    invariant
                        i <= fields@.len(),
                        all == fields_view(fields@),
                        self@ == JsonView::Obj(all),
                        field_of(all.skip(i as int), key@) == field_of(all, key@),
                    decreases fields.len() - i,
                {
                    assert(all.skip(i as int)[0] == (fields@[i as int].0@, fields@[i as int].1@));
                    assert(all.skip(i as int).skip(1) == all.skip(i + 1));
                    if same(&fields[i].0, key) {
                        return Some(&fields[i].1);
                    }
                    i = i + 1;
                }
                None
            },
            _ => None,
        }
    }

    /// The text of a string value.
    pub fn as_str(&self) -> (r: Option<&str>)
        ensures
            match r {
                Some(s) => self@.as_str() == Some(s@),
                None => self@.as_str() is None,
            },
    {
        match self {
            Json::Str(s) => Some(s.as_str()),
            _ => None,
        }
    }

    /// The items of an array value.
    pub fn as_array(&self) -> (r: Option<&Vec<Json>>)
        ensures
            match r {
                Some(items) => self@.as_array() == Some(items_view(items@)),
                None => self@.as_array() is None,
            },
    {
        broadcast use lemma_arr_view;

        match self {
            Json::Arr(items) => Some(items),
            _ => None,
        }
    }

    /// The number, where it is an integer from `0` to `u64::MAX`.
    pub fn as_u64(&self) -> (r: Option<u64>)
        ensures
            r == self@.as_u64(),
    {
        match self {
            Json::Num(Num::Unsigned(n)) => Some(*n),
            _ => None,
        }
    }

    /// The number, where it is an integer from `i64::MIN` to `i64::MAX`.
    pub fn as_i64(&self) -> (r: Option<i64>)
        ensures
            r == self@.as_i64(),
    {
        match self {
            Json::Num(Num::Unsigned(n)) => if *n <= 9_223_372_036_854_775_807 {
                Some(*n as i64)
            } else {
                None
            },
            Json::Num(Num::Negative(n)) => Some(*n),
            _ => None,
        }
    }

    /// The decimal text of a number; `0` for a value that is no number.
    pub fn number_text(&self) -> (r: String)
        ensures
            r@ == self@.number_text(),
    {
        match self {
            Json::Num(Num::Unsigned(n)) => decimal(*n),
            Json::Num(Num::Negative(n)) => if *n < 0 {
                let mut r = String::new();
                r.push('-');
                let d = decimal((-(*n as i128)) as u64);
                r.append(&d);
                assert(r@ == seq!['-'] + d@);
                r
            } else {
                decimal(*n as u64)
            },
            Json::Num(Num::Decimal(t)) => t.clone(),
            _ => decimal(0),
        }
    }

    /// The text of a field's string.
    pub fn str_at(&self, key: &str) -> (r: Option<&str>)
        ensures
            match r {
                Some(s) => str_at(self@, key@) == Some(s@),
                None => str_at(self@, key@) is None,
            },
    {
        match self.get(key) {
            Some(v) => v.as_str(),
            None => None,
        }
    }

    /// The items of a field's array.
    pub fn array_at(&self, key: &str) -> (r: Option<&Vec<Json>>)
        ensures
            match r {
                Some(items) => array_at(self@, key@) == Some(items_view(items@)),
                None => array_at(self@, key@) is None,
            },
    {
        match self.get(key) {
            Some(v) => v.as_array(),
            None => None,
        }
    }

    /// A field's integer, where it is one from `0` to `u64::MAX`.
    pub fn u64_at(&self, key: &str) -> (r: Option<u64>)
        ensures
            r == u64_at(self@, key@),
    {
        match self.get(key) {
            Some(v) => v.as_u64(),
            None => None,
        }
    }

    /// A field's integer, where it is one that fits `i64`.
    pub fn i64_at(&self, key: &str) -> (r: Option<i64>)
        ensures
            r == i64_at(self@, key@),
    {
        match self.get(key) {
            Some(v) => v.as_i64(),
            None => None,
        }
    }

    /// The decimal text of a field's number; `0` where there is no such number.
    pub fn number_at(&self, key: &str) -> (r: String)
        ensures
            r@ == number_at(self@, key@),
    {
        match self.get(key) {
            Some(v) => v.number_text(),
            None => decimal(0),
        }
    }
}

// ---------------------------------------------------------------------------------------------
// Putting a value together
// ---------------------------------------------------------------------------------------------

/// The fields of an object under construction.
pub struct Fields {
    fields: Vec<(String, Json)>,
}

impl Fields {
    /// The object that the fields make up so far.
    pub closed spec fn view(&self) -> JsonView {
        JsonView::Obj(fields_view(self.fields@))
    }

    /// No fields.
    pub fn new() -> (r: Fields)
        ensures
            r@ == JsonView::object(),
    {
        let r = Fields { fields: Vec::new() };
        assert(fields_view(r.fields@) == Seq::<(Seq<char>, JsonView)>::empty());
        r
    }

    /// The fields with one more at the end.
    pub fn with(self, key: &str, value: Json) -> (r: Fields)
        ensures
            r@ == self@.with(key@, value@),
    {
        let ghost before = fields_view(self.fields@);
        let ghost added = (key@, value@);
        let mut fields = self.fields;
        fields.push((key.to_owned(), value));
        let r = Fields { fields };
        assert(fields_view(r.fields@) == before.push(added));
        r
    }

    /// The fields with one more, a string, at the end.
    pub fn with_str(self, key: &str, value: &str) -> (r: Fields)
        ensures
            r@ == self@.with_str(key@, value@),
    {
        self.with(key, Json::Str(value.to_owned()))
    }

    /// The object with these fields.
    pub fn object(self) -> (j: Json)
        ensures
            j@ == self@,
    {
        broadcast use lemma_obj_view;

        Json::Obj(self.fields)
    }
}

/// The array of strings with the given texts.
pub open spec fn strings_view(list: Seq<Seq<char>>) -> JsonView {
    JsonView::Arr(list.map_values(|s: Seq<char>| JsonView::Str(s)))
}

/// The array of the given strings.
pub fn strings(list: &Vec<String>) -> (j: Json)
    ensures
        j@ == strings_view(texts(list@)),
{
    broadcast use lemma_arr_view;

    let mut items: Vec<Json> = Vec::new();
    let mut i: usize = 0;
    while i < list.len()
        invariant
            i <= list@.len(),
            items@.len() == i,
            forall|k: int| 0 <= k < i ==> (#[trigger] items@[k])@ == JsonView::Str(list@[k]@),
        decreases list.len() - i,
    {
        items.push(Json::Str(list[i].clone()));
        i = i + 1;
    }
    assert(items_view(items@) == texts(list@).map_values(|s: Seq<char>| JsonView::Str(s)));
    Json::Arr(items)
}

// ---------------------------------------------------------------------------------------------
// Laws
// ---------------------------------------------------------------------------------------------

proof fn lemma_field_of_push(
    fields: Seq<(Seq<char>, JsonView)>,
    key: Seq<char>,
    value: JsonView,
    other: Seq<char>,
)
    ensures
        field_of(fields.push((key, value)), other) == (match field_of(fields, other) {
            Some(v) => Some(v),
            None => if key == other {
                Some(value)
            } else {
                None
            },
        }),
    decreases fields.len(),
{
    let longer = fields.push((key, value));
    if fields.len() == 0 {
        assert(field_of(longer.skip(1), other) is None);
        assert(longer[0] == (key, value));
    } else {
        assert(longer[0] == fields[0]);
        assert(longer.skip(1) =~= fields.skip(1).push((key, value)));
        lemma_field_of_push(fields.skip(1), key, value, other);
    }
}

/// A field that was put into an object is found under its name, unless one of that name was there;
/// every other name finds what it found before.
pub broadcast proof fn law_field_is_found(
    j: JsonView,
    key: Seq<char>,
    value: JsonView,
    other: Seq<char>,
)
    requires
        j is Obj,
    ensures
        #[trigger] j.with(key, value).get(other) == (match j.get(other) {
            Some(v) => Some(v),
            None => if key == other {
                Some(value)
            } else {
                None
            },
        }),
{
    lemma_field_of_push(j->Obj_0, key, value, other);
}

/// The object without fields finds nothing.
pub broadcast proof fn law_empty_object(key: Seq<char>)
    ensures
        #[trigger] JsonView::object().get(key) is None,
{
}

/// What a field's number reads as: the digits of an integer, after a minus sign where it is negative,
/// or the very text of any other number.
pub proof fn law_number_is_read(j: JsonView, key: Seq<char>, n: u64, m: i64, text: Seq<char>)
    requires
        m < 0,
    ensures
        j.get(key) == Some(JsonView::Num(NumView::Unsigned(n))) ==> number_at(j, key) == digits(
            n as nat,
        ),
        j.get(key) == Some(JsonView::Num(NumView::Negative(m))) ==> number_at(j, key) == seq!['-']
            + digits((-m) as nat),
        j.get(key) == Some(JsonView::Num(NumView::Decimal(text))) ==> number_at(j, key) == text,
        j.get(key) is None ==> number_at(j, key) == seq!['0'],
{
    reveal_with_fuel(digits, 2);
    assert(digits(0) =~= seq!['0']);
}

} // verus!
