use vstd::prelude::*;

verus! {

/// `serde_json::Error`, carried through as an opaque value.
#[verifier::external_type_specification]
#[verifier::external_body]
pub struct ExJsonError(serde_json::Error);

/// `serde_json::Number`, a JSON number that is carried through as it was read.
#[verifier::external_type_specification]
#[verifier::external_body]
pub struct ExJsonNumber(serde_json::Number);

/// `serde_json::Value`, which only the conversions to and from [`Json`] touch.
#[verifier::external_type_specification]
#[verifier::external_body]
pub struct ExJsonValue(serde_json::Value);

/// A JSON document as a tree of plain values.
#[derive(Debug)]
pub enum Json {
    Null,
    Bool(bool),
    Number(serde_json::Number),
    Text(String),
    Array(Vec<Json>),
    Object(Vec<(String, Json)>),
}

/// The mathematical content of a [`Json`] tree.
pub enum JsonView {
    Null,
    Bool(bool),
    Number(serde_json::Number),
    Text(Seq<char>),
    Array(Seq<JsonView>),
    Object(Seq<(Seq<char>, JsonView)>),
}

impl View for Json {
    type V = JsonView;

    open spec fn view(&self) -> JsonView {
        self.tree()
    }
}

impl Json {
    /// The content of the tree, member by member.
    pub open spec fn tree(&self) -> JsonView
        decreases self,
    {
        match self {
            Json::Null => JsonView::Null,
            Json::Bool(b) => JsonView::Bool(*b),
            Json::Number(n) => JsonView::Number(*n),
            Json::Text(s) => JsonView::Text(s@),
            Json::Array(items) => JsonView::Array(
                Seq::new(
                    items@.len(),
                    |i: int|
                        if 0 <= i < items@.len() {
                            items@[i].tree()
                        } else {
                            JsonView::Null
                        },
                ),
            ),
            Json::Object(fields) => JsonView::Object(
                Seq::new(
                    fields@.len(),
                    |i: int|
                        if 0 <= i < fields@.len() {
                            (fields@[i].0@, fields@[i].1.tree())
                        } else {
                            (Seq::empty(), JsonView::Null)
                        },
                ),
            ),
        }
    }
}

/// The value that a list of object members gives to `key`: that of the last
/// member so named, if there is one.
pub open spec fn lookup(fields: Seq<(Seq<char>, JsonView)>, key: Seq<char>) -> Option<JsonView>
    decreases fields.len(),
{
    if fields.len() == 0 {
        None
    } else if fields.last().0 == key {
        Some(fields.last().1)
    } else {
        lookup(fields.drop_last(), key)
    }
}

impl JsonView {
    /// The member `key` of an object; `None` for anything but an object that has it.
    pub open spec fn get(self, key: Seq<char>) -> Option<JsonView> {
        match self {
            JsonView::Object(fields) => lookup(fields, key),
            _ => None,
        }
    }
}

impl Json {
    /// Looks up the member `key` of an object.
    pub fn get(&self, key: &str) -> (found: Option<&Json>)
        ensures
            match found {
                Some(value) => self@.get(key@) == Some(value@),
                None => self@.get(key@) is None,
            },
    {
        match self {
            Json::Object(fields) => {
                let wanted = key.to_owned();
                let ghost all = self@->Object_0;
                let mut i: usize = fields.len();
                assert(all.take(i as int) == all);
                while i > 0
                    invariant
                        i <= fields.len(),
                        wanted@ == key@,
                        self@ == JsonView::Object(all),
                        *self == Json::Object(*fields),
                        all.len() == fields@.len(),
                        forall|k: int|
                            0 <= k < all.len() ==> all[k] == (
                                #[trigger] fields@[k].0@,
                                fields@[k].1@,
                            ),
                        lookup(all, key@) == lookup(all.take(i as int), key@),
                    decreases i,
                {
                    i -= 1;
                    assert(all.take(i + 1).last() == all[i as int]);
                    assert(all.take(i + 1).drop_last() == all.take(i as int));
                    if fields[i].0 == wanted {
                        return Some(&fields[i].1);
                    }
                }
                None
            },
            _ => None,
        }
    }
}

/// What `serde_json` reads from `text`: the tree, or `None` where `text` is not
/// one JSON document.
pub uninterp spec fn parsed_text(text: Seq<char>) -> Option<JsonView>;

/// The compact JSON text that `serde_json` writes for `tree`.
pub uninterp spec fn rendered_text(tree: JsonView) -> Seq<char>;

/// The number as a `u64`, where it is a non-negative integer in that range.
pub uninterp spec fn number_as_u64(number: serde_json::Number) -> Option<u64>;

/// The number as an `i64`, where it is an integer in that range.
pub uninterp spec fn number_as_i64(number: serde_json::Number) -> Option<i64>;

/// The JSON number that stands for the integer `value`.
pub uninterp spec fn number_from_u64(value: u64) -> serde_json::Number;

/// `serde_json::Number::as_u64`: `Some` exactly for a number that was read or
/// made as a non-negative integer; the result depends on the number alone.
pub assume_specification[ serde_json::Number::as_u64 ](number: &serde_json::Number) -> (value:
    Option<u64>)
    ensures
        value == number_as_u64(*number),
;

/// `serde_json::Number::as_i64`: `Some` exactly for an integer that fits an
/// `i64`; the result depends on the number alone.
pub assume_specification[ serde_json::Number::as_i64 ](number: &serde_json::Number) -> (value:
    Option<i64>)
    ensures
        value == number_as_i64(*number),
;

/// `Clone` for `serde_json::Number`: the copy is the same number.
pub assume_specification[ <serde_json::Number as Clone>::clone ](
    number: &serde_json::Number,
) -> (copy: serde_json::Number)
    ensures
        copy == *number,
;

/// `From<u64>` for `serde_json::Number`: a non-negative integer, which
/// `as_u64` gives back unchanged.
pub assume_specification[ <serde_json::Number as From<u64>>::from ](value: u64) -> (number:
    serde_json::Number)
    ensures
        number == number_from_u64(value),
        number_as_u64(number) == Some(value),
;

/// Moves a `serde_json::Value` into a [`Json`], variant by variant. An object's
/// members come in the order in which `serde_json::Map` hands them out.
#[verifier::external_body]
fn lift(value: serde_json::Value) -> Json {
    match value {
        serde_json::Value::Null => Json::Null,
        serde_json::Value::Bool(b) => Json::Bool(b),
        serde_json::Value::Number(n) => Json::Number(n),
        serde_json::Value::String(s) => Json::Text(s),
        serde_json::Value::Array(items) => Json::Array(items.into_iter().map(lift).collect()),
        serde_json::Value::Object(fields) => Json::Object(
            fields.into_iter().map(|(k, v)| (k, lift(v))).collect(),
        ),
    }
}

/// Copies a [`Json`] into a `serde_json::Value`, variant by variant. Members are
/// inserted in order, so of two members with one name the later one stays.
#[verifier::external_body]
fn lower(tree: &Json) -> serde_json::Value {
    match tree {
        Json::Null => serde_json::Value::Null,
        Json::Bool(b) => serde_json::Value::Bool(*b),
        Json::Number(n) => serde_json::Value::Number(n.clone()),
        Json::Text(s) => serde_json::Value::String(s.clone()),
        Json::Array(items) => serde_json::Value::Array(items.iter().map(lower).collect()),
        Json::Object(fields) => serde_json::Value::Object(
            fields.iter().map(|(k, v)| (k.clone(), lower(v))).collect(),
        ),
    }
}

/// `serde_json::from_str` at `serde_json::Value`: reads `text` as one JSON
/// document. Whether it succeeds, and the tree it gives, depend on `text` alone.
#[verifier::external_body]
fn parse_text(text: &str) -> (parsed: Result<Json, serde_json::Error>)
    ensures
        parsed is Ok <==> parsed_text(text@) is Some,
        parsed matches Ok(tree) ==> parsed_text(text@) == Some(tree@),
{
    serde_json::from_str::<serde_json::Value>(text).map(lift)
}

/// `Display` of `serde_json::Value`: writes the tree as compact JSON text, which
/// depends on the tree alone.
#[verifier::external_body]
fn render_text(tree: &Json) -> (text: String)
    ensures
        text@ == rendered_text(tree@),
{
    lower(tree).to_string()
}

impl Json {
    /// Reads `text` as one JSON document.
    pub fn parse(text: &str) -> (parsed: Result<Json, serde_json::Error>)
        ensures
            parsed is Ok <==> parsed_text(text@) is Some,
            parsed matches Ok(tree) ==> parsed_text(text@) == Some(tree@),
    {
        parse_text(text)
    }

    /// Writes the tree as compact JSON text.
    pub fn render(&self) -> (text: String)
        ensures
            text@ == rendered_text(self@),
    {
        render_text(self)
    }
}

} // verus!
