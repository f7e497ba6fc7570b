//! JSON values as plain data.

use crate::text::{join3, same_text, signed_decimal};
use vstd::prelude::*;

verus! {

/// A JSON number, as `serde_json` keeps it.
#[verifier::external_type_specification]
#[verifier::external_body]
pub struct ExNumber(serde_json::Number);

/// The whole number that a JSON number is, where it is one.
pub uninterp spec fn whole(n: serde_json::Number) -> Option<int>;

/// The decimal text that a JSON number is written as.
pub uninterp spec fn number_display(n: serde_json::Number) -> Seq<char>;

/// Text between quotes, with what needs it escaped, as `serde` shows it in errors.
pub uninterp spec fn quoted(s: Seq<char>) -> Seq<char>;

/// A JSON value.
///
/// The members of an object stand in a list; where a key occurs twice the later
/// member counts.
#[derive(Debug, PartialEq)]
pub enum Json {
    Null,
    Bool(bool),
    Number(serde_json::Number),
    Str(String),
    Array(Vec<Json>),
    Object(Vec<(String, Json)>),
}

/// What a JSON value means: whole numbers by their value, objects as maps.
pub enum JsonModel {
    Null,
    Bool(bool),
    Integer(int),
    Fraction(serde_json::Number),
    Str(Seq<char>),
    Array(Seq<JsonModel>),
    Object(Map<Seq<char>, JsonModel>),
}

/// What a JSON number means.
pub open spec fn number_model(n: serde_json::Number) -> JsonModel {
    match whole(n) {
        Some(i) => JsonModel::Integer(i),
        None => JsonModel::Fraction(n),
    }
}

/// The member of an object called `key`, if the value is an object and has one.
pub open spec fn lookup(m: JsonModel, key: Seq<char>) -> Option<JsonModel> {
    match m {
        JsonModel::Object(o) => if o.dom().contains(key) {
            Some(o[key])
        } else {
            None
        },
        _ => None,
    }
}

/// The whole number from 0 to `u64::MAX` that a value is.
pub open spec fn as_u64_model(m: JsonModel) -> Option<u64> {
    match m {
        JsonModel::Integer(i) => if 0 <= i <= u64::MAX {
            Some(i as u64)
        } else {
            None
        },
        _ => None,
    }
}

/// The whole number in the range of `i64` that a value is.
pub open spec fn as_i64_model(m: JsonModel) -> Option<i64> {
    match m {
        JsonModel::Integer(i) => if i64::MIN <= i <= i64::MAX {
            Some(i as i64)
        } else {
            None
        },
        _ => None,
    }
}

/// The text that a value is.
pub open spec fn as_str_model(m: JsonModel) -> Option<Seq<char>> {
    match m {
        JsonModel::Str(s) => Some(s),
        _ => None,
    }
}

/// `serde_json::Number::as_u64`: the number, where it is whole and fits.
#[verifier::external_body]
fn number_as_u64(n: &serde_json::Number) -> (r: Option<u64>)
    ensures
        r == as_u64_model(number_model(*n)),
{
    n.as_u64()
}

/// `serde_json::Number::as_i64`: the number, where it is whole and fits.
#[verifier::external_body]
fn number_as_i64(n: &serde_json::Number) -> (r: Option<i64>)
    ensures
        r == as_i64_model(number_model(*n)),
{
    n.as_i64()
}

/// `serde_json::Number::from` on a `u64`: a whole number of that value.
#[verifier::external_body]
fn number_from_u64(n: u64) -> (r: serde_json::Number)
    ensures
        whole(r) == Some(n as int),
{
    serde_json::Number::from(n)
}

/// `serde_json::Number::from` on an `i64`: a whole number of that value.
#[verifier::external_body]
fn number_from_i64(n: i64) -> (r: serde_json::Number)
    ensures
        whole(r) == Some(n as int),
{
    serde_json::Number::from(n)
}

/// `Clone` of `serde_json::Number`: the same number.
#[verifier::external_body]
fn number_clone(n: &serde_json::Number) -> (r: serde_json::Number)
    ensures
        r == *n,
{
    n.clone()
}

/// `serde_json::Number::is_f64`: whether the number is not kept as a whole one.
#[verifier::external_body]
fn number_is_fraction(n: &serde_json::Number) -> (r: bool)
    ensures
        r == (whole(*n) is None),
{
    n.is_f64()
}

/// `Display` of `serde_json::Number`: the number in decimal.
#[verifier::external_body]
fn number_text(n: &serde_json::Number) -> (r: String)
    ensures
        r@ == number_display(*n),
        whole(*n) matches Some(i) ==> r@ == signed_decimal(i),
{
    n.to_string()
}

/// `Display` of `serde::de::Unexpected::Str`: the word `string` and the text between
/// quotes.
#[verifier::external_body]
fn unexpected_text(s: &str) -> (r: String)
    ensures
        r@ == "string "@ + quoted(s@),
{
    serde::de::Unexpected::Str(s).to_string()
}

/// What is said of a value that stands where something else should: numbers,
/// truth values and text are shown, the rest is only named.
pub open spec fn found_text(m: JsonModel) -> Seq<char> {
    match m {
        JsonModel::Null => "null"@,
        JsonModel::Bool(b) => if b {
            "boolean `true`"@
        } else {
            "boolean `false`"@
        },
        JsonModel::Integer(i) => "integer `"@ + signed_decimal(i) + "`"@,
        JsonModel::Fraction(n) => "floating point `"@ + number_display(n) + "`"@,
        JsonModel::Str(s) => "string "@ + quoted(s),
        JsonModel::Array(_) => "sequence"@,
        JsonModel::Object(_) => "map"@,
    }
}

impl Json {
    /// The meaning of the value.
    pub open spec fn model(self) -> JsonModel
        decreases self,
    {
        match self {
            Json::Null => JsonModel::Null,
            Json::Bool(b) => JsonModel::Bool(b),
            Json::Number(n) => number_model(n),
            Json::Str(s) => JsonModel::Str(s@),
            Json::Array(items) => JsonModel::Array(Json::items_model(items@)),
            Json::Object(members) => JsonModel::Object(Json::members_model(members@)),
        }
    }

    /// The meanings of the items of a list.
    pub open spec fn items_model(items: Seq<Json>) -> Seq<JsonModel>
        decreases items,
    {
        Seq::new(
            items.len(),
            |i: int|
                if 0 <= i < items.len() {
                    items[i].model()
                } else {
                    JsonModel::Null
                },
        )
    }

    /// The map that a list of members stands for.
    pub open spec fn members_model(members: Seq<(String, Json)>) -> Map<Seq<char>, JsonModel>
        decreases members,
    {
        if members.len() == 0 {
            Map::empty()
        } else {
            Json::members_model(members.drop_last()).insert(
                members[members.len() - 1].0@,
                members[members.len() - 1].1.model(),
            )
        }
    }

    /// A JSON string.
    pub fn text(s: &str) -> (r: Json)
        ensures
            r@ == JsonModel::Str(s@),
    {
        Json::Str(s.to_owned())
    }

    /// A whole JSON number from 0 up.
    pub fn unsigned(n: u64) -> (r: Json)
        ensures
            r@ == JsonModel::Integer(n as int),
    {
        Json::Number(number_from_u64(n))
    }

    /// A whole JSON number.
    pub fn signed(n: i64) -> (r: Json)
        ensures
            r@ == JsonModel::Integer(n as int),
    {
        Json::Number(number_from_i64(n))
    }

    /// An object without members.
    pub fn object() -> (r: Json)
        ensures
            r@ == JsonModel::Object(Map::empty()),
    {
        Json::Object(Vec::new())
    }

    /// The object with one member more, or with another value for that member.
    /// A value that is no object becomes one.
    pub fn with(self, key: &str, value: Json) -> (r: Json)
        ensures
            r@ == (match self@ {
                JsonModel::Object(o) => JsonModel::Object(o.insert(key@, value@)),
                _ => JsonModel::Object(Map::empty().insert(key@, value@)),
            }),
    {
        let ghost whole = self;
        let mut members: Vec<(String, Json)> = match self {
            Json::Object(members) => members,
            _ => Vec::new(),
        };
        let ghost before = members@;
        assert(Json::members_model(before) == (match whole@ {
            JsonModel::Object(o) => o,
            _ => Map::empty(),
        }));
        members.push((key.to_owned(), value));
        assert(members@.drop_last() =~= before);
        Json::Object(members)
    }

    /// The member called `key`.
    pub fn get(&self, key: &str) -> (r: Option<&Json>)
        ensures
            r is Some <==> lookup(self@, key@) is Some,
            r is Some ==> lookup(self@, key@) == Some(r->Some_0@),
    {
        match self {
            Json::Object(members) => {
                let mut i: usize = members.len();
                assert(members@.take(i as int) =~= members@);
                while i > 0
                    invariant
                        i <= members@.len(),
                        lookup(self@, key@) == lookup(
                            JsonModel::Object(Json::members_model(members@.take(i as int))),
                            key@,
                        ),
                    decreases i,
                {
                    i = i - 1;
                    assert(members@.take(i + 1).drop_last() =~= members@.take(i as int));
                    if same_text(members[i].0.as_str(), key) {
                        return Some(&members[i].1);
                    }
                }
                None
            },
            _ => None,
        }
    }

    /// The text of a JSON string.
    pub fn as_str(&self) -> (r: Option<&str>)
        ensures
            r is Some <==> as_str_model(self@) is Some,
            r is Some ==> as_str_model(self@) == Some(r->Some_0@),
    {
        match self {
            Json::Str(s) => Some(s.as_str()),
            _ => None,
        }
    }

    /// The value of a whole number from 0 to `u64::MAX`.
    pub fn as_u64(&self) -> (r: Option<u64>)
        ensures
            r == as_u64_model(self@),
    {
        match self {
            Json::Number(n) => number_as_u64(n),
            _ => None,
        }
    }

    /// The value of a whole number in the range of `i64`.
    pub fn as_i64(&self) -> (r: Option<i64>)
        ensures
            r == as_i64_model(self@),
    {
        match self {
            Json::Number(n) => number_as_i64(n),
            _ => None,
        }
    }

    /// Whether this is a whole number.
    pub fn is_integer(&self) -> (r: bool)
        ensures
            r == (self@ is Integer),
    {
        match self {
            Json::Number(n) => !number_is_fraction(n),
            _ => false,
        }
    }

    /// What is said of the value where it stands in place of something else.
    pub fn found(&self) -> (r: String)
        ensures
            r@ == found_text(self@),
    {
        match self {
            Json::Null => "null".to_owned(),
            Json::Bool(b) => if *b {
                "boolean `true`".to_owned()
            } else {
                "boolean `false`".to_owned()
            },
            Json::Number(n) => {
                let text = number_text(n);
                if number_is_fraction(n) {
                    join3("floating point `", text.as_str(), "`")
                } else {
                    join3("integer `", text.as_str(), "`")
                }
            },
            Json::Str(s) => unexpected_text(s.as_str()),
            Json::Array(_) => "sequence".to_owned(),
            Json::Object(_) => "map".to_owned(),
        }
    }

    /// Whether this is `null`.
    pub fn is_null(&self) -> (r: bool)
        ensures
            r == (self@ == JsonModel::Null),
    {
        match self {
            Json::Null => true,
            _ => false,
        }
    }
}

impl View for Json {
    type V = JsonModel;

    open spec fn view(&self) -> JsonModel {
        self.model()
    }
}

impl Clone for Json {
    fn clone(&self) -> (r: Self)
        ensures
            r@ == self@,
        decreases self,
    {
        match self {
            Json::Null => Json::Null,
            Json::Bool(b) => Json::Bool(*b),
            Json::Number(n) => Json::Number(number_clone(n)),
            Json::Str(s) => Json::Str(s.clone()),
            Json::Array(items) => {
                let mut copy: Vec<Json> = Vec::new();
                let mut i: usize = 0;
                while i < items.len()
                    invariant
                        i <= items@.len(),
                        *self == Json::Array(*items),
                        copy@.len() == i,
                        forall|k: int| 0 <= k < i ==> copy@[k].model() == items@[k].model(),
                    decreases items.len() - i,
                {
                    assert(decreases_to!(*self => self->Array_0));
                    assert(decreases_to!(self->Array_0 => self->Array_0[i as int]));
                    copy.push(items[i].clone());
                    i = i + 1;
                }
                assert(Json::items_model(copy@) =~= Json::items_model(items@));
                Json::Array(copy)
            },
            Json::Object(members) => {
                let mut copy: Vec<(String, Json)> = Vec::new();
                let mut i: usize = 0;
                assert(members@.take(0) =~= copy@);
                while i < members.len()
                    invariant
                        i <= members@.len(),
                        *self == Json::Object(*members),
                        copy@.len() == i,
                        Json::members_model(copy@) == Json::members_model(
                            members@.take(i as int),
                        ),
                    decreases members.len() - i,
                {
                    let ghost before = copy@;
                    assert(decreases_to!(*self => self->Object_0));
                    assert(decreases_to!(self->Object_0 => self->Object_0[i as int]));
                    assert(decreases_to!(self->Object_0[i as int] => self->Object_0[i as int].1));
                    copy.push((members[i].0.clone(), members[i].1.clone()));
                    assert(copy@.drop_last() =~= before);
                    assert(members@.take(i + 1).drop_last() =~= members@.take(i as int));
                    i = i + 1;
                }
                assert(members@.take(i as int) =~= members@);
                Json::Object(copy)
            },
        }
    }
}

} // verus!
