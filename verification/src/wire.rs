//! JSON text: values read from it and written to it, one message to a line.

use crate::json::{number_model, Json, JsonModel};
use crate::text::{is_white, trimmed, trimmed_end, trimmed_start};
use vstd::prelude::*;
use vstd::string::*;

verus! {

/// A JSON value as `serde_json` keeps it.
#[verifier::external_type_specification]
#[verifier::external_body]
pub struct ExValue(serde_json::Value);

/// The members of a JSON object as `serde_json` keeps them.
#[verifier::external_type_specification]
#[verifier::external_body]
#[verifier::reject_recursive_types(K)]
#[verifier::reject_recursive_types(V)]
pub struct ExMembers<K, V>(serde_json::Map<K, V>);

/// Why `serde_json` could not read a text.
#[verifier::external_type_specification]
#[verifier::external_body]
pub struct ExJsonError(serde_json::Error);

/// What a `serde_json::Value` holds.
pub uninterp spec fn contents(v: serde_json::Value) -> JsonModel;

/// What a `serde_json::Map` holds.
pub uninterp spec fn map_members(m: serde_json::Map<String, serde_json::Value>) -> Map<
    Seq<char>,
    JsonModel,
>;

/// The value that `serde_json` reads from a text, if the text is one JSON value.
pub uninterp spec fn parsed(text: Seq<char>) -> Option<JsonModel>;

/// The compact text that `serde_json` writes for a value.
pub uninterp spec fn printed(m: JsonModel) -> Seq<char>;

/// One level of a value: a scalar, or a collection of values not looked into.
pub(crate) enum Layer {
    Null,
    Bool(bool),
    Number(serde_json::Number),
    Str(String),
    Array(Vec<serde_json::Value>),
    Object(serde_json::Map<String, serde_json::Value>),
}

/// What the items of a list hold.
pub(crate) open spec fn items_contents(items: Seq<serde_json::Value>) -> Seq<JsonModel> {
    Seq::new(items.len(), |i: int| contents(items[i]))
}

/// What a list of members holds; a later member replaces an earlier one of the
/// same key.
pub(crate) open spec fn members_contents(members: Seq<(String, serde_json::Value)>) -> Map<
    Seq<char>,
    JsonModel,
>
    decreases members.len(),
{
    if members.len() == 0 {
        Map::empty()
    } else {
        members_contents(members.drop_last()).insert(
            members.last().0@,
            contents(members.last().1),
        )
    }
}

/// What one level, with the values below it, holds.
pub(crate) open spec fn layer_contents(layer: Layer) -> JsonModel {
    match layer {
        Layer::Null => JsonModel::Null,
        Layer::Bool(b) => JsonModel::Bool(b),
        Layer::Number(n) => number_model(n),
        Layer::Str(s) => JsonModel::Str(s@),
        Layer::Array(items) => JsonModel::Array(items_contents(items@)),
        Layer::Object(members) => JsonModel::Object(map_members(members)),
    }
}

/// Whether a value holds nothing but what text keeps exactly: no number but
/// whole ones, and no more than `depth` levels of lists and objects.
pub open spec fn plain(m: JsonModel, depth: nat) -> bool
    decreases depth,
{
    match m {
        JsonModel::Fraction(_) => false,
        JsonModel::Array(a) => depth > 0 && forall|i: int|
            0 <= i < a.len() ==> #[trigger] plain(a[i], (depth - 1) as nat),
        JsonModel::Object(o) => depth > 0 && forall|k: Seq<char>|
            o.dom().contains(k) ==> #[trigger] plain(o[k], (depth - 1) as nat),
        _ => true,
    }
}

/// How many levels of lists and objects text is read back through.
pub const READABLE_DEPTH: u64 = 127;

/// The line that carries a message: its text and a line feed.
pub open spec fn framed(m: JsonModel) -> Seq<char> {
    printed(m).push('\n')
}

/// Whether a text is exactly one line: a line feed at its end and nowhere else.
pub open spec fn one_line(text: Seq<char>) -> bool {
    &&& text.len() > 0
    &&& text.last() == '\n'
    &&& !text.drop_last().contains('\n')
}

/// Whether a line carries a message: it is the message's text and a line feed,
/// the text is what is left of the line when white space is trimmed off, and a
/// plain message is read back from it.
pub open spec fn carries(line: Seq<char>, m: JsonModel) -> bool {
    &&& line == framed(m)
    &&& one_line(line)
    &&& m is Object ==> trimmed(line) == printed(m) && printed(m).len() > 0
    &&& plain(m, READABLE_DEPTH as nat) ==> parsed(printed(m)) == Some(m)
}

/// `serde_json::from_str` into a `serde_json::Value`. What it reads depends on
/// the text alone.
#[verifier::external_body]
fn parse_value(text: &str) -> (r: Result<serde_json::Value, serde_json::Error>)
    ensures
        r is Ok <==> parsed(text@) is Some,
        r is Ok ==> parsed(text@) == Some(contents(r->Ok_0)),
{
    serde_json::from_str(text)
}

/// `serde_json::Value`'s `Display`: the compact text of the value. It holds no
/// line feed, since strings are written with control characters escaped; that of
/// an object stands in braces; and `from_str` reads a plain value back from it.
#[verifier::external_body]
fn print_value(value: &serde_json::Value) -> (r: String)
    ensures
        r@ == printed(contents(*value)),
        !r@.contains('\n'),
        contents(*value) is Object ==> r@.len() > 0 && r@[0] == '{' && r@.last() == '}',
        plain(contents(*value), READABLE_DEPTH as nat) ==> parsed(r@) == Some(contents(*value)),
{
    value.to_string()
}

/// The variants of `serde_json::Value`, told apart.
#[verifier::external_body]
fn split_value(value: serde_json::Value) -> (r: Layer)
    ensures
        contents(value) == layer_contents(r),
{
    match value {
        serde_json::Value::Null => Layer::Null,
        serde_json::Value::Bool(b) => Layer::Bool(b),
        serde_json::Value::Number(n) => Layer::Number(n),
        serde_json::Value::String(s) => Layer::Str(s),
        serde_json::Value::Array(items) => Layer::Array(items),
        serde_json::Value::Object(members) => Layer::Object(members),
    }
}

/// The variants of `serde_json::Value`, put together.
#[verifier::external_body]
fn join_value(layer: Layer) -> (r: serde_json::Value)
    ensures
        contents(r) == layer_contents(layer),
{
    match layer {
        Layer::Null => serde_json::Value::Null,
        Layer::Bool(b) => serde_json::Value::Bool(b),
        Layer::Number(n) => serde_json::Value::Number(n),
        Layer::Str(s) => serde_json::Value::String(s),
        Layer::Array(items) => serde_json::Value::Array(items),
        Layer::Object(members) => serde_json::Value::Object(members),
    }
}

/// `serde_json::Map::new`: no members.
#[verifier::external_body]
fn no_members() -> (r: serde_json::Map<String, serde_json::Value>)
    ensures
        map_members(r) == members_contents(Seq::empty()),
{
    serde_json::Map::new()
}

/// `serde_json::Map::insert`: the member called `key` has that value, whether
/// there was one or not; the others stay as they are.
#[verifier::external_body]
fn set_member(
    members: &mut serde_json::Map<String, serde_json::Value>,
    key: String,
    value: serde_json::Value,
)
    ensures
        map_members(*final(members)) == map_members(*old(members)).insert(key@, contents(value)),
{
    members.insert(key, value);
}

/// `serde_json::Map::into_iter`: the members, each once. Their keys are all
/// different.
#[verifier::external_body]
fn member_list(members: serde_json::Map<String, serde_json::Value>) -> (r: Vec<
    (String, serde_json::Value),
>)
    ensures
        members_contents(r@) == map_members(members),
        forall|i: int, j: int|
            0 <= i < j < r@.len() ==> #[trigger] r@[i].0@ != #[trigger] r@[j].0@,
{
    members.into_iter().collect()
}

/// Text without white space at either end is what is left of its line.
proof fn lemma_trimmed_line(text: Seq<char>)
    requires
        text.len() > 0,
        !is_white(text[0]),
        !is_white(text.last()),
    ensures
        trimmed(text.push('\n')) == text,
{
    let line = text.push('\n');
    assert(line[0] == text[0]);
    assert(line.drop_last() =~= text);
    assert(trimmed_start(line) == line);
    assert(trimmed_end(line) == trimmed_end(text));
}

/// In a list of members with different keys every member counts.
proof fn lemma_member_counts(members: Seq<(String, serde_json::Value)>, k: int)
    requires
        forall|i: int, j: int|
            0 <= i < j < members.len() ==> #[trigger] members[i].0@ != #[trigger] members[j].0@,
        0 <= k < members.len(),
    ensures
        members_contents(members).dom().contains(members[k].0@),
        members_contents(members)[members[k].0@] == contents(members[k].1),
        members_contents(members).dom().finite(),
    decreases members.len(),
{
    lemma_members_finite(members);
    if k < members.len() - 1 {
        lemma_member_counts(members.drop_last(), k);
        assert(members[k].0@ != members.last().0@);
    }
}

proof fn lemma_members_finite(members: Seq<(String, serde_json::Value)>)
    ensures
        members_contents(members).dom().finite(),
    decreases members.len(),
{
    if members.len() > 0 {
        lemma_members_finite(members.drop_last());
    }
}

impl Json {
    /// The value as plain data.
    pub fn from_value(value: serde_json::Value) -> (r: Json)
        ensures
            r@ == contents(value),
        decreases contents(value),
    {
        let ghost whole = contents(value);
        match split_value(value) {
            Layer::Null => Json::Null,
            Layer::Bool(b) => Json::Bool(b),
            Layer::Number(n) => Json::Number(n),
            Layer::Str(s) => Json::Str(s),
            Layer::Array(items) => {
                let ghost all = items@;
                let mut read: Vec<Json> = Vec::new();
                for item in it: items
                    invariant
                        whole == contents(value),
                        whole == JsonModel::Array(items_contents(all)),
                        it.seq() == all,
                        read@.len() == it.index(),
                        forall|k: int|
                            0 <= k < read@.len() ==> read@[k].model() == contents(all[k]),
                {
                    let ghost k = it.index();
                    assert(item == all[k]);
                    assert(decreases_to!(whole => whole->Array_0));
                    assert(decreases_to!(whole->Array_0 => whole->Array_0[k]));
                    read.push(Json::from_value(item));
                }
                assert(Json::items_model(read@) =~= items_contents(all));
                Json::Array(read)
            },
            Layer::Object(members) => {
                let members = member_list(members);
                let ghost all = members@;
                let mut read: Vec<(String, Json)> = Vec::new();
                for member in it: members
                    invariant
                        whole == contents(value),
                        whole == JsonModel::Object(members_contents(all)),
                        it.seq() == all,
                        read@.len() == it.index(),
                        forall|i: int, j: int|
                            0 <= i < j < all.len() ==> #[trigger] all[i].0@ != #[trigger] all[j].0@,
                        Json::members_model(read@) == members_contents(all.take(it.index())),
                {
                    let ghost k = it.index();
                    let ghost before = read@;
                    proof {
                        lemma_member_counts(all, k);
                    }
                    assert(decreases_to!(whole => whole->Object_0));
                    assert(decreases_to!(whole->Object_0 => whole->Object_0[all[k].0@]));
                    let (key, item) = member;
                    read.push((key, Json::from_value(item)));
                    assert(read@.drop_last() =~= before);
                    assert(all.take(k + 1).drop_last() =~= all.take(k));
                }
                assert(all.take(all.len() as int) =~= all);
                Json::Object(read)
            },
        }
    }

    /// The value as `serde_json` keeps it.
    pub fn into_value(self) -> (r: serde_json::Value)
        ensures
            contents(r) == self@,
        decreases self,
    {
        let ghost whole = self;
        match self {
            Json::Null => join_value(Layer::Null),
            Json::Bool(b) => join_value(Layer::Bool(b)),
            Json::Number(n) => join_value(Layer::Number(n)),
            Json::Str(s) => join_value(Layer::Str(s)),
            Json::Array(items) => {
                let ghost all = items@;
                let mut built: Vec<serde_json::Value> = Vec::new();
                for item in it: items
                    invariant
                        whole == self,
                        whole is Array,
                        whole->Array_0@ == all,
                        it.seq() == all,
                        built@.len() == it.index(),
                        forall|k: int|
                            0 <= k < built@.len() ==> contents(built@[k]) == all[k].model(),
                {
                    let ghost k = it.index();
                    assert(decreases_to!(whole => whole->Array_0));
                    assert(decreases_to!(whole->Array_0 => whole->Array_0[k]));
                    built.push(item.into_value());
                }
                assert(items_contents(built@) =~= Json::items_model(all));
                join_value(Layer::Array(built))
            },
            Json::Object(members) => {
                let ghost all = members@;
                let mut built = no_members();
                assert(all.take(0) =~= Seq::empty());
                for member in it: members
                    invariant
                        whole == self,
                        whole is Object,
                        whole->Object_0@ == all,
                        it.seq() == all,
                        map_members(built) == Json::members_model(all.take(it.index())),
                {
                    let ghost k = it.index();
                    assert(decreases_to!(whole => whole->Object_0));
                    assert(decreases_to!(whole->Object_0 => whole->Object_0[k]));
                    assert(decreases_to!(whole->Object_0[k] => whole->Object_0[k].1));
                    let (key, item) = member;
                    set_member(&mut built, key, item.into_value());
                    assert(all.take(k + 1).drop_last() =~= all.take(k));
                }
                assert(all.take(all.len() as int) =~= all);
                join_value(Layer::Object(built))
            },
        }
    }

    /// Reads a value from its text.
    pub fn from_text(text: &str) -> (r: Option<Json>)
        ensures
            r is Some <==> parsed(text@) is Some,
            r is Some ==> parsed(text@) == Some(r->Some_0@),
    {
        match parse_value(text) {
            Ok(value) => Some(Json::from_value(value)),
            Err(_) => None,
        }
    }

    /// The line that carries the value as a message.
    pub fn into_line(self) -> (r: String)
        ensures
            carries(r@, self@),
    {
        let value = self.into_value();
        let mut line = print_value(&value);
        proof {
            reveal_strlit("\n");
        }
        line.append("\n");
        assert(line@ =~= framed(self@));
        assert(line@.drop_last() =~= printed(self@));
        proof {
            if self@ is Object {
                lemma_trimmed_line(printed(self@));
            }
        }
        line
    }
}

} // verus!
