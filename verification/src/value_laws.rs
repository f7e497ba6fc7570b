//! What texts, numbers and values are, each told by what must hold of it rather than
//! by how it is found.

use crate::decode::DecodeError;
use crate::json::{number_display, quoted, whole, Json, JsonModel};
use crate::sending_laws::{holds, is_line_of, lacks};
use crate::text::{decimal, digit, is_white, signed_decimal, trimmed, trimmed_end, trimmed_start};
use crate::wire::{plain, printed, READABLE_DEPTH};
use vstd::prelude::*;

verus! {

// ------------------------------------------------------------------------ text

/// Of the characters of ASCII, white space is the blank, the tabs, the line feed, the
/// form feed and the carriage return.
pub proof fn law_white_space_of_ascii(c: char)
    requires
        (c as u32) < 128,
    ensures
        is_white(c) <==> c == ' ' || c == '\t' || c == '\n' || c as u32 == 11 || c as u32 == 12
            || c == '\r',
{
}

/// Whether a text is what stands between the white space at either end of another:
/// it begins at `at`, nothing but white space is before it or behind it, and it does
/// not itself begin or end with white space.
pub open spec fn is_core(text: Seq<char>, core: Seq<char>, at: int) -> bool {
    &&& 0 <= at
    &&& at + core.len() <= text.len()
    &&& text.subrange(at, at + core.len()) == core
    &&& forall|i: int| 0 <= i < at ==> is_white(#[trigger] text[i])
    &&& forall|i: int| at + core.len() <= i < text.len() ==> is_white(#[trigger] text[i])
    &&& core.len() > 0 ==> !is_white(core[0]) && !is_white(core[core.len() - 1])
}

proof fn lemma_start(s: Seq<char>) -> (at: int)
    ensures
        0 <= at <= s.len(),
        trimmed_start(s) == s.skip(at),
        forall|i: int| 0 <= i < at ==> is_white(#[trigger] s[i]),
        at < s.len() ==> !is_white(s[at]),
    decreases s.len(),
{
    if s.len() > 0 && is_white(s[0]) {
        let rest = s.drop_first();
        let inner = lemma_start(rest);
        assert(rest.skip(inner) =~= s.skip(inner + 1));
        assert forall|i: int| 0 <= i < inner + 1 implies is_white(#[trigger] s[i]) by {
            if i > 0 {
                assert(rest[i - 1] == s[i]);
            }
        }
        if inner < rest.len() {
            assert(rest[inner] == s[inner + 1]);
        }
        inner + 1
    } else {
        assert(s.skip(0) =~= s);
        0
    }
}

proof fn lemma_end(s: Seq<char>) -> (end: int)
    ensures
        0 <= end <= s.len(),
        trimmed_end(s) == s.take(end),
        forall|i: int| end <= i < s.len() ==> is_white(#[trigger] s[i]),
        end > 0 ==> !is_white(s[end - 1]),
    decreases s.len(),
{
    if s.len() > 0 && is_white(s.last()) {
        let rest = s.drop_last();
        let inner = lemma_end(rest);
        assert(rest.take(inner) =~= s.take(inner));
        assert forall|i: int| inner <= i < s.len() implies is_white(#[trigger] s[i]) by {
            if i < rest.len() {
                assert(rest[i] == s[i]);
            }
        }
        if inner > 0 {
            assert(rest[inner - 1] == s[inner - 1]);
        }
        inner
    } else {
        assert(s.take(s.len() as int) =~= s);
        s.len() as int
    }
}

/// A trimmed text is what stands between the white space at either end.
pub proof fn law_trimmed_is_the_core(text: Seq<char>)
    ensures
        exists|at: int| is_core(text, trimmed(text), at),
{
    let at = lemma_start(text);
    let t = text.skip(at);
    let end = lemma_end(t);
    let core = t.take(end);
    assert(text.subrange(at, at + core.len()) =~= core);
    assert forall|i: int| at + core.len() <= i < text.len() implies is_white(
        #[trigger] text[i],
    ) by {
        assert(t[i - at] == text[i]);
    }
    if core.len() > 0 {
        assert(core[0] == t[0] && t[0] == text[at]);
        assert(core[core.len() - 1] == t[end - 1]);
    }
    assert(trimmed(text) == core);
    assert(is_core(text, trimmed(text), at));
}

/// There is one such text: whatever stands between the white space is the trimmed
/// text.
pub proof fn law_core_is_the_trimmed(text: Seq<char>, core: Seq<char>, at: int)
    requires
        is_core(text, core, at),
    ensures
        trimmed(text) == core,
{
    law_trimmed_is_the_core(text);
    let other = trimmed(text);
    let from = choose|from: int| is_core(text, other, from);
    if core.len() > 0 {
        assert(text[at] == text.subrange(at, at + core.len())[0]);
        assert(text[at + core.len() - 1] == text.subrange(at, at + core.len())[core.len() - 1]);
    }
    if other.len() > 0 {
        assert(text[from] == text.subrange(from, from + other.len())[0]);
        assert(text[from + other.len() - 1] == text.subrange(from, from + other.len())[other.len()
            - 1]);
    }
    if core.len() > 0 && other.len() > 0 {
        assert(at == from);
        assert(core.len() == other.len());
    } else if core.len() > 0 {
        assert(is_white(text[at]));
    } else if other.len() > 0 {
        assert(is_white(text[from]));
    }
    assert(core =~= other);
}

/// The number that decimal digits stand for.
pub open spec fn number_of(s: Seq<char>) -> int
    decreases s.len(),
{
    if s.len() == 0 {
        0
    } else {
        10 * number_of(s.drop_last()) + (s.last() as u32 - '0' as u32)
    }
}

/// Whether a text is a number in decimal digits, with no zero in front.
pub open spec fn is_numeral(s: Seq<char>) -> bool {
    &&& s.len() > 0
    &&& forall|i: int| 0 <= i < s.len() ==> '0' <= #[trigger] s[i] <= '9'
    &&& s.len() > 1 ==> s[0] != '0'
}

/// A number is written in digits that stand for it.
pub proof fn law_digits_stand_for_the_number(n: nat)
    ensures
        is_numeral(decimal(n)),
        number_of(decimal(n)) == n,
    decreases n,
{
    if n < 10 {
        reveal_with_fuel(number_of, 2);
        assert(seq![digit(n)].drop_last() =~= Seq::empty());
    } else {
        law_digits_stand_for_the_number(n / 10);
        let front = decimal(n / 10);
        assert(front.push(digit(n % 10)).drop_last() =~= front);
        if front[0] == '0' {
            assert(front.len() == 1);
            reveal_with_fuel(number_of, 2);
            assert(front.drop_last() =~= Seq::empty());
        }
    }
}

/// A number below zero is written with a sign in front of its size, any other without.
pub proof fn law_sign_is_written(n: int)
    ensures
        n >= 0 ==> is_numeral(signed_decimal(n)) && number_of(signed_decimal(n)) == n,
        n < 0 ==> signed_decimal(n).len() > 1 && signed_decimal(n)[0] == '-' && is_numeral(
            signed_decimal(n).skip(1),
        ) && number_of(signed_decimal(n).skip(1)) == -n,
{
    if n < 0 {
        law_digits_stand_for_the_number((-n) as nat);
        assert(signed_decimal(n).skip(1) =~= decimal((-n) as nat));
    } else {
        law_digits_stand_for_the_number(n as nat);
    }
}

// ---------------------------------------------------------------------- values

/// Whether a member is the last of its name.
pub open spec fn is_last_of(members: Seq<(String, Json)>, at: int, key: Seq<char>) -> bool {
    &&& 0 <= at < members.len()
    &&& members[at].0@ == key
    &&& forall|i: int| at < i < members.len() ==> (#[trigger] members[i]).0@ != key
}

proof fn lemma_members(members: Seq<(String, Json)>, key: Seq<char>)
    ensures
        Json::members_model(members).dom().contains(key) <==> exists|i: int|
            0 <= i < members.len() && (#[trigger] members[i]).0@ == key,
        forall|at: int| #[trigger]
            is_last_of(members, at, key) ==> Json::members_model(members)[key]
                == members[at].1@,
        Json::members_model(members).dom().contains(key) ==> exists|at: int|
            is_last_of(members, at, key),
    decreases members.len(),
{
    if members.len() > 0 {
        let front = members.drop_last();
        let end = members.len() - 1;
        lemma_members(front, key);
        if members[end].0@ == key {
            assert(is_last_of(members, end, key));
            assert forall|at: int| #[trigger] is_last_of(members, at, key) implies at == end by {
                if at < end {
                    assert(members[end].0@ != key);
                }
            }
        } else {
            assert forall|at: int| #[trigger] is_last_of(members, at, key) implies is_last_of(
                front,
                at,
                key,
            ) && front[at] == members[at] by {
                assert forall|i: int| at < i < front.len() implies (#[trigger] front[i]).0@
                    != key by {
                    assert(front[i] == members[i]);
                }
            }
            if Json::members_model(members).dom().contains(key) {
                let at = choose|at: int| is_last_of(front, at, key);
                assert forall|i: int| at < i < members.len() implies (#[trigger] members[i]).0@
                    != key by {
                    if i < end {
                        assert(front[i] == members[i]);
                    }
                }
                assert(front[at] == members[at]);
                assert(is_last_of(members, at, key));
            }
            if exists|i: int| 0 <= i < members.len() && (#[trigger] members[i]).0@ == key {
                let i = choose|i: int| 0 <= i < members.len() && (#[trigger] members[i]).0@ == key;
                assert(front[i].0@ == key);
            }
        }
    }
}

/// What a value is: a list has its items in order, and an object has for each name
/// the last of its members of that name.
pub proof fn law_value_is_its_parts(j: Json)
    ensures
        match j {
            Json::Null => j@ is Null,
            Json::Bool(b) => j@ == JsonModel::Bool(b),
            Json::Number(n) => match whole(n) {
                Some(i) => j@ == JsonModel::Integer(i),
                None => j@ == JsonModel::Fraction(n),
            },
            Json::Str(s) => j@ == JsonModel::Str(s@),
            Json::Array(items) => j@ matches JsonModel::Array(a) && a.len() == items@.len()
                && forall|i: int| 0 <= i < a.len() ==> #[trigger] a[i] == items@[i]@,
            Json::Object(members) => forall|key: Seq<char>|
                (#[trigger] lacks(j@, key) <==> forall|i: int|
                    0 <= i < members@.len() ==> (#[trigger] members@[i]).0@ != key) && forall|at:
                    int| #[trigger]
                    is_last_of(members@, at, key) ==> holds(j@, key, members@[at].1@),
        },
{
    match j {
        Json::Object(members) => {
            assert forall|key: Seq<char>|
                (#[trigger] lacks(j@, key) <==> forall|i: int|
                    0 <= i < members@.len() ==> (#[trigger] members@[i]).0@ != key) && forall|at:
                    int| #[trigger]
                    is_last_of(members@, at, key) ==> holds(j@, key, members@[at].1@) by {
                lemma_members(members@, key);
            }
        },
        _ => {},
    }
}

/// What a value gives for a name is the member of that name.
pub proof fn law_member_is_got(j: &Json, key: &str, r: Option<&Json>)
    requires
        call_ensures(Json::get, (j, key), r),
    ensures
        match r {
            Some(v) => holds(j@, key@, v@),
            None => lacks(j@, key@) || !(j@ is Object),
        },
{
}

/// A member that is set is there, in place of one of the same name; every other is as
/// it was.
pub proof fn law_member_is_set(j: Json, key: &str, value: Json, r: Json)
    requires
        call_ensures(Json::with, (j, key, value), r),
    ensures
        holds(r@, key@, value@),
        forall|other: Seq<char>, v: JsonModel|
            other != key@ && j@ is Object ==> (#[trigger] holds(r@, other, v) <==> holds(
                j@,
                other,
                v,
            )),
        forall|other: Seq<char>|
            other != key@ && !(j@ is Object) ==> #[trigger] lacks(r@, other),
{
}

/// Each value that is made is of the kind asked for, with what it was made from.
pub proof fn law_values_are_made(
    s: &str,
    n: u64,
    i: i64,
    text: Json,
    unsigned: Json,
    signed: Json,
    object: Json,
)
    requires
        call_ensures(Json::text, (s,), text),
        call_ensures(Json::unsigned, (n,), unsigned),
        call_ensures(Json::signed, (i,), signed),
        call_ensures(Json::object, (), object),
    ensures
        text@ == JsonModel::Str(s@),
        unsigned@ == JsonModel::Integer(n as int),
        signed@ == JsonModel::Integer(i as int),
        object@ is Object,
        forall|key: Seq<char>| #[trigger] lacks(object@, key),
{
}

/// A value gives its text or its number where it is one that fits, and only there.
pub proof fn law_values_are_taken(
    j: &Json,
    s: Option<&str>,
    n: Option<u64>,
    i: Option<i64>,
    integer: bool,
    null: bool,
)
    requires
        call_ensures(Json::as_str, (j,), s),
        call_ensures(Json::as_u64, (j,), n),
        call_ensures(Json::as_i64, (j,), i),
        call_ensures(Json::is_integer, (j,), integer),
        call_ensures(Json::is_null, (j,), null),
    ensures
        match s {
            Some(t) => j@ == JsonModel::Str(t@),
            None => !(j@ is Str),
        },
        match n {
            Some(k) => j@ == JsonModel::Integer(k as int),
            None => j@ matches JsonModel::Integer(k) ==> k < 0 || k > u64::MAX,
        },
        match i {
            Some(k) => j@ == JsonModel::Integer(k as int),
            None => j@ matches JsonModel::Integer(k) ==> k < i64::MIN || k > i64::MAX,
        },
        integer <==> j@ is Integer,
        null <==> j@ is Null,
{
}

/// Whether a text is how an unexpected value is spoken of.
pub open spec fn speaks_of(text: Seq<char>, m: JsonModel) -> bool {
    match m {
        JsonModel::Null => text == "null"@,
        JsonModel::Bool(true) => text == "boolean `true`"@,
        JsonModel::Bool(false) => text == "boolean `false`"@,
        JsonModel::Integer(i) => text == "integer `"@ + signed_decimal(i) + "`"@,
        JsonModel::Fraction(n) => text == "floating point `"@ + number_display(n) + "`"@,
        JsonModel::Str(s) => text == "string "@ + quoted(s),
        JsonModel::Array(_) => text == "sequence"@,
        JsonModel::Object(_) => text == "map"@,
    }
}

/// A value is spoken of by its kind, and by what it holds where that is short.
pub proof fn law_value_is_spoken_of(j: &Json, r: String)
    requires
        call_ensures(Json::found, (j,), r),
    ensures
        speaks_of(r@, j@),
{
}

/// What is said of each error in reading.
pub proof fn law_reading_error_is_told(e: &DecodeError, r: String)
    requires
        call_ensures(DecodeError::describe, (e,), r),
    ensures
        match e {
            DecodeError::MissingField { name } => r@ == "missing field `"@ + name@ + "`"@,
            DecodeError::InvalidType { found, expected } => r@ == "invalid type: "@ + found@
                + ", expected "@ + expected@,
            DecodeError::InvalidValue { found, expected } => r@ == "invalid value: "@ + found@
                + ", expected "@ + expected@,
            DecodeError::InvalidLength { length, expected } => r@ == "invalid length "@ + decimal(
                *length as nat,
            ) + ", expected "@ + expected@,
        },
{
}

// ---------------------------------------------------------------------- the wire

/// A value is written on one line, as its own text.
pub proof fn law_value_is_written(j: Json, r: String)
    requires
        call_ensures(Json::into_line, (j,), r),
    ensures
        is_line_of(r@, j@),
{
    assert(r@.drop_last() =~= printed(j@));
}

/// What was written of an object is read back as that object, by way of the text
/// without the white space round it, if nothing in it is nested too deep or no whole
/// number.
pub proof fn law_written_value_is_read_back(
    j: Json,
    line: String,
    text: &str,
    r: Option<Json>,
)
    requires
        call_ensures(Json::into_line, (j,), line),
        call_ensures(Json::from_text, (text,), r),
        text@ == trimmed(line@),
        j@ is Object,
        plain(j@, READABLE_DEPTH as nat),
    ensures
        r matches Some(k) && k@ == j@,
{
}

/// Converting a value and converting it back gives the same value.
pub proof fn law_conversion_keeps_the_value(j: Json, value: serde_json::Value, r: Json)
    requires
        call_ensures(Json::into_value, (j,), value),
        call_ensures(Json::from_value, (value,), r),
    ensures
        r@ == j@,
{
}

} // verus!
