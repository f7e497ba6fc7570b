//! Why a reply could not be read, reason by reason: each law is about the error that
//! a call gives, in terms of the reply.

use crate::decode::{only_member, DecodeError, DecodeErrorView};
use crate::json::{Json, JsonModel};
use crate::protocol::{
    Implementation, ImplementationView, InitializeResult, NewSessionResult, PromptResult,
    StopReason,
};
use crate::receiving_laws::part;
use crate::value_laws::speaks_of;
use vstd::prelude::*;

verus! {

/// Whether an error says that a field is missing.
pub open spec fn says_missing(e: DecodeErrorView, name: Seq<char>) -> bool {
    e matches DecodeErrorView::MissingField { name: n } && n == name
}

/// Whether an error says that something stands where something else should.
pub open spec fn says_other(e: DecodeErrorView, m: JsonModel, expected: Seq<char>) -> bool {
    e matches DecodeErrorView::InvalidType { found, expected: x } && speaks_of(found, m) && x
        == expected
}

/// Whether an error says that something is out of range or of the wrong shape.
pub open spec fn says_unfit(e: DecodeErrorView, m: JsonModel, expected: Seq<char>) -> bool {
    e matches DecodeErrorView::InvalidValue { found, expected: x } && speaks_of(found, m) && x
        == expected
}

/// Whether an error says that a list has a wrong number of items.
pub open spec fn says_length(e: DecodeErrorView, length: nat, expected: Seq<char>) -> bool {
    e matches DecodeErrorView::InvalidLength { length: n, expected: x } && n == length && x
        == expected
}

/// Whether a value is a list of that length.
pub open spec fn is_list(m: JsonModel, length: nat) -> bool {
    m matches JsonModel::Array(a) && a.len() == length
}

/// Whether a value is a list of more items than that.
pub open spec fn is_longer(m: JsonModel, length: nat) -> bool {
    m matches JsonModel::Array(a) && a.len() > length
}

/// Whether an optional part is there and no text.
pub open spec fn is_not_text(p: Option<JsonModel>) -> bool {
    p matches Some(m) && !(m is Str) && !(m is Null)
}

/// A reply that opens no session is refused for the first reason that there is.
pub proof fn law_session_is_refused(j: &Json, r: Result<NewSessionResult, DecodeError>)
    requires
        call_ensures(NewSessionResult::from_json, (j,), r),
    ensures
        r matches Err(e) ==> {
            let id = part(j@, 0, "sessionId"@);
            if !(j@ is Object) && !(j@ is Array) {
                says_other(e@, j@, "struct NewSessionResult"@)
            } else if is_list(j@, 0) {
                says_length(e@, 0, "struct NewSessionResult with 1 element"@)
            } else if id is None {
                says_missing(e@, "sessionId"@)
            } else if !(id->Some_0 is Str) {
                says_other(e@, id->Some_0, "a string"@)
            } else {
                &&& is_longer(j@, 1)
                &&& says_length(e@, j@->Array_0.len(), "fewer elements in array"@)
            }
        },
{
}

/// Whether an error says why a value names no reason.
pub open spec fn says_no_reason(e: DecodeErrorView, m: JsonModel) -> bool {
    match m {
        JsonModel::Str(_) => false,
        JsonModel::Object(o) => if exists|k: Seq<char>| #[trigger]
            o.dom().contains(k) && forall|l: Seq<char>| #[trigger] o.dom().contains(l) ==> l == k {
            exists|k: Seq<char>| #[trigger]
                o.dom().contains(k) && !(o[k] is Null) && says_other(e, o[k], "unit"@)
        } else {
            says_unfit(e, m, "map with a single key"@)
        },
        _ => says_other(e, m, "string or map"@),
    }
}

proof fn lemma_no_reason(m: JsonModel)
    ensures
        StopReason::read(m) matches Err(e) ==> says_no_reason(e, m),
{
    match m {
        JsonModel::Object(o) => {
            if exists|k: Seq<char>| #[trigger]
                o.dom().contains(k) && forall|l: Seq<char>| #[trigger]
                    o.dom().contains(l) ==> l == k {
                let k = choose|k: Seq<char>| #[trigger]
                    o.dom().contains(k) && forall|l: Seq<char>| #[trigger]
                        o.dom().contains(l) ==> l == k;
                assert(o.dom() =~= Set::empty().insert(k));
                assert(o.dom().contains(o.dom().choose()));
            } else {
                match only_member(o) {
                    Some((k, v)) => {
                        assert(o.dom().contains(k));
                        assert forall|l: Seq<char>| #[trigger] o.dom().contains(l) implies l
                            == k by {}
                    },
                    None => {},
                }
            }
        },
        _ => {},
    }
}

/// A reply that gives no reason is refused for the first reason that there is.
pub proof fn law_turn_is_refused(j: &Json, r: Result<PromptResult, DecodeError>)
    requires
        call_ensures(PromptResult::from_json, (j,), r),
    ensures
        r matches Err(e) ==> {
            let reason = part(j@, 0, "stopReason"@);
            if !(j@ is Object) && !(j@ is Array) {
                says_other(e@, j@, "struct PromptResult"@)
            } else if is_list(j@, 0) {
                says_length(e@, 0, "struct PromptResult with 1 element"@)
            } else if reason is None {
                says_missing(e@, "stopReason"@)
            } else {
                ||| says_no_reason(e@, reason->Some_0)
                ||| is_longer(j@, 1) && says_length(
                    e@,
                    j@->Array_0.len(),
                    "fewer elements in array"@,
                )
            }
        },
{
    match part(j@, 0, "stopReason"@) {
        Some(m) => lemma_no_reason(m),
        None => {},
    }
}

/// Whether an error is the first reason why a value describes no program.
pub open spec fn says_no_program(e: DecodeErrorView, m: JsonModel) -> bool {
    let name = part(m, 0, "name"@);
    let title = part(m, 1, "title"@);
    let version = part(m, 2, "version"@);
    if !(m is Object) && !(m is Array) {
        says_other(e, m, "struct Implementation"@)
    } else if is_list(m, 0) {
        says_length(e, 0, "struct Implementation with 3 elements"@)
    } else if name matches Some(v) && !(v is Str) {
        says_other(e, name->Some_0, "a string"@)
    } else if is_not_text(title) {
        says_other(e, title->Some_0, "a string"@)
    } else if is_not_text(version) {
        says_other(e, version->Some_0, "a string"@)
    } else if name is None {
        says_missing(e, "name"@)
    } else {
        is_longer(m, 3) && says_length(e, m->Array_0.len(), "fewer elements in array"@)
    }
}

/// A value that describes no program is refused for the first reason that there is.
pub proof fn law_program_is_refused(j: &Json, r: Result<Implementation, DecodeError>)
    requires
        call_ensures(Implementation::from_json, (j,), r),
    ensures
        r matches Err(e) ==> says_no_program(e@, j@),
{
}

/// Whether a value is a version: a whole number in the range of 32 bits.
pub open spec fn is_version(m: JsonModel) -> bool {
    m matches JsonModel::Integer(n) && 0 <= n <= u32::MAX
}

/// Whether an error says why a value is no version.
pub open spec fn says_no_version(e: DecodeErrorView, m: JsonModel) -> bool {
    if m is Integer {
        says_unfit(e, m, "u32"@)
    } else {
        says_other(e, m, "u32"@)
    }
}

/// A reply that completes no handshake is refused for the first reason that there is:
/// a list for its first item before the others, an object for the version last.
pub proof fn law_handshake_is_refused(j: &Json, r: Result<InitializeResult, DecodeError>)
    requires
        call_ensures(InitializeResult::from_json, (j,), r),
    ensures
        r matches Err(e) ==> {
            let version = part(j@, 0, "protocolVersion"@);
            let info = part(j@, 2, "agentInfo"@);
            let methods = part(j@, 3, "authMethods"@);
            if !(j@ is Object) && !(j@ is Array) {
                says_other(e@, j@, "struct InitializeResult"@)
            } else if is_list(j@, 0) {
                says_length(e@, 0, "struct InitializeResult with 4 elements"@)
            } else if j@ is Array && !is_version(version->Some_0) {
                says_no_version(e@, version->Some_0)
            } else if info is Some && !(info->Some_0 is Null) && ImplementationView::read(
                info->Some_0,
            ) is Err {
                says_no_program(e@, info->Some_0)
            } else if methods matches Some(m) && !(m is Array) {
                says_other(e@, methods->Some_0, "a sequence"@)
            } else if version is None {
                says_missing(e@, "protocolVersion"@)
            } else if !is_version(version->Some_0) {
                says_no_version(e@, version->Some_0)
            } else {
                is_longer(j@, 4) && says_length(
                    e@,
                    j@->Array_0.len(),
                    "fewer elements in array"@,
                )
            }
        },
{
}

} // verus!
