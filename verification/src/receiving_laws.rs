//! What the client makes of what it receives: each law is about what a call gives, in
//! terms of the message it was given.

use crate::client::{
    answer_permission, answer_request, cancelled_outcome, choose_option, chosen, first_refusal,
    first_single_use, grants, grants_once, lemma_first_refusal, lemma_first_single_use,
    permission_answer, permission_log, permission_options, permission_request, permission_subject,
    selected_outcome, AgentEvent, Answer, Incoming, Outcome, RpcErr,
};
use crate::decode::{list_of, only_member};
use crate::json::{Json, JsonModel};
use crate::protocol::{
    option_views, PermissionKind, PermissionOption, PermissionOptionView, PermissionPolicy,
    RequestPermissionParams, RequestPermissionParamsView,
};
use crate::reading_laws::{is_text, is_unset};
use crate::sending_laws::{holds, lacks, only};
use crate::words::lemma_words;
use vstd::prelude::*;

verus! {

// ------------------------------------------------------------------- messages

/// Whether an optional part is that member of a message.
pub open spec fn is_maybe(m: JsonModel, key: Seq<char>, part: Option<Json>) -> bool {
    match part {
        Some(j) => holds(m, key, j@),
        None => lacks(m, key),
    }
}

/// Whether an error is what an object says of it: its number, or -1, and its text, or
/// `unknown`.
pub open spec fn is_error_of(m: JsonModel, e: RpcErr) -> bool {
    &&& forall|n: int| #[trigger]
        holds(m, "code"@, JsonModel::Integer(n)) && i64::MIN <= n <= i64::MAX ==> e.code == n
    &&& (forall|n: int|
        i64::MIN <= n <= i64::MAX ==> !(#[trigger] holds(m, "code"@, JsonModel::Integer(n))))
        ==> e.code == -1
    &&& forall|s: Seq<char>| #[trigger]
        holds(m, "message"@, JsonModel::Str(s)) ==> e.message@ == s
    &&& !is_text(m, "message"@) ==> e.message@ == "unknown"@
}

/// Whether an outcome is what a response says: its error where it carries one, and
/// else its result.
pub open spec fn is_outcome_of(m: JsonModel, outcome: Outcome) -> bool {
    match outcome {
        Ok(j) => is_unset(m, "error"@) && (holds(m, "result"@, j@) || lacks(m, "result"@) && j@
            == JsonModel::Null),
        Err(e) => !is_unset(m, "error"@) && is_error_of(m->Object_0["error"@], e),
    }
}

/// A message is told by its members: a method makes it a call, and an id besides
/// makes that a request; without a method, a number for an id makes it a response.
pub proof fn law_messages_are_told_by_their_members(msg: &Json, r: Incoming)
    requires
        call_ensures(Incoming::classify, (msg,), r),
        msg@ is Object,
    ensures
        match r {
            Incoming::Request { method, id, params } => holds(
                msg@,
                "method"@,
                JsonModel::Str(method@),
            ) && holds(msg@, "id"@, id@) && is_maybe(msg@, "params"@, params),
            Incoming::Notification { method, params } => holds(
                msg@,
                "method"@,
                JsonModel::Str(method@),
            ) && lacks(msg@, "id"@) && is_maybe(msg@, "params"@, params),
            Incoming::Response { id, outcome } => !is_text(msg@, "method"@) && holds(
                msg@,
                "id"@,
                JsonModel::Integer(id as int),
            ) && is_outcome_of(msg@, outcome),
            Incoming::Unrecognised => !is_text(msg@, "method"@) && forall|n: int|
                0 <= n <= u64::MAX ==> !(#[trigger] holds(
                    msg@,
                    "id"@,
                    JsonModel::Integer(n),
                )),
            Incoming::Unreadable => false,
        },
{
    match r {
        Incoming::Response { id, outcome } => {
            match outcome {
                Err(e) => {
                    let m = msg@->Object_0["error"@];
                    if e.code != -1 {
                        assert(holds(m, "code"@, JsonModel::Integer(e.code as int)));
                    }
                },
                Ok(_) => {},
            }
        },
        _ => {},
    }
}

/// What is no object is no message.
pub proof fn law_only_objects_are_messages(msg: &Json, r: Incoming)
    requires
        call_ensures(Incoming::classify, (msg,), r),
        !(msg@ is Object),
    ensures
        r is Unrecognised,
{
}

// ----------------------------------------------------------------- permissions

/// A part of a record: the member of that name, or in a list the item at that place.
pub open spec fn part(m: JsonModel, at: int, key: Seq<char>) -> Option<JsonModel> {
    match m {
        JsonModel::Object(o) => if o.dom().contains(key) {
            Some(o[key])
        } else {
            None
        },
        JsonModel::Array(a) => if at < a.len() {
            Some(a[at])
        } else {
            None
        },
        _ => None,
    }
}

/// Whether an option says that it is of that kind: by the name, or with the name as
/// the one key of an object.
pub open spec fn says_kind(option: JsonModel, name: Seq<char>) -> bool {
    ||| part(option, 2, "kind"@) == Some(JsonModel::Str(name))
    ||| part(option, 2, "kind"@) == Some(
        JsonModel::Object(Map::empty().insert(name, JsonModel::Null)),
    )
}

/// Whether an option says that it grants something.
pub open spec fn is_grant(option: JsonModel) -> bool {
    says_kind(option, "allow_once"@) || says_kind(option, "allow_always"@)
}

proof fn lemma_kind_said(option: JsonModel, view: PermissionOptionView)
    requires
        PermissionOptionView::read(option) == Some(view),
    ensures
        grants(view) <==> is_grant(option),
        grants_once(view) <==> says_kind(option, "allow_once"@),
        part(option, 0, "optionId"@) == Some(JsonModel::Str(view.option_id)),
{
    lemma_words();
    match part(option, 2, "kind"@) {
        Some(JsonModel::Object(p)) => {
            match only_member(p) {
                Some((k, v)) => {
                    assert(p.dom().contains(k));
                    if v == JsonModel::Null {
                        assert(p =~= Map::empty().insert(k, JsonModel::Null));
                    }
                },
                None => {},
            }
            let once = Map::<Seq<char>, JsonModel>::empty().insert("allow_once"@, JsonModel::Null);
            let always = Map::<Seq<char>, JsonModel>::empty().insert(
                "allow_always"@,
                JsonModel::Null,
            );
            assert(once.dom() =~= Set::empty().insert("allow_once"@));
            assert(always.dom() =~= Set::empty().insert("allow_always"@));
            assert(once.dom().contains("allow_once"@));
            assert(always.dom().contains("allow_always"@));
            if p == once || p == always {
                assert(p.dom().contains(p.dom().choose()));
            }
        },
        _ => {},
    }
}

/// Whether a result says that an option was chosen, by that id.
pub open spec fn selects_id(result: JsonModel, id: Seq<char>) -> bool {
    exists|outcome: JsonModel|
        {
            &&& #[trigger] holds(result, "outcome"@, outcome)
            &&& only(result, set!["outcome"@])
            &&& holds(outcome, "outcome"@, JsonModel::Str("selected"@))
            &&& holds(outcome, "optionId"@, JsonModel::Str(id))
            &&& only(outcome, set!["outcome"@, "optionId"@])
        }
}

/// Whether a result says that nothing was chosen.
pub open spec fn is_cancelled(result: JsonModel) -> bool {
    exists|outcome: JsonModel|
        {
            &&& #[trigger] holds(result, "outcome"@, outcome)
            &&& only(result, set!["outcome"@])
            &&& holds(outcome, "outcome"@, JsonModel::Str("cancelled"@))
            &&& only(outcome, set!["outcome"@])
        }
}

/// Whether a result says that an option was chosen, by the id it came with.
pub open spec fn selects(result: JsonModel, option: JsonModel) -> bool {
    part(option, 0, "optionId"@) matches Some(JsonModel::Str(id)) && selects_id(result, id)
}

/// Whether it is the answer of a client that refuses: the first option that is no
/// grant, or none where all are.
pub open spec fn refuses(result: JsonModel, options: Seq<JsonModel>) -> bool {
    if forall|i: int| 0 <= i < options.len() ==> is_grant(#[trigger] options[i]) {
        is_cancelled(result)
    } else {
        exists|i: int|
            {
                &&& 0 <= i < options.len()
                &&& selects(result, #[trigger] options[i])
                &&& !is_grant(options[i])
                &&& forall|j: int| 0 <= j < i ==> is_grant(#[trigger] options[j])
            }
    }
}

/// Whether it is the answer of a client that allows one use: the first option that
/// grants just that, and a refusal where there is none.
pub open spec fn allows_once(result: JsonModel, options: Seq<JsonModel>) -> bool {
    if offers_one_use(options) {
        exists|i: int|
            {
                &&& 0 <= i < options.len()
                &&& selects(result, #[trigger] options[i])
                &&& says_kind(options[i], "allow_once"@)
                &&& forall|j: int|
                    0 <= j < i ==> !says_kind(#[trigger] options[j], "allow_once"@)
            }
    } else {
        refuses(result, options)
    }
}

/// Whether some option grants one use.
pub open spec fn offers_one_use(options: Seq<JsonModel>) -> bool {
    exists|i: int| 0 <= i < options.len() && says_kind(#[trigger] options[i], "allow_once"@)
}

/// The options that a request lists, as they stand in it.
pub open spec fn listed(params: JsonModel) -> Seq<JsonModel> {
    match part(params, 2, "options"@) {
        Some(JsonModel::Array(a)) => a,
        _ => Seq::empty(),
    }
}

/// What a request is about: the title of its tool call, where it has one.
pub open spec fn subject(params: JsonModel) -> Seq<char> {
    match part(params, 1, "toolCall"@) {
        Some(t) => match part(t, 1, "title"@) {
            Some(JsonModel::Str(title)) => title,
            _ => "an operation"@,
        },
        None => "an operation"@,
    }
}

/// Whether a result answers a request for permission, under each policy.
pub open spec fn suits(params: JsonModel, policy: PermissionPolicy, result: JsonModel) -> bool {
    match policy {
        PermissionPolicy::DenyAll => refuses(result, listed(params)),
        PermissionPolicy::AllowOnce => allows_once(result, listed(params)),
    }
}

/// Whether a line for the log says what a request for permission was about, and what
/// became of it.
pub open spec fn recounts(params: JsonModel, policy: PermissionPolicy, line: Seq<char>) -> bool {
    if listed(params).len() == 0 {
        line == "permission request for "@ + subject(params) + " had no options; cancelled"@
    } else if policy == PermissionPolicy::AllowOnce && offers_one_use(listed(params)) {
        line == "permission granted for "@ + subject(params)
    } else {
        line == "permission refused for "@ + subject(params)
    }
}

pub(crate) proof fn lemma_selects(id: Seq<char>)
    ensures
        selects_id(selected_outcome(id), id),
{
    lemma_words();
    let result = selected_outcome(id);
    let outcome = result->Object_0["outcome"@];
    assert(holds(result, "outcome"@, outcome));
}

pub(crate) proof fn lemma_cancelled()
    ensures
        is_cancelled(cancelled_outcome()),
{
    let result = cancelled_outcome();
    let outcome = result->Object_0["outcome"@];
    assert(holds(result, "outcome"@, outcome));
}

pub(crate) proof fn lemma_permission_is_answered(params: JsonModel, policy: PermissionPolicy)
    requires
        RequestPermissionParamsView::read(params) is Some,
    ensures
        suits(params, policy, permission_answer(permission_request(Some(params)), policy)),
        recounts(params, policy, permission_log(permission_request(Some(params)), policy)),
{
    let a = listed(params);
    let views = permission_options(permission_request(Some(params)));
    let read = |v: JsonModel| PermissionOptionView::read(v);
    assert(list_of(part(params, 2, "options"@), read) == Some(views));
    assert(views.len() == a.len());
    assert forall|i: int| 0 <= i < a.len() implies (grants(views[i]) <==> is_grant(
        #[trigger] a[i],
    )) && (grants_once(views[i]) <==> says_kind(a[i], "allow_once"@)) && part(
        a[i],
        0,
        "optionId"@,
    ) == Some(JsonModel::Str(views[i].option_id)) by {
        assert(read(a[i]) is Some);
        lemma_kind_said(a[i], views[i]);
    }
    lemma_first_refusal(views, 0);
    lemma_first_single_use(views, 0);
    lemma_cancelled();
    match first_refusal(views, 0) {
        Some(i) => {
            lemma_selects(views[i].option_id);
            assert(!is_grant(a[i]));
            assert forall|j: int| 0 <= j < i implies is_grant(#[trigger] a[j]) by {
                assert(grants(views[j]));
            }
        },
        None => {
            assert forall|j: int| 0 <= j < a.len() implies is_grant(#[trigger] a[j]) by {
                assert(grants(views[j]));
            }
        },
    }
    match first_single_use(views, 0) {
        Some(i) => {
            lemma_selects(views[i].option_id);
            assert(says_kind(a[i], "allow_once"@));
            assert forall|j: int| 0 <= j < i implies !says_kind(
                #[trigger] a[j],
                "allow_once"@,
            ) by {
                assert(!grants_once(views[j]));
            }
        },
        None => {
            assert forall|j: int| 0 <= j < a.len() implies !says_kind(
                #[trigger] a[j],
                "allow_once"@,
            ) by {
                assert(!grants_once(views[j]));
            }
        },
    }
}

/// Under the policy that denies all, no result selects an option that says it grants
/// something: whatever is selected carries the id of an option that does not.
pub proof fn law_denial_selects_no_grant(
    method: &str,
    params: &Json,
    r: Answer,
    id: Seq<char>,
)
    requires
        call_ensures(answer_request, (method, Some(params), PermissionPolicy::DenyAll), r),
        method@ == "session/request_permission"@,
        selects_id(r.body@[0].1@, id),
    ensures
        exists|i: int|
            {
                &&& 0 <= i < listed(params@).len()
                &&& part(#[trigger] listed(params@)[i], 0, "optionId"@) == Some(
                    JsonModel::Str(id),
                )
                &&& !says_kind(listed(params@)[i], "allow_once"@)
                &&& !says_kind(listed(params@)[i], "allow_always"@)
            },
{
    lemma_words();
    lemma_cancelled();
    if RequestPermissionParamsView::read(params@) is Some {
        lemma_permission_is_answered(params@, PermissionPolicy::DenyAll);
    }
}

/// A request for permission is answered from what it lists, as the policy has it,
/// and the log says what became of it.
pub proof fn law_permission_is_answered_from_the_list(
    method: &str,
    params: &Json,
    policy: PermissionPolicy,
    r: Answer,
)
    requires
        call_ensures(answer_request, (method, Some(params), policy), r),
        method@ == "session/request_permission"@,
        RequestPermissionParamsView::read(params@) is Some,
    ensures
        r.body@.len() == 1,
        r.body@[0].0@ == "result"@,
        suits(params@, policy, r.body@[0].1@),
        r.log matches Some(AgentEvent::Log(line)) && recounts(params@, policy, line@),
{
    lemma_permission_is_answered(params@, policy);
}

/// A request for permission that cannot be read, or says nothing, is answered all the
/// same: nothing is chosen.
pub proof fn law_unreadable_permission_is_cancelled(
    method: &str,
    params: Option<&Json>,
    policy: PermissionPolicy,
    r: Answer,
)
    requires
        call_ensures(answer_request, (method, params, policy), r),
        method@ == "session/request_permission"@,
        params matches Some(p) ==> RequestPermissionParamsView::read(p@) is None,
    ensures
        r.body@.len() == 1,
        r.body@[0].0@ == "result"@,
        is_cancelled(r.body@[0].1@),
        r.log matches Some(AgentEvent::Log(line)) && line@
            == "permission request for an operation had no options; cancelled"@,
{
    lemma_cancelled();
    lemma_first_refusal(Seq::empty(), 0);
    lemma_first_single_use(Seq::empty(), 0);
    reveal_strlit("permission request for ");
    reveal_strlit("an operation");
    reveal_strlit(" had no options; cancelled");
    reveal_strlit("permission request for an operation had no options; cancelled");
    assert("permission request for "@ + "an operation"@ + " had no options; cancelled"@
        =~= "permission request for an operation had no options; cancelled"@);
}

/// Whether an error says that a method is not there.
pub open spec fn says_unsupported(error: JsonModel, method: Seq<char>) -> bool {
    &&& holds(error, "code"@, JsonModel::Integer(-32601))
    &&& holds(error, "message"@, JsonModel::Str(method + " is not supported by this client"@))
    &&& only(error, set!["code"@, "message"@])
}

/// Any other request is answered with the error that says so, and the log says
/// nothing.
pub proof fn law_other_requests_are_unsupported(
    method: &str,
    params: Option<&Json>,
    policy: PermissionPolicy,
    r: Answer,
)
    requires
        call_ensures(answer_request, (method, params, policy), r),
        method@ != "session/request_permission"@,
    ensures
        r.body@.len() == 1,
        r.body@[0].0@ == "error"@,
        says_unsupported(r.body@[0].1@, method@),
        r.log is None,
{
    lemma_words();
}

/// Whether a kind grants something.
pub open spec fn is_granting(kind: Option<PermissionKind>) -> bool {
    kind == Some(PermissionKind::AllowOnce) || kind == Some(PermissionKind::AllowAlways)
}

/// Whether it is the first option that grants nothing.
pub open spec fn is_first_refusal(options: Seq<PermissionOption>, i: int) -> bool {
    &&& 0 <= i < options.len()
    &&& !is_granting(options[i].kind)
    &&& forall|j: int| 0 <= j < i ==> is_granting((#[trigger] options[j]).kind)
}

/// Whether it is the first option that grants one use.
pub open spec fn is_first_use(options: Seq<PermissionOption>, i: int) -> bool {
    &&& 0 <= i < options.len()
    &&& options[i].kind == Some(PermissionKind::AllowOnce)
    &&& forall|j: int|
        0 <= j < i ==> (#[trigger] options[j]).kind != Some(PermissionKind::AllowOnce)
}

/// Whether it is what a policy chooses of the options.
pub open spec fn is_choice(
    options: Seq<PermissionOption>,
    policy: PermissionPolicy,
    i: Option<int>,
) -> bool {
    let one_use = exists|j: int|
        0 <= j < options.len() && (#[trigger] options[j]).kind == Some(PermissionKind::AllowOnce);
    match i {
        Some(i) => if policy == PermissionPolicy::AllowOnce && one_use {
            is_first_use(options, i)
        } else {
            is_first_refusal(options, i)
        },
        None => !(policy == PermissionPolicy::AllowOnce && one_use) && forall|j: int|
            0 <= j < options.len() ==> is_granting((#[trigger] options[j]).kind),
    }
}

proof fn lemma_choice(options: Seq<PermissionOption>, policy: PermissionPolicy)
    ensures
        is_choice(options, policy, chosen(option_views(options), policy)),
{
    let views = option_views(options);
    assert(views.len() == options.len());
    assert forall|j: int| 0 <= j < options.len() implies (grants(views[j]) <==> is_granting(
        (#[trigger] options[j]).kind,
    )) && (grants_once(views[j]) <==> options[j].kind == Some(PermissionKind::AllowOnce)) by {
        assert(views[j] == options[j]@);
    }
    lemma_first_refusal(views, 0);
    lemma_first_single_use(views, 0);
    match first_refusal(views, 0) {
        Some(i) => {
            assert forall|j: int| 0 <= j < i implies is_granting((#[trigger] options[j]).kind) by {
                assert(grants(views[j]));
            }
        },
        None => {
            assert forall|j: int| 0 <= j < options.len() implies is_granting(
                (#[trigger] options[j]).kind,
            ) by {
                assert(grants(views[j]));
            }
        },
    }
    match first_single_use(views, 0) {
        Some(i) => {
            assert(options[i].kind == Some(PermissionKind::AllowOnce));
            assert forall|j: int| 0 <= j < i implies (#[trigger] options[j]).kind != Some(
                PermissionKind::AllowOnce,
            ) by {
                assert(!grants_once(views[j]));
            }
        },
        None => {
            assert forall|j: int| 0 <= j < options.len() implies (#[trigger] options[j]).kind
                != Some(PermissionKind::AllowOnce) by {
                assert(!grants_once(views[j]));
            }
        },
    }
}

/// The choice is the first option that suits the policy.
pub proof fn law_choice_is_the_first_that_suits(
    options: &Vec<PermissionOption>,
    policy: PermissionPolicy,
    r: Option<usize>,
)
    requires
        call_ensures(choose_option, (options, policy), r),
    ensures
        is_choice(
            options@,
            policy,
            match r {
                Some(i) => Some(i as int),
                None => None,
            },
        ),
{
    lemma_choice(options@, policy);
}

/// The answer to a request for permission says what was chosen, and the log what it
/// was about.
pub proof fn law_answer_says_the_choice(
    request: RequestPermissionParams,
    policy: PermissionPolicy,
    r: (Json, String),
)
    requires
        call_ensures(answer_permission, (Some(request), policy), r),
    ensures
        exists|i: Option<int>| #[trigger]
            is_choice(request.options@, policy, i) && match i {
                Some(i) => selects_id(r.0@, request.options@[i].option_id@),
                None => is_cancelled(r.0@),
            } && r.1@ == title_said(
                request,
                if request.options@.len() == 0 {
                    "permission request for "@
                } else if i matches Some(i) && is_granting(request.options@[i].kind) {
                    "permission granted for "@
                } else {
                    "permission refused for "@
                },
            ) + (if request.options@.len() == 0 {
                " had no options; cancelled"@
            } else {
                Seq::empty()
            }),
{
    lemma_words();
    lemma_choice(request.options@, policy);
    lemma_cancelled();
    let views = option_views(request.options@);
    let i = chosen(views, policy);
    assert(views == request@.options);
    match i {
        Some(i) => {
            assert(views[i] == request.options@[i]@);
            lemma_selects(request.options@[i].option_id@);
        },
        None => {},
    }
    assert(r.1@ + Seq::<char>::empty() =~= r.1@);
    let what = permission_subject(Some(request@));
    assert("permission granted for "@ + what + Seq::<char>::empty() =~= "permission granted for "@
        + what);
    assert("permission refused for "@ + what + Seq::<char>::empty() =~= "permission refused for "@
        + what);
}

/// A text followed by the title of the tool call that a request is about.
pub open spec fn title_said(request: RequestPermissionParams, head: Seq<char>) -> Seq<char> {
    head + match request.tool_call {
        Some(call) => match call.title {
            Some(title) => title@,
            None => "an operation"@,
        },
        None => "an operation"@,
    }
}

/// A kind grants something where it allows once or always, and not otherwise.
pub proof fn law_only_allowing_grants(kind: PermissionKind, r: bool)
    requires
        call_ensures(PermissionKind::is_allow, (kind,), r),
    ensures
        r <==> kind == PermissionKind::AllowOnce || kind == PermissionKind::AllowAlways,
{
}

} // verus!
