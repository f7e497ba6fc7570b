//! What holds across the protocol and the client: stated over the same models
//! that the functions' contracts speak of.

use crate::client::{
    answer_key, answer_log, answer_value, cancelled_outcome, classified, closed_error,
    error_code, error_text, event_view, grants, grants_once, handled, heard,
    lemma_allow_once_grants_single_use, lemma_chosen_is_offered, lemma_deny_all_never_grants,
    next_number, notification_message, outcome_view, permission_options, permission_request,
    permission_subject, reply_message, request_message, selected_outcome, stranded, told,
    AgentEventView, ClientView, IncomingView, Received, RpcErrView, Woken,
};
use crate::decode::DecodeErrorView;
use crate::json::{lookup, JsonModel};
use crate::protocol::{
    ContentBlockView, ImplementationView, InitializeResultView, NewSessionResult,
    PermissionKind, PermissionOptionView, PermissionPolicy, PlanEntryView, PromptResult,
    RequestPermissionParamsView, SessionNotificationView, SessionUpdateView, StopReason,
    ToolCallLocationView, ToolCallStatus, ToolCallUpdateView, ToolCallView, ToolKind,
};
use crate::text::{is_white, lemma_trimmed_empty};
use crate::wire::{carries, plain, READABLE_DEPTH};
use vstd::prelude::*;

verus! {

// ------------------------------------------------------------------- messages

proof fn lemma_message_keys()
    ensures
        "jsonrpc"@ != "id"@,
        "jsonrpc"@ != "method"@,
        "jsonrpc"@ != "params"@,
        "jsonrpc"@ != "result"@,
        "jsonrpc"@ != "error"@,
        "id"@ != "method"@,
        "id"@ != "params"@,
        "id"@ != "result"@,
        "id"@ != "error"@,
        "method"@ != "params"@,
        "method"@ != "result"@,
        "method"@ != "error"@,
        "params"@ != "error"@,
        "result"@ != "error"@,
{
    reveal_strlit("jsonrpc");
    reveal_strlit("id");
    reveal_strlit("method");
    reveal_strlit("params");
    reveal_strlit("result");
    reveal_strlit("error");
    assert("jsonrpc"@.len() == 7 && "id"@.len() == 2 && "error"@.len() == 5);
    assert("method"@[0] == 'm' && "params"@[0] == 'p' && "result"@[0] == 'r');
    assert("method"@.len() == 6 && "params"@.len() == 6 && "result"@.len() == 6);
}

/// A request is heard as that request: with its method, its number and its
/// parameters.
pub proof fn law_request_is_heard(line: Seq<char>, id: u64, method: Seq<char>, params: JsonModel)
    requires
        carries(line, request_message(id, method, params)),
        plain(params, (READABLE_DEPTH - 1) as nat),
    ensures
        heard(line) == (IncomingView::Request {
            method,
            id: JsonModel::Integer(id as int),
            params: Some(params),
        }),
{
    lemma_message_keys();
    let m = request_message(id, method, params);
    reveal_with_fuel(plain, 2);
    assert(plain(m, READABLE_DEPTH as nat));
}

/// A notification is heard as that notification.
pub proof fn law_notification_is_heard(line: Seq<char>, method: Seq<char>, params: JsonModel)
    requires
        carries(line, notification_message(method, params)),
        plain(params, (READABLE_DEPTH - 1) as nat),
    ensures
        heard(line) == (IncomingView::Notification { method, params: Some(params) }),
{
    lemma_message_keys();
    let m = notification_message(method, params);
    reveal_with_fuel(plain, 2);
    assert(plain(m, READABLE_DEPTH as nat));
}

/// A reply with a result is heard as a response that carries the result.
pub proof fn law_result_is_heard(line: Seq<char>, id: u64, value: JsonModel)
    requires
        carries(line, reply_message(JsonModel::Integer(id as int), "result"@, value)),
        plain(value, (READABLE_DEPTH - 1) as nat),
    ensures
        heard(line) == (IncomingView::Response { id, outcome: Ok(value) }),
{
    lemma_message_keys();
    let m = reply_message(JsonModel::Integer(id as int), "result"@, value);
    reveal_with_fuel(plain, 2);
    assert(plain(m, READABLE_DEPTH as nat));
}

/// A reply with an error is heard as a response that carries the error.
pub proof fn law_error_is_heard(line: Seq<char>, id: u64, value: JsonModel)
    requires
        carries(line, reply_message(JsonModel::Integer(id as int), "error"@, value)),
        plain(value, (READABLE_DEPTH - 1) as nat),
        value != JsonModel::Null,
    ensures
        heard(line) == (IncomingView::Response {
            id,
            outcome: Err(RpcErrView { code: error_code(value), message: error_text(value) }),
        }),
{
    lemma_message_keys();
    let m = reply_message(JsonModel::Integer(id as int), "error"@, value);
    reveal_with_fuel(plain, 2);
    assert(plain(m, READABLE_DEPTH as nat));
}

/// A line of white space says nothing.
pub proof fn law_blank_line_says_nothing(line: Seq<char>)
    requires
        forall|i: int| 0 <= i < line.len() ==> is_white(#[trigger] line[i]),
    ensures
        heard(line) == IncomingView::Unrecognised,
{
    lemma_trimmed_empty(line);
}

/// What has a method is never taken for a response, even where it has an id.
pub proof fn law_method_comes_first(m: JsonModel)
    requires
        lookup(m, "method"@) matches Some(v) && v is Str,
    ensures
        !(classified(m) is Response),
        classified(m) is Request <==> lookup(m, "id"@) is Some,
{
}

/// Every message the client writes names the version of the message format.
pub proof fn law_every_message_names_its_version(
    id: u64,
    other: JsonModel,
    method: Seq<char>,
    params: JsonModel,
    policy: PermissionPolicy,
    asked: Option<JsonModel>,
)
    ensures
        lookup(request_message(id, method, params), "jsonrpc"@) == Some(JsonModel::Str("2.0"@)),
        lookup(notification_message(method, params), "jsonrpc"@) == Some(JsonModel::Str("2.0"@)),
        lookup(
            reply_message(other, answer_key(method), answer_value(method, asked, policy)),
            "jsonrpc"@,
        ) == Some(JsonModel::Str("2.0"@)),
{
    lemma_message_keys();
}

// -------------------------------------------------------------------- answers

/// Every request is answered: by one line that carries a reply of version 2.0
/// with the request's own id and with either a result or an error, not both. Nobody
/// who waits is touched by it.
pub proof fn law_every_request_is_answered<W>(
    before: ClientView<W>,
    method: Seq<char>,
    id: JsonModel,
    params: Option<JsonModel>,
    r: Received<W>,
    after: ClientView<W>,
)
    requires
        handled(before, IncomingView::Request { method, id, params }, r, after),
    ensures
        after == before,
        r matches Received::Reply { line, .. } && exists|reply: JsonModel|
            {
                &&& #[trigger] carries(line@, reply)
                &&& lookup(reply, "jsonrpc"@) == Some(JsonModel::Str("2.0"@))
                &&& lookup(reply, "id"@) == Some(id)
                &&& lookup(reply, "result"@) is Some <==> lookup(reply, "error"@) is None
                &&& lookup(reply, "method"@) is None
            },
{
    lemma_message_keys();
    let reply = reply_message(id, answer_key(method), answer_value(method, params, before.policy));
    match r {
        Received::Reply { line, log } => {
            assert(carries(line@, reply));
        },
        _ => {},
    }
}

/// A method the client does not have is answered with the error that says so.
pub proof fn law_unsupported_is_an_error(
    method: Seq<char>,
    params: Option<JsonModel>,
    policy: PermissionPolicy,
)
    requires
        method != "session/request_permission"@,
    ensures
        answer_key(method) == "error"@,
        error_code(answer_value(method, params, policy)) == -32601,
        error_text(answer_value(method, params, policy)) == method
            + " is not supported by this client"@,
        answer_log(method, params, policy) is None,
{
    reveal_strlit("code");
    reveal_strlit("message");
    assert("code"@.len() == 4 && "message"@.len() == 7);
}

/// A permission request is answered with an option that the agent offered, or
/// cancelled, and the log says what became of it.
pub proof fn law_permission_picks_from_the_offer(
    params: Option<JsonModel>,
    policy: PermissionPolicy,
)
    ensures
        ({
            let options = permission_options(permission_request(params));
            let answer = answer_value("session/request_permission"@, params, policy);
            ||| answer == cancelled_outcome()
            ||| exists|i: int|
                0 <= i < options.len() && answer == selected_outcome(
                    (#[trigger] options[i]).option_id,
                )
        }),
        answer_log("session/request_permission"@, params, policy) is Some,
{
    let options = permission_options(permission_request(params));
    lemma_chosen_is_offered(options, policy);
}

/// Under the policy that denies all, no answer grants anything and the log never
/// says that one did.
pub proof fn law_deny_all_refuses(params: Option<JsonModel>)
    ensures
        ({
            let request = permission_request(params);
            let options = permission_options(request);
            let answer = answer_value(
                "session/request_permission"@,
                params,
                PermissionPolicy::DenyAll,
            );
            ||| answer == cancelled_outcome()
            ||| exists|i: int|
                0 <= i < options.len() && !grants(#[trigger] options[i]) && answer
                    == selected_outcome(options[i].option_id)
        }),
        ({
            let request = permission_request(params);
            let log = answer_log(
                "session/request_permission"@,
                params,
                PermissionPolicy::DenyAll,
            );
            ||| log == Some("permission refused for "@ + permission_subject(request))
            ||| log == Some(
                "permission request for "@ + permission_subject(request)
                    + " had no options; cancelled"@,
            )
        }),
{
    let options = permission_options(permission_request(params));
    lemma_chosen_is_offered(options, PermissionPolicy::DenyAll);
    lemma_deny_all_never_grants(options);
}

/// Under the policy that allows once, an answer grants something only where a
/// single use of it is on offer, and then it grants that; it never grants anything
/// for good.
pub proof fn law_allow_once_grants_a_single_use(params: Option<JsonModel>)
    ensures
        ({
            let options = permission_options(permission_request(params));
            let answer = answer_value(
                "session/request_permission"@,
                params,
                PermissionPolicy::AllowOnce,
            );
            if exists|j: int| 0 <= j < options.len() && grants_once(#[trigger] options[j]) {
                exists|i: int|
                    0 <= i < options.len() && grants_once(#[trigger] options[i]) && answer
                        == selected_outcome(options[i].option_id)
            } else {
                ||| answer == cancelled_outcome()
                ||| exists|i: int|
                    0 <= i < options.len() && !grants(#[trigger] options[i]) && answer
                        == selected_outcome(options[i].option_id)
            }
        }),
{
    let options = permission_options(permission_request(params));
    lemma_chosen_is_offered(options, PermissionPolicy::AllowOnce);
    lemma_allow_once_grants_single_use(options);
}

// ------------------------------------------------------------------ numbering

/// A client that has sent nothing has no open request.
pub proof fn law_initial_is_numbered<W>()
    ensures
        ClientView::<W>::initial().numbered(),
{
}

/// As long as numbers last, a new request takes one that is not in use: nobody
/// who waits is displaced, and the next request takes another.
pub proof fn law_new_number_is_free<W>(c: ClientView<W>, waiter: W)
    requires
        c.numbered(),
        c.next_id < u64::MAX,
    ensures
        !c.waiting.dom().contains(c.next_id),
        c.asking(waiter).numbered(),
        c.asking(waiter).next_id != c.next_id,
        c.asking(waiter).waiting.dom() == c.waiting.dom().insert(c.next_id),
        c.asking(waiter).waiting[c.next_id] == waiter,
        forall|id: u64| #[trigger]
            c.waiting.dom().contains(id) ==> c.asking(waiter).waiting[id] == c.waiting[id],
{
}

/// No message from the agent, no missed answer and no closed connection disturbs
/// the numbering.
pub proof fn law_numbering_is_kept<W>(
    before: ClientView<W>,
    message: IncomingView,
    r: Received<W>,
    after: ClientView<W>,
    id: u64,
)
    requires
        before.numbered(),
        handled(before, message, r, after),
    ensures
        after.numbered(),
        after.next_id == before.next_id,
        before.without(id).numbered(),
        before.shut().numbered(),
{
}

/// A response wakes whoever waits for it, and leaves everyone else waiting.
pub proof fn law_response_wakes_its_waiter<W>(
    before: ClientView<W>,
    id: u64,
    outcome: Result<JsonModel, RpcErrView>,
    r: Received<W>,
    after: ClientView<W>,
)
    requires
        handled(before, IncomingView::Response { id, outcome }, r, after),
    ensures
        before.waiting.dom().contains(id) ==> (r matches Received::Wake { waiter, outcome: o }
            && waiter == before.waiting[id] && outcome_view(o) == outcome),
        !before.waiting.dom().contains(id) ==> r is Nothing,
        !after.waiting.dom().contains(id),
        forall|other: u64|
            other != id ==> (#[trigger] after.waiting.dom().contains(other)
                <==> before.waiting.dom().contains(other)),
        forall|other: u64| #[trigger]
            after.waiting.dom().contains(other) ==> after.waiting[other] == before.waiting[other],
{
}

/// Only a response wakes anyone.
pub proof fn law_only_responses_wake<W>(
    before: ClientView<W>,
    message: IncomingView,
    r: Received<W>,
    after: ClientView<W>,
)
    requires
        handled(before, message, r, after),
        !(message is Response),
    ensures
        after == before,
        !(r is Wake),
{
}

/// The answer to a request reaches the one who sent it, and the client is then
/// as it was, but for the number that was used.
pub proof fn law_answer_reaches_the_asker<W>(
    c: ClientView<W>,
    waiter: W,
    outcome: Result<JsonModel, RpcErrView>,
    r: Received<W>,
    after: ClientView<W>,
)
    requires
        c.numbered(),
        handled(c.asking(waiter), IncomingView::Response { id: c.next_id, outcome }, r, after),
    ensures
        r matches Received::Wake { waiter: w, outcome: o } && w == waiter && outcome_view(o)
            == outcome,
        after == (ClientView { next_id: next_number(c.next_id), ..c }),
{
    assert(after.waiting =~= c.waiting);
}

/// Giving up on a request leaves the client as it was, but for the number that
/// was used; an answer that comes later wakes nobody.
pub proof fn law_late_answer_is_dropped<W>(
    c: ClientView<W>,
    waiter: W,
    outcome: Result<JsonModel, RpcErrView>,
    r: Received<W>,
    after: ClientView<W>,
)
    requires
        c.numbered(),
        handled(
            c.asking(waiter).without(c.next_id),
            IncomingView::Response { id: c.next_id, outcome },
            r,
            after,
        ),
    ensures
        c.asking(waiter).without(c.next_id) == (ClientView {
            next_id: next_number(c.next_id),
            ..c
        }),
        after == c.asking(waiter).without(c.next_id),
        r is Nothing,
{
    assert(c.asking(waiter).without(c.next_id).waiting =~= c.waiting);
}

/// When the connection closes, whoever waits is woken with an error: nobody is
/// left to wait for an answer that cannot come.
pub proof fn law_close_strands_nobody<W>(waiting: Map<u64, W>, woken: Seq<Woken<W>>, id: u64)
    requires
        stranded(waiting, woken),
        waiting.dom().contains(id),
    ensures
        exists|i: int|
            {
                &&& 0 <= i < woken.len()
                &&& (#[trigger] woken[i]).id == id
                &&& woken[i].waiter == waiting[id]
                &&& outcome_view(woken[i].outcome) == Err::<JsonModel, RpcErrView>(closed_error())
            },
        forall|i: int, j: int|
            0 <= i < woken.len() && 0 <= j < woken.len() && (#[trigger] woken[i]).id == id && (
            #[trigger] woken[j]).id == id ==> i == j,
{
}

// --------------------------------------------------------------------- events

/// What can happen to a client. Each is what one of its functions does.
pub enum Step<W> {
    /// It sent a request.
    Asked { waiter: W },
    /// It received a message, and this is what was to be done about it.
    Received { message: IncomingView, r: Received<W> },
    /// The agent wrote a line to its log.
    Logged { line: Seq<char> },
    /// It gave up on a request.
    GaveUp { id: u64 },
    /// The handshake completed.
    Greeted { agent_info: Option<ImplementationView> },
    /// The agent's permissions changed.
    Allowed { policy: PermissionPolicy },
    /// The connection closed.
    Closed,
    /// It read a reply, or wrote a notification: that changes nothing.
    Quiet,
}

impl<W> Step<W> {
    /// Whether it leads from one state to another.
    pub open spec fn leads(self, before: ClientView<W>, after: ClientView<W>) -> bool {
        match self {
            Step::Asked { waiter } => after == before.asking(waiter),
            Step::Received { message, r } => handled(before, message, r, after),
            Step::Logged { line } => after == before,
            Step::GaveUp { id } => after == before.without(id),
            Step::Greeted { agent_info } => after == (ClientView { agent_info, ..before }),
            Step::Allowed { policy } => after == (ClientView { policy, ..before }),
            Step::Closed => after == before.shut(),
            Step::Quiet => after == before,
        }
    }

    /// What the listeners are told of it.
    pub open spec fn tells(self, before: ClientView<W>) -> Option<AgentEventView> {
        match self {
            Step::Received { message, r } => match r {
                Received::Event(e) => Some(e@),
                Received::Reply { line, log } => event_view(log),
                _ => None,
            },
            Step::Logged { line } => if before.closed {
                None
            } else {
                Some(AgentEventView::Log(line))
            },
            Step::Closed => if before.closed {
                None
            } else {
                Some(AgentEventView::Exited(None))
            },
            _ => None,
        }
    }
}

/// Whether a client that begins anew goes through these states by these steps.
pub open spec fn runs<W>(steps: Seq<Step<W>>, states: Seq<ClientView<W>>) -> bool {
    &&& states.len() == steps.len() + 1
    &&& states[0] == ClientView::<W>::initial()
    &&& forall|i: int|
        0 <= i < steps.len() ==> (#[trigger] steps[i]).leads(states[i], states[i + 1])
}

/// All that the listeners are told, in order.
pub open spec fn events<W>(steps: Seq<Step<W>>, states: Seq<ClientView<W>>) -> Seq<AgentEventView>
    decreases steps.len(),
{
    if steps.len() == 0 {
        Seq::empty()
    } else {
        let earlier = events(steps.drop_last(), states);
        match steps.last().tells(states[steps.len() - 1]) {
            Some(e) => earlier.push(e),
            None => earlier,
        }
    }
}

proof fn lemma_events_of_prefix<W>(
    steps: Seq<Step<W>>,
    states: Seq<ClientView<W>>,
    shorter: Seq<ClientView<W>>,
)
    requires
        shorter.len() >= steps.len(),
        states.len() >= steps.len(),
        forall|i: int| 0 <= i < steps.len() ==> states[i] == shorter[i],
    ensures
        events(steps, states) == events(steps, shorter),
    decreases steps.len(),
{
    if steps.len() > 0 {
        lemma_events_of_prefix(steps.drop_last(), states, shorter);
    }
}

/// The exit is the last event: whatever happens to a client, there is at most one,
/// no event of any kind comes after it, and it comes exactly if the connection
/// closed.
pub proof fn law_nothing_follows_the_exit<W>(steps: Seq<Step<W>>, states: Seq<ClientView<W>>)
    requires
        runs(steps, states),
    ensures
        forall|i: int|
            0 <= i < events(steps, states).len() - 1 ==> !(#[trigger] events(
                steps,
                states,
            )[i] is Exited),
        states.last().closed <==> events(steps, states).len() > 0 && events(
            steps,
            states,
        ).last() is Exited,
    decreases steps.len(),
{
    if steps.len() > 0 {
        let n = steps.len() - 1;
        let fewer = steps.drop_last();
        let shorter = states.drop_last();
        assert forall|i: int| 0 <= i < fewer.len() implies (#[trigger] fewer[i]).leads(
            shorter[i],
            shorter[i + 1],
        ) by {
            assert(steps[i].leads(states[i], states[i + 1]));
        }
        law_nothing_follows_the_exit(fewer, shorter);
        lemma_events_of_prefix(fewer, states, shorter);
        let earlier = events(fewer, states);
        assert(steps[n].leads(states[n], states[n + 1]));
        assert(shorter.last() == states[n]);
        assert(states.last() == states[n + 1]);
    }
}

// -------------------------------------------------------------------- reading

/// A name that is not known is a choice like any other, never an error.
pub proof fn law_unknown_names_are_read(name: Seq<char>, tagged: bool)
    ensures
        StopReason::read(JsonModel::Str(name)) is Ok,
        ToolKind::read(JsonModel::Str(name), tagged) is Some,
        ToolCallStatus::read(JsonModel::Str(name), tagged) is Some,
        PermissionKind::read(JsonModel::Str(name), tagged) is Some,
{
}

/// Whether a kind of update is one that is rendered.
pub open spec fn known_update(name: Seq<char>) -> bool {
    ||| name == "agent_message_chunk"@
    ||| name == "agent_thought_chunk"@
    ||| name == "user_message_chunk"@
    ||| name == "tool_call"@
    ||| name == "tool_call_update"@
    ||| name == "plan"@
}

/// An update of a kind that is not known is read, whatever comes with it, and
/// kept whole.
pub proof fn law_unknown_update_is_kept(
    m: JsonModel,
    session_id: Seq<char>,
    update: JsonModel,
    name: Seq<char>,
)
    requires
        lookup(m, "sessionId"@) == Some(JsonModel::Str(session_id)),
        lookup(m, "update"@) == Some(update),
        lookup(update, "sessionUpdate"@) == Some(JsonModel::Str(name)),
        !known_update(name),
    ensures
        SessionNotificationView::read(m) == Some(
            SessionNotificationView {
                session_id,
                update: SessionUpdateView::Unknown,
                unrecognised: Some(update),
            },
        ),
        told("session/update"@, Some(m)) is Some,
{
}

/// Members that mean nothing to a reply are passed over.
pub proof fn law_extra_members_are_ignored(
    o: Map<Seq<char>, JsonModel>,
    key: Seq<char>,
    value: JsonModel,
)
    ensures
        key != "sessionId"@ ==> NewSessionResult::read(JsonModel::Object(o.insert(key, value)))
            == NewSessionResult::read(JsonModel::Object(o)),
        key != "stopReason"@ ==> PromptResult::read(JsonModel::Object(o.insert(key, value)))
            == PromptResult::read(JsonModel::Object(o)),
        key != "protocolVersion"@ && key != "agentCapabilities"@ && key != "agentInfo"@ && key
            != "authMethods"@ ==> InitializeResultView::read(
            JsonModel::Object(o.insert(key, value)),
        ) == InitializeResultView::read(JsonModel::Object(o)),
        key != "sessionId"@ && key != "update"@ ==> SessionNotificationView::read(
            JsonModel::Object(o.insert(key, value)),
        ) == SessionNotificationView::read(JsonModel::Object(o)),
{
    let m = JsonModel::Object(o);
    let n = JsonModel::Object(o.insert(key, value));
    assert(forall|k: Seq<char>| k != key ==> lookup(n, k) == #[trigger] lookup(m, k));
}

/// Members that mean nothing are passed over in the parts of messages too.
pub proof fn law_extra_members_of_parts_are_ignored(
    o: Map<Seq<char>, JsonModel>,
    key: Seq<char>,
    value: JsonModel,
    tagged: bool,
)
    ensures
        key != "path"@ && key != "line"@ ==> ToolCallLocationView::read(
            JsonModel::Object(o.insert(key, value)),
        ) == ToolCallLocationView::read(JsonModel::Object(o)),
        key != "content"@ && key != "priority"@ && key != "status"@ ==> PlanEntryView::read(
            JsonModel::Object(o.insert(key, value)),
        ) == PlanEntryView::read(JsonModel::Object(o)),
        key != "toolCallId"@ && key != "title"@ && key != "kind"@ && key != "status"@ && key
            != "locations"@ ==> ToolCallView::read(
            JsonModel::Object(o.insert(key, value)),
            tagged,
        ) == ToolCallView::read(JsonModel::Object(o), tagged),
        key != "toolCallId"@ && key != "title"@ && key != "status"@ && key != "locations"@ && key
            != "content"@ ==> ToolCallUpdateView::read(
            JsonModel::Object(o.insert(key, value)),
            tagged,
        ) == ToolCallUpdateView::read(JsonModel::Object(o), tagged),
        key != "optionId"@ && key != "name"@ && key != "kind"@ ==> PermissionOptionView::read(
            JsonModel::Object(o.insert(key, value)),
        ) == PermissionOptionView::read(JsonModel::Object(o)),
        key != "sessionId"@ && key != "toolCall"@ && key != "options"@
            ==> RequestPermissionParamsView::read(JsonModel::Object(o.insert(key, value)))
            == RequestPermissionParamsView::read(JsonModel::Object(o)),
        key != "type"@ && key != "text"@ && key != "uri"@ ==> ContentBlockView::read(
            JsonModel::Object(o.insert(key, value)),
        ) == ContentBlockView::read(JsonModel::Object(o)),
        key != "name"@ && key != "title"@ && key != "version"@ ==> ImplementationView::read(
            JsonModel::Object(o.insert(key, value)),
        ) == ImplementationView::read(JsonModel::Object(o)),
{
    let m = JsonModel::Object(o);
    let n = JsonModel::Object(o.insert(key, value));
    assert(forall|k: Seq<char>| k != key ==> lookup(n, k) == #[trigger] lookup(m, k));
}

/// A program's description is read back as it was written.
pub proof fn law_implementation_is_read_back(i: ImplementationView)
    ensures
        ImplementationView::read(i.wire()) == Ok::<ImplementationView, DecodeErrorView>(i),
{
    reveal_strlit("name");
    reveal_strlit("title");
    reveal_strlit("version");
    assert("name"@.len() == 4 && "title"@.len() == 5 && "version"@.len() == 7);
}

/// A content block is read back as it was written, by itself and inside an update.
pub proof fn law_content_block_is_read_back(b: ContentBlockView, nested: bool)
    ensures
        ContentBlockView::read(b.wire()) == Some(b),
        ContentBlockView::read_in(b.wire(), nested) == Some(b),
{
    reveal_strlit("type");
    reveal_strlit("text");
    reveal_strlit("uri");
    reveal_strlit("other");
    reveal_strlit("resource_link");
    assert("type"@[1] == 'y' && "text"@[1] == 'e');
    assert("uri"@.len() == 3 && "type"@.len() == 4 && "text"@.len() == 4);
    assert("other"@.len() == 5 && "resource_link"@.len() == 13);
}

} // verus!
