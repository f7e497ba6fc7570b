//! What the client does about what it receives, line by line: each law is about what
//! a call gives, in terms of the members of the message.

use crate::client::{
    answer_key, answer_value, handled, lemma_first_refusal, lemma_first_single_use, reply_message,
    spawn_failure, AcpClient, AgentEvent, ClientError, ClientView, Closed, Fault, Incoming,
    IncomingView, Outcome, Received, RpcErr, Woken,
};
use crate::decode::DecodeError;
use crate::json::{lookup, Json, JsonModel};
use crate::laws::law_notification_is_heard;
use crate::protocol::{
    ContentBlock, InitializeResult, PermissionPolicy, RequestPermissionParamsView,
    SessionNotificationView, SessionUpdate, StopReason,
};
use crate::reading_laws::{is_text, names_reason, names_status};
use crate::receiving_laws::{
    is_cancelled, is_outcome_of, lemma_cancelled, lemma_permission_is_answered, recounts,
    says_unsupported, suits,
};
use crate::sending_laws::{holds, is_line_of, lacks, only};
use crate::text::{decimal, signed_decimal, trimmed};
use crate::wire::{carries, parsed, plain, printed, READABLE_DEPTH};
use crate::words::lemma_words;
use vstd::prelude::*;

verus! {

/// Whether a line is the answer to the request of that id: a message of version 2.0
/// with the id as it came, one member that answers, and nothing besides.
pub open spec fn is_reply(
    line: Seq<char>,
    id: JsonModel,
    key: Seq<char>,
    value: JsonModel,
) -> bool {
    exists|m: JsonModel|
        {
            &&& #[trigger] is_line_of(line, m)
            &&& holds(m, "jsonrpc"@, JsonModel::Str("2.0"@))
            &&& holds(m, "id"@, id)
            &&& holds(m, key, value)
            &&& only(m, set!["jsonrpc"@, "id"@, key])
        }
}

/// Whether a request is answered as it should be: a request for permission from what
/// it lists, any other with the error that says so.
pub open spec fn answers<W>(
    r: Received<W>,
    before: ClientView<W>,
    method: Seq<char>,
    id: JsonModel,
    params: Option<JsonModel>,
) -> bool {
    &&& r matches Received::Reply { line, log }
    &&& before.closed ==> log is None
    &&& if method == "session/request_permission"@ {
        let readable = params matches Some(p) && RequestPermissionParamsView::read(p) is Some;
        &&& exists|value: JsonModel| #[trigger]
            is_reply(line@, id, "result"@, value) && (if readable {
                suits(params->Some_0, before.policy, value)
            } else {
                is_cancelled(value)
            })
        &&& !before.closed ==> (log matches Some(AgentEvent::Log(text)) && (if readable {
            recounts(params->Some_0, before.policy, text@)
        } else {
            text@ == "permission request for an operation had no options; cancelled"@
        }))
    } else {
        &&& exists|value: JsonModel| #[trigger]
            is_reply(line@, id, "error"@, value) && says_unsupported(value, method)
        &&& log is None
    }
}

proof fn lemma_reply(line: Seq<char>, id: JsonModel, key: Seq<char>, value: JsonModel)
    requires
        carries(line, reply_message(id, key, value)),
        key == "result"@ || key == "error"@,
    ensures
        is_reply(line, id, key, value),
{
    lemma_words();
    let m = reply_message(id, key, value);
    assert(line.drop_last() =~= printed(m));
    assert(is_line_of(line, m));
}

proof fn lemma_answers<W>(
    before: ClientView<W>,
    after: ClientView<W>,
    r: Received<W>,
    method: Seq<char>,
    id: JsonModel,
    params: Option<JsonModel>,
)
    requires
        handled(
            before,
            (IncomingView::Request { method, id, params }),
            r,
            after,
        ),
    ensures
        answers(r, before, method, id, params),
        after == before,
{
    lemma_words();
    let key = answer_key(method);
    let value = answer_value(method, params, before.policy);
    match r {
        Received::Reply { line, log } => {
            lemma_reply(line@, id, key, value);
        },
        _ => {},
    }
    lemma_cancelled();
    match params {
        Some(p) => {
            if RequestPermissionParamsView::read(p) is Some {
                lemma_permission_is_answered(p, before.policy);
            }
        },
        None => {},
    }
    lemma_first_refusal(Seq::empty(), 0);
    lemma_first_single_use(Seq::empty(), 0);
    reveal_strlit("permission request for ");
    reveal_strlit("an operation");
    reveal_strlit(" had no options; cancelled");
    reveal_strlit("permission request for an operation had no options; cancelled");
    assert("permission request for "@ + "an operation"@ + " had no options; cancelled"@
        =~= "permission request for an operation had no options; cancelled"@);
}

/// The parameters of a message, where it has any.
pub open spec fn params_of(m: JsonModel) -> Option<JsonModel> {
    match m {
        JsonModel::Object(o) => if o.dom().contains("params"@) {
            Some(o["params"@])
        } else {
            None
        },
        _ => None,
    }
}

/// Every line with a method and an id is answered at once, with that id, and changes
/// nothing else.
pub proof fn law_request_line_is_answered<W>(
    line: &str,
    m: JsonModel,
    method: Seq<char>,
    id: JsonModel,
    r: Received<W>,
)
    requires
        trimmed(line@).len() > 0,
        parsed(trimmed(line@)) == Some(m),
        holds(m, "method"@, JsonModel::Str(method)),
        holds(m, "id"@, id),
    ensures
        forall|c: &mut AcpClient<W>| #[trigger]
            call_ensures(AcpClient::<W>::receive, (c, line), r) ==> answers(
                r,
                (*c)@,
                method,
                id,
                params_of(m),
            ) && (*final(c))@ == (*c)@,
{
    lemma_words();
    assert forall|c: &mut AcpClient<W>| #[trigger]
        call_ensures(AcpClient::<W>::receive, (c, line), r) implies answers(
        r,
        (*c)@,
        method,
        id,
        params_of(m),
    ) && (*final(c))@ == (*c)@ by {
        lemma_answers((*c)@, (*final(c))@, r, method, id, params_of(m));
    }
}

/// A request is answered at once, with its id, and changes nothing else.
pub proof fn law_request_is_answered<W>(
    method: String,
    id: Json,
    params: Option<Json>,
    r: Received<W>,
)
    ensures
        forall|c: &mut AcpClient<W>| #[trigger]
            call_ensures(
                AcpClient::<W>::handle,
                (c, (Incoming::Request { method, id, params })),
                r,
            ) ==> answers(
                r,
                (*c)@,
                method@,
                id@,
                match params {
                    Some(p) => Some(p@),
                    None => None,
                },
            ) && (*final(c))@ == (*c)@,
{
    let p = match params {
        Some(p) => Some(p@),
        None => None,
    };
    assert forall|c: &mut AcpClient<W>| #[trigger]
        call_ensures(
            AcpClient::<W>::handle,
            (c, (Incoming::Request { method, id, params })),
            r,
        ) implies answers(r, (*c)@, method@, id@, p) && (*final(c))@ == (*c)@ by {
        lemma_answers((*c)@, (*final(c))@, r, method@, id@, p);
    }
}

/// Whether an update is passed on to the listeners, whole, while the connection is
/// open, and to nobody after that.
pub open spec fn passes_on<W>(
    r: Received<W>,
    closed: bool,
    update: SessionNotificationView,
) -> bool {
    if closed {
        r is Nothing
    } else {
        r matches Received::Event(AgentEvent::Update(n)) && n@ == update
    }
}

/// Every line that brings a session update which can be read is passed on as that
/// update, whatever kind it is of.
pub proof fn law_update_line_is_passed_on<W>(
    line: &str,
    m: JsonModel,
    params: JsonModel,
    update: SessionNotificationView,
    r: Received<W>,
)
    requires
        trimmed(line@).len() > 0,
        parsed(trimmed(line@)) == Some(m),
        holds(m, "method"@, JsonModel::Str("session/update"@)),
        lacks(m, "id"@),
        holds(m, "params"@, params),
        SessionNotificationView::read(params) == Some(update),
    ensures
        forall|c: &mut AcpClient<W>| #[trigger]
            call_ensures(AcpClient::<W>::receive, (c, line), r) ==> passes_on(
                r,
                (*c)@.closed,
                update,
            ) && (*final(c))@ == (*c)@,
{
    lemma_words();
}

/// A session update that can be read is passed on as that update, whatever kind it
/// is of.
pub proof fn law_update_is_passed_on<W>(
    method: String,
    params: Json,
    update: SessionNotificationView,
    r: Received<W>,
)
    requires
        method@ == "session/update"@,
        SessionNotificationView::read(params@) == Some(update),
    ensures
        forall|c: &mut AcpClient<W>| #[trigger]
            call_ensures(
                AcpClient::<W>::handle,
                (c, (Incoming::Notification { method, params: Some(params) })),
                r,
            ) ==> passes_on(r, (*c)@.closed, update) && (*final(c))@ == (*c)@,
{
}

/// A line that brings a tool call is passed on as that tool call: its id, its title
/// and its status are those that stand in the line.
pub proof fn law_tool_call_line_is_passed_on<W>(
    line: &str,
    m: JsonModel,
    params: JsonModel,
    session: Seq<char>,
    call: JsonModel,
    id: Seq<char>,
    title: Seq<char>,
    status: Seq<char>,
    r: Received<W>,
)
    requires
        trimmed(line@).len() > 0,
        parsed(trimmed(line@)) == Some(m),
        holds(m, "method"@, JsonModel::Str("session/update"@)),
        lacks(m, "id"@),
        holds(m, "params"@, params),
        holds(params, "sessionId"@, JsonModel::Str(session)),
        holds(params, "update"@, call),
        holds(call, "sessionUpdate"@, JsonModel::Str("tool_call"@)),
        holds(call, "toolCallId"@, JsonModel::Str(id)),
        holds(call, "title"@, JsonModel::Str(title)),
        holds(call, "status"@, JsonModel::Str(status)),
        lacks(call, "kind"@),
        lacks(call, "locations"@),
        lacks(call, "content"@),
    ensures
        forall|c: &mut AcpClient<W>| #[trigger]
            call_ensures(AcpClient::<W>::receive, (c, line), r) && !(*c)@.closed ==> {
                &&& r matches Received::Event(AgentEvent::Update(n))
                &&& n.session_id@ == session
                &&& n.update matches SessionUpdate::ToolCall(t)
                &&& t.tool_call_id@ == id
                &&& t.title matches Some(s)
                &&& s@ == title
                &&& t.status matches Some(word)
                &&& names_status(status, word)
            },
{
    lemma_words();
}

/// A session update that cannot be read is reported, and any other news is passed
/// over.
pub proof fn law_other_news_is_not_passed_on<W>(
    method: String,
    params: Option<Json>,
    r: Received<W>,
)
    requires
        method@ == "session/update"@ ==> match params {
            Some(p) => SessionNotificationView::read(p@) is None,
            None => true,
        },
    ensures
        forall|c: &mut AcpClient<W>| #[trigger]
            call_ensures(
                AcpClient::<W>::handle,
                (c, (Incoming::Notification { method, params })),
                r,
            ) ==> (if method@ == "session/update"@ {
                r matches Received::Malformed(Fault::Update)
            } else {
                r is Nothing
            }) && (*final(c))@ == (*c)@,
{
}

/// The kinds of chunk: what the agent says, what it thinks, what the user said.
pub open spec fn is_chunk_of(update: SessionUpdate, name: Seq<char>, text: Seq<char>) -> bool {
    match update {
        SessionUpdate::AgentMessageChunk { content: ContentBlock::Text { text: t } } => name
            == "agent_message_chunk"@ && t@ == text,
        SessionUpdate::AgentThoughtChunk { content: ContentBlock::Text { text: t } } => name
            == "agent_thought_chunk"@ && t@ == text,
        SessionUpdate::UserMessageChunk { content: ContentBlock::Text { text: t } } => name
            == "user_message_chunk"@ && t@ == text,
        _ => false,
    }
}

/// A line that brings a chunk of text is passed on as a chunk of that kind, with the
/// text as it stands in the line.
pub proof fn law_chunk_line_is_passed_on<W>(
    line: &str,
    m: JsonModel,
    params: JsonModel,
    session: Seq<char>,
    chunk: JsonModel,
    name: Seq<char>,
    content: JsonModel,
    text: Seq<char>,
    r: Received<W>,
)
    requires
        trimmed(line@).len() > 0,
        parsed(trimmed(line@)) == Some(m),
        holds(m, "method"@, JsonModel::Str("session/update"@)),
        lacks(m, "id"@),
        holds(m, "params"@, params),
        holds(params, "sessionId"@, JsonModel::Str(session)),
        holds(params, "update"@, chunk),
        holds(chunk, "sessionUpdate"@, JsonModel::Str(name)),
        name == "agent_message_chunk"@ || name == "agent_thought_chunk"@ || name
            == "user_message_chunk"@,
        holds(chunk, "content"@, content),
        holds(content, "type"@, JsonModel::Str("text"@)),
        holds(content, "text"@, JsonModel::Str(text)),
    ensures
        forall|c: &mut AcpClient<W>| #[trigger]
            call_ensures(AcpClient::<W>::receive, (c, line), r) && !(*c)@.closed ==> {
                &&& r matches Received::Event(AgentEvent::Update(n))
                &&& n.session_id@ == session
                &&& is_chunk_of(n.update, name, text)
            },
{
    lemma_words();
}

/// A line that was written is read as the message it was written for, if nothing in
/// it is nested too deep or no whole number.
pub proof fn law_written_line_is_read(line: Seq<char>, m: JsonModel)
    requires
        carries(line, m),
        m is Object,
        plain(m, READABLE_DEPTH as nat),
    ensures
        trimmed(line).len() > 0,
        parsed(trimmed(line)) == Some(m),
{
}

/// What one side tells as a session update, the other passes on as that update.
pub proof fn law_told_update_is_passed_on<V, W>(
    teller: &AcpClient<V>,
    method: &str,
    params: Json,
    told: String,
    line: &str,
    update: SessionNotificationView,
    r: Received<W>,
)
    requires
        call_ensures(AcpClient::<V>::notify, (teller, method, params), told),
        method@ == "session/update"@,
        plain(params@, (READABLE_DEPTH - 1) as nat),
        SessionNotificationView::read(params@) == Some(update),
        line@ == told@,
    ensures
        forall|c: &mut AcpClient<W>| #[trigger]
            call_ensures(AcpClient::<W>::receive, (c, line), r) ==> passes_on(
                r,
                (*c)@.closed,
                update,
            ) && (*final(c))@ == (*c)@,
{
    law_notification_is_heard(line@, method@, params@);
}

/// What is heard of a line besides calls: nothing of a blank one, a fault of one that
/// is no JSON, and nothing of one that is no message. None of them changes anything.
pub proof fn law_other_lines_change_nothing<W>(line: &str, r: Received<W>)
    requires
        trimmed(line@).len() > 0 ==> (parsed(trimmed(line@)) matches Some(m) ==> !is_text(
            m,
            "method"@,
        ) && forall|n: int|
            0 <= n <= u64::MAX ==> !(#[trigger] holds(m, "id"@, JsonModel::Integer(n)))),
    ensures
        forall|c: &mut AcpClient<W>| #[trigger]
            call_ensures(AcpClient::<W>::receive, (c, line), r) ==> (if trimmed(line@).len() == 0
                || parsed(trimmed(line@)) is Some {
                r is Nothing
            } else {
                r matches Received::Malformed(Fault::Line)
            }) && (*final(c))@ == (*c)@,
{
    match parsed(trimmed(line@)) {
        Some(m) => {
            match lookup(m, "id"@) {
                Some(id) => {
                    match id {
                        JsonModel::Integer(n) => {
                            assert(holds(m, "id"@, JsonModel::Integer(n)));
                        },
                        _ => {},
                    }
                },
                None => {},
            }
        },
        None => {},
    }
}

// ------------------------------------------------------------------- responses

/// Whether one waiter is gone and everything else is as it was.
pub open spec fn leaves<W>(before: ClientView<W>, after: ClientView<W>, id: u64) -> bool {
    &&& !after.waiting.dom().contains(id)
    &&& forall|other: u64|
        other != id ==> (#[trigger] after.waiting.dom().contains(other)
            <==> before.waiting.dom().contains(other))
    &&& forall|other: u64| #[trigger]
        after.waiting.dom().contains(other) ==> after.waiting[other] == before.waiting[other]
    &&& after.next_id == before.next_id
    &&& after.agent_info == before.agent_info
    &&& after.policy == before.policy
    &&& after.closed == before.closed
}

/// A line that answers a request wakes whoever waits for it, with what the line says,
/// and nobody else; a line that answers nothing does nothing.
pub proof fn law_response_line_wakes_its_waiter<W>(
    line: &str,
    m: JsonModel,
    id: u64,
    r: Received<W>,
)
    requires
        trimmed(line@).len() > 0,
        parsed(trimmed(line@)) == Some(m),
        !is_text(m, "method"@),
        holds(m, "id"@, JsonModel::Integer(id as int)),
    ensures
        forall|c: &mut AcpClient<W>| #[trigger]
            call_ensures(AcpClient::<W>::receive, (c, line), r) ==> if (*c)@.waiting.dom().contains(
                id,
            ) {
                &&& r matches Received::Wake { waiter, outcome }
                &&& waiter == (*c)@.waiting[id]
                &&& is_outcome_of(m, outcome)
                &&& leaves((*c)@, (*final(c))@, id)
            } else {
                r is Nothing && (*final(c))@ == (*c)@
            },
{
    assert forall|c: &mut AcpClient<W>| #[trigger]
        call_ensures(AcpClient::<W>::receive, (c, line), r) && (*c)@.waiting.dom().contains(
        id,
    ) implies {
        &&& r matches Received::Wake { waiter, outcome }
        &&& is_outcome_of(m, outcome)
    } by {
        match r {
            Received::Wake { waiter, outcome } => {
                match outcome {
                    Err(e) => {
                        let error = m->Object_0["error"@];
                        if e.code != -1 {
                            assert(holds(error, "code"@, JsonModel::Integer(e.code as int)));
                        }
                    },
                    Ok(_) => {},
                }
            },
            _ => {},
        }
    }
}

/// Whether two outcomes say the same.
pub open spec fn same_outcome(one: Outcome, other: Outcome) -> bool {
    match (one, other) {
        (Ok(a), Ok(b)) => a@ == b@,
        (Err(a), Err(b)) => a.code == b.code && a.message@ == b.message@,
        _ => false,
    }
}

/// A response wakes whoever waits for it, with its outcome, and nobody else.
pub proof fn law_outcome_reaches_its_waiter<W>(id: u64, outcome: Outcome, r: Received<W>)
    ensures
        forall|c: &mut AcpClient<W>| #[trigger]
            call_ensures(
                AcpClient::<W>::handle,
                (c, (Incoming::Response { id, outcome })),
                r,
            ) ==> if (*c)@.waiting.dom().contains(id) {
                &&& r matches Received::Wake { waiter, outcome: o }
                &&& waiter == (*c)@.waiting[id]
                &&& same_outcome(o, outcome)
                &&& leaves((*c)@, (*final(c))@, id)
            } else {
                r is Nothing && (*final(c))@ == (*c)@
            },
{
}

/// A request ends with what it was answered, or with word that nothing came in time;
/// then nobody waits for it any more.
pub proof fn law_request_is_settled<W>(
    id: u64,
    method: &str,
    waited: &str,
    answer: Option<Outcome>,
    r: Result<Json, ClientError>,
)
    ensures
        forall|c: &mut AcpClient<W>| #[trigger]
            call_ensures(AcpClient::<W>::settle, (c, id, method, waited, answer), r) ==> match (
                answer,
                r,
            ) {
                (Some(Ok(j)), Ok(k)) => j == k && (*final(c))@ == (*c)@,
                (Some(Err(e)), Err(ClientError::Rpc(f))) => e == f && (*final(c))@ == (*c)@,
                (None, Err(ClientError::TimedOut { waited: w, method: m })) => w@ == waited@ && m@
                    == method@ && leaves((*c)@, (*final(c))@, id),
                _ => false,
            },
{
}

// ----------------------------------------------------------------- the protocol

/// The handshake succeeds with every agent whose version is 1 or less; what it says
/// of itself is kept, and nothing else changes. A later version is refused by its
/// number, and a reply that cannot be read is refused too.
pub proof fn law_handshake_settles_the_version<W>(
    reply: &Json,
    read: Result<InitializeResult, DecodeError>,
    r: Result<InitializeResult, ClientError>,
)
    requires
        call_ensures(InitializeResult::from_json, (reply,), read),
    ensures
        forall|c: &mut AcpClient<W>| #[trigger]
            call_ensures(AcpClient::<W>::initialized, (c, reply), r) ==> match read {
                Ok(v) => if v.protocol_version > 1 {
                    &&& r matches Err(ClientError::ProtocolTooNew { agent })
                    &&& agent == v.protocol_version
                    &&& (*final(c))@ == (*c)@
                } else {
                    &&& r matches Ok(result)
                    &&& result@ == v@
                    &&& (*final(c))@.agent_info == v@.agent_info
                    &&& (*final(c))@.next_id == (*c)@.next_id
                    &&& (*final(c))@.waiting == (*c)@.waiting
                    &&& (*final(c))@.policy == (*c)@.policy
                    &&& (*final(c))@.closed == (*c)@.closed
                },
                Err(e) => {
                    &&& r matches Err(ClientError::Reply(f))
                    &&& f@ == e@
                    &&& (*final(c))@ == (*c)@
                },
            },
{
}

/// A reply opens the session whose id stands in it.
pub proof fn law_session_is_the_replys<W>(reply: &Json, r: Result<String, ClientError>)
    requires
        call_ensures(AcpClient::<W>::session_opened, (reply,), r),
        reply@ is Object,
    ensures
        forall|id: Seq<char>| #[trigger]
            holds(reply@, "sessionId"@, JsonModel::Str(id)) ==> (r matches Ok(s) && s@ == id),
        !is_text(reply@, "sessionId"@) ==> r matches Err(ClientError::Reply(_)),
{
    lemma_words();
}

/// A reply ends the turn for the reason that stands in it.
pub proof fn law_reason_is_the_replys<W>(reply: &Json, r: Result<StopReason, ClientError>)
    requires
        call_ensures(AcpClient::<W>::turn_ended, (reply,), r),
        reply@ is Object,
    ensures
        forall|name: Seq<char>| #[trigger]
            holds(reply@, "stopReason"@, JsonModel::Str(name)) ==> (r matches Ok(reason)
                && names_reason(name, reason)),
        lacks(reply@, "stopReason"@) ==> r matches Err(ClientError::Reply(_)),
{
    lemma_words();
}

// ------------------------------------------------------------------- the client

/// A client starts with nothing sent, nobody waiting, nobody known, everything
/// denied, and the connection open.
pub proof fn law_client_starts_open<W>(r: AcpClient<W>)
    requires
        call_ensures(AcpClient::<W>::new, (), r),
    ensures
        r@.next_id == 1,
        r@.waiting.dom() =~= Set::empty(),
        r@.agent_info is None,
        r@.policy == PermissionPolicy::DenyAll,
        !r@.closed,
{
}

/// The policy is the one last set, and setting it changes nothing else.
pub proof fn law_policy_is_the_one_set<W>(
    policy: PermissionPolicy,
    c: &AcpClient<W>,
    r: PermissionPolicy,
)
    requires
        call_ensures(AcpClient::<W>::permission_policy, (c,), r),
    ensures
        forall|b: &mut AcpClient<W>| #[trigger]
            call_ensures(AcpClient::<W>::set_permission_policy, (b, policy), ()) && (*final(b))@
                == c@ ==> r == policy && c@.next_id == (*b)@.next_id && c@.waiting == (*b)@.waiting
                && c@.agent_info == (*b)@.agent_info && c@.closed == (*b)@.closed,
{
}

/// A line that the agent logs is passed on as it is while the connection is open.
pub proof fn law_log_is_passed_on<W>(c: &AcpClient<W>, line: String, r: Option<AgentEvent>)
    requires
        call_ensures(AcpClient::<W>::log, (c, line), r),
    ensures
        c@.closed ==> r is None,
        !c@.closed ==> (r matches Some(AgentEvent::Log(text)) && text@ == line@),
{
}

/// Whether an outcome says that the connection closed.
pub open spec fn says_closed(outcome: Outcome) -> bool {
    outcome matches Err(e) && e.code == -32603 && e.message@ == "agent closed the connection"@
}

/// Whether somebody is woken for a request, and who that is.
pub open spec fn wakes<W>(woken: Seq<Woken<W>>, i: int, id: u64) -> bool {
    0 <= i < woken.len() && woken[i].id == id
}

/// When the connection closes, everyone who waits is woken, once, with the error that
/// says so, and nobody else; the listeners are told of the exit the first time and
/// not again. After that nobody waits, and the client is closed for good.
pub proof fn law_close_wakes_everyone<W>(r: Closed<W>)
    ensures
        forall|c: &mut AcpClient<W>| #[trigger]
            call_ensures(AcpClient::<W>::close, (c,), r) ==> {
                &&& forall|id: u64| #[trigger]
                    (*c)@.waiting.dom().contains(id) ==> exists|i: int| #[trigger]
                        wakes(r.woken@, i, id) && r.woken@[i].waiter == (*c)@.waiting[id]
                &&& forall|i: int|
                    0 <= i < r.woken@.len() ==> (*c)@.waiting.dom().contains(
                        (#[trigger] r.woken@[i]).id,
                    ) && says_closed(r.woken@[i].outcome)
                &&& forall|i: int, j: int|
                    0 <= i < j < r.woken@.len() ==> (#[trigger] r.woken@[i]).id != (
                    #[trigger] r.woken@[j]).id
                &&& (*c)@.closed ==> r.event is None
                &&& !(*c)@.closed ==> r.event == Some(AgentEvent::Exited(None))
                &&& (*final(c))@.closed
                &&& forall|id: u64| !(#[trigger] (*final(c))@.waiting.dom().contains(id))
                &&& (*final(c))@.next_id == (*c)@.next_id
                &&& (*final(c))@.agent_info == (*c)@.agent_info
                &&& (*final(c))@.policy == (*c)@.policy
            },
{
    assert forall|c: &mut AcpClient<W>, id: u64|
        call_ensures(AcpClient::<W>::close, (c,), r) && (*c)@.waiting.dom().contains(
            id,
        ) implies exists|i: int| #[trigger]
        wakes(r.woken@, i, id) && r.woken@[i].waiter == (*c)@.waiting[id] by {
        let i = choose|i: int| 0 <= i < r.woken@.len() && (#[trigger] r.woken@[i]).id == id;
        assert(wakes(r.woken@, i, id));
    }
}

// ------------------------------------------------------------------- what is said

/// An error from the agent is told by its number and its text.
pub proof fn law_agent_error_is_told(e: &RpcErr, r: String)
    requires
        call_ensures(RpcErr::describe, (e,), r),
    ensures
        r@ == "agent error "@ + signed_decimal(e.code as int) + ": "@ + e.message@,
{
}

/// What is said of each error.
pub proof fn law_failure_is_told(e: &ClientError, r: String)
    requires
        call_ensures(ClientError::describe, (e,), r),
    ensures
        match e {
            ClientError::Rpc(f) => r@ == "agent error "@ + signed_decimal(f.code as int) + ": "@
                + f.message@,
            ClientError::TimedOut { waited, method } => r@ == "timed out after "@ + waited@
                + " waiting for `"@ + method@ + "`"@,
            ClientError::Reply(f) => r@ == f@.description(),
            ClientError::ProtocolTooNew { agent } => r@ == "agent speaks protocol v"@ + decimal(
                *agent as nat,
            ) + ", this client implements v1"@,
        },
{
    match e {
        ClientError::ProtocolTooNew { agent } => {
            reveal_with_fuel(decimal, 2);
            reveal_strlit(", this client implements v");
            reveal_strlit(", this client implements v1");
            assert(", this client implements v1"@ =~= ", this client implements v"@ + decimal(1));
            assert(r@ =~= "agent speaks protocol v"@ + decimal(*agent as nat)
                + ", this client implements v1"@);
        },
        _ => {},
    }
}

/// What is said of an agent that could not be started names the program and the
/// reason.
pub proof fn law_spawn_failure_is_told(program: &str, error: &str, r: String)
    requires
        call_ensures(spawn_failure, (program, error), r),
    ensures
        r@ == "could not start agent `"@ + program@ + "`: "@ + error@,
{
}

} // verus!
