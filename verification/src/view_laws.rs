//! What the views say: each part of a value is in its view as it is, so that what
//! holds of the views holds of the values.

use crate::agent::{
    rows, AgentData, AgentStatus, Entry, EntryView, StatusView, ToolEntry, CONNECT_TIMEOUT_SECONDS,
    TURN_TIMEOUT_SECONDS,
};
use crate::client::{AcpClient, AgentEvent, AgentEventView, ClientError, ClientErrorView, RpcErr};
use crate::decode::{DecodeError, DecodeErrorView};
use crate::protocol::{
    ClientCapabilities, ContentBlock, ContentBlockView, FsCapability, Implementation,
    InitializeResult, PermissionOption, PermissionPolicy, PlanEntry, RequestPermissionParams,
    SessionNotification, SessionUpdate, SessionUpdateView, ToolCall, ToolCallLocation,
    ToolCallUpdate,
};
use vstd::prelude::*;

verus! {

/// Whether an optional text is in a view as it is.
pub open spec fn is_same_text(s: Option<String>, v: Option<Seq<char>>) -> bool {
    match (s, v) {
        (Some(s), Some(v)) => s@ == v,
        (None, None) => true,
        _ => false,
    }
}

// ------------------------------------------------------------------ transcript

/// A row of the transcript is of its own kind, and holds its own text.
pub proof fn law_entry_is_viewed(e: Entry)
    ensures
        match e {
            Entry::User(s) => e@ == EntryView::User(s@),
            Entry::Agent(s) => e@ == EntryView::Agent(s@),
            Entry::Thought(s) => e@ == EntryView::Thought(s@),
            Entry::Notice(s) => e@ == EntryView::Notice(s@),
            Entry::Tool(t) => e@ == EntryView::Tool(t@),
        },
{
}

/// A tool row has its id, its title, its status, and its places in order.
pub proof fn law_tool_entry_is_viewed(t: ToolEntry)
    ensures
        t@.id == t.id@,
        t@.title == t.title@,
        t@.status == t.status,
        t@.locations.len() == t.locations@.len(),
        forall|i: int|
            0 <= i < t.locations@.len() ==> (#[trigger] t@.locations[i]).0 == t.locations@[i].0@
                && t@.locations[i].1 == t.locations@[i].1,
{
}

/// A status is itself, and a failure has its reason.
pub proof fn law_status_is_viewed(s: AgentStatus)
    ensures
        match s {
            AgentStatus::Stopped => s@ is Stopped,
            AgentStatus::Connecting => s@ is Connecting,
            AgentStatus::Ready => s@ is Ready,
            AgentStatus::Working => s@ is Working,
            AgentStatus::Failed(e) => s@ == StatusView::Failed(e@),
        },
{
}

/// A session is its rows, its status, its id, its agent's name and its client.
pub proof fn law_session_is_viewed<C>(d: AgentData<C>)
    ensures
        d@.rows == rows(d.entries),
        d@.status == d.status@,
        is_same_text(d.session_id, d@.session),
        is_same_text(d.agent_name, d@.name),
        d@.client == d.client,
{
}

/// Connecting may take a minute and a turn ten of them.
pub proof fn law_turn_may_take_longer()
    ensures
        CONNECT_TIMEOUT_SECONDS == 60,
        TURN_TIMEOUT_SECONDS == 10 * CONNECT_TIMEOUT_SECONDS,
{
}

// ---------------------------------------------------------------------- client

/// An event is of its own kind, with what it brings.
pub proof fn law_event_is_viewed(e: AgentEvent)
    ensures
        match e {
            AgentEvent::Update(n) => e@ == AgentEventView::Update(n@),
            AgentEvent::Log(line) => e@ == AgentEventView::Log(line@),
            AgentEvent::Exited(code) => e@ == AgentEventView::Exited(code),
        },
{
}

/// An error of the agent's is its number and its text.
pub proof fn law_agent_error_is_viewed(e: RpcErr)
    ensures
        e@.code == e.code,
        e@.message == e.message@,
{
}

/// An error is of its own kind, with what it is about.
pub proof fn law_failure_is_viewed(e: ClientError)
    ensures
        match e {
            ClientError::Rpc(f) => e@ == ClientErrorView::Rpc(f@),
            ClientError::TimedOut { waited, method } => e@ matches ClientErrorView::TimedOut {
                waited: w,
                method: m,
            } && w == waited@ && m == method@,
            ClientError::Reply(f) => e@ == ClientErrorView::Reply(f@),
            ClientError::ProtocolTooNew { agent } => e@ matches ClientErrorView::ProtocolTooNew {
                agent: a,
            } && a == agent,
        },
{
}

/// A reading error is of its own kind, with what it is about.
pub proof fn law_reading_error_is_viewed(e: DecodeError)
    ensures
        match e {
            DecodeError::MissingField { name } => e@ matches DecodeErrorView::MissingField {
                name: n,
            } && n == name@,
            DecodeError::InvalidType { found, expected } => e@ matches DecodeErrorView::InvalidType {
                found: f,
                expected: x,
            } && f == found@ && x == expected@,
            DecodeError::InvalidValue { found, expected } =>
                e@ matches DecodeErrorView::InvalidValue { found: f, expected: x } && f == found@
                && x == expected@,
            DecodeError::InvalidLength { length, expected } =>
                e@ matches DecodeErrorView::InvalidLength { length: n, expected: x } && n == length
                && x == expected@,
        },
{
}

/// What a client knows of its agent is what it gives out, and so is whether the
/// connection has closed.
pub proof fn law_client_tells_what_it_knows<W>(
    c: &AcpClient<W>,
    info: Option<&Implementation>,
    policy: PermissionPolicy,
    closed: bool,
)
    requires
        call_ensures(AcpClient::<W>::agent_info, (c,), info),
        call_ensures(AcpClient::<W>::permission_policy, (c,), policy),
        call_ensures(AcpClient::<W>::is_closed, (c,), closed),
    ensures
        match info {
            Some(i) => c@.agent_info matches Some(v) && v.name == i.name@ && is_same_text(
                i.title,
                v.title,
            ) && is_same_text(i.version, v.version),
            None => c@.agent_info is None,
        },
        policy == c@.policy,
        closed <==> c@.closed,
{
}

// -------------------------------------------------------------------- protocol

/// A program is its name, its title and its version.
pub proof fn law_implementation_is_viewed(i: Implementation)
    ensures
        i@.name == i.name@,
        is_same_text(i.title, i@.title),
        is_same_text(i.version, i@.version),
{
}

/// The agent's side of the handshake is its version, what it can do, who it is, and
/// how to log in.
pub proof fn law_handshake_is_viewed(r: InitializeResult)
    ensures
        r@.protocol_version == r.protocol_version,
        r@.agent_capabilities == r.agent_capabilities@,
        match (r.agent_info, r@.agent_info) {
            (Some(i), Some(v)) => i@ == v,
            (None, None) => true,
            _ => false,
        },
        r@.auth_methods.len() == r.auth_methods@.len(),
        forall|i: int|
            0 <= i < r.auth_methods@.len() ==> #[trigger] r@.auth_methods[i]
                == r.auth_methods@[i]@,
{
}

/// A block is of its own kind, with its own text.
pub proof fn law_block_is_viewed(b: ContentBlock)
    ensures
        match b {
            ContentBlock::Text { text } => b@ matches ContentBlockView::Text { text: t } && t
                == text@,
            ContentBlock::ResourceLink { uri } => b@ matches ContentBlockView::ResourceLink {
                uri: u,
            } && u == uri@,
            ContentBlock::Other => b@ is Other,
        },
{
}

/// A notification is its session, its update, and the update as it came where it is
/// not known.
pub proof fn law_notification_is_viewed(n: SessionNotification)
    ensures
        n@.session_id == n.session_id@,
        n@.update == n.update@,
        match (n.unrecognised, n@.unrecognised) {
            (Some(j), Some(m)) => j@ == m,
            (None, None) => true,
            _ => false,
        },
{
}

/// An update is of its own kind, with what it brings.
pub proof fn law_update_is_viewed(u: SessionUpdate)
    ensures
        match u {
            SessionUpdate::AgentMessageChunk { content } =>
                u@ matches SessionUpdateView::AgentMessageChunk { content: c } && c == content@,
            SessionUpdate::AgentThoughtChunk { content } =>
                u@ matches SessionUpdateView::AgentThoughtChunk { content: c } && c == content@,
            SessionUpdate::UserMessageChunk { content } =>
                u@ matches SessionUpdateView::UserMessageChunk { content: c } && c == content@,
            SessionUpdate::ToolCall(call) => u@ == SessionUpdateView::ToolCall(call@),
            SessionUpdate::ToolCallUpdate(news) => u@ == SessionUpdateView::ToolCallUpdate(news@),
            SessionUpdate::Plan { entries } => u@ matches SessionUpdateView::Plan { entries: e }
                && e.len() == entries@.len() && forall|i: int|
                0 <= i < e.len() ==> #[trigger] e[i] == entries@[i]@,
            SessionUpdate::Unknown => u@ is Unknown,
        },
{
}

/// A tool call is its id, title, kind, status, and its locations in order.
pub proof fn law_tool_call_is_viewed(c: ToolCall)
    ensures
        c@.tool_call_id == c.tool_call_id@,
        is_same_text(c.title, c@.title),
        c@.kind == c.kind,
        c@.status == c.status,
        c@.locations.len() == c.locations@.len(),
        forall|i: int|
            0 <= i < c.locations@.len() ==> #[trigger] c@.locations[i] == c.locations@[i]@,
{
}

/// The news of a tool call is its id, title, status, its locations and its contents in
/// order.
pub proof fn law_tool_news_is_viewed(u: ToolCallUpdate)
    ensures
        u@.tool_call_id == u.tool_call_id@,
        is_same_text(u.title, u@.title),
        u@.status == u.status,
        u@.locations.len() == u.locations@.len(),
        forall|i: int|
            0 <= i < u.locations@.len() ==> #[trigger] u@.locations[i] == u.locations@[i]@,
        u@.content.len() == u.content@.len(),
        forall|i: int| 0 <= i < u.content@.len() ==> #[trigger] u@.content[i] == u.content@[i]@,
{
}

/// A location is its path and its line.
pub proof fn law_location_is_viewed(l: ToolCallLocation)
    ensures
        l@.path == l.path@,
        l@.line == l.line,
{
}

/// A step of a plan is its text, its priority and its status.
pub proof fn law_plan_entry_is_viewed(e: PlanEntry)
    ensures
        e@.content == e.content@,
        is_same_text(e.priority, e@.priority),
        is_same_text(e.status, e@.status),
{
}

/// A request for permission is its session, its tool call, and its options in order.
pub proof fn law_permission_request_is_viewed(p: RequestPermissionParams)
    ensures
        p@.session_id == p.session_id@,
        match (p.tool_call, p@.tool_call) {
            (Some(t), Some(v)) => t@ == v,
            (None, None) => true,
            _ => false,
        },
        p@.options.len() == p.options@.len(),
        forall|i: int| 0 <= i < p.options@.len() ==> #[trigger] p@.options[i] == p.options@[i]@,
{
}

/// An option is its id, its name and its kind.
pub proof fn law_option_is_viewed(o: PermissionOption)
    ensures
        o@.option_id == o.option_id@,
        is_same_text(o.name, o@.name),
        o@.kind == o.kind,
{
}

/// By default nothing is offered and everything is denied.
pub proof fn law_defaults_offer_nothing(
    fs: FsCapability,
    capabilities: ClientCapabilities,
    policy: PermissionPolicy,
)
    requires
        call_ensures(FsCapability::default, (), fs),
        call_ensures(ClientCapabilities::default, (), capabilities),
        call_ensures(PermissionPolicy::default, (), policy),
    ensures
        !fs.read_text_file && !fs.write_text_file,
        capabilities.fs is None && capabilities.terminal is None,
        policy == PermissionPolicy::DenyAll,
{
}

} // verus!
