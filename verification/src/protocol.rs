//! The types of the Agent Client Protocol.
//!
//! ACP is how an editor talks to a coding agent it runs as a subprocess:
//! JSON-RPC 2.0, one message to a line, over the agent's standard streams.
//!
//! Only the parts an editor must understand are typed. Everything else stays
//! [`Json`] on purpose: the protocol grows, and an update of a kind this client
//! has not heard of should render as "something happened" rather than drop the
//! connection. Refusing to read a message one merely does not recognise is how a
//! client breaks against a newer agent.
//!
//! Names are camelCase on the wire and snake_case here.

use crate::json::{Json, JsonModel};
use vstd::prelude::*;

verus! {

/// The protocol version this client implements.
pub const PROTOCOL_VERSION: u32 = 1;

/// The text in an optional string.
pub open spec fn optional_text(s: Option<String>) -> Option<Seq<char>> {
    match s {
        Some(t) => Some(t@),
        None => None,
    }
}

pub(crate) fn clone_optional_text(s: &Option<String>) -> (r: Option<String>)
    ensures
        optional_text(r) == optional_text(*s),
{
    match s {
        Some(t) => Some(t.clone()),
        None => None,
    }
}

// ---------------------------------------------------------------- initialize

/// What the client says of itself in the handshake.
#[derive(Debug, Clone)]
pub struct InitializeParams {
    pub protocol_version: u32,
    pub client_capabilities: ClientCapabilities,
    pub client_info: Implementation,
}

#[derive(Debug, Clone)]
pub struct ClientCapabilities {
    pub fs: Option<FsCapability>,
    pub terminal: Option<bool>,
}

/// What the agent may ask the editor to do on its behalf.
///
/// Claiming a capability is a promise to service the matching request, so these
/// are false until the handlers exist.
#[derive(Debug, Clone)]
pub struct FsCapability {
    pub read_text_file: bool,
    pub write_text_file: bool,
}

impl Default for FsCapability {
    fn default() -> (r: Self)
        ensures
            !r.read_text_file,
            !r.write_text_file,
    {
        FsCapability { read_text_file: false, write_text_file: false }
    }
}

impl Default for ClientCapabilities {
    fn default() -> (r: Self)
        ensures
            r.fs is None,
            r.terminal is None,
    {
        ClientCapabilities { fs: None, terminal: None }
    }
}

/// A program that speaks the protocol.
#[derive(Debug)]
pub struct Implementation {
    pub name: String,
    pub title: Option<String>,
    pub version: Option<String>,
}

pub struct ImplementationView {
    pub name: Seq<char>,
    pub title: Option<Seq<char>>,
    pub version: Option<Seq<char>>,
}

impl View for Implementation {
    type V = ImplementationView;

    open spec fn view(&self) -> ImplementationView {
        ImplementationView {
            name: self.name@,
            title: optional_text(self.title),
            version: optional_text(self.version),
        }
    }
}

impl Clone for Implementation {
    fn clone(&self) -> (r: Self)
        ensures
            r@ == self@,
    {
        Implementation {
            name: self.name.clone(),
            title: clone_optional_text(&self.title),
            version: clone_optional_text(&self.version),
        }
    }
}

/// What the agent says of itself in the handshake.
#[derive(Debug, Clone)]
pub struct InitializeResult {
    pub protocol_version: u32,
    pub agent_capabilities: Json,
    pub agent_info: Option<Implementation>,
    pub auth_methods: Vec<Json>,
}

pub struct InitializeResultView {
    pub protocol_version: u32,
    pub agent_capabilities: JsonModel,
    pub agent_info: Option<ImplementationView>,
    pub auth_methods: Seq<JsonModel>,
}

impl View for InitializeResult {
    type V = InitializeResultView;

    open spec fn view(&self) -> InitializeResultView {
        InitializeResultView {
            protocol_version: self.protocol_version,
            agent_capabilities: self.agent_capabilities@,
            agent_info: match self.agent_info {
                Some(i) => Some(i@),
                None => None,
            },
            auth_methods: Json::items_model(self.auth_methods@),
        }
    }
}

impl FsCapability {
    /// The capability as it stands on the wire.
    pub open spec fn wire(self) -> JsonModel {
        JsonModel::Object(
            Map::empty()
                .insert("readTextFile"@, JsonModel::Bool(self.read_text_file))
                .insert("writeTextFile"@, JsonModel::Bool(self.write_text_file)),
        )
    }

    pub fn to_json(&self) -> (r: Json)
        ensures
            r@ == self.wire(),
    {
        Json::object()
            .with("readTextFile", Json::Bool(self.read_text_file))
            .with("writeTextFile", Json::Bool(self.write_text_file))
    }
}

impl ClientCapabilities {
    /// The capabilities as they stand on the wire; an unset one is left out.
    pub open spec fn wire(self) -> JsonModel {
        let base: Map<Seq<char>, JsonModel> = Map::empty();
        let with_fs = match self.fs {
            Some(fs) => base.insert("fs"@, fs.wire()),
            None => base,
        };
        JsonModel::Object(
            match self.terminal {
                Some(t) => with_fs.insert("terminal"@, JsonModel::Bool(t)),
                None => with_fs,
            },
        )
    }

    pub fn to_json(&self) -> (r: Json)
        ensures
            r@ == self.wire(),
    {
        let base = Json::object();
        let with_fs = match &self.fs {
            Some(fs) => base.with("fs", fs.to_json()),
            None => base,
        };
        match self.terminal {
            Some(t) => with_fs.with("terminal", Json::Bool(t)),
            None => with_fs,
        }
    }
}

impl ImplementationView {
    /// The program's name as it stands on the wire; an unset part is left out.
    pub open spec fn wire(self) -> JsonModel {
        let base: Map<Seq<char>, JsonModel> = Map::empty().insert(
            "name"@,
            JsonModel::Str(self.name),
        );
        let with_title = match self.title {
            Some(t) => base.insert("title"@, JsonModel::Str(t)),
            None => base,
        };
        JsonModel::Object(
            match self.version {
                Some(v) => with_title.insert("version"@, JsonModel::Str(v)),
                None => with_title,
            },
        )
    }
}

impl Implementation {
    pub fn to_json(&self) -> (r: Json)
        ensures
            r@ == self@.wire(),
    {
        let base = Json::object().with("name", Json::text(self.name.as_str()));
        let with_title = match &self.title {
            Some(t) => base.with("title", Json::text(t.as_str())),
            None => base,
        };
        match &self.version {
            Some(v) => with_title.with("version", Json::text(v.as_str())),
            None => with_title,
        }
    }
}

impl InitializeParams {
    /// The parameters as they stand on the wire.
    pub open spec fn wire(self) -> JsonModel {
        JsonModel::Object(
            Map::empty()
                .insert("protocolVersion"@, JsonModel::Integer(self.protocol_version as int))
                .insert("clientCapabilities"@, self.client_capabilities.wire())
                .insert("clientInfo"@, self.client_info@.wire()),
        )
    }

    pub fn to_json(&self) -> (r: Json)
        ensures
            r@ == self.wire(),
    {
        Json::object()
            .with("protocolVersion", Json::unsigned(self.protocol_version as u64))
            .with("clientCapabilities", self.client_capabilities.to_json())
            .with("clientInfo", self.client_info.to_json())
    }
}

// ------------------------------------------------------------------ sessions

#[derive(Debug, Clone)]
pub struct NewSessionParams {
    /// Absolute path. The protocol requires it, and agents reject relative paths.
    pub cwd: String,
    pub mcp_servers: Vec<Json>,
}

impl NewSessionParams {
    /// The parameters as they stand on the wire.
    pub open spec fn wire(self) -> JsonModel {
        JsonModel::Object(
            Map::empty()
                .insert("cwd"@, JsonModel::Str(self.cwd@))
                .insert("mcpServers"@, JsonModel::Array(Json::items_model(self.mcp_servers@))),
        )
    }

    pub fn into_json(self) -> (r: Json)
        ensures
            r@ == self.wire(),
    {
        Json::object()
            .with("cwd", Json::Str(self.cwd))
            .with("mcpServers", Json::Array(self.mcp_servers))
    }
}

#[derive(Debug, Clone)]
pub struct NewSessionResult {
    pub session_id: String,
}

#[derive(Debug, Clone)]
pub struct PromptParams {
    pub session_id: String,
    pub prompt: Vec<ContentBlock>,
}

impl PromptParams {
    /// The parameters as they stand on the wire.
    pub open spec fn wire(self) -> JsonModel {
        JsonModel::Object(
            Map::empty()
                .insert("sessionId"@, JsonModel::Str(self.session_id@))
                .insert(
                    "prompt"@,
                    JsonModel::Array(
                        Seq::new(self.prompt@.len(), |i: int| self.prompt@[i]@.wire()),
                    ),
                ),
        )
    }

    pub fn into_json(self) -> (r: Json)
        ensures
            r@ == self.wire(),
    {
        let ghost blocks = self.prompt@;
        let mut items: Vec<Json> = Vec::new();
        for block in it: self.prompt
            invariant
                it.seq() == blocks,
                items@.len() == it.index(),
                forall|k: int| 0 <= k < items@.len() ==> items@[k].model() == blocks[k]@.wire(),
        {
            items.push(block.to_json());
        }
        assert(Json::items_model(items@) =~= Seq::new(
            blocks.len(),
            |i: int| blocks[i]@.wire(),
        ));
        Json::object()
            .with("sessionId", Json::Str(self.session_id))
            .with("prompt", Json::Array(items))
    }
}

#[derive(Debug, Clone)]
pub struct CancelParams {
    pub session_id: String,
}

impl CancelParams {
    /// The parameters as they stand on the wire.
    pub open spec fn wire(self) -> JsonModel {
        JsonModel::Object(Map::empty().insert("sessionId"@, JsonModel::Str(self.session_id@)))
    }

    pub fn into_json(self) -> (r: Json)
        ensures
            r@ == self.wire(),
    {
        Json::object().with("sessionId", Json::Str(self.session_id))
    }
}

#[derive(Debug, Clone)]
pub struct PromptResult {
    pub stop_reason: StopReason,
}

/// Why a turn ended. `EndTurn` is the only one meaning "this answer is complete";
/// the rest each need saying out loud, because a reply cut off at the token limit
/// looks just like a finished one.
#[derive(Debug, Clone, Copy, PartialEq, Eq, Structural)]
pub enum StopReason {
    EndTurn,
    MaxTokens,
    MaxTurnRequests,
    Refusal,
    Cancelled,
    /// Anything a newer agent introduces. Unknown is not an error.
    Unknown,
}

impl StopReason {
    /// Whether the turn finished normally, as opposed to being cut short.
    pub fn is_complete(self) -> (r: bool)
        ensures
            r == (self == StopReason::EndTurn),
    {
        matches!(self, StopReason::EndTurn)
    }

    /// What is said of the reason.
    pub open spec fn description(self) -> Seq<char> {
        match self {
            StopReason::EndTurn => "done"@,
            StopReason::MaxTokens => "stopped: token limit reached"@,
            StopReason::MaxTurnRequests => "stopped: too many requests this turn"@,
            StopReason::Refusal => "the agent declined"@,
            StopReason::Cancelled => "cancelled"@,
            StopReason::Unknown => "stopped for an unrecognised reason"@,
        }
    }

    pub fn describe(self) -> (r: &'static str)
        ensures
            r@ == self.description(),
    {
        match self {
            StopReason::EndTurn => "done",
            StopReason::MaxTokens => "stopped: token limit reached",
            StopReason::MaxTurnRequests => "stopped: too many requests this turn",
            StopReason::Refusal => "the agent declined",
            StopReason::Cancelled => "cancelled",
            StopReason::Unknown => "stopped for an unrecognised reason",
        }
    }
}

// -------------------------------------------------------------- content blocks

#[derive(Debug, Clone)]
pub enum ContentBlock {
    Text { text: String },
    ResourceLink { uri: String },
    /// Images, embedded resources and anything added later.
    Other,
}

pub enum ContentBlockView {
    Text { text: Seq<char> },
    ResourceLink { uri: Seq<char> },
    Other,
}

impl View for ContentBlock {
    type V = ContentBlockView;

    open spec fn view(&self) -> ContentBlockView {
        match self {
            ContentBlock::Text { text } => ContentBlockView::Text { text: text@ },
            ContentBlock::ResourceLink { uri } => ContentBlockView::ResourceLink { uri: uri@ },
            ContentBlock::Other => ContentBlockView::Other,
        }
    }
}

impl ContentBlockView {
    /// The block as it stands on the wire.
    pub open spec fn wire(self) -> JsonModel {
        JsonModel::Object(
            match self {
                ContentBlockView::Text { text } => Map::empty().insert(
                    "type"@,
                    JsonModel::Str("text"@),
                ).insert("text"@, JsonModel::Str(text)),
                ContentBlockView::ResourceLink { uri } => Map::empty().insert(
                    "type"@,
                    JsonModel::Str("resource_link"@),
                ).insert("uri"@, JsonModel::Str(uri)),
                ContentBlockView::Other => Map::empty().insert(
                    "type"@,
                    JsonModel::Str("other"@),
                ),
            },
        )
    }

    /// The displayable text, if the block has any.
    pub open spec fn displayable(self) -> Option<Seq<char>> {
        match self {
            ContentBlockView::Text { text } => Some(text),
            _ => None,
        }
    }
}

impl ContentBlock {
    /// A block of text.
    pub fn text(s: &str) -> (r: Self)
        ensures
            r@ == (ContentBlockView::Text { text: s@ }),
    {
        ContentBlock::Text { text: s.to_owned() }
    }

    /// The displayable text, if this block has any.
    pub fn as_text(&self) -> (r: Option<&str>)
        ensures
            r is Some <==> self@.displayable() is Some,
            r is Some ==> self@.displayable() == Some(r->Some_0@),
    {
        match self {
            ContentBlock::Text { text } => Some(text.as_str()),
            _ => None,
        }
    }

    pub fn to_json(&self) -> (r: Json)
        ensures
            r@ == self@.wire(),
    {
        match self {
            ContentBlock::Text { text } => Json::object().with("type", Json::text("text")).with(
                "text",
                Json::text(text.as_str()),
            ),
            ContentBlock::ResourceLink { uri } => Json::object().with(
                "type",
                Json::text("resource_link"),
            ).with("uri", Json::text(uri.as_str())),
            ContentBlock::Other => Json::object().with("type", Json::text("other")),
        }
    }
}

// ----------------------------------------------------------- session updates

/// One `session/update` notification: the agent narrating its turn.
#[derive(Debug, Clone)]
pub struct SessionNotification {
    pub session_id: String,
    pub update: SessionUpdate,
    /// An update of a kind this client has not heard of, as it came.
    pub unrecognised: Option<Json>,
}

pub struct SessionNotificationView {
    pub session_id: Seq<char>,
    pub update: SessionUpdateView,
    pub unrecognised: Option<JsonModel>,
}

impl View for SessionNotification {
    type V = SessionNotificationView;

    open spec fn view(&self) -> SessionNotificationView {
        SessionNotificationView {
            session_id: self.session_id@,
            update: self.update@,
            unrecognised: match self.unrecognised {
                Some(j) => Some(j@),
                None => None,
            },
        }
    }
}

/// The kinds of update an editor renders differently.
///
/// `Unknown` is deliberate: the protocol gains kinds over time, and an editor
/// that fails on one it has not heard of stops working the day an agent updates.
/// The notification keeps such an update whole, and the transcript says that
/// something happened.
#[derive(Debug, Clone)]
pub enum SessionUpdate {
    AgentMessageChunk { content: ContentBlock },
    /// Reasoning, not the answer.
    AgentThoughtChunk { content: ContentBlock },
    UserMessageChunk { content: ContentBlock },
    ToolCall(ToolCall),
    ToolCallUpdate(ToolCallUpdate),
    Plan { entries: Vec<PlanEntry> },
    Unknown,
}

pub enum SessionUpdateView {
    AgentMessageChunk { content: ContentBlockView },
    AgentThoughtChunk { content: ContentBlockView },
    UserMessageChunk { content: ContentBlockView },
    ToolCall(ToolCallView),
    ToolCallUpdate(ToolCallUpdateView),
    Plan { entries: Seq<PlanEntryView> },
    Unknown,
}

impl View for SessionUpdate {
    type V = SessionUpdateView;

    open spec fn view(&self) -> SessionUpdateView {
        match self {
            SessionUpdate::AgentMessageChunk { content } => SessionUpdateView::AgentMessageChunk {
                content: content@,
            },
            SessionUpdate::AgentThoughtChunk { content } => SessionUpdateView::AgentThoughtChunk {
                content: content@,
            },
            SessionUpdate::UserMessageChunk { content } => SessionUpdateView::UserMessageChunk {
                content: content@,
            },
            SessionUpdate::ToolCall(c) => SessionUpdateView::ToolCall(c@),
            SessionUpdate::ToolCallUpdate(u) => SessionUpdateView::ToolCallUpdate(u@),
            SessionUpdate::Plan { entries } => SessionUpdateView::Plan {
                entries: plan_views(entries@),
            },
            SessionUpdate::Unknown => SessionUpdateView::Unknown,
        }
    }
}

/// A tool the agent started to use.
#[derive(Debug, Clone)]
pub struct ToolCall {
    pub tool_call_id: String,
    pub title: Option<String>,
    pub kind: Option<ToolKind>,
    pub status: Option<ToolCallStatus>,
    pub locations: Vec<ToolCallLocation>,
}

pub struct ToolCallView {
    pub tool_call_id: Seq<char>,
    pub title: Option<Seq<char>>,
    pub kind: Option<ToolKind>,
    pub status: Option<ToolCallStatus>,
    pub locations: Seq<ToolCallLocationView>,
}

impl View for ToolCall {
    type V = ToolCallView;

    open spec fn view(&self) -> ToolCallView {
        ToolCallView {
            tool_call_id: self.tool_call_id@,
            title: optional_text(self.title),
            kind: self.kind,
            status: self.status,
            locations: location_views(self.locations@),
        }
    }
}

/// News of a tool call. Every field but the id is optional: an update carries
/// only what changed.
#[derive(Debug, Clone)]
pub struct ToolCallUpdate {
    pub tool_call_id: String,
    pub title: Option<String>,
    pub status: Option<ToolCallStatus>,
    pub locations: Vec<ToolCallLocation>,
    pub content: Vec<Json>,
}

pub struct ToolCallUpdateView {
    pub tool_call_id: Seq<char>,
    pub title: Option<Seq<char>>,
    pub status: Option<ToolCallStatus>,
    pub locations: Seq<ToolCallLocationView>,
    pub content: Seq<JsonModel>,
}

impl View for ToolCallUpdate {
    type V = ToolCallUpdateView;

    open spec fn view(&self) -> ToolCallUpdateView {
        ToolCallUpdateView {
            tool_call_id: self.tool_call_id@,
            title: optional_text(self.title),
            status: self.status,
            locations: location_views(self.locations@),
            content: Json::items_model(self.content@),
        }
    }
}

/// A file the tool touched. Paths are absolute and lines start at 1.
#[derive(Debug, Clone)]
pub struct ToolCallLocation {
    pub path: String,
    pub line: Option<u32>,
}

pub struct ToolCallLocationView {
    pub path: Seq<char>,
    pub line: Option<u32>,
}

impl View for ToolCallLocation {
    type V = ToolCallLocationView;

    open spec fn view(&self) -> ToolCallLocationView {
        ToolCallLocationView { path: self.path@, line: self.line }
    }
}

pub open spec fn location_views(locations: Seq<ToolCallLocation>) -> Seq<ToolCallLocationView> {
    Seq::new(locations.len(), |i: int| locations[i]@)
}

#[derive(Debug, Clone, Copy, PartialEq, Eq, Structural)]
pub enum ToolKind {
    Read,
    Edit,
    Delete,
    Move,
    Search,
    Execute,
    Think,
    Fetch,
    SwitchMode,
    Other,
    Unknown,
}

#[derive(Debug, Clone, Copy, PartialEq, Eq, Structural)]
pub enum ToolCallStatus {
    Pending,
    InProgress,
    Completed,
    Failed,
    Unknown,
}

/// One step of a plan.
#[derive(Debug, Clone)]
pub struct PlanEntry {
    pub content: String,
    pub priority: Option<String>,
    pub status: Option<String>,
}

pub struct PlanEntryView {
    pub content: Seq<char>,
    pub priority: Option<Seq<char>>,
    pub status: Option<Seq<char>>,
}

impl View for PlanEntry {
    type V = PlanEntryView;

    open spec fn view(&self) -> PlanEntryView {
        PlanEntryView {
            content: self.content@,
            priority: optional_text(self.priority),
            status: optional_text(self.status),
        }
    }
}

pub open spec fn plan_views(entries: Seq<PlanEntry>) -> Seq<PlanEntryView> {
    Seq::new(entries.len(), |i: int| entries[i]@)
}

// ----------------------------------------------------------- permissions

/// An agent asking before it does something consequential.
#[derive(Debug, Clone)]
pub struct RequestPermissionParams {
    pub session_id: String,
    pub tool_call: Option<ToolCallUpdate>,
    pub options: Vec<PermissionOption>,
}

pub struct RequestPermissionParamsView {
    pub session_id: Seq<char>,
    pub tool_call: Option<ToolCallUpdateView>,
    pub options: Seq<PermissionOptionView>,
}

impl View for RequestPermissionParams {
    type V = RequestPermissionParamsView;

    open spec fn view(&self) -> RequestPermissionParamsView {
        RequestPermissionParamsView {
            session_id: self.session_id@,
            tool_call: match self.tool_call {
                Some(t) => Some(t@),
                None => None,
            },
            options: option_views(self.options@),
        }
    }
}

/// One of the answers an agent offers.
#[derive(Debug, Clone)]
pub struct PermissionOption {
    pub option_id: String,
    pub name: Option<String>,
    pub kind: Option<PermissionKind>,
}

pub struct PermissionOptionView {
    pub option_id: Seq<char>,
    pub name: Option<Seq<char>>,
    pub kind: Option<PermissionKind>,
}

impl View for PermissionOption {
    type V = PermissionOptionView;

    open spec fn view(&self) -> PermissionOptionView {
        PermissionOptionView {
            option_id: self.option_id@,
            name: optional_text(self.name),
            kind: self.kind,
        }
    }
}

pub open spec fn option_views(options: Seq<PermissionOption>) -> Seq<PermissionOptionView> {
    Seq::new(options.len(), |i: int| options[i]@)
}

#[derive(Debug, Clone, Copy, PartialEq, Eq, Structural)]
pub enum PermissionKind {
    AllowOnce,
    AllowAlways,
    RejectOnce,
    RejectAlways,
    Unknown,
}

impl PermissionKind {
    pub open spec fn allows(self) -> bool {
        self == PermissionKind::AllowOnce || self == PermissionKind::AllowAlways
    }

    pub fn is_allow(self) -> (r: bool)
        ensures
            r == self.allows(),
    {
        matches!(self, PermissionKind::AllowOnce | PermissionKind::AllowAlways)
    }
}

/// What the client does when an agent asks for permission.
///
/// The default is to refuse. An editor that silently grants whatever it is
/// asked is worse than one that cannot grant at all, because the user believes
/// they are being consulted.
#[derive(Debug, Clone, Copy, PartialEq, Eq, Structural)]
pub enum PermissionPolicy {
    DenyAll,
    /// Grant single-use permission automatically. For a trusted local agent.
    AllowOnce,
}

impl Default for PermissionPolicy {
    fn default() -> (r: Self)
        ensures
            r == PermissionPolicy::DenyAll,
    {
        PermissionPolicy::DenyAll
    }
}

} // verus!
