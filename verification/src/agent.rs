//! The editor's side of an agent session: the transcript and the session's life.
//!
//! Everything here is a decision. The functions take what happened and say what
//! changes and what to do about it; whoever calls them runs processes, waits for
//! replies, and draws.

use crate::client::{AgentEvent, AgentEventView};
use crate::protocol::{
    location_views, optional_text, InitializeResult, InitializeResultView, SessionUpdate,
    SessionUpdateView, StopReason, ToolCallLocation, ToolCallLocationView, ToolCallStatus,
    ToolCallUpdate, ToolCallUpdateView, ToolCallView,
};
use crate::text::{join2, join3, same_text, signed_decimal, signed_decimal_text, trim, trimmed};
use vstd::prelude::*;
use vstd::string::*;

verus! {

// ----------------------------------------------------------------- transcript

/// One row in the transcript.
#[derive(Debug)]
pub enum Entry {
    User(String),
    /// The answer. Streamed chunks append to the trailing entry rather than
    /// adding rows, or a streamed reply becomes one row per token.
    Agent(String),
    /// Reasoning. Separate from the answer and rendered dimmed -- a model's
    /// scratchpad is not what was asked for.
    Thought(String),
    Tool(ToolEntry),
    /// Status and errors: things the user should see that the agent did not say.
    Notice(String),
}

#[derive(Debug)]
pub struct ToolEntry {
    pub id: String,
    pub title: String,
    pub status: Option<ToolCallStatus>,
    /// Absolute paths with lines from 0 up, ready for the editor. These are what
    /// make a retrieval auditable: you can open what the agent actually read.
    pub locations: Vec<(String, u32)>,
}

pub enum EntryView {
    User(Seq<char>),
    Agent(Seq<char>),
    Thought(Seq<char>),
    Tool(ToolEntryView),
    Notice(Seq<char>),
}

pub struct ToolEntryView {
    pub id: Seq<char>,
    pub title: Seq<char>,
    pub status: Option<ToolCallStatus>,
    pub locations: Seq<(Seq<char>, u32)>,
}

impl View for ToolEntry {
    type V = ToolEntryView;

    open spec fn view(&self) -> ToolEntryView {
        ToolEntryView {
            id: self.id@,
            title: self.title@,
            status: self.status,
            locations: place_views(self.locations@),
        }
    }
}

impl View for Entry {
    type V = EntryView;

    open spec fn view(&self) -> EntryView {
        match self {
            Entry::User(s) => EntryView::User(s@),
            Entry::Agent(s) => EntryView::Agent(s@),
            Entry::Thought(s) => EntryView::Thought(s@),
            Entry::Tool(t) => EntryView::Tool(t@),
            Entry::Notice(s) => EntryView::Notice(s@),
        }
    }
}

pub open spec fn place_views(places: Seq<(String, u32)>) -> Seq<(Seq<char>, u32)> {
    Seq::new(places.len(), |i: int| (places[i].0@, places[i].1))
}

impl Clone for ToolEntry {
    fn clone(&self) -> (r: Self)
        ensures
            r@ == self@,
    {
        let mut locations: Vec<(String, u32)> = Vec::new();
        let mut i: usize = 0;
        while i < self.locations.len()
            invariant
                i <= self.locations@.len(),
                locations@.len() == i,
                forall|k: int|
                    0 <= k < i ==> (#[trigger] locations@[k]).0@ == self.locations@[k].0@
                        && locations@[k].1 == self.locations@[k].1,
            decreases self.locations.len() - i,
        {
            locations.push((self.locations[i].0.clone(), self.locations[i].1));
            i = i + 1;
        }
        assert(place_views(locations@) =~= place_views(self.locations@));
        ToolEntry {
            id: self.id.clone(),
            title: self.title.clone(),
            status: self.status,
            locations,
        }
    }
}

impl Clone for Entry {
    fn clone(&self) -> (r: Self)
        ensures
            r@ == self@,
    {
        match self {
            Entry::User(s) => Entry::User(s.clone()),
            Entry::Agent(s) => Entry::Agent(s.clone()),
            Entry::Thought(s) => Entry::Thought(s.clone()),
            Entry::Tool(t) => Entry::Tool(t.clone()),
            Entry::Notice(s) => Entry::Notice(s.clone()),
        }
    }
}

/// A list that shares its structure with its copies, as `im` keeps it.
#[verifier::external_type_specification]
#[verifier::external_body]
#[verifier::reject_recursive_types(A)]
pub struct ExVector<A>(im::Vector<A>);

/// The rows of a transcript, first to last.
pub uninterp spec fn rows(v: im::Vector<Entry>) -> Seq<EntryView>;

/// `im::Vector::new`: no rows.
#[verifier::external_body]
fn no_rows() -> (r: im::Vector<Entry>)
    ensures
        rows(r) == Seq::<EntryView>::empty(),
{
    im::Vector::new()
}

/// `im::Vector::len`: how many rows there are.
#[verifier::external_body]
pub(crate) fn row_count(v: &im::Vector<Entry>) -> (r: usize)
    ensures
        r == rows(*v).len(),
{
    v.len()
}

/// `im::Vector::get`: the row at an index, where there is one.
#[verifier::external_body]
pub(crate) fn row(v: &im::Vector<Entry>, index: usize) -> (r: Option<&Entry>)
    ensures
        match r {
            Some(e) => index < rows(*v).len() && e@ == rows(*v)[index as int],
            None => index >= rows(*v).len(),
        },
{
    v.get(index)
}

/// `im::Vector::get_mut`: the row at an index, to be changed in place. The other
/// rows stay as they are.
#[verifier::external_body]
fn row_mut(v: &mut im::Vector<Entry>, index: usize) -> (r: Option<&mut Entry>)
    ensures
        match r {
            Some(e) => {
                &&& index < rows(*old(v)).len()
                &&& (*e)@ == rows(*old(v))[index as int]
                &&& rows(*final(v)) == rows(*old(v)).update(index as int, (*final(e))@)
            },
            None => index >= rows(*old(v)).len() && rows(*final(v)) == rows(*old(v)),
        },
{
    v.get_mut(index)
}

/// `im::Vector::back_mut`: the last row, to be changed in place. The other rows
/// stay as they are.
#[verifier::external_body]
fn last_row_mut(v: &mut im::Vector<Entry>) -> (r: Option<&mut Entry>)
    ensures
        match r {
            Some(e) => {
                &&& rows(*old(v)).len() > 0
                &&& (*e)@ == rows(*old(v)).last()
                &&& rows(*final(v)) == rows(*old(v)).update(
                    rows(*old(v)).len() - 1,
                    (*final(e))@,
                )
            },
            None => rows(*old(v)).len() == 0 && rows(*final(v)) == rows(*old(v)),
        },
{
    v.back_mut()
}

/// `im::Vector::push_back`: one row more, at the end.
#[verifier::external_body]
fn add_row(v: &mut im::Vector<Entry>, entry: Entry)
    ensures
        rows(*final(v)) == rows(*old(v)).push(entry@),
{
    v.push_back(entry)
}

/// `im::Vector::clear`: no rows any more.
#[verifier::external_body]
fn clear_rows(v: &mut im::Vector<Entry>)
    ensures
        rows(*final(v)) == Seq::<EntryView>::empty(),
{
    v.clear()
}

/// A transcript after a chunk was streamed: the chunk goes to the last row where
/// that is of the same kind, and else to a row of its own.
pub open spec fn streamed(rows: Seq<EntryView>, text: Seq<char>, thought: bool) -> Seq<EntryView> {
    if rows.len() > 0 {
        match rows.last() {
            EntryView::Agent(s) if !thought => rows.update(
                rows.len() - 1,
                EntryView::Agent(s + text),
            ),
            EntryView::Thought(s) if thought => rows.update(
                rows.len() - 1,
                EntryView::Thought(s + text),
            ),
            _ => rows.push(chunk_row(text, thought)),
        }
    } else {
        rows.push(chunk_row(text, thought))
    }
}

/// A row that holds one chunk.
pub open spec fn chunk_row(text: Seq<char>, thought: bool) -> EntryView {
    if thought {
        EntryView::Thought(text)
    } else {
        EntryView::Agent(text)
    }
}

/// Append streamed text to the trailing entry when it is the same kind,
/// otherwise start a new one. Without this, a streamed reply renders as one row
/// per token.
pub fn append_streamed(entries: &mut im::Vector<Entry>, text: &str, thought: bool)
    ensures
        rows(*final(entries)) == streamed(rows(*old(entries)), text@, thought),
{
    match last_row_mut(entries) {
        Some(Entry::Agent(s)) => if !thought {
            s.append(text);
            return;
        },
        Some(Entry::Thought(s)) => if thought {
            s.append(text);
            return;
        },
        _ => {},
    }
    let entry = if thought {
        Entry::Thought(text.to_owned())
    } else {
        Entry::Agent(text.to_owned())
    };
    add_row(entries, entry);
}

/// The line the editor counts from 0 where the protocol counts from 1. Without a
/// line it is the first.
pub open spec fn zero_based(line: Option<u32>) -> u32 {
    match line {
        Some(n) => if n == 0 {
            0
        } else {
            (n - 1) as u32
        },
        None => 0,
    }
}

/// The places that the locations of a tool call are in the editor.
pub open spec fn located(locations: Seq<ToolCallLocationView>) -> Seq<(Seq<char>, u32)> {
    Seq::new(locations.len(), |i: int| (locations[i].path, zero_based(locations[i].line)))
}

/// The places that the locations of a tool call are in the editor.
pub fn to_locations(locations: &[ToolCallLocation]) -> (r: Vec<(String, u32)>)
    ensures
        place_views(r@) == located(location_views(locations@)),
{
    let mut places: Vec<(String, u32)> = Vec::new();
    let mut i: usize = 0;
    while i < locations.len()
        invariant
            i <= locations@.len(),
            places@.len() == i,
            forall|k: int|
                0 <= k < i ==> (#[trigger] places@[k]).0@ == locations@[k].path@ && places@[k].1
                    == zero_based(locations@[k].line),
        decreases locations.len() - i,
    {
        let line: u32 = match locations[i].line {
            Some(n) => n,
            None => 1,
        };
        places.push((locations[i].path.clone(), line.saturating_sub(1)));
        i = i + 1;
    }
    assert(place_views(places@) =~= located(location_views(locations@)));
    places
}

/// The last row that is about the tool call `id`.
pub open spec fn last_tool(rows: Seq<EntryView>, id: Seq<char>) -> Option<int>
    decreases rows.len(),
{
    if rows.len() == 0 {
        None
    } else if is_tool(rows.last(), id) {
        Some(rows.len() - 1)
    } else {
        last_tool(rows.drop_last(), id)
    }
}

/// Whether a row is about the tool call `id`.
pub open spec fn is_tool(row: EntryView, id: Seq<char>) -> bool {
    row matches EntryView::Tool(t) && t.id == id
}

/// A tool row after an update: what the update carries is new, the rest stays.
pub open spec fn merged(tool: ToolEntryView, update: ToolCallUpdateView) -> ToolEntryView {
    ToolEntryView {
        id: tool.id,
        title: match update.title {
            Some(title) => title,
            None => tool.title,
        },
        status: match update.status {
            Some(status) => Some(status),
            None => tool.status,
        },
        locations: if update.locations.len() > 0 {
            located(update.locations)
        } else {
            tool.locations
        },
    }
}

/// A transcript after an update of a tool call: the last row about that call is
/// merged with it. An update of an unknown call changes nothing.
pub open spec fn tool_updated(rows: Seq<EntryView>, update: ToolCallUpdateView) -> Seq<EntryView> {
    match last_tool(rows, update.tool_call_id) {
        Some(i) => rows.update(i, EntryView::Tool(merged(rows[i]->Tool_0, update))),
        None => rows,
    }
}

/// Merge a `tool_call_update` into its tool row.
///
/// Every field but the id is optional in the protocol -- an update carries only
/// what changed -- so an absent field must leave the existing value alone rather
/// than blanking it.
pub fn apply_tool_update(entries: &mut im::Vector<Entry>, update: &ToolCallUpdate)
    ensures
        rows(*final(entries)) == tool_updated(rows(*old(entries)), update@),
{
    let locations = to_locations(update.locations.as_slice());
    let mut i: usize = row_count(entries);
    assert(rows(*entries).take(i as int) =~= rows(*entries));
    while i > 0
        invariant
            *entries == *old(entries),
            i <= rows(*entries).len(),
            last_tool(rows(*entries), update.tool_call_id@) == last_tool(
                rows(*entries).take(i as int),
                update.tool_call_id@,
            ),
        ensures
            *entries == *old(entries),
            i == 0 ==> last_tool(rows(*entries), update.tool_call_id@) is None,
            i > 0 ==> last_tool(rows(*entries), update.tool_call_id@) == Some(i - 1),
            i > 0 ==> i <= rows(*entries).len() && is_tool(
                rows(*entries)[i - 1],
                update.tool_call_id@,
            ),
        decreases i,
    {
        assert(rows(*entries).take(i as int).drop_last() =~= rows(*entries).take(i - 1));
        let found: bool = match row(entries, i - 1) {
            Some(Entry::Tool(t)) => same_text(t.id.as_str(), update.tool_call_id.as_str()),
            _ => false,
        };
        if found {
            break;
        }
        i = i - 1;
    }
    if i == 0 {
        return;
    }
    if let Some(Entry::Tool(t)) = row_mut(entries, i - 1) {
        let ghost before = t@;
        assert(place_views(locations@).len() == update@.locations.len());
        if let Some(title) = &update.title {
            t.title = title.clone();
        }
        if update.status.is_some() {
            t.status = update.status;
        }
        if locations.len() > 0 {
            t.locations = locations;
        }
        assert(t@ == merged(before, update@));
    }
}

// --------------------------------------------------------------------- status

/// How long to wait for an agent to answer while connecting, in seconds.
/// Generous: an agent may be a cold interpreter importing a large runtime.
pub const CONNECT_TIMEOUT_SECONDS: u64 = 60;

/// How long to wait for a turn to end, in seconds. A turn can legitimately take
/// minutes on a local model.
pub const TURN_TIMEOUT_SECONDS: u64 = 600;

#[derive(Clone, Debug, PartialEq, Eq)]
pub enum AgentStatus {
    Stopped,
    Connecting,
    Ready,
    Working,
    /// Shown to the user verbatim.
    Failed(String),
}

pub enum StatusView {
    Stopped,
    Connecting,
    Ready,
    Working,
    Failed(Seq<char>),
}

impl View for AgentStatus {
    type V = StatusView;

    open spec fn view(&self) -> StatusView {
        match self {
            AgentStatus::Stopped => StatusView::Stopped,
            AgentStatus::Connecting => StatusView::Connecting,
            AgentStatus::Ready => StatusView::Ready,
            AgentStatus::Working => StatusView::Working,
            AgentStatus::Failed(e) => StatusView::Failed(e@),
        }
    }
}

impl StatusView {
    /// What is said of the status.
    pub open spec fn description(self) -> Seq<char> {
        match self {
            StatusView::Stopped => "not started"@,
            StatusView::Connecting => "connecting…"@,
            StatusView::Ready => "ready"@,
            StatusView::Working => "working…"@,
            StatusView::Failed(e) => "failed: "@ + e,
        }
    }

    /// Whether work is in flight.
    pub open spec fn busy(self) -> bool {
        self is Connecting || self is Working
    }
}

impl AgentStatus {
    pub fn describe(&self) -> (r: String)
        ensures
            r@ == self@.description(),
    {
        match self {
            AgentStatus::Stopped => "not started".to_owned(),
            AgentStatus::Connecting => "connecting…".to_owned(),
            AgentStatus::Ready => "ready".to_owned(),
            AgentStatus::Working => "working…".to_owned(),
            AgentStatus::Failed(e) => join2("failed: ", e.as_str()),
        }
    }

    pub fn is_busy(&self) -> (r: bool)
        ensures
            r == self@.busy(),
    {
        matches!(self, AgentStatus::Connecting | AgentStatus::Working)
    }
}

// ----------------------------------------------------------------- prompt text

/// What stands in the prompt box, kept as the editor keeps text.
#[verifier::external_body]
pub struct PromptText {
    rope: lapce_xi_rope::Rope,
}

/// The text in the prompt box.
pub uninterp spec fn prompt_contents(p: PromptText) -> Seq<char>;

impl View for PromptText {
    type V = Seq<char>;

    open spec fn view(&self) -> Seq<char> {
        prompt_contents(*self)
    }
}

/// `lapce_xi_rope::Rope::from` on text: a rope of that text.
#[verifier::external_body]
fn rope_from_text(text: &str) -> (r: PromptText)
    ensures
        prompt_contents(r) == text@,
{
    PromptText { rope: lapce_xi_rope::Rope::from(text) }
}

/// `Display` of `lapce_xi_rope::Rope`: the text of the rope.
#[verifier::external_body]
fn rope_to_text(p: &PromptText) -> (r: String)
    ensures
        r@ == prompt_contents(*p),
{
    p.rope.to_string()
}

impl PromptText {
    pub fn new(text: &str) -> (r: PromptText)
        ensures
            r@ == text@,
    {
        rope_from_text(text)
    }

    pub fn text(&self) -> (r: String)
        ensures
            r@ == self@,
    {
        rope_to_text(self)
    }
}

// -------------------------------------------------------------------- session

/// What it takes to start an agent.
#[derive(Debug)]
pub struct Launch {
    pub program: String,
    pub args: Vec<String>,
    pub cwd: String,
}

/// A turn to ask for.
#[derive(Debug)]
pub struct Turn {
    pub session: String,
    pub text: String,
}

/// A client with an open session, and the name of its agent.
#[derive(Debug)]
pub struct Connection<C> {
    pub client: C,
    pub session: String,
    pub name: String,
}

/// How an attempt to connect ended.
pub type Connected<C> = Result<Connection<C>, String>;

/// What comes next in connecting to an agent.
#[derive(Debug)]
pub enum ConnectStep<C> {
    /// Run the handshake.
    Handshake { client: C },
    /// Ask for a session.
    OpenSession { client: C, name: String },
    /// Nothing: the attempt has ended.
    Ended(Connected<C>),
}

/// What comes after starting the agent's process.
pub fn after_spawn<C>(spawned: Result<C, String>) -> (r: ConnectStep<C>)
    ensures
        match spawned {
            Ok(client) => r == (ConnectStep::Handshake { client }),
            Err(e) => r == ConnectStep::<C>::Ended(Err(e)),
        },
{
    match spawned {
        Ok(client) => ConnectStep::Handshake { client },
        Err(e) => ConnectStep::Ended(Err(e)),
    }
}

/// The agent's name: its own, or its program's where it gave none.
pub open spec fn name_of(init: InitializeResultView, program: Seq<char>) -> Seq<char> {
    match init.agent_info {
        Some(i) => i.name,
        None => program,
    }
}

/// What comes after the handshake.
pub fn after_handshake<C>(
    client: C,
    program: &str,
    initialized: Result<InitializeResult, String>,
) -> (r: ConnectStep<C>)
    ensures
        match initialized {
            Ok(init) => {
                &&& r matches ConnectStep::OpenSession { client: c, name }
                &&& c == client
                &&& name@ == name_of(init@, program@)
            },
            Err(e) => r matches ConnectStep::Ended(Err(f)) && f@ == "handshake: "@ + e@,
        },
{
    match initialized {
        Ok(init) => {
            let name: String = match init.agent_info {
                Some(i) => i.name,
                None => program.to_owned(),
            };
            ConnectStep::OpenSession { client, name }
        },
        Err(e) => ConnectStep::Ended(Err(join2("handshake: ", e.as_str()))),
    }
}

/// What comes after asking for a session.
pub fn after_new_session<C>(client: C, name: String, opened: Result<String, String>) -> (r:
    ConnectStep<C>)
    ensures
        match opened {
            Ok(session) => r == ConnectStep::Ended(Ok(Connection { client, session, name })),
            Err(e) => r matches ConnectStep::Ended(Err(f)) && f@ == "session: "@ + e@,
        },
{
    match opened {
        Ok(session) => ConnectStep::Ended(Ok(Connection { client, session, name })),
        Err(e) => ConnectStep::Ended(Err(join2("session: ", e.as_str()))),
    }
}

/// The state of an agent session. `C` is whatever the caller talks to the agent
/// through.
pub struct AgentData<C> {
    pub entries: im::Vector<Entry>,
    pub status: AgentStatus,
    pub session_id: Option<String>,
    pub agent_name: Option<String>,
    pub client: Option<C>,
}

#[verifier::ext_equal]
pub struct AgentView<C> {
    pub rows: Seq<EntryView>,
    pub status: StatusView,
    pub session: Option<Seq<char>>,
    pub name: Option<Seq<char>>,
    pub client: Option<C>,
}

impl<C> View for AgentData<C> {
    type V = AgentView<C>;

    open spec fn view(&self) -> AgentView<C> {
        AgentView {
            rows: rows(self.entries),
            status: self.status@,
            session: optional_text(self.session_id),
            name: optional_text(self.agent_name),
            client: self.client,
        }
    }
}

impl<C> AgentView<C> {
    /// The session before anything happened.
    pub open spec fn initial() -> AgentView<C> {
        AgentView {
            rows: Seq::empty(),
            status: StatusView::Stopped,
            session: None,
            name: None,
            client: None,
        }
    }

    /// The session with one row more.
    pub open spec fn with_row(self, row: EntryView) -> AgentView<C> {
        AgentView { rows: self.rows.push(row), ..self }
    }

    /// The session after an agent was asked to start.
    pub open spec fn started(self, program: Seq<char>) -> AgentView<C> {
        AgentView {
            status: StatusView::Connecting,
            rows: seq![EntryView::Notice("starting "@ + program + "…"@)],
            ..self
        }
    }

    /// The session after a client was adopted.
    pub open spec fn attached(self, client: C, session: Seq<char>, name: Seq<char>) -> AgentView<
        C,
    > {
        AgentView {
            rows: self.rows.push(EntryView::Notice("connected"@)),
            status: StatusView::Ready,
            session: Some(session),
            name: Some(name),
            client: Some(client),
        }
    }

    /// The session after something went wrong; `notice` tells the user.
    pub open spec fn failed(self, notice: Seq<char>, reason: Seq<char>) -> AgentView<C> {
        AgentView {
            rows: self.rows.push(EntryView::Notice(notice)),
            status: StatusView::Failed(reason),
            ..self
        }
    }

    /// Whether a prompt can be sent: a session is open and idle, and the prompt
    /// says something.
    pub open spec fn accepts(self, text: Seq<char>) -> bool {
        &&& self.client is Some
        &&& self.session is Some
        &&& self.status is Ready
        &&& trimmed(text).len() > 0
    }

    /// The session after a prompt was sent.
    pub open spec fn asked(self, text: Seq<char>) -> AgentView<C> {
        AgentView {
            rows: self.rows.push(EntryView::User(text)),
            status: StatusView::Working,
            ..self
        }
    }

    /// The session after a turn ended. Only a finished answer goes unremarked: one
    /// cut short looks just like it.
    pub open spec fn turned(self, reason: StopReason) -> AgentView<C> {
        AgentView {
            rows: if reason == StopReason::EndTurn {
                self.rows
            } else {
                self.rows.push(EntryView::Notice(reason.description()))
            },
            status: StatusView::Ready,
            ..self
        }
    }

    /// The session after it was stopped.
    pub open spec fn stopped(self) -> AgentView<C> {
        AgentView { status: StatusView::Stopped, session: None, client: None, ..self }
    }

    /// The session after an event.
    pub open spec fn told(self, event: AgentEventView) -> AgentView<C> {
        match event {
            AgentEventView::Update(n) => AgentView { rows: narrated(self.rows, n.update), ..self },
            AgentEventView::Log(_) => self,
            AgentEventView::Exited(code) => self.with_row(
                EntryView::Notice(exit_notice(code)),
            ).stopped(),
        }
    }
}

/// What the user is told of an agent's exit.
pub open spec fn exit_notice(code: Option<i32>) -> Seq<char> {
    match code {
        Some(c) => "agent exited ("@ + signed_decimal(c as int) + ")"@,
        None => "agent exited"@,
    }
}

/// The row that a tool call begins.
pub open spec fn tool_row(call: ToolCallView) -> EntryView {
    EntryView::Tool(
        ToolEntryView {
            id: call.tool_call_id,
            title: match call.title {
                Some(title) => title,
                None => "tool"@,
            },
            status: call.status,
            locations: located(call.locations),
        },
    )
}

/// A transcript after an update. What the agent says, thinks and does is shown as
/// it comes. An update of a kind that is not known is no error: it is shown to
/// have happened. Plans, and what the user said, are passed over.
pub open spec fn narrated(rows: Seq<EntryView>, update: SessionUpdateView) -> Seq<EntryView> {
    match update {
        SessionUpdateView::AgentMessageChunk { content } => match content.displayable() {
            Some(text) => streamed(rows, text, false),
            None => rows,
        },
        SessionUpdateView::AgentThoughtChunk { content } => match content.displayable() {
            Some(text) => streamed(rows, text, true),
            None => rows,
        },
        SessionUpdateView::ToolCall(call) => rows.push(tool_row(call)),
        SessionUpdateView::ToolCallUpdate(update) => tool_updated(rows, update),
        SessionUpdateView::Unknown => rows.push(EntryView::Notice("something happened"@)),
        _ => rows,
    }
}

impl<C> AgentData<C> {
    pub fn new() -> (r: Self)
        ensures
            r@ == AgentView::<C>::initial(),
    {
        AgentData {
            entries: no_rows(),
            status: AgentStatus::Stopped,
            session_id: None,
            agent_name: None,
            client: None,
        }
    }

    fn push(&mut self, entry: Entry)
        ensures
            final(self)@ == old(self)@.with_row(entry@),
    {
        add_row(&mut self.entries, entry);
    }

    fn append_streamed(&mut self, text: &str, thought: bool)
        ensures
            final(self)@ == (AgentView {
                rows: streamed(old(self)@.rows, text@, thought),
                ..old(self)@
            }),
    {
        append_streamed(&mut self.entries, text, thought);
    }

    /// Starts an agent in the directory `cwd`. While one is being started, or at
    /// work, this does nothing.
    pub fn start(&mut self, program: String, args: Vec<String>, cwd: String) -> (r: Option<Launch>)
        ensures
            if old(self)@.status.busy() {
                final(self)@ == old(self)@ && r is None
            } else {
                &&& final(self)@ == old(self)@.started(program@)
                &&& r == Some(Launch { program, args, cwd })
            },
    {
        if self.status.is_busy() {
            return None;
        }
        self.status = AgentStatus::Connecting;
        clear_rows(&mut self.entries);
        self.push(Entry::Notice(join3("starting ", program.as_str(), "…")));
        assert(self@.rows =~= old(self)@.started(program@).rows);
        Some(Launch { program, args, cwd })
    }

    /// Takes note of how an attempt to connect ended.
    pub fn connected(&mut self, result: Connected<C>)
        ensures
            match result {
                Ok(c) => final(self)@ == old(self)@.attached(c.client, c.session@, c.name@),
                Err(e) => final(self)@ == old(self)@.failed(e@, e@),
            },
    {
        match result {
            Ok(c) => self.attach(c.client, c.session, c.name),
            Err(e) => {
                self.push(Entry::Notice(e.clone()));
                self.status = AgentStatus::Failed(e);
            },
        }
    }

    /// Adopts a connected client.
    fn attach(&mut self, client: C, session: String, name: String)
        ensures
            final(self)@ == old(self)@.attached(client, session@, name@),
    {
        self.client = Some(client);
        self.session_id = Some(session);
        self.agent_name = Some(name);
        self.status = AgentStatus::Ready;
        self.push(Entry::Notice("connected".to_owned()));
    }

    /// Sends a prompt. No-op unless a session is open and idle.
    pub fn send(&mut self, text: String) -> (r: Option<Turn>)
        ensures
            if old(self)@.accepts(text@) {
                &&& final(self)@ == old(self)@.asked(text@)
                &&& r matches Some(turn)
                &&& Some(turn.session@) == old(self)@.session
                &&& turn.text@ == text@
            } else {
                final(self)@ == old(self)@ && r is None
            },
    {
        if self.client.is_none() {
            return None;
        }
        let session: String = match &self.session_id {
            Some(s) => s.clone(),
            None => {
                return None;
            },
        };
        let ready: bool = matches!(self.status, AgentStatus::Ready);
        if !ready || trim(text.as_str()).unicode_len() == 0 {
            return None;
        }
        self.push(Entry::User(text.clone()));
        self.status = AgentStatus::Working;
        Some(Turn { session, text })
    }

    /// Takes note of how a turn ended.
    pub fn turn_ended(&mut self, result: Result<StopReason, String>)
        ensures
            match result {
                Ok(reason) => final(self)@ == old(self)@.turned(reason),
                Err(e) => final(self)@ == old(self)@.failed("turn failed: "@ + e@, e@),
            },
    {
        match result {
            Ok(stop) => {
                if !stop.is_complete() {
                    self.push(Entry::Notice(stop.describe().to_owned()));
                }
                self.status = AgentStatus::Ready;
            },
            Err(e) => {
                self.push(Entry::Notice(join2("turn failed: ", e.as_str())));
                self.status = AgentStatus::Failed(e);
            },
        }
    }

    /// Sends the contents of the prompt box, then clears it. A box with nothing
    /// but white space in it is left alone.
    pub fn submit(&mut self, input: &mut PromptText) -> (r: Option<Turn>)
        ensures
            if old(self)@.accepts(old(input)@) {
                &&& final(self)@ == old(self)@.asked(old(input)@)
                &&& r matches Some(turn)
                &&& Some(turn.session@) == old(self)@.session
                &&& turn.text@ == old(input)@
            } else {
                final(self)@ == old(self)@ && r is None
            },
            if trimmed(old(input)@).len() == 0 {
                final(input)@ == old(input)@
            } else {
                final(input)@ == Seq::<char>::empty()
            },
    {
        let text = input.text();
        if trim(text.as_str()).unicode_len() == 0 {
            return None;
        }
        let turn = self.send(text);
        proof {
            reveal_strlit("");
        }
        *input = PromptText::new("");
        assert(input@ =~= Seq::<char>::empty());
        turn
    }

    /// The session whose running turn to interrupt, if one is open.
    pub fn cancel(&self) -> (r: Option<String>)
        ensures
            optional_text(r) == (if self@.client is Some {
                self@.session
            } else {
                None
            }),
    {
        if self.client.is_none() {
            return None;
        }
        match &self.session_id {
            Some(s) => Some(s.clone()),
            None => None,
        }
    }

    /// Gives up the session, and hands out the client that is to be shut down.
    pub fn stop(&mut self) -> (r: Option<C>)
        ensures
            final(self)@ == old(self)@.stopped(),
            r == old(self)@.client,
    {
        let client = self.client.take();
        self.session_id = None;
        self.status = AgentStatus::Stopped;
        client
    }

    /// Takes note of an event.
    pub fn apply(&mut self, event: AgentEvent)
        ensures
            final(self)@ == old(self)@.told(event@),
    {
        match event {
            AgentEvent::Update(n) => match n.update {
                SessionUpdate::AgentMessageChunk { content } => {
                    if let Some(t) = content.as_text() {
                        self.append_streamed(t, false);
                    }
                },
                SessionUpdate::AgentThoughtChunk { content } => {
                    if let Some(t) = content.as_text() {
                        self.append_streamed(t, true);
                    }
                },
                SessionUpdate::ToolCall(c) => {
                    let locations = to_locations(c.locations.as_slice());
                    let title: String = match c.title {
                        Some(title) => title,
                        None => "tool".to_owned(),
                    };
                    self.push(
                        Entry::Tool(
                            ToolEntry { id: c.tool_call_id, title, status: c.status, locations },
                        ),
                    );
                },
                SessionUpdate::ToolCallUpdate(u) => apply_tool_update(&mut self.entries, &u),
                // Whatever it is, the user should know that it happened.
                SessionUpdate::Unknown => {
                    self.push(Entry::Notice("something happened".to_owned()))
                },
                // Plans are not rendered specially yet.
                _ => {},
            },
            // The agent's log is not its answer, so it stays out of the
            // transcript. Failures surface through status instead.
            AgentEvent::Log(_) => {},
            AgentEvent::Exited(code) => {
                let notice = match code {
                    Some(c) => join3(
                        "agent exited (",
                        signed_decimal_text(c as i64).as_str(),
                        ")",
                    ),
                    None => "agent exited".to_owned(),
                };
                self.push(Entry::Notice(notice));
                self.status = AgentStatus::Stopped;
                self.client = None;
                self.session_id = None;
            },
        }
    }
}

} // verus!
