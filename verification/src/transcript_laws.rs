//! What becomes of the transcript and the session, call by call: each law is about
//! the rows and the state before a call and after it.

use crate::agent::{
    after_handshake, after_new_session, after_spawn, append_streamed, apply_tool_update, is_tool,
    last_tool, located, place_views, rows, to_locations, tool_updated, AgentData, AgentStatus,
    AgentView, ConnectStep, Connected, Entry, EntryView, Launch, PromptText, StatusView,
    ToolEntryView, Turn,
};
use crate::agent_laws::law_last_tool_is_last;
use crate::client::{AgentEvent, AgentEventView};
use crate::protocol::{
    location_views, ContentBlock, ContentBlockView, InitializeResult, SessionNotification,
    SessionNotificationView, SessionUpdate, SessionUpdateView, StopReason, ToolCallLocation,
    ToolCallLocationView, ToolCallUpdate, ToolCallUpdateView, ToolCallView,
};
use crate::text::{is_white, lemma_trimmed_empty, signed_decimal};
use vstd::prelude::*;

verus! {

// ------------------------------------------------------------------------ rows

/// Whether a transcript has one row more, and the others as they were.
pub open spec fn gains(before: Seq<EntryView>, after: Seq<EntryView>, row: EntryView) -> bool {
    &&& after.len() == before.len() + 1
    &&& after[before.len() as int] == row
    &&& forall|i: int| 0 <= i < before.len() ==> #[trigger] after[i] == before[i]
}

/// Whether a transcript has another row at that place, and the others as they were.
pub open spec fn changes(
    before: Seq<EntryView>,
    after: Seq<EntryView>,
    at: int,
    row: EntryView,
) -> bool {
    &&& 0 <= at < before.len()
    &&& after.len() == before.len()
    &&& after[at] == row
    &&& forall|i: int| 0 <= i < before.len() && i != at ==> #[trigger] after[i] == before[i]
}

/// Whether what the agent said was added: to the answer that stands last, or as an
/// answer of its own where the last row is anything else.
pub open spec fn says(before: Seq<EntryView>, after: Seq<EntryView>, text: Seq<char>) -> bool {
    if before.len() > 0 && before[before.len() - 1] is Agent {
        changes(
            before,
            after,
            before.len() - 1,
            EntryView::Agent(before[before.len() - 1]->Agent_0 + text),
        )
    } else {
        gains(before, after, EntryView::Agent(text))
    }
}

/// Whether what the agent thought was added: to the thought that stands last, or as
/// a thought of its own where the last row is anything else.
pub open spec fn thinks(before: Seq<EntryView>, after: Seq<EntryView>, text: Seq<char>) -> bool {
    if before.len() > 0 && before[before.len() - 1] is Thought {
        changes(
            before,
            after,
            before.len() - 1,
            EntryView::Thought(before[before.len() - 1]->Thought_0 + text),
        )
    } else {
        gains(before, after, EntryView::Thought(text))
    }
}

/// Whether nothing about a session changed but its transcript.
pub open spec fn only_rows<C>(before: AgentView<C>, after: AgentView<C>) -> bool {
    &&& after.status == before.status
    &&& after.session == before.session
    &&& after.name == before.name
    &&& after.client == before.client
}

/// What is streamed goes to a row of its own kind: a message to an answer, a thought
/// to a thought, whatever the last row is.
pub proof fn law_stream_goes_to_its_kind(text: &str, thought: bool)
    ensures
        forall|v: &mut im::Vector<Entry>| #[trigger]
            call_ensures(append_streamed, (v, text, thought), ()) ==> if thought {
                thinks(rows(*v), rows(*final(v)), text@)
            } else {
                says(rows(*v), rows(*final(v)), text@)
            },
{
}

/// A chunk of a message is added to what the agent said, whatever stands last: the
/// last row is then an answer that ends with the chunk, and every thought is as it
/// was, with none added.
pub proof fn law_message_is_said<C>(
    s: AgentView<C>,
    n: SessionNotificationView,
    text: Seq<char>,
)
    requires
        n.update == (SessionUpdateView::AgentMessageChunk {
            content: ContentBlockView::Text { text },
        }),
    ensures
        ({
            let after = s.told(AgentEventView::Update(n));
            &&& says(s.rows, after.rows, text)
            &&& only_rows(s, after)
            &&& after.rows.len() > 0
            &&& after.rows[after.rows.len() - 1] matches EntryView::Agent(said)
            &&& said.len() >= text.len()
            &&& said.subrange(said.len() - text.len(), said.len() as int) == text
            &&& forall|i: int|
                0 <= i < after.rows.len() && (#[trigger] after.rows[i]) is Thought ==> i
                    < s.rows.len() && s.rows[i] == after.rows[i]
            &&& forall|i: int|
                0 <= i < s.rows.len() && (#[trigger] s.rows[i]) is Thought ==> after.rows[i]
                    == s.rows[i]
        }),
{
    let after = s.told(AgentEventView::Update(n)).rows;
    let said = after[after.len() - 1]->Agent_0;
    assert(said.subrange(said.len() - text.len(), said.len() as int) =~= text);
}

/// A chunk of a thought is added to what the agent thought, whatever stands last: the
/// last row is then a thought that ends with the chunk, and every answer is as it
/// was, with none added.
pub proof fn law_thought_is_thought<C>(
    s: AgentView<C>,
    n: SessionNotificationView,
    text: Seq<char>,
)
    requires
        n.update == (SessionUpdateView::AgentThoughtChunk {
            content: ContentBlockView::Text { text },
        }),
    ensures
        ({
            let after = s.told(AgentEventView::Update(n));
            &&& thinks(s.rows, after.rows, text)
            &&& only_rows(s, after)
            &&& after.rows.len() > 0
            &&& after.rows[after.rows.len() - 1] matches EntryView::Thought(thought)
            &&& thought.len() >= text.len()
            &&& thought.subrange(thought.len() - text.len(), thought.len() as int) == text
            &&& forall|i: int|
                0 <= i < after.rows.len() && (#[trigger] after.rows[i]) is Agent ==> i
                    < s.rows.len() && s.rows[i] == after.rows[i]
            &&& forall|i: int|
                0 <= i < s.rows.len() && (#[trigger] s.rows[i]) is Agent ==> after.rows[i]
                    == s.rows[i]
        }),
{
    let after = s.told(AgentEventView::Update(n)).rows;
    let thought = after[after.len() - 1]->Thought_0;
    assert(thought.subrange(thought.len() - text.len(), thought.len() as int) =~= text);
}

/// Whether places in the editor are those of a tool call, one for one: the same path,
/// and the line counted from 0 where the protocol counts from 1.
pub open spec fn are_places(
    locations: Seq<ToolCallLocationView>,
    places: Seq<(Seq<char>, u32)>,
) -> bool {
    &&& places.len() == locations.len()
    &&& forall|i: int|
        0 <= i < places.len() ==> (#[trigger] places[i]).0 == locations[i].path && (
        match locations[i].line {
            Some(n) => if n > 0 {
                places[i].1 == n - 1
            } else {
                places[i].1 == 0
            },
            None => places[i].1 == 0,
        })
}

/// Whether a row is the one that a tool call begins.
pub open spec fn is_begun(row: EntryView, call: ToolCallView) -> bool {
    &&& row matches EntryView::Tool(t)
    &&& t.id == call.tool_call_id
    &&& match call.title {
        Some(title) => t.title == title,
        None => t.title == "tool"@,
    }
    &&& t.status == call.status
    &&& are_places(call.locations, t.locations)
}

/// Whether a row is about a tool call.
pub open spec fn is_about(row: EntryView, id: Seq<char>) -> bool {
    match row {
        EntryView::Tool(t) => t.id == id,
        _ => false,
    }
}

/// Whether it is the last row about a tool call.
pub open spec fn is_latest(rows: Seq<EntryView>, at: int, id: Seq<char>) -> bool {
    &&& 0 <= at < rows.len()
    &&& is_about(rows[at], id)
    &&& forall|j: int| at < j < rows.len() ==> !is_about(#[trigger] rows[j], id)
}

/// Whether a row has taken in the news of its tool call: what the news carries is
/// new, the rest is as it was.
pub open spec fn takes_in(
    before: ToolEntryView,
    after: ToolEntryView,
    update: ToolCallUpdateView,
) -> bool {
    &&& after.id == before.id
    &&& match update.title {
        Some(title) => after.title == title,
        None => after.title == before.title,
    }
    &&& match update.status {
        Some(status) => after.status == Some(status),
        None => after.status == before.status,
    }
    &&& if update.locations.len() == 0 {
        after.locations == before.locations
    } else {
        are_places(update.locations, after.locations)
    }
}

/// Whether the news of a tool call has reached the last row about it, and no other;
/// news of a call that no row is about reaches none.
pub open spec fn reaches(
    before: Seq<EntryView>,
    after: Seq<EntryView>,
    update: ToolCallUpdateView,
) -> bool {
    if forall|i: int| 0 <= i < before.len() ==> !is_about(#[trigger] before[i], update.tool_call_id) {
        after == before
    } else {
        exists|i: int|
            {
                &&& #[trigger] is_latest(before, i, update.tool_call_id)
                &&& i < after.len()
                &&& after[i] is Tool
                &&& changes(before, after, i, after[i])
                &&& takes_in(before[i]->Tool_0, after[i]->Tool_0, update)
            }
    }
}

proof fn lemma_reaches(rows: Seq<EntryView>, update: ToolCallUpdateView)
    ensures
        reaches(rows, tool_updated(rows, update), update),
{
    law_last_tool_is_last(rows, update.tool_call_id);
    match last_tool(rows, update.tool_call_id) {
        Some(i) => {
            assert(is_latest(rows, i, update.tool_call_id));
            assert(is_about(rows[i], update.tool_call_id));
        },
        None => {
            assert forall|i: int| 0 <= i < rows.len() implies !is_about(
                #[trigger] rows[i],
                update.tool_call_id,
            ) by {
                assert(!is_tool(rows[i], update.tool_call_id));
            }
        },
    }
}

/// The news of a tool call reaches the last row about it, and no other.
pub proof fn law_news_reaches_its_row(update: &ToolCallUpdate)
    ensures
        forall|v: &mut im::Vector<Entry>| #[trigger]
            call_ensures(apply_tool_update, (v, update), ()) ==> reaches(
                rows(*v),
                rows(*final(v)),
                update@,
            ),
{
    assert forall|v: &mut im::Vector<Entry>| #[trigger]
        call_ensures(apply_tool_update, (v, update), ()) implies reaches(
        rows(*v),
        rows(*final(v)),
        update@,
    ) by {
        lemma_reaches(rows(*v), update@);
    }
}

/// Each location becomes a place in the editor, in order: the same path, and the line
/// counted from 0.
pub proof fn law_locations_become_places(locations: &[ToolCallLocation], r: Vec<(String, u32)>)
    requires
        call_ensures(to_locations, (locations,), r),
    ensures
        r@.len() == locations@.len(),
        forall|i: int|
            0 <= i < r@.len() ==> (#[trigger] r@[i]).0@ == locations@[i].path@ && (
            match locations@[i].line {
                Some(n) => if n > 0 {
                    r@[i].1 == n - 1
                } else {
                    r@[i].1 == 0
                },
                None => r@[i].1 == 0,
            }),
{
    let places = place_views(r@);
    let views = location_views(locations@);
    assert(places == located(views));
    assert(places.len() == views.len());
    assert forall|i: int| 0 <= i < r@.len() implies (#[trigger] r@[i]).0@ == locations@[i].path@
        && (match locations@[i].line {
        Some(n) => if n > 0 {
            r@[i].1 == n - 1
        } else {
            r@[i].1 == 0
        },
        None => r@[i].1 == 0,
    }) by {
        assert(places[i] == (r@[i].0@, r@[i].1));
        assert(views[i] == locations@[i]@);
    }
}

/// Whether an update is shown as it should be: each kind in its own way, and what is
/// not shown changes no row.
pub open spec fn is_shown(
    before: Seq<EntryView>,
    after: Seq<EntryView>,
    update: SessionUpdate,
) -> bool {
    match update {
        SessionUpdate::AgentMessageChunk { content: ContentBlock::Text { text } } => says(
            before,
            after,
            text@,
        ),
        SessionUpdate::AgentThoughtChunk { content: ContentBlock::Text { text } } => thinks(
            before,
            after,
            text@,
        ),
        SessionUpdate::AgentMessageChunk { content: _ } => after == before,
        SessionUpdate::AgentThoughtChunk { content: _ } => after == before,
        SessionUpdate::UserMessageChunk { content: _ } => after == before,
        SessionUpdate::ToolCall(call) => after.len() > 0 && is_begun(
            after[after.len() - 1],
            call@,
        ) && gains(before, after, after[after.len() - 1]),
        SessionUpdate::ToolCallUpdate(update) => reaches(before, after, update@),
        SessionUpdate::Plan { entries: _ } => after == before,
        SessionUpdate::Unknown => gains(
            before,
            after,
            EntryView::Notice("something happened"@),
        ),
    }
}

/// Every update is shown in the transcript in the way of its kind, and changes
/// nothing but the transcript.
pub proof fn law_update_is_shown<C>(n: SessionNotification)
    ensures
        forall|d: &mut AgentData<C>| #[trigger]
            call_ensures(AgentData::<C>::apply, (d, AgentEvent::Update(n)), ()) ==> is_shown(
                (*d)@.rows,
                (*final(d))@.rows,
                n.update,
            ) && only_rows((*d)@, (*final(d))@),
{
    assert forall|d: &mut AgentData<C>| #[trigger]
        call_ensures(AgentData::<C>::apply, (d, AgentEvent::Update(n)), ()) implies is_shown(
        (*d)@.rows,
        (*final(d))@.rows,
        n.update,
    ) && only_rows((*d)@, (*final(d))@) by {
        match n.update {
            SessionUpdate::ToolCallUpdate(update) => {
                lemma_reaches((*d)@.rows, update@);
            },
            _ => {},
        }
    }
}

/// What the agent logs is not shown, and changes nothing.
pub proof fn law_log_is_not_shown<C>(line: String)
    ensures
        forall|d: &mut AgentData<C>| #[trigger]
            call_ensures(AgentData::<C>::apply, (d, AgentEvent::Log(line)), ()) ==> (*final(d))@
                == (*d)@,
{
}

/// When the agent exits the user is told, with the number where there is one, and
/// the session is over; the agent's name stays.
pub proof fn law_exit_is_noticed<C>(code: Option<i32>)
    ensures
        forall|d: &mut AgentData<C>| #[trigger]
            call_ensures(AgentData::<C>::apply, (d, AgentEvent::Exited(code)), ()) ==> {
                &&& gains(
                    (*d)@.rows,
                    (*final(d))@.rows,
                    EntryView::Notice(
                        match code {
                            Some(c) => "agent exited ("@ + signed_decimal(c as int) + ")"@,
                            None => "agent exited"@,
                        },
                    ),
                )
                &&& (*final(d))@.status is Stopped
                &&& (*final(d))@.session is None
                &&& (*final(d))@.client is None
                &&& (*final(d))@.name == (*d)@.name
            },
{
}

// --------------------------------------------------------------------- session

/// A session starts with nothing in it.
pub proof fn law_session_starts_empty<C>(r: AgentData<C>)
    requires
        call_ensures(AgentData::<C>::new, (), r),
    ensures
        r@.rows.len() == 0,
        r@.status is Stopped,
        r.session_id is None,
        r.agent_name is None,
        r.client is None,
{
}

/// An agent is started where none is being started or at work: the transcript then
/// holds one notice, which names the program. Otherwise nothing happens.
pub proof fn law_start_is_noticed<C>(
    program: String,
    args: Vec<String>,
    cwd: String,
    r: Option<Launch>,
)
    ensures
        forall|d: &mut AgentData<C>| #[trigger]
            call_ensures(AgentData::<C>::start, (d, program, args, cwd), r) ==> if (*d)@.status
                is Connecting || (*d)@.status is Working {
                r is None && (*final(d))@ == (*d)@
            } else {
                &&& r matches Some(launch)
                &&& launch.program == program
                &&& launch.args == args
                &&& launch.cwd == cwd
                &&& (*final(d))@.rows.len() == 1
                &&& (*final(d))@.rows[0] == EntryView::Notice("starting "@ + program@ + "…"@)
                &&& (*final(d))@.status is Connecting
                &&& (*final(d))@.session == (*d)@.session
                &&& (*final(d))@.name == (*d)@.name
                &&& (*final(d))@.client == (*d)@.client
            },
{
}

/// A connection makes the session ready, under its name and with its client, and the
/// user is told. A failure is told in its own words.
pub proof fn law_connection_is_adopted<C>(result: Connected<C>)
    ensures
        forall|d: &mut AgentData<C>| #[trigger]
            call_ensures(AgentData::<C>::connected, (d, result), ()) ==> match result {
                Ok(c) => {
                    &&& gains((*d)@.rows, (*final(d))@.rows, EntryView::Notice("connected"@))
                    &&& (*final(d))@.status is Ready
                    &&& (*final(d))@.session == Some(c.session@)
                    &&& (*final(d))@.name == Some(c.name@)
                    &&& (*final(d))@.client == Some(c.client)
                },
                Err(e) => {
                    &&& gains((*d)@.rows, (*final(d))@.rows, EntryView::Notice(e@))
                    &&& (*final(d))@.status == StatusView::Failed(e@)
                    &&& (*final(d))@.session == (*d)@.session
                    &&& (*final(d))@.name == (*d)@.name
                    &&& (*final(d))@.client == (*d)@.client
                },
            },
{
}

/// Whether text says something: it has a character that is no white space.
pub open spec fn says_something(text: Seq<char>) -> bool {
    exists|i: int| 0 <= i < text.len() && !is_white(#[trigger] text[i])
}

/// Whether a prompt is taken: there is a client with an open session, it is idle, and
/// the prompt says something.
pub open spec fn takes<C>(before: AgentView<C>, text: Seq<char>) -> bool {
    &&& before.client is Some
    &&& before.session is Some
    &&& before.status is Ready
    &&& says_something(text)
}

/// Whether a turn was begun on a prompt: the whole prompt is shown and asked, in the
/// session that is open.
pub open spec fn begins<C>(
    before: AgentView<C>,
    after: AgentView<C>,
    text: Seq<char>,
    r: Option<Turn>,
) -> bool {
    &&& r matches Some(turn)
    &&& Some(turn.session@) == before.session
    &&& turn.text@ == text
    &&& gains(before.rows, after.rows, EntryView::User(text))
    &&& after.status is Working
    &&& after.session == before.session
    &&& after.name == before.name
    &&& after.client == before.client
}

/// A prompt that is taken begins a turn, and any other changes nothing.
pub proof fn law_prompt_begins_a_turn<C>(text: String, r: Option<Turn>)
    ensures
        forall|d: &mut AgentData<C>| #[trigger]
            call_ensures(AgentData::<C>::send, (d, text), r) ==> if takes((*d)@, text@) {
                begins((*d)@, (*final(d))@, text@, r)
            } else {
                r is None && (*final(d))@ == (*d)@
            },
{
    lemma_trimmed_empty(text@);
}

/// What stands in the box is sent as a prompt is, and the box is then empty; a box
/// that says nothing stays as it is.
pub proof fn law_box_is_sent_whole<C>(r: Option<Turn>)
    ensures
        forall|d: &mut AgentData<C>, input: &mut PromptText| #[trigger]
            call_ensures(AgentData::<C>::submit, (d, input), r) ==> {
                &&& if takes((*d)@, (*input)@) {
                    begins((*d)@, (*final(d))@, (*input)@, r)
                } else {
                    r is None && (*final(d))@ == (*d)@
                }
                &&& if says_something((*input)@) {
                    (*final(input))@.len() == 0
                } else {
                    (*final(input))@ == (*input)@
                }
            },
{
    assert forall|d: &mut AgentData<C>, input: &mut PromptText| #[trigger]
        call_ensures(AgentData::<C>::submit, (d, input), r) implies {
        &&& if takes((*d)@, (*input)@) {
            begins((*d)@, (*final(d))@, (*input)@, r)
        } else {
            r is None && (*final(d))@ == (*d)@
        }
        &&& if says_something((*input)@) {
            (*final(input))@.len() == 0
        } else {
            (*final(input))@ == (*input)@
        }
    } by {
        lemma_trimmed_empty((*input)@);
    }
}

/// What is said of each reason for which a turn ends.
pub open spec fn says_reason(reason: StopReason, text: Seq<char>) -> bool {
    match reason {
        StopReason::EndTurn => text == "done"@,
        StopReason::MaxTokens => text == "stopped: token limit reached"@,
        StopReason::MaxTurnRequests => text == "stopped: too many requests this turn"@,
        StopReason::Refusal => text == "the agent declined"@,
        StopReason::Cancelled => text == "cancelled"@,
        StopReason::Unknown => text == "stopped for an unrecognised reason"@,
    }
}

/// Each reason is described in its own words, and only a finished turn is complete.
pub proof fn law_reason_is_described(reason: StopReason, r: &'static str, complete: bool)
    requires
        call_ensures(StopReason::describe, (reason,), r),
        call_ensures(StopReason::is_complete, (reason,), complete),
    ensures
        says_reason(reason, r@),
        complete <==> reason is EndTurn,
{
}

/// After a turn the session is ready again. A turn that was cut short is noticed, in
/// the words for its reason; one that was finished is not. A failure is noticed and
/// fails the session.
pub proof fn law_end_of_turn_is_noticed<C>(result: Result<StopReason, String>)
    ensures
        forall|d: &mut AgentData<C>| #[trigger]
            call_ensures(AgentData::<C>::turn_ended, (d, result), ()) ==> {
                &&& match result {
                    Ok(reason) => {
                        &&& (*final(d))@.status is Ready
                        &&& if reason is EndTurn {
                            (*final(d))@.rows == (*d)@.rows
                        } else {
                            &&& (*final(d))@.rows.len() > 0
                            &&& (*final(d))@.rows[(*d)@.rows.len() as int] matches EntryView::Notice(
                                text,
                            )
                            &&& says_reason(reason, text)
                            &&& gains((*d)@.rows, (*final(d))@.rows, EntryView::Notice(text))
                        }
                    },
                    Err(e) => {
                        &&& (*final(d))@.status == StatusView::Failed(e@)
                        &&& gains(
                            (*d)@.rows,
                            (*final(d))@.rows,
                            EntryView::Notice("turn failed: "@ + e@),
                        )
                    },
                }
                &&& (*final(d))@.session == (*d)@.session
                &&& (*final(d))@.name == (*d)@.name
                &&& (*final(d))@.client == (*d)@.client
            },
{
}

/// The session to interrupt is the one that is open.
pub proof fn law_cancel_is_for_the_session<C>(d: &AgentData<C>, r: Option<String>)
    requires
        call_ensures(AgentData::<C>::cancel, (d,), r),
    ensures
        match r {
            Some(s) => d.client is Some && (d.session_id matches Some(id) && id@ == s@),
            None => d.client is None || d.session_id is None,
        },
{
}

/// Stopping hands out the client and ends the session; the transcript and the name
/// stay.
pub proof fn law_stop_hands_out_the_client<C>(r: Option<C>)
    ensures
        forall|d: &mut AgentData<C>| #[trigger]
            call_ensures(AgentData::<C>::stop, (d,), r) ==> {
                &&& r == (*d)@.client
                &&& (*final(d))@.client is None
                &&& (*final(d))@.session is None
                &&& (*final(d))@.status is Stopped
                &&& (*final(d))@.rows == (*d)@.rows
                &&& (*final(d))@.name == (*d)@.name
            },
{
}

// ------------------------------------------------------------------ connecting

/// Connecting goes on with the client that was started, and ends where none was.
pub proof fn law_spawn_leads_to_the_handshake<C>(spawned: Result<C, String>, r: ConnectStep<C>)
    requires
        call_ensures(after_spawn::<C>, (spawned,), r),
    ensures
        match spawned {
            Ok(client) => r matches ConnectStep::Handshake { client: c } && c == client,
            Err(e) => r matches ConnectStep::Ended(Err(f)) && f@ == e@,
        },
{
}

/// After the handshake a session is asked for, under the name that the agent gave or
/// else that of the program. A failure says where it happened.
pub proof fn law_handshake_leads_to_the_session<C>(
    client: C,
    program: &str,
    initialized: Result<InitializeResult, String>,
    r: ConnectStep<C>,
)
    requires
        call_ensures(after_handshake::<C>, (client, program, initialized), r),
    ensures
        match initialized {
            Ok(init) => {
                &&& r matches ConnectStep::OpenSession { client: c, name }
                &&& c == client
                &&& match init.agent_info {
                    Some(info) => name@ == info.name@,
                    None => name@ == program@,
                }
            },
            Err(e) => r matches ConnectStep::Ended(Err(f)) && f@ == "handshake: "@ + e@,
        },
{
}

/// Connecting ends with the client, the session and the name that it led to. A
/// failure says where it happened.
pub proof fn law_session_ends_connecting<C>(
    client: C,
    name: String,
    opened: Result<String, String>,
    r: ConnectStep<C>,
)
    requires
        call_ensures(after_new_session::<C>, (client, name, opened), r),
    ensures
        match opened {
            Ok(session) => {
                &&& r matches ConnectStep::Ended(Ok(c))
                &&& c.client == client
                &&& c.session@ == session@
                &&& c.name@ == name@
            },
            Err(e) => r matches ConnectStep::Ended(Err(f)) && f@ == "session: "@ + e@,
        },
{
}

// ---------------------------------------------------------------------- values

/// What is said of each status, and which of them mean that work is under way.
pub proof fn law_status_is_described(status: &AgentStatus, r: String, busy: bool)
    requires
        call_ensures(AgentStatus::describe, (status,), r),
        call_ensures(AgentStatus::is_busy, (status,), busy),
    ensures
        match status {
            AgentStatus::Stopped => r@ == "not started"@ && !busy,
            AgentStatus::Connecting => r@ == "connecting…"@ && busy,
            AgentStatus::Ready => r@ == "ready"@ && !busy,
            AgentStatus::Working => r@ == "working…"@ && busy,
            AgentStatus::Failed(e) => r@ == "failed: "@ + e@ && !busy,
        },
{
}

/// The box gives back the text that it was made with.
pub proof fn law_box_keeps_its_text(text: &str, p: PromptText, r: String)
    requires
        call_ensures(PromptText::new, (text,), p),
        call_ensures(PromptText::text, (&p,), r),
    ensures
        r@ == text@,
{
}

/// A block is displayed as its text where it is text, and not at all otherwise.
pub proof fn law_text_is_displayed(block: &ContentBlock, r: Option<&str>)
    requires
        call_ensures(ContentBlock::as_text, (block,), r),
    ensures
        match block {
            ContentBlock::Text { text } => r matches Some(s) && s@ == text@,
            _ => r is None,
        },
{
}

} // verus!
