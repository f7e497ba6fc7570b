//! What holds of the transcript and the session, whatever happens to them.

use crate::agent::{
    chunk_row, exit_notice, is_tool, last_tool, located, merged, narrated, streamed, tool_row,
    tool_updated, zero_based, AgentView, EntryView, StatusView, ToolEntryView,
};
use crate::client::AgentEventView;
use crate::panel::{
    has_drive, has_share, last_name, last_segment, link_label, may_be_called, segment_start,
    showable, status_text, thought_text, PathStyle, THOUGHT_LENGTH,
};
use crate::protocol::{
    SessionUpdateView, StopReason, ToolCallLocationView, ToolCallUpdateView, ToolCallView,
};
use crate::text::{decimal, trimmed};
use vstd::prelude::*;

verus! {

// ------------------------------------------------------------------ streaming

/// Chunks of one kind, one after the other.
pub open spec fn stream_all(rows: Seq<EntryView>, chunks: Seq<Seq<char>>, thought: bool) -> Seq<
    EntryView,
>
    decreases chunks.len(),
{
    if chunks.len() == 0 {
        rows
    } else {
        streamed(stream_all(rows, chunks.drop_last(), thought), chunks.last(), thought)
    }
}

/// The text of chunks, one after the other.
pub open spec fn joined(chunks: Seq<Seq<char>>) -> Seq<char>
    decreases chunks.len(),
{
    if chunks.len() == 0 {
        Seq::empty()
    } else {
        joined(chunks.drop_last()) + chunks.last()
    }
}

/// Two chunks of one kind in a row are shown as one of their joint text.
pub proof fn law_two_chunks_coalesce(
    rows: Seq<EntryView>,
    first: Seq<char>,
    second: Seq<char>,
    thought: bool,
)
    ensures
        streamed(streamed(rows, first, thought), second, thought) == streamed(
            rows,
            first + second,
            thought,
        ),
{
    let once = streamed(rows, first, thought);
    let both = streamed(rows, first + second, thought);
    if rows.len() > 0 {
        match rows.last() {
            EntryView::Agent(s) => {
                assert(s + first + second =~= s + (first + second));
            },
            EntryView::Thought(s) => {
                assert(s + first + second =~= s + (first + second));
            },
            _ => {},
        }
    }
    assert(streamed(once, second, thought) =~= both);
}

/// However many chunks a reply is streamed in, it is shown as if it had come
/// whole: it never becomes one row per token.
pub proof fn law_streamed_chunks_coalesce(
    rows: Seq<EntryView>,
    chunks: Seq<Seq<char>>,
    thought: bool,
)
    requires
        chunks.len() > 0,
    ensures
        stream_all(rows, chunks, thought) == streamed(rows, joined(chunks), thought),
        stream_all(rows, chunks, thought).len() <= rows.len() + 1,
    decreases chunks.len(),
{
    let init = chunks.drop_last();
    if init.len() == 0 {
        assert(stream_all(rows, init, thought) == rows);
        assert(joined(chunks) =~= chunks.last());
    } else {
        law_streamed_chunks_coalesce(rows, init, thought);
        law_two_chunks_coalesce(rows, joined(init), chunks.last(), thought);
    }
}

/// A chunk touches no row but the last, and that only where it is of the chunk's
/// own kind. So reasoning never ends up in an answer, nor an answer in reasoning.
pub proof fn law_chunk_keeps_other_rows(rows: Seq<EntryView>, text: Seq<char>, thought: bool)
    ensures
        rows.len() <= streamed(rows, text, thought).len() <= rows.len() + 1,
        streamed(rows, text, thought).len() > 0,
        thought ==> streamed(rows, text, thought).last() is Thought,
        !thought ==> streamed(rows, text, thought).last() is Agent,
        forall|i: int|
            0 <= i < rows.len() - 1 ==> #[trigger] streamed(rows, text, thought)[i] == rows[i],
        forall|i: int|
            0 <= i < rows.len() && thought && !(rows[i] is Thought) ==> #[trigger] streamed(
                rows,
                text,
                thought,
            )[i] == rows[i],
        forall|i: int|
            0 <= i < rows.len() && !thought && !(rows[i] is Agent) ==> #[trigger] streamed(
                rows,
                text,
                thought,
            )[i] == rows[i],
{
}

/// After anything but a row of its own kind, a chunk starts a new row.
pub proof fn law_chunk_starts_a_row(rows: Seq<EntryView>, text: Seq<char>, thought: bool)
    requires
        rows.len() > 0 ==> (thought ==> !(rows.last() is Thought)) && (!thought ==> !(
        rows.last() is Agent)),
    ensures
        streamed(rows, text, thought) == rows.push(chunk_row(text, thought)),
{
}

// ---------------------------------------------------------------- tool updates

/// The row an update goes to is the last about its tool call; where there is
/// none, no row is about it.
pub proof fn law_last_tool_is_last(rows: Seq<EntryView>, id: Seq<char>)
    ensures
        last_tool(rows, id) matches Some(i) ==> {
            &&& 0 <= i < rows.len()
            &&& is_tool(rows[i], id)
            &&& forall|j: int| i < j < rows.len() ==> !is_tool(#[trigger] rows[j], id)
        },
        last_tool(rows, id) is None ==> forall|j: int|
            0 <= j < rows.len() ==> !is_tool(#[trigger] rows[j], id),
    decreases rows.len(),
{
    if rows.len() > 0 && !is_tool(rows.last(), id) {
        let init = rows.drop_last();
        law_last_tool_is_last(init, id);
        assert forall|j: int| 0 <= j < init.len() implies init[j] == #[trigger] rows[j] by {
        }
    }
}

/// An update changes no row but the one it goes to: neither how many rows there
/// are, nor what the others hold, nor which call the row is about.
pub proof fn law_tool_update_keeps_other_rows(rows: Seq<EntryView>, update: ToolCallUpdateView)
    ensures
        tool_updated(rows, update).len() == rows.len(),
        forall|j: int|
            0 <= j < rows.len() && Some(j) != last_tool(rows, update.tool_call_id)
                ==> #[trigger] tool_updated(rows, update)[j] == rows[j],
        forall|j: int, id: Seq<char>|
            0 <= j < rows.len() ==> (#[trigger] is_tool(tool_updated(rows, update)[j], id)
                <==> is_tool(rows[j], id)),
{
    law_last_tool_is_last(rows, update.tool_call_id);
}

/// An update of a call that no row is about changes nothing.
pub proof fn law_unknown_tool_is_ignored(rows: Seq<EntryView>, update: ToolCallUpdateView)
    requires
        forall|j: int|
            0 <= j < rows.len() ==> !is_tool(#[trigger] rows[j], update.tool_call_id),
    ensures
        tool_updated(rows, update) == rows,
{
    law_last_tool_is_last(rows, update.tool_call_id);
}

/// What an update leaves out stays as it was; what it carries is taken over.
pub proof fn law_absent_fields_are_kept(tool: ToolEntryView, update: ToolCallUpdateView)
    ensures
        merged(tool, update).id == tool.id,
        update.title is None ==> merged(tool, update).title == tool.title,
        update.title is Some ==> merged(tool, update).title == update.title->Some_0,
        update.status is None ==> merged(tool, update).status == tool.status,
        update.status is Some ==> merged(tool, update).status == update.status,
        update.locations.len() == 0 ==> merged(tool, update).locations == tool.locations,
        update.locations.len() > 0 ==> merged(tool, update).locations == located(
            update.locations,
        ),
        update.title is None && update.status is None && update.locations.len() == 0 ==> merged(
            tool,
            update,
        ) == tool,
{
}

/// The same update twice is no different from once.
pub proof fn law_tool_update_is_idempotent(rows: Seq<EntryView>, update: ToolCallUpdateView)
    ensures
        tool_updated(tool_updated(rows, update), update) == tool_updated(rows, update),
{
    let once = tool_updated(rows, update);
    let id = update.tool_call_id;
    law_last_tool_is_last(rows, id);
    law_last_tool_is_last(once, id);
    law_tool_update_keeps_other_rows(rows, update);
    match last_tool(rows, id) {
        Some(i) => {
            assert(is_tool(once[i], id));
            match last_tool(once, id) {
                Some(j) => {
                    assert(is_tool(rows[j], id));
                    assert(is_tool(once[j], id));
                    assert(j == i);
                    assert(tool_updated(once, update) =~= once);
                },
                None => {},
            }
        },
        None => {},
    }
}

/// A tool call and an update of it end up in one row: the one the call began,
/// merged.
pub proof fn law_update_reaches_its_call(
    rows: Seq<EntryView>,
    call: ToolCallView,
    update: ToolCallUpdateView,
)
    requires
        update.tool_call_id == call.tool_call_id,
    ensures
        tool_updated(rows.push(tool_row(call)), update) == rows.push(
            EntryView::Tool(merged(tool_row(call)->Tool_0, update)),
        ),
{
    let all = rows.push(tool_row(call));
    assert(all.last() == tool_row(call));
    assert(tool_updated(all, update) =~= rows.push(
        EntryView::Tool(merged(tool_row(call)->Tool_0, update)),
    ));
}

/// The editor's line is one less than the protocol's, and never below the first.
pub proof fn law_lines_are_zero_based(line: Option<u32>)
    ensures
        line matches Some(n) ==> (n >= 1 ==> zero_based(line) == n - 1),
        line == Some(0u32) ==> zero_based(line) == 0,
        line is None ==> zero_based(line) == 0,
        zero_based(line) < u32::MAX,
{
}

// -------------------------------------------------------------------- session

impl<C> AgentView<C> {
    /// Whether the session has a client exactly if it has a session id.
    pub open spec fn paired(self) -> bool {
        self.client is Some <==> self.session is Some
    }
}

/// A client and a session come and go together, whatever happens.
pub proof fn law_client_and_session_are_paired<C>(
    s: AgentView<C>,
    client: C,
    text: Seq<char>,
    other: Seq<char>,
    reason: StopReason,
    event: AgentEventView,
)
    ensures
        AgentView::<C>::initial().paired(),
        s.attached(client, text, other).paired(),
        s.stopped().paired(),
        s.paired() ==> s.started(text).paired(),
        s.paired() ==> s.failed(text, other).paired(),
        s.paired() ==> s.asked(text).paired(),
        s.paired() ==> s.turned(reason).paired(),
        s.paired() ==> s.told(event).paired(),
{
}

/// While work is in flight nothing can be sent; sending puts work in flight, and
/// the end of the turn lets the next prompt in.
pub proof fn law_one_turn_at_a_time<C>(
    s: AgentView<C>,
    text: Seq<char>,
    next: Seq<char>,
    reason: StopReason,
)
    ensures
        s.status.busy() ==> !s.accepts(next),
        s.accepts(text) ==> s.asked(text).status.busy() && !s.asked(text).accepts(next),
        s.accepts(text) && trimmed(next).len() > 0 ==> s.asked(text).turned(reason).accepts(next),
        s.started(text).status.busy(),
        !s.started(text).accepts(next),
{
}

/// Once stopped, or once the agent has exited, nothing can be sent until another
/// agent is attached.
pub proof fn law_nothing_is_sent_to_nobody<C>(
    s: AgentView<C>,
    code: Option<i32>,
    text: Seq<char>,
    client: C,
    session: Seq<char>,
    name: Seq<char>,
)
    ensures
        !AgentView::<C>::initial().accepts(text),
        !s.stopped().accepts(text),
        !s.told(AgentEventView::Exited(code)).accepts(text),
        !s.stopped().status.busy(),
        trimmed(text).len() > 0 ==> s.attached(client, session, name).accepts(text),
{
}

/// A turn that was cut short says so in the transcript; a finished one adds
/// nothing.
pub proof fn law_cut_short_turn_is_noticed<C>(s: AgentView<C>, reason: StopReason)
    ensures
        reason != StopReason::EndTurn ==> s.turned(reason).rows == s.rows.push(
            EntryView::Notice(reason.description()),
        ),
        reason == StopReason::EndTurn ==> s.turned(reason).rows == s.rows,
{
}

/// The reason of a failure is part of what the user is shown.
pub proof fn law_failure_reason_is_shown(reason: Seq<char>)
    ensures
        exists|from: int|
            0 <= from <= StatusView::Failed(reason).description().len()
                && #[trigger] StatusView::Failed(reason).description().skip(from) == reason,
{
    let shown = StatusView::Failed(reason).description();
    let from = "failed: "@.len() as int;
    assert(shown.skip(from) =~= reason);
}

/// Events only add to the transcript: no row is lost, and what the user said, or
/// was told, stays as it was.
pub proof fn law_events_keep_rows<C>(s: AgentView<C>, event: AgentEventView)
    ensures
        s.told(event).rows.len() >= s.rows.len(),
        forall|i: int|
            0 <= i < s.rows.len() && (s.rows[i] is User || s.rows[i] is Notice)
                ==> #[trigger] s.told(event).rows[i] == s.rows[i],
        event is Log ==> s.told(event) == s,
        event is Exited ==> s.told(event).rows.last() == EntryView::Notice(
            exit_notice(event->Exited_0),
        ),
{
    match event {
        AgentEventView::Update(n) => match n.update {
            SessionUpdateView::ToolCallUpdate(u) => {
                law_last_tool_is_last(s.rows, u.tool_call_id);
            },
            _ => {},
        },
        _ => {},
    }
}

/// An update of a kind that is not known is no error: the session goes on as it
/// was, and the transcript has one row more, which says that something happened.
pub proof fn law_unknown_update_is_noticed<C>(s: AgentView<C>, event: AgentEventView)
    requires
        event matches AgentEventView::Update(n) && n.update is Unknown,
    ensures
        s.told(event) == s.with_row(EntryView::Notice("something happened"@)),
{
}

/// What is not rendered changes nothing.
pub proof fn law_unrendered_updates_change_nothing(rows: Seq<EntryView>, update: SessionUpdateView)
    requires
        update is Plan || update is UserMessageChunk,
    ensures
        narrated(rows, update) == rows,
{
}

// ---------------------------------------------------------------------- panel

/// Whether every row of a transcript can be shown.
pub open spec fn all_showable(rows: Seq<EntryView>) -> bool {
    forall|i: int| 0 <= i < rows.len() ==> showable(#[trigger] rows[i])
}

/// Whatever happens to a session, its transcript can be shown: no line that comes
/// from the protocol is too great to be counted from 1.
pub proof fn law_transcript_is_showable<C>(
    s: AgentView<C>,
    client: C,
    text: Seq<char>,
    other: Seq<char>,
    reason: StopReason,
    event: AgentEventView,
)
    ensures
        all_showable(AgentView::<C>::initial().rows),
        all_showable(s.started(text).rows),
        all_showable(s.rows) ==> all_showable(s.attached(client, text, other).rows),
        all_showable(s.rows) ==> all_showable(s.failed(text, other).rows),
        all_showable(s.rows) ==> all_showable(s.asked(text).rows),
        all_showable(s.rows) ==> all_showable(s.turned(reason).rows),
        all_showable(s.rows) ==> all_showable(s.stopped().rows),
        all_showable(s.rows) ==> all_showable(s.told(event).rows),
{
    if all_showable(s.rows) {
        match event {
            AgentEventView::Update(n) => match n.update {
                SessionUpdateView::ToolCallUpdate(u) => {
                    law_last_tool_is_last(s.rows, u.tool_call_id);
                    match last_tool(s.rows, u.tool_call_id) {
                        Some(i) => {
                            assert(showable(s.rows[i]));
                        },
                        None => {},
                    }
                },
                SessionUpdateView::ToolCall(call) => {
                    assert(showable(tool_row(call)));
                },
                _ => {},
            },
            _ => {},
        }
    }
}

/// A location is labelled with the line that the protocol gave it.
pub proof fn law_label_shows_the_protocols_line(
    name: Option<Seq<char>>,
    location: ToolCallLocationView,
    n: u32,
)
    requires
        location.line == Some(n),
        n >= 1,
    ensures
        link_label(name, location.path, zero_based(location.line)) == (match name {
            Some(file) => file,
            None => location.path,
        }) + ":"@ + decimal(n as nat),
{
}

proof fn lemma_segment_start(path: Seq<char>, style: PathStyle)
    ensures
        0 <= segment_start(path, style) <= path.len(),
    decreases path.len(),
{
    if path.len() > 0 {
        lemma_segment_start(path.drop_last(), style);
    }
}

/// Without backslashes it makes no difference whether they separate.
proof fn lemma_segments_without_backslash(path: Seq<char>)
    requires
        !path.contains('\\'),
    ensures
        segment_start(path, PathStyle::Unix) == segment_start(path, PathStyle::Windows),
        last_segment(path, PathStyle::Unix) == last_segment(path, PathStyle::Windows),
    decreases path.len(),
{
    lemma_segment_start(path, PathStyle::Unix);
    if path.len() > 0 {
        assert(path.contains(path.last()));
        let init = path.drop_last();
        assert forall|i: int| 0 <= i < init.len() implies init[i] != '\\' by {
            assert(path.contains(path[i]));
        }
        lemma_segments_without_backslash(init);
        let start = segment_start(path, PathStyle::Unix);
        if start > 0 {
            let head = path.take(start - 1);
            assert forall|i: int| 0 <= i < head.len() implies head[i] != '\\' by {
                assert(path.contains(path[i]));
            }
            lemma_segments_without_backslash(head);
        }
    }
}

/// What stands in front of a slash does not count, as long as something that does
/// stands behind it.
proof fn lemma_segments_behind_slash(front: Seq<char>, rest: Seq<char>)
    requires
        rest.len() > 0,
        rest[0] == '/',
    ensures
        segment_start(front + rest, PathStyle::Unix) == front.len() + segment_start(
            rest,
            PathStyle::Unix,
        ),
        segment_start(rest, PathStyle::Unix) >= 1,
        last_segment(rest, PathStyle::Unix) is Some ==> last_segment(
            front + rest,
            PathStyle::Unix,
        ) == last_segment(rest, PathStyle::Unix),
    decreases rest.len(),
{
    let all = front + rest;
    let unix = PathStyle::Unix;
    lemma_segment_start(rest, unix);
    assert(all.last() == rest.last());
    assert(all.drop_last() =~= front + rest.drop_last());
    if rest.last() != '/' {
        assert(rest.len() > 1);
        assert(rest.drop_last()[0] == '/');
        lemma_segments_behind_slash(front, rest.drop_last());
    }
    let start = segment_start(rest, unix);
    assert(all.skip(front.len() + start) =~= rest.skip(start));
    assert(all.take(front.len() + start - 1) =~= front + rest.take(start - 1));
    if start > 1 {
        assert(rest.take(start - 1)[0] == '/');
        lemma_segments_behind_slash(front, rest.take(start - 1));
    } else {
        assert(rest.take(0).len() == 0);
        assert(last_segment(rest.take(0), unix) is None);
    }
}

/// A path without backslashes means the same on every machine, unless it begins
/// with two slashes, or with a drive that nothing but slashes and `.` follow: a file
/// is then called by the last component, and by nothing else.
pub proof fn law_plain_path_has_one_name(path: Seq<char>, name: Option<Seq<char>>)
    requires
        !path.contains('\\'),
        !has_share(path),
        has_drive(path) ==> path.len() > 2 && path[2] == '/' && last_segment(
            path.skip(2),
            PathStyle::Unix,
        ) is Some,
    ensures
        may_be_called(path, name) <==> name == last_name(path, PathStyle::Unix),
{
    lemma_segments_without_backslash(path);
    if has_drive(path) {
        let rest = path.skip(2);
        assert forall|i: int| 0 <= i < rest.len() implies rest[i] != '\\' by {
            assert(path.contains(path[i + 2]));
        }
        lemma_segments_without_backslash(rest);
        assert(rest[0] == '/');
        lemma_segments_behind_slash(path.take(2), rest);
        assert(path.take(2) + rest =~= path);
    }
}

/// With the same name, no two statuses give the same status line.
pub proof fn law_status_lines_differ(name: Option<Seq<char>>, one: StatusView, other: StatusView)
    requires
        one != other,
    ensures
        status_text(name, one) != status_text(name, other),
{
    reveal_strlit("not started");
    reveal_strlit("connecting…");
    reveal_strlit("ready");
    reveal_strlit("working…");
    reveal_strlit("failed: ");
    let head = (match name {
        Some(n) => n,
        None => "no agent"@,
    }) + " — "@;
    let cut = head.len() as int;
    assert(status_text(name, one).skip(cut) =~= one.description());
    assert(status_text(name, other).skip(cut) =~= other.description());
    assert("not started"@[0] == 'n' && "connecting…"@[0] == 'c' && "ready"@[0] == 'r');
    assert("working…"@[0] == 'w' && "failed: "@[0] == 'f' && "failed: "@.len() == 8);
    match (one, other) {
        (StatusView::Failed(e), StatusView::Failed(f)) => {
            assert(one.description().skip(8) =~= e);
            assert(other.description().skip(8) =~= f);
        },
        (StatusView::Failed(e), _) => {
            assert(one.description()[0] == 'f');
        },
        (_, StatusView::Failed(f)) => {
            assert(other.description()[0] == 'f');
        },
        _ => {},
    }
}

/// However long a thought is, what is shown of it is short.
pub proof fn law_thought_is_short(text: Seq<char>)
    ensures
        thought_text(text).len() <= THOUGHT_LENGTH + 1,
        trimmed(text).len() <= THOUGHT_LENGTH ==> thought_text(text) == trimmed(text),
{
    reveal_strlit("…");
}

} // verus!
