//! What the panel shows, row by row, and what its controls answer: each law is about
//! what a call gives, in terms of what it was given.

use crate::agent::{rows, AgentStatus, Entry, EntryView, ToolEntryView};
use crate::json::Json;
use crate::panel::{
    entry_row, is_for_prompt, label_link, last_name, last_segment, link_label, may_be_called, opens,
    prompt_key, segment_start, separates, shows, status_line, status_tone, thought_text, transcript,
    Bar, CommandKind, Decision, KeyAction, Link, PathStyle, PermissionBar, Row, Tone,
};
use crate::protocol::ToolCallStatus;
use crate::receiving_laws::{is_cancelled, lemma_cancelled, lemma_selects, selects_id};
use crate::text::{decimal, trimmed};
use crate::value_laws::{is_core, law_trimmed_is_the_core};
use vstd::prelude::*;

verus! {

// ------------------------------------------------------------------------ rows

/// Whether a row is drawn in that tone, with that background, size and space, and
/// leads nowhere.
pub open spec fn is_drawn(
    r: Row,
    tone: Tone,
    highlighted: bool,
    small: bool,
    padding: int,
) -> bool {
    &&& r.tone == tone
    &&& r.highlighted == highlighted
    &&& r.small == small
    &&& r.padding == padding
    &&& r.links@.len() == 0
}

/// Whether a text is what is shown of a thought: what stands between the white space
/// round it, and of more than 160 characters the first 160 and an ellipsis.
pub open spec fn is_glimpse(shown: Seq<char>, thought: Seq<char>) -> bool {
    exists|core: Seq<char>, at: int| #[trigger]
        is_core(thought, core, at) && if core.len() <= 160 {
            shown == core
        } else {
            &&& shown.len() == 161
            &&& shown[160] == '…'
            &&& forall|i: int| 0 <= i < 160 ==> #[trigger] shown[i] == core[i]
        }
}

/// Whether a character is the mark of a status.
pub open spec fn is_mark(mark: char, status: Option<ToolCallStatus>) -> bool {
    match status {
        Some(ToolCallStatus::Completed) => mark == '✓',
        Some(ToolCallStatus::Failed) => mark == '✗',
        Some(ToolCallStatus::InProgress) => mark == '…',
        Some(ToolCallStatus::Pending) => mark == '·',
        Some(ToolCallStatus::Unknown) => mark == '·',
        None => mark == '·',
    }
}

/// Whether a link leads to a place: to its path and its line, under a label of what
/// the file is called, or of the whole path where it has no name, and the line as
/// people count it.
pub open spec fn leads_to(link: Link, place: (Seq<char>, u32)) -> bool {
    &&& link.path@ == place.0
    &&& link.line == place.1
    &&& exists|name: Option<Seq<char>>| #[trigger]
        may_be_called(place.0, name) && match name {
            Some(n) => link.label@ == n + seq![':'] + decimal((place.1 + 1) as nat),
            None => link.label@ == place.0 + seq![':'] + decimal((place.1 + 1) as nat),
        }
}

/// Whether a row is the one for a tool call.
pub open spec fn is_tool_row(r: Row, tool: ToolEntryView) -> bool {
    &&& r.text@.len() == tool.title.len() + 2
    &&& is_mark(r.text@[0], tool.status)
    &&& r.text@[1] == ' '
    &&& r.text@.skip(2) == tool.title
    &&& r.tone == (if tool.status == Some(ToolCallStatus::Failed) {
        Tone::Error
    } else {
        Tone::Dim
    })
    &&& !r.highlighted
    &&& !r.small
    &&& r.padding == 4
    &&& r.links@.len() == tool.locations.len()
    &&& forall|i: int|
        0 <= i < r.links@.len() ==> leads_to(#[trigger] r.links@[i], tool.locations[i])
}

/// Whether a row is the one for an entry. What was asked, what was answered and what
/// there was to notice are shown whole, whatever their length.
pub open spec fn is_row_of(r: Row, entry: EntryView) -> bool {
    match entry {
        EntryView::User(text) => r.text@ == text && is_drawn(r, Tone::Foreground, true, false, 6),
        EntryView::Agent(text) => r.text@ == text && is_drawn(r, Tone::Foreground, false, false, 6),
        EntryView::Thought(text) => is_glimpse(r.text@, text) && is_drawn(
            r,
            Tone::Dim,
            false,
            true,
            4,
        ),
        EntryView::Notice(text) => r.text@ == text && is_drawn(r, Tone::Dim, false, false, 4),
        EntryView::Tool(tool) => is_tool_row(r, tool),
    }
}

proof fn lemma_glimpse(shown: Seq<char>, thought: Seq<char>)
    requires
        shown == thought_text(thought),
    ensures
        is_glimpse(shown, thought),
{
    law_trimmed_is_the_core(thought);
    let core = trimmed(thought);
    let at = choose|at: int| is_core(thought, core, at);
    reveal_strlit("…");
    if core.len() > 160 {
        assert forall|i: int| 0 <= i < 160 implies #[trigger] shown[i] == core[i] by {}
        assert(shown[160] == '…');
    }
    assert(is_core(thought, core, at));
}

proof fn lemma_tool_row(r: Row, tool: ToolEntryView)
    requires
        shows(r, EntryView::Tool(tool)),
    ensures
        is_tool_row(r, tool),
{
    reveal_strlit("✓");
    reveal_strlit("✗");
    reveal_strlit("…");
    reveal_strlit("·");
    reveal_strlit(" ");
    reveal_strlit(":");
    assert(r.text@.skip(2) =~= tool.title);
    assert(":"@ =~= seq![':']);
    assert forall|i: int| 0 <= i < r.links@.len() implies leads_to(
        #[trigger] r.links@[i],
        tool.locations[i],
    ) by {
        let link = r.links@[i];
        let place = tool.locations[i];
        assert(opens(link, place));
        let name = choose|name: Option<Seq<char>>| #[trigger]
            link_label(name, place.0, place.1) == link.label@ && may_be_called(
                place.0,
                name,
            );
        assert(may_be_called(place.0, name));
    }
}

proof fn lemma_row(r: Row, entry: EntryView)
    requires
        shows(r, entry),
    ensures
        is_row_of(r, entry),
{
    match entry {
        EntryView::Thought(text) => lemma_glimpse(r.text@, text),
        EntryView::Tool(tool) => lemma_tool_row(r, tool),
        _ => {},
    }
}

/// An entry is shown by the row for it: what was asked, answered or noticed is shown
/// whole, whatever its length.
pub proof fn law_entry_is_shown(entry: &Entry, r: Row)
    requires
        call_ensures(entry_row, (entry,), r),
    ensures
        is_row_of(r, entry@),
        match entry {
            Entry::User(text) => r.text@ == text@,
            Entry::Agent(text) => r.text@ == text@,
            Entry::Notice(text) => r.text@ == text@,
            _ => true,
        },
{
    lemma_row(r, entry@);
}

/// A transcript is shown by one row for each entry, in order.
pub proof fn law_transcript_is_shown(entries: &im::Vector<Entry>, r: Vec<Row>)
    requires
        call_ensures(transcript, (entries,), r),
    ensures
        r@.len() == rows(*entries).len(),
        forall|i: int| 0 <= i < r@.len() ==> is_row_of(#[trigger] r@[i], rows(*entries)[i]),
        forall|i: int|
            0 <= i < r@.len() ==> match rows(*entries)[i] {
                EntryView::User(text) => (#[trigger] r@[i]).text@ == text,
                EntryView::Agent(text) => r@[i].text@ == text,
                EntryView::Notice(text) => r@[i].text@ == text,
                _ => true,
            },
{
    assert forall|i: int| 0 <= i < r@.len() implies is_row_of(
        #[trigger] r@[i],
        rows(*entries)[i],
    ) by {
        lemma_row(r@[i], rows(*entries)[i]);
    }
}

// ----------------------------------------------------------------------- names

/// Whether a text has nothing in it but separators and components `.`, so that it
/// adds nothing to a path.
pub open spec fn adds_nothing(s: Seq<char>, style: PathStyle) -> bool {
    &&& forall|i: int| 0 <= i < s.len() ==> separates(#[trigger] s[i], style) || s[i] == '.'
    &&& forall|i: int|
        0 <= i < s.len() - 1 ==> separates(#[trigger] s[i], style) || separates(s[i + 1], style)
}

/// Whether a component stands at that place of a path, and nothing behind it but what
/// adds nothing.
pub open spec fn ends_with_component(
    path: Seq<char>,
    style: PathStyle,
    component: Seq<char>,
    at: int,
) -> bool {
    let end = at + component.len();
    &&& 0 <= at
    &&& end <= path.len()
    &&& component.len() > 0
    &&& path.subrange(at, end) == component
    &&& forall|i: int| 0 <= i < component.len() ==> !separates(#[trigger] component[i], style)
    &&& at > 0 ==> separates(path[at - 1], style)
    &&& end < path.len() ==> separates(path[end], style)
    &&& adds_nothing(path.skip(end), style)
    &&& component != seq!['.']
}

proof fn lemma_segment(path: Seq<char>, style: PathStyle)
    ensures
        0 <= segment_start(path, style) <= path.len(),
        forall|i: int|
            segment_start(path, style) <= i < path.len() ==> !separates(#[trigger] path[i], style),
        segment_start(path, style) > 0 ==> separates(path[segment_start(path, style) - 1], style),
    decreases path.len(),
{
    if path.len() > 0 && !separates(path.last(), style) {
        let rest = path.drop_last();
        lemma_segment(rest, style);
        assert forall|i: int|
            segment_start(path, style) <= i < path.len() implies !separates(
            #[trigger] path[i],
            style,
        ) by {
            if i < rest.len() {
                assert(rest[i] == path[i]);
            }
        }
    }
}

proof fn lemma_last_segment(path: Seq<char>, style: PathStyle)
    ensures
        last_segment(path, style) matches Some(c) ==> exists|at: int| #[trigger]
            ends_with_component(path, style, c, at),
        last_segment(path, style) is None ==> adds_nothing(path, style),
    decreases path.len(),
{
    lemma_segment(path, style);
    let start = segment_start(path, style);
    let segment = path.skip(start);
    if segment.len() == 0 || segment == seq!['.'] {
        if segment.len() > 0 {
            assert(segment[0] == '.');
            assert(segment[0] == path[start]);
        }
        if start > 0 {
            let front = path.take(start - 1);
            lemma_last_segment(front, style);
            match last_segment(front, style) {
                Some(c) => {
                    let at = choose|at: int| ends_with_component(front, style, c, at);
                    let end = at + c.len();
                    assert(path.subrange(at, end) =~= front.subrange(at, end));
                    let tail = path.skip(end);
                    let less = front.skip(end);
                    assert forall|i: int| 0 <= i < tail.len() implies separates(
                        #[trigger] tail[i],
                        style,
                    ) || tail[i] == '.' by {
                        if i < less.len() {
                            assert(less[i] == tail[i]);
                        }
                    }
                    assert forall|i: int| 0 <= i < tail.len() - 1 implies separates(
                        #[trigger] tail[i],
                        style,
                    ) || separates(tail[i + 1], style) by {
                        if i + 1 < less.len() {
                            assert(less[i] == tail[i] && less[i + 1] == tail[i + 1]);
                        } else if i + 1 == less.len() {
                            assert(tail[i + 1] == path[start - 1]);
                        } else {
                            assert(tail[i] == path[start - 1]);
                        }
                    }
                    if end < front.len() {
                        assert(front[end] == path[end]);
                    }
                    if at > 0 {
                        assert(front[at - 1] == path[at - 1]);
                    }
                    assert(ends_with_component(path, style, last_segment(path, style)->Some_0, at));
                },
                None => {
                    assert forall|i: int| 0 <= i < path.len() implies separates(
                        #[trigger] path[i],
                        style,
                    ) || path[i] == '.' by {
                        if i < front.len() {
                            assert(front[i] == path[i]);
                        }
                    }
                    assert forall|i: int| 0 <= i < path.len() - 1 implies separates(
                        #[trigger] path[i],
                        style,
                    ) || separates(path[i + 1], style) by {
                        if i + 1 < front.len() {
                            assert(front[i] == path[i] && front[i + 1] == path[i + 1]);
                        }
                    }
                },
            }
        }
    } else {
        assert(path.subrange(start, start + segment.len()) =~= segment);
        assert forall|i: int| 0 <= i < segment.len() implies !separates(
            #[trigger] segment[i],
            style,
        ) by {
            assert(segment[i] == path[start + i]);
        }
        assert(path.skip(start + segment.len()) =~= Seq::empty());
        assert(ends_with_component(path, style, last_segment(path, style)->Some_0, start));
    }
}

/// A file is called by the last component of its path: it has no separator in it,
/// stands behind one, and is followed by nothing but separators and components `.`.
/// Where the last component is `..`, or there is none, it has no name.
pub proof fn law_name_is_the_last_component(path: Seq<char>, style: PathStyle)
    ensures
        match last_name(path, style) {
            Some(name) => name != seq!['.', '.'] && exists|at: int|
                ends_with_component(path, style, name, at),
            None => adds_nothing(path, style) || exists|at: int|
                ends_with_component(path, style, seq!['.', '.'], at),
        },
{
    lemma_last_segment(path, style);
}

/// The label of a link is what the file is called, or the whole path where it has no
/// name, a colon, and the line as people count it.
pub proof fn law_link_is_labelled(name: &Option<String>, path: &str, line: u32, r: String)
    requires
        call_ensures(label_link, (name, path, line), r),
    ensures
        match name {
            Some(n) => r@ == n@ + seq![':'] + decimal((line + 1) as nat),
            None => r@ == path@ + seq![':'] + decimal((line + 1) as nat),
        },
{
    reveal_strlit(":");
    assert(":"@ =~= seq![':']);
}

// ---------------------------------------------------------------------- status

/// The status line names the agent, or says that there is none, and says what the
/// status is.
pub proof fn law_status_line_says_both(name: &Option<String>, status: &AgentStatus, r: String)
    requires
        call_ensures(status_line, (name, status), r),
    ensures
        ({
            let who = match name {
                Some(n) => n@,
                None => "no agent"@,
            };
            match status {
                AgentStatus::Stopped => r@ == who + " — "@ + "not started"@,
                AgentStatus::Connecting => r@ == who + " — "@ + "connecting…"@,
                AgentStatus::Ready => r@ == who + " — "@ + "ready"@,
                AgentStatus::Working => r@ == who + " — "@ + "working…"@,
                AgentStatus::Failed(e) => r@ == who + " — "@ + ("failed: "@ + e@),
            }
        }),
{
}

/// A failure is drawn as an error, and every other status is dim.
pub proof fn law_failure_stands_out(status: &AgentStatus, r: Tone)
    requires
        call_ensures(status_tone, (status,), r),
    ensures
        status is Failed ==> r == Tone::Error,
        !(status is Failed) ==> r == Tone::Dim,
{
}

// -------------------------------------------------------------------- controls

/// Enter alone submits; everything else is the editor's.
pub proof fn law_enter_alone_submits(enter: bool, shift: bool, r: KeyAction)
    requires
        call_ensures(prompt_key, (enter, shift), r),
    ensures
        r == KeyAction::Submit <==> enter && !shift,
        r == KeyAction::Edit <==> !enter || shift,
{
}

/// Commands that edit, move or select are for the prompt box, and no others.
pub proof fn law_prompt_takes_editing(kind: CommandKind, r: bool)
    requires
        call_ensures(is_for_prompt, (kind,), r),
    ensures
        r <==> kind == CommandKind::Edit || kind == CommandKind::Move || kind
            == CommandKind::MultiSelection,
{
}

/// A decision tells the agent the option that was selected, by its id, or that the
/// request was cancelled.
pub proof fn law_decision_is_told(d: &Decision, r: Json)
    requires
        call_ensures(Decision::result, (d,), r),
    ensures
        match d.option_id {
            Some(id) => selects_id(r@, id@),
            None => is_cancelled(r@),
        },
{
    lemma_cancelled();
    match d.option_id {
        Some(id) => lemma_selects(id@),
        None => {},
    }
}

/// The bar is there while a request is pending: it asks about it by its title, and
/// offers each option by what it is called, in order, and a way to dismiss it.
pub proof fn law_bar_asks_what_is_pending(b: &PermissionBar, r: Option<Bar>)
    requires
        call_ensures(PermissionBar::bar, (b,), r),
    ensures
        match b.pending {
            Some(request) => {
                &&& r matches Some(bar)
                &&& bar.question@ == "Allow: "@ + request.title@ + "?"@
                &&& bar.choices@.len() == request.options@.len()
                &&& forall|i: int|
                    0 <= i < bar.choices@.len() ==> (#[trigger] bar.choices@[i])@ == "  [ "@
                        + request.options@[i].1@ + " ]  "@
                &&& bar.dismiss@ == "  [ Dismiss ]  "@
            },
            None => r is None,
        },
{
}

/// Picking an option gives the agent the id of that option, and the bar is gone. What
/// is not offered cannot be picked.
pub proof fn law_pick_is_told(index: usize, r: Option<Decision>, d: &Decision, told: Json)
    requires
        call_ensures(Decision::result, (d,), told),
        r == Some(*d),
    ensures
        forall|b: &mut PermissionBar| #[trigger]
            call_ensures(PermissionBar::select, (b, index), r) ==> {
                &&& (*b).pending matches Some(request)
                &&& index < request.options@.len()
                &&& selects_id(told@, request.options@[index as int].0@)
                &&& (*final(b)).pending is None
            },
{
    assert forall|b: &mut PermissionBar| #[trigger]
        call_ensures(PermissionBar::select, (b, index), r) implies {
        &&& (*b).pending matches Some(request)
        &&& index < request.options@.len()
        &&& selects_id(told@, request.options@[index as int].0@)
        &&& (*final(b)).pending is None
    } by {
        match (*b).pending {
            Some(request) => {
                if index < request.options@.len() {
                    lemma_selects(request.options@[index as int].0@);
                }
            },
            None => {},
        }
    }
}

/// Picking gives no answer only where nothing is pending or the option is not there,
/// and the bar is then as it was.
pub proof fn law_pick_answers(index: usize, r: Option<Decision>)
    ensures
        forall|b: &mut PermissionBar| #[trigger]
            call_ensures(PermissionBar::select, (b, index), r) ==> if (*b).pending matches Some(
                request,
            ) && index < request.options@.len() {
                r is Some
            } else {
                r is None && *final(b) == *b
            },
{
}

/// Dismissing a pending request tells the agent that it was cancelled, and the bar is
/// gone either way.
pub proof fn law_dismissal_cancels(r: Option<Decision>)
    ensures
        forall|b: &mut PermissionBar| #[trigger]
            call_ensures(PermissionBar::dismiss, (b,), r) ==> {
                &&& (*b).pending is Some <==> r is Some
                &&& r matches Some(d) ==> d.option_id is None
                &&& (*final(b)).pending is None
            },
        forall|d: &Decision, told: Json|
            r == Some(*d) && d.option_id is None && #[trigger] call_ensures(
                Decision::result,
                (d,),
                told,
            ) ==> is_cancelled(told@),
{
    lemma_cancelled();
}

} // verus!
