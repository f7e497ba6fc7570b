//! The agent panel: what it shows of a session, and what its controls do.
//!
//! Four kinds of row, deliberately distinguished rather than concatenated: what
//! was asked, the answer, the reasoning, and what the agent did. Reasoning is
//! dimmed -- a model's scratchpad is not the answer, and rendering it as one is
//! the most common way agent panels mislead. Rows of what the agent did list the
//! files it touched as links: when the agent answers from the wrong file, you can
//! see that it did, and open it.

use crate::agent::{row, row_count, rows, AgentStatus, Entry, EntryView, StatusView};
use crate::client::{cancelled, cancelled_outcome, selected, selected_outcome};
use crate::json::{Json, JsonModel};
use crate::protocol::{optional_text, ToolCallStatus};
use crate::text::{decimal, decimal_text, join2, join3, trim, trimmed};
use vstd::prelude::*;
use vstd::string::*;

verus! {

/// The colour that a piece of text is drawn in.
#[derive(Debug, Clone, Copy, PartialEq, Eq, Structural)]
pub enum Tone {
    Foreground,
    Dim,
    Error,
    Link,
}

// ---------------------------------------------------------------- status line

/// The status line: who the agent is and how it is doing.
pub open spec fn status_text(name: Option<Seq<char>>, status: StatusView) -> Seq<char> {
    (match name {
        Some(n) => n,
        None => "no agent"@,
    }) + " — "@ + status.description()
}

/// The status line. Always visible, because "nothing is happening" and "the
/// agent died three minutes ago" must not look the same.
pub fn status_line(name: &Option<String>, status: &AgentStatus) -> (r: String)
    ensures
        r@ == status_text(optional_text(*name), status@),
{
    let name: &str = match name {
        Some(n) => n.as_str(),
        None => "no agent",
    };
    join3(name, " — ", status.describe().as_str())
}

/// The colour of the status line.
pub fn status_tone(status: &AgentStatus) -> (r: Tone)
    ensures
        r == (if status@ is Failed {
            Tone::Error
        } else {
            Tone::Dim
        }),
{
    match status {
        AgentStatus::Failed(_) => Tone::Error,
        _ => Tone::Dim,
    }
}

// ----------------------------------------------------------------------- rows

/// A file that can be opened from the transcript.
#[derive(Debug)]
pub struct Link {
    pub label: String,
    pub path: String,
    /// The line to go to, from 0 up.
    pub line: u32,
}

/// One row as the panel draws it.
#[derive(Debug)]
pub struct Row {
    pub text: String,
    pub tone: Tone,
    /// Whether it stands on the background of the current line.
    pub highlighted: bool,
    /// Whether it is set one size smaller than the rest.
    pub small: bool,
    /// The space above and below it.
    pub padding: u32,
    pub links: Vec<Link>,
}

/// How much of a thought is shown.
pub const THOUGHT_LENGTH: usize = 160;

/// What is shown of a thought: visible enough to know it happened, quiet enough
/// not to be mistaken for the answer.
pub open spec fn thought_text(text: Seq<char>) -> Seq<char> {
    let t = trimmed(text);
    if t.len() > THOUGHT_LENGTH {
        t.take(THOUGHT_LENGTH as int) + "…"@
    } else {
        t
    }
}

fn shorten_thought(text: &str) -> (r: String)
    ensures
        r@ == thought_text(text@),
{
    let t = trim(text);
    if t.unicode_len() > THOUGHT_LENGTH {
        let head = t.substring_char(0, THOUGHT_LENGTH);
        assert(head@ =~= t@.take(THOUGHT_LENGTH as int));
        join2(head, "…")
    } else {
        t.to_owned()
    }
}

/// The mark in front of a tool call.
pub open spec fn tool_mark(status: Option<ToolCallStatus>) -> Seq<char> {
    match status {
        Some(ToolCallStatus::Completed) => "✓"@,
        Some(ToolCallStatus::Failed) => "✗"@,
        Some(ToolCallStatus::InProgress) => "…"@,
        _ => "·"@,
    }
}

/// What is shown of a tool call.
pub open spec fn tool_text(title: Seq<char>, status: Option<ToolCallStatus>) -> Seq<char> {
    tool_mark(status) + " "@ + title
}

fn tool_line(title: &str, status: Option<ToolCallStatus>) -> (r: String)
    ensures
        r@ == tool_text(title@, status),
{
    let mark: &str = match status {
        Some(ToolCallStatus::Completed) => "✓",
        Some(ToolCallStatus::Failed) => "✗",
        Some(ToolCallStatus::InProgress) => "…",
        _ => "·",
    };
    join3(mark, " ", title)
}

/// What separates the components of a path, and whether a drive may stand in front
/// of them.
pub enum PathStyle {
    /// Slashes.
    Unix,
    /// Slashes and backslashes, behind a drive where there is one.
    Windows,
    /// Backslashes alone: Windows where a path is to be taken literally.
    Verbatim,
}

/// Whether a character separates components.
pub open spec fn separates(c: char, style: PathStyle) -> bool {
    ||| c == '/' && style != PathStyle::Verbatim
    ||| c == '\\' && style != PathStyle::Unix
}

/// Where the part of a path behind its last separator begins.
pub open spec fn segment_start(path: Seq<char>, style: PathStyle) -> int
    decreases path.len(),
{
    if path.len() == 0 || separates(path.last(), style) {
        path.len() as int
    } else {
        segment_start(path.drop_last(), style)
    }
}

/// The last component of a path. Separators at the end and components `.` do not
/// count.
pub open spec fn last_segment(path: Seq<char>, style: PathStyle) -> Option<Seq<char>>
    decreases path.len(),
{
    let start = segment_start(path, style);
    if 0 <= start <= path.len() {
        let segment = path.skip(start);
        if segment.len() == 0 || segment == seq!['.'] {
            if start == 0 {
                None
            } else {
                last_segment(path.take(start - 1), style)
            }
        } else {
            Some(segment)
        }
    } else {
        None
    }
}

/// The last component of a path, where that is a name.
pub open spec fn last_name(path: Seq<char>, style: PathStyle) -> Option<Seq<char>> {
    match last_segment(path, style) {
        Some(segment) => if segment == seq!['.', '.'] {
            None
        } else {
            Some(segment)
        },
        None => None,
    }
}

/// Whether a path begins with a drive: a letter and a colon.
pub open spec fn has_drive(path: Seq<char>) -> bool {
    &&& path.len() >= 2
    &&& path[1] == ':'
    &&& ('a' <= path[0] <= 'z' || 'A' <= path[0] <= 'Z')
}

/// Whether a path begins with two separators, as those of shares and devices do on
/// Windows.
pub open spec fn has_share(path: Seq<char>) -> bool {
    &&& path.len() >= 2
    &&& separates(path[0], PathStyle::Windows)
    &&& separates(path[1], PathStyle::Windows)
}

/// What a file is called on Windows, where its path does not begin with a share.
pub open spec fn windows_name(path: Seq<char>) -> Option<Seq<char>> {
    if has_drive(path) {
        last_name(path.skip(2), PathStyle::Windows)
    } else {
        last_name(path, PathStyle::Windows)
    }
}

/// Whether a file may be called so: on Unix, or on Windows. Of a share or a device
/// Windows may also take the last component for part of the prefix, and then the
/// file has no name; and it may take the path literally.
pub open spec fn may_be_called(path: Seq<char>, name: Option<Seq<char>>) -> bool {
    ||| name == last_name(path, PathStyle::Unix)
    ||| !has_share(path) && name == windows_name(path)
    ||| has_share(path) && (name is None || name == last_name(path, PathStyle::Windows) || name
        == last_name(path, PathStyle::Verbatim))
}

/// `std::path::Path::file_name`: the last component of the path, where that is a
/// name. The components are separated by slashes on Unix and by slashes or
/// backslashes on Windows, where a prefix such as a drive or a share is none of
/// them, and a path that begins with `\\?\` is taken literally.
#[verifier::external_body]
fn file_name(path: &str) -> (r: Option<String>)
    ensures
        may_be_called(path@, optional_text(r)),
{
    std::path::Path::new(path).file_name().map(|n| n.to_string_lossy().into_owned())
}

/// What a link to a line is labelled: by the file's name, or the whole path where
/// it has none. The label counts lines from 1.
pub open spec fn link_label(name: Option<Seq<char>>, path: Seq<char>, line: u32) -> Seq<char> {
    (match name {
        Some(n) => n,
        None => path,
    }) + ":"@ + decimal((line + 1) as nat)
}

/// The label of a link to a line of a file whose name is `name`.
pub fn label_link(name: &Option<String>, path: &str, line: u32) -> (r: String)
    requires
        line < u32::MAX,
    ensures
        r@ == link_label(optional_text(*name), path@, line),
{
    let shown: &str = match name {
        Some(n) => n.as_str(),
        None => path,
    };
    join3(shown, ":", decimal_text((line + 1) as u64).as_str())
}

/// Whether a link opens a place, under the label that goes with it: what the file is
/// called, or the whole path where it has no name, and the line.
pub open spec fn opens(link: Link, place: (Seq<char>, u32)) -> bool {
    &&& link.path@ == place.0
    &&& link.line == place.1
    &&& exists|name: Option<Seq<char>>| #[trigger]
        link_label(name, place.0, place.1) == link.label@ && may_be_called(place.0, name)
}

/// Whether the lines of a row's places can be counted from 1.
pub open spec fn showable(entry: EntryView) -> bool {
    entry matches EntryView::Tool(t) ==> forall|i: int|
        0 <= i < t.locations.len() ==> (#[trigger] t.locations[i]).1 < u32::MAX
}

/// Whether a row shows an entry of the transcript.
pub open spec fn shows(r: Row, entry: EntryView) -> bool {
    match entry {
        EntryView::User(text) => {
            &&& r.text@ == text
            &&& r.tone == Tone::Foreground
            &&& r.highlighted
            &&& !r.small
            &&& r.padding == 6
            &&& r.links@.len() == 0
        },
        EntryView::Agent(text) => {
            &&& r.text@ == text
            &&& r.tone == Tone::Foreground
            &&& !r.highlighted
            &&& !r.small
            &&& r.padding == 6
            &&& r.links@.len() == 0
        },
        EntryView::Thought(text) => {
            &&& r.text@ == thought_text(text)
            &&& r.tone == Tone::Dim
            &&& !r.highlighted
            &&& r.small
            &&& r.padding == 4
            &&& r.links@.len() == 0
        },
        EntryView::Notice(text) => {
            &&& r.text@ == text
            &&& r.tone == Tone::Dim
            &&& !r.highlighted
            &&& !r.small
            &&& r.padding == 4
            &&& r.links@.len() == 0
        },
        EntryView::Tool(tool) => {
            &&& r.text@ == tool_text(tool.title, tool.status)
            &&& r.tone == (if tool.status == Some(ToolCallStatus::Failed) {
                Tone::Error
            } else {
                Tone::Dim
            })
            &&& !r.highlighted
            &&& !r.small
            &&& r.padding == 4
            &&& r.links@.len() == tool.locations.len()
            &&& forall|i: int|
                0 <= i < r.links@.len() ==> opens(#[trigger] r.links@[i], tool.locations[i])
        },
    }
}

fn tool_links(locations: &Vec<(String, u32)>) -> (r: Vec<Link>)
    requires
        forall|i: int| 0 <= i < locations@.len() ==> (#[trigger] locations@[i]).1 < u32::MAX,
    ensures
        r@.len() == locations@.len(),
        forall|i: int|
            0 <= i < r@.len() ==> opens(
                #[trigger] r@[i],
                (locations@[i].0@, locations@[i].1),
            ),
{
    let mut links: Vec<Link> = Vec::new();
    let mut i: usize = 0;
    while i < locations.len()
        invariant
            i <= locations@.len(),
            forall|k: int| 0 <= k < locations@.len() ==> (#[trigger] locations@[k]).1 < u32::MAX,
            links@.len() == i,
            forall|k: int|
                0 <= k < i ==> opens(
                    #[trigger] links@[k],
                    (locations@[k].0@, locations@[k].1),
                ),
        decreases locations.len() - i,
    {
        let path = &locations[i].0;
        let line: u32 = locations[i].1;
        let name = file_name(path.as_str());
        let label = label_link(&name, path.as_str(), line);
        let link = Link { label, path: path.clone(), line };
        proof {
            let place = (locations@[i as int].0@, locations@[i as int].1);
            assert(link_label(optional_text(name), place.0, place.1) == link.label@);
            assert(opens(link, place));
        }
        links.push(link);
        i = i + 1;
    }
    links
}

fn plain_row(text: &str, tone: Tone, highlighted: bool, small: bool, padding: u32) -> (r: Row)
    ensures
        r.text@ == text@,
        r.tone == tone,
        r.highlighted == highlighted,
        r.small == small,
        r.padding == padding,
        r.links@.len() == 0,
{
    Row { text: text.to_owned(), tone, highlighted, small, padding, links: Vec::new() }
}

/// The row that shows an entry of the transcript.
pub fn entry_row(entry: &Entry) -> (r: Row)
    requires
        showable(entry@),
    ensures
        shows(r, entry@),
{
    match entry {
        Entry::User(text) => plain_row(text.as_str(), Tone::Foreground, true, false, 6),
        Entry::Agent(text) => plain_row(text.as_str(), Tone::Foreground, false, false, 6),
        Entry::Thought(text) => {
            let shown = shorten_thought(text.as_str());
            plain_row(shown.as_str(), Tone::Dim, false, true, 4)
        },
        Entry::Notice(text) => plain_row(text.as_str(), Tone::Dim, false, false, 4),
        Entry::Tool(tool) => {
            let tone: Tone = match tool.status {
                Some(ToolCallStatus::Failed) => Tone::Error,
                _ => Tone::Dim,
            };
            assert forall|i: int| 0 <= i < tool.locations@.len() implies (
            #[trigger] tool.locations@[i]).1 < u32::MAX by {
                assert(tool@.locations[i].1 == tool.locations@[i].1);
            }
            let links = tool_links(&tool.locations);
            Row {
                text: tool_line(tool.title.as_str(), tool.status),
                tone,
                highlighted: false,
                small: false,
                padding: 4,
                links,
            }
        },
    }
}

/// The rows that show a transcript, first to last.
pub fn transcript(entries: &im::Vector<Entry>) -> (r: Vec<Row>)
    requires
        forall|i: int| 0 <= i < rows(*entries).len() ==> showable(#[trigger] rows(*entries)[i]),
    ensures
        r@.len() == rows(*entries).len(),
        forall|i: int| 0 <= i < r@.len() ==> shows(#[trigger] r@[i], rows(*entries)[i]),
{
    let mut shown: Vec<Row> = Vec::new();
    let n: usize = row_count(entries);
    let mut i: usize = 0;
    while i < n
        invariant
            i <= n,
            n == rows(*entries).len(),
            forall|k: int|
                0 <= k < rows(*entries).len() ==> showable(#[trigger] rows(*entries)[k]),
            shown@.len() == i,
            forall|k: int| 0 <= k < i ==> shows(#[trigger] shown@[k], rows(*entries)[k]),
        decreases n - i,
    {
        if let Some(entry) = row(entries, i) {
            assert(showable(rows(*entries)[i as int]));
            shown.push(entry_row(entry));
        }
        i = i + 1;
    }
    shown
}

// ----------------------------------------------------------------- prompt box

/// What a key does in the prompt box.
#[derive(Debug, Clone, Copy, PartialEq, Eq, Structural)]
pub enum KeyAction {
    /// It submits the prompt.
    Submit,
    /// It is the editor's.
    Edit,
}

/// What a key does in the prompt box: Enter submits. Shift+Enter is left to the
/// editor, so a multi-line question is still possible.
pub fn prompt_key(enter: bool, shift: bool) -> (r: KeyAction)
    ensures
        r == (if enter && !shift {
            KeyAction::Submit
        } else {
            KeyAction::Edit
        }),
{
    if enter && !shift {
        KeyAction::Submit
    } else {
        KeyAction::Edit
    }
}

/// The kinds of command that the editor runs.
#[derive(Debug, Clone, Copy, PartialEq, Eq, Structural)]
pub enum CommandKind {
    Edit,
    Move,
    MultiSelection,
    Other,
}

/// Whether a command is one for the prompt box while the panel has the focus.
pub fn is_for_prompt(kind: CommandKind) -> (r: bool)
    ensures
        r == (kind != CommandKind::Other),
{
    matches!(kind, CommandKind::Edit | CommandKind::Move | CommandKind::MultiSelection)
}

// ------------------------------------------------------------- permission bar

/// A decision the agent is blocked on.
#[derive(Debug)]
pub struct PermissionRequest {
    pub title: String,
    /// The id of each option, and what it is called.
    pub options: Vec<(String, String)>,
}

/// What the user decided: one of the options, or none of them.
#[derive(Debug, PartialEq)]
pub struct Decision {
    pub option_id: Option<String>,
}

/// The result that tells the agent of a decision.
pub open spec fn decision_result(option_id: Option<Seq<char>>) -> JsonModel {
    match option_id {
        Some(id) => selected_outcome(id),
        None => cancelled_outcome(),
    }
}

impl Decision {
    /// The result that tells the agent of the decision: the option that was
    /// selected, or that the request was cancelled.
    pub fn result(&self) -> (r: Json)
        ensures
            r@ == decision_result(optional_text(self.option_id)),
    {
        match &self.option_id {
            Some(id) => selected(id.as_str()),
            None => cancelled(),
        }
    }
}

/// What the permission bar shows.
#[derive(Debug)]
pub struct Bar {
    pub question: String,
    pub choices: Vec<String>,
    pub dismiss: String,
}

/// Whether a bar shows a request.
pub open spec fn asks(bar: Bar, request: PermissionRequest) -> bool {
    &&& bar.question@ == "Allow: "@ + request.title@ + "?"@
    &&& bar.choices@.len() == request.options@.len()
    &&& forall|i: int|
        0 <= i < bar.choices@.len() ==> (#[trigger] bar.choices@[i])@ == "  [ "@
            + request.options@[i].1@ + " ]  "@
    &&& bar.dismiss@ == "  [ Dismiss ]  "@
}

/// The permission bar. It is there only while the agent is blocked on a decision.
///
/// The agent is waiting, so every way out gives an answer: each option gives its
/// id, and dismissing gives none of them, which tells the agent that the request
/// was cancelled. Leaving without an answer would hang the turn.
#[derive(Debug)]
pub struct PermissionBar {
    pub pending: Option<PermissionRequest>,
}

impl PermissionBar {
    /// What to show, if anything.
    pub fn bar(&self) -> (r: Option<Bar>)
        ensures
            match self.pending {
                Some(request) => r matches Some(bar) && asks(bar, request),
                None => r is None,
            },
    {
        match &self.pending {
            Some(request) => {
                let mut choices: Vec<String> = Vec::new();
                let mut i: usize = 0;
                while i < request.options.len()
                    invariant
                        i <= request.options@.len(),
                        choices@.len() == i,
                        forall|k: int|
                            0 <= k < i ==> (#[trigger] choices@[k])@ == "  [ "@
                                + request.options@[k].1@ + " ]  "@,
                    decreases request.options.len() - i,
                {
                    choices.push(join3("  [ ", request.options[i].1.as_str(), " ]  "));
                    i = i + 1;
                }
                Some(
                    Bar {
                        question: join3("Allow: ", request.title.as_str(), "?"),
                        choices,
                        dismiss: "  [ Dismiss ]  ".to_owned(),
                    },
                )
            },
            None => None,
        }
    }

    /// The user picked the option at `index`. The answer is its id, and the bar
    /// goes away.
    pub fn select(&mut self, index: usize) -> (r: Option<Decision>)
        ensures
            match old(self).pending {
                Some(request) => if index < request.options@.len() {
                    &&& final(self).pending is None
                    &&& r matches Some(d)
                    &&& optional_text(d.option_id) == Some(request.options@[index as int].0@)
                } else {
                    *final(self) == *old(self) && r is None
                },
                None => *final(self) == *old(self) && r is None,
            },
    {
        let id: String = match &self.pending {
            Some(request) => {
                if index >= request.options.len() {
                    return None;
                }
                request.options[index].0.clone()
            },
            None => {
                return None;
            },
        };
        self.pending = None;
        Some(Decision { option_id: Some(id) })
    }

    /// The user dismissed the request. That is still an answer: silence hangs the
    /// turn.
    pub fn dismiss(&mut self) -> (r: Option<Decision>)
        ensures
            final(self).pending is None,
            r is Some <==> old(self).pending is Some,
            r matches Some(d) ==> d.option_id is None,
    {
        match self.pending.take() {
            Some(_) => Some(Decision { option_id: None }),
            None => None,
        }
    }
}

} // verus!
