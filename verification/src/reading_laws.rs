//! What is read from a message, member by member: each law is about what a reader
//! gives, in terms of the JSON it was given.

use crate::decode::{list_of, DecodeError, DecodeErrorView};
use crate::json::{lookup, Json, JsonModel};
use crate::protocol::{
    location_views, option_views, plan_views, ContentBlock, ContentBlockView, Implementation,
    ImplementationView, InitializeResult, NewSessionResult, PermissionKind, PermissionOption,
    PermissionOptionView, PlanEntry, PlanEntryView, PromptResult, RequestPermissionParams,
    RequestPermissionParamsView, SessionNotification, SessionNotificationView, SessionUpdate,
    SessionUpdateView, StopReason, ToolCall, ToolCallLocation, ToolCallLocationView, ToolCallStatus,
    ToolCallUpdate, ToolCallUpdateView, ToolCallView, ToolKind,
};
use crate::sending_laws::{holds, lacks, only};
use crate::text::signed_decimal;
use crate::words::lemma_words;
use vstd::prelude::*;

verus! {

// ---------------------------------------------------------------------- names

/// Whether a word is the name of a kind of permission.
pub open spec fn names_permission(name: Seq<char>, kind: PermissionKind) -> bool {
    match kind {
        PermissionKind::AllowOnce => name == "allow_once"@,
        PermissionKind::AllowAlways => name == "allow_always"@,
        PermissionKind::RejectOnce => name == "reject_once"@,
        PermissionKind::RejectAlways => name == "reject_always"@,
        PermissionKind::Unknown => name != "allow_once"@ && name != "allow_always"@ && name
            != "reject_once"@ && name != "reject_always"@,
    }
}

/// Whether a word is the name of a status of a tool call.
pub open spec fn names_status(name: Seq<char>, status: ToolCallStatus) -> bool {
    match status {
        ToolCallStatus::Pending => name == "pending"@,
        ToolCallStatus::InProgress => name == "in_progress"@,
        ToolCallStatus::Completed => name == "completed"@,
        ToolCallStatus::Failed => name == "failed"@,
        ToolCallStatus::Unknown => name != "pending"@ && name != "in_progress"@ && name
            != "completed"@ && name != "failed"@,
    }
}

/// Whether a word is the name of a kind of tool.
pub open spec fn names_tool(name: Seq<char>, kind: ToolKind) -> bool {
    match kind {
        ToolKind::Read => name == "read"@,
        ToolKind::Edit => name == "edit"@,
        ToolKind::Delete => name == "delete"@,
        ToolKind::Move => name == "move"@,
        ToolKind::Search => name == "search"@,
        ToolKind::Execute => name == "execute"@,
        ToolKind::Think => name == "think"@,
        ToolKind::Fetch => name == "fetch"@,
        ToolKind::SwitchMode => name == "switch_mode"@,
        ToolKind::Other => name == "other"@,
        ToolKind::Unknown => name != "read"@ && name != "edit"@ && name != "delete"@ && name
            != "move"@ && name != "search"@ && name != "execute"@ && name != "think"@ && name
            != "fetch"@ && name != "switch_mode"@ && name != "other"@,
    }
}

/// Whether a word is the name of a reason to stop.
pub open spec fn names_reason(name: Seq<char>, reason: StopReason) -> bool {
    match reason {
        StopReason::EndTurn => name == "end_turn"@,
        StopReason::MaxTokens => name == "max_tokens"@,
        StopReason::MaxTurnRequests => name == "max_turn_requests"@,
        StopReason::Refusal => name == "refusal"@,
        StopReason::Cancelled => name == "cancelled"@,
        StopReason::Unknown => name != "end_turn"@ && name != "max_tokens"@ && name
            != "max_turn_requests"@ && name != "refusal"@ && name != "cancelled"@,
    }
}

/// Each word reads as what it names, and any other word as unknown.
pub proof fn law_each_name_reads_as_its_own(name: Seq<char>, tagged: bool)
    ensures
        PermissionKind::read(JsonModel::Str(name), tagged) matches Some(k) && names_permission(
            name,
            k,
        ),
        ToolCallStatus::read(JsonModel::Str(name), tagged) matches Some(s) && names_status(name, s),
        ToolKind::read(JsonModel::Str(name), tagged) matches Some(t) && names_tool(name, t),
        StopReason::read(JsonModel::Str(name)) matches Ok(r) && names_reason(name, r),
{
    lemma_words();
}

/// Whether a value is neither a string nor an object with one member, and so names
/// nothing.
pub open spec fn names_nothing(m: JsonModel) -> bool {
    match m {
        JsonModel::Str(_) => false,
        JsonModel::Object(o) => forall|k: Seq<char>| !(o.dom() =~= set![k]),
        _ => true,
    }
}

/// A name may also stand as the only key of an object whose value is `null`; what
/// is neither that nor a string is refused.
pub proof fn law_name_as_a_key(name: Seq<char>, m: JsonModel, tagged: bool)
    ensures
        ({
            let o = JsonModel::Object(Map::empty().insert(name, JsonModel::Null));
            &&& PermissionKind::read(o, tagged) == PermissionKind::read(
                JsonModel::Str(name),
                tagged,
            )
            &&& ToolCallStatus::read(o, tagged) == ToolCallStatus::read(
                JsonModel::Str(name),
                tagged,
            )
            &&& ToolKind::read(o, tagged) == ToolKind::read(JsonModel::Str(name), tagged)
            &&& StopReason::read(o) == StopReason::read(JsonModel::Str(name))
        }),
        names_nothing(m) ==> PermissionKind::read(m, tagged) is None && ToolCallStatus::read(
            m,
            tagged,
        ) is None && ToolKind::read(m, tagged) is None && StopReason::read(m) is Err,
{
    let o = Map::<Seq<char>, JsonModel>::empty().insert(name, JsonModel::Null);
    assert(o.dom() =~= set![name]);
    assert(o.dom().contains(name));
    assert(o.dom().contains(o.dom().choose()));
    assert(o.dom().choose() == name);
    match m {
        JsonModel::Object(p) => {
            let k = p.dom().choose();
            assert(Set::empty().insert(k) =~= set![k]);
        },
        _ => {},
    }
}

/// Whether a value beside a name says nothing: `null`, and in an update also an object
/// without members.
pub open spec fn says_nothing(v: JsonModel, tagged: bool) -> bool {
    v is Null || tagged && only(v, Set::empty())
}

/// A name that is a key counts only where its value says nothing.
pub proof fn law_value_of_a_key(name: Seq<char>, v: JsonModel, tagged: bool)
    ensures
        ({
            let o = JsonModel::Object(Map::empty().insert(name, v));
            let word = JsonModel::Str(name);
            if says_nothing(v, tagged) {
                &&& PermissionKind::read(o, tagged) == PermissionKind::read(word, tagged)
                &&& ToolCallStatus::read(o, tagged) == ToolCallStatus::read(word, tagged)
                &&& ToolKind::read(o, tagged) == ToolKind::read(word, tagged)
            } else {
                &&& PermissionKind::read(o, tagged) is None
                &&& ToolCallStatus::read(o, tagged) is None
                &&& ToolKind::read(o, tagged) is None
            }
        }),
        !(v is Null) ==> StopReason::read(JsonModel::Object(Map::empty().insert(name, v))) is Err,
{
    let o = Map::<Seq<char>, JsonModel>::empty().insert(name, v);
    assert(o.dom() =~= set![name]);
    assert(o.dom().contains(name));
    assert(o.dom().contains(o.dom().choose()));
    assert(o.dom().choose() == name);
}

// ---------------------------------------------------------------------- parts

/// Whether a member is there and is text.
pub open spec fn is_text(m: JsonModel, key: Seq<char>) -> bool {
    m matches JsonModel::Object(o) && o.dom().contains(key) && o[key] is Str
}

/// Whether a member is left out, or is `null`.
pub open spec fn is_unset(m: JsonModel, key: Seq<char>) -> bool {
    lacks(m, key) || holds(m, key, JsonModel::Null)
}

/// Whether an optional member was read: as its text, or as nothing where it is
/// unset.
pub open spec fn is_maybe_text(m: JsonModel, key: Seq<char>, s: Option<String>) -> bool {
    match s {
        Some(s) => holds(m, key, JsonModel::Str(s@)),
        None => is_unset(m, key),
    }
}

/// Whether an optional member was read: as what its word names, or as nothing where
/// it is unset.
pub open spec fn is_maybe_status(
    m: JsonModel,
    key: Seq<char>,
    s: Option<ToolCallStatus>,
    tagged: bool,
) -> bool {
    match s {
        Some(s) => m matches JsonModel::Object(o) && o.dom().contains(key)
            && ToolCallStatus::read(o[key], tagged) == Some(s),
        None => is_unset(m, key),
    }
}

/// A location is its path, and its line where it has one.
pub proof fn law_location_is_read(j: &Json, r: Option<ToolCallLocation>)
    requires
        call_ensures(ToolCallLocation::from_json, (j,), r),
        j@ is Object,
    ensures
        r matches Some(l) ==> {
            &&& holds(j@, "path"@, JsonModel::Str(l.path@))
            &&& match l.line {
                Some(n) => holds(j@, "line"@, JsonModel::Integer(n as int)),
                None => is_unset(j@, "line"@),
            }
        },
        r is None ==> !is_text(j@, "path"@) || !(is_unset(j@, "line"@) || exists|n: int|
            0 <= n <= u32::MAX && #[trigger] holds(j@, "line"@, JsonModel::Integer(n))),
{
    if r is None && is_text(j@, "path"@) && !is_unset(j@, "line"@) {
        assert forall|n: int| 0 <= n <= u32::MAX implies !(#[trigger] holds(
            j@,
            "line"@,
            JsonModel::Integer(n),
        )) by {}
    }
}

/// A step of a plan is its content, with its priority and its status where it has
/// them.
pub proof fn law_plan_entry_is_read(j: &Json, r: Option<PlanEntry>)
    requires
        call_ensures(PlanEntry::from_json, (j,), r),
        j@ is Object,
    ensures
        r matches Some(e) ==> {
            &&& holds(j@, "content"@, JsonModel::Str(e.content@))
            &&& is_maybe_text(j@, "priority"@, e.priority)
            &&& is_maybe_text(j@, "status"@, e.status)
        },
        r is Some <==> is_text(j@, "content"@) && (is_unset(j@, "priority"@) || is_text(
            j@,
            "priority"@,
        )) && (is_unset(j@, "status"@) || is_text(j@, "status"@)),
{
}

/// Whether a list member was read: one location for each item, in order, or none
/// where it is left out.
pub open spec fn are_locations(
    m: JsonModel,
    key: Seq<char>,
    locations: Seq<ToolCallLocation>,
) -> bool {
    m matches JsonModel::Object(o) && if o.dom().contains(key) {
        o[key] matches JsonModel::Array(a) && a.len() == locations.len() && forall|i: int|
            0 <= i < a.len() ==> ToolCallLocationView::read(a[i]) == Some(
                (#[trigger] locations[i])@,
            )
    } else {
        locations.len() == 0
    }
}

/// Whether a list member is left out, or every item of it can be read as a location.
pub open spec fn can_be_locations(m: JsonModel, key: Seq<char>) -> bool {
    m matches JsonModel::Object(o) && (o.dom().contains(key) ==> (o[key] matches JsonModel::Array(
        a,
    ) && forall|i: int|
        0 <= i < a.len() ==> (#[trigger] ToolCallLocationView::read(a[i])) is Some))
}

/// Whether an optional member is unset or names a status.
pub open spec fn can_be_status(m: JsonModel, key: Seq<char>, tagged: bool) -> bool {
    is_unset(m, key) || (m matches JsonModel::Object(o) && ToolCallStatus::read(
        o[key],
        tagged,
    ) is Some)
}

/// What a list of locations holds.
proof fn lemma_locations(m: JsonModel, key: Seq<char>)
    ensures
        m is Object ==> (list_of(
            lookup(m, key),
            |v: JsonModel| ToolCallLocationView::read(v),
        ) is Some <==> can_be_locations(m, key)),
{
    let read = |v: JsonModel| ToolCallLocationView::read(v);
    match lookup(m, key) {
        Some(JsonModel::Array(a)) => {
            if can_be_locations(m, key) {
                assert forall|i: int| 0 <= i < a.len() implies (#[trigger] read(a[i])) is Some by {
                    assert(ToolCallLocationView::read(a[i]) is Some);
                }
            }
            if list_of(lookup(m, key), read) is Some {
                assert forall|i: int| 0 <= i < a.len() implies (
                #[trigger] ToolCallLocationView::read(a[i])) is Some by {
                    assert(read(a[i]) is Some);
                }
            }
        },
        _ => {},
    }
}

proof fn lemma_location_views(locations: Seq<ToolCallLocation>)
    ensures
        location_views(locations).len() == locations.len(),
        forall|i: int|
            0 <= i < locations.len() ==> location_views(locations)[i] == (
            #[trigger] locations[i])@,
{
}

/// A tool call is its id, and its title, kind, status and locations where it has
/// them.
pub proof fn law_tool_call_is_read(j: &Json, tagged: bool, r: Option<ToolCall>)
    requires
        call_ensures(ToolCall::from_json, (j, tagged), r),
        j@ is Object,
    ensures
        r matches Some(c) ==> {
            &&& holds(j@, "toolCallId"@, JsonModel::Str(c.tool_call_id@))
            &&& is_maybe_text(j@, "title"@, c.title)
            &&& match c.kind {
                Some(k) => j@ matches JsonModel::Object(o) && o.dom().contains("kind"@)
                    && ToolKind::read(o["kind"@], tagged) == Some(k),
                None => is_unset(j@, "kind"@),
            }
            &&& is_maybe_status(j@, "status"@, c.status, tagged)
            &&& are_locations(j@, "locations"@, c.locations@)
        },
        r is Some <==> is_text(j@, "toolCallId"@) && (is_unset(j@, "title"@) || is_text(
            j@,
            "title"@,
        )) && (is_unset(j@, "kind"@) || ToolKind::read(
            j@->Object_0["kind"@],
            tagged,
        ) is Some) && can_be_status(j@, "status"@, tagged) && can_be_locations(
            j@,
            "locations"@,
        ),
{
    lemma_locations(j@, "locations"@);
    match r {
        Some(c) => {
            lemma_location_views(c.locations@);
        },
        None => {},
    }
}

/// News of a tool call is its id, and what changed: a title, a status, locations and
/// content, where it has them.
pub proof fn law_tool_call_update_is_read(j: &Json, tagged: bool, r: Option<ToolCallUpdate>)
    requires
        call_ensures(ToolCallUpdate::from_json, (j, tagged), r),
        j@ is Object,
    ensures
        r matches Some(u) ==> {
            &&& holds(j@, "toolCallId"@, JsonModel::Str(u.tool_call_id@))
            &&& is_maybe_text(j@, "title"@, u.title)
            &&& is_maybe_status(j@, "status"@, u.status, tagged)
            &&& are_locations(j@, "locations"@, u.locations@)
            &&& are_values(j@, "content"@, u.content@)
        },
        r is Some <==> is_text(j@, "toolCallId"@) && (is_unset(j@, "title"@) || is_text(
            j@,
            "title"@,
        )) && can_be_status(j@, "status"@, tagged) && can_be_locations(j@, "locations"@) && (lacks(
            j@,
            "content"@,
        ) || j@->Object_0["content"@] is Array),
{
    lemma_locations(j@, "locations"@);
    match r {
        Some(u) => {
            lemma_location_views(u.locations@);
            lemma_values(u.content@);
        },
        None => {},
    }
}

proof fn lemma_values(values: Seq<Json>)
    ensures
        Json::items_model(values).len() == values.len(),
        forall|i: int|
            0 <= i < values.len() ==> Json::items_model(values)[i] == (#[trigger] values[i])@,
{
}

/// Whether a list member was read: one value for each item, in order, or none where
/// it is left out.
pub open spec fn are_values(m: JsonModel, key: Seq<char>, values: Seq<Json>) -> bool {
    m matches JsonModel::Object(o) && if o.dom().contains(key) {
        o[key] matches JsonModel::Array(a) && a.len() == values.len() && forall|i: int|
            0 <= i < a.len() ==> a[i] == (#[trigger] values[i])@
    } else {
        values.len() == 0
    }
}

/// A content block is what its type says: the whole of its text, or of its link; of
/// a type that is not known it is some other block. What has no type is none.
pub proof fn law_content_block_is_read(j: &Json, r: Option<ContentBlock>)
    requires
        call_ensures(ContentBlock::from_json, (j,), r),
        j@ is Object,
    ensures
        holds(j@, "type"@, JsonModel::Str("text"@)) ==> match r {
            Some(b) => b matches ContentBlock::Text { text } && holds(
                j@,
                "text"@,
                JsonModel::Str(text@),
            ),
            None => !is_text(j@, "text"@),
        },
        holds(j@, "type"@, JsonModel::Str("resource_link"@)) ==> match r {
            Some(b) => b matches ContentBlock::ResourceLink { uri } && holds(
                j@,
                "uri"@,
                JsonModel::Str(uri@),
            ),
            None => !is_text(j@, "uri"@),
        },
        is_text(j@, "type"@) && !holds(j@, "type"@, JsonModel::Str("text"@)) && !holds(
            j@,
            "type"@,
            JsonModel::Str("resource_link"@),
        ) ==> r == Some(ContentBlock::Other),
        !is_text(j@, "type"@) ==> r is None,
{
    lemma_words();
}

/// Inside an update a block is read as it is by itself; only there its type may also
/// be a number, which counts the types.
pub proof fn law_nested_block_is_read(o: Map<Seq<char>, JsonModel>, n: int)
    ensures
        is_text(JsonModel::Object(o), "type"@) ==> ContentBlockView::read_in(
            JsonModel::Object(o),
            true,
        ) == ContentBlockView::read(JsonModel::Object(o)),
        0 <= n <= u64::MAX && holds(JsonModel::Object(o), "type"@, JsonModel::Integer(n))
            ==> ContentBlockView::read_in(JsonModel::Object(o), true) == ContentBlockView::read(
            JsonModel::Object(
                o.insert(
                    "type"@,
                    JsonModel::Str(
                        if n == 0 {
                            "text"@
                        } else if n == 1 {
                            "resource_link"@
                        } else {
                            "other"@
                        },
                    ),
                ),
            ),
        ),
        !is_text(JsonModel::Object(o), "type"@) && !(exists|k: int|
            0 <= k <= u64::MAX && #[trigger] holds(
                JsonModel::Object(o),
                "type"@,
                JsonModel::Integer(k),
            )) ==> ContentBlockView::read_in(JsonModel::Object(o), true) is None,
{
    lemma_words();
    let m = JsonModel::Object(o);
    if !is_text(m, "type"@) && ContentBlockView::read_in(m, true) is Some {
        let k = o["type"@]->Integer_0;
        assert(holds(m, "type"@, JsonModel::Integer(k)));
    }
}

/// Whether a member is there and is a block, and this is it.
pub open spec fn is_chunk(m: JsonModel, content: ContentBlock) -> bool {
    m matches JsonModel::Object(o) && o.dom().contains("content"@) && ContentBlockView::read_in(
        o["content"@],
        true,
    ) == Some(content@)
}

/// Whether a member is there and can be read as a block.
pub open spec fn can_be_chunk(m: JsonModel) -> bool {
    m matches JsonModel::Object(o) && o.dom().contains("content"@) && ContentBlockView::read_in(
        o["content"@],
        true,
    ) is Some
}

/// A chunk of the answer, of the reasoning or of the question is read as just that.
pub proof fn law_chunk_is_read(j: &Json, r: Option<SessionUpdate>)
    requires
        call_ensures(SessionUpdate::from_json, (j,), r),
        j@ is Object,
    ensures
        holds(j@, "sessionUpdate"@, JsonModel::Str("agent_message_chunk"@)) ==> match r {
            Some(u) => u matches SessionUpdate::AgentMessageChunk { content } && is_chunk(
                j@,
                content,
            ),
            None => !can_be_chunk(j@),
        },
        holds(j@, "sessionUpdate"@, JsonModel::Str("agent_thought_chunk"@)) ==> match r {
            Some(u) => u matches SessionUpdate::AgentThoughtChunk { content } && is_chunk(
                j@,
                content,
            ),
            None => !can_be_chunk(j@),
        },
        holds(j@, "sessionUpdate"@, JsonModel::Str("user_message_chunk"@)) ==> match r {
            Some(u) => u matches SessionUpdate::UserMessageChunk { content } && is_chunk(
                j@,
                content,
            ),
            None => !can_be_chunk(j@),
        },
{
    lemma_words();
}

/// A tool call, or news of one, is read as such wherever it can be read; an update of
/// a kind that is not known is read whatever comes with it; what names no kind is
/// none.
pub proof fn law_update_is_read(j: &Json, r: Option<SessionUpdate>)
    requires
        call_ensures(SessionUpdate::from_json, (j,), r),
        j@ is Object,
    ensures
        holds(j@, "sessionUpdate"@, JsonModel::Str("tool_call"@)) ==> match r {
            Some(u) => u matches SessionUpdate::ToolCall(c) && ToolCallView::read(j@, true) == Some(
                c@,
            ),
            None => ToolCallView::read(j@, true) is None,
        },
        holds(j@, "sessionUpdate"@, JsonModel::Str("tool_call_update"@)) ==> match r {
            Some(u) => u matches SessionUpdate::ToolCallUpdate(c) && ToolCallUpdateView::read(
                j@,
                true,
            ) == Some(c@),
            None => ToolCallUpdateView::read(j@, true) is None,
        },
        holds(j@, "sessionUpdate"@, JsonModel::Str("plan"@)) ==> match r {
            Some(u) => u matches SessionUpdate::Plan { entries } && are_steps(j@, entries@),
            None => !can_be_steps(j@),
        },
        is_text(j@, "sessionUpdate"@) && !names_update(
            j@->Object_0["sessionUpdate"@]->Str_0,
        ) ==> r == Some(SessionUpdate::Unknown),
        !is_text(j@, "sessionUpdate"@) ==> r is None,
{
    lemma_words();
    lemma_steps(j@);
    match r {
        Some(SessionUpdate::Plan { entries }) => {
            assert forall|i: int| 0 <= i < entries@.len() implies plan_views(entries@)[i] == (
            #[trigger] entries@[i])@ by {}
            if holds(j@, "sessionUpdate"@, JsonModel::Str("plan"@)) {
                let a = j@->Object_0["entries"@]->Array_0;
                let read = |e: JsonModel| PlanEntryView::read(e);
                assert(plan_views(entries@) == Seq::new(a.len(), |i: int| read(a[i])->Some_0));
                assert forall|i: int| 0 <= i < a.len() implies PlanEntryView::read(a[i]) == Some(
                    (#[trigger] entries@[i])@,
                ) by {
                    assert(plan_views(entries@)[i] == read(a[i])->Some_0);
                    assert(read(a[i]) is Some);
                }
            }
        },
        _ => {},
    }
}

/// Whether a word is the name of a kind of update.
pub open spec fn names_update(name: Seq<char>) -> bool {
    ||| name == "agent_message_chunk"@
    ||| name == "agent_thought_chunk"@
    ||| name == "user_message_chunk"@
    ||| name == "tool_call"@
    ||| name == "tool_call_update"@
    ||| name == "plan"@
}

/// Whether these are the steps of a plan, one for each item, in order.
pub open spec fn are_steps(m: JsonModel, entries: Seq<PlanEntry>) -> bool {
    m matches JsonModel::Object(o) && o.dom().contains("entries"@) && (
    o["entries"@] matches JsonModel::Array(a) && a.len() == entries.len() && forall|i: int|
        0 <= i < a.len() ==> PlanEntryView::read(a[i]) == Some((#[trigger] entries[i])@))
}

/// Whether a plan's steps are there and can all be read.
pub open spec fn can_be_steps(m: JsonModel) -> bool {
    m matches JsonModel::Object(o) && o.dom().contains("entries"@) && (
    o["entries"@] matches JsonModel::Array(a) && forall|i: int|
        0 <= i < a.len() ==> (#[trigger] PlanEntryView::read(a[i])) is Some)
}

proof fn lemma_steps(m: JsonModel)
    ensures
        m is Object && lookup(m, "entries"@) is Some ==> (list_of(
            lookup(m, "entries"@),
            |e: JsonModel| PlanEntryView::read(e),
        ) is Some <==> can_be_steps(m)),
{
    let read = |e: JsonModel| PlanEntryView::read(e);
    match lookup(m, "entries"@) {
        Some(JsonModel::Array(a)) => {
            if can_be_steps(m) {
                assert forall|i: int| 0 <= i < a.len() implies (#[trigger] read(a[i])) is Some by {
                    assert(PlanEntryView::read(a[i]) is Some);
                }
            }
            if list_of(lookup(m, "entries"@), read) is Some {
                assert forall|i: int| 0 <= i < a.len() implies (#[trigger] PlanEntryView::read(
                    a[i],
                )) is Some by {
                    assert(read(a[i]) is Some);
                }
            }
        },
        _ => {},
    }
}

/// A notification names its session and carries its update; one of a kind that is
/// not known is kept as it came.
pub proof fn law_notification_is_read(j: &Json, r: Option<SessionNotification>)
    requires
        call_ensures(SessionNotification::from_json, (j,), r),
        j@ is Object,
    ensures
        r matches Some(n) ==> {
            &&& holds(j@, "sessionId"@, JsonModel::Str(n.session_id@))
            &&& j@->Object_0.dom().contains("update"@)
            &&& SessionUpdateView::read(j@->Object_0["update"@]) == Some(n.update@)
            &&& match n.unrecognised {
                Some(kept) => n.update is Unknown && holds(j@, "update"@, kept@),
                None => !(n.update is Unknown),
            }
        },
        r is Some <==> is_text(j@, "sessionId"@) && !lacks(j@, "update"@)
            && SessionUpdateView::read(j@->Object_0["update"@]) is Some,
{
}

/// An answer on offer is its id, and its name and kind where it has them.
pub proof fn law_option_is_read(j: &Json, r: Option<PermissionOption>)
    requires
        call_ensures(PermissionOption::from_json, (j,), r),
        j@ is Object,
    ensures
        r matches Some(o) ==> {
            &&& holds(j@, "optionId"@, JsonModel::Str(o.option_id@))
            &&& is_maybe_text(j@, "name"@, o.name)
            &&& match o.kind {
                Some(k) => !lacks(j@, "kind"@) && PermissionKind::read(
                    j@->Object_0["kind"@],
                    false,
                ) == Some(k),
                None => is_unset(j@, "kind"@),
            }
        },
        r is Some <==> is_text(j@, "optionId"@) && (is_unset(j@, "name"@) || is_text(j@, "name"@))
            && (is_unset(j@, "kind"@) || PermissionKind::read(
            j@->Object_0["kind"@],
            false,
        ) is Some),
        forall|name: Seq<char>| #[trigger]
            holds(j@, "kind"@, JsonModel::Str(name)) ==> (r matches Some(o) ==> (o.kind matches Some(
                k,
            ) && names_permission(name, k))),
{
    lemma_words();
}

/// Whether these are the answers on offer, one for each item, in order.
pub open spec fn are_options(m: JsonModel, options: Seq<PermissionOption>) -> bool {
    m matches JsonModel::Object(o) && if o.dom().contains("options"@) {
        o["options"@] matches JsonModel::Array(a) && a.len() == options.len() && forall|i: int|
            0 <= i < a.len() ==> PermissionOptionView::read(a[i]) == Some((#[trigger] options[i])@)
    } else {
        options.len() == 0
    }
}

/// Whether the answers on offer can be read, or are left out.
pub open spec fn can_be_options(m: JsonModel) -> bool {
    m matches JsonModel::Object(o) && (o.dom().contains("options"@) ==> (
    o["options"@] matches JsonModel::Array(a) && forall|i: int|
        0 <= i < a.len() ==> (#[trigger] PermissionOptionView::read(a[i])) is Some))
}

proof fn lemma_options(m: JsonModel)
    ensures
        m is Object ==> (list_of(
            lookup(m, "options"@),
            |v: JsonModel| PermissionOptionView::read(v),
        ) is Some <==> can_be_options(m)),
{
    let read = |v: JsonModel| PermissionOptionView::read(v);
    match lookup(m, "options"@) {
        Some(JsonModel::Array(a)) => {
            if can_be_options(m) {
                assert forall|i: int| 0 <= i < a.len() implies (#[trigger] read(a[i])) is Some by {
                    assert(PermissionOptionView::read(a[i]) is Some);
                }
            }
            if list_of(lookup(m, "options"@), read) is Some {
                assert forall|i: int| 0 <= i < a.len() implies (
                #[trigger] PermissionOptionView::read(a[i])) is Some by {
                    assert(read(a[i]) is Some);
                }
            }
        },
        _ => {},
    }
}

/// A request for permission names its session, says what it is about where it does,
/// and offers every answer that it lists.
pub proof fn law_permission_request_is_read(j: &Json, r: Option<RequestPermissionParams>)
    requires
        call_ensures(RequestPermissionParams::from_json, (j,), r),
        j@ is Object,
    ensures
        r matches Some(p) ==> {
            &&& holds(j@, "sessionId"@, JsonModel::Str(p.session_id@))
            &&& match p.tool_call {
                Some(t) => !lacks(j@, "toolCall"@) && ToolCallUpdateView::read(
                    j@->Object_0["toolCall"@],
                    false,
                ) == Some(t@),
                None => is_unset(j@, "toolCall"@),
            }
            &&& are_options(j@, p.options@)
        },
        r is Some <==> is_text(j@, "sessionId"@) && (is_unset(j@, "toolCall"@)
            || ToolCallUpdateView::read(j@->Object_0["toolCall"@], false) is Some)
            && can_be_options(j@),
{
    lemma_options(j@);
    match r {
        Some(p) => {
            assert(option_views(p.options@).len() == p.options@.len());
            assert forall|i: int| 0 <= i < p.options@.len() implies option_views(p.options@)[i] == (
            #[trigger] p.options@[i])@ by {}
            if !lacks(j@, "options"@) {
                let a = j@->Object_0["options"@]->Array_0;
                let read = |v: JsonModel| PermissionOptionView::read(v);
                assert(option_views(p.options@) == Seq::new(a.len(), |i: int| read(a[i])->Some_0));
                assert forall|i: int| 0 <= i < a.len() implies PermissionOptionView::read(a[i])
                    == Some((#[trigger] p.options@[i])@) by {
                    assert(option_views(p.options@)[i] == read(a[i])->Some_0);
                    assert(read(a[i]) is Some);
                }
            }
        },
        None => {},
    }
}

// -------------------------------------------------------------------- replies

/// A reply opens the session that it names. Where it names none, or names it by
/// something other than text, the error says so.
pub proof fn law_session_reply_is_read(j: &Json, r: Result<NewSessionResult, DecodeError>)
    requires
        call_ensures(NewSessionResult::from_json, (j,), r),
    ensures
        j@ is Object ==> match r {
            Ok(s) => holds(j@, "sessionId"@, JsonModel::Str(s.session_id@)),
            Err(e) => !is_text(j@, "sessionId"@) && (lacks(j@, "sessionId"@) ==> e@.description()
                == "missing field `"@ + "sessionId"@ + "`"@),
        },
        forall|n: int| #[trigger]
            holds(j@, "sessionId"@, JsonModel::Integer(n)) ==> (r matches Err(e) && e@.description()
                == "invalid type: "@ + ("integer `"@ + signed_decimal(n) + "`"@) + ", expected "@
                + "a string"@),
        holds(j@, "sessionId"@, JsonModel::Null) ==> (r matches Err(e) && e@.description()
            == "invalid type: "@ + "null"@ + ", expected "@ + "a string"@),
        !(j@ is Object) && !(j@ is Array) ==> r is Err,
        j@ matches JsonModel::Array(a) ==> (r matches Ok(s) ==> a.len() == 1 && a[0]
            == JsonModel::Str(s.session_id@)) && (r is Err ==> !(a.len() == 1 && a[0] is Str)),
{
}

/// A reply says why a turn ended by a word, or by an object with that word for its
/// only key; anything else is an error.
pub proof fn law_turn_reply_is_read(j: &Json, r: Result<PromptResult, DecodeError>)
    requires
        call_ensures(PromptResult::from_json, (j,), r),
    ensures
        forall|name: Seq<char>| #[trigger]
            holds(j@, "stopReason"@, JsonModel::Str(name)) ==> (r matches Ok(p) && names_reason(
                name,
                p.stop_reason,
            )),
        forall|m: JsonModel| #[trigger]
            holds(j@, "stopReason"@, m) && names_nothing(m) ==> r is Err,
        lacks(j@, "stopReason"@) ==> (r matches Err(e) && e@.description() == "missing field `"@
            + "stopReason"@ + "`"@),
        forall|n: int| #[trigger]
            holds(j@, "stopReason"@, JsonModel::Integer(n)) ==> (r matches Err(e)
                && e@.description() == "invalid type: "@ + ("integer `"@ + signed_decimal(n) + "`"@)
                + ", expected "@ + "string or map"@),
        !(j@ is Object) && !(j@ is Array) ==> r is Err,
        j@ matches JsonModel::Array(a) ==> (a.len() == 1 && a[0] is Str ==> (r matches Ok(p)
            && names_reason(a[0]->Str_0, p.stop_reason))) && (a.len() != 1 ==> r is Err),
{
    lemma_words();
    assert forall|m: JsonModel| #[trigger]
        holds(j@, "stopReason"@, m) && names_nothing(m) implies r is Err by {
        law_name_as_a_key(Seq::empty(), m, false);
    }
}

/// A program's description is its name, and its title and version where it has them.
pub proof fn law_implementation_is_read(j: &Json, r: Result<Implementation, DecodeError>)
    requires
        call_ensures(Implementation::from_json, (j,), r),
    ensures
        j@ is Object ==> match r {
            Ok(i) => holds(j@, "name"@, JsonModel::Str(i.name@)) && is_maybe_text(
                j@,
                "title"@,
                i.title,
            ) && is_maybe_text(j@, "version"@, i.version),
            Err(_) => !is_text(j@, "name"@) || !(is_unset(j@, "title"@) || is_text(j@, "title"@))
                || !(is_unset(j@, "version"@) || is_text(j@, "version"@)),
        },
        !(j@ is Object) && !(j@ is Array) ==> r is Err,
        j@ matches JsonModel::Array(a) ==> (r matches Ok(i) ==> 1 <= a.len() <= 3 && a[0]
            == JsonModel::Str(i.name@) && match i.title {
            Some(t) => a.len() > 1 && a[1] == JsonModel::Str(t@),
            None => a.len() <= 1 || a[1] is Null,
        } && match i.version {
            Some(v) => a.len() > 2 && a[2] == JsonModel::Str(v@),
            None => a.len() <= 2 || a[2] is Null,
        }) && (r is Err ==> !(1 <= a.len() <= 3 && a[0] is Str && (a.len() <= 1 || a[1] is Null
            || a[1] is Str) && (a.len() <= 2 || a[2] is Null || a[2] is Str))),
        lacks(j@, "name"@) && lacks(j@, "title"@) && lacks(j@, "version"@) ==> (r matches Err(e)
            && e@.description() == "missing field `"@ + "name"@ + "`"@),
{
}

/// The agent's side of the handshake is its version of the protocol, what it can do,
/// who it is, and how to log in, where it says so.
pub proof fn law_handshake_reply_is_read(j: &Json, r: Result<InitializeResult, DecodeError>)
    requires
        call_ensures(InitializeResult::from_json, (j,), r),
    ensures
        j@ is Object ==> match r {
            Ok(i) => {
                &&& holds(j@, "protocolVersion"@, JsonModel::Integer(i.protocol_version as int))
                &&& lacks(j@, "agentCapabilities"@) ==> i.agent_capabilities@ == JsonModel::Null
                &&& !lacks(j@, "agentCapabilities"@) ==> holds(
                    j@,
                    "agentCapabilities"@,
                    i.agent_capabilities@,
                )
                &&& match i.agent_info {
                    Some(who) => !lacks(j@, "agentInfo"@) && ImplementationView::read(
                        j@->Object_0["agentInfo"@],
                    ) == Ok::<ImplementationView, DecodeErrorView>(who@),
                    None => is_unset(j@, "agentInfo"@),
                }
                &&& are_values(j@, "authMethods"@, i.auth_methods@)
            },
            Err(_) => !speaks_a_version(j@) || !(is_unset(j@, "agentInfo"@)
                || ImplementationView::read(j@->Object_0["agentInfo"@]) is Ok) || !(lacks(
                j@,
                "authMethods"@,
            ) || j@->Object_0["authMethods"@] is Array),
        },
        !(j@ is Object) && !(j@ is Array) ==> r is Err,
        only(j@, Set::empty()) ==> (r matches Err(e) && e@.description() == "missing field `"@
            + "protocolVersion"@ + "`"@),
{
    match r {
        Ok(i) => {
            lemma_values(i.auth_methods@);
        },
        Err(_) => {},
    }
}

/// Whether a version is named, by a whole number that fits.
pub open spec fn speaks_a_version(m: JsonModel) -> bool {
    m matches JsonModel::Object(o) && o.dom().contains("protocolVersion"@) && (
    o["protocolVersion"@] matches JsonModel::Integer(n) && 0 <= n <= u32::MAX)
}

// ------------------------------------------------------------------ list forms

/// The object that a list of values stands for, given the names of its fields.
pub open spec fn named(a: Seq<JsonModel>, names: Seq<Seq<char>>) -> JsonModel
    decreases a.len(),
{
    if a.len() == 0 {
        JsonModel::Object(Map::empty())
    } else {
        JsonModel::Object(
            named(a.drop_last(), names)->Object_0.insert(names[a.len() - 1], a.last()),
        )
    }
}

proof fn lemma_named(a: Seq<JsonModel>, names: Seq<Seq<char>>)
    requires
        a.len() <= names.len(),
        names.no_duplicates(),
    ensures
        named(a, names) is Object,
        forall|i: int|
            0 <= i < a.len() ==> lookup(named(a, names), #[trigger] names[i]) == Some(a[i]),
        forall|i: int|
            a.len() <= i < names.len() ==> lookup(named(a, names), #[trigger] names[i]) is None,
    decreases a.len(),
{
    if a.len() > 0 {
        lemma_named(a.drop_last(), names);
    }
}

/// A list of the fields in their order reads as the object that names them; one that
/// is longer than that is refused.
pub proof fn law_list_reads_as_the_object(a: Seq<JsonModel>)
    ensures
        ToolCallLocationView::read(JsonModel::Array(a)) == if a.len() <= 2 {
            ToolCallLocationView::read(named(a, seq!["path"@, "line"@]))
        } else {
            None
        },
        PlanEntryView::read(JsonModel::Array(a)) == if a.len() <= 3 {
            PlanEntryView::read(named(a, seq!["content"@, "priority"@, "status"@]))
        } else {
            None
        },
        PermissionOptionView::read(JsonModel::Array(a)) == if a.len() <= 3 {
            PermissionOptionView::read(named(a, seq!["optionId"@, "name"@, "kind"@]))
        } else {
            None
        },
        RequestPermissionParamsView::read(JsonModel::Array(a)) == if a.len() <= 3 {
            RequestPermissionParamsView::read(named(a, seq!["sessionId"@, "toolCall"@, "options"@]))
        } else {
            None
        },
        SessionNotificationView::read(JsonModel::Array(a)) == if a.len() <= 2 {
            SessionNotificationView::read(named(a, seq!["sessionId"@, "update"@]))
        } else {
            None
        },
        ToolCallUpdateView::read(JsonModel::Array(a), false) == if a.len() <= 5 {
            ToolCallUpdateView::read(
                named(a, seq!["toolCallId"@, "title"@, "status"@, "locations"@, "content"@]),
                false,
            )
        } else {
            None
        },
{
    lemma_words();
    let location = seq!["path"@, "line"@];
    let step = seq!["content"@, "priority"@, "status"@];
    let option = seq!["optionId"@, "name"@, "kind"@];
    let request = seq!["sessionId"@, "toolCall"@, "options"@];
    let notification = seq!["sessionId"@, "update"@];
    let news = seq!["toolCallId"@, "title"@, "status"@, "locations"@, "content"@];
    if a.len() <= 2 {
        lemma_named(a, location);
        lemma_named(a, notification);
        assert(location[0] == "path"@ && location[1] == "line"@);
        assert(notification[0] == "sessionId"@ && notification[1] == "update"@);
    }
    if a.len() <= 3 {
        lemma_named(a, step);
        lemma_named(a, option);
        lemma_named(a, request);
        assert(step[0] == "content"@ && step[1] == "priority"@ && step[2] == "status"@);
        assert(option[0] == "optionId"@ && option[1] == "name"@ && option[2] == "kind"@);
        assert(request[0] == "sessionId"@ && request[1] == "toolCall"@ && request[2]
            == "options"@);
    }
    if a.len() <= 5 {
        lemma_named(a, news);
        assert(news[0] == "toolCallId"@ && news[1] == "title"@ && news[2] == "status"@ && news[3]
            == "locations"@ && news[4] == "content"@);
    }
}

/// An update in a list has its kind first, and then its fields.
pub proof fn law_update_list_reads_as_the_object(a: Seq<JsonModel>)
    requires
        a.len() > 0,
    ensures
        a.len() <= 2 && (a[0] == JsonModel::Str("agent_message_chunk"@) || a[0] == JsonModel::Str(
            "agent_thought_chunk"@,
        ) || a[0] == JsonModel::Str("user_message_chunk"@)) ==> SessionUpdateView::read(
            JsonModel::Array(a),
        ) == SessionUpdateView::read(named(a, seq!["sessionUpdate"@, "content"@])),
        a.len() <= 2 && a[0] == JsonModel::Str("plan"@) ==> SessionUpdateView::read(
            JsonModel::Array(a),
        ) == SessionUpdateView::read(named(a, seq!["sessionUpdate"@, "entries"@])),
        a.len() <= 6 && a[0] == JsonModel::Str("tool_call"@) ==> SessionUpdateView::read(
            JsonModel::Array(a),
        ) == SessionUpdateView::read(
            named(
                a,
                seq![
                    "sessionUpdate"@,
                    "toolCallId"@,
                    "title"@,
                    "kind"@,
                    "status"@,
                    "locations"@,
                ],
            ),
        ),
        a.len() <= 6 && a[0] == JsonModel::Str("tool_call_update"@) ==> SessionUpdateView::read(
            JsonModel::Array(a),
        ) == SessionUpdateView::read(
            named(
                a,
                seq![
                    "sessionUpdate"@,
                    "toolCallId"@,
                    "title"@,
                    "status"@,
                    "locations"@,
                    "content"@,
                ],
            ),
        ),
{
    lemma_words();
    let chunk = seq!["sessionUpdate"@, "content"@];
    let plan = seq!["sessionUpdate"@, "entries"@];
    let call = seq![
        "sessionUpdate"@,
        "toolCallId"@,
        "title"@,
        "kind"@,
        "status"@,
        "locations"@,
    ];
    let news = seq![
        "sessionUpdate"@,
        "toolCallId"@,
        "title"@,
        "status"@,
        "locations"@,
        "content"@,
    ];
    if a.len() <= 2 {
        lemma_named(a, chunk);
        lemma_named(a, plan);
        assert(chunk[0] == "sessionUpdate"@ && chunk[1] == "content"@);
        assert(plan[0] == "sessionUpdate"@ && plan[1] == "entries"@);
    }
    if a.len() <= 6 {
        lemma_named(a, call);
        lemma_named(a, news);
        assert(call[0] == "sessionUpdate"@ && call[1] == "toolCallId"@ && call[2] == "title"@
            && call[3] == "kind"@ && call[4] == "status"@ && call[5] == "locations"@);
        assert(news[0] == "sessionUpdate"@ && news[1] == "toolCallId"@ && news[2] == "title"@
            && news[3] == "status"@ && news[4] == "locations"@ && news[5] == "content"@);
    }
}

/// An update in a list that is longer than its fields is refused. One of a kind that
/// is not known has no fields; one without a kind is none.
pub proof fn law_update_list_has_its_length(a: Seq<JsonModel>)
    ensures
        a.len() == 0 || !(a[0] is Str) ==> SessionUpdateView::read(JsonModel::Array(a)) is None,
        a.len() > 2 && (a[0] == JsonModel::Str("agent_message_chunk"@) || a[0] == JsonModel::Str(
            "agent_thought_chunk"@,
        ) || a[0] == JsonModel::Str("user_message_chunk"@) || a[0] == JsonModel::Str("plan"@))
            ==> SessionUpdateView::read(JsonModel::Array(a)) is None,
        a.len() > 6 ==> SessionUpdateView::read(JsonModel::Array(a)) is None,
        a.len() > 0 && a[0] is Str && !names_update(a[0]->Str_0) ==> SessionUpdateView::read(
            JsonModel::Array(a),
        ) == if a.len() == 1 {
            Some(SessionUpdateView::Unknown)
        } else {
            None
        },
{
    lemma_words();
}

/// A tool call in a list has its fields in their order, and no more than those.
pub proof fn law_tool_call_list_reads_as_the_object(a: Seq<JsonModel>)
    ensures
        ToolCallView::read(JsonModel::Array(a), false) == if a.len() <= 5 {
            ToolCallView::read(
                named(a, seq!["toolCallId"@, "title"@, "kind"@, "status"@, "locations"@]),
                false,
            )
        } else {
            None
        },
{
    lemma_words();
    let call = seq!["toolCallId"@, "title"@, "kind"@, "status"@, "locations"@];
    if a.len() <= 5 {
        lemma_named(a, call);
        assert(call[0] == "toolCallId"@ && call[1] == "title"@ && call[2] == "kind"@ && call[3]
            == "status"@ && call[4] == "locations"@);
    }
}

/// A block in a list has its type first, and then its text or its link; a block of
/// another type has nothing more. Inside an update the type may be a number here too.
pub proof fn law_block_list_is_read(a: Seq<JsonModel>, nested: bool)
    ensures
        a.len() == 0 ==> ContentBlockView::read_in(JsonModel::Array(a), nested) is None,
        a.len() > 0 ==> {
            let r = ContentBlockView::read_in(JsonModel::Array(a), nested);
            match a[0] {
                JsonModel::Str(name) => if name == "text"@ {
                    if a.len() == 2 && a[1] is Str {
                        r == Some(ContentBlockView::Text { text: a[1]->Str_0 })
                    } else {
                        r is None
                    }
                } else if name == "resource_link"@ {
                    if a.len() == 2 && a[1] is Str {
                        r == Some(ContentBlockView::ResourceLink { uri: a[1]->Str_0 })
                    } else {
                        r is None
                    }
                } else if a.len() == 1 {
                    r == Some(ContentBlockView::Other)
                } else {
                    r is None
                },
                JsonModel::Integer(n) => if nested && 0 <= n <= u64::MAX {
                    let name = if n == 0 {
                        "text"@
                    } else if n == 1 {
                        "resource_link"@
                    } else {
                        "other"@
                    };
                    r == ContentBlockView::read_in(
                        JsonModel::Array(a.update(0, JsonModel::Str(name))),
                        true,
                    )
                } else {
                    r is None
                },
                _ => r is None,
            }
        },
{
    lemma_words();
}

/// A block by itself is read as it is in a list by itself.
pub proof fn law_block_by_itself_is_read(j: &Json, r: Option<ContentBlock>)
    requires
        call_ensures(ContentBlock::from_json, (j,), r),
    ensures
        match (r, ContentBlockView::read_in(j@, false)) {
            (Some(b), Some(v)) => b@ == v,
            (None, None) => true,
            _ => false,
        },
{
}

/// The agent's side of the handshake in a list has its version first, then what it
/// can do, who it is, and how to log in, and nothing more.
pub proof fn law_handshake_list_is_read(
    j: &Json,
    a: Seq<JsonModel>,
    r: Result<InitializeResult, DecodeError>,
)
    requires
        call_ensures(InitializeResult::from_json, (j,), r),
        j@ == JsonModel::Array(a),
    ensures
        match r {
            Ok(i) => {
                &&& 1 <= a.len() <= 4
                &&& a[0] == JsonModel::Integer(i.protocol_version as int)
                &&& i.agent_capabilities@ == (if a.len() > 1 {
                    a[1]
                } else {
                    JsonModel::Null
                })
                &&& match i.agent_info {
                    Some(who) => a.len() > 2 && ImplementationView::read(a[2]) == Ok::<
                        ImplementationView,
                        DecodeErrorView,
                    >(who@),
                    None => a.len() <= 2 || a[2] is Null,
                }
                &&& if a.len() > 3 {
                    &&& a[3] matches JsonModel::Array(methods)
                    &&& methods.len() == i.auth_methods@.len()
                    &&& forall|k: int|
                        0 <= k < methods.len() ==> methods[k] == (#[trigger] i.auth_methods@[k])@
                } else {
                    i.auth_methods@.len() == 0
                }
            },
            Err(_) => !(1 <= a.len() <= 4 && (a[0] matches JsonModel::Integer(n) && 0 <= n
                <= u32::MAX) && (a.len() <= 2 || a[2] is Null || ImplementationView::read(a[2])
                is Ok) && (a.len() <= 3 || a[3] is Array)),
        },
{
    match r {
        Ok(i) => {
            lemma_values(i.auth_methods@);
        },
        Err(_) => {},
    }
}

} // verus!
