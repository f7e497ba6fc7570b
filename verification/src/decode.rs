//! Reading the protocol's types from JSON.
//!
//! A record is written as an object, whose members may stand in any order and
//! among others that mean nothing here, or as a list of its fields in their
//! order. A field that is left out has its default, where it has one. The name
//! of a choice that is not known reads as `Unknown` or `Other`, never as an
//! error.

use crate::json::{as_str_model, as_u64_model, found_text, lookup, Json, JsonModel};
use crate::protocol::{
    location_views, option_views, optional_text, plan_views, ContentBlock, ContentBlockView, Implementation,
    ImplementationView, InitializeResult, InitializeResultView, NewSessionResult, PermissionKind,
    PermissionOption, PermissionOptionView, PlanEntry, PlanEntryView, PromptResult,
    RequestPermissionParams, RequestPermissionParamsView, SessionNotification,
    SessionNotificationView, SessionUpdate, SessionUpdateView, StopReason, ToolCall,
    ToolCallLocation, ToolCallLocationView, ToolCallStatus, ToolCallUpdate, ToolCallUpdateView,
    ToolCallView, ToolKind,
};
use crate::text::{decimal, decimal_text, join2, join3, same_text};
use vstd::prelude::*;

verus! {

// ------------------------------------------------------------------- records

/// Whether what was read is what the text means.
pub open spec fn reads_as<T: View>(r: Option<T>, m: Option<T::V>) -> bool {
    &&& r is Some <==> m is Some
    &&& r is Some ==> m == Some(r->Some_0@)
}

/// Where the fields of a record begin in a list: after the tag, if it has one.
pub open spec fn first_field(tagged: bool) -> int {
    if tagged {
        1
    } else {
        0
    }
}

/// Whether a value can be a record of `width` fields.
pub open spec fn is_record(m: JsonModel, tagged: bool, width: int) -> bool {
    match m {
        JsonModel::Object(_) => true,
        JsonModel::Array(a) => a.len() <= first_field(tagged) + width,
        _ => false,
    }
}

/// The field of a record called `name`, the one at `index` in a list.
pub open spec fn field(m: JsonModel, tagged: bool, index: int, name: Seq<char>) -> Option<
    JsonModel,
> {
    match m {
        JsonModel::Array(a) => if first_field(tagged) + index < a.len() {
            Some(a[first_field(tagged) + index])
        } else {
            None
        },
        _ => lookup(m, name),
    }
}

/// The text that a field must hold.
pub open spec fn needed_text(v: Option<JsonModel>) -> Option<Seq<char>> {
    match v {
        Some(m) => as_str_model(m),
        None => None,
    }
}

/// A field that may be left out or `null`.
pub open spec fn maybe<T>(v: Option<JsonModel>, read: spec_fn(JsonModel) -> Option<T>) -> Option<
    Option<T>,
> {
    match v {
        None => Some(None),
        Some(JsonModel::Null) => Some(None),
        Some(m) => match read(m) {
            Some(t) => Some(Some(t)),
            None => None,
        },
    }
}

/// A list field that may be left out.
pub open spec fn list_of<T>(v: Option<JsonModel>, read: spec_fn(JsonModel) -> Option<T>) -> Option<
    Seq<T>,
> {
    match v {
        None => Some(Seq::empty()),
        Some(JsonModel::Array(a)) => if forall|i: int|
            0 <= i < a.len() ==> (#[trigger] read(a[i])) is Some {
            Some(Seq::new(a.len(), |i: int| read(a[i])->Some_0))
        } else {
            None
        },
        _ => None,
    }
}

/// A list field of values of any form.
pub open spec fn list_of_any(v: Option<JsonModel>) -> Option<Seq<JsonModel>> {
    match v {
        None => Some(Seq::empty()),
        Some(JsonModel::Array(a)) => Some(a),
        _ => None,
    }
}

/// The whole number in the range of `u32` that a value is.
pub open spec fn as_u32_model(m: JsonModel) -> Option<u32> {
    match as_u64_model(m) {
        Some(n) => if n <= u32::MAX {
            Some(n as u32)
        } else {
            None
        },
        None => None,
    }
}

/// Whether a value stands for nothing. Beside a tag an empty object does too.
pub open spec fn is_unit(m: JsonModel, tagged: bool) -> bool {
    match m {
        JsonModel::Null => true,
        JsonModel::Object(o) => tagged && o.dom() =~= Set::empty(),
        _ => false,
    }
}

/// The only member of an object that has no other.
pub open spec fn only_member(o: Map<Seq<char>, JsonModel>) -> Option<(Seq<char>, JsonModel)> {
    let k = o.dom().choose();
    if o.dom() =~= Set::empty().insert(k) {
        Some((k, o[k]))
    } else {
        None
    }
}

/// The name of a choice: a string, or the only key of an object whose value
/// stands for nothing.
pub open spec fn choice_name(m: JsonModel, tagged: bool) -> Option<Seq<char>> {
    match m {
        JsonModel::Str(s) => Some(s),
        JsonModel::Object(o) => match only_member(o) {
            Some((k, v)) => if is_unit(v, tagged) {
                Some(k)
            } else {
                None
            },
            None => None,
        },
        _ => None,
    }
}

proof fn lemma_member_keys(members: Seq<(String, Json)>)
    ensures
        forall|i: int|
            0 <= i < members.len() ==> Json::members_model(members).dom().contains(
                (#[trigger] members[i]).0@,
            ),
        forall|k: Seq<char>|
            Json::members_model(members).dom().contains(k) ==> exists|i: int|
                0 <= i < members.len() && (#[trigger] members[i]).0@ == k,
    decreases members.len(),
{
    if members.len() > 0 {
        let init = members.drop_last();
        lemma_member_keys(init);
        assert forall|i: int| 0 <= i < members.len() implies Json::members_model(
            members,
        ).dom().contains((#[trigger] members[i]).0@) by {
            if i < init.len() {
                assert(init[i] == members[i]);
            }
        }
        assert forall|k: Seq<char>| Json::members_model(members).dom().contains(k) implies exists|
            i: int,
        |
            0 <= i < members.len() && (#[trigger] members[i]).0@ == k by {
            if k == members.last().0@ {
                assert(members[members.len() - 1].0@ == k);
            } else {
                assert(Json::members_model(init).dom().contains(k));
                let i = choose|i: int| 0 <= i < init.len() && (#[trigger] init[i]).0@ == k;
                assert(members[i].0@ == k);
            }
        }
    }
}

fn has_width(j: &Json, tagged: bool, width: usize) -> (r: bool)
    requires
        width < 100,
    ensures
        r == is_record(j@, tagged, width as int),
{
    match j {
        Json::Object(_) => true,
        Json::Array(items) => items.len() <= width + (if tagged {
            1
        } else {
            0
        }),
        _ => false,
    }
}

fn get_field<'a>(j: &'a Json, tagged: bool, index: usize, name: &str) -> (r: Option<&'a Json>)
    requires
        index < 100,
    ensures
        r is Some <==> field(j@, tagged, index as int, name@) is Some,
        r is Some ==> field(j@, tagged, index as int, name@) == Some(r->Some_0@),
{
    match j {
        Json::Array(items) => {
            let at: usize = if tagged {
                index + 1
            } else {
                index
            };
            if at < items.len() {
                Some(&items[at])
            } else {
                None
            }
        },
        _ => j.get(name),
    }
}

/// The meaning of a field that was looked up.
spec fn seen(v: Option<&Json>) -> Option<JsonModel> {
    match v {
        Some(j) => Some(j@),
        None => None,
    }
}

fn get_needed_text(v: Option<&Json>) -> (r: Option<String>)
    ensures
        reads_as(r, needed_text(seen(v))),
{
    match v {
        Some(Json::Str(s)) => Some(s.clone()),
        _ => None,
    }
}

fn get_maybe_text(v: Option<&Json>) -> (r: Option<Option<String>>)
    ensures
        r is Some <==> maybe(seen(v), |m: JsonModel| as_str_model(m)) is Some,
        r is Some ==> maybe(seen(v), |m: JsonModel| as_str_model(m)) == Some(
            optional_text(r->Some_0),
        ),
{
    match v {
        None => Some(None),
        Some(Json::Null) => Some(None),
        Some(Json::Str(s)) => Some(Some(s.clone())),
        _ => None,
    }
}

fn get_u32(j: &Json) -> (r: Option<u32>)
    ensures
        r == as_u32_model(j@),
{
    match j.as_u64() {
        Some(n) => if n <= u32::MAX as u64 {
            Some(n as u32)
        } else {
            None
        },
        None => None,
    }
}

fn get_maybe_u32(v: Option<&Json>) -> (r: Option<Option<u32>>)
    ensures
        r == maybe(seen(v), |m: JsonModel| as_u32_model(m)),
{
    match v {
        None => Some(None),
        Some(Json::Null) => Some(None),
        Some(j) => match get_u32(j) {
            Some(n) => Some(Some(n)),
            None => None,
        },
    }
}

fn get_any_list(v: Option<&Json>) -> (r: Option<Vec<Json>>)
    ensures
        r is Some <==> list_of_any(seen(v)) is Some,
        r is Some ==> list_of_any(seen(v)) == Some(Json::items_model(r->Some_0@)),
{
    match v {
        None => {
            let empty: Vec<Json> = Vec::new();
            assert(Json::items_model(empty@) =~= Seq::empty());
            Some(empty)
        },
        Some(Json::Array(items)) => {
            let mut copy: Vec<Json> = Vec::new();
            let mut i: usize = 0;
            while i < items.len()
                invariant
                    i <= items@.len(),
                    copy@.len() == i,
                    forall|k: int| 0 <= k < i ==> copy@[k].model() == items@[k].model(),
                decreases items.len() - i,
            {
                copy.push(items[i].clone());
                i = i + 1;
            }
            assert(Json::items_model(copy@) =~= Json::items_model(items@));
            Some(copy)
        },
        _ => None,
    }
}

fn get_only_member(members: &Vec<(String, Json)>) -> (r: Option<(&String, &Json)>)
    ensures
        match r {
            Some((key, value)) => only_member(Json::members_model(members@)) == Some(
                (key@, value@),
            ),
            None => only_member(Json::members_model(members@)) is None,
        },
{
    let ghost o = Json::members_model(members@);
    proof {
        lemma_member_keys(members@);
    }
    if members.len() == 0 {
        assert(o.dom() =~= Set::empty());
        assert(Set::empty().insert(o.dom().choose()).contains(o.dom().choose()));
        return None;
    }
    let first = &members[0].0;
    let mut i: usize = 1;
    while i < members.len()
        invariant
            1 <= i <= members@.len(),
            o == Json::members_model(members@),
            *first == members@[0].0,
            o.dom().contains(members@[0].0@),
            forall|k: int| 0 <= k < members@.len() ==> o.dom().contains(
                (#[trigger] members@[k]).0@,
            ),
            forall|k: int| 0 <= k < i ==> (#[trigger] members@[k]).0@ == first@,
        decreases members.len() - i,
    {
        if !same_text(members[i].0.as_str(), first.as_str()) {
            assert(o.dom().contains(members@[i as int].0@));
            return None;
        }
        i = i + 1;
    }
    assert(o.dom() =~= Set::empty().insert(first@));
    assert(o.dom().contains(first@));
    let last = &members[members.len() - 1].1;
    assert(o[first@] == last@);
    Some((first, last))
}

fn get_choice_name(j: &Json, tagged: bool) -> (r: Option<&str>)
    ensures
        r is Some <==> choice_name(j@, tagged) is Some,
        r is Some ==> choice_name(j@, tagged) == Some(r->Some_0@),
{
    match j {
        Json::Str(s) => Some(s.as_str()),
        Json::Object(members) => {
            let (first, last) = match get_only_member(members) {
                Some(member) => member,
                None => {
                    return None;
                },
            };
            let unit: bool = match last {
                Json::Null => true,
                Json::Object(inner) => {
                    proof {
                        lemma_member_keys(inner@);
                        if inner@.len() > 0 {
                            assert(Json::members_model(inner@).dom().contains(inner@[0].0@));
                        }
                    }
                    assert(inner@.len() == 0 ==> Json::members_model(inner@).dom()
                        =~= Set::empty());
                    tagged && inner.len() == 0
                },
                _ => false,
            };
            if unit {
                Some(first.as_str())
            } else {
                None
            }
        },
        _ => None,
    }
}

// ------------------------------------------------------------------- choices

impl StopReason {
    /// The reason called `name` on the wire.
    pub open spec fn called(name: Seq<char>) -> StopReason {
        if name == "end_turn"@ {
            StopReason::EndTurn
        } else if name == "max_tokens"@ {
            StopReason::MaxTokens
        } else if name == "max_turn_requests"@ {
            StopReason::MaxTurnRequests
        } else if name == "refusal"@ {
            StopReason::Refusal
        } else if name == "cancelled"@ {
            StopReason::Cancelled
        } else {
            StopReason::Unknown
        }
    }

    fn from_name(name: &str) -> (r: StopReason)
        ensures
            r == StopReason::called(name@),
    {
        if same_text(name, "end_turn") {
            StopReason::EndTurn
        } else if same_text(name, "max_tokens") {
            StopReason::MaxTokens
        } else if same_text(name, "max_turn_requests") {
            StopReason::MaxTurnRequests
        } else if same_text(name, "refusal") {
            StopReason::Refusal
        } else if same_text(name, "cancelled") {
            StopReason::Cancelled
        } else {
            StopReason::Unknown
        }
    }
}

impl ToolKind {
    /// The kind of tool called `name` on the wire.
    pub open spec fn called(name: Seq<char>) -> ToolKind {
        if name == "read"@ {
            ToolKind::Read
        } else if name == "edit"@ {
            ToolKind::Edit
        } else if name == "delete"@ {
            ToolKind::Delete
        } else if name == "move"@ {
            ToolKind::Move
        } else if name == "search"@ {
            ToolKind::Search
        } else if name == "execute"@ {
            ToolKind::Execute
        } else if name == "think"@ {
            ToolKind::Think
        } else if name == "fetch"@ {
            ToolKind::Fetch
        } else if name == "switch_mode"@ {
            ToolKind::SwitchMode
        } else if name == "other"@ {
            ToolKind::Other
        } else {
            ToolKind::Unknown
        }
    }

    fn from_name(name: &str) -> (r: ToolKind)
        ensures
            r == ToolKind::called(name@),
    {
        if same_text(name, "read") {
            ToolKind::Read
        } else if same_text(name, "edit") {
            ToolKind::Edit
        } else if same_text(name, "delete") {
            ToolKind::Delete
        } else if same_text(name, "move") {
            ToolKind::Move
        } else if same_text(name, "search") {
            ToolKind::Search
        } else if same_text(name, "execute") {
            ToolKind::Execute
        } else if same_text(name, "think") {
            ToolKind::Think
        } else if same_text(name, "fetch") {
            ToolKind::Fetch
        } else if same_text(name, "switch_mode") {
            ToolKind::SwitchMode
        } else if same_text(name, "other") {
            ToolKind::Other
        } else {
            ToolKind::Unknown
        }
    }
}

impl ToolCallStatus {
    /// The status called `name` on the wire.
    pub open spec fn called(name: Seq<char>) -> ToolCallStatus {
        if name == "pending"@ {
            ToolCallStatus::Pending
        } else if name == "in_progress"@ {
            ToolCallStatus::InProgress
        } else if name == "completed"@ {
            ToolCallStatus::Completed
        } else if name == "failed"@ {
            ToolCallStatus::Failed
        } else {
            ToolCallStatus::Unknown
        }
    }

    fn from_name(name: &str) -> (r: ToolCallStatus)
        ensures
            r == ToolCallStatus::called(name@),
    {
        if same_text(name, "pending") {
            ToolCallStatus::Pending
        } else if same_text(name, "in_progress") {
            ToolCallStatus::InProgress
        } else if same_text(name, "completed") {
            ToolCallStatus::Completed
        } else if same_text(name, "failed") {
            ToolCallStatus::Failed
        } else {
            ToolCallStatus::Unknown
        }
    }
}

impl PermissionKind {
    /// The kind of answer called `name` on the wire.
    pub open spec fn called(name: Seq<char>) -> PermissionKind {
        if name == "allow_once"@ {
            PermissionKind::AllowOnce
        } else if name == "allow_always"@ {
            PermissionKind::AllowAlways
        } else if name == "reject_once"@ {
            PermissionKind::RejectOnce
        } else if name == "reject_always"@ {
            PermissionKind::RejectAlways
        } else {
            PermissionKind::Unknown
        }
    }

    fn from_name(name: &str) -> (r: PermissionKind)
        ensures
            r == PermissionKind::called(name@),
    {
        if same_text(name, "allow_once") {
            PermissionKind::AllowOnce
        } else if same_text(name, "allow_always") {
            PermissionKind::AllowAlways
        } else if same_text(name, "reject_once") {
            PermissionKind::RejectOnce
        } else if same_text(name, "reject_always") {
            PermissionKind::RejectAlways
        } else {
            PermissionKind::Unknown
        }
    }
}

impl ToolKind {
    /// The choice a value names.
    pub open spec fn read(m: JsonModel, tagged: bool) -> Option<ToolKind> {
        match choice_name(m, tagged) {
            Some(name) => Some(ToolKind::called(name)),
            None => None,
        }
    }

    fn from_json(j: &Json, tagged: bool) -> (r: Option<ToolKind>)
        ensures
            r == ToolKind::read(j@, tagged),
    {
        match get_choice_name(j, tagged) {
            Some(name) => Some(ToolKind::from_name(name)),
            None => None,
        }
    }

    fn from_field(v: Option<&Json>, tagged: bool) -> (r: Option<Option<ToolKind>>)
        ensures
            r == maybe(seen(v), |m: JsonModel| ToolKind::read(m, tagged)),
    {
        match v {
            None => Some(None),
            Some(Json::Null) => Some(None),
            Some(j) => match ToolKind::from_json(j, tagged) {
                Some(c) => Some(Some(c)),
                None => None,
            },
        }
    }
}

impl ToolCallStatus {
    /// The choice a value names.
    pub open spec fn read(m: JsonModel, tagged: bool) -> Option<ToolCallStatus> {
        match choice_name(m, tagged) {
            Some(name) => Some(ToolCallStatus::called(name)),
            None => None,
        }
    }

    fn from_json(j: &Json, tagged: bool) -> (r: Option<ToolCallStatus>)
        ensures
            r == ToolCallStatus::read(j@, tagged),
    {
        match get_choice_name(j, tagged) {
            Some(name) => Some(ToolCallStatus::from_name(name)),
            None => None,
        }
    }

    fn from_field(v: Option<&Json>, tagged: bool) -> (r: Option<Option<ToolCallStatus>>)
        ensures
            r == maybe(seen(v), |m: JsonModel| ToolCallStatus::read(m, tagged)),
    {
        match v {
            None => Some(None),
            Some(Json::Null) => Some(None),
            Some(j) => match ToolCallStatus::from_json(j, tagged) {
                Some(c) => Some(Some(c)),
                None => None,
            },
        }
    }
}

impl PermissionKind {
    /// The choice a value names.
    pub open spec fn read(m: JsonModel, tagged: bool) -> Option<PermissionKind> {
        match choice_name(m, tagged) {
            Some(name) => Some(PermissionKind::called(name)),
            None => None,
        }
    }

    fn from_json(j: &Json, tagged: bool) -> (r: Option<PermissionKind>)
        ensures
            r == PermissionKind::read(j@, tagged),
    {
        match get_choice_name(j, tagged) {
            Some(name) => Some(PermissionKind::from_name(name)),
            None => None,
        }
    }

    fn from_field(v: Option<&Json>, tagged: bool) -> (r: Option<Option<PermissionKind>>)
        ensures
            r == maybe(seen(v), |m: JsonModel| PermissionKind::read(m, tagged)),
    {
        match v {
            None => Some(None),
            Some(Json::Null) => Some(None),
            Some(j) => match PermissionKind::from_json(j, tagged) {
                Some(c) => Some(Some(c)),
                None => None,
            },
        }
    }
}

// ------------------------------------------------------------ session updates

impl ToolCallLocationView {
    /// The location a value describes.
    pub open spec fn read(m: JsonModel) -> Option<ToolCallLocationView> {
        let path = needed_text(field(m, false, 0, "path"@));
        let line = maybe(field(m, false, 1, "line"@), |v: JsonModel| as_u32_model(v));
        if is_record(m, false, 2) && path is Some && line is Some {
            Some(ToolCallLocationView { path: path->Some_0, line: line->Some_0 })
        } else {
            None
        }
    }
}

impl ToolCallLocation {
    pub fn from_json(j: &Json) -> (r: Option<ToolCallLocation>)
        ensures
            reads_as(r, ToolCallLocationView::read(j@)),
    {
        let path = get_needed_text(get_field(j, false, 0, "path"));
        let line = get_maybe_u32(get_field(j, false, 1, "line"));
        match (path, line) {
            (Some(path), Some(line)) => if has_width(j, false, 2) {
                Some(ToolCallLocation { path, line })
            } else {
                None
            },
            _ => None,
        }
    }
}

fn get_locations(v: Option<&Json>) -> (r: Option<Vec<ToolCallLocation>>)
    ensures
        r is Some <==> list_of(seen(v), |m: JsonModel| ToolCallLocationView::read(m)) is Some,
        r is Some ==> list_of(seen(v), |m: JsonModel| ToolCallLocationView::read(m)) == Some(
            location_views(r->Some_0@),
        ),
{
    let ghost read = |m: JsonModel| ToolCallLocationView::read(m);
    match v {
        None => {
            let empty: Vec<ToolCallLocation> = Vec::new();
            assert(location_views(empty@) =~= Seq::empty());
            Some(empty)
        },
        Some(Json::Array(items)) => {
            let ghost a = Json::items_model(items@);
            let mut found: Vec<ToolCallLocation> = Vec::new();
            let mut i: usize = 0;
            while i < items.len()
                invariant
                    i <= items@.len(),
                    a == Json::items_model(items@),
                    read == (|m: JsonModel| ToolCallLocationView::read(m)),
                    seen(v) == Some(JsonModel::Array(a)),
                    found@.len() == i,
                    forall|k: int| 0 <= k < i ==> read(a[k]) == Some((#[trigger] found@[k])@),
                decreases items.len() - i,
            {
                assert(a[i as int] == items@[i as int]@);
                match ToolCallLocation::from_json(&items[i]) {
                    Some(item) => {
                        found.push(item);
                    },
                    None => {
                        assert(read(a[i as int]) is None);
                        return None;
                    },
                }
                i = i + 1;
            }
            assert forall|k: int| 0 <= k < a.len() implies (#[trigger] read(a[k])) is Some by {
                assert(read(a[k]) == Some(found@[k]@));
            }
            assert(location_views(found@) =~= Seq::new(a.len(), |k: int| read(a[k])->Some_0)) by {
                assert forall|k: int| 0 <= k < a.len() implies read(a[k]) == Some(
                    (#[trigger] found@[k])@,
                ) by {}
            }
            Some(found)
        },
        _ => None,
    }
}

impl PlanEntryView {
    /// The step of a plan a value describes.
    pub open spec fn read(m: JsonModel) -> Option<PlanEntryView> {
        let content = needed_text(field(m, false, 0, "content"@));
        let priority = maybe(field(m, false, 1, "priority"@), |v: JsonModel| as_str_model(v));
        let status = maybe(field(m, false, 2, "status"@), |v: JsonModel| as_str_model(v));
        if is_record(m, false, 3) && content is Some && priority is Some && status is Some {
            Some(
                PlanEntryView {
                    content: content->Some_0,
                    priority: priority->Some_0,
                    status: status->Some_0,
                },
            )
        } else {
            None
        }
    }
}

impl PlanEntry {
    pub fn from_json(j: &Json) -> (r: Option<PlanEntry>)
        ensures
            reads_as(r, PlanEntryView::read(j@)),
    {
        let content = get_needed_text(get_field(j, false, 0, "content"));
        let priority = get_maybe_text(get_field(j, false, 1, "priority"));
        let status = get_maybe_text(get_field(j, false, 2, "status"));
        match (content, priority, status) {
            (Some(content), Some(priority), Some(status)) => if has_width(j, false, 3) {
                Some(PlanEntry { content, priority, status })
            } else {
                None
            },
            _ => None,
        }
    }
}

fn get_plan(v: Option<&Json>) -> (r: Option<Vec<PlanEntry>>)
    ensures
        r is Some <==> list_of(seen(v), |m: JsonModel| PlanEntryView::read(m)) is Some,
        r is Some ==> list_of(seen(v), |m: JsonModel| PlanEntryView::read(m)) == Some(
            plan_views(r->Some_0@),
        ),
{
    let ghost read = |m: JsonModel| PlanEntryView::read(m);
    match v {
        None => {
            let empty: Vec<PlanEntry> = Vec::new();
            assert(plan_views(empty@) =~= Seq::empty());
            Some(empty)
        },
        Some(Json::Array(items)) => {
            let ghost a = Json::items_model(items@);
            let mut found: Vec<PlanEntry> = Vec::new();
            let mut i: usize = 0;
            while i < items.len()
                invariant
                    i <= items@.len(),
                    a == Json::items_model(items@),
                    read == (|m: JsonModel| PlanEntryView::read(m)),
                    seen(v) == Some(JsonModel::Array(a)),
                    found@.len() == i,
                    forall|k: int| 0 <= k < i ==> read(a[k]) == Some((#[trigger] found@[k])@),
                decreases items.len() - i,
            {
                assert(a[i as int] == items@[i as int]@);
                match PlanEntry::from_json(&items[i]) {
                    Some(item) => {
                        found.push(item);
                    },
                    None => {
                        assert(read(a[i as int]) is None);
                        return None;
                    },
                }
                i = i + 1;
            }
            assert forall|k: int| 0 <= k < a.len() implies (#[trigger] read(a[k])) is Some by {
                assert(read(a[k]) == Some(found@[k]@));
            }
            assert(plan_views(found@) =~= Seq::new(a.len(), |k: int| read(a[k])->Some_0)) by {
                assert forall|k: int| 0 <= k < a.len() implies read(a[k]) == Some(
                    (#[trigger] found@[k])@,
                ) by {}
            }
            Some(found)
        },
        _ => None,
    }
}

impl ToolCallView {
    /// The tool call a value describes.
    pub open spec fn read(m: JsonModel, tagged: bool) -> Option<ToolCallView> {
        let id = needed_text(field(m, tagged, 0, "toolCallId"@));
        let title = maybe(field(m, tagged, 1, "title"@), |v: JsonModel| as_str_model(v));
        let kind = maybe(field(m, tagged, 2, "kind"@), |v: JsonModel| ToolKind::read(v, tagged));
        let status = maybe(
            field(m, tagged, 3, "status"@),
            |v: JsonModel| ToolCallStatus::read(v, tagged),
        );
        let locations = list_of(
            field(m, tagged, 4, "locations"@),
            |v: JsonModel| ToolCallLocationView::read(v),
        );
        if is_record(m, tagged, 5) && id is Some && title is Some && kind is Some && status is Some
            && locations is Some {
            Some(
                ToolCallView {
                    tool_call_id: id->Some_0,
                    title: title->Some_0,
                    kind: kind->Some_0,
                    status: status->Some_0,
                    locations: locations->Some_0,
                },
            )
        } else {
            None
        }
    }
}

impl ToolCall {
    pub fn from_json(j: &Json, tagged: bool) -> (r: Option<ToolCall>)
        ensures
            reads_as(r, ToolCallView::read(j@, tagged)),
    {
        let id = get_needed_text(get_field(j, tagged, 0, "toolCallId"));
        let title = get_maybe_text(get_field(j, tagged, 1, "title"));
        let kind = ToolKind::from_field(get_field(j, tagged, 2, "kind"), tagged);
        let status = ToolCallStatus::from_field(get_field(j, tagged, 3, "status"), tagged);
        let locations = get_locations(get_field(j, tagged, 4, "locations"));
        match (id, title, kind, status, locations) {
            (
                Some(tool_call_id),
                Some(title),
                Some(kind),
                Some(status),
                Some(locations),
            ) => if has_width(j, tagged, 5) {
                Some(ToolCall { tool_call_id, title, kind, status, locations })
            } else {
                None
            },
            _ => None,
        }
    }
}

impl ToolCallUpdateView {
    /// The news of a tool call a value describes.
    pub open spec fn read(m: JsonModel, tagged: bool) -> Option<ToolCallUpdateView> {
        let id = needed_text(field(m, tagged, 0, "toolCallId"@));
        let title = maybe(field(m, tagged, 1, "title"@), |v: JsonModel| as_str_model(v));
        let status = maybe(
            field(m, tagged, 2, "status"@),
            |v: JsonModel| ToolCallStatus::read(v, tagged),
        );
        let locations = list_of(
            field(m, tagged, 3, "locations"@),
            |v: JsonModel| ToolCallLocationView::read(v),
        );
        let content = list_of_any(field(m, tagged, 4, "content"@));
        if is_record(m, tagged, 5) && id is Some && title is Some && status is Some
            && locations is Some && content is Some {
            Some(
                ToolCallUpdateView {
                    tool_call_id: id->Some_0,
                    title: title->Some_0,
                    status: status->Some_0,
                    locations: locations->Some_0,
                    content: content->Some_0,
                },
            )
        } else {
            None
        }
    }
}

impl ToolCallUpdate {
    pub fn from_json(j: &Json, tagged: bool) -> (r: Option<ToolCallUpdate>)
        ensures
            reads_as(r, ToolCallUpdateView::read(j@, tagged)),
    {
        let id = get_needed_text(get_field(j, tagged, 0, "toolCallId"));
        let title = get_maybe_text(get_field(j, tagged, 1, "title"));
        let status = ToolCallStatus::from_field(get_field(j, tagged, 2, "status"), tagged);
        let locations = get_locations(get_field(j, tagged, 3, "locations"));
        let content = get_any_list(get_field(j, tagged, 4, "content"));
        match (id, title, status, locations, content) {
            (
                Some(tool_call_id),
                Some(title),
                Some(status),
                Some(locations),
                Some(content),
            ) => if has_width(j, tagged, 5) {
                Some(ToolCallUpdate { tool_call_id, title, status, locations, content })
            } else {
                None
            },
            _ => None,
        }
    }
}

impl ContentBlockView {
    /// The name of the kind of block: a string. Inside an update it may also be
    /// the place of the kind among the kinds.
    pub open spec fn kind_name(m: JsonModel, nested: bool) -> Option<Seq<char>> {
        match field(m, false, 0, "type"@) {
            Some(JsonModel::Str(s)) => Some(s),
            Some(tag) => match as_u64_model(tag) {
                Some(_) if !nested => None,
                Some(n) => Some(
                    if n == 0 {
                        "text"@
                    } else if n == 1 {
                        "resource_link"@
                    } else {
                        "other"@
                    },
                ),
                None => None,
            },
            None => None,
        }
    }

    /// The block a value describes. A kind that is not known is `Other`.
    pub open spec fn read(m: JsonModel) -> Option<ContentBlockView> {
        ContentBlockView::read_in(m, false)
    }

    /// The block a value describes, by itself or inside an update.
    pub open spec fn read_in(m: JsonModel, nested: bool) -> Option<ContentBlockView> {
        match ContentBlockView::kind_name(m, nested) {
            None => None,
            Some(name) => if name == "text"@ {
                match needed_text(field(m, true, 0, "text"@)) {
                    Some(text) => if is_record(m, true, 1) {
                        Some(ContentBlockView::Text { text })
                    } else {
                        None
                    },
                    None => None,
                }
            } else if name == "resource_link"@ {
                match needed_text(field(m, true, 0, "uri"@)) {
                    Some(uri) => if is_record(m, true, 1) {
                        Some(ContentBlockView::ResourceLink { uri })
                    } else {
                        None
                    },
                    None => None,
                }
            } else if is_record(m, true, 0) {
                Some(ContentBlockView::Other)
            } else {
                None
            },
        }
    }
}

impl ContentBlock {
    pub fn from_json(j: &Json) -> (r: Option<ContentBlock>)
        ensures
            reads_as(r, ContentBlockView::read(j@)),
    {
        ContentBlock::from_json_in(j, false)
    }

    fn from_json_in(j: &Json, nested: bool) -> (r: Option<ContentBlock>)
        ensures
            reads_as(r, ContentBlockView::read_in(j@, nested)),
    {
        let tag: &Json = match get_field(j, false, 0, "type") {
            Some(tag) => tag,
            None => {
                return None;
            },
        };
        let name: &str = match tag {
            Json::Str(s) => s.as_str(),
            _ => match tag.as_u64() {
                Some(n) => if !nested {
                    return None;
                } else if n == 0 {
                    "text"
                } else if n == 1 {
                    "resource_link"
                } else {
                    "other"
                },
                None => {
                    return None;
                },
            },
        };
        if same_text(name, "text") {
            match get_needed_text(get_field(j, true, 0, "text")) {
                Some(text) => if has_width(j, true, 1) {
                    Some(ContentBlock::Text { text })
                } else {
                    None
                },
                None => None,
            }
        } else if same_text(name, "resource_link") {
            match get_needed_text(get_field(j, true, 0, "uri")) {
                Some(uri) => if has_width(j, true, 1) {
                    Some(ContentBlock::ResourceLink { uri })
                } else {
                    None
                },
                None => None,
            }
        } else if has_width(j, true, 0) {
            Some(ContentBlock::Other)
        } else {
            None
        }
    }
}

/// The content of an update that is a chunk of a message.
pub open spec fn chunk(m: JsonModel) -> Option<ContentBlockView> {
    match field(m, true, 0, "content"@) {
        Some(v) => if is_record(m, true, 1) {
            ContentBlockView::read_in(v, true)
        } else {
            None
        },
        None => None,
    }
}

fn get_chunk(j: &Json) -> (r: Option<ContentBlock>)
    ensures
        reads_as(r, chunk(j@)),
{
    match get_field(j, true, 0, "content") {
        Some(v) => if has_width(j, true, 1) {
            ContentBlock::from_json_in(v, true)
        } else {
            None
        },
        None => None,
    }
}

impl SessionUpdateView {
    /// The update a value describes. A kind that is not known is `Unknown`,
    /// whatever comes with it.
    pub open spec fn read(m: JsonModel) -> Option<SessionUpdateView> {
        match needed_text(field(m, false, 0, "sessionUpdate"@)) {
            None => None,
            Some(name) => if name == "agent_message_chunk"@ {
                match chunk(m) {
                    Some(content) => Some(SessionUpdateView::AgentMessageChunk { content }),
                    None => None,
                }
            } else if name == "agent_thought_chunk"@ {
                match chunk(m) {
                    Some(content) => Some(SessionUpdateView::AgentThoughtChunk { content }),
                    None => None,
                }
            } else if name == "user_message_chunk"@ {
                match chunk(m) {
                    Some(content) => Some(SessionUpdateView::UserMessageChunk { content }),
                    None => None,
                }
            } else if name == "tool_call"@ {
                match ToolCallView::read(m, true) {
                    Some(c) => Some(SessionUpdateView::ToolCall(c)),
                    None => None,
                }
            } else if name == "tool_call_update"@ {
                match ToolCallUpdateView::read(m, true) {
                    Some(u) => Some(SessionUpdateView::ToolCallUpdate(u)),
                    None => None,
                }
            } else if name == "plan"@ {
                match field(m, true, 0, "entries"@) {
                    Some(v) => match list_of(Some(v), |e: JsonModel| PlanEntryView::read(e)) {
                        Some(entries) => if is_record(m, true, 1) {
                            Some(SessionUpdateView::Plan { entries })
                        } else {
                            None
                        },
                        None => None,
                    },
                    None => None,
                }
            } else if is_record(m, true, 0) {
                Some(SessionUpdateView::Unknown)
            } else {
                None
            },
        }
    }
}

impl SessionUpdate {
    pub fn from_json(j: &Json) -> (r: Option<SessionUpdate>)
        ensures
            reads_as(r, SessionUpdateView::read(j@)),
    {
        let name: String = match get_needed_text(get_field(j, false, 0, "sessionUpdate")) {
            Some(name) => name,
            None => {
                return None;
            },
        };
        let name: &str = name.as_str();
        if same_text(name, "agent_message_chunk") {
            match get_chunk(j) {
                Some(content) => Some(SessionUpdate::AgentMessageChunk { content }),
                None => None,
            }
        } else if same_text(name, "agent_thought_chunk") {
            match get_chunk(j) {
                Some(content) => Some(SessionUpdate::AgentThoughtChunk { content }),
                None => None,
            }
        } else if same_text(name, "user_message_chunk") {
            match get_chunk(j) {
                Some(content) => Some(SessionUpdate::UserMessageChunk { content }),
                None => None,
            }
        } else if same_text(name, "tool_call") {
            match ToolCall::from_json(j, true) {
                Some(c) => Some(SessionUpdate::ToolCall(c)),
                None => None,
            }
        } else if same_text(name, "tool_call_update") {
            match ToolCallUpdate::from_json(j, true) {
                Some(u) => Some(SessionUpdate::ToolCallUpdate(u)),
                None => None,
            }
        } else if same_text(name, "plan") {
            match get_field(j, true, 0, "entries") {
                Some(v) => match get_plan(Some(v)) {
                    Some(entries) => if has_width(j, true, 1) {
                        Some(SessionUpdate::Plan { entries })
                    } else {
                        None
                    },
                    None => None,
                },
                None => None,
            }
        } else if has_width(j, true, 0) {
            Some(SessionUpdate::Unknown)
        } else {
            None
        }
    }
}

impl SessionNotificationView {
    /// The notification a value describes.
    pub open spec fn read(m: JsonModel) -> Option<SessionNotificationView> {
        let session_id = needed_text(field(m, false, 0, "sessionId"@));
        match (session_id, field(m, false, 1, "update"@)) {
            (Some(session_id), Some(v)) => match SessionUpdateView::read(v) {
                Some(update) => if is_record(m, false, 2) {
                    Some(
                        SessionNotificationView {
                            session_id,
                            update,
                            unrecognised: if update is Unknown {
                                Some(v)
                            } else {
                                None
                            },
                        },
                    )
                } else {
                    None
                },
                None => None,
            },
            _ => None,
        }
    }
}

impl SessionNotification {
    pub fn from_json(j: &Json) -> (r: Option<SessionNotification>)
        ensures
            reads_as(r, SessionNotificationView::read(j@)),
    {
        let session_id = get_needed_text(get_field(j, false, 0, "sessionId"));
        match (session_id, get_field(j, false, 1, "update")) {
            (Some(session_id), Some(v)) => match SessionUpdate::from_json(v) {
                Some(update) => if has_width(j, false, 2) {
                    let unrecognised: Option<Json> = match update {
                        SessionUpdate::Unknown => Some(v.clone()),
                        _ => None,
                    };
                    Some(SessionNotification { session_id, update, unrecognised })
                } else {
                    None
                },
                None => None,
            },
            _ => None,
        }
    }
}

// ---------------------------------------------------------------- permissions

impl PermissionOptionView {
    /// The answer on offer that a value describes.
    pub open spec fn read(m: JsonModel) -> Option<PermissionOptionView> {
        let option_id = needed_text(field(m, false, 0, "optionId"@));
        let name = maybe(field(m, false, 1, "name"@), |v: JsonModel| as_str_model(v));
        let kind = maybe(
            field(m, false, 2, "kind"@),
            |v: JsonModel| PermissionKind::read(v, false),
        );
        if is_record(m, false, 3) && option_id is Some && name is Some && kind is Some {
            Some(
                PermissionOptionView {
                    option_id: option_id->Some_0,
                    name: name->Some_0,
                    kind: kind->Some_0,
                },
            )
        } else {
            None
        }
    }
}

impl PermissionOption {
    pub fn from_json(j: &Json) -> (r: Option<PermissionOption>)
        ensures
            reads_as(r, PermissionOptionView::read(j@)),
    {
        let option_id = get_needed_text(get_field(j, false, 0, "optionId"));
        let name = get_maybe_text(get_field(j, false, 1, "name"));
        let kind = PermissionKind::from_field(get_field(j, false, 2, "kind"), false);
        match (option_id, name, kind) {
            (Some(option_id), Some(name), Some(kind)) => if has_width(j, false, 3) {
                Some(PermissionOption { option_id, name, kind })
            } else {
                None
            },
            _ => None,
        }
    }
}

fn get_options(v: Option<&Json>) -> (r: Option<Vec<PermissionOption>>)
    ensures
        r is Some <==> list_of(seen(v), |m: JsonModel| PermissionOptionView::read(m)) is Some,
        r is Some ==> list_of(seen(v), |m: JsonModel| PermissionOptionView::read(m)) == Some(
            option_views(r->Some_0@),
        ),
{
    let ghost read = |m: JsonModel| PermissionOptionView::read(m);
    match v {
        None => {
            let empty: Vec<PermissionOption> = Vec::new();
            assert(option_views(empty@) =~= Seq::empty());
            Some(empty)
        },
        Some(Json::Array(items)) => {
            let ghost a = Json::items_model(items@);
            let mut found: Vec<PermissionOption> = Vec::new();
            let mut i: usize = 0;
            while i < items.len()
                invariant
                    i <= items@.len(),
                    a == Json::items_model(items@),
                    read == (|m: JsonModel| PermissionOptionView::read(m)),
                    seen(v) == Some(JsonModel::Array(a)),
                    found@.len() == i,
                    forall|k: int| 0 <= k < i ==> read(a[k]) == Some((#[trigger] found@[k])@),
                decreases items.len() - i,
            {
                assert(a[i as int] == items@[i as int]@);
                match PermissionOption::from_json(&items[i]) {
                    Some(item) => {
                        found.push(item);
                    },
                    None => {
                        assert(read(a[i as int]) is None);
                        return None;
                    },
                }
                i = i + 1;
            }
            assert forall|k: int| 0 <= k < a.len() implies (#[trigger] read(a[k])) is Some by {
                assert(read(a[k]) == Some(found@[k]@));
            }
            assert(option_views(found@) =~= Seq::new(a.len(), |k: int| read(a[k])->Some_0)) by {
                assert forall|k: int| 0 <= k < a.len() implies read(a[k]) == Some(
                    (#[trigger] found@[k])@,
                ) by {}
            }
            Some(found)
        },
        _ => None,
    }
}

impl RequestPermissionParamsView {
    /// The request for permission a value describes.
    pub open spec fn read(m: JsonModel) -> Option<RequestPermissionParamsView> {
        let session_id = needed_text(field(m, false, 0, "sessionId"@));
        let tool_call = maybe(
            field(m, false, 1, "toolCall"@),
            |v: JsonModel| ToolCallUpdateView::read(v, false),
        );
        let options = list_of(
            field(m, false, 2, "options"@),
            |v: JsonModel| PermissionOptionView::read(v),
        );
        if is_record(m, false, 3) && session_id is Some && tool_call is Some && options is Some {
            Some(
                RequestPermissionParamsView {
                    session_id: session_id->Some_0,
                    tool_call: tool_call->Some_0,
                    options: options->Some_0,
                },
            )
        } else {
            None
        }
    }
}

impl RequestPermissionParams {
    pub fn from_json(j: &Json) -> (r: Option<RequestPermissionParams>)
        ensures
            reads_as(r, RequestPermissionParamsView::read(j@)),
    {
        let session_id = get_needed_text(get_field(j, false, 0, "sessionId"));
        let tool_call: Option<Option<ToolCallUpdate>> = match get_field(j, false, 1, "toolCall") {
            None => Some(None),
            Some(Json::Null) => Some(None),
            Some(v) => match ToolCallUpdate::from_json(v, false) {
                Some(u) => Some(Some(u)),
                None => None,
            },
        };
        let options = get_options(get_field(j, false, 2, "options"));
        match (session_id, tool_call, options) {
            (Some(session_id), Some(tool_call), Some(options)) => if has_width(j, false, 3) {
                Some(RequestPermissionParams { session_id, tool_call, options })
            } else {
                None
            },
            _ => None,
        }
    }
}

// -------------------------------------------------------------------- replies

/// Why a reply could not be read. Where more than one thing is wrong with it, the
/// error is of the first: in an object in the order of the keys, with fields that
/// are missing last; in a list in the order of the fields, with its length last.
#[derive(Debug, Clone, PartialEq)]
pub enum DecodeError {
    /// An object lacks a field that has no default.
    MissingField { name: String },
    /// A value is of another kind than its place calls for.
    InvalidType { found: String, expected: String },
    /// A value is of the right kind, and out of range or of the wrong shape.
    InvalidValue { found: String, expected: String },
    /// A list has too few items or too many.
    InvalidLength { length: usize, expected: String },
}

pub enum DecodeErrorView {
    MissingField { name: Seq<char> },
    InvalidType { found: Seq<char>, expected: Seq<char> },
    InvalidValue { found: Seq<char>, expected: Seq<char> },
    InvalidLength { length: nat, expected: Seq<char> },
}

impl View for DecodeError {
    type V = DecodeErrorView;

    open spec fn view(&self) -> DecodeErrorView {
        match self {
            DecodeError::MissingField { name } => DecodeErrorView::MissingField { name: name@ },
            DecodeError::InvalidType { found, expected } => DecodeErrorView::InvalidType {
                found: found@,
                expected: expected@,
            },
            DecodeError::InvalidValue { found, expected } => DecodeErrorView::InvalidValue {
                found: found@,
                expected: expected@,
            },
            DecodeError::InvalidLength { length, expected } => DecodeErrorView::InvalidLength {
                length: *length as nat,
                expected: expected@,
            },
        }
    }
}

impl DecodeErrorView {
    /// What is said of the error.
    pub open spec fn description(self) -> Seq<char> {
        match self {
            DecodeErrorView::MissingField { name } => "missing field `"@ + name + "`"@,
            DecodeErrorView::InvalidType { found, expected } => "invalid type: "@ + found
                + ", expected "@ + expected,
            DecodeErrorView::InvalidValue { found, expected } => "invalid value: "@ + found
                + ", expected "@ + expected,
            DecodeErrorView::InvalidLength { length, expected } => "invalid length "@ + decimal(
                length,
            ) + ", expected "@ + expected,
        }
    }

    /// That something else stands where `expected` should.
    pub open spec fn not_a(m: JsonModel, expected: Seq<char>) -> DecodeErrorView {
        DecodeErrorView::InvalidType { found: found_text(m), expected }
    }

    /// That a list has more items than a record has fields.
    pub open spec fn too_long(a: Seq<JsonModel>) -> DecodeErrorView {
        DecodeErrorView::InvalidLength { length: a.len(), expected: "fewer elements in array"@ }
    }
}

impl DecodeError {
    pub fn describe(&self) -> (r: String)
        ensures
            r@ == self@.description(),
    {
        match self {
            DecodeError::MissingField { name } => join3("missing field `", name.as_str(), "`"),
            DecodeError::InvalidType { found, expected } => {
                let head = join3("invalid type: ", found.as_str(), ", expected ");
                join2(head.as_str(), expected.as_str())
            },
            DecodeError::InvalidValue { found, expected } => {
                let head = join3("invalid value: ", found.as_str(), ", expected ");
                join2(head.as_str(), expected.as_str())
            },
            DecodeError::InvalidLength { length, expected } => {
                let number = decimal_text(*length as u64);
                let head = join3("invalid length ", number.as_str(), ", expected ");
                join2(head.as_str(), expected.as_str())
            },
        }
    }

    fn missing(name: &str) -> (r: DecodeError)
        ensures
            r@ == (DecodeErrorView::MissingField { name: name@ }),
    {
        DecodeError::MissingField { name: name.to_owned() }
    }

    fn not_a(j: &Json, expected: &str) -> (r: DecodeError)
        ensures
            r@ == DecodeErrorView::not_a(j@, expected@),
    {
        DecodeError::InvalidType { found: j.found(), expected: expected.to_owned() }
    }

    fn too_short(expected: &str) -> (r: DecodeError)
        ensures
            r@ == (DecodeErrorView::InvalidLength { length: 0, expected: expected@ }),
    {
        DecodeError::InvalidLength { length: 0, expected: expected.to_owned() }
    }

    fn too_long(items: &Vec<Json>) -> (r: DecodeError)
        ensures
            r@ == DecodeErrorView::too_long(Json::items_model(items@)),
    {
        DecodeError::InvalidLength {
            length: items.len(),
            expected: "fewer elements in array".to_owned(),
        }
    }
}

/// Whether what was read of a reply, or why it could not be read, is what the
/// reply means.
pub open spec fn replies_as<T: View>(
    r: Result<T, DecodeError>,
    m: Result<T::V, DecodeErrorView>,
) -> bool {
    match r {
        Ok(t) => m == Ok::<T::V, DecodeErrorView>(t@),
        Err(e) => m == Err::<T::V, DecodeErrorView>(e@),
    }
}

/// The text that a value must be.
pub open spec fn text_of(m: JsonModel) -> Result<Seq<char>, DecodeErrorView> {
    match m {
        JsonModel::Str(s) => Ok(s),
        _ => Err(DecodeErrorView::not_a(m, "a string"@)),
    }
}

/// The text that a value must be, where it is there and not `null`.
pub open spec fn maybe_text_of(v: Option<JsonModel>) -> Result<
    Option<Seq<char>>,
    DecodeErrorView,
> {
    match v {
        None => Ok(None),
        Some(JsonModel::Null) => Ok(None),
        Some(m) => match text_of(m) {
            Ok(s) => Ok(Some(s)),
            Err(e) => Err(e),
        },
    }
}

/// The whole number in the range of `u32` that a value must be.
pub open spec fn u32_of(m: JsonModel) -> Result<u32, DecodeErrorView> {
    match as_u32_model(m) {
        Some(n) => Ok(n),
        None => if m is Integer {
            Err(DecodeErrorView::InvalidValue { found: found_text(m), expected: "u32"@ })
        } else {
            Err(DecodeErrorView::not_a(m, "u32"@))
        },
    }
}

/// The list of values of any form that a value must be, where it is there.
pub open spec fn values_of(v: Option<JsonModel>) -> Result<Seq<JsonModel>, DecodeErrorView> {
    match v {
        None => Ok(Seq::empty()),
        Some(JsonModel::Array(a)) => Ok(a),
        Some(m) => Err(DecodeErrorView::not_a(m, "a sequence"@)),
    }
}

fn take_text(j: &Json) -> (r: Result<String, DecodeError>)
    ensures
        replies_as(r, text_of(j@)),
{
    match j {
        Json::Str(s) => Ok(s.clone()),
        _ => Err(DecodeError::not_a(j, "a string")),
    }
}

fn take_maybe_text(v: Option<&Json>) -> (r: Result<Option<String>, DecodeError>)
    ensures
        match r {
            Ok(t) => maybe_text_of(seen(v)) == Ok::<Option<Seq<char>>, DecodeErrorView>(
                optional_text(t),
            ),
            Err(e) => maybe_text_of(seen(v)) == Err::<Option<Seq<char>>, DecodeErrorView>(e@),
        },
{
    match v {
        None => Ok(None),
        Some(Json::Null) => Ok(None),
        Some(j) => match take_text(j) {
            Ok(s) => Ok(Some(s)),
            Err(e) => Err(e),
        },
    }
}

fn take_u32(j: &Json) -> (r: Result<u32, DecodeError>)
    ensures
        match r {
            Ok(n) => u32_of(j@) == Ok::<u32, DecodeErrorView>(n),
            Err(e) => u32_of(j@) == Err::<u32, DecodeErrorView>(e@),
        },
{
    match get_u32(j) {
        Some(n) => Ok(n),
        None => if j.is_integer() {
            Err(DecodeError::InvalidValue { found: j.found(), expected: "u32".to_owned() })
        } else {
            Err(DecodeError::not_a(j, "u32"))
        },
    }
}

fn take_values(v: Option<&Json>) -> (r: Result<Vec<Json>, DecodeError>)
    ensures
        match r {
            Ok(items) => values_of(seen(v)) == Ok::<Seq<JsonModel>, DecodeErrorView>(
                Json::items_model(items@),
            ),
            Err(e) => values_of(seen(v)) == Err::<Seq<JsonModel>, DecodeErrorView>(e@),
        },
{
    match get_any_list(v) {
        Some(items) => Ok(items),
        None => match v {
            Some(j) => Err(DecodeError::not_a(j, "a sequence")),
            None => Ok(Vec::new()),
        },
    }
}

impl StopReason {
    /// The reason a value names: by a string, or by the only key of an object whose
    /// value is `null`.
    pub open spec fn read(m: JsonModel) -> Result<StopReason, DecodeErrorView> {
        match m {
            JsonModel::Str(name) => Ok(StopReason::called(name)),
            JsonModel::Object(o) => match only_member(o) {
                Some((name, v)) => if v == JsonModel::Null {
                    Ok(StopReason::called(name))
                } else {
                    Err(DecodeErrorView::not_a(v, "unit"@))
                },
                None => Err(
                    DecodeErrorView::InvalidValue {
                        found: "map"@,
                        expected: "map with a single key"@,
                    },
                ),
            },
            _ => Err(DecodeErrorView::not_a(m, "string or map"@)),
        }
    }

    fn from_json(j: &Json) -> (r: Result<StopReason, DecodeError>)
        ensures
            match r {
                Ok(reason) => StopReason::read(j@) == Ok::<StopReason, DecodeErrorView>(reason),
                Err(e) => StopReason::read(j@) == Err::<StopReason, DecodeErrorView>(e@),
            },
    {
        match j {
            Json::Str(name) => Ok(StopReason::from_name(name.as_str())),
            Json::Object(members) => match get_only_member(members) {
                Some((name, v)) => if v.is_null() {
                    Ok(StopReason::from_name(name.as_str()))
                } else {
                    Err(DecodeError::not_a(v, "unit"))
                },
                None => Err(
                    DecodeError::InvalidValue {
                        found: "map".to_owned(),
                        expected: "map with a single key".to_owned(),
                    },
                ),
            },
            _ => Err(DecodeError::not_a(j, "string or map")),
        }
    }
}

impl View for NewSessionResult {
    type V = Seq<char>;

    /// The session's id.
    open spec fn view(&self) -> Seq<char> {
        self.session_id@
    }
}

impl NewSessionResult {
    /// The id of the session that a reply opens.
    pub open spec fn read(m: JsonModel) -> Result<Seq<char>, DecodeErrorView> {
        match m {
            JsonModel::Object(_) => match lookup(m, "sessionId"@) {
                Some(v) => text_of(v),
                None => Err(DecodeErrorView::MissingField { name: "sessionId"@ }),
            },
            JsonModel::Array(a) => if a.len() == 0 {
                Err(
                    DecodeErrorView::InvalidLength {
                        length: 0,
                        expected: "struct NewSessionResult with 1 element"@,
                    },
                )
            } else if text_of(a[0]) is Ok && a.len() > 1 {
                Err(DecodeErrorView::too_long(a))
            } else {
                text_of(a[0])
            },
            _ => Err(DecodeErrorView::not_a(m, "struct NewSessionResult"@)),
        }
    }

    pub fn from_json(j: &Json) -> (r: Result<NewSessionResult, DecodeError>)
        ensures
            replies_as(r, NewSessionResult::read(j@)),
    {
        let session_id: String = match j {
            Json::Object(_) => match j.get("sessionId") {
                Some(v) => match take_text(v) {
                    Ok(s) => s,
                    Err(e) => {
                        return Err(e);
                    },
                },
                None => {
                    return Err(DecodeError::missing("sessionId"));
                },
            },
            Json::Array(items) => {
                if items.len() == 0 {
                    return Err(DecodeError::too_short("struct NewSessionResult with 1 element"));
                }
                match take_text(&items[0]) {
                    Ok(s) => {
                        if items.len() > 1 {
                            return Err(DecodeError::too_long(items));
                        }
                        s
                    },
                    Err(e) => {
                        return Err(e);
                    },
                }
            },
            _ => {
                return Err(DecodeError::not_a(j, "struct NewSessionResult"));
            },
        };
        Ok(NewSessionResult { session_id })
    }
}

impl View for PromptResult {
    type V = StopReason;

    /// Why the turn ended.
    open spec fn view(&self) -> StopReason {
        self.stop_reason
    }
}

impl PromptResult {
    /// Why the turn that a reply ends has ended.
    pub open spec fn read(m: JsonModel) -> Result<StopReason, DecodeErrorView> {
        match m {
            JsonModel::Object(_) => match lookup(m, "stopReason"@) {
                Some(v) => StopReason::read(v),
                None => Err(DecodeErrorView::MissingField { name: "stopReason"@ }),
            },
            JsonModel::Array(a) => if a.len() == 0 {
                Err(
                    DecodeErrorView::InvalidLength {
                        length: 0,
                        expected: "struct PromptResult with 1 element"@,
                    },
                )
            } else if StopReason::read(a[0]) is Ok && a.len() > 1 {
                Err(DecodeErrorView::too_long(a))
            } else {
                StopReason::read(a[0])
            },
            _ => Err(DecodeErrorView::not_a(m, "struct PromptResult"@)),
        }
    }

    pub fn from_json(j: &Json) -> (r: Result<PromptResult, DecodeError>)
        ensures
            replies_as(r, PromptResult::read(j@)),
    {
        let stop_reason: StopReason = match j {
            Json::Object(_) => match j.get("stopReason") {
                Some(v) => match StopReason::from_json(v) {
                    Ok(reason) => reason,
                    Err(e) => {
                        return Err(e);
                    },
                },
                None => {
                    return Err(DecodeError::missing("stopReason"));
                },
            },
            Json::Array(items) => {
                if items.len() == 0 {
                    return Err(DecodeError::too_short("struct PromptResult with 1 element"));
                }
                match StopReason::from_json(&items[0]) {
                    Ok(reason) => {
                        if items.len() > 1 {
                            return Err(DecodeError::too_long(items));
                        }
                        reason
                    },
                    Err(e) => {
                        return Err(e);
                    },
                }
            },
            _ => {
                return Err(DecodeError::not_a(j, "struct PromptResult"));
            },
        };
        Ok(PromptResult { stop_reason })
    }
}

impl ImplementationView {
    /// The program a value describes.
    pub open spec fn read(m: JsonModel) -> Result<ImplementationView, DecodeErrorView> {
        let name = field(m, false, 0, "name"@);
        let title = maybe_text_of(field(m, false, 1, "title"@));
        let version = maybe_text_of(field(m, false, 2, "version"@));
        if !(m is Object) && !(m is Array) {
            Err(DecodeErrorView::not_a(m, "struct Implementation"@))
        } else if m is Array && name is None {
            Err(
                DecodeErrorView::InvalidLength {
                    length: 0,
                    expected: "struct Implementation with 3 elements"@,
                },
            )
        } else if name is Some && text_of(name->Some_0) is Err {
            Err(text_of(name->Some_0)->Err_0)
        } else if title is Err {
            Err(title->Err_0)
        } else if version is Err {
            Err(version->Err_0)
        } else if name is None {
            Err(DecodeErrorView::MissingField { name: "name"@ })
        } else if m is Array && m->Array_0.len() > 3 {
            Err(DecodeErrorView::too_long(m->Array_0))
        } else {
            Ok(
                ImplementationView {
                    name: text_of(name->Some_0)->Ok_0,
                    title: title->Ok_0,
                    version: version->Ok_0,
                },
            )
        }
    }
}

impl Implementation {
    pub fn from_json(j: &Json) -> (r: Result<Implementation, DecodeError>)
        ensures
            replies_as(r, ImplementationView::read(j@)),
    {
        match j {
            Json::Object(_) => {},
            Json::Array(items) => {
                if items.len() == 0 {
                    return Err(DecodeError::too_short("struct Implementation with 3 elements"));
                }
            },
            _ => {
                return Err(DecodeError::not_a(j, "struct Implementation"));
            },
        }
        let name: Option<String> = match get_field(j, false, 0, "name") {
            Some(v) => match take_text(v) {
                Ok(s) => Some(s),
                Err(e) => {
                    return Err(e);
                },
            },
            None => None,
        };
        let title: Option<String> = match take_maybe_text(get_field(j, false, 1, "title")) {
            Ok(t) => t,
            Err(e) => {
                return Err(e);
            },
        };
        let version: Option<String> = match take_maybe_text(get_field(j, false, 2, "version")) {
            Ok(t) => t,
            Err(e) => {
                return Err(e);
            },
        };
        let name: String = match name {
            Some(name) => name,
            None => {
                return Err(DecodeError::missing("name"));
            },
        };
        if let Json::Array(items) = j {
            if items.len() > 3 {
                return Err(DecodeError::too_long(items));
            }
        }
        Ok(Implementation { name, title, version })
    }
}

/// The program that a field describes, if it describes one.
pub open spec fn maybe_implementation(v: Option<JsonModel>) -> Result<
    Option<ImplementationView>,
    DecodeErrorView,
> {
    match v {
        None => Ok(None),
        Some(JsonModel::Null) => Ok(None),
        Some(m) => match ImplementationView::read(m) {
            Ok(i) => Ok(Some(i)),
            Err(e) => Err(e),
        },
    }
}

impl InitializeResultView {
    /// The handshake that a reply completes. The version comes first in a list, and
    /// last of the keys in an object.
    pub open spec fn read(m: JsonModel) -> Result<InitializeResultView, DecodeErrorView> {
        let version = field(m, false, 0, "protocolVersion"@);
        let capabilities = field(m, false, 1, "agentCapabilities"@);
        let info = maybe_implementation(field(m, false, 2, "agentInfo"@));
        let methods = values_of(field(m, false, 3, "authMethods"@));
        if !(m is Object) && !(m is Array) {
            Err(DecodeErrorView::not_a(m, "struct InitializeResult"@))
        } else if m is Array && version is None {
            Err(
                DecodeErrorView::InvalidLength {
                    length: 0,
                    expected: "struct InitializeResult with 4 elements"@,
                },
            )
        } else if m is Array && u32_of(version->Some_0) is Err {
            Err(u32_of(version->Some_0)->Err_0)
        } else if info is Err {
            Err(info->Err_0)
        } else if methods is Err {
            Err(methods->Err_0)
        } else if version is None {
            Err(DecodeErrorView::MissingField { name: "protocolVersion"@ })
        } else if u32_of(version->Some_0) is Err {
            Err(u32_of(version->Some_0)->Err_0)
        } else if m is Array && m->Array_0.len() > 4 {
            Err(DecodeErrorView::too_long(m->Array_0))
        } else {
            Ok(
                InitializeResultView {
                    protocol_version: u32_of(version->Some_0)->Ok_0,
                    agent_capabilities: match capabilities {
                        Some(c) => c,
                        None => JsonModel::Null,
                    },
                    agent_info: info->Ok_0,
                    auth_methods: methods->Ok_0,
                },
            )
        }
    }
}

impl InitializeResult {
    pub fn from_json(j: &Json) -> (r: Result<InitializeResult, DecodeError>)
        ensures
            replies_as(r, InitializeResultView::read(j@)),
    {
        match j {
            Json::Object(_) => {},
            Json::Array(items) => {
                if items.len() == 0 {
                    return Err(DecodeError::too_short("struct InitializeResult with 4 elements"));
                }
                if let Err(e) = take_u32(&items[0]) {
                    return Err(e);
                }
            },
            _ => {
                return Err(DecodeError::not_a(j, "struct InitializeResult"));
            },
        }
        let agent_capabilities: Json = match get_field(j, false, 1, "agentCapabilities") {
            Some(c) => c.clone(),
            None => Json::Null,
        };
        let agent_info: Option<Implementation> = match get_field(j, false, 2, "agentInfo") {
            None => None,
            Some(Json::Null) => None,
            Some(v) => match Implementation::from_json(v) {
                Ok(i) => Some(i),
                Err(e) => {
                    return Err(e);
                },
            },
        };
        let auth_methods: Vec<Json> = match take_values(get_field(j, false, 3, "authMethods")) {
            Ok(items) => items,
            Err(e) => {
                return Err(e);
            },
        };
        let protocol_version: u32 = match get_field(j, false, 0, "protocolVersion") {
            Some(v) => match take_u32(v) {
                Ok(n) => n,
                Err(e) => {
                    return Err(e);
                },
            },
            None => {
                return Err(DecodeError::missing("protocolVersion"));
            },
        };
        if let Json::Array(items) = j {
            if items.len() > 4 {
                return Err(DecodeError::too_long(items));
            }
        }
        Ok(InitializeResult { protocol_version, agent_capabilities, agent_info, auth_methods })
    }
}

} // verus!
