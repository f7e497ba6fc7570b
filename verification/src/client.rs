//! The client's side of a connection: numbering requests, telling messages
//! apart, answering what the agent asks, and waking whoever waits for a reply.
//!
//! Nothing here touches a process or a stream. Each function takes what was
//! read, or what is wanted, and says what to write and whom to wake; `W` is
//! whatever the caller uses to wake a thread that waits for a reply.

use crate::decode::{DecodeError, DecodeErrorView};
use crate::json::{as_i64_model, as_str_model, as_u64_model, lookup, Json, JsonModel};
use crate::protocol::{
    CancelParams, ClientCapabilities, ContentBlock, ContentBlockView, FsCapability,
    Implementation, ImplementationView, InitializeParams, InitializeResult,
    InitializeResultView, NewSessionParams, NewSessionResult, PermissionKind, PermissionOption,
    PermissionOptionView, PermissionPolicy, PromptParams, PromptResult, RequestPermissionParams,
    RequestPermissionParamsView, SessionNotification, SessionNotificationView, StopReason,
    option_views, PROTOCOL_VERSION,
};
use crate::text::{
    decimal, decimal_text, join2, join3, same_text, signed_decimal, signed_decimal_text, trim,
    trimmed,
};
use crate::wire::{carries, parsed};
use std::collections::HashMap;
use vstd::prelude::*;
use vstd::std_specs::iter::IteratorSpec;

verus! {

broadcast use vstd::std_specs::hash::group_hash_axioms;

// -------------------------------------------------------------------- errors

/// An error that the agent answered a request with.
#[derive(Debug, Clone, PartialEq)]
pub struct RpcErr {
    pub code: i64,
    pub message: String,
}

pub struct RpcErrView {
    pub code: int,
    pub message: Seq<char>,
}

impl View for RpcErr {
    type V = RpcErrView;

    open spec fn view(&self) -> RpcErrView {
        RpcErrView { code: self.code as int, message: self.message@ }
    }
}

impl RpcErrView {
    /// What is said of the error.
    pub open spec fn description(self) -> Seq<char> {
        "agent error "@ + signed_decimal(self.code) + ": "@ + self.message
    }
}

impl RpcErr {
    pub fn describe(&self) -> (r: String)
        ensures
            r@ == self@.description(),
    {
        let head = join3("agent error ", signed_decimal_text(self.code).as_str(), ": ");
        join2(head.as_str(), self.message.as_str())
    }
}

/// How a request was answered.
pub type Outcome = Result<Json, RpcErr>;

pub open spec fn outcome_view(o: Outcome) -> Result<JsonModel, RpcErrView> {
    match o {
        Ok(j) => Ok(j@),
        Err(e) => Err(e@),
    }
}

/// Why a call failed.
#[derive(Debug, Clone, PartialEq)]
pub enum ClientError {
    /// The agent answered with an error.
    Rpc(RpcErr),
    /// No answer came in time.
    TimedOut { waited: String, method: String },
    /// The answer is not what the protocol calls for.
    Reply(DecodeError),
    /// The agent speaks a later version of the protocol.
    ProtocolTooNew { agent: u32 },
}

pub enum ClientErrorView {
    Rpc(RpcErrView),
    TimedOut { waited: Seq<char>, method: Seq<char> },
    Reply(DecodeErrorView),
    ProtocolTooNew { agent: u32 },
}

impl View for ClientError {
    type V = ClientErrorView;

    open spec fn view(&self) -> ClientErrorView {
        match self {
            ClientError::Rpc(e) => ClientErrorView::Rpc(e@),
            ClientError::TimedOut { waited, method } => ClientErrorView::TimedOut {
                waited: waited@,
                method: method@,
            },
            ClientError::Reply(e) => ClientErrorView::Reply(e@),
            ClientError::ProtocolTooNew { agent } => ClientErrorView::ProtocolTooNew {
                agent: *agent,
            },
        }
    }
}

impl ClientErrorView {
    /// What is said of the error.
    pub open spec fn description(self) -> Seq<char> {
        match self {
            ClientErrorView::Rpc(e) => e.description(),
            ClientErrorView::TimedOut { waited, method } => "timed out after "@ + waited
                + " waiting for `"@ + method + "`"@,
            ClientErrorView::Reply(e) => e.description(),
            ClientErrorView::ProtocolTooNew { agent } => "agent speaks protocol v"@ + decimal(
                agent as nat,
            ) + ", this client implements v"@ + decimal(PROTOCOL_VERSION as nat),
        }
    }
}

impl ClientError {
    pub fn describe(&self) -> (r: String)
        ensures
            r@ == self@.description(),
    {
        match self {
            ClientError::Rpc(e) => e.describe(),
            ClientError::TimedOut { waited, method } => {
                let head = join3("timed out after ", waited.as_str(), " waiting for `");
                join3(head.as_str(), method.as_str(), "`")
            },
            ClientError::Reply(e) => e.describe(),
            ClientError::ProtocolTooNew { agent } => {
                let head = join2("agent speaks protocol v", decimal_text(*agent as u64).as_str());
                join3(
                    head.as_str(),
                    ", this client implements v",
                    decimal_text(PROTOCOL_VERSION as u64).as_str(),
                )
            },
        }
    }
}

/// What is said when an agent could not be started.
pub fn spawn_failure(program: &str, error: &str) -> (r: String)
    ensures
        r@ == "could not start agent `"@ + program@ + "`: "@ + error@,
{
    let head = join3("could not start agent `", program, "`: ");
    join2(head.as_str(), error)
}

// -------------------------------------------------------------------- events

/// What the client emits while a turn runs.
#[derive(Debug, Clone)]
pub enum AgentEvent {
    /// The agent narrating: a message chunk, a tool call, a plan.
    Update(SessionNotification),
    /// A line for the log: the agent's own, or an answer given on its behalf.
    Log(String),
    /// The agent process ended. Nothing more will arrive: this is the last event.
    Exited(Option<i32>),
}

pub enum AgentEventView {
    Update(SessionNotificationView),
    Log(Seq<char>),
    Exited(Option<i32>),
}

impl View for AgentEvent {
    type V = AgentEventView;

    open spec fn view(&self) -> AgentEventView {
        match self {
            AgentEvent::Update(n) => AgentEventView::Update(n@),
            AgentEvent::Log(s) => AgentEventView::Log(s@),
            AgentEvent::Exited(c) => AgentEventView::Exited(*c),
        }
    }
}

pub open spec fn event_view(e: Option<AgentEvent>) -> Option<AgentEventView> {
    match e {
        Some(e) => Some(e@),
        None => None,
    }
}

/// The event that brings a line for the log.
pub open spec fn log_event(line: Option<Seq<char>>) -> Option<AgentEventView> {
    match line {
        Some(line) => Some(AgentEventView::Log(line)),
        None => None,
    }
}

// ------------------------------------------------------------------- messages

/// A message that calls a method and wants an answer.
pub open spec fn request_message(id: u64, method: Seq<char>, params: JsonModel) -> JsonModel {
    JsonModel::Object(
        Map::empty()
            .insert("jsonrpc"@, JsonModel::Str("2.0"@))
            .insert("id"@, JsonModel::Integer(id as int))
            .insert("method"@, JsonModel::Str(method))
            .insert("params"@, params),
    )
}

/// A message that calls a method and wants no answer.
pub open spec fn notification_message(method: Seq<char>, params: JsonModel) -> JsonModel {
    JsonModel::Object(
        Map::empty()
            .insert("jsonrpc"@, JsonModel::Str("2.0"@))
            .insert("method"@, JsonModel::Str(method))
            .insert("params"@, params),
    )
}

/// A message that answers the request numbered `id`: `key` is `result` or
/// `error`.
pub open spec fn reply_message(id: JsonModel, key: Seq<char>, value: JsonModel) -> JsonModel {
    JsonModel::Object(
        Map::empty()
            .insert("jsonrpc"@, JsonModel::Str("2.0"@))
            .insert("id"@, id)
            .insert(key, value),
    )
}

/// A message from the agent.
#[derive(Debug, PartialEq)]
pub enum Incoming {
    /// The agent asks something and waits for the answer.
    Request { method: String, id: Json, params: Option<Json> },
    /// The agent tells something.
    Notification { method: String, params: Option<Json> },
    /// The agent answers a request.
    Response { id: u64, outcome: Outcome },
    /// A message that is none of these, or no message.
    Unrecognised,
    /// Something that is not JSON.
    Unreadable,
}

pub enum IncomingView {
    Request { method: Seq<char>, id: JsonModel, params: Option<JsonModel> },
    Notification { method: Seq<char>, params: Option<JsonModel> },
    Response { id: u64, outcome: Result<JsonModel, RpcErrView> },
    Unrecognised,
    Unreadable,
}

pub open spec fn optional_model(j: Option<Json>) -> Option<JsonModel> {
    match j {
        Some(j) => Some(j@),
        None => None,
    }
}

impl View for Incoming {
    type V = IncomingView;

    open spec fn view(&self) -> IncomingView {
        match self {
            Incoming::Request { method, id, params } => IncomingView::Request {
                method: method@,
                id: id@,
                params: optional_model(*params),
            },
            Incoming::Notification { method, params } => IncomingView::Notification {
                method: method@,
                params: optional_model(*params),
            },
            Incoming::Response { id, outcome } => IncomingView::Response {
                id: *id,
                outcome: outcome_view(*outcome),
            },
            Incoming::Unrecognised => IncomingView::Unrecognised,
            Incoming::Unreadable => IncomingView::Unreadable,
        }
    }
}

/// The number in an error, -1 where there is none.
pub open spec fn error_code(e: JsonModel) -> int {
    match lookup(e, "code"@) {
        Some(c) => match as_i64_model(c) {
            Some(n) => n as int,
            None => -1,
        },
        None => -1,
    }
}

/// The text in an error, `unknown` where there is none.
pub open spec fn error_text(e: JsonModel) -> Seq<char> {
    match lookup(e, "message"@) {
        Some(m) => match as_str_model(m) {
            Some(s) => s,
            None => "unknown"@,
        },
        None => "unknown"@,
    }
}

/// What a response says: an error where it carries one that is not `null`, and
/// else its result, which is `null` where it carries none.
pub open spec fn response_outcome(m: JsonModel) -> Result<JsonModel, RpcErrView> {
    let success: Result<JsonModel, RpcErrView> = Ok(
        match lookup(m, "result"@) {
            Some(r) => r,
            None => JsonModel::Null,
        },
    );
    match lookup(m, "error"@) {
        Some(e) => if e == JsonModel::Null {
            success
        } else {
            Err(RpcErrView { code: error_code(e), message: error_text(e) })
        },
        None => success,
    }
}

/// What kind of message a value is. What has a method is a call, with or
/// without an id: a request carries both, so a response is told by its id only
/// where there is no method.
pub open spec fn classified(m: JsonModel) -> IncomingView {
    let method = match lookup(m, "method"@) {
        Some(v) => as_str_model(v),
        None => None,
    };
    match method {
        Some(method) => match lookup(m, "id"@) {
            Some(id) => IncomingView::Request { method, id, params: lookup(m, "params"@) },
            None => IncomingView::Notification { method, params: lookup(m, "params"@) },
        },
        None => match lookup(m, "id"@) {
            Some(id) => match as_u64_model(id) {
                Some(id) => IncomingView::Response { id, outcome: response_outcome(m) },
                None => IncomingView::Unrecognised,
            },
            None => IncomingView::Unrecognised,
        },
    }
}

fn cloned_member(j: &Json, key: &str) -> (r: Option<Json>)
    ensures
        optional_model(r) == lookup(j@, key@),
{
    match j.get(key) {
        Some(v) => Some(v.clone()),
        None => None,
    }
}

fn read_outcome(msg: &Json) -> (r: Outcome)
    ensures
        outcome_view(r) == response_outcome(msg@),
{
    if let Some(e) = msg.get("error") {
        if !e.is_null() {
            let code: i64 = match e.get("code") {
                Some(c) => match c.as_i64() {
                    Some(n) => n,
                    None => -1,
                },
                None => -1,
            };
            let message: String = match e.get("message") {
                Some(m) => match m.as_str() {
                    Some(s) => s.to_owned(),
                    None => "unknown".to_owned(),
                },
                None => "unknown".to_owned(),
            };
            return Err(RpcErr { code, message });
        }
    }
    match msg.get("result") {
        Some(v) => Ok(v.clone()),
        None => Ok(Json::Null),
    }
}

impl Incoming {
    /// Tells what kind of message a value is.
    pub fn classify(msg: &Json) -> (r: Incoming)
        ensures
            r@ == classified(msg@),
    {
        let method: Option<&str> = match msg.get("method") {
            Some(v) => v.as_str(),
            None => None,
        };
        match method {
            Some(method) => match msg.get("id") {
                Some(id) => Incoming::Request {
                    method: method.to_owned(),
                    id: id.clone(),
                    params: cloned_member(msg, "params"),
                },
                None => Incoming::Notification {
                    method: method.to_owned(),
                    params: cloned_member(msg, "params"),
                },
            },
            None => match msg.get("id") {
                Some(id) => match id.as_u64() {
                    Some(id) => Incoming::Response { id, outcome: read_outcome(msg) },
                    None => Incoming::Unrecognised,
                },
                None => Incoming::Unrecognised,
            },
        }
    }
}

// ---------------------------------------------------------------- permissions

/// Whether choosing an option would grant something. An option of no kind, or of
/// a kind this client has not heard of, grants nothing it could vouch for.
pub open spec fn grants(option: PermissionOptionView) -> bool {
    match option.kind {
        Some(k) => k.allows(),
        None => false,
    }
}

/// Whether choosing an option would grant something once and no more.
pub open spec fn grants_once(option: PermissionOptionView) -> bool {
    option.kind == Some(PermissionKind::AllowOnce)
}

/// The first option, from `from` on, that grants something once and no more.
pub open spec fn first_single_use(options: Seq<PermissionOptionView>, from: int) -> Option<int>
    decreases options.len() - from,
{
    if from < 0 || from >= options.len() {
        None
    } else if grants_once(options[from]) {
        Some(from)
    } else {
        first_single_use(options, from + 1)
    }
}

/// The first option, from `from` on, that grants nothing.
pub open spec fn first_refusal(options: Seq<PermissionOptionView>, from: int) -> Option<int>
    decreases options.len() - from,
{
    if from < 0 || from >= options.len() {
        None
    } else if !grants(options[from]) {
        Some(from)
    } else {
        first_refusal(options, from + 1)
    }
}

/// Which of the options offered a policy chooses, if any suits it. Where a policy
/// finds nothing to grant it refuses, and where nothing offered is a refusal it
/// chooses nothing.
pub open spec fn chosen(options: Seq<PermissionOptionView>, policy: PermissionPolicy) -> Option<
    int,
> {
    match policy {
        PermissionPolicy::DenyAll => first_refusal(options, 0),
        PermissionPolicy::AllowOnce => match first_single_use(options, 0) {
            Some(i) => Some(i),
            None => first_refusal(options, 0),
        },
    }
}

fn option_grants(option: &PermissionOption) -> (r: bool)
    ensures
        r == grants(option@),
{
    match option.kind {
        Some(k) => k.is_allow(),
        None => false,
    }
}

fn find_single_use(options: &Vec<PermissionOption>) -> (r: Option<usize>)
    ensures
        match r {
            Some(i) => first_single_use(option_views(options@), 0) == Some(i as int),
            None => first_single_use(option_views(options@), 0) is None,
        },
{
    let ghost views = option_views(options@);
    let mut i: usize = 0;
    while i < options.len()
        invariant
            i <= options@.len(),
            views == option_views(options@),
            first_single_use(views, 0) == first_single_use(views, i as int),
        decreases options.len() - i,
    {
        if let Some(PermissionKind::AllowOnce) = options[i].kind {
            return Some(i);
        }
        i = i + 1;
    }
    None
}

fn find_refusal(options: &Vec<PermissionOption>) -> (r: Option<usize>)
    ensures
        match r {
            Some(i) => first_refusal(option_views(options@), 0) == Some(i as int),
            None => first_refusal(option_views(options@), 0) is None,
        },
{
    let ghost views = option_views(options@);
    let mut i: usize = 0;
    while i < options.len()
        invariant
            i <= options@.len(),
            views == option_views(options@),
            first_refusal(views, 0) == first_refusal(views, i as int),
        decreases options.len() - i,
    {
        if !option_grants(&options[i]) {
            return Some(i);
        }
        i = i + 1;
    }
    None
}

/// Which of the options offered to choose.
pub fn choose_option(options: &Vec<PermissionOption>, policy: PermissionPolicy) -> (r: Option<
    usize,
>)
    ensures
        match r {
            Some(i) => i < options@.len() && chosen(option_views(options@), policy) == Some(
                i as int,
            ),
            None => chosen(option_views(options@), policy) is None,
        },
{
    let found: Option<usize> = match policy {
        PermissionPolicy::DenyAll => find_refusal(options),
        PermissionPolicy::AllowOnce => match find_single_use(options) {
            Some(i) => Some(i),
            None => find_refusal(options),
        },
    };
    proof {
        lemma_chosen_is_offered(option_views(options@), policy);
    }
    found
}

pub(crate) proof fn lemma_first_single_use(options: Seq<PermissionOptionView>, from: int)
    ensures
        first_single_use(options, from) matches Some(i) ==> from <= i < options.len() && grants_once(
            options[i],
        ) && forall|j: int| from <= j < i ==> !grants_once(#[trigger] options[j]),
        first_single_use(options, from) is None && from >= 0 ==> forall|j: int|
            from <= j < options.len() ==> !grants_once(#[trigger] options[j]),
    decreases options.len() - from,
{
    if 0 <= from < options.len() && !grants_once(options[from]) {
        lemma_first_single_use(options, from + 1);
    }
}

pub(crate) proof fn lemma_first_refusal(options: Seq<PermissionOptionView>, from: int)
    ensures
        first_refusal(options, from) matches Some(i) ==> from <= i < options.len() && !grants(
            options[i],
        ) && forall|j: int| from <= j < i ==> grants(#[trigger] options[j]),
        first_refusal(options, from) is None && from >= 0 ==> forall|j: int|
            from <= j < options.len() ==> grants(#[trigger] options[j]),
    decreases options.len() - from,
{
    if 0 <= from < options.len() && grants(options[from]) {
        lemma_first_refusal(options, from + 1);
    }
}

/// What is chosen is one of the options the agent offered, never an invention.
pub proof fn lemma_chosen_is_offered(options: Seq<PermissionOptionView>, policy: PermissionPolicy)
    ensures
        chosen(options, policy) matches Some(i) ==> 0 <= i < options.len(),
{
    lemma_first_single_use(options, 0);
    lemma_first_refusal(options, 0);
}

/// Denying all never grants anything, whatever is offered.
pub proof fn lemma_deny_all_never_grants(options: Seq<PermissionOptionView>)
    ensures
        chosen(options, PermissionPolicy::DenyAll) matches Some(i) ==> !grants(options[i]),
        chosen(options, PermissionPolicy::DenyAll) is None <==> forall|j: int|
            0 <= j < options.len() ==> grants(#[trigger] options[j]),
{
    lemma_first_refusal(options, 0);
}

/// Allowing once grants exactly where a single-use grant is offered, and then
/// that; it never grants for good.
pub proof fn lemma_allow_once_grants_single_use(options: Seq<PermissionOptionView>)
    ensures
        chosen(options, PermissionPolicy::AllowOnce) matches Some(i) ==> (grants(options[i])
            ==> grants_once(options[i])),
        (exists|j: int| 0 <= j < options.len() && grants_once(#[trigger] options[j])) <==> (chosen(
            options,
            PermissionPolicy::AllowOnce,
        ) matches Some(i) && grants_once(options[i])),
{
    lemma_first_single_use(options, 0);
    lemma_first_refusal(options, 0);
}

/// What a permission request asks for, if its parameters can be read.
pub open spec fn permission_request(params: Option<JsonModel>) -> Option<
    RequestPermissionParamsView,
> {
    match params {
        Some(p) => RequestPermissionParamsView::read(p),
        None => None,
    }
}

/// What a permission request is about.
pub open spec fn permission_subject(request: Option<RequestPermissionParamsView>) -> Seq<char> {
    match request {
        Some(p) => match p.tool_call {
            Some(t) => match t.title {
                Some(title) => title,
                None => "an operation"@,
            },
            None => "an operation"@,
        },
        None => "an operation"@,
    }
}

/// The options a permission request offers.
pub open spec fn permission_options(request: Option<RequestPermissionParamsView>) -> Seq<
    PermissionOptionView,
> {
    match request {
        Some(p) => p.options,
        None => Seq::empty(),
    }
}

/// The result that says which option was chosen.
pub open spec fn selected_outcome(option_id: Seq<char>) -> JsonModel {
    JsonModel::Object(
        Map::empty().insert(
            "outcome"@,
            JsonModel::Object(
                Map::empty()
                    .insert("outcome"@, JsonModel::Str("selected"@))
                    .insert("optionId"@, JsonModel::Str(option_id)),
            ),
        ),
    )
}

/// The result that says no option was chosen.
pub open spec fn cancelled_outcome() -> JsonModel {
    JsonModel::Object(
        Map::empty().insert(
            "outcome"@,
            JsonModel::Object(Map::empty().insert("outcome"@, JsonModel::Str("cancelled"@))),
        ),
    )
}

/// The answer to a permission request.
pub open spec fn permission_answer(
    request: Option<RequestPermissionParamsView>,
    policy: PermissionPolicy,
) -> JsonModel {
    let options = permission_options(request);
    match chosen(options, policy) {
        Some(i) => selected_outcome(options[i].option_id),
        None => cancelled_outcome(),
    }
}

/// What the log says of the answer to a permission request.
pub open spec fn permission_log(
    request: Option<RequestPermissionParamsView>,
    policy: PermissionPolicy,
) -> Seq<char> {
    let options = permission_options(request);
    let what = permission_subject(request);
    match chosen(options, policy) {
        Some(i) => if grants(options[i]) {
            "permission granted for "@ + what
        } else {
            "permission refused for "@ + what
        },
        None => if options.len() == 0 {
            "permission request for "@ + what + " had no options; cancelled"@
        } else {
            "permission refused for "@ + what
        },
    }
}

/// The error that answers a method this client does not have.
pub open spec fn unsupported_error(method: Seq<char>) -> JsonModel {
    JsonModel::Object(
        Map::empty()
            .insert("code"@, JsonModel::Integer(-32601))
            .insert("message"@, JsonModel::Str(method + " is not supported by this client"@)),
    )
}

/// Whether a method is the one that asks for permission.
pub open spec fn asks_permission(method: Seq<char>) -> bool {
    method == "session/request_permission"@
}

/// The key of the member that answers a request.
pub open spec fn answer_key(method: Seq<char>) -> Seq<char> {
    if asks_permission(method) {
        "result"@
    } else {
        "error"@
    }
}

/// The value of the member that answers a request.
pub open spec fn answer_value(
    method: Seq<char>,
    params: Option<JsonModel>,
    policy: PermissionPolicy,
) -> JsonModel {
    if asks_permission(method) {
        permission_answer(permission_request(params), policy)
    } else {
        unsupported_error(method)
    }
}

/// What the log says of the answer to a request, if anything.
pub open spec fn answer_log(
    method: Seq<char>,
    params: Option<JsonModel>,
    policy: PermissionPolicy,
) -> Option<Seq<char>> {
    if asks_permission(method) {
        Some(permission_log(permission_request(params), policy))
    } else {
        None
    }
}

/// What answers a request: the members of the reply beside its id, and a line for
/// the log.
#[derive(Debug)]
pub struct Answer {
    pub body: Vec<(String, Json)>,
    pub log: Option<AgentEvent>,
}

pub(crate) fn selected(option_id: &str) -> (r: Json)
    ensures
        r@ == selected_outcome(option_id@),
{
    let outcome = Json::object()
        .with("outcome", Json::text("selected"))
        .with("optionId", Json::text(option_id));
    Json::object().with("outcome", outcome)
}

pub(crate) fn cancelled() -> (r: Json)
    ensures
        r@ == cancelled_outcome(),
{
    let outcome = Json::object().with("outcome", Json::text("cancelled"));
    Json::object().with("outcome", outcome)
}

/// Answers a permission request, and says for the log what the answer was.
pub fn answer_permission(
    request: Option<RequestPermissionParams>,
    policy: PermissionPolicy,
) -> (r: (Json, String))
    ensures
        r.0@ == permission_answer(optional_request(request), policy),
        r.1@ == permission_log(optional_request(request), policy),
{
    let ghost asked = optional_request(request);
    let what: String = match &request {
        Some(p) => match &p.tool_call {
            Some(t) => match &t.title {
                Some(title) => title.clone(),
                None => "an operation".to_owned(),
            },
            None => "an operation".to_owned(),
        },
        None => "an operation".to_owned(),
    };
    let options: Vec<PermissionOption> = match request {
        Some(p) => p.options,
        None => Vec::new(),
    };
    assert(option_views(options@) =~= permission_options(asked));
    match choose_option(&options, policy) {
        Some(i) => {
            let option = &options[i];
            let log = if option_grants(option) {
                join2("permission granted for ", what.as_str())
            } else {
                join2("permission refused for ", what.as_str())
            };
            (selected(option.option_id.as_str()), log)
        },
        None => {
            let log = if options.len() == 0 {
                join3("permission request for ", what.as_str(), " had no options; cancelled")
            } else {
                join2("permission refused for ", what.as_str())
            };
            (cancelled(), log)
        },
    }
}

pub open spec fn optional_request(r: Option<RequestPermissionParams>) -> Option<
    RequestPermissionParamsView,
> {
    match r {
        Some(p) => Some(p@),
        None => None,
    }
}

/// Answers a request from the agent.
///
/// Every request gets an answer: one left unanswered blocks the agent for as long
/// as it is willing to wait, and no error ever shows.
pub fn answer_request(method: &str, params: Option<&Json>, policy: PermissionPolicy) -> (r: Answer)
    ensures
        r.body@.len() == 1,
        r.body@[0].0@ == answer_key(method@),
        r.body@[0].1@ == answer_value(
            method@,
            match params {
                Some(p) => Some(p@),
                None => None,
            },
            policy,
        ),
        event_view(r.log) == log_event(
            answer_log(
                method@,
                match params {
                    Some(p) => Some(p@),
                    None => None,
                },
                policy,
            ),
        ),
{
    if same_text(method, "session/request_permission") {
        let request: Option<RequestPermissionParams> = match params {
            Some(p) => RequestPermissionParams::from_json(p),
            None => None,
        };
        let (result, log) = answer_permission(request, policy);
        let mut body: Vec<(String, Json)> = Vec::new();
        body.push(("result".to_owned(), result));
        Answer { body, log: Some(AgentEvent::Log(log)) }
    } else {
        let message = join2(method, " is not supported by this client");
        let error = Json::object()
            .with("code", Json::signed(-32601))
            .with("message", Json::Str(message));
        let mut body: Vec<(String, Json)> = Vec::new();
        body.push(("error".to_owned(), error));
        Answer { body, log: None }
    }
}

// --------------------------------------------------------------------- client

/// The client's side of a connection to an agent.
///
/// Requests are numbered from 1 up. Each that has not been answered yet has a
/// waiter under its number.
pub struct AcpClient<W> {
    next_id: u64,
    pending: HashMap<u64, W>,
    agent_info: Option<Implementation>,
    permission_policy: PermissionPolicy,
    closed: bool,
}

#[verifier::ext_equal]
pub struct ClientView<W> {
    /// The number of the next request.
    pub next_id: u64,
    /// Who waits for an answer, by the number of the request.
    pub waiting: Map<u64, W>,
    /// Who the agent is, once the handshake has run.
    pub agent_info: Option<ImplementationView>,
    /// What to do when the agent asks permission. Refuses by default.
    pub policy: PermissionPolicy,
    /// Whether the connection has closed.
    pub closed: bool,
}

impl<W> View for AcpClient<W> {
    type V = ClientView<W>;

    closed spec fn view(&self) -> ClientView<W> {
        ClientView {
            next_id: self.next_id,
            waiting: self.pending@,
            agent_info: match self.agent_info {
                Some(i) => Some(i@),
                None => None,
            },
            policy: self.permission_policy,
            closed: self.closed,
        }
    }
}

/// The number that follows `n`. After the greatest comes 0 again.
pub open spec fn next_number(n: u64) -> u64 {
    if n == u64::MAX {
        0
    } else {
        (n + 1) as u64
    }
}

impl<W> ClientView<W> {
    /// The client before anything was sent.
    pub open spec fn initial() -> ClientView<W> {
        ClientView {
            next_id: 1,
            waiting: Map::empty(),
            agent_info: None,
            policy: PermissionPolicy::DenyAll,
            closed: false,
        }
    }

    /// The client after it sent a request that `waiter` waits for.
    pub open spec fn asking(self, waiter: W) -> ClientView<W> {
        ClientView {
            next_id: next_number(self.next_id),
            waiting: self.waiting.insert(self.next_id, waiter),
            ..self
        }
    }

    /// The client after nobody waits for request `id` any more.
    pub open spec fn without(self, id: u64) -> ClientView<W> {
        ClientView { waiting: self.waiting.remove(id), ..self }
    }

    /// The client after the connection closed: nobody waits any more.
    pub open spec fn shut(self) -> ClientView<W> {
        ClientView { waiting: Map::empty(), closed: true, ..self }
    }

    /// Whether every open request has a number given out since the first.
    pub open spec fn numbered(self) -> bool {
        &&& self.next_id >= 1
        &&& forall|id: u64| #[trigger]
            self.waiting.dom().contains(id) ==> 1 <= id < self.next_id
    }
}

/// What is wrong with a line from the agent.
#[derive(Debug, Clone, Copy, PartialEq, Eq, Structural)]
pub enum Fault {
    /// The line is not JSON.
    Line,
    /// A session update cannot be read.
    Update,
}

/// What to do about a line from the agent.
#[derive(Debug)]
pub enum Received<W> {
    /// Nothing: it says nothing to this client.
    Nothing,
    /// Nothing but to warn: it is not what it should be.
    Malformed(Fault),
    /// Tell the listeners.
    Event(AgentEvent),
    /// Write this line back, and tell the listeners what was answered.
    Reply { line: String, log: Option<AgentEvent> },
    /// Wake whoever waits for this answer.
    Wake { waiter: W, outcome: Outcome },
}

/// The update that a notification brings, if it brings one.
pub open spec fn told(method: Seq<char>, params: Option<JsonModel>) -> Option<
    SessionNotificationView,
> {
    if method == "session/update"@ {
        SessionNotificationView::read(
            match params {
                Some(p) => p,
                None => JsonModel::Null,
            },
        )
    } else {
        None
    }
}

/// What a line from the agent says.
pub open spec fn heard(line: Seq<char>) -> IncomingView {
    if trimmed(line).len() == 0 {
        IncomingView::Unrecognised
    } else {
        match parsed(trimmed(line)) {
            Some(m) => classified(m),
            None => IncomingView::Unreadable,
        }
    }
}

/// Whether `r` is what to do about a message, and `after` the client after it.
///
/// A request is answered: with its own id, by one line, whatever it asks. A
/// response wakes whoever waits for it and nobody else. Once the connection has
/// closed the listeners are told nothing more.
pub open spec fn handled<W>(
    before: ClientView<W>,
    message: IncomingView,
    r: Received<W>,
    after: ClientView<W>,
) -> bool {
    match message {
        IncomingView::Request { method, id, params } => {
            &&& after == before
            &&& r matches Received::Reply { line, log }
            &&& carries(
                line@,
                reply_message(id, answer_key(method), answer_value(method, params, before.policy)),
            )
            &&& event_view(log) == (if before.closed {
                None
            } else {
                log_event(answer_log(method, params, before.policy))
            })
        },
        IncomingView::Notification { method, params } => {
            &&& after == before
            &&& match told(method, params) {
                Some(n) => if before.closed {
                    r is Nothing
                } else {
                    r matches Received::Event(e) && e@ == AgentEventView::Update(n)
                },
                None => if method == "session/update"@ {
                    r == Received::<W>::Malformed(Fault::Update)
                } else {
                    r is Nothing
                },
            }
        },
        IncomingView::Response { id, outcome } => if before.waiting.dom().contains(id) {
            &&& after == before.without(id)
            &&& r matches Received::Wake { waiter, outcome: o }
            &&& waiter == before.waiting[id]
            &&& outcome_view(o) == outcome
        } else {
            after == before && r is Nothing
        },
        IncomingView::Unrecognised => after == before && r is Nothing,
        IncomingView::Unreadable => after == before && r == Received::<W>::Malformed(Fault::Line),
    }
}

/// Somebody to wake because the connection closed.
#[derive(Debug)]
pub struct Woken<W> {
    /// The number of the request that goes unanswered.
    pub id: u64,
    pub waiter: W,
    pub outcome: Outcome,
}

/// What to do when the connection has closed: whom to wake, and what to tell the
/// listeners.
#[derive(Debug)]
pub struct Closed<W> {
    pub woken: Vec<Woken<W>>,
    pub event: Option<AgentEvent>,
}

/// The error that stands for an answer that will never come.
pub open spec fn closed_error() -> RpcErrView {
    RpcErrView { code: -32603, message: "agent closed the connection"@ }
}

/// Whether everyone who waits is woken, once each, with the error that says the
/// connection closed.
pub open spec fn stranded<W>(waiting: Map<u64, W>, woken: Seq<Woken<W>>) -> bool {
    &&& forall|i: int|
        0 <= i < woken.len() ==> {
            &&& waiting.dom().contains((#[trigger] woken[i]).id)
            &&& woken[i].waiter == waiting[woken[i].id]
            &&& outcome_view(woken[i].outcome) == Err::<JsonModel, RpcErrView>(closed_error())
        }
    &&& forall|i: int, j: int|
        0 <= i < j < woken.len() ==> (#[trigger] woken[i]).id != (#[trigger] woken[j]).id
    &&& forall|id: u64| #[trigger]
        waiting.dom().contains(id) ==> exists|i: int|
            0 <= i < woken.len() && (#[trigger] woken[i]).id == id
}

/// What the client says of itself in the handshake: that it can do nothing on
/// the agent's behalf, and who it is.
pub open spec fn handshake_params(version: Seq<char>) -> JsonModel {
    JsonModel::Object(
        Map::empty()
            .insert("protocolVersion"@, JsonModel::Integer(PROTOCOL_VERSION as int))
            .insert(
                "clientCapabilities"@,
                JsonModel::Object(
                    Map::empty()
                        .insert(
                            "fs"@,
                            JsonModel::Object(
                                Map::empty()
                                    .insert("readTextFile"@, JsonModel::Bool(false))
                                    .insert("writeTextFile"@, JsonModel::Bool(false)),
                            ),
                        )
                        .insert("terminal"@, JsonModel::Bool(false)),
                ),
            )
            .insert(
                "clientInfo"@,
                JsonModel::Object(
                    Map::empty()
                        .insert("name"@, JsonModel::Str("lapce"@))
                        .insert("title"@, JsonModel::Str("Lapce"@))
                        .insert("version"@, JsonModel::Str(version)),
                ),
            ),
    )
}

/// What asks for a session.
pub open spec fn session_params(cwd: Seq<char>) -> JsonModel {
    JsonModel::Object(
        Map::empty()
            .insert("cwd"@, JsonModel::Str(cwd))
            .insert("mcpServers"@, JsonModel::Array(Seq::empty())),
    )
}

/// What asks for a turn.
pub open spec fn prompt_params(session_id: Seq<char>, text: Seq<char>) -> JsonModel {
    JsonModel::Object(
        Map::empty()
            .insert("sessionId"@, JsonModel::Str(session_id))
            .insert(
                "prompt"@,
                JsonModel::Array(seq![(ContentBlockView::Text { text }).wire()]),
            ),
    )
}

/// What interrupts a turn.
pub open spec fn cancel_params(session_id: Seq<char>) -> JsonModel {
    JsonModel::Object(Map::empty().insert("sessionId"@, JsonModel::Str(session_id)))
}

fn reply_line(id: Json, body: Vec<(String, Json)>) -> (r: String)
    requires
        body@.len() == 1,
    ensures
        carries(r@, reply_message(id@, body@[0].0@, body@[0].1@)),
{
    let ghost head = Map::<Seq<char>, JsonModel>::empty().insert(
        "jsonrpc"@,
        JsonModel::Str("2.0"@),
    ).insert("id"@, id@);
    let mut reply = Json::object().with("jsonrpc", Json::text("2.0")).with("id", id);
    for member in it: body
        invariant
            it.seq() == body@,
            body@.len() == 1,
            it.index() == 0 ==> reply@ == JsonModel::Object(head),
            it.index() == 1 ==> reply@ == JsonModel::Object(
                head.insert(body@[0].0@, body@[0].1@),
            ),
    {
        let (name, content) = member;
        reply = reply.with(name.as_str(), content);
    }
    reply.into_line()
}

impl<W> AcpClient<W> {
    pub fn new() -> (r: Self)
        ensures
            r@ == ClientView::<W>::initial(),
    {
        AcpClient {
            next_id: 1,
            pending: HashMap::new(),
            agent_info: None,
            permission_policy: PermissionPolicy::default(),
            closed: false,
        }
    }

    /// Who the agent is, once the handshake has run.
    pub fn agent_info(&self) -> (r: Option<&Implementation>)
        ensures
            match r {
                Some(i) => self@.agent_info == Some(i@),
                None => self@.agent_info is None,
            },
    {
        self.agent_info.as_ref()
    }

    /// What to do when the agent asks permission.
    pub fn permission_policy(&self) -> (r: PermissionPolicy)
        ensures
            r == self@.policy,
    {
        self.permission_policy
    }

    /// Whether the connection has closed.
    pub fn is_closed(&self) -> (r: bool)
        ensures
            r == self@.closed,
    {
        self.closed
    }

    /// Numbers a request, enters who waits for it, and gives the line to write.
    pub fn request(&mut self, method: &str, params: Json, waiter: W) -> (r: (u64, String))
        ensures
            r.0 == old(self)@.next_id,
            carries(r.1@, request_message(old(self)@.next_id, method@, params@)),
            final(self)@ == old(self)@.asking(waiter),
    {
        let id = self.next_id;
        self.next_id = id.wrapping_add(1);
        self.pending.insert(id, waiter);
        let message = Json::object()
            .with("jsonrpc", Json::text("2.0"))
            .with("id", Json::unsigned(id))
            .with("method", Json::text(method))
            .with("params", params);
        (id, message.into_line())
    }

    /// The line that tells the agent something.
    pub fn notify(&self, method: &str, params: Json) -> (r: String)
        ensures
            carries(r@, notification_message(method@, params@)),
    {
        Json::object()
            .with("jsonrpc", Json::text("2.0"))
            .with("method", Json::text(method))
            .with("params", params)
            .into_line()
    }

    /// Decides what to do about a message.
    pub fn handle(&mut self, message: Incoming) -> (r: Received<W>)
        ensures
            handled(old(self)@, message@, r, final(self)@),
    {
        match message {
            Incoming::Request { method, id, params } => {
                let answer = answer_request(
                    method.as_str(),
                    params.as_ref(),
                    self.permission_policy,
                );
                let line = reply_line(id, answer.body);
                let log: Option<AgentEvent> = if self.closed {
                    None
                } else {
                    answer.log
                };
                Received::Reply { line, log }
            },
            Incoming::Notification { method, params } => {
                if !same_text(method.as_str(), "session/update") {
                    return Received::Nothing;
                }
                let params: Json = match params {
                    Some(p) => p,
                    None => Json::Null,
                };
                match SessionNotification::from_json(&params) {
                    Some(n) => if self.closed {
                        Received::Nothing
                    } else {
                        Received::Event(AgentEvent::Update(n))
                    },
                    None => Received::Malformed(Fault::Update),
                }
            },
            Incoming::Response { id, outcome } => match self.pending.remove(&id) {
                Some(waiter) => Received::Wake { waiter, outcome },
                None => {
                    assert(self@.waiting =~= old(self)@.waiting);
                    Received::Nothing
                },
            },
            Incoming::Unrecognised => Received::Nothing,
            Incoming::Unreadable => Received::Malformed(Fault::Line),
        }
    }

    /// Decides what to do about a line from the agent.
    pub fn receive(&mut self, line: &str) -> (r: Received<W>)
        ensures
            handled(old(self)@, heard(line@), r, final(self)@),
    {
        let text = trim(line);
        if text.unicode_len() == 0 {
            return Received::Nothing;
        }
        match Json::from_text(text) {
            Some(message) => self.handle(Incoming::classify(&message)),
            None => self.handle(Incoming::Unreadable),
        }
    }

    /// What to tell the listeners of a line that the agent wrote to its log.
    pub fn log(&self, line: String) -> (r: Option<AgentEvent>)
        ensures
            event_view(r) == (if self@.closed {
                None
            } else {
                Some(AgentEventView::Log(line@))
            }),
    {
        if self.closed {
            None
        } else {
            Some(AgentEvent::Log(line))
        }
    }

    /// Says what the agent is allowed from now on.
    pub fn set_permission_policy(&mut self, policy: PermissionPolicy)
        ensures
            final(self)@ == (ClientView { policy, ..old(self)@ }),
    {
        self.permission_policy = policy;
    }

    /// How a request ended for whoever waited for it: with an answer, or with
    /// none in time, and then nobody waits for it any more.
    pub fn settle(&mut self, id: u64, method: &str, waited: &str, answer: Option<Outcome>) -> (r:
        Result<Json, ClientError>)
        ensures
            match answer {
                Some(Ok(j)) => final(self)@ == old(self)@ && r == Ok::<Json, ClientError>(j),
                Some(Err(e)) => final(self)@ == old(self)@ && r == Err::<Json, ClientError>(
                    ClientError::Rpc(e),
                ),
                None => {
                    &&& final(self)@ == old(self)@.without(id)
                    &&& r matches Err(e)
                    &&& e@ == (ClientErrorView::TimedOut { waited: waited@, method: method@ })
                },
            },
    {
        match answer {
            Some(Ok(j)) => Ok(j),
            Some(Err(e)) => Err(ClientError::Rpc(e)),
            None => {
                self.pending.remove(&id);
                Err(
                    ClientError::TimedOut { waited: waited.to_owned(), method: method.to_owned() },
                )
            },
        }
    }

    // ----------------------------------------------------------- protocol

    /// Opens the handshake. `version` is the editor's own.
    pub fn initialize(&mut self, version: &str, waiter: W) -> (r: (u64, String))
        ensures
            r.0 == old(self)@.next_id,
            carries(
                r.1@,
                request_message(old(self)@.next_id, "initialize"@, handshake_params(version@)),
            ),
            final(self)@ == old(self)@.asking(waiter),
    {
        let params = InitializeParams {
            protocol_version: PROTOCOL_VERSION,
            // Both false until the matching handlers exist. Advertising a
            // capability the client cannot service is worse than lacking it: the
            // agent will call it and the turn will stall.
            client_capabilities: ClientCapabilities {
                fs: Some(FsCapability { read_text_file: false, write_text_file: false }),
                terminal: Some(false),
            },
            client_info: Implementation {
                name: "lapce".to_owned(),
                title: Some("Lapce".to_owned()),
                version: Some(version.to_owned()),
            },
        };
        self.request("initialize", params.to_json(), waiter)
    }

    /// Completes the handshake with the agent's reply. An agent of a later
    /// protocol version is refused.
    pub fn initialized(&mut self, reply: &Json) -> (r: Result<InitializeResult, ClientError>)
        ensures
            match InitializeResultView::read(reply@) {
                Err(e) => {
                    &&& final(self)@ == old(self)@
                    &&& r matches Err(f)
                    &&& f@ == ClientErrorView::Reply(e)
                },
                Ok(v) => if v.protocol_version > PROTOCOL_VERSION {
                    &&& final(self)@ == old(self)@
                    &&& r matches Err(f)
                    &&& f@ == (ClientErrorView::ProtocolTooNew { agent: v.protocol_version })
                } else {
                    &&& final(self)@ == (ClientView { agent_info: v.agent_info, ..old(self)@ })
                    &&& r matches Ok(result)
                    &&& result@ == v
                },
            },
    {
        match InitializeResult::from_json(reply) {
            Err(e) => Err(ClientError::Reply(e)),
            Ok(result) => {
                if result.protocol_version > PROTOCOL_VERSION {
                    return Err(ClientError::ProtocolTooNew { agent: result.protocol_version });
                }
                self.agent_info = match &result.agent_info {
                    Some(i) => Some(i.clone()),
                    None => None,
                };
                Ok(result)
            },
        }
    }

    /// Asks for a session in the directory `cwd`.
    pub fn new_session(&mut self, cwd: &str, waiter: W) -> (r: (u64, String))
        ensures
            r.0 == old(self)@.next_id,
            carries(
                r.1@,
                request_message(old(self)@.next_id, "session/new"@, session_params(cwd@)),
            ),
            final(self)@ == old(self)@.asking(waiter),
    {
        let params = NewSessionParams { cwd: cwd.to_owned(), mcp_servers: Vec::new() };
        assert(Json::items_model(params.mcp_servers@) =~= Seq::empty());
        self.request("session/new", params.into_json(), waiter)
    }

    /// The id of the session that the agent's reply opens.
    pub fn session_opened(reply: &Json) -> (r: Result<String, ClientError>)
        ensures
            match NewSessionResult::read(reply@) {
                Ok(id) => r matches Ok(s) && s@ == id,
                Err(e) => r matches Err(f) && f@ == ClientErrorView::Reply(e),
            },
    {
        match NewSessionResult::from_json(reply) {
            Ok(result) => Ok(result.session_id),
            Err(e) => Err(ClientError::Reply(e)),
        }
    }

    /// Asks for a turn on a prompt.
    pub fn prompt(&mut self, session_id: &str, text: &str, waiter: W) -> (r: (u64, String))
        ensures
            r.0 == old(self)@.next_id,
            carries(
                r.1@,
                request_message(
                    old(self)@.next_id,
                    "session/prompt"@,
                    prompt_params(session_id@, text@),
                ),
            ),
            final(self)@ == old(self)@.asking(waiter),
    {
        let mut prompt: Vec<ContentBlock> = Vec::new();
        prompt.push(ContentBlock::text(text));
        let params = PromptParams { session_id: session_id.to_owned(), prompt };
        assert(Seq::new(params.prompt@.len(), |i: int| params.prompt@[i]@.wire()) =~= seq![
            (ContentBlockView::Text { text: text@ }).wire(),
        ]);
        self.request("session/prompt", params.into_json(), waiter)
    }

    /// Why the turn that the agent's reply ends has ended.
    pub fn turn_ended(reply: &Json) -> (r: Result<StopReason, ClientError>)
        ensures
            match PromptResult::read(reply@) {
                Ok(reason) => r == Ok::<StopReason, ClientError>(reason),
                Err(e) => r matches Err(f) && f@ == ClientErrorView::Reply(e),
            },
    {
        match PromptResult::from_json(reply) {
            Ok(result) => Ok(result.stop_reason),
            Err(e) => Err(ClientError::Reply(e)),
        }
    }

    /// Interrupts a running turn. A notification, so it does not wait for the
    /// turn it is interrupting -- which is the entire point.
    pub fn cancel(&self, session_id: &str) -> (r: String)
        ensures
            carries(r@, notification_message("session/cancel"@, cancel_params(session_id@))),
    {
        let params = CancelParams { session_id: session_id.to_owned() };
        self.notify("session/cancel", params.into_json())
    }

    /// The connection is closed: nothing will ever answer an open request, so
    /// everyone who waits is woken with an error. The listeners are told once, and
    /// nothing after that.
    pub fn close(&mut self) -> (r: Closed<W>)
        ensures
            final(self)@ == old(self)@.shut(),
            stranded(old(self)@.waiting, r.woken@),
            r.woken@.len() == old(self)@.waiting.len(),
            event_view(r.event) == (if old(self)@.closed {
                None
            } else {
                Some(AgentEventView::Exited(None))
            }),
    {
        let ghost before = self.pending@;
        let ghost keys = IteratorSpec::remaining(&self.pending.keys()).unref();
        let mut ids: Vec<u64> = Vec::new();
        for id in it: self.pending.keys()
            invariant
                it.seq().unref() == keys,
                ids@ == keys.take(it.index()),
                *self == *old(self),
        {
            ids.push(*id);
            assert(ids@ =~= keys.take(it.index() + 1));
        }
        assert(ids@ =~= keys);
        assert forall|k: int| 0 <= k < ids@.len() implies before.dom().contains(
            #[trigger] ids@[k],
        ) by {
            assert(keys.to_set().contains(keys[k]));
        }
        assert forall|id: u64| before.dom().contains(id) implies ids@.contains(id) by {
            assert(keys.to_set().contains(id));
        }
        let mut woken: Vec<Woken<W>> = Vec::new();
        let mut i: usize = 0;
        while i < ids.len()
            invariant
                i <= ids@.len(),
                ids@.no_duplicates(),
                forall|k: int| 0 <= k < ids@.len() ==> before.dom().contains(#[trigger] ids@[k]),
                forall|k: int|
                    i <= k < ids@.len() ==> self.pending@.dom().contains(#[trigger] ids@[k]),
                forall|id: u64| #[trigger]
                    self.pending@.dom().contains(id) ==> before.dom().contains(id)
                        && self.pending@[id] == before[id],
                forall|id: u64| #[trigger]
                    self.pending@.dom().contains(id) ==> exists|k: int|
                        i <= k < ids@.len() && #[trigger] ids@[k] == id,
                self.next_id == old(self).next_id,
                self.agent_info == old(self).agent_info,
                self.permission_policy == old(self).permission_policy,
                self.closed == old(self).closed,
                woken@.len() == i,
                forall|k: int|
                    0 <= k < i ==> {
                        &&& (#[trigger] woken@[k]).id == ids@[k]
                        &&& woken@[k].waiter == before[ids@[k]]
                        &&& outcome_view(woken@[k].outcome) == Err::<JsonModel, RpcErrView>(
                            closed_error(),
                        )
                    },
            decreases ids.len() - i,
        {
            let id: u64 = ids[i];
            let removed = self.pending.remove(&id);
            if let Some(waiter) = removed {
                let error = RpcErr {
                    code: -32603,
                    message: "agent closed the connection".to_owned(),
                };
                woken.push(Woken { id, waiter, outcome: Err(error) });
            }
            i = i + 1;
        }
        assert(self@.waiting =~= Map::empty());
        assert forall|id: u64| #[trigger] before.dom().contains(id) implies exists|k: int|
            0 <= k < woken@.len() && (#[trigger] woken@[k]).id == id by {
            assert(ids@.contains(id));
            let k = choose|k: int| 0 <= k < ids@.len() && ids@[k] == id;
            assert(woken@[k].id == id);
        }
        let event: Option<AgentEvent> = if self.closed {
            None
        } else {
            Some(AgentEvent::Exited(None))
        };
        self.closed = true;
        Closed { woken, event }
    }
}

} // verus!
