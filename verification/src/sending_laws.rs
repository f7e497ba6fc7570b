//! What the client writes, member by member: each law is about what a call gives,
//! in terms of what it was given.

use crate::client::{
    cancel_params, handshake_params, notification_message, prompt_params, request_message,
    session_params, AcpClient, ClientView,
};
use crate::json::{Json, JsonModel};
use crate::protocol::{
    CancelParams, ClientCapabilities, ContentBlock, ContentBlockView, Implementation,
    InitializeParams, NewSessionParams, PromptParams,
};
use crate::wire::{carries, printed};
use crate::words::lemma_words;
use vstd::prelude::*;

verus! {

/// Whether a value is an object with that member.
pub open spec fn holds(m: JsonModel, key: Seq<char>, value: JsonModel) -> bool {
    m matches JsonModel::Object(o) && o.dom().contains(key) && o[key] == value
}

/// Whether a value is an object without that member.
pub open spec fn lacks(m: JsonModel, key: Seq<char>) -> bool {
    m matches JsonModel::Object(o) && !o.dom().contains(key)
}

/// Whether a value is an object with members of these names and no others.
pub open spec fn only(m: JsonModel, keys: Set<Seq<char>>) -> bool {
    m matches JsonModel::Object(o) && o.dom() =~= keys
}

/// Whether a line is the text of a value, on one line.
pub open spec fn is_line_of(line: Seq<char>, m: JsonModel) -> bool {
    &&& line == printed(m).push('\n')
    &&& !printed(m).contains('\n')
}

/// Whether a line asks for something: it carries a request of version 2.0 with that
/// number, that method and those parameters, and nothing besides.
pub open spec fn asks(line: Seq<char>, id: u64, method: Seq<char>, params: JsonModel) -> bool {
    exists|m: JsonModel|
        {
            &&& #[trigger] is_line_of(line, m)
            &&& holds(m, "jsonrpc"@, JsonModel::Str("2.0"@))
            &&& holds(m, "id"@, JsonModel::Integer(id as int))
            &&& holds(m, "method"@, JsonModel::Str(method))
            &&& holds(m, "params"@, params)
            &&& only(m, set!["jsonrpc"@, "id"@, "method"@, "params"@])
        }
}

/// Whether a line tells something: it carries a message of version 2.0 with that
/// method and those parameters, without a number and with nothing besides.
pub open spec fn tells(line: Seq<char>, method: Seq<char>, params: JsonModel) -> bool {
    exists|m: JsonModel|
        {
            &&& #[trigger] is_line_of(line, m)
            &&& holds(m, "jsonrpc"@, JsonModel::Str("2.0"@))
            &&& holds(m, "method"@, JsonModel::Str(method))
            &&& holds(m, "params"@, params)
            &&& only(m, set!["jsonrpc"@, "method"@, "params"@])
        }
}

/// Whether a client has sent one request more: under the number that was next, for
/// that waiter. Everyone else waits on. After the greatest number comes 0.
pub open spec fn sent<W>(before: ClientView<W>, after: ClientView<W>, id: u64, waiter: W) -> bool {
    &&& id == before.next_id
    &&& before.next_id < u64::MAX ==> after.next_id == before.next_id + 1
    &&& before.next_id == u64::MAX ==> after.next_id == 0
    &&& after.waiting.dom() =~= before.waiting.dom().insert(id)
    &&& after.waiting[id] == waiter
    &&& forall|other: u64| #[trigger]
        before.waiting.dom().contains(other) && other != id ==> after.waiting[other]
            == before.waiting[other]
    &&& after.agent_info == before.agent_info
    &&& after.policy == before.policy
    &&& after.closed == before.closed
}

proof fn lemma_asks(line: Seq<char>, id: u64, method: Seq<char>, params: JsonModel)
    requires
        carries(line, request_message(id, method, params)),
    ensures
        asks(line, id, method, params),
{
    lemma_words();
    let m = request_message(id, method, params);
    assert(line.drop_last() =~= printed(m));
    assert(is_line_of(line, m));
}

proof fn lemma_tells(line: Seq<char>, method: Seq<char>, params: JsonModel)
    requires
        carries(line, notification_message(method, params)),
    ensures
        tells(line, method, params),
{
    lemma_words();
    let m = notification_message(method, params);
    assert(line.drop_last() =~= printed(m));
    assert(is_line_of(line, m));
}

/// A request is written as it was asked for, whatever the method and the parameters.
pub proof fn law_request_is_written<W>(method: &str, params: Json, waiter: W, r: (u64, String))
    ensures
        forall|c: &mut AcpClient<W>| #[trigger]
            call_ensures(AcpClient::<W>::request, (c, method, params, waiter), r) ==> asks(
                r.1@,
                r.0,
                method@,
                params@,
            ) && sent((*c)@, (*final(c))@, r.0, waiter),
{
    assert forall|c: &mut AcpClient<W>| #[trigger]
        call_ensures(AcpClient::<W>::request, (c, method, params, waiter), r) implies asks(
        r.1@,
        r.0,
        method@,
        params@,
    ) && sent((*c)@, (*final(c))@, r.0, waiter) by {
        lemma_asks(r.1@, r.0, method@, params@);
    }
}

/// A notification is written as it was given, whatever the method and the
/// parameters.
pub proof fn law_notification_is_written<W>(
    c: &AcpClient<W>,
    method: &str,
    params: Json,
    r: String,
)
    requires
        call_ensures(AcpClient::<W>::notify, (c, method, params), r),
    ensures
        tells(r@, method@, params@),
{
    lemma_tells(r@, method@, params@);
}

/// Whether a value is a content block of that text and nothing more.
pub open spec fn is_text_block(m: JsonModel, text: Seq<char>) -> bool {
    &&& holds(m, "type"@, JsonModel::Str("text"@))
    &&& holds(m, "text"@, JsonModel::Str(text))
    &&& only(m, set!["type"@, "text"@])
}

/// Whether a value asks for a turn of a session on one block of text.
pub open spec fn asks_for_turn(m: JsonModel, session: Seq<char>, text: Seq<char>) -> bool {
    &&& holds(m, "sessionId"@, JsonModel::Str(session))
    &&& exists|a: Seq<JsonModel>| #[trigger]
        holds(m, "prompt"@, JsonModel::Array(a)) && a.len() == 1 && is_text_block(a[0], text)
    &&& only(m, set!["sessionId"@, "prompt"@])
}

/// A prompt goes out whole: the request names the session, and carries one block,
/// of the very text that was typed.
pub proof fn law_prompt_is_sent_whole<W>(
    session_id: &str,
    text: &str,
    waiter: W,
    r: (u64, String),
)
    ensures
        forall|c: &mut AcpClient<W>| #[trigger]
            call_ensures(AcpClient::<W>::prompt, (c, session_id, text, waiter), r) ==> sent(
                (*c)@,
                (*final(c))@,
                r.0,
                waiter,
            ) && exists|p: JsonModel| #[trigger]
                asks(r.1@, r.0, "session/prompt"@, p) && asks_for_turn(p, session_id@, text@),
{
    assert forall|c: &mut AcpClient<W>| #[trigger]
        call_ensures(AcpClient::<W>::prompt, (c, session_id, text, waiter), r) implies sent(
        (*c)@,
        (*final(c))@,
        r.0,
        waiter,
    ) && exists|p: JsonModel| #[trigger]
        asks(r.1@, r.0, "session/prompt"@, p) && asks_for_turn(p, session_id@, text@) by {
        let p = prompt_params(session_id@, text@);
        lemma_asks(r.1@, r.0, "session/prompt"@, p);
        law_prompt_params(session_id@, text@);
    }
}

/// What asks for a turn names the session, and holds one block: the text.
pub proof fn law_prompt_params(session: Seq<char>, text: Seq<char>)
    ensures
        asks_for_turn(prompt_params(session, text), session, text),
{
    lemma_words();
    let block = (ContentBlockView::Text { text }).wire();
    let a = seq![block];
    assert(is_text_block(a[0], text));
    assert(holds(prompt_params(session, text), "prompt"@, JsonModel::Array(a)));
}

/// Asking for a session names the directory as it was given, and no servers.
pub proof fn law_new_session_names_the_directory<W>(cwd: &str, waiter: W, r: (u64, String))
    ensures
        forall|c: &mut AcpClient<W>| #[trigger]
            call_ensures(AcpClient::<W>::new_session, (c, cwd, waiter), r) ==> sent(
                (*c)@,
                (*final(c))@,
                r.0,
                waiter,
            ) && exists|p: JsonModel| #[trigger]
                asks(r.1@, r.0, "session/new"@, p) && holds(p, "cwd"@, JsonModel::Str(cwd@)) && holds(
                    p,
                    "mcpServers"@,
                    JsonModel::Array(Seq::empty()),
                ) && only(p, set!["cwd"@, "mcpServers"@]),
{
    assert forall|c: &mut AcpClient<W>| #[trigger]
        call_ensures(AcpClient::<W>::new_session, (c, cwd, waiter), r) implies sent(
        (*c)@,
        (*final(c))@,
        r.0,
        waiter,
    ) && exists|p: JsonModel| #[trigger]
        asks(r.1@, r.0, "session/new"@, p) && holds(p, "cwd"@, JsonModel::Str(cwd@)) && holds(
            p,
            "mcpServers"@,
            JsonModel::Array(Seq::empty()),
        ) && only(p, set!["cwd"@, "mcpServers"@]) by {
        lemma_words();
        lemma_asks(r.1@, r.0, "session/new"@, session_params(cwd@));
    }
}

/// Cancelling tells the agent to stop the session that was named. It is no request:
/// it has no number, and nobody waits for it.
pub proof fn law_cancel_names_the_session<W>(c: &AcpClient<W>, session_id: &str, r: String)
    requires
        call_ensures(AcpClient::<W>::cancel, (c, session_id), r),
    ensures
        exists|p: JsonModel| #[trigger]
            tells(r@, "session/cancel"@, p) && holds(p, "sessionId"@, JsonModel::Str(session_id@))
                && only(p, set!["sessionId"@]),
{
    lemma_words();
    lemma_tells(r@, "session/cancel"@, cancel_params(session_id@));
}

/// Whether a value claims nothing the client could do on the agent's behalf.
pub open spec fn claims_nothing(m: JsonModel) -> bool {
    &&& holds(m, "terminal"@, JsonModel::Bool(false))
    &&& exists|fs: JsonModel| #[trigger]
        holds(m, "fs"@, fs) && holds(fs, "readTextFile"@, JsonModel::Bool(false)) && holds(
            fs,
            "writeTextFile"@,
            JsonModel::Bool(false),
        ) && only(fs, set!["readTextFile"@, "writeTextFile"@])
    &&& only(m, set!["terminal"@, "fs"@])
}

/// Whether a value describes a program.
pub open spec fn describes(
    m: JsonModel,
    name: Seq<char>,
    title: Option<Seq<char>>,
    version: Option<Seq<char>>,
) -> bool {
    &&& holds(m, "name"@, JsonModel::Str(name))
    &&& match title {
        Some(t) => holds(m, "title"@, JsonModel::Str(t)),
        None => lacks(m, "title"@),
    }
    &&& match version {
        Some(v) => holds(m, "version"@, JsonModel::Str(v)),
        None => lacks(m, "version"@),
    }
    &&& forall|k: Seq<char>| #[trigger]
        m->Object_0.dom().contains(k) ==> k == "name"@ || k == "title"@ || k == "version"@
}

/// The handshake says which version of the protocol the client speaks, claims
/// nothing it cannot do, and says who it is, with the version that was given.
pub proof fn law_handshake_introduces_the_client<W>(version: &str, waiter: W, r: (u64, String))
    ensures
        forall|c: &mut AcpClient<W>| #[trigger]
            call_ensures(AcpClient::<W>::initialize, (c, version, waiter), r) ==> sent(
                (*c)@,
                (*final(c))@,
                r.0,
                waiter,
            ) && exists|p: JsonModel| #[trigger]
                asks(r.1@, r.0, "initialize"@, p) && introduces(p, version@),
{
    assert forall|c: &mut AcpClient<W>| #[trigger]
        call_ensures(AcpClient::<W>::initialize, (c, version, waiter), r) implies sent(
        (*c)@,
        (*final(c))@,
        r.0,
        waiter,
    ) && exists|p: JsonModel| #[trigger]
        asks(r.1@, r.0, "initialize"@, p) && introduces(p, version@) by {
        let p = handshake_params(version@);
        lemma_asks(r.1@, r.0, "initialize"@, p);
        lemma_introduces(version@);
    }
}

/// Whether a value introduces this client, in an editor of that version.
pub open spec fn introduces(m: JsonModel, version: Seq<char>) -> bool {
    &&& holds(m, "protocolVersion"@, JsonModel::Integer(1))
    &&& exists|claim: JsonModel| #[trigger]
        holds(m, "clientCapabilities"@, claim) && claims_nothing(claim)
    &&& exists|who: JsonModel| #[trigger]
        holds(m, "clientInfo"@, who) && describes(who, "lapce"@, Some("Lapce"@), Some(version))
    &&& only(m, set!["protocolVersion"@, "clientCapabilities"@, "clientInfo"@])
}

proof fn lemma_introduces(version: Seq<char>)
    ensures
        introduces(handshake_params(version), version),
{
    lemma_words();
    let m = handshake_params(version);
    let o = m->Object_0;
    let claim = o["clientCapabilities"@];
    let who = o["clientInfo"@];
    let fs = claim->Object_0["fs"@];
    assert(holds(claim, "fs"@, fs));
    assert(claims_nothing(claim));
    assert(holds(m, "clientCapabilities"@, claim));
    assert(holds(m, "clientInfo"@, who));
    assert(describes(who, "lapce"@, Some("Lapce"@), Some(version)));
}

// -------------------------------------------------------------- the parameters

/// Capabilities are written as they are; an unset one is left out.
pub proof fn law_capabilities_are_written(c: &ClientCapabilities, r: Json)
    requires
        call_ensures(ClientCapabilities::to_json, (c,), r),
    ensures
        match c.terminal {
            Some(b) => holds(r@, "terminal"@, JsonModel::Bool(b)),
            None => lacks(r@, "terminal"@),
        },
        match c.fs {
            Some(fs) => exists|m: JsonModel| #[trigger]
                holds(r@, "fs"@, m) && holds(m, "readTextFile"@, JsonModel::Bool(fs.read_text_file))
                    && holds(m, "writeTextFile"@, JsonModel::Bool(fs.write_text_file)) && only(
                    m,
                    set!["readTextFile"@, "writeTextFile"@],
                ),
            None => lacks(r@, "fs"@),
        },
        forall|k: Seq<char>| #[trigger]
            r@->Object_0.dom().contains(k) ==> k == "terminal"@ || k == "fs"@,
{
    lemma_words();
    match c.fs {
        Some(fs) => {
            assert(holds(r@, "fs"@, fs.wire()));
        },
        None => {},
    }
}

/// A program's description is written as it is; an unset part is left out.
pub proof fn law_implementation_is_written(i: &Implementation, r: Json)
    requires
        call_ensures(Implementation::to_json, (i,), r),
    ensures
        describes(
            r@,
            i.name@,
            match i.title {
                Some(t) => Some(t@),
                None => None,
            },
            match i.version {
                Some(v) => Some(v@),
                None => None,
            },
        ),
{
    lemma_words();
}

/// The parameters of the handshake are written member by member.
pub proof fn law_initialize_params_are_written(p: &InitializeParams, r: Json)
    requires
        call_ensures(InitializeParams::to_json, (p,), r),
    ensures
        holds(r@, "protocolVersion"@, JsonModel::Integer(p.protocol_version as int)),
        holds(r@, "clientCapabilities"@, p.client_capabilities.wire()),
        holds(r@, "clientInfo"@, p.client_info@.wire()),
        only(r@, set!["protocolVersion"@, "clientCapabilities"@, "clientInfo"@]),
{
    lemma_words();
}

/// The parameters that ask for a session are written member by member.
pub proof fn law_new_session_params_are_written(p: NewSessionParams, r: Json)
    requires
        call_ensures(NewSessionParams::into_json, (p,), r),
    ensures
        holds(r@, "cwd"@, JsonModel::Str(p.cwd@)),
        exists|a: Seq<JsonModel>| #[trigger]
            holds(r@, "mcpServers"@, JsonModel::Array(a)) && a.len() == p.mcp_servers@.len()
                && forall|i: int|
                0 <= i < a.len() ==> #[trigger] a[i] == p.mcp_servers@[i]@,
        only(r@, set!["cwd"@, "mcpServers"@]),
{
    lemma_words();
    let a = Json::items_model(p.mcp_servers@);
    assert(holds(r@, "mcpServers"@, JsonModel::Array(a)));
}

/// Whether a value is a content block as it should be written.
pub open spec fn is_block(m: JsonModel, block: ContentBlock) -> bool {
    match block {
        ContentBlock::Text { text } => is_text_block(m, text@),
        ContentBlock::ResourceLink { uri } => {
            &&& holds(m, "type"@, JsonModel::Str("resource_link"@))
            &&& holds(m, "uri"@, JsonModel::Str(uri@))
            &&& only(m, set!["type"@, "uri"@])
        },
        ContentBlock::Other => {
            &&& holds(m, "type"@, JsonModel::Str("other"@))
            &&& only(m, set!["type"@])
        },
    }
}

proof fn lemma_block(block: ContentBlock)
    ensures
        is_block(block@.wire(), block),
{
    lemma_words();
}

/// A content block is written with its kind and its whole text.
pub proof fn law_block_is_written(block: &ContentBlock, r: Json)
    requires
        call_ensures(ContentBlock::to_json, (block,), r),
    ensures
        is_block(r@, *block),
{
    lemma_block(*block);
}

/// The parameters that ask for a turn hold every block, in order.
pub proof fn law_prompt_params_are_written(p: PromptParams, r: Json)
    requires
        call_ensures(PromptParams::into_json, (p,), r),
    ensures
        holds(r@, "sessionId"@, JsonModel::Str(p.session_id@)),
        exists|a: Seq<JsonModel>| #[trigger]
            holds(r@, "prompt"@, JsonModel::Array(a)) && a.len() == p.prompt@.len() && forall|
                i: int,
            |
                0 <= i < a.len() ==> is_block(#[trigger] a[i], p.prompt@[i]),
        only(r@, set!["sessionId"@, "prompt"@]),
{
    lemma_words();
    let a = Seq::new(p.prompt@.len(), |i: int| p.prompt@[i]@.wire());
    assert(holds(r@, "prompt"@, JsonModel::Array(a)));
    assert forall|i: int| 0 <= i < a.len() implies is_block(#[trigger] a[i], p.prompt@[i]) by {
        lemma_block(p.prompt@[i]);
    }
}

/// The parameters that interrupt a turn name the session.
pub proof fn law_cancel_params_are_written(p: CancelParams, r: Json)
    requires
        call_ensures(CancelParams::into_json, (p,), r),
    ensures
        holds(r@, "sessionId"@, JsonModel::Str(p.session_id@)),
        only(r@, set!["sessionId"@]),
{
}

/// A block of text holds the whole text, and gives it back; other blocks have none.
pub proof fn law_block_of_text(s: &str, block: ContentBlock, shown: Option<&str>)
    requires
        call_ensures(ContentBlock::as_text, (&block,), shown),
    ensures
        call_ensures(ContentBlock::text, (s,), block) ==> (block matches ContentBlock::Text { text }
            && text@ == s@),
        block matches ContentBlock::Text { text } ==> (shown matches Some(t) && t@ == text@),
        !(block is Text) ==> shown is None,
{
}

} // verus!
