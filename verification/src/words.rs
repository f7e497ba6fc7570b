//! The words of the protocol, told apart.

use vstd::prelude::*;

verus! {

/// Each word by its length and by the characters that tell it from the others.
pub(crate) proof fn lemma_words()
    ensures
        "jsonrpc"@.len() == 7,
        "jsonrpc"@[0] == 'j',
        "id"@.len() == 2,
        "id"@[0] == 'i',
        "method"@.len() == 6,
        "method"@[0] == 'm',
        "params"@.len() == 6,
        "params"@[0] == 'p',
        "params"@[1] == 'a',
        "result"@.len() == 6,
        "result"@[0] == 'r',
        "error"@.len() == 5,
        "error"@[0] == 'e',
        "code"@.len() == 4,
        "code"@[0] == 'c',
        "message"@.len() == 7,
        "message"@[0] == 'm',
        "protocolVersion"@.len() == 15,
        "protocolVersion"@[0] == 'p',
        "clientCapabilities"@.len() == 18,
        "clientCapabilities"@[0] == 'c',
        "clientInfo"@.len() == 10,
        "clientInfo"@[0] == 'c',
        "fs"@.len() == 2,
        "fs"@[0] == 'f',
        "terminal"@.len() == 8,
        "terminal"@[0] == 't',
        "terminal"@[1] == 'e',
        "readTextFile"@.len() == 12,
        "readTextFile"@[0] == 'r',
        "writeTextFile"@.len() == 13,
        "writeTextFile"@[0] == 'w',
        "name"@.len() == 4,
        "name"@[0] == 'n',
        "title"@.len() == 5,
        "title"@[0] == 't',
        "title"@[1] == 'i',
        "version"@.len() == 7,
        "version"@[0] == 'v',
        "cwd"@.len() == 3,
        "cwd"@[0] == 'c',
        "mcpServers"@.len() == 10,
        "mcpServers"@[0] == 'm',
        "mcpServers"@[1] == 'c',
        "sessionId"@.len() == 9,
        "sessionId"@[0] == 's',
        "prompt"@.len() == 6,
        "prompt"@[0] == 'p',
        "prompt"@[1] == 'r',
        "type"@.len() == 4,
        "type"@[0] == 't',
        "type"@[1] == 'y',
        "text"@.len() == 4,
        "text"@[0] == 't',
        "text"@[1] == 'e',
        "uri"@.len() == 3,
        "uri"@[0] == 'u',
        "outcome"@.len() == 7,
        "outcome"@[0] == 'o',
        "outcome"@[1] == 'u',
        "optionId"@.len() == 8,
        "optionId"@[0] == 'o',
        "selected"@.len() == 8,
        "selected"@[0] == 's',
        "cancelled"@.len() == 9,
        "cancelled"@[0] == 'c',
        "cancelled"@[1] == 'a',
        "session/request_permission"@.len() == 26,
        "session/request_permission"@[0] == 's',
        "session/update"@.len() == 14,
        "session/update"@[0] == 's',
        "session/update"@[8] == 'u',
        "session/prompt"@.len() == 14,
        "session/prompt"@[0] == 's',
        "session/prompt"@[8] == 'p',
        "session/new"@.len() == 11,
        "session/new"@[0] == 's',
        "session/new"@[1] == 'e',
        "session/cancel"@.len() == 14,
        "session/cancel"@[0] == 's',
        "session/cancel"@[8] == 'c',
        "initialize"@.len() == 10,
        "initialize"@[0] == 'i',
        "2.0"@.len() == 3,
        "2.0"@[0] == '2',
        "lapce"@.len() == 5,
        "lapce"@[0] == 'l',
        "Lapce"@.len() == 5,
        "Lapce"@[0] == 'L',
        "resource_link"@.len() == 13,
        "resource_link"@[0] == 'r',
        "resource_link"@[2] == 's',
        "other"@.len() == 5,
        "other"@[0] == 'o',
        "update"@.len() == 6,
        "update"@[0] == 'u',
        "sessionUpdate"@.len() == 13,
        "sessionUpdate"@[0] == 's',
        "toolCallId"@.len() == 10,
        "toolCallId"@[0] == 't',
        "kind"@.len() == 4,
        "kind"@[0] == 'k',
        "status"@.len() == 6,
        "status"@[0] == 's',
        "status"@[1] == 't',
        "locations"@.len() == 9,
        "locations"@[0] == 'l',
        "content"@.len() == 7,
        "content"@[0] == 'c',
        "path"@.len() == 4,
        "path"@[0] == 'p',
        "path"@[1] == 'a',
        "line"@.len() == 4,
        "line"@[0] == 'l',
        "entries"@.len() == 7,
        "entries"@[0] == 'e',
        "entries"@[1] == 'n',
        "priority"@.len() == 8,
        "priority"@[0] == 'p',
        "toolCall"@.len() == 8,
        "toolCall"@[0] == 't',
        "toolCall"@[1] == 'o',
        "options"@.len() == 7,
        "options"@[0] == 'o',
        "options"@[1] == 'p',
        "stopReason"@.len() == 10,
        "stopReason"@[0] == 's',
        "agentCapabilities"@.len() == 17,
        "agentCapabilities"@[0] == 'a',
        "agentInfo"@.len() == 9,
        "agentInfo"@[0] == 'a',
        "authMethods"@.len() == 11,
        "authMethods"@[0] == 'a',
        "agent_message_chunk"@.len() == 19,
        "agent_message_chunk"@[0] == 'a',
        "agent_message_chunk"@[6] == 'm',
        "agent_thought_chunk"@.len() == 19,
        "agent_thought_chunk"@[0] == 'a',
        "agent_thought_chunk"@[6] == 't',
        "user_message_chunk"@.len() == 18,
        "user_message_chunk"@[0] == 'u',
        "tool_call"@.len() == 9,
        "tool_call"@[0] == 't',
        "tool_call_update"@.len() == 16,
        "tool_call_update"@[0] == 't',
        "plan"@.len() == 4,
        "plan"@[0] == 'p',
        "plan"@[1] == 'l',
        "end_turn"@.len() == 8,
        "end_turn"@[0] == 'e',
        "max_tokens"@.len() == 10,
        "max_tokens"@[0] == 'm',
        "max_tokens"@[1] == 'a',
        "max_turn_requests"@.len() == 17,
        "max_turn_requests"@[0] == 'm',
        "refusal"@.len() == 7,
        "refusal"@[0] == 'r',
        "allow_once"@.len() == 10,
        "allow_once"@[0] == 'a',
        "allow_always"@.len() == 12,
        "allow_always"@[0] == 'a',
        "reject_once"@.len() == 11,
        "reject_once"@[0] == 'r',
        "reject_always"@.len() == 13,
        "reject_always"@[0] == 'r',
        "reject_always"@[2] == 'j',
        "pending"@.len() == 7,
        "pending"@[0] == 'p',
        "in_progress"@.len() == 11,
        "in_progress"@[0] == 'i',
        "completed"@.len() == 9,
        "completed"@[0] == 'c',
        "completed"@[1] == 'o',
        "failed"@.len() == 6,
        "failed"@[0] == 'f',
        "read"@.len() == 4,
        "read"@[0] == 'r',
        "edit"@.len() == 4,
        "edit"@[0] == 'e',
        "delete"@.len() == 6,
        "delete"@[0] == 'd',
        "move"@.len() == 4,
        "move"@[0] == 'm',
        "search"@.len() == 6,
        "search"@[0] == 's',
        "search"@[1] == 'e',
        "execute"@.len() == 7,
        "execute"@[0] == 'e',
        "execute"@[1] == 'x',
        "think"@.len() == 5,
        "think"@[0] == 't',
        "think"@[1] == 'h',
        "fetch"@.len() == 5,
        "fetch"@[0] == 'f',
        "switch_mode"@.len() == 11,
        "switch_mode"@[0] == 's',
        "switch_mode"@[1] == 'w',
        "unknown"@.len() == 7,
        "unknown"@[0] == 'u',
{
    reveal_strlit("jsonrpc");
    reveal_strlit("id");
    reveal_strlit("method");
    reveal_strlit("params");
    reveal_strlit("result");
    reveal_strlit("error");
    reveal_strlit("code");
    reveal_strlit("message");
    reveal_strlit("protocolVersion");
    reveal_strlit("clientCapabilities");
    reveal_strlit("clientInfo");
    reveal_strlit("fs");
    reveal_strlit("terminal");
    reveal_strlit("readTextFile");
    reveal_strlit("writeTextFile");
    reveal_strlit("name");
    reveal_strlit("title");
    reveal_strlit("version");
    reveal_strlit("cwd");
    reveal_strlit("mcpServers");
    reveal_strlit("sessionId");
    reveal_strlit("prompt");
    reveal_strlit("type");
    reveal_strlit("text");
    reveal_strlit("uri");
    reveal_strlit("outcome");
    reveal_strlit("optionId");
    reveal_strlit("selected");
    reveal_strlit("cancelled");
    reveal_strlit("session/request_permission");
    reveal_strlit("session/update");
    reveal_strlit("session/prompt");
    reveal_strlit("session/new");
    reveal_strlit("session/cancel");
    reveal_strlit("initialize");
    reveal_strlit("2.0");
    reveal_strlit("lapce");
    reveal_strlit("Lapce");
    reveal_strlit("resource_link");
    reveal_strlit("other");
    reveal_strlit("update");
    reveal_strlit("sessionUpdate");
    reveal_strlit("toolCallId");
    reveal_strlit("kind");
    reveal_strlit("status");
    reveal_strlit("locations");
    reveal_strlit("content");
    reveal_strlit("path");
    reveal_strlit("line");
    reveal_strlit("entries");
    reveal_strlit("priority");
    reveal_strlit("toolCall");
    reveal_strlit("options");
    reveal_strlit("stopReason");
    reveal_strlit("agentCapabilities");
    reveal_strlit("agentInfo");
    reveal_strlit("authMethods");
    reveal_strlit("agent_message_chunk");
    reveal_strlit("agent_thought_chunk");
    reveal_strlit("user_message_chunk");
    reveal_strlit("tool_call");
    reveal_strlit("tool_call_update");
    reveal_strlit("plan");
    reveal_strlit("end_turn");
    reveal_strlit("max_tokens");
    reveal_strlit("max_turn_requests");
    reveal_strlit("refusal");
    reveal_strlit("allow_once");
    reveal_strlit("allow_always");
    reveal_strlit("reject_once");
    reveal_strlit("reject_always");
    reveal_strlit("pending");
    reveal_strlit("in_progress");
    reveal_strlit("completed");
    reveal_strlit("failed");
    reveal_strlit("read");
    reveal_strlit("edit");
    reveal_strlit("delete");
    reveal_strlit("move");
    reveal_strlit("search");
    reveal_strlit("execute");
    reveal_strlit("think");
    reveal_strlit("fetch");
    reveal_strlit("switch_mode");
    reveal_strlit("unknown");
}

} // verus!
