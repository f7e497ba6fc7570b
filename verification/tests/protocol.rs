use lapce_acp::decode::DecodeError;
use lapce_acp::json::Json;
use lapce_acp::protocol::{
    CancelParams, ClientCapabilities, FsCapability, InitializeParams, NewSessionParams,
    NewSessionResult, PermissionKind, PermissionPolicy, PromptParams, PromptResult,
    RequestPermissionParams,
};
use lapce_acp::{
    ContentBlock, Implementation, InitializeResult, SessionNotification, SessionUpdate,
    StopReason, ToolCallStatus, ToolKind, PROTOCOL_VERSION,
};

fn json(text: &str) -> Json {
    Json::from_text(text).unwrap()
}

fn notification(text: &str) -> SessionNotification {
    SessionNotification::from_json(&json(text)).unwrap()
}

fn written(j: Json) -> String {
    j.into_line()
}

#[test]
fn parses_an_agent_message_chunk() {
    let v = notification(
        r#"{"sessionId":"s1","update":{"sessionUpdate":"agent_message_chunk",
            "content":{"type":"text","text":"hello"}}}"#,
    );
    assert_eq!(v.session_id, "s1");
    match v.update {
        SessionUpdate::AgentMessageChunk { content } => {
            assert_eq!(content.as_text(), Some("hello"))
        }
        other => panic!("wrong variant: {other:?}"),
    }
}

#[test]
fn thinking_is_a_separate_variant_from_the_reply() {
    // Rendering a model's scratchpad as its answer is the bug this prevents.
    let v = notification(
        r#"{"sessionId":"s","update":{"sessionUpdate":"agent_thought_chunk",
            "content":{"type":"text","text":"hmm"}}}"#,
    );
    assert!(matches!(v.update, SessionUpdate::AgentThoughtChunk { .. }));
}

#[test]
fn tool_calls_carry_clickable_locations() {
    let v = notification(
        r#"{"sessionId":"s","update":{"sessionUpdate":"tool_call_update",
            "toolCallId":"c1","status":"completed",
            "locations":[{"path":"/abs/moe.py","line":29}]}}"#,
    );
    match v.update {
        SessionUpdate::ToolCallUpdate(u) => {
            assert_eq!(u.status, Some(ToolCallStatus::Completed));
            assert_eq!(u.locations[0].path, "/abs/moe.py");
            assert_eq!(u.locations[0].line, Some(29));
        }
        other => panic!("wrong variant: {other:?}"),
    }
}

#[test]
fn an_unknown_update_variant_does_not_fail_the_parse() {
    // The day an agent ships a new variant, this client must keep working.
    let v = notification(
        r#"{"sessionId":"s","update":{"sessionUpdate":"telepathy_chunk",
            "wat":true}}"#,
    );
    assert!(matches!(v.update, SessionUpdate::Unknown));
}

#[test]
fn an_unknown_update_is_kept_whole() {
    let v = notification(
        r#"{"sessionId":"s","update":{"sessionUpdate":"telepathy_chunk","wat":true}}"#,
    );
    let kept = v.unrecognised.unwrap();
    assert_eq!(written(kept), "{\"sessionUpdate\":\"telepathy_chunk\",\"wat\":true}\n");
    let known = notification(
        r#"{"sessionId":"s","update":{"sessionUpdate":"plan","entries":[]}}"#,
    );
    assert!(known.unrecognised.is_none());
}

#[test]
fn an_unknown_stop_reason_does_not_fail_the_parse() {
    let r = PromptResult::from_json(&json(r#"{"stopReason":"ran_out_of_ideas"}"#)).unwrap();
    assert_eq!(r.stop_reason, StopReason::Unknown);
    assert!(!r.stop_reason.is_complete());
}

#[test]
fn only_end_turn_counts_as_complete() {
    assert!(StopReason::EndTurn.is_complete());
    for r in [
        StopReason::MaxTokens,
        StopReason::Refusal,
        StopReason::Cancelled,
        StopReason::MaxTurnRequests,
    ] {
        assert!(!r.is_complete(), "{r:?} must not read as a finished answer");
    }
}

#[test]
fn every_stop_reason_is_described() {
    assert_eq!(StopReason::EndTurn.describe(), "done");
    assert_eq!(StopReason::MaxTokens.describe(), "stopped: token limit reached");
    assert_eq!(
        StopReason::MaxTurnRequests.describe(),
        "stopped: too many requests this turn"
    );
    assert_eq!(StopReason::Refusal.describe(), "the agent declined");
    assert_eq!(StopReason::Cancelled.describe(), "cancelled");
    assert_eq!(
        StopReason::Unknown.describe(),
        "stopped for an unrecognised reason"
    );
}

#[test]
fn every_stop_reason_has_its_name() {
    for (name, reason) in [
        ("end_turn", StopReason::EndTurn),
        ("max_tokens", StopReason::MaxTokens),
        ("max_turn_requests", StopReason::MaxTurnRequests),
        ("refusal", StopReason::Refusal),
        ("cancelled", StopReason::Cancelled),
    ] {
        let reply = Json::object().with("stopReason", Json::text(name));
        assert_eq!(PromptResult::from_json(&reply).unwrap().stop_reason, reason);
    }
}

#[test]
fn prompt_params_serialise_to_camel_case() {
    let p = PromptParams {
        session_id: "s1".into(),
        prompt: vec![ContentBlock::text("hi")],
    };
    let v = p.into_json().into_value();
    assert_eq!(v["sessionId"], "s1");
    assert_eq!(v["prompt"][0]["type"], "text");
    assert_eq!(v["prompt"][0]["text"], "hi");
}

#[test]
fn unset_capabilities_are_left_out() {
    assert_eq!(written(ClientCapabilities::default().to_json()), "{}\n");
    let some = ClientCapabilities {
        fs: Some(FsCapability::default()),
        terminal: None,
    };
    assert_eq!(
        written(some.to_json()),
        "{\"fs\":{\"readTextFile\":false,\"writeTextFile\":false}}\n"
    );
}

#[test]
fn parameters_are_written_out() {
    let initialize = InitializeParams {
        protocol_version: PROTOCOL_VERSION,
        client_capabilities: ClientCapabilities {
            fs: None,
            terminal: Some(true),
        },
        client_info: Implementation {
            name: "x".into(),
            title: None,
            version: Some("2".into()),
        },
    };
    assert_eq!(
        written(initialize.to_json()),
        "{\"clientCapabilities\":{\"terminal\":true},\
         \"clientInfo\":{\"name\":\"x\",\"version\":\"2\"},\"protocolVersion\":1}\n"
    );
    let session = NewSessionParams {
        cwd: "/w".into(),
        mcp_servers: vec![Json::text("a")],
    };
    assert_eq!(
        written(session.into_json()),
        "{\"cwd\":\"/w\",\"mcpServers\":[\"a\"]}\n"
    );
    let cancel = CancelParams {
        session_id: "s".into(),
    };
    assert_eq!(written(cancel.into_json()), "{\"sessionId\":\"s\"}\n");
}

#[test]
fn content_blocks_are_read_back() {
    for block in [
        ContentBlock::text("a\nb"),
        ContentBlock::ResourceLink { uri: "file:///x".into() },
        ContentBlock::Other,
    ] {
        let back = ContentBlock::from_json(&block.to_json()).unwrap();
        assert_eq!(back.as_text(), block.as_text());
        assert_eq!(written(back.to_json()), written(block.to_json()));
    }
    assert!(matches!(
        ContentBlock::from_json(&json(r#"{"type":"image","data":"x"}"#)),
        Some(ContentBlock::Other)
    ));
    assert!(ContentBlock::from_json(&json(r#"{"type":"text"}"#)).is_none());
    assert!(ContentBlock::from_json(&json(r#"{"text":"x"}"#)).is_none());
    assert!(ContentBlock::from_json(&json(r#"{"type":0,"text":"x"}"#)).is_none());
    assert!(ContentBlock::from_json(&json(r#"[0,"x"]"#)).is_none());
    let nested = notification(
        r#"{"sessionId":"s","update":{"sessionUpdate":"agent_message_chunk",
            "content":{"type":0,"text":"x"}}}"#,
    );
    assert!(matches!(
        nested.update,
        SessionUpdate::AgentMessageChunk { content } if content.as_text() == Some("x")
    ));
    assert_eq!(
        ContentBlock::ResourceLink { uri: "u".into() }.as_text(),
        None
    );
}

#[test]
fn implementations_are_read_back() {
    let i = Implementation {
        name: "knossos".into(),
        title: Some("Knossos".into()),
        version: None,
    };
    let back = Implementation::from_json(&i.to_json()).unwrap();
    assert_eq!(back.name, "knossos");
    assert_eq!(back.title, Some("Knossos".into()));
    assert_eq!(back.version, None);
    assert_eq!(
        Implementation::from_json(&json(r#"{"title":"x"}"#)).unwrap_err(),
        DecodeError::MissingField { name: "name".into() }
    );
}

#[test]
fn records_may_be_lists() {
    let r = PromptResult::from_json(&json(r#"["end_turn"]"#)).unwrap();
    assert_eq!(r.stop_reason, StopReason::EndTurn);
    assert!(PromptResult::from_json(&json(r#"["end_turn",1]"#)).is_err());
    let v = notification(
        r#"["s",["agent_message_chunk",["text","hi"]]]"#,
    );
    match v.update {
        SessionUpdate::AgentMessageChunk { content } => {
            assert_eq!(content.as_text(), Some("hi"))
        }
        other => panic!("wrong variant: {other:?}"),
    }
}

#[test]
fn replies_are_read_or_the_fault_is_named() {
    let reply = json(
        r#"{"protocolVersion":1,"agentInfo":{"name":"fake"},"agentCapabilities":{"x":1},
            "authMethods":["a"],"extra":null}"#,
    );
    let init = InitializeResult::from_json(&reply).unwrap();
    assert_eq!(init.protocol_version, 1);
    assert_eq!(init.agent_info.unwrap().name, "fake");
    assert_eq!(init.auth_methods.len(), 1);
    assert_eq!(init.agent_capabilities.get("x").unwrap().as_u64(), Some(1));

    let bare = InitializeResult::from_json(&json(r#"{"protocolVersion":1}"#)).unwrap();
    assert!(bare.agent_info.is_none());
    assert!(bare.agent_capabilities.is_null());
    assert!(bare.auth_methods.is_empty());

    let missing = InitializeResult::from_json(&json("{}")).unwrap_err();
    assert_eq!(
        missing,
        DecodeError::MissingField { name: "protocolVersion".into() }
    );
    assert_eq!(missing.describe(), "missing field `protocolVersion`");
    let wrong = InitializeResult::from_json(&json(r#"{"protocolVersion":-1}"#)).unwrap_err();
    assert_eq!(
        wrong,
        DecodeError::InvalidValue { found: "integer `-1`".into(), expected: "u32".into() }
    );
    assert_eq!(wrong.describe(), "invalid value: integer `-1`, expected u32");

    assert_eq!(
        NewSessionResult::from_json(&json(r#"{"sessionId":"s1"}"#)).unwrap().session_id,
        "s1"
    );
    assert_eq!(
        NewSessionResult::from_json(&json("{}")).unwrap_err(),
        DecodeError::MissingField { name: "sessionId".into() }
    );
    assert_eq!(
        NewSessionResult::from_json(&json("[]")).unwrap_err(),
        DecodeError::InvalidLength {
            length: 0,
            expected: "struct NewSessionResult with 1 element".into(),
        }
    );
    assert_eq!(
        PromptResult::from_json(&json("{}")).unwrap_err(),
        DecodeError::MissingField { name: "stopReason".into() }
    );
    assert_eq!(
        PromptResult::from_json(&json(r#"{"stopReason":3}"#)).unwrap_err(),
        DecodeError::InvalidType { found: "integer `3`".into(), expected: "string or map".into() }
    );
}

#[test]
fn a_reply_of_another_form_is_described() {
    for (reply, text) in [
        ("null", "invalid type: null, expected struct NewSessionResult"),
        (r#""s""#, "invalid type: string \"s\", expected struct NewSessionResult"),
        (r#"["a",1,2]"#, "invalid length 3, expected fewer elements in array"),
        ("[7,1]", "invalid type: integer `7`, expected a string"),
        (r#"{"sessionId":[1]}"#, "invalid type: sequence, expected a string"),
    ] {
        let error = NewSessionResult::from_json(&json(reply)).unwrap_err();
        assert_eq!(error.describe(), text, "{reply}");
    }
    for (reply, text) in [
        ("true", "invalid type: boolean `true`, expected struct PromptResult"),
        ("[]", "invalid length 0, expected struct PromptResult with 1 element"),
        (r#"["end_turn",0]"#, "invalid length 2, expected fewer elements in array"),
        (r#"{"stopReason":1.5}"#, "invalid type: floating point `1.5`, expected string or map"),
        (r#"{"stopReason":null}"#, "invalid type: null, expected string or map"),
        (r#"{"stopReason":{}}"#, "invalid value: map, expected map with a single key"),
        (
            r#"{"stopReason":{"a":null,"b":null}}"#,
            "invalid value: map, expected map with a single key",
        ),
        (r#"{"stopReason":{"end_turn":{}}}"#, "invalid type: map, expected unit"),
    ] {
        let error = PromptResult::from_json(&json(reply)).unwrap_err();
        assert_eq!(error.describe(), text, "{reply}");
    }
    let single = PromptResult::from_json(&json(r#"{"stopReason":{"end_turn":null}}"#)).unwrap();
    assert_eq!(single.stop_reason, StopReason::EndTurn);
    for (reply, text) in [
        ("3", "invalid type: integer `3`, expected struct InitializeResult"),
        ("[]", "invalid length 0, expected struct InitializeResult with 4 elements"),
        (r#"["1"]"#, "invalid type: string \"1\", expected u32"),
        ("[1,2,null,[],5]", "invalid length 5, expected fewer elements in array"),
        ("[4294967296]", "invalid value: integer `4294967296`, expected u32"),
        (r#"{"protocolVersion":1.0}"#, "invalid type: floating point `1.0`, expected u32"),
        (r#"{"authMethods":null}"#, "invalid type: null, expected a sequence"),
        // The keys are gone through in their order; what is missing comes last.
        (
            r#"{"protocolVersion":"x","authMethods":1,"agentInfo":2}"#,
            "invalid type: integer `2`, expected struct Implementation",
        ),
        (
            r#"{"protocolVersion":"x","authMethods":false}"#,
            "invalid type: boolean `false`, expected a sequence",
        ),
        (r#"{"agentInfo":{}}"#, "missing field `name`"),
        (r#"{"agentInfo":{"title":1}}"#, "invalid type: integer `1`, expected a string"),
        (
            r#"{"agentInfo":[]}"#,
            "invalid length 0, expected struct Implementation with 3 elements",
        ),
        (
            r#"{"agentInfo":["a",null,null,1]}"#,
            "invalid length 4, expected fewer elements in array",
        ),
    ] {
        let error = InitializeResult::from_json(&json(reply)).unwrap_err();
        assert_eq!(error.describe(), text, "{reply}");
    }
}

#[test]
fn values_are_described_as_the_parser_describes_them() {
    for text in [
        "true", "false", "0", "-7", "18446744073709551615", "1.5", "-0.0", "1e300", "[1]", "{}",
        r#""a\"b\\c\n\u0000 \u00e9 \u200b 'x'""#,
    ] {
        let value: serde_json::Value = serde_json::from_str(text).unwrap();
        let error = serde_json::from_value::<()>(value.clone()).unwrap_err();
        assert_eq!(
            error.to_string(),
            format!("invalid type: {}, expected unit", Json::from_value(value).found())
        );
    }
    let error = serde_json::from_value::<String>(serde_json::Value::Null).unwrap_err();
    assert_eq!(
        error.to_string(),
        format!("invalid type: {}, expected a string", Json::Null.found())
    );
}

#[test]
fn tool_calls_are_read_with_their_defaults() {
    let v = notification(
        r#"{"sessionId":"s","update":{"sessionUpdate":"tool_call","toolCallId":"c1",
            "title":"grep","kind":"search","status":"in_progress","newer":[1,2]}}"#,
    );
    match v.update {
        SessionUpdate::ToolCall(c) => {
            assert_eq!(c.tool_call_id, "c1");
            assert_eq!(c.title, Some("grep".into()));
            assert_eq!(c.kind, Some(ToolKind::Search));
            assert_eq!(c.status, Some(ToolCallStatus::InProgress));
            assert!(c.locations.is_empty());
        }
        other => panic!("wrong variant: {other:?}"),
    }
    let v = notification(
        r#"{"sessionId":"s","update":{"sessionUpdate":"tool_call","toolCallId":"c1",
            "kind":"juggle","status":null}}"#,
    );
    match v.update {
        SessionUpdate::ToolCall(c) => {
            assert_eq!(c.title, None);
            assert_eq!(c.kind, Some(ToolKind::Unknown));
            assert_eq!(c.status, None);
        }
        other => panic!("wrong variant: {other:?}"),
    }
    // No id, no tool call.
    assert!(SessionNotification::from_json(&json(
        r#"{"sessionId":"s","update":{"sessionUpdate":"tool_call"}}"#
    ))
    .is_none());
}

#[test]
fn plans_are_read() {
    let v = notification(
        r#"{"sessionId":"s","update":{"sessionUpdate":"plan","entries":[
            {"content":"look","priority":"high","status":"pending"},{"content":"leap"}]}}"#,
    );
    match v.update {
        SessionUpdate::Plan { entries } => {
            assert_eq!(entries.len(), 2);
            assert_eq!(entries[0].content, "look");
            assert_eq!(entries[0].priority, Some("high".into()));
            assert_eq!(entries[1].status, None);
        }
        other => panic!("wrong variant: {other:?}"),
    }
}

#[test]
fn parses_a_permission_request() {
    let p = RequestPermissionParams::from_json(&json(
        r#"{"sessionId":"s1","toolCall":{"toolCallId":"c1","title":"write file"},
            "options":[
              {"optionId":"y","name":"Allow","kind":"allow_once"},
              {"optionId":"n","name":"Reject","kind":"reject_once"}]}"#,
    ))
    .unwrap();
    assert_eq!(p.session_id, "s1");
    assert_eq!(p.options.len(), 2);
    assert_eq!(p.options[0].kind, Some(PermissionKind::AllowOnce));
    assert!(p.options[0].kind.unwrap().is_allow());
    assert!(!p.options[1].kind.unwrap().is_allow());
}

#[test]
fn an_unknown_option_kind_parses() {
    let p = RequestPermissionParams::from_json(&json(
        r#"{"sessionId":"s","options":[{"optionId":"x","kind":"maybe"}]}"#,
    ))
    .unwrap();
    assert_eq!(p.options[0].kind, Some(PermissionKind::Unknown));
    assert!(!p.options[0].kind.unwrap().is_allow());
}

#[test]
fn the_default_policy_refuses() {
    // Silently granting is worse than not being able to grant: the user
    // believes they are being consulted.
    assert_eq!(PermissionPolicy::default(), PermissionPolicy::DenyAll);
}

#[test]
fn granting_for_good_is_granting() {
    assert!(PermissionKind::AllowAlways.is_allow());
    assert!(!PermissionKind::RejectAlways.is_allow());
    assert!(!PermissionKind::Unknown.is_allow());
}
