use lapce_acp::client::{
    answer_permission, answer_request, choose_option, spawn_failure, ClientError, Closed, Fault,
    Incoming, Received,
};
use lapce_acp::decode::DecodeError;
use lapce_acp::json::Json;
use lapce_acp::protocol::{
    PermissionKind, PermissionOption, PermissionPolicy, RequestPermissionParams,
};
use lapce_acp::{AcpClient, AgentEvent, RpcErr, SessionUpdate, StopReason};

fn json(text: &str) -> Json {
    Json::from_text(text).unwrap()
}

fn value(line: &str) -> serde_json::Value {
    serde_json::from_str(line).unwrap()
}

/// An agent that asks permission before it finishes its turn, and echoes what it
/// was answered.
struct FakeAgent {
    prompt_id: serde_json::Value,
}

const ASK: &str = r#"{"jsonrpc": "2.0", "id": 9001, "method": "session/request_permission",
    "params": {"sessionId": "s1",
               "toolCall": {"toolCallId": "c1", "title": "delete everything"},
               "options": [
                   {"optionId": "yes", "name": "Allow", "kind": "allow_once"},
                   {"optionId": "no", "name": "Reject", "kind": "reject_once"}]}}"#;

impl FakeAgent {
    fn reply(&mut self, line: &str) -> Vec<String> {
        let msg = value(line);
        assert_eq!(msg["jsonrpc"], "2.0");
        let id = msg["id"].to_string();
        if msg["method"] == "initialize" {
            return vec![format!(
                r#"{{"jsonrpc":"2.0","id":{id},"result":{{"protocolVersion":1,"agentInfo":{{"name":"fake"}},"agentCapabilities":{{}},"authMethods":[]}}}}"#
            )];
        }
        if msg["method"] == "session/new" {
            return vec![format!(
                r#"{{"jsonrpc":"2.0","id":{id},"result":{{"sessionId":"s1"}}}}"#
            )];
        }
        if msg["method"] == "session/prompt" {
            self.prompt_id = msg["id"].clone();
            return vec![ASK.to_string()];
        }
        if msg["id"] == 9001 {
            let answer = msg["result"]["outcome"].to_string();
            let quoted = Json::text(&answer).into_line();
            return vec![
                format!(
                    r#"{{"jsonrpc":"2.0","method":"session/update","params":{{"sessionId":"s1","update":{{"sessionUpdate":"agent_message_chunk","content":{{"type":"text","text":{}}}}}}}}}"#,
                    quoted.trim()
                ),
                format!(
                    r#"{{"jsonrpc":"2.0","id":{},"result":{{"stopReason":"end_turn"}}}}"#,
                    self.prompt_id
                ),
            ];
        }
        panic!("the agent did not expect {line}");
    }
}

/// Passes lines between a client and the fake agent until there are no more;
/// gives what was told, and the outcome of each request by its waiter.
fn exchange(
    client: &mut AcpClient<&'static str>,
    agent: &mut FakeAgent,
    line: String,
) -> (Vec<AgentEvent>, Vec<(&'static str, Json)>) {
    let mut events = Vec::new();
    let mut woken = Vec::new();
    let mut to_agent = vec![line];
    while let Some(line) = to_agent.pop() {
        for answer in agent.reply(&line) {
            let answer = answer.replace('\n', " ");
            match client.receive(&answer) {
                Received::Nothing | Received::Malformed(_) => {
                    panic!("not understood: {answer}")
                }
                Received::Event(e) => events.push(e),
                Received::Reply { line, log } => {
                    to_agent.push(line);
                    events.extend(log);
                }
                Received::Wake { waiter, outcome } => woken.push((waiter, outcome.unwrap())),
            }
        }
    }
    (events, woken)
}

fn a_turn(policy: PermissionPolicy) -> (String, Vec<String>, StopReason) {
    let mut agent = FakeAgent {
        prompt_id: serde_json::Value::Null,
    };
    let mut client = AcpClient::new();
    client.set_permission_policy(policy);

    let (_, line) = client.initialize("0.4.2", "initialize");
    let (_, woken) = exchange(&mut client, &mut agent, line);
    assert_eq!(woken[0].0, "initialize");
    client.initialized(&woken[0].1).expect("initialize");

    let (_, line) = client.new_session("/tmp", "new");
    let (_, woken) = exchange(&mut client, &mut agent, line);
    let session = AcpClient::<&str>::session_opened(&woken[0].1).expect("session/new");
    assert_eq!(session, "s1");

    let (_, line) = client.prompt(&session, "do the thing", "prompt");
    let (events, woken) = exchange(&mut client, &mut agent, line);
    assert_eq!(woken[0].0, "prompt");
    let stop = AcpClient::<&str>::turn_ended(&woken[0].1).expect("the turn must complete");

    let mut text = String::new();
    let mut logs = Vec::new();
    for event in events {
        match event {
            AgentEvent::Update(n) => {
                if let SessionUpdate::AgentMessageChunk { content } = n.update {
                    text.push_str(content.as_text().unwrap_or(""));
                }
            }
            AgentEvent::Log(line) => logs.push(line),
            AgentEvent::Exited(_) => panic!("the agent is still there"),
        }
    }
    (text, logs, stop)
}

#[test]
fn handshake_reports_the_agent_identity() {
    let mut agent = FakeAgent {
        prompt_id: serde_json::Value::Null,
    };
    let mut client = AcpClient::new();
    let (_, line) = client.initialize("0.4.2", "initialize");
    let (_, woken) = exchange(&mut client, &mut agent, line);
    let init = client.initialized(&woken[0].1).expect("initialize");

    assert_eq!(init.protocol_version, lapce_acp::PROTOCOL_VERSION);
    let info = init.agent_info.expect("agent should identify itself");
    assert!(!info.name.is_empty());
}

#[test]
fn a_permission_request_is_answered_so_the_turn_can_finish() {
    let (_, _, stop) = a_turn(PermissionPolicy::default());
    assert_eq!(stop, StopReason::EndTurn);
}

#[test]
fn the_default_policy_refuses_rather_than_silently_granting() {
    let (echoed, logs, _) = a_turn(PermissionPolicy::default());
    assert!(
        echoed.contains("\"no\""),
        "the default must refuse, not grant: {echoed}"
    );
    assert!(echoed.contains("selected"));
    assert_eq!(logs, vec!["permission refused for delete everything"]);
}

#[test]
fn a_trusted_agent_is_granted_a_single_use() {
    let (echoed, logs, _) = a_turn(PermissionPolicy::AllowOnce);
    assert!(echoed.contains("\"yes\""));
    assert_eq!(logs, vec!["permission granted for delete everything"]);
}

#[test]
fn the_handshake_says_who_asks_and_promises_nothing() {
    let mut client: AcpClient<u8> = AcpClient::new();
    let (id, line) = client.initialize("0.4.2", 1);
    assert_eq!(id, 1);
    assert_eq!(
        line,
        "{\"id\":1,\"jsonrpc\":\"2.0\",\"method\":\"initialize\",\"params\":\
         {\"clientCapabilities\":{\"fs\":{\"readTextFile\":false,\"writeTextFile\":false},\
         \"terminal\":false},\"clientInfo\":{\"name\":\"lapce\",\"title\":\"Lapce\",\
         \"version\":\"0.4.2\"},\"protocolVersion\":1}}\n"
    );
}

#[test]
fn the_handshake_completes_or_is_refused() {
    let mut client: AcpClient<u8> = AcpClient::new();
    let newer = client
        .initialized(&json(r#"{"protocolVersion":2,"agentInfo":{"name":"x"}}"#))
        .unwrap_err();
    assert_eq!(newer, ClientError::ProtocolTooNew { agent: 2 });
    assert_eq!(
        newer.describe(),
        "agent speaks protocol v2, this client implements v1"
    );
    assert!(client.agent_info().is_none());

    let bad = client.initialized(&json("{}")).unwrap_err();
    assert_eq!(
        bad,
        ClientError::Reply(DecodeError::MissingField { name: "protocolVersion".into() })
    );
    assert_eq!(bad.describe(), "missing field `protocolVersion`");

    let init = client
        .initialized(&json(r#"{"protocolVersion":1,"agentInfo":{"name":"x"}}"#))
        .unwrap();
    assert_eq!(init.protocol_version, 1);
    assert_eq!(client.agent_info().unwrap().name, "x");
    // An older agent is fine.
    assert!(client.initialized(&json(r#"{"protocolVersion":0}"#)).is_ok());
    assert!(client.agent_info().is_none());
}

#[test]
fn requests_are_numbered_and_framed() {
    let mut client: AcpClient<u8> = AcpClient::new();
    let (first, line) = client.new_session("/a\nb", 1);
    assert_eq!(first, 1);
    assert_eq!(
        line,
        "{\"id\":1,\"jsonrpc\":\"2.0\",\"method\":\"session/new\",\
         \"params\":{\"cwd\":\"/a\\nb\",\"mcpServers\":[]}}\n"
    );
    let (second, line) = client.prompt("s1", "hi", 2);
    assert_eq!(second, 2);
    assert_eq!(
        line,
        "{\"id\":2,\"jsonrpc\":\"2.0\",\"method\":\"session/prompt\",\"params\":\
         {\"prompt\":[{\"text\":\"hi\",\"type\":\"text\"}],\"sessionId\":\"s1\"}}\n"
    );
    assert_eq!(
        client.cancel("s1"),
        "{\"jsonrpc\":\"2.0\",\"method\":\"session/cancel\",\"params\":{\"sessionId\":\"s1\"}}\n"
    );
    let (third, line) = client.request("x/y", Json::Null, 3);
    assert_eq!(third, 3);
    assert_eq!(value(&line)["params"], serde_json::Value::Null);
}

#[test]
fn what_was_sent_is_heard() {
    let mut client: AcpClient<u8> = AcpClient::new();
    let (id, line) = client.request("m", json(r#"{"a":[1]}"#), 1);
    let message = Json::from_text(line.trim()).unwrap();
    assert_eq!(
        Incoming::classify(&message),
        Incoming::Request {
            method: "m".into(),
            id: Json::unsigned(id),
            params: Some(json(r#"{"a":[1]}"#)),
        }
    );
    let line = client.notify("n", Json::text("p"));
    assert_eq!(
        Incoming::classify(&Json::from_text(line.trim()).unwrap()),
        Incoming::Notification {
            method: "n".into(),
            params: Some(Json::text("p")),
        }
    );
}

#[test]
fn messages_are_told_apart() {
    for (text, expected) in [
        (
            r#"{"id":3,"result":{"x":1}}"#,
            Incoming::Response { id: 3, outcome: Ok(json(r#"{"x":1}"#)) },
        ),
        (r#"{"id":3}"#, Incoming::Response { id: 3, outcome: Ok(Json::Null) }),
        (
            r#"{"id":3,"error":null,"result":7}"#,
            Incoming::Response { id: 3, outcome: Ok(Json::unsigned(7)) },
        ),
        (
            r#"{"id":3,"error":{"code":-32000,"message":"no such session"},"result":7}"#,
            Incoming::Response {
                id: 3,
                outcome: Err(RpcErr { code: -32000, message: "no such session".into() }),
            },
        ),
        (
            r#"{"id":3,"error":"boom"}"#,
            Incoming::Response {
                id: 3,
                outcome: Err(RpcErr { code: -1, message: "unknown".into() }),
            },
        ),
        (
            r#"{"id":3,"method":"m"}"#,
            Incoming::Request { method: "m".into(), id: Json::unsigned(3), params: None },
        ),
        (
            r#"{"id":null,"method":"m"}"#,
            Incoming::Request { method: "m".into(), id: Json::Null, params: None },
        ),
        (r#"{"method":"m"}"#, Incoming::Notification { method: "m".into(), params: None }),
        (r#"{"method":5,"id":4}"#, Incoming::Response { id: 4, outcome: Ok(Json::Null) }),
        (r#"{"id":-3}"#, Incoming::Unrecognised),
        (r#"{"id":"3"}"#, Incoming::Unrecognised),
        (r#"[1]"#, Incoming::Unrecognised),
    ] {
        assert_eq!(Incoming::classify(&json(text)), expected, "{text}");
    }
}

#[test]
fn a_response_wakes_its_waiter_and_nobody_else() {
    let mut client = AcpClient::new();
    let (one, _) = client.request("a", Json::Null, "one");
    let (two, _) = client.request("b", Json::Null, "two");
    match client.receive(&format!("  {{\"id\":{two},\"result\":5}}\n")) {
        Received::Wake { waiter, outcome } => {
            assert_eq!(waiter, "two");
            assert_eq!(outcome, Ok(Json::unsigned(5)));
        }
        other => panic!("{other:?}"),
    }
    // It was answered: a second answer finds nobody.
    assert!(matches!(
        client.receive(&format!("{{\"id\":{two},\"result\":6}}")),
        Received::Nothing
    ));
    // A request of the agent's with the same number is not an answer.
    assert!(matches!(
        client.receive(&format!("{{\"id\":{one},\"method\":\"fs/read_text_file\"}}")),
        Received::Reply { .. }
    ));
    match client.receive(&format!("{{\"id\":{one},\"error\":{{\"code\":-5}}}}")) {
        Received::Wake { waiter, outcome } => {
            assert_eq!(waiter, "one");
            let error = outcome.unwrap_err();
            assert_eq!(error.describe(), "agent error -5: unknown");
        }
        other => panic!("{other:?}"),
    }
}

#[test]
fn what_says_nothing_is_passed_over() {
    let mut client: AcpClient<u8> = AcpClient::new();
    for line in [
        "",
        "  \t \r\n",
        "{}",
        r#"{"id":99,"result":1}"#,
        r#"{"method":"other/news","params":{}}"#,
    ] {
        assert!(matches!(client.receive(line), Received::Nothing), "{line}");
    }
}

#[test]
fn what_is_malformed_is_told_apart() {
    let mut client: AcpClient<u8> = AcpClient::new();
    for (line, fault) in [
        ("not json", Fault::Line),
        ("{} {}", Fault::Line),
        (r#"{"method":"session/update"}"#, Fault::Update),
        (r#"{"method":"session/update","params":{"sessionId":"s"}}"#, Fault::Update),
    ] {
        match client.receive(line) {
            Received::Malformed(f) => assert_eq!(f, fault, "{line}"),
            other => panic!("{other:?}"),
        }
    }
}

#[test]
fn nothing_follows_the_exit() {
    let update = r#"{"method":"session/update","params":{"sessionId":"s","update":{"sessionUpdate":"plan","entries":[]}}}"#;
    let mut client: AcpClient<u8> = AcpClient::new();
    assert!(matches!(client.receive(update), Received::Event(_)));
    assert!(matches!(client.log("noise".into()), Some(AgentEvent::Log(l)) if l == "noise"));
    assert!(!client.is_closed());
    assert!(matches!(client.close().event, Some(AgentEvent::Exited(None))));
    assert!(client.is_closed());
    assert!(matches!(client.receive(update), Received::Nothing));
    assert!(client.log("noise".into()).is_none());
    match client.receive(&ASK.replace('\n', " ")) {
        Received::Reply { log, .. } => assert!(log.is_none()),
        other => panic!("{other:?}"),
    }
    assert!(client.close().event.is_none());
}

#[test]
fn the_policy_can_be_read_and_set() {
    let mut client: AcpClient<u8> = AcpClient::new();
    assert_eq!(client.permission_policy(), PermissionPolicy::DenyAll);
    client.set_permission_policy(PermissionPolicy::AllowOnce);
    assert_eq!(client.permission_policy(), PermissionPolicy::AllowOnce);
}

#[test]
fn an_update_becomes_an_event() {
    let mut client: AcpClient<u8> = AcpClient::new();
    let line = r#"{"method":"session/update","params":{"sessionId":"s","update":{"sessionUpdate":"plan","entries":[]}}}"#;
    match client.receive(line) {
        Received::Event(AgentEvent::Update(n)) => {
            assert_eq!(n.session_id, "s");
            assert!(matches!(n.update, SessionUpdate::Plan { .. }));
        }
        other => panic!("{other:?}"),
    }
}

#[test]
fn a_method_the_client_lacks_is_answered_with_an_error() {
    let mut client: AcpClient<u8> = AcpClient::new();
    match client.receive(r#"{"jsonrpc":"2.0","id":"abc","method":"fs/read_text_file"}"#) {
        Received::Reply { line, log } => {
            assert_eq!(
                line,
                "{\"error\":{\"code\":-32601,\"message\":\"fs/read_text_file is not supported \
                 by this client\"},\"id\":\"abc\",\"jsonrpc\":\"2.0\"}\n"
            );
            assert!(log.is_none());
        }
        other => panic!("{other:?}"),
    }
    let answer = answer_request("x", None, PermissionPolicy::AllowOnce);
    assert_eq!(answer.body.len(), 1);
    assert_eq!(answer.body[0].0, "error");
}

fn option(id: &str, kind: Option<PermissionKind>) -> PermissionOption {
    PermissionOption {
        option_id: id.into(),
        name: None,
        kind,
    }
}

#[test]
fn denying_all_never_grants() {
    let deny = PermissionPolicy::DenyAll;
    for (kinds, expected) in [
        (vec![Some(PermissionKind::AllowOnce), Some(PermissionKind::RejectOnce)], Some(1)),
        (vec![Some(PermissionKind::RejectAlways), Some(PermissionKind::RejectOnce)], Some(0)),
        (vec![Some(PermissionKind::AllowAlways), None], Some(1)),
        (vec![Some(PermissionKind::AllowOnce), Some(PermissionKind::Unknown)], Some(1)),
        (vec![Some(PermissionKind::AllowOnce), Some(PermissionKind::AllowAlways)], None),
        (vec![], None),
    ] {
        let options: Vec<_> = kinds.iter().map(|k| option("o", *k)).collect();
        assert_eq!(choose_option(&options, deny), expected, "{kinds:?}");
    }
}

#[test]
fn allowing_once_never_grants_for_good() {
    let allow = PermissionPolicy::AllowOnce;
    for (kinds, expected) in [
        (vec![Some(PermissionKind::RejectOnce), Some(PermissionKind::AllowOnce)], Some(1)),
        (vec![Some(PermissionKind::AllowAlways), Some(PermissionKind::AllowOnce)], Some(1)),
        (vec![Some(PermissionKind::AllowAlways), Some(PermissionKind::RejectOnce)], Some(1)),
        (vec![Some(PermissionKind::RejectOnce), None], Some(0)),
        (vec![Some(PermissionKind::AllowAlways)], None),
        (vec![], None),
    ] {
        let options: Vec<_> = kinds.iter().map(|k| option("o", *k)).collect();
        assert_eq!(choose_option(&options, allow), expected, "{kinds:?}");
    }
}

#[test]
fn permission_answers_are_written_out() {
    let request = |options| RequestPermissionParams {
        session_id: "s".into(),
        tool_call: None,
        options,
    };
    let (result, log) = answer_permission(
        Some(request(vec![option("n", Some(PermissionKind::RejectOnce))])),
        PermissionPolicy::DenyAll,
    );
    assert_eq!(
        result.into_line(),
        "{\"outcome\":{\"optionId\":\"n\",\"outcome\":\"selected\"}}\n"
    );
    assert_eq!(log, "permission refused for an operation");

    let (result, log) = answer_permission(Some(request(vec![])), PermissionPolicy::AllowOnce);
    assert_eq!(result.into_line(), "{\"outcome\":{\"outcome\":\"cancelled\"}}\n");
    assert_eq!(log, "permission request for an operation had no options; cancelled");

    // Only grants on offer: refusing means choosing none of them.
    let (result, log) = answer_permission(
        Some(request(vec![option("y", Some(PermissionKind::AllowOnce))])),
        PermissionPolicy::DenyAll,
    );
    assert_eq!(result.into_line(), "{\"outcome\":{\"outcome\":\"cancelled\"}}\n");
    assert_eq!(log, "permission refused for an operation");

    // A request that cannot be read is answered all the same.
    let answer = answer_request(
        "session/request_permission",
        Some(&json(r#"{"options":3}"#)),
        PermissionPolicy::AllowOnce,
    );
    assert_eq!(answer.body[0].0, "result");
    assert_eq!(
        answer.body[0].1.clone().into_line(),
        "{\"outcome\":{\"outcome\":\"cancelled\"}}\n"
    );
    assert!(matches!(answer.log, Some(AgentEvent::Log(_))));
}

#[test]
fn a_request_settles_or_times_out() {
    let mut client: AcpClient<u8> = AcpClient::new();
    let (id, _) = client.request("m", Json::Null, 1);
    assert_eq!(
        client.settle(id, "m", "60s", Some(Ok(Json::unsigned(4)))),
        Ok(Json::unsigned(4))
    );
    let error = client
        .settle(
            id,
            "m",
            "60s",
            Some(Err(RpcErr { code: 7, message: "no session".into() })),
        )
        .unwrap_err();
    assert_eq!(error.describe(), "agent error 7: no session");

    let late = client.settle(id, "session/prompt", "10s", None).unwrap_err();
    assert_eq!(
        late,
        ClientError::TimedOut { waited: "10s".into(), method: "session/prompt".into() }
    );
    assert_eq!(
        late.describe(),
        "timed out after 10s waiting for `session/prompt`"
    );
    // Nobody waits any more.
    assert!(matches!(
        client.receive(&format!("{{\"id\":{id},\"result\":1}}")),
        Received::Nothing
    ));
}

#[test]
fn a_closed_connection_strands_nobody() {
    let mut client = AcpClient::new();
    let mut ids = vec![];
    for waiter in ["a", "b", "c"] {
        ids.push((client.request("m", Json::Null, waiter).0, waiter));
    }
    let Closed { woken, event } = client.close();
    assert!(matches!(event, Some(AgentEvent::Exited(None))));
    let mut seen: Vec<_> = woken.iter().map(|w| (w.id, w.waiter)).collect();
    seen.sort();
    assert_eq!(seen, ids);
    for w in woken {
        let error = w.outcome.unwrap_err();
        assert_eq!(error.code, -32603);
        assert_eq!(error.message, "agent closed the connection");
    }
    assert!(client.close().woken.is_empty());
}

#[test]
fn a_failure_to_start_names_the_program() {
    assert_eq!(
        spawn_failure("knossos", "not found"),
        "could not start agent `knossos`: not found"
    );
}

#[test]
fn errors_are_described() {
    let low = RpcErr { code: i64::MIN, message: "m".into() };
    assert_eq!(low.describe(), "agent error -9223372036854775808: m");
    assert_eq!(
        ClientError::Rpc(RpcErr { code: 0, message: "".into() }).describe(),
        "agent error 0: "
    );
    assert_eq!(
        AcpClient::<u8>::session_opened(&json(r#"{"sessionId":5}"#))
            .unwrap_err()
            .describe(),
        "invalid type: integer `5`, expected a string"
    );
    assert_eq!(
        AcpClient::<u8>::session_opened(&Json::Null).unwrap_err(),
        ClientError::Reply(DecodeError::InvalidType {
            found: "null".into(),
            expected: "struct NewSessionResult".into(),
        })
    );
    assert_eq!(
        AcpClient::<u8>::turn_ended(&json("{}")).unwrap_err(),
        ClientError::Reply(DecodeError::MissingField { name: "stopReason".into() })
    );
}
