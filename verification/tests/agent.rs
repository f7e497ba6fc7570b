use lapce_acp::agent::{
    after_handshake, after_new_session, after_spawn, append_streamed, apply_tool_update,
    to_locations, AgentData, AgentStatus, ConnectStep, Connection, Entry, PromptText, ToolEntry,
    CONNECT_TIMEOUT_SECONDS, TURN_TIMEOUT_SECONDS,
};
use lapce_acp::json::Json;
use lapce_acp::{
    AgentEvent, ContentBlock, Implementation, InitializeResult, SessionNotification,
    SessionUpdate, StopReason, ToolCall, ToolCallLocation, ToolCallStatus, ToolCallUpdate,
};

fn tool(id: &str, title: &str) -> Entry {
    Entry::Tool(ToolEntry {
        id: id.into(),
        title: title.into(),
        status: Some(ToolCallStatus::Pending),
        locations: vec![],
    })
}

fn update(id: &str) -> ToolCallUpdate {
    ToolCallUpdate {
        tool_call_id: id.into(),
        title: None,
        status: None,
        locations: vec![],
        content: vec![],
    }
}

#[test]
fn streamed_chunks_coalesce_into_one_row() {
    let mut e = im::Vector::new();
    for chunk in ["Hel", "lo ", "world"] {
        append_streamed(&mut e, chunk, false);
    }
    assert_eq!(e.len(), 1, "a streamed reply must not be one row per token");
    assert!(matches!(&e[0], Entry::Agent(s) if s == "Hello world"));
}

#[test]
fn thinking_never_merges_into_the_answer() {
    // The bug this prevents: a model's scratchpad rendered as its reply.
    let mut e = im::Vector::new();
    append_streamed(&mut e, "let me think", true);
    append_streamed(&mut e, "the answer", false);
    append_streamed(&mut e, " continues", false);

    assert_eq!(e.len(), 2);
    assert!(matches!(&e[0], Entry::Thought(s) if s == "let me think"));
    assert!(matches!(&e[1], Entry::Agent(s) if s == "the answer continues"));
}

#[test]
fn a_reply_after_a_tool_call_starts_a_new_row() {
    let mut e = im::Vector::new();
    append_streamed(&mut e, "first", false);
    e.push_back(tool("c1", "searching"));
    append_streamed(&mut e, "second", false);

    assert_eq!(e.len(), 3);
    assert!(matches!(&e[2], Entry::Agent(s) if s == "second"));
}

#[test]
fn thoughts_coalesce_too() {
    let mut e = im::Vector::new();
    append_streamed(&mut e, "a", true);
    append_streamed(&mut e, "b", true);
    append_streamed(&mut e, "", true);
    assert_eq!(e.len(), 1);
    assert!(matches!(&e[0], Entry::Thought(s) if s == "ab"));
}

#[test]
fn a_copy_of_the_transcript_keeps_its_rows() {
    let mut e = im::Vector::new();
    for i in 0..200 {
        e.push_back(tool(&i.to_string(), "t"));
        append_streamed(&mut e, "x", false);
    }
    let copy = e.clone();
    append_streamed(&mut e, "y", false);
    let mut u = update("100");
    u.title = Some("changed".into());
    apply_tool_update(&mut e, &u);
    assert!(matches!(&copy[399], Entry::Agent(s) if s == "x"));
    assert!(matches!(&e[399], Entry::Agent(s) if s == "xy"));
    assert!(matches!(&copy[200], Entry::Tool(t) if t.title == "t"));
    assert!(matches!(&e[200], Entry::Tool(t) if t.title == "changed"));
    assert_eq!(e.len(), 400);
}

#[test]
fn a_tool_update_merges_into_its_own_row() {
    let mut e = im::Vector::new();
    e.push_back(tool("c1", "searching"));
    e.push_back(tool("c2", "editing"));

    let mut u = update("c1");
    u.status = Some(ToolCallStatus::Completed);
    u.title = Some("searched 3 files".into());
    apply_tool_update(&mut e, &u);

    match (&e[0], &e[1]) {
        (Entry::Tool(a), Entry::Tool(b)) => {
            assert_eq!(a.title, "searched 3 files");
            assert_eq!(a.status, Some(ToolCallStatus::Completed));
            assert_eq!(b.title, "editing", "the other row must be untouched");
        }
        _ => panic!("expected two tool rows"),
    }
}

#[test]
fn absent_fields_in_an_update_do_not_blank_existing_values() {
    // ACP updates carry only what changed. Treating a missing field as
    // "clear it" wipes the title the moment a status-only update arrives.
    let mut e = im::Vector::new();
    e.push_back(tool("c1", "searching the repository"));
    apply_tool_update(&mut e, &update("c1"));

    match &e[0] {
        Entry::Tool(t) => {
            assert_eq!(t.title, "searching the repository");
            assert_eq!(t.status, Some(ToolCallStatus::Pending));
        }
        _ => panic!("expected a tool row"),
    }
}

#[test]
fn an_update_for_an_unknown_tool_is_ignored() {
    let mut e = im::Vector::new();
    e.push_back(tool("c1", "searching"));
    let mut u = update("nope");
    u.title = Some("hijacked".into());
    apply_tool_update(&mut e, &u);

    assert!(matches!(&e[0], Entry::Tool(t) if t.title == "searching"));
}

#[test]
fn an_update_goes_to_the_last_row_of_its_call_and_repeats_do_nothing() {
    let mut e = im::Vector::new();
    e.push_back(tool("c1", "first"));
    e.push_back(tool("c1", "second"));
    e.push_back(Entry::Notice("between".into()));
    let mut u = update("c1");
    u.locations = vec![ToolCallLocation { path: "/a".into(), line: Some(3) }];
    for _ in 0..2 {
        apply_tool_update(&mut e, &u);
        assert_eq!(e.len(), 3);
        assert!(matches!(&e[0], Entry::Tool(t) if t.locations.is_empty()));
        assert!(
            matches!(&e[1], Entry::Tool(t) if t.title == "second" && t.locations == vec![("/a".to_string(), 2)])
        );
    }
    // An update without locations leaves those that are there.
    apply_tool_update(&mut e, &update("c1"));
    assert!(matches!(&e[1], Entry::Tool(t) if t.locations.len() == 1));
}

#[test]
fn acp_lines_are_converted_to_the_editors_zero_base() {
    // ACP is 1-based, the editor is 0-based. Getting this wrong opens the
    // file one line off -- easy to miss, maddening to use.
    let locs = to_locations(&[
        ToolCallLocation {
            path: "/a/moe.py".into(),
            line: Some(29),
        },
        ToolCallLocation {
            path: "/a/x.py".into(),
            line: Some(1),
        },
        ToolCallLocation {
            path: "/a/y.py".into(),
            line: None,
        },
    ]);
    assert_eq!(locs[0].1, 28);
    // Line 1 must not underflow to u32::MAX.
    assert_eq!(locs[1].1, 0);
    // A location with no line lands at the top of the file, not below it.
    assert_eq!(locs[2].1, 0);
}

#[test]
fn odd_lines_are_converted_too() {
    let locs = to_locations(&[
        ToolCallLocation { path: "p".into(), line: Some(0) },
        ToolCallLocation { path: "q".into(), line: Some(u32::MAX) },
    ]);
    assert_eq!(locs, vec![("p".to_string(), 0), ("q".to_string(), u32::MAX - 1)]);
}

#[test]
fn status_reports_busy_only_while_work_is_in_flight() {
    assert!(AgentStatus::Connecting.is_busy());
    assert!(AgentStatus::Working.is_busy());
    assert!(!AgentStatus::Ready.is_busy());
    assert!(!AgentStatus::Stopped.is_busy());
    assert!(!AgentStatus::Failed("x".into()).is_busy());
}

#[test]
fn a_failure_reason_reaches_the_user() {
    let s = AgentStatus::Failed("connection refused".into()).describe();
    assert!(s.contains("connection refused"), "silent failure: {s}");
}

#[test]
fn every_status_is_described() {
    assert_eq!(AgentStatus::Stopped.describe(), "not started");
    assert_eq!(AgentStatus::Connecting.describe(), "connecting…");
    assert_eq!(AgentStatus::Ready.describe(), "ready");
    assert_eq!(AgentStatus::Working.describe(), "working…");
    assert_eq!(AgentStatus::Failed("x".into()).describe(), "failed: x");
    assert_eq!(CONNECT_TIMEOUT_SECONDS, 60);
    assert_eq!(TURN_TIMEOUT_SECONDS, 600);
}

fn shown(data: &AgentData<u8>) -> Vec<String> {
    data.entries.iter().map(|e| format!("{e:?}")).collect()
}

fn ready() -> AgentData<u8> {
    let mut data = AgentData::new();
    let launch = data
        .start("knossos".into(), vec!["-m".into()], "/w".into())
        .unwrap();
    assert_eq!(launch.program, "knossos");
    assert_eq!(launch.args, vec!["-m".to_string()]);
    assert_eq!(launch.cwd, "/w");
    data.connected(Ok(Connection {
        client: 7,
        session: "s1".into(),
        name: "Knossos".into(),
    }));
    data
}

#[test]
fn a_session_starts_once_and_attaches() {
    let mut data: AgentData<u8> = AgentData::new();
    assert_eq!(data.status, AgentStatus::Stopped);
    assert_eq!(data.cancel(), None);
    assert!(data.start("p".into(), vec![], "/".into()).is_some());
    assert_eq!(data.status, AgentStatus::Connecting);
    assert_eq!(shown(&data), vec!["Notice(\"starting p…\")"]);
    // A second start while the first is under way does nothing.
    assert!(data.start("q".into(), vec![], "/".into()).is_none());
    assert_eq!(shown(&data), vec!["Notice(\"starting p…\")"]);

    let data = ready();
    assert_eq!(data.status, AgentStatus::Ready);
    assert_eq!(data.agent_name, Some("Knossos".into()));
    assert_eq!(data.session_id, Some("s1".into()));
    assert_eq!(data.client, Some(7));
    assert_eq!(
        shown(&data),
        vec!["Notice(\"starting knossos…\")", "Notice(\"connected\")"]
    );
    assert_eq!(data.cancel(), Some("s1".into()));
}

#[test]
fn a_failed_start_says_why_and_can_be_repeated() {
    let mut data: AgentData<u8> = AgentData::new();
    data.start("p".into(), vec![], "/".into());
    data.connected(Err("handshake: boom".into()));
    assert_eq!(data.status, AgentStatus::Failed("handshake: boom".into()));
    assert_eq!(
        shown(&data),
        vec!["Notice(\"starting p…\")", "Notice(\"handshake: boom\")"]
    );
    assert!(data.start("p".into(), vec![], "/".into()).is_some());
    assert_eq!(data.entries.len(), 1);
}

#[test]
fn connecting_goes_step_by_step() {
    assert!(matches!(
        after_spawn(Ok(5u8)),
        ConnectStep::Handshake { client: 5 }
    ));
    match after_spawn::<u8>(Err("gone".into())) {
        ConnectStep::Ended(Err(e)) => assert_eq!(e, "gone"),
        other => panic!("{other:?}"),
    }

    let init = |info| InitializeResult {
        protocol_version: 1,
        agent_capabilities: Json::Null,
        agent_info: info,
        auth_methods: vec![],
    };
    let info = Implementation {
        name: "Knossos".into(),
        title: None,
        version: None,
    };
    match after_handshake(5u8, "prog", Ok(init(Some(info)))) {
        ConnectStep::OpenSession { client, name } => {
            assert_eq!(client, 5);
            assert_eq!(name, "Knossos");
        }
        other => panic!("{other:?}"),
    }
    match after_handshake(5u8, "prog", Ok(init(None))) {
        ConnectStep::OpenSession { name, .. } => assert_eq!(name, "prog"),
        other => panic!("{other:?}"),
    }
    match after_handshake(5u8, "prog", Err("late".into())) {
        ConnectStep::Ended(Err(e)) => assert_eq!(e, "handshake: late"),
        other => panic!("{other:?}"),
    }

    match after_new_session(5u8, "n".into(), Ok("s".into())) {
        ConnectStep::Ended(Ok(c)) => {
            assert_eq!((c.client, c.session.as_str(), c.name.as_str()), (5, "s", "n"))
        }
        other => panic!("{other:?}"),
    }
    match after_new_session(5u8, "n".into(), Err("no".into())) {
        ConnectStep::Ended(Err(e)) => assert_eq!(e, "session: no"),
        other => panic!("{other:?}"),
    }
}

#[test]
fn a_prompt_is_sent_only_to_an_idle_session() {
    let mut data: AgentData<u8> = AgentData::new();
    assert!(data.send("hi".into()).is_none());

    let mut data = ready();
    assert!(data.send(" \n\t".into()).is_none());
    assert_eq!(data.status, AgentStatus::Ready);
    let turn = data.send("hi".into()).unwrap();
    assert_eq!(turn.session, "s1");
    assert_eq!(turn.text, "hi");
    assert_eq!(data.status, AgentStatus::Working);
    assert_eq!(shown(&data)[2], "User(\"hi\")");
    assert!(data.send("again".into()).is_none());
    assert!(data.start("x".into(), vec![], "/".into()).is_none());
    assert_eq!(data.entries.len(), 3);

    data.turn_ended(Ok(StopReason::EndTurn));
    assert_eq!(data.status, AgentStatus::Ready);
    assert_eq!(data.entries.len(), 3);
    assert!(data.send("again".into()).is_some());
}

#[test]
fn a_turn_cut_short_says_so() {
    let mut data = ready();
    data.send("hi".into());
    data.turn_ended(Ok(StopReason::MaxTokens));
    assert_eq!(data.status, AgentStatus::Ready);
    assert_eq!(shown(&data)[3], "Notice(\"stopped: token limit reached\")");

    data.send("hi".into());
    data.turn_ended(Err("agent error 1: x".into()));
    assert_eq!(data.status, AgentStatus::Failed("agent error 1: x".into()));
    assert_eq!(shown(&data)[5], "Notice(\"turn failed: agent error 1: x\")");
}

#[test]
fn submitting_clears_the_prompt_box() {
    let mut data = ready();
    let mut input = PromptText::new("  ");
    assert!(data.submit(&mut input).is_none());
    assert_eq!(input.text(), "  ");

    let long = "where is the router?\n".repeat(500);
    let mut input = PromptText::new(&long);
    assert_eq!(input.text(), long);
    let turn = data.submit(&mut input).unwrap();
    assert_eq!(turn.text, long);
    assert_eq!(input.text(), "");

    // Busy: nothing is sent, and the box is cleared all the same.
    let mut input = PromptText::new("more");
    assert!(data.submit(&mut input).is_none());
    assert_eq!(input.text(), "");
}

#[test]
fn stopping_gives_up_the_session() {
    let mut data = ready();
    assert_eq!(data.stop(), Some(7));
    assert_eq!(data.status, AgentStatus::Stopped);
    assert_eq!(data.session_id, None);
    assert_eq!(data.client, None);
    assert_eq!(data.agent_name, Some("Knossos".into()));
    assert_eq!(data.entries.len(), 2);
    assert!(data.send("hi".into()).is_none());
    assert_eq!(data.stop(), None);
}

fn event(update: SessionUpdate) -> AgentEvent {
    AgentEvent::Update(SessionNotification {
        session_id: "s1".into(),
        update,
        unrecognised: None,
    })
}

#[test]
fn events_make_the_transcript() {
    let mut data: AgentData<u8> = AgentData::new();
    data.apply(event(SessionUpdate::AgentThoughtChunk { content: ContentBlock::text("hm") }));
    data.apply(event(SessionUpdate::AgentMessageChunk { content: ContentBlock::text("a") }));
    data.apply(event(SessionUpdate::AgentMessageChunk { content: ContentBlock::text("b") }));
    data.apply(event(SessionUpdate::AgentMessageChunk { content: ContentBlock::Other }));
    data.apply(event(SessionUpdate::UserMessageChunk { content: ContentBlock::text("u") }));
    data.apply(event(SessionUpdate::Plan { entries: vec![] }));
    data.apply(AgentEvent::Log("noise".into()));
    data.apply(event(SessionUpdate::ToolCall(ToolCall {
        tool_call_id: "c1".into(),
        title: None,
        kind: None,
        status: Some(ToolCallStatus::Pending),
        locations: vec![ToolCallLocation { path: "/a".into(), line: Some(2) }],
    })));
    let mut u = update("c1");
    u.status = Some(ToolCallStatus::Failed);
    data.apply(event(SessionUpdate::ToolCallUpdate(u)));

    assert_eq!(data.entries.len(), 3);
    assert!(matches!(&data.entries[0], Entry::Thought(s) if s == "hm"));
    assert!(matches!(&data.entries[1], Entry::Agent(s) if s == "ab"));
    match &data.entries[2] {
        Entry::Tool(t) => {
            assert_eq!(t.id, "c1");
            assert_eq!(t.title, "tool");
            assert_eq!(t.status, Some(ToolCallStatus::Failed));
            assert_eq!(t.locations, vec![("/a".to_string(), 1)]);
        }
        other => panic!("{other:?}"),
    }
}

#[test]
fn an_unknown_update_shows_that_something_happened() {
    let mut data = ready();
    data.apply(event(SessionUpdate::Unknown));
    assert_eq!(data.entries.len(), 3);
    assert_eq!(shown(&data)[2], "Notice(\"something happened\")");
    assert_eq!(data.status, AgentStatus::Ready);
    assert_eq!(data.client, Some(7));
    assert_eq!(data.session_id, Some("s1".into()));
}

#[test]
fn an_exit_ends_the_session() {
    let mut data = ready();
    data.apply(AgentEvent::Exited(Some(-9)));
    assert_eq!(shown(&data)[2], "Notice(\"agent exited (-9)\")");
    assert_eq!(data.status, AgentStatus::Stopped);
    assert_eq!(data.client, None);
    assert_eq!(data.session_id, None);
    data.apply(AgentEvent::Exited(None));
    assert_eq!(shown(&data)[3], "Notice(\"agent exited\")");
}
