use lapce_acp::agent::{AgentStatus, Entry, ToolEntry};
use lapce_acp::panel::{
    entry_row, is_for_prompt, label_link, prompt_key, status_line, status_tone, transcript,
    CommandKind, KeyAction, PermissionBar, PermissionRequest, Tone,
};
use lapce_acp::ToolCallStatus;

#[test]
fn the_status_line_names_the_agent() {
    assert_eq!(
        status_line(&None, &AgentStatus::Stopped),
        "no agent — not started"
    );
    assert_eq!(
        status_line(&Some("Knossos".into()), &AgentStatus::Failed("x".into())),
        "Knossos — failed: x"
    );
    assert_eq!(status_tone(&AgentStatus::Failed("x".into())), Tone::Error);
    assert_eq!(status_tone(&AgentStatus::Working), Tone::Dim);
}

#[test]
fn no_two_statuses_look_the_same() {
    let statuses = [
        AgentStatus::Stopped,
        AgentStatus::Connecting,
        AgentStatus::Ready,
        AgentStatus::Working,
        AgentStatus::Failed("".into()),
        AgentStatus::Failed("x".into()),
    ];
    for (i, a) in statuses.iter().enumerate() {
        for b in &statuses[..i] {
            assert_ne!(status_line(&None, a), status_line(&None, b));
        }
    }
}

#[test]
fn a_label_names_a_piece_of_any_path() {
    for path in ["C:\\src\\main.rs", "\\\\server\\share", "//a/b", "C:"] {
        let row = entry_row(&tool(None, vec![(path.into(), 0)]));
        let name = row.links[0].label.strip_suffix(":1").unwrap();
        assert!(!name.is_empty() && path.contains(name), "{name}");
    }
}

#[test]
fn kinds_of_row_are_distinguished() {
    let user = entry_row(&Entry::User("q".into()));
    assert_eq!(user.text, "q");
    assert_eq!(user.tone, Tone::Foreground);
    assert!(user.highlighted);
    assert_eq!(user.padding, 6);
    let answer = entry_row(&Entry::Agent("a".into()));
    assert_eq!(answer.tone, Tone::Foreground);
    assert!(!answer.highlighted);
    let thought = entry_row(&Entry::Thought("  hm \n".into()));
    assert_eq!(thought.text, "hm");
    assert_eq!(thought.tone, Tone::Dim);
    assert!(thought.small);
    let notice = entry_row(&Entry::Notice("n".into()));
    assert_eq!(notice.tone, Tone::Dim);
    assert!(!notice.small);
    assert_eq!(notice.padding, 4);
}

#[test]
fn long_thoughts_are_cut() {
    let exact = "é".repeat(160);
    assert_eq!(entry_row(&Entry::Thought(exact.clone())).text, exact);
    let long = "é".repeat(161);
    assert_eq!(
        entry_row(&Entry::Thought(format!(" {long} "))).text,
        format!("{exact}…")
    );
}

fn tool(status: Option<ToolCallStatus>, locations: Vec<(String, u32)>) -> Entry {
    Entry::Tool(ToolEntry {
        id: "c".into(),
        title: "grep".into(),
        status,
        locations,
    })
}

#[test]
fn tool_rows_are_marked() {
    for (status, text, tone) in [
        (Some(ToolCallStatus::Completed), "✓ grep", Tone::Dim),
        (Some(ToolCallStatus::Failed), "✗ grep", Tone::Error),
        (Some(ToolCallStatus::InProgress), "… grep", Tone::Dim),
        (Some(ToolCallStatus::Pending), "· grep", Tone::Dim),
        (Some(ToolCallStatus::Unknown), "· grep", Tone::Dim),
        (None, "· grep", Tone::Dim),
    ] {
        let row = entry_row(&tool(status, vec![]));
        assert_eq!(row.text, text);
        assert_eq!(row.tone, tone);
        assert!(row.links.is_empty());
    }
}

#[test]
fn locations_are_links() {
    let row = entry_row(&tool(
        None,
        vec![
            ("/abs/moe.py".into(), 28),
            ("x.py/".into(), 0),
            ("a/./b/.".into(), 1),
            ("/".into(), 2),
            ("a/..".into(), 3),
            ("..".into(), 4),
            ("".into(), 5),
            ("./.".into(), 6),
            ("a//".into(), 7),
            ("/src/b:c".into(), 8),
            ("C:/a/moe.py".into(), 9),
        ],
    ));
    let labels: Vec<_> = row.links.iter().map(|l| l.label.as_str()).collect();
    assert_eq!(
        labels,
        vec!["moe.py:29", "x.py:1", "b:2", "/:3", "a/..:4", "..:5", ":6", "./.:7", "a:8", "b:c:9", "moe.py:10"]
    );
    assert_eq!(row.links[0].path, "/abs/moe.py");
    assert_eq!(row.links[0].line, 28);
    assert_eq!(label_link(&None, "p", 9), "p:10");
    assert_eq!(label_link(&Some("n".into()), "p", u32::MAX - 1), "n:4294967295");
}

#[test]
fn the_transcript_is_shown_in_order() {
    let mut e = im::Vector::new();
    for i in 0..100 {
        e.push_back(Entry::User(i.to_string()));
    }
    e.push_back(tool(None, vec![("/a/b.rs".into(), 0)]));
    let rows = transcript(&e);
    assert_eq!(rows.len(), 101);
    assert_eq!(rows[42].text, "42");
    assert_eq!(rows[100].links[0].label, "b.rs:1");
    assert!(transcript(&im::Vector::new()).is_empty());
}

#[test]
fn enter_submits_and_shift_enter_does_not() {
    assert_eq!(prompt_key(true, false), KeyAction::Submit);
    assert_eq!(prompt_key(true, true), KeyAction::Edit);
    assert_eq!(prompt_key(false, false), KeyAction::Edit);
    assert!(is_for_prompt(CommandKind::Edit));
    assert!(is_for_prompt(CommandKind::Move));
    assert!(is_for_prompt(CommandKind::MultiSelection));
    assert!(!is_for_prompt(CommandKind::Other));
}

fn bar() -> PermissionBar {
    PermissionBar {
        pending: Some(PermissionRequest {
            title: "delete everything".into(),
            options: vec![("y".into(), "Allow".into()), ("n".into(), "Reject".into())],
        }),
    }
}

#[test]
fn the_permission_bar_shows_what_is_asked() {
    let shown = bar().bar().unwrap();
    assert_eq!(shown.question, "Allow: delete everything?");
    assert_eq!(shown.choices, vec!["  [ Allow ]  ", "  [ Reject ]  "]);
    assert_eq!(shown.dismiss, "  [ Dismiss ]  ");
    assert!(PermissionBar { pending: None }.bar().is_none());
}

#[test]
fn every_way_out_of_the_permission_bar_answers() {
    let mut b = bar();
    let decision = b.select(1).unwrap();
    assert_eq!(decision.option_id, Some("n".into()));
    assert!(b.pending.is_none());
    assert_eq!(
        decision.result().into_line(),
        "{\"outcome\":{\"optionId\":\"n\",\"outcome\":\"selected\"}}\n"
    );
    assert!(b.select(0).is_none());
    assert!(b.dismiss().is_none());

    let mut b = bar();
    assert!(b.select(2).is_none());
    assert!(b.pending.is_some());
    let decision = b.dismiss().unwrap();
    assert_eq!(decision.option_id, None);
    assert!(b.pending.is_none());
    assert_eq!(
        decision.result().into_line(),
        "{\"outcome\":{\"outcome\":\"cancelled\"}}\n"
    );
}
