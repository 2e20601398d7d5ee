use browser_underlay::binding::{
    binding_from_row, find_pane_row_by_session_uuid, pane_target, stdio_request,
    stdio_tool_content, window_target, StdioToolCall,
};
use browser_underlay::mcp::ToolContent;
use browser_underlay::json::Json;
use browser_underlay::protocol::{
    ActionKind, ActionParams, ErrorCode, PaneSelector, PaneTarget, TabSelector, TabTarget, WindowSelector, WindowTarget,
};

fn member(key: &str, value: Json) -> (String, Json) {
    (key.to_owned(), value)
}

fn text(s: &str) -> Json {
    Json::String(s.to_owned())
}

fn pane_row(session_uuid: Option<&str>) -> Json {
    Json::Object(vec![
        member("pane_id", text("pane_1")),
        member("tab_id", text("tab_1")),
        member("window_id", text("window_1")),
        member("session_uuid", session_uuid.map(text).unwrap_or(Json::Null)),
    ])
}

#[test]
fn finds_pane_row_by_session_uuid_case_insensitively() {
    let rows = vec![pane_row(None), pane_row(Some("ABCDEF0123"))];

    let row = find_pane_row_by_session_uuid(&rows, "abcdef0123")
        .expect("hex uuid should match case-insensitively");

    assert_eq!(row.str_member("pane_id").map(|v| v.as_str()), Some("pane_1"));
    assert_eq!(row, &rows[1]);
}

#[test]
fn returns_none_for_unknown_session_uuid() {
    let rows = vec![pane_row(Some("abcdef0123"))];

    assert!(find_pane_row_by_session_uuid(&rows, "0000000000").is_none());
}

#[test]
fn non_terminal_panes_with_null_uuid_never_match() {
    let rows = vec![pane_row(None)];

    assert!(find_pane_row_by_session_uuid(&rows, "abcdef0123").is_none());
}

#[test]
fn binding_from_row_reads_ids() {
    let binding = binding_from_row(&pane_row(Some("abc"))).expect("row has all ids");

    assert_eq!(binding.window_id, "window_1");
    assert_eq!(binding.tab_id, "tab_1");
    assert_eq!(binding.pane_id, "pane_1");
}

#[test]
fn binding_from_row_rejects_incomplete_rows() {
    let err = binding_from_row(&Json::Object(vec![member("pane_id", text("pane_1"))]))
        .expect_err("missing window/tab ids are rejected");

    assert_eq!(err.code, ErrorCode::Internal);
}

#[test]
fn window_target_selects_only_the_window() {
    let binding = binding_from_row(&pane_row(None)).expect("row has all ids");

    let target = window_target(&binding);

    assert_eq!(
        target.window,
        Some(WindowTarget::Id { id: WindowSelector("window_1".to_owned()) })
    );
    assert_eq!(target.tab, None);
    assert_eq!(target.pane, None);
    assert_eq!(target.session, None);
}

#[test]
fn pane_target_selects_window_tab_and_pane() {
    let binding = binding_from_row(&pane_row(None)).expect("row has all ids");

    let target = pane_target(&binding);

    assert_eq!(
        target.window,
        Some(WindowTarget::Id { id: WindowSelector("window_1".to_owned()) })
    );
    assert_eq!(target.tab, Some(TabTarget::Id { id: TabSelector("tab_1".to_owned()) }));
    assert_eq!(target.pane, Some(PaneTarget::Id { id: PaneSelector("pane_1".to_owned()) }));
    assert_eq!(target.session, None);
}

#[test]
fn stdio_tools_pick_pane_or_window_selectors() {
    let binding = || binding_from_row(&pane_row(None)).expect("row has all ids");

    let (action, params, target) = stdio_request(
        StdioToolCall::Attach { url: "https://example.com".to_owned(), glass: None, glass_opacity: Some(40) },
        &binding(),
    );
    assert_eq!(action, ActionKind::BrowserAttach);
    match params {
        ActionParams::Attach(p) => {
            assert!(p.glass);
            assert_eq!(p.glass_opacity, Some(40));
            assert!(!p.ambience);
            assert_eq!(p.pane_session_uuid, None);
        }
        other => panic!("unexpected {other:?}"),
    }
    assert_eq!(target, pane_target(&binding()));

    let (action, _, target) = stdio_request(
        StdioToolCall::SetGlass { enabled: false, opacity: None, pane: Some("abc".to_owned()) },
        &binding(),
    );
    assert_eq!(action, ActionKind::PaneGlassSet);
    assert_eq!(target, pane_target(&binding()));

    for (call, kind) in [
        (StdioToolCall::Navigate { url: "u".to_owned() }, ActionKind::BrowserNavigate),
        (StdioToolCall::Eval { javascript: "1".to_owned() }, ActionKind::BrowserEval),
        (StdioToolCall::Screenshot, ActionKind::BrowserScreenshot),
        (StdioToolCall::SetInteractive { enabled: true }, ActionKind::BrowserInteractive),
        (StdioToolCall::Status, ActionKind::BrowserStatus),
        (StdioToolCall::Detach, ActionKind::BrowserDetach),
    ] {
        let (action, _, target) = stdio_request(call, &binding());
        assert_eq!(action, kind);
        assert_eq!(target, window_target(&binding()));
    }

    assert_eq!(
        StdioToolCall::SetGlass { enabled: true, opacity: None, pane: Some("p".to_owned()) }.explicit_pane(),
        Some("p".to_owned())
    );
    assert_eq!(StdioToolCall::Status.explicit_pane(), None);

    let reply = Json::Object(vec![member("result", text("Example Domain"))]);
    assert_eq!(
        stdio_tool_content(ActionKind::BrowserEval, reply),
        Ok(ToolContent::Text { text: "Example Domain".to_owned() })
    );
    assert_eq!(
        stdio_tool_content(ActionKind::BrowserEval, Json::Object(vec![])),
        Ok(ToolContent::Text { text: String::new() })
    );
    assert_eq!(
        stdio_tool_content(ActionKind::BrowserScreenshot, Json::Object(vec![])),
        Err("browser.screenshot response is missing PNG data".to_owned())
    );
    assert_eq!(
        stdio_tool_content(ActionKind::BrowserScreenshot, Json::Object(vec![member("data_base64", text("cGln"))])),
        Ok(ToolContent::Image { data: "cGln".to_owned(), mime_type: "image/png".to_owned() })
    );
}
