use browser_underlay::json::{Json, JsonNumber};
use browser_underlay::mcp::{build_action, tool_definitions, tool_success_content, ToolContent};
use browser_underlay::protocol::{ActionKind, ActionParams};

const ALL_TOOLS: &[&str] = &[
    "browser_attach",
    "browser_navigate",
    "browser_eval",
    "browser_screenshot",
    "browser_set_glass",
    "browser_set_interactive",
    "browser_status",
    "browser_detach",
];

fn text(s: &str) -> Json {
    Json::String(s.to_owned())
}

fn object(members: Vec<(&str, Json)>) -> Json {
    Json::Object(members.into_iter().map(|(k, v)| (k.to_owned(), v)).collect())
}

fn args_for(tool: &str) -> Json {
    match tool {
        "browser_attach" | "browser_navigate" => object(vec![("url", text("https://example.com"))]),
        "browser_eval" => object(vec![("javascript", text("document.title"))]),
        "browser_set_glass" | "browser_set_interactive" => {
            object(vec![("enabled", Json::Bool(true))])
        }
        _ => object(vec![]),
    }
}

#[test]
fn every_tool_maps_to_a_pane_scoped_action() {
    for tool in ALL_TOOLS {
        let (action, params) = build_action(tool, &args_for(tool), "abc123")
            .unwrap_or_else(|error| panic!("tool {tool} failed to map: {error}"));
        // Agents may never reach the user's ambience underlay, and the pane
        // binding must survive into the dispatched params. (browser_set_glass
        // has no ambience route at all: covered separately below.)
        if *tool != "browser_set_glass" {
            assert_eq!(params.ambience(), Some(false), "{tool}");
        }
        assert_eq!(
            params.pane_session_uuid().map(|s| s.as_str()),
            Some("abc123"),
            "{tool}"
        );
        let expected = match *tool {
            "browser_attach" => ActionKind::BrowserAttach,
            "browser_navigate" => ActionKind::BrowserNavigate,
            "browser_eval" => ActionKind::BrowserEval,
            "browser_screenshot" => ActionKind::BrowserScreenshot,
            "browser_set_glass" => ActionKind::PaneGlassSet,
            "browser_set_interactive" => ActionKind::BrowserInteractive,
            "browser_status" => ActionKind::BrowserStatus,
            "browser_detach" => ActionKind::BrowserDetach,
            _ => unreachable!(),
        };
        assert_eq!(action, expected, "{tool}");
    }
}

#[test]
fn pane_glass_has_no_ambience_route() {
    let (_, params) = build_action(
        "browser_set_glass",
        &object(vec![("enabled", Json::Bool(false))]),
        "abc123",
    )
    .expect("glass maps");
    assert_eq!(params.ambience(), None);
    assert_eq!(params.pane_session_uuid().map(|s| s.as_str()), Some("abc123"));
}

#[test]
fn missing_required_arguments_are_rejected() {
    for (tool, missing) in [
        ("browser_attach", "url"),
        ("browser_navigate", "url"),
        ("browser_eval", "javascript"),
        ("browser_set_glass", "enabled"),
        ("browser_set_interactive", "enabled"),
    ] {
        let error = build_action(tool, &object(vec![]), "abc123")
            .expect_err("missing required argument must fail");
        assert!(error.contains(missing), "{tool}: {error}");
    }
}

#[test]
fn unknown_tools_are_rejected() {
    let error = build_action("browser_launch_missiles", &object(vec![]), "abc123")
        .expect_err("unknown tool must fail");
    assert!(error.contains("unknown tool"), "{error}");
}

#[test]
fn attach_defaults_glass_on_and_clamps_opacity() {
    let (_, params) = build_action(
        "browser_attach",
        &object(vec![
            ("url", text("https://example.com")),
            ("glass_opacity", Json::Number(JsonNumber::PosInt(400))),
        ]),
        "abc123",
    )
    .expect("attach maps");
    match params {
        ActionParams::Attach(p) => {
            assert!(p.glass);
            assert_eq!(p.glass_opacity, Some(100));
        }
        other => panic!("attach maps to attach params, got {other:?}"),
    }
}

#[test]
fn tool_catalog_annotates_pane_with_mcp_header() {
    let tools = tool_definitions();
    let tools = match &tools {
        Json::Array(items) => items,
        _ => panic!("tool list is an array"),
    };
    assert_eq!(tools.len(), ALL_TOOLS.len());
    for tool in tools {
        let name = tool.str_member("name").map(|s| s.as_str()).unwrap_or_default();
        assert!(ALL_TOOLS.contains(&name), "unexpected tool {name}");
        let header = tool
            .get("inputSchema")
            .and_then(|s| s.get("properties"))
            .and_then(|p| p.get("pane"))
            .and_then(|p| p.get("x-mcp-header"));
        assert_eq!(header, Some(&text("Pane")), "{name}");
    }
}

#[test]
fn screenshot_success_becomes_image_content_with_visibility_note() {
    let data = object(vec![
        ("data_base64", text("cGln")),
        ("format", text("png")),
        ("tab_visible", Json::Bool(false)),
    ]);
    let result = tool_success_content("browser_screenshot", data);
    match &result.content[0] {
        ToolContent::Image { data, mime_type } => {
            assert_eq!(data, "cGln");
            assert_eq!(mime_type, "image/png");
        }
        other => panic!("expected an image, got {other:?}"),
    }
    let note = match result.content.get(1) {
        Some(ToolContent::Text { text }) => text.clone(),
        _ => panic!("hidden-tab capture carries a staleness note"),
    };
    assert!(note.contains("not currently visible"));

    let visible = object(vec![("data_base64", text("cGln")), ("tab_visible", Json::Bool(true))]);
    let result = tool_success_content("browser_screenshot", visible);
    assert!(result.content.get(1).is_none());
}

#[test]
fn eval_success_returns_raw_result_text() {
    let result =
        tool_success_content("browser_eval", object(vec![("result", text("Example Domain"))]));
    assert_eq!(
        result.content[0],
        ToolContent::Text { text: "Example Domain".to_owned() }
    );
}
