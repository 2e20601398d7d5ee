use browser_underlay::binding::{
    binding_from_pane_inspect, binding_from_pane_list, binding_session_uuid, eq_ignore_ascii_case,
};
use browser_underlay::control::{
    attach_ambience_target, detach_target, finish_agent_target_attach, mcp_env_reply,
    navigate_target, attached_target, browser_status, ensure_browser_underlay_available, eval_target,
    pane_glass_set, resolve_target, screenshot_payload, screenshot_target, set_target_interactive,
    BrowserStatus, BrowserTargetRef,
};
use browser_underlay::json::{Json, JsonNumber};
use browser_underlay::lifecycle::{
    agent_detach, agent_navigate, ambience_setting_action, apply_visibility_sync,
    attach_ambience, default_ambience_url, finish_agent_attach, plan_agent_attach,
    plan_visibility_sync, AmbienceAction, VisibilityStep,
};
use browser_underlay::mcp::{
    finish_tool_call, handle_mcp_message, tool_definitions, tool_success_content, ControlOutcome, McpReply, ToolContent, INTERNAL_ERROR,
    INVALID_PARAMS, METHOD_NOT_FOUND, PARSE_ERROR,
};
use browser_underlay::protocol::{ActionKind, ControlError, ErrorCode};
use browser_underlay::render::{glass_fill_opacity, workspace_fill_opacity};
use browser_underlay::settings::{BrowserGlassOpacity, BrowserUnderlaySettings};
use browser_underlay::state::{
    BrowserUnderlayEvent, BrowserUnderlayHotkey, BrowserUnderlayOwner, BrowserUnderlayState,
    ModelChanges, AGENT_IDLE_TTL_MS, MAX_AGENT_UNDERLAYS_PER_WINDOW,
};
use browser_underlay::workspace::{
    hex_decode, session_key_of, PaneEntry, TabPanes, WindowTabs, WorkspaceSnapshot,
};

fn text(s: &str) -> Json {
    Json::String(s.to_owned())
}

fn object(members: Vec<(&str, Json)>) -> Json {
    Json::Object(members.into_iter().map(|(k, v)| (k.to_owned(), v)).collect())
}

fn pane(pane_id: u64, session: Option<&[u8]>) -> PaneEntry {
    PaneEntry { pane_id, visible: true, session_uuid: session.map(|s| s.to_vec()) }
}

fn window(window_id: u64, active_tab_index: usize, tabs: Vec<Vec<PaneEntry>>) -> WindowTabs {
    WindowTabs {
        window_id,
        active_tab_index,
        tabs: tabs.into_iter().map(|panes| TabPanes { panes }).collect(),
    }
}

fn agent(state: &mut BrowserUnderlayState, key: &str, pane_id: u64, window_id: u64, now: u64) {
    let mut ctx = ModelChanges::new();
    state.upsert_agent(
        key.to_owned(),
        pane_id,
        window_id,
        "https://agent.example".to_owned(),
        true,
        now,
        &mut ctx,
    );
}

// ---- settings ----

#[test]
fn glass_opacity_validate_keeps_in_range_values() {
    let setting = BrowserGlassOpacity::new();
    assert_eq!(setting.value(), BrowserGlassOpacity::DEFAULT);
    assert_eq!(setting.validate(0), 0);
    assert_eq!(setting.validate(100), 100);
    assert_eq!(setting.validate(101), 100);
    assert_eq!(setting.validate(255), 100);
}

// ---- hotkey laws on concrete values ----

#[test]
fn toggling_twice_restores_interactive_state() {
    let mut state = BrowserUnderlayState::new();
    let mut ctx = ModelChanges::new();
    state.set_ambience_attached(7, "https://a.example".to_owned(), &mut ctx);
    let owner = BrowserUnderlayOwner::Ambience;
    assert_eq!(state.apply_hotkey(7, &owner, BrowserUnderlayHotkey::Toggle, 1, &mut ctx), Some(true));
    assert_eq!(state.apply_hotkey(7, &owner, BrowserUnderlayHotkey::Toggle, 2, &mut ctx), Some(false));
    let a = state.ambience(7).unwrap();
    assert!(!a.interactive);
    assert!(!a.interactive_hold);
}

#[test]
fn force_off_returns_input_to_the_terminal() {
    let mut state = BrowserUnderlayState::new();
    let mut ctx = ModelChanges::new();
    state.set_ambience_attached(7, "https://a.example".to_owned(), &mut ctx);
    let owner = BrowserUnderlayOwner::Ambience;
    state.apply_hotkey(7, &owner, BrowserUnderlayHotkey::Toggle, 1, &mut ctx);
    state.apply_hotkey(7, &owner, BrowserUnderlayHotkey::HoldStart, 2, &mut ctx);
    assert_eq!(state.apply_hotkey(7, &owner, BrowserUnderlayHotkey::ForceOff, 3, &mut ctx), Some(false));
    let a = state.ambience(7).unwrap();
    assert!(!a.interactive && !a.interactive_hold);
}

// ---- window cap and eviction ----

#[test]
fn attach_evicts_least_recently_used_at_cap() {
    let mut state = BrowserUnderlayState::new();
    agent(&mut state, "a", 1, 9, 10);
    agent(&mut state, "b", 2, 9, 5);
    agent(&mut state, "c", 3, 9, 20);
    assert_eq!(MAX_AGENT_UNDERLAYS_PER_WINDOW, 3);
    let snapshot = WorkspaceSnapshot {
        windows: vec![window(9, 0, vec![vec![pane(4, Some(&[0xab, 0xcd]))]])],
    };
    let plan = plan_agent_attach(&state, &snapshot, "ABCD", true).expect("pane found");
    assert_eq!(plan.pane_id, 4);
    assert_eq!(plan.location.window_id, 9);
    assert!(plan.location.in_active_tab);
    assert_eq!(plan.evict.as_deref(), Some("b"));

    let mut ctx = ModelChanges::new();
    agent_detach(&mut state, "b", &mut ctx);
    finish_agent_attach(&mut state, &plan, "https://x".to_owned(), true, 30, &mut ctx)
        .expect("attached");
    assert_eq!(state.agents().len(), 3);
    assert_eq!(plan.pane_key, "abcd");
    assert!(state.agent("abcd").is_some());
    assert_eq!(state.agent_eviction_candidate(9).as_deref(), Some("a"));
    assert_eq!(ctx.events(), &vec![BrowserUnderlayEvent::Changed(9), BrowserUnderlayEvent::Changed(9)]);
}

#[test]
fn attach_errors_explain_themselves() {
    let state = BrowserUnderlayState::new();
    let empty = WorkspaceSnapshot { windows: vec![] };
    let err = plan_agent_attach(&state, &empty, "abcd", false).err().unwrap();
    assert_eq!(err, "the browser underlay feature is not enabled");
    let err = plan_agent_attach(&state, &empty, "abcd", true).err().unwrap();
    assert_eq!(err, "no pane with terminal session uuid abcd");

    let mut state = BrowserUnderlayState::new();
    let snapshot = WorkspaceSnapshot {
        windows: vec![window(9, 0, vec![vec![pane(4, Some(&[0xab, 0xcd]))]])],
    };
    let plan = plan_agent_attach(&state, &snapshot, "abcd", true).unwrap();
    let mut ctx = ModelChanges::new();
    let err = finish_agent_attach(&mut state, &plan, "u".to_owned(), false, 1, &mut ctx)
        .err()
        .unwrap();
    assert_eq!(err, "the pane's window cannot host a browser underlay");
    assert!(!state.has_agents());
    assert!(ctx.events().is_empty());
}

// ---- navigate / detach ----

#[test]
fn navigate_updates_url_and_reports_window() {
    let mut state = BrowserUnderlayState::new();
    agent(&mut state, "k", 1, 4, 10);
    assert_eq!(agent_navigate(&mut state, "k", "https://next".to_owned(), 50), Ok(4));
    let a = state.agent("k").unwrap();
    assert_eq!(a.url, "https://next");
    assert_eq!(a.last_used, 50);
    assert_eq!(
        agent_navigate(&mut state, "zz", "https://next".to_owned(), 51),
        Err("no agent browser attached for pane zz".to_owned())
    );
    let mut ctx = ModelChanges::new();
    assert_eq!(agent_detach(&mut state, "k", &mut ctx), Some(4));
    assert_eq!(agent_detach(&mut state, "k", &mut ctx), None);
    assert_eq!(ctx.events(), &vec![BrowserUnderlayEvent::Changed(4)]);
}

// ---- ambience ----

#[test]
fn ambience_attach_and_settings_actions() {
    let mut state = BrowserUnderlayState::new();
    let mut ctx = ModelChanges::new();
    assert!(!attach_ambience(&mut state, 3, "https://a".to_owned(), false, true, &mut ctx));
    assert!(!state.ambience_attached(3));
    assert_eq!(ambience_setting_action(&state, 3, &"https://a".to_owned()), AmbienceAction::Attach);
    assert_eq!(ambience_setting_action(&state, 3, &String::new()), AmbienceAction::Nothing);
    assert!(attach_ambience(&mut state, 3, "https://a".to_owned(), true, true, &mut ctx));
    assert!(state.ambience_attached(3));
    assert_eq!(ambience_setting_action(&state, 3, &"https://b".to_owned()), AmbienceAction::Navigate);
    assert_eq!(ambience_setting_action(&state, 3, &String::new()), AmbienceAction::Detach);
}

#[test]
fn default_ambience_url_prefers_test_url() {
    let setting = "https://setting".to_owned();
    assert_eq!(default_ambience_url(false, Some("https://t".to_owned()), &setting), None);
    assert_eq!(
        default_ambience_url(true, Some("https://t".to_owned()), &setting),
        Some("https://t".to_owned())
    );
    assert_eq!(default_ambience_url(true, Some(String::new()), &setting), Some(setting.clone()));
    assert_eq!(default_ambience_url(true, None, &String::new()), None);
}

// ---- forget window / idle sweep / events ----

#[test]
fn forget_window_keeps_other_windows() {
    let mut state = BrowserUnderlayState::new();
    let mut ctx = ModelChanges::new();
    state.set_ambience_attached(1, "https://a".to_owned(), &mut ctx);
    state.set_ambience_attached(2, "https://b".to_owned(), &mut ctx);
    agent(&mut state, "x", 10, 1, 1);
    agent(&mut state, "y", 11, 2, 1);
    state.forget_window(1, &mut ctx);
    assert!(!state.ambience_attached(1));
    assert!(state.ambience_attached(2));
    assert!(state.agent("x").is_none());
    assert!(state.agent("y").is_some());
}

#[test]
fn idle_sweep_removes_only_idle_agents() {
    let mut state = BrowserUnderlayState::new();
    agent(&mut state, "old", 1, 5, 0);
    agent(&mut state, "fresh", 2, 6, AGENT_IDLE_TTL_MS);
    let mut ctx = ModelChanges::new();
    let removed = state.remove_idle_agents(AGENT_IDLE_TTL_MS + 1, &mut ctx);
    assert_eq!(removed, vec![("old".to_owned(), 5)]);
    assert!(state.agent("old").is_none());
    assert!(state.agent("fresh").is_some());
    assert_eq!(ctx.events(), &vec![BrowserUnderlayEvent::Changed(5)]);
    assert!(ctx.notified());
    let mut quiet = ModelChanges::new();
    assert!(state.remove_idle_agents(AGENT_IDLE_TTL_MS + 1, &mut quiet).is_empty());
    assert!(!quiet.notified());
}

#[test]
fn changed_is_emitted_for_every_window_with_an_underlay() {
    let mut state = BrowserUnderlayState::new();
    let mut ctx = ModelChanges::new();
    state.set_ambience_attached(3, "https://a".to_owned(), &mut ctx);
    agent(&mut state, "x", 10, 4, 1);
    let mut all = ModelChanges::new();
    state.emit_changed_for_all(&mut all);
    let mut events: Vec<u64> = all
        .events()
        .iter()
        .map(|BrowserUnderlayEvent::Changed(w)| *w)
        .collect();
    events.sort();
    events.dedup();
    assert_eq!(events, vec![3, 4]);
}

// ---- visibility sync ----

#[test]
fn sync_follows_panes_between_tabs_and_windows() {
    let mut state = BrowserUnderlayState::new();
    agent(&mut state, "stay", 1, 1, 1);
    agent(&mut state, "hide", 2, 1, 1);
    agent(&mut state, "move", 3, 1, 1);
    agent(&mut state, "gone", 4, 1, 1);
    let snapshot = WorkspaceSnapshot {
        windows: vec![
            window(1, 0, vec![vec![pane(1, None)], vec![pane(2, None)]]),
            window(2, 0, vec![vec![pane(3, None)]]),
        ],
    };
    let steps = plan_visibility_sync(&state, &snapshot);
    assert_eq!(steps.len(), 4);
    assert!(matches!(steps[0], VisibilityStep::Keep));
    assert!(matches!(
        &steps[1],
        VisibilityStep::SetVisible { pane_key, window_id: 1, visible: false } if pane_key == "hide"
    ));
    assert!(matches!(
        &steps[2],
        VisibilityStep::Rehome { pane_key, from_window: 1, to_window: 2, visible: true, .. }
            if pane_key == "move"
    ));
    assert!(matches!(
        &steps[3],
        VisibilityStep::Detach { pane_key, window_id: 1 } if pane_key == "gone"
    ));
    let mut ctx = ModelChanges::new();
    apply_visibility_sync(&mut state, &snapshot, &steps, &vec![true, true, true, true], &mut ctx);
    assert!(state.agent("stay").unwrap().visible);
    assert!(!state.agent("hide").unwrap().visible);
    assert_eq!(state.agent("move").unwrap().window_id, 2);
    assert!(state.agent("gone").is_none());
}

#[test]
fn failed_rehome_drops_the_agent() {
    let mut state = BrowserUnderlayState::new();
    agent(&mut state, "move", 3, 1, 1);
    let snapshot = WorkspaceSnapshot { windows: vec![window(2, 0, vec![vec![pane(3, None)]])] };
    let steps = plan_visibility_sync(&state, &snapshot);
    let mut ctx = ModelChanges::new();
    apply_visibility_sync(&mut state, &snapshot, &steps, &vec![false], &mut ctx);
    assert!(!state.has_agents());
}

// ---- workspace lookups ----

#[test]
fn hex_decode_reads_pairs_of_either_case() {
    assert_eq!(hex_decode("00ff7F"), Ok(vec![0x00, 0xff, 0x7f]));
    assert_eq!(hex_decode(""), Ok(vec![]));
    assert_eq!(hex_decode("abc"), Err(()));
    assert_eq!(hex_decode("zz"), Err(()));
    // A sign is accepted in front of a digit, as u8::from_str_radix does.
    assert_eq!(hex_decode("+f"), Ok(vec![0x0f]));
}

#[test]
fn first_tab_and_window_win_when_locating() {
    let snapshot = WorkspaceSnapshot {
        windows: vec![
            window(1, 1, vec![vec![pane(5, None)], vec![pane(6, Some(&[1, 2]))]]),
            window(2, 0, vec![vec![pane(5, None)]]),
        ],
    };
    let loc = snapshot.locate_pane(5).unwrap();
    assert_eq!(loc.window_id, 1);
    assert!(!loc.in_active_tab);
    assert!(snapshot.locate_pane(99).is_none());
    assert_eq!(snapshot.find_pane_by_session_uuid("0102"), Some(6));
    assert_eq!(snapshot.find_pane_by_session_uuid("01"), None);
    assert_eq!(snapshot.find_pane_by_session_uuid("xyz"), None);
}

// ---- rendering ----

#[test]
fn hidden_tab_glass_override_and_fill() {
    let mut state = BrowserUnderlayState::new();
    let settings = BrowserUnderlaySettings::new();
    agent(&mut state, "k", 1, 1, 1);
    let mut ctx = ModelChanges::new();
    assert_eq!(pane_glass_set(&mut state, "k", true, Some(250), 2, &mut ctx).ok(), Some(()));
    assert_eq!(glass_fill_opacity(1, &state, &settings), 100);
    let err = pane_glass_set(&mut state, "nope", true, None, 3, &mut ctx).unwrap_err();
    assert_eq!(err.code, ErrorCode::TargetStateConflict);
    assert_eq!(err.message, "no agent browser attached for pane nope");
    // Over a glass porthole the workspace takes the near-transparent tint;
    // a window without an underlay keeps the glass opacity setting.
    assert_eq!(workspace_fill_opacity(1, &state, &settings), 10);
    assert_eq!(workspace_fill_opacity(8, &state, &settings), 55);
}

// ---- control plane ----

fn window_ok(w: u64) -> Result<u64, ControlError> {
    Ok(w)
}

#[test]
fn feature_gate_rejects_every_action() {
    assert!(ensure_browser_underlay_available(true).is_ok());
    let err = ensure_browser_underlay_available(false).unwrap_err();
    assert_eq!(err.code, ErrorCode::UnsupportedAction);
}

#[test]
fn resolve_target_routes_by_parameters() {
    let both = resolve_target(ActionKind::BrowserEval, true, Some("k".to_owned()), window_ok(1), Ok(None));
    let err = both.unwrap_err();
    assert_eq!(err.code, ErrorCode::InvalidParams);
    assert_eq!(err.message, "ambience and pane_session_uuid are mutually exclusive");

    match resolve_target(ActionKind::BrowserEval, true, None, window_ok(4), Ok(None)) {
        Ok(BrowserTargetRef::Ambience(4)) => {}
        other => panic!("expected the ambience of window 4, got {other:?}"),
    }
    match resolve_target(ActionKind::BrowserEval, false, Some("k".to_owned()), window_ok(1), Ok(None)) {
        Ok(BrowserTargetRef::Agent(k)) => assert_eq!(k, "k"),
        other => panic!("expected agent k, got {other:?}"),
    }
    match resolve_target(ActionKind::BrowserEval, false, Some(String::new()), window_ok(1), Ok(Some("s".to_owned()))) {
        Ok(BrowserTargetRef::Agent(k)) => assert_eq!(k, "s"),
        other => panic!("expected agent s, got {other:?}"),
    }
    let err = resolve_target(ActionKind::BrowserScreenshot, false, None, window_ok(1), Ok(None)).unwrap_err();
    assert_eq!(err.code, ErrorCode::MissingTarget);
    assert_eq!(
        err.message,
        "browser.screenshot requires a terminal pane (the resolved pane has no session)"
    );
}

#[test]
fn actions_need_an_attached_underlay() {
    let mut state = BrowserUnderlayState::new();
    let err = attached_target(&BrowserTargetRef::Ambience(2), ActionKind::BrowserEval, &state).unwrap_err();
    assert_eq!(err.code, ErrorCode::TargetStateConflict);
    assert_eq!(
        err.message,
        "browser.eval requires an ambience underlay attached to the target window"
    );
    let err = attached_target(&BrowserTargetRef::Agent("q".to_owned()), ActionKind::BrowserDetach, &state)
        .unwrap_err();
    assert_eq!(err.message, "browser.detach requires an agent browser attached for pane q");

    agent(&mut state, "q", 1, 6, 1);
    let (w, owner) = eval_target(&mut state, &BrowserTargetRef::Agent("q".to_owned()), 77).unwrap();
    assert_eq!(w, 6);
    assert!(matches!(owner, BrowserUnderlayOwner::Agent(ref k) if k == "q"));
    assert_eq!(state.agent("q").unwrap().last_used, 77);

    let (w, _, visible) = screenshot_target(&mut state, &BrowserTargetRef::Agent("q".to_owned()), 78).unwrap();
    assert_eq!(w, 6);
    assert!(visible);

    let mut ctx = ModelChanges::new();
    let (_, _, effective) =
        set_target_interactive(&mut state, &BrowserTargetRef::Agent("q".to_owned()), true, 79, &mut ctx)
            .unwrap();
    assert_eq!(effective, Some(true));
}

#[test]
fn screenshot_payload_is_standard_base64() {
    let payload = screenshot_payload(false, b"pig");
    assert_eq!(payload.data_base64, "cGln");
    assert!(!payload.tab_visible);
    assert_eq!(screenshot_payload(true, b"pi").data_base64, "cGk=");
    assert_eq!(screenshot_payload(true, b"").data_base64, "");
}

#[test]
fn status_reports_attached_state() {
    let mut state = BrowserUnderlayState::new();
    let settings = BrowserUnderlaySettings::new();
    match browser_status(&BrowserTargetRef::Ambience(1), &state, &settings) {
        BrowserStatus::Ambience { window_id: 1, attached: false, url: None, interactive: None } => {}
        other => panic!("unexpected {other:?}"),
    }
    agent(&mut state, "k", 1, 3, 1);
    match browser_status(&BrowserTargetRef::Agent("k".to_owned()), &state, &settings) {
        BrowserStatus::Agent {
            agent_window_id: Some(3),
            attached: true,
            visible: Some(true),
            glass: Some(true),
            glass_opacity: Some(55),
            interactive: Some(false),
            ..
        } => {}
        other => panic!("unexpected {other:?}"),
    }
}

// ---- pane binding ----

#[test]
fn ascii_case_folding_and_binding_choice() {
    assert!(eq_ignore_ascii_case("AbC", "aBc"));
    assert!(!eq_ignore_ascii_case("abc", "abd"));
    assert!(!eq_ignore_ascii_case("abc", "ab"));
    assert_eq!(binding_session_uuid(Some("e".to_owned()), Some("b".to_owned())), Some("e".to_owned()));
    assert_eq!(binding_session_uuid(Some(String::new()), Some("b".to_owned())), Some("b".to_owned()));
    assert_eq!(binding_session_uuid(None, Some(String::new())), None);
}

// ---- MCP endpoint ----

fn request(id: Option<Json>, method: &str, params: Option<Json>) -> Json {
    let mut members = vec![("jsonrpc".to_owned(), text("2.0"))];
    if let Some(id) = id {
        members.push(("id".to_owned(), id));
    }
    members.push(("method".to_owned(), text(method)));
    if let Some(params) = params {
        members.push(("params".to_owned(), params));
    }
    Json::Object(members)
}

fn id1() -> Json {
    Json::Number(JsonNumber::PosInt(1))
}

#[test]
fn unparsable_bodies_and_notifications() {
    match handle_mcp_message(None, None, "1.0") {
        McpReply::Error { id: Json::Null, code, message } => {
            assert_eq!(code, PARSE_ERROR);
            assert_eq!(message, "request body is not valid JSON");
        }
        other => panic!("unexpected {other:?}"),
    }
    let note = request(None, "notifications/initialized", None);
    assert!(matches!(handle_mcp_message(Some(note), None, "1.0"), McpReply::Accepted));
}

#[test]
fn initialize_echoes_the_requested_revision() {
    let params = object(vec![("protocolVersion", text("2099-01-01"))]);
    match handle_mcp_message(Some(request(Some(id1()), "initialize", Some(params))), None, "1.0") {
        McpReply::Result { id, result } => {
            assert_eq!(id, id1());
            assert_eq!(result.str_member("protocolVersion").map(|s| s.as_str()), Some("2099-01-01"));
        }
        other => panic!("unexpected {other:?}"),
    }
    match handle_mcp_message(Some(request(Some(id1()), "initialize", None)), None, "1.0") {
        McpReply::Result { result, .. } => {
            assert_eq!(result.str_member("protocolVersion").map(|s| s.as_str()), Some("2025-06-18"));
        }
        other => panic!("unexpected {other:?}"),
    }
}

#[test]
fn ping_list_and_unknown_methods() {
    match handle_mcp_message(Some(request(Some(id1()), "ping", None)), None, "1.0") {
        McpReply::Result { result: Json::Object(m), .. } => assert!(m.is_empty()),
        other => panic!("unexpected {other:?}"),
    }
    match handle_mcp_message(Some(request(Some(id1()), "tools/list", None)), None, "1.0") {
        McpReply::Result { result, .. } => match result.get("tools") {
            Some(Json::Array(defs)) => assert_eq!(defs.len(), 8),
            other => panic!("unexpected {other:?}"),
        },
        other => panic!("unexpected {other:?}"),
    }
    match handle_mcp_message(Some(request(Some(id1()), "resources/list", None)), None, "1.0") {
        McpReply::Error { code, message, .. } => {
            assert_eq!(code, METHOD_NOT_FOUND);
            assert_eq!(message, "method not found: resources/list");
        }
        other => panic!("unexpected {other:?}"),
    }
}

#[test]
fn tool_calls_bind_to_argument_or_header() {
    let call = |args: Json| {
        request(
            Some(id1()),
            "tools/call",
            Some(object(vec![("name", text("browser_status")), ("arguments", args)])),
        )
    };
    match handle_mcp_message(Some(call(object(vec![]))), None, "1.0") {
        McpReply::Tool { outcome, .. } => {
            assert!(outcome.is_error);
            match &outcome.content[0] {
                ToolContent::Text { text } => assert!(text.starts_with("no pane binding")),
                other => panic!("unexpected {other:?}"),
            }
        }
        other => panic!("unexpected {other:?}"),
    }
    match handle_mcp_message(Some(call(object(vec![]))), Some("hdr".to_owned()), "1.0") {
        McpReply::Dispatch { tool, action, params, .. } => {
            assert_eq!(tool, "browser_status");
            assert_eq!(action, ActionKind::BrowserStatus);
            assert_eq!(params.pane_session_uuid().map(|s| s.as_str()), Some("hdr"));
        }
        other => panic!("unexpected {other:?}"),
    }
    match handle_mcp_message(Some(call(object(vec![("pane", text("arg"))]))), Some("hdr".to_owned()), "1.0") {
        McpReply::Dispatch { params, .. } => {
            assert_eq!(params.pane_session_uuid().map(|s| s.as_str()), Some("arg"));
        }
        other => panic!("unexpected {other:?}"),
    }
    let bad = request(
        Some(id1()),
        "tools/call",
        Some(object(vec![("name", text("browser_eval")), ("arguments", object(vec![]))])),
    );
    match handle_mcp_message(Some(bad), Some("hdr".to_owned()), "1.0") {
        McpReply::Error { code, message, .. } => {
            assert_eq!(code, INVALID_PARAMS);
            assert_eq!(message, "missing required argument `javascript`");
        }
        other => panic!("unexpected {other:?}"),
    }
}

#[test]
fn control_outcomes_become_replies() {
    match finish_tool_call(id1(), "browser_status", ControlOutcome::Failed("boom".to_owned())) {
        McpReply::Tool { outcome, .. } => {
            assert!(outcome.is_error);
            assert_eq!(outcome.content, vec![ToolContent::Text { text: "boom".to_owned() }]);
        }
        other => panic!("unexpected {other:?}"),
    }
    match finish_tool_call(id1(), "browser_status", ControlOutcome::TimedOut) {
        McpReply::Tool { outcome, .. } => assert_eq!(
            outcome.content,
            vec![ToolContent::Text { text: "the browser action timed out".to_owned() }]
        ),
        other => panic!("unexpected {other:?}"),
    }
    match finish_tool_call(id1(), "browser_status", ControlOutcome::Rejected("bad".to_owned())) {
        McpReply::Error { code, message, .. } => {
            assert_eq!(code, INVALID_PARAMS);
            assert_eq!(message, "bad");
        }
        other => panic!("unexpected {other:?}"),
    }
    match finish_tool_call(id1(), "browser_status", ControlOutcome::Dropped) {
        McpReply::Error { code, message, .. } => {
            assert_eq!(code, INTERNAL_ERROR);
            assert_eq!(message, "action dropped");
        }
        other => panic!("unexpected {other:?}"),
    }
    match finish_tool_call(id1(), "browser_status", ControlOutcome::Unavailable) {
        McpReply::Error { code, message, .. } => {
            assert_eq!(code, INTERNAL_ERROR);
            assert_eq!(message, "app bridge unavailable");
        }
        other => panic!("unexpected {other:?}"),
    }
    let data = || object(vec![("attached", Json::Bool(true))]);
    match finish_tool_call(id1(), "browser_status", ControlOutcome::Succeeded(data())) {
        McpReply::Tool { outcome, .. } => {
            assert!(!outcome.is_error);
            assert_eq!(outcome.content, vec![ToolContent::Structured { value: data(), pretty: true }]);
        }
        other => panic!("unexpected {other:?}"),
    }
}

// ---- handler decisions ----

#[test]
fn navigate_and_detach_targets() {
    let mut state = BrowserUnderlayState::new();
    let mut ctx = ModelChanges::new();
    let err = navigate_target(&mut state, &BrowserTargetRef::Ambience(2), "u".to_owned(), 1, &mut ctx)
        .unwrap_err();
    assert_eq!(err.code, ErrorCode::TargetStateConflict);
    assert_eq!(err.message, "no ambience underlay attached to the target window");
    state.set_ambience_attached(2, "https://a".to_owned(), &mut ctx);
    let (w, owner) =
        navigate_target(&mut state, &BrowserTargetRef::Ambience(2), "https://b".to_owned(), 1, &mut ctx)
            .unwrap();
    assert_eq!(w, 2);
    assert!(matches!(owner, BrowserUnderlayOwner::Ambience));
    assert_eq!(state.ambience(2).unwrap().url, "https://b");

    let err = navigate_target(&mut state, &BrowserTargetRef::Agent("k".to_owned()), "u".to_owned(), 1, &mut ctx)
        .unwrap_err();
    assert_eq!(err.message, "no agent browser attached for pane k");
    agent(&mut state, "k", 1, 5, 1);
    let (w, _) =
        navigate_target(&mut state, &BrowserTargetRef::Agent("k".to_owned()), "https://c".to_owned(), 9, &mut ctx)
            .unwrap();
    assert_eq!(w, 5);
    assert_eq!(state.agent("k").unwrap().url, "https://c");

    match detach_target(&mut state, &BrowserTargetRef::Agent("k".to_owned()), &mut ctx) {
        Some((5, BrowserUnderlayOwner::Agent(k))) => assert_eq!(k, "k"),
        other => panic!("unexpected {other:?}"),
    }
    assert!(detach_target(&mut state, &BrowserTargetRef::Agent("k".to_owned()), &mut ctx).is_none());
    assert!(matches!(
        detach_target(&mut state, &BrowserTargetRef::Ambience(2), &mut ctx),
        Some((2, BrowserUnderlayOwner::Ambience))
    ));
    assert!(!state.ambience_attached(2));
}

#[test]
fn attach_targets_apply_glass_and_report_failures() {
    let mut state = BrowserUnderlayState::new();
    let mut ctx = ModelChanges::new();
    let err = attach_ambience_target(&mut state, 1, "u".to_owned(), true, false, &mut ctx).unwrap_err();
    assert_eq!(err.message, "the target window cannot host a browser underlay");
    assert!(attach_ambience_target(&mut state, 1, "u".to_owned(), true, true, &mut ctx).is_ok());

    let snapshot = WorkspaceSnapshot { windows: vec![window(1, 0, vec![vec![pane(4, Some(&[0x0a]))]])] };
    let plan = plan_agent_attach(&state, &snapshot, "0a", true).unwrap();
    let err = finish_agent_target_attach(
        &mut state, &plan, "u".to_owned(), false, Some(30), false, 2, &mut ctx,
    )
    .unwrap_err();
    assert_eq!(err.code, ErrorCode::TargetStateConflict);
    assert!(state.agent("0a").is_none());
    finish_agent_target_attach(
        &mut state, &plan, "u".to_owned(), false, Some(130), true, 3, &mut ctx,
    )
    .unwrap();
    let a = state.agent("0a").unwrap();
    assert!(!a.glass);
    assert_eq!(a.glass_opacity_override, Some(100));
    assert_eq!(a.window_id, 1);
}

#[test]
fn mcp_env_needs_a_running_endpoint() {
    let err = mcp_env_reply(None).unwrap_err();
    assert_eq!(err.code, ErrorCode::TargetStateConflict);
    assert_eq!(err.message, "the MCP endpoint is not running (enable Settings \u{203a} Scripting)");
    assert_eq!(
        mcp_env_reply(Some(("http://127.0.0.1:1/mcp".to_owned(), "t".to_owned()))).unwrap(),
        ("http://127.0.0.1:1/mcp".to_owned(), "t".to_owned())
    );
}

#[test]
fn bindings_from_pane_list_and_inspect_replies() {
    let row = |pane: &str, uuid: &str| {
        object(vec![
            ("window_id", text("w")),
            ("tab_id", text("t")),
            ("pane_id", text(pane)),
            ("session_uuid", text(uuid)),
        ])
    };
    let list = object(vec![("panes", Json::Array(vec![row("p1", "aa"), row("p2", "BB"), row("p3", "bb")]))]);
    let binding = binding_from_pane_list(&list, "bb").unwrap();
    assert_eq!(binding.pane_id, "p2");
    let err = binding_from_pane_list(&list, "cc").unwrap_err();
    assert_eq!(err.code, ErrorCode::StaleTarget);
    assert_eq!(err.message, "no pane with terminal session uuid cc");
    assert_eq!(binding_from_pane_list(&object(vec![]), "aa").unwrap_err().code, ErrorCode::StaleTarget);

    let inspect = object(vec![("pane", row("p9", "zz"))]);
    assert_eq!(binding_from_pane_inspect(&inspect).unwrap().pane_id, "p9");
    let err = binding_from_pane_inspect(&object(vec![])).unwrap_err();
    assert_eq!(err.code, ErrorCode::MissingTarget);
    assert_eq!(err.message, "could not resolve an active pane to bind to");
    let err = binding_from_pane_inspect(&object(vec![("pane", Json::Null)])).unwrap_err();
    assert_eq!(err.code, ErrorCode::Internal);
}

// ---- one underlay per pane session ----

#[test]
fn every_spelling_of_a_session_uuid_is_one_key() {
    assert_eq!(session_key_of("ABCD"), "abcd");
    assert_eq!(session_key_of("abcd"), "abcd");
    assert_eq!(session_key_of("+f0A"), "0f0a");
    assert_eq!(session_key_of("xyz"), "xyz");
    assert_eq!(session_key_of(""), "");
}

#[test]
fn reattaching_under_another_spelling_reuses_the_underlay() {
    let mut state = BrowserUnderlayState::new();
    let snapshot = WorkspaceSnapshot {
        windows: vec![window(9, 0, vec![vec![pane(4, Some(&[0xab, 0xcd]))]])],
    };
    let mut ctx = ModelChanges::new();
    let plan = plan_agent_attach(&state, &snapshot, "abcd", true).unwrap();
    finish_agent_attach(&mut state, &plan, "https://one".to_owned(), true, 1, &mut ctx).unwrap();
    let plan = plan_agent_attach(&state, &snapshot, "ABCD", true).unwrap();
    assert_eq!(plan.pane_key, "abcd");
    finish_agent_attach(&mut state, &plan, "https://two".to_owned(), true, 2, &mut ctx).unwrap();
    assert_eq!(state.agents().len(), 1);
    assert_eq!(state.agent("abcd").unwrap().url, "https://two");
    match resolve_target(ActionKind::BrowserDetach, false, Some("ABCD".to_owned()), window_ok(9), Ok(None)) {
        Ok(BrowserTargetRef::Agent(k)) => assert_eq!(k, "abcd"),
        other => panic!("unexpected {other:?}"),
    }
}

#[test]
fn a_full_window_evicts_nothing_for_a_pane_already_there() {
    let mut state = BrowserUnderlayState::new();
    agent(&mut state, "aa", 1, 9, 10);
    agent(&mut state, "bb", 2, 9, 5);
    agent(&mut state, "cc", 3, 9, 20);
    let snapshot = WorkspaceSnapshot {
        windows: vec![window(9, 0, vec![vec![pane(3, Some(&[0xcc]))]])],
    };
    let plan = plan_agent_attach(&state, &snapshot, "CC", true).unwrap();
    assert_eq!(plan.evict, None);
    let other = WorkspaceSnapshot {
        windows: vec![window(7, 0, vec![vec![pane(8, Some(&[0xdd]))]]), window(9, 0, vec![])],
    };
    let plan = plan_agent_attach(&state, &other, "dd", true).unwrap();
    assert_eq!(plan.evict, None);
}

#[test]
fn decoding_stops_at_the_first_chunk_that_is_not_a_number() {
    // The first chunk fails before the decoder reaches the accented letter.
    assert_eq!(hex_decode("zza\u{e9}b"), Err(()));
    assert_eq!(hex_decode("0a\u{e9}"), Err(()));
    let state = BrowserUnderlayState::new();
    let snapshot = WorkspaceSnapshot { windows: vec![] };
    let err = plan_agent_attach(&state, &snapshot, "zza\u{e9}b", true).err().unwrap();
    assert_eq!(err, "no pane with terminal session uuid zza\u{e9}b");
}

#[test]
fn eval_of_a_non_string_returns_the_result_itself() {
    let data = object(vec![("action", text("browser.eval")), ("result", Json::Number(JsonNumber::PosInt(42)))]);
    let result = tool_success_content("browser_eval", data);
    assert_eq!(
        result.content,
        vec![ToolContent::Structured { value: Json::Number(JsonNumber::PosInt(42)), pretty: false }]
    );
    let result = tool_success_content("browser_eval", object(vec![("action", text("browser.eval"))]));
    assert_eq!(
        result.content,
        vec![ToolContent::Structured {
            value: object(vec![("action", text("browser.eval"))]),
            pretty: false
        }]
    );
}

fn schema(def: &Json) -> &Json {
    def.get("inputSchema").expect("every tool has an input schema")
}

#[test]
fn tool_catalog_spells_out_each_input_schema() {
    let tools = tool_definitions();
    let tools = match &tools {
        Json::Array(items) => items,
        _ => panic!("tool list is an array"),
    };
    let required: Vec<Option<&str>> = vec![
        Some("url"),
        Some("url"),
        Some("javascript"),
        None,
        Some("enabled"),
        Some("enabled"),
        None,
        None,
    ];
    for (tool, required) in tools.iter().zip(required) {
        let schema = schema(tool);
        assert_eq!(schema.get("type"), Some(&text("object")));
        let pane = schema.get("properties").and_then(|p| p.get("pane")).expect("pane parameter");
        assert_eq!(pane.get("type"), Some(&text("string")));
        match required {
            Some(name) => assert_eq!(schema.get("required"), Some(&Json::Array(vec![text(name)]))),
            None => assert_eq!(schema.get("required"), None),
        }
    }
    let attach = schema(&tools[0]).get("properties").unwrap();
    assert_eq!(attach.get("url").and_then(|u| u.get("type")), Some(&text("string")));
    assert_eq!(attach.get("glass").and_then(|u| u.get("type")), Some(&text("boolean")));
    assert_eq!(attach.get("glass_opacity").and_then(|u| u.get("type")), Some(&text("integer")));
}

#[test]
fn tools_list_answers_the_catalog() {
    match handle_mcp_message(Some(request(Some(id1()), "tools/list", None)), None, "1.0") {
        McpReply::Result { result, .. } => {
            assert_eq!(result, object(vec![("tools", tool_definitions())]));
        }
        other => panic!("unexpected {other:?}"),
    }
}

#[test]
fn initialize_mints_no_session_and_gives_instructions() {
    match handle_mcp_message(Some(request(Some(id1()), "initialize", None)), None, "1.2.3") {
        McpReply::Result { result: Json::Object(members), .. } => {
            let keys: Vec<&str> = members.iter().map(|(k, _)| k.as_str()).collect();
            assert_eq!(keys, vec!["protocolVersion", "capabilities", "serverInfo", "instructions"]);
            let result = Json::Object(members);
            let info = result.get("serverInfo").unwrap();
            assert_eq!(info.str_member("version").map(|s| s.as_str()), Some("1.2.3"));
            assert!(result.str_member("instructions").unwrap().starts_with("Drives an agent-scoped browser"));
        }
        other => panic!("unexpected {other:?}"),
    }
}
