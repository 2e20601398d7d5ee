use browser_underlay::render::{
    effective_interactive, pane_fill_opacity, visible_underlay, workspace_fill_opacity,
    VisibleUnderlay,
};
use browser_underlay::settings::BrowserUnderlaySettings;
use browser_underlay::state::{
    test_pane_id, BrowserUnderlayHotkey, BrowserUnderlayOwner, BrowserUnderlayState, Millis,
    ModelChanges, PaneId, PaneIds, WindowId,
};

/// The state model, the settings group, an event sink, a pane-id minter and
/// a clock that advances on every read.
struct TestApp {
    state: BrowserUnderlayState,
    settings: BrowserUnderlaySettings,
    ctx: ModelChanges,
    ids: PaneIds,
    clock: Millis,
}

fn init_test_app() -> TestApp {
    TestApp {
        state: BrowserUnderlayState::new(),
        settings: BrowserUnderlaySettings::new(),
        ctx: ModelChanges::new(),
        ids: PaneIds::new(),
        clock: 1_000,
    }
}

impl TestApp {
    fn now(&mut self) -> Millis {
        self.clock += 1;
        self.clock
    }

    fn pane(&mut self) -> PaneId {
        test_pane_id(&mut self.ids)
    }
}

fn attach_ambience_state(window_id: WindowId, app: &mut TestApp) {
    app.state.set_ambience_attached(window_id, "https://ambience.example".to_owned(), &mut app.ctx);
}

fn attach_agent_state(
    pane_key: &str,
    pane_id: PaneId,
    window_id: WindowId,
    visible: bool,
    app: &mut TestApp,
) {
    let now = app.now();
    app.state.upsert_agent(
        pane_key.to_owned(),
        pane_id,
        window_id,
        "https://agent.example".to_owned(),
        visible,
        now,
        &mut app.ctx,
    );
}

#[test]
fn ambience_renders_whole_window_glass() {
    let mut app = init_test_app();
    let window_id: WindowId = 1;
    attach_ambience_state(window_id, &mut app);

    assert_eq!(visible_underlay(window_id, &app.state), Some(VisibleUnderlay::Ambience));
    // 55 is the `glass_opacity` setting default.
    assert_eq!(workspace_fill_opacity(window_id, &app.state, &app.settings), 55);
    let pane = app.pane();
    assert_eq!(pane_fill_opacity(window_id, pane, &app.state, &app.settings), None);
}

#[test]
fn visible_agent_takes_priority_over_ambience() {
    let mut app = init_test_app();
    let window_id: WindowId = 1;
    let pane_id = app.pane();
    attach_ambience_state(window_id, &mut app);
    attach_agent_state("abc123", pane_id, window_id, true, &mut app);

    assert_eq!(
        visible_underlay(window_id, &app.state),
        Some(VisibleUnderlay::Agent { pane_id, glass: true })
    );
    assert_eq!(workspace_fill_opacity(window_id, &app.state, &app.settings), 10);
}

#[test]
fn hidden_agent_falls_back_to_ambience() {
    let mut app = init_test_app();
    let window_id: WindowId = 1;
    attach_ambience_state(window_id, &mut app);
    let pane = app.pane();
    attach_agent_state("abc123", pane, window_id, false, &mut app);

    assert_eq!(visible_underlay(window_id, &app.state), Some(VisibleUnderlay::Ambience));
}

#[test]
fn agent_pane_is_glass_porthole_and_others_near_opaque() {
    let mut app = init_test_app();
    let window_id: WindowId = 1;
    let agent_pane = app.pane();
    let other_pane = app.pane();
    attach_agent_state("abc123", agent_pane, window_id, true, &mut app);

    assert_eq!(pane_fill_opacity(window_id, agent_pane, &app.state, &app.settings), Some(55));
    assert_eq!(pane_fill_opacity(window_id, other_pane, &app.state, &app.settings), Some(95));
}

#[test]
fn agent_glass_off_renders_whole_tab_glass() {
    let mut app = init_test_app();
    let window_id: WindowId = 1;
    let agent_pane = app.pane();
    attach_agent_state("abc123", agent_pane, window_id, true, &mut app);
    let now = app.now();
    assert!(app.state.set_agent_glass("abc123", false, None, now, &mut app.ctx));

    assert_eq!(pane_fill_opacity(window_id, agent_pane, &app.state, &app.settings), None);
    assert_eq!(workspace_fill_opacity(window_id, &app.state, &app.settings), 55);
}

#[test]
fn agent_glass_opacity_override_beats_setting() {
    let mut app = init_test_app();
    let window_id: WindowId = 1;
    let agent_pane = app.pane();
    attach_agent_state("abc123", agent_pane, window_id, true, &mut app);
    let now = app.now();
    app.state.set_agent_glass("abc123", true, Some(30), now, &mut app.ctx);

    assert_eq!(pane_fill_opacity(window_id, agent_pane, &app.state, &app.settings), Some(30));
}

#[test]
fn eviction_candidate_appears_at_cap() {
    let mut app = init_test_app();
    let window_id: WindowId = 1;
    for key in ["a1", "a2"] {
        let pane = app.pane();
        attach_agent_state(key, pane, window_id, false, &mut app);
    }
    assert_eq!(app.state.agent_eviction_candidate(window_id), None);

    let pane = app.pane();
    attach_agent_state("a3", pane, window_id, false, &mut app);

    // "a1" was attached first, so it is the least recently used.
    assert_eq!(app.state.agent_eviction_candidate(window_id), Some("a1".to_owned()));
}

#[test]
fn forget_window_drops_ambience_and_agents() {
    let mut app = init_test_app();
    let window_id: WindowId = 1;
    attach_ambience_state(window_id, &mut app);
    let pane = app.pane();
    attach_agent_state("abc123", pane, window_id, true, &mut app);

    app.state.forget_window(window_id, &mut app.ctx);

    assert_eq!(visible_underlay(window_id, &app.state), None);
    assert!(app.state.agent("abc123").is_none());
}

#[test]
fn hiding_an_agent_clears_its_interactive_state() {
    let mut app = init_test_app();
    let window_id: WindowId = 1;
    let pane = app.pane();
    attach_agent_state("abc123", pane, window_id, true, &mut app);
    let owner = BrowserUnderlayOwner::Agent("abc123".to_owned());
    let now = app.now();
    app.state.set_interactive(window_id, &owner, true, now, &mut app.ctx);
    assert!(effective_interactive(window_id, &app.state));

    app.state.set_agent_visible("abc123", false, &mut app.ctx);

    assert!(!effective_interactive(window_id, &app.state));
}

#[test]
fn toggle_hotkey_flips_latched_interactive_per_owner() {
    let mut app = init_test_app();
    let window_id: WindowId = 1;
    attach_ambience_state(window_id, &mut app);
    let owner = BrowserUnderlayOwner::Ambience;

    let now = app.now();
    assert_eq!(
        app.state.apply_hotkey(window_id, &owner, BrowserUnderlayHotkey::Toggle, now, &mut app.ctx),
        Some(true)
    );
    let now = app.now();
    assert_eq!(
        app.state.apply_hotkey(window_id, &owner, BrowserUnderlayHotkey::Toggle, now, &mut app.ctx),
        Some(false)
    );
}

#[test]
fn hold_hotkey_is_momentary_and_latch_survives_release() {
    let mut app = init_test_app();
    let window_id: WindowId = 1;
    let pane = app.pane();
    attach_agent_state("abc123", pane, window_id, true, &mut app);
    let owner = BrowserUnderlayOwner::Agent("abc123".to_owned());

    for (event, expected) in [
        (BrowserUnderlayHotkey::HoldStart, Some(true)),
        (BrowserUnderlayHotkey::Toggle, Some(true)),
        (BrowserUnderlayHotkey::HoldEnd, Some(true)),
    ] {
        let now = app.now();
        assert_eq!(app.state.apply_hotkey(window_id, &owner, event, now, &mut app.ctx), expected);
    }
}

#[test]
fn hotkeys_are_ignored_without_a_matching_underlay() {
    let mut app = init_test_app();
    let now = app.now();

    let result = app.state.apply_hotkey(
        7,
        &BrowserUnderlayOwner::Ambience,
        BrowserUnderlayHotkey::Toggle,
        now,
        &mut app.ctx,
    );
    assert_eq!(result, None);
}

#[test]
fn glass_opacity_setting_clamps_to_max() {
    let mut app = init_test_app();

    app.settings.glass_opacity.set_value(200);

    assert_eq!(app.settings.glass_opacity.value(), 100);
}
