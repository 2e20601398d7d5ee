//! Lifecycle decisions for underlays: attaching, navigating and detaching
//! them, following agents' panes across tabs and windows, and applying the
//! ambience-URL setting.
//!
//! The platform webviews are driven by the caller; each decision here says
//! which platform operation to perform and, given its outcome, what the
//! state model records.
use vstd::prelude::*;
use vstd::string::{StringExecFns, StringSliceAdditionalSpecFns};

use crate::state::{
    BrowserUnderlayEvent, has_key, index_of, keys_unique, upserted, AgentUnderlay, BrowserUnderlayState, Millis,
    ModelChanges, PaneId, WindowId,
};
use crate::workspace::{
    locate_spec, session_key, session_key_of, session_pane_spec, PaneLocation, WorkspaceSnapshot,
};

verus! {

/// `prefix` followed by `subject`.
pub fn message_with(prefix: &str, subject: &str) -> (r: String)
    ensures
        r@ == prefix@ + subject@,
{
    let mut r = prefix.to_owned();
    r.append(subject);
    r
}

/// What attaching an agent underlay needs once its pane is resolved.
pub struct AgentAttachPlan {
    /// The key the agent underlay is kept under: the pane's session UUID in
    /// its canonical spelling.
    pub pane_key: String,
    pub pane_id: PaneId,
    pub location: PaneLocation,
    /// The agent underlay to detach first to make room in a full window.
    pub evict: Option<String>,
}

/// The agent keyed `key` lives in `window_id`.
pub open spec fn lives_in(agents: Seq<AgentUnderlay>, key: Seq<char>, window_id: WindowId) -> bool {
    has_key(agents, key) && agents[index_of(agents, key)].window_id == window_id
}

/// Resolves the pane owning `pane_key`, the key its underlay is kept under,
/// and the eviction that makes room in its window (none when the window has
/// room or the pane's underlay already lives there), or explains why the
/// attach cannot proceed.
pub fn plan_agent_attach(
    state: &BrowserUnderlayState,
    snapshot: &WorkspaceSnapshot,
    pane_key: &str,
    feature_enabled: bool,
) -> (r: Result<AgentAttachPlan, String>)
    requires
        state.wf(),
        feature_enabled ==> crate::workspace::chunks_read_whole(pane_key.spec_bytes()),
    ensures
        !feature_enabled ==> (r matches Err(e) && e@
            == "the browser underlay feature is not enabled"@),
        feature_enabled ==> match session_pane_spec(snapshot.windows@, pane_key.spec_bytes()) {
            None => (r matches Err(e) && e@ == "no pane with terminal session uuid "@ + pane_key@),
            Some(pane_id) => match locate_spec(snapshot.windows@, pane_id) {
                None => (r matches Err(e) && e@ == "the bound pane is not part of any window"@),
                Some(loc) => (r matches Ok(plan) && plan.pane_id == pane_id && plan.location == loc
                    && plan.pane_key@ == session_key(pane_key@) && (plan.evict is None <==> (
                crate::state::window_agent_count(state.agent_seq(), loc.window_id)
                    < crate::state::MAX_AGENT_UNDERLAYS_PER_WINDOW || lives_in(
                    state.agent_seq(),
                    session_key(pane_key@),
                    loc.window_id,
                ))) && (plan.evict matches Some(k)
                    ==> exists|i: int|
                    crate::state::is_lru_in_window(state.agent_seq(), loc.window_id, i) && k@
                        == state.agent_seq()[i].pane_key@)),
            },
        },
{
    if !feature_enabled {
        return Err("the browser underlay feature is not enabled".to_owned());
    }
    let pane_id = match snapshot.find_pane_by_session_uuid(pane_key) {
        Some(pane_id) => pane_id,
        None => {
            return Err(message_with("no pane with terminal session uuid ", pane_key));
        },
    };
    let location = match snapshot.locate_pane(pane_id) {
        Some(location) => location,
        None => {
            return Err("the bound pane is not part of any window".to_owned());
        },
    };
    let key = session_key_of(pane_key);
    // A pane whose underlay already lives in the window needs no room.
    let evict = match state.agent(key.as_str()) {
        Some(agent) if agent.window_id == location.window_id => None,
        _ => state.agent_eviction_candidate(location.window_id),
    };
    Ok(AgentAttachPlan { pane_key: key, pane_id, location, evict })
}

/// Records an agent attach once the platform reported whether the pane's
/// window hosts the new webview (`attached`). The page is shown only while
/// the pane's tab is frontmost.
#[allow(clippy::too_many_arguments)]
pub fn finish_agent_attach(
    state: &mut BrowserUnderlayState,
    plan: &AgentAttachPlan,
    url: String,
    attached: bool,
    now: Millis,
    ctx: &mut ModelChanges,
) -> (r: Result<(), String>)
    requires
        old(state).wf(),
    ensures
        final(state).wf(),
        final(state).ambience_map() == old(state).ambience_map(),
        !attached ==> {
            &&& (r matches Err(e) && e@ == "the pane's window cannot host a browser underlay"@)
            &&& final(state).agent_seq() == old(state).agent_seq()
            &&& *final(ctx) == *old(ctx)
        },
        attached ==> {
            &&& r is Ok
            &&& final(state).agent_seq() == upserted(
                old(state).agent_seq(),
                plan.pane_key,
                plan.pane_id,
                plan.location.window_id,
                url,
                plan.location.in_active_tab,
                now,
            )
            &&& final(ctx).spec_events() == old(ctx).spec_events().push(
                crate::state::BrowserUnderlayEvent::Changed(plan.location.window_id),
            )
            &&& final(ctx).spec_notified()
        },
{
    if !attached {
        return Err("the pane's window cannot host a browser underlay".to_owned());
    }
    state.upsert_agent(
        plan.pane_key.clone(),
        plan.pane_id,
        plan.location.window_id,
        url,
        plan.location.in_active_tab,
        now,
        ctx,
    );
    Ok(())
}

/// Records a navigation of the agent underlay keyed `pane_key` at `now`
/// and returns the window whose webview navigates.
pub fn agent_navigate(
    state: &mut BrowserUnderlayState,
    pane_key: &str,
    url: String,
    now: Millis,
) -> (r: Result<WindowId, String>)
    requires
        old(state).wf(),
    ensures
        final(state).wf(),
        final(state).ambience_map() == old(state).ambience_map(),
        !has_key(old(state).agent_seq(), pane_key@) ==> {
            &&& (r matches Err(e) && e@ == "no agent browser attached for pane "@ + pane_key@)
            &&& final(state).agent_seq() == old(state).agent_seq()
        },
        has_key(old(state).agent_seq(), pane_key@) ==> {
            let i = index_of(old(state).agent_seq(), pane_key@);
            let a = old(state).agent_seq()[i];
            &&& r == Ok::<WindowId, String>(a.window_id)
            &&& final(state).agent_seq() == old(state).agent_seq().update(
                i,
                AgentUnderlay { last_used: now, url, ..a },
            )
        },
{
    let window_id = match state.agent(pane_key) {
        Some(agent) => agent.window_id,
        None => {
            return Err(message_with("no agent browser attached for pane ", pane_key));
        },
    };
    state.touch_agent(pane_key, Some(url), now);
    Ok(window_id)
}

/// Forgets the agent underlay keyed `pane_key`, returning the window whose
/// webview must be detached (none when it was not attached).
pub fn agent_detach(state: &mut BrowserUnderlayState, pane_key: &str, ctx: &mut ModelChanges) -> (r:
    Option<WindowId>)
    requires
        old(state).wf(),
    ensures
        final(state).wf(),
        final(state).ambience_map() == old(state).ambience_map(),
        has_key(old(state).agent_seq(), pane_key@) ==> {
            let i = index_of(old(state).agent_seq(), pane_key@);
            &&& r == Some(old(state).agent_seq()[i].window_id)
            &&& final(state).agent_seq() == old(state).agent_seq().remove(i)
            &&& final(ctx).spec_events() == old(ctx).spec_events().push(
                crate::state::BrowserUnderlayEvent::Changed(old(state).agent_seq()[i].window_id),
            )
            &&& final(ctx).spec_notified()
        },
        !has_key(old(state).agent_seq(), pane_key@) ==> {
            &&& r is None
            &&& final(state).agent_seq() == old(state).agent_seq()
            &&& *final(ctx) == *old(ctx)
        },
{
    let window_id = match state.agent(pane_key) {
        Some(agent) => Some(agent.window_id),
        None => None,
    };
    state.remove_agent(pane_key, ctx);
    window_id
}

/// Records an ambience attach once the platform reported whether the window
/// hosts the webview. Nothing is attached while the feature is disabled.
pub fn attach_ambience(
    state: &mut BrowserUnderlayState,
    window_id: WindowId,
    url: String,
    feature_enabled: bool,
    attached: bool,
    ctx: &mut ModelChanges,
) -> (r: bool)
    requires
        old(state).wf(),
    ensures
        final(state).wf(),
        r == (feature_enabled && attached),
        final(state).agent_seq() == old(state).agent_seq(),
        r ==> {
            &&& final(state).ambience_map() == old(state).ambience_map().insert(
                window_id,
                crate::state::AmbienceUnderlay {
                    url,
                    interactive: old(state).ambience_map().contains_key(window_id)
                        && old(state).ambience_map()[window_id].interactive,
                    interactive_hold: old(state).ambience_map().contains_key(window_id)
                        && old(state).ambience_map()[window_id].interactive_hold,
                },
            )
            &&& final(ctx).spec_events() == old(ctx).spec_events().push(
                crate::state::BrowserUnderlayEvent::Changed(window_id),
            )
            &&& final(ctx).spec_notified()
        },
        !r ==> final(state).ambience_map() == old(state).ambience_map() && *final(ctx) == *old(ctx),
{
    if !feature_enabled || !attached {
        return false;
    }
    state.set_ambience_attached(window_id, url, ctx);
    true
}

/// Records an ambience navigation; false (and no change) when the window
/// has no ambience underlay.
pub fn navigate_ambience(
    state: &mut BrowserUnderlayState,
    window_id: WindowId,
    url: String,
    ctx: &mut ModelChanges,
) -> (r: bool)
    requires
        old(state).wf(),
    ensures
        final(state).wf(),
        r == old(state).ambience_map().contains_key(window_id),
        final(state).agent_seq() == old(state).agent_seq(),
        r ==> {
            &&& final(state).ambience_map() == old(state).ambience_map().insert(
                window_id,
                crate::state::AmbienceUnderlay {
                    url,
                    interactive: old(state).ambience_map()[window_id].interactive,
                    interactive_hold: old(state).ambience_map()[window_id].interactive_hold,
                },
            )
            &&& final(ctx).spec_events() == old(ctx).spec_events().push(
                crate::state::BrowserUnderlayEvent::Changed(window_id),
            )
            &&& final(ctx).spec_notified()
        },
        !r ==> final(state).ambience_map() == old(state).ambience_map() && *final(ctx) == *old(ctx),
{
    if !state.ambience_attached(window_id) {
        return false;
    }
    state.set_ambience_attached(window_id, url, ctx);
    true
}

/// The URL a newly opened window's ambience underlay loads: the smoke-test
/// URL when set and non-empty (it takes precedence), else the ambience-URL
/// setting when non-empty; nothing while the feature is disabled.
pub fn default_ambience_url(feature_enabled: bool, test_url: Option<String>, setting_url: &String) -> (r:
    Option<String>)
    ensures
        !feature_enabled ==> r is None,
        feature_enabled ==> match test_url {
            Some(u) if u@.len() > 0 => r == Some(u),
            _ => if setting_url@.len() > 0 {
                (r matches Some(s) && s@ == setting_url@)
            } else {
                r is None
            },
        },
{
    if !feature_enabled {
        return None;
    }
    if let Some(url) = test_url {
        if !url.as_str().is_empty() {
            return Some(url);
        }
    }
    if !setting_url.as_str().is_empty() {
        Some(setting_url.clone())
    } else {
        None
    }
}

/// What applying the ambience-URL setting does to one window.
#[derive(PartialEq, Eq, Structural, Clone, Copy, Debug)]
pub enum AmbienceAction {
    /// Leave the window alone.
    Nothing,
    /// Detach its ambience underlay (the setting was cleared).
    Detach,
    /// Navigate its ambience underlay to the setting.
    Navigate,
    /// Attach an ambience underlay loading the setting.
    Attach,
}

/// Applying the ambience-URL setting to a window: attach or navigate when
/// non-empty, detach when cleared. Agent underlays are unaffected.
pub fn ambience_setting_action(state: &BrowserUnderlayState, window_id: WindowId, url: &String) -> (r:
    AmbienceAction)
    ensures
        r == if url@.len() == 0 {
            if state.ambience_map().contains_key(window_id) {
                AmbienceAction::Detach
            } else {
                AmbienceAction::Nothing
            }
        } else if state.ambience_map().contains_key(window_id) {
            AmbienceAction::Navigate
        } else {
            AmbienceAction::Attach
        },
{
    let attached = state.ambience_attached(window_id);
    if url.as_str().is_empty() {
        if attached {
            AmbienceAction::Detach
        } else {
            AmbienceAction::Nothing
        }
    } else if attached {
        AmbienceAction::Navigate
    } else {
        AmbienceAction::Attach
    }
}

/// What following an agent's pane does to its underlay.
pub enum VisibilityStep {
    /// The pane is gone: detach the underlay from `window_id`.
    Detach { pane_key: String, window_id: WindowId },
    /// The pane moved to another window: detach it from `from_window`,
    /// attach it to `to_window` loading `url` (the page reloads), and show
    /// it only when `visible`.
    Rehome {
        pane_key: String,
        from_window: WindowId,
        to_window: WindowId,
        visible: bool,
        url: String,
    },
    /// The pane's tab became frontmost (or stopped being): show or hide it.
    SetVisible { pane_key: String, window_id: WindowId, visible: bool },
    /// Nothing changed.
    Keep,
}

/// `step` is what following `agent`'s pane in `windows` calls for.
pub open spec fn step_for(step: VisibilityStep, agent: AgentUnderlay, windows: Seq<crate::workspace::WindowTabs>) -> bool {
    match locate_spec(windows, agent.pane_id) {
        None => step matches VisibilityStep::Detach { pane_key, window_id } && pane_key@
            == agent.pane_key@ && window_id == agent.window_id,
        Some(loc) => if loc.window_id != agent.window_id {
            step matches VisibilityStep::Rehome { pane_key, from_window, to_window, visible, url }
                && pane_key@ == agent.pane_key@ && from_window == agent.window_id && to_window
                == loc.window_id && visible == loc.in_active_tab && url@ == agent.url@
        } else if loc.in_active_tab != agent.visible {
            step matches VisibilityStep::SetVisible { pane_key, window_id, visible } && pane_key@
                == agent.pane_key@ && window_id == agent.window_id && visible == loc.in_active_tab
        } else {
            step is Keep
        },
    }
}

/// The agent lives in its pane's window and is shown exactly while its
/// pane's tab is frontmost there.
pub open spec fn follows_pane(agent: AgentUnderlay, windows: Seq<crate::workspace::WindowTabs>) -> bool {
    locate_spec(windows, agent.pane_id) matches Some(loc) && loc.window_id == agent.window_id
        && loc.in_active_tab == agent.visible
}

/// The agent survives a sync: its pane is still shown and either stayed in
/// its window or the re-home attach succeeded.
pub open spec fn survives_sync(agent: AgentUnderlay, windows: Seq<crate::workspace::WindowTabs>, rehomed: bool) -> bool {
    locate_spec(windows, agent.pane_id) matches Some(loc) && (loc.window_id == agent.window_id
        || rehomed)
}

/// One step per agent underlay, in attachment order: detach those whose
/// pane is gone, re-home those whose pane moved windows, and show or hide
/// the rest by whether their pane's tab is frontmost.
pub fn plan_visibility_sync(state: &BrowserUnderlayState, snapshot: &WorkspaceSnapshot) -> (r: Vec<
    VisibilityStep,
>)
    ensures
        r@.len() == state.agent_seq().len(),
        forall|i: int| 0 <= i < r@.len() ==> step_for(r@[i], state.agent_seq()[i], snapshot.windows@),
{
    let agents = state.agents();
    let mut steps: Vec<VisibilityStep> = Vec::new();
    let mut i: usize = 0;
    while i < agents.len()
        invariant
            agents@ == state.agent_seq(),
            i <= agents@.len(),
            steps@.len() == i,
            forall|j: int| 0 <= j < i ==> step_for(steps@[j], agents@[j], snapshot.windows@),
        decreases agents@.len() - i,
    {
        let agent = &agents[i];
        let step = match snapshot.locate_pane(agent.pane_id) {
            None => VisibilityStep::Detach {
                pane_key: agent.pane_key.clone(),
                window_id: agent.window_id,
            },
            Some(location) => {
                if location.window_id != agent.window_id {
                    VisibilityStep::Rehome {
                        pane_key: agent.pane_key.clone(),
                        from_window: agent.window_id,
                        to_window: location.window_id,
                        visible: location.in_active_tab,
                        url: agent.url.clone(),
                    }
                } else if location.in_active_tab != agent.visible {
                    VisibilityStep::SetVisible {
                        pane_key: agent.pane_key.clone(),
                        window_id: agent.window_id,
                        visible: location.in_active_tab,
                    }
                } else {
                    VisibilityStep::Keep
                }
            },
        };
        steps.push(step);
        i = i + 1;
    }
    steps
}

/// The windows one sync step reports as changed: the agent's window when it
/// is detached, hidden or shown, and both windows when it is re-homed.
pub open spec fn step_events(agent: AgentUnderlay, windows: Seq<crate::workspace::WindowTabs>, rehomed: bool) -> Seq<
    BrowserUnderlayEvent,
> {
    match locate_spec(windows, agent.pane_id) {
        None => seq![BrowserUnderlayEvent::Changed(agent.window_id)],
        Some(loc) => if loc.window_id != agent.window_id {
            if rehomed {
                seq![
                    BrowserUnderlayEvent::Changed(agent.window_id),
                    BrowserUnderlayEvent::Changed(loc.window_id),
                ]
            } else {
                seq![BrowserUnderlayEvent::Changed(agent.window_id)]
            }
        } else if loc.in_active_tab != agent.visible {
            seq![BrowserUnderlayEvent::Changed(agent.window_id)]
        } else {
            Seq::empty()
        },
    }
}

/// The changes reported by the first `n` steps of a sync, in order.
pub open spec fn sync_events(
    agents: Seq<AgentUnderlay>,
    windows: Seq<crate::workspace::WindowTabs>,
    rehomed: Seq<bool>,
    n: nat,
) -> Seq<BrowserUnderlayEvent>
    decreases n,
{
    if n == 0 {
        Seq::empty()
    } else {
        sync_events(agents, windows, rehomed, (n - 1) as nat) + step_events(
            agents[n - 1],
            windows,
            rehomed[n - 1],
        )
    }
}

/// What following its pane makes of `agent`: re-homed into the pane's new
/// window (the webview is recreated, so input resets), shown or hidden with
/// its pane's tab (hiding revokes input), or unchanged.
pub open spec fn synced_agent(agent: AgentUnderlay, windows: Seq<crate::workspace::WindowTabs>) -> AgentUnderlay {
    match locate_spec(windows, agent.pane_id) {
        Some(loc) => if loc.window_id != agent.window_id {
            AgentUnderlay {
                window_id: loc.window_id,
                visible: loc.in_active_tab,
                interactive: false,
                interactive_hold: false,
                ..agent
            }
        } else if loc.in_active_tab != agent.visible {
            AgentUnderlay {
                visible: loc.in_active_tab,
                interactive: loc.in_active_tab && agent.interactive,
                interactive_hold: loc.in_active_tab && agent.interactive_hold,
                ..agent
            }
        } else {
            agent
        },
        None => agent,
    }
}

/// The agent underlays left by the first `n` steps of a sync, in
/// attachment order: each survivor as following its pane makes it.
pub open spec fn synced_agents(
    agents: Seq<AgentUnderlay>,
    windows: Seq<crate::workspace::WindowTabs>,
    rehomed: Seq<bool>,
    n: nat,
) -> Seq<AgentUnderlay>
    decreases n,
{
    if n == 0 {
        Seq::empty()
    } else {
        let done = synced_agents(agents, windows, rehomed, (n - 1) as nat);
        if survives_sync(agents[n - 1], windows, rehomed[n - 1]) {
            done.push(synced_agent(agents[n - 1], windows))
        } else {
            done
        }
    }
}

/// Records a planned sync once the platform carried out its steps;
/// `rehomed[i]` is whether the re-home attach of step `i` succeeded. Every
/// agent underlay left afterwards lives in its pane's window and is shown
/// exactly while its pane's tab is frontmost; an agent underlay survives
/// exactly when its pane is still shown and it stayed in its window or its
/// re-home succeeded.
pub fn apply_visibility_sync(
    state: &mut BrowserUnderlayState,
    snapshot: &WorkspaceSnapshot,
    steps: &Vec<VisibilityStep>,
    rehomed: &Vec<bool>,
    ctx: &mut ModelChanges,
)
    requires
        old(state).wf(),
        steps@.len() == old(state).agent_seq().len(),
        rehomed@.len() == steps@.len(),
        forall|i: int|
            0 <= i < steps@.len() ==> step_for(steps@[i], old(state).agent_seq()[i], snapshot.windows@),
    ensures
        final(state).wf(),
        final(state).ambience_map() == old(state).ambience_map(),
        forall|key: Seq<char>|
            has_key(final(state).agent_seq(), key) ==> has_key(old(state).agent_seq(), key)
                && follows_pane(final(state).agent_spec(key)->Some_0, snapshot.windows@),
        forall|i: int|
            0 <= i < old(state).agent_seq().len() ==> (has_key(
                final(state).agent_seq(),
                old(state).agent_seq()[i].pane_key@,
            ) <==> survives_sync(old(state).agent_seq()[i], snapshot.windows@, rehomed@[i])),
        final(state).agent_seq() == synced_agents(
            old(state).agent_seq(),
            snapshot.windows@,
            rehomed@,
            old(state).agent_seq().len(),
        ),
        final(ctx).spec_events() == old(ctx).spec_events() + sync_events(
            old(state).agent_seq(),
            snapshot.windows@,
            rehomed@,
            old(state).agent_seq().len(),
        ),
        final(ctx).spec_notified() == (old(ctx).spec_notified() || sync_events(
            old(state).agent_seq(),
            snapshot.windows@,
            rehomed@,
            old(state).agent_seq().len(),
        ).len() > 0),
{
    let ghost initial = state.agent_seq();
    let ghost windows = snapshot.windows@;
    let mut k: usize = 0;
    proof {
        assert forall|j: int| 0 <= j < initial.len() implies has_key(
            state.agent_seq(),
            initial[j].pane_key@,
        ) && state.agent_spec(initial[j].pane_key@) == Some(initial[j]) by {
            assert(crate::state::key_at(initial, j, initial[j].pane_key@));
            crate::state::lemma_index_of_unique(initial, initial[j].pane_key@, j);
        }
    }
    while k < steps.len()
        invariant
            initial == old(state).agent_seq(),
            windows == snapshot.windows@,
            steps@.len() == initial.len(),
            rehomed@.len() == steps@.len(),
            forall|i: int| 0 <= i < steps@.len() ==> step_for(steps@[i], initial[i], windows),
            keys_unique(initial),
            k <= steps@.len(),
            state.wf(),
            state.ambience_map() == old(state).ambience_map(),
            forall|key: Seq<char>| has_key(state.agent_seq(), key) ==> has_key(initial, key),
            forall|j: int|
                k <= j < initial.len() ==> has_key(state.agent_seq(), initial[j].pane_key@)
                    && state.agent_spec(initial[j].pane_key@) == Some(initial[j]),
            forall|j: int|
                0 <= j < k ==> (has_key(state.agent_seq(), initial[j].pane_key@) <==> survives_sync(
                    initial[j],
                    windows,
                    rehomed@[j],
                )),
            forall|j: int|
                0 <= j < k && has_key(state.agent_seq(), initial[j].pane_key@) ==> follows_pane(
                    state.agent_spec(initial[j].pane_key@)->Some_0,
                    windows,
                ),
            ctx.spec_events() == old(ctx).spec_events() + sync_events(
                initial,
                windows,
                rehomed@,
                k as nat,
            ),
            state.agent_seq() == synced_agents(initial, windows, rehomed@, k as nat) + initial.subrange(
                k as int,
                initial.len() as int,
            ),
            ctx.spec_notified() == (old(ctx).spec_notified() || sync_events(
                initial,
                windows,
                rehomed@,
                k as nat,
            ).len() > 0),
        decreases steps@.len() - k,
    {
        let ghost before = state.agent_seq();
        let ghost events_before = ctx.spec_events();
        let ghost notified_before = ctx.spec_notified();
        let ghost a = initial[k as int];
        let ghost key = a.pane_key@;
        proof {
            assert(has_key(before, key));
            assert(state.agent_spec(key) == Some(a));
        }
        match &steps[k] {
            VisibilityStep::Detach { pane_key, .. } => {
                state.remove_agent(pane_key.as_str(), ctx);
            },
            VisibilityStep::Rehome { pane_key, to_window, visible, .. } => {
                if rehomed[k] {
                    state.agent_moved(pane_key.as_str(), *to_window, *visible, ctx);
                } else {
                    state.remove_agent(pane_key.as_str(), ctx);
                }
            },
            VisibilityStep::SetVisible { pane_key, visible, .. } => {
                state.set_agent_visible(pane_key.as_str(), *visible, ctx);
            },
            VisibilityStep::Keep => {},
        }
        proof {
            lemma_sync_step(before, state.agent_seq(), initial, k as int, windows, rehomed@[k as int]);
            lemma_sync_order(before, state.agent_seq(), initial, k as int, windows, rehomed@);
            let done = sync_events(initial, windows, rehomed@, k as nat);
            let step = step_events(initial[k as int], windows, rehomed@[k as int]);
            assert(ctx.spec_events() == events_before + step);
            assert(sync_events(initial, windows, rehomed@, (k + 1) as nat) == done + step);
            assert(old(ctx).spec_events() + (done + step) =~= old(ctx).spec_events() + done + step);
            assert(step.len() > 0 ==> ctx.spec_notified());
            assert(step.len() == 0 ==> ctx.spec_notified() == notified_before);
        }
        k = k + 1;
    }
    proof {
        assert forall|key: Seq<char>| has_key(state.agent_seq(), key) implies has_key(initial, key)
            && follows_pane(state.agent_spec(key)->Some_0, windows) by {
            let j = index_of(initial, key);
            assert(crate::state::key_at(initial, j, key));
        }
    }
}

/// One sync step changes only the stepped agent, as its step says.
proof fn lemma_sync_step(
    before: Seq<AgentUnderlay>,
    after: Seq<AgentUnderlay>,
    initial: Seq<AgentUnderlay>,
    k: int,
    windows: Seq<crate::workspace::WindowTabs>,
    rehomed: bool,
)
    requires
        keys_unique(before),
        keys_unique(initial),
        0 <= k < initial.len(),
        has_key(before, initial[k].pane_key@),
        before[index_of(before, initial[k].pane_key@)] == initial[k],
        ({
            let i = index_of(before, initial[k].pane_key@);
            let a = initial[k];
            match locate_spec(windows, a.pane_id) {
                None => after == before.remove(i),
                Some(loc) => if loc.window_id != a.window_id {
                    if rehomed {
                        after == before.update(
                            i,
                            AgentUnderlay {
                                window_id: loc.window_id,
                                visible: loc.in_active_tab,
                                interactive: false,
                                interactive_hold: false,
                                ..a
                            },
                        )
                    } else {
                        after == before.remove(i)
                    }
                } else if loc.in_active_tab != a.visible {
                    after == before.update(
                        i,
                        AgentUnderlay {
                            visible: loc.in_active_tab,
                            interactive: loc.in_active_tab && a.interactive,
                            interactive_hold: loc.in_active_tab && a.interactive_hold,
                            ..a
                        },
                    )
                } else {
                    after == before
                },
            }
        }),
    ensures
        keys_unique(after),
        forall|key: Seq<char>| has_key(after, key) ==> has_key(before, key),
        forall|key: Seq<char>|
            key != initial[k].pane_key@ ==> (has_key(after, key) == has_key(before, key) && (has_key(
                before,
                key,
            ) ==> after[index_of(after, key)] == before[index_of(before, key)])),
        has_key(after, initial[k].pane_key@) <==> survives_sync(initial[k], windows, rehomed),
        has_key(after, initial[k].pane_key@) ==> follows_pane(
            after[index_of(after, initial[k].pane_key@)],
            windows,
        ),
{
    let i = index_of(before, initial[k].pane_key@);
    let a = initial[k];
    assert(crate::state::key_at(before, i, a.pane_key@));
    match locate_spec(windows, a.pane_id) {
        None => {
            crate::state::lemma_remove_keeps_unique(before, i);
            assert forall|key: Seq<char>| key != a.pane_key@ implies (has_key(after, key) == has_key(
                before,
                key,
            ) && (has_key(before, key) ==> after[index_of(after, key)] == before[index_of(before, key)])) by {
                crate::state::lemma_other_key_after_remove(before, i, key);
            }
            crate::state::lemma_removed_key_gone(before, i);
        },
        Some(loc) => {
            if loc.window_id != a.window_id && !rehomed {
                crate::state::lemma_remove_keeps_unique(before, i);
                assert forall|key: Seq<char>| key != a.pane_key@ implies (has_key(after, key) == has_key(
                    before,
                    key,
                ) && (has_key(before, key) ==> after[index_of(after, key)] == before[index_of(before, key)])) by {
                    crate::state::lemma_other_key_after_remove(before, i, key);
                }
                crate::state::lemma_removed_key_gone(before, i);
            } else if loc.window_id != a.window_id || loc.in_active_tab != a.visible {
                let x = after[i];
                assert(after == before.update(i, x));
                assert forall|key: Seq<char>| key != a.pane_key@ implies (has_key(after, key) == has_key(
                    before,
                    key,
                ) && (has_key(before, key) ==> after[index_of(after, key)] == before[index_of(before, key)])) by {
                    crate::state::lemma_key_after_update(before, i, x, key);
                }
                crate::state::lemma_key_after_update(before, i, x, a.pane_key@);
                crate::state::lemma_update_same_key_keeps_unique(before, i, x);
            } else {
            }
        },
    }
}

/// One sync step keeps the agents in attachment order: the synced prefix
/// grows by the stepped agent as following its pane makes it, if it
/// survives.
proof fn lemma_sync_order(
    before: Seq<AgentUnderlay>,
    after: Seq<AgentUnderlay>,
    initial: Seq<AgentUnderlay>,
    k: int,
    windows: Seq<crate::workspace::WindowTabs>,
    rehomed: Seq<bool>,
)
    requires
        keys_unique(before),
        0 <= k < initial.len(),
        k < rehomed.len(),
        before == synced_agents(initial, windows, rehomed, k as nat) + initial.subrange(
            k,
            initial.len() as int,
        ),
        ({
            let i = index_of(before, initial[k].pane_key@);
            let a = initial[k];
            match locate_spec(windows, a.pane_id) {
                None => after == before.remove(i),
                Some(loc) => if loc.window_id != a.window_id {
                    if rehomed[k] {
                        after == before.update(
                            i,
                            AgentUnderlay {
                                window_id: loc.window_id,
                                visible: loc.in_active_tab,
                                interactive: false,
                                interactive_hold: false,
                                ..a
                            },
                        )
                    } else {
                        after == before.remove(i)
                    }
                } else if loc.in_active_tab != a.visible {
                    after == before.update(
                        i,
                        AgentUnderlay {
                            visible: loc.in_active_tab,
                            interactive: loc.in_active_tab && a.interactive,
                            interactive_hold: loc.in_active_tab && a.interactive_hold,
                            ..a
                        },
                    )
                } else {
                    after == before
                },
            }
        }),
    ensures
        after == synced_agents(initial, windows, rehomed, (k + 1) as nat) + initial.subrange(
            k + 1,
            initial.len() as int,
        ),
{
    let done = synced_agents(initial, windows, rehomed, k as nat);
    let i = done.len() as int;
    let a = initial[k];
    assert(before[i] == a);
    assert(crate::state::key_at(before, i, a.pane_key@));
    crate::state::lemma_index_of_unique(before, a.pane_key@, i);
    let rest = initial.subrange(k + 1, initial.len() as int);
    if survives_sync(a, windows, rehomed[k]) {
        let x = synced_agent(a, windows);
        assert(after =~= done.push(x) + rest);
    } else {
        assert(after =~= done + rest);
    }
}

} // verus!
