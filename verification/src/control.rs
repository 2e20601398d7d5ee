//! The `browser.*` and `pane.glass.*` control-plane actions.
//!
//! Two disjoint targets exist: a window's **ambience** underlay, reachable
//! only with the explicit `ambience` routing flag (which the agent-facing
//! endpoint never sets), and **agent** underlays keyed by the owning pane's
//! terminal session UUID.
use vstd::prelude::*;
use vstd::string::StringExecFns;

use crate::encoding::{base64_standard, encode_standard};
use crate::lifecycle::{
    agent_detach, agent_navigate, attach_ambience, finish_agent_attach, message_with,
    navigate_ambience, AgentAttachPlan,
};
use crate::protocol::{action_name, ActionKind, ControlError, ErrorCode};
use crate::render::{effective_interactive_spec, glass_fill_opacity, glass_fill_opacity_spec};
use crate::settings::BrowserUnderlaySettings;
use crate::workspace::{session_key, session_key_of};
use crate::state::{
    clamp_opacity, effective, has_key, index_of, key_at, upserted, AgentUnderlay, AmbienceUnderlay,
    BrowserUnderlayEvent, BrowserUnderlayOwner, BrowserUnderlayState, Millis, ModelChanges,
    WindowId,
};

verus! {

/// Fails every browser action while the feature is unavailable.
pub fn ensure_browser_underlay_available(feature_enabled: bool) -> (r: Result<(), ControlError>)
    ensures
        feature_enabled ==> r is Ok,
        !feature_enabled ==> (r matches Err(e) && e.code == ErrorCode::UnsupportedAction && e.message@
            == "the browser underlay feature is not enabled in this Warp instance"@),
{
    if feature_enabled {
        Ok(())
    } else {
        Err(
            ControlError::new(
                ErrorCode::UnsupportedAction,
                "the browser underlay feature is not enabled in this Warp instance".to_owned(),
            ),
        )
    }
}

/// A resolved routing target for a browser action.
#[derive(Debug)]
pub enum BrowserTargetRef {
    /// The user-owned ambience underlay of a window.
    Ambience(WindowId),
    /// The agent underlay owned by this pane (terminal session UUID, hex).
    Agent(String),
}

/// Resolves the routing target from the `ambience` and `pane_session_uuid`
/// parameters. An agent target is keyed by the pane's session UUID in its
/// canonical spelling ([`session_key`]). `target_window` is the request's
/// selected window;
/// `selected_pane_session` the session UUID of the request's selected pane
/// (`None` for a pane without a terminal session), used only when no
/// session UUID is given.
pub fn resolve_target(
    action: ActionKind,
    ambience: bool,
    pane_session_uuid: Option<String>,
    target_window: Result<WindowId, ControlError>,
    selected_pane_session: Result<Option<String>, ControlError>,
) -> (r: Result<BrowserTargetRef, ControlError>)
    ensures
        ambience && pane_session_uuid is Some ==> (r matches Err(e) && e.code == ErrorCode::InvalidParams
            && e.message@ == "ambience and pane_session_uuid are mutually exclusive"@),
        ambience && pane_session_uuid is None ==> match target_window {
            Ok(w) => (r matches Ok(BrowserTargetRef::Ambience(x)) && x == w),
            Err(e) => (r matches Err(x) && x == e),
        },
        !ambience ==> match pane_session_uuid {
            Some(uuid) if uuid@.len() > 0 => (r matches Ok(BrowserTargetRef::Agent(k)) && k@
                == session_key(uuid@)),
            _ => match selected_pane_session {
                Err(e) => (r matches Err(x) && x == e),
                Ok(None) => (r matches Err(e) && e.code == ErrorCode::MissingTarget && e.message@
                    == action_name(action)
                    + " requires a terminal pane (the resolved pane has no session)"@),
                Ok(Some(k)) => (r matches Ok(BrowserTargetRef::Agent(x)) && x@ == session_key(k@)),
            },
        },
{
    if ambience {
        if pane_session_uuid.is_some() {
            return Err(
                ControlError::new(
                    ErrorCode::InvalidParams,
                    "ambience and pane_session_uuid are mutually exclusive".to_owned(),
                ),
            );
        }
        return match target_window {
            Ok(w) => Ok(BrowserTargetRef::Ambience(w)),
            Err(e) => Err(e),
        };
    }
    if let Some(uuid) = pane_session_uuid {
        if !uuid.as_str().is_empty() {
            return Ok(BrowserTargetRef::Agent(session_key_of(uuid.as_str())));
        }
    }
    match selected_pane_session {
        Err(e) => Err(e),
        Ok(None) => {
            let mut message = action.as_str().to_owned();
            message.append(" requires a terminal pane (the resolved pane has no session)");
            Err(ControlError::new(ErrorCode::MissingTarget, message))
        },
        Ok(Some(k)) => Ok(BrowserTargetRef::Agent(session_key_of(k.as_str()))),
    }
}

/// The owner and window of the target's attached underlay; an error when
/// nothing is attached there.
pub fn attached_target(target: &BrowserTargetRef, action: ActionKind, state: &BrowserUnderlayState) -> (r:
    Result<(WindowId, BrowserUnderlayOwner), ControlError>)
    requires
        state.wf(),
    ensures
        match target {
            BrowserTargetRef::Ambience(w) => if state.ambience_map().contains_key(*w) {
                r matches Ok((x, BrowserUnderlayOwner::Ambience)) && x == *w
            } else {
                r matches Err(e) && e.code == ErrorCode::TargetStateConflict && e.message@
                    == action_name(action)
                    + " requires an ambience underlay attached to the target window"@
            },
            BrowserTargetRef::Agent(k) => if has_key(state.agent_seq(), k@) {
                r matches Ok((x, BrowserUnderlayOwner::Agent(o))) && x == state.agent_seq()[index_of(
                    state.agent_seq(),
                    k@,
                )].window_id && o@ == k@
            } else {
                r matches Err(e) && e.code == ErrorCode::TargetStateConflict && e.message@
                    == action_name(action) + " requires an agent browser attached for pane "@ + k@
            },
        },
{
    match target {
        BrowserTargetRef::Ambience(window_id) => {
            if !state.ambience_attached(*window_id) {
                let mut message = action.as_str().to_owned();
                message.append(" requires an ambience underlay attached to the target window");
                return Err(ControlError::new(ErrorCode::TargetStateConflict, message));
            }
            Ok((*window_id, BrowserUnderlayOwner::Ambience))
        },
        BrowserTargetRef::Agent(pane_key) => {
            match state.agent(pane_key.as_str()) {
                Some(agent) => Ok((agent.window_id, BrowserUnderlayOwner::Agent(pane_key.clone()))),
                None => {
                    let mut message = action.as_str().to_owned();
                    message.append(" requires an agent browser attached for pane ");
                    message.append(pane_key.as_str());
                    Err(ControlError::new(ErrorCode::TargetStateConflict, message))
                },
            }
        },
    }
}

/// A failure of a lifecycle operation, reported as a target-state conflict.
pub fn target_state_conflict(message: String) -> (e: ControlError)
    ensures
        e.code == ErrorCode::TargetStateConflict,
        e.message == message,
{
    ControlError::new(ErrorCode::TargetStateConflict, message)
}

/// Sets latched interactive mode on the target's attached underlay at
/// `now`. Returns the underlay's window and owner, and the new effective
/// mode the webview receives.
pub fn set_target_interactive(
    state: &mut BrowserUnderlayState,
    target: &BrowserTargetRef,
    value: bool,
    now: Millis,
    ctx: &mut ModelChanges,
) -> (r: Result<(WindowId, BrowserUnderlayOwner, Option<bool>), ControlError>)
    requires
        old(state).wf(),
    ensures
        final(state).wf(),
        match target {
            BrowserTargetRef::Ambience(w) => if old(state).ambience_map().contains_key(*w) {
                let a = old(state).ambience_map()[*w];
                &&& r matches Ok((x, BrowserUnderlayOwner::Ambience, e)) && x == *w && e == Some(
                    effective(value, a.interactive_hold),
                )
                &&& final(state).ambience_map() == old(state).ambience_map().insert(
                    *w,
                    crate::state::AmbienceUnderlay { interactive: value, ..a },
                )
                &&& final(state).agent_seq() == old(state).agent_seq()
            } else {
                &&& r matches Err(e) && e.code == ErrorCode::TargetStateConflict && e.message@
                        == action_name(ActionKind::BrowserInteractive)
                        + " requires an ambience underlay attached to the target window"@
                &&& final(state).ambience_map() == old(state).ambience_map()
                &&& final(state).agent_seq() == old(state).agent_seq()
            },
            BrowserTargetRef::Agent(k) => if has_key(old(state).agent_seq(), k@) {
                let i = index_of(old(state).agent_seq(), k@);
                let a = old(state).agent_seq()[i];
                &&& r matches Ok((x, BrowserUnderlayOwner::Agent(o), e)) && x == a.window_id && o@ == k@
                    && e == Some(effective(value, a.interactive_hold))
                &&& final(state).agent_seq() == old(state).agent_seq().update(
                    i,
                    AgentUnderlay { interactive: value, last_used: now, ..a },
                )
                &&& final(state).ambience_map() == old(state).ambience_map()
            } else {
                &&& r matches Err(e) && e.code == ErrorCode::TargetStateConflict && e.message@
                    == action_name(ActionKind::BrowserInteractive) + " requires an agent browser attached for pane "@
                    + k@
                &&& final(state).ambience_map() == old(state).ambience_map()
                &&& final(state).agent_seq() == old(state).agent_seq()
            },
        },
        r matches Ok((x, _, _)) ==> final(ctx).spec_events() == old(ctx).spec_events().push(
            BrowserUnderlayEvent::Changed(x),
        ) && final(ctx).spec_notified(),
        r is Err ==> *final(ctx) == *old(ctx),
{
    let (window_id, owner) = match attached_target(target, ActionKind::BrowserInteractive, state) {
        Ok(found) => found,
        Err(e) => {
            return Err(e);
        },
    };
    let effective = state.set_interactive(window_id, &owner, value, now, ctx);
    Ok((window_id, owner, effective))
}

/// Sets the glass porthole of the agent underlay keyed `pane_key`; a
/// target-state conflict when no such agent underlay is attached.
pub fn pane_glass_set(
    state: &mut BrowserUnderlayState,
    pane_key: &str,
    enabled: bool,
    opacity: Option<u8>,
    now: Millis,
    ctx: &mut ModelChanges,
) -> (r: Result<(), ControlError>)
    requires
        old(state).wf(),
    ensures
        final(state).wf(),
        final(state).ambience_map() == old(state).ambience_map(),
        r is Ok <==> has_key(old(state).agent_seq(), pane_key@),
        r matches Err(e) ==> e.code == ErrorCode::TargetStateConflict && e.message@
            == "no agent browser attached for pane "@ + pane_key@,
        has_key(old(state).agent_seq(), pane_key@) ==> {
            let i = index_of(old(state).agent_seq(), pane_key@);
            let a = old(state).agent_seq()[i];
            final(state).agent_seq() == old(state).agent_seq().update(
                i,
                AgentUnderlay {
                    glass: enabled,
                    glass_opacity_override: match opacity {
                        Some(o) => Some(crate::state::clamp_opacity(o)),
                        None => a.glass_opacity_override,
                    },
                    last_used: now,
                    ..a
                },
            )
        },
        has_key(old(state).agent_seq(), pane_key@) ==> final(ctx).spec_events() == old(
            ctx,
        ).spec_events().push(
            BrowserUnderlayEvent::Changed(
                old(state).agent_seq()[index_of(old(state).agent_seq(), pane_key@)].window_id,
            ),
        ) && final(ctx).spec_notified(),
        r is Err ==> *final(ctx) == *old(ctx),
{
    if state.set_agent_glass(pane_key, enabled, opacity, now, ctx) {
        Ok(())
    } else {
        Err(
            ControlError::new(
                ErrorCode::TargetStateConflict,
                message_with("no agent browser attached for pane ", pane_key),
            ),
        )
    }
}

/// Records an evaluation on the target's attached underlay at `now` and
/// returns where it runs.
pub fn eval_target(
    state: &mut BrowserUnderlayState,
    target: &BrowserTargetRef,
    now: Millis,
) -> (r: Result<(WindowId, BrowserUnderlayOwner), ControlError>)
    requires
        old(state).wf(),
    ensures
        final(state).wf(),
        final(state).ambience_map() == old(state).ambience_map(),
        match target {
            BrowserTargetRef::Ambience(w) => {
                &&& final(state).agent_seq() == old(state).agent_seq()
                &&& if old(state).ambience_map().contains_key(*w) {
                    r matches Ok((x, BrowserUnderlayOwner::Ambience)) && x == *w
                } else {
                    r matches Err(e) && e.code == ErrorCode::TargetStateConflict && e.message@
                        == action_name(ActionKind::BrowserEval)
                        + " requires an ambience underlay attached to the target window"@
                }
            },
            BrowserTargetRef::Agent(k) => if has_key(old(state).agent_seq(), k@) {
                let i = index_of(old(state).agent_seq(), k@);
                let a = old(state).agent_seq()[i];
                &&& r matches Ok((x, BrowserUnderlayOwner::Agent(o))) && x == a.window_id && o@ == k@
                &&& final(state).agent_seq() == old(state).agent_seq().update(
                    i,
                    AgentUnderlay { last_used: now, ..a },
                )
            } else {
                &&& r matches Err(e) && e.code == ErrorCode::TargetStateConflict && e.message@
                    == action_name(ActionKind::BrowserEval) + " requires an agent browser attached for pane "@
                    + k@
                &&& final(state).agent_seq() == old(state).agent_seq()
            },
        },
{
    let (window_id, owner) = match attached_target(target, ActionKind::BrowserEval, state) {
        Ok(found) => found,
        Err(e) => {
            return Err(e);
        },
    };
    if let BrowserUnderlayOwner::Agent(pane_key) = &owner {
        state.touch_agent(pane_key.as_str(), None, now);
    }
    Ok((window_id, owner))
}

/// Records a capture of the target's attached underlay at `now` and returns
/// where it runs and whether its tab is visible: an ambience underlay
/// always is; an agent underlay only while its pane's tab is frontmost, so
/// a hidden capture can be flagged as possibly stale.
pub fn screenshot_target(
    state: &mut BrowserUnderlayState,
    target: &BrowserTargetRef,
    now: Millis,
) -> (r: Result<(WindowId, BrowserUnderlayOwner, bool), ControlError>)
    requires
        old(state).wf(),
    ensures
        final(state).wf(),
        final(state).ambience_map() == old(state).ambience_map(),
        match target {
            BrowserTargetRef::Ambience(w) => {
                &&& final(state).agent_seq() == old(state).agent_seq()
                &&& if old(state).ambience_map().contains_key(*w) {
                    r matches Ok((x, BrowserUnderlayOwner::Ambience, visible)) && x == *w && visible
                } else {
                    r matches Err(e) && e.code == ErrorCode::TargetStateConflict && e.message@
                        == action_name(ActionKind::BrowserScreenshot)
                        + " requires an ambience underlay attached to the target window"@
                }
            },
            BrowserTargetRef::Agent(k) => if has_key(old(state).agent_seq(), k@) {
                let i = index_of(old(state).agent_seq(), k@);
                let a = old(state).agent_seq()[i];
                &&& r matches Ok((x, BrowserUnderlayOwner::Agent(o), visible)) && x == a.window_id && o@
                    == k@ && visible == a.visible
                &&& final(state).agent_seq() == old(state).agent_seq().update(
                    i,
                    AgentUnderlay { last_used: now, ..a },
                )
            } else {
                &&& r matches Err(e) && e.code == ErrorCode::TargetStateConflict && e.message@
                    == action_name(ActionKind::BrowserScreenshot) + " requires an agent browser attached for pane "@
                    + k@
                &&& final(state).agent_seq() == old(state).agent_seq()
            },
        },
{
    let (window_id, owner) = match attached_target(target, ActionKind::BrowserScreenshot, state) {
        Ok(found) => found,
        Err(e) => {
            return Err(e);
        },
    };
    let tab_visible = match &owner {
        BrowserUnderlayOwner::Ambience => true,
        BrowserUnderlayOwner::Agent(pane_key) => {
            let ghost before = state.agent_seq();
            state.touch_agent(pane_key.as_str(), None, now);
            proof {
                let i = index_of(before, pane_key@);
                crate::state::lemma_key_after_update(
                    before,
                    i,
                    AgentUnderlay { last_used: now, ..before[i] },
                    pane_key@,
                );
            }
            match state.agent(pane_key.as_str()) {
                Some(agent) => agent.visible,
                None => false,
            }
        },
    };
    Ok((window_id, owner, tab_visible))
}

/// A captured page, ready to report.
#[derive(Debug)]
pub struct ScreenshotPayload {
    pub tab_visible: bool,
    /// The PNG, base64-encoded (standard alphabet, padded).
    pub data_base64: String,
}

/// Encodes a captured PNG for the screenshot reply.
pub fn screenshot_payload(tab_visible: bool, png: &[u8]) -> (r: ScreenshotPayload)
    requires
        png@.len() / 3 * 4 + 4 <= usize::MAX,
    ensures
        r.tab_visible == tab_visible,
        r.data_base64@ == base64_standard(png@),
{
    ScreenshotPayload { tab_visible, data_base64: encode_standard(png) }
}

/// The reported state of a browser target.
#[derive(Debug)]
pub enum BrowserStatus {
    /// A window's ambience underlay.
    Ambience {
        window_id: WindowId,
        attached: bool,
        url: Option<String>,
        interactive: Option<bool>,
    },
    /// An agent underlay.
    Agent {
        pane_session_uuid: String,
        /// Where it lives, when attached.
        agent_window_id: Option<WindowId>,
        attached: bool,
        url: Option<String>,
        visible: Option<bool>,
        glass: Option<bool>,
        glass_opacity: Option<u8>,
        interactive: Option<bool>,
    },
}

/// The state of a browser target: whether an underlay is attached and, when
/// it is, its URL, effective interactive mode and, for an agent underlay,
/// its window, visibility, glass porthole and effective glass opacity.
pub fn browser_status(
    target: &BrowserTargetRef,
    state: &BrowserUnderlayState,
    settings: &BrowserUnderlaySettings,
) -> (r: BrowserStatus)
    requires
        state.wf(),
    ensures
        match target {
            BrowserTargetRef::Ambience(w) => if state.ambience_map().contains_key(*w) {
                let a = state.ambience_map()[*w];
                r matches BrowserStatus::Ambience { window_id, attached, url, interactive } && window_id
                    == *w && attached && url == Some(a.url) && interactive == Some(
                    effective(a.interactive, a.interactive_hold),
                )
            } else {
                r matches BrowserStatus::Ambience { window_id, attached, url, interactive } && window_id
                    == *w && !attached && url is None && interactive is None
            },
            BrowserTargetRef::Agent(k) => if has_key(state.agent_seq(), k@) {
                let a = state.agent_seq()[index_of(state.agent_seq(), k@)];
                r matches BrowserStatus::Agent {
                    pane_session_uuid,
                    agent_window_id,
                    attached,
                    url,
                    visible,
                    glass,
                    glass_opacity,
                    interactive,
                } && pane_session_uuid@ == k@ && agent_window_id == Some(a.window_id) && attached && url
                    == Some(a.url) && visible == Some(a.visible) && glass == Some(a.glass)
                    && glass_opacity == Some(
                    glass_fill_opacity_spec(state, settings.glass_opacity.spec_value(), a.window_id),
                ) && interactive == Some(effective(a.interactive, a.interactive_hold))
            } else {
                r matches BrowserStatus::Agent {
                    pane_session_uuid,
                    agent_window_id,
                    attached,
                    url,
                    visible,
                    glass,
                    glass_opacity,
                    interactive,
                } && pane_session_uuid@ == k@ && agent_window_id is None && !attached && url is None
                    && visible is None && glass is None && glass_opacity is None && interactive is None
            },
        },
{
    match target {
        BrowserTargetRef::Ambience(window_id) => match state.ambience(*window_id) {
            Some(ambience) => BrowserStatus::Ambience {
                window_id: *window_id,
                attached: true,
                url: Some(ambience.url.clone()),
                interactive: Some(ambience.interactive || ambience.interactive_hold),
            },
            None => BrowserStatus::Ambience {
                window_id: *window_id,
                attached: false,
                url: None,
                interactive: None,
            },
        },
        BrowserTargetRef::Agent(pane_key) => match state.agent(pane_key.as_str()) {
            Some(agent) => BrowserStatus::Agent {
                pane_session_uuid: pane_key.clone(),
                agent_window_id: Some(agent.window_id),
                attached: true,
                url: Some(agent.url.clone()),
                visible: Some(agent.visible),
                glass: Some(agent.glass),
                glass_opacity: Some(glass_fill_opacity(agent.window_id, state, settings)),
                interactive: Some(agent.interactive || agent.interactive_hold),
            },
            None => BrowserStatus::Agent {
                pane_session_uuid: pane_key.clone(),
                agent_window_id: None,
                attached: false,
                url: None,
                visible: None,
                glass: None,
                glass_opacity: None,
                interactive: None,
            },
        },
    }
}

/// Records a `browser.attach` of the target window's ambience underlay once
/// the platform reported whether the window hosts the webview; a
/// target-state conflict when it cannot.
pub fn attach_ambience_target(
    state: &mut BrowserUnderlayState,
    window_id: WindowId,
    url: String,
    feature_enabled: bool,
    attached: bool,
    ctx: &mut ModelChanges,
) -> (r: Result<(), ControlError>)
    requires
        old(state).wf(),
    ensures
        final(state).wf(),
        final(state).agent_seq() == old(state).agent_seq(),
        r is Ok <==> feature_enabled && attached,
        r is Ok ==> final(state).ambience_map() == old(state).ambience_map().insert(
            window_id,
            AmbienceUnderlay {
                url,
                interactive: old(state).ambience_map().contains_key(window_id)
                    && old(state).ambience_map()[window_id].interactive,
                interactive_hold: old(state).ambience_map().contains_key(window_id)
                    && old(state).ambience_map()[window_id].interactive_hold,
            },
        ),
        r matches Err(e) ==> e.code == ErrorCode::TargetStateConflict && e.message@
            == "the target window cannot host a browser underlay"@ && final(state).ambience_map()
            == old(state).ambience_map(),
        r is Ok ==> final(ctx).spec_events() == old(ctx).spec_events().push(
            BrowserUnderlayEvent::Changed(window_id),
        ) && final(ctx).spec_notified(),
        r is Err ==> *final(ctx) == *old(ctx),
{
    if attach_ambience(state, window_id, url, feature_enabled, attached, ctx) {
        Ok(())
    } else {
        Err(target_state_conflict("the target window cannot host a browser underlay".to_owned()))
    }
}

/// Records a `browser.attach` of an agent underlay once the platform
/// reported whether the pane's window hosts the webview (`attached`), then
/// applies the requested glass porthole and opacity override; a
/// target-state conflict when the window cannot host it.
#[allow(clippy::too_many_arguments)]
pub fn finish_agent_target_attach(
    state: &mut BrowserUnderlayState,
    plan: &AgentAttachPlan,
    url: String,
    glass: bool,
    glass_opacity: Option<u8>,
    attached: bool,
    now: Millis,
    ctx: &mut ModelChanges,
) -> (r: Result<(), ControlError>)
    requires
        old(state).wf(),
    ensures
        final(state).wf(),
        final(state).ambience_map() == old(state).ambience_map(),
        r is Ok <==> attached,
        r matches Err(e) ==> e.code == ErrorCode::TargetStateConflict && e.message@
            == "the pane's window cannot host a browser underlay"@ && final(state).agent_seq()
            == old(state).agent_seq(),
        attached ==> {
            let s = upserted(
                old(state).agent_seq(),
                plan.pane_key,
                plan.pane_id,
                plan.location.window_id,
                url,
                plan.location.in_active_tab,
                now,
            );
            let i = index_of(s, plan.pane_key@);
            final(state).agent_seq() == s.update(
                i,
                AgentUnderlay {
                    glass,
                    glass_opacity_override: match glass_opacity {
                        Some(o) => Some(clamp_opacity(o)),
                        None => s[i].glass_opacity_override,
                    },
                    last_used: now,
                    ..s[i]
                },
            )
        },
        r is Ok ==> final(ctx).spec_events() == old(ctx).spec_events().push(
            BrowserUnderlayEvent::Changed(plan.location.window_id),
        ).push(BrowserUnderlayEvent::Changed(plan.location.window_id)) && final(ctx).spec_notified(),
        r is Err ==> *final(ctx) == *old(ctx),
{
    let key = plan.pane_key.clone();
    match finish_agent_attach(state, plan, url, attached, now, ctx) {
        Ok(()) => {},
        Err(e) => {
            return Err(target_state_conflict(e));
        },
    }
    proof {
        let s = state.agent_seq();
        let old_seq = old(state).agent_seq();
        if has_key(old_seq, key@) {
            assert(key_at(s, index_of(old_seq, key@), key@));
        } else {
            assert(key_at(s, old_seq.len() as int, key@));
        }
    }
    state.set_agent_glass(key.as_str(), glass, glass_opacity, now, ctx);
    Ok(())
}

/// Records a `browser.navigate` of the target's underlay at `now` and
/// returns the window and owner whose webview navigates; a target-state
/// conflict when nothing is attached there.
pub fn navigate_target(
    state: &mut BrowserUnderlayState,
    target: &BrowserTargetRef,
    url: String,
    now: Millis,
    ctx: &mut ModelChanges,
) -> (r: Result<(WindowId, BrowserUnderlayOwner), ControlError>)
    requires
        old(state).wf(),
    ensures
        final(state).wf(),
        match target {
            BrowserTargetRef::Ambience(w) => {
                &&& final(state).agent_seq() == old(state).agent_seq()
                &&& if old(state).ambience_map().contains_key(*w) {
                    &&& r matches Ok((x, BrowserUnderlayOwner::Ambience)) && x == *w
                    &&& final(state).ambience_map() == old(state).ambience_map().insert(
                        *w,
                        AmbienceUnderlay { url, ..old(state).ambience_map()[*w] },
                    )
                } else {
                    &&& r matches Err(e) && e.code == ErrorCode::TargetStateConflict && e.message@
                        == "no ambience underlay attached to the target window"@
                    &&& final(state).ambience_map() == old(state).ambience_map()
                }
            },
            BrowserTargetRef::Agent(k) => {
                &&& final(state).ambience_map() == old(state).ambience_map()
                &&& if has_key(old(state).agent_seq(), k@) {
                    let i = index_of(old(state).agent_seq(), k@);
                    let a = old(state).agent_seq()[i];
                    &&& r matches Ok((x, BrowserUnderlayOwner::Agent(o))) && x == a.window_id && o@
                        == k@
                    &&& final(state).agent_seq() == old(state).agent_seq().update(
                        i,
                        AgentUnderlay { last_used: now, url, ..a },
                    )
                } else {
                    &&& r matches Err(e) && e.code == ErrorCode::TargetStateConflict && e.message@
                        == "no agent browser attached for pane "@ + k@
                    &&& final(state).agent_seq() == old(state).agent_seq()
                }
            },
        },
        match target {
            BrowserTargetRef::Ambience(w) => r is Ok ==> final(ctx).spec_events() == old(
                ctx,
            ).spec_events().push(BrowserUnderlayEvent::Changed(*w)) && final(ctx).spec_notified(),
            BrowserTargetRef::Agent(_) => r is Ok ==> *final(ctx) == *old(ctx),
        },
        r is Err ==> *final(ctx) == *old(ctx),
{
    match target {
        BrowserTargetRef::Ambience(window_id) => {
            if navigate_ambience(state, *window_id, url, ctx) {
                Ok((*window_id, BrowserUnderlayOwner::Ambience))
            } else {
                Err(
                    target_state_conflict(
                        "no ambience underlay attached to the target window".to_owned(),
                    ),
                )
            }
        },
        BrowserTargetRef::Agent(pane_key) => match agent_navigate(state, pane_key.as_str(), url, now) {
            Ok(window_id) => Ok((window_id, BrowserUnderlayOwner::Agent(pane_key.clone()))),
            Err(e) => Err(target_state_conflict(e)),
        },
    }
}

/// Forgets the target's underlay for `browser.detach` and returns the
/// window and owner whose webview must be detached: always the window for
/// an ambience target, and the agent's window when one was attached.
pub fn detach_target(
    state: &mut BrowserUnderlayState,
    target: &BrowserTargetRef,
    ctx: &mut ModelChanges,
) -> (r: Option<(WindowId, BrowserUnderlayOwner)>)
    requires
        old(state).wf(),
    ensures
        final(state).wf(),
        match target {
            BrowserTargetRef::Ambience(w) => {
                &&& r matches Some((x, BrowserUnderlayOwner::Ambience)) && x == *w
                &&& final(state).ambience_map() == old(state).ambience_map().remove(*w)
                &&& final(state).agent_seq() == old(state).agent_seq()
            },
            BrowserTargetRef::Agent(k) => {
                &&& final(state).ambience_map() == old(state).ambience_map()
                &&& if has_key(old(state).agent_seq(), k@) {
                    let i = index_of(old(state).agent_seq(), k@);
                    &&& r matches Some((x, BrowserUnderlayOwner::Agent(o))) && x == old(
                        state,
                    ).agent_seq()[i].window_id && o@ == k@
                    &&& final(state).agent_seq() == old(state).agent_seq().remove(i)
                } else {
                    &&& r is None
                    &&& final(state).agent_seq() == old(state).agent_seq()
                }
            },
        },
        match target {
            BrowserTargetRef::Ambience(w) => if old(state).ambience_map().contains_key(*w) {
                final(ctx).spec_events() == old(ctx).spec_events().push(
                    BrowserUnderlayEvent::Changed(*w),
                ) && final(ctx).spec_notified()
            } else {
                *final(ctx) == *old(ctx)
            },
            BrowserTargetRef::Agent(k) => if has_key(old(state).agent_seq(), k@) {
                final(ctx).spec_events() == old(ctx).spec_events().push(
                    BrowserUnderlayEvent::Changed(
                        old(state).agent_seq()[index_of(old(state).agent_seq(), k@)].window_id,
                    ),
                ) && final(ctx).spec_notified()
            } else {
                *final(ctx) == *old(ctx)
            },
        },
{
    match target {
        BrowserTargetRef::Ambience(window_id) => {
            state.set_ambience_detached(*window_id, ctx);
            Some((*window_id, BrowserUnderlayOwner::Ambience))
        },
        BrowserTargetRef::Agent(pane_key) => match agent_detach(state, pane_key.as_str(), ctx) {
            Some(window_id) => Some((window_id, BrowserUnderlayOwner::Agent(pane_key.clone()))),
            None => None,
        },
    }
}

/// The reply to `browser.mcp.env`: the running MCP endpoint's URL and
/// bearer token, or a target-state conflict when the endpoint is not
/// running.
pub fn mcp_env_reply(env: Option<(String, String)>) -> (r: Result<(String, String), ControlError>)
    ensures
        match env {
            Some(pair) => r == Ok::<(String, String), ControlError>(pair),
            None => (r matches Err(e) && e.code == ErrorCode::TargetStateConflict && e.message@
                == "the MCP endpoint is not running (enable Settings \u{203a} Scripting)"@),
        },
{
    match env {
        Some(pair) => Ok(pair),
        None => Err(
            target_state_conflict(
                "the MCP endpoint is not running (enable Settings \u{203a} Scripting)".to_owned(),
            ),
        ),
    }
}

} // verus!
