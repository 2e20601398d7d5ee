//! What renders behind a window's active tab, and the background fills that
//! keep terminals legible over it ("night glass").
use vstd::prelude::*;

use crate::settings::{BrowserGlassOpacity, BrowserUnderlaySettings};
use crate::state::{
    clamp_opacity, effective, AgentUnderlay, BrowserUnderlayState, PaneId, WindowId,
};

verus! {

/// Workspace-level tint painted over a visible agent underlay with a glass
/// porthole: near-transparent, with per-pane fills carrying legibility.
pub const GLASS_INVERSION_WORKSPACE_TINT_OPACITY: u8 = 10;

/// Background fill opacity for panes other than the agent's while an agent
/// underlay with a glass porthole is visible: near-opaque.
pub const NON_GLASS_PANE_FILL_OPACITY: u8 = 95;

/// What (if anything) renders behind a window's active tab right now.
#[derive(PartialEq, Eq, Structural, Clone, Copy, Debug)]
pub enum VisibleUnderlay {
    /// The user's ambience underlay: the whole tab renders as glass.
    Ambience,
    /// An agent underlay: the agent's pane is a glass porthole (when `glass`),
    /// other panes stay near-opaque.
    Agent { pane_id: PaneId, glass: bool },
}

/// The agent at `i` is the first visible agent underlay of `window_id`.
pub open spec fn is_first_visible(agents: Seq<AgentUnderlay>, window_id: WindowId, i: int) -> bool {
    &&& 0 <= i < agents.len()
    &&& agents[i].window_id == window_id
    &&& agents[i].visible
    &&& forall|j: int|
        0 <= j < i ==> !(agents[j].window_id == window_id && agents[j].visible)
}

/// The index of the first visible agent underlay of `window_id`, or -1.
pub open spec fn visible_index(agents: Seq<AgentUnderlay>, window_id: WindowId) -> int {
    if exists|i: int| is_first_visible(agents, window_id, i) {
        choose|i: int| is_first_visible(agents, window_id, i)
    } else {
        -1
    }
}

/// The underlay visible in `window_id`'s active tab: a visible agent
/// underlay takes priority over the ambience.
pub open spec fn visible_underlay_spec(state: &BrowserUnderlayState, window_id: WindowId) -> Option<
    VisibleUnderlay,
> {
    let agents = state.agent_seq();
    let i = visible_index(agents, window_id);
    if i >= 0 {
        Some(VisibleUnderlay::Agent { pane_id: agents[i].pane_id, glass: agents[i].glass })
    } else if state.ambience_map().contains_key(window_id) {
        Some(VisibleUnderlay::Ambience)
    } else {
        None
    }
}

/// The effective glass fill opacity: the visible agent's override when set,
/// otherwise the setting, at most 100.
pub open spec fn glass_fill_opacity_spec(
    state: &BrowserUnderlayState,
    setting: u8,
    window_id: WindowId,
) -> u8 {
    let agents = state.agent_seq();
    let i = visible_index(agents, window_id);
    let chosen = if i >= 0 && agents[i].glass_opacity_override is Some {
        agents[i].glass_opacity_override->Some_0
    } else {
        setting
    };
    clamp_opacity(chosen)
}

/// The workspace-level fill: the near-transparent tint over an agent
/// porthole, the glass opacity otherwise.
pub open spec fn workspace_fill_opacity_spec(
    state: &BrowserUnderlayState,
    setting: u8,
    window_id: WindowId,
) -> u8 {
    match visible_underlay_spec(state, window_id) {
        Some(VisibleUnderlay::Agent { glass: true, .. }) => GLASS_INVERSION_WORKSPACE_TINT_OPACITY,
        _ => glass_fill_opacity_spec(state, setting, window_id),
    }
}

/// The fill a pane paints: only while an agent porthole is visible, the
/// agent's pane at the glass opacity and every other pane near-opaque.
pub open spec fn pane_fill_opacity_spec(
    state: &BrowserUnderlayState,
    setting: u8,
    window_id: WindowId,
    pane_id: PaneId,
) -> Option<u8> {
    match visible_underlay_spec(state, window_id) {
        Some(VisibleUnderlay::Agent { pane_id: agent_pane, glass: true }) => {
            if pane_id == agent_pane {
                Some(glass_fill_opacity_spec(state, setting, window_id))
            } else {
                Some(NON_GLASS_PANE_FILL_OPACITY)
            }
        },
        _ => None,
    }
}

/// Whether input reaches the visible underlay of `window_id`.
pub open spec fn effective_interactive_spec(state: &BrowserUnderlayState, window_id: WindowId) -> bool {
    let agents = state.agent_seq();
    let i = visible_index(agents, window_id);
    if i >= 0 {
        effective(agents[i].interactive, agents[i].interactive_hold)
    } else {
        state.ambience_map().contains_key(window_id) && effective(
            state.ambience_map()[window_id].interactive,
            state.ambience_map()[window_id].interactive_hold,
        )
    }
}

/// The first visible agent underlay is found at exactly one index.
pub proof fn lemma_visible_index(agents: Seq<AgentUnderlay>, window_id: WindowId, i: int)
    requires
        is_first_visible(agents, window_id, i),
    ensures
        visible_index(agents, window_id) == i,
{
    let j = choose|j: int| is_first_visible(agents, window_id, j);
    assert(is_first_visible(agents, window_id, j));
    if j < i {
        assert(!(agents[j].window_id == window_id && agents[j].visible));
    } else if i < j {
        assert(!(agents[i].window_id == window_id && agents[i].visible));
    }
}

/// The index of the first visible agent underlay of `window_id`.
fn find_visible_agent(state: &BrowserUnderlayState, window_id: WindowId) -> (r: Option<usize>)
    ensures
        match r {
            Some(i) => i as int == visible_index(state.agent_seq(), window_id) && i
                < state.agent_seq().len(),
            None => visible_index(state.agent_seq(), window_id) == -1,
        },
{
    let agents = state.agents();
    let mut i: usize = 0;
    while i < agents.len()
        invariant
            agents@ == state.agent_seq(),
            i <= agents@.len(),
            forall|j: int| 0 <= j < i ==> !(agents@[j].window_id == window_id && agents@[j].visible),
        decreases agents@.len() - i,
    {
        if agents[i].window_id == window_id && agents[i].visible {
            proof {
                lemma_visible_index(agents@, window_id, i as int);
            }
            return Some(i);
        }
        i = i + 1;
    }
    proof {
        if exists|k: int| is_first_visible(agents@, window_id, k) {
            let k = choose|k: int| is_first_visible(agents@, window_id, k);
            assert(!(agents@[k].window_id == window_id && agents@[k].visible));
        }
    }
    None
}

/// The underlay visible in `window_id`'s active tab, if any: a visible agent
/// underlay takes priority over the ambience.
pub fn visible_underlay(window_id: WindowId, state: &BrowserUnderlayState) -> (r: Option<
    VisibleUnderlay,
>)
    ensures
        r == visible_underlay_spec(state, window_id),
{
    match find_visible_agent(state, window_id) {
        Some(i) => {
            let agent = &state.agents()[i];
            Some(VisibleUnderlay::Agent { pane_id: agent.pane_id, glass: agent.glass })
        },
        None => {
            if state.ambience_attached(window_id) {
                Some(VisibleUnderlay::Ambience)
            } else {
                None
            }
        },
    }
}

/// The effective glass fill opacity for `window_id`: the visible agent's
/// override when set, otherwise the `glass_opacity` setting; at most 100.
pub fn glass_fill_opacity(
    window_id: WindowId,
    state: &BrowserUnderlayState,
    settings: &BrowserUnderlaySettings,
) -> (r: u8)
    ensures
        r == glass_fill_opacity_spec(state, settings.glass_opacity.spec_value(), window_id),
        r <= BrowserGlassOpacity::MAX,
{
    let chosen = match find_visible_agent(state, window_id) {
        Some(i) => match state.agents()[i].glass_opacity_override {
            Some(o) => o,
            None => settings.glass_opacity.value(),
        },
        None => settings.glass_opacity.value(),
    };
    if chosen > BrowserGlassOpacity::MAX {
        BrowserGlassOpacity::MAX
    } else {
        chosen
    }
}

/// The workspace-level background fill opacity while an underlay is
/// visible.
pub fn workspace_fill_opacity(
    window_id: WindowId,
    state: &BrowserUnderlayState,
    settings: &BrowserUnderlaySettings,
) -> (r: u8)
    ensures
        r == workspace_fill_opacity_spec(state, settings.glass_opacity.spec_value(), window_id),
{
    match visible_underlay(window_id, state) {
        Some(VisibleUnderlay::Agent { glass: true, .. }) => GLASS_INVERSION_WORKSPACE_TINT_OPACITY,
        _ => glass_fill_opacity(window_id, state, settings),
    }
}

/// The background fill opacity `pane_id` should paint, or `None` when the
/// pane paints no background of its own.
pub fn pane_fill_opacity(
    window_id: WindowId,
    pane_id: PaneId,
    state: &BrowserUnderlayState,
    settings: &BrowserUnderlaySettings,
) -> (r: Option<u8>)
    ensures
        r == pane_fill_opacity_spec(state, settings.glass_opacity.spec_value(), window_id, pane_id),
{
    match visible_underlay(window_id, state) {
        Some(VisibleUnderlay::Agent { pane_id: agent_pane, glass: true }) => {
            if pane_id == agent_pane {
                Some(glass_fill_opacity(window_id, state, settings))
            } else {
                Some(NON_GLASS_PANE_FILL_OPACITY)
            }
        },
        _ => None,
    }
}

/// Whether input currently reaches the visible underlay of `window_id`.
pub fn effective_interactive(window_id: WindowId, state: &BrowserUnderlayState) -> (r: bool)
    ensures
        r == effective_interactive_spec(state, window_id),
{
    match find_visible_agent(state, window_id) {
        Some(i) => {
            let agent = &state.agents()[i];
            agent.interactive || agent.interactive_hold
        },
        None => match state.ambience(window_id) {
            Some(ambience) => ambience.interactive || ambience.interactive_hold,
            None => false,
        },
    }
}

} // verus!
