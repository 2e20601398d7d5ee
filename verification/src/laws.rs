//! Properties of the underlay model that span several operations.
use vstd::prelude::*;

use crate::json::Json;
use crate::lifecycle::{lives_in, step_for, synced_agent, VisibilityStep};
use crate::render::{
    effective_interactive_spec, is_first_visible, lemma_visible_index, visible_underlay_spec,
    VisibleUnderlay,
};
use crate::state::{idle_at, BrowserUnderlayState};
use crate::workspace::{hex_decode_spec, hex_pair_value, locate_spec, session_key};
use crate::workspace::WindowTabs;
use crate::mcp::{arguments_spec, pane_binding_spec, reply_spec, McpReply};
use crate::protocol::{ambience_flag, pane_binding};
use crate::state::{
    active_at, effective, has_key, hotkey_step, index_of, is_lru_in_window, keys_unique,
    lemma_index_of_unique, lemma_window_count_one, lemma_window_count_push,
    lemma_window_count_remove, lemma_window_count_update, outside_window, upserted,
    window_agent_count, window_has_underlay, AgentUnderlay, AmbienceUnderlay,
    BrowserUnderlayHotkey, Millis, PaneId, WindowId, AGENT_IDLE_TTL_MS,
    MAX_AGENT_UNDERLAYS_PER_WINDOW,
};

verus! {

/// Attaching an agent underlay never pushes a window past
/// [`MAX_AGENT_UNDERLAYS_PER_WINDOW`]: when the window is full and the
/// pane's underlay does not already live there, the least-recently-used
/// agent underlay there is evicted first to make room, and the attach adds
/// at most one.
#[allow(clippy::too_many_arguments)]
pub proof fn law_attach_respects_window_cap(
    before: Seq<AgentUnderlay>,
    window_id: WindowId,
    evict: Option<Seq<char>>,
    after_evict: Seq<AgentUnderlay>,
    pane_key: String,
    pane_id: PaneId,
    url: String,
    visible: bool,
    now: Millis,
)
    requires
        keys_unique(before),
        window_agent_count(before, window_id) <= MAX_AGENT_UNDERLAYS_PER_WINDOW,
        evict is None <==> (window_agent_count(before, window_id) < MAX_AGENT_UNDERLAYS_PER_WINDOW
            || lives_in(before, pane_key@, window_id)),
        evict matches Some(k) ==> exists|i: int|
            is_lru_in_window(before, window_id, i) && k == before[i].pane_key@,
        after_evict == match evict {
            Some(k) => before.remove(index_of(before, k)),
            None => before,
        },
    ensures
        window_agent_count(
            upserted(after_evict, pane_key, pane_id, window_id, url, visible, now),
            window_id,
        ) <= MAX_AGENT_UNDERLAYS_PER_WINDOW,
{
    match evict {
        Some(k) => {
            let i = choose|i: int| is_lru_in_window(before, window_id, i) && k == before[i].pane_key@;
            assert(crate::state::key_at(before, i, k));
            lemma_index_of_unique(before, k, i);
            lemma_window_count_remove(before, i, window_id);
            lemma_window_count_one(before[i], window_id);
        },
        None => {},
    }
    let s = after_evict;
    let new_agent = AgentUnderlay {
        pane_key,
        pane_id,
        window_id,
        url,
        visible,
        glass: true,
        glass_opacity_override: None,
        interactive: false,
        interactive_hold: false,
        last_used: now,
    };
    if has_key(s, pane_key@) {
        let j = index_of(s, pane_key@);
        let x = AgentUnderlay { pane_id, window_id, url, visible, last_used: now, ..s[j] };
        lemma_window_count_update(s, j, x, window_id);
        lemma_window_count_one(x, window_id);
        lemma_window_count_one(s[j], window_id);
    } else {
        lemma_window_count_push(s, new_agent, window_id);
        lemma_window_count_one(new_agent, window_id);
    }
}

/// After forgetting a window, nothing of it remains: no ambience underlay
/// and no agent underlay lives there, and every other window keeps its
/// underlays.
pub proof fn law_forgotten_window_is_empty(
    ambience: Map<WindowId, AmbienceUnderlay>,
    agents: Seq<AgentUnderlay>,
    window_id: WindowId,
    other: WindowId,
)
    requires
        other != window_id,
    ensures
        !window_has_underlay(
            ambience.remove(window_id),
            agents.filter(outside_window(window_id)),
            window_id,
        ),
        window_has_underlay(
            ambience.remove(window_id),
            agents.filter(outside_window(window_id)),
            other,
        ) == window_has_underlay(ambience, agents, other),
{
    broadcast use vstd::seq_lib::group_filter_ensures;

    let f = agents.filter(outside_window(window_id));
    assert forall|j: int| 0 <= j < f.len() implies f[j].window_id != window_id by {
        agents.lemma_filter_pred(outside_window(window_id), j);
    }
    if exists|j: int| 0 <= j < agents.len() && agents[j].window_id == other {
        let j = choose|j: int| 0 <= j < agents.len() && agents[j].window_id == other;
        agents.lemma_filter_contains(outside_window(window_id), j);
        let m = choose|m: int| 0 <= m < f.len() && f[m] == agents[j];
        assert(f[m].window_id == other);
    }
    if exists|j: int| 0 <= j < f.len() && f[j].window_id == other {
        let j = choose|j: int| 0 <= j < f.len() && f[j].window_id == other;
        assert(f.contains(f[j]));
        agents.lemma_filter_contains_rev(outside_window(window_id), f[j]);
        let m = choose|m: int| 0 <= m < agents.len() && agents[m] == f[j];
        assert(agents[m].window_id == other);
    }
}

/// After an idle sweep at `now`, no remaining agent underlay is idle.
pub proof fn law_sweep_leaves_no_idle_agent(agents: Seq<AgentUnderlay>, now: Millis)
    ensures
        forall|j: int|
            0 <= j < agents.filter(active_at(now)).len() ==> !(now >= agents.filter(active_at(now))[j].last_used
                && now - agents.filter(active_at(now))[j].last_used > AGENT_IDLE_TTL_MS),
{
    broadcast use vstd::seq_lib::group_filter_ensures;

    assert forall|j: int| 0 <= j < agents.filter(active_at(now)).len() implies !(now
        >= agents.filter(active_at(now))[j].last_used && now - agents.filter(active_at(now))[j].last_used
        > AGENT_IDLE_TTL_MS) by {
        agents.lemma_filter_pred(active_at(now), j);
    }
}

/// Toggling twice restores both interactive flags.
pub proof fn law_toggle_twice_restores(interactive: bool, hold: bool)
    ensures
        ({
            let (i1, h1) = hotkey_step(interactive, hold, BrowserUnderlayHotkey::Toggle);
            hotkey_step(i1, h1, BrowserUnderlayHotkey::Toggle)
        }) == (interactive, hold),
{
}

/// Holding is momentary: input reaches the page while held, and releasing
/// leaves only the latched mode, which a toggle while held still changes.
pub proof fn law_hold_is_momentary(interactive: bool, hold: bool, toggled_while_held: bool)
    ensures
        ({
            let (i1, h1) = hotkey_step(interactive, hold, BrowserUnderlayHotkey::HoldStart);
            effective(i1, h1)
        }),
        ({
            let (i1, h1) = hotkey_step(interactive, hold, BrowserUnderlayHotkey::HoldStart);
            let (i2, h2) = if toggled_while_held {
                hotkey_step(i1, h1, BrowserUnderlayHotkey::Toggle)
            } else {
                (i1, h1)
            };
            hotkey_step(i2, h2, BrowserUnderlayHotkey::HoldEnd)
        }) == (interactive != toggled_while_held, false),
{
}

/// Forcing input off always returns input to the terminal.
pub proof fn law_force_off_returns_input(interactive: bool, hold: bool)
    ensures
        ({
            let (i1, h1) = hotkey_step(interactive, hold, BrowserUnderlayHotkey::ForceOff);
            !effective(i1, h1)
        }),
{
}

/// An agent's tool call never reaches the user's ambience underlay and never
/// falls back to the active pane: every action dispatched from the MCP
/// endpoint has its ambience route off and is bound to the pane named by
/// the call's `pane` argument or, failing that, the pane header.
pub proof fn law_tool_calls_are_pane_scoped(
    message: Json,
    header: Option<Seq<char>>,
    server_version: Seq<char>,
    reply: McpReply,
)
    requires
        reply_spec(message, header, server_version, reply),
        reply is Dispatch,
    ensures
        reply matches McpReply::Dispatch { params, .. } && ambience_flag(params) != Some(true)
            && (pane_binding(params) matches Some(p) && pane_binding_spec(
            arguments_spec(message),
            header,
        ) == Some(p@)),
{
}

/// Hiding an agent underlay revokes its input: when following its pane
/// hides an agent underlay that was shown, or re-homes it, it is left
/// neither latched nor held interactive.
pub proof fn law_hiding_revokes_input(agent: AgentUnderlay, windows: Seq<WindowTabs>)
    ensures
        ({
            let b = synced_agent(agent, windows);
            (agent.visible && !b.visible) || b.window_id != agent.window_id ==> !effective(
                b.interactive,
                b.interactive_hold,
            )
        }),
{
}

/// Every spelling of one pane session UUID names one agent underlay:
/// attaching under any spelling of a UUID whose pane already has an
/// underlay re-uses that underlay, so an attach never leaves two agent
/// underlays for one pane session.
#[allow(clippy::too_many_arguments)]
pub proof fn law_attach_reuses_the_pane_underlay(
    agents: Seq<AgentUnderlay>,
    attached_as: Seq<char>,
    attach_as: Seq<char>,
    key: String,
    pane_id: PaneId,
    window_id: WindowId,
    url: String,
    visible: bool,
    now: Millis,
)
    requires
        keys_unique(agents),
        hex_decode_spec(vstd::utf8::encode_utf8(attached_as)) is Some,
        hex_decode_spec(vstd::utf8::encode_utf8(attach_as)) == hex_decode_spec(
            vstd::utf8::encode_utf8(attached_as),
        ),
        has_key(agents, session_key(attached_as)),
        key@ == session_key(attach_as),
    ensures
        ({
            let after = upserted(agents, key, pane_id, window_id, url, visible, now);
            &&& after.len() == agents.len()
            &&& keys_unique(after)
            &&& forall|j: int|
                0 <= j < after.len() ==> (#[trigger] after[j]).pane_key@ == agents[j].pane_key@
        }),
{
    let i = index_of(agents, key@);
    assert(crate::state::key_at(agents, i, key@));
}

/// No two agents share a pane.
pub open spec fn pane_ids_unique(agents: Seq<AgentUnderlay>) -> bool {
    forall|i: int, j: int|
        0 <= i < agents.len() && 0 <= j < agents.len() && i != j ==> agents[i].pane_id
            != agents[j].pane_id
}

/// An attach never leaves two agent underlays on one pane. Given that
/// distinct panes have distinct session UUIDs (`uuid_key` maps each pane to
/// the key of its session UUID, one-to-one) and that every agent underlay
/// is kept under its pane's key, evicting one underlay and then attaching
/// the pane keyed `pane_key` leaves every pane with at most one underlay,
/// and every underlay still kept under its pane's key.
#[allow(clippy::too_many_arguments)]
pub proof fn law_attach_never_shares_a_pane(
    before: Seq<AgentUnderlay>,
    uuid_key: spec_fn(PaneId) -> Seq<char>,
    evict: Option<Seq<char>>,
    after_evict: Seq<AgentUnderlay>,
    pane_key: String,
    pane_id: PaneId,
    window_id: WindowId,
    url: String,
    visible: bool,
    now: Millis,
)
    requires
        keys_unique(before),
        forall|p: PaneId, q: PaneId| #[trigger] uuid_key(p) == #[trigger] uuid_key(q) ==> p == q,
        forall|j: int| 0 <= j < before.len() ==> (#[trigger] before[j]).pane_key@ == uuid_key(before[j].pane_id),
        pane_key@ == uuid_key(pane_id),
        after_evict == match evict {
            Some(k) => before.remove(index_of(before, k)),
            None => before,
        },
        evict matches Some(k) ==> has_key(before, k),
    ensures
        ({
            let after = upserted(after_evict, pane_key, pane_id, window_id, url, visible, now);
            &&& pane_ids_unique(after)
            &&& forall|j: int| 0 <= j < after.len() ==> (#[trigger] after[j]).pane_key@ == uuid_key(after[j].pane_id)
        }),
{
    let s = after_evict;
    match evict {
        Some(k) => {
            let i = index_of(before, k);
            assert(crate::state::key_at(before, i, k));
            crate::state::lemma_remove_keeps_unique(before, i);
            assert forall|j: int| 0 <= j < s.len() implies (#[trigger] s[j]).pane_key@ == uuid_key(s[j].pane_id) by {
                if j < i {
                    assert(s[j] == before[j]);
                } else {
                    assert(s[j] == before[j + 1]);
                }
            }
        },
        None => {},
    }
    let after = upserted(s, pane_key, pane_id, window_id, url, visible, now);
    assert forall|j: int| 0 <= j < after.len() implies (#[trigger] after[j]).pane_key@ == uuid_key(after[j].pane_id) by {
        if has_key(s, pane_key@) {
            let x = index_of(s, pane_key@);
            assert(crate::state::key_at(s, x, pane_key@));
        }
    }
    assert forall|a: int, b: int| 0 <= a < after.len() && 0 <= b < after.len() && a != b implies after[a].pane_id
        != after[b].pane_id by {
        assert(after[a].pane_key@ == uuid_key(after[a].pane_id));
        assert(after[b].pane_key@ == uuid_key(after[b].pane_id));
        if has_key(s, pane_key@) {
            let x = index_of(s, pane_key@);
            assert(crate::state::key_at(s, x, pane_key@));
            crate::state::lemma_update_same_key_keeps_unique(
                s,
                x,
                AgentUnderlay { pane_id, window_id, url, visible, last_used: now, ..s[x] },
            );
        } else {
            crate::state::lemma_push_fresh_keeps_unique(
                s,
                AgentUnderlay {
                    pane_key,
                    pane_id,
                    window_id,
                    url,
                    visible,
                    glass: true,
                    glass_opacity_override: None,
                    interactive: false,
                    interactive_hold: false,
                    last_used: now,
                },
            );
        }
        assert(after[a].pane_key@ != after[b].pane_key@);
    }
}

/// Re-homing reloads the agent's own page: whenever an agent's pane now
/// shows in another window, the step planned for it re-homes it from its
/// window into the pane's window, shown with the pane's tab, loading the
/// agent's current URL.
pub proof fn law_rehome_reloads_the_agents_page(
    step: VisibilityStep,
    agent: AgentUnderlay,
    windows: Seq<WindowTabs>,
)
    requires
        step_for(step, agent, windows),
        locate_spec(windows, agent.pane_id) matches Some(loc) && loc.window_id != agent.window_id,
    ensures
        step matches VisibilityStep::Rehome { pane_key, from_window, to_window, visible, url } && url@
            == agent.url@ && pane_key@ == agent.pane_key@ && from_window == agent.window_id
            && to_window == locate_spec(windows, agent.pane_id)->Some_0.window_id && visible
            == locate_spec(windows, agent.pane_id)->Some_0.in_active_tab,
{
}

/// Input goes to what is visible: while an agent underlay is visible in a
/// window, whether input reaches the page is that agent's latched-or-held
/// state, whatever the window's ambience underlay says; the ambience's
/// flags decide only when no agent underlay is visible there, and with no
/// underlay at all input stays with the terminal.
pub proof fn law_input_follows_the_visible_underlay(state: &BrowserUnderlayState, window_id: WindowId)
    ensures
        forall|i: int|
            #![trigger state.agent_seq()[i]]
            is_first_visible(state.agent_seq(), window_id, i) ==> (effective_interactive_spec(
                state,
                window_id,
            ) == (state.agent_seq()[i].interactive || state.agent_seq()[i].interactive_hold)
                && visible_underlay_spec(state, window_id) == Some(
                VisibleUnderlay::Agent {
                    pane_id: state.agent_seq()[i].pane_id,
                    glass: state.agent_seq()[i].glass,
                },
            )),
        (forall|j: int|
            0 <= j < state.agent_seq().len() ==> !(state.agent_seq()[j].window_id == window_id
                && state.agent_seq()[j].visible)) ==> effective_interactive_spec(state, window_id) == (
        state.ambience_map().contains_key(window_id) && (state.ambience_map()[window_id].interactive
            || state.ambience_map()[window_id].interactive_hold)),
{
    assert forall|i: int|
        #![trigger state.agent_seq()[i]]
        is_first_visible(state.agent_seq(), window_id, i) implies (effective_interactive_spec(
            state,
            window_id,
        ) == (state.agent_seq()[i].interactive || state.agent_seq()[i].interactive_hold)
            && visible_underlay_spec(state, window_id) == Some(
            VisibleUnderlay::Agent {
                pane_id: state.agent_seq()[i].pane_id,
                glass: state.agent_seq()[i].glass,
            },
        )) by {
        lemma_visible_index(state.agent_seq(), window_id, i);
    }
    let agents = state.agent_seq();
    if forall|j: int| 0 <= j < agents.len() ==> !(agents[j].window_id == window_id && agents[j].visible) {
        if exists|k: int| is_first_visible(agents, window_id, k) {
            let k = choose|k: int| is_first_visible(agents, window_id, k);
            assert(agents[k].window_id == window_id && agents[k].visible);
        }
    }
}

/// The sweep keeps recent agents and drops stale ones, measured on the
/// 15-minute TTL in milliseconds: an agent used within the last 15 minutes
/// (or in the future of `now`) stays and is not reported as removed; one
/// idle longer is removed and reported.
pub proof fn law_sweep_respects_the_ttl(agents: Seq<AgentUnderlay>, now: Millis, j: int)
    requires
        0 <= j < agents.len(),
    ensures
        now < agents[j].last_used || now - agents[j].last_used <= 15 * 60 * 1000 ==> agents.filter(
            active_at(now),
        ).contains(agents[j]) && !agents.filter(idle_at(now)).contains(agents[j]),
        now >= agents[j].last_used && now - agents[j].last_used > 15 * 60 * 1000 ==> agents.filter(
            idle_at(now),
        ).contains(agents[j]) && !agents.filter(active_at(now)).contains(agents[j]),
{
    broadcast use vstd::seq_lib::group_filter_ensures;

    let a = agents[j];
    let recent = now < a.last_used || now - a.last_used <= 15 * 60 * 1000;
    if recent {
        assert(active_at(now)(a));
        agents.lemma_filter_contains(active_at(now), j);
        if agents.filter(idle_at(now)).contains(a) {
            let k = choose|k: int|
                0 <= k < agents.filter(idle_at(now)).len() && agents.filter(idle_at(now))[k] == a;
            agents.lemma_filter_pred(idle_at(now), k);
        }
    } else {
        assert(idle_at(now)(a));
        agents.lemma_filter_contains(idle_at(now), j);
        if agents.filter(active_at(now)).contains(a) {
            let k = choose|k: int|
                0 <= k < agents.filter(active_at(now)).len() && agents.filter(active_at(now))[k] == a;
            agents.lemma_filter_pred(active_at(now), k);
        }
    }
}

/// The lowercase hex digit of a value below 16, as a byte.
pub open spec fn lower_digit(v: int) -> u8 {
    if v < 10 {
        (48 + v) as u8
    } else {
        (87 + v) as u8
    }
}

/// The uppercase hex digit of a value below 16, as a byte.
pub open spec fn upper_digit(v: int) -> u8 {
    if v < 10 {
        (48 + v) as u8
    } else {
        (55 + v) as u8
    }
}

/// `bytes` written as lowercase hex text, two digits per byte.
pub open spec fn lower_hex_text(bytes: Seq<u8>) -> Seq<u8>
    decreases bytes.len(),
{
    if bytes.len() == 0 {
        Seq::empty()
    } else {
        seq![lower_digit(bytes[0] as int / 16), lower_digit(bytes[0] as int % 16)] + lower_hex_text(bytes.skip(1))
    }
}

/// Every pair of hex digits (0-9, a-f, A-F, in either case) decodes to its
/// base-16 value.
pub proof fn law_hex_pairs_decode_to_their_value(v: u8)
    ensures
        hex_pair_value(lower_digit(v as int / 16), lower_digit(v as int % 16)) == Some(v),
        hex_pair_value(upper_digit(v as int / 16), upper_digit(v as int % 16)) == Some(v),
        hex_pair_value(upper_digit(v as int / 16), lower_digit(v as int % 16)) == Some(v),
        hex_pair_value(lower_digit(v as int / 16), upper_digit(v as int % 16)) == Some(v),
{
    assert(16 * (v / 16) + v % 16 == v);
}

/// Hex decoding round-trips: the lowercase hex text of any bytes decodes to
/// those bytes.
pub proof fn law_hex_decode_round_trips(bytes: Seq<u8>)
    ensures
        hex_decode_spec(lower_hex_text(bytes)) == Some(bytes),
    decreases bytes.len(),
{
    if bytes.len() > 0 {
        let t = lower_hex_text(bytes);
        law_hex_pairs_decode_to_their_value(bytes[0]);
        law_hex_decode_round_trips(bytes.skip(1));
        assert(t.skip(2) =~= lower_hex_text(bytes.skip(1)));
        assert(seq![bytes[0]] + bytes.skip(1) =~= bytes);
    }
}

/// A toggle flips only the latch and leaves a hold as it is: toggling a
/// latched, unheld underlay returns input to the terminal, and toggling
/// an unlatched, unheld one gives input to the page.
pub proof fn law_toggle_flips_only_the_latch(interactive: bool, hold: bool)
    ensures
        hotkey_step(interactive, hold, BrowserUnderlayHotkey::Toggle).0 == !interactive,
        hotkey_step(interactive, hold, BrowserUnderlayHotkey::Toggle).1 == hold,
        ({
            let (i, h) = hotkey_step(true, false, BrowserUnderlayHotkey::Toggle);
            !(i || h)
        }),
        ({
            let (i, h) = hotkey_step(false, false, BrowserUnderlayHotkey::Toggle);
            i || h
        }),
{
}

} // verus!
