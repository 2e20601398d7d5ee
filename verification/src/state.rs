//! The state model of all browser underlays.
//!
//! Two kinds of underlay exist, with strictly separated ownership:
//!
//! - **Ambience** (user-owned): at most one per window, driven only by the
//!   ambience-URL setting and the human control surface.
//! - **Agent** (agent-owned): keyed by the owning pane's terminal session
//!   UUID (hex), visible only while the owning pane's tab is frontmost.
//!
//! The native webviews live in the platform layer; this model mirrors their
//! state so rendering can react without platform calls. Every mutation
//! reports the windows whose underlay state changed through [`ModelChanges`].
use std::collections::HashMap;
use vstd::prelude::*;
use vstd::std_specs::hash::*;
use vstd::std_specs::iter::IteratorSpec;

use crate::settings::BrowserGlassOpacity;

verus! {

broadcast use {
    axiom_u64_obeys_hash_table_key_model,
    axiom_random_state_builds_valid_hashers,
    axiom_contains_deref_key,
    axiom_maps_deref_key_to_value,
    axiom_deref_key_removed,
    axiom_hashmap_view_finite_dom,
};

/// Identifies a window.
pub type WindowId = u64;

/// Identifies a pane.
pub type PaneId = u64;

/// Timestamps are milliseconds on a monotonic clock chosen by the caller.
pub type Millis = u64;

/// Agent underlays idle longer than this (in milliseconds) are torn down.
pub const AGENT_IDLE_TTL_MS: u64 = 900_000;

/// At most this many agent underlays per window; the least-recently-used one
/// is evicted to make room.
pub const MAX_AGENT_UNDERLAYS_PER_WINDOW: usize = 3;

/// Mints pane ids: each call of [`test_pane_id`] yields a fresh one.
pub struct PaneIds {
    next: PaneId,
}

impl PaneIds {
    pub closed spec fn spec_next(&self) -> PaneId {
        self.next
    }

    /// Ids start at 1.
    pub fn new() -> (r: Self)
        ensures
            r.spec_next() == 1,
    {
        PaneIds { next: 1 }
    }
}

/// A fresh pane id, distinct from every id minted before by `ids`.
pub fn test_pane_id(ids: &mut PaneIds) -> (id: PaneId)
    requires
        old(ids).spec_next() < u64::MAX,
    ensures
        id == old(ids).spec_next(),
        final(ids).spec_next() == id + 1,
{
    let id = ids.next;
    ids.next = id + 1;
    id
}

/// Who owns an underlay.
#[derive(Debug)]
pub enum BrowserUnderlayOwner {
    /// The user's ambience underlay of a window.
    Ambience,
    /// The agent underlay of the pane with this terminal session UUID (hex).
    Agent(String),
}

/// An interactive-mode gesture reported by the platform's event monitor.
#[derive(PartialEq, Eq, Structural, Clone, Copy, Debug)]
pub enum BrowserUnderlayHotkey {
    /// Tap: toggle latched interactive mode.
    Toggle,
    /// Hold began: interactive while held.
    HoldStart,
    /// Hold released.
    HoldEnd,
    /// Always return input to the terminal.
    ForceOff,
}

/// What observers of the state model are told.
#[derive(PartialEq, Eq, Structural, Clone, Copy, Debug)]
pub enum BrowserUnderlayEvent {
    /// Underlay state for this window was attached, detached, or reconfigured.
    Changed(WindowId),
}

/// The events emitted, and whether observers were notified, by mutations
/// of the state model.
pub struct ModelChanges {
    events: Vec<BrowserUnderlayEvent>,
    notified: bool,
}

impl ModelChanges {
    pub closed spec fn spec_events(&self) -> Seq<BrowserUnderlayEvent> {
        self.events@
    }

    pub closed spec fn spec_notified(&self) -> bool {
        self.notified
    }

    /// Nothing emitted yet.
    pub fn new() -> (c: Self)
        ensures
            c.spec_events() == Seq::<BrowserUnderlayEvent>::empty(),
            !c.spec_notified(),
    {
        ModelChanges { events: Vec::new(), notified: false }
    }

    /// Records an event.
    pub fn emit(&mut self, event: BrowserUnderlayEvent)
        ensures
            final(self).spec_events() == old(self).spec_events().push(event),
            final(self).spec_notified() == old(self).spec_notified(),
    {
        self.events.push(event);
    }

    /// Records that observers must repaint.
    pub fn notify(&mut self)
        ensures
            final(self).spec_events() == old(self).spec_events(),
            final(self).spec_notified(),
    {
        self.notified = true;
    }

    /// The events emitted so far, oldest first.
    pub fn events(&self) -> (r: &Vec<BrowserUnderlayEvent>)
        ensures
            r@ == self.spec_events(),
    {
        &self.events
    }

    /// Whether observers were notified.
    pub fn notified(&self) -> (r: bool)
        ensures
            r == self.spec_notified(),
    {
        self.notified
    }
}

/// The user-owned ambience underlay of one window.
pub struct AmbienceUnderlay {
    pub url: String,
    pub interactive: bool,
    pub interactive_hold: bool,
}

impl Default for AmbienceUnderlay {
    fn default() -> (r: Self)
        ensures
            r.url@ == Seq::<char>::empty(),
            !r.interactive,
            !r.interactive_hold,
    {
        AmbienceUnderlay { url: String::new(), interactive: false, interactive_hold: false }
    }
}

/// An agent-owned underlay, keyed by its pane's terminal session UUID.
pub struct AgentUnderlay {
    pub pane_key: String,
    pub pane_id: PaneId,
    pub window_id: WindowId,
    pub url: String,
    /// Whether the underlay is currently unhidden (its pane's tab frontmost).
    pub visible: bool,
    /// Whether the agent's pane renders as a glass porthole (vs whole-tab
    /// glass over the agent's page).
    pub glass: bool,
    pub glass_opacity_override: Option<u8>,
    pub interactive: bool,
    pub interactive_hold: bool,
    /// Last control-plane operation touching this underlay (idle TTL).
    pub last_used: Millis,
}

/// The agent at index `i` has key `key`.
pub open spec fn key_at(agents: Seq<AgentUnderlay>, i: int, key: Seq<char>) -> bool {
    0 <= i < agents.len() && agents[i].pane_key@ == key
}

/// Some agent has key `key`.
pub open spec fn has_key(agents: Seq<AgentUnderlay>, key: Seq<char>) -> bool {
    exists|i: int| key_at(agents, i, key)
}

/// The index of the agent keyed `key`, or -1.
pub open spec fn index_of(agents: Seq<AgentUnderlay>, key: Seq<char>) -> int {
    if has_key(agents, key) {
        choose|i: int| key_at(agents, i, key)
    } else {
        -1
    }
}

/// No two agents share a key.
pub open spec fn keys_unique(agents: Seq<AgentUnderlay>) -> bool {
    forall|i: int, j: int|
        0 <= i < agents.len() && 0 <= j < agents.len() && i != j ==> agents[i].pane_key@
            != agents[j].pane_key@
}

/// The effective interactive state of an underlay: latched or held.
pub open spec fn effective(interactive: bool, hold: bool) -> bool {
    interactive || hold
}

/// The latched and held flags after a hotkey gesture.
pub open spec fn hotkey_step(interactive: bool, hold: bool, event: BrowserUnderlayHotkey) -> (
    bool,
    bool,
) {
    match event {
        BrowserUnderlayHotkey::Toggle => (!interactive, hold),
        BrowserUnderlayHotkey::HoldStart => (interactive, true),
        BrowserUnderlayHotkey::HoldEnd => (interactive, false),
        BrowserUnderlayHotkey::ForceOff => (false, false),
    }
}

/// In a sequence of agents with unique keys, the agent with a given key is
/// found at exactly one index.
pub proof fn lemma_index_of_unique(agents: Seq<AgentUnderlay>, key: Seq<char>, i: int)
    requires
        keys_unique(agents),
        key_at(agents, i, key),
    ensures
        index_of(agents, key) == i,
{
    let j = choose|j: int| key_at(agents, j, key);
    assert(key_at(agents, j, key));
}


/// Removing an agent keeps keys unique.
pub proof fn lemma_remove_keeps_unique(agents: Seq<AgentUnderlay>, i: int)
    requires
        keys_unique(agents),
        0 <= i < agents.len(),
    ensures
        keys_unique(agents.remove(i)),
        forall|k: Seq<char>| has_key(agents.remove(i), k) ==> has_key(agents, k),
{
    let r = agents.remove(i);
    assert forall|a: int, b: int| 0 <= a < r.len() && 0 <= b < r.len() && a != b implies r[a].pane_key@
        != r[b].pane_key@ by {
        let ia = if a < i { a } else { a + 1 };
        let ib = if b < i { b } else { b + 1 };
        assert(r[a] == agents[ia]);
        assert(r[b] == agents[ib]);
    }
    assert forall|k: Seq<char>| has_key(r, k) implies has_key(agents, k) by {
        let a = choose|a: int| key_at(r, a, k);
        let ia = if a < i { a } else { a + 1 };
        assert(key_at(agents, ia, k));
    }
}

/// Appending an agent whose key is not yet present keeps keys unique.
pub proof fn lemma_push_fresh_keeps_unique(agents: Seq<AgentUnderlay>, a: AgentUnderlay)
    requires
        keys_unique(agents),
        !has_key(agents, a.pane_key@),
    ensures
        keys_unique(agents.push(a)),
{
    let r = agents.push(a);
    assert forall|x: int, y: int| 0 <= x < r.len() && 0 <= y < r.len() && x != y implies r[x].pane_key@
        != r[y].pane_key@ by {
        if x == agents.len() {
            assert(!key_at(agents, y, a.pane_key@));
        } else if y == agents.len() {
            assert(!key_at(agents, x, a.pane_key@));
        }
    }
}

/// Replacing an agent by one with the same key keeps keys unique.
pub proof fn lemma_update_same_key_keeps_unique(agents: Seq<AgentUnderlay>, i: int, a: AgentUnderlay)
    requires
        keys_unique(agents),
        0 <= i < agents.len(),
        a.pane_key@ == agents[i].pane_key@,
    ensures
        keys_unique(agents.update(i, a)),
{
}

/// Removing one agent leaves every other agent, looked up by key, as it was.
pub proof fn lemma_other_key_after_remove(agents: Seq<AgentUnderlay>, i: int, key: Seq<char>)
    requires
        keys_unique(agents),
        0 <= i < agents.len(),
        agents[i].pane_key@ != key,
    ensures
        has_key(agents.remove(i), key) == has_key(agents, key),
        has_key(agents, key) ==> agents.remove(i)[index_of(agents.remove(i), key)] == agents[index_of(
            agents,
            key,
        )],
{
    let r = agents.remove(i);
    lemma_remove_keeps_unique(agents, i);
    if has_key(agents, key) {
        let j = index_of(agents, key);
        assert(key_at(agents, j, key));
        let jr = if j < i { j } else { j - 1 };
        assert(r[jr] == agents[j]);
        assert(key_at(r, jr, key));
        lemma_index_of_unique(r, key, jr);
    }
}

/// After removing the agent at `i`, its key is gone.
pub proof fn lemma_removed_key_gone(agents: Seq<AgentUnderlay>, i: int)
    requires
        keys_unique(agents),
        0 <= i < agents.len(),
    ensures
        !has_key(agents.remove(i), agents[i].pane_key@),
{
    let r = agents.remove(i);
    if has_key(r, agents[i].pane_key@) {
        let a = choose|a: int| key_at(r, a, agents[i].pane_key@);
        let ia = if a < i { a } else { a + 1 };
        assert(agents[ia].pane_key@ == agents[i].pane_key@);
    }
}

/// Replacing one agent by one with the same key leaves every other agent,
/// looked up by key, as it was, and puts the new one at the same index.
pub proof fn lemma_key_after_update(agents: Seq<AgentUnderlay>, i: int, x: AgentUnderlay, key: Seq<char>)
    requires
        keys_unique(agents),
        0 <= i < agents.len(),
        x.pane_key@ == agents[i].pane_key@,
    ensures
        has_key(agents.update(i, x), key) == has_key(agents, key),
        has_key(agents, key) && key != x.pane_key@ ==> agents.update(i, x)[index_of(
            agents.update(i, x),
            key,
        )] == agents[index_of(agents, key)],
        index_of(agents.update(i, x), x.pane_key@) == i,
{
    let u = agents.update(i, x);
    lemma_update_same_key_keeps_unique(agents, i, x);
    assert(key_at(u, i, x.pane_key@));
    lemma_index_of_unique(u, x.pane_key@, i);
    if has_key(agents, key) {
        let j = index_of(agents, key);
        assert(key_at(u, j, key));
        lemma_index_of_unique(u, key, j);
    }
    if has_key(u, key) {
        let j = choose|j: int| key_at(u, j, key);
        assert(key_at(agents, j, key));
    }
}

/// Filtering agents keeps keys unique, and keeps only keys already present.
pub proof fn lemma_filter_keeps_unique(agents: Seq<AgentUnderlay>, p: spec_fn(AgentUnderlay) -> bool)
    requires
        keys_unique(agents),
    ensures
        keys_unique(agents.filter(p)),
        forall|k: Seq<char>| has_key(agents.filter(p), k) ==> has_key(agents, k),
    decreases agents.len(),
{
    reveal(Seq::filter);
    if agents.len() > 0 {
        let d = agents.drop_last();
        assert(keys_unique(d)) by {
            assert forall|a: int, b: int| 0 <= a < d.len() && 0 <= b < d.len() && a != b implies d[a].pane_key@
                != d[b].pane_key@ by {
                assert(d[a] == agents[a]);
                assert(d[b] == agents[b]);
            }
        }
        lemma_filter_keeps_unique(d, p);
        let fd = d.filter(p);
        assert forall|k: Seq<char>| has_key(d, k) implies has_key(agents, k) by {
            let a = choose|a: int| key_at(d, a, k);
            assert(key_at(agents, a, k));
        }
        if p(agents.last()) {
            let last = agents.last();
            assert(!has_key(d, last.pane_key@)) by {
                if has_key(d, last.pane_key@) {
                    let a = choose|a: int| key_at(d, a, last.pane_key@);
                    assert(agents[a].pane_key@ == agents[agents.len() - 1].pane_key@);
                }
            }
            let f = fd.push(last);
            assert(agents.filter(p) == f);
            assert forall|a: int, b: int| 0 <= a < f.len() && 0 <= b < f.len() && a != b implies f[a].pane_key@
                != f[b].pane_key@ by {
                if a == f.len() - 1 {
                    assert(!key_at(fd, b, last.pane_key@));
                } else if b == f.len() - 1 {
                    assert(!key_at(fd, a, last.pane_key@));
                }
            }
            assert forall|k: Seq<char>| has_key(f, k) implies has_key(agents, k) by {
                let a = choose|a: int| key_at(f, a, k);
                if a == f.len() - 1 {
                    assert(key_at(agents, agents.len() - 1, k));
                } else {
                    assert(key_at(fd, a, k));
                }
            }
        }
    }
}


/// The agents after [`BrowserUnderlayState::upsert_agent`].
pub open spec fn upserted(
    agents: Seq<AgentUnderlay>,
    pane_key: String,
    pane_id: PaneId,
    window_id: WindowId,
    url: String,
    visible: bool,
    now: Millis,
) -> Seq<AgentUnderlay> {
    if has_key(agents, pane_key@) {
        let i = index_of(agents, pane_key@);
        agents.update(
            i,
            AgentUnderlay { pane_id, window_id, url, visible, last_used: now, ..agents[i] },
        )
    } else {
        agents.push(
            AgentUnderlay {
                pane_key,
                pane_id,
                window_id,
                url,
                visible,
                glass: true,
                glass_opacity_override: None,
                interactive: false,
                interactive_hold: false,
                last_used: now,
            },
        )
    }
}

/// An opacity clamped to the glass-opacity maximum.
pub open spec fn clamp_opacity(o: u8) -> u8 {
    if o > BrowserGlassOpacity::MAX {
        BrowserGlassOpacity::MAX
    } else {
        o
    }
}

/// Agents living outside `window_id`.
pub open spec fn outside_window(window_id: WindowId) -> spec_fn(AgentUnderlay) -> bool {
    |a: AgentUnderlay| a.window_id != window_id
}

/// Whether `window_id` has an ambience underlay or any agent underlay.
pub open spec fn window_has_underlay(
    ambience: Map<WindowId, AmbienceUnderlay>,
    agents: Seq<AgentUnderlay>,
    window_id: WindowId,
) -> bool {
    ambience.contains_key(window_id) || exists|j: int|
        0 <= j < agents.len() && agents[j].window_id == window_id
}

/// The latched and held flags after a hotkey gesture.
fn step_flags(interactive: bool, hold: bool, event: BrowserUnderlayHotkey) -> (r: (bool, bool))
    ensures
        r == hotkey_step(interactive, hold, event),
{
    match event {
        BrowserUnderlayHotkey::Toggle => (!interactive, hold),
        BrowserUnderlayHotkey::HoldStart => (interactive, true),
        BrowserUnderlayHotkey::HoldEnd => (interactive, false),
        BrowserUnderlayHotkey::ForceOff => (false, false),
    }
}

/// How many agent underlays live in `window_id`.
pub open spec fn window_agent_count(agents: Seq<AgentUnderlay>, window_id: WindowId) -> nat
    decreases agents.len(),
{
    if agents.len() == 0 {
        0
    } else {
        window_agent_count(agents.drop_last(), window_id) + if agents.last().window_id
            == window_id {
            1nat
        } else {
            0nat
        }
    }
}

/// Counting agents in a window adds up over concatenation.
pub proof fn lemma_window_count_add(a: Seq<AgentUnderlay>, b: Seq<AgentUnderlay>, window_id: WindowId)
    ensures
        window_agent_count(a + b, window_id) == window_agent_count(a, window_id)
            + window_agent_count(b, window_id),
    decreases b.len(),
{
    if b.len() == 0 {
        assert(a + b =~= a);
    } else {
        lemma_window_count_add(a, b.drop_last(), window_id);
        assert((a + b).drop_last() =~= a + b.drop_last());
    }
}

/// The count of a single agent.
pub proof fn lemma_window_count_one(x: AgentUnderlay, window_id: WindowId)
    ensures
        window_agent_count(seq![x], window_id) == if x.window_id == window_id {
            1nat
        } else {
            0nat
        },
{
    assert(seq![x].drop_last() =~= Seq::<AgentUnderlay>::empty());
    assert(window_agent_count(Seq::<AgentUnderlay>::empty(), window_id) == 0);
    assert(seq![x].last() == x);
}

/// A sequence is its prefix, the agent at `i`, and its suffix.
pub proof fn lemma_window_count_split(s: Seq<AgentUnderlay>, i: int, window_id: WindowId)
    requires
        0 <= i < s.len(),
    ensures
        window_agent_count(s, window_id) == window_agent_count(s.take(i), window_id)
            + window_agent_count(seq![s[i]], window_id) + window_agent_count(
            s.skip(i + 1),
            window_id,
        ),
{
    assert(s =~= s.take(i) + seq![s[i]] + s.skip(i + 1));
    lemma_window_count_add(s.take(i) + seq![s[i]], s.skip(i + 1), window_id);
    lemma_window_count_add(s.take(i), seq![s[i]], window_id);
}

/// Removing the agent at `i` removes it from its window's count.
pub proof fn lemma_window_count_remove(s: Seq<AgentUnderlay>, i: int, window_id: WindowId)
    requires
        0 <= i < s.len(),
    ensures
        window_agent_count(s.remove(i), window_id) + window_agent_count(seq![s[i]], window_id)
            == window_agent_count(s, window_id),
{
    lemma_window_count_split(s, i, window_id);
    assert(s.remove(i) =~= s.take(i) + s.skip(i + 1));
    lemma_window_count_add(s.take(i), s.skip(i + 1), window_id);
}

/// Replacing the agent at `i` moves one unit of count between windows.
pub proof fn lemma_window_count_update(s: Seq<AgentUnderlay>, i: int, x: AgentUnderlay, window_id: WindowId)
    requires
        0 <= i < s.len(),
    ensures
        window_agent_count(s.update(i, x), window_id) + window_agent_count(seq![s[i]], window_id)
            == window_agent_count(s, window_id) + window_agent_count(seq![x], window_id),
{
    lemma_window_count_split(s, i, window_id);
    let u = s.update(i, x);
    lemma_window_count_split(u, i, window_id);
    assert(u.take(i) =~= s.take(i));
    assert(u.skip(i + 1) =~= s.skip(i + 1));
}

/// Appending an agent adds it to its window's count.
pub proof fn lemma_window_count_push(s: Seq<AgentUnderlay>, x: AgentUnderlay, window_id: WindowId)
    ensures
        window_agent_count(s.push(x), window_id) == window_agent_count(s, window_id)
            + window_agent_count(seq![x], window_id),
{
    assert(s.push(x).drop_last() =~= s);
    lemma_window_count_one(x, window_id);
}

/// The agent at `i` lives in `window_id` and was used least recently there;
/// among equals it is the first.
pub open spec fn is_lru_in_window(agents: Seq<AgentUnderlay>, window_id: WindowId, i: int) -> bool {
    &&& 0 <= i < agents.len()
    &&& agents[i].window_id == window_id
    &&& forall|j: int|
        0 <= j < agents.len() && agents[j].window_id == window_id ==> agents[i].last_used
            <= agents[j].last_used
    &&& forall|j: int|
        0 <= j < i && agents[j].window_id == window_id ==> agents[i].last_used < agents[j].last_used
}

/// The agent was last used more than [`AGENT_IDLE_TTL_MS`] before `now`.
pub open spec fn idle_at(now: Millis) -> spec_fn(AgentUnderlay) -> bool {
    |a: AgentUnderlay| now >= a.last_used && now - a.last_used > AGENT_IDLE_TTL_MS
}

/// The agent is not idle at `now`.
pub open spec fn active_at(now: Millis) -> spec_fn(AgentUnderlay) -> bool {
    |a: AgentUnderlay| !(now >= a.last_used && now - a.last_used > AGENT_IDLE_TTL_MS)
}

/// One change event per agent, for its window, in order.
pub open spec fn changed_events(agents: Seq<AgentUnderlay>) -> Seq<BrowserUnderlayEvent> {
    agents.map_values(|a: AgentUnderlay| BrowserUnderlayEvent::Changed(a.window_id))
}

/// No agent in the window means a count of zero.
pub proof fn lemma_no_window_agents_count(agents: Seq<AgentUnderlay>, window_id: WindowId)
    requires
        forall|j: int| 0 <= j < agents.len() ==> agents[j].window_id != window_id,
    ensures
        window_agent_count(agents, window_id) == 0,
    decreases agents.len(),
{
    if agents.len() > 0 {
        let d = agents.drop_last();
        assert forall|j: int| 0 <= j < d.len() implies d[j].window_id != window_id by {
            assert(d[j] == agents[j]);
        }
        lemma_no_window_agents_count(d, window_id);
    }
}

fn contains_window(windows: &Vec<WindowId>, w: WindowId) -> (r: bool)
    ensures
        r == windows@.contains(w),
{
    let mut i: usize = 0;
    while i < windows.len()
        invariant
            i <= windows@.len(),
            forall|j: int| 0 <= j < i ==> windows@[j] != w,
        decreases windows@.len() - i,
    {
        if windows[i] == w {
            return true;
        }
        i = i + 1;
    }
    false
}

/// Singleton model tracking all browser underlays.
pub struct BrowserUnderlayState {
    ambience: HashMap<WindowId, AmbienceUnderlay>,
    agents: Vec<AgentUnderlay>,
}

impl BrowserUnderlayState {
    /// The ambience underlay of each window that has one.
    pub closed spec fn ambience_map(&self) -> Map<WindowId, AmbienceUnderlay> {
        self.ambience@
    }

    /// The agent underlays, oldest attachment first.
    pub closed spec fn agent_seq(&self) -> Seq<AgentUnderlay> {
        self.agents@
    }

    /// Well-formedness: agent keys are unique.
    pub open spec fn wf(&self) -> bool {
        keys_unique(self.agent_seq())
    }

    /// The agent keyed `key`, if any.
    pub open spec fn agent_spec(&self, key: Seq<char>) -> Option<AgentUnderlay> {
        if has_key(self.agent_seq(), key) {
            Some(self.agent_seq()[index_of(self.agent_seq(), key)])
        } else {
            None
        }
    }

    /// An empty model.
    pub fn new() -> (s: Self)
        ensures
            s.wf(),
            s.ambience_map() == Map::<WindowId, AmbienceUnderlay>::empty(),
            s.agent_seq() == Seq::<AgentUnderlay>::empty(),
    {
        BrowserUnderlayState { ambience: HashMap::new(), agents: Vec::new() }
    }

    /// The index of the agent keyed `pane_key`.
    fn find_agent(&self, pane_key: &str) -> (r: Option<usize>)
        requires
            self.wf(),
        ensures
            match r {
                Some(i) => i < self.agent_seq().len() && i == index_of(
                    self.agent_seq(),
                    pane_key@,
                ) && key_at(self.agent_seq(), i as int, pane_key@),
                None => !has_key(self.agent_seq(), pane_key@),
            },
    {
        let key = pane_key.to_owned();
        let mut i: usize = 0;
        while i < self.agents.len()
            invariant
                i <= self.agents@.len(),
                self.wf(),
                key@ == pane_key@,
                forall|j: int| 0 <= j < i ==> self.agents@[j].pane_key@ != pane_key@,
            decreases self.agents@.len() - i,
        {
            if self.agents[i].pane_key == key {
                proof {
                    lemma_index_of_unique(self.agents@, pane_key@, i as int);
                }
                return Some(i);
            }
            i = i + 1;
        }
        None
    }

    /// The ambience underlay of `window_id`, if attached.
    pub fn ambience(&self, window_id: WindowId) -> (r: Option<&AmbienceUnderlay>)
        ensures
            match r {
                Some(a) => self.ambience_map().contains_key(window_id) && *a
                    == self.ambience_map()[window_id],
                None => !self.ambience_map().contains_key(window_id),
            },
    {
        self.ambience.get(&window_id)
    }

    /// Whether `window_id` has an ambience underlay.
    pub fn ambience_attached(&self, window_id: WindowId) -> (r: bool)
        ensures
            r == self.ambience_map().contains_key(window_id),
    {
        self.ambience.contains_key(&window_id)
    }

    /// The agent underlay keyed `pane_key`, if attached.
    pub fn agent(&self, pane_key: &str) -> (r: Option<&AgentUnderlay>)
        requires
            self.wf(),
        ensures
            match r {
                Some(a) => self.agent_spec(pane_key@) == Some(*a),
                None => self.agent_spec(pane_key@) is None,
            },
    {
        match self.find_agent(pane_key) {
            Some(i) => Some(&self.agents[i]),
            None => None,
        }
    }

    /// Records that `window_id`'s ambience underlay now shows `url`, keeping
    /// its interactive flags when it was already attached.
    pub fn set_ambience_attached(&mut self, window_id: WindowId, url: String, ctx: &mut ModelChanges)
        requires
            old(self).wf(),
        ensures
            final(self).wf(),
            final(self).agent_seq() == old(self).agent_seq(),
            final(self).ambience_map() == old(self).ambience_map().insert(
                window_id,
                AmbienceUnderlay {
                    url,
                    interactive: old(self).ambience_map().contains_key(window_id)
                        && old(self).ambience_map()[window_id].interactive,
                    interactive_hold: old(self).ambience_map().contains_key(window_id)
                        && old(self).ambience_map()[window_id].interactive_hold,
                },
            ),
            final(ctx).spec_events() == old(ctx).spec_events().push(
                BrowserUnderlayEvent::Changed(window_id),
            ),
            final(ctx).spec_notified(),
    {
        let entry = match self.ambience.remove(&window_id) {
            Some(previous) => AmbienceUnderlay {
                url,
                interactive: previous.interactive,
                interactive_hold: previous.interactive_hold,
            },
            None => AmbienceUnderlay { url, interactive: false, interactive_hold: false },
        };
        self.ambience.insert(window_id, entry);
        ctx.emit(BrowserUnderlayEvent::Changed(window_id));
        ctx.notify();
    }

    /// Forgets `window_id`'s ambience underlay; reports a change only when
    /// one was attached.
    pub fn set_ambience_detached(&mut self, window_id: WindowId, ctx: &mut ModelChanges)
        requires
            old(self).wf(),
        ensures
            final(self).wf(),
            final(self).agent_seq() == old(self).agent_seq(),
            final(self).ambience_map() == old(self).ambience_map().remove(window_id),
            old(self).ambience_map().contains_key(window_id) ==> {
                &&& final(ctx).spec_events() == old(ctx).spec_events().push(
                    BrowserUnderlayEvent::Changed(window_id),
                )
                &&& final(ctx).spec_notified()
            },
            !old(self).ambience_map().contains_key(window_id) ==> *final(ctx) == *old(ctx),
    {
        if self.ambience.remove(&window_id).is_some() {
            ctx.emit(BrowserUnderlayEvent::Changed(window_id));
            ctx.notify();
        }
    }

    /// Attaches or refreshes the agent underlay keyed `pane_key`. A new one
    /// starts as a glass porthole with no opacity override and inert input;
    /// an existing one keeps those and its place in the attachment order.
    #[allow(clippy::too_many_arguments)]
    pub fn upsert_agent(
        &mut self,
        pane_key: String,
        pane_id: PaneId,
        window_id: WindowId,
        url: String,
        visible: bool,
        now: Millis,
        ctx: &mut ModelChanges,
    )
        requires
            old(self).wf(),
        ensures
            final(self).wf(),
            final(self).ambience_map() == old(self).ambience_map(),
            final(self).agent_seq() == upserted(old(self).agent_seq(), pane_key, pane_id, window_id, url, visible, now),
            final(ctx).spec_events() == old(ctx).spec_events().push(
                BrowserUnderlayEvent::Changed(window_id),
            ),
            final(ctx).spec_notified(),
    {
        match self.find_agent(pane_key.as_str()) {
            Some(i) => {
                self.agents[i].pane_id = pane_id;
                self.agents[i].window_id = window_id;
                self.agents[i].url = url;
                self.agents[i].visible = visible;
                self.agents[i].last_used = now;
            },
            None => {
                proof {
                    lemma_push_fresh_keeps_unique(
                        self.agents@,
                        AgentUnderlay {
                            pane_key,
                            pane_id,
                            window_id,
                            url,
                            visible,
                            glass: true,
                            glass_opacity_override: None,
                            interactive: false,
                            interactive_hold: false,
                            last_used: now,
                        },
                    );
                }
                self.agents.push(
                    AgentUnderlay {
                        pane_key,
                        pane_id,
                        window_id,
                        url,
                        visible,
                        glass: true,
                        glass_opacity_override: None,
                        interactive: false,
                        interactive_hold: false,
                        last_used: now,
                    },
                );
            },
        }
        ctx.emit(BrowserUnderlayEvent::Changed(window_id));
        ctx.notify();
    }

    /// Forgets the agent underlay keyed `pane_key`, reporting its window.
    pub fn remove_agent(&mut self, pane_key: &str, ctx: &mut ModelChanges)
        requires
            old(self).wf(),
        ensures
            final(self).wf(),
            final(self).ambience_map() == old(self).ambience_map(),
            has_key(old(self).agent_seq(), pane_key@) ==> {
                let i = index_of(old(self).agent_seq(), pane_key@);
                &&& final(self).agent_seq() == old(self).agent_seq().remove(i)
                &&& final(ctx).spec_events() == old(ctx).spec_events().push(
                    BrowserUnderlayEvent::Changed(old(self).agent_seq()[i].window_id),
                )
                &&& final(ctx).spec_notified()
            },
            !has_key(old(self).agent_seq(), pane_key@) ==> {
                &&& final(self).agent_seq() == old(self).agent_seq()
                &&& *final(ctx) == *old(ctx)
            },
    {
        if let Some(i) = self.find_agent(pane_key) {
            proof {
                lemma_remove_keeps_unique(self.agents@, i as int);
            }
            let agent = self.agents.remove(i);
            ctx.emit(BrowserUnderlayEvent::Changed(agent.window_id));
            ctx.notify();
        }
    }

    /// Records that the agent's pane moved to `window_id`. The webview was
    /// recreated there, so interactive state resets. Reports both windows.
    pub fn agent_moved(
        &mut self,
        pane_key: &str,
        window_id: WindowId,
        visible: bool,
        ctx: &mut ModelChanges,
    )
        requires
            old(self).wf(),
        ensures
            final(self).wf(),
            final(self).ambience_map() == old(self).ambience_map(),
            has_key(old(self).agent_seq(), pane_key@) ==> {
                let i = index_of(old(self).agent_seq(), pane_key@);
                let a = old(self).agent_seq()[i];
                &&& final(self).agent_seq() == old(self).agent_seq().update(
                    i,
                    AgentUnderlay {
                        window_id,
                        visible,
                        interactive: false,
                        interactive_hold: false,
                        ..a
                    },
                )
                &&& final(ctx).spec_events() == old(ctx).spec_events().push(
                    BrowserUnderlayEvent::Changed(a.window_id),
                ).push(BrowserUnderlayEvent::Changed(window_id))
                &&& final(ctx).spec_notified()
            },
            !has_key(old(self).agent_seq(), pane_key@) ==> {
                &&& final(self).agent_seq() == old(self).agent_seq()
                &&& *final(ctx) == *old(ctx)
            },
    {
        if let Some(i) = self.find_agent(pane_key) {
            let old_window = self.agents[i].window_id;
            self.agents[i].window_id = window_id;
            self.agents[i].visible = visible;
            self.agents[i].interactive = false;
            self.agents[i].interactive_hold = false;
            ctx.emit(BrowserUnderlayEvent::Changed(old_window));
            ctx.emit(BrowserUnderlayEvent::Changed(window_id));
            ctx.notify();
        }
    }

    /// Shows or hides the agent underlay. Hidden underlays never own input:
    /// hiding clears both interactive flags.
    pub fn set_agent_visible(&mut self, pane_key: &str, visible: bool, ctx: &mut ModelChanges)
        requires
            old(self).wf(),
        ensures
            final(self).wf(),
            final(self).ambience_map() == old(self).ambience_map(),
            has_key(old(self).agent_seq(), pane_key@) ==> {
                let i = index_of(old(self).agent_seq(), pane_key@);
                let a = old(self).agent_seq()[i];
                &&& final(self).agent_seq() == old(self).agent_seq().update(
                    i,
                    AgentUnderlay {
                        visible,
                        interactive: visible && a.interactive,
                        interactive_hold: visible && a.interactive_hold,
                        ..a
                    },
                )
                &&& final(ctx).spec_events() == old(ctx).spec_events().push(
                    BrowserUnderlayEvent::Changed(a.window_id),
                )
                &&& final(ctx).spec_notified()
            },
            !has_key(old(self).agent_seq(), pane_key@) ==> {
                &&& final(self).agent_seq() == old(self).agent_seq()
                &&& *final(ctx) == *old(ctx)
            },
    {
        if let Some(i) = self.find_agent(pane_key) {
            self.agents[i].visible = visible;
            if !visible {
                self.agents[i].interactive = false;
                self.agents[i].interactive_hold = false;
            }
            let window_id = self.agents[i].window_id;
            ctx.emit(BrowserUnderlayEvent::Changed(window_id));
            ctx.notify();
        }
    }

    /// Records a control-plane operation on the agent underlay at `now` and
    /// optionally updates its URL. Reports nothing.
    pub fn touch_agent(&mut self, pane_key: &str, url: Option<String>, now: Millis)
        requires
            old(self).wf(),
        ensures
            final(self).wf(),
            final(self).ambience_map() == old(self).ambience_map(),
            has_key(old(self).agent_seq(), pane_key@) ==> {
                let i = index_of(old(self).agent_seq(), pane_key@);
                let a = old(self).agent_seq()[i];
                final(self).agent_seq() == old(self).agent_seq().update(
                    i,
                    AgentUnderlay {
                        last_used: now,
                        url: match url {
                            Some(u) => u,
                            None => a.url,
                        },
                        ..a
                    },
                )
            },
            !has_key(old(self).agent_seq(), pane_key@) ==> final(self).agent_seq()
                == old(self).agent_seq(),
    {
        if let Some(i) = self.find_agent(pane_key) {
            self.agents[i].last_used = now;
            if let Some(url) = url {
                self.agents[i].url = url;
            }
        }
    }

    /// Sets the agent's glass porthole mode and, when given, its opacity
    /// override (clamped to 100). Returns false when no such agent exists.
    pub fn set_agent_glass(
        &mut self,
        pane_key: &str,
        glass: bool,
        opacity_override: Option<u8>,
        now: Millis,
        ctx: &mut ModelChanges,
    ) -> (applied: bool)
        requires
            old(self).wf(),
        ensures
            final(self).wf(),
            final(self).ambience_map() == old(self).ambience_map(),
            applied == has_key(old(self).agent_seq(), pane_key@),
            applied ==> {
                let i = index_of(old(self).agent_seq(), pane_key@);
                let a = old(self).agent_seq()[i];
                &&& final(self).agent_seq() == old(self).agent_seq().update(
                    i,
                    AgentUnderlay {
                        glass,
                        glass_opacity_override: match opacity_override {
                            Some(o) => Some(clamp_opacity(o)),
                            None => a.glass_opacity_override,
                        },
                        last_used: now,
                        ..a
                    },
                )
                &&& final(ctx).spec_events() == old(ctx).spec_events().push(
                    BrowserUnderlayEvent::Changed(a.window_id),
                )
                &&& final(ctx).spec_notified()
            },
            !applied ==> {
                &&& final(self).agent_seq() == old(self).agent_seq()
                &&& *final(ctx) == *old(ctx)
            },
    {
        match self.find_agent(pane_key) {
            None => false,
            Some(i) => {
                self.agents[i].glass = glass;
                if let Some(opacity) = opacity_override {
                    let clamped = if opacity > BrowserGlassOpacity::MAX {
                        BrowserGlassOpacity::MAX
                    } else {
                        opacity
                    };
                    self.agents[i].glass_opacity_override = Some(clamped);
                }
                self.agents[i].last_used = now;
                let window_id = self.agents[i].window_id;
                ctx.emit(BrowserUnderlayEvent::Changed(window_id));
                ctx.notify();
                true
            },
        }
    }

    /// Sets latched interactive mode on an underlay. Returns the new
    /// effective interactive state (latched or held), or `None` when the
    /// underlay doesn't exist.
    pub fn set_interactive(
        &mut self,
        window_id: WindowId,
        owner: &BrowserUnderlayOwner,
        interactive: bool,
        now: Millis,
        ctx: &mut ModelChanges,
    ) -> (r: Option<bool>)
        requires
            old(self).wf(),
        ensures
            final(self).wf(),
            match owner {
                BrowserUnderlayOwner::Ambience => {
                    &&& final(self).agent_seq() == old(self).agent_seq()
                    &&& if old(self).ambience_map().contains_key(window_id) {
                        let a = old(self).ambience_map()[window_id];
                        &&& final(self).ambience_map() == old(self).ambience_map().insert(
                            window_id,
                            AmbienceUnderlay { interactive, ..a },
                        )
                        &&& r == Some(effective(interactive, a.interactive_hold))
                    } else {
                        &&& final(self).ambience_map() == old(self).ambience_map()
                        &&& r is None
                    }
                },
                BrowserUnderlayOwner::Agent(pane_key) => {
                    &&& final(self).ambience_map() == old(self).ambience_map()
                    &&& if has_key(old(self).agent_seq(), pane_key@) {
                        let i = index_of(old(self).agent_seq(), pane_key@);
                        let a = old(self).agent_seq()[i];
                        &&& final(self).agent_seq() == old(self).agent_seq().update(
                            i,
                            AgentUnderlay { interactive, last_used: now, ..a },
                        )
                        &&& r == Some(effective(interactive, a.interactive_hold))
                    } else {
                        &&& final(self).agent_seq() == old(self).agent_seq()
                        &&& r is None
                    }
                },
            },
            r is Some ==> {
                &&& final(ctx).spec_events() == old(ctx).spec_events().push(
                    BrowserUnderlayEvent::Changed(window_id),
                )
                &&& final(ctx).spec_notified()
            },
            r is None ==> *final(ctx) == *old(ctx),
    {
        let eff = match owner {
            BrowserUnderlayOwner::Ambience => {
                match self.ambience.remove(&window_id) {
                    None => {
                        return None;
                    },
                    Some(previous) => {
                        let hold = previous.interactive_hold;
                        let updated = AmbienceUnderlay { interactive, ..previous };
                        self.ambience.insert(window_id, updated);
                        proof {
                            assert(self.ambience@ =~= old(self).ambience@.insert(
                                window_id,
                                AmbienceUnderlay { interactive, ..previous },
                            ));
                        }
                        interactive || hold
                    },
                }
            },
            BrowserUnderlayOwner::Agent(pane_key) => {
                match self.find_agent(pane_key.as_str()) {
                    None => {
                        return None;
                    },
                    Some(i) => {
                        self.agents[i].interactive = interactive;
                        self.agents[i].last_used = now;
                        interactive || self.agents[i].interactive_hold
                    },
                }
            },
        };
        ctx.emit(BrowserUnderlayEvent::Changed(window_id));
        ctx.notify();
        Some(eff)
    }

    /// Applies an interactive-mode hotkey gesture to an underlay. Returns
    /// the new effective interactive state, or `None` when the underlay
    /// doesn't exist.
    pub fn apply_hotkey(
        &mut self,
        window_id: WindowId,
        owner: &BrowserUnderlayOwner,
        event: BrowserUnderlayHotkey,
        now: Millis,
        ctx: &mut ModelChanges,
    ) -> (r: Option<bool>)
        requires
            old(self).wf(),
        ensures
            final(self).wf(),
            match owner {
                BrowserUnderlayOwner::Ambience => {
                    &&& final(self).agent_seq() == old(self).agent_seq()
                    &&& if old(self).ambience_map().contains_key(window_id) {
                        let a = old(self).ambience_map()[window_id];
                        let (ni, nh) = hotkey_step(a.interactive, a.interactive_hold, event);
                        &&& final(self).ambience_map() == old(self).ambience_map().insert(
                            window_id,
                            AmbienceUnderlay { interactive: ni, interactive_hold: nh, ..a },
                        )
                        &&& r == Some(effective(ni, nh))
                    } else {
                        &&& final(self).ambience_map() == old(self).ambience_map()
                        &&& r is None
                    }
                },
                BrowserUnderlayOwner::Agent(pane_key) => {
                    &&& final(self).ambience_map() == old(self).ambience_map()
                    &&& if has_key(old(self).agent_seq(), pane_key@) {
                        let i = index_of(old(self).agent_seq(), pane_key@);
                        let a = old(self).agent_seq()[i];
                        let (ni, nh) = hotkey_step(a.interactive, a.interactive_hold, event);
                        &&& final(self).agent_seq() == old(self).agent_seq().update(
                            i,
                            AgentUnderlay {
                                interactive: ni,
                                interactive_hold: nh,
                                last_used: now,
                                ..a
                            },
                        )
                        &&& r == Some(effective(ni, nh))
                    } else {
                        &&& final(self).agent_seq() == old(self).agent_seq()
                        &&& r is None
                    }
                },
            },
            r is Some ==> {
                &&& final(ctx).spec_events() == old(ctx).spec_events().push(
                    BrowserUnderlayEvent::Changed(window_id),
                )
                &&& final(ctx).spec_notified()
            },
            r is None ==> *final(ctx) == *old(ctx),
    {
        let eff = match owner {
            BrowserUnderlayOwner::Ambience => {
                match self.ambience.remove(&window_id) {
                    None => {
                        return None;
                    },
                    Some(previous) => {
                        let (ni, nh) = step_flags(previous.interactive, previous.interactive_hold, event);
                        let updated = AmbienceUnderlay { interactive: ni, interactive_hold: nh, ..previous };
                        self.ambience.insert(window_id, updated);
                        proof {
                            assert(self.ambience@ =~= old(self).ambience@.insert(
                                window_id,
                                AmbienceUnderlay { interactive: ni, interactive_hold: nh, ..previous },
                            ));
                        }
                        ni || nh
                    },
                }
            },
            BrowserUnderlayOwner::Agent(pane_key) => {
                match self.find_agent(pane_key.as_str()) {
                    None => {
                        return None;
                    },
                    Some(i) => {
                        let (ni, nh) = step_flags(
                            self.agents[i].interactive,
                            self.agents[i].interactive_hold,
                            event,
                        );
                        self.agents[i].interactive = ni;
                        self.agents[i].interactive_hold = nh;
                        self.agents[i].last_used = now;
                        ni || nh
                    },
                }
            },
        };
        ctx.emit(BrowserUnderlayEvent::Changed(window_id));
        ctx.notify();
        Some(eff)
    }

    /// Drops all state for a closed window: its ambience underlay and every
    /// agent underlay living in it. Reports the window when anything was
    /// dropped.
    pub fn forget_window(&mut self, window_id: WindowId, ctx: &mut ModelChanges)
        requires
            old(self).wf(),
        ensures
            final(self).wf(),
            final(self).ambience_map() == old(self).ambience_map().remove(window_id),
            final(self).agent_seq() == old(self).agent_seq().filter(outside_window(window_id)),
            window_has_underlay(old(self).ambience_map(), old(self).agent_seq(), window_id) ==> {
                &&& final(ctx).spec_events() == old(ctx).spec_events().push(
                    BrowserUnderlayEvent::Changed(window_id),
                )
                &&& final(ctx).spec_notified()
            },
            !window_has_underlay(old(self).ambience_map(), old(self).agent_seq(), window_id)
                ==> *final(ctx) == *old(ctx),
    {
        let had_ambience = self.ambience.remove(&window_id).is_some();
        let ghost initial = self.agents@;
        let ghost p = outside_window(window_id);
        let mut removed_any = false;
        let mut i: usize = 0;
        let ghost mut k: int = 0;
        proof {
            reveal(Seq::filter);
            assert(initial.take(0) =~= Seq::<AgentUnderlay>::empty());
            assert(initial.skip(0) =~= initial);
            assert(self.agents@ =~= initial.take(0).filter(p) + initial.skip(0));
        }
        while i < self.agents.len()
            invariant
                0 <= k <= initial.len(),
                i == initial.take(k).filter(p).len(),
                self.agents@ == initial.take(k).filter(p) + initial.skip(k),
                p == outside_window(window_id),
                self.ambience@ == old(self).ambience@.remove(window_id),
                removed_any <==> exists|j: int| 0 <= j < k && initial[j].window_id == window_id,
            decreases initial.len() - k,
        {
            proof {
                assert(initial.take(k + 1) =~= initial.take(k).push(initial[k]));
                initial.take(k).lemma_filter_push(initial[k], p);
                assert(self.agents@[i as int] == initial[k]);
            }
            if self.agents[i].window_id == window_id {
                self.agents.remove(i);
                removed_any = true;
                proof {
                    assert(initial.skip(k) =~= seq![initial[k]] + initial.skip(k + 1));
                    assert(self.agents@ =~= initial.take(k + 1).filter(p) + initial.skip(k + 1));
                }
            } else {
                i = i + 1;
                proof {
                    assert(self.agents@ =~= initial.take(k + 1).filter(p) + initial.skip(k + 1));
                }
            }
            proof {
                k = k + 1;
            }
        }
        proof {
            assert(initial.take(k) =~= initial);
            assert(initial.skip(k) =~= Seq::<AgentUnderlay>::empty());
            assert(self.agents@ =~= initial.filter(p));
            lemma_filter_keeps_unique(initial, p);
        }
        if had_ambience || removed_any {
            ctx.emit(BrowserUnderlayEvent::Changed(window_id));
            ctx.notify();
        }
    }

    /// Reports every window that has any underlay, each once, and notifies
    /// observers, so they repaint after an external change such as the
    /// glass-opacity setting.
    pub fn emit_changed_for_all(&self, ctx: &mut ModelChanges)
        requires
            self.wf(),
        ensures
            final(ctx).spec_notified(),
            final(ctx).spec_events().len() >= old(ctx).spec_events().len(),
            final(ctx).spec_events().subrange(0, old(ctx).spec_events().len() as int) == old(
                ctx,
            ).spec_events(),
            final(ctx).spec_events().skip(old(ctx).spec_events().len() as int).no_duplicates(),
            forall|w: WindowId|
                #![trigger window_has_underlay(self.ambience_map(), self.agent_seq(), w)]
                final(ctx).spec_events().skip(old(ctx).spec_events().len() as int).contains(
                    BrowserUnderlayEvent::Changed(w),
                ) <==> window_has_underlay(self.ambience_map(), self.agent_seq(), w),
    {
        let mut windows: Vec<WindowId> = Vec::new();
        let keys = self.ambience.keys();
        let ghost rem = keys.remaining().unref();
        proof {
            axiom_spec_keys_iter(&self.ambience);
        }
        for w in it: keys
            invariant
                it.seq().unref() == rem,
                rem.to_set() == self.ambience@.dom(),
                rem.no_duplicates(),
                windows@ == rem.take(it.index()),
        {
            windows.push(*w);
            assert(rem.take(it.index() + 1) == rem.take(it.index()).push(rem[it.index() as int]));
        }
        proof {
            assert(rem.take(rem.len() as int) == rem);
            assert forall|w: WindowId| windows@.contains(w) <==> self.ambience@.contains_key(w) by {
                assert(rem.to_set().contains(w) <==> rem.contains(w));
            }
        }
        let mut i: usize = 0;
        while i < self.agents.len()
            invariant
                i <= self.agents@.len(),
                windows@.no_duplicates(),
                forall|w: WindowId|
                    windows@.contains(w) <==> (self.ambience@.contains_key(w) || exists|j: int|
                        0 <= j < i && self.agents@[j].window_id == w),
            decreases self.agents@.len() - i,
        {
            let w = self.agents[i].window_id;
            let ghost prev = windows@;
            if !contains_window(&windows, w) {
                windows.push(w);
                proof {
                    assert forall|a: int, b: int|
                        0 <= a < windows@.len() && 0 <= b < windows@.len() && a != b implies windows@[a]
                        != windows@[b] by {
                        if a == prev.len() {
                            assert(prev[b] != w);
                        } else if b == prev.len() {
                            assert(prev[a] != w);
                        } else {
                            assert(prev[a] != prev[b]);
                        }
                    }
                }
            }
            proof {
                assert(windows@.contains(w)) by {
                    if prev.contains(w) {
                        assert(windows@ == prev);
                    } else {
                        assert(windows@[prev.len() as int] == w);
                    }
                }
                assert forall|x: WindowId| windows@.contains(x) <==> (self.ambience@.contains_key(x)
                    || exists|j: int| 0 <= j < i + 1 && self.agents@[j].window_id == x) by {
                    if x != w {
                        if windows@.contains(x) {
                            let a = choose|a: int| 0 <= a < windows@.len() && windows@[a] == x;
                            if a < prev.len() {
                                assert(prev[a] == x);
                                assert(prev.contains(x));
                            }
                        }
                        if prev.contains(x) {
                            let a = choose|a: int| 0 <= a < prev.len() && prev[a] == x;
                            assert(windows@[a] == x);
                        }
                        if exists|j: int| 0 <= j < i + 1 && self.agents@[j].window_id == x {
                            let j = choose|j: int| 0 <= j < i + 1 && self.agents@[j].window_id == x;
                            assert(j < i);
                        }
                    } else {
                        assert(self.agents@[i as int].window_id == x);
                    }
                }
            }
            i = i + 1;
        }
        let ghost start = ctx.spec_events().len();
        let mut n: usize = 0;
        while n < windows.len()
            invariant
                n <= windows@.len(),
                ctx.spec_events().len() == start + n,
                ctx.spec_events().subrange(0, start as int) == old(ctx).spec_events(),
                start == old(ctx).spec_events().len(),
                windows@.no_duplicates(),
                forall|w: WindowId|
                    windows@.contains(w) <==> (self.ambience@.contains_key(w) || exists|j: int|
                        0 <= j < self.agents@.len() && self.agents@[j].window_id == w),
                forall|m: int|
                    0 <= m < n ==> ctx.spec_events()[start + m] == BrowserUnderlayEvent::Changed(
                        windows@[m],
                    ),
            decreases windows@.len() - n,
        {
            ctx.emit(BrowserUnderlayEvent::Changed(windows[n]));
            n = n + 1;
        }
        ctx.notify();
        proof {
            let e = ctx.spec_events().skip(start as int);
            assert(e =~= windows@.map_values(|w: WindowId| BrowserUnderlayEvent::Changed(w)));
            assert forall|a: int, b: int| 0 <= a < e.len() && 0 <= b < e.len() && a != b implies e[a]
                != e[b] by {
                assert(windows@[a] != windows@[b]);
            }
            assert forall|w: WindowId| e.contains(BrowserUnderlayEvent::Changed(w)) <==> window_has_underlay(
                self.ambience_map(),
                self.agent_seq(),
                w,
            ) by {
                assert(windows@.contains(w) <==> window_has_underlay(
                    self.ambience_map(),
                    self.agent_seq(),
                    w,
                ));
                if e.contains(BrowserUnderlayEvent::Changed(w)) {
                    let a = choose|a: int| 0 <= a < e.len() && e[a] == BrowserUnderlayEvent::Changed(w);
                    assert(windows@[a] == w);
                }
                if windows@.contains(w) {
                    let a = choose|a: int| 0 <= a < windows@.len() && windows@[a] == w;
                    assert(e[a] == BrowserUnderlayEvent::Changed(w));
                }
            }
        }
    }

    /// The least-recently-used agent underlay in `window_id` (the first
    /// attached among equals) when the window holds at least
    /// [`MAX_AGENT_UNDERLAYS_PER_WINDOW`] of them, else `None`.
    pub fn agent_eviction_candidate(&self, window_id: WindowId) -> (r: Option<String>)
        requires
            self.wf(),
        ensures
            r is None <==> window_agent_count(self.agent_seq(), window_id)
                < MAX_AGENT_UNDERLAYS_PER_WINDOW,
            r matches Some(k) ==> exists|i: int|
                is_lru_in_window(self.agent_seq(), window_id, i) && k@ == self.agent_seq()[i].pane_key@,
    {
        let ghost agents = self.agents@;
        let mut count: usize = 0;
        let mut best: Option<usize> = None;
        let mut i: usize = 0;
        proof {
            assert(agents.take(0) =~= Seq::<AgentUnderlay>::empty());
        }
        while i < self.agents.len()
            invariant
                agents == self.agents@,
                i <= agents.len(),
                count == window_agent_count(agents.take(i as int), window_id),
                count <= i,
                match best {
                    None => forall|j: int| 0 <= j < i ==> agents[j].window_id != window_id,
                    Some(b) => {
                        &&& b < i
                        &&& agents[b as int].window_id == window_id
                        &&& forall|j: int|
                            0 <= j < i && agents[j].window_id == window_id ==> agents[b as int].last_used
                                <= agents[j].last_used
                        &&& forall|j: int|
                            0 <= j < b && agents[j].window_id == window_id ==> agents[b as int].last_used
                                < agents[j].last_used
                    },
                },
            decreases agents.len() - i,
        {
            proof {
                assert(agents.take(i + 1).drop_last() =~= agents.take(i as int));
            }
            if self.agents[i].window_id == window_id {
                count = count + 1;
                match best {
                    None => {
                        best = Some(i);
                    },
                    Some(b) => {
                        if self.agents[i].last_used < self.agents[b].last_used {
                            best = Some(i);
                        }
                    },
                }
            }
            i = i + 1;
        }
        proof {
            assert(agents.take(agents.len() as int) =~= agents);
        }
        if count < MAX_AGENT_UNDERLAYS_PER_WINDOW {
            return None;
        }
        match best {
            None => {
                proof {
                    lemma_no_window_agents_count(agents, window_id);
                }
                None
            },
            Some(b) => {
                proof {
                    assert(is_lru_in_window(agents, window_id, b as int));
                }
                Some(self.agents[b].pane_key.clone())
            },
        }
    }

    /// The key of the first agent underlay whose pane is `pane_id`.
    pub fn agent_key_for_pane(&self, pane_id: PaneId) -> (r: Option<String>)
        ensures
            r is None <==> forall|j: int|
                0 <= j < self.agent_seq().len() ==> self.agent_seq()[j].pane_id != pane_id,
            r matches Some(k) ==> exists|i: int|
                0 <= i < self.agent_seq().len() && self.agent_seq()[i].pane_id == pane_id && (forall|j: int|
                    0 <= j < i ==> self.agent_seq()[j].pane_id != pane_id) && k@
                    == self.agent_seq()[i].pane_key@,
    {
        let mut i: usize = 0;
        while i < self.agents.len()
            invariant
                i <= self.agents@.len(),
                forall|j: int| 0 <= j < i ==> self.agents@[j].pane_id != pane_id,
            decreases self.agents@.len() - i,
        {
            if self.agents[i].pane_id == pane_id {
                return Some(self.agents[i].pane_key.clone());
            }
            i = i + 1;
        }
        None
    }

    /// Whether any agent underlay exists.
    pub fn has_agents(&self) -> (r: bool)
        ensures
            r == (self.agent_seq().len() > 0),
    {
        self.agents.len() > 0
    }

    /// Drops every agent underlay idle past [`AGENT_IDLE_TTL_MS`] at `now`,
    /// reporting each one's window, and returns their keys and windows in
    /// attachment order.
    pub fn remove_idle_agents(&mut self, now: Millis, ctx: &mut ModelChanges) -> (r: Vec<(String, WindowId)>)
        requires
            old(self).wf(),
        ensures
            final(self).wf(),
            final(self).ambience_map() == old(self).ambience_map(),
            final(self).agent_seq() == old(self).agent_seq().filter(active_at(now)),
            r@.len() == old(self).agent_seq().filter(idle_at(now)).len(),
            forall|j: int|
                0 <= j < r@.len() ==> r@[j].0@ == old(self).agent_seq().filter(idle_at(now))[j].pane_key@
                    && r@[j].1 == old(self).agent_seq().filter(idle_at(now))[j].window_id,
            final(ctx).spec_events() == old(ctx).spec_events() + changed_events(
                old(self).agent_seq().filter(idle_at(now)),
            ),
            final(ctx).spec_notified() == (old(ctx).spec_notified() || r@.len() > 0),
    {
        let ghost initial = self.agents@;
        let ghost keep = active_at(now);
        let ghost drop = idle_at(now);
        let mut removed: Vec<(String, WindowId)> = Vec::new();
        let mut i: usize = 0;
        let ghost mut k: int = 0;
        proof {
            reveal(Seq::filter);
            assert(initial.take(0) =~= Seq::<AgentUnderlay>::empty());
            assert(initial.skip(0) =~= initial);
            assert(self.agents@ =~= initial.take(0).filter(keep) + initial.skip(0));
            assert(changed_events(Seq::<AgentUnderlay>::empty()) =~= Seq::<BrowserUnderlayEvent>::empty());
            assert(ctx.spec_events() =~= old(ctx).spec_events() + changed_events(initial.take(0).filter(drop)));
        }
        while i < self.agents.len()
            invariant
                0 <= k <= initial.len(),
                initial == old(self).agents@,
                keep == active_at(now),
                drop == idle_at(now),
                i == initial.take(k).filter(keep).len(),
                self.agents@ == initial.take(k).filter(keep) + initial.skip(k),
                self.ambience@ == old(self).ambience@,
                removed@.len() == initial.take(k).filter(drop).len(),
                forall|j: int|
                    0 <= j < removed@.len() ==> removed@[j].0@ == initial.take(k).filter(drop)[j].pane_key@
                        && removed@[j].1 == initial.take(k).filter(drop)[j].window_id,
                ctx.spec_events() == old(ctx).spec_events() + changed_events(initial.take(k).filter(drop)),
                ctx.spec_notified() == (old(ctx).spec_notified() || removed@.len() > 0),
            decreases initial.len() - k,
        {
            let ghost before_drop = initial.take(k).filter(drop);
            proof {
                assert(initial.take(k + 1) =~= initial.take(k).push(initial[k]));
                initial.take(k).lemma_filter_push(initial[k], keep);
                initial.take(k).lemma_filter_push(initial[k], drop);
                assert(self.agents@[i as int] == initial[k]);
            }
            let last_used = self.agents[i].last_used;
            if now >= last_used && now - last_used > AGENT_IDLE_TTL_MS {
                let agent = self.agents.remove(i);
                let window_id = agent.window_id;
                removed.push((agent.pane_key, window_id));
                ctx.emit(BrowserUnderlayEvent::Changed(window_id));
                ctx.notify();
                proof {
                    assert(initial.skip(k) =~= seq![initial[k]] + initial.skip(k + 1));
                    assert(self.agents@ =~= initial.take(k + 1).filter(keep) + initial.skip(k + 1));
                    assert(changed_events(before_drop.push(initial[k])) =~= changed_events(before_drop).push(
                        BrowserUnderlayEvent::Changed(window_id),
                    ));
                    assert(ctx.spec_events() =~= old(ctx).spec_events() + changed_events(
                        initial.take(k + 1).filter(drop),
                    ));
                }
            } else {
                i = i + 1;
                proof {
                    assert(self.agents@ =~= initial.take(k + 1).filter(keep) + initial.skip(k + 1));
                }
            }
            proof {
                k = k + 1;
            }
        }
        proof {
            assert(initial.take(k) =~= initial);
            assert(initial.skip(k) =~= Seq::<AgentUnderlay>::empty());
            assert(self.agents@ =~= initial.filter(keep));
            lemma_filter_keeps_unique(initial, keep);
        }
        removed
    }

    /// All agent underlays, oldest attachment first.
    pub fn agents(&self) -> (r: &Vec<AgentUnderlay>)
        ensures
            r@ == self.agent_seq(),
    {
        &self.agents
    }
}

} // verus!
