//! Where panes live: a snapshot of every window's tabs and the panes shown
//! in them, and the lookups that bind an agent to its pane.
use vstd::prelude::*;

use vstd::string::{StringExecFns, StringSliceAdditionalSpecFns};

use crate::state::{PaneId, WindowId};

verus! {

/// A pane shown in a tab.
pub struct PaneEntry {
    pub pane_id: PaneId,
    /// Whether the pane is currently laid out in its tab.
    pub visible: bool,
    /// The persistent terminal session UUID (raw bytes) of a terminal pane.
    pub session_uuid: Option<Vec<u8>>,
}

/// The panes of one tab.
pub struct TabPanes {
    pub panes: Vec<PaneEntry>,
}

/// The tabs of one window that hosts a workspace.
pub struct WindowTabs {
    pub window_id: WindowId,
    pub active_tab_index: usize,
    pub tabs: Vec<TabPanes>,
}

/// Every workspace window, in window order.
pub struct WorkspaceSnapshot {
    pub windows: Vec<WindowTabs>,
}

/// Where an agent's pane currently lives.
#[derive(PartialEq, Eq, Structural, Clone, Copy, Debug)]
pub struct PaneLocation {
    pub window_id: WindowId,
    /// Whether the pane's tab is the active tab of its window.
    pub in_active_tab: bool,
}

/// The pane is shown in the tab.
pub open spec fn tab_shows(tab: TabPanes, pane_id: PaneId) -> bool {
    exists|p: int| 0 <= p < tab.panes@.len() && tab.panes@[p].pane_id == pane_id && tab.panes@[p].visible
}

/// Some tab of the window shows the pane.
pub open spec fn window_shows(window: WindowTabs, pane_id: PaneId) -> bool {
    exists|t: int| 0 <= t < window.tabs@.len() && tab_shows(window.tabs@[t], pane_id)
}

/// Tab `t` is the first tab of the window that shows the pane.
pub open spec fn is_first_tab(window: WindowTabs, pane_id: PaneId, t: int) -> bool {
    &&& 0 <= t < window.tabs@.len()
    &&& tab_shows(window.tabs@[t], pane_id)
    &&& forall|u: int| 0 <= u < t ==> !tab_shows(window.tabs@[u], pane_id)
}

/// Window `w` is the first window that shows the pane.
pub open spec fn is_first_window(windows: Seq<WindowTabs>, pane_id: PaneId, w: int) -> bool {
    &&& 0 <= w < windows.len()
    &&& window_shows(windows[w], pane_id)
    &&& forall|v: int| 0 <= v < w ==> !window_shows(windows[v], pane_id)
}

/// The pane at (`w`, `t`, `p`) has session UUID `uuid`.
pub open spec fn session_at(windows: Seq<WindowTabs>, uuid: Seq<u8>, w: int, t: int, p: int) -> bool {
    &&& 0 <= w < windows.len()
    &&& 0 <= t < windows[w].tabs@.len()
    &&& 0 <= p < windows[w].tabs@[t].panes@.len()
    &&& windows[w].tabs@[t].panes@[p].session_uuid matches Some(s) && s@ == uuid
}

/// Where the pane is shown: the first window showing it and, there, whether
/// the first tab showing it is the window's active tab.
pub open spec fn locate_spec(windows: Seq<WindowTabs>, pane_id: PaneId) -> Option<PaneLocation> {
    if exists|w: int| is_first_window(windows, pane_id, w) {
        let w = choose|w: int| is_first_window(windows, pane_id, w);
        let t = choose|t: int| is_first_tab(windows[w], pane_id, t);
        Some(
            PaneLocation {
                window_id: windows[w].window_id,
                in_active_tab: t == windows[w].active_tab_index,
            },
        )
    } else {
        None
    }
}

/// The first window showing a pane is unique.
pub proof fn lemma_first_window_unique(windows: Seq<WindowTabs>, pane_id: PaneId, w: int, v: int)
    requires
        is_first_window(windows, pane_id, w),
        is_first_window(windows, pane_id, v),
    ensures
        w == v,
{
    if w < v {
        assert(!window_shows(windows[w], pane_id));
    } else if v < w {
        assert(!window_shows(windows[v], pane_id));
    }
}

/// The first tab showing a pane is unique.
pub proof fn lemma_first_tab_unique(window: WindowTabs, pane_id: PaneId, t: int, u: int)
    requires
        is_first_tab(window, pane_id, t),
        is_first_tab(window, pane_id, u),
    ensures
        t == u,
{
    if t < u {
        assert(!tab_shows(window.tabs@[t], pane_id));
    } else if u < t {
        assert(!tab_shows(window.tabs@[u], pane_id));
    }
}

/// (`w1`, `t1`, `p1`) comes before (`w2`, `t2`, `p2`) in window, tab, pane
/// order.
pub open spec fn before(w1: int, t1: int, p1: int, w2: int, t2: int, p2: int) -> bool {
    w1 < w2 || (w1 == w2 && t1 < t2) || (w1 == w2 && t1 == t2 && p1 < p2)
}

/// (`w`, `t`, `p`) is the first pane with session UUID `uuid`.
pub open spec fn is_first_session(windows: Seq<WindowTabs>, uuid: Seq<u8>, w: int, t: int, p: int) -> bool {
    &&& session_at(windows, uuid, w, t, p)
    &&& forall|w2: int, t2: int, p2: int|
        #![trigger session_at(windows, uuid, w2, t2, p2)]
        before(w2, t2, p2, w, t, p) ==> !session_at(windows, uuid, w2, t2, p2)
}

/// The pane bound by a hex session UUID: the first pane, in window, tab and
/// pane order, whose session UUID is the decoded bytes.
pub open spec fn session_pane_spec(windows: Seq<WindowTabs>, text: Seq<u8>) -> Option<PaneId> {
    match hex_decode_spec(text) {
        None => None,
        Some(uuid) => if exists|w: int, t: int, p: int| is_first_session(windows, uuid, w, t, p) {
            let (w, t, p) = choose|w: int, t: int, p: int| is_first_session(windows, uuid, w, t, p);
            Some(windows[w].tabs@[t].panes@[p].pane_id)
        } else {
            None
        },
    }
}

/// The first pane with a session UUID is unique.
pub proof fn lemma_first_session_unique(
    windows: Seq<WindowTabs>,
    uuid: Seq<u8>,
    w: int,
    t: int,
    p: int,
    w2: int,
    t2: int,
    p2: int,
)
    requires
        is_first_session(windows, uuid, w, t, p),
        is_first_session(windows, uuid, w2, t2, p2),
    ensures
        w == w2 && t == t2 && p == p2,
{
    if before(w, t, p, w2, t2, p2) {
        assert(!session_at(windows, uuid, w, t, p));
    } else if before(w2, t2, p2, w, t, p) {
        assert(!session_at(windows, uuid, w2, t2, p2));
    }
}

/// The value of one hex digit.
pub open spec fn hex_digit_value(c: u8) -> Option<u8> {
    if 48 <= c <= 57 {
        Some((c - 48) as u8)
    } else if 97 <= c <= 102 {
        Some((c - 87) as u8)
    } else if 65 <= c <= 70 {
        Some((c - 55) as u8)
    } else {
        None
    }
}

/// The byte a two-character chunk denotes in base 16: two hex digits, or an
/// optional `+` sign followed by one.
pub open spec fn hex_pair_value(a: u8, b: u8) -> Option<u8> {
    if a == 43 {
        hex_digit_value(b)
    } else {
        match (hex_digit_value(a), hex_digit_value(b)) {
            (Some(x), Some(y)) => Some((16 * x + y) as u8),
            _ => None,
        }
    }
}

/// The bytes a hex string denotes, chunk by chunk; `None` for an odd length
/// or any chunk that is not a base-16 number.
pub open spec fn hex_decode_spec(text: Seq<u8>) -> Option<Seq<u8>>
    decreases text.len(),
{
    if text.len() == 0 {
        Some(Seq::empty())
    } else if text.len() == 1 {
        None
    } else {
        match (hex_pair_value(text[0], text[1]), hex_decode_spec(text.skip(2))) {
            (Some(v), Some(rest)) => Some(seq![v] + rest),
            _ => None,
        }
    }
}

fn digit_value(c: u8) -> (r: Option<u8>)
    ensures
        r == hex_digit_value(c),
{
    if 48 <= c && c <= 57 {
        Some(c - 48)
    } else if 97 <= c && c <= 102 {
        Some(c - 87)
    } else if 65 <= c && c <= 70 {
        Some(c - 55)
    } else {
        None
    }
}

fn pair_value(a: u8, b: u8) -> (r: Option<u8>)
    ensures
        r == hex_pair_value(a, b),
{
    if a == 43 {
        digit_value(b)
    } else {
        match (digit_value(a), digit_value(b)) {
            (Some(x), Some(y)) => Some(16 * x + y),
            _ => None,
        }
    }
}

/// Decoding a prefix of whole chunks, then the rest, decodes the whole.
proof fn lemma_hex_decode_split(text: Seq<u8>, k: int)
    requires
        0 <= k,
        2 * k <= text.len(),
    ensures
        hex_decode_spec(text) == match (hex_decode_spec(text.take(2 * k)), hex_decode_spec(text.skip(2 * k))) {
            (Some(a), Some(b)) => Some(a + b),
            _ => None::<Seq<u8>>,
        },
    decreases k,
{
    if k == 0 {
        assert(text.take(0) =~= Seq::<u8>::empty());
        assert(text.skip(0) =~= text);
        assert(hex_decode_spec(Seq::<u8>::empty()) == Some(Seq::<u8>::empty()));
        match hex_decode_spec(text) {
            Some(b) => assert(Seq::<u8>::empty() + b =~= b),
            None => {},
        }
    } else {
        let t2 = text.skip(2);
        lemma_hex_decode_split(t2, k - 1);
        assert(t2.take(2 * (k - 1)) =~= text.take(2 * k).skip(2));
        assert(t2.skip(2 * (k - 1)) =~= text.skip(2 * k));
        let pre = text.take(2 * k);
        assert(pre[0] == text[0] && pre[1] == text[1]);
        match (hex_pair_value(text[0], text[1]), hex_decode_spec(t2.take(2 * (k - 1))), hex_decode_spec(
            text.skip(2 * k),
        )) {
            (Some(v), Some(a), Some(b)) => {
                assert(seq![v] + (a + b) =~= (seq![v] + a) + b);
            },
            _ => {},
        }
    }
}

/// Reading `text` two bytes at a time up to the first chunk that is not a
/// base-16 number never cuts a character: that chunk, if any, ends at the
/// text's end or before a byte that is not a continuation byte. Text of odd
/// length is refused before any chunk is read.
pub open spec fn chunks_read_whole(text: Seq<u8>) -> bool
    decreases text.len(),
{
    if text.len() % 2 != 0 || text.len() == 0 {
        true
    } else if hex_pair_value(text[0], text[1]) is Some {
        chunks_read_whole(text.skip(2))
    } else {
        text.len() == 2 || !(0x80 <= text[2] && text[2] < 0xc0)
    }
}

/// Decodes a hex string two characters at a time (each chunk parsed as a
/// base-16 byte). Fails on an odd length or a chunk that is not a number.
pub fn hex_decode(input: &str) -> (r: Result<Vec<u8>, ()>)
    requires
        chunks_read_whole(input.spec_bytes()),
    ensures
        match hex_decode_spec(input.spec_bytes()) {
            Some(bytes) => r == Ok::<Vec<u8>, ()>(r->Ok_0) && r->Ok_0@ == bytes,
            None => r == Err::<Vec<u8>, ()>(()),
        },
{
    decode_pairs(input)
}

/// Decodes the text's bytes two at a time, reading them as bytes.
fn decode_pairs(input: &str) -> (r: Result<Vec<u8>, ()>)
    ensures
        match hex_decode_spec(input.spec_bytes()) {
            Some(bytes) => r == Ok::<Vec<u8>, ()>(r->Ok_0) && r->Ok_0@ == bytes,
            None => r == Err::<Vec<u8>, ()>(()),
        },
{
    let bytes = input.as_bytes();
    let n = bytes.len();
    if n % 2 != 0 {
        proof {
            lemma_odd_length_fails(bytes@);
        }
        return Err(());
    }
    let mut out: Vec<u8> = Vec::new();
    let mut i: usize = 0;
    while i < n
        invariant
            n == bytes@.len(),
            bytes@ == input.spec_bytes(),
            n % 2 == 0,
            i <= n,
            i % 2 == 0,
            hex_decode_spec(bytes@.take(i as int)) == Some(out@),
        decreases n - i,
    {
        let ghost t = bytes@.take(i + 2);
        proof {
            let k = (i / 2) as int;
            lemma_hex_decode_split(t, k);
            assert(t.take(2 * k) =~= bytes@.take(i as int));
            lemma_decode_two(t.skip(2 * k));
            assert(t.skip(2 * k)[0] == bytes@[i as int]);
            assert(t.skip(2 * k)[1] == bytes@[i + 1]);
        }
        match pair_value(bytes[i], bytes[i + 1]) {
            Some(v) => {
                let ghost before = out@;
                out.push(v);
                proof {
                    assert(out@ =~= before + seq![v]);
                }
            },
            None => {
                proof {
                    let k = (i / 2) as int;
                    lemma_hex_decode_split(bytes@, k);
                    assert(bytes@.take(2 * k) =~= bytes@.take(i as int));
                    assert(bytes@.skip(2 * k) =~= bytes@.skip(i as int));
                    let rest = bytes@.skip(i as int);
                    assert(rest[0] == bytes@[i as int] && rest[1] == bytes@[i + 1]);
                    assert(hex_decode_spec(rest) is None);
                }
                return Err(());
            },
        }
        i = i + 2;
    }
    proof {
        assert(bytes@.take(n as int) =~= bytes@);
    }
    Ok(out)
}

/// The lowercase hex digit of a value below 16.
pub open spec fn hex_char(v: int) -> char {
    if v < 10 {
        (48 + v) as char
    } else {
        (87 + v) as char
    }
}

/// `bytes` in lowercase hex, two digits per byte.
pub open spec fn lower_hex(bytes: Seq<u8>) -> Seq<char>
    decreases bytes.len(),
{
    if bytes.len() == 0 {
        Seq::empty()
    } else {
        lower_hex(bytes.drop_last()) + seq![
            hex_char(bytes.last() as int / 16),
            hex_char(bytes.last() as int % 16),
        ]
    }
}

/// The key an agent underlay is kept under for the pane session UUID
/// `text`: the UUID it decodes to, in lowercase hex, so that every spelling
/// of one UUID gives one key. Text that does not decode is kept as it is.
pub open spec fn session_key(text: Seq<char>) -> Seq<char> {
    match hex_decode_spec(vstd::utf8::encode_utf8(text)) {
        Some(uuid) => lower_hex(uuid),
        None => text,
    }
}

/// The lowercase hex digit of `v` (below 16) as text.
fn hex_digit_text(v: u8) -> (r: &'static str)
    requires
        v < 16,
    ensures
        r@ == seq![hex_char(v as int)],
{
    proof {
        reveal_strlit("0");
        reveal_strlit("1");
        reveal_strlit("2");
        reveal_strlit("3");
        reveal_strlit("4");
        reveal_strlit("5");
        reveal_strlit("6");
        reveal_strlit("7");
        reveal_strlit("8");
        reveal_strlit("9");
        reveal_strlit("a");
        reveal_strlit("b");
        reveal_strlit("c");
        reveal_strlit("d");
        reveal_strlit("e");
        reveal_strlit("f");
    }
    match v {
        0 => "0",
        1 => "1",
        2 => "2",
        3 => "3",
        4 => "4",
        5 => "5",
        6 => "6",
        7 => "7",
        8 => "8",
        9 => "9",
        10 => "a",
        11 => "b",
        12 => "c",
        13 => "d",
        14 => "e",
        _ => "f",
    }
}

/// The key an agent underlay is kept under for the pane session UUID
/// `text` (see [`session_key`]).
pub fn session_key_of(text: &str) -> (r: String)
    ensures
        r@ == session_key(text@),
{
    match decode_pairs(text) {
        Ok(uuid) => {
            let mut r = String::new();
            let mut i: usize = 0;
            while i < uuid.len()
                invariant
                    i <= uuid@.len(),
                    r@ == lower_hex(uuid@.take(i as int)),
                decreases uuid@.len() - i,
            {
                let b = uuid[i];
                proof {
                    let t = uuid@.take(i + 1);
                    assert(t.drop_last() =~= uuid@.take(i as int));
                    assert(t.last() == b);
                }
                r.append(hex_digit_text(b / 16));
                r.append(hex_digit_text(b % 16));
                proof {
                    assert(r@ =~= lower_hex(uuid@.take(i + 1)));
                }
                i = i + 1;
            }
            proof {
                assert(uuid@.take(uuid@.len() as int) =~= uuid@);
            }
            r
        },
        Err(()) => text.to_owned(),
    }
}

/// A two-byte text decodes to the single byte its chunk denotes.
proof fn lemma_decode_two(t: Seq<u8>)
    requires
        t.len() == 2,
    ensures
        hex_decode_spec(t) == match hex_pair_value(t[0], t[1]) {
            Some(v) => Some(seq![v]),
            None => None::<Seq<u8>>,
        },
{
    assert(t.skip(2) =~= Seq::<u8>::empty());
    assert(hex_decode_spec(t.skip(2)) == Some(Seq::<u8>::empty()));
    match hex_pair_value(t[0], t[1]) {
        Some(v) => assert(seq![v] + Seq::<u8>::empty() =~= seq![v]),
        None => {},
    }
}

/// A text of odd length never decodes.
proof fn lemma_odd_length_fails(text: Seq<u8>)
    requires
        text.len() % 2 == 1,
    ensures
        hex_decode_spec(text) is None,
    decreases text.len(),
{
    if text.len() > 1 {
        lemma_odd_length_fails(text.skip(2));
    }
}

fn same_bytes(a: &Vec<u8>, b: &Vec<u8>) -> (r: bool)
    ensures
        r == (a@ == b@),
{
    if a.len() != b.len() {
        return false;
    }
    let mut i: usize = 0;
    while i < a.len()
        invariant
            a@.len() == b@.len(),
            i <= a@.len(),
            forall|j: int| 0 <= j < i ==> a@[j] == b@[j],
        decreases a@.len() - i,
    {
        if a[i] != b[i] {
            return false;
        }
        i = i + 1;
    }
    assert(a@ =~= b@);
    true
}

fn tab_shows_pane(tab: &TabPanes, pane_id: PaneId) -> (r: bool)
    ensures
        r == tab_shows(*tab, pane_id),
{
    let mut p: usize = 0;
    while p < tab.panes.len()
        invariant
            p <= tab.panes@.len(),
            forall|q: int| 0 <= q < p ==> !(tab.panes@[q].pane_id == pane_id && tab.panes@[q].visible),
        decreases tab.panes@.len() - p,
    {
        if tab.panes[p].pane_id == pane_id && tab.panes[p].visible {
            return true;
        }
        p = p + 1;
    }
    false
}

/// The first tab of `window` showing `pane_id`.
fn first_tab_showing(window: &WindowTabs, pane_id: PaneId) -> (r: Option<usize>)
    ensures
        match r {
            Some(t) => is_first_tab(*window, pane_id, t as int),
            None => !window_shows(*window, pane_id),
        },
{
    let mut t: usize = 0;
    while t < window.tabs.len()
        invariant
            t <= window.tabs@.len(),
            forall|u: int| 0 <= u < t ==> !tab_shows(window.tabs@[u], pane_id),
        decreases window.tabs@.len() - t,
    {
        if tab_shows_pane(&window.tabs[t], pane_id) {
            return Some(t);
        }
        t = t + 1;
    }
    None
}

impl WorkspaceSnapshot {
    /// Finds the window of `pane_id` (the first window and, in it, the first
    /// tab showing it) and whether its tab is the window's active tab.
    pub fn locate_pane(&self, pane_id: PaneId) -> (r: Option<PaneLocation>)
        ensures
            r == locate_spec(self.windows@, pane_id),
    {
        let mut w: usize = 0;
        while w < self.windows.len()
            invariant
                w <= self.windows@.len(),
                forall|v: int| 0 <= v < w ==> !window_shows(self.windows@[v], pane_id),
            decreases self.windows@.len() - w,
        {
            let window = &self.windows[w];
            match first_tab_showing(window, pane_id) {
                Some(t) => {
                    let loc = PaneLocation {
                        window_id: window.window_id,
                        in_active_tab: t == window.active_tab_index,
                    };
                    proof {
                        let ws = self.windows@;
                        assert(is_first_window(ws, pane_id, w as int));
                        let cw = choose|v: int| is_first_window(ws, pane_id, v);
                        lemma_first_window_unique(ws, pane_id, w as int, cw);
                        let ct = choose|u: int| is_first_tab(ws[w as int], pane_id, u);
                        lemma_first_tab_unique(ws[w as int], pane_id, t as int, ct);
                    }
                    return Some(loc);
                },
                None => {},
            }
            w = w + 1;
        }
        proof {
            if exists|v: int| is_first_window(self.windows@, pane_id, v) {
                let v = choose|v: int| is_first_window(self.windows@, pane_id, v);
                assert(!window_shows(self.windows@[v], pane_id));
            }
        }
        None
    }

    /// Resolves a terminal pane by its session UUID (hex) across all
    /// windows: the first pane, in window, tab and pane order, whose session
    /// UUID is the decoded bytes. `None` when the text does not decode.
    pub fn find_pane_by_session_uuid(&self, session_uuid: &str) -> (r: Option<PaneId>)
        requires
            chunks_read_whole(session_uuid.spec_bytes()),
        ensures
            r == session_pane_spec(self.windows@, session_uuid.spec_bytes()),
            hex_decode_spec(session_uuid.spec_bytes()) is None ==> r is None,
            hex_decode_spec(session_uuid.spec_bytes()) matches Some(uuid) ==> (r is None <==> forall|
                w: int,
                t: int,
                p: int,
            | !#[trigger] session_at(self.windows@, uuid, w, t, p)),
            hex_decode_spec(session_uuid.spec_bytes()) matches Some(uuid) ==> (r matches Some(pane)
                ==> exists|w: int, t: int, p: int|
                #![trigger is_first_session(self.windows@, uuid, w, t, p)]
                is_first_session(self.windows@, uuid, w, t, p)
                    && self.windows@[w].tabs@[t].panes@[p].pane_id == pane),
    {
        let uuid = match hex_decode(session_uuid) {
            Ok(bytes) => bytes,
            Err(()) => {
                return None;
            },
        };
        let ghost ws = self.windows@;
        let mut w: usize = 0;
        while w < self.windows.len()
            invariant
                ws == self.windows@,
                hex_decode_spec(session_uuid.spec_bytes()) == Some(uuid@),
                w <= ws.len(),
                forall|w2: int, t2: int, p2: int|
                    #![trigger session_at(ws, uuid@, w2, t2, p2)]
                    w2 < w ==> !session_at(ws, uuid@, w2, t2, p2),
            decreases ws.len() - w,
        {
            let window = &self.windows[w];
            let mut t: usize = 0;
            while t < window.tabs.len()
                invariant
                    ws == self.windows@,
                    hex_decode_spec(session_uuid.spec_bytes()) == Some(uuid@),
                    w < ws.len(),
                    *window == ws[w as int],
                    t <= window.tabs@.len(),
                    forall|w2: int, t2: int, p2: int|
                        #![trigger session_at(ws, uuid@, w2, t2, p2)]
                        (w2 < w || (w2 == w && t2 < t)) ==> !session_at(ws, uuid@, w2, t2, p2),
                decreases window.tabs@.len() - t,
            {
                let tab = &window.tabs[t];
                let mut p: usize = 0;
                while p < tab.panes.len()
                    invariant
                        ws == self.windows@,
                        hex_decode_spec(session_uuid.spec_bytes()) == Some(uuid@),
                        w < ws.len(),
                        *window == ws[w as int],
                        t < window.tabs@.len(),
                        *tab == window.tabs@[t as int],
                        p <= tab.panes@.len(),
                        forall|w2: int, t2: int, p2: int|
                            #![trigger session_at(ws, uuid@, w2, t2, p2)]
                            before(w2, t2, p2, w as int, t as int, p as int) ==> !session_at(
                                ws,
                                uuid@,
                                w2,
                                t2,
                                p2,
                            ),
                    decreases tab.panes@.len() - p,
                {
                    let pane = &tab.panes[p];
                    let matched = match &pane.session_uuid {
                        Some(s) => same_bytes(s, &uuid),
                        None => false,
                    };
                    if matched {
                        proof {
                            assert(session_at(ws, uuid@, w as int, t as int, p as int));
                            assert(is_first_session(ws, uuid@, w as int, t as int, p as int));
                            assert(self.windows@[w as int].tabs@[t as int].panes@[p as int].pane_id
                                == pane.pane_id);
                            assert(!(forall|w2: int, t2: int, p2: int|
                                !#[trigger] session_at(self.windows@, uuid@, w2, t2, p2)));
                            let u = hex_decode_spec(session_uuid.spec_bytes())->Some_0;
                            assert(u == uuid@);
                            assert(is_first_session(self.windows@, u, w as int, t as int, p as int));
                            let (cw, ct, cp) = choose|w2: int, t2: int, p2: int|
                                is_first_session(self.windows@, u, w2, t2, p2);
                            lemma_first_session_unique(
                                self.windows@,
                                u,
                                w as int,
                                t as int,
                                p as int,
                                cw,
                                ct,
                                cp,
                            );
                        }
                        return Some(pane.pane_id);
                    }
                    proof {
                        assert(!session_at(ws, uuid@, w as int, t as int, p as int));
                        assert forall|w2: int, t2: int, p2: int|
                            before(w2, t2, p2, w as int, t as int, p + 1) implies !session_at(
                                ws,
                                uuid@,
                                w2,
                                t2,
                                p2,
                            ) by {
                            if !(w2 == w && t2 == t && p2 == p) {
                                assert(before(w2, t2, p2, w as int, t as int, p as int));
                            }
                        }
                    }
                    p = p + 1;
                }
                proof {
                    assert forall|w2: int, t2: int, p2: int|
                        (w2 < w || (w2 == w && t2 < t + 1)) implies !session_at(ws, uuid@, w2, t2, p2) by {
                        if w2 == w && t2 == t {
                            if session_at(ws, uuid@, w2, t2, p2) {
                                assert(before(w2, t2, p2, w as int, t as int, p as int));
                            }
                        }
                    }
                }
                t = t + 1;
            }
            proof {
                assert forall|w2: int, t2: int, p2: int| w2 < w + 1 implies !session_at(ws, uuid@, w2, t2, p2) by {
                    if w2 == w && session_at(ws, uuid@, w2, t2, p2) {
                        assert(w2 == w && t2 < t);
                    }
                }
            }
            w = w + 1;
        }
        proof {
            assert forall|w2: int, t2: int, p2: int| !session_at(ws, uuid@, w2, t2, p2) by {
                if session_at(ws, uuid@, w2, t2, p2) {
                    assert(w2 < w);
                }
            }
        }
        None
    }
}

} // verus!
