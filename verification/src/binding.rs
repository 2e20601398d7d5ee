//! Binding an MCP server to the pane it serves: finding the pane's row in a
//! pane listing by session UUID, the selectors that target it, and the
//! control requests a pane-bound stdio server sends.
use vstd::prelude::*;
use vstd::string::{StringExecFns, StringSliceAdditionalSpecFns};

use crate::json::{get_spec, str_member, Json};
use crate::mcp::ToolContent;
use crate::protocol::{
    ActionKind, ActionParams, BrowserAttachParams, BrowserInteractiveParams, BrowserTargetParams,
    ControlError, ErrorCode, JavascriptParams, PaneGlassParams, PaneSelector, PaneTarget,
    TabSelector, TabTarget, TargetSelector, UrlParams, WindowSelector, WindowTarget,
};

verus! {

/// The pane (and its window and tab) a tool call operates on.
#[derive(Debug)]
pub struct PaneBinding {
    pub window_id: String,
    pub tab_id: String,
    pub pane_id: String,
}

/// `r` selects the binding's window only.
pub open spec fn selects_window(r: TargetSelector, binding: PaneBinding) -> bool {
    &&& r.window matches Some(WindowTarget::Id { id: WindowSelector(w) }) && w@ == binding.window_id@
    &&& r.tab is None
    &&& r.pane is None
    &&& r.session is None
}

/// `r` selects the binding's exact pane, in its window and tab.
pub open spec fn selects_pane(r: TargetSelector, binding: PaneBinding) -> bool {
    &&& r.window matches Some(WindowTarget::Id { id: WindowSelector(w) }) && w@ == binding.window_id@
    &&& r.tab matches Some(TabTarget::Id { id: TabSelector(t) }) && t@ == binding.tab_id@
    &&& r.pane matches Some(PaneTarget::Id { id: PaneSelector(p) }) && p@ == binding.pane_id@
    &&& r.session is None
}

/// Selects the binding's window only (underlay operations).
pub fn window_target(binding: &PaneBinding) -> (r: TargetSelector)
    ensures
        selects_window(r, *binding),
{
    TargetSelector {
        window: Some(WindowTarget::Id { id: WindowSelector(binding.window_id.clone()) }),
        tab: None,
        pane: None,
        session: None,
    }
}

/// Selects the binding's exact pane (glass operations, attach).
pub fn pane_target(binding: &PaneBinding) -> (r: TargetSelector)
    ensures
        selects_pane(r, *binding),
{
    TargetSelector {
        window: Some(WindowTarget::Id { id: WindowSelector(binding.window_id.clone()) }),
        tab: Some(TabTarget::Id { id: TabSelector(binding.tab_id.clone()) }),
        pane: Some(PaneTarget::Id { id: PaneSelector(binding.pane_id.clone()) }),
        session: None,
    }
}

/// The text of `row[key]`.
pub fn row_str(row: &Json, key: &str) -> (r: Option<String>)
    ensures
        match r {
            Some(s) => str_member(*row, key@) == Some(s@),
            None => str_member(*row, key@) is None,
        },
{
    match row.str_member(key) {
        Some(s) => Some(s.clone()),
        None => None,
    }
}

/// `r` is the binding read from the pane-listing row `row`: its window,
/// tab and pane ids, or an internal error when any of them is missing.
pub open spec fn row_binding(row: Json, r: Result<PaneBinding, ControlError>) -> bool {
    match (str_member(row, "window_id"@), str_member(row, "tab_id"@), str_member(row, "pane_id"@)) {
        (Some(w), Some(t), Some(p)) => (r matches Ok(b) && b.window_id@ == w && b.tab_id@ == t
            && b.pane_id@ == p),
        _ => (r matches Err(e) && e.code == ErrorCode::Internal && e.message@
            == "pane metadata row is missing window/tab/pane ids"@),
    }
}

/// Reads a binding from a pane-listing row; an internal error when it lacks
/// any of the window, tab and pane ids.
pub fn binding_from_row(row: &Json) -> (r: Result<PaneBinding, ControlError>)
    ensures
        row_binding(*row, r),
{
    match (row_str(row, "window_id"), row_str(row, "tab_id"), row_str(row, "pane_id")) {
        (Some(window_id), Some(tab_id), Some(pane_id)) => Ok(PaneBinding { window_id, tab_id, pane_id }),
        _ => Err(
            ControlError::new(
                ErrorCode::Internal,
                "pane metadata row is missing window/tab/pane ids".to_owned(),
            ),
        ),
    }
}

/// An ASCII letter folded to lower case.
pub open spec fn ascii_lower(c: u8) -> u8 {
    if 65 <= c <= 90 {
        (c + 32) as u8
    } else {
        c
    }
}

/// The texts are equal up to ASCII letter case.
pub open spec fn same_ignoring_ascii_case(a: Seq<u8>, b: Seq<u8>) -> bool {
    a.len() == b.len() && forall|i: int| 0 <= i < a.len() ==> ascii_lower(a[i]) == ascii_lower(b[i])
}

fn lower(c: u8) -> (r: u8)
    ensures
        r == ascii_lower(c),
{
    if 65 <= c && c <= 90 {
        c + 32
    } else {
        c
    }
}

/// Whether the texts are equal up to ASCII letter case.
pub fn eq_ignore_ascii_case(a: &str, b: &str) -> (r: bool)
    ensures
        r == same_ignoring_ascii_case(a.spec_bytes(), b.spec_bytes()),
{
    let x = a.as_bytes();
    let y = b.as_bytes();
    if x.len() != y.len() {
        return false;
    }
    let mut i: usize = 0;
    while i < x.len()
        invariant
            x@ == a.spec_bytes(),
            y@ == b.spec_bytes(),
            x@.len() == y@.len(),
            i <= x@.len(),
            forall|j: int| 0 <= j < i ==> ascii_lower(x@[j]) == ascii_lower(y@[j]),
        decreases x@.len() - i,
    {
        if lower(x[i]) != lower(y[i]) {
            return false;
        }
        i = i + 1;
    }
    true
}

/// The row's `session_uuid` matches `session_uuid` up to ASCII case.
pub open spec fn row_matches(row: Json, session_uuid: &str) -> bool {
    match row {
        Json::Object(_) => match crate::json::get_spec(row, "session_uuid"@) {
            Some(Json::String(s)) => same_ignoring_ascii_case(vstd::utf8::encode_utf8(s@), session_uuid.spec_bytes()),
            _ => false,
        },
        _ => false,
    }
}

/// Finds the first pane-listing row whose session UUID matches
/// `session_uuid` (hex compared case-insensitively). Rows of panes without a
/// terminal session (a null UUID) never match.
pub fn find_pane_row_by_session_uuid<'a>(rows: &'a Vec<Json>, session_uuid: &str) -> (r: Option<&'a Json>)
    ensures
        match r {
            Some(row) => exists|i: int|
                0 <= i < rows@.len() && rows@[i] == *row && row_matches(rows@[i], session_uuid) && forall|
                    j: int,
                | 0 <= j < i ==> !row_matches(rows@[j], session_uuid),
            None => forall|j: int| 0 <= j < rows@.len() ==> !row_matches(rows@[j], session_uuid),
        },
{
    let mut i: usize = 0;
    while i < rows.len()
        invariant
            i <= rows@.len(),
            forall|j: int| 0 <= j < i ==> !row_matches(rows@[j], session_uuid),
        decreases rows@.len() - i,
    {
        let row = &rows[i];
        let matched = match row {
            Json::Object(_) => match row.get("session_uuid") {
                Some(Json::String(s)) => eq_ignore_ascii_case(s.as_str(), session_uuid),
                _ => false,
            },
            _ => false,
        };
        if matched {
            return Some(row);
        }
        i = i + 1;
    }
    None
}

/// The session UUID a tool call binds to: the explicit per-call UUID when
/// non-empty, else the server's bound UUID when non-empty; none means the
/// active pane.
pub fn binding_session_uuid(explicit: Option<String>, bound: Option<String>) -> (r: Option<String>)
    ensures
        match explicit {
            Some(e) if e@.len() > 0 => r == Some(e),
            _ => match bound {
                Some(b) if b@.len() > 0 => r == Some(b),
                _ => r is None,
            },
        },
{
    if let Some(e) = explicit {
        if !e.as_str().is_empty() {
            return Some(e);
        }
    }
    match bound {
        Some(b) => if b.as_str().is_empty() {
            None
        } else {
            Some(b)
        },
        None => None,
    }
}

/// The rows of a `pane.list` reply: its `panes` array, or none.
pub open spec fn pane_rows(data: Json) -> Seq<Json> {
    match get_spec(data, "panes"@) {
        Some(Json::Array(rows)) => rows@,
        _ => Seq::empty(),
    }
}

/// Binds to the pane whose session UUID is `session_uuid` in a `pane.list`
/// reply: the first matching row's ids, or a stale-target error when no row
/// matches.
pub fn binding_from_pane_list(data: &Json, session_uuid: &str) -> (r: Result<PaneBinding, ControlError>)
    ensures
        (forall|j: int| 0 <= j < pane_rows(*data).len() ==> !row_matches(pane_rows(*data)[j], session_uuid))
            ==> (r matches Err(e) && e.code == ErrorCode::StaleTarget && e.message@
            == "no pane with terminal session uuid "@ + session_uuid@),
        (exists|i: int| 0 <= i < pane_rows(*data).len() && row_matches(pane_rows(*data)[i], session_uuid))
            ==> exists|i: int|
            0 <= i < pane_rows(*data).len() && row_matches(pane_rows(*data)[i], session_uuid) && (forall|
                j: int,
            | 0 <= j < i ==> !row_matches(pane_rows(*data)[j], session_uuid)) && row_binding(
                pane_rows(*data)[i],
                r,
            ),
{
    let empty: Vec<Json> = Vec::new();
    let rows = match data.get("panes") {
        Some(Json::Array(rows)) => rows,
        _ => &empty,
    };
    proof {
        assert(rows@ == pane_rows(*data));
    }
    match find_pane_row_by_session_uuid(rows, session_uuid) {
        Some(row) => binding_from_row(row),
        None => {
            let mut message = "no pane with terminal session uuid ".to_owned();
            message.append(session_uuid);
            Err(ControlError::new(ErrorCode::StaleTarget, message))
        },
    }
}

/// Binds to the active pane from a `pane.inspect` reply: its `pane` row's
/// ids, or a missing-target error when the reply names no pane.
pub fn binding_from_pane_inspect(data: &Json) -> (r: Result<PaneBinding, ControlError>)
    ensures
        match get_spec(*data, "pane"@) {
            Some(row) => row_binding(row, r),
            None => (r matches Err(e) && e.code == ErrorCode::MissingTarget && e.message@
                == "could not resolve an active pane to bind to"@),
        },
{
    match data.get("pane") {
        Some(row) => binding_from_row(row),
        None => Err(
            ControlError::new(
                ErrorCode::MissingTarget,
                "could not resolve an active pane to bind to".to_owned(),
            ),
        ),
    }
}

/// A tool call of the stdio server bound to one pane.
#[derive(Debug)]
pub enum StdioToolCall {
    Attach { url: String, glass: Option<bool>, glass_opacity: Option<u8> },
    Navigate { url: String },
    Eval { javascript: String },
    Screenshot,
    /// `pane` names another pane's session UUID to change.
    SetGlass { enabled: bool, opacity: Option<u8>, pane: Option<String> },
    SetInteractive { enabled: bool },
    Status,
    Detach,
}

impl StdioToolCall {
    /// The session UUID the call names explicitly, which takes precedence
    /// over the server's bound one: only a glass change names one.
    pub fn explicit_pane(&self) -> (r: Option<String>)
        ensures
            match *self {
                StdioToolCall::SetGlass { pane, .. } => r == pane,
                _ => r is None,
            },
    {
        match self {
            StdioToolCall::SetGlass { pane, .. } => pane.clone(),
            _ => None,
        }
    }
}

/// The control request a stdio tool call sends for its resolved `binding`:
/// the action, its parameters (the ambience route off, no session binding,
/// glass on unless asked otherwise) and the selector, which is the exact
/// pane for attaching and glass and the pane's window otherwise.
pub fn stdio_request(call: StdioToolCall, binding: &PaneBinding) -> (r: (ActionKind, ActionParams, TargetSelector))
    ensures
        match call {
            StdioToolCall::Attach { url, glass, glass_opacity } => r.0 == ActionKind::BrowserAttach
                && (r.1 matches ActionParams::Attach(p) && p.url == url && p.glass == (match glass {
                Some(g) => g,
                None => true,
            }) && p.glass_opacity == glass_opacity && !p.ambience && p.pane_session_uuid is None)
                && selects_pane(r.2, *binding),
            StdioToolCall::Navigate { url } => r.0 == ActionKind::BrowserNavigate && (r.1 matches ActionParams::Url(
                p,
            ) && p.url == url && !p.ambience && p.pane_session_uuid is None) && selects_window(
                r.2,
                *binding,
            ),
            StdioToolCall::Eval { javascript } => r.0 == ActionKind::BrowserEval && (r.1 matches ActionParams::Javascript(
                p,
            ) && p.javascript == javascript && !p.ambience && p.pane_session_uuid is None)
                && selects_window(r.2, *binding),
            StdioToolCall::SetGlass { enabled, opacity, .. } => r.0 == ActionKind::PaneGlassSet && (r.1 matches ActionParams::PaneGlass(
                p,
            ) && p.enabled == enabled && p.opacity == opacity && p.pane_session_uuid is None)
                && selects_pane(r.2, *binding),
            StdioToolCall::SetInteractive { enabled } => r.0 == ActionKind::BrowserInteractive && (r.1 matches ActionParams::Interactive(
                p,
            ) && p.value == enabled && !p.ambience && p.pane_session_uuid is None) && selects_window(
                r.2,
                *binding,
            ),
            StdioToolCall::Screenshot => r.0 == ActionKind::BrowserScreenshot && (r.1 matches ActionParams::Target(
                p,
            ) && !p.ambience && p.pane_session_uuid is None) && selects_window(r.2, *binding),
            StdioToolCall::Status => r.0 == ActionKind::BrowserStatus && (r.1 matches ActionParams::Target(
                p,
            ) && !p.ambience && p.pane_session_uuid is None) && selects_window(r.2, *binding),
            StdioToolCall::Detach => r.0 == ActionKind::BrowserDetach && (r.1 matches ActionParams::Target(
                p,
            ) && !p.ambience && p.pane_session_uuid is None) && selects_window(r.2, *binding),
        },
{
    let target_only = BrowserTargetParams { ambience: false, pane_session_uuid: None };
    match call {
        StdioToolCall::Attach { url, glass, glass_opacity } => {
            let glass = match glass {
                Some(g) => g,
                None => true,
            };
            (
                ActionKind::BrowserAttach,
                ActionParams::Attach(
                    BrowserAttachParams {
                        url,
                        glass,
                        glass_opacity,
                        ambience: false,
                        pane_session_uuid: None,
                    },
                ),
                pane_target(binding),
            )
        },
        StdioToolCall::Navigate { url } => (
            ActionKind::BrowserNavigate,
            ActionParams::Url(UrlParams { url, ambience: false, pane_session_uuid: None }),
            window_target(binding),
        ),
        StdioToolCall::Eval { javascript } => (
            ActionKind::BrowserEval,
            ActionParams::Javascript(
                JavascriptParams { javascript, ambience: false, pane_session_uuid: None },
            ),
            window_target(binding),
        ),
        StdioToolCall::SetGlass { enabled, opacity, .. } => (
            ActionKind::PaneGlassSet,
            ActionParams::PaneGlass(PaneGlassParams { enabled, opacity, pane_session_uuid: None }),
            pane_target(binding),
        ),
        StdioToolCall::SetInteractive { enabled } => (
            ActionKind::BrowserInteractive,
            ActionParams::Interactive(
                BrowserInteractiveParams { value: enabled, ambience: false, pane_session_uuid: None },
            ),
            window_target(binding),
        ),
        StdioToolCall::Screenshot => (
            ActionKind::BrowserScreenshot,
            ActionParams::Target(target_only),
            window_target(binding),
        ),
        StdioToolCall::Status => (
            ActionKind::BrowserStatus,
            ActionParams::Target(target_only),
            window_target(binding),
        ),
        StdioToolCall::Detach => (
            ActionKind::BrowserDetach,
            ActionParams::Target(target_only),
            window_target(binding),
        ),
    }
}

/// The message of a screenshot reply without PNG data.
pub open spec fn missing_png_message() -> Seq<char> {
    "browser.screenshot response is missing PNG data"@
}

/// The content a stdio tool call answers with for the control plane's reply
/// `data` to `action`: an evaluation its `result` text (empty when absent),
/// a screenshot its PNG as an image (an error when the reply carries none),
/// anything else the reply as indented JSON.
pub fn stdio_tool_content(action: ActionKind, data: Json) -> (r: Result<ToolContent, String>)
    ensures
        action == ActionKind::BrowserEval ==> (r matches Ok(ToolContent::Text { text }) && text@ == (
        match str_member(data, "result"@) {
            Some(t) => t,
            None => Seq::empty(),
        })),
        action == ActionKind::BrowserScreenshot ==> match str_member(data, "data_base64"@) {
            Some(png) => (r matches Ok(ToolContent::Image { data: d, mime_type: m }) && d@ == png && m@
                == "image/png"@),
            None => (r matches Err(e) && e@ == missing_png_message()),
        },
        action != ActionKind::BrowserEval && action != ActionKind::BrowserScreenshot ==> r == Ok::<
            ToolContent,
            String,
        >(ToolContent::Structured { value: data, pretty: true }),
{
    match action {
        ActionKind::BrowserEval => {
            let text = match row_str(&data, "result") {
                Some(t) => t,
                None => String::new(),
            };
            Ok(ToolContent::Text { text })
        },
        ActionKind::BrowserScreenshot => match row_str(&data, "data_base64") {
            Some(png) => Ok(ToolContent::Image { data: png, mime_type: "image/png".to_owned() }),
            None => Err("browser.screenshot response is missing PNG data".to_owned()),
        },
        _ => Ok(ToolContent::Structured { value: data, pretty: true }),
    }
}

} // verus!
