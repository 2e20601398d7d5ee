//! The local-control vocabulary the browser actions speak: action kinds,
//! their parameters, errors, and target selectors.
use vstd::prelude::*;

verus! {

/// A control-plane action.
#[derive(PartialEq, Eq, Structural, Clone, Copy, Debug)]
pub enum ActionKind {
    BrowserAttach,
    BrowserNavigate,
    BrowserEval,
    BrowserScreenshot,
    BrowserInteractive,
    BrowserStatus,
    BrowserDetach,
    PaneGlassSet,
    BrowserMcpEnv,
    PaneList,
    PaneInspect,
}

/// The wire name of an action.
pub open spec fn action_name(kind: ActionKind) -> Seq<char> {
    match kind {
        ActionKind::BrowserAttach => "browser.attach"@,
        ActionKind::BrowserNavigate => "browser.navigate"@,
        ActionKind::BrowserEval => "browser.eval"@,
        ActionKind::BrowserScreenshot => "browser.screenshot"@,
        ActionKind::BrowserInteractive => "browser.interactive"@,
        ActionKind::BrowserStatus => "browser.status"@,
        ActionKind::BrowserDetach => "browser.detach"@,
        ActionKind::PaneGlassSet => "pane.glass.set"@,
        ActionKind::BrowserMcpEnv => "browser.mcp.env"@,
        ActionKind::PaneList => "pane.list"@,
        ActionKind::PaneInspect => "pane.inspect"@,
    }
}

impl ActionKind {
    /// The wire name of the action.
    pub fn as_str(&self) -> (r: &'static str)
        ensures
            r@ == action_name(*self),
    {
        match self {
            ActionKind::BrowserAttach => "browser.attach",
            ActionKind::BrowserNavigate => "browser.navigate",
            ActionKind::BrowserEval => "browser.eval",
            ActionKind::BrowserScreenshot => "browser.screenshot",
            ActionKind::BrowserInteractive => "browser.interactive",
            ActionKind::BrowserStatus => "browser.status",
            ActionKind::BrowserDetach => "browser.detach",
            ActionKind::PaneGlassSet => "pane.glass.set",
            ActionKind::BrowserMcpEnv => "browser.mcp.env",
            ActionKind::PaneList => "pane.list",
            ActionKind::PaneInspect => "pane.inspect",
        }
    }
}

/// Why a control-plane action failed.
#[derive(PartialEq, Eq, Structural, Clone, Copy, Debug)]
pub enum ErrorCode {
    UnsupportedAction,
    TargetStateConflict,
    InvalidParams,
    MissingTarget,
    StaleTarget,
    Internal,
}

/// A failed control-plane action.
#[derive(Debug)]
pub struct ControlError {
    pub code: ErrorCode,
    pub message: String,
}

impl ControlError {
    pub fn new(code: ErrorCode, message: String) -> (e: Self)
        ensures
            e.code == code,
            e.message == message,
    {
        ControlError { code, message }
    }
}

/// `browser.attach` parameters.
#[derive(Debug)]
pub struct BrowserAttachParams {
    pub url: String,
    pub glass: bool,
    pub glass_opacity: Option<u8>,
    pub ambience: bool,
    pub pane_session_uuid: Option<String>,
}

/// `browser.navigate` parameters.
#[derive(Debug)]
pub struct UrlParams {
    pub url: String,
    pub ambience: bool,
    pub pane_session_uuid: Option<String>,
}

/// `browser.eval` parameters.
#[derive(Debug)]
pub struct JavascriptParams {
    pub javascript: String,
    pub ambience: bool,
    pub pane_session_uuid: Option<String>,
}

/// Parameters of the actions that only name their target.
#[derive(Debug)]
pub struct BrowserTargetParams {
    pub ambience: bool,
    pub pane_session_uuid: Option<String>,
}

/// `browser.interactive` parameters.
#[derive(Debug)]
pub struct BrowserInteractiveParams {
    pub value: bool,
    pub ambience: bool,
    pub pane_session_uuid: Option<String>,
}

/// `pane.glass.set` parameters: always a pane, never the ambience.
#[derive(Debug)]
pub struct PaneGlassParams {
    pub enabled: bool,
    pub opacity: Option<u8>,
    pub pane_session_uuid: Option<String>,
}

/// The parameters of one action.
#[derive(Debug)]
pub enum ActionParams {
    Attach(BrowserAttachParams),
    Url(UrlParams),
    Javascript(JavascriptParams),
    Target(BrowserTargetParams),
    Interactive(BrowserInteractiveParams),
    PaneGlass(PaneGlassParams),
}

/// The `ambience` routing flag of the parameters, if they have one.
pub open spec fn ambience_flag(params: ActionParams) -> Option<bool> {
    match params {
        ActionParams::Attach(p) => Some(p.ambience),
        ActionParams::Url(p) => Some(p.ambience),
        ActionParams::Javascript(p) => Some(p.ambience),
        ActionParams::Target(p) => Some(p.ambience),
        ActionParams::Interactive(p) => Some(p.ambience),
        ActionParams::PaneGlass(_) => None,
    }
}

/// The pane binding of the parameters.
pub open spec fn pane_binding(params: ActionParams) -> Option<String> {
    match params {
        ActionParams::Attach(p) => p.pane_session_uuid,
        ActionParams::Url(p) => p.pane_session_uuid,
        ActionParams::Javascript(p) => p.pane_session_uuid,
        ActionParams::Target(p) => p.pane_session_uuid,
        ActionParams::Interactive(p) => p.pane_session_uuid,
        ActionParams::PaneGlass(p) => p.pane_session_uuid,
    }
}

impl ActionParams {
    /// The `ambience` routing flag, if these parameters have one.
    pub fn ambience(&self) -> (r: Option<bool>)
        ensures
            r == ambience_flag(*self),
    {
        match self {
            ActionParams::Attach(p) => Some(p.ambience),
            ActionParams::Url(p) => Some(p.ambience),
            ActionParams::Javascript(p) => Some(p.ambience),
            ActionParams::Target(p) => Some(p.ambience),
            ActionParams::Interactive(p) => Some(p.ambience),
            ActionParams::PaneGlass(_) => None,
        }
    }

    /// The pane these parameters are bound to.
    pub fn pane_session_uuid(&self) -> (r: Option<&String>)
        ensures
            match r {
                Some(s) => pane_binding(*self) == Some(*s),
                None => pane_binding(*self) is None,
            },
    {
        match self {
            ActionParams::Attach(p) => p.pane_session_uuid.as_ref(),
            ActionParams::Url(p) => p.pane_session_uuid.as_ref(),
            ActionParams::Javascript(p) => p.pane_session_uuid.as_ref(),
            ActionParams::Target(p) => p.pane_session_uuid.as_ref(),
            ActionParams::Interactive(p) => p.pane_session_uuid.as_ref(),
            ActionParams::PaneGlass(p) => p.pane_session_uuid.as_ref(),
        }
    }
}

/// A window id as the control plane spells it.
#[derive(PartialEq, Eq, Debug)]
pub struct WindowSelector(pub String);

/// A tab id as the control plane spells it.
#[derive(PartialEq, Eq, Debug)]
pub struct TabSelector(pub String);

/// A pane id as the control plane spells it.
#[derive(PartialEq, Eq, Debug)]
pub struct PaneSelector(pub String);

#[derive(PartialEq, Eq, Debug)]
pub enum WindowTarget {
    Id { id: WindowSelector },
}

#[derive(PartialEq, Eq, Debug)]
pub enum TabTarget {
    Id { id: TabSelector },
}

#[derive(PartialEq, Eq, Debug)]
pub enum PaneTarget {
    Id { id: PaneSelector },
}

/// Which window, tab, pane and session a request targets; unset parts fall
/// back to the active one.
#[derive(PartialEq, Eq, Debug)]
pub struct TargetSelector {
    pub window: Option<WindowTarget>,
    pub tab: Option<TabTarget>,
    pub pane: Option<PaneTarget>,
    pub session: Option<String>,
}

} // verus!
