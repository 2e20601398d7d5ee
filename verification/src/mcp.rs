//! The agent-facing MCP endpoint: stateless JSON-RPC over one POST route,
//! mapping tool calls onto pane-scoped control-plane actions.
//!
//! Binding is explicit: every tool call names its pane (the `pane`
//! argument, else the client-configured pane header). There is no
//! active-pane fallback and no route to the user's ambience underlay.
use vstd::prelude::*;
use vstd::string::StringExecFns;

use crate::json::{
    bool_member, get_spec, str_member, text_is, u64_member, Json, JsonNumber,
};
use crate::protocol::{
    ActionKind, ActionParams, BrowserAttachParams, BrowserInteractiveParams, BrowserTargetParams,
    JavascriptParams, PaneGlassParams, UrlParams,
};

verus! {

/// JSON-RPC: the body is not JSON.
pub const PARSE_ERROR: i64 = -32700;

/// JSON-RPC: unknown method.
pub const METHOD_NOT_FOUND: i64 = -32601;

/// JSON-RPC: bad parameters.
pub const INVALID_PARAMS: i64 = -32602;

/// JSON-RPC: the server failed.
pub const INTERNAL_ERROR: i64 = -32603;

/// The message of a tool call with a missing required argument.
pub open spec fn missing_argument(key: Seq<char>) -> Seq<char> {
    "missing required argument `"@ + key + "`"@
}

/// An opacity argument clamped to 0-100.
pub open spec fn opacity_arg(v: u64) -> u8 {
    if v > 100 {
        100
    } else {
        v as u8
    }
}

/// The optional opacity argument `key` of `args`, clamped.
pub open spec fn opacity_member(args: Json, key: Seq<char>) -> Option<u8> {
    match u64_member(args, key) {
        Some(v) => Some(opacity_arg(v)),
        None => None,
    }
}

/// The parameters are bound to exactly `pane`.
pub open spec fn bound_to(binding: Option<String>, pane: Seq<char>) -> bool {
    binding matches Some(s) && s@ == pane
}

/// What mapping the tool call `tool(args)` for `pane` yields: the action and
/// its parameters, with the ambience route always off and the pane binding
/// carried through, or the error message.
pub open spec fn build_action_result(
    tool: Seq<char>,
    args: Json,
    pane: Seq<char>,
    r: Result<(ActionKind, ActionParams), String>,
) -> bool {
    if tool == "browser_attach"@ {
        match str_member(args, "url"@) {
            None => (r matches Err(e) && e@ == missing_argument("url"@)),
            Some(url) => (r matches Ok((k, ActionParams::Attach(p))) && k == ActionKind::BrowserAttach
                && p.url@ == url && p.glass == (match bool_member(args, "glass"@) {
                Some(b) => b,
                None => true,
            }) && p.glass_opacity == opacity_member(args, "glass_opacity"@) && !p.ambience
                && bound_to(p.pane_session_uuid, pane)),
        }
    } else if tool == "browser_navigate"@ {
        match str_member(args, "url"@) {
            None => (r matches Err(e) && e@ == missing_argument("url"@)),
            Some(url) => (r matches Ok((k, ActionParams::Url(p))) && k == ActionKind::BrowserNavigate
                && p.url@ == url && !p.ambience && bound_to(p.pane_session_uuid, pane)),
        }
    } else if tool == "browser_eval"@ {
        match str_member(args, "javascript"@) {
            None => (r matches Err(e) && e@ == missing_argument("javascript"@)),
            Some(js) => (r matches Ok((k, ActionParams::Javascript(p))) && k == ActionKind::BrowserEval
                && p.javascript@ == js && !p.ambience && bound_to(p.pane_session_uuid, pane)),
        }
    } else if tool == "browser_screenshot"@ || tool == "browser_status"@ || tool
        == "browser_detach"@ {
        r matches Ok((k, ActionParams::Target(p))) && k == (if tool == "browser_screenshot"@ {
            ActionKind::BrowserScreenshot
        } else if tool == "browser_status"@ {
            ActionKind::BrowserStatus
        } else {
            ActionKind::BrowserDetach
        }) && !p.ambience && bound_to(p.pane_session_uuid, pane)
    } else if tool == "browser_set_interactive"@ {
        match bool_member(args, "enabled"@) {
            None => (r matches Err(e) && e@ == missing_argument("enabled"@)),
            Some(v) => (r matches Ok((k, ActionParams::Interactive(p))) && k
                == ActionKind::BrowserInteractive && p.value == v && !p.ambience && bound_to(
                p.pane_session_uuid,
                pane,
            )),
        }
    } else if tool == "browser_set_glass"@ {
        match bool_member(args, "enabled"@) {
            None => (r matches Err(e) && e@ == missing_argument("enabled"@)),
            Some(v) => (r matches Ok((k, ActionParams::PaneGlass(p))) && k == ActionKind::PaneGlassSet
                && p.enabled == v && p.opacity == opacity_member(args, "opacity"@) && bound_to(
                p.pane_session_uuid,
                pane,
            )),
        }
    } else {
        r matches Err(e) && e@ == "unknown tool: "@ + tool
    }
}

fn missing(key: &str) -> (r: String)
    ensures
        r@ == missing_argument(key@),
{
    let mut r = "missing required argument `".to_owned();
    r.append(key);
    r.append("`");
    r
}

fn opacity(args: &Json, key: &str) -> (r: Option<u8>)
    ensures
        r == opacity_member(*args, key@),
{
    match args.u64_member(key) {
        Some(v) => {
            if v > 100 {
                Some(100)
            } else {
                Some(v as u8)
            }
        },
        None => None,
    }
}

fn required_text(args: &Json, key: &str) -> (r: Result<String, String>)
    ensures
        match str_member(*args, key@) {
            Some(t) => (r matches Ok(s) && s@ == t),
            None => (r matches Err(e) && e@ == missing_argument(key@)),
        },
{
    match args.str_member(key) {
        Some(s) => Ok(s.clone()),
        None => Err(missing(key)),
    }
}

/// Maps a tool call onto the corresponding control-plane action. The
/// ambience route is always off: agents cannot reach the user's ambience
/// underlay. Every action is bound to `pane`.
pub fn build_action(tool: &str, args: &Json, pane: &str) -> (r: Result<(ActionKind, ActionParams), String>)
    ensures
        build_action_result(tool@, *args, pane@, r),
{
    let binding = Some(pane.to_owned());
    if text_is(tool, "browser_attach") {
        let url = required_text(args, "url")?;
        let glass = match args.bool_member("glass") {
            Some(b) => b,
            None => true,
        };
        Ok(
            (
                ActionKind::BrowserAttach,
                ActionParams::Attach(
                    BrowserAttachParams {
                        url,
                        glass,
                        glass_opacity: opacity(args, "glass_opacity"),
                        ambience: false,
                        pane_session_uuid: binding,
                    },
                ),
            ),
        )
    } else if text_is(tool, "browser_navigate") {
        let url = required_text(args, "url")?;
        Ok(
            (
                ActionKind::BrowserNavigate,
                ActionParams::Url(UrlParams { url, ambience: false, pane_session_uuid: binding }),
            ),
        )
    } else if text_is(tool, "browser_eval") {
        let javascript = required_text(args, "javascript")?;
        Ok(
            (
                ActionKind::BrowserEval,
                ActionParams::Javascript(
                    JavascriptParams { javascript, ambience: false, pane_session_uuid: binding },
                ),
            ),
        )
    } else if text_is(tool, "browser_screenshot") || text_is(tool, "browser_status") || text_is(
        tool,
        "browser_detach",
    ) {
        let kind = if text_is(tool, "browser_screenshot") {
            ActionKind::BrowserScreenshot
        } else if text_is(tool, "browser_status") {
            ActionKind::BrowserStatus
        } else {
            ActionKind::BrowserDetach
        };
        Ok(
            (
                kind,
                ActionParams::Target(
                    BrowserTargetParams { ambience: false, pane_session_uuid: binding },
                ),
            ),
        )
    } else if text_is(tool, "browser_set_interactive") {
        let value = match args.bool_member("enabled") {
            Some(v) => v,
            None => {
                return Err(missing("enabled"));
            },
        };
        Ok(
            (
                ActionKind::BrowserInteractive,
                ActionParams::Interactive(
                    BrowserInteractiveParams { value, ambience: false, pane_session_uuid: binding },
                ),
            ),
        )
    } else if text_is(tool, "browser_set_glass") {
        let enabled = match args.bool_member("enabled") {
            Some(v) => v,
            None => {
                return Err(missing("enabled"));
            },
        };
        Ok(
            (
                ActionKind::PaneGlassSet,
                ActionParams::PaneGlass(
                    PaneGlassParams {
                        enabled,
                        opacity: opacity(args, "opacity"),
                        pane_session_uuid: binding,
                    },
                ),
            ),
        )
    } else {
        let mut e = "unknown tool: ".to_owned();
        e.append(tool);
        Err(e)
    }
}

/// One item of a tool result.
#[derive(PartialEq, Eq, Debug)]
pub enum ToolContent {
    /// An image, base64-encoded.
    Image { data: String, mime_type: String },
    /// Plain text.
    Text { text: String },
    /// A JSON value rendered as text (indented when `pretty`).
    Structured { value: Json, pretty: bool },
}

/// The result of a tool call; `is_error` flags a failure the model should
/// see.
#[derive(PartialEq, Eq, Debug)]
pub struct ToolResult {
    pub content: Vec<ToolContent>,
    pub is_error: bool,
}

/// The note appended to a screenshot taken while the agent's tab is hidden.
pub open spec fn stale_capture_note() -> Seq<char> {
    "note: the agent's tab is not currently visible; the capture may be stale (WebKit throttles hidden webviews)"@
}

/// The content a successful tool call returns for the control-plane payload
/// `data`: a screenshot becomes an image (with a staleness note when the
/// agent's tab is hidden), an evaluation its result (text as is, any other
/// value as compact JSON), anything else the payload as indented JSON.
pub open spec fn success_content(tool: Seq<char>, data: Json, content: Seq<ToolContent>) -> bool {
    if tool == "browser_screenshot"@ && str_member(data, "data_base64"@) is Some {
        let png = str_member(data, "data_base64"@)->Some_0;
        &&& content.len() == (if get_spec(data, "tab_visible"@) == Some(Json::Bool(false)) {
            2int
        } else {
            1int
        })
        &&& content[0] matches ToolContent::Image { data: d, mime_type: m } && d@ == png && m@
            == "image/png"@
        &&& content.len() == 2 ==> (content[1] matches ToolContent::Text { text } && text@
            == stale_capture_note())
    } else if tool == "browser_eval"@ {
        &&& content.len() == 1
        &&& match get_spec(data, "result"@) {
            Some(Json::String(t)) => (content[0] matches ToolContent::Text { text } && text@ == t@),
            Some(v) => content[0] == (ToolContent::Structured { value: v, pretty: false }),
            None => content[0] == (ToolContent::Structured { value: data, pretty: false }),
        }
    } else {
        content == seq![ToolContent::Structured { value: data, pretty: true }]
    }
}

/// Converts a control-plane success payload into tool-result content.
pub fn tool_success_content(tool: &str, data: Json) -> (r: ToolResult)
    ensures
        !r.is_error,
        success_content(tool@, data, r.content@),
{
    if text_is(tool, "browser_screenshot") {
        let png = match data.str_member("data_base64") {
            Some(png) => Some(png.clone()),
            None => None,
        };
        if let Some(png) = png {
            let mut content: Vec<ToolContent> = Vec::new();
            content.push(ToolContent::Image { data: png, mime_type: "image/png".to_owned() });
            let hidden = match data.get("tab_visible") {
                Some(Json::Bool(visible)) => !*visible,
                _ => false,
            };
            if hidden {
                content.push(
                    ToolContent::Text {
                        text: "note: the agent's tab is not currently visible; the capture may \
                               be stale (WebKit throttles hidden webviews)".to_owned(),
                    },
                );
            }
            return ToolResult { content, is_error: false };
        }
    }
    if text_is(tool, "browser_eval") {
        let item = if data.get("result").is_some() {
            match data.into_member("result") {
                Some(Json::String(text)) => ToolContent::Text { text },
                Some(value) => ToolContent::Structured { value, pretty: false },
                // Present: tested just above.
                None => ToolContent::Text { text: String::new() },
            }
        } else {
            ToolContent::Structured { value: data, pretty: false }
        };
        let mut content: Vec<ToolContent> = Vec::new();
        content.push(item);
        return ToolResult { content, is_error: false };
    }
    let mut content: Vec<ToolContent> = Vec::new();
    content.push(ToolContent::Structured { value: data, pretty: true });
    proof {
        assert(content@ =~= seq![ToolContent::Structured { value: data, pretty: true }]);
    }
    ToolResult { content, is_error: false }
}

/// A tool-level failure: a successful response flagged as an error, so the
/// model sees the message.
pub fn tool_error(message: String) -> (r: ToolResult)
    ensures
        r.is_error,
        r.content@.len() == 1,
        r.content@[0] == (ToolContent::Text { text: message }),
{
    let mut content: Vec<ToolContent> = Vec::new();
    content.push(ToolContent::Text { text: message });
    ToolResult { content, is_error: true }
}

/// The names of the agent browser tools, in catalog order.
pub open spec fn tool_names() -> Seq<Seq<char>> {
    seq![
        "browser_attach"@,
        "browser_navigate"@,
        "browser_eval"@,
        "browser_screenshot"@,
        "browser_set_glass"@,
        "browser_set_interactive"@,
        "browser_status"@,
        "browser_detach"@,
    ]
}

/// The routing-header annotation of a tool definition's `pane` parameter.
pub open spec fn pane_header(def: Json) -> Option<Seq<char>> {
    match get_spec(def, "inputSchema"@) {
        Some(schema) => match get_spec(schema, "properties"@) {
            Some(props) => match get_spec(props, "pane"@) {
                Some(pane) => str_member(pane, "x-mcp-header"@),
                None => None,
            },
            None => None,
        },
        None => None,
    }
}

/// `j` is the text `t`.
pub open spec fn is_text(j: Json, t: Seq<char>) -> bool {
    j matches Json::String(s) && s@ == t
}

/// `m` is the input-schema property `name` of JSON type `kind`, described
/// by `description` when given.
pub open spec fn is_property(
    m: (String, Json),
    name: Seq<char>,
    kind: Seq<char>,
    description: Option<Seq<char>>,
) -> bool {
    &&& m.0@ == name
    &&& m.1 matches Json::Object(f) && f@.len() >= 1 && f@[0].0@ == "type"@ && is_text(f@[0].1, kind)
        && match description {
        Some(d) => f@.len() == 2 && f@[1].0@ == "description"@ && is_text(f@[1].1, d),
        None => f@.len() == 1,
    }
}

/// The description of every tool's `pane` parameter.
pub open spec fn pane_description() -> Seq<char> {
    "Terminal session UUID of the pane this browser belongs to. Defaults to the X-Warp-Pane header configured from $WARP_TERMINAL_SESSION_UUID."@
}

/// The schema of the `pane` parameter: a string, annotated for header
/// routing as `Pane`.
pub open spec fn is_pane_schema(j: Json) -> bool {
    j matches Json::Object(f) && f@.len() == 3 && f@[0].0@ == "x-mcp-header"@ && is_text(f@[0].1, "Pane"@)
        && f@[1].0@ == "type"@ && is_text(f@[1].1, "string"@) && f@[2].0@ == "description"@ && is_text(
        f@[2].1,
        pane_description(),
    )
}

/// `def` is the tool `name` described by `description`, whose input schema
/// is an object with the `pane` parameter followed by `properties`, and
/// requires `required` when given (`pane` never).
pub open spec fn is_tool_with(
    def: Json,
    name: Seq<char>,
    description: Seq<char>,
    properties: Seq<(String, Json)>,
    required: Option<Seq<char>>,
) -> bool {
    def matches Json::Object(m) && m@.len() == 3 && m@[1].0@ == "name"@ && is_text(m@[1].1, name)
        && m@[2].0@ == "description"@ && is_text(m@[2].1, description) && m@[0].0@ == "inputSchema"@
        && (m@[0].1 matches Json::Object(sc) && sc@.len() == (if required is Some {
        3int
    } else {
        2int
    }) && sc@[1].0@ == "type"@ && is_text(sc@[1].1, "object"@) && sc@[0].0@ == "properties"@ && (
    sc@[0].1 matches Json::Object(ps) && ps@.len() == properties.len() + 1 && ps@[0].0@ == "pane"@
        && is_pane_schema(ps@[0].1) && ps@.subrange(1, ps@.len() as int) == properties) && (
    required matches Some(q) ==> sc@[2].0@ == "required"@ && (sc@[2].1 matches Json::Array(a)
        && a@.len() == 1 && is_text(a@[0], q))))
}

/// `def` is the tool `name` whose parameters besides `pane` are `props`
/// (name, JSON type, description), in order, and which requires `required`
/// when given (`pane` never).
pub open spec fn is_tool(
    def: Json,
    name: Seq<char>,
    props: Seq<(Seq<char>, Seq<char>, Option<Seq<char>>)>,
    required: Option<Seq<char>>,
) -> bool {
    def matches Json::Object(m) && m@.len() == 3 && m@[1].0@ == "name"@ && is_text(m@[1].1, name)
        && m@[2].0@ == "description"@ && m@[0].0@ == "inputSchema"@ && (m@[0].1 matches Json::Object(
        sc,
    ) && sc@.len() == (if required is Some {
        3int
    } else {
        2int
    }) && sc@[1].0@ == "type"@ && is_text(sc@[1].1, "object"@) && sc@[0].0@ == "properties"@ && (
    sc@[0].1 matches Json::Object(ps) && ps@.len() == props.len() + 1 && ps@[0].0@ == "pane"@
        && is_pane_schema(ps@[0].1) && forall|i: int|
        1 <= i < ps@.len() ==> is_property(
            #[trigger] ps@[i],
            props[i - 1].0,
            props[i - 1].1,
            props[i - 1].2,
        )) && (required matches Some(q) ==> sc@[2].0@ == "required"@ && (sc@[2].1 matches Json::Array(
        a,
    ) && a@.len() == 1 && is_text(a@[0], q))))
}

/// The description of a tool definition.
pub open spec fn tool_description(def: Json) -> Option<Seq<char>> {
    match def {
        Json::Object(m) => if m@.len() == 3 {
            crate::json::str_spec(m@[2].1)
        } else {
            None
        },
        _ => None,
    }
}

/// The agent browser tool catalog, in order: each tool's name, description,
/// parameters and required parameter.
pub open spec fn is_catalog(defs: Seq<Json>) -> bool {
    &&& defs.len() == 8
    &&& is_tool(
        defs[0],
        "browser_attach"@,
        seq![
            ("url"@, "string"@, Some("URL to load"@)),
            ("glass"@, "boolean"@, Some("Night-glass porthole on the pane (default true)"@)),
            ("glass_opacity"@, "integer"@, Some("Glass opacity override, 0-100"@)),
        ],
        Some("url"@),
    )
    &&& is_tool(
        defs[1],
        "browser_navigate"@,
        seq![("url"@, "string"@, None)],
        Some("url"@),
    )
    &&& is_tool(
        defs[2],
        "browser_eval"@,
        seq![("javascript"@, "string"@, None)],
        Some("javascript"@),
    )
    &&& is_tool(
        defs[3],
        "browser_screenshot"@,
        Seq::empty(),
        None,
    )
    &&& is_tool(
        defs[4],
        "browser_set_glass"@,
        seq![("enabled"@, "boolean"@, None), ("opacity"@, "integer"@, Some("0-100"@))],
        Some("enabled"@),
    )
    &&& is_tool(
        defs[5],
        "browser_set_interactive"@,
        seq![("enabled"@, "boolean"@, None)],
        Some("enabled"@),
    )
    &&& is_tool(
        defs[6],
        "browser_status"@,
        Seq::empty(),
        None,
    )
    &&& is_tool(
        defs[7],
        "browser_detach"@,
        Seq::empty(),
        None,
    )
    &&& tool_description(defs[0]) == Some(
        "Attach a browser behind this agent's pane and load a URL. The pane turns to translucent night glass so the page is visible behind its terminal output \u{2014} but only while this pane's tab is frontmost; the browser is invisible from other tabs and windows."@,
    )
    &&& tool_description(defs[1]) == Some(
        "Navigate this agent's browser to a URL."@,
    )
    &&& tool_description(defs[2]) == Some(
        "Evaluate JavaScript in this agent's browser page and return the result (non-strings JSON-encoded)."@,
    )
    &&& tool_description(defs[3]) == Some(
        "Capture a PNG of this agent's browser page (never the terminal). If the agent's tab is not frontmost the capture may be stale."@,
    )
    &&& tool_description(defs[4]) == Some(
        "Toggle the night-glass porthole on this agent's pane, or adjust its opacity."@,
    )
    &&& tool_description(defs[5]) == Some(
        "Toggle whether the user's input reaches this agent's browser page. Inert by default; the user can also toggle it with the CapsLock gesture while the agent's tab is frontmost."@,
    )
    &&& tool_description(defs[6]) == Some(
        "Show this agent's browser state: attached, url, visible, glass, interactive."@,
    )
    &&& tool_description(defs[7]) == Some(
        "Detach this agent's browser, stopping playback and discarding its ephemeral browsing state."@,
    )
}

/// A definition laid out from schema properties describes the tool with
/// those properties.
proof fn lemma_tool(
    def: Json,
    name: Seq<char>,
    description: Seq<char>,
    properties: Seq<(String, Json)>,
    props: Seq<(Seq<char>, Seq<char>, Option<Seq<char>>)>,
    required: Option<Seq<char>>,
)
    requires
        is_tool_with(def, name, description, properties, required),
        properties.len() == props.len(),
        forall|i: int|
            0 <= i < props.len() ==> is_property(properties[i], props[i].0, props[i].1, props[i].2),
    ensures
        is_tool(def, name, props, required),
        tool_description(def) == Some(description),
{
    let m = def->Object_0@;
    let sc = m[0].1->Object_0@;
    let ps = sc[0].1->Object_0@;
    assert forall|i: int| 1 <= i < ps.len() implies is_property(
        #[trigger] ps[i],
        props[i - 1].0,
        props[i - 1].1,
        props[i - 1].2,
    ) by {
        assert(ps[i] == ps.subrange(1, ps.len() as int)[i - 1]);
    }
}

fn member(key: &str, value: Json) -> (r: (String, Json))
    ensures
        r.0@ == key@,
        r.1 == value,
{
    (key.to_owned(), value)
}

fn text_value(text: &str) -> (r: Json)
    ensures
        r matches Json::String(s) && s@ == text@,
{
    Json::String(text.to_owned())
}

/// A typed parameter of a tool's input schema.
fn property(name: &str, kind: &str, description: Option<&str>) -> (r: (String, Json))
    ensures
        is_property(r, name@, kind@, match description {
            Some(d) => Some(d@),
            None => None,
        }),
{
    let mut schema: Vec<(String, Json)> = Vec::new();
    schema.push(member("type", text_value(kind)));
    if let Some(description) = description {
        schema.push(member("description", text_value(description)));
    }
    proof {
        reveal_strlit("type");
        reveal_strlit("description");
    }
    member(name, Json::Object(schema))
}

/// The `pane` parameter every tool takes, annotated for header routing.
fn pane_property() -> (r: Json)
    ensures
        is_pane_schema(r),
        str_member(r, "x-mcp-header"@) == Some("Pane"@),
{
    let mut members: Vec<(String, Json)> = Vec::new();
    members.push(member("x-mcp-header", text_value("Pane")));
    members.push(member("type", text_value("string")));
    members.push(
        member(
            "description",
            text_value(
                "Terminal session UUID of the pane this browser belongs to. Defaults \
                 to the X-Warp-Pane header configured from $WARP_TERMINAL_SESSION_UUID.",
            ),
        ),
    );
    proof {
        assert(crate::json::is_first_member(members@, "x-mcp-header"@, 0));
    }
    Json::Object(members)
}

/// One tool definition: its name, description, and input schema with the
/// `pane` parameter first.
fn tool_definition(
    name: &str,
    description: &str,
    properties: Vec<(String, Json)>,
    required: Option<&str>,
) -> (r: Json)
    ensures
        str_member(r, "name"@) == Some(name@),
        pane_header(r) == Some("Pane"@),
        is_tool_with(r, name@, description@, properties@, match required {
            Some(q) => Some(q@),
            None => None,
        }),
{
    let mut props: Vec<(String, Json)> = Vec::new();
    props.push(member("pane", pane_property()));
    let ghost given = properties@;
    let mut rest = properties;
    props.append(&mut rest);
    let ghost props_view = props@;
    let mut schema: Vec<(String, Json)> = Vec::new();
    schema.push(member("properties", Json::Object(props)));
    schema.push(member("type", text_value("object")));
    if let Some(required) = required {
        let mut names: Vec<Json> = Vec::new();
        names.push(text_value(required));
        schema.push(member("required", Json::Array(names)));
    }
    let ghost schema_view = schema@;
    let mut def: Vec<(String, Json)> = Vec::new();
    def.push(member("inputSchema", Json::Object(schema)));
    def.push(member("name", text_value(name)));
    def.push(member("description", text_value(description)));
    proof {
        reveal_strlit("name");
        reveal_strlit("inputSchema");
        assert("inputSchema"@.len() != "name"@.len());
        assert(crate::json::is_first_member(def@, "inputSchema"@, 0));
        assert(crate::json::is_first_member(def@, "name"@, 1));
        assert(crate::json::is_first_member(schema_view, "properties"@, 0));
        assert(crate::json::is_first_member(props_view, "pane"@, 0));
        reveal_strlit("description");
        reveal_strlit("properties");
        reveal_strlit("type");
        reveal_strlit("required");
        assert(props_view.subrange(1, props_view.len() as int) =~= given);
    }
    Json::Object(def)
}

/// The agent browser tool catalog. Every tool's `pane` parameter carries the
/// routing-header annotation so conforming clients mirror the binding into
/// a header.
pub fn tool_definitions() -> (r: Json)
    ensures
        r matches Json::Array(defs) && defs@.len() == tool_names().len() && forall|i: int|
            0 <= i < defs@.len() ==> str_member(#[trigger] defs@[i], "name"@) == Some(tool_names()[i])
                && pane_header(defs@[i]) == Some("Pane"@),
        r matches Json::Array(defs) && is_catalog(defs@),
{
    let mut defs: Vec<Json> = Vec::new();

    let mut attach: Vec<(String, Json)> = Vec::new();
    attach.push(property("url", "string", Some("URL to load")));
    attach.push(property("glass", "boolean", Some("Night-glass porthole on the pane (default true)")));
    attach.push(property("glass_opacity", "integer", Some("Glass opacity override, 0-100")));
    let ghost attach_props = attach@;
    defs.push(
        tool_definition(
            "browser_attach",
            "Attach a browser behind this agent's pane and load a URL. The pane \
             turns to translucent night glass so the page is visible behind its \
             terminal output \u{2014} but only while this pane's tab is frontmost; the \
             browser is invisible from other tabs and windows.",
            attach,
            Some("url"),
        ),
    );

    let mut navigate: Vec<(String, Json)> = Vec::new();
    navigate.push(property("url", "string", None));
    let ghost navigate_props = navigate@;
    defs.push(
        tool_definition(
            "browser_navigate",
            "Navigate this agent's browser to a URL.",
            navigate,
            Some("url"),
        ),
    );

    let mut eval: Vec<(String, Json)> = Vec::new();
    eval.push(property("javascript", "string", None));
    let ghost eval_props = eval@;
    defs.push(
        tool_definition(
            "browser_eval",
            "Evaluate JavaScript in this agent's browser page and return the \
             result (non-strings JSON-encoded).",
            eval,
            Some("javascript"),
        ),
    );

    defs.push(
        tool_definition(
            "browser_screenshot",
            "Capture a PNG of this agent's browser page (never the terminal). \
             If the agent's tab is not frontmost the capture may be stale.",
            Vec::new(),
            None,
        ),
    );

    let mut glass: Vec<(String, Json)> = Vec::new();
    glass.push(property("enabled", "boolean", None));
    glass.push(property("opacity", "integer", Some("0-100")));
    let ghost glass_props = glass@;
    defs.push(
        tool_definition(
            "browser_set_glass",
            "Toggle the night-glass porthole on this agent's pane, or adjust \
             its opacity.",
            glass,
            Some("enabled"),
        ),
    );

    let mut interactive: Vec<(String, Json)> = Vec::new();
    interactive.push(property("enabled", "boolean", None));
    let ghost interactive_props = interactive@;
    defs.push(
        tool_definition(
            "browser_set_interactive",
            "Toggle whether the user's input reaches this agent's browser page. \
             Inert by default; the user can also toggle it with the CapsLock \
             gesture while the agent's tab is frontmost.",
            interactive,
            Some("enabled"),
        ),
    );

    defs.push(
        tool_definition(
            "browser_status",
            "Show this agent's browser state: attached, url, visible, glass, \
             interactive.",
            Vec::new(),
            None,
        ),
    );

    defs.push(
        tool_definition(
            "browser_detach",
            "Detach this agent's browser, stopping playback and discarding its \
             ephemeral browsing state.",
            Vec::new(),
            None,
        ),
    );
    proof {
        assert(defs@.len() == tool_names().len());
        let empty = Seq::<(String, Json)>::empty();
        lemma_tool(defs@[0], "browser_attach"@, tool_description(defs@[0])->Some_0, attach_props, seq![
            ("url"@, "string"@, Some("URL to load"@)),
            ("glass"@, "boolean"@, Some("Night-glass porthole on the pane (default true)"@)),
            ("glass_opacity"@, "integer"@, Some("Glass opacity override, 0-100"@)),
        ], Some("url"@));
        lemma_tool(defs@[1], "browser_navigate"@, tool_description(defs@[1])->Some_0, navigate_props, seq![("url"@, "string"@, None)], Some("url"@));
        lemma_tool(defs@[2], "browser_eval"@, tool_description(defs@[2])->Some_0, eval_props, seq![("javascript"@, "string"@, None)], Some("javascript"@));
        lemma_tool(defs@[3], "browser_screenshot"@, tool_description(defs@[3])->Some_0, empty, Seq::empty(), None);
        lemma_tool(defs@[4], "browser_set_glass"@, tool_description(defs@[4])->Some_0, glass_props, seq![("enabled"@, "boolean"@, None), ("opacity"@, "integer"@, Some("0-100"@))], Some("enabled"@));
        lemma_tool(defs@[5], "browser_set_interactive"@, tool_description(defs@[5])->Some_0, interactive_props, seq![("enabled"@, "boolean"@, None)], Some("enabled"@));
        lemma_tool(defs@[6], "browser_status"@, tool_description(defs@[6])->Some_0, empty, Seq::empty(), None);
        lemma_tool(defs@[7], "browser_detach"@, tool_description(defs@[7])->Some_0, empty, Seq::empty(), None);
    }
    Json::Array(defs)
}

/// What the endpoint answers a request body with.
#[derive(Debug)]
pub enum McpReply {
    /// A notification: acknowledged with no body.
    Accepted,
    /// A JSON-RPC result.
    Result { id: Json, result: Json },
    /// A JSON-RPC result carrying a tool result.
    Tool { id: Json, outcome: ToolResult },
    /// A JSON-RPC error.
    Error { id: Json, code: i64, message: String },
    /// A tool call to hand to the control plane.
    Dispatch { id: Json, tool: String, action: ActionKind, params: ActionParams },
}

/// The message of a tool call that names no pane.
pub open spec fn no_binding_message() -> Seq<char> {
    "no pane binding: pass the `pane` argument (terminal session UUID) or configure the X-Warp-Pane header from $WARP_TERMINAL_SESSION_UUID"@
}

/// The protocol revision assumed when `initialize` names none.
pub open spec fn default_protocol_version() -> Seq<char> {
    "2025-06-18"@
}

/// Non-empty text, or nothing.
pub open spec fn non_empty(text: Option<Seq<char>>) -> Option<Seq<char>> {
    match text {
        Some(t) => if t.len() > 0 {
            Some(t)
        } else {
            None
        },
        None => None,
    }
}

/// The pane a tool call is bound to: its `pane` argument when non-empty,
/// else the pane header when non-empty. Never the active pane.
pub open spec fn pane_binding_spec(args: Json, header: Option<Seq<char>>) -> Option<Seq<char>> {
    match non_empty(str_member(args, "pane"@)) {
        Some(p) => Some(p),
        None => non_empty(header),
    }
}

/// `message.params`, if any.
pub open spec fn params_spec(message: Json) -> Option<Json> {
    get_spec(message, "params"@)
}

/// `message.params[key]`.
pub open spec fn param_spec(message: Json, key: Seq<char>) -> Option<Json> {
    match params_spec(message) {
        Some(p) => get_spec(p, key),
        None => None,
    }
}

/// The text of `message.params[key]`.
pub open spec fn param_text(message: Json, key: Seq<char>) -> Option<Seq<char>> {
    match param_spec(message, key) {
        Some(v) => crate::json::str_spec(v),
        None => None,
    }
}

/// The arguments of a tool call: `params.arguments`; absent arguments have
/// no members, read here as `Null`.
pub open spec fn arguments_spec(message: Json) -> Json {
    match param_spec(message, "arguments"@) {
        Some(a) => a,
        None => Json::Null,
    }
}

/// The method of a request: `method` when it is text, else empty.
pub open spec fn method_spec(message: Json) -> Seq<char> {
    match str_member(message, "method"@) {
        Some(m) => m,
        None => Seq::empty(),
    }
}

/// The `initialize` answer: the revision `protocol_version`, tool support,
/// and the server's name and version `server_version`.
pub open spec fn initialize_answer(result: Json, protocol_version: Seq<char>, server_version: Seq<char>) -> bool {
    &&& result matches Json::Object(m) && m@.len() == 4
    &&& str_member(result, "protocolVersion"@) == Some(protocol_version)
    &&& get_spec(result, "capabilities"@) matches Some(c) && (c matches Json::Object(cm) && cm@.len()
        == 1) && (get_spec(c, "tools"@) matches Some(Json::Object(t)) && t@.len() == 0)
    &&& get_spec(result, "serverInfo"@) matches Some(info) && (info matches Json::Object(im)
        && im@.len() == 2) && str_member(info, "name"@) == Some("warp-browser"@) && str_member(
        info,
        "version"@,
    ) == Some(server_version)
    &&& str_member(result, "instructions"@) == Some(initialize_instructions())
}

/// The usage instructions `initialize` answers with.
pub open spec fn initialize_instructions() -> Seq<char> {
    "Drives an agent-scoped browser rendered behind the Warp terminal pane the agent runs in (visible only while that pane's tab is frontmost). Requires the allow_browser_control permission (Settings > Scripting). Pane binding: pass the `pane` argument (terminal session UUID) or configure the X-Warp-Pane header from $WARP_TERMINAL_SESSION_UUID."@
}

/// The answer to the `tools/call` request `message` with id `id`: bound to
/// its pane argument or else the pane header (never the active pane), then
/// mapped onto an action, or refused.
pub open spec fn tool_call_spec(message: Json, header: Option<Seq<char>>, id: Json, reply: McpReply) -> bool {
    let tool = match param_text(message, "name"@) {
        Some(t) => t,
        None => Seq::empty(),
    };
    let args = arguments_spec(message);
    match pane_binding_spec(args, header) {
        None => reply matches McpReply::Tool { id: i, outcome } && i == id && outcome.is_error
            && outcome.content@.len() == 1 && (outcome.content@[0] matches ToolContent::Text { text }
            && text@ == no_binding_message()),
        Some(pane) => match reply {
            McpReply::Error { id: i, code, message: e } => i == id && code == INVALID_PARAMS
                && build_action_result(tool, args, pane, Err(e)),
            McpReply::Dispatch { id: i, tool: t, action, params } => i == id && t@ == tool
                && build_action_result(tool, args, pane, Ok((action, params))),
            _ => false,
        },
    }
}

/// What the endpoint answers the parsed request `message` (with the pane
/// header `header`): notifications are acknowledged, `initialize` is
/// answered statically echoing the requested revision, `ping` and
/// `tools/list` directly, `tools/call` is bound to a pane and mapped to an
/// action, and anything else is an unknown method.
pub open spec fn reply_spec(message: Json, header: Option<Seq<char>>, server_version: Seq<char>, reply: McpReply) -> bool {
    match get_spec(message, "id"@) {
        None => reply is Accepted,
        Some(id) => {
            let method = method_spec(message);
            if method == "initialize"@ {
                reply matches McpReply::Result { id: i, result } && i == id && initialize_answer(
                    result,
                    match param_text(message, "protocolVersion"@) {
                        Some(v) => v,
                        None => default_protocol_version(),
                    },
                    server_version,
                )
            } else if method == "ping"@ {
                reply matches McpReply::Result { id: i, result } && i == id && (result matches Json::Object(
                    m,
                ) && m@.len() == 0)
            } else if method == "tools/list"@ {
                reply matches McpReply::Result { id: i, result } && i == id && (result matches Json::Object(
                    m,
                ) && m@.len() == 1 && m@[0].0@ == "tools"@ && (m@[0].1 matches Json::Array(defs)
                    && is_catalog(defs@)))
            } else if method == "tools/call"@ {
                tool_call_spec(message, header, id, reply)
            } else {
                reply matches McpReply::Error { id: i, code, message: e } && i == id && code
                    == METHOD_NOT_FOUND && e@ == "method not found: "@ + method
            }
        },
    }
}

fn owned_text(text: Option<&String>) -> (r: Option<String>)
    ensures
        match text {
            Some(t) => r == Some(*t),
            None => r is None,
        },
{
    match text {
        Some(t) => Some(t.clone()),
        None => None,
    }
}

/// The text of `message.params[key]`.
fn param_text_of(message: &Json, key: &str) -> (r: Option<String>)
    ensures
        match r {
            Some(t) => param_text(*message, key@) == Some(t@),
            None => param_text(*message, key@) is None,
        },
{
    match message.get("params") {
        Some(params) => match params.get(key) {
            Some(v) => owned_text(v.as_str()),
            None => None,
        },
        None => None,
    }
}

/// The `initialize` answer: the requested revision echoed back, tool
/// support, and usage instructions. No session is minted.
fn initialize_result(protocol_version: String, server_version: &str) -> (r: Json)
    ensures
        initialize_answer(r, protocol_version@, server_version@),
{
    let mut capabilities: Vec<(String, Json)> = Vec::new();
    capabilities.push(member("tools", Json::Object(Vec::new())));
    let mut server_info: Vec<(String, Json)> = Vec::new();
    server_info.push(member("name", text_value("warp-browser")));
    server_info.push(member("version", text_value(server_version)));
    let ghost capabilities_view = capabilities@;
    let ghost server_info_view = server_info@;
    let mut result: Vec<(String, Json)> = Vec::new();
    result.push(member("protocolVersion", Json::String(protocol_version)));
    result.push(member("capabilities", Json::Object(capabilities)));
    result.push(member("serverInfo", Json::Object(server_info)));
    result.push(
        member(
            "instructions",
            text_value(
                "Drives an agent-scoped browser rendered behind the Warp \
                 terminal pane the agent runs in (visible only while that pane's tab is \
                 frontmost). Requires the allow_browser_control permission (Settings > \
                 Scripting). Pane binding: pass the `pane` argument (terminal session \
                 UUID) or configure the X-Warp-Pane header from \
                 $WARP_TERMINAL_SESSION_UUID.",
            ),
        ),
    );
    proof {
        reveal_strlit("protocolVersion");
        reveal_strlit("capabilities");
        reveal_strlit("serverInfo");
        reveal_strlit("tools");
        reveal_strlit("name");
        reveal_strlit("version");
        assert("protocolVersion"@.len() != "capabilities"@.len());
        assert("protocolVersion"@.len() != "serverInfo"@.len());
        assert("capabilities"@.len() != "serverInfo"@.len());
        assert("name"@.len() != "version"@.len());
        assert(crate::json::is_first_member(result@, "protocolVersion"@, 0));
        assert(crate::json::is_first_member(result@, "capabilities"@, 1));
        assert(crate::json::is_first_member(result@, "serverInfo"@, 2));
        assert(crate::json::is_first_member(capabilities_view, "tools"@, 0));
        assert(crate::json::is_first_member(server_info_view, "name"@, 0));
        assert(crate::json::is_first_member(server_info_view, "version"@, 1));
        reveal_strlit("instructions");
        assert("instructions"@.len() != "protocolVersion"@.len());
        assert("instructions"@ != "capabilities"@) by {
            assert("instructions"@[0] != "capabilities"@[0]);
        }
        assert("instructions"@.len() != "serverInfo"@.len());
        assert(crate::json::is_first_member(result@, "instructions"@, 3));
    }
    Json::Object(result)
}

/// Answers one request body: `None` when it did not parse as JSON.
/// `header_pane` is the client-configured pane header; `server_version` is
/// reported by `initialize`.
pub fn handle_mcp_message(message: Option<Json>, header_pane: Option<String>, server_version: &str) -> (r:
    McpReply)
    ensures
        match message {
            None => (r matches McpReply::Error { id, code, message: e } && id == Json::Null && code
                == PARSE_ERROR && e@ == "request body is not valid JSON"@),
            Some(m) => reply_spec(m, match header_pane {
                Some(h) => Some(h@),
                None => None,
            }, server_version@, r),
        },
{
    match message {
        None => McpReply::Error {
            id: Json::Null,
            code: PARSE_ERROR,
            message: "request body is not valid JSON".to_owned(),
        },
        Some(m) => handle_parsed(m, header_pane, server_version),
    }
}

fn handle_parsed(message: Json, header_pane: Option<String>, server_version: &str) -> (r: McpReply)
    ensures
        reply_spec(message, match header_pane {
            Some(h) => Some(h@),
            None => None,
        }, server_version@, r),
{
    if message.get("id").is_none() {
        return McpReply::Accepted;
    }
    let method = match message.str_member("method") {
        Some(m) => m.clone(),
        None => String::new(),
    };
    if text_is(method.as_str(), "initialize") {
        let requested = match param_text_of(&message, "protocolVersion") {
            Some(v) => v,
            None => "2025-06-18".to_owned(),
        };
        let id = id_of(message);
        return McpReply::Result { id, result: initialize_result(requested, server_version) };
    }
    if text_is(method.as_str(), "ping") {
        let id = id_of(message);
        return McpReply::Result { id, result: Json::Object(Vec::new()) };
    }
    if text_is(method.as_str(), "tools/list") {
        let id = id_of(message);
        let mut result: Vec<(String, Json)> = Vec::new();
        result.push(member("tools", tool_definitions()));
        proof {
            assert(crate::json::is_first_member(result@, "tools"@, 0));
        }
        return McpReply::Result { id, result: Json::Object(result) };
    }
    if text_is(method.as_str(), "tools/call") {
        return tool_call(message, header_pane);
    }
    let id = id_of(message);
    let mut e = "method not found: ".to_owned();
    e.append(method.as_str());
    McpReply::Error { id, code: METHOD_NOT_FOUND, message: e }
}

/// The request id (present by the caller's check).
fn id_of(message: Json) -> (r: Json)
    requires
        get_spec(message, "id"@) is Some,
    ensures
        get_spec(message, "id"@) == Some(r),
{
    message.into_member("id").unwrap()
}

/// A `tools/call` request: bind the pane, then map the tool onto an action.
fn tool_call(message: Json, header_pane: Option<String>) -> (r: McpReply)
    requires
        get_spec(message, "id"@) is Some,
    ensures
        tool_call_spec(message, match header_pane {
            Some(h) => Some(h@),
            None => None,
        }, get_spec(message, "id"@)->Some_0, r),
{
    let tool = match param_text_of(&message, "name") {
        Some(t) => t,
        None => String::new(),
    };
    proof {
        reveal_strlit("id");
        reveal_strlit("params");
        assert("id"@.len() != "params"@.len());
    }
    let (id, params) = message.into_two_members("id", "params");
    let id = id.unwrap();
    let args = match params {
        Some(p) => match p.into_member("arguments") {
            Some(a) => a,
            None => Json::Null,
        },
        None => Json::Null,
    };
    let arg_pane = match args.str_member("pane") {
        Some(p) => if p.as_str().is_empty() {
            None
        } else {
            Some(p.clone())
        },
        None => None,
    };
    let pane = match arg_pane {
        Some(p) => Some(p),
        None => match header_pane {
            Some(h) => if h.as_str().is_empty() {
                None
            } else {
                Some(h)
            },
            None => None,
        },
    };
    let pane = match pane {
        Some(p) => p,
        None => {
            return McpReply::Tool {
                id,
                outcome: tool_error(
                    "no pane binding: pass the `pane` argument (terminal session UUID) or configure \
                     the X-Warp-Pane header from $WARP_TERMINAL_SESSION_UUID".to_owned(),
                ),
            };
        },
    };
    match build_action(tool.as_str(), &args, pane.as_str()) {
        Ok((action, params)) => McpReply::Dispatch { id, tool, action, params },
        Err(e) => McpReply::Error { id, code: INVALID_PARAMS, message: e },
    }
}

/// How the control plane answered a dispatched tool call.
#[derive(Debug)]
pub enum ControlOutcome {
    /// The action succeeded with this payload.
    Succeeded(Json),
    /// The action failed; the error's text.
    Failed(String),
    /// The action could not be built from its parameters; the reason.
    Rejected(String),
    /// The asynchronous action did not answer in time.
    TimedOut,
    /// The asynchronous action was dropped without an answer.
    Dropped,
    /// The app could not be reached.
    Unavailable,
}

/// Answers a dispatched tool call from the control plane's outcome:
/// success becomes tool content, an action failure or a timeout a tool
/// error the model sees, and transport failures JSON-RPC errors.
pub fn finish_tool_call(id: Json, tool: &str, outcome: ControlOutcome) -> (r: McpReply)
    ensures
        match outcome {
            ControlOutcome::Succeeded(data) => (r matches McpReply::Tool { id: i, outcome: t } && i == id
                && !t.is_error && success_content(tool@, data, t.content@)),
            ControlOutcome::Failed(e) => (r matches McpReply::Tool { id: i, outcome: t } && i == id
                && t.is_error && t.content@ == seq![ToolContent::Text { text: e }]),
            ControlOutcome::TimedOut => (r matches McpReply::Tool { id: i, outcome: t } && i == id
                && t.is_error && t.content@.len() == 1 && (t.content@[0] matches ToolContent::Text {
                text,
            } && text@ == "the browser action timed out"@)),
            ControlOutcome::Rejected(e) => (r matches McpReply::Error { id: i, code, message: m } && i
                == id && code == INVALID_PARAMS && m == e),
            ControlOutcome::Dropped => (r matches McpReply::Error { id: i, code, message: m } && i == id
                && code == INTERNAL_ERROR && m@ == "action dropped"@),
            ControlOutcome::Unavailable => (r matches McpReply::Error { id: i, code, message: m } && i
                == id && code == INTERNAL_ERROR && m@ == "app bridge unavailable"@),
        },
{
    match outcome {
        ControlOutcome::Succeeded(data) => McpReply::Tool { id, outcome: tool_success_content(tool, data) },
        ControlOutcome::Failed(e) => {
            let t = tool_error(e);
            proof {
                assert(t.content@ =~= seq![t.content@[0]]);
            }
            McpReply::Tool { id, outcome: t }
        },
        ControlOutcome::TimedOut => McpReply::Tool {
            id,
            outcome: tool_error("the browser action timed out".to_owned()),
        },
        ControlOutcome::Rejected(e) => McpReply::Error { id, code: INVALID_PARAMS, message: e },
        ControlOutcome::Dropped => McpReply::Error {
            id,
            code: INTERNAL_ERROR,
            message: "action dropped".to_owned(),
        },
        ControlOutcome::Unavailable => McpReply::Error {
            id,
            code: INTERNAL_ERROR,
            message: "app bridge unavailable".to_owned(),
        },
    }
}

} // verus!
