# browser_underlay

Browser underlays: webviews composited behind a terminal window, and the
agent-facing control surface (local-control actions and an MCP endpoint)
that drives them. The library is written in Verus: its public functions
carry `requires`/`ensures` contracts over the model and are proved against
them. Rendering JSON values as text, HTTP and the platform webviews are
left to `app/`.

Layout:

- `src/state.rs` — the underlay model: one ambience underlay per window,
  agent underlays keyed by their pane's terminal session UUID, interactive
  modes, idle sweeping, change reporting.
- `src/render.rs` — what renders behind a window and the glass fills.
- `src/workspace.rs` — where panes live; locating a pane, decoding session
  UUIDs.
- `src/lifecycle.rs` — attach/navigate/detach decisions and following agents'
  panes across tabs and windows.
- `src/control.rs` — the `browser.*` / `pane.glass.*` control-plane actions.
- `src/mcp.rs`, `src/json.rs`, `src/protocol.rs` — the MCP endpoint's
  request handling, tool catalog and result content.
- `src/binding.rs` — binding an MCP server to its pane.
- `src/encoding.rs` — base64 encoding of captures (the `base64` crate).
- `src/laws.rs` — properties that span several operations.
- `app/` — the platform, HTTP and serialisation glue around the library.
