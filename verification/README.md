# rmng

The agent runtime of RMNG-OS: intents from the nervous-system layer, the
permission check in front of native tools and MCP servers, validation against
the integration manifests, multi-agent sessions, MCP subprocess isolation and
resource accounting.

- `src/` is the library. Its functions are verified by Verus against their
  `requires`/`ensures` contracts, except the small `#[verifier::external_body]`
  wrappers around outside crates (serde_json, jsonschema, seccompiler, caps)
  and std (the clock, `Display` texts), whose contracts are trusted; the
  public `proof fn law_*` items state the properties that hold across
  functions (for example that nothing runs for a denied intent). JSON values
  are described by their model, `json::JsonModel`.
- `app/` is the `rmng` command line around the library: file and socket
  I/O, subprocesses, the JSON and TOML forms of the library's types.
- `tests/` exercises the library on concrete values.

Decisions that alternate with outside work are split: the library computes
the next step (`runtime::Step`, `mcp_session::mcp_session_step`,
`tools::ToolCommand`, `readiness::readiness_from_probes`) and the program performs it and hands the result back.
