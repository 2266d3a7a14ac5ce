# crow

A careful coding agent: a model streams its answer, asks for tools
(`read`, `bash`), and the agent runs them under an approval policy,
logging every step to a JSON-lines session file that can be resumed.

## Layout

- `src/` — the library, verified with Verus. Every decision the agent
  makes lives here with its contract: assembling the provider's stream
  (`stream`), rebuilding history from a session log and each step of the
  turn loop (`agent`), the approval rules (`policy`), the read and bash
  tools' output (`read`, `bash`, `tool`), the TUI's model, keymap and
  line layout (`tui`, `ui`, `commands`), configuration precedence
  (`config`), `AGENTS.md` selection and hashing (`context`), and the
  app-server and MCP routing (`server`, `mcp`). Calls into `serde_json`,
  `sha2`, `jsonschema`, `ulid` and `unicode-width` go through small
  trusted functions whose contracts state what those crates do.
- `app/` — the `crow` binary: command-line parsing, the async agent
  loop driver, processes, files, the terminal, and the stdio server.
  It holds no rules of its own; it calls the library for each decision.
- `tests/` — tests of the library on concrete values.
