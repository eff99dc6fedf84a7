# Hammer Editor MCP Server

An MCP (Model Context Protocol) server that exposes the Hammer Editor
synchronisation API as tools, with its protocol logic verified by Verus.

## Layout

- `src/` — the verified library.
  - `client.rs`: the HTTP request each API call makes, and how each reply
    status is read.
  - `tools.rs`, `dispatch.rs`, `replies.rs`: each tool as two steps, what it
    decides before its request and what it makes of the reply; the tool
    catalogue.
  - `server.rs`, `sessions.rs`: the server state and the table of open
    project syncs.
  - `mcp.rs`: JSON-RPC routing and tool-call answers.
  - `json.rs`, `models.rs`, `text.rs`, `config.rs`: values, protocol types,
    decimal text, settings.
  - `laws.rs`: properties of the library as a whole.
- `app/` — the binary: command line, logging, stdin/stdout, HTTP (reqwest),
  and the serde forms of the protocol types.
- `tests/` — tests of the library, driving the tools with replies given in
  the test.

## Configuration

| Env Var | Default | Description |
|---|---|---|
| `HAMMER_SERVER_URL` | `http://localhost:8080` | Hammer sync server URL |
| `HAMMER_EMAIL`, `HAMMER_PASSWORD` | | Credentials for login at start |
| `HAMMER_AUTH_TOKEN` | | Auth token, in place of a login |
| `HAMMER_USER_ID` | | User id |
| `HAMMER_INSTALL_ID` | a fresh UUID | Install id sent with the login |
| `RUST_LOG` | `info` | Log level |
