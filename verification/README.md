# Calagopus MCP connector

An extension of the Calagopus game panel that offers 26 management tools over the
Model Context Protocol: JSON-RPC 2.0 messages over HTTP, and a stream of
server-sent events that tells a client where to send them.

The logic is a library verified with Verus. It makes every decision and does no
I/O: given a request it says who is let in and what is answered, and a tool call
is a sequence of steps that the application carries out.

- `src/auth.rs`, `src/secret.rs`: the secret key, where it comes from and who
  gets in with it.
- `src/rpc.rs`: requests, messages, replies and streams.
- `src/tool.rs`, `src/catalog.rs`: the tools, their names and descriptions.
- `src/execute.rs`, `src/outcome.rs`, `src/progress.rs`: tool calls, from the
  arguments to the first step and from the outcome of a step to the next.
- `src/records.rs`, `src/content.rs`, `src/render.rs`, `src/readable.rs`,
  `src/json.rs`: what is shown and how, and what can be read back.
- `src/extension.rs`, `src/sql.rs`: the extension's metadata and routes, and the
  statements for the panel's database.
- `src/ids.rs`, `src/clock.rs`, `src/text.rs`: UUIDs, times and texts.
- `src/laws.rs`, `src/tool_laws.rs`, `src/call_laws.rs`: what holds of all of it.
- `app/`: the handlers, the database, the daemons and the plugin catalog. It
  needs the panel's own crates `shared` and `wings_api`.

## Settings

- `CALAGOPUS_MCP_SECRET` provides the secret key. Without it the key is kept in
  the panel's settings, and made at the first start.
- `CALAGOPUS_MCP_AUTH_DISABLED=true` lets every request in.

A request carries the key as `Authorization: Bearer <key>`, as `X-MCP-Key` or
`X-API-Key`, or in the query as `api_key`, `token`, `key`, `api-key` or `mcp_key`.
