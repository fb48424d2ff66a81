# contextbtc

A gateway that serves a Bitcoin Core node's JSON-RPC interface as MCP tools.

- `src/` is the verified library:
  - `json.rs`: the JSON values the gateway works on and their model;
  - `mcp_error.rs`: the errors a client receives;
  - `rpc.rs`: the errors of an RPC attempt and what a client is told of
    them, the reading of bitcoind's replies, the retry policy, the request
    body and the configuration;
  - `tools.rs`: tool-name normalization and routing, the bitcoind call of
    each tool, and the redaction of `getnetworkinfo`.
- `app/` holds what runs around it: HTTP with `reqwest`, the `rmcp` tool
  router and server handler, logging, and the conversions to and from
  `serde_json` and `rmcp` values.
- `tests/` exercises the library.
