//! A Bitcoin Core JSON-RPC gateway exposed as MCP tools: the JSON model that
//! the gateway works on, the errors it reports to clients, the handling of
//! bitcoind's replies and retries, and the tools' routing and redaction.
pub mod json;
pub mod mcp_error;
pub mod rpc;
pub mod tools;
