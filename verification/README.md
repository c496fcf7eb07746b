# messaggero

Agent-to-agent messaging: a binary fast path over Unix domain sockets for
agents on one host, and an A2A-compatible JSON-RPC 2.0 transport over HTTP.

The library (`src/`) is written in Verus. Every function there carries a
contract over a mathematical model of its data, and Verus proves each body
against its contract, except for a few small wrappers marked
`#[verifier::external_body]`. Those call into std, `bytes`,
`uuid`, `serde_json` or `bincode`; their contracts are trusted, not proved,
and their doc comments say what they claim of the call:

- `protocol` — wire types and their builders, errors, JSON-RPC envelopes and
  the server's routing and error replies, middleware layering;
- `transport` — length-prefixed framing, the fast transport's message
  handling, the router's and discovery registry's tables, the audit log
  (entries, file rotation, UTC timestamps), and the outcome and entry of
  each outbound send;
- `server` — which transports a served agent starts and which one a client
  uses;
- `llm` — streamed model replies with reasoning blocks filtered out, timing
  metadata, and the prompts of a research / critique / summary pipeline;
- `audit` — statistics over the entries of an NDJSON audit-log file;
- `text`, `keyed` — decimal text, trimming and searching, and the keyed
  tables behind the maps.

Laws that relate several operations (a frame read back gives its payload,
register-then-resolve, timing metadata read back, file rotation bounds, …)
are public proof functions next to the operations they speak of.

`app/` is the ordinary Rust around the library: the async agent traits,
sockets, HTTP server and client, the background log writer, serde forms of
the wire types, and the model-server client. `tests/` runs the library on
concrete values.
