# discord_social_rpc

Discord Rich Presence through the Discord Gateway (`sdk.social_layer_presence`
scope), with the protocol's logic specified and proved in Verus.

- `src/` — the verified library:
  - `activity`, `presence`, `status`, `error`: the activity model and its builders,
    presence status, connection status, errors and their messages;
  - `payload`: the Gateway frames (PRESENCE UPDATE, IDENTIFY, HEARTBEAT, RESUME);
  - `gateway/`: the shared Gateway state, the handling of Gateway messages, and the
    connection loop as a state machine (`GatewaySession::step`) with its laws
    (bounded reconnects, backoff, resume rules, heartbeat accounting);
  - `external_assets`: resolution of external image URLs with an LRU cache and its laws;
  - `client`: token validation and the client's decisions (what to send when an
    activity is set, started or stopped);
  - `utils`: the OAuth2 token requests and the handling of their answers;
  - `json`: reading values out of JSON text through `serde_json`;
  - `text`: string helpers (trim, prefix, decimal formatting).
- `app/` — the synchronous client around the library: Tokio runtime, WebSocket,
  HTTP, timers and channels; it performs the actions that the library decides.
- `tests/` — tests of the library on concrete values.
