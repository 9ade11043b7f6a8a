# roam (verified core)

The decision logic of the roam RPC stack, written in Verus: the public
functions state what they return in their contracts, and the properties
that span several calls are proved as `law_*` proof functions. (The
request `Extensions` store is a placeholder that keeps nothing.)

Layout of `src/`:

- `session`, `session_slots`: the handshake and the virtual-connection
  state machines of a session.
- `link`, `rpc_driver`, `request_ids`, `channel`: the connection driver's
  bookkeeping (calls, requests, channels, credit, request ids).
- `reliable`, `stable`, `acceptor`, `memory_link`, `bare_conduit`: sequenced delivery with
  replay over links that may be replaced, and routing of resumed sessions.
- `envelope`, `middleware`, `dispatch`, `bridge`: response envelopes,
  request middleware, dispatch preparation, HTTP bridge routing.
- `service_grammar`: the grammar of `#[roam::service]` trait definitions.
- `shapes`, `ts_codec`, `ts_service`, `ts_endpoints`, `ts_method_ids`, `rust_dispatch`,
  `rust_generator`, `code_writer`, `text`: the code generators.
- `chaos`: the service and workload of the chaos load test.

Calls into `heck`, `proc_macro2`, `codegen` and `std` that Verus cannot see
go through small trusted wrappers, each documented with what its contract
assumes. `app/` holds what stays outside: `std::io::Error` conversions, the
floating-point retry back-off and the reconnect loop.
