# blunt

An opinionated way to build asynchronous WebSocket servers on hyper and tokio, whose
core is verified with Verus.

- `src/` is the verified library:
  - `endpoints.rs`: the table of endpoints (one handler channel per path) and the
    table of paths that a router consults;
  - `service.rs`: how a request is routed (icon, not found, WebSocket upgrade, web
    handler) and how the router answers it, the WebSocket handshake included;
  - `server.rs`: the registry of live sessions as a state machine, its metrics (total
    and per path) with the laws that relate them, and the plan for each message
    received from a session;
  - `websocket.rs`: WebSocket messages, the hook each message goes to, the context of
    a connection, and the session;
  - `rt.rs`: the channel operations of tokio that the library calls.
- `app/` is the asynchronous runtime around it: the tasks, the hyper services, the
  WebSocket reader and writer of each session, and the handler traits for users.
- `tests/` runs the library on concrete values.
