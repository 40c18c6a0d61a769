# auth

An authentication service: users sign up and log in against a user
repository, receive tokens, and other services check those tokens through a
small client.

`src/` is the verified library (Verus):

- `wire` — the Protocol Buffers encoding of the service's messages, built on
  `prost`'s field-level steps, with what each step produces stated.
- `host::repository::users` — the stored user, its encoding and a decoder
  proved to read back every encoding; `cache` is the read-through Redis
  lookup as a state machine.
- `client` — the token-check request and answer, and the parsing of the
  `Authorization: Bearer` header.
- `handlers`, `web`, `host::web` — the decisions of the sign-up, login and
  token-check handlers, as state machines with laws over whole runs.

`app/` is the unverified shell: axum handlers and extractors that carry out
the actions the state machines ask for, the HTTP client, the PostgreSQL,
MongoDB and Redis access, and the message types with their serde and prost
derives.
