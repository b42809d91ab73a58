# aio_identity

Account, session and registration logic of the AIO identity plugin, verified with Verus.

- `src/` is the verified library:
  - `text` — character-level helpers (`str::trim` semantics, decimal numbers).
  - `cookie` — reading a cookie from a `Cookie` header, the session `Set-Cookie` values,
    and the proof that a stored session cookie gives its token back.
  - `session` — session ids (hex SHA-256 of the token), random tokens and ids.
  - `password` — Argon2 hashing and verification.
  - `service` — the service's settings and rules (password length, account names,
    permission sets, cookies).
  - `flows` — each operation of the service (sign-in, session recognition, registration,
    change of password, creation of users, switch of tenant, first start) as a state
    machine: given the store's answer to its last request, it says what to ask next.
  - `http` — the status and message that answer each outcome.
  - `client` — the checks and page description of the browser client.
- `app/` runs the flows against PostgreSQL (sqlx), serves them over HTTP (axum), registers
  the service (dill), and holds the browser client's HTTP calls (gloo-net).
- `tests/` exercises the library on concrete values.
