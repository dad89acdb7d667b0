# open_aaas_server

The OpenAaaS server: clients submit tasks to services, agents poll for them,
run them and report the result.

- `src/` is the library, verified with Verus. It holds the task and service
  state machines (submission, polling, completion, cancellation, heartbeats,
  requeueing when an agent goes offline), the access rules, request
  validation, API-key hashing, the rate limiter, how the configuration is
  settled on first start (data directory, secret, admin key), the stop protocol of the
  command line, the API discovery document and the text the server
  produces. `src/laws.rs` states the
  properties that hold across operations.
- `app/` is the program around it: the HTTP routes (axum), the SQLite
  database (sqlx), configuration files, the command line and the background
  loops. It hands the library plain values and performs what the library
  decides.
- `tests/` runs the library on concrete values.
