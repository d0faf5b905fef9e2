# auth_api

An authentication service (login and registration over HTTP) whose rules are
verified with Verus.

- `src/` is the verified library: the error model and its HTTP answers
  (`errors`), the checks on request bodies (`validation`, `requests`), token
  expiry and the token cookie (`session`), user records (`users`), the login and
  registration decisions (`usecases`) and the properties proved across them
  (`laws`), including the signing of login tokens. Calls into `validator`,
  `bcrypt`, `chrono`, `uuid` and `jsonwebtoken` stand behind trusted wrappers
  whose contracts are documented where they are declared.
- `app/` is the server: `axum` routing and extractors, the database queries
  (and reading their errors into `DbFailure`), the clock, the environment,
  and JSON encoding of the replies.
- `tests/` runs the library against the real outside crates.
