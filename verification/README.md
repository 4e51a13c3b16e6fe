# zetra

The request logic of the Zetra backend (accounts, JWT sessions, comments,
media uploads, the service-app inbox), written in Verus and verified.

- `src/` is the verified library: configuration, the error model and its
  HTTP answers, token issuing, bearer authentication, Argon2 password
  handling, field validation, token signature and expiry checks, refresh
  token rotation, and the decisions of every endpoint. Calls into
  outside crates (jsonwebtoken, argon2, validator, uuid, rand, chrono,
  serde_json) sit behind small trusted wrappers whose contracts are stated
  next to them.
- `app/` is the Axum/SQLx server around it: environment, migrations,
  routing, database queries, multipart streaming, and JSON
  (de)serialisation (including the parse of a verified token's claims).
- `tests/` exercises the library with concrete values.
