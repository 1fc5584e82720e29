# lodestone

The authentication and organisation core of the Lodestone backend, written in
Verus and proved against its contracts.

- `src/` is the verified library: roles and their hierarchy, refresh-token
  generation and hashing, password hashing and verification (argon2id),
  access-token claims, signing and decoding (HS256) and the authentication of
  a request by its bearer token, the current user's profile with their
  organisations, request validation, error-to-HTTP
  mapping, configuration rules, and the authentication and
  organisation-creation flows as step functions from a state and a storage
  result to the next state and the next storage operation.
- `app/` is the HTTP server (axum), the database layer (SeaORM) that performs
  the storage operations the flows ask for, and the schema migrations.
- `tests/` exercises the library with the real outside crates.
