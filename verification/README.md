# naro_back

The request-handling rules of a small account-and-city web service (sign-up,
login with a session cookie, logout, the current user, and a city table),
written in Verus with their contracts proved.

- `src/` is the verified library:
  - `config.rs` database settings from optional environment values, and port parsing;
  - `error.rs` the JSON error answer;
  - `validation.rs` the form rules and the answer to a refused form;
  - `password.rs` password hashing and checking (bcrypt);
  - `session.rs` login sessions and the session cookie;
  - `model.rs` users, cities and request identities;
  - `flow.rs` every handler as a state machine that asks for one database or
    session-store operation at a time;
  - `laws.rs` properties that span handlers.
- `app/` is the server: routing, extraction, MySQL and the session store, and
  the loop that performs each operation a handler asks for.
- `tests/` runs the library on concrete values.
