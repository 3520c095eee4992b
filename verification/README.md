# app_api

The account, token, session, webhook and two-factor logic of the web API,
written in Verus with its behaviour stated as contracts and proved.

- `src/` is the verified library:
  - `text.rs`: trimming, counting and decimal formatting on strings;
  - `rights.rs`: user, token and service rights, their order and union;
  - `models.rs`: identifiers, roles, tokens, sessions, accounts, webhooks, errors;
  - `tfa_tokens_storage.rs`: the store of short-lived two-factor tokens;
  - `services.rs`: the registry of services and the chat and round-end formatters;
  - `api.rs` and `api/`: the decision of every API operation, from the caller's
    token and what was read to an answer or an error;
  - `tables.rs`: the SQL statements for each table, with their bound values;
  - `database.rs`, `github.rs`: small helpers around storage and repositories;
  - `laws.rs`: properties that span several operations.
- `tests/` runs the library on concrete values.
- `app/` holds what cannot be verified: the database, HTTP clients, random
  secrets, serialisation, and the server that feeds the library what it read
  and carries out what it decided.
