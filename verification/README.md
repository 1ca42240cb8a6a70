# blog_server

A small blogging back end: users register and log in, receive a signed pair of
tokens (an access token and a key token tied together by a random key), and
create, read, change and delete posts stored in an in-memory SurrealDB.

`src/` is the verified library (Verus):

- `domain::auth` — credential validation, password hashing and checking,
  token claims and the decision on a token pair;
- `db_pool` — reading users, posts and uniqueness answers out of query results;
- `session` — the registration flow as a state machine, and the login decision;
- `http_server` — the replies each endpoint gives, and the tokens a request carries;
- `text` — string equality.

`app/` is the server around it: actix-web routes and middleware, the SurrealDB
queries, JWT signing and decoding with `jsonwebtoken`, and the secrets read from
the environment (`ACCESS_KEY`, `KEY_KEY`).
