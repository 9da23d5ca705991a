# tickets

A small ticket-tracking web service. Users log in, receive a signed access
token (a JSON Web Token) in a cookie, and create, list and delete their own
tickets.

- `src/` is the verified library: the error-to-status mapping, issuing and
  checking access tokens (through `jsonwebtoken` and `chrono`), the decisions
  of the authentication middleware, the login check, and the ticket store
  with the laws it keeps (ids are slot indices and never reused, a user sees
  and deletes only their own tickets).
- `app/` is the HTTP server around it (axum, cookies, JSON, tracing).
- `tests/` exercises the library on concrete values.
