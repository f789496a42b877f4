# user_service

A user directory served as an RPC endpoint over HTTP, verified with Verus.

- `src/store.rs`: the users behind the `AddUser` and `GetUser` methods, and the
  laws that relate the two.
- `src/registry.rs`: a list of users searched by id, where the first match wins.
- `src/user.rs`: the user model and the one-line description of a subscription.
- `src/transport.rs`: what the HTTP edge decides: the request text of a `GET`
  query or a `POST` body, and the status of the reply.
- `app/`: the server, the client and the walkthrough of the generated RPC types,
  which run the library behind axum and tokio.
