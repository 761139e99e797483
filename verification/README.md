# rust_auth

The rules of a small authentication service — user accounts, named permissions, grants of
permissions to users, sign-in with signed access tokens and a one-time-password second factor —
written in Verus with their contracts proved.

* `src/` — the verified library.
  * `users`, `permissions`: the two services and their state; `user_laws`, `permission_laws`: what
    their operations promise of one another.
  * `auth_controller`, `users_controller`, `permissions_controller`: sign-in, sign-up, second factor,
    and lookups that span both services.
  * `handlers`: what each endpoint answers for a signed-in caller, including the permission it asks for.
  * `token`: access-token claims, where a request carries its token, token signing and checking,
    and permission checks; `otp`: each account's one-time-password generator and what `totp-rs` computes of it;
    `models`, `error`, `text`, `logger`.
* `app/` — the HTTP server around the library (axum routes, reading the header and query that may carry the token, locks, JSON, logging).
* `tests/` — tests of the library on concrete values.
