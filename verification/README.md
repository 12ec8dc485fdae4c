# axum_oauth

An OAuth 2.0 authorization server built on actix-web and oxide-auth, with its
request rules, session store and decisions verified with Verus.

- `src/` is the verified library:
  - `oauth/sessions.rs`: the server-side session store, with laws on
    read-after-write, expiry, removal and isolation of keys;
  - `oauth/routes/`: the routing table and `Allow` lists, content-type
    judgement of bodies, the plain-text rejections, the sign-in redirect and
    its urlencoded callback, the sign-in, sign-up, sign-out and consent
    decisions;
  - `oauth/error.rs`, `auth_error.rs`: error messages, statuses and replies;
  - `server.rs`: listen address and session cookie settings;
  - `routes.rs`: the resource API's values and the grant-before-body rule.
- `app/` is the server itself: actix-web wiring, extractors, the session
  middleware adapter and the handlers.
- `tests/` runs the library on concrete inputs.
