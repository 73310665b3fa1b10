# simprint_server

The request-screening, authorization and statement-composition rules of the
simprint server, written in Verus with their contracts proved.

## Layout

- `src/` — the verified library.
  - `text`, `paths`: character-level helpers; API path prefixes and the
    resource path of a request.
  - `auth`, `ingress`, `local_api`: which requests need a bearer token or
    local API credentials, how credentials are read from headers, the client
    address behind the proxy.
  - `authorization`: the local API authorization protocol (key, permission,
    per-minute/hour/day rate limits) as a state machine.
  - `envelope`: the protocols that decrypt JSON request bodies and seal JSON
    responses to signed-in users.
  - `sql`, `queries`, `teams`, `messages`, `extensions`, `coupons`,
    `permissions`: statements built with numbered placeholders; every
    statement is proved to bind exactly `$1..$n`.
  - `signup`: the account-creation transaction as a protocol: every
    insert with its defaults, in order, committed only after all succeeded.
  - `registration`, `records`, `requests`, `routes`: the derived values of a
    new account (invite codes, personal names, local API key), record
    defaults, request preconditions, the route table.
  - `referral`, `purge`, `invitations`: referral links (unlocking, the
    current link) and points; permanent deletion of environments; accepting
    and rejecting team invitations.
  - `listings`: the entries of a user's team and workspace listings and the
    default workspace recorded for them.
  - `ids`, `clock`: the calls into `uuid` and `chrono`, behind trusted
    wrappers whose contracts say what the crates document.
- `tests/` — tests of the library on concrete values.
- `app/` — the HTTP server around the library: configuration, axum
  middlewares that run the library's protocols, the route table. The
  database, cache and key material are traits in `app/backend.rs` that a
  deployment implements.
