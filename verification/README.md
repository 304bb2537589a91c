# onedsixapi

The public REST API for 1D6 (accounts, mods, statistics, telemetry),
with its logic verified in Verus.

- `src/` is the verified library. `src/api/` holds the logic of the API
  service (error answers, online counts, caches with expiry, statistics,
  special days, GDPR screening, environment check, who may add or change a
  mod); `src/server/` that of the account server (error answers, username
  and password checks, the keyed rate limiter and what its answers mean,
  sign-in checks, its cache and statistics);
  `src/text.rs` and `src/language.rs` hold the shared text and language-tag
  helpers.
- `app/` is the actix-web service around it: routes, middleware, database
  access, JSON bodies and startup.
- `tests/` exercises the library on concrete values.

Instants are nanoseconds since the Unix epoch (UTC), held in `i128`.
