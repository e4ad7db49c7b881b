# middle_data

A match-registry service for clan leagues: clans report matches, the service settles
them (the side whose score is not higher wins a point from the other), reverses settled
matches on request, opens rounds by date, and hands out league tokens.

- `src/` is the verified library (Verus). Requests that need the database or the
  clan-lookup services are written as small state machines (`api::record::RecordFlow`,
  `api::reverse::ReverseFlow`, `api::user::UsersFlow`, `api::league::LeaguesFlow`): each
  step takes the answer to the previous query and yields the next query or the outcome,
  and its contract says exactly which.
  - `time`: calendar instants, reading times in the accepted layouts, writing them.
  - `text`: decimal writing and small string helpers.
  - `model`: the stored records (clans, leagues, rounds, match and reversal entries).
  - `api`: settlement and reversal arithmetic, the lookup-report check, the flows, and
    the answers' shapes.
  - `util`: settings, the listen address, token claims.
- `app/` is the server: HTTP routes (axum), the MySQL queries (sqlx), the lookup
  services (reqwest), settings (YAML), token signing (jsonwebtoken); it runs the
  library's flows by performing each query they ask for.
- `tests/` exercises the library on concrete values.
