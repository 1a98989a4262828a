# worker_fullstack

A verified core for an item CRUD service that runs as a Cloudflare worker with
a Leptos front end. The library in `src/` holds the service's decisions, each
with a Verus contract; `app/` is the code around it that talks to the outside
world (the worker runtime, D1, KV, HTTP from the browser, the Leptos UI).

## Layout

- `src/text.rs` – decimal formatting and parsing, trimming, splitting, joining,
  all specified over character sequences.
- `src/errors.rs` – `AppError`, its HTTP status and display text.
- `src/types.rs` – query parameters, pagination figures and response envelopes.
- `src/domain.rs` – items, inputs and listing options.
- `src/dto.rs` – request and response bodies and their conversions.
- `src/application.rs` – the use cases (create, get, list, update, delete) as
  steps taken between the store's answers.
- `src/persistence.rs` – the SQL statements of the D1 store and update merging.
- `src/http.rs`, `src/assets.rs` – request methods, id parsing, routing and
  static asset content types.
- `src/cors.rs`, `src/security_headers.rs`, `src/rate_limit.rs`,
  `src/validation.rs` – the security layer.
- `src/ui_types.rs`, `src/ui_api.rs`, `src/ui_components.rs` – what the front
  end sends and shows.
- `app/` – the worker entry point, route handlers, the D1 store, the rate
  limiter's KV access, serde copies of the types, and the Leptos components.
