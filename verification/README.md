# axum_erp_api

An ERP web API for letters of guarantee ("warrants"), companies and their users,
written as a verified library (`src/`, checked with Verus) and a thin HTTP service
around it (`app/`).

## Layout

- `src/text.rs` — character-level text: trimming, white-space squeezing, decimal
  formatting, NFD decomposition and upper-casing (the last two through the
  `unicode-normalization` crate and std).
- `src/sql.rs` — statements as text pieces and bound parameters, and the statement
  (SQL with `?` placeholders plus values) that they make.
- `src/warrant/` — the warrant model, the listing filters and the SQL of every store
  operation (`repository.rs`), and what the endpoints decide (`routes.rs`): file names
  of uploaded letters, write access, templates, due-date notices.
- `src/auth/` — token claims, the bearer-token extractor, and the JWT service (RS256,
  through `jsonwebtoken`).
- `src/middleware/` — the decisions of the guard in front of protected routes.
- `src/service/session_service.rs` — the sliding-expiry session policy.
- `src/vault.rs` — secret addresses and the handling of the secrets store's answers.
- `src/repository/company_repository.rs`, `src/entity/` — companies.
- `app/` — `main`, the axum handlers, database, Redis and HTTP access, and the
  JSON/database forms of the library's types.
