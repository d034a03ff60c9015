# backbone_events

The events domain: the registration engine and its one seat counter, the
communication schedulers, the sale-order seam, booths, typed lead rules and
the lead generation pass, the attendance desk, and the capability-scoped
calendar and ticket reads.

## Layout

- `src/` — the library, verified with Verus. Every decision of the module
  is a function here with its contract: the register gates and the arm
  rule (`seat`), the desk branch order (`desk`), the publication fence and
  request gates (`events`, `booth`), the capability envelope (`capability`,
  `b64`), the calendar body (`ics`), the intake throttle (`intake`), the
  scheduler's per-receipt decisions (`scheduler`), the lead rule checks,
  grouping and eligibility query (`leads`, `lead_groups`, `lead_sql`), the
  ticket report (`tickets`), the sale seam's commands (`sale_seam`), the
  closed vocabularies (`vocab`) and the stored entities (`model`).
  The calls into `uuid`, `chrono`, `rand`, `hmac`, `sha2` and `subtle` sit
  behind small trusted wrappers in `ids`, `text` and `capability`, each
  with a doc comment saying what its contract claims.
- `app/` — the host shell: the SQL of the repositories, the async passes
  that alternate store work with the library's decisions, the HTTP routes,
  and the serde/sqlx copies of the library's types.
- `tests/` — tests of the library on concrete values.
