# services_grouping

A service that fills the positions of Planning Center service groups by a
ticket lottery: every member of a group holds tickets, each draw picks
members at random, drawn members start over with no tickets and everyone
else gains one.

A member's chance in a draw grows with their tickets: the pool holds one
entry per ticket (proved of the pool in `src/`), and the entry drawn is the
index that `rand`'s `gen_range` picks uniformly over the pool. That the
index is uniform is `rand`'s promise, not something `src/` proves; the
library proves which ticket a given index draws and that no member is drawn
twice. One request draws once and builds the records of every requested
date from that one draw.

Layout:

- `src/` — the verified library (Verus). The lottery and the ticket rule
  (`actions/data/ticketing.rs`), record lookups and imports
  (`actions/data/get`, `actions/data/load`), token encryption
  (`crypto.rs`, `actions/data/save`), the decisions behind the webhooks and
  the OAuth endpoints (`api`, `oauth`, `planning_center`), identifiers
  (`ids.rs`), date-times (`date_time.rs`) and text helpers (`text.rs`).
  Calls into `uuid`, `chrono`, `magic-crypt` and `rand` stand behind small
  trusted wrappers whose contracts say what those crates do.
- `tests/` — tests of the library on concrete values.
- `app/` — the HTTP server (actix-web), the Postgres storage (diesel), the
  Planning Center HTTP client (reqwest), file reading (calamine, serde_json)
  and the copies of the library's records that carry those crates' derives.
