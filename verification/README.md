# ticket_management

A ticket service (create, read, update, delete and list tickets over HTTP,
stored in PostgreSQL, with an in-memory cache of tickets) whose decisions are
stated and proved with Verus.

- `src/` is the verified library:
  - `data.rs`: ticket identifiers (UUIDs held as 128 bits), statuses, titles (3 to 20 bytes) and
    descriptions (5 to 200 bytes) with their validation, drafts, patches and
    the stored ticket with its creation and update times;
  - `id_order.rs`: identifiers order as their numbers;
  - `config.rs`: the deployment environment, where the configuration lies and
    what the outcome of reading it means;
  - `error.rs`: store errors, their classification from database failures, and
    the HTTP errors with their status codes and JSON bodies;
  - `paging.rs`: the page size, the keyset page and its cursor, and the proof
    that following cursors lists every ticket once, in creation order;
  - `tickets.rs`: what each store reply means, what the cache must do after it,
    and the proofs that each operation, taken one at a time, leaves the cache
    agreeing with the table (a load that overlaps a concurrent update is not
    covered);
  - `state.rs`: the settings of the cache and the connection pool;
  - `text.rs`: decimal and UUID rendering, trimming, lower-casing and JSON
    quoting.
- `app/` is the program around it: configuration files and variables, the
  database, the cache, the HTTP server.
- `tests/` exercise the library on concrete values.
