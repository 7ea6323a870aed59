# nextval_with_xact_lock

A PostgreSQL extension whose `nextval_with_xact_lock(regclass)` hands out the
next value of a sequence and takes a transaction-level advisory lock on that
value before the sequence is released.

- `src/` is the verified library (Verus): the sequence's step rule, the values
  reserved in backend memory, the WAL look-ahead, the advisory lock tag, the
  checks on the sequence relation and page, and the order in which the server
  work is done.
  - `catalog`: the `pg_sequence` row and the sequence tuple.
  - `cache`: the backend-local cache entry.
  - `nextval`: fetching values from the tuple.
  - `lock`: the advisory lock tag.
  - `relation`: relation kind, permission, page and WAL checks.
  - `plan`: the server work after a value is known, in order.
  - `error`: the errors raised.
- `app/` is the extension itself (pgrx): catalog and buffer access, WAL
  insertion, locking, and error reporting.
