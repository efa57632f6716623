# w9pt-fs-state-postgres

Filesystem state in PostgreSQL: records of a filesystem, serializable commits
with an idempotency ledger, writer leases with fencing tokens, snapshot reads,
and a bounded log of changes.

The library under `src/` holds every decision and is verified with Verus. It
performs no I/O. Whatever needs the database is written as a run: a value that
names the next statement, takes what the database answered, and says what
follows. `app/` drives these runs with sea-orm and does nothing else.

## Modules

Values and their stored forms

- `text`, `bytes`, `numeric`: text, byte strings, and full-range numbers as
  canonical decimal text.
- `ids`, `values`, `limits`, `config`: identities, bounded values, limits and
  the checked configuration.
- `key`, `record`, `request`, `query`: keys, records, commit requests and reads.
- `key_codec`, `rows`, `row_codec`, `row_law`, `write_law`: keys and records as
  columns, and that reading undoes writing.

Statements and failures

- `statement`, `record_write`, `read_sql`, `invariant_sql`, `layer`: texts and
  values, and their form in the database layer.
- `sqlstate`, `constraint_law`, `database`, `retry`: what a database failure
  means, and what may be tried again.
- `failure`, `describe`, `message`: how a failure is reported, in values and in
  text.
- `schema`, `catalog`, `migration`, `validation`, `transaction`, `store`: the
  schema, its migrations, and the checks before a store opens.

Commits

- `precondition`, `lock_check`, `lock_law`, `table`, `targets`: what a commit
  reads, and whether its preconditions hold.
- `estimate`, `transition`, `change_plan`: how a commit may move the records it
  read, and what each change writes.
- `invariants`, `ancestry`: relations between records after the writes.
- `publish`, `commit`, `commit_run`: the attempt, its publication, and retries
  with recovery of commits whose outcome is open.

Leases, reads, changes

- `clock`, `testing`, `lease`, `lease_staging`, `lease_attempt`, `lease_law`
- `read`, `scan`, `directory_page`
- `change`, `poll`

## Rules from outside

The rules that every adapter of the state contract shares are a trait in
`app/rules.rs`. Its verdicts reach the library as arguments, and the contracts
say what follows from each verdict.
