# pinaivu_indexer

Read-only explorer indexer for Pinaivu: per-request provenance (routing
receipt and payments), live node status, a recent-receipts feed, and a job
that archives old receipts to Walrus.

- `src/` is the verified library (Verus). It holds what the service decides
  and computes: configuration from environment values (`config`), live node
  status from the coordinator's registry (`coordinator`), the API's pagination,
  node views and error replies (`api`), the Walrus reply reading and the archive
  run as a state machine (`archive`), CBOR encoding of receipts (`cbor`), a JSON
  document model (`json`), the database row model (`db`), string helpers
  (`text`) and the wall clock (`clock`).
- `app/` is the service around it: environment, Postgres queries, HTTP calls to
  the coordinator and to Walrus, the axum routes and the cron schedule.
- `tests/` exercise the library on concrete values.
