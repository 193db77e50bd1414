# forgequeue

A durable job queue for images and PDFs: anonymous sessions upload files, workers claim jobs
under time-limited leases, process them into previews and metadata, and clean up after the
retention period.

The library in `src/` holds the logic and is verified with Verus:

- `domain`, `errors`, `views`: job kinds and statuses, the status transitions, the retry
  schedule, error answers and what clients are shown.
- `lease`, `queue`: one job record and the fenced operations on it (claim, heartbeat, progress,
  outputs, success, cancellation, failure, lease recovery, expiry), and the passes over the
  whole table (claim order, recovery, cleanup order, paginated listings).
- `pipeline`, `finalize`, `submission`, `events`, `worker_loop`: state machines for processing a
  claimed job, handling its outcome, submitting a job, streaming job changes and the worker's
  polling loop.
- `request`, `upload`, `policy`, `config`, `storage`, `keys`: request parsing, upload checks,
  quotas and preconditions, configuration, the object store plan and object keys.
- `imaging`, `pdf_render`, `rendered_page`, `artifacts`, `digest`, `format`, `text`: producing
  artifacts and their metadata, digests and tokens, text formatting.

`app/` is the service around it (HTTP with axum, PostgreSQL with sqlx, object storage, the
worker's driver); it performs the I/O that the library's functions and state machines ask for.
`tests/` exercises the library on concrete values.
