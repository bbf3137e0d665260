# memory_map

The verified core of the Memory Map backend, a location-aware media archive
with a GraphQL API, PostgreSQL metadata and S3-compatible object storage.

- `src/` is the library, verified with Verus: configuration validation and its
  redacted debug rendering, the multipart-upload part arithmetic and the checks
  on upload requests and completed uploads, the outbox drain and the
  upload-session reconcile pass as state machines, the email outbox pass,
  storage-side rules (browser-settable headers, delete batching and failure
  summaries, readiness backoff), the GraphQL response cache key and which
  operation a request runs (and whether it is cached or clears the cache), account rules
  (passwords, emails, identifiers, reset tokens) and the error categories.
- `tests/` runs the library on concrete values.
- `app/` is the server around it: configuration loading, the S3 client, the
  database access, the GraphQL schema, the HTTP handlers (GraphQL and the
  multipart upload endpoint), and the background
  workers that drive the library's state machines. Run it with the argument
  `storage-bootstrap` to prepare the bucket instead of serving.
