# ps_workers

The decision logic of the platform's background workers — ingestion of
GitHub, Jira and Discourse activity, the ingestion pipeline, identity
resolution, AI enrichment and embedding cycles, and agentic queries —
written in Verus and proved against its contracts.

The workers run on a durable-execution runtime and talk to databases, HTTP
APIs and a container runtime. The library holds what they decide: each
step takes plain values (a cursor, a fetched page, an answer from an API)
and returns the next state and action, with a contract that says exactly
which. The loops that perform the actions, with the database, HTTP and
runtime clients they call, belong to the services that embed the library.

## Layout

- `src/text.rs`, `src/seqs.rs`: strings as character sequences (decimal
  rendering, parsing, trimming, lexicographic order) and sequence lemmas.
- `src/model.rs`, `src/errors.rs`: instants, rate limits, platforms, the
  calls into `time`, `uuid` and `serde_json`, and terminal errors.
- `src/github/`: REST and GraphQL request building and response handling,
  the ingestion cursor and its fetch plan, pull-request and review records,
  diff assembly, repository discovery and team sync.
- `src/discourse/`: the forum client's decisions and the topic-scan cursor.
- `src/ingestion/`: contribution records, author attribution, the batch and
  chunk loops, the enrichment queue and progress reports.
- `src/identity/`: identity resolution on forums.
- `src/metrics.rs`: the periods metric snapshots are recomputed over.
- `src/pipeline/`: pipeline stages, their statuses and the workflow's phase
  machine, with its laws.
- `src/reasoning/`: agentic queries (step machine, session handling, event
  stream, traces), agent pods, enrichment and embedding cycles, the model
  catalogue refresh and the pod reaper.
- `src/step_registry.rs`: stable step identities for streamed reasoning.
- `app/`: the wire formats (serde) and error display types (thiserror) of
  the library's values, the reading of stored cursors, and the two drivers
  that need no service client: forum identity resolution and agent pod
  readiness polling.
- `tests/`: tests on concrete values.
