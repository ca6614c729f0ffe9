# testkit_backend

The session logic of a TestKit backend for the Neo4j Rust driver, verified
with Verus.

A TestKit session serves the requests of a test frontend: auto-commit
queries, explicit transactions, transaction functions with retries, and
requests for the records and summaries of results. The library decides what
each request does and what it is answered with; the caller does the driver
work that a decision names and moves messages between threads.

- `src/errors.rs`: the errors reported to the frontend, and their identifiers.
- `src/ids.rs`: the generator of backend identifiers.
- `src/record_buffer.rs`: buffered results (auto-commit results the session
  moved on from, and results whose transaction ended).
- `src/tracker.rs`: the errors of one attempt of a transaction function,
  kept so that a retry can hand them back.
- `src/scope.rs`: the results of the transaction that runs.
- `src/session.rs`: what a session keeps across requests: result buffers and
  the state of its transactions.
- `src/steps.rs`: what the session does with a request in each of its modes.
- `src/run.rs`: the session loop: its mode, the request it keeps for later,
  and the record of requests read and answered.
- `src/attempt.rs`: how driver outcomes inside an attempt of a transaction
  function change the session and the attempt's tracker.
- `app/`: the session thread around the library, with the driver and the
  channels to the frontend.
