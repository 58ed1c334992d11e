# rate_limit_lab

Rate limiting experiments: in-memory GCRA limiters (global, per key and
hierarchical), a distributed fixed-window limiter over a shared store, a
hybrid limiter that combines the two, a REST adapter, and a harness that
runs acceptance tests and scores their evidence.

## Layout

- `src/` — the library, verified with Verus. Decisions and the events
  each instrumentation level produces, limiters (their GCRA state is
  `governor`'s and their per-request outcomes depend on the clock, so only
  the quotas they enforce and how outcomes map to decisions are stated),
  the combination rules of the hierarchical and hybrid
  limiters, the store's key naming and reply decoding, server
  configuration and its validation, the Prometheus metrics text, and the
  harness rules: the acceptance-test registry and profiles, what each test
  runs, trace records, preflight, post-run checks and verdicts.
- `app/` — the program around it: the command line, the axum/tower server,
  the Redis backend, async orchestration, file and process work of the
  harness, and the floating-point metrics and reports.
- `tests/` — tests of the library.

## Commands

- `serve [--config FILE] [--variant in-memory|distributed|hybrid]`
- `run (--profile NAME | --at AT-NNN) [--repeat N]`
- `compile --input DIR --output DIR`
