# edu_contracts

Verified logic of an education platform's contracts: documentation
management, credential fraud detection, GDPR data exports, gamification
setup, and a diagnostics platform (performance monitoring, anomaly
detection, benchmarks, resource and cost optimization, predictions,
learner behaviour analysis, distributed tracing and regression testing).

- `src/` is the library, written in Verus: every function carries a
  `requires`/`ensures` contract over mathematical models (`Seq`, `Map`,
  spec functions), and `src/laws.rs` states and proves properties that span
  several operations.
- `tests/` runs the library on concrete values.
- `app/` holds the Soroban contracts around the library: contract storage,
  authorization, events, and the figures the platform computes in floating
  point.
