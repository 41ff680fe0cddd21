# pq_sig_bench

Timing benchmarks for post-quantum signature schemes (Falcon, ML-DSA at all
three levels, with Ed25519 as the baseline), with the measurement policy, the
correctness gates and the report's figures verified in Verus.

- `src/timing.rs` — the adaptive-iteration timer: budget, sample-size policy,
  nearest-rank percentiles, the sampling state machine, `measure` (warmups and
  the probe) and `measure_with_probe` (the timed loop sized by a given probe
  reading); `src/timing/cycles.rs` decides what each pass of the perf
  page's seqlock protocol read.
- `src/schemes/` — one module per row: its description and its self-check
  gate (a signature over the benchmark message verifies, the same signature
  over a tampered message does not), and the cross-verification gates of the
  ML-DSA-65 contenders. Calls into the crypto crates go through small trusted
  wrappers whose contracts name the verifiers' answers and, where the crate is
  deterministic in its inputs, the keys and signatures it derives from a seed.
  The checks on the mysten wrapper and on the RustCrypto and libcrux
  contenders have `_from` forms that take the drawn seed and randomness and
  have exact contracts; the randomised signers (Falcon, PQClean, aws-lc) are
  tied to their message and key by the sign-then-verify round trip and, for
  Falcon and PQClean, by a relation between key pair, message and signature.
- The rows: Ed25519, FN-DSA-512, FN-DSA-1024, ML-DSA-44 and ML-DSA-87 through
  aws-lc-rs, and ML-DSA-65 through mysten-mldsa-native-rs (which carries
  ML-DSA-65 only). SLH-DSA-SHA2-128s has its sizes and its self-check verdict
  but no timed row: fastcrypto 0.1.11 has no top-level SLH-DSA keygen, sign or
  verify.
- `src/report.rs` — row lookup, labels, and the integer cells of the report
  and the CSV.
- `app/` — the `report` program: thread pinning, CPU ramp, the perf cycle
  counter, the timed closures, and the floating-point rendering.

The report program writes `REPORT.md` and `results.csv` next to its manifest.
